use bottle_bid::database_ops::{
    find_player, get_player_elo_from_db, inc_draws, inc_losses, inc_outcome, inc_wins,
    update_concurrent_games, update_elo, update_elos, update_game_masters, EloAction, EloEvent,
    EloPhase, EloUpdate, Query, Value,
};
use bottle_bid::BidError;

fn parts(query: &Query) -> (String, String) {
    (query.statement.clone(), format!("{:?}", query.values))
}

fn after(events: Vec<EloEvent>) -> EloUpdate {
    let mut update = update_elos(&String::from("ann"), &String::from("bob"));
    for event in events {
        update.advance(event);
    }
    update
}

#[test]
fn statements_that_count() {
    let ann = String::from("ann");
    let wins = inc_wins(&ann);
    assert_eq!(wins.statement, "UPDATE players SET wins = wins + 1 where username = ?");
    assert_eq!(wins.values.len(), 1);
    assert!(matches!(&wins.values[0], Value::Text(name) if name == "ann"));
    assert_eq!(
        inc_losses(&ann).statement,
        "UPDATE players SET losses = losses + 1 where username = ?"
    );
    assert_eq!(
        inc_draws(&ann).statement,
        "UPDATE players SET draws = draws + 1 where username = ?"
    );
}

#[test]
fn outcome_of_a_count() {
    assert_eq!(inc_outcome(true), Ok(()));
    assert_eq!(inc_outcome(false), Err(BidError::PlayerAAbandoned));
}

#[test]
fn statements_about_ratings() {
    let ann = String::from("ann");
    assert_eq!(
        parts(&get_player_elo_from_db(&ann)),
        (
            String::from("SELECT elo FROM players where username = ?"),
            String::from("[Text(\"ann\")]")
        )
    );
    assert_eq!(
        parts(&update_elo(&ann, 1234)),
        (
            String::from("UPDATE players SET elo = ? WHERE username = ?"),
            String::from("[Number(1234), Text(\"ann\")]")
        )
    );
}

#[test]
fn statement_that_looks_a_player_up() {
    assert_eq!(
        parts(&find_player(&String::from("ann"))),
        (
            String::from("SELECT * from players WHERE username = ?"),
            String::from("[Text(\"ann\")]")
        )
    );
}

#[test]
fn statements_about_statistics() {
    assert_eq!(
        parts(&update_game_masters(4)),
        (String::from("UPDATE server_stats SET game_masters = ?"), String::from("[Number(4)]"))
    );
    assert_eq!(
        parts(&update_concurrent_games(-2)),
        (
            String::from("UPDATE server_stats SET concurrent_games = ?"),
            String::from("[Number(-2)]")
        )
    );
}

#[test]
fn ratings_are_read_and_then_written() {
    let mut update = after(vec![]);
    match update.action() {
        EloAction::Read(query) => assert_eq!(parts(&query).1, "[Text(\"ann\")]"),
        other => panic!("{:?}", other),
    }
    update.advance(EloEvent::Read(Some(1000)));
    match update.action() {
        EloAction::Read(query) => assert_eq!(parts(&query).1, "[Text(\"bob\")]"),
        other => panic!("{:?}", other),
    }
    update.advance(EloEvent::Read(Some(1400)));
    match update.action() {
        EloAction::Write(query) => {
            assert_eq!(parts(&query).1, "[Number(1029), Text(\"ann\")]")
        }
        other => panic!("{:?}", other),
    }
    update.advance(EloEvent::Written { done: true });
    match update.action() {
        EloAction::Write(query) => {
            assert_eq!(parts(&query).1, "[Number(1370), Text(\"bob\")]")
        }
        other => panic!("{:?}", other),
    }
    update.advance(EloEvent::Written { done: true });
    assert!(matches!(update.action(), EloAction::Finish(Ok(()))));
}

#[test]
fn nobody_falls_below_the_floor() {
    let update = after(vec![EloEvent::Read(Some(100)), EloEvent::Read(Some(100))]);
    assert_eq!(update.phase, EloPhase::WritingWinner { new_winner: 116, new_loser: 100 });
    let update = after(vec![EloEvent::Read(Some(20)), EloEvent::Read(Some(20))]);
    assert_eq!(update.phase, EloPhase::WritingWinner { new_winner: 100, new_loser: 100 });
    let update = after(vec![EloEvent::Read(Some(900)), EloEvent::Read(Some(110))]);
    assert_eq!(update.phase, EloPhase::WritingWinner { new_winner: 900, new_loser: 109 });
    // A negative rating is read as one beyond the scale.
    let update = after(vec![EloEvent::Read(Some(-1)), EloEvent::Read(Some(1000))]);
    assert_eq!(update.phase, EloPhase::WritingWinner { new_winner: 100, new_loser: 1000 });
}

#[test]
fn failed_statement_ends_the_update() {
    let courses = vec![
        vec![EloEvent::Read(None)],
        vec![EloEvent::Read(Some(1000)), EloEvent::Read(None)],
        vec![
            EloEvent::Read(Some(1000)),
            EloEvent::Read(Some(1000)),
            EloEvent::Written { done: false },
        ],
        vec![
            EloEvent::Read(Some(1000)),
            EloEvent::Read(Some(1000)),
            EloEvent::Written { done: true },
            EloEvent::Written { done: false },
        ],
    ];
    for events in courses {
        let mut update = after(events);
        assert_eq!(update.phase, EloPhase::Finished(Err(BidError::DbCannotExecuteQuery)));
        update.advance(EloEvent::Read(Some(1)));
        assert_eq!(update.phase, EloPhase::Finished(Err(BidError::DbCannotExecuteQuery)));
    }
}

#[test]
fn events_that_are_not_due_do_not_move_an_update() {
    let update = after(vec![EloEvent::Written { done: true }]);
    assert_eq!(update.phase, EloPhase::ReadingWinner);
}

#[test]
fn update_takes_four_events() {
    let mut update = after(vec![]);
    let mut events: u32 = 0;
    loop {
        match update.action() {
            EloAction::Read(_) => update.advance(EloEvent::Read(Some(1200))),
            EloAction::Write(_) => update.advance(EloEvent::Written { done: true }),
            EloAction::Finish(outcome) => {
                assert_eq!(outcome, Ok(()));
                break;
            }
        }
        events += 1;
    }
    assert_eq!(events, 4);
}
