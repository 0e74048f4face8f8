use bottle_bid::game_master::{
    craft_game_end_proto, create_game_result_abandoned, handle_player_winning_result,
    make_end_messages, GameMaster, MasterAction, MasterEvent, MasterPhase, GM_BACKOFF,
};
use bottle_bid::proto_utils::{GameEndResult, MsgType};
use bottle_bid::{BidError, Event, GameResult, GameResultType, GameStatus};

fn names(result: &GameResult) -> (u32, &str, &str, GameStatus) {
    (result.id, result.winner.as_str(), result.loser.as_str(), result.status)
}

fn new_game() -> MasterEvent {
    MasterEvent::Mail(Some(Event::NewGame {
        name_a: String::from("ann"),
        name_b: String::from("bob"),
        stream_a: 1,
        stream_b: 2,
    }))
}

fn playing() -> GameMaster {
    let master = GameMaster::new(3).advance(MasterEvent::Told).advance(new_game());
    match master.action() {
        MasterAction::Play { name_a, name_b, stream_a, stream_b } => {
            assert_eq!((name_a.as_str(), name_b.as_str()), ("ann", "bob"));
            assert_eq!((stream_a, stream_b), (1, 2));
        }
        other => panic!("{:?}", other),
    }
    master
}

fn reported(master: &GameMaster) -> GameResult {
    match master.action() {
        MasterAction::Tell(Event::GameOver { result }) => result,
        other => panic!("{:?}", other),
    }
}

#[test]
fn end_message_says_how_the_game_ended() {
    for result in vec![GameEndResult::Win, GameEndResult::Loss, GameEndResult::Draw] {
        let msg = craft_game_end_proto(result);
        assert_eq!(msg.msg_type, MsgType::GameEnd);
        assert_eq!(msg.game_end.unwrap().result, result);
    }
}

#[test]
fn each_player_is_told_the_own_end() {
    let ends = vec![
        (GameResultType::PlayerAWins, GameEndResult::Win, GameEndResult::Loss),
        (GameResultType::PlayerBWins, GameEndResult::Loss, GameEndResult::Win),
        (GameResultType::Draw, GameEndResult::Draw, GameEndResult::Draw),
    ];
    for (result, end_a, end_b) in ends {
        let (to_a, to_b) = make_end_messages(result);
        assert_eq!(to_a.game_end.unwrap().result, end_a);
        assert_eq!(to_b.game_end.unwrap().result, end_b);
    }
}

#[test]
fn abandoned_game_is_lost_by_who_left() {
    let ann = String::from("ann");
    let bob = String::from("bob");
    let result =
        create_game_result_abandoned(1, ann.clone(), bob.clone(), BidError::PlayerAAbandoned);
    assert_eq!(names(&result), (1, "bob", "ann", GameStatus::Abandoned));
    let result =
        create_game_result_abandoned(2, ann.clone(), bob.clone(), BidError::PlayerBAbandoned);
    assert_eq!(names(&result), (2, "ann", "bob", GameStatus::Abandoned));
    let result = create_game_result_abandoned(3, ann, bob, BidError::ErrorOnRead);
    assert_eq!(names(&result), (3, "ann", "bob", GameStatus::Abandoned));
}

#[test]
fn won_game_has_a_result_once_both_were_told() {
    let ann = String::from("ann");
    let bob = String::from("bob");
    let result = handle_player_winning_result(
        5,
        ann.clone(),
        Ok(()),
        bob.clone(),
        Ok(()),
        GameResultType::PlayerAWins,
    );
    assert_eq!(names(&result.unwrap()), (5, "ann", "bob", GameStatus::Completed));
    let result =
        handle_player_winning_result(5, ann, Ok(()), bob, Ok(()), GameResultType::PlayerBWins);
    assert_eq!(names(&result.unwrap()), (5, "bob", "ann", GameStatus::Completed));
}

#[test]
fn error_with_the_winner_comes_first() {
    let sent_a: Result<(), BidError> = Err(BidError::ErrorOnSend);
    let sent_b: Result<(), BidError> = Err(BidError::ErrorProtobufEncoding);
    let outcome = |sent_a: Result<(), BidError>, sent_b: Result<(), BidError>, result| {
        handle_player_winning_result(
            0,
            String::from("ann"),
            sent_a,
            String::from("bob"),
            sent_b,
            result,
        )
        .unwrap_err()
    };
    assert_eq!(outcome(sent_a, sent_b, GameResultType::PlayerAWins), BidError::ErrorOnSend);
    assert_eq!(
        outcome(sent_a, sent_b, GameResultType::PlayerBWins),
        BidError::ErrorProtobufEncoding
    );
    assert_eq!(
        outcome(Ok(()), sent_b, GameResultType::PlayerAWins),
        BidError::ErrorProtobufEncoding
    );
    assert_eq!(outcome(sent_a, Ok(()), GameResultType::PlayerBWins), BidError::ErrorOnSend);
}

#[test]
fn game_master_asks_for_players_first() {
    let master = GameMaster::new(3);
    assert!(matches!(master.action(), MasterAction::Tell(Event::NeedPlayers { id: 3 })));
    let master = master.advance(MasterEvent::Told);
    assert!(matches!(master.action(), MasterAction::Receive));
}

#[test]
fn game_master_rests_when_there_are_no_players() {
    let master = GameMaster::new(3)
        .advance(MasterEvent::Told)
        .advance(MasterEvent::Mail(Some(Event::NoPlayersAvailable)));
    assert_eq!(GM_BACKOFF, 25);
    assert!(matches!(master.action(), MasterAction::Rest(25)));
    let master = master.advance(MasterEvent::Rested);
    assert!(matches!(master.action(), MasterAction::Tell(Event::NeedPlayers { id: 3 })));
}

#[test]
fn other_mail_is_ignored() {
    let master = GameMaster::new(3)
        .advance(MasterEvent::Told)
        .advance(MasterEvent::Mail(Some(Event::NeedPlayers { id: 9 })));
    assert!(matches!(master.action(), MasterAction::Receive));
    let master = master.advance(MasterEvent::Mail(None));
    assert!(matches!(master.action(), MasterAction::Stop));
}

#[test]
fn won_game_is_reported() {
    let master = playing().advance(MasterEvent::Played(Ok(GameResultType::PlayerBWins)));
    match master.action() {
        MasterAction::Deliver { stream_a, to_a, stream_b, to_b } => {
            assert_eq!((stream_a, stream_b), (1, 2));
            assert_eq!(to_a.game_end.unwrap().result, GameEndResult::Loss);
            assert_eq!(to_b.game_end.unwrap().result, GameEndResult::Win);
        }
        other => panic!("{:?}", other),
    }
    let master = master.advance(MasterEvent::Delivered(Ok(()), Ok(())));
    assert_eq!(names(&reported(&master)), (3, "bob", "ann", GameStatus::Completed));
    let master = master.advance(MasterEvent::Told);
    assert!(matches!(master.action(), MasterAction::Rest(25)));
    let master = master.advance(MasterEvent::Rested);
    assert!(matches!(master.action(), MasterAction::Tell(Event::NeedPlayers { id: 3 })));
}

#[test]
fn drawn_game_is_reported_even_if_nobody_heard() {
    let master = playing()
        .advance(MasterEvent::Played(Ok(GameResultType::Draw)))
        .advance(MasterEvent::Delivered(
            Err(BidError::ErrorOnSend),
            Err(BidError::ErrorOnSend),
        ));
    assert_eq!(names(&reported(&master)), (3, "ann", "bob", GameStatus::Draw));
}

#[test]
fn won_game_nobody_could_be_told_of_is_reported_without_names() {
    let master = playing()
        .advance(MasterEvent::Played(Ok(GameResultType::PlayerAWins)))
        .advance(MasterEvent::Delivered(Ok(()), Err(BidError::ErrorOnSend)));
    assert_eq!(names(&reported(&master)), (3, "", "", GameStatus::Completed));
}

#[test]
fn abandoned_game_is_reported() {
    let master = playing().advance(MasterEvent::Played(Err(BidError::PlayerAAbandoned)));
    assert_eq!(names(&reported(&master)), (3, "bob", "ann", GameStatus::Abandoned));
    let master = master.advance(MasterEvent::Told);
    assert!(matches!(master.phase, MasterPhase::Resting));
}

#[test]
fn events_that_are_not_due_do_not_move_a_game_master() {
    let master = GameMaster::new(3).advance(new_game()).advance(MasterEvent::Rested);
    assert!(matches!(master.phase, MasterPhase::Asking));
}

#[test]
fn game_master_tells_in_order() {
    let mut master = GameMaster::new(3);
    let mut told: Vec<String> = Vec::new();
    let mut mails: u32 = 0;
    while told.len() < 5 {
        let event = match master.action() {
            MasterAction::Tell(Event::NeedPlayers { id }) => {
                told.push(format!("need {}", id));
                MasterEvent::Told
            }
            MasterAction::Tell(Event::GameOver { result }) => {
                told.push(format!("over {} {}", result.winner, result.loser));
                MasterEvent::Told
            }
            MasterAction::Receive => {
                mails += 1;
                if mails == 2 {
                    MasterEvent::Mail(Some(Event::NoPlayersAvailable))
                } else {
                    new_game()
                }
            }
            MasterAction::Play { .. } => MasterEvent::Played(Err(BidError::PlayerAAbandoned)),
            MasterAction::Rest(_) => MasterEvent::Rested,
            other => panic!("{:?}", other),
        };
        master = master.advance(event);
    }
    assert_eq!(told, vec!["need 3", "over bob ann", "need 3", "need 3", "over bob ann"]);
}
