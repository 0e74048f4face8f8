use bottle_bid::database_ops::Value;
use bottle_bid::player_management::{FreePlayerSearch, SearchAction};
use bottle_bid::player_manager::{
    handle_need_players, ManagerEffect, PlayerManager, Turn, COOLDOWN_MAX, COOLDOWN_MIN,
    LATEST_TIME, MAX_GAMES, STATS_UPDATE_INTERVAL,
};
use bottle_bid::player_table::PlayerTable;
use bottle_bid::proto_utils::{Exchange, MsgType, ServerRequest};
use bottle_bid::{BidError, Event, GameResult, GameStatus, Player};

const NOW: i64 = 1_000_000_000;
const MILLI: i64 = 1_000_000;

fn player(name: &str, stream: u64) -> Player {
    Player {
        id: 0,
        name: String::from(name),
        wins: 0,
        losses: 0,
        in_game: false,
        stream,
        player_cooldown: 0,
        player_wait_time: 0,
    }
}

/// A manager with players on the streams 1, 2, 3 and so on, and game master 0.
fn manager(names: Vec<&str>) -> PlayerManager {
    let mut manager = PlayerManager::new(NOW, 7, 1);
    let mut stream: u64 = 1;
    for name in names {
        let reply = on_event(&mut manager, Event::NewPlayer { player: player(name, stream) }, NOW);
        assert_eq!(reply.effects.len(), 0);
        assert!(reply.search.is_none());
        stream += 1;
    }
    manager
}

fn over(winner: &str, loser: &str, status: GameStatus) -> Event {
    Event::GameOver {
        result: GameResult { id: 0, winner: String::from(winner), loser: String::from(loser), status },
    }
}

fn handling_over(winner: &str, loser: &str, status: GameStatus) -> Turn {
    Turn::Handling { event: over(winner, loser, status) }
}

/// What came of an event.
struct Handled {
    effects: Vec<ManagerEffect>,
    search: Option<FreePlayerSearch>,
}

/// Handles an event in all its steps, while the clock stands still. Who comes out
/// of a game rests for the given milliseconds, or by chance.
fn handle(
    manager: &mut PlayerManager,
    event: Event,
    now: i64,
    rests: Option<(i64, i64)>,
) -> Handled {
    let mut handled = Handled { effects: Vec::new(), search: None };
    let mut turn = Turn::Received { event };
    loop {
        if let Turn::Done = turn {
            return handled;
        }
        assert!(manager.accepts(&turn, now));
        let reply = match (rests, &turn) {
            (Some((winner_rest, _)), Turn::WinnerReturns { .. }) => {
                manager.take_with_rest(turn, now, winner_rest)
            }
            (Some((_, loser_rest)), Turn::LoserReturns { .. }) => {
                manager.take_with_rest(turn, now, loser_rest)
            }
            _ => manager.take(turn, now),
        };
        handled.effects.extend(reply.effects);
        handled.search = handled.search.or(reply.search);
        turn = reply.turn;
    }
}

fn on_event(manager: &mut PlayerManager, event: Event, now: i64) -> Handled {
    handle(manager, event, now, None)
}

fn on_event_with_rests(
    manager: &mut PlayerManager,
    event: Event,
    now: i64,
    winner_rest: i64,
    loser_rest: i64,
) -> Handled {
    handle(manager, event, now, Some((winner_rest, loser_rest)))
}

/// The number of running games that an effect writes to the statistics.
fn running_games(effect: &ManagerEffect) -> i64 {
    match effect {
        ManagerEffect::UpdateStats(query) => {
            assert_eq!(query.statement, "UPDATE server_stats SET concurrent_games = ?");
            assert_eq!(query.values.len(), 1);
            match query.values[0] {
                Value::Number(count) => count,
                _ => panic!("{:?}", query),
            }
        }
        other => panic!("{:?}", other),
    }
}

/// The streams that a search would ask, each of which answers.
fn asked(mut search: FreePlayerSearch) -> (FreePlayerSearch, Vec<u64>) {
    let mut streams: Vec<u64> = Vec::new();
    loop {
        match search.action() {
            SearchAction::Send(stream, _) => {
                streams.push(stream);
                search.advance(Exchange::Sent(Ok(())));
            }
            SearchAction::Receive(_) => {
                search.advance(Exchange::Received(Ok(ServerRequest::new(MsgType::Ack))));
            }
            SearchAction::Finish => {
                streams.sort();
                return (search, streams);
            }
        }
    }
}

fn search_at(manager: &mut PlayerManager, now: i64) -> FreePlayerSearch {
    let event = Event::NeedPlayers { id: 0 };
    on_event(manager, event, now).search.unwrap()
}

fn free_at(manager: &mut PlayerManager, now: i64) -> Vec<u64> {
    let search = search_at(manager, now);
    asked(search).1
}

fn start_game(manager: &mut PlayerManager) -> Event {
    let search = search_at(manager, NOW);
    manager.finish_search(asked(search).0).unwrap()
}

#[test]
fn constants_of_the_manager() {
    assert_eq!(MAX_GAMES, 4);
    assert_eq!(STATS_UPDATE_INTERVAL, 500 * MILLI);
    assert_eq!((COOLDOWN_MIN, COOLDOWN_MAX), (20, 150));
    assert_eq!(LATEST_TIME, i64::MAX - 500 * MILLI);
}

#[test]
fn two_players_are_matched() {
    let mut manager = manager(vec!["ann", "bob"]);
    match start_game(&mut manager) {
        Event::NewGame { name_a, name_b, stream_a, stream_b } => {
            assert_ne!(name_a, name_b);
            assert_ne!(stream_a, stream_b);
            assert_eq!(if name_a == "ann" { 1 } else { 2 }, stream_a);
            assert_eq!(if name_b == "ann" { 1 } else { 2 }, stream_b);
        }
        other => panic!("{:?}", other),
    }
    // Both are in a game now.
    assert_eq!(free_at(&mut manager, NOW), Vec::<u64>::new());
}

#[test]
fn third_player_stays_in_the_pool() {
    let mut manager = manager(vec!["ann", "bob", "cid"]);
    start_game(&mut manager);
    assert_eq!(free_at(&mut manager, NOW).len(), 1);
    assert!(matches!(start_game(&mut manager), Event::NoPlayersAvailable));
    assert_eq!(free_at(&mut manager, NOW).len(), 1);
}

#[test]
fn one_player_is_too_few() {
    let mut manager = manager(vec!["ann"]);
    assert!(matches!(start_game(&mut manager), Event::NoPlayersAvailable));
    assert_eq!(free_at(&mut manager, NOW), vec![1]);
}

#[test]
fn players_who_do_not_answer_are_forgotten() {
    let mut manager = manager(vec!["ann", "bob"]);
    let mut search = search_at(&mut manager, NOW);
    search.advance(Exchange::Sent(Err(BidError::ErrorOnSend)));
    search.advance(Exchange::Sent(Ok(())));
    search.advance(Exchange::Received(Err(BidError::PlayerTimedOut)));
    assert!(matches!(search.action(), SearchAction::Finish));
    assert!(matches!(manager.finish_search(search), Some(Event::NoPlayersAvailable)));
    assert_eq!(free_at(&mut manager, NOW), Vec::<u64>::new());
}

#[test]
fn matching_needs_two_players_of_the_pool() {
    let ann = String::from("ann");
    let bob = String::from("bob");
    let mut table = PlayerTable::new();
    table.insert(player("ann", 1));
    let (started, reply) = handle_need_players(&mut table, &vec![ann.clone()]);
    assert!(!started);
    assert!(matches!(reply, Some(Event::NoPlayersAvailable)));
    let (started, reply) = handle_need_players(&mut table, &vec![bob.clone(), ann.clone()]);
    assert!(!started);
    assert!(matches!(reply, Some(Event::NoPlayersAvailable)));
    assert_eq!(table.free_players(NOW).len(), 1);
    // Without the second player there is no game, and no word to the game master.
    let (started, reply) = handle_need_players(&mut table, &vec![ann.clone(), bob.clone()]);
    assert!(!started);
    assert!(reply.is_none());
    assert_eq!(table.free_players(NOW).len(), 0);
}

#[test]
fn unknown_game_master_is_not_served() {
    let mut manager = manager(vec!["ann", "bob"]);
    let reply = on_event(&mut manager, Event::NeedPlayers { id: 1 }, NOW);
    assert!(reply.search.is_none());
    let mut manager = PlayerManager::new(NOW, 7, 4);
    for id in 0..4 {
        assert!(on_event(&mut manager, Event::NeedPlayers { id }, NOW).search.is_some());
    }
    assert!(on_event(&mut manager, Event::NeedPlayers { id: 4 }, NOW).search.is_none());
}

#[test]
fn completed_game_counts_a_win_and_a_loss() {
    let mut manager = manager(vec!["ann", "bob"]);
    start_game(&mut manager);
    let reply =
        on_event_with_rests(&mut manager, over("ann", "bob", GameStatus::Completed), NOW, 20, 149);
    assert_eq!(reply.effects.len(), 2);
    assert!(matches!(&reply.effects[0], ManagerEffect::IncWins(name) if name == "ann"));
    assert!(matches!(&reply.effects[1], ManagerEffect::IncLosses(name) if name == "bob"));
    assert_eq!(free_at(&mut manager, NOW + 20 * MILLI), Vec::<u64>::new());
    assert_eq!(free_at(&mut manager, NOW + 20 * MILLI + 1), vec![1]);
    assert_eq!(free_at(&mut manager, NOW + 149 * MILLI + 1), vec![1, 2]);
}

#[test]
fn draw_is_counted_for_both() {
    let mut manager = manager(vec!["ann", "bob"]);
    start_game(&mut manager);
    let reply = on_event_with_rests(&mut manager, over("ann", "bob", GameStatus::Draw), NOW, 50, 60);
    assert_eq!(reply.effects.len(), 4);
    assert!(matches!(&reply.effects[0], ManagerEffect::IncDraws(name) if name == "ann"));
    assert!(matches!(&reply.effects[1], ManagerEffect::IncDraws(name) if name == "bob"));
    assert!(matches!(&reply.effects[2], ManagerEffect::IncWins(name) if name == "ann"));
    assert!(matches!(&reply.effects[3], ManagerEffect::IncLosses(name) if name == "bob"));
}

#[test]
fn deserter_is_shut_out_and_the_winner_is_told() {
    let mut manager = manager(vec!["ann", "bob"]);
    start_game(&mut manager);
    let reply =
        on_event_with_rests(&mut manager, over("ann", "bob", GameStatus::Abandoned), NOW, 30, 40);
    assert_eq!(reply.effects.len(), 3);
    assert!(matches!(&reply.effects[0], ManagerEffect::Shutdown(2)));
    assert!(matches!(
        &reply.effects[1],
        ManagerEffect::Send(1, msg) if msg.msg_type == MsgType::GameAbort
    ));
    assert!(matches!(&reply.effects[2], ManagerEffect::IncWins(name) if name == "ann"));
    assert_eq!(free_at(&mut manager, NOW + 1000 * MILLI), vec![1]);
}

#[test]
fn winner_who_is_gone_is_not_told() {
    let mut manager = manager(vec!["bob"]);
    let reply =
        on_event_with_rests(&mut manager, over("ann", "bob", GameStatus::Abandoned), NOW, 30, 40);
    assert_eq!(reply.effects.len(), 1);
    assert!(matches!(&reply.effects[0], ManagerEffect::Shutdown(1)));
    assert_eq!(free_at(&mut manager, NOW + 1000 * MILLI), Vec::<u64>::new());
}

#[test]
fn report_without_names_touches_nobody() {
    let mut manager = manager(vec!["ann", "bob"]);
    start_game(&mut manager);
    let reply = on_event(&mut manager, over("", "", GameStatus::Completed), NOW);
    assert_eq!(reply.effects.len(), 0);
    assert_eq!(free_at(&mut manager, NOW + 1000 * MILLI), Vec::<u64>::new());
}

#[test]
fn deserter_must_be_known() {
    let manager = manager(vec!["ann"]);
    assert!(!manager.accepts(&handling_over("ann", "bob", GameStatus::Abandoned), NOW));
    assert!(manager.accepts(&handling_over("ann", "bob", GameStatus::Completed), NOW));
    assert!(manager.accepts(&handling_over("bob", "ann", GameStatus::Abandoned), NOW));
    assert!(!manager.accepts(&Turn::Done, LATEST_TIME + 1));
    assert!(manager.accepts(&Turn::Done, LATEST_TIME));
    assert!(manager.has_room_for_a_game());
}

#[test]
fn rest_is_left_to_chance_within_bounds() {
    for seed in 0..50 {
        let mut manager = PlayerManager::new(NOW, seed, 1);
        on_event(&mut manager, Event::NewPlayer { player: player("ann", 1) }, NOW);
        on_event(&mut manager, Event::NewPlayer { player: player("bob", 2) }, NOW);
        start_game(&mut manager);
        on_event(&mut manager, over("ann", "bob", GameStatus::Completed), NOW);
        assert_eq!(free_at(&mut manager, NOW + 20 * MILLI), Vec::<u64>::new());
        assert_eq!(free_at(&mut manager, NOW + 149 * MILLI + 1), vec![1, 2]);
    }
}

#[test]
fn rests_differ_from_game_to_game() {
    let mut manager = manager(vec!["ann"]);
    let mut rests: Vec<i64> = Vec::new();
    for round in 0..20 {
        let now = NOW + round * 1000 * MILLI;
        on_event(&mut manager, over("ann", "", GameStatus::Completed), now);
        let mut rest: i64 = 20;
        while free_at(&mut manager, now + rest * MILLI + 1).is_empty() {
            rest += 1;
        }
        assert!(rest < 150);
        if !rests.contains(&rest) {
            rests.push(rest);
        }
    }
    assert!(rests.len() > 1);
}

#[test]
fn running_games_are_written_twice_a_second() {
    let mut manager = manager(vec!["ann", "bob"]);
    let reply = on_event(&mut manager, Event::NoPlayersAvailable, NOW + 500 * MILLI);
    assert_eq!(reply.effects.len(), 0);
    let reply = on_event(&mut manager, Event::NoPlayersAvailable, NOW + 500 * MILLI + 1);
    assert_eq!(reply.effects.len(), 1);
    assert_eq!(running_games(&reply.effects[0]), 0);
    start_game(&mut manager);
    let reply = on_event(&mut manager, Event::NoPlayersAvailable, NOW + 1000 * MILLI + 1);
    assert_eq!(reply.effects.len(), 0);
    let reply = on_event(&mut manager, 
        over("ann", "bob", GameStatus::Completed),
        NOW + 1000 * MILLI + 2,
    );
    // What is written is the number before the game ended.
    assert_eq!(running_games(&reply.effects[0]), 1);
    let reply = on_event(&mut manager, Event::NoPlayersAvailable, NOW + 2000 * MILLI);
    assert_eq!(running_games(&reply.effects[0]), 0);
}

#[test]
fn games_are_counted() {
    let mut manager = manager(vec!["ann", "bob", "cid", "dan"]);
    start_game(&mut manager);
    start_game(&mut manager);
    on_event(&mut manager, over("ann", "bob", GameStatus::Completed), NOW);
    let reply = on_event(&mut manager, Event::NoPlayersAvailable, NOW + 600 * MILLI);
    assert_eq!(running_games(&reply.effects[0]), 1);
}

#[test]
fn connection_of_a_player_in_the_pool() {
    let manager = manager(vec!["ann", "bob"]);
    assert_eq!(manager.stream_of(&String::from("bob")), Some(2));
    assert_eq!(manager.stream_of(&String::from("cid")), None);
}

#[test]
fn each_rest_begins_with_the_own_return() {
    let mut manager = manager(vec!["ann", "bob"]);
    start_game(&mut manager);
    let reply = manager.take(handling_over("ann", "bob", GameStatus::Draw), NOW);
    assert_eq!(reply.effects.len(), 2);
    assert!(matches!(&reply.turn, Turn::WinnerReturns { .. }));
    // The draws took 100 milliseconds to write, and the win took 200.
    let winner_at = NOW + 100 * MILLI;
    let loser_at = NOW + 300 * MILLI;
    let reply = manager.take_with_rest(reply.turn, winner_at, 20);
    assert!(matches!(&reply.effects[0], ManagerEffect::IncWins(name) if name == "ann"));
    let reply = manager.take_with_rest(reply.turn, loser_at, 20);
    assert!(matches!(&reply.effects[0], ManagerEffect::IncLosses(name) if name == "bob"));
    assert!(matches!(&reply.turn, Turn::Done));
    assert_eq!(free_at(&mut manager, winner_at + 20 * MILLI), Vec::<u64>::new());
    assert_eq!(free_at(&mut manager, winner_at + 20 * MILLI + 1), vec![1]);
    assert_eq!(free_at(&mut manager, loser_at + 20 * MILLI), vec![1]);
    assert_eq!(free_at(&mut manager, loser_at + 20 * MILLI + 1), vec![1, 2]);
}

#[test]
fn search_sees_a_cooldown_that_ended_meanwhile() {
    let mut manager = manager(vec!["ann"]);
    on_event_with_rests(&mut manager, over("ann", "", GameStatus::Completed), NOW, 20, 20);
    let rested = NOW + 20 * MILLI + 1;
    let received = Turn::Received { event: Event::NeedPlayers { id: 0 } };
    let reply = manager.take(received, NOW);
    assert!(matches!(&reply.turn, Turn::Handling { .. }));
    let search = manager.take(reply.turn, rested).search.unwrap();
    assert_eq!(asked(search).1, vec![1]);
}

#[test]
fn statistics_take_a_step_of_their_own() {
    let mut manager = manager(vec![]);
    let due = NOW + 500 * MILLI + 1;
    let reply = manager.take(Turn::Received { event: Event::NoPlayersAvailable }, due);
    assert_eq!(reply.effects.len(), 0);
    assert!(matches!(&reply.turn, Turn::StatsDue { .. }));
    // The interval begins when the clock is looked at again.
    let reply = manager.take(reply.turn, due + 7);
    assert_eq!(running_games(&reply.effects[0]), 0);
    assert!(matches!(&reply.turn, Turn::Handling { .. }));
    let reply = manager.take(reply.turn, due + 8);
    assert!(matches!(&reply.turn, Turn::Done));
    let next = due + 7 + 500 * MILLI;
    let reply = manager.take(Turn::Received { event: Event::NoPlayersAvailable }, next);
    assert!(matches!(&reply.turn, Turn::Handling { .. }));
    let reply = manager.take(Turn::Received { event: Event::NoPlayersAvailable }, next + 1);
    assert!(matches!(&reply.turn, Turn::StatsDue { .. }));
}

#[test]
fn game_over_takes_five_steps_at_most() {
    let mut manager = manager(vec!["ann", "bob"]);
    let mut turn = Turn::Received { event: over("ann", "bob", GameStatus::Completed) };
    let mut steps: u32 = 0;
    loop {
        if let Turn::Done = turn {
            break;
        }
        turn = manager.take(turn, NOW + 1000 * MILLI).turn;
        steps += 1;
    }
    assert_eq!(steps, 5);
}
