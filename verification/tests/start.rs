use bottle_bid::manager_start::{ManagerStart, StartAction, StartEvent, StartPhase};
use bottle_bid::player_manager::Turn;
use bottle_bid::{BidError, Event};

const NOW: i64 = 1_000_000_000;

/// Runs a start in which the first so many connections can be had. Gives the game
/// masters that were started and the start itself.
fn run(connections: u32) -> (Vec<u32>, ManagerStart) {
    let mut start = ManagerStart::new(NOW, 7);
    let mut opened: u32 = 0;
    let mut spawned: Vec<u32> = Vec::new();
    loop {
        match start.action() {
            StartAction::OpenDatabase | StartAction::OpenForGameMaster(_) => {
                start.advance(StartEvent::Opened { available: opened < connections });
                opened += 1;
            }
            StartAction::Spawn(id) => {
                spawned.push(id);
                start.advance(StartEvent::Spawned);
            }
            StartAction::UpdateStats(query) => {
                assert_eq!(query.statement, "UPDATE server_stats SET game_masters = ?");
                assert_eq!(format!("{:?}", query.values), "[Number(4)]");
                start.advance(StartEvent::Written);
            }
            StartAction::Finish => return (spawned, start),
        }
    }
}

/// The numbers below 6 of the game masters that are known after a start.
fn known(start: ManagerStart) -> Vec<u32> {
    let mut manager = start.finish().unwrap().unwrap();
    (0..6)
        .filter(|id| {
            let turn = Turn::Handling { event: Event::NeedPlayers { id: *id } };
            manager.take(turn, NOW).search.is_some()
        })
        .collect()
}

#[test]
fn four_game_masters_are_started() {
    let (spawned, start) = run(10);
    assert_eq!(spawned, vec![0, 1, 2, 3]);
    assert_eq!(start.phase, StartPhase::Finished(Ok(4)));
    assert_eq!(known(start), vec![0, 1, 2, 3]);
}

#[test]
fn game_master_without_a_connection_is_the_last() {
    let (spawned, start) = run(3);
    assert_eq!(spawned, vec![0, 1]);
    assert_eq!(known(start), vec![0, 1, 2]);
    let (spawned, start) = run(1);
    assert_eq!(spawned, Vec::<u32>::new());
    assert_eq!(known(start), vec![0]);
}

#[test]
fn player_manager_needs_a_connection() {
    let (spawned, start) = run(0);
    assert_eq!(spawned, Vec::<u32>::new());
    assert!(matches!(start.finish(), Some(Err(BidError::DbCannotOpenDatabase))));
}

#[test]
fn unfinished_start_gives_no_manager() {
    let mut start = ManagerStart::new(NOW, 7);
    start.advance(StartEvent::Spawned);
    assert_eq!(start.phase, StartPhase::OpeningDatabase);
    assert!(start.finish().is_none());
}

#[test]
fn start_takes_ten_events_at_most() {
    let mut start = ManagerStart::new(NOW, 7);
    let mut events: u32 = 0;
    loop {
        let event = match start.action() {
            StartAction::OpenDatabase | StartAction::OpenForGameMaster(_) => {
                StartEvent::Opened { available: true }
            }
            StartAction::Spawn(_) => StartEvent::Spawned,
            StartAction::UpdateStats(_) => StartEvent::Written,
            StartAction::Finish => break,
        };
        start.advance(event);
        events += 1;
    }
    assert_eq!(events, 10);
}
