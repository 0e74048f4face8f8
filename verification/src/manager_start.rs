//! How the player manager and its game masters are started.
use crate::database_ops::{update_game_masters, Query};
#[allow(unused_imports)]
use crate::database_ops::QueryView;
use crate::error::BidError;
#[allow(unused_imports)]
use crate::player_manager::ManagerView;
use crate::player_manager::{PlayerManager, LATEST_TIME, MAX_GAMES};
use vstd::prelude::*;

verus! {

/// Where the start stands.
#[derive(Clone, Copy, Debug, PartialEq, Eq)]
pub enum StartPhase {
    /// The player manager needs a connection to the database.
    OpeningDatabase,
    /// The game master with the number needs a connection to the database.
    OpeningForGameMaster { id: u32 },
    /// The game master with the number is to be started.
    Spawning { id: u32 },
    /// The statistics are to be updated. So many game masters are known.
    WritingStats { game_masters: u32 },
    /// There is nothing left to do. So many game masters are known.
    Finished(Result<u32, BidError>),
}

/// What came of an action of a start.
#[derive(Clone, Copy, Debug, PartialEq, Eq)]
pub enum StartEvent {
    /// A connection to the database was asked for.
    Opened { available: bool },
    /// A game master was started.
    Spawned,
    /// The statistics were to be updated. Whether they were does not matter.
    Written,
}

/// What is to be done next in a start.
#[derive(Debug)]
pub enum StartAction {
    /// Open a connection to the database for the player manager.
    OpenDatabase,
    /// Open a connection to the database for a game master.
    OpenForGameMaster(u32),
    /// Start a game master, with the connection that was opened for it.
    Spawn(u32),
    /// Update the server statistics with the statement.
    UpdateStats(Query),
    /// The start is over.
    Finish,
}

/// A [`StartAction`] with the statement as its view.
#[verifier::ext_equal]
pub enum StartActionView {
    OpenDatabase,
    OpenForGameMaster(u32),
    Spawn(u32),
    UpdateStats(QueryView),
    Finish,
}

impl View for StartAction {
    type V = StartActionView;

    open spec fn view(&self) -> StartActionView {
        match self {
            StartAction::OpenDatabase => StartActionView::OpenDatabase,
            StartAction::OpenForGameMaster(id) => StartActionView::OpenForGameMaster(*id),
            StartAction::Spawn(id) => StartActionView::Spawn(*id),
            StartAction::UpdateStats(query) => StartActionView::UpdateStats(query@),
            StartAction::Finish => StartActionView::Finish,
        }
    }
}

/// The start of the player manager, which begins at the given time.
#[derive(Clone, Copy, Debug, PartialEq, Eq)]
pub struct ManagerStart {
    pub now: i64,
    pub seed: u64,
    pub phase: StartPhase,
}

impl StartPhase {
    /// The start after an event. A game master for which there is no connection is
    /// known all the same, but neither it nor a later one is started. An event that
    /// was not due changes nothing.
    pub open spec fn next(self, event: StartEvent) -> StartPhase {
        match (self, event) {
            (StartPhase::OpeningDatabase, StartEvent::Opened { available }) => {
                if available {
                    StartPhase::OpeningForGameMaster { id: 0 }
                } else {
                    StartPhase::Finished(Err(BidError::DbCannotOpenDatabase))
                }
            },
            (StartPhase::OpeningForGameMaster { id }, StartEvent::Opened { available }) => {
                if available {
                    StartPhase::Spawning { id }
                } else if id < MAX_GAMES {
                    StartPhase::WritingStats { game_masters: (id + 1) as u32 }
                } else {
                    StartPhase::WritingStats { game_masters: MAX_GAMES }
                }
            },
            (StartPhase::Spawning { id }, StartEvent::Spawned) => {
                if id + 1 < MAX_GAMES {
                    StartPhase::OpeningForGameMaster { id: (id + 1) as u32 }
                } else {
                    StartPhase::WritingStats { game_masters: MAX_GAMES }
                }
            },
            (StartPhase::WritingStats { game_masters }, StartEvent::Written) => {
                StartPhase::Finished(Ok(game_masters))
            },
            _ => self,
        }
    }

    /// The action that is due.
    pub open spec fn due(self) -> StartActionView {
        match self {
            StartPhase::OpeningDatabase => StartActionView::OpenDatabase,
            StartPhase::OpeningForGameMaster { id } => StartActionView::OpenForGameMaster(id),
            StartPhase::Spawning { id } => StartActionView::Spawn(id),
            StartPhase::WritingStats { .. } => StartActionView::UpdateStats(
                crate::database_ops::game_masters_query(MAX_GAMES as int),
            ),
            StartPhase::Finished(_) => StartActionView::Finish,
        }
    }
}

impl ManagerStart {
    /// Begins to start a player manager at the given time.
    pub fn new(now: i64, seed: u64) -> (start: ManagerStart)
        ensures
            start == (ManagerStart { now, seed, phase: StartPhase::OpeningDatabase }),
    {
        ManagerStart { now, seed, phase: StartPhase::OpeningDatabase }
    }

    /// Says what is to be done next.
    pub fn action(&self) -> (action: StartAction)
        ensures
            action@ == self.phase.due(),
    {
        match self.phase {
            StartPhase::OpeningDatabase => StartAction::OpenDatabase,
            StartPhase::OpeningForGameMaster { id } => StartAction::OpenForGameMaster(id),
            StartPhase::Spawning { id } => StartAction::Spawn(id),
            StartPhase::WritingStats { .. } => StartAction::UpdateStats(
                update_game_masters(MAX_GAMES),
            ),
            StartPhase::Finished(_) => StartAction::Finish,
        }
    }

    /// Moves on after an event.
    pub fn advance(&mut self, event: StartEvent)
        ensures
            *final(self) == (ManagerStart { phase: old(self).phase.next(event), ..*old(self) }),
    {
        match (self.phase, event) {
            (StartPhase::OpeningDatabase, StartEvent::Opened { available }) => {
                self.phase = if available {
                    StartPhase::OpeningForGameMaster { id: 0 }
                } else {
                    StartPhase::Finished(Err(BidError::DbCannotOpenDatabase))
                };
            },
            (StartPhase::OpeningForGameMaster { id }, StartEvent::Opened { available }) => {
                self.phase = if available {
                    StartPhase::Spawning { id }
                } else if id < MAX_GAMES {
                    StartPhase::WritingStats { game_masters: id + 1 }
                } else {
                    StartPhase::WritingStats { game_masters: MAX_GAMES }
                };
            },
            (StartPhase::Spawning { id }, StartEvent::Spawned) => {
                self.phase = if id < MAX_GAMES - 1 {
                    StartPhase::OpeningForGameMaster { id: id + 1 }
                } else {
                    StartPhase::WritingStats { game_masters: MAX_GAMES }
                };
            },
            (StartPhase::WritingStats { game_masters }, StartEvent::Written) => {
                self.phase = StartPhase::Finished(Ok(game_masters));
            },
            _ => {},
        }
    }

    /// Gives the player manager once the start is over, or says why there is none.
    pub fn finish(self) -> (manager: Option<Result<PlayerManager, BidError>>)
        requires
            self.now <= LATEST_TIME,
        ensures
            match manager {
                Some(Ok(manager)) => {
                    &&& manager.wf()
                    &&& self.phase matches StartPhase::Finished(Ok(game_masters)) && manager@
                        == ManagerView::start(self.now, game_masters)
                },
                Some(Err(e)) => self.phase == StartPhase::Finished(Err(e)),
                None => !(self.phase is Finished),
            },
    {
        match self.phase {
            StartPhase::Finished(Ok(game_masters)) => Some(
                Ok(PlayerManager::new(self.now, self.seed, game_masters)),
            ),
            StartPhase::Finished(Err(e)) => Some(Err(e)),
            _ => None,
        }
    }
}

/// The start once its events have happened.
pub open spec fn start_course(events: Seq<StartEvent>) -> StartPhase
    decreases events.len(),
{
    if events.len() == 0 {
        StartPhase::OpeningDatabase
    } else {
        start_course(events.drop_last()).next(events.last())
    }
}

/// The numbers of the game masters that were started, in order.
pub open spec fn spawned(events: Seq<StartEvent>) -> Seq<u32>
    decreases events.len(),
{
    if events.len() == 0 {
        Seq::empty()
    } else {
        let before = spawned(events.drop_last());
        match (start_course(events.drop_last()).due(), events.last()) {
            (StartActionView::Spawn(id), StartEvent::Spawned) => before.push(id),
            _ => before,
        }
    }
}

/// However a start goes, the game masters are started in the order of their
/// numbers, each of them once. Once it is over, either all [`MAX_GAMES`] of them
/// are started and known, or those before the first one without a connection are
/// started, and that one is known too.
pub proof fn law_game_masters_are_started_in_order(events: Seq<StartEvent>)
    ensures
        ({
            let ids = spawned(events);
            &&& ids.len() <= MAX_GAMES
            &&& forall|i: int| 0 <= i < ids.len() ==> #[trigger] ids[i] == i
            &&& match start_course(events) {
                StartPhase::OpeningDatabase => ids.len() == 0,
                StartPhase::OpeningForGameMaster { id } => ids.len() == id < MAX_GAMES,
                StartPhase::Spawning { id } => ids.len() == id < MAX_GAMES,
                StartPhase::WritingStats { game_masters } => is_known_count(
                    game_masters,
                    ids.len(),
                ),
                StartPhase::Finished(Ok(game_masters)) => is_known_count(game_masters, ids.len()),
                StartPhase::Finished(Err(e)) => {
                    ids.len() == 0 && e == BidError::DbCannotOpenDatabase
                },
            }
        }),
    decreases events.len(),
{
    if events.len() > 0 {
        law_game_masters_are_started_in_order(events.drop_last());
    }
}

/// How many game masters are known once so many were started.
pub open spec fn is_known_count(game_masters: u32, started: nat) -> bool {
    game_masters == (if started < MAX_GAMES { started + 1 } else { MAX_GAMES as nat })
}

/// The events of a start in which the first so many game masters have a
/// connection each.
pub open spec fn smooth_start(masters: nat) -> Seq<StartEvent>
    decreases masters,
{
    if masters == 0 {
        seq![StartEvent::Opened { available: true }]
    } else {
        smooth_start((masters - 1) as nat).push(StartEvent::Opened { available: true }).push(
            StartEvent::Spawned,
        )
    }
}

proof fn lemma_smooth_start(masters: nat)
    requires
        masters <= MAX_GAMES,
    ensures
        start_course(smooth_start(masters)) == (if masters < MAX_GAMES {
            StartPhase::OpeningForGameMaster { id: masters as u32 }
        } else {
            StartPhase::WritingStats { game_masters: MAX_GAMES }
        }),
    decreases masters,
{
    reveal_with_fuel(start_course, 3);
    if masters > 0 {
        lemma_smooth_start((masters - 1) as nat);
        let before = smooth_start((masters - 1) as nat);
        let opened = before.push(StartEvent::Opened { available: true });
        assert(opened.drop_last() =~= before);
        assert(smooth_start(masters).drop_last() =~= opened);
    } else {
        assert(smooth_start(0).drop_last() =~= Seq::empty());
    }
}

/// Where every connection can be had, all [`MAX_GAMES`] game masters are known:
/// those with the numbers 0, 1, 2 and 3, and that many are written to the
/// statistics.
pub proof fn law_smooth_start_knows_four_game_masters(now: i64)
    ensures
        ({
            let before_stats = start_course(smooth_start(MAX_GAMES as nat));
            &&& before_stats.due() == StartActionView::UpdateStats(
                crate::database_ops::game_masters_query(4),
            )
            &&& before_stats.next(StartEvent::Written) == StartPhase::Finished(Ok(4u32))
            &&& ManagerView::start(now, 4).game_masters == set![0u32, 1u32, 2u32, 3u32]
        }),
{
    lemma_smooth_start(MAX_GAMES as nat);
    assert(ManagerView::start(now, 4).game_masters =~= set![0u32, 1u32, 2u32, 3u32]);
}

impl StartPhase {
    /// How many events a start can still take.
    pub open spec fn events_left(self) -> int {
        match self {
            StartPhase::OpeningDatabase => 2 * MAX_GAMES + 2,
            StartPhase::OpeningForGameMaster { id } => 2 * (MAX_GAMES - id) + 1,
            StartPhase::Spawning { id } => 2 * (MAX_GAMES - id),
            StartPhase::WritingStats { .. } => 1,
            StartPhase::Finished(_) => 0,
        }
    }

    /// Whether the event answers the action that is due.
    pub open spec fn is_due(self, event: StartEvent) -> bool {
        match self.due() {
            StartActionView::OpenDatabase => event is Opened,
            StartActionView::OpenForGameMaster(id) => event is Opened && id < MAX_GAMES,
            StartActionView::Spawn(id) => event is Spawned && id < MAX_GAMES,
            StartActionView::UpdateStats(_) => event is Written,
            StartActionView::Finish => false,
        }
    }
}

/// Every start comes to an end: each answer to an action that is due leaves fewer
/// of them, and a start that can take no more is over.
pub proof fn law_start_comes_to_an_end(phase: StartPhase, event: StartEvent)
    requires
        phase.is_due(event),
    ensures
        0 <= phase.next(event).events_left() < phase.events_left(),
        phase.next(event).events_left() == 0 <==> phase.next(event) is Finished,
{
}

/// What the view of an action says is what is done.
pub proof fn law_start_action_views(id: u32, query: Query)
    ensures
        StartAction::OpenDatabase@ == StartActionView::OpenDatabase,
        StartAction::OpenForGameMaster(id)@ == StartActionView::OpenForGameMaster(id),
        StartAction::Spawn(id)@ == StartActionView::Spawn(id),
        StartAction::UpdateStats(query)@ == StartActionView::UpdateStats(query@),
        StartAction::Finish@ == StartActionView::Finish,
{
}

/// A start asks for a connection for the player manager first and fails without one.
/// Then each game master is started in turn once there is a connection for it. After
/// the fourth, or the first one for which there is no connection, the statistics are
/// told that there are four game masters, whatever came before, and the start is
/// over. A game master for which there is no connection is known, but not started.
pub proof fn law_start_goes_master_by_master(id: u32)
    requires
        id < 4,
    ensures
        StartPhase::OpeningDatabase.due() == StartActionView::OpenDatabase,
        StartPhase::OpeningDatabase.next(StartEvent::Opened { available: false })
            == StartPhase::Finished(Err(BidError::DbCannotOpenDatabase)),
        StartPhase::OpeningDatabase.next(StartEvent::Opened { available: true }).due()
            == StartActionView::OpenForGameMaster(0),
        ({
            let opening = StartPhase::OpeningForGameMaster { id };
            let without = opening.next(StartEvent::Opened { available: false });
            let with = opening.next(StartEvent::Opened { available: true });
            let started = with.next(StartEvent::Spawned);
            let stats = StartActionView::UpdateStats(crate::database_ops::game_masters_query(4));
            &&& opening.due() == StartActionView::OpenForGameMaster(id)
            &&& with.due() == StartActionView::Spawn(id)
            &&& id < 3 ==> started.due() == StartActionView::OpenForGameMaster((id + 1) as u32)
            &&& id == 3 ==> started.due() == stats
            &&& id == 3 ==> started.next(StartEvent::Written) == StartPhase::Finished(Ok(4u32))
            &&& without.due() == stats
            &&& without.next(StartEvent::Written) == StartPhase::Finished(Ok((id + 1) as u32))
        }),
{
}

/// Only what is due moves a start on, and nothing moves one that is over.
pub proof fn law_start_waits_for_what_is_due(phase: StartPhase, event: StartEvent)
    requires
        match phase.due() {
            StartActionView::OpenDatabase => !(event is Opened),
            StartActionView::OpenForGameMaster(_) => !(event is Opened),
            StartActionView::Spawn(_) => !(event is Spawned),
            StartActionView::UpdateStats(_) => !(event is Written),
            StartActionView::Finish => true,
        },
    ensures
        phase.next(event) == phase,
{
}

/// The statistics are told of four game masters however many are known, and the
/// number of those that are known comes out of the start as it is. No game master
/// has a number of 4 or more: from there on the start only has its end before it.
pub proof fn law_start_keeps_count(game_masters: u32, id: u32)
    ensures
        ({
            let writing = StartPhase::WritingStats { game_masters };
            &&& writing.due() == StartActionView::UpdateStats(
                crate::database_ops::game_masters_query(4),
            )
            &&& writing.next(StartEvent::Written) == StartPhase::Finished(Ok(game_masters))
        }),
        (StartPhase::Spawning { id }).due() == StartActionView::Spawn(id),
        (StartPhase::OpeningForGameMaster { id }).due() == StartActionView::OpenForGameMaster(id),
        id >= 4 ==> {
            let opening = StartPhase::OpeningForGameMaster { id };
            let spawning = StartPhase::Spawning { id };
            &&& opening.next(StartEvent::Opened { available: true }) == spawning
            &&& opening.next(StartEvent::Opened { available: false }) == (
            StartPhase::WritingStats { game_masters: 4 })
            &&& spawning.next(StartEvent::Spawned) == (StartPhase::WritingStats { game_masters: 4 })
        },
{
}

} // verus!
