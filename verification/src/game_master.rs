//! The game master: it asks for players, has them play and reports the result.
use crate::error::BidError;
use crate::proto_utils::{GameEnd, GameEndResult, MsgType, ServerRequest};
#[allow(unused_imports)]
use crate::proto_utils::ServerRequestView;
use crate::types::{Event, GameResult, GameResultType, GameStatus, StreamId};
#[allow(unused_imports)]
use crate::types::{EventView, GameResultView};
use vstd::prelude::*;

verus! {

/// How long a game master waits before it asks for players again, in
/// milliseconds.
pub const GM_BACKOFF: u64 = 25;

/// The message that tells a player how the game ended for them.
pub open spec fn game_end_message(result: GameEndResult) -> ServerRequestView {
    ServerRequestView {
        game_end: Some(GameEnd { result }),
        ..ServerRequestView::plain(MsgType::GameEnd)
    }
}

/// Makes the message that tells a player how the game ended for them.
pub fn craft_game_end_proto(result: GameEndResult) -> (msg: ServerRequest)
    ensures
        msg@ == game_end_message(result),
{
    let mut msg = ServerRequest::new(MsgType::GameEnd);
    msg.game_end = Some(GameEnd { result });
    msg
}

/// The result of a game that one of its players left.
pub open spec fn abandoned_result(
    id: u32,
    name_a: Seq<char>,
    name_b: Seq<char>,
    e: BidError,
) -> GameResultView {
    GameResultView {
        id,
        winner: if e == BidError::PlayerAAbandoned { name_b } else { name_a },
        loser: if e == BidError::PlayerAAbandoned { name_a } else { name_b },
        status: GameStatus::Abandoned,
    }
}

/// Makes the result of a game that one of its players left. The other one wins
/// it; an error that names no player counts against player B.
pub fn create_game_result_abandoned(id: u32, name_a: String, name_b: String, e: BidError) -> (gr:
    GameResult)
    ensures
        gr@ == abandoned_result(id, name_a@, name_b@, e),
{
    if e == BidError::PlayerAAbandoned {
        GameResult { id, winner: name_b, loser: name_a, status: GameStatus::Abandoned }
    } else {
        GameResult { id, winner: name_a, loser: name_b, status: GameStatus::Abandoned }
    }
}

/// How the game ended for player A and for player B.
pub open spec fn end_for_players(game_result: GameResultType) -> (GameEndResult, GameEndResult) {
    match game_result {
        GameResultType::PlayerAWins => (GameEndResult::Win, GameEndResult::Loss),
        GameResultType::PlayerBWins => (GameEndResult::Loss, GameEndResult::Win),
        GameResultType::Draw => (GameEndResult::Draw, GameEndResult::Draw),
    }
}

/// Makes the messages that tell player A and player B how the game ended.
pub fn make_end_messages(game_result: GameResultType) -> (msgs: (ServerRequest, ServerRequest))
    ensures
        msgs.0@ == game_end_message(end_for_players(game_result).0),
        msgs.1@ == game_end_message(end_for_players(game_result).1),
{
    match game_result {
        GameResultType::PlayerAWins => (
            craft_game_end_proto(GameEndResult::Win),
            craft_game_end_proto(GameEndResult::Loss),
        ),
        GameResultType::PlayerBWins => (
            craft_game_end_proto(GameEndResult::Loss),
            craft_game_end_proto(GameEndResult::Win),
        ),
        GameResultType::Draw => (
            craft_game_end_proto(GameEndResult::Draw),
            craft_game_end_proto(GameEndResult::Draw),
        ),
    }
}

/// What a won game comes to once both players were told: its result if both
/// heard of it, else the error with the winner, or else the one with the loser.
pub open spec fn winning_result(
    id: u32,
    name_a: Seq<char>,
    name_b: Seq<char>,
    game_result: GameResultType,
    sent_a: Result<(), BidError>,
    sent_b: Result<(), BidError>,
) -> Result<GameResultView, BidError> {
    let a_wins = game_result == GameResultType::PlayerAWins;
    let (sent_winner, sent_loser) = if a_wins { (sent_a, sent_b) } else { (sent_b, sent_a) };
    match (sent_winner, sent_loser) {
        (Err(e), _) => Err(e),
        (_, Err(e)) => Err(e),
        (Ok(_), Ok(_)) => Ok(
            GameResultView {
                id,
                winner: if a_wins { name_a } else { name_b },
                loser: if a_wins { name_b } else { name_a },
                status: GameStatus::Completed,
            },
        ),
    }
}

/// Makes the result of a game that player A or player B won, from what came of
/// the messages that told them. A game that player A has not won is player B's.
pub fn handle_player_winning_result(
    id: u32,
    name_a: String,
    sent_a: Result<(), BidError>,
    name_b: String,
    sent_b: Result<(), BidError>,
    game_result: GameResultType,
) -> (result: Result<GameResult, BidError>)
    ensures
        match result {
            Ok(gr) => winning_result(id, name_a@, name_b@, game_result, sent_a, sent_b) == Ok::<
                GameResultView,
                BidError,
            >(gr@),
            Err(e) => winning_result(id, name_a@, name_b@, game_result, sent_a, sent_b) == Err::<
                GameResultView,
                BidError,
            >(e),
        },
{
    let (winner, loser, sent_winner, sent_loser) = if game_result == GameResultType::PlayerAWins {
        (name_a, name_b, sent_a, sent_b)
    } else {
        (name_b, name_a, sent_b, sent_a)
    };
    match sent_winner {
        Err(e) => {
            return Err(e);
        },
        Ok(_) => {},
    }
    match sent_loser {
        Err(e) => {
            return Err(e);
        },
        Ok(_) => {},
    }
    Ok(GameResult { id, winner, loser, status: GameStatus::Completed })
}

/// What is reported of a game that was played to its end. If a player could not
/// be told of a win, the report names nobody.
pub open spec fn finished_result(
    id: u32,
    name_a: Seq<char>,
    name_b: Seq<char>,
    game_result: GameResultType,
    sent_a: Result<(), BidError>,
    sent_b: Result<(), BidError>,
) -> GameResultView {
    if game_result == GameResultType::Draw {
        GameResultView { id, winner: name_a, loser: name_b, status: GameStatus::Draw }
    } else {
        match winning_result(id, name_a, name_b, game_result, sent_a, sent_b) {
            Ok(gr) => gr,
            Err(_) => GameResultView {
                id,
                winner: Seq::empty(),
                loser: Seq::empty(),
                status: GameStatus::Completed,
            },
        }
    }
}

fn make_finished_result(
    id: u32,
    name_a: String,
    name_b: String,
    game_result: GameResultType,
    sent_a: Result<(), BidError>,
    sent_b: Result<(), BidError>,
) -> (gr: GameResult)
    ensures
        gr@ == finished_result(id, name_a@, name_b@, game_result, sent_a, sent_b),
{
    match game_result {
        GameResultType::PlayerAWins | GameResultType::PlayerBWins => {
            match handle_player_winning_result(id, name_a, sent_a, name_b, sent_b, game_result) {
                Ok(gr) => gr,
                Err(_) => GameResult {
                    id,
                    winner: String::new(),
                    loser: String::new(),
                    status: GameStatus::Completed,
                },
            }
        },
        GameResultType::Draw => GameResult {
            id,
            winner: name_a,
            loser: name_b,
            status: GameStatus::Draw,
        },
    }
}

/// Where a game master stands.
#[derive(Debug)]
pub enum MasterPhase {
    /// The player manager is to be asked for players.
    Asking,
    /// An event is awaited.
    Waiting,
    /// A game is being played.
    Playing { name_a: String, name_b: String, stream_a: StreamId, stream_b: StreamId },
    /// Both players are to be told how the game ended.
    Closing {
        name_a: String,
        name_b: String,
        stream_a: StreamId,
        stream_b: StreamId,
        game_result: GameResultType,
    },
    /// The player manager is to be told of the result.
    Reporting { result: GameResult },
    /// There is to be a short break.
    Resting,
    /// The game master is no longer needed.
    Stopped,
}

/// A [`MasterPhase`] with its names as sequences of characters.
#[verifier::ext_equal]
pub enum MasterPhaseView {
    Asking,
    Waiting,
    Playing { name_a: Seq<char>, name_b: Seq<char>, stream_a: StreamId, stream_b: StreamId },
    Closing {
        name_a: Seq<char>,
        name_b: Seq<char>,
        stream_a: StreamId,
        stream_b: StreamId,
        game_result: GameResultType,
    },
    Reporting { result: GameResultView },
    Resting,
    Stopped,
}

impl View for MasterPhase {
    type V = MasterPhaseView;

    open spec fn view(&self) -> MasterPhaseView {
        match self {
            MasterPhase::Asking => MasterPhaseView::Asking,
            MasterPhase::Waiting => MasterPhaseView::Waiting,
            MasterPhase::Playing {
                name_a,
                name_b,
                stream_a,
                stream_b,
            } => MasterPhaseView::Playing {
                name_a: name_a@,
                name_b: name_b@,
                stream_a: *stream_a,
                stream_b: *stream_b,
            },
            MasterPhase::Closing {
                name_a,
                name_b,
                stream_a,
                stream_b,
                game_result,
            } => MasterPhaseView::Closing {
                name_a: name_a@,
                name_b: name_b@,
                stream_a: *stream_a,
                stream_b: *stream_b,
                game_result: *game_result,
            },
            MasterPhase::Reporting { result } => MasterPhaseView::Reporting { result: result@ },
            MasterPhase::Resting => MasterPhaseView::Resting,
            MasterPhase::Stopped => MasterPhaseView::Stopped,
        }
    }
}

/// What came of an action of a game master.
#[derive(Debug)]
pub enum MasterEvent {
    /// The player manager was told something. Whether it heard does not matter.
    Told,
    /// An event came, or there will be none any more.
    Mail(Option<Event>),
    /// A game was played.
    Played(Result<GameResultType, BidError>),
    /// Player A and player B were each sent a message.
    Delivered(Result<(), BidError>, Result<(), BidError>),
    /// The break is over.
    Rested,
}

/// A [`MasterEvent`] with the event as its view.
#[verifier::ext_equal]
pub enum MasterEventView {
    Told,
    Mail(Option<EventView>),
    Played(Result<GameResultType, BidError>),
    Delivered(Result<(), BidError>, Result<(), BidError>),
    Rested,
}

impl View for MasterEvent {
    type V = MasterEventView;

    open spec fn view(&self) -> MasterEventView {
        match self {
            MasterEvent::Told => MasterEventView::Told,
            MasterEvent::Mail(Some(event)) => MasterEventView::Mail(Some(event@)),
            MasterEvent::Mail(None) => MasterEventView::Mail(None),
            MasterEvent::Played(outcome) => MasterEventView::Played(*outcome),
            MasterEvent::Delivered(sent_a, sent_b) => MasterEventView::Delivered(*sent_a, *sent_b),
            MasterEvent::Rested => MasterEventView::Rested,
        }
    }
}

/// What a game master does next.
#[derive(Debug)]
pub enum MasterAction {
    /// Tell the player manager something.
    Tell(Event),
    /// Wait for an event.
    Receive,
    /// Play a game between player A and player B.
    Play { name_a: String, name_b: String, stream_a: StreamId, stream_b: StreamId },
    /// Send player A and player B a message each.
    Deliver { stream_a: StreamId, to_a: ServerRequest, stream_b: StreamId, to_b: ServerRequest },
    /// Take a break of so many milliseconds.
    Rest(u64),
    Stop,
}

/// A [`MasterAction`] with its parts as their views.
#[verifier::ext_equal]
pub enum MasterActionView {
    Tell(EventView),
    Receive,
    Play { name_a: Seq<char>, name_b: Seq<char>, stream_a: StreamId, stream_b: StreamId },
    Deliver {
        stream_a: StreamId,
        to_a: ServerRequestView,
        stream_b: StreamId,
        to_b: ServerRequestView,
    },
    Rest(u64),
    Stop,
}

impl View for MasterAction {
    type V = MasterActionView;

    open spec fn view(&self) -> MasterActionView {
        match self {
            MasterAction::Tell(event) => MasterActionView::Tell(event@),
            MasterAction::Receive => MasterActionView::Receive,
            MasterAction::Play {
                name_a,
                name_b,
                stream_a,
                stream_b,
            } => MasterActionView::Play {
                name_a: name_a@,
                name_b: name_b@,
                stream_a: *stream_a,
                stream_b: *stream_b,
            },
            MasterAction::Deliver {
                stream_a,
                to_a,
                stream_b,
                to_b,
            } => MasterActionView::Deliver {
                stream_a: *stream_a,
                to_a: to_a@,
                stream_b: *stream_b,
                to_b: to_b@,
            },
            MasterAction::Rest(millis) => MasterActionView::Rest(*millis),
            MasterAction::Stop => MasterActionView::Stop,
        }
    }
}

/// A game master.
#[derive(Debug)]
pub struct GameMaster {
    pub id: u32,
    pub phase: MasterPhase,
}

/// A [`GameMaster`] with its names as sequences of characters.
#[verifier::ext_equal]
pub struct MasterView {
    pub id: u32,
    pub phase: MasterPhaseView,
}

impl View for GameMaster {
    type V = MasterView;

    open spec fn view(&self) -> MasterView {
        MasterView { id: self.id, phase: self.phase@ }
    }
}

impl MasterView {
    /// The game master in another phase.
    pub open spec fn in_phase(self, phase: MasterPhaseView) -> MasterView {
        MasterView { phase, ..self }
    }

    /// The game master before its first action.
    pub open spec fn start(id: u32) -> MasterView {
        MasterView { id, phase: MasterPhaseView::Asking }
    }

    /// The game master after an event. One that was not due changes nothing.
    pub open spec fn next(self, event: MasterEventView) -> MasterView {
        match (self.phase, event) {
            (MasterPhaseView::Asking, MasterEventView::Told) => {
                self.in_phase(MasterPhaseView::Waiting)
            },
            (MasterPhaseView::Waiting, MasterEventView::Mail(mail)) => match mail {
                Some(EventView::NewGame { name_a, name_b, stream_a, stream_b }) => {
                    self.in_phase(MasterPhaseView::Playing { name_a, name_b, stream_a, stream_b })
                },
                Some(EventView::NoPlayersAvailable) => self.in_phase(MasterPhaseView::Resting),
                Some(_) => self,
                None => self.in_phase(MasterPhaseView::Stopped),
            },
            (
                MasterPhaseView::Playing { name_a, name_b, stream_a, stream_b },
                MasterEventView::Played(outcome),
            ) => match outcome {
                Ok(game_result) => self.in_phase(
                    MasterPhaseView::Closing { name_a, name_b, stream_a, stream_b, game_result },
                ),
                Err(e) => self.in_phase(
                    MasterPhaseView::Reporting {
                        result: abandoned_result(self.id, name_a, name_b, e),
                    },
                ),
            },
            (
                MasterPhaseView::Closing { name_a, name_b, stream_a, stream_b, game_result },
                MasterEventView::Delivered(sent_a, sent_b),
            ) => self.in_phase(
                MasterPhaseView::Reporting {
                    result: finished_result(self.id, name_a, name_b, game_result, sent_a, sent_b),
                },
            ),
            (MasterPhaseView::Reporting { result }, MasterEventView::Told) => {
                self.in_phase(MasterPhaseView::Resting)
            },
            (MasterPhaseView::Resting, MasterEventView::Rested) => {
                self.in_phase(MasterPhaseView::Asking)
            },
            _ => self,
        }
    }

    /// The action that is due.
    pub open spec fn due(self) -> MasterActionView {
        match self.phase {
            MasterPhaseView::Asking => MasterActionView::Tell(
                EventView::NeedPlayers { id: self.id },
            ),
            MasterPhaseView::Waiting => MasterActionView::Receive,
            MasterPhaseView::Playing { name_a, name_b, stream_a, stream_b } => {
                MasterActionView::Play { name_a, name_b, stream_a, stream_b }
            },
            MasterPhaseView::Closing { name_a, name_b, stream_a, stream_b, game_result } => {
                MasterActionView::Deliver {
                    stream_a,
                    to_a: game_end_message(end_for_players(game_result).0),
                    stream_b,
                    to_b: game_end_message(end_for_players(game_result).1),
                }
            },
            MasterPhaseView::Reporting { result } => MasterActionView::Tell(
                EventView::GameOver { result },
            ),
            MasterPhaseView::Resting => MasterActionView::Rest(GM_BACKOFF),
            MasterPhaseView::Stopped => MasterActionView::Stop,
        }
    }
}

impl GameMaster {
    /// Sets up a game master.
    pub fn new(id: u32) -> (master: GameMaster)
        ensures
            master@ == MasterView::start(id),
    {
        GameMaster { id, phase: MasterPhase::Asking }
    }

    /// Says what is to be done next.
    pub fn action(&self) -> (action: MasterAction)
        ensures
            action@ == self@.due(),
    {
        match &self.phase {
            MasterPhase::Asking => MasterAction::Tell(Event::NeedPlayers { id: self.id }),
            MasterPhase::Waiting => MasterAction::Receive,
            MasterPhase::Playing { name_a, name_b, stream_a, stream_b } => MasterAction::Play {
                name_a: name_a.clone(),
                name_b: name_b.clone(),
                stream_a: *stream_a,
                stream_b: *stream_b,
            },
            MasterPhase::Closing { stream_a, stream_b, game_result, .. } => {
                let (to_a, to_b) = make_end_messages(*game_result);
                MasterAction::Deliver { stream_a: *stream_a, to_a, stream_b: *stream_b, to_b }
            },
            MasterPhase::Reporting { result } => MasterAction::Tell(
                Event::GameOver {
                    result: GameResult {
                        id: result.id,
                        winner: result.winner.clone(),
                        loser: result.loser.clone(),
                        status: result.status,
                    },
                },
            ),
            MasterPhase::Resting => MasterAction::Rest(GM_BACKOFF),
            MasterPhase::Stopped => MasterAction::Stop,
        }
    }

    /// Moves on after an event.
    pub fn advance(self, event: MasterEvent) -> (master: GameMaster)
        ensures
            master@ == self@.next(event@),
    {
        let id = self.id;
        let phase = match (self.phase, event) {
            (MasterPhase::Asking, MasterEvent::Told) => MasterPhase::Waiting,
            (MasterPhase::Waiting, MasterEvent::Mail(mail)) => match mail {
                Some(Event::NewGame { name_a, name_b, stream_a, stream_b }) => {
                    MasterPhase::Playing { name_a, name_b, stream_a, stream_b }
                },
                Some(Event::NoPlayersAvailable) => MasterPhase::Resting,
                Some(_) => MasterPhase::Waiting,
                None => MasterPhase::Stopped,
            },
            (
                MasterPhase::Playing { name_a, name_b, stream_a, stream_b },
                MasterEvent::Played(outcome),
            ) => match outcome {
                Ok(game_result) => MasterPhase::Closing {
                    name_a,
                    name_b,
                    stream_a,
                    stream_b,
                    game_result,
                },
                Err(e) => MasterPhase::Reporting {
                    result: create_game_result_abandoned(id, name_a, name_b, e),
                },
            },
            (
                MasterPhase::Closing { name_a, name_b, game_result, .. },
                MasterEvent::Delivered(sent_a, sent_b),
            ) => MasterPhase::Reporting {
                result: make_finished_result(id, name_a, name_b, game_result, sent_a, sent_b),
            },
            (MasterPhase::Reporting { .. }, MasterEvent::Told) => MasterPhase::Resting,
            (MasterPhase::Resting, MasterEvent::Rested) => MasterPhase::Asking,
            (phase, _) => phase,
        };
        GameMaster { id, phase }
    }
}

/// The game master after a sequence of events.
pub open spec fn master_course(id: u32, events: Seq<MasterEventView>) -> MasterView
    decreases events.len(),
{
    if events.len() == 0 {
        MasterView::start(id)
    } else {
        master_course(id, events.drop_last()).next(events.last())
    }
}

/// How many games a game master has taken on.
pub open spec fn games_taken(id: u32, events: Seq<MasterEventView>) -> nat
    decreases events.len(),
{
    if events.len() == 0 {
        0
    } else {
        let before = games_taken(id, events.drop_last());
        match (master_course(id, events.drop_last()).due(), events.last()) {
            (
                MasterActionView::Receive,
                MasterEventView::Mail(Some(EventView::NewGame { .. })),
            ) => before + 1,
            _ => before,
        }
    }
}

/// How many results a game master has reported.
pub open spec fn games_reported(id: u32, events: Seq<MasterEventView>) -> nat
    decreases events.len(),
{
    if events.len() == 0 {
        0
    } else {
        let before = games_reported(id, events.drop_last());
        match (master_course(id, events.drop_last()).due(), events.last()) {
            (
                MasterActionView::Tell(EventView::GameOver { .. }),
                MasterEventView::Told,
            ) => before + 1,
            _ => before,
        }
    }
}

/// Every game that a game master takes on is reported once: whenever it asks
/// for players or waits for them, it has reported exactly the games that it has
/// taken on, and there is never more than one game whose report is due.
pub proof fn law_every_game_is_reported_once(id: u32, events: Seq<MasterEventView>)
    ensures
        master_course(id, events).id == id,
        games_taken(id, events) == games_reported(id, events) + match master_course(
            id,
            events,
        ).phase {
            MasterPhaseView::Playing { .. } => 1nat,
            MasterPhaseView::Closing { .. } => 1nat,
            MasterPhaseView::Reporting { .. } => 1nat,
            _ => 0nat,
        },
    decreases events.len(),
{
    if events.len() > 0 {
        law_every_game_is_reported_once(id, events.drop_last());
    }
}

/// What a game master reports of a game bears its own number and the names of
/// the two players of the game, the one who left it as the loser; only where a
/// player could not be told of a win does the report name nobody.
pub proof fn law_report_names_the_players(master: MasterView, event: MasterEventView)
    ensures
        match (master.phase, master.next(event).phase) {
            (
                MasterPhaseView::Playing { name_a, name_b, .. },
                MasterPhaseView::Reporting { result },
            ) => {
                &&& result.id == master.id
                &&& result.status == GameStatus::Abandoned
                &&& event == MasterEventView::Played(Err(BidError::PlayerAAbandoned))
                    ==> result.winner == name_b && result.loser == name_a
                &&& event == MasterEventView::Played(Err(BidError::PlayerBAbandoned))
                    ==> result.winner == name_a && result.loser == name_b
            },
            (
                MasterPhaseView::Closing { name_a, name_b, game_result, .. },
                MasterPhaseView::Reporting { result },
            ) => {
                let told = match event {
                    MasterEventView::Delivered(Ok(_), Ok(_)) => true,
                    _ => false,
                };
                &&& result.id == master.id
                &&& result.status == (if game_result == GameResultType::Draw {
                    GameStatus::Draw
                } else {
                    GameStatus::Completed
                })
                &&& if game_result == GameResultType::Draw || (told && game_result
                    == GameResultType::PlayerAWins) {
                    result.winner == name_a && result.loser == name_b
                } else if told {
                    result.winner == name_b && result.loser == name_a
                } else {
                    result.winner.len() == 0 && result.loser.len() == 0
                }
            },
            _ => true,
        },
{
}

/// All that a game master has told the player manager, in order.
pub open spec fn told(id: u32, events: Seq<MasterEventView>) -> Seq<EventView>
    decreases events.len(),
{
    if events.len() == 0 {
        Seq::empty()
    } else {
        let before = told(id, events.drop_last());
        match (master_course(id, events.drop_last()).due(), events.last()) {
            (MasterActionView::Tell(event), MasterEventView::Told) => before.push(event),
            _ => before,
        }
    }
}

/// The games that a game master has taken on, in order: the names of their players.
pub open spec fn games(id: u32, events: Seq<MasterEventView>) -> Seq<(Seq<char>, Seq<char>)>
    decreases events.len(),
{
    if events.len() == 0 {
        Seq::empty()
    } else {
        let before = games(id, events.drop_last());
        match (master_course(id, events.drop_last()).due(), events.last()) {
            (
                MasterActionView::Receive,
                MasterEventView::Mail(Some(EventView::NewGame { name_a, name_b, .. })),
            ) => before.push((name_a, name_b)),
            _ => before,
        }
    }
}

/// The results among all that was told, in order.
pub open spec fn results_in(told: Seq<EventView>) -> Seq<GameResultView>
    decreases told.len(),
{
    if told.len() == 0 {
        Seq::empty()
    } else {
        match told.last() {
            EventView::GameOver { result } => results_in(told.drop_last()).push(result),
            _ => results_in(told.drop_last()),
        }
    }
}

/// Whether the result can be that of a game between the two players: it bears the
/// number of the game master and names the two, or, of a game that was completed,
/// nobody.
pub open spec fn is_report_of(
    result: GameResultView,
    id: u32,
    game: (Seq<char>, Seq<char>),
) -> bool {
    &&& result.id == id
    &&& {
        ||| result.winner == game.0 && result.loser == game.1
        ||| result.winner == game.1 && result.loser == game.0
        ||| {
            &&& result.winner.len() == 0
            &&& result.loser.len() == 0
            &&& result.status == GameStatus::Completed
        }
    }
}

/// Whether the player manager is asked for players first, and again after every
/// result, and hears nothing else.
pub open spec fn alternates(told: Seq<EventView>, id: u32) -> bool {
    &&& told.len() > 0 ==> told[0] == (EventView::NeedPlayers { id })
    &&& forall|i: int|
        0 <= i < told.len() ==> (#[trigger] told[i] == (EventView::NeedPlayers { id })
            || told[i] is GameOver)
    &&& forall|i: int|
        0 <= i < told.len() - 1 && #[trigger] told[i] is GameOver ==> told[i + 1] == (
        EventView::NeedPlayers { id })
}

/// Whatever a game master goes through, it tells the player manager things in this
/// order: it asks for players first, and again after every result. The first result
/// is that of its first game, the second that of its second game and so on, and
/// nothing but the last of its games is still to be reported.
pub proof fn law_game_master_tells_in_order(id: u32, events: Seq<MasterEventView>)
    ensures
        alternates(told(id, events), id),
        ({
            let played = games(id, events);
            let reported = results_in(told(id, events));
            &&& reported.len() <= played.len() <= reported.len() + 1
            &&& forall|k: int|
                0 <= k < reported.len() ==> is_report_of(#[trigger] reported[k], id, played[k])
        }),
{
    lemma_tells_in_order(id, events);
    lemma_reports_in_order(id, events);
}

proof fn lemma_tells_in_order(id: u32, events: Seq<MasterEventView>)
    ensures
        alternates(told(id, events), id),
        master_course(id, events).id == id,
        ({
            let said = told(id, events);
            match master_course(id, events).phase {
                MasterPhaseView::Asking => true,
                MasterPhaseView::Resting => said.len() > 0,
                _ => said.len() > 0 && said.last() == (EventView::NeedPlayers { id }),
            }
        }),
    decreases events.len(),
{
    if events.len() > 0 {
        let fewer = events.drop_last();
        lemma_tells_in_order(id, fewer);
        let before = told(id, fewer);
        let after = told(id, events);
        assert forall|i: int| 0 <= i < before.len() implies #[trigger] after[i] == before[i] by {}
        assert forall|i: int|
            0 <= i < after.len() - 1 && #[trigger] after[i] is GameOver implies after[i + 1] == (
        EventView::NeedPlayers { id }) by {
            if i < before.len() - 1 {
                assert(before[i] is GameOver);
                assert(after[i + 1] == before[i + 1]);
            } else {
                assert(after[i] == before.last());
            }
        }
    }
}

proof fn lemma_reports_in_order(id: u32, events: Seq<MasterEventView>)
    ensures
        ({
            let master = master_course(id, events);
            let played = games(id, events);
            let reported = results_in(told(id, events));
            &&& master.id == id
            &&& forall|k: int|
                0 <= k < reported.len() ==> is_report_of(#[trigger] reported[k], id, played[k])
            &&& match master.phase {
                MasterPhaseView::Playing { name_a, name_b, .. } => {
                    played.len() == reported.len() + 1 && played.last() == (name_a, name_b)
                },
                MasterPhaseView::Closing { name_a, name_b, .. } => {
                    played.len() == reported.len() + 1 && played.last() == (name_a, name_b)
                },
                MasterPhaseView::Reporting { result } => {
                    played.len() == reported.len() + 1 && is_report_of(result, id, played.last())
                },
                _ => played.len() == reported.len(),
            }
        }),
    decreases events.len(),
{
    if events.len() > 0 {
        let fewer = events.drop_last();
        lemma_reports_in_order(id, fewer);
        let played = games(id, events);
        let played_before = games(id, fewer);
        let reported = results_in(told(id, events));
        let reported_before = results_in(told(id, fewer));
        match (master_course(id, fewer).due(), events.last()) {
            (MasterActionView::Tell(event), MasterEventView::Told) => {
                assert(told(id, fewer).push(event).drop_last() =~= told(id, fewer));
            },
            _ => {},
        }
        assert forall|k: int| 0 <= k < reported.len() implies is_report_of(
            #[trigger] reported[k],
            id,
            played[k],
        ) by {
            if k < reported_before.len() {
                assert(reported[k] == reported_before[k]);
                assert(played[k] == played_before[k]);
            }
        }
    }
}

/// What the view of an event or of an action says is what happens.
pub proof fn law_master_views(
    event: Event,
    name_a: String,
    name_b: String,
    stream_a: StreamId,
    stream_b: StreamId,
    to_a: ServerRequest,
    to_b: ServerRequest,
    millis: u64,
    outcome: Result<GameResultType, BidError>,
    sent_a: Result<(), BidError>,
    sent_b: Result<(), BidError>,
)
    ensures
        MasterEvent::Told@ == MasterEventView::Told,
        MasterEvent::Mail(Some(event))@ == MasterEventView::Mail(Some(event@)),
        MasterEvent::Mail(None)@ == MasterEventView::Mail(None),
        MasterEvent::Played(outcome)@ == MasterEventView::Played(outcome),
        MasterEvent::Delivered(sent_a, sent_b)@ == MasterEventView::Delivered(sent_a, sent_b),
        MasterEvent::Rested@ == MasterEventView::Rested,
        MasterAction::Tell(event)@ == MasterActionView::Tell(event@),
        MasterAction::Receive@ == MasterActionView::Receive,
        (MasterAction::Play { name_a, name_b, stream_a, stream_b })@ == (MasterActionView::Play {
            name_a: name_a@,
            name_b: name_b@,
            stream_a,
            stream_b,
        }),
        (MasterAction::Deliver { stream_a, to_a, stream_b, to_b })@ == (MasterActionView::Deliver {
            stream_a,
            to_a: to_a@,
            stream_b,
            to_b: to_b@,
        }),
        MasterAction::Rest(millis)@ == MasterActionView::Rest(millis),
        MasterAction::Stop@ == MasterActionView::Stop,
{
}

/// The message at the end of a game carries how it ended for the player who gets it,
/// and nothing else.
pub proof fn law_game_end_message(result: GameEndResult)
    ensures
        ({
            let msg = game_end_message(result);
            &&& msg.msg_type == MsgType::GameEnd
            &&& msg.game_end matches Some(end) && end.result == result
            &&& msg.version_major is None && msg.version_minor is None
            &&& msg.auth_response is None && msg.game_start is None && msg.round_start is None
            &&& msg.bid_response is None && msg.bid_result is None
        }),
{
}

/// The player who wins a game is told WIN, the other one LOSS, and both DRAW if
/// nobody wins.
pub proof fn law_ends_of_a_game(game_result: GameResultType)
    ensures
        end_for_players(game_result).0 == GameEndResult::Win <==> game_result
            == GameResultType::PlayerAWins,
        end_for_players(game_result).1 == GameEndResult::Win <==> game_result
            == GameResultType::PlayerBWins,
        end_for_players(game_result).0 == GameEndResult::Loss <==> game_result
            == GameResultType::PlayerBWins,
        end_for_players(game_result).1 == GameEndResult::Loss <==> game_result
            == GameResultType::PlayerAWins,
        end_for_players(game_result).0 == GameEndResult::Draw <==> game_result
            == GameResultType::Draw,
        end_for_players(game_result).1 == GameEndResult::Draw <==> game_result
            == GameResultType::Draw,
{
}

/// A new game is played between the two players of the mail over their connections.
/// When it was played to its end, its players are told: the winner gets GAME_END
/// with WIN over the own connection and the loser GAME_END with LOSS, or both get
/// GAME_END with DRAW. The winner who is told WIN is the one whom the report names
/// as the winner, the other one as the loser. The report of a draw names player A
/// first, and a report of a won game of which somebody was not told names nobody.
pub proof fn law_winner_is_told_and_reported(
    master: MasterView,
    name_a: Seq<char>,
    name_b: Seq<char>,
    stream_a: StreamId,
    stream_b: StreamId,
    game_result: GameResultType,
    sent_a: Result<(), BidError>,
    sent_b: Result<(), BidError>,
)
    requires
        master.phase == MasterPhaseView::Waiting,
    ensures
        ({
            let mail = EventView::NewGame { name_a, name_b, stream_a, stream_b };
            let playing = master.next(MasterEventView::Mail(Some(mail)));
            let closing = playing.next(MasterEventView::Played(Ok(game_result)));
            let reporting = closing.next(MasterEventView::Delivered(sent_a, sent_b));
            let both_told = sent_a is Ok && sent_b is Ok;
            &&& playing.due() == (MasterActionView::Play { name_a, name_b, stream_a, stream_b })
            &&& closing.due() matches MasterActionView::Deliver {
                stream_a: first,
                to_a,
                stream_b: second,
                to_b,
            } && {
                &&& first == stream_a
                &&& second == stream_b
                &&& to_a.msg_type == MsgType::GameEnd
                &&& to_b.msg_type == MsgType::GameEnd
                &&& to_a.game_end is Some && to_b.game_end is Some
                &&& game_result == GameResultType::PlayerAWins ==> {
                    &&& to_a.game_end->0.result == GameEndResult::Win
                    &&& to_b.game_end->0.result == GameEndResult::Loss
                }
                &&& game_result == GameResultType::PlayerBWins ==> {
                    &&& to_a.game_end->0.result == GameEndResult::Loss
                    &&& to_b.game_end->0.result == GameEndResult::Win
                }
                &&& game_result == GameResultType::Draw ==> {
                    &&& to_a.game_end->0.result == GameEndResult::Draw
                    &&& to_b.game_end->0.result == GameEndResult::Draw
                }
                &&& to_a.version_major is None && to_a.version_minor is None
                &&& to_a.auth_response is None && to_a.game_start is None
                &&& to_a.round_start is None && to_a.bid_response is None
                &&& to_a.bid_result is None
                &&& to_b.version_major is None && to_b.version_minor is None
                &&& to_b.auth_response is None && to_b.game_start is None
                &&& to_b.round_start is None && to_b.bid_response is None
                &&& to_b.bid_result is None
            }
            &&& reporting.due() matches MasterActionView::Tell(
                EventView::GameOver { result },
            ) && {
                &&& result.id == master.id
                &&& result.status == GameStatus::Draw <==> game_result == GameResultType::Draw
                &&& result.status != GameStatus::Abandoned
                &&& both_told && game_result == GameResultType::PlayerAWins ==> result.winner
                    == name_a && result.loser == name_b
                &&& both_told && game_result == GameResultType::PlayerBWins ==> result.winner
                    == name_b && result.loser == name_a
                &&& game_result == GameResultType::Draw ==> result.winner == name_a && result.loser
                    == name_b
                &&& !both_told && game_result != GameResultType::Draw ==> result.winner.len() == 0
                    && result.loser.len() == 0
            }
        }),
{
}

/// A game that a player left is reported as abandoned, without a word to the
/// players: player A loses it if player A left, and player B loses it else.
pub proof fn law_deserter_loses(
    master: MasterView,
    name_a: Seq<char>,
    name_b: Seq<char>,
    stream_a: StreamId,
    stream_b: StreamId,
    e: BidError,
)
    requires
        master.phase == MasterPhaseView::Waiting,
    ensures
        ({
            let mail = EventView::NewGame { name_a, name_b, stream_a, stream_b };
            let reporting = master.next(MasterEventView::Mail(Some(mail))).next(
                MasterEventView::Played(Err(e)),
            );
            &&& reporting.due() matches MasterActionView::Tell(
                EventView::GameOver { result },
            ) && {
                &&& result.id == master.id
                &&& result.status == GameStatus::Abandoned
                &&& e == BidError::PlayerAAbandoned ==> result.winner == name_b && result.loser
                    == name_a
                &&& e != BidError::PlayerAAbandoned ==> result.winner == name_a && result.loser
                    == name_b
            }
            &&& abandoned_result(master.id, name_a, name_b, e) == (reporting.due()->Tell_0)->GameOver_result
        }),
{
}

/// What a won game comes to: if both players were told, the winner and the loser;
/// if the winner was not, the error with the winner; else the error with the loser.
pub proof fn law_result_of_a_won_game(
    id: u32,
    name_a: Seq<char>,
    name_b: Seq<char>,
    sent_a: Result<(), BidError>,
    sent_b: Result<(), BidError>,
)
    ensures
        ({
            let a_wins = winning_result(
                id,
                name_a,
                name_b,
                GameResultType::PlayerAWins,
                sent_a,
                sent_b,
            );
            let b_wins = winning_result(
                id,
                name_a,
                name_b,
                GameResultType::PlayerBWins,
                sent_a,
                sent_b,
            );
            &&& sent_a is Ok && sent_b is Ok ==> {
                &&& a_wins matches Ok(result) && result.id == id && result.winner == name_a
                    && result.loser == name_b && result.status == GameStatus::Completed
                &&& b_wins matches Ok(result) && result.id == id && result.winner == name_b
                    && result.loser == name_a && result.status == GameStatus::Completed
            }
            &&& sent_a matches Err(e) ==> a_wins == Err::<GameResultView, BidError>(e)
            &&& sent_b matches Err(e) ==> b_wins == Err::<GameResultView, BidError>(e)
            &&& sent_a is Ok && sent_b is Err ==> a_wins == Err::<GameResultView, BidError>(
                sent_b->Err_0,
            )
            &&& sent_b is Ok && sent_a is Err ==> b_wins == Err::<GameResultView, BidError>(
                sent_a->Err_0,
            )
        }),
{
}

/// A game master asks for players under its own number and waits for mail. When
/// there are no players, and after every report, it rests for 25 milliseconds and
/// asks again. It stops when no mail can come any more, and passes over other mail.
pub proof fn law_game_master_keeps_asking(
    master: MasterView,
    other: EventView,
    sent: Result<(), BidError>,
)
    ensures
        MasterView::start(master.id).due() == MasterActionView::Tell(
            EventView::NeedPlayers { id: master.id },
        ),
        MasterView::start(master.id).id == master.id,
        master.phase == MasterPhaseView::Asking ==> {
            &&& master.due() == MasterActionView::Tell(EventView::NeedPlayers { id: master.id })
            &&& master.next(MasterEventView::Told).due() == MasterActionView::Receive
            &&& master.next(MasterEventView::Told).id == master.id
        },
        master.phase is Reporting ==> {
            let resting = master.next(MasterEventView::Told);
            &&& resting.due() == MasterActionView::Rest(25)
            &&& resting.next(MasterEventView::Rested).due() == MasterActionView::Tell(
                EventView::NeedPlayers { id: master.id },
            )
        },
        master.phase == MasterPhaseView::Waiting ==> {
            let resting = master.next(
                MasterEventView::Mail(Some(EventView::NoPlayersAvailable)),
            );
            &&& master.due() == MasterActionView::Receive
            &&& resting.due() == MasterActionView::Rest(25)
            &&& resting.next(MasterEventView::Rested).due() == MasterActionView::Tell(
                EventView::NeedPlayers { id: master.id },
            )
            &&& master.next(MasterEventView::Mail(None)).due() == MasterActionView::Stop
            &&& !(other is NewGame) && !(other is NoPlayersAvailable) ==> master.next(
                MasterEventView::Mail(Some(other)),
            ) == master
        },
{
}

/// Only what is due moves a game master on, and nothing moves one that has stopped.
pub proof fn law_game_master_waits_for_what_is_due(master: MasterView, event: MasterEventView)
    requires
        match master.due() {
            MasterActionView::Tell(_) => !(event is Told),
            MasterActionView::Receive => !(event is Mail),
            MasterActionView::Play { .. } => !(event is Played),
            MasterActionView::Deliver { .. } => !(event is Delivered),
            MasterActionView::Rest(_) => !(event is Rested),
            MasterActionView::Stop => true,
        },
    ensures
        master.next(event) == master,
{
}

/// A game that player A has not won is player B's, a draw too.
pub proof fn law_what_a_has_not_won_is_won_by_b(
    id: u32,
    name_a: Seq<char>,
    name_b: Seq<char>,
    sent_a: Result<(), BidError>,
    sent_b: Result<(), BidError>,
)
    ensures
        winning_result(id, name_a, name_b, GameResultType::Draw, sent_a, sent_b) == winning_result(
            id,
            name_a,
            name_b,
            GameResultType::PlayerBWins,
            sent_a,
            sent_b,
        ),
{
}

/// What a game master does follows from where it stands: it plays the game of the
/// players whom it has, closes a game over their connections, and reports a result
/// as it is.
pub proof fn law_game_master_does_what_is_due(master: MasterView)
    ensures
        match master.phase {
            MasterPhaseView::Asking => master.due() == MasterActionView::Tell(
                EventView::NeedPlayers { id: master.id },
            ),
            MasterPhaseView::Waiting => master.due() == MasterActionView::Receive,
            MasterPhaseView::Playing { name_a, name_b, stream_a, stream_b } => master.due() == (
            MasterActionView::Play { name_a, name_b, stream_a, stream_b }),
            MasterPhaseView::Closing { stream_a, stream_b, .. } => {
                master.due() matches MasterActionView::Deliver {
                    stream_a: first,
                    stream_b: second,
                    ..
                } && first == stream_a && second == stream_b
            },
            MasterPhaseView::Reporting { result } => master.due() == MasterActionView::Tell(
                EventView::GameOver { result },
            ),
            MasterPhaseView::Resting => master.due() == MasterActionView::Rest(25),
            MasterPhaseView::Stopped => master.due() == MasterActionView::Stop,
        },
{
}

} // verus!
