//! The player manager: it keeps the pool of players, matches them for the game
//! masters and takes them back when a game is over.
use crate::database_ops::{update_concurrent_games, Query};
#[allow(unused_imports)]
use crate::database_ops::QueryView;
use crate::player_management::{
    get_free_players, get_player_info_for_game, send_proto_to_client_by_name, FreePlayerSearch,
};
#[allow(unused_imports)]
use crate::player_management::SearchView;
use crate::player_table::PlayerTable;
use crate::proto_utils::{MsgType, ServerRequest};
#[allow(unused_imports)]
use crate::proto_utils::ServerRequestView;
use crate::types::{Event, GameResult, GameStatus, Player, StreamId};
#[allow(unused_imports)]
use crate::types::{EventView, GameResultView, PlayerView};
use rand::rngs::StdRng;
use rand::{Rng, SeedableRng};
use vstd::prelude::*;

verus! {

/// The generator of random numbers of the `rand` crate.
#[verifier::external_type_specification]
#[verifier::external_body]
pub struct ExStdRng(rand::rngs::StdRng);

/// Makes a generator with `StdRng::seed_from_u64`. Nothing is claimed of the
/// numbers that it will give.
#[verifier::external_body]
fn seed_from_u64(seed: u64) -> (rng: StdRng) {
    StdRng::seed_from_u64(seed)
}

/// Draws a number with `Rng::gen_range`: it lies in the range that is asked
/// for, which must not be empty. Which one it is depends on the generator, and
/// nothing is claimed of that.
#[verifier::external_body]
fn gen_range(rng: &mut StdRng, low: i64, high: i64) -> (drawn: i64)
    requires
        low < high,
    ensures
        low <= drawn < high,
{
    rng.gen_range(low..high)
}

/// How many game masters there are.
pub const MAX_GAMES: u32 = 4;

/// The time between two updates of the server statistics, in nanoseconds.
pub const STATS_UPDATE_INTERVAL: i64 = 500_000_000;

/// A player rests for at least this many milliseconds after a game.
pub const COOLDOWN_MIN: i64 = 20;

/// A player rests for less than this many milliseconds after a game.
pub const COOLDOWN_MAX: i64 = 150;

/// The latest time at which the player manager can still set its timers.
pub const LATEST_TIME: i64 = 9_223_372_036_354_775_807;

/// Something that the player manager wants to have done. What comes of it does
/// not matter to it.
#[derive(Debug)]
pub enum ManagerEffect {
    /// Update the server statistics with the statement.
    UpdateStats(Query),
    /// Shut down a connection.
    Shutdown(StreamId),
    /// Send a message to a client.
    Send(StreamId, ServerRequest),
    /// Count a draw for a player in the database.
    IncDraws(String),
    /// Count a win for a player in the database.
    IncWins(String),
    /// Count a loss for a player in the database.
    IncLosses(String),
}

/// A [`ManagerEffect`] with its parts as their views.
#[verifier::ext_equal]
pub enum EffectView {
    UpdateStats(QueryView),
    Shutdown(StreamId),
    Send(StreamId, ServerRequestView),
    IncDraws(Seq<char>),
    IncWins(Seq<char>),
    IncLosses(Seq<char>),
}

impl View for ManagerEffect {
    type V = EffectView;

    open spec fn view(&self) -> EffectView {
        match self {
            ManagerEffect::UpdateStats(query) => EffectView::UpdateStats(query@),
            ManagerEffect::Shutdown(stream) => EffectView::Shutdown(*stream),
            ManagerEffect::Send(stream, msg) => EffectView::Send(*stream, msg@),
            ManagerEffect::IncDraws(name) => EffectView::IncDraws(name@),
            ManagerEffect::IncWins(name) => EffectView::IncWins(name@),
            ManagerEffect::IncLosses(name) => EffectView::IncLosses(name@),
        }
    }
}

/// A list of effects as their views.
pub open spec fn effect_views(effects: Seq<ManagerEffect>) -> Seq<EffectView> {
    effects.map_values(|effect: ManagerEffect| effect@)
}

/// What came of the wish of a game master for players.
#[verifier::ext_equal]
pub struct Matching {
    /// The pool afterwards.
    pub players: Map<Seq<char>, PlayerView>,
    /// Whether a game was started.
    pub started: bool,
    /// What the game master is told.
    pub reply: Option<EventView>,
}

/// Matches the first two of the players who are able to play. The game master
/// is told if there are too few of them.
pub open spec fn matching(
    players: Map<Seq<char>, PlayerView>,
    free_players: Seq<Seq<char>>,
) -> Matching {
    let name_a = free_players[0];
    let name_b = free_players[1];
    let with_a = crate::player_management::in_game_now(players, name_a);
    if free_players.len() < 2 || !players.contains_key(name_a) {
        Matching { players, started: false, reply: Some(EventView::NoPlayersAvailable) }
    } else if !players.contains_key(name_b) {
        Matching { players: with_a, started: false, reply: None }
    } else {
        Matching {
            players: crate::player_management::in_game_now(with_a, name_b),
            started: true,
            reply: Some(
                EventView::NewGame {
                    name_a,
                    name_b,
                    stream_a: players[name_a].stream,
                    stream_b: players[name_b].stream,
                },
            ),
        }
    }
}

/// Starts a game between the first two of the players who are able to play.
/// Gives back whether a game was started, and what the game master is told.
pub fn handle_need_players(players: &mut PlayerTable, free_players: &Vec<String>) -> (outcome: (
    bool,
    Option<Event>,
))
    requires
        old(players).wf(),
    ensures
        final(players).wf(),
        ({
            let matched = matching(old(players)@, crate::types::name_views(free_players@));
            &&& final(players)@ == matched.players
            &&& outcome.0 == matched.started
            &&& match outcome.1 {
                Some(event) => matched.reply == Some(event@),
                None => matched.reply is None,
            }
        }),
{
    if free_players.len() < 2 {
        return (false, Some(Event::NoPlayersAvailable));
    }
    let player_a = match get_player_info_for_game(players, &free_players[0]) {
        None => {
            return (false, Some(Event::NoPlayersAvailable));
        },
        Some(player) => player,
    };
    let player_b = match get_player_info_for_game(players, &free_players[1]) {
        None => {
            return (false, None);
        },
        Some(player) => player,
    };
    (
        true,
        Some(
            Event::NewGame {
                name_a: player_a.name,
                name_b: player_b.name,
                stream_a: player_a.stream,
                stream_b: player_b.stream,
            },
        ),
    )
}

/// The pool without the loser of a game that was abandoned.
pub open spec fn pool_without_deserter(
    players: Map<Seq<char>, PlayerView>,
    result: GameResultView,
) -> Map<Seq<char>, PlayerView> {
    if result.status == GameStatus::Abandoned {
        players.remove(result.loser)
    } else {
        players
    }
}

/// The pool after the player of the name, if there is one, has come out of a
/// game.
pub open spec fn back_in_pool(
    players: Map<Seq<char>, PlayerView>,
    name: Seq<char>,
    won: bool,
    player_cooldown: i64,
) -> Map<Seq<char>, PlayerView> {
    if players.contains_key(name) {
        players.insert(name, crate::player_table::left_game(players[name], won, player_cooldown))
    } else {
        players
    }
}

/// The pool after a game: the winner and the loser are back in it, each until
/// the own cooldown is over, and the one who deserted a game is gone.
pub open spec fn pool_after_game(
    players: Map<Seq<char>, PlayerView>,
    result: GameResultView,
    winner_cooldown: i64,
    loser_cooldown: i64,
) -> Map<Seq<char>, PlayerView> {
    back_in_pool(
        back_in_pool(
            pool_without_deserter(players, result),
            result.winner,
            true,
            winner_cooldown,
        ),
        result.loser,
        false,
        loser_cooldown,
    )
}

/// What is to be done about the end of a game itself: the connection of a
/// deserter is shut down and the winner is told that the game is off; a draw is
/// counted for both.
pub open spec fn status_effects(
    players: Map<Seq<char>, PlayerView>,
    result: GameResultView,
) -> Seq<EffectView> {
    match result.status {
        GameStatus::Abandoned => {
            let shutdown = seq![EffectView::Shutdown(players[result.loser].stream)];
            if players.contains_key(result.winner) {
                shutdown.push(
                    EffectView::Send(
                        players[result.winner].stream,
                        ServerRequestView::plain(MsgType::GameAbort),
                    ),
                )
            } else {
                shutdown
            }
        },
        GameStatus::Completed => Seq::empty(),
        GameStatus::Draw => seq![
            EffectView::IncDraws(result.winner),
            EffectView::IncDraws(result.loser),
        ],
    }
}

/// What is to be counted for a player who comes out of a game: a win or a loss, if
/// they are in the pool.
pub open spec fn score_effects(
    players: Map<Seq<char>, PlayerView>,
    name: Seq<char>,
    won: bool,
) -> Seq<EffectView> {
    if !players.contains_key(name) {
        Seq::empty()
    } else if won {
        seq![EffectView::IncWins(name)]
    } else {
        seq![EffectView::IncLosses(name)]
    }
}

/// The player manager.
#[derive(Debug)]
pub struct PlayerManager {
    players: PlayerTable,
    /// The game masters have the numbers below this one.
    game_masters: u32,
    concurrent_games: i32,
    stats_update_timer: i64,
    rng: StdRng,
}

/// What a [`PlayerManager`] knows.
#[verifier::ext_equal]
pub struct ManagerView {
    pub players: Map<Seq<char>, PlayerView>,
    pub game_masters: Set<u32>,
    pub concurrent_games: int,
    pub stats_update_timer: i64,
}

impl View for PlayerManager {
    type V = ManagerView;

    closed spec fn view(&self) -> ManagerView {
        ManagerView {
            players: self.players@,
            game_masters: numbers_below(self.game_masters),
            concurrent_games: self.concurrent_games as int,
            stats_update_timer: self.stats_update_timer,
        }
    }
}

/// The numbers below the given one.
pub open spec fn numbers_below(count: u32) -> Set<u32> {
    Set::new(|id: u32| id < count)
}

/// How far an event has been handled. Each step looks at the clock anew, and what
/// is to be done about one step is done before the next.
#[derive(Debug)]
pub enum Turn {
    /// It is to be seen whether the statistics are due.
    Received { event: Event },
    /// The statistics are due.
    StatsDue { event: Event },
    /// The event itself is to be handled.
    Handling { event: Event },
    /// The winner of a game is to come back to the pool.
    WinnerReturns { result: GameResult },
    /// The loser of a game is to come back to the pool.
    LoserReturns { result: GameResult },
    /// There is nothing left to do.
    Done,
}

/// A [`Turn`] with its names as sequences of characters.
#[verifier::ext_equal]
pub enum TurnView {
    Received { event: EventView },
    StatsDue { event: EventView },
    Handling { event: EventView },
    WinnerReturns { result: GameResultView },
    LoserReturns { result: GameResultView },
    Done,
}

impl View for Turn {
    type V = TurnView;

    open spec fn view(&self) -> TurnView {
        match self {
            Turn::Received { event } => TurnView::Received { event: event@ },
            Turn::StatsDue { event } => TurnView::StatsDue { event: event@ },
            Turn::Handling { event } => TurnView::Handling { event: event@ },
            Turn::WinnerReturns { result } => TurnView::WinnerReturns { result: result@ },
            Turn::LoserReturns { result } => TurnView::LoserReturns { result: result@ },
            Turn::Done => TurnView::Done,
        }
    }
}

/// What follows from a step.
#[derive(Debug)]
pub struct ManagerReply {
    /// What is to be done, in order.
    pub effects: Vec<ManagerEffect>,
    /// The search for players that is to be made for a game master.
    pub search: Option<FreePlayerSearch>,
    /// The next step, once all of that is done.
    pub turn: Turn,
}

/// The end of a rest that begins now and takes the given milliseconds.
pub open spec fn rest_until(now: i64, millis: i64) -> i64 {
    (now + millis * 1_000_000) as i64
}

/// Whether a rest may take the given milliseconds.
pub open spec fn is_cooldown(millis: i64) -> bool {
    COOLDOWN_MIN <= millis < COOLDOWN_MAX
}

impl ManagerView {
    /// A player manager before its first event.
    pub open spec fn start(now: i64, game_masters: u32) -> ManagerView {
        ManagerView {
            players: Map::empty(),
            game_masters: numbers_below(game_masters),
            concurrent_games: 0,
            stats_update_timer: (now + STATS_UPDATE_INTERVAL) as i64,
        }
    }

    /// Whether the step can be taken at the given time: a game can only have been
    /// abandoned by a player who is still in the pool, and the counters must not be
    /// full.
    pub open spec fn can_take(self, turn: TurnView, now: i64) -> bool {
        &&& now <= LATEST_TIME
        &&& match turn {
            TurnView::Handling { event: EventView::GameOver { result } } => {
                &&& self.concurrent_games > i32::MIN
                &&& result.status == GameStatus::Abandoned ==> self.players.contains_key(
                    result.loser,
                )
            },
            TurnView::WinnerReturns { result } => {
                self.players.contains_key(result.winner) ==> self.players[result.winner].wins
                    < u64::MAX
            },
            TurnView::LoserReturns { result } => {
                self.players.contains_key(result.loser) ==> self.players[result.loser].losses
                    < u64::MAX
            },
            _ => true,
        }
    }

    /// The manager after a step at the given time. Who comes out of a game rests for
    /// the given milliseconds.
    pub open spec fn next(self, turn: TurnView, now: i64, rest: i64) -> ManagerView {
        match turn {
            TurnView::StatsDue { .. } => ManagerView {
                stats_update_timer: (now + STATS_UPDATE_INTERVAL) as i64,
                ..self
            },
            TurnView::Handling { event: EventView::NewPlayer { player } } => ManagerView {
                players: self.players.insert(
                    player.name,
                    PlayerView { player_wait_time: now, ..player },
                ),
                ..self
            },
            TurnView::Handling { event: EventView::GameOver { result } } => ManagerView {
                players: pool_without_deserter(self.players, result),
                concurrent_games: self.concurrent_games - 1,
                ..self
            },
            TurnView::WinnerReturns { result } => ManagerView {
                players: back_in_pool(self.players, result.winner, true, rest_until(now, rest)),
                ..self
            },
            TurnView::LoserReturns { result } => ManagerView {
                players: back_in_pool(self.players, result.loser, false, rest_until(now, rest)),
                ..self
            },
            _ => self,
        }
    }

    /// The step that follows a step at the given time.
    pub open spec fn turn_after(self, turn: TurnView, now: i64) -> TurnView {
        match turn {
            TurnView::Received { event } => if self.stats_update_timer < now {
                TurnView::StatsDue { event }
            } else {
                TurnView::Handling { event }
            },
            TurnView::StatsDue { event } => TurnView::Handling { event },
            TurnView::Handling { event: EventView::GameOver { result } } => {
                TurnView::WinnerReturns { result }
            },
            TurnView::WinnerReturns { result } => TurnView::LoserReturns { result },
            _ => TurnView::Done,
        }
    }

    /// What is to be done about a step.
    pub open spec fn effects(self, turn: TurnView) -> Seq<EffectView> {
        match turn {
            TurnView::StatsDue { .. } => seq![
                EffectView::UpdateStats(
                    crate::database_ops::concurrent_games_query(self.concurrent_games),
                ),
            ],
            TurnView::Handling { event: EventView::GameOver { result } } => {
                status_effects(self.players, result)
            },
            TurnView::WinnerReturns { result } => {
                score_effects(self.players, result.winner, true)
            },
            TurnView::LoserReturns { result } => {
                score_effects(self.players, result.loser, false)
            },
            _ => Seq::empty(),
        }
    }

    /// Whether the search answers to the step at the given time: one is made exactly
    /// for the wish of a game master who is known, among the players who are free.
    pub open spec fn searches(
        self,
        turn: TurnView,
        now: i64,
        search: Option<SearchView>,
    ) -> bool {
        match (turn, search) {
            (TurnView::Handling { event: EventView::NeedPlayers { id } }, Some(search)) => {
                &&& self.game_masters.contains(id)
                &&& search == SearchView::start(search.candidates)
                &&& crate::player_table::lists_free_players(search.candidates, self.players, now)
            },
            (TurnView::Handling { event: EventView::NeedPlayers { id } }, None) => {
                !self.game_masters.contains(id)
            },
            (_, search) => search is None,
        }
    }

    /// The players in the pool once a search has come to an end.
    pub open spec fn pruned(self, search: SearchView) -> Map<Seq<char>, PlayerView> {
        self.players.remove_keys(search.dead_players.to_set())
    }

    /// The manager after a search for players.
    pub open spec fn after_search(self, search: SearchView) -> ManagerView {
        let matched = matching(self.pruned(search), search.ready_players);
        ManagerView {
            players: matched.players,
            concurrent_games: if matched.started {
                self.concurrent_games + 1
            } else {
                self.concurrent_games
            },
            ..self
        }
    }
}

impl PlayerManager {
    /// What holds of every player manager: no two players have the same name.
    pub closed spec fn wf(self) -> bool {
        self.players.wf()
    }

    /// Each player stands in the pool under the own name.
    pub proof fn law_players_stand_under_their_names(self)
        requires
            self.wf(),
        ensures
            names_match(self@.players),
    {
        self.players.lemma_names();
    }

    /// Sets up a player manager without players, for so many game masters. They
    /// have the numbers from 0 on.
    pub fn new(now: i64, seed: u64, game_masters: u32) -> (manager: PlayerManager)
        requires
            now <= LATEST_TIME,
        ensures
            manager.wf(),
            manager@ == ManagerView::start(now, game_masters),
    {
        PlayerManager {
            players: PlayerTable::new(),
            game_masters,
            concurrent_games: 0,
            stats_update_timer: now + STATS_UPDATE_INTERVAL,
            rng: seed_from_u64(seed),
        }
    }

    /// Says whether a step can be taken at the given time.
    pub fn accepts(&self, turn: &Turn, now: i64) -> (accepted: bool)
        requires
            self.wf(),
        ensures
            accepted == self@.can_take(turn@, now),
    {
        if now > LATEST_TIME {
            return false;
        }
        match turn {
            Turn::Handling { event: Event::GameOver { result } } => {
                let abandoned = result.status == GameStatus::Abandoned;
                let deserter_is_known = self.players.stream_of(&result.loser).is_some();
                self.concurrent_games > i32::MIN && (!abandoned || deserter_is_known)
            },
            Turn::WinnerReturns { result } => match self.players.record_of(&result.winner) {
                Some((wins, _)) => wins < u64::MAX,
                None => true,
            },
            Turn::LoserReturns { result } => match self.players.record_of(&result.loser) {
                Some((_, losses)) => losses < u64::MAX,
                None => true,
            },
            _ => true,
        }
    }

    /// Finds the connection of a player in the pool.
    pub fn stream_of(&self, name: &String) -> (stream: Option<StreamId>)
        requires
            self.wf(),
        ensures
            stream == (if self@.players.contains_key(name@) {
                Some(self@.players[name@].stream)
            } else {
                None
            }),
    {
        self.players.stream_of(name)
    }

    /// Says whether one more game can be counted.
    pub fn has_room_for_a_game(&self) -> (has_room: bool)
        ensures
            has_room == (self@.concurrent_games < i32::MAX),
    {
        self.concurrent_games < i32::MAX
    }

    /// Counts a game as ended, and says what is to be done about its end.
    fn end_game(&mut self, result: &GameResult) -> (effects: Vec<ManagerEffect>)
        requires
            old(self).wf(),
            old(self)@.can_take(
                TurnView::Handling { event: EventView::GameOver { result: result@ } },
                0,
            ),
        ensures
            final(self).wf(),
            final(self)@ == (ManagerView {
                players: pool_without_deserter(old(self)@.players, result@),
                concurrent_games: old(self)@.concurrent_games - 1,
                ..old(self)@
            }),
            effect_views(effects@) == status_effects(old(self)@.players, result@),
    {
        let mut effects: Vec<ManagerEffect> = Vec::new();
        self.concurrent_games = self.concurrent_games - 1;
        match result.status {
            GameStatus::Abandoned => {
                if let Some(stream) = self.players.stream_of(&result.loser) {
                    effects.push(ManagerEffect::Shutdown(stream));
                }
                let abort_msg = ServerRequest::new(MsgType::GameAbort);
                match send_proto_to_client_by_name(&self.players, &result.winner, abort_msg) {
                    Ok((stream, msg)) => {
                        effects.push(ManagerEffect::Send(stream, msg));
                    },
                    Err(_) => {},
                }
                self.players.remove(&result.loser);
            },
            GameStatus::Completed => {},
            GameStatus::Draw => {
                effects.push(ManagerEffect::IncDraws(result.winner.clone()));
                effects.push(ManagerEffect::IncDraws(result.loser.clone()));
            },
        }
        assert(effect_views(effects@) =~= status_effects(old(self)@.players, result@));
        effects
    }

    /// Takes a player back from a game, and says what is to be counted for them.
    fn take_back(&mut self, name: &String, won: bool, player_cooldown: i64) -> (effects: Vec<
        ManagerEffect,
    >)
        requires
            old(self).wf(),
            old(self)@.players.contains_key(name@) ==> if won {
                old(self)@.players[name@].wins < u64::MAX
            } else {
                old(self)@.players[name@].losses < u64::MAX
            },
        ensures
            final(self).wf(),
            final(self)@ == (ManagerView {
                players: back_in_pool(old(self)@.players, name@, won, player_cooldown),
                ..old(self)@
            }),
            effect_views(effects@) == score_effects(old(self)@.players, name@, won),
    {
        let mut effects: Vec<ManagerEffect> = Vec::new();
        if self.players.leave_game(name, won, player_cooldown) {
            if won {
                effects.push(ManagerEffect::IncWins(name.clone()));
            } else {
                effects.push(ManagerEffect::IncLosses(name.clone()));
            }
        }
        assert(effect_views(effects@) =~= score_effects(old(self)@.players, name@, won));
        effects
    }

    /// Takes a step at the given time, where who comes out of a game rests for the
    /// given milliseconds.
    pub fn take_with_rest(&mut self, turn: Turn, now: i64, rest: i64) -> (reply: ManagerReply)
        requires
            old(self).wf(),
            old(self)@.can_take(turn@, now),
            is_cooldown(rest),
        ensures
            final(self).wf(),
            final(self)@ == old(self)@.next(turn@, now, rest),
            reply.turn@ == old(self)@.turn_after(turn@, now),
            effect_views(reply.effects@) == old(self)@.effects(turn@),
            old(self)@.searches(
                turn@,
                now,
                match reply.search {
                    Some(search) => Some(search@),
                    None => None,
                },
            ),
    {
        let mut effects: Vec<ManagerEffect> = Vec::new();
        assert(effect_views(effects@) =~= Seq::empty());
        let mut search: Option<FreePlayerSearch> = None;
        let next = match turn {
            Turn::Received { event } => {
                if self.stats_update_timer < now {
                    Turn::StatsDue { event }
                } else {
                    Turn::Handling { event }
                }
            },
            Turn::StatsDue { event } => {
                self.stats_update_timer = now + STATS_UPDATE_INTERVAL;
                effects.push(
                    ManagerEffect::UpdateStats(update_concurrent_games(self.concurrent_games)),
                );
                assert(effect_views(effects@) =~= old(self)@.effects(turn@));
                Turn::Handling { event }
            },
            Turn::Handling { event } => match event {
                Event::NewPlayer { player } => {
                    let mut player = player;
                    player.player_wait_time = now;
                    self.players.insert(player);
                    Turn::Done
                },
                Event::GameOver { result } => {
                    effects = self.end_game(&result);
                    Turn::WinnerReturns { result }
                },
                Event::NeedPlayers { id } => {
                    if id < self.game_masters {
                        search = Some(FreePlayerSearch::new(&self.players, now));
                    }
                    Turn::Done
                },
                _ => Turn::Done,
            },
            Turn::WinnerReturns { result } => {
                effects = self.take_back(&result.winner, true, now + rest * 1_000_000);
                Turn::LoserReturns { result }
            },
            Turn::LoserReturns { result } => {
                effects = self.take_back(&result.loser, false, now + rest * 1_000_000);
                Turn::Done
            },
            Turn::Done => Turn::Done,
        };
        ManagerReply { effects, search, turn: next }
    }

    /// Takes a step at the given time. How long somebody who comes out of a game
    /// rests is left to chance.
    pub fn take(&mut self, turn: Turn, now: i64) -> (reply: ManagerReply)
        requires
            old(self).wf(),
            old(self)@.can_take(turn@, now),
        ensures
            final(self).wf(),
            exists|rest: i64| #[trigger]
                is_cooldown(rest) && final(self)@ == old(self)@.next(turn@, now, rest),
            reply.turn@ == old(self)@.turn_after(turn@, now),
            effect_views(reply.effects@) == old(self)@.effects(turn@),
            old(self)@.searches(
                turn@,
                now,
                match reply.search {
                    Some(search) => Some(search@),
                    None => None,
                },
            ),
    {
        let comes_back = match &turn {
            Turn::WinnerReturns { result } => self.players.record_of(&result.winner).is_some(),
            Turn::LoserReturns { result } => self.players.record_of(&result.loser).is_some(),
            _ => false,
        };
        let mut rest = COOLDOWN_MIN;
        if comes_back {
            rest = gen_range(&mut self.rng, COOLDOWN_MIN, COOLDOWN_MAX);
        }
        assert(is_cooldown(rest));
        self.take_with_rest(turn, now, rest)
    }

    /// Ends a search for players: starts a game if two of them were found.
    /// Gives back what the game master who wished for players is told.
    pub fn finish_search(&mut self, search: FreePlayerSearch) -> (reply: Option<Event>)
        requires
            old(self).wf(),
            old(self)@.concurrent_games < i32::MAX,
        ensures
            final(self).wf(),
            final(self)@ == old(self)@.after_search(search@),
            matching(old(self)@.pruned(search@), search@.ready_players).reply == (match reply {
                Some(event) => Some(event@),
                None => None,
            }),
    {
        let free_players = get_free_players(&mut self.players, search);
        let (game_started, reply) = handle_need_players(&mut self.players, &free_players);
        if game_started {
            self.concurrent_games = self.concurrent_games + 1;
        }
        reply
    }
}

/// A game is started exactly if two players are found. They are two different
/// players who were in no game and whose cooldown was over; from then on they
/// are in a game, and nobody else in the pool is touched. If no game is started
/// the game master is told that there are no players.
pub proof fn law_matched_players_were_free(
    manager: ManagerView,
    now: i64,
    candidates: Seq<crate::types::GMPlayerView>,
    probes: Seq<crate::player_management::Probe>,
)
    requires
        crate::player_table::lists_free_players(candidates, manager.players, now),
        probes.len() == candidates.len(),
    ensures
        ({
            let search = crate::player_management::search_course(candidates, probes);
            let pool = manager.pruned(search);
            let matched = matching(pool, search.ready_players);
            &&& matched.started <==> search.ready_players.len() >= 2
            &&& matched.started ==> match matched.reply {
                Some(EventView::NewGame { name_a, name_b, stream_a, stream_b }) => {
                    &&& name_a != name_b
                    &&& manager.players.contains_key(name_a)
                    &&& manager.players.contains_key(name_b)
                    &&& crate::player_table::is_free(manager.players[name_a], now)
                    &&& crate::player_table::is_free(manager.players[name_b], now)
                    &&& stream_a == manager.players[name_a].stream
                    &&& stream_b == manager.players[name_b].stream
                    &&& matched.players == pool.insert(
                        name_a,
                        PlayerView { in_game: true, ..manager.players[name_a] },
                    ).insert(name_b, PlayerView { in_game: true, ..manager.players[name_b] })
                },
                _ => false,
            }
            &&& !matched.started ==> matched.players == pool && matched.reply == Some(
                EventView::NoPlayersAvailable,
            )
        }),
{
    crate::player_management::law_free_players(manager.players, now, candidates, probes);
    let search = crate::player_management::search_course(candidates, probes);
    let ready = search.ready_players;
    if ready.len() >= 2 {
        assert(ready.contains(ready[0]));
        assert(ready.contains(ready[1]));
    }
}

/// The clock and the rests while a game that is over is handled: when the winner
/// and when the loser came back to the pool, and for how many milliseconds each of
/// them rests.
pub struct ReturnClock {
    pub winner_at: i64,
    pub winner_rest: i64,
    pub loser_at: i64,
    pub loser_rest: i64,
}

impl ManagerView {
    /// Whether a game can be handled to its end.
    pub open spec fn can_end_game(self, result: GameResultView) -> bool {
        let pool = pool_without_deserter(self.players, result);
        &&& self.can_take(TurnView::Handling { event: EventView::GameOver { result } }, 0)
        &&& pool.contains_key(result.winner) ==> pool[result.winner].wins < u64::MAX
        &&& pool.contains_key(result.loser) ==> pool[result.loser].losses < u64::MAX
    }

    /// The managers after each of the three steps that a game that is over takes.
    pub open spec fn after_game(self, result: GameResultView, clock: ReturnClock) -> (
        ManagerView,
        ManagerView,
        ManagerView,
    ) {
        let over = TurnView::Handling { event: EventView::GameOver { result } };
        let ended = self.next(over, clock.winner_at, clock.winner_rest);
        let winner_back = ended.next(
            TurnView::WinnerReturns { result },
            clock.winner_at,
            clock.winner_rest,
        );
        let loser_back = winner_back.next(
            TurnView::LoserReturns { result },
            clock.loser_at,
            clock.loser_rest,
        );
        (ended, winner_back, loser_back)
    }

    /// What is to be done about a game that is over, in all three steps.
    pub open spec fn game_effects(self, result: GameResultView, clock: ReturnClock) -> Seq<
        EffectView,
    > {
        let (ended, winner_back, _) = self.after_game(result, clock);
        self.effects(TurnView::Handling { event: EventView::GameOver { result } })
            + ended.effects(TurnView::WinnerReturns { result }) + winner_back.effects(
            TurnView::LoserReturns { result },
        )
    }
}

/// A game that is over takes three steps, each of which can be taken if the game
/// can be handled at all: its end, the return of the winner, and the return of the
/// loser. After them both are back in the pool, each until the own rest is over,
/// which begins when they came back; the one who deserted a game is gone.
pub proof fn law_game_over_takes_three_steps(
    manager: ManagerView,
    result: GameResultView,
    clock: ReturnClock,
)
    requires
        manager.can_end_game(result),
        clock.winner_at <= LATEST_TIME,
        clock.loser_at <= LATEST_TIME,
    ensures
        ({
            let over = TurnView::Handling { event: EventView::GameOver { result } };
            let (ended, winner_back, loser_back) = manager.after_game(result, clock);
            let winner_returns = TurnView::WinnerReturns { result };
            let loser_returns = TurnView::LoserReturns { result };
            &&& manager.turn_after(over, clock.winner_at) == winner_returns
            &&& ended.can_take(winner_returns, clock.winner_at)
            &&& ended.turn_after(winner_returns, clock.winner_at) == loser_returns
            &&& winner_back.can_take(loser_returns, clock.loser_at)
            &&& winner_back.turn_after(loser_returns, clock.loser_at) == TurnView::Done
            &&& loser_back.players == pool_after_game(
                manager.players,
                result,
                rest_until(clock.winner_at, clock.winner_rest),
                rest_until(clock.loser_at, clock.loser_rest),
            )
        }),
{
}

/// Whether the player of the name is in the pool, in no game, and rests from the
/// given time on: nobody can match them before the shortest cooldown is over.
pub open spec fn rests_from(
    players: Map<Seq<char>, PlayerView>,
    name: Seq<char>,
    begin: i64,
) -> bool {
    &&& players.contains_key(name)
    &&& !players[name].in_game
    &&& begin + COOLDOWN_MIN * 1_000_000 <= players[name].player_cooldown < begin + COOLDOWN_MAX
        * 1_000_000
    &&& forall|later: i64| #[trigger]
        crate::player_table::is_free(players[name], later) ==> later > begin + COOLDOWN_MIN
            * 1_000_000
}

/// When a game is over its players come back to the pool and rest, each from the
/// time of the own return on. Who abandoned the game is taken out of the pool.
/// Nobody else is touched.
pub proof fn law_players_come_back_from_a_game(
    manager: ManagerView,
    result: GameResultView,
    clock: ReturnClock,
)
    requires
        manager.can_end_game(result),
        clock.winner_at <= LATEST_TIME,
        clock.loser_at <= LATEST_TIME,
        is_cooldown(clock.winner_rest),
        is_cooldown(clock.loser_rest),
        manager.players.contains_key(result.winner) ==> result.winner != result.loser,
    ensures
        ({
            let after = manager.after_game(result, clock).2.players;
            &&& manager.players.contains_key(result.winner) ==> rests_from(
                after,
                result.winner,
                clock.winner_at,
            ) && after[result.winner].wins == manager.players[result.winner].wins + 1
            &&& if result.status == GameStatus::Abandoned {
                !after.contains_key(result.loser)
            } else {
                manager.players.contains_key(result.loser) ==> rests_from(
                    after,
                    result.loser,
                    clock.loser_at,
                ) && after[result.loser].losses == manager.players[result.loser].losses + 1
            }
            &&& forall|name: Seq<char>|
                name != result.winner && name != result.loser ==> {
                    &&& #[trigger] after.contains_key(name) <==> manager.players.contains_key(name)
                    &&& after.contains_key(name) ==> after[name] == manager.players[name]
                }
        }),
{
}

impl TurnView {
    /// How many steps an event can still take.
    pub open spec fn steps_left(self) -> int {
        match self {
            TurnView::Received { .. } => 5,
            TurnView::StatsDue { .. } => 4,
            TurnView::Handling { .. } => 3,
            TurnView::WinnerReturns { .. } => 2,
            TurnView::LoserReturns { .. } => 1,
            TurnView::Done => 0,
        }
    }
}

/// Every event is handled in the end: each step leaves fewer of them, and the
/// event keeps what it says until it is handled.
pub proof fn law_turn_comes_to_an_end(manager: ManagerView, turn: TurnView, now: i64)
    requires
        turn != TurnView::Done,
    ensures
        0 <= manager.turn_after(turn, now).steps_left() < turn.steps_left(),
        match turn {
            TurnView::Received { event } => {
                ||| manager.turn_after(turn, now) == (TurnView::StatsDue { event })
                ||| manager.turn_after(turn, now) == (TurnView::Handling { event })
            },
            TurnView::StatsDue { event } => {
                manager.turn_after(turn, now) == (TurnView::Handling { event })
            },
            _ => true,
        },
{
}

/// The statistics are written twice a second at most: once they were, they are not
/// due again before the interval is over.
pub proof fn law_statistics_are_written_at_intervals(
    manager: ManagerView,
    event: EventView,
    now: i64,
    rest: i64,
    another: EventView,
    later: i64,
)
    requires
        now <= LATEST_TIME,
    ensures
        ({
            let after = manager.next(TurnView::StatsDue { event }, now, rest);
            after.turn_after(TurnView::Received { event: another }, later) == (
            TurnView::StatsDue { event: another }) <==> later > now + STATS_UPDATE_INTERVAL
        }),
{
}

/// Each player stands in the pool under the own name.
pub open spec fn names_match(players: Map<Seq<char>, PlayerView>) -> bool {
    forall|name: Seq<char>| #[trigger] players.contains_key(name) ==> players[name].name == name
}

/// Something that the player manager goes through: a step of the handling of an
/// event, or the end of a search for players.
pub enum ManagerStep {
    Turn { turn: TurnView, now: i64, rest: i64 },
    Search(SearchView),
}

impl ManagerView {
    /// The manager after one step.
    pub open spec fn step(self, step: ManagerStep) -> ManagerView {
        match step {
            ManagerStep::Turn { turn, now, rest } => self.next(turn, now, rest),
            ManagerStep::Search(search) => self.after_search(search),
        }
    }

    /// Whether the step starts a game.
    pub open spec fn starts_game(self, step: ManagerStep) -> bool {
        match step {
            ManagerStep::Turn { .. } => false,
            ManagerStep::Search(search) => {
                matching(self.pruned(search), search.ready_players).started
            },
        }
    }
}

/// Whether the step ends a game.
pub open spec fn ends_game(step: ManagerStep) -> bool {
    match step {
        ManagerStep::Turn { turn: TurnView::Handling { event }, .. } => event is GameOver,
        ManagerStep::Turn { .. } => false,
        ManagerStep::Search(_) => false,
    }
}

/// The manager after a sequence of steps.
pub open spec fn manager_course(manager: ManagerView, steps: Seq<ManagerStep>) -> ManagerView
    decreases steps.len(),
{
    if steps.len() == 0 {
        manager
    } else {
        manager_course(manager, steps.drop_last()).step(steps.last())
    }
}

/// How many games a sequence of steps starts.
pub open spec fn games_started(manager: ManagerView, steps: Seq<ManagerStep>) -> nat
    decreases steps.len(),
{
    if steps.len() == 0 {
        0
    } else {
        let before = games_started(manager, steps.drop_last());
        if manager_course(manager, steps.drop_last()).starts_game(steps.last()) {
            before + 1
        } else {
            before
        }
    }
}

/// How many games a sequence of steps ends.
pub open spec fn games_ended(steps: Seq<ManagerStep>) -> nat
    decreases steps.len(),
{
    if steps.len() == 0 {
        0
    } else if ends_game(steps.last()) {
        games_ended(steps.drop_last()) + 1
    } else {
        games_ended(steps.drop_last())
    }
}

/// Whatever the player manager goes through, the number of running games is the
/// number of those that were started less the number of those that ended, the
/// game masters stay the same, and each player stands under the own name.
pub proof fn law_games_are_counted(manager: ManagerView, steps: Seq<ManagerStep>)
    requires
        names_match(manager.players),
    ensures
        manager_course(manager, steps).concurrent_games == manager.concurrent_games
            + games_started(manager, steps) - games_ended(steps),
        manager_course(manager, steps).game_masters == manager.game_masters,
        names_match(manager_course(manager, steps).players),
    decreases steps.len(),
{
    if steps.len() > 0 {
        law_games_are_counted(manager, steps.drop_last());
    }
}

/// The pool and the database count alike: when a game is over, a win, a loss or
/// a draw of a player is written to the database exactly if it is a win or a loss
/// that the pool counts, or the game was a draw and the player is one of the two.
pub proof fn law_pool_and_database_count_alike(
    manager: ManagerView,
    result: GameResultView,
    clock: ReturnClock,
    name: Seq<char>,
)
    requires
        manager.can_end_game(result),
        manager.players.contains_key(name),
    ensures
        ({
            let before = manager.players[name];
            let pool = manager.after_game(result, clock).2.players;
            let effects = manager.game_effects(result, clock);
            let won: int = if effects.contains(EffectView::IncWins(name)) { 1 } else { 0 };
            let lost: int = if effects.contains(EffectView::IncLosses(name)) { 1 } else { 0 };
            &&& pool.contains_key(name) ==> {
                &&& pool[name].wins == before.wins + won
                &&& pool[name].losses == before.losses + lost
            }
            &&& !pool.contains_key(name) ==> won == 0 && lost == 0
            &&& effects.contains(EffectView::IncDraws(name)) <==> result.status == GameStatus::Draw
                && (name == result.winner || name == result.loser)
        }),
{
    let (ended, winner_back, _) = manager.after_game(result, clock);
    let effects = manager.game_effects(result, clock);
    let status = status_effects(manager.players, result);
    let win = score_effects(ended.players, result.winner, true);
    let loss = score_effects(winner_back.players, result.loser, false);
    assert(effects =~= status + win + loss);
    let at_win = status.len() as int;
    let at_loss = at_win + win.len();
    assert forall|k: int| 0 <= k < status.len() implies effects[k] == #[trigger] status[k] by {}
    if win.len() > 0 {
        assert(effects[at_win] == EffectView::IncWins(result.winner));
    }
    if loss.len() > 0 {
        assert(effects[at_loss] == EffectView::IncLosses(result.loser));
    }
    if result.status == GameStatus::Draw {
        assert(status[0] == EffectView::IncDraws(result.winner));
        assert(status[1] == EffectView::IncDraws(result.loser));
    }
}

/// What the view of an effect or of a step says is what is done.
pub proof fn law_manager_views(
    effects: Seq<ManagerEffect>,
    query: Query,
    stream: StreamId,
    msg: ServerRequest,
    name: String,
    event: Event,
    result: GameResult,
)
    ensures
        ManagerEffect::UpdateStats(query)@ == EffectView::UpdateStats(query@),
        ManagerEffect::Shutdown(stream)@ == EffectView::Shutdown(stream),
        ManagerEffect::Send(stream, msg)@ == EffectView::Send(stream, msg@),
        ManagerEffect::IncDraws(name)@ == EffectView::IncDraws(name@),
        ManagerEffect::IncWins(name)@ == EffectView::IncWins(name@),
        ManagerEffect::IncLosses(name)@ == EffectView::IncLosses(name@),
        (Turn::Received { event })@ == (TurnView::Received { event: event@ }),
        (Turn::StatsDue { event })@ == (TurnView::StatsDue { event: event@ }),
        (Turn::Handling { event })@ == (TurnView::Handling { event: event@ }),
        (Turn::WinnerReturns { result })@ == (TurnView::WinnerReturns { result: result@ }),
        (Turn::LoserReturns { result })@ == (TurnView::LoserReturns { result: result@ }),
        Turn::Done@ == TurnView::Done,
        effect_views(effects).len() == effects.len(),
        forall|i: int|
            0 <= i < effects.len() ==> #[trigger] effect_views(effects)[i] == effects[i]@,
{
}

/// A player manager begins with nobody in the pool and no game running; it knows the
/// game masters with the numbers below the given one, and its statistics are due
/// after 500 milliseconds.
pub proof fn law_manager_begins_empty(now: i64, game_masters: u32, id: u32)
    requires
        now <= LATEST_TIME,
    ensures
        ManagerView::start(now, game_masters).players == Map::<Seq<char>, PlayerView>::empty(),
        ManagerView::start(now, game_masters).game_masters.contains(id) <==> id < game_masters,
        ManagerView::start(now, game_masters).concurrent_games == 0,
        ManagerView::start(now, game_masters).stats_update_timer == now + 500_000_000,
{
}

/// The first two of the players who can play are matched, in their order: the first
/// one is player A and the second one player B, each with the own connection. Both
/// count as being in a game then. With fewer than two, or if the first one is not in
/// the pool, nothing changes and the game master is told that there are no players.
/// If only the second one is missing, the first one counts as being in a game, and
/// the game master is told nothing.
pub proof fn law_first_two_are_matched(
    players: Map<Seq<char>, PlayerView>,
    free_players: Seq<Seq<char>>,
)
    ensures
        ({
            let matched = matching(players, free_players);
            let first = free_players[0];
            let second = free_players[1];
            if free_players.len() < 2 || !players.contains_key(first) {
                &&& !matched.started
                &&& matched.players == players
                &&& matched.reply == Some(EventView::NoPlayersAvailable)
            } else if !players.contains_key(second) {
                &&& !matched.started
                &&& matched.players == players.insert(
                    first,
                    PlayerView { in_game: true, ..players[first] },
                )
                &&& matched.reply is None
            } else {
                &&& matched.started
                &&& matched.players == players.insert(
                    first,
                    PlayerView { in_game: true, ..players[first] },
                ).insert(second, PlayerView { in_game: true, ..players[second] })
                &&& matched.reply matches Some(
                    EventView::NewGame { name_a, name_b, stream_a, stream_b },
                ) && {
                    &&& name_a == first
                    &&& name_b == second
                    &&& stream_a == players[first].stream
                    &&& stream_b == players[second].stream
                }
            }
        }),
{
    if free_players.len() >= 2 && players.contains_key(free_players[0]) && players.contains_key(
        free_players[1],
    ) {
        assert(matching(players, free_players).players =~= players.insert(
            free_players[0],
            PlayerView { in_game: true, ..players[free_players[0]] },
        ).insert(
            free_players[1],
            PlayerView { in_game: true, ..players[free_players[1]] },
        ));
    }
}

/// A search that is over takes the dead players out of the pool and nobody else,
/// then the first two of the ready ones are matched. One more game is running
/// exactly if that started one; the game masters and the timer stay.
pub proof fn law_search_is_followed_by_a_match(
    manager: ManagerView,
    search: SearchView,
    name: Seq<char>,
)
    ensures
        ({
            let pool = manager.pruned(search);
            let matched = matching(pool, search.ready_players);
            let after = manager.after_search(search);
            &&& pool.contains_key(name) <==> manager.players.contains_key(name)
                && !search.dead_players.contains(name)
            &&& pool.contains_key(name) ==> pool[name] == manager.players[name]
            &&& after.players == matched.players
            &&& matched.started ==> after.concurrent_games == manager.concurrent_games + 1
            &&& !matched.started ==> after.concurrent_games == manager.concurrent_games
            &&& after.game_masters == manager.game_masters
            &&& after.stats_update_timer == manager.stats_update_timer
        }),
{
}

/// A new player stands in the pool under the own name, as they came but for the time
/// since when they wait, which is now. One of the same name is replaced; nobody else
/// is touched, and nothing is to be done.
pub proof fn law_new_player_joins_the_pool(
    manager: ManagerView,
    player: PlayerView,
    now: i64,
    rest: i64,
    other: Seq<char>,
)
    ensures
        ({
            let turn = TurnView::Handling { event: EventView::NewPlayer { player } };
            let after = manager.next(turn, now, rest);
            let entry = after.players[player.name];
            &&& after.players.contains_key(player.name)
            &&& entry.id == player.id && entry.name == player.name
            &&& entry.wins == player.wins && entry.losses == player.losses
            &&& entry.in_game == player.in_game && entry.stream == player.stream
            &&& entry.player_cooldown == player.player_cooldown
            &&& entry.player_wait_time == now
            &&& other != player.name ==> {
                &&& after.players.contains_key(other) <==> manager.players.contains_key(other)
                &&& after.players.contains_key(other) ==> after.players[other]
                    == manager.players[other]
            }
            &&& after.concurrent_games == manager.concurrent_games
            &&& after.game_masters == manager.game_masters
            &&& after.stats_update_timer == manager.stats_update_timer
            &&& manager.effects(turn).len() == 0
            &&& manager.turn_after(turn, now) == TurnView::Done
        }),
{
}

/// The end of a game counts one running game less. A deserter's connection is shut
/// down and they are taken out of the pool; then the winner, if they are in the pool,
/// is told that the game is off. A draw is counted for both, the one who is named
/// first before the other. Nothing else is to be done, and nobody else is touched.
pub proof fn law_end_of_a_game(
    manager: ManagerView,
    result: GameResultView,
    now: i64,
    rest: i64,
    name: Seq<char>,
)
    ensures
        ({
            let turn = TurnView::Handling { event: EventView::GameOver { result } };
            let after = manager.next(turn, now, rest);
            let effects = manager.effects(turn);
            let abandoned = result.status == GameStatus::Abandoned;
            &&& after.concurrent_games == manager.concurrent_games - 1
            &&& after.game_masters == manager.game_masters
            &&& after.stats_update_timer == manager.stats_update_timer
            &&& after.players.contains_key(name) <==> manager.players.contains_key(name) && !(
            abandoned && name == result.loser)
            &&& after.players.contains_key(name) ==> after.players[name] == manager.players[name]
            &&& abandoned ==> {
                &&& effects.len() == (if manager.players.contains_key(result.winner) {
                    2nat
                } else {
                    1nat
                })
                &&& effects[0] == EffectView::Shutdown(manager.players[result.loser].stream)
                &&& effects.len() == 2 ==> effects[1] == EffectView::Send(
                    manager.players[result.winner].stream,
                    ServerRequestView::plain(MsgType::GameAbort),
                )
            }
            &&& result.status == GameStatus::Completed ==> effects.len() == 0
            &&& result.status == GameStatus::Draw ==> {
                &&& effects.len() == 2
                &&& effects[0] == EffectView::IncDraws(result.winner)
                &&& effects[1] == EffectView::IncDraws(result.loser)
            }
            &&& manager.turn_after(turn, now) == (TurnView::WinnerReturns { result })
        }),
{
}

/// The winner of a game who is in the pool comes out of it with one win more and
/// rests until so many milliseconds after now; the win is counted in the database.
/// Who is not in the pool changes nothing. Then it is the loser's turn, likewise with
/// a loss, and then the event is handled.
pub proof fn law_players_return_one_by_one(
    manager: ManagerView,
    result: GameResultView,
    now: i64,
    rest: i64,
    other: Seq<char>,
)
    requires
        now <= LATEST_TIME,
        20 <= rest < 150,
    ensures
        ({
            let turn = TurnView::WinnerReturns { result };
            let after = manager.next(turn, now, rest);
            let effects = manager.effects(turn);
            let name = result.winner;
            &&& manager.players.contains_key(name) ==> {
                let before = manager.players[name];
                let entry = after.players[name];
                &&& after.players.contains_key(name)
                &&& before.wins < u64::MAX ==> entry.wins == before.wins + 1
                &&& entry.losses == before.losses
                &&& entry.player_cooldown == now + rest * 1_000_000 && !entry.in_game
                &&& entry.id == before.id && entry.name == before.name
                &&& entry.stream == before.stream
                &&& entry.player_wait_time == before.player_wait_time
                &&& effects.len() == 1 && effects[0] == EffectView::IncWins(name)
            }
            &&& !manager.players.contains_key(name) ==> after == manager && effects.len() == 0
            &&& other != name ==> {
                &&& after.players.contains_key(other) <==> manager.players.contains_key(other)
                &&& after.players.contains_key(other) ==> after.players[other]
                    == manager.players[other]
            }
            &&& after.concurrent_games == manager.concurrent_games
            &&& after.game_masters == manager.game_masters
            &&& after.stats_update_timer == manager.stats_update_timer
            &&& manager.turn_after(turn, now) == (TurnView::LoserReturns { result })
        }),
        ({
            let turn = TurnView::LoserReturns { result };
            let after = manager.next(turn, now, rest);
            let effects = manager.effects(turn);
            let name = result.loser;
            &&& manager.players.contains_key(name) ==> {
                let before = manager.players[name];
                let entry = after.players[name];
                &&& after.players.contains_key(name)
                &&& before.losses < u64::MAX ==> entry.losses == before.losses + 1
                &&& entry.wins == before.wins
                &&& entry.player_cooldown == now + rest * 1_000_000 && !entry.in_game
                &&& entry.id == before.id && entry.name == before.name
                &&& entry.stream == before.stream
                &&& entry.player_wait_time == before.player_wait_time
                &&& effects.len() == 1 && effects[0] == EffectView::IncLosses(name)
            }
            &&& !manager.players.contains_key(name) ==> after == manager && effects.len() == 0
            &&& other != name ==> {
                &&& after.players.contains_key(other) <==> manager.players.contains_key(other)
                &&& after.players.contains_key(other) ==> after.players[other]
                    == manager.players[other]
            }
            &&& after.concurrent_games == manager.concurrent_games
            &&& after.game_masters == manager.game_masters
            &&& after.stats_update_timer == manager.stats_update_timer
            &&& manager.turn_after(turn, now) == TurnView::Done
        }),
{
}

/// A rest takes at least 20 and less than 150 milliseconds.
pub proof fn law_rests_are_short(millis: i64)
    ensures
        is_cooldown(millis) <==> 20 <= millis < 150,
{
}

/// The statistics are due exactly if their timer ended before now. Then the number
/// of running games is written, the timer is set to 500 milliseconds from now on, and
/// the event is handled; nothing else changes. When an event has come, nothing but
/// the clock decides which it is.
pub proof fn law_statistics_tell_the_running_games(
    manager: ManagerView,
    event: EventView,
    now: i64,
    rest: i64,
)
    requires
        now <= LATEST_TIME,
    ensures
        ({
            let received = TurnView::Received { event };
            let due = TurnView::StatsDue { event };
            let after = manager.next(due, now, rest);
            let effects = manager.effects(due);
            &&& manager.next(received, now, rest) == manager
            &&& manager.effects(received).len() == 0
            &&& manager.stats_update_timer < now ==> manager.turn_after(received, now) == due
            &&& manager.stats_update_timer >= now ==> manager.turn_after(received, now) == (
            TurnView::Handling { event })
            &&& after.stats_update_timer == now + 500_000_000
            &&& after.players == manager.players
            &&& after.concurrent_games == manager.concurrent_games
            &&& after.game_masters == manager.game_masters
            &&& effects.len() == 1
            &&& effects[0] == EffectView::UpdateStats(
                crate::database_ops::concurrent_games_query(manager.concurrent_games),
            )
            &&& manager.turn_after(due, now) == (TurnView::Handling { event })
        }),
{
}

/// The wish of a game master changes nothing by itself: if the game master is known,
/// the free players of the pool are searched, and no search is made otherwise. Other
/// events of the game masters change nothing and are answered by nothing.
pub proof fn law_wish_starts_a_search(
    manager: ManagerView,
    id: u32,
    now: i64,
    rest: i64,
    search: Option<SearchView>,
    other: EventView,
)
    ensures
        ({
            let wish = TurnView::Handling { event: EventView::NeedPlayers { id } };
            &&& manager.next(wish, now, rest) == manager
            &&& manager.effects(wish).len() == 0
            &&& manager.turn_after(wish, now) == TurnView::Done
            &&& manager.searches(wish, now, search) ==> {
                &&& search is Some <==> manager.game_masters.contains(id)
                &&& search matches Some(search) ==> {
                    &&& search.next == 0 && !search.awaiting_reply
                    &&& search.ready_players.len() == 0 && search.dead_players.len() == 0
                    &&& crate::player_table::lists_free_players(
                        search.candidates,
                        manager.players,
                        now,
                    )
                }
            }
        }),
        ({
            let turn = TurnView::Handling { event: other };
            &&& !(other is NeedPlayers) && manager.searches(turn, now, search) ==> search is None
            &&& other is NewGame || other is NoPlayersAvailable ==> {
                &&& manager.next(turn, now, rest) == manager
                &&& manager.effects(turn).len() == 0
                &&& manager.turn_after(turn, now) == TurnView::Done
            }
        }),
{
}

/// Which steps can be taken, at any time that leaves room for the timers and at no
/// later one: every step but the end of a game that somebody abandoned who is not in
/// the pool, or a step that would overflow a counter.
pub proof fn law_which_steps_can_be_taken(
    manager: ManagerView,
    event: EventView,
    result: GameResultView,
    turn: TurnView,
    now: i64,
)
    ensures
        now > 9_223_372_036_354_775_807 ==> !manager.can_take(turn, now),
        now <= 9_223_372_036_354_775_807 ==> {
            let over = TurnView::Handling { event: EventView::GameOver { result } };
            let winner = manager.players[result.winner];
            let loser = manager.players[result.loser];
            &&& manager.can_take(TurnView::Received { event }, now)
            &&& manager.can_take(TurnView::StatsDue { event }, now)
            &&& manager.can_take(TurnView::Done, now)
            &&& !(event is GameOver) ==> manager.can_take(TurnView::Handling { event }, now)
            &&& manager.can_take(over, now) <==> manager.concurrent_games > i32::MIN && (
            result.status != GameStatus::Abandoned || manager.players.contains_key(result.loser))
            &&& manager.can_take(TurnView::WinnerReturns { result }, now) <==> (
            manager.players.contains_key(result.winner) ==> winner.wins < u64::MAX)
            &&& manager.can_take(TurnView::LoserReturns { result }, now) <==> (
            manager.players.contains_key(result.loser) ==> loser.losses < u64::MAX)
        },
{
}

/// An event that is handled stays so, and no search is made but for the event itself.
pub proof fn law_handled_event_stays_handled(
    manager: ManagerView,
    turn: TurnView,
    now: i64,
    rest: i64,
    search: Option<SearchView>,
)
    ensures
        manager.next(TurnView::Done, now, rest) == manager,
        manager.turn_after(TurnView::Done, now) == TurnView::Done,
        manager.effects(TurnView::Done).len() == 0,
        !(turn is Handling) && manager.searches(turn, now, search) ==> search is None,
{
}

} // verus!
