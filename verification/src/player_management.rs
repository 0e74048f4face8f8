//! Who can play the next game.
use crate::error::BidError;
use crate::player_table::PlayerTable;
use crate::proto_utils::{Exchange, MsgType, ServerRequest};
#[allow(unused_imports)]
use crate::proto_utils::{ExchangeView, ServerRequestView};
use crate::types::{GMPlayer, StreamId};
#[allow(unused_imports)]
use crate::types::{GMPlayerView, PlayerView};
use vstd::prelude::*;

verus! {

/// Gets the player's info by name.
///
/// This is used to look up a player by name and get a structure that the Game Manager knows
/// how to read. The player counts as being in a game from here on.
pub fn get_player_info_for_game(players: &mut PlayerTable, player_name: &String) -> (info: Option<
    GMPlayer,
>)
    requires
        old(players).wf(),
    ensures
        final(players).wf(),
        info is Some <==> old(players)@.contains_key(player_name@),
        final(players)@ == in_game_now(old(players)@, player_name@),
        info matches Some(info) ==> info@ == (GMPlayerView {
            name: player_name@,
            stream: old(players)@[player_name@].stream,
        }),
{
    players.enter_game(player_name)
}

/// The pool after the player of the name, if there is one, has entered a game.
pub open spec fn in_game_now(
    players: Map<Seq<char>, PlayerView>,
    name: Seq<char>,
) -> Map<Seq<char>, PlayerView> {
    if players.contains_key(name) {
        players.insert(name, PlayerView { in_game: true, ..players[name] })
    } else {
        players
    }
}

/// Addresses a message to a player by name: gives the connection that it is to be
/// sent over, and the message.
///
/// This is a specialty helper function when finding the player's stream object is inconvenient.
pub fn send_proto_to_client_by_name(
    players: &PlayerTable,
    player_name: &String,
    msg: ServerRequest,
) -> (addressed: Result<(StreamId, ServerRequest), BidError>)
    requires
        players.wf(),
    ensures
        match addressed {
            Ok((stream, addressed_msg)) => {
                &&& players@.contains_key(player_name@)
                &&& stream == players@[player_name@].stream
                &&& addressed_msg@ == msg@
            },
            Err(e) => {
                &&& !players@.contains_key(player_name@)
                &&& e == BidError::PlayerNotFoundByName
            },
        },
{
    match players.stream_of(player_name) {
        Some(stream) => Ok((stream, msg)),
        None => Err(BidError::PlayerNotFoundByName),
    }
}

/// The search for the players who are able to play a game: each of the players
/// who are free is asked whether they are still there.
#[derive(Debug)]
pub struct FreePlayerSearch {
    candidates: Vec<GMPlayer>,
    next: usize,
    awaiting_reply: bool,
    ready_players: Vec<String>,
    dead_players: Vec<String>,
}

/// A [`FreePlayerSearch`] with its names as sequences of characters.
#[verifier::ext_equal]
pub struct SearchView {
    /// Those who are asked, in turn.
    pub candidates: Seq<GMPlayerView>,
    /// How many of them have been judged.
    pub next: nat,
    /// Whether the one whose turn it is has been asked.
    pub awaiting_reply: bool,
    /// Those who answered.
    pub ready_players: Seq<Seq<char>>,
    /// Those who are gone.
    pub dead_players: Seq<Seq<char>>,
}

/// What is to be done next in a search.
#[derive(Debug)]
pub enum SearchAction {
    Send(StreamId, ServerRequest),
    Receive(StreamId),
    Finish,
}

/// A [`SearchAction`] with the message as its view.
#[verifier::ext_equal]
pub enum SearchActionView {
    Send(StreamId, ServerRequestView),
    Receive(StreamId),
    Finish,
}

impl View for SearchAction {
    type V = SearchActionView;

    open spec fn view(&self) -> SearchActionView {
        match self {
            SearchAction::Send(stream, msg) => SearchActionView::Send(*stream, msg@),
            SearchAction::Receive(stream) => SearchActionView::Receive(*stream),
            SearchAction::Finish => SearchActionView::Finish,
        }
    }
}

impl View for FreePlayerSearch {
    type V = SearchView;

    closed spec fn view(&self) -> SearchView {
        SearchView {
            candidates: crate::types::gm_player_views(self.candidates@),
            next: self.next as nat,
            awaiting_reply: self.awaiting_reply,
            ready_players: crate::types::name_views(self.ready_players@),
            dead_players: crate::types::name_views(self.dead_players@),
        }
    }
}

impl SearchView {
    /// The search before its first action.
    pub open spec fn start(candidates: Seq<GMPlayerView>) -> SearchView {
        SearchView {
            candidates,
            next: 0,
            awaiting_reply: false,
            ready_players: Seq::empty(),
            dead_players: Seq::empty(),
        }
    }

    /// Whether everybody has been judged.
    pub open spec fn is_finished(self) -> bool {
        self.next >= self.candidates.len()
    }

    /// The search after it has judged the one whose turn it is.
    pub open spec fn judged(self, alive: bool) -> SearchView {
        let name = self.candidates[self.next as int].name;
        SearchView {
            next: self.next + 1,
            awaiting_reply: false,
            ready_players: if alive { self.ready_players.push(name) } else { self.ready_players },
            dead_players: if alive { self.dead_players } else { self.dead_players.push(name) },
            ..self
        }
    }

    /// The search after an exchange with the one whose turn it is. What they
    /// respond with does not matter, as long as they respond with something. An
    /// exchange that was not due changes nothing.
    pub open spec fn next(self, event: ExchangeView) -> SearchView {
        if self.is_finished() {
            self
        } else {
            match event {
                ExchangeView::Sent(sent) => if self.awaiting_reply {
                    self
                } else if sent is Ok {
                    SearchView { awaiting_reply: true, ..self }
                } else {
                    self.judged(false)
                },
                ExchangeView::Received(reply) => if self.awaiting_reply {
                    self.judged(reply is Ok)
                } else {
                    self
                },
            }
        }
    }

    /// The action that is due.
    pub open spec fn due(self) -> SearchActionView {
        if self.is_finished() {
            SearchActionView::Finish
        } else {
            let stream = self.candidates[self.next as int].stream;
            if self.awaiting_reply {
                SearchActionView::Receive(stream)
            } else {
                SearchActionView::Send(stream, ServerRequestView::plain(MsgType::Alive))
            }
        }
    }
}

impl FreePlayerSearch {
    /// Starts a search among the players who, at the given time, are in no game
    /// and whose cooldown is over.
    pub fn new(players: &PlayerTable, now: i64) -> (search: FreePlayerSearch)
        requires
            players.wf(),
        ensures
            search@ == SearchView::start(search@.candidates),
            crate::player_table::lists_free_players(search@.candidates, players@, now),
    {
        let search = FreePlayerSearch {
            candidates: players.free_players(now),
            next: 0,
            awaiting_reply: false,
            ready_players: Vec::new(),
            dead_players: Vec::new(),
        };
        assert(search@ =~= SearchView::start(search@.candidates));
        search
    }

    /// Says what is to be done next.
    pub fn action(&self) -> (action: SearchAction)
        ensures
            action@ == self@.due(),
    {
        if self.next >= self.candidates.len() {
            SearchAction::Finish
        } else {
            let stream = self.candidates[self.next].stream;
            if self.awaiting_reply {
                SearchAction::Receive(stream)
            } else {
                SearchAction::Send(stream, ServerRequest::new(MsgType::Alive))
            }
        }
    }

    fn judge(&mut self, alive: bool)
        requires
            !old(self)@.is_finished(),
        ensures
            final(self)@ == old(self)@.judged(alive),
    {
        assert(self.next < self.candidates.len());
        let name = self.candidates[self.next].name.clone();
        if alive {
            self.ready_players.push(name);
        } else {
            self.dead_players.push(name);
        }
        self.next = self.next + 1;
        self.awaiting_reply = false;
        assert(self@ =~= old(self)@.judged(alive));
    }

    /// Moves on after an exchange with the one whose turn it is.
    pub fn advance(&mut self, event: Exchange)
        ensures
            final(self)@ == old(self)@.next(event@),
    {
        if self.next < self.candidates.len() {
            match event {
                Exchange::Sent(sent) => {
                    if !self.awaiting_reply {
                        if sent.is_ok() {
                            self.awaiting_reply = true;
                        } else {
                            self.judge(false);
                        }
                    }
                },
                Exchange::Received(reply) => {
                    if self.awaiting_reply {
                        self.judge(reply.is_ok());
                    }
                },
            }
        }
    }
}

/// Gets a vector of players who are able to play a game.
///
/// Whether or not a player is able to join a game is determined by several factors:
/// - They can't currently be in a game
/// - Their cooldown is over.
/// - They respond successfully to an ALIVE message.
///
/// This function will also clean up any dead connections before it returns the vector.
pub fn get_free_players(players: &mut PlayerTable, search: FreePlayerSearch) -> (ready: Vec<String>)
    requires
        old(players).wf(),
    ensures
        final(players).wf(),
        crate::types::name_views(ready@) == search@.ready_players,
        final(players)@ == old(players)@.remove_keys(search@.dead_players.to_set()),
{
    let ghost dead = search@.dead_players;
    let mut i: usize = 0;
    proof {
        assert(dead.take(0).to_set() =~= Set::empty());
        assert(players@.remove_keys(dead.take(0).to_set()) =~= players@);
    }
    while i < search.dead_players.len()
        invariant
            i <= search.dead_players.len(),
            dead == crate::types::name_views(search.dead_players@),
            players.wf(),
            players@ == old(players)@.remove_keys(dead.take(i as int).to_set()),
        decreases search.dead_players.len() - i,
    {
        players.remove(&search.dead_players[i]);
        proof {
            let gone = dead.take(i as int);
            assert(dead.take(i + 1) =~= gone.push(dead[i as int]));
            gone.lemma_push_to_set_commute(dead[i as int]);
            assert(players@ =~= old(players)@.remove_keys(dead.take(i + 1).to_set()));
        }
        i = i + 1;
    }
    assert(dead.take(dead.len() as int) =~= dead);
    search.ready_players
}

/// What came of asking one player: of the message to them and, if it was sent,
/// of the wait for their answer.
pub struct Probe {
    pub sent: Result<(), BidError>,
    pub reply: Result<ServerRequestView, BidError>,
}

impl Probe {
    /// Whether the player responded successfully.
    pub open spec fn answered(self) -> bool {
        self.sent is Ok && self.reply is Ok
    }
}

/// The search after one more player was asked.
pub open spec fn search_turn(search: SearchView, probe: Probe) -> SearchView {
    let asked = search.next(ExchangeView::Sent(probe.sent));
    if probe.sent is Ok {
        asked.next(ExchangeView::Received(probe.reply))
    } else {
        asked
    }
}

/// The search after its first players were asked.
pub open spec fn search_course(candidates: Seq<GMPlayerView>, probes: Seq<Probe>) -> SearchView
    decreases probes.len(),
{
    if probes.len() == 0 {
        SearchView::start(candidates)
    } else {
        search_turn(search_course(candidates, probes.drop_last()), probes.last())
    }
}

/// The names of those who did or did not answer, in the order in which they
/// were asked.
pub open spec fn by_answer(
    candidates: Seq<GMPlayerView>,
    probes: Seq<Probe>,
    answered: bool,
) -> Seq<Seq<char>>
    decreases probes.len(),
{
    if probes.len() == 0 {
        Seq::empty()
    } else {
        let others = by_answer(candidates, probes.drop_last(), answered);
        if probes.last().answered() == answered {
            others.push(candidates[probes.len() - 1].name)
        } else {
            others
        }
    }
}

/// A search asks one player after the other. Those who answer are ready; those
/// whom the message does not reach, or who do not answer it, are dead.
pub proof fn law_search_sorts_players_by_answer(
    candidates: Seq<GMPlayerView>,
    probes: Seq<Probe>,
)
    requires
        probes.len() <= candidates.len(),
    ensures
        search_course(candidates, probes) == (SearchView {
            candidates,
            next: probes.len(),
            awaiting_reply: false,
            ready_players: by_answer(candidates, probes, true),
            dead_players: by_answer(candidates, probes, false),
        }),
        search_course(candidates, probes).is_finished() <==> probes.len() == candidates.len(),
    decreases probes.len(),
{
    if probes.len() > 0 {
        law_search_sorts_players_by_answer(candidates, probes.drop_last());
    }
}

/// Finds the player whose name stands at the given place of the list.
proof fn lemma_listed_by_answer(
    candidates: Seq<GMPlayerView>,
    probes: Seq<Probe>,
    answered: bool,
    k: int,
) -> (i: int)
    requires
        probes.len() <= candidates.len(),
        0 <= k < by_answer(candidates, probes, answered).len(),
    ensures
        0 <= i < probes.len(),
        probes[i].answered() == answered,
        candidates[i].name == by_answer(candidates, probes, answered)[k],
    decreases probes.len(),
{
    let fewer = probes.drop_last();
    if k < by_answer(candidates, fewer, answered).len() {
        let i = lemma_listed_by_answer(candidates, fewer, answered, k);
        assert(probes[i] == fewer[i]);
        i
    } else {
        probes.len() - 1
    }
}

/// Finds the place in the list of a player who did or did not answer.
proof fn lemma_place_by_answer(
    candidates: Seq<GMPlayerView>,
    probes: Seq<Probe>,
    answered: bool,
    i: int,
) -> (k: int)
    requires
        probes.len() <= candidates.len(),
        0 <= i < probes.len(),
        probes[i].answered() == answered,
    ensures
        0 <= k < by_answer(candidates, probes, answered).len(),
        by_answer(candidates, probes, answered)[k] == candidates[i].name,
    decreases probes.len(),
{
    let fewer = probes.drop_last();
    if i < fewer.len() {
        assert(fewer[i] == probes[i]);
        lemma_place_by_answer(candidates, fewer, answered, i)
    } else {
        by_answer(candidates, fewer, answered).len() as int
    }
}

/// When all the free players of a pool were asked, the players that are found
/// are exactly those who are in no game, whose cooldown is over and who
/// answered; the free players who did not answer are taken out of the pool, and
/// nobody else is.
pub proof fn law_free_players(
    players: Map<Seq<char>, PlayerView>,
    now: i64,
    candidates: Seq<GMPlayerView>,
    probes: Seq<Probe>,
)
    requires
        crate::player_table::lists_free_players(candidates, players, now),
        probes.len() == candidates.len(),
    ensures
        ({
            let search = search_course(candidates, probes);
            let pruned = players.remove_keys(search.dead_players.to_set());
            &&& search.is_finished()
            &&& forall|i: int|
                0 <= i < candidates.len() ==> {
                    let name = (#[trigger] candidates[i]).name;
                    &&& search.ready_players.contains(name) <==> probes[i].answered()
                    &&& pruned.contains_key(name) <==> probes[i].answered()
                }
            &&& forall|name: Seq<char>| #[trigger]
                search.ready_players.contains(name) ==> {
                    &&& pruned.contains_key(name)
                    &&& crate::player_table::is_free(pruned[name], now)
                }
            &&& forall|name: Seq<char>| #[trigger]
                players.contains_key(name) && !crate::player_table::is_free(players[name], now)
                    ==> pruned.contains_key(name)
            &&& pruned.submap_of(players)
            &&& search.ready_players.no_duplicates()
        }),
{
    law_search_sorts_players_by_answer(candidates, probes);
    lemma_by_answer_is_distinct(candidates, probes, true);
    let search = search_course(candidates, probes);
    let pruned = players.remove_keys(search.dead_players.to_set());
    assert forall|i: int| 0 <= i < candidates.len() implies {
        let name = (#[trigger] candidates[i]).name;
        &&& search.ready_players.contains(name) <==> probes[i].answered()
        &&& search.dead_players.contains(name) <==> !probes[i].answered()
    } by {
        let name = candidates[i].name;
        let place = lemma_place_by_answer(candidates, probes, probes[i].answered(), i);
        assert(by_answer(candidates, probes, probes[i].answered())[place] == name);
        if search.ready_players.contains(name) {
            let k = search.ready_players.index_of(name);
            let j = lemma_listed_by_answer(candidates, probes, true, k);
            assert(candidates[j].name == candidates[i].name);
            assert(i == j);
        }
        if search.dead_players.contains(name) {
            let k = search.dead_players.index_of(name);
            let j = lemma_listed_by_answer(candidates, probes, false, k);
            assert(candidates[j].name == candidates[i].name);
            assert(i == j);
        }
    }
    assert forall|name: Seq<char>| #[trigger] search.ready_players.contains(name) implies {
        &&& pruned.contains_key(name)
        &&& crate::player_table::is_free(pruned[name], now)
    } by {
        let k = search.ready_players.index_of(name);
        let i = lemma_listed_by_answer(candidates, probes, true, k);
        assert(candidates[i].name == name);
    }
    assert forall|name: Seq<char>| #[trigger]
        players.contains_key(name) && !crate::player_table::is_free(
            players[name],
            now,
        ) implies pruned.contains_key(name) by {
        if search.dead_players.contains(name) {
            let k = search.dead_players.index_of(name);
            let i = lemma_listed_by_answer(candidates, probes, false, k);
            assert(candidates[i].name == name);
        }
    }
}

proof fn lemma_by_answer_is_distinct(
    candidates: Seq<GMPlayerView>,
    probes: Seq<Probe>,
    answered: bool,
)
    requires
        probes.len() <= candidates.len(),
        forall|k: int, l: int|
            0 <= k < l < candidates.len() ==> (#[trigger] candidates[k]).name != (
            #[trigger] candidates[l]).name,
    ensures
        by_answer(candidates, probes, answered).no_duplicates(),
    decreases probes.len(),
{
    if probes.len() > 0 {
        let fewer = probes.drop_last();
        lemma_by_answer_is_distinct(candidates, fewer, answered);
        let others = by_answer(candidates, fewer, answered);
        let last = candidates[probes.len() - 1].name;
        assert forall|k: int| 0 <= k < others.len() implies #[trigger] others[k] != last by {
            let i = lemma_listed_by_answer(candidates, fewer, answered, k);
            assert(candidates[i].name != last);
        }
    }
}

impl SearchView {
    /// How many exchanges with players there can still be.
    pub open spec fn exchanges_left(self) -> int {
        if self.is_finished() {
            0
        } else if self.awaiting_reply {
            2 * (self.candidates.len() - self.next) - 1
        } else {
            2 * (self.candidates.len() - self.next)
        }
    }

    /// Whether the exchange is the one that is due.
    pub open spec fn is_due(self, event: ExchangeView) -> bool {
        match self.due() {
            SearchActionView::Send(_, _) => event is Sent,
            SearchActionView::Receive(_) => event is Received,
            SearchActionView::Finish => false,
        }
    }
}

/// Every search comes to an end: each exchange that is due leaves fewer of them,
/// and a search that has none left is over. Each player is asked once.
pub proof fn law_search_comes_to_an_end(search: SearchView, event: ExchangeView)
    requires
        search.is_due(event),
    ensures
        0 <= search.next(event).exchanges_left() < search.exchanges_left(),
        search.next(event).exchanges_left() == 0 <==> search.next(event).is_finished(),
        search.next(event).candidates == search.candidates,
        search.next <= search.next(event).next <= search.next + 1,
{
}

/// What the view of an action says is what is done.
pub proof fn law_search_action_views(stream: StreamId, msg: ServerRequest)
    ensures
        SearchAction::Send(stream, msg)@ == SearchActionView::Send(stream, msg@),
        SearchAction::Receive(stream)@ == SearchActionView::Receive(stream),
        SearchAction::Finish@ == SearchActionView::Finish,
{
}

/// A player who enters a game counts as being in one; nothing else about them
/// changes, nobody else is touched, and nobody comes or goes.
pub proof fn law_entering_a_game(
    players: Map<Seq<char>, PlayerView>,
    name: Seq<char>,
    other: Seq<char>,
)
    ensures
        ({
            let after = in_game_now(players, name);
            &&& after.contains_key(other) <==> players.contains_key(other)
            &&& players.contains_key(other) && other != name ==> after[other] == players[other]
            &&& players.contains_key(name) ==> {
                &&& after[name].in_game
                &&& after[name].id == players[name].id
                &&& after[name].name == players[name].name
                &&& after[name].wins == players[name].wins
                &&& after[name].losses == players[name].losses
                &&& after[name].stream == players[name].stream
                &&& after[name].player_cooldown == players[name].player_cooldown
                &&& after[name].player_wait_time == players[name].player_wait_time
            }
        }),
{
}

/// A search begins with nobody judged. Each candidate in turn is sent ALIVE over the
/// own connection, then an answer over the same connection is awaited. Who cannot be
/// sent it, or does not answer, is dead; who answers, with whatever message, is
/// ready; and it is the next one's turn.
pub proof fn law_search_asks_each_candidate(
    search: SearchView,
    candidates: Seq<GMPlayerView>,
    msg: ServerRequestView,
    e: BidError,
)
    ensures
        SearchView::start(candidates).candidates == candidates,
        SearchView::start(candidates).next == 0,
        !SearchView::start(candidates).awaiting_reply,
        SearchView::start(candidates).ready_players.len() == 0,
        SearchView::start(candidates).dead_players.len() == 0,
        search.next >= search.candidates.len() <==> search.due() == SearchActionView::Finish,
        search.next < search.candidates.len() ==> {
            let candidate = search.candidates[search.next as int];
            let asked = search.next(ExchangeView::Sent(Ok(())));
            let unreached = search.next(ExchangeView::Sent(Err(e)));
            let answered = search.next(ExchangeView::Received(Ok(msg)));
            let silent = search.next(ExchangeView::Received(Err(e)));
            if search.awaiting_reply {
                &&& search.due() == SearchActionView::Receive(candidate.stream)
                &&& answered.next == search.next + 1 && !answered.awaiting_reply
                &&& answered.candidates == search.candidates
                &&& answered.ready_players == search.ready_players.push(candidate.name)
                &&& answered.dead_players == search.dead_players
                &&& silent.next == search.next + 1 && !silent.awaiting_reply
                &&& silent.candidates == search.candidates
                &&& silent.ready_players == search.ready_players
                &&& silent.dead_players == search.dead_players.push(candidate.name)
                &&& asked == search && unreached == search
            } else {
                &&& search.due() == SearchActionView::Send(
                    candidate.stream,
                    ServerRequestView::plain(MsgType::Alive),
                )
                &&& asked.due() == SearchActionView::Receive(candidate.stream)
                &&& asked.next == search.next && asked.candidates == search.candidates
                &&& asked.ready_players == search.ready_players
                &&& asked.dead_players == search.dead_players
                &&& unreached.next == search.next + 1 && !unreached.awaiting_reply
                &&& unreached.candidates == search.candidates
                &&& unreached.ready_players == search.ready_players
                &&& unreached.dead_players == search.dead_players.push(candidate.name)
                &&& answered == search && silent == search
            }
        },
        search.next >= search.candidates.len() ==> search.next(ExchangeView::Sent(Ok(())))
            == search && search.next(ExchangeView::Sent(Err(e))) == search && search.next(
            ExchangeView::Received(Ok(msg)),
        ) == search && search.next(ExchangeView::Received(Err(e))) == search,
{
}

} // verus!
