//! The pool of players, by their names.
use crate::types::{GMPlayer, Player, StreamId};
#[allow(unused_imports)]
use crate::types::{GMPlayerView, PlayerView};
use vstd::prelude::*;

verus! {

/// The players that the server knows. No two of them have the same name. The
/// order in which they are held means nothing.
#[derive(Debug)]
pub struct PlayerTable {
    players: Vec<Player>,
}

/// Whether a player can be asked to join a game: they can't currently be in a
/// game, and their cooldown is over.
pub open spec fn is_free(player: PlayerView, now: i64) -> bool {
    !player.in_game && player.player_cooldown < now
}

spec fn holds(players: Seq<Player>, name: Seq<char>) -> bool {
    exists|i: int| 0 <= i < players.len() && (#[trigger] players[i]).name@ == name
}

spec fn place(players: Seq<Player>, name: Seq<char>) -> int {
    choose|i: int| 0 <= i < players.len() && (#[trigger] players[i]).name@ == name
}

impl View for PlayerTable {
    type V = Map<Seq<char>, PlayerView>;

    /// The players by their names.
    closed spec fn view(&self) -> Map<Seq<char>, PlayerView> {
        Map::new(
            |name: Seq<char>| holds(self.players@, name),
            |name: Seq<char>| self.players@[place(self.players@, name)]@,
        )
    }
}

impl PlayerTable {
    /// No two players have the same name.
    pub closed spec fn wf(self) -> bool {
        forall|i: int, j: int|
            0 <= i < j < self.players.len() ==> (#[trigger] self.players[i]).name@ != (
            #[trigger] self.players[j]).name@
    }

    proof fn lemma_view(self)
        requires
            self.wf(),
        ensures
            forall|i: int|
                0 <= i < self.players.len() ==> self@.contains_key(
                    (#[trigger] self.players[i]).name@,
                ) && self@[self.players[i].name@] == self.players[i]@,
            forall|name: Seq<char>| #[trigger]
                self@.contains_key(name) ==> holds(self.players@, name) && self@[name].name == name,
    {
        assert forall|i: int| 0 <= i < self.players.len() implies self@.contains_key(
            (#[trigger] self.players[i]).name@,
        ) && self@[self.players[i].name@] == self.players[i]@ by {
            let name = self.players[i].name@;
            assert(holds(self.players@, name));
            let j = place(self.players@, name);
            assert(self.players@[j].name@ == name);
            assert(i == j);
        }
    }

    /// Each player stands under the own name.
    pub proof fn lemma_names(self)
        requires
            self.wf(),
        ensures
            forall|name: Seq<char>| #[trigger] self@.contains_key(name) ==> self@[name].name == name,
    {
        self.lemma_view();
    }

    /// Makes a pool without players.
    pub fn new() -> (table: PlayerTable)
        ensures
            table.wf(),
            table@ == Map::<Seq<char>, PlayerView>::empty(),
    {
        let table = PlayerTable { players: Vec::new() };
        assert(table@ =~= Map::<Seq<char>, PlayerView>::empty());
        table
    }

    fn index_of(&self, name: &String) -> (index: Option<usize>)
        requires
            self.wf(),
        ensures
            match index {
                Some(i) => {
                    &&& i < self.players.len()
                    &&& self.players[i as int].name@ == name@
                    &&& self@.contains_key(name@)
                    &&& self@[name@] == self.players[i as int]@
                },
                None => !self@.contains_key(name@),
            },
    {
        proof {
            self.lemma_view();
        }
        let mut i: usize = 0;
        while i < self.players.len()
            invariant
                i <= self.players.len(),
                forall|j: int| 0 <= j < i ==> (#[trigger] self.players[j]).name@ != name@,
                forall|j: int|
                    0 <= j < self.players.len() ==> self@.contains_key(
                        (#[trigger] self.players[j]).name@,
                    ) && self@[self.players[j].name@] == self.players[j]@,
            decreases self.players.len() - i,
        {
            if self.players[i].name == *name {
                return Some(i);
            }
            i = i + 1;
        }
        None
    }

    /// Counts the players.
    pub fn len(&self) -> (count: usize)
        requires
            self.wf(),
        ensures
            count == self@.len(),
    {
        proof {
            self.lemma_len();
        }
        self.players.len()
    }

    proof fn lemma_len(self)
        requires
            self.wf(),
        ensures
            self@.len() == self.players.len(),
    {
        let names = self.players@.map_values(|p: Player| p.name@);
        assert(names.no_duplicates());
        names.unique_seq_to_set();
        assert(self@.dom() =~= names.to_set()) by {
            self.lemma_view();
            assert forall|name: Seq<char>| #[trigger]
                self@.contains_key(name) implies names.to_set().contains(name) by {
                let i = place(self.players@, name);
                assert(names[i] == name);
            }
            assert forall|name: Seq<char>| #[trigger]
                names.to_set().contains(name) implies self@.contains_key(name) by {
                let i = names.index_of(name);
                assert(self.players[i].name@ == name);
            }
        }
    }

    proof fn lemma_replaced(self, before: PlayerTable, i: int)
        requires
            before.wf(),
            0 <= i < before.players.len(),
            self.players.len() == before.players.len(),
            self.players[i].name@ == before.players[i].name@,
            forall|j: int|
                0 <= j < before.players.len() && j != i ==> #[trigger] self.players[j]
                    == before.players[j],
        ensures
            self.wf(),
            self@ == before@.insert(self.players[i].name@, self.players[i]@),
    {
        before.lemma_view();
        assert(forall|j: int|
            0 <= j < before.players.len() ==> (#[trigger] self.players[j]).name@
                == before.players[j].name@);
        self.lemma_view();
        let after = before@.insert(self.players[i].name@, self.players[i]@);
        assert forall|name: Seq<char>| self@.contains_key(name) <==> #[trigger] after.contains_key(
            name,
        ) by {
            if before@.contains_key(name) {
                let j = place(before.players@, name);
                assert(self.players[j].name@ == name);
            }
            if self@.contains_key(name) {
                let j = place(self.players@, name);
                assert(before.players[j].name@ == name);
            }
        }
        assert forall|name: Seq<char>| #[trigger] self@.contains_key(name) implies self@[name]
            == after[name] by {
            let j = place(self.players@, name);
            assert(self.players[j].name@ == name);
        }
        assert(self@ =~= after);
    }

    proof fn lemma_pushed(self, before: PlayerTable, player: Player)
        requires
            before.wf(),
            !before@.contains_key(player.name@),
            self.players@ == before.players@.push(player),
        ensures
            self.wf(),
            self@ == before@.insert(player.name@, player@),
    {
        before.lemma_view();
        let count = before.players.len() as int;
        assert(forall|j: int|
            0 <= j < count ==> #[trigger] self.players[j] == before.players[j]);
        assert(self.players[count] == player);
        self.lemma_view();
        let after = before@.insert(player.name@, player@);
        assert forall|name: Seq<char>| self@.contains_key(name) <==> #[trigger] after.contains_key(
            name,
        ) by {
            if before@.contains_key(name) {
                let j = place(before.players@, name);
                assert(self.players[j].name@ == name);
            }
            if self@.contains_key(name) {
                let j = place(self.players@, name);
                assert(self.players[j].name@ == name);
            }
        }
        assert forall|name: Seq<char>| #[trigger] self@.contains_key(name) implies self@[name]
            == after[name] by {
            let j = place(self.players@, name);
            assert(self.players[j].name@ == name);
        }
        assert(self@ =~= after);
    }

    proof fn lemma_removed(self, before: PlayerTable, i: int)
        requires
            before.wf(),
            0 <= i < before.players.len(),
            self.players@ == before.players@.remove(i),
        ensures
            self.wf(),
            self@ == before@.remove(before.players[i].name@),
    {
        before.lemma_view();
        let gone = before.players[i].name@;
        assert(forall|j: int|
            0 <= j < self.players.len() ==> #[trigger] self.players[j] == before.players[if j < i {
                j
            } else {
                j + 1
            }]);
        self.lemma_view();
        let after = before@.remove(gone);
        assert forall|name: Seq<char>| self@.contains_key(name) <==> #[trigger] after.contains_key(
            name,
        ) by {
            if before@.contains_key(name) && name != gone {
                let j = place(before.players@, name);
                assert(before.players[j].name@ == name);
                let k = if j < i { j } else { j - 1 };
                assert(self.players[k].name@ == name);
            }
            if self@.contains_key(name) {
                let j = place(self.players@, name);
                assert(self.players[j].name@ == name);
            }
        }
        assert forall|name: Seq<char>| #[trigger] self@.contains_key(name) implies self@[name]
            == after[name] by {
            let j = place(self.players@, name);
            assert(self.players[j].name@ == name);
        }
        assert(self@ =~= after);
    }

    /// Adds a player. Another one of the same name is replaced.
    pub fn insert(&mut self, player: Player)
        requires
            old(self).wf(),
        ensures
            final(self).wf(),
            final(self)@ == old(self)@.insert(player.name@, player@),
    {
        match self.index_of(&player.name) {
            Some(i) => {
                self.players.set(i, player);
                proof {
                    self.lemma_replaced(*old(self), i as int);
                }
            },
            None => {
                let ghost added = player;
                self.players.push(player);
                proof {
                    self.lemma_pushed(*old(self), added);
                }
            },
        }
    }

    /// Takes a player out, if there is one of the name.
    pub fn remove(&mut self, name: &String)
        requires
            old(self).wf(),
        ensures
            final(self).wf(),
            final(self)@ == old(self)@.remove(name@),
    {
        match self.index_of(name) {
            Some(i) => {
                self.players.remove(i);
                proof {
                    self.lemma_removed(*old(self), i as int);
                }
            },
            None => {
                assert(self@.remove(name@) =~= self@);
            },
        }
    }

    /// Finds the connection of a player.
    pub fn stream_of(&self, name: &String) -> (stream: Option<StreamId>)
        requires
            self.wf(),
        ensures
            stream == (if self@.contains_key(name@) {
                Some(self@[name@].stream)
            } else {
                None
            }),
    {
        match self.index_of(name) {
            Some(i) => Some(self.players[i].stream),
            None => None,
        }
    }

    /// Finds how many games a player has won and how many they have lost.
    pub fn record_of(&self, name: &String) -> (record: Option<(u64, u64)>)
        requires
            self.wf(),
        ensures
            record == (if self@.contains_key(name@) {
                Some((self@[name@].wins, self@[name@].losses))
            } else {
                None
            }),
    {
        match self.index_of(name) {
            Some(i) => Some((self.players[i].wins, self.players[i].losses)),
            None => None,
        }
    }

    /// Marks a player as being in a game and gives what the game master needs of
    /// them.
    pub fn enter_game(&mut self, name: &String) -> (info: Option<GMPlayer>)
        requires
            old(self).wf(),
        ensures
            final(self).wf(),
            match info {
                Some(info) => {
                    let player = old(self)@[name@];
                    &&& old(self)@.contains_key(name@)
                    &&& info@ == (GMPlayerView { name: name@, stream: player.stream })
                    &&& final(self)@ == old(self)@.insert(
                        name@,
                        PlayerView { in_game: true, ..player },
                    )
                },
                None => !old(self)@.contains_key(name@) && final(self)@ == old(self)@,
            },
    {
        match self.index_of(name) {
            Some(i) => {
                self.players[i].in_game = true;
                proof {
                    self.lemma_replaced(*old(self), i as int);
                }
                Some(
                    GMPlayer {
                        name: self.players[i].name.clone(),
                        stream: self.players[i].stream,
                    },
                )
            },
            None => None,
        }
    }

    /// Lets a player out of a game until the cooldown is over, and counts the
    /// game as won or as lost. Says whether there is a player of the name.
    pub fn leave_game(&mut self, name: &String, won: bool, player_cooldown: i64) -> (found: bool)
        requires
            old(self).wf(),
            old(self)@.contains_key(name@) ==> if won {
                old(self)@[name@].wins < u64::MAX
            } else {
                old(self)@[name@].losses < u64::MAX
            },
        ensures
            final(self).wf(),
            found == old(self)@.contains_key(name@),
            final(self)@ == (if found {
                old(self)@.insert(name@, left_game(old(self)@[name@], won, player_cooldown))
            } else {
                old(self)@
            }),
    {
        match self.index_of(name) {
            Some(i) => {
                self.players[i].player_cooldown = player_cooldown;
                self.players[i].in_game = false;
                if won {
                    self.players[i].wins = self.players[i].wins + 1;
                } else {
                    self.players[i].losses = self.players[i].losses + 1;
                }
                proof {
                    self.lemma_replaced(*old(self), i as int);
                }
                true
            },
            None => false,
        }
    }

    /// Lists the players who can be asked to join a game.
    pub fn free_players(&self, now: i64) -> (free: Vec<GMPlayer>)
        requires
            self.wf(),
        ensures
            lists_free_players(crate::types::gm_player_views(free@), self@, now),
    {
        let mut free: Vec<GMPlayer> = Vec::new();
        // The places in the table of the players that are listed.
        let ghost mut places: Seq<int> = Seq::empty();
        let mut i: usize = 0;
        while i < self.players.len()
            invariant
                i <= self.players.len(),
                places.len() == free.len(),
                forall|k: int|
                    0 <= k < places.len() ==> {
                        &&& 0 <= #[trigger] places[k] < i
                        &&& is_free(self.players[places[k]]@, now)
                        &&& free[k].name@ == self.players[places[k]].name@
                        &&& free[k].stream == self.players[places[k]].stream
                    },
                forall|k: int, l: int|
                    0 <= k < l < places.len() ==> #[trigger] places[k] < #[trigger] places[l],
                forall|j: int|
                    0 <= j < i && is_free(self.players[j]@, now) ==> #[trigger] places.contains(j),
            decreases self.players.len() - i,
        {
            if !self.players[i].in_game && self.players[i].player_cooldown < now {
                free.push(
                    GMPlayer {
                        name: self.players[i].name.clone(),
                        stream: self.players[i].stream,
                    },
                );
                proof {
                    let listed = places;
                    places = places.push(i as int);
                    assert(places[listed.len() as int] == i);
                    assert forall|j: int| #[trigger] listed.contains(j) implies places.contains(
                        j,
                    ) by {
                        assert(places[listed.index_of(j)] == j);
                    }
                    assert forall|j: int|
                        0 <= j < i + 1 && is_free(
                            self.players[j]@,
                            now,
                        ) implies #[trigger] places.contains(j) by {
                        if j < i {
                            assert(listed.contains(j));
                        }
                    }
                }
            }
            i = i + 1;
        }
        proof {
            self.lemma_view();
            let views = crate::types::gm_player_views(free@);
            assert forall|k: int| 0 <= k < views.len() implies {
                let candidate = #[trigger] views[k];
                &&& self@.contains_key(candidate.name)
                &&& is_free(self@[candidate.name], now)
                &&& candidate.stream == self@[candidate.name].stream
            } by {
                assert(self.players[places[k]].name@ == views[k].name);
            }
            assert forall|k: int, l: int| 0 <= k < l < views.len() implies (
            #[trigger] views[k]).name != (#[trigger] views[l]).name by {
                assert(places[k] < places[l]);
                assert(self.players[places[k]].name@ != self.players[places[l]].name@);
            }
            assert forall|name: Seq<char>| #[trigger]
                self@.contains_key(name) && is_free(self@[name], now) implies exists|k: int|
                0 <= k < views.len() && (#[trigger] views[k]).name == name by {
                let j = place(self.players@, name);
                assert(self.players[j].name@ == name);
                assert(places.contains(j));
                let k = places.index_of(j);
                assert(views[k].name == name);
            }
        }
        free
    }
}

/// A player who comes out of a game.
pub open spec fn left_game(player: PlayerView, won: bool, player_cooldown: i64) -> PlayerView {
    PlayerView {
        player_cooldown,
        in_game: false,
        wins: if won { (player.wins + 1) as u64 } else { player.wins },
        losses: if won { player.losses } else { (player.losses + 1) as u64 },
        ..player
    }
}

/// Whether the list holds every player who can be asked to join a game once, in
/// any order, and nobody else.
pub open spec fn lists_free_players(
    list: Seq<GMPlayerView>,
    players: Map<Seq<char>, PlayerView>,
    now: i64,
) -> bool {
    &&& forall|k: int|
        0 <= k < list.len() ==> {
            let candidate = #[trigger] list[k];
            &&& players.contains_key(candidate.name)
            &&& is_free(players[candidate.name], now)
            &&& candidate.stream == players[candidate.name].stream
        }
    &&& forall|k: int, l: int|
        0 <= k < l < list.len() ==> (#[trigger] list[k]).name != (#[trigger] list[l]).name
    &&& forall|name: Seq<char>| #[trigger]
        players.contains_key(name) && is_free(players[name], now) ==> exists|k: int|
            0 <= k < list.len() && (#[trigger] list[k]).name == name
}

/// A player can be asked to join a game exactly if they are in no game and their
/// cooldown ended before now.
pub proof fn law_who_is_free(player: PlayerView, now: i64)
    ensures
        is_free(player, now) <==> !player.in_game && player.player_cooldown < now,
{
}

/// The list of the free players names exactly the players of the pool who are in no
/// game and whose cooldown is over, each of them once and with the own connection.
pub proof fn law_free_list_is_complete(
    list: Seq<GMPlayerView>,
    players: Map<Seq<char>, PlayerView>,
    now: i64,
    name: Seq<char>,
)
    requires
        lists_free_players(list, players, now),
    ensures
        (exists|k: int| 0 <= k < list.len() && (#[trigger] list[k]).name == name) <==> {
            &&& players.contains_key(name)
            &&& !players[name].in_game
            &&& players[name].player_cooldown < now
        },
        forall|k: int, l: int|
            0 <= k < list.len() && 0 <= l < list.len() && (#[trigger] list[k]).name == (
            #[trigger] list[l]).name ==> k == l,
        forall|k: int|
            0 <= k < list.len() ==> (#[trigger] list[k]).stream == players[list[k].name].stream,
{
}

/// Who comes out of a game is in no game, rests until the given time, and has one
/// win or one loss more; everything else about them stays.
pub proof fn law_leaving_a_game(player: PlayerView, won: bool, player_cooldown: i64)
    requires
        player.wins < u64::MAX,
        player.losses < u64::MAX,
    ensures
        ({
            let after = left_game(player, won, player_cooldown);
            &&& !after.in_game
            &&& after.player_cooldown == player_cooldown
            &&& won ==> after.wins == player.wins + 1 && after.losses == player.losses
            &&& !won ==> after.wins == player.wins && after.losses == player.losses + 1
            &&& after.id == player.id
            &&& after.name == player.name
            &&& after.stream == player.stream
            &&& after.player_wait_time == player.player_wait_time
        }),
{
}

} // verus!
