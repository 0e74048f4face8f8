//! The values that the parts of the server pass to each other, and what each of
//! them is as a mathematical value.
use vstd::prelude::*;

verus! {

/// Stands for one open connection. The program that owns the sockets gives out
/// the numbers and finds the socket again by them.
pub type StreamId = u64;

/// How a game came to its end.
#[derive(Clone, Copy, Debug, PartialEq, Eq, Structural)]
pub enum GameStatus {
    Completed,
    Draw,
    Abandoned,
}

/// Who won a game that was played to its end.
#[derive(Clone, Copy, Debug, PartialEq, Eq, Structural)]
pub enum GameResultType {
    PlayerAWins,
    PlayerBWins,
    Draw,
}

/// What a game master reports of a finished game.
#[derive(Debug)]
pub struct GameResult {
    /// The ID of the game master.
    pub id: u32,
    /// The winner of the game if there is one
    pub winner: String,
    /// The loser of the game if there is one
    pub loser: String,
    /// The result of the game.
    pub status: GameStatus,
}

/// A [`GameResult`] with its names as sequences of characters.
#[verifier::ext_equal]
pub struct GameResultView {
    pub id: u32,
    pub winner: Seq<char>,
    pub loser: Seq<char>,
    pub status: GameStatus,
}

impl View for GameResult {
    type V = GameResultView;

    open spec fn view(&self) -> GameResultView {
        GameResultView {
            id: self.id,
            winner: self.winner@,
            loser: self.loser@,
            status: self.status,
        }
    }
}

/// The player manager's representation of a player. This is the authoritative
/// copy of the player information. Points in time are nanoseconds since the
/// start of 1970 (UTC).
#[derive(Debug)]
pub struct Player {
    pub id: i32,
    pub name: String,
    pub wins: u64,
    pub losses: u64,
    pub in_game: bool,
    pub stream: StreamId,
    pub player_cooldown: i64,
    pub player_wait_time: i64,
}

/// A [`Player`] with its name as a sequence of characters.
#[verifier::ext_equal]
pub struct PlayerView {
    pub id: i32,
    pub name: Seq<char>,
    pub wins: u64,
    pub losses: u64,
    pub in_game: bool,
    pub stream: StreamId,
    pub player_cooldown: i64,
    pub player_wait_time: i64,
}

impl View for Player {
    type V = PlayerView;

    open spec fn view(&self) -> PlayerView {
        PlayerView {
            id: self.id,
            name: self.name@,
            wins: self.wins,
            losses: self.losses,
            in_game: self.in_game,
            stream: self.stream,
            player_cooldown: self.player_cooldown,
            player_wait_time: self.player_wait_time,
        }
    }
}

/// Only the info that the game master needs of a player.
#[derive(Debug)]
pub struct GMPlayer {
    pub name: String,
    pub stream: StreamId,
}

/// A [`GMPlayer`] with its name as a sequence of characters.
#[verifier::ext_equal]
pub struct GMPlayerView {
    pub name: Seq<char>,
    pub stream: StreamId,
}

impl View for GMPlayer {
    type V = GMPlayerView;

    open spec fn view(&self) -> GMPlayerView {
        GMPlayerView { name: self.name@, stream: self.stream }
    }
}

/// What the tasks of the server tell each other.
#[derive(Debug)]
pub enum Event {
    NewPlayer { player: Player },
    NewGame { name_a: String, name_b: String, stream_a: StreamId, stream_b: StreamId },
    GameOver { result: GameResult },
    NeedPlayers { id: u32 },
    NoPlayersAvailable,
}

/// An [`Event`] with its names as sequences of characters.
#[verifier::ext_equal]
pub enum EventView {
    NewPlayer { player: PlayerView },
    NewGame { name_a: Seq<char>, name_b: Seq<char>, stream_a: StreamId, stream_b: StreamId },
    GameOver { result: GameResultView },
    NeedPlayers { id: u32 },
    NoPlayersAvailable,
}

impl View for Event {
    type V = EventView;

    open spec fn view(&self) -> EventView {
        match self {
            Event::NewPlayer { player } => EventView::NewPlayer { player: player@ },
            Event::NewGame { name_a, name_b, stream_a, stream_b } => EventView::NewGame {
                name_a: name_a@,
                name_b: name_b@,
                stream_a: *stream_a,
                stream_b: *stream_b,
            },
            Event::GameOver { result } => EventView::GameOver { result: result@ },
            Event::NeedPlayers { id } => EventView::NeedPlayers { id: *id },
            Event::NoPlayersAvailable => EventView::NoPlayersAvailable,
        }
    }
}

/// A list of names as sequences of characters.
pub open spec fn name_views(names: Seq<String>) -> Seq<Seq<char>> {
    names.map_values(|name: String| name@)
}

/// A list of players with their names as sequences of characters.
pub open spec fn gm_player_views(players: Seq<GMPlayer>) -> Seq<GMPlayerView> {
    players.map_values(|player: GMPlayer| player@)
}

/// A view says the same as the value: only names turn into sequences of
/// characters.
pub proof fn law_views_keep_every_field(
    result: GameResult,
    player: Player,
    info: GMPlayer,
    event: Event,
)
    ensures
        result@.id == result.id,
        result@.winner == result.winner@,
        result@.loser == result.loser@,
        result@.status == result.status,
        player@.id == player.id,
        player@.name == player.name@,
        player@.wins == player.wins,
        player@.losses == player.losses,
        player@.in_game == player.in_game,
        player@.stream == player.stream,
        player@.player_cooldown == player.player_cooldown,
        player@.player_wait_time == player.player_wait_time,
        info@.name == info.name@,
        info@.stream == info.stream,
        event matches Event::NewPlayer { player: newcomer } ==> event@ == (EventView::NewPlayer {
            player: newcomer@,
        }),
        event matches Event::NewGame { name_a, name_b, stream_a, stream_b } ==> event@ == (
        EventView::NewGame { name_a: name_a@, name_b: name_b@, stream_a, stream_b }),
        event matches Event::GameOver { result: reported } ==> event@ == (EventView::GameOver {
            result: reported@,
        }),
        event matches Event::NeedPlayers { id } ==> event@ == (EventView::NeedPlayers { id }),
        event is NoPlayersAvailable ==> event@ == EventView::NoPlayersAvailable,
{
}

/// A list of views has the view of each element at its place.
pub proof fn law_lists_keep_every_element(names: Seq<String>, players: Seq<GMPlayer>)
    ensures
        name_views(names).len() == names.len(),
        forall|i: int| 0 <= i < names.len() ==> #[trigger] name_views(names)[i] == names[i]@,
        gm_player_views(players).len() == players.len(),
        forall|i: int|
            0 <= i < players.len() ==> #[trigger] gm_player_views(players)[i] == players[i]@,
{
}

} // verus!
