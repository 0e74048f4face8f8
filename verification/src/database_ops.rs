//! What the server keeps of its players in the database: which statements are
//! run, with which values, and what is made of their outcome.
use crate::elo::{calc_elo, ELO_FLOOR};
use crate::error::BidError;
use crate::types::GameResultType;
use vstd::arithmetic::power::pow;
use vstd::prelude::*;
use vstd::string::StringExecFns;

verus! {

/// A value that stands for a `?` in a statement.
#[derive(Debug)]
pub enum Value {
    Text(String),
    Number(i64),
}

/// A [`Value`] with its text as a sequence of characters.
#[verifier::ext_equal]
pub enum ValueView {
    Text(Seq<char>),
    Number(int),
}

impl View for Value {
    type V = ValueView;

    open spec fn view(&self) -> ValueView {
        match self {
            Value::Text(text) => ValueView::Text(text@),
            Value::Number(number) => ValueView::Number(*number as int),
        }
    }
}

/// A statement for the database, with the values that stand for its `?`s.
#[derive(Debug)]
pub struct Query {
    pub statement: String,
    pub values: Vec<Value>,
}

/// A [`Query`] with its texts as sequences of characters.
#[verifier::ext_equal]
pub struct QueryView {
    pub statement: Seq<char>,
    pub values: Seq<ValueView>,
}

impl View for Query {
    type V = QueryView;

    open spec fn view(&self) -> QueryView {
        QueryView {
            statement: self.statement@,
            values: self.values@.map_values(|value: Value| value@),
        }
    }
}

/// The statement that adds one to a field of a player.
pub open spec fn inc_query(field: Seq<char>, username: Seq<char>) -> QueryView {
    QueryView {
        statement: "UPDATE players SET "@ + field + " = "@ + field + " + 1 where username = ?"@,
        values: seq![ValueView::Text(username)],
    }
}

fn inc_field(field: &str, username: &String) -> (query: Query)
    ensures
        query@ == inc_query(field@, username@),
{
    let mut statement = "UPDATE players SET ".to_owned();
    statement.append(field);
    statement.append(" = ");
    statement.append(field);
    statement.append(" + 1 where username = ?");
    let mut values: Vec<Value> = Vec::new();
    values.push(Value::Text(username.clone()));
    let query = Query { statement, values };
    assert(query@ =~= inc_query(field@, username@));
    query
}

/// Makes the statement that counts a win for a player.
pub fn inc_wins(username: &String) -> (query: Query)
    ensures
        query@ == inc_query("wins"@, username@),
{
    inc_field("wins", username)
}

/// Makes the statement that counts a loss for a player.
pub fn inc_losses(username: &String) -> (query: Query)
    ensures
        query@ == inc_query("losses"@, username@),
{
    inc_field("losses", username)
}

/// Makes the statement that counts a draw for a player.
pub fn inc_draws(username: &String) -> (query: Query)
    ensures
        query@ == inc_query("draws"@, username@),
{
    inc_field("draws", username)
}

/// Says what it means that a field could or could not be counted up.
pub fn inc_outcome(done: bool) -> (outcome: Result<(), BidError>)
    ensures
        outcome == (if done {
            Ok::<(), BidError>(())
        } else {
            Err(BidError::PlayerAAbandoned)
        }),
{
    if done {
        Ok(())
    } else {
        Err(BidError::PlayerAAbandoned)
    }
}

/// The statement that reads the rating of a player.
pub open spec fn elo_query(username: Seq<char>) -> QueryView {
    QueryView {
        statement: "SELECT elo FROM players where username = ?"@,
        values: seq![ValueView::Text(username)],
    }
}

/// Makes the statement that reads the rating of a player.
pub fn get_player_elo_from_db(username: &String) -> (query: Query)
    ensures
        query@ == elo_query(username@),
{
    let mut values: Vec<Value> = Vec::new();
    values.push(Value::Text(username.clone()));
    let query = Query {
        statement: "SELECT elo FROM players where username = ?".to_owned(),
        values,
    };
    assert(query@ =~= elo_query(username@));
    query
}

/// The statement that sets the rating of a player.
pub open spec fn update_elo_query(player: Seq<char>, new_elo: u32) -> QueryView {
    QueryView {
        statement: "UPDATE players SET elo = ? WHERE username = ?"@,
        values: seq![ValueView::Number(new_elo as int), ValueView::Text(player)],
    }
}

/// Makes the statement that sets the rating of a player.
pub fn update_elo(player: &String, new_elo: u32) -> (query: Query)
    ensures
        query@ == update_elo_query(player@, new_elo),
{
    let mut values: Vec<Value> = Vec::new();
    values.push(Value::Number(new_elo as i64));
    values.push(Value::Text(player.clone()));
    let query = Query {
        statement: "UPDATE players SET elo = ? WHERE username = ?".to_owned(),
        values,
    };
    assert(query@ =~= update_elo_query(player@, new_elo));
    query
}

/// The statement that looks a player up.
pub open spec fn player_query(username: Seq<char>) -> QueryView {
    QueryView {
        statement: "SELECT * from players WHERE username = ?"@,
        values: seq![ValueView::Text(username)],
    }
}

/// Makes the statement that looks a player up.
pub fn find_player(username: &String) -> (query: Query)
    ensures
        query@ == player_query(username@),
{
    let mut values: Vec<Value> = Vec::new();
    values.push(Value::Text(username.clone()));
    let query = Query {
        statement: "SELECT * from players WHERE username = ?".to_owned(),
        values,
    };
    assert(query@ =~= player_query(username@));
    query
}

/// The statement that writes the number of game masters to the statistics.
pub open spec fn game_masters_query(count: int) -> QueryView {
    QueryView {
        statement: "UPDATE server_stats SET game_masters = ?"@,
        values: seq![ValueView::Number(count)],
    }
}

/// Makes the statement that writes the number of game masters to the statistics.
pub fn update_game_masters(count: u32) -> (query: Query)
    ensures
        query@ == game_masters_query(count as int),
{
    let mut values: Vec<Value> = Vec::new();
    values.push(Value::Number(count as i64));
    let query = Query {
        statement: "UPDATE server_stats SET game_masters = ?".to_owned(),
        values,
    };
    assert(query@ =~= game_masters_query(count as int));
    query
}

/// The statement that writes the number of running games to the statistics.
pub open spec fn concurrent_games_query(count: int) -> QueryView {
    QueryView {
        statement: "UPDATE server_stats SET concurrent_games = ?"@,
        values: seq![ValueView::Number(count)],
    }
}

/// Makes the statement that writes the number of running games to the statistics.
pub fn update_concurrent_games(count: i32) -> (query: Query)
    ensures
        query@ == concurrent_games_query(count as int),
{
    let mut values: Vec<Value> = Vec::new();
    values.push(Value::Number(count as i64));
    let query = Query {
        statement: "UPDATE server_stats SET concurrent_games = ?".to_owned(),
        values,
    };
    assert(query@ =~= concurrent_games_query(count as int));
    query
}

/// A rating from the database as an unsigned number of the same bits.
pub open spec fn unsigned(rating: i32) -> int {
    if rating < 0 {
        rating + 0x1_0000_0000
    } else {
        rating as int
    }
}

fn to_unsigned(rating: i32) -> (result: u32)
    ensures
        result == unsigned(rating),
{
    if rating < 0 {
        (rating as i64 + 0x1_0000_0000) as u32
    } else {
        rating as u32
    }
}

/// A rating that is not below [`ELO_FLOOR`].
pub open spec fn floored(rating: int) -> int {
    if rating < ELO_FLOOR {
        ELO_FLOOR as int
    } else {
        rating
    }
}

fn to_floored(rating: u32) -> (result: u32)
    ensures
        result == floored(rating as int),
{
    if rating < ELO_FLOOR {
        ELO_FLOOR
    } else {
        rating
    }
}

/// The ratings of the winner and of the loser of a game after it.
pub open spec fn ratings_after_win(winner_elo: i32, loser_elo: i32) -> (u32, u32) {
    let winner = unsigned(winner_elo);
    let loser = unsigned(loser_elo);
    (
        floored(crate::elo::new_rating(winner, loser, 32)) as u32,
        floored(crate::elo::new_rating(loser, winner, 0)) as u32,
    )
}

/// Where the update of two ratings stands.
#[derive(Clone, Copy, Debug, PartialEq, Eq)]
pub enum EloPhase {
    /// The rating of the winner is to be read.
    ReadingWinner,
    /// The rating of the loser is to be read.
    ReadingLoser { winner_elo: i32 },
    /// The rating of the winner is to be written.
    WritingWinner { new_winner: u32, new_loser: u32 },
    /// The rating of the loser is to be written.
    WritingLoser { new_loser: u32 },
    /// There is nothing left to do.
    Finished(Result<(), BidError>),
}

/// What came of an action of an update of ratings.
#[derive(Clone, Copy, Debug, PartialEq, Eq)]
pub enum EloEvent {
    /// A rating was asked for.
    Read(Option<i32>),
    /// A rating was to be written.
    Written { done: bool },
}

/// What is to be done next to update two ratings.
#[derive(Debug)]
pub enum EloAction {
    /// Read a rating.
    Read(Query),
    /// Write a rating.
    Write(Query),
    Finish(Result<(), BidError>),
}

/// An [`EloAction`] with the statement as its view.
#[verifier::ext_equal]
pub enum EloActionView {
    Read(QueryView),
    Write(QueryView),
    Finish(Result<(), BidError>),
}

impl View for EloAction {
    type V = EloActionView;

    open spec fn view(&self) -> EloActionView {
        match self {
            EloAction::Read(query) => EloActionView::Read(query@),
            EloAction::Write(query) => EloActionView::Write(query@),
            EloAction::Finish(outcome) => EloActionView::Finish(*outcome),
        }
    }
}

/// The update of the ratings of the winner and the loser of a game.
#[derive(Debug)]
pub struct EloUpdate {
    pub winner: String,
    pub loser: String,
    pub phase: EloPhase,
}

/// An [`EloUpdate`] with its names as sequences of characters.
#[verifier::ext_equal]
pub struct EloUpdateView {
    pub winner: Seq<char>,
    pub loser: Seq<char>,
    pub phase: EloPhase,
}

impl View for EloUpdate {
    type V = EloUpdateView;

    open spec fn view(&self) -> EloUpdateView {
        EloUpdateView { winner: self.winner@, loser: self.loser@, phase: self.phase }
    }
}

impl EloUpdateView {
    /// The update before its first action.
    pub open spec fn start(winner: Seq<char>, loser: Seq<char>) -> EloUpdateView {
        EloUpdateView { winner, loser, phase: EloPhase::ReadingWinner }
    }

    /// The update in another phase.
    pub open spec fn in_phase(self, phase: EloPhase) -> EloUpdateView {
        EloUpdateView { phase, ..self }
    }

    /// The update after a statement could not be executed.
    pub open spec fn failed(self) -> EloUpdateView {
        self.in_phase(EloPhase::Finished(Err(BidError::DbCannotExecuteQuery)))
    }

    /// The update after an event. One that was not due changes nothing.
    pub open spec fn next(self, event: EloEvent) -> EloUpdateView {
        match (self.phase, event) {
            (EloPhase::ReadingWinner, EloEvent::Read(elo)) => match elo {
                Some(winner_elo) => self.in_phase(EloPhase::ReadingLoser { winner_elo }),
                None => self.failed(),
            },
            (EloPhase::ReadingLoser { winner_elo }, EloEvent::Read(elo)) => match elo {
                Some(loser_elo) => {
                    let (new_winner, new_loser) = ratings_after_win(winner_elo, loser_elo);
                    self.in_phase(EloPhase::WritingWinner { new_winner, new_loser })
                },
                None => self.failed(),
            },
            (EloPhase::WritingWinner { new_loser, .. }, EloEvent::Written { done }) => {
                if done {
                    self.in_phase(EloPhase::WritingLoser { new_loser })
                } else {
                    self.failed()
                }
            },
            (EloPhase::WritingLoser { .. }, EloEvent::Written { done }) => {
                if done {
                    self.in_phase(EloPhase::Finished(Ok(())))
                } else {
                    self.failed()
                }
            },
            _ => self,
        }
    }

    /// The action that is due.
    pub open spec fn due(self) -> EloActionView {
        match self.phase {
            EloPhase::ReadingWinner => EloActionView::Read(elo_query(self.winner)),
            EloPhase::ReadingLoser { .. } => EloActionView::Read(elo_query(self.loser)),
            EloPhase::WritingWinner { new_winner, .. } => EloActionView::Write(
                update_elo_query(self.winner, new_winner),
            ),
            EloPhase::WritingLoser { new_loser } => EloActionView::Write(
                update_elo_query(self.loser, new_loser),
            ),
            EloPhase::Finished(outcome) => EloActionView::Finish(outcome),
        }
    }
}

/// Starts to update the ratings of the winner and the loser of a game.
pub fn update_elos(winner: &String, loser: &String) -> (update: EloUpdate)
    ensures
        update@ == EloUpdateView::start(winner@, loser@),
{
    EloUpdate { winner: winner.clone(), loser: loser.clone(), phase: EloPhase::ReadingWinner }
}

impl EloUpdate {
    /// Says what is to be done next.
    pub fn action(&self) -> (action: EloAction)
        ensures
            action@ == self@.due(),
    {
        match self.phase {
            EloPhase::ReadingWinner => EloAction::Read(get_player_elo_from_db(&self.winner)),
            EloPhase::ReadingLoser { .. } => EloAction::Read(get_player_elo_from_db(&self.loser)),
            EloPhase::WritingWinner { new_winner, .. } => EloAction::Write(
                update_elo(&self.winner, new_winner),
            ),
            EloPhase::WritingLoser { new_loser } => EloAction::Write(
                update_elo(&self.loser, new_loser),
            ),
            EloPhase::Finished(outcome) => EloAction::Finish(outcome),
        }
    }

    /// Moves on after an event.
    pub fn advance(&mut self, event: EloEvent)
        ensures
            final(self)@ == old(self)@.next(event),
    {
        match (self.phase, event) {
            (EloPhase::ReadingWinner, EloEvent::Read(elo)) => {
                self.phase = match elo {
                    Some(winner_elo) => EloPhase::ReadingLoser { winner_elo },
                    None => EloPhase::Finished(Err(BidError::DbCannotExecuteQuery)),
                };
            },
            (EloPhase::ReadingLoser { winner_elo }, EloEvent::Read(elo)) => {
                self.phase = match elo {
                    Some(loser_elo) => {
                        let elos = calc_elo(
                            to_unsigned(winner_elo),
                            to_unsigned(loser_elo),
                            GameResultType::PlayerAWins,
                        );
                        EloPhase::WritingWinner {
                            new_winner: to_floored(elos.0),
                            new_loser: to_floored(elos.1),
                        }
                    },
                    None => EloPhase::Finished(Err(BidError::DbCannotExecuteQuery)),
                };
            },
            (EloPhase::WritingWinner { new_loser, .. }, EloEvent::Written { done }) => {
                self.phase = if done {
                    EloPhase::WritingLoser { new_loser }
                } else {
                    EloPhase::Finished(Err(BidError::DbCannotExecuteQuery))
                };
            },
            (EloPhase::WritingLoser { .. }, EloEvent::Written { done }) => {
                self.phase = if done {
                    EloPhase::Finished(Ok(()))
                } else {
                    EloPhase::Finished(Err(BidError::DbCannotExecuteQuery))
                };
            },
            _ => {},
        }
    }
}

/// The update of two ratings after a sequence of events.
pub open spec fn elo_course(
    winner: Seq<char>,
    loser: Seq<char>,
    events: Seq<EloEvent>,
) -> EloUpdateView
    decreases events.len(),
{
    if events.len() == 0 {
        EloUpdateView::start(winner, loser)
    } else {
        elo_course(winner, loser, events.drop_last()).next(events.last())
    }
}

/// Nobody falls below the floor: whatever the database answers, a rating that is
/// written is that of the winner or of the loser, and it is at least
/// [`ELO_FLOOR`].
pub proof fn law_nobody_falls_below_the_floor(
    winner: Seq<char>,
    loser: Seq<char>,
    events: Seq<EloEvent>,
)
    ensures
        elo_course(winner, loser, events).due() matches EloActionView::Write(query) ==> exists|
            name: Seq<char>,
            elo: u32,
        |
            (name == winner || name == loser) && elo >= ELO_FLOOR && query
                == #[trigger] update_elo_query(name, elo),
{
    lemma_ratings_keep_to_the_floor(winner, loser, events);
}

proof fn lemma_ratings_keep_to_the_floor(
    winner: Seq<char>,
    loser: Seq<char>,
    events: Seq<EloEvent>,
)
    ensures
        ({
            let update = elo_course(winner, loser, events);
            &&& update.winner == winner
            &&& update.loser == loser
            &&& match update.phase {
                EloPhase::WritingWinner { new_winner, new_loser } => {
                    new_winner >= ELO_FLOOR && new_loser >= ELO_FLOOR
                },
                EloPhase::WritingLoser { new_loser } => new_loser >= ELO_FLOOR,
                _ => true,
            }
        }),
    decreases events.len(),
{
    if events.len() > 0 {
        lemma_ratings_keep_to_the_floor(winner, loser, events.drop_last());
    }
}

/// When every statement is executed, both ratings are read first and then both
/// are written: the ratings that a win of the first player leads to, but none
/// below [`ELO_FLOOR`].
pub proof fn law_ratings_are_updated(
    winner: Seq<char>,
    loser: Seq<char>,
    winner_elo: i32,
    loser_elo: i32,
)
    ensures
        ({
            let (new_winner, new_loser) = ratings_after_win(winner_elo, loser_elo);
            let start = EloUpdateView::start(winner, loser);
            let one_read = start.next(EloEvent::Read(Some(winner_elo)));
            let both_read = one_read.next(EloEvent::Read(Some(loser_elo)));
            let one_written = both_read.next(EloEvent::Written { done: true });
            let both_written = one_written.next(EloEvent::Written { done: true });
            &&& start.due() == EloActionView::Read(elo_query(winner))
            &&& one_read.due() == EloActionView::Read(elo_query(loser))
            &&& both_read.due() == EloActionView::Write(update_elo_query(winner, new_winner))
            &&& one_written.due() == EloActionView::Write(update_elo_query(loser, new_loser))
            &&& both_written.due() == EloActionView::Finish(Ok(()))
        }),
{
}

/// A statement that cannot be executed ends the update of ratings with
/// [`BidError::DbCannotExecuteQuery`], and nothing is written any more.
pub proof fn law_failed_update_stops(update: EloUpdateView, event: EloEvent)
    requires
        match update.due() {
            EloActionView::Read(_) => event == EloEvent::Read(None),
            EloActionView::Write(_) => event == (EloEvent::Written { done: false }),
            EloActionView::Finish(_) => false,
        },
    ensures
        update.next(event).due() == EloActionView::Finish(Err(BidError::DbCannotExecuteQuery)),
        forall|later: EloEvent| #[trigger] update.next(event).next(later) == update.next(event),
{
}

impl EloUpdateView {
    /// How many events an update can still take.
    pub open spec fn events_left(self) -> int {
        match self.phase {
            EloPhase::ReadingWinner => 4,
            EloPhase::ReadingLoser { .. } => 3,
            EloPhase::WritingWinner { .. } => 2,
            EloPhase::WritingLoser { .. } => 1,
            EloPhase::Finished(_) => 0,
        }
    }

    /// Whether the event answers the action that is due.
    pub open spec fn is_due(self, event: EloEvent) -> bool {
        match self.due() {
            EloActionView::Read(_) => event is Read,
            EloActionView::Write(_) => event is Written,
            EloActionView::Finish(_) => false,
        }
    }
}

/// Every update of ratings comes to an end: each answer to an action that is due
/// leaves fewer of them, and an update that can take no more is over.
pub proof fn law_update_comes_to_an_end(update: EloUpdateView, event: EloEvent)
    requires
        update.is_due(event),
    ensures
        0 <= update.next(event).events_left() < update.events_left(),
        update.next(event).events_left() == 0 <==> update.next(event).phase is Finished,
{
}

/// What the view of a query, of its values or of an action says is what is run.
pub proof fn law_query_views(
    query: Query,
    text: String,
    number: i64,
    outcome: Result<(), BidError>,
)
    ensures
        query@.statement == query.statement@,
        query@.values.len() == query.values@.len(),
        forall|i: int|
            0 <= i < query.values@.len() ==> #[trigger] query@.values[i] == query.values@[i]@,
        Value::Text(text)@ == ValueView::Text(text@),
        Value::Number(number)@ == ValueView::Number(number as int),
        EloAction::Read(query)@ == EloActionView::Read(query@),
        EloAction::Write(query)@ == EloActionView::Write(query@),
        EloAction::Finish(outcome)@ == EloActionView::Finish(outcome),
{
}

/// The statements about a player, whoever it is: their text, and the values that
/// stand for the `?`s, in order.
pub proof fn law_statements_about_players(username: Seq<char>, new_elo: u32)
    ensures
        inc_query("wins"@, username).statement
            == "UPDATE players SET wins = wins + 1 where username = ?"@,
        inc_query("losses"@, username).statement
            == "UPDATE players SET losses = losses + 1 where username = ?"@,
        inc_query("draws"@, username).statement
            == "UPDATE players SET draws = draws + 1 where username = ?"@,
        inc_query("wins"@, username).values == seq![ValueView::Text(username)],
        inc_query("losses"@, username).values == seq![ValueView::Text(username)],
        inc_query("draws"@, username).values == seq![ValueView::Text(username)],
        elo_query(username).statement == "SELECT elo FROM players where username = ?"@,
        elo_query(username).values == seq![ValueView::Text(username)],
        update_elo_query(username, new_elo).statement
            == "UPDATE players SET elo = ? WHERE username = ?"@,
        update_elo_query(username, new_elo).values == seq![
            ValueView::Number(new_elo as int),
            ValueView::Text(username),
        ],
        player_query(username).statement == "SELECT * from players WHERE username = ?"@,
        player_query(username).values == seq![ValueView::Text(username)],
{
    reveal_strlit("wins");
    reveal_strlit("losses");
    reveal_strlit("draws");
    reveal_strlit("UPDATE players SET ");
    reveal_strlit(" = ");
    reveal_strlit(" + 1 where username = ?");
    reveal_strlit("UPDATE players SET wins = wins + 1 where username = ?");
    reveal_strlit("UPDATE players SET losses = losses + 1 where username = ?");
    reveal_strlit("UPDATE players SET draws = draws + 1 where username = ?");
    assert(inc_query("wins"@, username).statement
        =~= "UPDATE players SET wins = wins + 1 where username = ?"@);
    assert(inc_query("losses"@, username).statement
        =~= "UPDATE players SET losses = losses + 1 where username = ?"@);
    assert(inc_query("draws"@, username).statement
        =~= "UPDATE players SET draws = draws + 1 where username = ?"@);
}

/// The statements about the statistics, for any number: their text, and the number.
pub proof fn law_statements_about_statistics(count: int)
    ensures
        game_masters_query(count).statement == "UPDATE server_stats SET game_masters = ?"@,
        game_masters_query(count).values == seq![ValueView::Number(count)],
        concurrent_games_query(count).statement == "UPDATE server_stats SET concurrent_games = ?"@,
        concurrent_games_query(count).values == seq![ValueView::Number(count)],
{
}

/// Once both ratings were read, the winner's is written first and then the loser's.
/// The winner's new rating is the old one plus 32, less the least whole number
/// `winner_expects` that is not below 32 times the expected score; the loser's is the
/// old one less `loser_expects`, likewise. Neither is below 100. The rating formula
/// is written out here.
pub proof fn law_written_ratings_follow_the_formula(
    winner: Seq<char>,
    loser: Seq<char>,
    w: i32,
    l: i32,
    winner_expects: int,
    loser_expects: int,
)
    requires
        0 <= w <= 123181,
        0 <= l <= 123181,
        -5057 <= w - l <= 5057,
        0 <= winner_expects <= 32,
        0 <= loser_expects <= 32,
        pow(32 - winner_expects, 400) * pow(10, w as nat) <= pow(winner_expects, 400) * pow(
            10,
            l as nat,
        ),
        forall|fewer: int|
            0 <= fewer < winner_expects ==> #[trigger] pow(32 - fewer, 400) * pow(10, w as nat)
                > pow(fewer, 400) * pow(10, l as nat),
        pow(32 - loser_expects, 400) * pow(10, l as nat) <= pow(loser_expects, 400) * pow(
            10,
            w as nat,
        ),
        forall|fewer: int|
            0 <= fewer < loser_expects ==> #[trigger] pow(32 - fewer, 400) * pow(10, l as nat)
                > pow(fewer, 400) * pow(10, w as nat),
    ensures
        ({
            let both_read = EloUpdateView::start(winner, loser).next(
                EloEvent::Read(Some(w)),
            ).next(EloEvent::Read(Some(l)));
            let one_written = both_read.next(EloEvent::Written { done: true });
            let new_winner = w + 32 - winner_expects;
            let new_loser = l - loser_expects;
            &&& both_read.due() == EloActionView::Write(
                update_elo_query(
                    winner,
                    if new_winner >= 100 {
                        new_winner as u32
                    } else {
                        100
                    },
                ),
            )
            &&& one_written.due() == EloActionView::Write(
                update_elo_query(
                    loser,
                    if new_loser >= 100 {
                        new_loser as u32
                    } else {
                        100
                    },
                ),
            )
        }),
{
    crate::elo::law_rating_follows_the_formula(w as u32, l as u32, 32, winner_expects);
    crate::elo::law_rating_follows_the_formula(l as u32, w as u32, 0, loser_expects);
}

/// The ratings that are written are those that the players have after a game that
/// the first of them won, but none below 100, for all ratings in the database. A
/// negative one is read as one beyond the scale: its owner gets 100, and the other
/// player keeps the own rating, with 32 more for a win.
pub proof fn law_written_ratings_are_those_of_a_win(
    winner: Seq<char>,
    loser: Seq<char>,
    w: i32,
    l: i32,
)
    ensures
        ({
            let both_read = EloUpdateView::start(winner, loser).next(
                EloEvent::Read(Some(w)),
            ).next(EloEvent::Read(Some(l)));
            let one_written = both_read.next(EloEvent::Written { done: true });
            &&& both_read.due() matches EloActionView::Write(first) && one_written.due() matches
                EloActionView::Write(second) && {
                &&& w >= 0 && l >= 0 ==> {
                    let new_winner = crate::elo::new_rating(w as int, l as int, 32);
                    let new_loser = crate::elo::new_rating(l as int, w as int, 0);
                    &&& new_winner >= 100 ==> first == update_elo_query(winner, new_winner as u32)
                    &&& new_winner < 100 ==> first == update_elo_query(winner, 100)
                    &&& new_loser >= 100 ==> second == update_elo_query(loser, new_loser as u32)
                    &&& new_loser < 100 ==> second == update_elo_query(loser, 100)
                }
                &&& w < 0 ==> first == update_elo_query(winner, 100)
                &&& l < 0 ==> second == update_elo_query(loser, 100)
                &&& w < 0 && 100 <= l <= 123301 ==> second == update_elo_query(loser, l as u32)
                &&& l < 0 && 68 <= w <= 123301 ==> first == update_elo_query(
                    winner,
                    (w + 32) as u32,
                )
            }
        }),
{
    if w >= 0 {
        crate::elo::law_rating_beyond_the_formula(w as u32, unsigned(l) as u32, 32);
    }
    if l >= 0 {
        crate::elo::law_rating_beyond_the_formula(l as u32, unsigned(w) as u32, 0);
    }
}

/// Only what is due moves an update on, and nothing moves one that is over.
pub proof fn law_update_waits_for_what_is_due(update: EloUpdateView, event: EloEvent)
    requires
        match update.due() {
            EloActionView::Read(_) => event is Written,
            EloActionView::Write(_) => event is Read,
            EloActionView::Finish(_) => true,
        },
    ensures
        update.next(event) == update,
{
}

/// An update reads the rating of the winner and then that of the loser, and writes
/// the new one of the winner and then that of the loser, each of them once and as it
/// is. The players stay the same throughout.
pub proof fn law_update_goes_step_by_step(
    update: EloUpdateView,
    winner: Seq<char>,
    loser: Seq<char>,
    elo: i32,
)
    ensures
        ({
            let start = EloUpdateView::start(winner, loser);
            let read = update.next(EloEvent::Read(Some(elo)));
            let written = update.next(EloEvent::Written { done: true });
            &&& start.winner == winner && start.loser == loser
            &&& start.due() == EloActionView::Read(elo_query(winner))
            &&& read.winner == update.winner && read.loser == update.loser
            &&& written.winner == update.winner && written.loser == update.loser
            &&& match update.phase {
                EloPhase::ReadingWinner => {
                    &&& update.due() == EloActionView::Read(elo_query(update.winner))
                    &&& read.phase == (EloPhase::ReadingLoser { winner_elo: elo })
                    &&& read.due() == EloActionView::Read(elo_query(update.loser))
                },
                EloPhase::ReadingLoser { .. } => {
                    update.due() == EloActionView::Read(elo_query(update.loser))
                },
                EloPhase::WritingWinner { new_winner, new_loser } => {
                    &&& update.due() == EloActionView::Write(
                        update_elo_query(update.winner, new_winner),
                    )
                    &&& written.due() == EloActionView::Write(
                        update_elo_query(update.loser, new_loser),
                    )
                },
                EloPhase::WritingLoser { new_loser } => {
                    &&& update.due() == EloActionView::Write(
                        update_elo_query(update.loser, new_loser),
                    )
                    &&& written.due() matches EloActionView::Finish(outcome) && outcome is Ok
                },
                EloPhase::Finished(outcome) => update.due() == EloActionView::Finish(outcome),
            }
        }),
{
}

} // verus!
