//! The rounds of a game.
use crate::error::BidError;
use crate::proto_utils::{
    make_round_start_proto, make_start_proto, BidResult, MsgType, RoundResultType, ServerRequest,
};
#[allow(unused_imports)]
use crate::proto_utils::{BidResultView, ServerRequestView};
use crate::types::GameResultType;
use vstd::prelude::*;

verus! {

/// A game has this many rounds, unless it is decided before.
pub const MAX_GAME_ROUNDS: u32 = 10;

/// The end of the table at which player B wins.
pub const BOTTLE_MIN: u32 = 0;

/// The end of the table at which player A wins.
pub const BOTTLE_MAX: u32 = 10;

/// Where the bottle stands at first.
pub const BOTTLE_START: u32 = 5;

/// What each player may spend in a game.
pub const START_MONEY: u32 = 100;

/// What the rounds of a game are played for.
#[derive(Clone, Copy, Debug, PartialEq, Eq, Structural)]
pub struct Table {
    pub player_a_money_left: u32,
    pub player_b_money_left: u32,
    pub bottle_position: u32,
    /// Whether player A takes the next round in which both bid the same.
    pub draw_advantage: bool,
}

impl Table {
    /// The table when a game begins.
    pub open spec fn start() -> Table {
        Table {
            player_a_money_left: START_MONEY,
            player_b_money_left: START_MONEY,
            bottle_position: BOTTLE_START,
            draw_advantage: true,
        }
    }

    /// Whether player A takes the round with these bids: by the higher bid, or
    /// by the draw advantage.
    pub open spec fn goes_to_a(self, bid_a: u32, bid_b: u32) -> bool {
        bid_a > bid_b || (bid_a == bid_b && self.draw_advantage)
    }

    /// Whether the player who takes the round can pay the bid, and the bottle
    /// can move.
    pub open spec fn can_play(self, bid_a: u32, bid_b: u32) -> bool {
        if self.goes_to_a(bid_a, bid_b) {
            bid_a <= self.player_a_money_left && self.bottle_position < u32::MAX
        } else {
            bid_b <= self.player_b_money_left && self.bottle_position > 0
        }
    }

    /// The table after a round: who takes it pays the own bid and pulls the
    /// bottle one step; the draw advantage changes hands when it was used.
    pub open spec fn after(self, bid_a: u32, bid_b: u32) -> Table {
        let draw_advantage = if bid_a == bid_b { !self.draw_advantage } else { self.draw_advantage };
        if self.goes_to_a(bid_a, bid_b) {
            Table {
                player_a_money_left: (self.player_a_money_left - bid_a) as u32,
                bottle_position: (self.bottle_position + 1) as u32,
                draw_advantage,
                ..self
            }
        } else {
            Table {
                player_b_money_left: (self.player_b_money_left - bid_b) as u32,
                bottle_position: (self.bottle_position - 1) as u32,
                draw_advantage,
                ..self
            }
        }
    }

    /// Plays a round.
    pub fn play_round(self, bid_a: u32, bid_b: u32) -> (table: Table)
        requires
            self.can_play(bid_a, bid_b),
        ensures
            table == self.after(bid_a, bid_b),
    {
        let mut table = self;
        if bid_a > bid_b {
            table.player_a_money_left = table.player_a_money_left - bid_a;
            table.bottle_position = table.bottle_position + 1;
        } else if bid_a < bid_b {
            table.player_b_money_left = table.player_b_money_left - bid_b;
            table.bottle_position = table.bottle_position - 1;
        } else {
            if table.draw_advantage {
                // Player A draw advantage
                table.bottle_position = table.bottle_position + 1;
                table.player_a_money_left = table.player_a_money_left - bid_a;
            } else {
                // Player B draw advantage
                table.bottle_position = table.bottle_position - 1;
                table.player_b_money_left = table.player_b_money_left - bid_b;
            }
            table.draw_advantage = !table.draw_advantage;
        }
        table
    }
}

/// Where a game stands.
#[derive(Clone, Copy, Debug, PartialEq, Eq)]
pub enum GamePhase {
    /// Both players are to be told that the game begins.
    Starting,
    /// Both players are to be told how things stand.
    Announcing,
    /// Both players are to bid.
    Bidding,
    /// Player A is to be told what came of the bids.
    ReportingToA { bid_a: u32, bid_b: u32 },
    /// Player B is to be told what came of the bids.
    ReportingToB { bid_a: u32, bid_b: u32 },
    /// The game is over.
    Finished(Result<GameResultType, BidError>),
}

/// What came of an action of a game.
#[derive(Debug)]
pub enum GameEvent {
    /// The same message was sent to player A and to player B.
    SentBoth(Result<(), BidError>, Result<(), BidError>),
    /// A bid was collected from player A and from player B.
    Bids(Result<u32, BidError>, Result<u32, BidError>),
    /// A message was sent to one player.
    Sent(Result<(), BidError>),
}

/// What is to be done next in a game.
#[derive(Debug)]
pub enum GameAction {
    SendBoth(ServerRequest),
    CollectBids { player_a_money_left: u32, player_b_money_left: u32 },
    SendToA(ServerRequest),
    SendToB(ServerRequest),
    Finish(Result<GameResultType, BidError>),
}

/// A [`GameAction`] with the message as its view.
#[verifier::ext_equal]
pub enum GameActionView {
    SendBoth(ServerRequestView),
    CollectBids { player_a_money_left: u32, player_b_money_left: u32 },
    SendToA(ServerRequestView),
    SendToB(ServerRequestView),
    Finish(Result<GameResultType, BidError>),
}

impl View for GameAction {
    type V = GameActionView;

    open spec fn view(&self) -> GameActionView {
        match self {
            GameAction::SendBoth(msg) => GameActionView::SendBoth(msg@),
            GameAction::CollectBids {
                player_a_money_left,
                player_b_money_left,
            } => GameActionView::CollectBids {
                player_a_money_left: *player_a_money_left,
                player_b_money_left: *player_b_money_left,
            },
            GameAction::SendToA(msg) => GameActionView::SendToA(msg@),
            GameAction::SendToB(msg) => GameActionView::SendToB(msg@),
            GameAction::Finish(outcome) => GameActionView::Finish(*outcome),
        }
    }
}

/// A game between two players.
#[derive(Debug)]
pub struct Game {
    name_a: String,
    name_b: String,
    table: Table,
    /// How many rounds were played.
    round: u32,
    phase: GamePhase,
}

/// A [`Game`] with its names as sequences of characters.
#[verifier::ext_equal]
pub struct GameView {
    pub name_a: Seq<char>,
    pub name_b: Seq<char>,
    pub table: Table,
    pub round: u32,
    pub phase: GamePhase,
}

impl View for Game {
    type V = GameView;

    closed spec fn view(&self) -> GameView {
        GameView {
            name_a: self.name_a@,
            name_b: self.name_b@,
            table: self.table,
            round: self.round,
            phase: self.phase,
        }
    }
}

/// The message that tells a player what came of the bids of a round.
pub open spec fn bid_result_message(
    name_a: Seq<char>,
    name_b: Seq<char>,
    bid_a: u32,
    bid_b: u32,
) -> ServerRequestView {
    ServerRequestView {
        bid_result: Some(
            BidResultView {
                player_a_bid: bid_a,
                player_b_bid: bid_b,
                winner_name: if bid_a > bid_b {
                    name_a
                } else if bid_a < bid_b {
                    name_b
                } else {
                    Seq::empty()
                },
                result_type: if bid_a != bid_b {
                    RoundResultType::Win
                } else {
                    RoundResultType::Draw
                },
            },
        ),
        ..ServerRequestView::plain(MsgType::BidResult)
    }
}

impl GameView {
    /// The game before its first action.
    pub open spec fn start(name_a: Seq<char>, name_b: Seq<char>) -> GameView {
        GameView { name_a, name_b, table: Table::start(), round: 0, phase: GamePhase::Starting }
    }

    /// The game in another phase.
    pub open spec fn in_phase(self, phase: GamePhase) -> GameView {
        GameView { phase, ..self }
    }

    /// The game after it was left by player A.
    pub open spec fn left_by_a(self) -> GameView {
        self.in_phase(GamePhase::Finished(Err(BidError::PlayerAAbandoned)))
    }

    /// The game after it was left by player B.
    pub open spec fn left_by_b(self) -> GameView {
        self.in_phase(GamePhase::Finished(Err(BidError::PlayerBAbandoned)))
    }

    /// What holds of every game: nobody has more money than at the start, the
    /// bottle stands on the table and has moved one step a round, and a game
    /// that is over was either left by a player, or decided at an end of the
    /// table, or played through all rounds with the bottle at no end.
    pub open spec fn wf(self) -> bool {
        &&& self.table.player_a_money_left <= START_MONEY
        &&& self.table.player_b_money_left <= START_MONEY
        &&& BOTTLE_MIN <= self.table.bottle_position <= BOTTLE_MAX
        &&& self.round <= MAX_GAME_ROUNDS
        &&& BOTTLE_START - self.round <= self.table.bottle_position <= BOTTLE_START + self.round
        &&& (self.table.bottle_position + self.round) % 2 == BOTTLE_START % 2
        &&& match self.phase {
            GamePhase::Starting => self.table == Table::start() && self.round == 0,
            GamePhase::Announcing => self.round < MAX_GAME_ROUNDS,
            GamePhase::Bidding => {
                &&& self.round < MAX_GAME_ROUNDS
                &&& BOTTLE_MIN < self.table.bottle_position < BOTTLE_MAX
            },
            GamePhase::Finished(Ok(GameResultType::PlayerAWins)) => {
                self.table.bottle_position == BOTTLE_MAX
            },
            GamePhase::Finished(Ok(GameResultType::PlayerBWins)) => {
                self.table.bottle_position == BOTTLE_MIN
            },
            GamePhase::Finished(Ok(GameResultType::Draw)) => {
                &&& self.round == MAX_GAME_ROUNDS
                &&& BOTTLE_MIN < self.table.bottle_position < BOTTLE_MAX
            },
            GamePhase::Finished(Err(e)) => {
                e == BidError::PlayerAAbandoned || e == BidError::PlayerBAbandoned
            },
            _ => self.round > 0,
        }
    }

    /// Whether the game can go on with the event: bids that are due must be
    /// such that the round can be played.
    pub open spec fn accepts(self, event: GameEvent) -> bool {
        match (self.phase, event) {
            (GamePhase::Bidding, GameEvent::Bids(Ok(bid_a), Ok(bid_b))) => {
                self.table.can_play(bid_a, bid_b)
            },
            _ => true,
        }
    }

    /// The game after an event. An event that was not due changes nothing.
    pub open spec fn next(self, event: GameEvent) -> GameView {
        match (self.phase, event) {
            (GamePhase::Starting, GameEvent::SentBoth(sent_a, sent_b)) => {
                if sent_a is Err {
                    self.left_by_a()
                } else if sent_b is Err {
                    self.left_by_b()
                } else {
                    self.in_phase(GamePhase::Announcing)
                }
            },
            (GamePhase::Announcing, GameEvent::SentBoth(sent_a, sent_b)) => {
                if sent_a is Err {
                    self.left_by_a()
                } else if sent_b is Err {
                    self.left_by_b()
                } else if self.table.bottle_position == BOTTLE_MIN {
                    self.in_phase(GamePhase::Finished(Ok(GameResultType::PlayerBWins)))
                } else if self.table.bottle_position == BOTTLE_MAX {
                    self.in_phase(GamePhase::Finished(Ok(GameResultType::PlayerAWins)))
                } else {
                    self.in_phase(GamePhase::Bidding)
                }
            },
            (GamePhase::Bidding, GameEvent::Bids(bid_a, bid_b)) => match (bid_a, bid_b) {
                (Err(_), _) => self.left_by_a(),
                (_, Err(_)) => self.left_by_b(),
                (Ok(bid_a), Ok(bid_b)) => GameView {
                    table: self.table.after(bid_a, bid_b),
                    round: (self.round + 1) as u32,
                    phase: GamePhase::ReportingToA { bid_a, bid_b },
                    ..self
                },
            },
            (GamePhase::ReportingToA { bid_a, bid_b }, GameEvent::Sent(sent)) => {
                if sent is Err {
                    self.left_by_a()
                } else {
                    self.in_phase(GamePhase::ReportingToB { bid_a, bid_b })
                }
            },
            (GamePhase::ReportingToB { bid_a, bid_b }, GameEvent::Sent(sent)) => {
                if sent is Err {
                    self.left_by_b()
                } else if self.round < MAX_GAME_ROUNDS {
                    self.in_phase(GamePhase::Announcing)
                } else {
                    self.in_phase(GamePhase::Finished(Ok(GameResultType::Draw)))
                }
            },
            _ => self,
        }
    }

    /// The action that is due.
    pub open spec fn due(self) -> GameActionView {
        match self.phase {
            GamePhase::Starting => GameActionView::SendBoth(
                ServerRequestView::opening_game(
                    self.name_a,
                    self.table.player_a_money_left,
                    self.name_b,
                    self.table.player_b_money_left,
                ),
            ),
            GamePhase::Announcing => GameActionView::SendBoth(
                ServerRequestView::opening_round(
                    (self.round + 1) as u32,
                    self.table.player_a_money_left,
                    self.table.player_b_money_left,
                    self.table.bottle_position,
                ),
            ),
            GamePhase::Bidding => GameActionView::CollectBids {
                player_a_money_left: self.table.player_a_money_left,
                player_b_money_left: self.table.player_b_money_left,
            },
            GamePhase::ReportingToA { bid_a, bid_b } => GameActionView::SendToA(
                bid_result_message(self.name_a, self.name_b, bid_a, bid_b),
            ),
            GamePhase::ReportingToB { bid_a, bid_b } => GameActionView::SendToB(
                bid_result_message(self.name_a, self.name_b, bid_a, bid_b),
            ),
            GamePhase::Finished(outcome) => GameActionView::Finish(outcome),
        }
    }
}

impl Game {
    /// Sets up a game between two players.
    pub fn new(name_a: String, name_b: String) -> (game: Game)
        ensures
            game@ == GameView::start(name_a@, name_b@),
            game@.wf(),
    {
        Game {
            name_a,
            name_b,
            table: Table {
                player_a_money_left: START_MONEY,
                player_b_money_left: START_MONEY,
                bottle_position: BOTTLE_START,
                draw_advantage: true,
            },
            round: 0,
            phase: GamePhase::Starting,
        }
    }

    fn bid_result(&self, bid_a: u32, bid_b: u32) -> (msg: ServerRequest)
        ensures
            msg@ == bid_result_message(self@.name_a, self@.name_b, bid_a, bid_b),
    {
        let winner_name = if bid_a > bid_b {
            self.name_a.clone()
        } else if bid_a < bid_b {
            self.name_b.clone()
        } else {
            String::new()
        };
        let mut msg = ServerRequest::new(MsgType::BidResult);
        msg.bid_result = Some(
            BidResult {
                player_a_bid: bid_a,
                player_b_bid: bid_b,
                winner_name,
                result_type: if bid_a != bid_b {
                    RoundResultType::Win
                } else {
                    RoundResultType::Draw
                },
            },
        );
        msg
    }

    /// Says what is to be done next.
    pub fn action(&self) -> (action: GameAction)
        requires
            self@.wf(),
        ensures
            action@ == self@.due(),
    {
        match self.phase {
            GamePhase::Starting => GameAction::SendBoth(
                make_start_proto(
                    self.name_a.clone(),
                    self.table.player_a_money_left,
                    self.name_b.clone(),
                    self.table.player_b_money_left,
                ),
            ),
            GamePhase::Announcing => GameAction::SendBoth(
                make_round_start_proto(
                    self.round + 1,
                    self.table.player_a_money_left,
                    self.table.player_b_money_left,
                    self.table.bottle_position,
                ),
            ),
            GamePhase::Bidding => GameAction::CollectBids {
                player_a_money_left: self.table.player_a_money_left,
                player_b_money_left: self.table.player_b_money_left,
            },
            GamePhase::ReportingToA { bid_a, bid_b } => GameAction::SendToA(
                self.bid_result(bid_a, bid_b),
            ),
            GamePhase::ReportingToB { bid_a, bid_b } => GameAction::SendToB(
                self.bid_result(bid_a, bid_b),
            ),
            GamePhase::Finished(outcome) => GameAction::Finish(outcome),
        }
    }

    /// Says whether the game can go on with the event.
    pub fn accepts(&self, event: &GameEvent) -> (accepted: bool)
        ensures
            accepted == self@.accepts(*event),
    {
        match (self.phase, event) {
            (GamePhase::Bidding, GameEvent::Bids(Ok(bid_a), Ok(bid_b))) => {
                if *bid_a > *bid_b || (*bid_a == *bid_b && self.table.draw_advantage) {
                    *bid_a <= self.table.player_a_money_left && self.table.bottle_position
                        < u32::MAX
                } else {
                    *bid_b <= self.table.player_b_money_left && self.table.bottle_position > 0
                }
            },
            _ => true,
        }
    }

    /// Moves on after an event. Bids that are due must be such that the round
    /// can be played.
    pub fn advance(&mut self, event: GameEvent)
        requires
            old(self)@.wf(),
            old(self)@.accepts(event),
        ensures
            final(self)@ == old(self)@.next(event),
            final(self)@.wf(),
    {
        match (self.phase, event) {
            (GamePhase::Starting, GameEvent::SentBoth(sent_a, sent_b)) => {
                self.phase = if sent_a.is_err() {
                    GamePhase::Finished(Err(BidError::PlayerAAbandoned))
                } else if sent_b.is_err() {
                    GamePhase::Finished(Err(BidError::PlayerBAbandoned))
                } else {
                    GamePhase::Announcing
                };
            },
            (GamePhase::Announcing, GameEvent::SentBoth(sent_a, sent_b)) => {
                self.phase = if sent_a.is_err() {
                    GamePhase::Finished(Err(BidError::PlayerAAbandoned))
                } else if sent_b.is_err() {
                    GamePhase::Finished(Err(BidError::PlayerBAbandoned))
                } else if self.table.bottle_position == BOTTLE_MIN {
                    GamePhase::Finished(Ok(GameResultType::PlayerBWins))
                } else if self.table.bottle_position == BOTTLE_MAX {
                    GamePhase::Finished(Ok(GameResultType::PlayerAWins))
                } else {
                    GamePhase::Bidding
                };
            },
            (GamePhase::Bidding, GameEvent::Bids(bid_a, bid_b)) => match (bid_a, bid_b) {
                (Err(_), _) => {
                    self.phase = GamePhase::Finished(Err(BidError::PlayerAAbandoned));
                },
                (_, Err(_)) => {
                    self.phase = GamePhase::Finished(Err(BidError::PlayerBAbandoned));
                },
                (Ok(bid_a), Ok(bid_b)) => {
                    self.table = self.table.play_round(bid_a, bid_b);
                    self.round = self.round + 1;
                    self.phase = GamePhase::ReportingToA { bid_a, bid_b };
                },
            },
            (GamePhase::ReportingToA { bid_a, bid_b }, GameEvent::Sent(sent)) => {
                self.phase = if sent.is_err() {
                    GamePhase::Finished(Err(BidError::PlayerAAbandoned))
                } else {
                    GamePhase::ReportingToB { bid_a, bid_b }
                };
            },
            (GamePhase::ReportingToB { .. }, GameEvent::Sent(sent)) => {
                self.phase = if sent.is_err() {
                    GamePhase::Finished(Err(BidError::PlayerBAbandoned))
                } else if self.round < MAX_GAME_ROUNDS {
                    GamePhase::Announcing
                } else {
                    GamePhase::Finished(Ok(GameResultType::Draw))
                };
            },
            _ => {},
        }
    }
}

/// The game after a sequence of events.
pub open spec fn game_course(
    name_a: Seq<char>,
    name_b: Seq<char>,
    events: Seq<GameEvent>,
) -> GameView
    decreases events.len(),
{
    if events.len() == 0 {
        GameView::start(name_a, name_b)
    } else {
        game_course(name_a, name_b, events.drop_last()).next(events.last())
    }
}

/// Whether every round of the course could be played with the bids that were
/// made.
pub open spec fn is_fair_course(
    name_a: Seq<char>,
    name_b: Seq<char>,
    events: Seq<GameEvent>,
) -> bool
    decreases events.len(),
{
    events.len() > 0 ==> {
        &&& is_fair_course(name_a, name_b, events.drop_last())
        &&& game_course(name_a, name_b, events.drop_last()).accepts(events.last())
    }
}

/// However a game goes, it keeps to the rules: nobody ends up with more money
/// than at the start, the bottle moves one step a round and stays on the table,
/// player A wins only with the bottle at the upper end and player B only with
/// the bottle at the lower end, and a draw takes all rounds and leaves the
/// bottle at neither end.
pub proof fn law_game_keeps_to_the_rules(
    name_a: Seq<char>,
    name_b: Seq<char>,
    events: Seq<GameEvent>,
)
    requires
        is_fair_course(name_a, name_b, events),
    ensures
        game_course(name_a, name_b, events).wf(),
        game_course(name_a, name_b, events).name_a == name_a,
        game_course(name_a, name_b, events).name_b == name_b,
    decreases events.len(),
{
    if events.len() > 0 {
        law_game_keeps_to_the_rules(name_a, name_b, events.drop_last());
    }
}

/// Bids that the players may make never stop a game: a round can be played with
/// any two of them.
pub proof fn law_playable_bids_can_be_played(game: GameView, bid_a: u32, bid_b: u32)
    requires
        game.wf(),
        game.phase == GamePhase::Bidding,
        crate::bidding::playable(bid_a, game.table.player_a_money_left),
        crate::bidding::playable(bid_b, game.table.player_b_money_left),
    ensures
        game.accepts(GameEvent::Bids(Ok(bid_a), Ok(bid_b))),
{
}

/// In every round one player pays the own bid and the other pays nothing, and
/// the bottle moves one step to the end of the one who pays. It is the one with
/// the higher bid, if there is one.
pub proof fn law_one_player_pays(table: Table, bid_a: u32, bid_b: u32)
    requires
        table.can_play(bid_a, bid_b),
    ensures
        ({
            let after = table.after(bid_a, bid_b);
            let a_pays = {
                &&& after.player_a_money_left == table.player_a_money_left - bid_a
                &&& after.player_b_money_left == table.player_b_money_left
                &&& after.bottle_position == table.bottle_position + 1
            };
            let b_pays = {
                &&& after.player_a_money_left == table.player_a_money_left
                &&& after.player_b_money_left == table.player_b_money_left - bid_b
                &&& after.bottle_position == table.bottle_position - 1
            };
            &&& a_pays || b_pays
            &&& bid_a > bid_b ==> a_pays
            &&& bid_a < bid_b ==> b_pays
        }),
{
}

/// The draw advantage changes hands with every round in which both bid the
/// same, and with no other: who takes such a round will not take the next one.
pub proof fn law_draw_advantage_alternates(table: Table, bid_a: u32, bid_b: u32, tie: u32)
    ensures
        table.goes_to_a(tie, tie) == table.draw_advantage,
        table.after(bid_a, bid_b).goes_to_a(tie, tie) == (if bid_a == bid_b {
            !table.goes_to_a(bid_a, bid_b)
        } else {
            table.goes_to_a(tie, tie)
        }),
{
}

impl GameView {
    /// How many events a game can still take.
    pub open spec fn events_left(self) -> int {
        let rounds_left = MAX_GAME_ROUNDS - self.round;
        match self.phase {
            GamePhase::Starting => 4 * rounds_left + 1,
            GamePhase::Announcing => 4 * rounds_left,
            GamePhase::Bidding => 4 * rounds_left - 1,
            GamePhase::ReportingToA { bid_a, bid_b } => 4 * rounds_left + 2,
            GamePhase::ReportingToB { bid_a, bid_b } => 4 * rounds_left + 1,
            GamePhase::Finished(_) => 0,
        }
    }

    /// Whether the event answers the action that is due.
    pub open spec fn is_due(self, event: GameEvent) -> bool {
        match self.due() {
            GameActionView::SendBoth(_) => event is SentBoth,
            GameActionView::CollectBids { player_a_money_left, player_b_money_left } => {
                event is Bids
            },
            GameActionView::SendToA(_) => event is Sent,
            GameActionView::SendToB(_) => event is Sent,
            GameActionView::Finish(_) => false,
        }
    }
}

/// Every game comes to an end: each answer to an action that is due leaves
/// fewer of them, and a game that can take no more is over.
pub proof fn law_game_comes_to_an_end(game: GameView, event: GameEvent)
    requires
        game.wf(),
        game.accepts(event),
        game.is_due(event),
    ensures
        0 <= game.next(event).events_left() < game.events_left(),
        game.next(event).events_left() == 0 <==> game.next(event).phase is Finished,
{
}

/// The bids of the rounds that were played in a course of events, in order.
pub open spec fn bids_played(
    name_a: Seq<char>,
    name_b: Seq<char>,
    events: Seq<GameEvent>,
) -> Seq<(u32, u32)>
    decreases events.len(),
{
    if events.len() == 0 {
        Seq::empty()
    } else {
        let before = bids_played(name_a, name_b, events.drop_last());
        match (game_course(name_a, name_b, events.drop_last()).phase, events.last()) {
            (GamePhase::Bidding, GameEvent::Bids(Ok(bid_a), Ok(bid_b))) => before.push(
                (bid_a, bid_b),
            ),
            _ => before,
        }
    }
}

/// How many of the rounds had equal bids.
pub open spec fn ties(bids: Seq<(u32, u32)>) -> nat
    decreases bids.len(),
{
    if bids.len() == 0 {
        0
    } else if bids.last().0 == bids.last().1 {
        ties(bids.drop_last()) + 1
    } else {
        ties(bids.drop_last())
    }
}

/// Whether player A takes the last of the rounds: with the higher bid, or with an
/// equal one in the first, the third, the fifth tie and so on.
pub open spec fn a_takes_last(bids: Seq<(u32, u32)>) -> bool {
    let (bid_a, bid_b) = bids.last();
    bid_a > bid_b || (bid_a == bid_b && ties(bids.drop_last()) % 2 == 0)
}

/// By how many rounds player A is ahead: those that player A took less those that
/// player B took.
pub open spec fn lead_of_a(bids: Seq<(u32, u32)>) -> int
    decreases bids.len(),
{
    if bids.len() == 0 {
        0
    } else if a_takes_last(bids) {
        lead_of_a(bids.drop_last()) + 1
    } else {
        lead_of_a(bids.drop_last()) - 1
    }
}

/// What player A has paid: the own bids of the rounds that player A took.
pub open spec fn paid_by_a(bids: Seq<(u32, u32)>) -> int
    decreases bids.len(),
{
    if bids.len() == 0 {
        0
    } else {
        paid_by_a(bids.drop_last()) + (if a_takes_last(bids) { bids.last().0 as int } else { 0 })
    }
}

/// What player B has paid: the own bids of the rounds that player B took.
pub open spec fn paid_by_b(bids: Seq<(u32, u32)>) -> int
    decreases bids.len(),
{
    if bids.len() == 0 {
        0
    } else {
        paid_by_b(bids.drop_last()) + (if a_takes_last(bids) { 0 } else { bids.last().1 as int })
    }
}

/// How things stand in a game follows from the bids of its rounds alone: each
/// player has the money of the start less the own bids of the rounds that they
/// took, and the bottle is as far from its start as player A is ahead. A game that
/// is played to its end is won by the player who is five rounds ahead; it is a
/// draw if all rounds were played and nobody is.
pub proof fn law_game_is_decided_by_the_bids(
    name_a: Seq<char>,
    name_b: Seq<char>,
    events: Seq<GameEvent>,
)
    requires
        is_fair_course(name_a, name_b, events),
    ensures
        ({
            let game = game_course(name_a, name_b, events);
            let bids = bids_played(name_a, name_b, events);
            let to_win = BOTTLE_MAX - BOTTLE_START;
            &&& game.round == bids.len()
            &&& game.table.player_a_money_left == START_MONEY - paid_by_a(bids)
            &&& game.table.player_b_money_left == START_MONEY - paid_by_b(bids)
            &&& game.table.bottle_position == BOTTLE_START + lead_of_a(bids)
            &&& game.table.draw_advantage == (ties(bids) % 2 == 0)
            &&& game.phase matches GamePhase::Finished(Ok(outcome)) ==> {
                &&& outcome == GameResultType::PlayerAWins <==> lead_of_a(bids) == to_win
                &&& outcome == GameResultType::PlayerBWins <==> lead_of_a(bids) == -to_win
                &&& outcome == GameResultType::Draw <==> bids.len() == MAX_GAME_ROUNDS
            }
        }),
    decreases events.len(),
{
    law_game_keeps_to_the_rules(name_a, name_b, events);
    if events.len() > 0 {
        let fewer = events.drop_last();
        law_game_is_decided_by_the_bids(name_a, name_b, fewer);
        law_game_keeps_to_the_rules(name_a, name_b, fewer);
        let before = bids_played(name_a, name_b, fewer);
        match (game_course(name_a, name_b, fewer).phase, events.last()) {
            (GamePhase::Bidding, GameEvent::Bids(Ok(bid_a), Ok(bid_b))) => {
                assert(before.push((bid_a, bid_b)).drop_last() =~= before);
            },
            _ => {},
        }
    }
}

/// What the view of an action says is what is done.
pub proof fn law_game_action_views(
    msg: ServerRequest,
    money_a: u32,
    money_b: u32,
    outcome: Result<GameResultType, BidError>,
)
    ensures
        GameAction::SendBoth(msg)@ == GameActionView::SendBoth(msg@),
        (GameAction::CollectBids { player_a_money_left: money_a, player_b_money_left: money_b })@
            == (GameActionView::CollectBids {
            player_a_money_left: money_a,
            player_b_money_left: money_b,
        }),
        GameAction::SendToA(msg)@ == GameActionView::SendToA(msg@),
        GameAction::SendToB(msg)@ == GameActionView::SendToB(msg@),
        GameAction::Finish(outcome)@ == GameActionView::Finish(outcome),
{
}

/// What the players are told of a round: both bids, the name of the one with the
/// higher bid, and whether there was one.
pub proof fn law_bid_result_message(name_a: Seq<char>, name_b: Seq<char>, bid_a: u32, bid_b: u32)
    ensures
        ({
            let msg = bid_result_message(name_a, name_b, bid_a, bid_b);
            &&& msg.msg_type == MsgType::BidResult
            &&& msg.bid_result matches Some(result) && {
                &&& result.player_a_bid == bid_a
                &&& result.player_b_bid == bid_b
                &&& bid_a > bid_b ==> result.winner_name == name_a
                &&& bid_b > bid_a ==> result.winner_name == name_b
                &&& bid_a == bid_b ==> result.winner_name.len() == 0
                &&& result.result_type == RoundResultType::Win <==> bid_a != bid_b
            }
            &&& msg.version_major is None && msg.version_minor is None
            &&& msg.auth_response is None && msg.game_start is None && msg.round_start is None
            &&& msg.bid_response is None && msg.game_end is None
        }),
{
}

/// A game begins with 100 for each player, the bottle in the middle, the draw
/// advantage with player A, and a message that says so.
pub proof fn law_game_begins_even(name_a: Seq<char>, name_b: Seq<char>)
    ensures
        ({
            let game = GameView::start(name_a, name_b);
            &&& game.name_a == name_a
            &&& game.name_b == name_b
            &&& game.table.player_a_money_left == 100
            &&& game.table.player_b_money_left == 100
            &&& game.table.bottle_position == 5
            &&& game.table.draw_advantage
            &&& game.round == 0
            &&& game.due() == GameActionView::SendBoth(
                ServerRequestView::opening_game(name_a, 100, name_b, 100),
            )
        }),
{
}

/// Whether a message to player A, or the bid of player A, failed.
pub open spec fn a_failed(event: GameEvent, to_a: bool) -> bool {
    match event {
        GameEvent::SentBoth(sent_a, _) => sent_a is Err,
        GameEvent::Bids(bid_a, _) => bid_a is Err,
        GameEvent::Sent(sent) => to_a && sent is Err,
    }
}

/// Whether a message to player B, or the bid of player B, failed.
pub open spec fn b_failed(event: GameEvent, to_a: bool) -> bool {
    match event {
        GameEvent::SentBoth(_, sent_b) => sent_b is Err,
        GameEvent::Bids(_, bid_b) => bid_b is Err,
        GameEvent::Sent(sent) => !to_a && sent is Err,
    }
}

/// A game is abandoned by player A exactly if a message to player A or the bid of
/// player A fails, and by player B exactly if that happens to player B alone.
pub proof fn law_failure_abandons_a_game(game: GameView, event: GameEvent)
    requires
        match game.due() {
            GameActionView::SendBoth(_) => event is SentBoth,
            GameActionView::CollectBids { .. } => event is Bids,
            GameActionView::SendToA(_) => event is Sent,
            GameActionView::SendToB(_) => event is Sent,
            GameActionView::Finish(_) => false,
        },
    ensures
        ({
            let to_a = game.due() is SendToA;
            let after = game.next(event).due();
            &&& after == GameActionView::Finish(Err(BidError::PlayerAAbandoned)) <==> a_failed(
                event,
                to_a,
            )
            &&& after == GameActionView::Finish(Err(BidError::PlayerBAbandoned)) <==> !a_failed(
                event,
                to_a,
            ) && b_failed(event, to_a)
        }),
{
}

/// A failure of both counts against player A; each kind of failure is seen in the
/// event itself.
pub proof fn law_failures_are_seen_in_the_event(
    sent_a: Result<(), BidError>,
    sent_b: Result<(), BidError>,
    bid_a: Result<u32, BidError>,
    bid_b: Result<u32, BidError>,
    to_a: bool,
)
    ensures
        a_failed(GameEvent::SentBoth(sent_a, sent_b), to_a) <==> sent_a is Err,
        b_failed(GameEvent::SentBoth(sent_a, sent_b), to_a) <==> sent_b is Err,
        a_failed(GameEvent::Bids(bid_a, bid_b), to_a) <==> bid_a is Err,
        b_failed(GameEvent::Bids(bid_a, bid_b), to_a) <==> bid_b is Err,
        a_failed(GameEvent::Sent(sent_a), to_a) <==> to_a && sent_a is Err,
        b_failed(GameEvent::Sent(sent_a), to_a) <==> !to_a && sent_a is Err,
{
}

/// Without failures a game goes from its opening to the first round, and each round
/// from its announcement over the bids and their reports to the next round. A game
/// is over when a round is announced with the bottle at an end of the table, or
/// when the tenth round was reported.
pub proof fn law_game_goes_round_by_round(game: GameView, bid_a: u32, bid_b: u32)
    ensures
        ({
            let both = game.next(GameEvent::SentBoth(Ok(()), Ok(())));
            let one = game.next(GameEvent::Sent(Ok(())));
            let played = game.next(GameEvent::Bids(Ok(bid_a), Ok(bid_b)));
            match game.phase {
                GamePhase::Starting => {
                    &&& both.phase == GamePhase::Announcing
                    &&& both.table == game.table && both.round == game.round
                    &&& both.name_a == game.name_a && both.name_b == game.name_b
                },
                GamePhase::Announcing => {
                    let bottle = game.table.bottle_position;
                    &&& bottle == 0 ==> both.due() == GameActionView::Finish(
                        Ok(GameResultType::PlayerBWins),
                    )
                    &&& bottle == 10 ==> both.due() == GameActionView::Finish(
                        Ok(GameResultType::PlayerAWins),
                    )
                    &&& bottle != 0 && bottle != 10 ==> both.phase == GamePhase::Bidding
                    &&& both.table == game.table && both.round == game.round
                    &&& both.name_a == game.name_a && both.name_b == game.name_b
                },
                GamePhase::Bidding => {
                    &&& game.round < u32::MAX ==> played.round == game.round + 1
                    &&& played.table == game.table.after(bid_a, bid_b)
                    &&& played.due() == GameActionView::SendToA(
                        bid_result_message(game.name_a, game.name_b, bid_a, bid_b),
                    )
                    &&& played.next(GameEvent::Sent(Ok(()))).due() == GameActionView::SendToB(
                        bid_result_message(game.name_a, game.name_b, bid_a, bid_b),
                    )
                    &&& played.name_a == game.name_a && played.name_b == game.name_b
                },
                GamePhase::ReportingToA { bid_a: told_a, bid_b: told_b } => {
                    &&& one.phase == (GamePhase::ReportingToB { bid_a: told_a, bid_b: told_b })
                    &&& one.table == game.table && one.round == game.round
                    &&& one.name_a == game.name_a && one.name_b == game.name_b
                },
                GamePhase::ReportingToB { .. } => {
                    &&& game.round < 10 ==> one.phase == GamePhase::Announcing
                    &&& game.round >= 10 ==> one.due() == GameActionView::Finish(
                        Ok(GameResultType::Draw),
                    )
                    &&& one.table == game.table && one.round == game.round
                    &&& one.name_a == game.name_a && one.name_b == game.name_b
                },
                GamePhase::Finished(outcome) => game.due() == GameActionView::Finish(outcome),
            }
        }),
{
}

/// Only what is due moves a game on, and nothing moves one that is over.
pub proof fn law_game_waits_for_what_is_due(game: GameView, event: GameEvent)
    requires
        match game.due() {
            GameActionView::SendBoth(_) => !(event is SentBoth),
            GameActionView::CollectBids { .. } => !(event is Bids),
            GameActionView::SendToA(_) => !(event is Sent),
            GameActionView::SendToB(_) => !(event is Sent),
            GameActionView::Finish(_) => true,
        },
    ensures
        game.next(event) == game,
{
}

/// A round can be played exactly if the one who takes it can pay the own bid and
/// the bottle can move. A game takes bids with which the round can be played, and
/// any other event.
pub proof fn law_what_a_game_accepts(game: GameView, event: GameEvent, bid_a: u32, bid_b: u32)
    ensures
        bid_a > bid_b ==> (game.table.can_play(bid_a, bid_b) <==> bid_a
            <= game.table.player_a_money_left && game.table.bottle_position < u32::MAX),
        bid_a < bid_b ==> (game.table.can_play(bid_a, bid_b) <==> bid_b
            <= game.table.player_b_money_left && game.table.bottle_position > 0),
        bid_a == bid_b && game.table.draw_advantage ==> (game.table.can_play(bid_a, bid_b) <==>
            bid_a <= game.table.player_a_money_left && game.table.bottle_position < u32::MAX),
        bid_a == bid_b && !game.table.draw_advantage ==> (game.table.can_play(bid_a, bid_b) <==>
            bid_b <= game.table.player_b_money_left && game.table.bottle_position > 0),
        event == GameEvent::Bids(Ok(bid_a), Ok(bid_b)) && game.phase == GamePhase::Bidding ==> (
        game.accepts(event) <==> game.table.can_play(bid_a, bid_b)),
        !(event is Bids) || game.phase != GamePhase::Bidding || event->Bids_0 is Err
            || event->Bids_1 is Err ==> game.accepts(event),
{
}

/// Whatever the bids of a game were, its players are told how they stand by them:
/// a round is announced with the number of the round, the money of the start less
/// what each player has paid, and the bottle as far from the middle as player A is
/// ahead. Each player may bid what they have left: player A up to the own rest and
/// player B up to the own rest, and any two such bids are accepted. What is reported
/// of a round are its bids, first to player A and then to player B.
pub proof fn law_players_are_told_how_they_stand(
    name_a: Seq<char>,
    name_b: Seq<char>,
    events: Seq<GameEvent>,
    bid_a: u32,
    bid_b: u32,
)
    requires
        is_fair_course(name_a, name_b, events),
    ensures
        ({
            let game = game_course(name_a, name_b, events);
            let bids = bids_played(name_a, name_b, events);
            let left_a = START_MONEY - paid_by_a(bids);
            let left_b = START_MONEY - paid_by_b(bids);
            match game.phase {
                GamePhase::Starting => game.due() == GameActionView::SendBoth(
                    ServerRequestView::opening_game(name_a, START_MONEY, name_b, START_MONEY),
                ),
                GamePhase::Announcing => game.due() == GameActionView::SendBoth(
                    ServerRequestView::opening_round(
                        (bids.len() + 1) as u32,
                        left_a as u32,
                        left_b as u32,
                        (BOTTLE_START + lead_of_a(bids)) as u32,
                    ),
                ),
                GamePhase::Bidding => {
                    &&& game.due() matches GameActionView::CollectBids {
                        player_a_money_left,
                        player_b_money_left,
                    } && player_a_money_left == left_a && player_b_money_left == left_b
                    &&& bid_a <= left_a && bid_b <= left_b ==> game.accepts(
                        GameEvent::Bids(Ok(bid_a), Ok(bid_b)),
                    )
                },
                GamePhase::ReportingToA { .. } => {
                    &&& bids.len() > 0
                    &&& game.due() == GameActionView::SendToA(
                        bid_result_message(name_a, name_b, bids.last().0, bids.last().1),
                    )
                },
                GamePhase::ReportingToB { .. } => {
                    &&& bids.len() > 0
                    &&& game.due() == GameActionView::SendToB(
                        bid_result_message(name_a, name_b, bids.last().0, bids.last().1),
                    )
                },
                GamePhase::Finished(outcome) => game.due() == GameActionView::Finish(outcome),
            }
        }),
{
    law_game_is_decided_by_the_bids(name_a, name_b, events);
    law_game_keeps_to_the_rules(name_a, name_b, events);
    lemma_reported_bids_were_played(name_a, name_b, events);
}

proof fn lemma_reported_bids_were_played(
    name_a: Seq<char>,
    name_b: Seq<char>,
    events: Seq<GameEvent>,
)
    ensures
        ({
            let bids = bids_played(name_a, name_b, events);
            match game_course(name_a, name_b, events).phase {
                GamePhase::ReportingToA { bid_a, bid_b } => {
                    bids.len() > 0 && bids.last() == (bid_a, bid_b)
                },
                GamePhase::ReportingToB { bid_a, bid_b } => {
                    bids.len() > 0 && bids.last() == (bid_a, bid_b)
                },
                _ => true,
            }
        }),
    decreases events.len(),
{
    if events.len() > 0 {
        lemma_reported_bids_were_played(name_a, name_b, events.drop_last());
    }
}

/// The money that a player still has goes with the right player into the
/// collection of the bids: a bid that is collected with the limit that is due is
/// one that the player can pay.
pub proof fn law_limits_are_the_own_money(game: GameView)
    requires
        game.phase == GamePhase::Bidding,
    ensures
        game.due() matches GameActionView::CollectBids {
            player_a_money_left,
            player_b_money_left,
        } && player_a_money_left == game.table.player_a_money_left && player_b_money_left
            == game.table.player_b_money_left,
{
}

/// On any table, a round with equal bids goes to the player who has the draw
/// advantage, who pays the bid and pulls the bottle, and the advantage goes to the
/// other one. It stays where it is when the bids differ.
pub proof fn law_draw_advantage_takes_a_tie(table: Table, bid_a: u32, bid_b: u32)
    requires
        if bid_a == bid_b && table.draw_advantage || bid_a > bid_b {
            bid_a <= table.player_a_money_left && table.bottle_position < u32::MAX
        } else {
            bid_b <= table.player_b_money_left && table.bottle_position > 0
        },
    ensures
        table.can_play(bid_a, bid_b),
        ({
            let after = table.after(bid_a, bid_b);
            &&& bid_a == bid_b ==> after.draw_advantage != table.draw_advantage
            &&& bid_a != bid_b ==> after.draw_advantage == table.draw_advantage
            &&& bid_a == bid_b && table.draw_advantage ==> {
                &&& after.player_a_money_left == table.player_a_money_left - bid_a
                &&& after.player_b_money_left == table.player_b_money_left
                &&& after.bottle_position == table.bottle_position + 1
            }
            &&& bid_a == bid_b && !table.draw_advantage ==> {
                &&& after.player_a_money_left == table.player_a_money_left
                &&& after.player_b_money_left == table.player_b_money_left - bid_b
                &&& after.bottle_position == table.bottle_position - 1
            }
        }),
{
}

} // verus!
