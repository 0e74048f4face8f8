//! The messages that server and clients exchange, and the makers of the longer
//! ones.
use crate::error::BidError;
use vstd::prelude::*;

verus! {

/// What a message is about.
#[derive(Clone, Copy, Debug, PartialEq, Eq, Structural)]
pub enum MsgType {
    Version,
    AuthRequest,
    AuthResponse,
    AuthReject,
    Ack,
    Alive,
    GameStart,
    RoundStart,
    BidRequest,
    BidResponse,
    BidReject,
    BidResult,
    GameEnd,
    GameAbort,
}

/// Whether a round had a higher bid.
#[derive(Clone, Copy, Debug, PartialEq, Eq, Structural)]
pub enum RoundResultType {
    Win,
    Draw,
}

/// How a game ended for the client that is told.
#[derive(Clone, Copy, Debug, PartialEq, Eq, Structural)]
pub enum GameEndResult {
    Win,
    Loss,
    Draw,
}

/// Who a client says it is.
#[derive(Debug)]
pub struct AuthResponse {
    pub player_name: Option<String>,
}

/// The bid of a client.
#[derive(Clone, Copy, Debug, PartialEq, Eq, Structural)]
pub struct BidResponse {
    pub money: Option<u32>,
}

/// The two players of a game and what each of them may spend.
#[derive(Debug)]
pub struct GameStart {
    pub player1_name: String,
    pub player1_start_money: u32,
    pub player2_name: String,
    pub player2_start_money: u32,
}

/// How things stand when a round begins.
#[derive(Clone, Copy, Debug, PartialEq, Eq, Structural)]
pub struct RoundStart {
    pub round_num: u32,
    pub player_a_money: u32,
    pub player_b_money: u32,
    pub bottle_pos: u32,
}

/// The bids of a round and who won it. In a draw the name is empty.
#[derive(Debug)]
pub struct BidResult {
    pub player_a_bid: u32,
    pub player_b_bid: u32,
    pub winner_name: String,
    pub result_type: RoundResultType,
}

/// How the game ended.
#[derive(Clone, Copy, Debug, PartialEq, Eq, Structural)]
pub struct GameEnd {
    pub result: GameEndResult,
}

/// A message from the server to a client or back.
#[derive(Debug)]
pub struct ServerRequest {
    pub msg_type: MsgType,
    pub version_major: Option<u32>,
    pub version_minor: Option<u32>,
    pub auth_response: Option<AuthResponse>,
    pub game_start: Option<GameStart>,
    pub round_start: Option<RoundStart>,
    pub bid_response: Option<BidResponse>,
    pub bid_result: Option<BidResult>,
    pub game_end: Option<GameEnd>,
}

/// A [`GameStart`] with its names as sequences of characters.
#[verifier::ext_equal]
pub struct GameStartView {
    pub player1_name: Seq<char>,
    pub player1_start_money: u32,
    pub player2_name: Seq<char>,
    pub player2_start_money: u32,
}

/// A [`BidResult`] with its name as a sequence of characters.
#[verifier::ext_equal]
pub struct BidResultView {
    pub player_a_bid: u32,
    pub player_b_bid: u32,
    pub winner_name: Seq<char>,
    pub result_type: RoundResultType,
}

/// A [`ServerRequest`] with its names as sequences of characters. The name in
/// an [`AuthResponse`] stands under `auth_response`.
#[verifier::ext_equal]
pub struct ServerRequestView {
    pub msg_type: MsgType,
    pub version_major: Option<u32>,
    pub version_minor: Option<u32>,
    pub auth_response: Option<Option<Seq<char>>>,
    pub game_start: Option<GameStartView>,
    pub round_start: Option<RoundStart>,
    pub bid_response: Option<BidResponse>,
    pub bid_result: Option<BidResultView>,
    pub game_end: Option<GameEnd>,
}

impl View for AuthResponse {
    type V = Option<Seq<char>>;

    open spec fn view(&self) -> Option<Seq<char>> {
        match self.player_name {
            Some(name) => Some(name@),
            None => None,
        }
    }
}

impl View for GameStart {
    type V = GameStartView;

    open spec fn view(&self) -> GameStartView {
        GameStartView {
            player1_name: self.player1_name@,
            player1_start_money: self.player1_start_money,
            player2_name: self.player2_name@,
            player2_start_money: self.player2_start_money,
        }
    }
}

impl View for BidResult {
    type V = BidResultView;

    open spec fn view(&self) -> BidResultView {
        BidResultView {
            player_a_bid: self.player_a_bid,
            player_b_bid: self.player_b_bid,
            winner_name: self.winner_name@,
            result_type: self.result_type,
        }
    }
}

impl View for ServerRequest {
    type V = ServerRequestView;

    open spec fn view(&self) -> ServerRequestView {
        ServerRequestView {
            msg_type: self.msg_type,
            version_major: self.version_major,
            version_minor: self.version_minor,
            auth_response: match self.auth_response {
                Some(response) => Some(response@),
                None => None,
            },
            game_start: match self.game_start {
                Some(start) => Some(start@),
                None => None,
            },
            round_start: self.round_start,
            bid_response: self.bid_response,
            bid_result: match self.bid_result {
                Some(result) => Some(result@),
                None => None,
            },
            game_end: self.game_end,
        }
    }
}

impl ServerRequestView {
    /// The message of the given type that carries nothing else.
    pub open spec fn plain(msg_type: MsgType) -> ServerRequestView {
        ServerRequestView {
            msg_type,
            version_major: None,
            version_minor: None,
            auth_response: None,
            game_start: None,
            round_start: None,
            bid_response: None,
            bid_result: None,
            game_end: None,
        }
    }

    /// The message that opens a game.
    pub open spec fn opening_game(
        player_a_name: Seq<char>,
        player_a_money: u32,
        player_b_name: Seq<char>,
        player_b_money: u32,
    ) -> ServerRequestView {
        ServerRequestView {
            game_start: Some(
                GameStartView {
                    player1_name: player_a_name,
                    player1_start_money: player_a_money,
                    player2_name: player_b_name,
                    player2_start_money: player_b_money,
                },
            ),
            ..ServerRequestView::plain(MsgType::GameStart)
        }
    }

    /// The message that opens a round.
    pub open spec fn opening_round(
        round_num: u32,
        player_a_money: u32,
        player_b_money: u32,
        bottle_pos: u32,
    ) -> ServerRequestView {
        ServerRequestView {
            round_start: Some(RoundStart { round_num, player_a_money, player_b_money, bottle_pos }),
            ..ServerRequestView::plain(MsgType::RoundStart)
        }
    }

    /// The amount that a client bids with this message, if it names one.
    pub open spec fn bid(self) -> Option<u32> {
        match self.bid_response {
            Some(response) if self.msg_type == MsgType::BidResponse => response.money,
            _ => None,
        }
    }

    /// The name that a client logs in with by this message. A message of
    /// another type, or one without a name, gives the empty name.
    pub open spec fn login_name(self) -> Seq<char> {
        match self.auth_response {
            Some(Some(name)) if self.msg_type == MsgType::AuthResponse => name,
            _ => Seq::empty(),
        }
    }
}

impl ServerRequest {
    /// Makes a message that says nothing but its type.
    pub fn new(msg_type: MsgType) -> (msg: ServerRequest)
        ensures
            msg@ == ServerRequestView::plain(msg_type),
    {
        ServerRequest {
            msg_type,
            version_major: None,
            version_minor: None,
            auth_response: None,
            game_start: None,
            round_start: None,
            bid_response: None,
            bid_result: None,
            game_end: None,
        }
    }

    /// Reads the amount that a client bids.
    pub fn bid(&self) -> (bid: Option<u32>)
        ensures
            bid == self@.bid(),
    {
        if self.msg_type == MsgType::BidResponse {
            match &self.bid_response {
                Some(response) => response.money,
                None => None,
            }
        } else {
            None
        }
    }

    /// Reads the name that a client logs in with.
    pub fn login_name(&self) -> (name: String)
        ensures
            name@ == self@.login_name(),
    {
        if self.msg_type == MsgType::AuthResponse {
            match &self.auth_response {
                Some(response) => match &response.player_name {
                    Some(name) => name.clone(),
                    None => String::new(),
                },
                None => String::new(),
            }
        } else {
            String::new()
        }
    }
}

/// What came of an exchange with a client: of the message that was sent to it,
/// or of the wait for one from it.
#[derive(Debug)]
pub enum Exchange {
    Sent(Result<(), BidError>),
    Received(Result<ServerRequest, BidError>),
}

/// An [`Exchange`] with the message as its view.
#[verifier::ext_equal]
pub enum ExchangeView {
    Sent(Result<(), BidError>),
    Received(Result<ServerRequestView, BidError>),
}

impl View for Exchange {
    type V = ExchangeView;

    open spec fn view(&self) -> ExchangeView {
        match self {
            Exchange::Sent(sent) => ExchangeView::Sent(*sent),
            Exchange::Received(Ok(msg)) => ExchangeView::Received(Ok(msg@)),
            Exchange::Received(Err(e)) => ExchangeView::Received(Err(*e)),
        }
    }
}

/// Creates a start proto.
///
/// This is just a simple factory function for creating a GAME_START message as they can get
/// a bit verbose when inlined.
pub fn make_start_proto(
    player_a_name: String,
    player_a_money: u32,
    player_b_name: String,
    player_b_money: u32,
) -> (msg: ServerRequest)
    ensures
        msg@ == ServerRequestView::opening_game(player_a_name@, player_a_money, player_b_name@, player_b_money),
{
    let mut start_msg = ServerRequest::new(MsgType::GameStart);
    start_msg.game_start = Some(
        GameStart {
            player1_name: player_a_name,
            player1_start_money: player_a_money,
            player2_name: player_b_name,
            player2_start_money: player_b_money,
        },
    );
    start_msg
}

/// Creates a round start protobuffer.
///
/// This is a helper factory function for making ROUND_START protos
/// as these can be a bit verbose when inlined.
pub fn make_round_start_proto(
    round_num: u32,
    player_a_money: u32,
    player_b_money: u32,
    bottle_pos: u32,
) -> (msg: ServerRequest)
    ensures
        msg@ == ServerRequestView::opening_round(round_num, player_a_money, player_b_money, bottle_pos),
{
    let mut round_msg = ServerRequest::new(MsgType::RoundStart);
    round_msg.round_start = Some(
        RoundStart { round_num, player_a_money, player_b_money, bottle_pos },
    );
    round_msg
}

/// A message that says nothing but its type carries that type and nothing else.
pub proof fn law_plain_message_carries_nothing(msg_type: MsgType)
    ensures
        ServerRequestView::plain(msg_type).msg_type == msg_type,
        ServerRequestView::plain(msg_type).version_major is None,
        ServerRequestView::plain(msg_type).version_minor is None,
        ServerRequestView::plain(msg_type).auth_response is None,
        ServerRequestView::plain(msg_type).game_start is None,
        ServerRequestView::plain(msg_type).round_start is None,
        ServerRequestView::plain(msg_type).bid_response is None,
        ServerRequestView::plain(msg_type).bid_result is None,
        ServerRequestView::plain(msg_type).game_end is None,
{
}

/// The message that opens a game names player A first, each player with the own
/// money, and carries nothing else.
pub proof fn law_game_start_message(name_a: Seq<char>, money_a: u32, name_b: Seq<char>, money_b: u32)
    ensures
        ({
            let msg = ServerRequestView::opening_game(name_a, money_a, name_b, money_b);
            &&& msg.msg_type == MsgType::GameStart
            &&& msg.game_start matches Some(start) && {
                &&& start.player1_name == name_a
                &&& start.player1_start_money == money_a
                &&& start.player2_name == name_b
                &&& start.player2_start_money == money_b
            }
            &&& msg.version_major is None && msg.version_minor is None
            &&& msg.auth_response is None && msg.round_start is None
            &&& msg.bid_response is None && msg.bid_result is None && msg.game_end is None
        }),
{
}

/// The message that opens a round says how things stand, and nothing else.
pub proof fn law_round_start_message(round_num: u32, money_a: u32, money_b: u32, bottle_pos: u32)
    ensures
        ({
            let msg = ServerRequestView::opening_round(round_num, money_a, money_b, bottle_pos);
            &&& msg.msg_type == MsgType::RoundStart
            &&& msg.round_start matches Some(start) && {
                &&& start.round_num == round_num
                &&& start.player_a_money == money_a
                &&& start.player_b_money == money_b
                &&& start.bottle_pos == bottle_pos
            }
            &&& msg.version_major is None && msg.version_minor is None
            &&& msg.auth_response is None && msg.game_start is None
            &&& msg.bid_response is None && msg.bid_result is None && msg.game_end is None
        }),
{
}

/// A message bids exactly the amount of the bid response that it is and carries; a
/// message of another type, or one without an amount, bids nothing.
pub proof fn law_bid_of_a_message(msg: ServerRequestView, amount: u32)
    ensures
        msg.bid() == Some(amount) <==> {
            &&& msg.msg_type == MsgType::BidResponse
            &&& msg.bid_response matches Some(response) && response.money == Some(amount)
        },
{
}

/// A message logs in with exactly the name of the auth response that it is and
/// carries, and with the empty name if there is none.
pub proof fn law_name_of_a_message(msg: ServerRequestView)
    ensures
        match msg.auth_response {
            Some(Some(name)) => if msg.msg_type == MsgType::AuthResponse {
                msg.login_name() == name
            } else {
                msg.login_name().len() == 0
            },
            _ => msg.login_name().len() == 0,
        },
{
}

/// A view says the same as the message: only names turn into sequences of
/// characters.
pub proof fn law_message_views_keep_every_field(
    msg: ServerRequest,
    response: AuthResponse,
    start: GameStart,
    result: BidResult,
)
    ensures
        msg@.msg_type == msg.msg_type,
        msg@.version_major == msg.version_major,
        msg@.version_minor == msg.version_minor,
        msg@.auth_response is Some <==> msg.auth_response is Some,
        msg.auth_response matches Some(carried) ==> msg@.auth_response == Some(carried@),
        msg@.game_start is Some <==> msg.game_start is Some,
        msg.game_start matches Some(carried) ==> msg@.game_start == Some(carried@),
        msg@.round_start == msg.round_start,
        msg@.bid_response == msg.bid_response,
        msg@.bid_result is Some <==> msg.bid_result is Some,
        msg.bid_result matches Some(carried) ==> msg@.bid_result == Some(carried@),
        msg@.game_end == msg.game_end,
        response@ is Some <==> response.player_name is Some,
        response.player_name matches Some(name) ==> response@ == Some(name@),
        start@.player1_name == start.player1_name@,
        start@.player1_start_money == start.player1_start_money,
        start@.player2_name == start.player2_name@,
        start@.player2_start_money == start.player2_start_money,
        result@.player_a_bid == result.player_a_bid,
        result@.player_b_bid == result.player_b_bid,
        result@.winner_name == result.winner_name@,
        result@.result_type == result.result_type,
{
}

/// The view of an exchange says what was exchanged.
pub proof fn law_exchange_views(sent: Result<(), BidError>, msg: ServerRequest, e: BidError)
    ensures
        Exchange::Sent(sent)@ == ExchangeView::Sent(sent),
        Exchange::Received(Ok(msg))@ == ExchangeView::Received(Ok(msg@)),
        Exchange::Received(Err(e))@ == ExchangeView::Received(Err(e)),
{
}

} // verus!
