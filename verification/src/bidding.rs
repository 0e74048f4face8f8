//! How a bid is collected from a client.
use crate::error::BidError;
use crate::proto_utils::{Exchange, MsgType, ServerRequest};
#[allow(unused_imports)]
use crate::proto_utils::{ExchangeView, ServerRequestView};
use vstd::prelude::*;

verus! {

/// After this many faults a client gets no further chance to bid.
pub const MAX_BID_ERRORS: u32 = 3;

/// Where the collection of a bid stands.
#[derive(Clone, Copy, Debug, PartialEq, Eq)]
pub enum BidPhase {
    /// The client is to be asked for a bid.
    Requesting,
    /// The answer of the client is awaited.
    Listening,
    /// The client is to be told that its bid is refused.
    Rejecting,
    /// The client is to be told that its bid is accepted.
    Accepting { bid: u32 },
    /// There is nothing left to do.
    Finished(Result<u32, BidError>),
}

/// The collection of one bid from one client.
#[derive(Clone, Copy, Debug, PartialEq, Eq)]
pub struct BidCollector {
    pub player_money_left: u32,
    pub error_count: u32,
    pub phase: BidPhase,
}

/// What is to be done next to collect a bid.
#[derive(Debug)]
pub enum BidAction {
    Send(ServerRequest),
    Receive,
    Finish(Result<u32, BidError>),
}

/// A [`BidAction`] with the message as its view.
#[verifier::ext_equal]
pub enum BidActionView {
    Send(ServerRequestView),
    Receive,
    Finish(Result<u32, BidError>),
}

impl View for BidAction {
    type V = BidActionView;

    open spec fn view(&self) -> BidActionView {
        match self {
            BidAction::Send(msg) => BidActionView::Send(msg@),
            BidAction::Receive => BidActionView::Receive,
            BidAction::Finish(outcome) => BidActionView::Finish(*outcome),
        }
    }
}

/// You can't bid more than you have, and you cannot bid 0 unless you only have
/// 0 to bid.
pub open spec fn playable(bid: u32, money_left: u32) -> bool {
    bid <= money_left && (bid == 0 ==> money_left == 0)
}

/// What an answer of a client amounts to.
pub enum Judgement {
    /// A bid that the client may make.
    Bid(u32),
    /// A bid that the client may not make.
    Unplayable,
    /// No bid at all, but the client may try again.
    Fault,
    /// The client is gone.
    Abort(BidError),
}

/// Judges an answer of a client that has the given money left.
pub open spec fn judge(reply: Result<ServerRequestView, BidError>, money_left: u32) -> Judgement {
    match reply {
        Ok(msg) => match msg.bid() {
            Some(bid) => if playable(bid, money_left) {
                Judgement::Bid(bid)
            } else {
                Judgement::Unplayable
            },
            None => Judgement::Fault,
        },
        Err(BidError::ErrorProtobufEncoding) => Judgement::Fault,
        Err(BidError::ProtoParseError) => Judgement::Fault,
        Err(BidError::PlayerTimedOut) => Judgement::Fault,
        Err(e) => Judgement::Abort(e),
    }
}

impl BidCollector {
    /// The collection before its first action.
    pub open spec fn start(player_money_left: u32) -> BidCollector {
        BidCollector { player_money_left, error_count: 0, phase: BidPhase::Requesting }
    }

    /// The collection in another phase.
    pub open spec fn in_phase(self, phase: BidPhase) -> BidCollector {
        BidCollector { phase, ..self }
    }

    /// The collection after one more fault of the client: it is asked again
    /// while it has a chance left.
    pub open spec fn faulted(self) -> BidCollector {
        if self.error_count + 1 < MAX_BID_ERRORS {
            BidCollector {
                error_count: (self.error_count + 1) as u32,
                phase: BidPhase::Requesting,
                ..self
            }
        } else {
            self.in_phase(BidPhase::Finished(Err(BidError::MaxBidErrorsReached)))
        }
    }

    /// The collection after an exchange with the client. An exchange that was
    /// not due changes nothing.
    pub open spec fn next(self, event: ExchangeView) -> BidCollector {
        match (self.phase, event) {
            (BidPhase::Finished(_), _) => self,
            (BidPhase::Listening, ExchangeView::Received(reply)) => match judge(
                reply,
                self.player_money_left,
            ) {
                Judgement::Bid(bid) => self.in_phase(BidPhase::Accepting { bid }),
                Judgement::Unplayable => self.in_phase(BidPhase::Rejecting),
                Judgement::Fault => self.faulted(),
                Judgement::Abort(e) => self.in_phase(BidPhase::Finished(Err(e))),
            },
            (BidPhase::Listening, _) => self,
            (_, ExchangeView::Received(_)) => self,
            (_, ExchangeView::Sent(Err(e))) => self.in_phase(BidPhase::Finished(Err(e))),
            (BidPhase::Requesting, _) => self.in_phase(BidPhase::Listening),
            (BidPhase::Rejecting, _) => self.faulted(),
            (BidPhase::Accepting { bid }, _) => self.in_phase(BidPhase::Finished(Ok(bid))),
        }
    }

    /// The action that is due.
    pub open spec fn due(self) -> BidActionView {
        match self.phase {
            BidPhase::Requesting => BidActionView::Send(
                ServerRequestView::plain(MsgType::BidRequest),
            ),
            BidPhase::Listening => BidActionView::Receive,
            BidPhase::Rejecting => BidActionView::Send(
                ServerRequestView::plain(MsgType::BidReject),
            ),
            BidPhase::Accepting { bid } => BidActionView::Send(
                ServerRequestView::plain(MsgType::Ack),
            ),
            BidPhase::Finished(outcome) => BidActionView::Finish(outcome),
        }
    }

    /// Starts to collect a bid from a player who has the given money left.
    pub fn new(player_money_left: u32) -> (collector: BidCollector)
        ensures
            collector == BidCollector::start(player_money_left),
    {
        BidCollector { player_money_left, error_count: 0, phase: BidPhase::Requesting }
    }

    /// Says what is to be done next.
    pub fn action(&self) -> (action: BidAction)
        ensures
            action@ == self.due(),
    {
        match self.phase {
            BidPhase::Requesting => BidAction::Send(ServerRequest::new(MsgType::BidRequest)),
            BidPhase::Listening => BidAction::Receive,
            BidPhase::Rejecting => BidAction::Send(ServerRequest::new(MsgType::BidReject)),
            BidPhase::Accepting { .. } => BidAction::Send(ServerRequest::new(MsgType::Ack)),
            BidPhase::Finished(outcome) => BidAction::Finish(outcome),
        }
    }

    /// Counts a fault of the client.
    fn fault(&mut self)
        ensures
            *final(self) == old(self).faulted(),
    {
        if self.error_count < MAX_BID_ERRORS - 1 {
            self.error_count = self.error_count + 1;
            self.phase = BidPhase::Requesting;
        } else {
            self.phase = BidPhase::Finished(Err(BidError::MaxBidErrorsReached));
        }
    }

    /// Moves on after an answer of the client, or the lack of one.
    fn hear(&mut self, reply: Result<ServerRequest, BidError>)
        requires
            old(self).phase == BidPhase::Listening,
        ensures
            *final(self) == old(self).next(Exchange::Received(reply)@),
    {
        match reply {
            Ok(msg) => match msg.bid() {
                Some(bid) => {
                    if bid > self.player_money_left || (bid == 0 && self.player_money_left > 0) {
                        self.phase = BidPhase::Rejecting;
                    } else {
                        self.phase = BidPhase::Accepting { bid };
                    }
                },
                None => self.fault(),
            },
            Err(e) => match e {
                BidError::ErrorProtobufEncoding
                | BidError::ProtoParseError
                | BidError::PlayerTimedOut => self.fault(),
                _ => {
                    self.phase = BidPhase::Finished(Err(e));
                },
            },
        }
    }

    /// Moves on after an exchange with the client.
    pub fn advance(&mut self, event: Exchange)
        ensures
            *final(self) == old(self).next(event@),
    {
        match event {
            Exchange::Received(reply) => {
                if let BidPhase::Listening = self.phase {
                    self.hear(reply);
                }
            },
            Exchange::Sent(sent) => match self.phase {
                BidPhase::Finished(_) | BidPhase::Listening => {},
                _ => match sent {
                    Err(e) => {
                        self.phase = BidPhase::Finished(Err(e));
                    },
                    Ok(()) => match self.phase {
                        BidPhase::Requesting => {
                            self.phase = BidPhase::Listening;
                        },
                        BidPhase::Rejecting => self.fault(),
                        BidPhase::Accepting { bid } => {
                            self.phase = BidPhase::Finished(Ok(bid));
                        },
                        _ => {},
                    },
                },
            },
        }
    }
}

/// The collection of a bid after a whole dialogue with the client.
pub open spec fn bid_dialogue(
    player_money_left: u32,
    events: Seq<ExchangeView>,
) -> BidCollector
    decreases events.len(),
{
    if events.len() == 0 {
        BidCollector::start(player_money_left)
    } else {
        bid_dialogue(player_money_left, events.drop_last()).next(events.last())
    }
}

/// Whatever the client does, a bid that is collected from it is one that the
/// player may make: no more than is left, and not 0 unless nothing is left.
pub proof fn law_collected_bid_is_playable(
    player_money_left: u32,
    events: Seq<ExchangeView>,
    bid: u32,
)
    requires
        bid_dialogue(player_money_left, events).phase == BidPhase::Finished(Ok(bid)),
    ensures
        playable(bid, player_money_left),
{
    lemma_dialogue_keeps_bids_playable(player_money_left, events);
}

proof fn lemma_dialogue_keeps_bids_playable(player_money_left: u32, events: Seq<ExchangeView>)
    ensures
        ({
            let collector = bid_dialogue(player_money_left, events);
            &&& collector.player_money_left == player_money_left
            &&& match collector.phase {
                BidPhase::Accepting { bid } => playable(bid, player_money_left),
                BidPhase::Finished(Ok(bid)) => playable(bid, player_money_left),
                _ => true,
            }
        }),
    decreases events.len(),
{
    if events.len() > 0 {
        lemma_dialogue_keeps_bids_playable(player_money_left, events.drop_last());
    }
}

/// The collection after one full turn in which every message reaches the
/// client: it is asked, it answers, and it is told what its bid is worth.
pub open spec fn bid_turn(
    collector: BidCollector,
    reply: Result<ServerRequestView, BidError>,
) -> BidCollector {
    let answered = collector.next(ExchangeView::Sent(Ok(()))).next(ExchangeView::Received(reply));
    match answered.phase {
        BidPhase::Rejecting => answered.next(ExchangeView::Sent(Ok(()))),
        BidPhase::Accepting { bid } => answered.next(ExchangeView::Sent(Ok(()))),
        _ => answered,
    }
}

/// The collection after a sequence of full turns.
pub open spec fn bid_turns(
    collector: BidCollector,
    replies: Seq<Result<ServerRequestView, BidError>>,
) -> BidCollector
    decreases replies.len(),
{
    if replies.len() == 0 {
        collector
    } else {
        bid_turns(bid_turn(collector, replies[0]), replies.drop_first())
    }
}

/// What the answers of a client come to: the first one that is a playable bid
/// or says that the client is gone decides, unless all chances are used up
/// before. `None` if the answers leave it open.
pub open spec fn bid_outcome(
    player_money_left: u32,
    chances: nat,
    replies: Seq<Result<ServerRequestView, BidError>>,
) -> Option<Result<u32, BidError>>
    decreases replies.len(),
{
    if chances == 0 {
        Some(Err(BidError::MaxBidErrorsReached))
    } else if replies.len() == 0 {
        None
    } else {
        match judge(replies[0], player_money_left) {
            Judgement::Bid(bid) => Some(Ok(bid)),
            Judgement::Abort(e) => Some(Err(e)),
            _ => bid_outcome(player_money_left, (chances - 1) as nat, replies.drop_first()),
        }
    }
}

/// A client has [`MAX_BID_ERRORS`] chances to make a playable bid: the
/// collection ends with the first answer that decides, and with
/// [`BidError::MaxBidErrorsReached`] once all of its chances are gone.
pub proof fn law_three_chances(
    player_money_left: u32,
    replies: Seq<Result<ServerRequestView, BidError>>,
)
    ensures
        bid_turns(BidCollector::start(player_money_left), replies).phase == match bid_outcome(
            player_money_left,
            MAX_BID_ERRORS as nat,
            replies,
        ) {
            Some(outcome) => BidPhase::Finished(outcome),
            None => BidPhase::Requesting,
        },
{
    lemma_turns_follow_outcome(BidCollector::start(player_money_left), replies);
}

proof fn lemma_turns_follow_outcome(
    collector: BidCollector,
    replies: Seq<Result<ServerRequestView, BidError>>,
)
    requires
        collector.phase == BidPhase::Requesting,
        collector.error_count < MAX_BID_ERRORS,
    ensures
        bid_turns(collector, replies).phase == match bid_outcome(
            collector.player_money_left,
            (MAX_BID_ERRORS - collector.error_count) as nat,
            replies,
        ) {
            Some(outcome) => BidPhase::Finished(outcome),
            None => BidPhase::Requesting,
        },
    decreases replies.len(),
{
    reveal_with_fuel(bid_outcome, 2);
    if replies.len() > 0 {
        let after = bid_turn(collector, replies[0]);
        if after.phase == BidPhase::Requesting {
            lemma_turns_follow_outcome(after, replies.drop_first());
        } else {
            lemma_finished_collection_stays(after, replies.drop_first());
        }
    }
}

proof fn lemma_finished_collection_stays(
    collector: BidCollector,
    replies: Seq<Result<ServerRequestView, BidError>>,
)
    requires
        collector.phase is Finished,
    ensures
        bid_turns(collector, replies) == collector,
    decreases replies.len(),
{
    if replies.len() > 0 {
        lemma_finished_collection_stays(collector, replies.drop_first());
    }
}

/// Every bid is answered before anything else happens: a bid that the player may
/// make with an ACK, after which it is collected, and one that the player may
/// not make with a BID_REJECT, after which it counts as a fault.
pub proof fn law_every_bid_is_answered(
    collector: BidCollector,
    reply: Result<ServerRequestView, BidError>,
)
    requires
        collector.phase == BidPhase::Listening,
    ensures
        ({
            let answered = collector.next(ExchangeView::Received(reply));
            let told = answered.next(ExchangeView::Sent(Ok(())));
            match judge(reply, collector.player_money_left) {
                Judgement::Bid(bid) => {
                    &&& answered.due() == BidActionView::Send(
                        ServerRequestView::plain(MsgType::Ack),
                    )
                    &&& told.due() == BidActionView::Finish(Ok(bid))
                },
                Judgement::Unplayable => {
                    &&& answered.due() == BidActionView::Send(
                        ServerRequestView::plain(MsgType::BidReject),
                    )
                    &&& told == collector.faulted()
                },
                _ => true,
            }
        }),
{
}

impl BidCollector {
    /// How many exchanges with the client there can still be.
    pub open spec fn exchanges_left(self) -> int {
        let chances = MAX_BID_ERRORS - self.error_count;
        match self.phase {
            BidPhase::Requesting => 3 * chances,
            BidPhase::Listening => 3 * chances - 1,
            BidPhase::Rejecting => 3 * chances - 2,
            BidPhase::Accepting { .. } => 3 * chances - 2,
            BidPhase::Finished(_) => 0,
        }
    }

    /// Whether the exchange is the one that is due.
    pub open spec fn is_due(self, event: ExchangeView) -> bool {
        match self.due() {
            BidActionView::Send(_) => event is Sent,
            BidActionView::Receive => event is Received,
            BidActionView::Finish(_) => false,
        }
    }
}

/// The collection of a bid comes to an end, whatever the client does: each
/// exchange that is due leaves fewer of them, and a collection that has none left
/// is over.
pub proof fn law_bid_collection_comes_to_an_end(collector: BidCollector, event: ExchangeView)
    requires
        collector.error_count < MAX_BID_ERRORS,
        collector.is_due(event),
    ensures
        ({
            let after = collector.next(event);
            &&& after.error_count < MAX_BID_ERRORS
            &&& 0 <= after.exchanges_left() < collector.exchanges_left()
            &&& after.exchanges_left() == 0 <==> after.phase is Finished
        }),
{
}

/// How often the client was asked for a bid in a dialogue, heard or not.
pub open spec fn requests_made(player_money_left: u32, events: Seq<ExchangeView>) -> nat
    decreases events.len(),
{
    if events.len() == 0 {
        0
    } else {
        let before = requests_made(player_money_left, events.drop_last());
        match (bid_dialogue(player_money_left, events.drop_last()).phase, events.last()) {
            (BidPhase::Requesting, ExchangeView::Sent(_)) => before + 1,
            _ => before,
        }
    }
}

/// The answers that were awaited in a dialogue, in order.
pub open spec fn replies_heard(
    player_money_left: u32,
    events: Seq<ExchangeView>,
) -> Seq<Result<ServerRequestView, BidError>>
    decreases events.len(),
{
    if events.len() == 0 {
        Seq::empty()
    } else {
        let before = replies_heard(player_money_left, events.drop_last());
        match (bid_dialogue(player_money_left, events.drop_last()).phase, events.last()) {
            (BidPhase::Listening, ExchangeView::Received(reply)) => before.push(reply),
            _ => before,
        }
    }
}

/// Whether an answer ends the dialogue: it is a bid that the player may make, or
/// the client is gone.
pub open spec fn is_decisive(
    reply: Result<ServerRequestView, BidError>,
    player_money_left: u32,
) -> bool {
    match judge(reply, player_money_left) {
        Judgement::Bid(_) => true,
        Judgement::Abort(_) => true,
        _ => false,
    }
}

/// However a dialogue goes, the client is asked at most three times, and at least
/// once before it is over. No answer is awaited after a decisive one, so the bid
/// that is collected is the first one that the player may make.
pub proof fn law_first_playable_bid_is_collected(
    player_money_left: u32,
    events: Seq<ExchangeView>,
)
    ensures
        ({
            let phase = bid_dialogue(player_money_left, events).phase;
            let requests = requests_made(player_money_left, events);
            let replies = replies_heard(player_money_left, events);
            &&& requests <= MAX_BID_ERRORS
            &&& phase is Finished ==> requests >= 1
            &&& forall|i: int|
                0 <= i < replies.len() - 1 ==> !is_decisive(
                    #[trigger] replies[i],
                    player_money_left,
                )
            &&& phase matches BidPhase::Finished(Ok(bid)) ==> replies.len() > 0 && judge(
                replies.last(),
                player_money_left,
            ) == Judgement::Bid(bid)
        }),
{
    lemma_dialogue(player_money_left, events);
}

proof fn lemma_dialogue(player_money_left: u32, events: Seq<ExchangeView>)
    ensures
        ({
            let collector = bid_dialogue(player_money_left, events);
            let requests = requests_made(player_money_left, events);
            let replies = replies_heard(player_money_left, events);
            &&& collector.player_money_left == player_money_left
            &&& collector.error_count < MAX_BID_ERRORS
            &&& requests == (if collector.phase == BidPhase::Requesting {
                collector.error_count as nat
            } else {
                collector.error_count as nat + 1
            })
            &&& forall|i: int|
                0 <= i < replies.len() - 1 ==> !is_decisive(
                    #[trigger] replies[i],
                    player_money_left,
                )
            &&& match collector.phase {
                BidPhase::Accepting { bid } => replies.len() > 0 && judge(
                    replies.last(),
                    player_money_left,
                ) == Judgement::Bid(bid),
                BidPhase::Finished(Ok(bid)) => replies.len() > 0 && judge(
                    replies.last(),
                    player_money_left,
                ) == Judgement::Bid(bid),
                BidPhase::Finished(Err(_)) => true,
                _ => replies.len() > 0 ==> !is_decisive(replies.last(), player_money_left),
            }
        }),
    decreases events.len(),
{
    if events.len() > 0 {
        let fewer = events.drop_last();
        lemma_dialogue(player_money_left, fewer);
        let before = replies_heard(player_money_left, fewer);
        let after = replies_heard(player_money_left, events);
        assert forall|i: int| 0 <= i < after.len() - 1 implies !is_decisive(
            #[trigger] after[i],
            player_money_left,
        ) by {
            assert(after[i] == before[i]);
        }
    }
}

/// What the view of an action says is what is done.
pub proof fn law_bid_action_views(msg: ServerRequest, outcome: Result<u32, BidError>)
    ensures
        BidAction::Send(msg)@ == BidActionView::Send(msg@),
        BidAction::Receive@ == BidActionView::Receive,
        BidAction::Finish(outcome)@ == BidActionView::Finish(outcome),
{
}

/// A collection begins with a request, without faults, and with the money that the
/// player has left; after the request the answer is awaited.
pub proof fn law_collection_begins_with_a_request(player_money_left: u32, collector: BidCollector)
    ensures
        BidCollector::start(player_money_left).player_money_left == player_money_left,
        BidCollector::start(player_money_left).error_count == 0,
        BidCollector::start(player_money_left).due() == BidActionView::Send(
            ServerRequestView::plain(MsgType::BidRequest),
        ),
        collector.due() == BidActionView::Send(ServerRequestView::plain(MsgType::BidRequest)) <==>
            collector.phase == BidPhase::Requesting,
        collector.phase == BidPhase::Requesting ==> {
            let asked = collector.next(ExchangeView::Sent(Ok(())));
            &&& asked.due() == BidActionView::Receive
            &&& asked.player_money_left == collector.player_money_left
            &&& asked.error_count == collector.error_count
        },
{
}

/// A bid is judged by two numbers, the amount `m` and the money that the player has
/// left: if it is not more than that, and not 0 unless nothing is left, it is
/// acknowledged and then collected as it is. Otherwise it is refused and costs one
/// of three chances: the client is asked again, or, when it has none left, the
/// collection fails.
pub proof fn law_bid_is_judged_by_two_numbers(
    collector: BidCollector,
    msg: ServerRequestView,
    m: u32,
)
    requires
        collector.phase == BidPhase::Listening,
        msg.msg_type == MsgType::BidResponse,
        msg.bid_response matches Some(response) && response.money == Some(m),
    ensures
        ({
            let money = collector.player_money_left;
            let answered = collector.next(ExchangeView::Received(Ok(msg)));
            let told = answered.next(ExchangeView::Sent(Ok(())));
            if m <= money && (m > 0 || money == 0) {
                &&& answered.due() == BidActionView::Send(ServerRequestView::plain(MsgType::Ack))
                &&& told.due() == BidActionView::Finish(Ok(m))
            } else {
                &&& answered.due() == BidActionView::Send(
                    ServerRequestView::plain(MsgType::BidReject),
                )
                &&& if collector.error_count >= 2 {
                    told.due() == BidActionView::Finish(Err(BidError::MaxBidErrorsReached))
                } else {
                    &&& told.due() == BidActionView::Send(
                        ServerRequestView::plain(MsgType::BidRequest),
                    )
                    &&& told.error_count == collector.error_count + 1
                    &&& told.player_money_left == money
                }
            }
        }),
{
}

/// An answer without an amount, of another type, that cannot be read or does not
/// come in time costs one of three chances, and nothing is said about it: the
/// client is asked again, or, when it has none left, the collection fails.
pub proof fn law_answer_without_a_bid_costs_a_chance(
    collector: BidCollector,
    reply: Result<ServerRequestView, BidError>,
)
    requires
        collector.phase == BidPhase::Listening,
        match reply {
            Ok(msg) => {
                ||| msg.msg_type != MsgType::BidResponse
                ||| msg.bid_response is None
                ||| msg.bid_response->0.money is None
            },
            Err(e) => {
                ||| e == BidError::PlayerTimedOut
                ||| e == BidError::ProtoParseError
                ||| e == BidError::ErrorProtobufEncoding
            },
        },
    ensures
        ({
            let after = collector.next(ExchangeView::Received(reply));
            if collector.error_count >= 2 {
                after.due() == BidActionView::Finish(Err(BidError::MaxBidErrorsReached))
            } else {
                &&& after.due() == BidActionView::Send(
                    ServerRequestView::plain(MsgType::BidRequest),
                )
                &&& after.error_count == collector.error_count + 1
                &&& after.player_money_left == collector.player_money_left
            }
        }),
{
}

/// A client that is gone gets no more chances: any other error while its answer is
/// awaited, and any error while it is sent something, ends the collection with that
/// error.
pub proof fn law_lost_client_ends_the_collection(collector: BidCollector, e: BidError)
    ensures
        collector.phase == BidPhase::Listening && e != BidError::PlayerTimedOut && e
            != BidError::ProtoParseError && e != BidError::ErrorProtobufEncoding
            ==> collector.next(ExchangeView::Received(Err(e))).due() == BidActionView::Finish(
            Err(e),
        ),
        collector.due() is Send ==> collector.next(ExchangeView::Sent(Err(e))).due()
            == BidActionView::Finish(Err(e)),
{
}

/// Only what is due moves a collection on, and nothing moves one that is over.
pub proof fn law_collection_waits_for_what_is_due(
    collector: BidCollector,
    sent: Result<(), BidError>,
    reply: Result<ServerRequestView, BidError>,
)
    ensures
        !(collector.due() is Send) ==> collector.next(ExchangeView::Sent(sent)) == collector,
        !(collector.due() is Receive) ==> collector.next(ExchangeView::Received(reply))
            == collector,
{
}

} // verus!
