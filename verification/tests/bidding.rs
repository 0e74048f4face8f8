use bottle_bid::bidding::{BidAction, BidCollector, BidPhase, MAX_BID_ERRORS};
use bottle_bid::proto_utils::{BidResponse, Exchange, MsgType, ServerRequest};
use bottle_bid::BidError;

fn bid(money: Option<u32>) -> Exchange {
    let mut msg = ServerRequest::new(MsgType::BidResponse);
    msg.bid_response = Some(BidResponse { money });
    Exchange::Received(Ok(msg))
}

fn sent_type(collector: &BidCollector) -> MsgType {
    match collector.action() {
        BidAction::Send(msg) => msg.msg_type,
        other => panic!("{:?}", other),
    }
}

fn asked(money_left: u32) -> BidCollector {
    let mut collector = BidCollector::new(money_left);
    assert_eq!(sent_type(&collector), MsgType::BidRequest);
    collector.advance(Exchange::Sent(Ok(())));
    assert!(matches!(collector.action(), BidAction::Receive));
    collector
}

#[test]
fn playable_bid_is_acknowledged_and_collected() {
    let mut collector = asked(100);
    collector.advance(bid(Some(30)));
    assert_eq!(sent_type(&collector), MsgType::Ack);
    collector.advance(Exchange::Sent(Ok(())));
    assert!(matches!(collector.action(), BidAction::Finish(Ok(30))));
}

#[test]
fn whole_money_can_be_bid() {
    let mut collector = asked(17);
    collector.advance(bid(Some(17)));
    assert_eq!(collector.phase, BidPhase::Accepting { bid: 17 });
}

#[test]
fn zero_can_be_bid_only_with_nothing_left() {
    let mut poor = asked(0);
    poor.advance(bid(Some(0)));
    assert_eq!(poor.phase, BidPhase::Accepting { bid: 0 });
    let mut rich = asked(1);
    rich.advance(bid(Some(0)));
    assert_eq!(rich.phase, BidPhase::Rejecting);
}

#[test]
fn refused_bid_is_answered_and_counted() {
    let mut collector = asked(10);
    collector.advance(bid(Some(11)));
    assert_eq!(sent_type(&collector), MsgType::BidReject);
    assert_eq!(collector.error_count, 0);
    collector.advance(Exchange::Sent(Ok(())));
    assert_eq!(collector.error_count, 1);
    assert_eq!(sent_type(&collector), MsgType::BidRequest);
}

#[test]
fn client_has_three_chances() {
    assert_eq!(MAX_BID_ERRORS, 3);
    let mut collector = BidCollector::new(10);
    collector.advance(Exchange::Sent(Ok(())));
    collector.advance(bid(None));
    assert_eq!(collector.phase, BidPhase::Requesting);
    collector.advance(Exchange::Sent(Ok(())));
    collector.advance(Exchange::Received(Ok(ServerRequest::new(MsgType::Ack))));
    assert_eq!(collector.phase, BidPhase::Requesting);
    collector.advance(Exchange::Sent(Ok(())));
    collector.advance(bid(Some(99)));
    collector.advance(Exchange::Sent(Ok(())));
    assert!(matches!(
        collector.action(),
        BidAction::Finish(Err(BidError::MaxBidErrorsReached))
    ));
}

#[test]
fn third_chance_can_be_used() {
    let mut collector = asked(10);
    collector.advance(Exchange::Received(Err(BidError::PlayerTimedOut)));
    collector.advance(Exchange::Sent(Ok(())));
    collector.advance(Exchange::Received(Err(BidError::ProtoParseError)));
    assert_eq!(collector.error_count, 2);
    collector.advance(Exchange::Sent(Ok(())));
    collector.advance(bid(Some(4)));
    collector.advance(Exchange::Sent(Ok(())));
    assert_eq!(collector.phase, BidPhase::Finished(Ok(4)));
}

#[test]
fn broken_messages_are_faults() {
    let faults = vec![
        BidError::PlayerTimedOut,
        BidError::ProtoParseError,
        BidError::ErrorProtobufEncoding,
    ];
    for e in faults {
        let mut collector = asked(10);
        collector.advance(Exchange::Received(Err(e)));
        assert_eq!(collector.phase, BidPhase::Requesting);
        assert_eq!(collector.error_count, 1);
    }
}

#[test]
fn client_that_is_gone_gets_no_more_chances() {
    for e in vec![BidError::ErrorOnRead, BidError::ErrorOnSend, BidError::PlayerAAbandoned] {
        let mut collector = asked(10);
        collector.advance(Exchange::Received(Err(e)));
        assert_eq!(collector.phase, BidPhase::Finished(Err(e)));
    }
}

#[test]
fn bid_message_without_body_is_a_fault() {
    let mut collector = asked(10);
    collector.advance(Exchange::Received(Ok(ServerRequest::new(MsgType::BidResponse))));
    assert_eq!(collector.error_count, 1);
}

#[test]
fn failed_sends_end_the_collection() {
    let mut requesting = BidCollector::new(10);
    requesting.advance(Exchange::Sent(Err(BidError::ErrorOnSend)));
    assert_eq!(requesting.phase, BidPhase::Finished(Err(BidError::ErrorOnSend)));

    let mut rejecting = asked(10);
    rejecting.advance(bid(Some(50)));
    rejecting.advance(Exchange::Sent(Err(BidError::ErrorProtobufEncoding)));
    assert_eq!(
        rejecting.phase,
        BidPhase::Finished(Err(BidError::ErrorProtobufEncoding))
    );

    let mut accepting = asked(10);
    accepting.advance(bid(Some(5)));
    accepting.advance(Exchange::Sent(Err(BidError::ErrorOnSend)));
    assert_eq!(accepting.phase, BidPhase::Finished(Err(BidError::ErrorOnSend)));
}

#[test]
fn exchanges_that_are_not_due_change_nothing() {
    let mut collector = BidCollector::new(10);
    let before = collector;
    collector.advance(bid(Some(5)));
    assert_eq!(collector, before);
    let mut listening = asked(10);
    let before = listening;
    listening.advance(Exchange::Sent(Ok(())));
    assert_eq!(listening, before);
}

#[test]
fn collection_ends_after_nine_exchanges_at_most() {
    let mut collector = BidCollector::new(10);
    let mut exchanges: u32 = 0;
    loop {
        match collector.action() {
            BidAction::Send(_) => collector.advance(Exchange::Sent(Ok(()))),
            BidAction::Receive => collector.advance(bid(Some(11))),
            BidAction::Finish(outcome) => {
                assert_eq!(outcome, Err(BidError::MaxBidErrorsReached));
                break;
            }
        }
        exchanges += 1;
    }
    assert_eq!(exchanges, 9);
}

#[test]
fn first_playable_bid_is_collected() {
    let mut collector = asked(10);
    collector.advance(bid(Some(11)));
    collector.advance(Exchange::Sent(Ok(())));
    collector.advance(Exchange::Sent(Ok(())));
    collector.advance(bid(Some(6)));
    // It is too late for another one.
    collector.advance(bid(Some(7)));
    collector.advance(Exchange::Sent(Ok(())));
    collector.advance(bid(Some(8)));
    assert_eq!(collector.phase, BidPhase::Finished(Ok(6)));
}
