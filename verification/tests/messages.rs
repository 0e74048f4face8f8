use bottle_bid::proto_utils::{
    make_round_start_proto, make_start_proto, AuthResponse, BidResponse, MsgType, RoundStart,
    ServerRequest,
};
use bottle_bid::BidError;

#[test]
fn plain_message_says_nothing_but_its_type() {
    let msg = ServerRequest::new(MsgType::Ack);
    assert_eq!(msg.msg_type, MsgType::Ack);
    assert!(msg.version_major.is_none() && msg.version_minor.is_none());
    assert!(msg.auth_response.is_none() && msg.game_start.is_none());
    assert!(msg.round_start.is_none() && msg.bid_response.is_none());
    assert!(msg.bid_result.is_none() && msg.game_end.is_none());
}

#[test]
fn start_message_names_both_players() {
    let msg = make_start_proto(String::from("ann"), 100, String::from("bob"), 90);
    assert_eq!(msg.msg_type, MsgType::GameStart);
    let start = msg.game_start.unwrap();
    assert_eq!(start.player1_name, "ann");
    assert_eq!(start.player1_start_money, 100);
    assert_eq!(start.player2_name, "bob");
    assert_eq!(start.player2_start_money, 90);
}

#[test]
fn round_message_says_how_things_stand() {
    let msg = make_round_start_proto(3, 80, 70, 6);
    assert_eq!(msg.msg_type, MsgType::RoundStart);
    assert_eq!(
        msg.round_start,
        Some(RoundStart { round_num: 3, player_a_money: 80, player_b_money: 70, bottle_pos: 6 })
    );
}

#[test]
fn bid_is_read_only_from_a_bid_response() {
    let mut msg = ServerRequest::new(MsgType::BidResponse);
    assert_eq!(msg.bid(), None);
    msg.bid_response = Some(BidResponse { money: None });
    assert_eq!(msg.bid(), None);
    msg.bid_response = Some(BidResponse { money: Some(5) });
    assert_eq!(msg.bid(), Some(5));
    msg.msg_type = MsgType::Ack;
    assert_eq!(msg.bid(), None);
}

#[test]
fn name_is_read_only_from_an_auth_response() {
    let mut msg = ServerRequest::new(MsgType::AuthResponse);
    assert_eq!(msg.login_name(), "");
    msg.auth_response = Some(AuthResponse { player_name: None });
    assert_eq!(msg.login_name(), "");
    msg.auth_response = Some(AuthResponse { player_name: Some(String::from("ann")) });
    assert_eq!(msg.login_name(), "ann");
    msg.msg_type = MsgType::Ack;
    assert_eq!(msg.login_name(), "");
}

#[test]
fn errors_in_words() {
    let texts = vec![
        (BidError::ErrorProtobufEncoding, "Protobuf Encoding Error."),
        (BidError::ErrorOnSend, "Error sending data"),
        (BidError::ErrorOnRead, "Error reading from socket."),
        (BidError::ProtoParseError, "Error parsing bytes of protobuffer."),
        (
            BidError::PlayerManagerSendFailed,
            "Error sending information to the player manager.",
        ),
        (
            BidError::PlayerNotFoundByName,
            "Could not find the player by their name in our players list.",
        ),
        (BidError::MaxBidErrorsReached, "Maximum number of client bid errors reached."),
        (
            BidError::UnexpectedResponseTypeFromClient,
            "Unexpected response type received from the client.",
        ),
        (BidError::PlayerTimedOut, "The player has timed out."),
        (BidError::DbCannotOpenDatabase, "Could not open database file."),
        (BidError::DbCannotPrepStatement, "Could not prepare statement for database."),
        (BidError::DbCannotExecuteQuery, "Could not execute query on database."),
        (BidError::ErrorBindingToInterface, "Error binding interface / port."),
        (BidError::PlayerAAbandoned, "Player A abandoned the game."),
        (BidError::PlayerBAbandoned, "Player B abandoned the game."),
    ];
    for (e, text) in texts {
        assert_eq!(e.message(), text);
    }
}
