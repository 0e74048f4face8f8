use bottle_bid::connection::{
    Login, LoginAction, LoginEvent, PROTO_VERSION_MAJOR, PROTO_VERSION_MINOR,
};
use bottle_bid::proto_utils::{AuthResponse, MsgType, ServerRequest};
use bottle_bid::{BidError, Event};

fn sent_message(login: &Login) -> ServerRequest {
    match login.action() {
        LoginAction::Send(msg) => msg,
        other => panic!("{:?}", other),
    }
}

fn name_message(name: &str) -> ServerRequest {
    let mut msg = ServerRequest::new(MsgType::AuthResponse);
    msg.auth_response = Some(AuthResponse { player_name: Some(String::from(name)) });
    msg
}

fn finish(login: &Login) -> Result<(), BidError> {
    match login.action() {
        LoginAction::Finish(outcome) => outcome,
        other => panic!("{:?}", other),
    }
}

fn listening() -> Login {
    let login = Login::new(8)
        .advance(LoginEvent::Sent(Ok(())))
        .advance(LoginEvent::Sent(Ok(())));
    assert!(matches!(login.action(), LoginAction::Receive));
    login
}

fn looking_up(msg: ServerRequest) -> Login {
    let login = listening().advance(LoginEvent::Received(Ok(msg)));
    assert!(matches!(login.action(), LoginAction::OpenDatabase));
    login.advance(LoginEvent::DatabaseOpened { available: true })
}

#[test]
fn client_is_told_the_version_first() {
    assert_eq!((PROTO_VERSION_MAJOR, PROTO_VERSION_MINOR), (0, 2));
    let login = Login::new(8);
    let msg = sent_message(&login);
    assert_eq!(msg.msg_type, MsgType::Version);
    assert_eq!((msg.version_major, msg.version_minor), (Some(0), Some(2)));
    let login = login.advance(LoginEvent::Sent(Ok(())));
    assert_eq!(sent_message(&login).msg_type, MsgType::AuthRequest);
}

#[test]
fn known_player_is_let_in() {
    let login = looking_up(name_message("ann"));
    match login.action() {
        LoginAction::LookUp(query) => {
            assert_eq!(query.statement, "SELECT * from players WHERE username = ?");
            assert_eq!(format!("{:?}", query.values), "[Text(\"ann\")]");
        }
        other => panic!("{:?}", other),
    }
    let login = login.advance(LoginEvent::LookedUp { found: true, now: 77 });
    assert_eq!(sent_message(&login).msg_type, MsgType::Ack);
    let login = login.advance(LoginEvent::Sent(Ok(())));
    match login.action() {
        LoginAction::Tell(Event::NewPlayer { player }) => {
            assert_eq!(player.id, 0);
            assert_eq!(player.name, "ann");
            assert_eq!((player.wins, player.losses), (0, 0));
            assert!(!player.in_game);
            assert_eq!(player.stream, 8);
            assert_eq!((player.player_cooldown, player.player_wait_time), (77, 0));
        }
        other => panic!("{:?}", other),
    }
    let login = login.advance(LoginEvent::Registered { heard: true });
    assert_eq!(finish(&login), Ok(()));
}

#[test]
fn unknown_player_is_refused() {
    let login = looking_up(name_message("eve")).advance(LoginEvent::LookedUp { found: false, now: 77 });
    assert_eq!(sent_message(&login).msg_type, MsgType::AuthReject);
    let login = login.advance(LoginEvent::Sent(Ok(())));
    assert!(matches!(login.action(), LoginAction::Shutdown));
    let login = login.advance(LoginEvent::Closed);
    assert_eq!(finish(&login), Err(BidError::PlayerNotFoundByName));
}

#[test]
fn answer_of_another_kind_gives_the_empty_name() {
    let login = looking_up(ServerRequest::new(MsgType::Ack));
    match login.action() {
        LoginAction::LookUp(query) => {
            assert_eq!(format!("{:?}", query.values), "[Text(\"\")]");
        }
        other => panic!("{:?}", other),
    }
}

#[test]
fn version_that_cannot_be_sent_ends_the_login() {
    let login = Login::new(8).advance(LoginEvent::Sent(Err(BidError::ErrorProtobufEncoding)));
    assert_eq!(finish(&login), Err(BidError::ErrorOnSend));
}

#[test]
fn name_request_that_cannot_be_sent_is_passed_over() {
    let login = Login::new(8)
        .advance(LoginEvent::Sent(Ok(())))
        .advance(LoginEvent::Sent(Err(BidError::ErrorOnSend)));
    assert!(matches!(login.action(), LoginAction::Receive));
}

#[test]
fn failures_end_the_login() {
    let login = listening().advance(LoginEvent::Received(Err(BidError::PlayerTimedOut)));
    assert_eq!(finish(&login), Err(BidError::PlayerTimedOut));

    let login = listening()
        .advance(LoginEvent::Received(Ok(name_message("ann"))))
        .advance(LoginEvent::DatabaseOpened { available: false });
    assert_eq!(finish(&login), Err(BidError::DbCannotOpenDatabase));

    let login = looking_up(name_message("eve"))
        .advance(LoginEvent::LookedUp { found: false, now: 1 })
        .advance(LoginEvent::Sent(Err(BidError::ErrorOnSend)));
    assert_eq!(finish(&login), Err(BidError::ErrorOnSend));

    let login = looking_up(name_message("ann"))
        .advance(LoginEvent::LookedUp { found: true, now: 1 })
        .advance(LoginEvent::Sent(Err(BidError::ErrorProtobufEncoding)));
    assert_eq!(finish(&login), Err(BidError::ErrorProtobufEncoding));

    let login = looking_up(name_message("ann"))
        .advance(LoginEvent::LookedUp { found: true, now: 1 })
        .advance(LoginEvent::Sent(Ok(())))
        .advance(LoginEvent::Registered { heard: false });
    assert_eq!(finish(&login), Err(BidError::PlayerManagerSendFailed));
}

#[test]
fn events_that_are_not_due_do_not_move_a_login() {
    let login = Login::new(8)
        .advance(LoginEvent::Closed)
        .advance(LoginEvent::LookedUp { found: true, now: 1 });
    assert_eq!(sent_message(&login).msg_type, MsgType::Version);
}

#[test]
fn login_takes_seven_events() {
    let mut login = Login::new(8);
    let mut events: u32 = 0;
    loop {
        let event = match login.action() {
            LoginAction::Send(_) => LoginEvent::Sent(Ok(())),
            LoginAction::Receive => LoginEvent::Received(Ok(name_message("ann"))),
            LoginAction::OpenDatabase => LoginEvent::DatabaseOpened { available: true },
            LoginAction::LookUp(_) => LoginEvent::LookedUp { found: true, now: 5 },
            LoginAction::Shutdown => LoginEvent::Closed,
            LoginAction::Tell(_) => LoginEvent::Registered { heard: true },
            LoginAction::Finish(outcome) => {
                assert_eq!(outcome, Ok(()));
                break;
            }
        };
        login = login.advance(event);
        events += 1;
    }
    assert_eq!(events, 7);
}

#[test]
fn login_registers_once() {
    let mut login = looking_up(name_message("ann"))
        .advance(LoginEvent::LookedUp { found: true, now: 1 })
        .advance(LoginEvent::Sent(Ok(())));
    let mut told: u32 = 0;
    for _ in 0..5 {
        if let LoginAction::Tell(_) = login.action() {
            told += 1;
        }
        login = login.advance(LoginEvent::Registered { heard: true });
    }
    assert_eq!(told, 1);
    assert_eq!(finish(&login), Ok(()));
}
