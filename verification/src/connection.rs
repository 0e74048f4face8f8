//! The login of a client: from its connection to its place among the players.
use crate::database_ops::{find_player, Query};
#[allow(unused_imports)]
use crate::database_ops::QueryView;
use crate::error::BidError;
use crate::proto_utils::{MsgType, ServerRequest};
#[allow(unused_imports)]
use crate::proto_utils::ServerRequestView;
use crate::types::{Event, Player, StreamId};
#[allow(unused_imports)]
use crate::types::{EventView, PlayerView};
use vstd::prelude::*;

verus! {

/// The version of the protocol that the server speaks.
pub const PROTO_VERSION_MAJOR: u32 = 0;

/// The version of the protocol that the server speaks.
pub const PROTO_VERSION_MINOR: u32 = 2;

/// Where a login stands.
#[derive(Debug)]
pub enum LoginPhase {
    /// The client is to be told the version of the protocol.
    SendingVersion,
    /// The client is to be asked for its name.
    RequestingName,
    /// The answer of the client is awaited.
    Listening,
    /// A connection to the database is needed.
    OpeningDatabase { username: String },
    /// The name is to be looked up in the database.
    LookingUp { username: String },
    /// The client is to be told that it is refused.
    Rejecting,
    /// The connection to the client is to be shut down.
    Closing,
    /// The client is to be told that it is accepted.
    Accepting { player: Player },
    /// The player manager is to be told of the player.
    Registering { player: Player },
    /// There is nothing left to do.
    Finished(Result<(), BidError>),
}

/// A [`LoginPhase`] with its names as sequences of characters.
#[verifier::ext_equal]
pub enum LoginPhaseView {
    SendingVersion,
    RequestingName,
    Listening,
    OpeningDatabase { username: Seq<char> },
    LookingUp { username: Seq<char> },
    Rejecting,
    Closing,
    Accepting { player: PlayerView },
    Registering { player: PlayerView },
    Finished(Result<(), BidError>),
}

impl View for LoginPhase {
    type V = LoginPhaseView;

    open spec fn view(&self) -> LoginPhaseView {
        match self {
            LoginPhase::SendingVersion => LoginPhaseView::SendingVersion,
            LoginPhase::RequestingName => LoginPhaseView::RequestingName,
            LoginPhase::Listening => LoginPhaseView::Listening,
            LoginPhase::OpeningDatabase { username } => LoginPhaseView::OpeningDatabase {
                username: username@,
            },
            LoginPhase::LookingUp { username } => LoginPhaseView::LookingUp {
                username: username@,
            },
            LoginPhase::Rejecting => LoginPhaseView::Rejecting,
            LoginPhase::Closing => LoginPhaseView::Closing,
            LoginPhase::Accepting { player } => LoginPhaseView::Accepting { player: player@ },
            LoginPhase::Registering { player } => LoginPhaseView::Registering { player: player@ },
            LoginPhase::Finished(outcome) => LoginPhaseView::Finished(*outcome),
        }
    }
}

/// What came of an action of a login.
#[derive(Debug)]
pub enum LoginEvent {
    /// A message was sent to the client.
    Sent(Result<(), BidError>),
    /// A message of the client was awaited.
    Received(Result<ServerRequest, BidError>),
    /// A connection to the database was asked for.
    DatabaseOpened { available: bool },
    /// The name was looked up, at the given time.
    LookedUp { found: bool, now: i64 },
    /// The connection to the client was shut down.
    Closed,
    /// The player manager was told.
    Registered { heard: bool },
}

/// A [`LoginEvent`] with the message as its view.
#[verifier::ext_equal]
pub enum LoginEventView {
    Sent(Result<(), BidError>),
    Received(Result<ServerRequestView, BidError>),
    DatabaseOpened { available: bool },
    LookedUp { found: bool, now: i64 },
    Closed,
    Registered { heard: bool },
}

impl View for LoginEvent {
    type V = LoginEventView;

    open spec fn view(&self) -> LoginEventView {
        match self {
            LoginEvent::Sent(sent) => LoginEventView::Sent(*sent),
            LoginEvent::Received(Ok(msg)) => LoginEventView::Received(Ok(msg@)),
            LoginEvent::Received(Err(e)) => LoginEventView::Received(Err(*e)),
            LoginEvent::DatabaseOpened { available } => LoginEventView::DatabaseOpened {
                available: *available,
            },
            LoginEvent::LookedUp { found, now } => LoginEventView::LookedUp {
                found: *found,
                now: *now,
            },
            LoginEvent::Closed => LoginEventView::Closed,
            LoginEvent::Registered { heard } => LoginEventView::Registered { heard: *heard },
        }
    }
}

/// What is to be done next in a login.
#[derive(Debug)]
pub enum LoginAction {
    Send(ServerRequest),
    Receive,
    OpenDatabase,
    /// Look a player up with the statement.
    LookUp(Query),
    Shutdown,
    /// Tell the player manager something.
    Tell(Event),
    Finish(Result<(), BidError>),
}

/// A [`LoginAction`] with its parts as their views.
#[verifier::ext_equal]
pub enum LoginActionView {
    Send(ServerRequestView),
    Receive,
    OpenDatabase,
    LookUp(QueryView),
    Shutdown,
    Tell(EventView),
    Finish(Result<(), BidError>),
}

impl View for LoginAction {
    type V = LoginActionView;

    open spec fn view(&self) -> LoginActionView {
        match self {
            LoginAction::Send(msg) => LoginActionView::Send(msg@),
            LoginAction::Receive => LoginActionView::Receive,
            LoginAction::OpenDatabase => LoginActionView::OpenDatabase,
            LoginAction::LookUp(query) => LoginActionView::LookUp(query@),
            LoginAction::Shutdown => LoginActionView::Shutdown,
            LoginAction::Tell(event) => LoginActionView::Tell(event@),
            LoginAction::Finish(outcome) => LoginActionView::Finish(*outcome),
        }
    }
}

/// The login of a client over a connection.
#[derive(Debug)]
pub struct Login {
    pub stream: StreamId,
    pub phase: LoginPhase,
}

/// A [`Login`] with its names as sequences of characters.
#[verifier::ext_equal]
pub struct LoginView {
    pub stream: StreamId,
    pub phase: LoginPhaseView,
}

impl View for Login {
    type V = LoginView;

    open spec fn view(&self) -> LoginView {
        LoginView { stream: self.stream, phase: self.phase@ }
    }
}

/// The message that tells a client the version of the protocol.
pub open spec fn version_message() -> ServerRequestView {
    ServerRequestView {
        version_major: Some(PROTO_VERSION_MAJOR),
        version_minor: Some(PROTO_VERSION_MINOR),
        ..ServerRequestView::plain(MsgType::Version)
    }
}

/// A player who logs in at the given time: without games, in no game, and rested
/// from then on.
pub open spec fn new_player(username: Seq<char>, stream: StreamId, now: i64) -> PlayerView {
    PlayerView {
        id: 0,
        name: username,
        wins: 0,
        losses: 0,
        in_game: false,
        stream,
        player_cooldown: now,
        player_wait_time: 0,
    }
}

impl LoginView {
    /// The login before its first action.
    pub open spec fn start(stream: StreamId) -> LoginView {
        LoginView { stream, phase: LoginPhaseView::SendingVersion }
    }

    /// The login in another phase.
    pub open spec fn in_phase(self, phase: LoginPhaseView) -> LoginView {
        LoginView { phase, ..self }
    }

    /// The login after it has failed.
    pub open spec fn failed(self, e: BidError) -> LoginView {
        self.in_phase(LoginPhaseView::Finished(Err(e)))
    }

    /// The login after an event. One that was not due changes nothing.
    pub open spec fn next(self, event: LoginEventView) -> LoginView {
        match (self.phase, event) {
            (LoginPhaseView::SendingVersion, LoginEventView::Sent(sent)) => match sent {
                Ok(_) => self.in_phase(LoginPhaseView::RequestingName),
                Err(_) => self.failed(BidError::ErrorOnSend),
            },
            // Whether the request got through shows when the answer is awaited.
            (LoginPhaseView::RequestingName, LoginEventView::Sent(_)) => {
                self.in_phase(LoginPhaseView::Listening)
            },
            (LoginPhaseView::Listening, LoginEventView::Received(reply)) => match reply {
                Ok(msg) => self.in_phase(
                    LoginPhaseView::OpeningDatabase { username: msg.login_name() },
                ),
                Err(e) => self.failed(e),
            },
            (
                LoginPhaseView::OpeningDatabase { username },
                LoginEventView::DatabaseOpened { available },
            ) => {
                if available {
                    self.in_phase(LoginPhaseView::LookingUp { username })
                } else {
                    self.failed(BidError::DbCannotOpenDatabase)
                }
            },
            (LoginPhaseView::LookingUp { username }, LoginEventView::LookedUp { found, now }) => {
                if found {
                    self.in_phase(
                        LoginPhaseView::Accepting {
                            player: new_player(username, self.stream, now),
                        },
                    )
                } else {
                    self.in_phase(LoginPhaseView::Rejecting)
                }
            },
            (LoginPhaseView::Rejecting, LoginEventView::Sent(sent)) => match sent {
                Ok(_) => self.in_phase(LoginPhaseView::Closing),
                Err(e) => self.failed(e),
            },
            (LoginPhaseView::Closing, LoginEventView::Closed) => {
                self.failed(BidError::PlayerNotFoundByName)
            },
            (LoginPhaseView::Accepting { player }, LoginEventView::Sent(sent)) => match sent {
                Ok(_) => self.in_phase(LoginPhaseView::Registering { player }),
                Err(e) => self.failed(e),
            },
            (LoginPhaseView::Registering { player }, LoginEventView::Registered { heard }) => {
                if heard {
                    self.in_phase(LoginPhaseView::Finished(Ok(())))
                } else {
                    self.failed(BidError::PlayerManagerSendFailed)
                }
            },
            _ => self,
        }
    }

    /// The action that is due.
    pub open spec fn due(self) -> LoginActionView {
        match self.phase {
            LoginPhaseView::SendingVersion => LoginActionView::Send(version_message()),
            LoginPhaseView::RequestingName => LoginActionView::Send(
                ServerRequestView::plain(MsgType::AuthRequest),
            ),
            LoginPhaseView::Listening => LoginActionView::Receive,
            LoginPhaseView::OpeningDatabase { username } => LoginActionView::OpenDatabase,
            LoginPhaseView::LookingUp { username } => LoginActionView::LookUp(
                crate::database_ops::player_query(username),
            ),
            LoginPhaseView::Rejecting => LoginActionView::Send(
                ServerRequestView::plain(MsgType::AuthReject),
            ),
            LoginPhaseView::Closing => LoginActionView::Shutdown,
            LoginPhaseView::Accepting { player } => LoginActionView::Send(
                ServerRequestView::plain(MsgType::Ack),
            ),
            LoginPhaseView::Registering { player } => LoginActionView::Tell(
                EventView::NewPlayer { player },
            ),
            LoginPhaseView::Finished(outcome) => LoginActionView::Finish(outcome),
        }
    }
}

impl Login {
    /// Starts the login of a client.
    pub fn new(stream: StreamId) -> (login: Login)
        ensures
            login@ == LoginView::start(stream),
    {
        Login { stream, phase: LoginPhase::SendingVersion }
    }

    fn version() -> (msg: ServerRequest)
        ensures
            msg@ == version_message(),
    {
        let mut msg = ServerRequest::new(MsgType::Version);
        msg.version_major = Some(PROTO_VERSION_MAJOR);
        msg.version_minor = Some(PROTO_VERSION_MINOR);
        msg
    }

    /// Says what is to be done next.
    pub fn action(&self) -> (action: LoginAction)
        ensures
            action@ == self@.due(),
    {
        match &self.phase {
            LoginPhase::SendingVersion => LoginAction::Send(Login::version()),
            LoginPhase::RequestingName => LoginAction::Send(
                ServerRequest::new(MsgType::AuthRequest),
            ),
            LoginPhase::Listening => LoginAction::Receive,
            LoginPhase::OpeningDatabase { .. } => LoginAction::OpenDatabase,
            LoginPhase::LookingUp { username } => LoginAction::LookUp(find_player(username)),
            LoginPhase::Rejecting => LoginAction::Send(ServerRequest::new(MsgType::AuthReject)),
            LoginPhase::Closing => LoginAction::Shutdown,
            LoginPhase::Accepting { .. } => LoginAction::Send(ServerRequest::new(MsgType::Ack)),
            LoginPhase::Registering { player } => LoginAction::Tell(
                Event::NewPlayer {
                    player: Player {
                        id: player.id,
                        name: player.name.clone(),
                        wins: player.wins,
                        losses: player.losses,
                        in_game: player.in_game,
                        stream: player.stream,
                        player_cooldown: player.player_cooldown,
                        player_wait_time: player.player_wait_time,
                    },
                },
            ),
            LoginPhase::Finished(outcome) => LoginAction::Finish(*outcome),
        }
    }

    /// Moves on after an event.
    pub fn advance(self, event: LoginEvent) -> (login: Login)
        ensures
            login@ == self@.next(event@),
    {
        let stream = self.stream;
        let phase = match (self.phase, event) {
            (LoginPhase::SendingVersion, LoginEvent::Sent(sent)) => match sent {
                Ok(_) => LoginPhase::RequestingName,
                Err(_) => LoginPhase::Finished(Err(BidError::ErrorOnSend)),
            },
            (LoginPhase::RequestingName, LoginEvent::Sent(_)) => LoginPhase::Listening,
            (LoginPhase::Listening, LoginEvent::Received(reply)) => match reply {
                Ok(msg) => LoginPhase::OpeningDatabase { username: msg.login_name() },
                Err(e) => LoginPhase::Finished(Err(e)),
            },
            (
                LoginPhase::OpeningDatabase { username },
                LoginEvent::DatabaseOpened { available },
            ) => {
                if available {
                    LoginPhase::LookingUp { username }
                } else {
                    LoginPhase::Finished(Err(BidError::DbCannotOpenDatabase))
                }
            },
            (LoginPhase::LookingUp { username }, LoginEvent::LookedUp { found, now }) => {
                if found {
                    LoginPhase::Accepting {
                        player: Player {
                            id: 0,
                            name: username,
                            wins: 0,
                            losses: 0,
                            in_game: false,
                            stream,
                            player_cooldown: now,
                            player_wait_time: 0,
                        },
                    }
                } else {
                    LoginPhase::Rejecting
                }
            },
            (LoginPhase::Rejecting, LoginEvent::Sent(sent)) => match sent {
                Ok(_) => LoginPhase::Closing,
                Err(e) => LoginPhase::Finished(Err(e)),
            },
            (LoginPhase::Closing, LoginEvent::Closed) => LoginPhase::Finished(
                Err(BidError::PlayerNotFoundByName),
            ),
            (LoginPhase::Accepting { player }, LoginEvent::Sent(sent)) => match sent {
                Ok(_) => LoginPhase::Registering { player },
                Err(e) => LoginPhase::Finished(Err(e)),
            },
            (LoginPhase::Registering { .. }, LoginEvent::Registered { heard }) => {
                if heard {
                    LoginPhase::Finished(Ok(()))
                } else {
                    LoginPhase::Finished(Err(BidError::PlayerManagerSendFailed))
                }
            },
            (phase, _) => phase,
        };
        Login { stream, phase }
    }
}

/// The login after a sequence of events.
pub open spec fn login_course(stream: StreamId, events: Seq<LoginEventView>) -> LoginView
    decreases events.len(),
{
    if events.len() == 0 {
        LoginView::start(stream)
    } else {
        login_course(stream, events.drop_last()).next(events.last())
    }
}

/// Whether the name was asked for in the database and found there.
pub open spec fn was_found(
    stream: StreamId,
    events: Seq<LoginEventView>,
    username: Seq<char>,
) -> bool
    decreases events.len(),
{
    events.len() > 0 && {
        ||| was_found(stream, events.drop_last(), username)
        ||| {
            &&& login_course(stream, events.drop_last()).due() == LoginActionView::LookUp(
                crate::database_ops::player_query(username),
            )
            &&& match events.last() {
                LoginEventView::LookedUp { found, .. } => found,
                _ => false,
            }
        }
    }
}

/// Nobody is registered who is not known: whenever the player manager is told of
/// a player, the name was looked up in the database and found there. The player
/// is a new one on the connection of the login.
pub proof fn law_registered_player_is_known(stream: StreamId, events: Seq<LoginEventView>)
    ensures
        match login_course(stream, events).due() {
            LoginActionView::Tell(event) => exists|username: Seq<char>, now: i64| #[trigger]
                was_found(stream, events, username) && event == (EventView::NewPlayer {
                    player: #[trigger] new_player(username, stream, now),
                }),
            _ => true,
        },
    decreases events.len(),
{
    lemma_login_keeps_to_known_players(stream, events);
}

proof fn lemma_login_keeps_to_known_players(stream: StreamId, events: Seq<LoginEventView>)
    ensures
        login_course(stream, events).stream == stream,
        match login_course(stream, events).phase {
            LoginPhaseView::Accepting { player } => exists|username: Seq<char>, now: i64| #[trigger]
                was_found(stream, events, username) && player == #[trigger] new_player(
                    username,
                    stream,
                    now,
                ),
            LoginPhaseView::Registering { player } => exists|username: Seq<char>, now: i64|
             #[trigger]
                was_found(stream, events, username) && player == #[trigger] new_player(
                    username,
                    stream,
                    now,
                ),
            _ => true,
        },
    decreases events.len(),
{
    if events.len() > 0 {
        let fewer = events.drop_last();
        lemma_login_keeps_to_known_players(stream, fewer);
        let before = login_course(stream, fewer);
        match (before.phase, events.last()) {
            (LoginPhaseView::LookingUp { username }, LoginEventView::LookedUp { found, now }) => {
                if found {
                    assert(was_found(stream, events, username));
                    assert(login_course(stream, events).phase == LoginPhaseView::Accepting {
                        player: new_player(username, stream, now),
                    });
                }
            },
            (LoginPhaseView::Accepting { player }, _) => {
                let (username, now) = choose|username: Seq<char>, now: i64| #[trigger]
                    was_found(stream, fewer, username) && player == #[trigger] new_player(
                        username,
                        stream,
                        now,
                    );
                assert(was_found(stream, events, username));
            },
            (LoginPhaseView::Registering { player }, _) => {
                let (username, now) = choose|username: Seq<char>, now: i64| #[trigger]
                    was_found(stream, fewer, username) && player == #[trigger] new_player(
                        username,
                        stream,
                        now,
                    );
                assert(was_found(stream, events, username));
            },
            _ => {},
        }
    }
}

/// Who is not known is refused: the client is told so, its connection is shut
/// down, and the login ends with [`BidError::PlayerNotFoundByName`].
pub proof fn law_unknown_player_is_refused(login: LoginView, now: i64)
    requires
        login.phase is LookingUp,
    ensures
        ({
            let refused = login.next(LoginEventView::LookedUp { found: false, now });
            let told = refused.next(LoginEventView::Sent(Ok(())));
            let closed = told.next(LoginEventView::Closed);
            &&& refused.due() == LoginActionView::Send(
                ServerRequestView::plain(MsgType::AuthReject),
            )
            &&& told.due() == LoginActionView::Shutdown
            &&& closed.due() == LoginActionView::Finish(Err(BidError::PlayerNotFoundByName))
        }),
{
}

/// Who is known is let in: the client is told so, then the player manager is
/// told of the player, and the login has succeeded.
pub proof fn law_known_player_is_let_in(login: LoginView, now: i64)
    requires
        login.phase is LookingUp,
    ensures
        ({
            let username = login.phase->LookingUp_username;
            let accepted = login.next(LoginEventView::LookedUp { found: true, now });
            let told = accepted.next(LoginEventView::Sent(Ok(())));
            let registered = told.next(LoginEventView::Registered { heard: true });
            &&& accepted.due() == LoginActionView::Send(ServerRequestView::plain(MsgType::Ack))
            &&& told.due() == LoginActionView::Tell(
                EventView::NewPlayer { player: new_player(username, login.stream, now) },
            )
            &&& registered.due() == LoginActionView::Finish(Ok(()))
        }),
{
}

impl LoginView {
    /// How many events a login can still take.
    pub open spec fn events_left(self) -> int {
        match self.phase {
            LoginPhaseView::SendingVersion => 7,
            LoginPhaseView::RequestingName => 6,
            LoginPhaseView::Listening => 5,
            LoginPhaseView::OpeningDatabase { .. } => 4,
            LoginPhaseView::LookingUp { .. } => 3,
            LoginPhaseView::Rejecting => 2,
            LoginPhaseView::Accepting { .. } => 2,
            LoginPhaseView::Closing => 1,
            LoginPhaseView::Registering { .. } => 1,
            LoginPhaseView::Finished(_) => 0,
        }
    }

    /// Whether the event answers the action that is due.
    pub open spec fn is_due(self, event: LoginEventView) -> bool {
        match self.due() {
            LoginActionView::Send(_) => event is Sent,
            LoginActionView::Receive => event is Received,
            LoginActionView::OpenDatabase => event is DatabaseOpened,
            LoginActionView::LookUp(_) => event is LookedUp,
            LoginActionView::Shutdown => event is Closed,
            LoginActionView::Tell(_) => event is Registered,
            LoginActionView::Finish(_) => false,
        }
    }
}

/// Every login comes to an end: each answer to an action that is due leaves
/// fewer of them, and a login that can take no more is over.
pub proof fn law_login_comes_to_an_end(login: LoginView, event: LoginEventView)
    requires
        login.is_due(event),
    ensures
        0 <= login.next(event).events_left() < login.events_left(),
        login.next(event).events_left() == 0 <==> login.next(event).phase is Finished,
{
}

/// How often a login has told the player manager of its player: the times it did,
/// and the times it was heard.
pub open spec fn registrations(stream: StreamId, events: Seq<LoginEventView>) -> (nat, nat)
    decreases events.len(),
{
    if events.len() == 0 {
        (0, 0)
    } else {
        let (told, heard) = registrations(stream, events.drop_last());
        match (login_course(stream, events.drop_last()).due(), events.last()) {
            (LoginActionView::Tell(_), LoginEventView::Registered { heard: true }) => (
                told + 1,
                heard + 1,
            ),
            (LoginActionView::Tell(_), LoginEventView::Registered { heard: false }) => (
                told + 1,
                heard,
            ),
            _ => (told, heard),
        }
    }
}

/// A client is registered at most once, however its login goes, and the login
/// succeeds exactly if the player manager heard of the player.
pub proof fn law_login_registers_at_most_once(stream: StreamId, events: Seq<LoginEventView>)
    ensures
        registrations(stream, events).0 <= 1,
        (login_course(stream, events).phase matches LoginPhaseView::Finished(Ok(_)))
            <==> registrations(stream, events).1 == 1,
{
    lemma_registrations(stream, events);
}

proof fn lemma_registrations(stream: StreamId, events: Seq<LoginEventView>)
    ensures
        ({
            let (told, heard) = registrations(stream, events);
            &&& heard <= told <= 1
            &&& match login_course(stream, events).phase {
                LoginPhaseView::Finished(Ok(_)) => heard == 1,
                LoginPhaseView::Finished(Err(_)) => heard == 0,
                _ => told == 0,
            }
        }),
    decreases events.len(),
{
    if events.len() > 0 {
        lemma_registrations(stream, events.drop_last());
    }
}

/// What the view of an event or of an action says is what happens.
pub proof fn law_login_views(
    sent: Result<(), BidError>,
    msg: ServerRequest,
    e: BidError,
    flag: bool,
    now: i64,
    query: Query,
    event: Event,
)
    ensures
        LoginEvent::Sent(sent)@ == LoginEventView::Sent(sent),
        LoginEvent::Received(Ok(msg))@ == LoginEventView::Received(Ok(msg@)),
        LoginEvent::Received(Err(e))@ == LoginEventView::Received(Err(e)),
        (LoginEvent::DatabaseOpened { available: flag })@ == (LoginEventView::DatabaseOpened {
            available: flag,
        }),
        (LoginEvent::LookedUp { found: flag, now })@ == (LoginEventView::LookedUp {
            found: flag,
            now,
        }),
        LoginEvent::Closed@ == LoginEventView::Closed,
        (LoginEvent::Registered { heard: flag })@ == (LoginEventView::Registered { heard: flag }),
        LoginAction::Send(msg)@ == LoginActionView::Send(msg@),
        LoginAction::Receive@ == LoginActionView::Receive,
        LoginAction::OpenDatabase@ == LoginActionView::OpenDatabase,
        LoginAction::LookUp(query)@ == LoginActionView::LookUp(query@),
        LoginAction::Shutdown@ == LoginActionView::Shutdown,
        LoginAction::Tell(event)@ == LoginActionView::Tell(event@),
        LoginAction::Finish(sent)@ == LoginActionView::Finish(sent),
{
}

/// A login tells the client the version of the protocol, 0.2, and asks for its name.
/// If the version cannot be sent, the login ends with [`BidError::ErrorOnSend`],
/// whatever the error was; whether the request for the name could be sent does not
/// matter.
pub proof fn law_login_begins_with_the_version(
    stream: StreamId,
    e: BidError,
    sent: Result<(), BidError>,
)
    ensures
        ({
            let start = LoginView::start(stream);
            let asking = start.next(LoginEventView::Sent(Ok(())));
            let listening = asking.next(LoginEventView::Sent(sent));
            &&& start.stream == stream
            &&& start.due() matches LoginActionView::Send(msg) && {
                &&& msg.msg_type == MsgType::Version
                &&& msg.version_major == Some(0u32)
                &&& msg.version_minor == Some(2u32)
                &&& msg.auth_response is None && msg.game_start is None
                &&& msg.round_start is None && msg.bid_response is None
                &&& msg.bid_result is None && msg.game_end is None
            }
            &&& start.next(LoginEventView::Sent(Err(e))).due() == LoginActionView::Finish(
                Err(BidError::ErrorOnSend),
            )
            &&& asking.due() == LoginActionView::Send(
                ServerRequestView::plain(MsgType::AuthRequest),
            )
            &&& listening.due() == LoginActionView::Receive
            &&& listening.stream == stream
        }),
{
}

/// The player who is looked up is the one whom the answer of the client names, with
/// the empty name if it names nobody. An answer that cannot be had ends the login
/// with the error, and so does a database that cannot be opened.
pub proof fn law_player_of_the_answer_is_looked_up(
    login: LoginView,
    msg: ServerRequestView,
    e: BidError,
)
    requires
        login.due() == LoginActionView::Receive,
    ensures
        ({
            let answered = login.next(LoginEventView::Received(Ok(msg)));
            let opened = answered.next(LoginEventView::DatabaseOpened { available: true });
            let closed = answered.next(LoginEventView::DatabaseOpened { available: false });
            &&& login.next(LoginEventView::Received(Err(e))).due() == LoginActionView::Finish(
                Err(e),
            )
            &&& answered.due() == LoginActionView::OpenDatabase
            &&& closed.due() == LoginActionView::Finish(Err(BidError::DbCannotOpenDatabase))
            &&& opened.due() matches LoginActionView::LookUp(query) && {
                &&& query.statement == "SELECT * from players WHERE username = ?"@
                &&& query.values.len() == 1
                &&& query.values[0] matches crate::database_ops::ValueView::Text(username) && {
                    match msg.auth_response {
                        Some(Some(name)) => if msg.msg_type == MsgType::AuthResponse {
                            username == name
                        } else {
                            username.len() == 0
                        },
                        _ => username.len() == 0,
                    }
                }
            }
            &&& opened.stream == login.stream
        }),
{
}

/// A new player has the name that was looked up and the connection of the login,
/// has played no games and is in none, and may play from the time of the login on.
pub proof fn law_new_player_is_fresh(username: Seq<char>, stream: StreamId, now: i64)
    ensures
        ({
            let player = new_player(username, stream, now);
            &&& player.id == 0
            &&& player.name == username
            &&& player.wins == 0
            &&& player.losses == 0
            &&& !player.in_game
            &&& player.stream == stream
            &&& player.player_cooldown == now
            &&& player.player_wait_time == 0
        }),
{
}

/// Errors at the end of a login come out as they are: a refusal or an acceptance
/// that cannot be sent ends it with the error of sending, and a player manager that
/// does not hear ends it with [`BidError::PlayerManagerSendFailed`].
pub proof fn law_errors_at_the_end_of_a_login(login: LoginView, e: BidError)
    ensures
        login.phase == LoginPhaseView::Rejecting || login.phase is Accepting ==> login.next(
            LoginEventView::Sent(Err(e)),
        ).due() == LoginActionView::Finish(Err(e)),
        login.due() is Tell ==> login.next(LoginEventView::Registered { heard: false }).due()
            == LoginActionView::Finish(Err(BidError::PlayerManagerSendFailed)),
        login.due() is Tell ==> (login.next(
            LoginEventView::Registered { heard: true },
        ).due() matches LoginActionView::Finish(Ok(_))),
{
}

/// Only what is due moves a login on, and nothing moves one that is over.
pub proof fn law_login_waits_for_what_is_due(login: LoginView, event: LoginEventView)
    requires
        match login.due() {
            LoginActionView::Send(_) => !(event is Sent),
            LoginActionView::Receive => !(event is Received),
            LoginActionView::OpenDatabase => !(event is DatabaseOpened),
            LoginActionView::LookUp(_) => !(event is LookedUp),
            LoginActionView::Shutdown => !(event is Closed),
            LoginActionView::Tell(_) => !(event is Registered),
            LoginActionView::Finish(_) => true,
        },
    ensures
        login.next(event) == login,
{
}

/// Who logs in gets in under the name of the answer: if the database knows that
/// name, the client is sent ACK, and then the player manager is told of a player who
/// has this name and the connection of the login, has no games behind them, is in
/// none, and may play from the time of the lookup on.
pub proof fn law_player_gets_in_under_the_answered_name(
    login: LoginView,
    msg: ServerRequestView,
    name: Seq<char>,
    now: i64,
)
    requires
        login.due() == LoginActionView::Receive,
        msg.msg_type == MsgType::AuthResponse,
        msg.auth_response == Some(Some(name)),
    ensures
        ({
            let looking_up = login.next(LoginEventView::Received(Ok(msg))).next(
                LoginEventView::DatabaseOpened { available: true },
            );
            let accepted = looking_up.next(LoginEventView::LookedUp { found: true, now });
            let told = accepted.next(LoginEventView::Sent(Ok(())));
            &&& looking_up.due() == LoginActionView::LookUp(crate::database_ops::player_query(name))
            &&& accepted.due() == LoginActionView::Send(ServerRequestView::plain(MsgType::Ack))
            &&& told.due() matches LoginActionView::Tell(EventView::NewPlayer { player }) && {
                &&& player.name == name
                &&& player.stream == login.stream
                &&& player.id == 0 && player.wins == 0 && player.losses == 0
                &&& !player.in_game
                &&& player.player_cooldown == now && player.player_wait_time == 0
            }
        }),
{
}

/// A login that is over ends as it ended, and every event leaves its connection.
pub proof fn law_login_keeps_its_connection(
    login: LoginView,
    event: LoginEventView,
    outcome: Result<(), BidError>,
)
    ensures
        login.next(event).stream == login.stream,
        login.phase == LoginPhaseView::Finished(outcome) ==> login.due()
            == LoginActionView::Finish(outcome),
{
}

} // verus!
