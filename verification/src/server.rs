//! The life of the server around its socket.

use vstd::prelude::*;
use vstd::string::*;

verus! {

/// The permissions of the session directory: for its owner alone.
pub const SESSION_DIR_MODE: u32 = 0o700;

/// The permissions of the socket: for its owner and group.
pub const SOCKET_MODE: u32 = 0o660;

/// Why the server ends with an error.
#[derive(Clone, Copy, Debug, PartialEq, Eq, Structural)]
pub enum ServeError {
    CannotCreateSessionDir,
    CannotSecureSessionDir,
    NoSocketDir,
    CannotCreateSocketDir,
    CannotRemoveStaleSocket,
    CannotBind,
    CannotSecureSocket,
    CannotAccept,
    CannotListenForShutdown,
}

/// What the server waits for.
#[derive(Clone, Copy, Debug, PartialEq, Eq, Structural)]
pub enum ServerState {
    CreatingSessionDir,
    SecuringSessionDir,
    CreatingSocketDir,
    CheckingSocket,
    RemovingStaleSocket,
    Binding,
    SecuringSocket,
    Authenticating,
    Listening,
    Stopping,
    Stopped,
}

/// What the server does.
#[derive(Clone, Copy, Debug, PartialEq, Eq, Structural)]
pub enum ServerAction {
    /// Create the session directory and those above it.
    CreateSessionDir,
    /// Set the permissions of the session directory.
    SecureSessionDir(u32),
    /// Create the directory of the socket and those above it.
    CreateSocketDir,
    /// See whether there is something at the path of the socket.
    CheckSocket,
    /// Remove what is there.
    RemoveStaleSocket,
    /// Bind the socket.
    Bind,
    /// Set the permissions of the socket.
    SecureSocket(u32),
    /// Make sure of a session for the first time. A failure is only reported.
    Authenticate,
    /// Begin the checks of the session on the side, and wait for a connection or for the end.
    StartListening,
    /// Serve the connection on the side, and wait for a connection or for the end.
    ServeConnection,
    /// Remove the socket, and do not mind if that fails.
    RemoveSocket,
    /// End without an error.
    Stop,
    /// End with an error.
    Fail(ServeError),
}

/// What came of an action.
#[derive(Clone, Copy, Debug, PartialEq, Eq, Structural)]
pub enum ServerEvent {
    /// The action was done.
    Done,
    /// The action failed.
    Failed,
    /// There is something at the path of the socket.
    SocketExists,
    /// There is nothing.
    SocketAbsent,
    /// A client connected.
    Accepted,
    /// No client can connect any more.
    AcceptFailed,
    /// The shutdown signal came.
    Shutdown,
    /// The shutdown signal cannot be waited for.
    SignalFailed,
}

impl ServeError {
    /// What is said about the error.
    pub open spec fn text(self) -> Seq<char> {
        match self {
            ServeError::CannotCreateSessionDir => "Unable to create session directory"@,
            ServeError::CannotSecureSessionDir => "Unable to secure session directory"@,
            ServeError::NoSocketDir => "Socket path has no parent directory"@,
            ServeError::CannotCreateSocketDir => "Unable to create socket directory"@,
            ServeError::CannotRemoveStaleSocket => "Unable to remove stale broker socket"@,
            ServeError::CannotBind => "Unable to bind broker socket"@,
            ServeError::CannotSecureSocket => "Unable to set broker socket permissions"@,
            ServeError::CannotAccept => "Unable to accept broker connection"@,
            ServeError::CannotListenForShutdown => "Unable to listen for shutdown signal"@,
        }
    }

    /// The text that is said, as a string.
    pub fn message(&self) -> (text: String)
        ensures
            text@ == self.text(),
    {
        let said = match self {
            ServeError::CannotCreateSessionDir => "Unable to create session directory",
            ServeError::CannotSecureSessionDir => "Unable to secure session directory",
            ServeError::NoSocketDir => "Socket path has no parent directory",
            ServeError::CannotCreateSocketDir => "Unable to create socket directory",
            ServeError::CannotRemoveStaleSocket => "Unable to remove stale broker socket",
            ServeError::CannotBind => "Unable to bind broker socket",
            ServeError::CannotSecureSocket => "Unable to set broker socket permissions",
            ServeError::CannotAccept => "Unable to accept broker connection",
            ServeError::CannotListenForShutdown => "Unable to listen for shutdown signal",
        };
        said.to_owned()
    }
}

impl ServerState {
    /// The event answers the action that led to this state.
    pub open spec fn awaits(self, event: ServerEvent) -> bool {
        match self {
            ServerState::CheckingSocket => event == ServerEvent::SocketExists || event
                == ServerEvent::SocketAbsent,
            ServerState::Listening => {
                ||| event == ServerEvent::Accepted
                ||| event == ServerEvent::AcceptFailed
                ||| event == ServerEvent::Shutdown
                ||| event == ServerEvent::SignalFailed
            },
            ServerState::Stopped => false,
            _ => event == ServerEvent::Done || event == ServerEvent::Failed,
        }
    }

    /// What a failure means in a state whose action must not fail.
    pub open spec fn failure(self) -> Option<ServeError> {
        match self {
            ServerState::CreatingSessionDir => Some(ServeError::CannotCreateSessionDir),
            ServerState::SecuringSessionDir => Some(ServeError::CannotSecureSessionDir),
            ServerState::CreatingSocketDir => Some(ServeError::CannotCreateSocketDir),
            ServerState::RemovingStaleSocket => Some(ServeError::CannotRemoveStaleSocket),
            ServerState::Binding => Some(ServeError::CannotBind),
            ServerState::SecuringSocket => Some(ServeError::CannotSecureSocket),
            _ => None,
        }
    }
}

/// What comes after an action that was done. `has_socket_dir` tells whether the path of the
/// socket has a directory part.
pub open spec fn after_done(state: ServerState, has_socket_dir: bool) -> (
    ServerState,
    ServerAction,
) {
    match state {
        ServerState::CreatingSessionDir => (
            ServerState::SecuringSessionDir,
            ServerAction::SecureSessionDir(SESSION_DIR_MODE),
        ),
        ServerState::SecuringSessionDir => if has_socket_dir {
            (ServerState::CreatingSocketDir, ServerAction::CreateSocketDir)
        } else {
            (ServerState::Stopped, ServerAction::Fail(ServeError::NoSocketDir))
        },
        ServerState::CreatingSocketDir => (ServerState::CheckingSocket, ServerAction::CheckSocket),
        ServerState::RemovingStaleSocket => (ServerState::Binding, ServerAction::Bind),
        ServerState::Binding => (
            ServerState::SecuringSocket,
            ServerAction::SecureSocket(SOCKET_MODE),
        ),
        ServerState::SecuringSocket => (ServerState::Authenticating, ServerAction::Authenticate),
        ServerState::Authenticating => (ServerState::Listening, ServerAction::StartListening),
        _ => (ServerState::Stopped, ServerAction::Stop),
    }
}

/// What one event makes of the server.
pub open spec fn server_next(state: ServerState, has_socket_dir: bool, event: ServerEvent) -> (
    ServerState,
    ServerAction,
) {
    match event {
        ServerEvent::Done => after_done(state, has_socket_dir),
        ServerEvent::Failed => match state.failure() {
            Some(e) => (ServerState::Stopped, ServerAction::Fail(e)),
            None => after_done(state, has_socket_dir),
        },
        ServerEvent::SocketExists => (
            ServerState::RemovingStaleSocket,
            ServerAction::RemoveStaleSocket,
        ),
        ServerEvent::SocketAbsent => (ServerState::Binding, ServerAction::Bind),
        ServerEvent::Accepted => (ServerState::Listening, ServerAction::ServeConnection),
        ServerEvent::AcceptFailed => (
            ServerState::Stopped,
            ServerAction::Fail(ServeError::CannotAccept),
        ),
        ServerEvent::Shutdown => (ServerState::Stopping, ServerAction::RemoveSocket),
        ServerEvent::SignalFailed => (
            ServerState::Stopped,
            ServerAction::Fail(ServeError::CannotListenForShutdown),
        ),
    }
}

/// How the server begins.
pub open spec fn server_start() -> (ServerState, ServerAction) {
    (ServerState::CreatingSessionDir, ServerAction::CreateSessionDir)
}

/// Begin to serve.
pub fn serve() -> (r: (ServerState, ServerAction))
    ensures
        r == server_start(),
{
    (ServerState::CreatingSessionDir, ServerAction::CreateSessionDir)
}

impl ServerState {
    /// What a failure means in this state.
    fn on_failure(&self) -> (e: Option<ServeError>)
        ensures
            e == self.failure(),
    {
        match self {
            ServerState::CreatingSessionDir => Some(ServeError::CannotCreateSessionDir),
            ServerState::SecuringSessionDir => Some(ServeError::CannotSecureSessionDir),
            ServerState::CreatingSocketDir => Some(ServeError::CannotCreateSocketDir),
            ServerState::RemovingStaleSocket => Some(ServeError::CannotRemoveStaleSocket),
            ServerState::Binding => Some(ServeError::CannotBind),
            ServerState::SecuringSocket => Some(ServeError::CannotSecureSocket),
            _ => None,
        }
    }

    /// What comes after an action that was done.
    fn on_done(&self, has_socket_dir: bool) -> (r: (ServerState, ServerAction))
        ensures
            r == after_done(*self, has_socket_dir),
    {
        match self {
            ServerState::CreatingSessionDir => (
                ServerState::SecuringSessionDir,
                ServerAction::SecureSessionDir(SESSION_DIR_MODE),
            ),
            ServerState::SecuringSessionDir => if has_socket_dir {
                (ServerState::CreatingSocketDir, ServerAction::CreateSocketDir)
            } else {
                (ServerState::Stopped, ServerAction::Fail(ServeError::NoSocketDir))
            },
            ServerState::CreatingSocketDir => (
                ServerState::CheckingSocket,
                ServerAction::CheckSocket,
            ),
            ServerState::RemovingStaleSocket => (ServerState::Binding, ServerAction::Bind),
            ServerState::Binding => (
                ServerState::SecuringSocket,
                ServerAction::SecureSocket(SOCKET_MODE),
            ),
            ServerState::SecuringSocket => (
                ServerState::Authenticating,
                ServerAction::Authenticate,
            ),
            ServerState::Authenticating => (ServerState::Listening, ServerAction::StartListening),
            _ => (ServerState::Stopped, ServerAction::Stop),
        }
    }

    /// Whether the event answers the action that led to this state.
    pub fn accepts(&self, event: ServerEvent) -> (yes: bool)
        ensures
            yes == self.awaits(event),
    {
        match self {
            ServerState::CheckingSocket => event == ServerEvent::SocketExists || event
                == ServerEvent::SocketAbsent,
            ServerState::Listening => event == ServerEvent::Accepted || event
                == ServerEvent::AcceptFailed || event == ServerEvent::Shutdown || event
                == ServerEvent::SignalFailed,
            ServerState::Stopped => false,
            _ => event == ServerEvent::Done || event == ServerEvent::Failed,
        }
    }

    /// Take in what came of the last action, and say what to do next.
    pub fn advance(self, has_socket_dir: bool, event: ServerEvent) -> (r: (
        ServerState,
        ServerAction,
    ))
        requires
            self.awaits(event),
        ensures
            r == server_next(self, has_socket_dir, event),
            self == ServerState::Authenticating ==> r == (
                ServerState::Listening,
                ServerAction::StartListening,
            ),
            self == ServerState::Listening && event == ServerEvent::Accepted ==> r == (
                ServerState::Listening,
                ServerAction::ServeConnection,
            ),
            self == ServerState::Listening && event == ServerEvent::Shutdown ==> r == (
                ServerState::Stopping,
                ServerAction::RemoveSocket,
            ),
            self == ServerState::Stopping ==> r == (ServerState::Stopped, ServerAction::Stop),
    {
        match event {
            ServerEvent::Done => self.on_done(has_socket_dir),
            ServerEvent::Failed => match self.on_failure() {
                Some(e) => (ServerState::Stopped, ServerAction::Fail(e)),
                None => self.on_done(has_socket_dir),
            },
            ServerEvent::SocketExists => (
                ServerState::RemovingStaleSocket,
                ServerAction::RemoveStaleSocket,
            ),
            ServerEvent::SocketAbsent => (ServerState::Binding, ServerAction::Bind),
            ServerEvent::Accepted => (ServerState::Listening, ServerAction::ServeConnection),
            ServerEvent::AcceptFailed => (
                ServerState::Stopped,
                ServerAction::Fail(ServeError::CannotAccept),
            ),
            ServerEvent::Shutdown => (ServerState::Stopping, ServerAction::RemoveSocket),
            ServerEvent::SignalFailed => (
                ServerState::Stopped,
                ServerAction::Fail(ServeError::CannotListenForShutdown),
            ),
        }
    }
}

/// Where the server stands after a sequence of events.
pub open spec fn server_reached(has_socket_dir: bool, events: Seq<ServerEvent>) -> (
    ServerState,
    ServerAction,
)
    decreases events.len(),
{
    if events.len() == 0 {
        server_start()
    } else {
        server_next(
            server_reached(has_socket_dir, events.drop_last()).0,
            has_socket_dir,
            events.last(),
        )
    }
}

/// Each event answers the action before it.
pub open spec fn server_answered(has_socket_dir: bool, events: Seq<ServerEvent>) -> bool
    decreases events.len(),
{
    events.len() == 0 || {
        &&& server_answered(has_socket_dir, events.drop_last())
        &&& server_reached(has_socket_dir, events.drop_last()).0.awaits(events.last())
    }
}

/// The action was asked for and then reported as done, at some point of the events.
pub open spec fn was_done(
    has_socket_dir: bool,
    events: Seq<ServerEvent>,
    action: ServerAction,
) -> bool
    decreases events.len(),
{
    events.len() > 0 && {
        ||| was_done(has_socket_dir, events.drop_last(), action)
        ||| {
            &&& server_reached(has_socket_dir, events.drop_last()).1 == action
            &&& events.last() == ServerEvent::Done
        }
    }
}

/// What the state tells of the past.
spec fn secured_so_far(has_socket_dir: bool, events: Seq<ServerEvent>) -> bool {
    let (state, action) = server_reached(has_socket_dir, events);
    let dir_secured = was_done(
        has_socket_dir,
        events,
        ServerAction::SecureSessionDir(SESSION_DIR_MODE),
    );
    let bound = was_done(has_socket_dir, events, ServerAction::Bind);
    let socket_secured = was_done(has_socket_dir, events, ServerAction::SecureSocket(SOCKET_MODE));
    match state {
        ServerState::CreatingSessionDir => action == ServerAction::CreateSessionDir,
        ServerState::SecuringSessionDir => action == ServerAction::SecureSessionDir(
            SESSION_DIR_MODE,
        ),
        ServerState::CreatingSocketDir => dir_secured && action == ServerAction::CreateSocketDir,
        ServerState::CheckingSocket => dir_secured && action == ServerAction::CheckSocket,
        ServerState::RemovingStaleSocket => dir_secured && action
            == ServerAction::RemoveStaleSocket,
        ServerState::Binding => dir_secured && action == ServerAction::Bind,
        ServerState::SecuringSocket => dir_secured && bound && action == ServerAction::SecureSocket(
            SOCKET_MODE,
        ),
        ServerState::Authenticating => dir_secured && bound && socket_secured && action
            == ServerAction::Authenticate,
        ServerState::Listening => dir_secured && bound && socket_secured && (action
            == ServerAction::StartListening || action == ServerAction::ServeConnection),
        ServerState::Stopping => dir_secured && bound && socket_secured && action
            == ServerAction::RemoveSocket,
        ServerState::Stopped => action == ServerAction::Stop || action is Fail,
    }
}

proof fn lemma_secured_so_far(has_socket_dir: bool, events: Seq<ServerEvent>)
    requires
        server_answered(has_socket_dir, events),
    ensures
        secured_so_far(has_socket_dir, events),
    decreases events.len(),
{
    if events.len() > 0 {
        lemma_secured_so_far(has_socket_dir, events.drop_last());
    }
}

/// No connection is served before the session directory was closed to all but its owner, and
/// the socket bound and closed to all but its owner and group.
pub proof fn law_secured_before_serving(has_socket_dir: bool, events: Seq<ServerEvent>)
    requires
        server_answered(has_socket_dir, events),
        ({
            let action = server_reached(has_socket_dir, events).1;
            action == ServerAction::StartListening || action == ServerAction::ServeConnection
        }),
    ensures
        was_done(has_socket_dir, events, ServerAction::SecureSessionDir(0o700)),
        was_done(has_socket_dir, events, ServerAction::Bind),
        was_done(has_socket_dir, events, ServerAction::SecureSocket(0o660)),
{
    lemma_secured_so_far(has_socket_dir, events);
}

/// The server ends without an error only on the shutdown signal, after it removed its socket.
pub proof fn law_clean_end_is_a_shutdown(has_socket_dir: bool, events: Seq<ServerEvent>)
    requires
        server_answered(has_socket_dir, events),
        server_reached(has_socket_dir, events).1 == ServerAction::Stop,
    ensures
        events.len() > 1,
        events[events.len() - 2] == ServerEvent::Shutdown,
        server_reached(has_socket_dir, events.drop_last()).1 == ServerAction::RemoveSocket,
{
    reveal_with_fuel(server_answered, 3);
    let earlier = events.drop_last();
    lemma_secured_so_far(has_socket_dir, earlier);
    assert(earlier.len() > 0);
    lemma_secured_so_far(has_socket_dir, earlier.drop_last());
    assert(earlier.last() == events[events.len() - 2]);
}

/// One more event.
proof fn lemma_server_push(has_socket_dir: bool, events: Seq<ServerEvent>, event: ServerEvent)
    ensures
        server_reached(has_socket_dir, events.push(event)) == server_next(
            server_reached(has_socket_dir, events).0,
            has_socket_dir,
            event,
        ),
        server_answered(has_socket_dir, events.push(event)) == (server_answered(
            has_socket_dir,
            events,
        ) && server_reached(has_socket_dir, events).0.awaits(event)),
{
    assert(events.push(event).drop_last() =~= events);
}

/// A start without a failure: the session directory is created and closed to all but its owner,
/// the directory of the socket created, what is at the path of the socket removed, the socket
/// bound and closed to all but its owner and group, and a session asked for. However that ends,
/// the server listens.
pub proof fn law_start_leads_to_listening(stale: bool, initial: ServerEvent)
    requires
        initial == ServerEvent::Done || initial == ServerEvent::Failed,
    ensures
        ({
            let e0 = Seq::<ServerEvent>::empty();
            let e1 = e0.push(ServerEvent::Done);
            let e2 = e1.push(ServerEvent::Done);
            let e3 = e2.push(ServerEvent::Done);
            let found = e3.push(ServerEvent::SocketExists);
            let e4 = if stale {
                found.push(ServerEvent::Done)
            } else {
                e3.push(ServerEvent::SocketAbsent)
            };
            let e5 = e4.push(ServerEvent::Done);
            let e6 = e5.push(ServerEvent::Done);
            let e7 = e6.push(initial);
            &&& server_answered(true, e7)
            &&& server_reached(true, e0).1 == ServerAction::CreateSessionDir
            &&& server_reached(true, e1).1 == ServerAction::SecureSessionDir(0o700)
            &&& server_reached(true, e2).1 == ServerAction::CreateSocketDir
            &&& server_reached(true, e3).1 == ServerAction::CheckSocket
            &&& server_reached(true, found).1 == ServerAction::RemoveStaleSocket
            &&& server_reached(true, e4).1 == ServerAction::Bind
            &&& server_reached(true, e5).1 == ServerAction::SecureSocket(0o660)
            &&& server_reached(true, e6).1 == ServerAction::Authenticate
            &&& server_reached(true, e7).1 == ServerAction::StartListening
        }),
{
    let e0 = Seq::<ServerEvent>::empty();
    let e1 = e0.push(ServerEvent::Done);
    let e2 = e1.push(ServerEvent::Done);
    let e3 = e2.push(ServerEvent::Done);
    let found = e3.push(ServerEvent::SocketExists);
    let e4 = if stale {
        found.push(ServerEvent::Done)
    } else {
        e3.push(ServerEvent::SocketAbsent)
    };
    let e5 = e4.push(ServerEvent::Done);
    let e6 = e5.push(ServerEvent::Done);
    lemma_server_push(true, e0, ServerEvent::Done);
    lemma_server_push(true, e1, ServerEvent::Done);
    lemma_server_push(true, e2, ServerEvent::Done);
    lemma_server_push(true, e3, ServerEvent::SocketExists);
    lemma_server_push(true, e3, ServerEvent::SocketAbsent);
    lemma_server_push(true, found, ServerEvent::Done);
    lemma_server_push(true, e4, ServerEvent::Done);
    lemma_server_push(true, e5, ServerEvent::Done);
    lemma_server_push(true, e6, initial);
}

/// Whatever came of the first request for a session, the server listens next.
pub proof fn law_initial_authentication_decides_nothing(
    has_socket_dir: bool,
    events: Seq<ServerEvent>,
    event: ServerEvent,
)
    requires
        server_answered(has_socket_dir, events.push(event)),
        server_reached(has_socket_dir, events).1 == ServerAction::Authenticate,
    ensures
        event == ServerEvent::Done || event == ServerEvent::Failed,
        server_reached(has_socket_dir, events.push(event)).1 == ServerAction::StartListening,
{
    lemma_server_push(has_socket_dir, events, event);
    lemma_secured_so_far(has_socket_dir, events);
}

/// A server that listens serves every connection and listens on. The shutdown signal has it
/// remove its socket and end without an error, whether the removal works or not. It ends with an
/// error when no client can connect any more or the signal cannot be waited for.
pub proof fn law_listening(has_socket_dir: bool, events: Seq<ServerEvent>, event: ServerEvent)
    requires
        server_answered(has_socket_dir, events),
        server_reached(has_socket_dir, events).1 == ServerAction::StartListening || server_reached(
            has_socket_dir,
            events,
        ).1 == ServerAction::ServeConnection,
        event == ServerEvent::Done || event == ServerEvent::Failed,
    ensures
        server_answered(has_socket_dir, events.push(ServerEvent::Accepted)),
        server_reached(has_socket_dir, events.push(ServerEvent::Accepted)).1
            == ServerAction::ServeConnection,
        server_answered(has_socket_dir, events.push(ServerEvent::Shutdown).push(event)),
        server_reached(has_socket_dir, events.push(ServerEvent::Shutdown)).1
            == ServerAction::RemoveSocket,
        server_reached(has_socket_dir, events.push(ServerEvent::Shutdown).push(event)).1
            == ServerAction::Stop,
        server_answered(has_socket_dir, events.push(ServerEvent::AcceptFailed)),
        server_reached(has_socket_dir, events.push(ServerEvent::AcceptFailed)).1
            == ServerAction::Fail(ServeError::CannotAccept),
        server_answered(has_socket_dir, events.push(ServerEvent::SignalFailed)),
        server_reached(has_socket_dir, events.push(ServerEvent::SignalFailed)).1
            == ServerAction::Fail(ServeError::CannotListenForShutdown),
{
    lemma_secured_so_far(has_socket_dir, events);
    lemma_server_push(has_socket_dir, events, ServerEvent::Accepted);
    lemma_server_push(has_socket_dir, events, ServerEvent::Shutdown);
    lemma_server_push(has_socket_dir, events.push(ServerEvent::Shutdown), event);
    lemma_server_push(has_socket_dir, events, ServerEvent::AcceptFailed);
    lemma_server_push(has_socket_dir, events, ServerEvent::SignalFailed);
}

/// A step of the start that fails ends the server with the error of that step.
pub proof fn law_failed_start(has_socket_dir: bool, events: Seq<ServerEvent>)
    requires
        server_answered(has_socket_dir, events),
    ensures
        ({
            let action = server_reached(has_socket_dir, events).1;
            let next = server_reached(has_socket_dir, events.push(ServerEvent::Failed)).1;
            &&& action == ServerAction::CreateSessionDir || action
                == ServerAction::SecureSessionDir(0o700) || action == ServerAction::CreateSocketDir
                || action == ServerAction::RemoveStaleSocket || action == ServerAction::Bind
                || action == ServerAction::SecureSocket(0o660) ==> server_answered(
                has_socket_dir,
                events.push(ServerEvent::Failed),
            )
            &&& action == ServerAction::CreateSessionDir ==> next == ServerAction::Fail(
                ServeError::CannotCreateSessionDir,
            )
            &&& action == ServerAction::SecureSessionDir(0o700) ==> next == ServerAction::Fail(
                ServeError::CannotSecureSessionDir,
            )
            &&& action == ServerAction::CreateSocketDir ==> next == ServerAction::Fail(
                ServeError::CannotCreateSocketDir,
            )
            &&& action == ServerAction::RemoveStaleSocket ==> next == ServerAction::Fail(
                ServeError::CannotRemoveStaleSocket,
            )
            &&& action == ServerAction::Bind ==> next == ServerAction::Fail(ServeError::CannotBind)
            &&& action == ServerAction::SecureSocket(0o660) ==> next == ServerAction::Fail(
                ServeError::CannotSecureSocket,
            )
        }),
{
    lemma_secured_so_far(has_socket_dir, events);
    lemma_server_push(has_socket_dir, events, ServerEvent::Failed);
}

/// A socket whose path has no directory part ends the server once the session directory is
/// secured.
pub proof fn law_socket_needs_a_directory()
    ensures
        ({
            let secured = seq![ServerEvent::Done].push(ServerEvent::Done);
            &&& server_answered(false, secured)
            &&& server_reached(false, secured).1 == ServerAction::Fail(ServeError::NoSocketDir)
        }),
{
    let none = Seq::<ServerEvent>::empty();
    lemma_server_push(false, none, ServerEvent::Done);
    assert(none.push(ServerEvent::Done) =~= seq![ServerEvent::Done]);
    lemma_server_push(false, seq![ServerEvent::Done], ServerEvent::Done);
}

/// How many connections came.
pub open spec fn connections(events: Seq<ServerEvent>) -> nat
    decreases events.len(),
{
    if events.len() == 0 {
        0
    } else {
        connections(events.drop_last()) + if events.last() == ServerEvent::Accepted {
            1nat
        } else {
            0
        }
    }
}

/// How often an action was asked for.
pub open spec fn times_asked(
    has_socket_dir: bool,
    events: Seq<ServerEvent>,
    action: ServerAction,
) -> nat
    decreases events.len(),
{
    let here: nat = if server_reached(has_socket_dir, events).1 == action {
        1
    } else {
        0
    };
    if events.len() == 0 {
        here
    } else {
        times_asked(has_socket_dir, events.drop_last(), action) + here
    }
}

/// How many more events, connections aside, the server can take in.
spec fn server_left(state: ServerState) -> nat {
    match state {
        ServerState::CreatingSessionDir => 10,
        ServerState::SecuringSessionDir => 9,
        ServerState::CreatingSocketDir => 8,
        ServerState::CheckingSocket => 7,
        ServerState::RemovingStaleSocket => 6,
        ServerState::Binding => 5,
        ServerState::SecuringSocket => 4,
        ServerState::Authenticating => 3,
        ServerState::Listening => 2,
        ServerState::Stopping => 1,
        ServerState::Stopped => 0,
    }
}

/// Connections aside, the server comes to its end after at most ten events: it cannot linger in
/// its start or in its end. It asks for a first session at most once, and has done so exactly once
/// when it listens; and it begins to listen at most once.
pub proof fn law_server_goes_on(has_socket_dir: bool, events: Seq<ServerEvent>)
    requires
        server_answered(has_socket_dir, events),
    ensures
        events.len() <= 10 + connections(events),
        times_asked(has_socket_dir, events, ServerAction::Authenticate) <= 1,
        times_asked(has_socket_dir, events, ServerAction::StartListening) <= 1,
        ({
            let action = server_reached(has_socket_dir, events).1;
            action == ServerAction::StartListening || action == ServerAction::ServeConnection
        }) ==> times_asked(has_socket_dir, events, ServerAction::Authenticate) == 1,
{
    lemma_server_goes_on(has_socket_dir, events);
}

proof fn lemma_server_goes_on(has_socket_dir: bool, events: Seq<ServerEvent>)
    requires
        server_answered(has_socket_dir, events),
    ensures
        ({
            let (state, action) = server_reached(has_socket_dir, events);
            let first = times_asked(has_socket_dir, events, ServerAction::Authenticate);
            let listen = times_asked(has_socket_dir, events, ServerAction::StartListening);
            &&& events.len() + server_left(state) <= 10 + connections(events)
            &&& secured_so_far(has_socket_dir, events)
            &&& server_left(state) > 3 ==> first == 0
            &&& state == ServerState::Authenticating || state == ServerState::Listening || state
                == ServerState::Stopping ==> first == 1
            &&& first <= 1
            &&& server_left(state) > 2 ==> listen == 0
            &&& listen <= 1
        }),
    decreases events.len(),
{
    if events.len() > 0 {
        lemma_server_goes_on(has_socket_dir, events.drop_last());
    }
}

/// What each error of the server says.
pub proof fn law_texts_of_server_errors()
    ensures
        ServeError::CannotCreateSessionDir.text() == "Unable to create session directory"@,
        ServeError::CannotSecureSessionDir.text() == "Unable to secure session directory"@,
        ServeError::NoSocketDir.text() == "Socket path has no parent directory"@,
        ServeError::CannotCreateSocketDir.text() == "Unable to create socket directory"@,
        ServeError::CannotRemoveStaleSocket.text() == "Unable to remove stale broker socket"@,
        ServeError::CannotBind.text() == "Unable to bind broker socket"@,
        ServeError::CannotSecureSocket.text() == "Unable to set broker socket permissions"@,
        ServeError::CannotAccept.text() == "Unable to accept broker connection"@,
        ServeError::CannotListenForShutdown.text() == "Unable to listen for shutdown signal"@,
{
}

} // verus!
