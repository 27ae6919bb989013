//! Logging in with a user name and a password.

use vstd::prelude::*;

use crate::rooms_list::{text_view, RoomsListUpdate, RoomsListUpdateView};

verus! {

/// What the user gives on the command line.
pub struct Cli {
    /// The user name that should be used for the login.
    pub user_name: String,
    /// The password that should be used for the login.
    pub password: String,
    /// The homeserver to connect to.
    pub homeserver: Option<String>,
    /// Set the proxy that should be used for the connection.
    pub proxy: Option<String>,
    /// Enable verbose logging output.
    pub verbose: bool,
}

/// A way to log in that a server offers.
#[derive(Clone, Copy, Debug, PartialEq, Eq, Structural)]
pub enum LoginFlow {
    /// A user name and a password.
    Password,
    /// Any other.
    Other,
}

/// How far a login has come.
#[derive(Clone, Copy, Debug, PartialEq, Eq, Structural)]
pub enum LoginState {
    /// The client is being built.
    BuildingClient,
    /// The server is being asked for the ways to log in that it offers.
    QueryingFlows,
    /// The user name and the password were sent.
    SendingCredentials,
    /// The login has ended.
    Done,
}

/// What happens during a login.
pub enum LoginEvent<E> {
    /// The client was built.
    ClientBuilt,
    /// The server offers these ways to log in.
    Flows(Vec<LoginFlow>),
    /// The server replied to the credentials as `reply` describes, and the client
    /// is logged in or not.
    Replied { logged_in: bool, reply: String },
    /// What was asked for failed.
    Failed(E),
}

/// Why a login did not succeed.
pub enum LoginError<E> {
    /// What was asked of the client or the server failed.
    Failed(E),
    /// The login was given up, for the reason that the text states.
    GivenUp(String),
}

/// What is to be done next for a login.
pub enum LoginAction<E> {
    /// Build a client that sends its requests to the homeserver, through the
    /// proxy if there is one, and gives each of them `timeout_secs` seconds.
    BuildClient { homeserver_url: String, proxy: Option<String>, timeout_secs: u64 },
    /// Ask the server for the ways to log in that it offers.
    QueryFlows,
    /// Log in with the credentials, as a device of the given name.
    SendCredentials { user_name: String, password: String, device_display_name: String },
    /// End. Where there is a status, tell the list of rooms about it first.
    Finish { status: Option<RoomsListUpdate>, result: Result<(), LoginError<E>> },
}

/// Whether one of the ways to log in is by a password.
pub open spec fn offers_password(flows: Seq<LoginFlow>) -> bool {
    flows.contains(LoginFlow::Password)
}

/// Whether an event can happen when a login has come so far.
pub open spec fn login_expects<E>(state: LoginState, event: LoginEvent<E>) -> bool {
    match event {
        LoginEvent::ClientBuilt => state is BuildingClient,
        LoginEvent::Flows(_) => state is QueryingFlows,
        LoginEvent::Replied { .. } => state is SendingCredentials,
        LoginEvent::Failed(_) => !(state is Done),
    }
}

/// How far a login has come after an event.
pub open spec fn login_state_after<E>(event: LoginEvent<E>) -> LoginState {
    match event {
        LoginEvent::ClientBuilt => LoginState::QueryingFlows,
        LoginEvent::Flows(flows) if offers_password(flows@) => LoginState::SendingCredentials,
        _ => LoginState::Done,
    }
}

/// The address of the server that is asked where none is given.
pub open spec fn default_homeserver() -> Seq<char> {
    "https://matrix-client.matrix.org/"@
}

/// Starts a login.
pub fn login_start<E>(cli: &Cli) -> (started: (LoginState, LoginAction<E>))
    ensures
        started.0 is BuildingClient,
        started.1 matches LoginAction::BuildClient { homeserver_url, proxy, timeout_secs }
            && homeserver_url@ == match cli.homeserver {
            Some(url) => url@,
            None => default_homeserver(),
        } && text_view(proxy) == text_view(cli.proxy) && timeout_secs == 60,
{
    let homeserver_url = match &cli.homeserver {
        Some(url) => url.clone(),
        None => "https://matrix-client.matrix.org/".to_string(),
    };
    (
        LoginState::BuildingClient,
        LoginAction::BuildClient { homeserver_url, proxy: cli.proxy.clone(), timeout_secs: 60 },
    )
}

/// Whether one of the ways to log in that a server offers is by a password.
pub fn has_password_flow(flows: &Vec<LoginFlow>) -> (offered: bool)
    ensures
        offered == offers_password(flows@),
{
    let mut i: usize = 0;
    while i < flows.len()
        invariant
            0 <= i <= flows.len(),
            forall|j: int| 0 <= j < i ==> flows@[j] != LoginFlow::Password,
        decreases flows.len() - i,
    {
        if flows[i] == LoginFlow::Password {
            assert(flows@[i as int] == LoginFlow::Password);
            return true;
        }
        i += 1;
    }
    false
}

/// What is said of a login that the server did not accept.
pub open spec fn failed_login_text(user_name: Seq<char>, reply: Seq<char>) -> Seq<char> {
    "Failed to login as "@ + user_name + ": "@ + reply
}

/// What is said of a login that succeeded.
pub open spec fn logged_in_text(user_name: Seq<char>) -> Seq<char> {
    "Logged in as "@ + user_name + ". Loading rooms..."@
}

/// Decides what follows from an event of a login.
pub fn login_step<E>(cli: &Cli, state: LoginState, event: LoginEvent<E>) -> (next: (
    LoginState,
    LoginAction<E>,
))
    requires
        login_expects(state, event),
    ensures
        next.0 == login_state_after(event),
        match event {
            LoginEvent::ClientBuilt => next.1 is QueryFlows,
            LoginEvent::Flows(flows) => if offers_password(flows@) {
                next.1 matches LoginAction::SendCredentials {
                    user_name,
                    password,
                    device_display_name,
                } && user_name@ == cli.user_name@ && password@ == cli.password@
                    && device_display_name@ == "robrix-un-pw"@
            } else {
                &&& next.1 matches LoginAction::Finish { status: None, result }
                &&& result matches Err(LoginError::GivenUp(reason))
                &&& reason@ == "Server does not support username + password login flow."@
            },
            LoginEvent::Replied { logged_in, reply } => next.1 matches LoginAction::Finish {
                status,
                result,
            } && status matches Some(update) && if logged_in {
                &&& update@ == (RoomsListUpdateView::Status {
                    status: logged_in_text(cli.user_name@),
                })
                &&& result == Ok::<(), LoginError<E>>(())
            } else {
                &&& update@ == (RoomsListUpdateView::Status {
                    status: failed_login_text(cli.user_name@, reply@),
                })
                &&& result matches Err(LoginError::GivenUp(reason)) && reason@
                    == failed_login_text(cli.user_name@, reply@)
            },
            LoginEvent::Failed(error) => next.1 == (LoginAction::<E>::Finish {
                status: None,
                result: Err(LoginError::Failed(error)),
            }),
        },
{
    match event {
        LoginEvent::ClientBuilt => (LoginState::QueryingFlows, LoginAction::QueryFlows),
        LoginEvent::Flows(flows) => {
            if has_password_flow(&flows) {
                (
                    LoginState::SendingCredentials,
                    LoginAction::SendCredentials {
                        user_name: cli.user_name.clone(),
                        password: cli.password.clone(),
                        device_display_name: "robrix-un-pw".to_string(),
                    },
                )
            } else {
                let reason = "Server does not support username + password login flow.".to_string();
                (
                    LoginState::Done,
                    LoginAction::Finish { status: None, result: Err(LoginError::GivenUp(reason)) },
                )
            }
        },
        LoginEvent::Replied { logged_in, reply } => {
            if logged_in {
                let status = "Logged in as ".to_string().concat(cli.user_name.as_str()).concat(
                    ". Loading rooms...",
                );
                (
                    LoginState::Done,
                    LoginAction::Finish {
                        status: Some(RoomsListUpdate::Status { status }),
                        result: Ok(()),
                    },
                )
            } else {
                let reason = "Failed to login as ".to_string().concat(
                    cli.user_name.as_str(),
                ).concat(": ").concat(reply.as_str());
                (
                    LoginState::Done,
                    LoginAction::Finish {
                        status: Some(RoomsListUpdate::Status { status: reason.clone() }),
                        result: Err(LoginError::GivenUp(reason)),
                    },
                )
            }
        },
        LoginEvent::Failed(error) => (
            LoginState::Done,
            LoginAction::Finish { status: None, result: Err(LoginError::Failed(error)) },
        ),
    }
}

/// How far a login has come after a sequence of events.
pub open spec fn login_state_after_all<E>(events: Seq<LoginEvent<E>>) -> LoginState {
    if events.len() == 0 {
        LoginState::BuildingClient
    } else {
        login_state_after(events.last())
    }
}

/// Whether a login can go through a sequence of events.
pub open spec fn is_login_run<E>(events: Seq<LoginEvent<E>>) -> bool {
    forall|i: int|
        0 <= i < events.len() ==> login_expects(
            login_state_after_all(events.take(i)),
            #[trigger] events[i],
        )
}

/// A reply to credentials comes only after the server was found to offer the
/// password flow: credentials are not sent otherwise.
pub proof fn law_credentials_need_password_flow<E>(events: Seq<LoginEvent<E>>, n: int)
    requires
        is_login_run(events),
        0 <= n < events.len(),
        events[n] is Replied,
    ensures
        n == 2,
        events[0] is ClientBuilt,
        events[1] matches LoginEvent::Flows(flows) && offers_password(flows@),
{
    assert(login_expects(login_state_after_all(events.take(n)), events[n]));
    assert(n > 0);
    assert(events.take(n).last() == events[n - 1]);
    assert(events[n - 1] is Flows);
    assert(login_expects(login_state_after_all(events.take(n - 1)), events[n - 1]));
    assert(n - 1 > 0);
    assert(events.take(n - 1).last() == events[n - 2]);
    assert(login_expects(login_state_after_all(events.take(n - 2)), events[n - 2]));
    if n - 2 > 0 {
        assert(events.take(n - 2).last() == events[n - 3]);
    }
}

/// A login ends: it goes through three events at most.
pub proof fn law_login_ends<E>(events: Seq<LoginEvent<E>>)
    requires
        is_login_run(events),
    ensures
        events.len() <= 3,
{
    if events.len() > 3 {
        assert(events[0] is ClientBuilt || events[0] is Failed) by {
            assert(login_expects(login_state_after_all(events.take(0)), events[0]));
        }
        assert(login_expects(login_state_after_all(events.take(1)), events[1]));
        assert(events.take(1).last() == events[0]);
        assert(login_expects(login_state_after_all(events.take(2)), events[2]));
        assert(events.take(2).last() == events[1]);
        assert(login_expects(login_state_after_all(events.take(3)), events[3]));
        assert(events.take(3).last() == events[2]);
    }
}

} // verus!
