//! Laws of logging in, of the main loop and of the monitor.

use vstd::prelude::*;

use crate::login::{
    has_password_flow, login_start, login_step, Cli, LoginAction, LoginError, LoginEvent, LoginFlow, LoginState,
};
use crate::main_loop::{
    main_loop_start, main_loop_step, state_keys, sync_settings, texts, MainLoopAction, MainLoopError, MainLoopEvent,
    MainLoopState, StateEventKind, SyncSettings,
};
use crate::monitor::{on_task_end, MonitoredTask, TaskEnd};
use crate::rooms_list::RoomsListUpdate;

verus! {

/// A login starts by building a client for the server that the user named, or
/// for the usual one, through the user's proxy if there is one.
pub proof fn law_login_starts_with_the_client<E>(cli: Cli, started: (LoginState, LoginAction<E>))
    requires
        call_ensures(login_start::<E>, (&cli,), started),
    ensures
        started.0 is BuildingClient,
        started.1 matches LoginAction::BuildClient { homeserver_url, proxy, timeout_secs }
            && timeout_secs == 60 && proxy is Some == cli.proxy is Some && (proxy is Some
            ==> proxy->0@ == cli.proxy->0@) && (cli.homeserver is Some ==> homeserver_url@
            == cli.homeserver->0@) && (cli.homeserver is None ==> homeserver_url@
            == "https://matrix-client.matrix.org/"@),
{
}

/// A password can be used exactly where one of the ways to log in is by a
/// password, wherever it stands among them.
pub proof fn law_password_flow_is_found_anywhere(flows: Vec<LoginFlow>, offered: bool)
    requires
        call_ensures(has_password_flow, (&flows,), offered),
    ensures
        forall|i: int|
            0 <= i < flows@.len() && #[trigger] flows@[i] == LoginFlow::Password ==> offered,
        offered ==> exists|i: int|
            0 <= i < flows@.len() && #[trigger] flows@[i] == LoginFlow::Password,
{
}

/// In which order a server lists the ways to log in, and how often it lists one,
/// makes no difference.
pub proof fn law_order_of_flows_does_not_matter(
    flows: Vec<LoginFlow>,
    offered: bool,
    others: Vec<LoginFlow>,
    others_offered: bool,
)
    requires
        call_ensures(has_password_flow, (&flows,), offered),
        call_ensures(has_password_flow, (&others,), others_offered),
        forall|flow: LoginFlow| flows@.contains(flow) == others@.contains(flow),
    ensures
        offered == others_offered,
{
    assert(flows@.contains(LoginFlow::Password) == others@.contains(LoginFlow::Password));
}

/// A login can be told of what was asked for, and of a failure of it.
pub proof fn law_login_takes_what_was_asked_for<E>(
    cli: Cli,
    flows: Vec<LoginFlow>,
    logged_in: bool,
    reply: String,
    state: LoginState,
    error: E,
)
    ensures
        call_requires(
            login_step::<E>,
            (&cli, LoginState::BuildingClient, LoginEvent::ClientBuilt),
        ),
        call_requires(
            login_step::<E>,
            (&cli, LoginState::QueryingFlows, LoginEvent::Flows(flows)),
        ),
        call_requires(
            login_step::<E>,
            (&cli, LoginState::SendingCredentials, LoginEvent::Replied { logged_in, reply }),
        ),
        state is BuildingClient || state is QueryingFlows || state is SendingCredentials
            ==> call_requires(login_step::<E>, (&cli, state, LoginEvent::Failed(error))),
{
}

/// Once the client is built, the server is asked how to log in.
pub proof fn law_built_client_queries_flows<E>(
    cli: Cli,
    state: LoginState,
    next: (LoginState, LoginAction<E>),
)
    requires
        call_ensures(login_step::<E>, (&cli, state, LoginEvent::ClientBuilt), next),
    ensures
        next.0 is QueryingFlows,
        next.1 is QueryFlows,
{
}

/// The user's credentials are sent wherever one of the ways to log in is by a
/// password, at whatever place among them.
pub proof fn law_offered_password_is_used<E>(
    cli: Cli,
    state: LoginState,
    flows: Vec<LoginFlow>,
    i: int,
    next: (LoginState, LoginAction<E>),
)
    requires
        0 <= i < flows@.len(),
        flows@[i] == LoginFlow::Password,
        call_ensures(login_step::<E>, (&cli, state, LoginEvent::Flows(flows)), next),
    ensures
        next.0 is SendingCredentials,
        next.1 matches LoginAction::SendCredentials { user_name, password, device_display_name }
            && user_name@ == cli.user_name@ && password@ == cli.password@
            && device_display_name@ == "robrix-un-pw"@,
{
}

/// Where no way to log in is by a password, the login is given up, without a
/// status.
pub proof fn law_no_password_flow_gives_up<E>(
    cli: Cli,
    state: LoginState,
    flows: Vec<LoginFlow>,
    next: (LoginState, LoginAction<E>),
)
    requires
        forall|i: int| 0 <= i < flows@.len() ==> #[trigger] flows@[i] != LoginFlow::Password,
        call_ensures(login_step::<E>, (&cli, state, LoginEvent::Flows(flows)), next),
    ensures
        next.0 is Done,
        next.1 matches LoginAction::Finish {
            status: None,
            result: Err(LoginError::GivenUp(reason)),
        } && reason@ == "Server does not support username + password login flow."@,
{
}

/// A login that the server accepted succeeds, and the user is told.
pub proof fn law_accepted_login_succeeds<E>(
    cli: Cli,
    state: LoginState,
    reply: String,
    next: (LoginState, LoginAction<E>),
)
    requires
        call_ensures(
            login_step::<E>,
            (&cli, state, LoginEvent::Replied { logged_in: true, reply }),
            next,
        ),
    ensures
        next.0 is Done,
        next.1 matches LoginAction::Finish {
            status: Some(RoomsListUpdate::Status { status }),
            result: Ok(_),
        } && status@ == "Logged in as "@ + cli.user_name@ + ". Loading rooms..."@,
{
}

/// A login that the server did not accept is given up, and the user is told the
/// reason, which holds the reply.
pub proof fn law_refused_login_gives_up<E>(
    cli: Cli,
    state: LoginState,
    reply: String,
    next: (LoginState, LoginAction<E>),
)
    requires
        call_ensures(
            login_step::<E>,
            (&cli, state, LoginEvent::Replied { logged_in: false, reply }),
            next,
        ),
    ensures
        next.0 is Done,
        next.1 matches LoginAction::Finish {
            status: Some(RoomsListUpdate::Status { status }),
            result: Err(LoginError::GivenUp(reason)),
        } && reason@ == "Failed to login as "@ + cli.user_name@ + ": "@ + reply@ && status@
            == reason@,
{
}

/// A failure ends the login with the error that came, without a status.
pub proof fn law_failure_ends_the_login<E>(
    cli: Cli,
    state: LoginState,
    error: E,
    next: (LoginState, LoginAction<E>),
)
    requires
        call_ensures(login_step::<E>, (&cli, state, LoginEvent::Failed(error)), next),
    ensures
        next.0 is Done,
        next.1 matches LoginAction::Finish { status: None, result: Err(LoginError::Failed(given)) }
            && given == error,
{
}

/// Rooms are asked for by recency, in pages of five up to fifty, twenty events of
/// each, without spaces, with all that the client makes use of.
pub proof fn law_settings_ask_for_recent_rooms(settings: SyncSettings)
    requires
        call_ensures(sync_settings, (), settings),
    ensures
        settings.connection_name@ == "main-sync"@,
        settings.proxy_url@ == "https://slidingsync.lab.matrix.org"@,
        settings.list_name@ == "VisibleRooms"@,
        settings.sort@.len() == 1 && settings.sort@[0]@ == "by_recency"@,
        settings.page_size == 5,
        settings.max_rooms == 50,
        settings.timeline_limit == 20,
        settings.not_room_types@.len() == 1 && settings.not_room_types@[0]@ == "m.space"@,
        settings.account_data && settings.e2ee && settings.to_device,
{
    assert(texts(settings.sort@).len() == settings.sort@.len());
    assert(texts(settings.not_room_types@).len() == settings.not_room_types@.len());
    assert(texts(settings.sort@)[0] == settings.sort@[0]@);
    assert(texts(settings.not_room_types@)[0] == settings.not_room_types@[0]@);
}

/// Of each room these state events are asked for, in this order: its encryption,
/// the members that sent events and the user's own, its creation, its name and
/// its avatar.
pub proof fn law_settings_ask_for_state(settings: SyncSettings)
    requires
        call_ensures(sync_settings, (), settings),
    ensures
        settings.required_state@.len() == 6,
        settings.required_state@[0].0 is RoomEncryption && settings.required_state@[0].1@ == ""@,
        settings.required_state@[1].0 is RoomMember && settings.required_state@[1].1@ == "$LAZY"@,
        settings.required_state@[2].0 is RoomMember && settings.required_state@[2].1@ == "$ME"@,
        settings.required_state@[3].0 is RoomCreate && settings.required_state@[3].1@ == ""@,
        settings.required_state@[4].0 is RoomName && settings.required_state@[4].1@ == ""@,
        settings.required_state@[5].0 is RoomAvatar && settings.required_state@[5].1@ == ""@,
{
    let asked = state_keys(settings.required_state@);
    assert(asked.len() == 6);
    assert(forall|i: int|
        0 <= i < 6 ==> #[trigger] asked[i] == (
            settings.required_state@[i].0,
            settings.required_state@[i].1@,
        ));
    assert(asked[0] == (StateEventKind::RoomEncryption, ""@));
    assert(asked[1] == (StateEventKind::RoomMember, "$LAZY"@));
    assert(asked[2] == (StateEventKind::RoomMember, "$ME"@));
    assert(asked[3] == (StateEventKind::RoomCreate, ""@));
    assert(asked[4] == (StateEventKind::RoomName, ""@));
    assert(asked[5] == (StateEventKind::RoomAvatar, ""@));
}

/// The main loop starts by logging in, and the user is told so.
pub proof fn law_main_loop_starts_with_the_login(
    user_name: String,
    started: (MainLoopState, RoomsListUpdate),
)
    requires
        call_ensures(main_loop_start, (&user_name,), started),
    ensures
        started.0 is LoggingIn,
        started.1 matches RoomsListUpdate::Status { status } && status@ == "Logging in as "@
            + user_name@ + "..."@,
{
}

/// The main loop can be told of the end of what it waits for, however it ended.
pub proof fn law_main_loop_takes_what_it_waits_for<U, S, E>(
    ended: Result<(), E>,
    item: Option<Result<U, S>>,
)
    ensures
        call_requires(
            main_loop_step::<U, S, E>,
            (MainLoopState::LoggingIn, MainLoopEvent::LoginEnded(ended)),
        ),
        call_requires(
            main_loop_step::<U, S, E>,
            (MainLoopState::Connecting, MainLoopEvent::ConnectEnded(ended)),
        ),
        call_requires(
            main_loop_step::<U, S, E>,
            (MainLoopState::Syncing, MainLoopEvent::SyncItem(item)),
        ),
{
}

/// After a login that succeeded, the sync is connected to, and rooms are asked
/// for as the settings say.
pub proof fn law_login_leads_to_connecting<U, S, E>(
    state: MainLoopState,
    next: (MainLoopState, MainLoopAction<U, S, E>),
    settings: SyncSettings,
)
    requires
        call_ensures(
            main_loop_step::<U, S, E>,
            (state, MainLoopEvent::LoginEnded(Ok(()))),
            next,
        ),
        call_ensures(sync_settings, (), settings),
    ensures
        next.0 is Connecting,
        next.1 matches MainLoopAction::Connect(asked) && asked.connection_name@
            == settings.connection_name@ && asked.proxy_url@ == settings.proxy_url@
            && asked.list_name@ == settings.list_name@ && asked.page_size == settings.page_size
            && asked.max_rooms == settings.max_rooms && asked.timeline_limit
            == settings.timeline_limit && asked.account_data == settings.account_data && asked.e2ee
            == settings.e2ee && asked.to_device == settings.to_device,
        next.1 matches MainLoopAction::Connect(asked) && asked.sort@.len() == settings.sort@.len()
            && forall|i: int|
            0 <= i < asked.sort@.len() ==> (#[trigger] asked.sort@[i])@ == settings.sort@[i]@,
        next.1 matches MainLoopAction::Connect(asked) && asked.not_room_types@.len()
            == settings.not_room_types@.len() && forall|i: int|
            0 <= i < asked.not_room_types@.len() ==> (#[trigger] asked.not_room_types@[i])@
                == settings.not_room_types@[i]@,
        next.1 matches MainLoopAction::Connect(asked) && asked.required_state@.len()
            == settings.required_state@.len() && forall|i: int|
            0 <= i < asked.required_state@.len() ==> (#[trigger] asked.required_state@[i]).0
                == settings.required_state@[i].0 && asked.required_state@[i].1@
                == settings.required_state@[i].1@,
{
    let asked = next.1->Connect_0;
    assert(texts(asked.sort@).len() == texts(settings.sort@).len());
    assert(texts(asked.not_room_types@).len() == texts(settings.not_room_types@).len());
    assert forall|i: int| 0 <= i < asked.sort@.len() implies (#[trigger] asked.sort@[i])@
        == settings.sort@[i]@ by {
        assert(texts(asked.sort@)[i] == texts(settings.sort@)[i]);
    }
    assert forall|i: int| 0 <= i < asked.not_room_types@.len() implies (
    #[trigger] asked.not_room_types@[i])@ == settings.not_room_types@[i]@ by {
        assert(texts(asked.not_room_types@)[i] == texts(settings.not_room_types@)[i]);
    }
    assert(state_keys(asked.required_state@).len() == state_keys(settings.required_state@).len());
    assert forall|i: int| 0 <= i < asked.required_state@.len() implies (
    #[trigger] asked.required_state@[i]).0 == settings.required_state@[i].0
        && asked.required_state@[i].1@ == settings.required_state@[i].1@ by {
        assert(state_keys(asked.required_state@)[i] == state_keys(settings.required_state@)[i]);
    }
}

/// After a connection that succeeded, the main loop waits for what the sync
/// gives.
pub proof fn law_connecting_leads_to_waiting<U, S, E>(
    state: MainLoopState,
    next: (MainLoopState, MainLoopAction<U, S, E>),
)
    requires
        call_ensures(
            main_loop_step::<U, S, E>,
            (state, MainLoopEvent::ConnectEnded(Ok(()))),
            next,
        ),
    ensures
        next.0 is Syncing,
        next.1 is Await,
{
}

/// A login or a connection that failed ends the main loop with the error that
/// came.
pub proof fn law_failure_ends_the_main_loop<U, S, E>(
    state: MainLoopState,
    event: MainLoopEvent<U, S, E>,
    error: E,
    next: (MainLoopState, MainLoopAction<U, S, E>),
)
    requires
        event == MainLoopEvent::<U, S, E>::LoginEnded(Err(error)) || event == MainLoopEvent::<
            U,
            S,
            E,
        >::ConnectEnded(Err(error)),
        call_ensures(main_loop_step::<U, S, E>, (state, event), next),
    ensures
        next.0 is Done,
        next.1 matches MainLoopAction::Finish(MainLoopError::Failed(given)) && given == error,
{
}

/// Every update that the sync gives is taken in, every error is passed over, and
/// the sync goes on after either.
pub proof fn law_sync_goes_on<U, S, E>(
    state: MainLoopState,
    item: Result<U, S>,
    next: (MainLoopState, MainLoopAction<U, S, E>),
)
    requires
        call_ensures(
            main_loop_step::<U, S, E>,
            (state, MainLoopEvent::SyncItem(Some(item))),
            next,
        ),
    ensures
        next.0 is Syncing,
        match item {
            Ok(update) => next.1 matches MainLoopAction::TakeIn(taken) && taken == update,
            Err(error) => next.1 matches MainLoopAction::PassOver(passed) && passed == error,
        },
{
}

/// The end of the sync ends the main loop with an error that says so.
pub proof fn law_end_of_sync_is_an_error<U, S, E>(
    state: MainLoopState,
    next: (MainLoopState, MainLoopAction<U, S, E>),
)
    requires
        call_ensures(main_loop_step::<U, S, E>, (state, MainLoopEvent::SyncItem(None)), next),
    ensures
        next.0 is Done,
        next.1 matches MainLoopAction::Finish(MainLoopError::UnexpectedEnd(reason)) && reason@
            == "unexpected return from async_main_loop!"@,
{
}

/// The report on the end of a task tells which task it was and how it ended, and
/// closes with the error if there was one.
pub proof fn law_report_tells_task_and_error(task: MonitoredTask, end: TaskEnd, report: String)
    requires
        call_ensures(on_task_end, (task, end), report),
    ensures
        task is MainLoop && end is Finished ==> report@
            == "BUG: main async loop task ended unexpectedly!"@,
        task is Worker && end is Finished ==> report@
            == "BUG: async worker task ended unexpectedly!"@,
        end matches TaskEnd::Failed(error) ==> report@ == if task is MainLoop {
            "Main async loop task ended with error:\n --> "@
        } else {
            "async worker task ended with error:\n --> "@
        } + error@,
        end matches TaskEnd::JoinFailed(error) ==> report@ == if task is MainLoop {
            "BUG: failed to join main async loop task: "@
        } else {
            "BUG: failed to join async worker task: "@
        } + error@,
{
}

} // verus!
