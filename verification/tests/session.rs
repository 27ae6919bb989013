use robrix_sync::login::{
    has_password_flow, login_start, login_step, Cli, LoginAction, LoginError, LoginEvent, LoginFlow, LoginState,
};
use robrix_sync::main_loop::{
    main_loop_start, main_loop_step, sync_settings, MainLoopAction, MainLoopError, MainLoopEvent, MainLoopState,
    StateEventKind,
};
use robrix_sync::monitor::{on_task_end, MonitoredTask, TaskEnd};
use robrix_sync::rooms_list::RoomsListUpdate;

type Action = LoginAction<&'static str>;

fn cli() -> Cli {
    Cli {
        user_name: "alice".to_string(),
        password: "pass".to_string(),
        homeserver: None,
        proxy: None,
        verbose: false,
    }
}

fn status(update: Option<RoomsListUpdate>) -> String {
    match update {
        Some(RoomsListUpdate::Status { status }) => status,
        _ => panic!("a status was expected"),
    }
}

#[test]
fn login_starts_with_the_default_homeserver() {
    let (state, action): (LoginState, Action) = login_start(&cli());
    assert_eq!(state, LoginState::BuildingClient);
    match action {
        LoginAction::BuildClient { homeserver_url, proxy, timeout_secs } => {
            assert_eq!(homeserver_url, "https://matrix-client.matrix.org/");
            assert_eq!(proxy, None);
            assert_eq!(timeout_secs, 60);
        }
        _ => panic!("a client was expected"),
    }
}

#[test]
fn given_homeserver_and_proxy_are_used() {
    let mut given = cli();
    given.homeserver = Some("https://example.org/".to_string());
    given.proxy = Some("http://localhost:8080/".to_string());
    let (_, action): (LoginState, Action) = login_start(&given);
    match action {
        LoginAction::BuildClient { homeserver_url, proxy, .. } => {
            assert_eq!(homeserver_url, "https://example.org/");
            assert_eq!(proxy, Some("http://localhost:8080/".to_string()));
        }
        _ => panic!("a client was expected"),
    }
}

#[test]
fn successful_login() {
    let (state, _): (LoginState, Action) = login_start(&cli());
    let (state, action): (LoginState, Action) = login_step(&cli(), state, LoginEvent::ClientBuilt);
    assert!(matches!(action, LoginAction::QueryFlows));
    let flows = vec![LoginFlow::Other, LoginFlow::Password];
    let (state, action): (LoginState, Action) = login_step(&cli(), state, LoginEvent::Flows(flows));
    match action {
        LoginAction::SendCredentials { user_name, password, device_display_name } => {
            assert_eq!(user_name, "alice");
            assert_eq!(password, "pass");
            assert_eq!(device_display_name, "robrix-un-pw");
        }
        _ => panic!("credentials were expected"),
    }
    let replied = LoginEvent::Replied { logged_in: true, reply: "Response".to_string() };
    let (state, action): (LoginState, Action) = login_step(&cli(), state, replied);
    assert_eq!(state, LoginState::Done);
    match action {
        LoginAction::Finish { status: shown, result } => {
            assert_eq!(status(shown), "Logged in as alice. Loading rooms...");
            assert!(matches!(result, Ok(())));
        }
        _ => panic!("an end was expected"),
    }
}

#[test]
fn login_needs_the_password_flow() {
    let flows = LoginEvent::Flows(vec![LoginFlow::Other, LoginFlow::Other]);
    let (state, action): (LoginState, Action) = login_step(&cli(), LoginState::QueryingFlows, flows);
    assert_eq!(state, LoginState::Done);
    match action {
        LoginAction::Finish { status: None, result: Err(LoginError::GivenUp(reason)) } => {
            assert_eq!(reason, "Server does not support username + password login flow.");
        }
        _ => panic!("an end was expected"),
    }
    assert!(!has_password_flow(&vec![]));
    assert!(has_password_flow(&vec![LoginFlow::Password]));
}

#[test]
fn rejected_login() {
    let replied = LoginEvent::Replied { logged_in: false, reply: "Response { .. }".to_string() };
    let (state, action): (LoginState, Action) = login_step(&cli(), LoginState::SendingCredentials, replied);
    assert_eq!(state, LoginState::Done);
    match action {
        LoginAction::Finish { status: shown, result: Err(LoginError::GivenUp(reason)) } => {
            assert_eq!(status(shown), "Failed to login as alice: Response { .. }");
            assert_eq!(reason, "Failed to login as alice: Response { .. }");
        }
        _ => panic!("an end was expected"),
    }
}

#[test]
fn failures_end_the_login() {
    for state in [LoginState::BuildingClient, LoginState::QueryingFlows, LoginState::SendingCredentials] {
        let (next, action): (LoginState, Action) = login_step(&cli(), state, LoginEvent::Failed("offline"));
        assert_eq!(next, LoginState::Done);
        assert!(matches!(
            action,
            LoginAction::Finish { status: None, result: Err(LoginError::Failed("offline")) }
        ));
    }
}

type Event = MainLoopEvent<u32, &'static str, u8>;

#[test]
fn main_loop_runs_until_the_sync_ends() {
    let (state, update) = main_loop_start(&"alice".to_string());
    assert_eq!(status(Some(update)), "Logging in as alice...");
    let (state, action) = main_loop_step(state, Event::LoginEnded(Ok(())));
    assert!(matches!(action, MainLoopAction::Connect(_)));
    let (state, action) = main_loop_step(state, Event::ConnectEnded(Ok(())));
    assert!(matches!(action, MainLoopAction::Await));
    let (state, action) = main_loop_step(state, Event::SyncItem(Some(Ok(4))));
    assert!(matches!(action, MainLoopAction::TakeIn(4)));
    let (state, action) = main_loop_step(state, Event::SyncItem(Some(Err("slow"))));
    assert!(matches!(action, MainLoopAction::PassOver("slow")));
    assert_eq!(state, MainLoopState::Syncing);
    let (state, action) = main_loop_step(state, Event::SyncItem(None));
    assert_eq!(state, MainLoopState::Done);
    match action {
        MainLoopAction::Finish(MainLoopError::UnexpectedEnd(reason)) => {
            assert_eq!(reason, "unexpected return from async_main_loop!");
        }
        _ => panic!("an end was expected"),
    }
}

#[test]
fn failures_before_the_sync_end_the_main_loop() {
    let (state, action) = main_loop_step(MainLoopState::LoggingIn, Event::LoginEnded(Err(1)));
    assert_eq!(state, MainLoopState::Done);
    assert!(matches!(action, MainLoopAction::Finish(MainLoopError::Failed(1))));
    let (state, action) = main_loop_step(MainLoopState::Connecting, Event::ConnectEnded(Err(2)));
    assert_eq!(state, MainLoopState::Done);
    assert!(matches!(action, MainLoopAction::Finish(MainLoopError::Failed(2))));
}

#[test]
fn settings_of_the_sync() {
    let settings = sync_settings();
    assert_eq!(settings.connection_name, "main-sync");
    assert_eq!(settings.proxy_url, "https://slidingsync.lab.matrix.org");
    assert_eq!(settings.list_name, "VisibleRooms");
    assert_eq!(settings.sort, vec!["by_recency".to_string()]);
    assert_eq!(settings.page_size, 5);
    assert_eq!(settings.max_rooms, 50);
    assert_eq!(settings.timeline_limit, 20);
    assert_eq!(settings.not_room_types, vec!["m.space".to_string()]);
    assert_eq!(
        settings.required_state,
        vec![
            (StateEventKind::RoomEncryption, "".to_string()),
            (StateEventKind::RoomMember, "$LAZY".to_string()),
            (StateEventKind::RoomMember, "$ME".to_string()),
            (StateEventKind::RoomCreate, "".to_string()),
            (StateEventKind::RoomName, "".to_string()),
            (StateEventKind::RoomAvatar, "".to_string()),
        ]
    );
    assert!(settings.account_data && settings.e2ee && settings.to_device);
}

#[test]
fn reports_of_the_monitor() {
    let report = |task, end| on_task_end(task, end);
    assert_eq!(report(MonitoredTask::MainLoop, TaskEnd::Finished), "BUG: main async loop task ended unexpectedly!");
    assert_eq!(
        report(MonitoredTask::MainLoop, TaskEnd::Failed("e".to_string())),
        "Main async loop task ended with error:\n --> e"
    );
    assert_eq!(
        report(MonitoredTask::MainLoop, TaskEnd::JoinFailed("e".to_string())),
        "BUG: failed to join main async loop task: e"
    );
    assert_eq!(report(MonitoredTask::Worker, TaskEnd::Finished), "BUG: async worker task ended unexpectedly!");
    assert_eq!(
        report(MonitoredTask::Worker, TaskEnd::Failed("e".to_string())),
        "async worker task ended with error:\n --> e"
    );
    assert_eq!(
        report(MonitoredTask::Worker, TaskEnd::JoinFailed("e".to_string())),
        "BUG: failed to join async worker task: e"
    );
}
