//! The main loop: log in, connect, take in what the server sends.

use vstd::prelude::*;

use crate::rooms_list::{RoomsListUpdate, RoomsListUpdateView};

verus! {

/// A kind of state event of a room.
#[derive(Clone, Copy, Debug, PartialEq, Eq, Structural)]
pub enum StateEventKind {
    RoomEncryption,
    RoomMember,
    RoomCreate,
    RoomName,
    RoomAvatar,
}

/// How the client asks for rooms.
pub struct SyncSettings {
    /// The name of the connection.
    pub connection_name: String,
    /// The address of the proxy that the sync goes through.
    pub proxy_url: String,
    /// The name of the list of rooms.
    pub list_name: String,
    /// How the list is sorted.
    pub sort: Vec<String>,
    /// The number of rooms in each page.
    pub page_size: u32,
    /// The number of rooms to fetch at most.
    pub max_rooms: u32,
    /// The number of timeline events for each room to start with.
    pub timeline_limit: u32,
    /// The types of rooms that are left out.
    pub not_room_types: Vec<String>,
    /// The state events, and the keys of theirs, that are wanted at once.
    pub required_state: Vec<(StateEventKind, String)>,
    /// Whether account data is asked for.
    pub account_data: bool,
    /// Whether what end-to-end encryption needs is asked for.
    pub e2ee: bool,
    /// Whether messages to the device are asked for.
    pub to_device: bool,
}

/// The texts of a list of strings.
pub open spec fn texts(strings: Seq<String>) -> Seq<Seq<char>> {
    strings.map_values(|s: String| s@)
}

/// The contents of a list of state events and keys.
pub open spec fn state_keys(required: Seq<(StateEventKind, String)>) -> Seq<
    (StateEventKind, Seq<char>),
> {
    required.map_values(|entry: (StateEventKind, String)| (entry.0, entry.1@))
}

/// Whether rooms are asked for as the client wants them: by recency, in pages of
/// five up to fifty, a few events of each, without spaces.
pub open spec fn is_visible_rooms_sync(settings: SyncSettings) -> bool {
    &&& settings.connection_name@ == "main-sync"@
    &&& settings.proxy_url@ == "https://slidingsync.lab.matrix.org"@
    &&& settings.list_name@ == "VisibleRooms"@
    &&& texts(settings.sort@) == seq!["by_recency"@]
    &&& settings.page_size == 5
    &&& settings.max_rooms == 50
    &&& settings.timeline_limit == 20
    &&& texts(settings.not_room_types@) == seq!["m.space"@]
    &&& state_keys(settings.required_state@) == seq![
        (StateEventKind::RoomEncryption, ""@),
        (StateEventKind::RoomMember, "$LAZY"@),
        (StateEventKind::RoomMember, "$ME"@),
        (StateEventKind::RoomCreate, ""@),
        (StateEventKind::RoomName, ""@),
        (StateEventKind::RoomAvatar, ""@),
    ]
    &&& settings.account_data
    &&& settings.e2ee
    &&& settings.to_device
}

/// Returns how the client asks for rooms.
pub fn sync_settings() -> (settings: SyncSettings)
    ensures
        is_visible_rooms_sync(settings),
{
    let mut sort: Vec<String> = Vec::new();
    // Load the most recent rooms first.
    sort.push("by_recency".to_string());
    let mut not_room_types: Vec<String> = Vec::new();
    // Ignore spaces for now.
    not_room_types.push("m.space".to_string());
    let mut required_state: Vec<(StateEventKind, String)> = Vec::new();
    // Is it encrypted.
    required_state.push((StateEventKind::RoomEncryption, "".to_string()));
    // Lazily fetch room member profiles for users that have sent events.
    required_state.push((StateEventKind::RoomMember, "$LAZY".to_string()));
    // Fetch the profile of the logged-in user.
    required_state.push((StateEventKind::RoomMember, "$ME".to_string()));
    // Room creation type.
    required_state.push((StateEventKind::RoomCreate, "".to_string()));
    // The room's displayable name.
    required_state.push((StateEventKind::RoomName, "".to_string()));
    // Avatar if set.
    required_state.push((StateEventKind::RoomAvatar, "".to_string()));
    let settings = SyncSettings {
        connection_name: "main-sync".to_string(),
        proxy_url: "https://slidingsync.lab.matrix.org".to_string(),
        list_name: "VisibleRooms".to_string(),
        sort,
        page_size: 5,
        max_rooms: 50,
        timeline_limit: 20,
        not_room_types,
        required_state,
        account_data: true,
        e2ee: true,
        to_device: true,
    };
    assert(texts(settings.sort@) =~= seq!["by_recency"@]);
    assert(texts(settings.not_room_types@) =~= seq!["m.space"@]);
    assert(state_keys(settings.required_state@) =~= seq![
        (StateEventKind::RoomEncryption, ""@),
        (StateEventKind::RoomMember, "$LAZY"@),
        (StateEventKind::RoomMember, "$ME"@),
        (StateEventKind::RoomCreate, ""@),
        (StateEventKind::RoomName, ""@),
        (StateEventKind::RoomAvatar, ""@),
    ]);
    settings
}

/// How far the main loop has come.
#[derive(Clone, Copy, Debug, PartialEq, Eq, Structural)]
pub enum MainLoopState {
    /// Logging in.
    LoggingIn,
    /// Connecting to the sync.
    Connecting,
    /// Taking in what the sync gives.
    Syncing,
    /// Ended.
    Done,
}

/// What happens in the main loop. `U` is an update that the sync gives, `S` an
/// error that it gives in place of one, `E` an error that ends the loop.
pub enum MainLoopEvent<U, S, E> {
    /// The login has ended.
    LoginEnded(Result<(), E>),
    /// Connecting to the sync has ended.
    ConnectEnded(Result<(), E>),
    /// The sync gave an update or an error, or is at its end (`None`).
    SyncItem(Option<Result<U, S>>),
}

/// Why the main loop ended. It is meant to run for as long as the client does.
pub enum MainLoopError<E> {
    /// Logging in or connecting failed.
    Failed(E),
    /// The sync came to its end, as the text states.
    UnexpectedEnd(String),
}

/// What the main loop is to do next.
pub enum MainLoopAction<U, S, E> {
    /// Keep the logged-in client for the worker, and connect to the sync.
    Connect(SyncSettings),
    /// Wait for what the sync gives.
    Await,
    /// Take in the update, each of its rooms in order, and wait for what the sync
    /// gives next.
    TakeIn(U),
    /// Pass over the error, and wait for what the sync gives next.
    PassOver(S),
    /// End with an error.
    Finish(MainLoopError<E>),
}

/// Whether an event can happen when the main loop has come so far.
pub open spec fn main_loop_expects<U, S, E>(
    state: MainLoopState,
    event: MainLoopEvent<U, S, E>,
) -> bool {
    match event {
        MainLoopEvent::LoginEnded(_) => state is LoggingIn,
        MainLoopEvent::ConnectEnded(_) => state is Connecting,
        MainLoopEvent::SyncItem(_) => state is Syncing,
    }
}

/// How far the main loop has come after an event.
pub open spec fn main_loop_state_after<U, S, E>(event: MainLoopEvent<U, S, E>) -> MainLoopState {
    match event {
        MainLoopEvent::LoginEnded(Ok(_)) => MainLoopState::Connecting,
        MainLoopEvent::ConnectEnded(Ok(_)) => MainLoopState::Syncing,
        MainLoopEvent::SyncItem(Some(_)) => MainLoopState::Syncing,
        _ => MainLoopState::Done,
    }
}

/// Starts the main loop: returns the status that is shown while logging in.
pub fn main_loop_start(user_name: &String) -> (started: (MainLoopState, RoomsListUpdate))
    ensures
        started.0 is LoggingIn,
        started.1@ == (RoomsListUpdateView::Status {
            status: "Logging in as "@ + user_name@ + "..."@,
        }),
{
    let status = "Logging in as ".to_string().concat(user_name.as_str()).concat("...");
    (MainLoopState::LoggingIn, RoomsListUpdate::Status { status })
}

/// Decides what follows from an event of the main loop. Of what the sync gives,
/// only its end stops the loop.
pub fn main_loop_step<U, S, E>(state: MainLoopState, event: MainLoopEvent<U, S, E>) -> (next: (
    MainLoopState,
    MainLoopAction<U, S, E>,
))
    requires
        main_loop_expects(state, event),
    ensures
        next.0 == main_loop_state_after(event),
        match event {
            MainLoopEvent::LoginEnded(Ok(_)) => {
                &&& next.1 matches MainLoopAction::Connect(settings)
                &&& is_visible_rooms_sync(settings)
            },
            MainLoopEvent::ConnectEnded(Ok(_)) => next.1 is Await,
            MainLoopEvent::LoginEnded(Err(error)) | MainLoopEvent::ConnectEnded(Err(error)) => next.1
                == MainLoopAction::<U, S, E>::Finish(MainLoopError::Failed(error)),
            MainLoopEvent::SyncItem(Some(Ok(update))) => next.1
                == MainLoopAction::<U, S, E>::TakeIn(update),
            MainLoopEvent::SyncItem(Some(Err(error))) => next.1
                == MainLoopAction::<U, S, E>::PassOver(error),
            MainLoopEvent::SyncItem(None) => {
                &&& next.1 matches MainLoopAction::Finish(MainLoopError::UnexpectedEnd(reason))
                &&& reason@ == "unexpected return from async_main_loop!"@
            },
        },
{
    match event {
        MainLoopEvent::LoginEnded(Ok(_)) => (
            MainLoopState::Connecting,
            MainLoopAction::Connect(sync_settings()),
        ),
        MainLoopEvent::ConnectEnded(Ok(_)) => (MainLoopState::Syncing, MainLoopAction::Await),
        MainLoopEvent::LoginEnded(Err(error)) => (
            MainLoopState::Done,
            MainLoopAction::Finish(MainLoopError::Failed(error)),
        ),
        MainLoopEvent::ConnectEnded(Err(error)) => (
            MainLoopState::Done,
            MainLoopAction::Finish(MainLoopError::Failed(error)),
        ),
        MainLoopEvent::SyncItem(Some(Ok(update))) => (
            MainLoopState::Syncing,
            MainLoopAction::TakeIn(update),
        ),
        MainLoopEvent::SyncItem(Some(Err(error))) => (
            MainLoopState::Syncing,
            MainLoopAction::PassOver(error),
        ),
        MainLoopEvent::SyncItem(None) => (
            MainLoopState::Done,
            MainLoopAction::Finish(
                MainLoopError::UnexpectedEnd("unexpected return from async_main_loop!".to_string()),
            ),
        ),
    }
}

/// How far the main loop has come after a sequence of events.
pub open spec fn main_loop_state_after_all<U, S, E>(
    events: Seq<MainLoopEvent<U, S, E>>,
) -> MainLoopState {
    if events.len() == 0 {
        MainLoopState::LoggingIn
    } else {
        main_loop_state_after(events.last())
    }
}

/// Whether the main loop can go through a sequence of events.
pub open spec fn is_main_loop_run<U, S, E>(events: Seq<MainLoopEvent<U, S, E>>) -> bool {
    forall|i: int|
        0 <= i < events.len() ==> main_loop_expects(
            main_loop_state_after_all(events.take(i)),
            #[trigger] events[i],
        )
}

/// The sync gives something only after a login and a connection that succeeded,
/// and everything that it gave before was not its end: errors do not stop it.
pub proof fn law_sync_after_login<U, S, E>(events: Seq<MainLoopEvent<U, S, E>>, n: int)
    requires
        is_main_loop_run(events),
        0 <= n < events.len(),
        events[n] is SyncItem,
    ensures
        n >= 2,
        events[0] matches MainLoopEvent::LoginEnded(Ok(_)),
        events[1] matches MainLoopEvent::ConnectEnded(Ok(_)),
        forall|i: int|
            2 <= i < n ==> (#[trigger] events[i] matches MainLoopEvent::SyncItem(Some(_))),
    decreases n,
{
    assert(main_loop_expects(main_loop_state_after_all(events.take(n)), events[n]));
    assert(n > 0);
    assert(events.take(n).last() == events[n - 1]);
    if events[n - 1] is SyncItem {
        law_sync_after_login(events, n - 1);
    } else {
        assert(events[n - 1] is ConnectEnded);
        assert(main_loop_expects(main_loop_state_after_all(events.take(n - 1)), events[n - 1]));
        assert(n - 1 > 0);
        assert(events.take(n - 1).last() == events[n - 2]);
        assert(events[n - 2] is LoginEnded);
        assert(main_loop_expects(main_loop_state_after_all(events.take(n - 2)), events[n - 2]));
        if n - 2 > 0 {
            assert(events.take(n - 2).last() == events[n - 3]);
        }
    }
}

} // verus!
