//! What the list of rooms is told about.

use vstd::prelude::*;

verus! {

/// The text of an optional string.
pub open spec fn text_view(text: Option<String>) -> Option<Seq<char>> {
    match text {
        Some(s) => Some(s@),
        None => None,
    }
}

/// The avatar that stands for a room in the list of rooms.
pub enum RoomPreviewAvatar {
    /// A short text, shown in place of a picture.
    Text(String),
    /// The bytes of an encoded picture.
    Image(Vec<u8>),
}

/// The contents of a [`RoomPreviewAvatar`].
pub enum RoomPreviewAvatarView {
    Text(Seq<char>),
    Image(Seq<u8>),
}

impl View for RoomPreviewAvatar {
    type V = RoomPreviewAvatarView;

    open spec fn view(&self) -> RoomPreviewAvatarView {
        match self {
            RoomPreviewAvatar::Text(text) => RoomPreviewAvatarView::Text(text@),
            RoomPreviewAvatar::Image(bytes) => RoomPreviewAvatarView::Image(bytes@),
        }
    }
}

/// One line of the list of rooms.
pub struct RoomPreviewEntry {
    /// The room that the line shows.
    pub room_id: Option<String>,
    /// The timestamp and the text preview of the room's latest event.
    pub latest: Option<(u64, String)>,
    /// The avatar shown beside the room.
    pub avatar: RoomPreviewAvatar,
    /// The displayable name of the room.
    pub room_name: Option<String>,
}

/// The contents of a [`RoomPreviewEntry`].
pub struct RoomPreviewEntryView {
    pub room_id: Option<Seq<char>>,
    pub latest: Option<(u64, Seq<char>)>,
    pub avatar: RoomPreviewAvatarView,
    pub room_name: Option<Seq<char>>,
}

impl View for RoomPreviewEntry {
    type V = RoomPreviewEntryView;

    open spec fn view(&self) -> RoomPreviewEntryView {
        RoomPreviewEntryView {
            room_id: text_view(self.room_id),
            latest: match self.latest {
                Some((timestamp, text)) => Some((timestamp, text@)),
                None => None,
            },
            avatar: self.avatar@,
            room_name: text_view(self.room_name),
        }
    }
}

/// A change that the list of rooms is to show.
pub enum RoomsListUpdate {
    /// A line of status for the user.
    Status { status: String },
    /// A room that was not listed yet.
    AddRoom(RoomPreviewEntry),
    /// A listed room has a newer latest event.
    UpdateLatestEvent { room_id: String, timestamp: u64, latest_message_text: String },
    /// A listed room has another name.
    UpdateRoomName { room_id: String, room_name: String },
    /// A listed room has another avatar.
    UpdateRoomAvatar { room_id: String, avatar: RoomPreviewAvatar },
}

/// The contents of a [`RoomsListUpdate`].
pub enum RoomsListUpdateView {
    Status { status: Seq<char> },
    AddRoom(RoomPreviewEntryView),
    UpdateLatestEvent { room_id: Seq<char>, timestamp: u64, latest_message_text: Seq<char> },
    UpdateRoomName { room_id: Seq<char>, room_name: Seq<char> },
    UpdateRoomAvatar { room_id: Seq<char>, avatar: RoomPreviewAvatarView },
}

impl View for RoomsListUpdate {
    type V = RoomsListUpdateView;

    open spec fn view(&self) -> RoomsListUpdateView {
        match self {
            RoomsListUpdate::Status { status } => RoomsListUpdateView::Status { status: status@ },
            RoomsListUpdate::AddRoom(entry) => RoomsListUpdateView::AddRoom(entry@),
            RoomsListUpdate::UpdateLatestEvent { room_id, timestamp, latest_message_text } => {
                RoomsListUpdateView::UpdateLatestEvent {
                    room_id: room_id@,
                    timestamp: *timestamp,
                    latest_message_text: latest_message_text@,
                }
            },
            RoomsListUpdate::UpdateRoomName { room_id, room_name } => {
                RoomsListUpdateView::UpdateRoomName { room_id: room_id@, room_name: room_name@ }
            },
            RoomsListUpdate::UpdateRoomAvatar { room_id, avatar } => {
                RoomsListUpdateView::UpdateRoomAvatar { room_id: room_id@, avatar: avatar@ }
            },
        }
    }
}

} // verus!
