//! Avatars of rooms: a fetched picture, or the start of the room's name.

use unicode_segmentation::UnicodeSegmentation;
use vstd::prelude::*;

use crate::rooms_list::{text_view, RoomPreviewAvatar, RoomPreviewAvatarView, RoomsListUpdate, RoomsListUpdateView};

verus! {

/// The first extended grapheme cluster of a text, as the crate
/// `unicode_segmentation` divides it; `None` where there is none.
pub uninterp spec fn leading_grapheme(text: Seq<char>) -> Option<Seq<char>>;

/// The first item of `UnicodeSegmentation::graphemes(text, true)`.
///
/// Taken on trust: the item is a function of the text alone; there is one
/// exactly where the text is not empty, and it is a non-empty start of the
/// text. Whether a cluster ends somewhere is decided by the characters up to
/// there and the one that follows. So the cluster, taken alone, is one cluster;
/// and where more text follows it, nothing put behind that text changes it.
/// Where the cluster ends is left to `unicode_segmentation`.
#[verifier::external_body]
fn first_grapheme(text: &str) -> (first: Option<&str>)
    ensures
        first is Some <==> text@.len() > 0,
        match first {
            Some(cluster) => leading_grapheme(text@) == Some(cluster@),
            None => leading_grapheme(text@) is None,
        },
        first matches Some(cluster) ==> cluster@.len() > 0 && cluster@.is_prefix_of(text@),
        first matches Some(cluster) ==> leading_grapheme(cluster@) == Some(cluster@),
        first matches Some(cluster) ==> cluster@.len() < text@.len() ==> forall|more: Seq<char>|
            #[trigger] leading_grapheme(text@ + more) == Some(cluster@),
{
    text.graphemes(true).next()
}

/// The text avatar of a room with the given name: its first grapheme cluster,
/// and no text for an empty name.
pub open spec fn name_avatar(room_name: Seq<char>) -> RoomPreviewAvatarView {
    RoomPreviewAvatarView::Text(
        if room_name.len() == 0 {
            Seq::empty()
        } else {
            leading_grapheme(room_name)->0
        },
    )
}

/// The text of a room's name; empty where the room has none.
pub open spec fn name_or_empty(room_name: Option<Seq<char>>) -> Seq<char> {
    match room_name {
        Some(name) => name,
        None => Seq::empty(),
    }
}

/// Returns the text avatar made of the first grapheme cluster of a name, which
/// is empty where there is no such cluster.
pub fn avatar_from_first_grapheme(first: Option<&str>) -> (avatar: RoomPreviewAvatar)
    ensures
        avatar@ == RoomPreviewAvatarView::Text(
            match first {
                Some(cluster) => cluster@,
                None => Seq::empty(),
            },
        ),
{
    match first {
        Some(cluster) => RoomPreviewAvatar::Text(cluster.to_string()),
        None => RoomPreviewAvatar::Text(String::new()),
    }
}

/// Returns a text avatar string containing the first character of the room name.
///
/// The text is a start of the name, and empty only for an empty name. It is its
/// own avatar. Where the name goes on after it, nothing put behind the name
/// changes it.
pub fn avatar_from_room_name(room_name: &str) -> (avatar: RoomPreviewAvatar)
    ensures
        avatar@ == name_avatar(room_name@),
        avatar@ matches RoomPreviewAvatarView::Text(text) && text.is_prefix_of(room_name@) && (
        text.len() == 0 <==> room_name@.len() == 0) && name_avatar(text) == avatar@ && (
        text.len() < room_name@.len() ==> forall|more: Seq<char>| #[trigger]
            name_avatar(room_name@ + more) == avatar@),
{
    avatar_from_first_grapheme(first_grapheme(room_name))
}

/// The avatar for a room given what came of fetching its picture.
pub open spec fn fetched_or_name_avatar(
    picture: Option<Seq<u8>>,
    room_name: Option<Seq<char>>,
) -> RoomPreviewAvatarView {
    match picture {
        Some(bytes) => RoomPreviewAvatarView::Image(bytes),
        None => name_avatar(name_or_empty(room_name)),
    }
}

/// The bytes of a picture, where fetching gave one.
pub open spec fn picture_of<E>(fetched: Result<Option<Vec<u8>>, E>) -> Option<Seq<u8>> {
    match fetched {
        Ok(Some(bytes)) => Some(bytes@),
        _ => None,
    }
}

/// Returns the avatar image that was fetched for a room (if one exists),
/// otherwise a text avatar string of the first character of the room name.
pub fn room_avatar<E>(fetched: Result<Option<Vec<u8>>, E>, room_name: &Option<String>) -> (avatar:
    RoomPreviewAvatar)
    ensures
        avatar@ == fetched_or_name_avatar(
            picture_of(fetched),
            text_view(*room_name),
        ),
{
    proof {
        reveal_strlit("");
        assert(""@ =~= Seq::<char>::empty());
    }
    match fetched {
        Ok(Some(bytes)) => RoomPreviewAvatar::Image(bytes),
        _ => match room_name {
            Some(name) => avatar_from_room_name(name.as_str()),
            None => avatar_from_room_name(""),
        },
    }
}

/// Returns the update that shows the avatar of a listed room, once fetching its
/// picture has ended.
pub fn room_avatar_update<E>(
    room_id: String,
    fetched: Result<Option<Vec<u8>>, E>,
    room_name: &Option<String>,
) -> (update: RoomsListUpdate)
    ensures
        update@ == (RoomsListUpdateView::UpdateRoomAvatar {
            room_id: room_id@,
            avatar: fetched_or_name_avatar(picture_of(fetched), text_view(*room_name)),
        }),
{
    RoomsListUpdate::UpdateRoomAvatar { room_id, avatar: room_avatar(fetched, room_name) }
}

} // verus!
