//! Laws of the avatars of rooms.

use vstd::prelude::*;

use crate::avatar::{
    avatar_from_first_grapheme, avatar_from_room_name, leading_grapheme, room_avatar, room_avatar_update,
};
use crate::rooms_list::{RoomPreviewAvatar, RoomsListUpdate};

verus! {

/// A cluster is its own text avatar; where there is none, the text is empty.
pub proof fn law_cluster_is_the_text(first: Option<&str>, avatar: RoomPreviewAvatar)
    requires
        call_ensures(avatar_from_first_grapheme, (first,), avatar),
    ensures
        avatar matches RoomPreviewAvatar::Text(text) && match first {
            Some(cluster) => text@ == cluster@,
            None => text@.len() == 0,
        },
{
}

/// The avatar made of a name is the name's first grapheme cluster: a start of
/// the name, which is empty for the empty name alone.
pub proof fn law_name_gives_its_first_cluster(name: &str, avatar: RoomPreviewAvatar)
    requires
        call_ensures(avatar_from_room_name, (name,), avatar),
    ensures
        avatar matches RoomPreviewAvatar::Text(text) && text@.is_prefix_of(name@) && if name@.len()
            == 0 {
            text@.len() == 0
        } else {
            text@.len() > 0 && text@ == leading_grapheme(name@)->0
        },
{
}

/// The avatar made of the text of an avatar shows the same text.
pub proof fn law_avatar_text_is_its_own_avatar(
    name: &str,
    avatar: RoomPreviewAvatar,
    again: &str,
    again_avatar: RoomPreviewAvatar,
)
    requires
        call_ensures(avatar_from_room_name, (name,), avatar),
        avatar matches RoomPreviewAvatar::Text(text) && again@ == text@,
        call_ensures(avatar_from_room_name, (again,), again_avatar),
    ensures
        avatar matches RoomPreviewAvatar::Text(text) && again_avatar
            matches RoomPreviewAvatar::Text(again_text) && again_text@ == text@,
{
}

/// Where a name goes on after its avatar's text, a longer name that starts with
/// it has an avatar of the same text.
pub proof fn law_longer_name_keeps_the_avatar(
    name: &str,
    avatar: RoomPreviewAvatar,
    longer: &str,
    longer_avatar: RoomPreviewAvatar,
)
    requires
        call_ensures(avatar_from_room_name, (name,), avatar),
        call_ensures(avatar_from_room_name, (longer,), longer_avatar),
        avatar matches RoomPreviewAvatar::Text(text) && text@.len() < name@.len(),
        name@.is_prefix_of(longer@),
    ensures
        avatar matches RoomPreviewAvatar::Text(text) && longer_avatar
            matches RoomPreviewAvatar::Text(longer_text) && longer_text@ == text@,
{
    let more = longer@.skip(name@.len() as int);
    assert(longer@ =~= name@ + more);
}

/// A picture that was fetched is the avatar, whatever its bytes are and whatever
/// the room is called.
pub proof fn law_fetched_picture_is_the_avatar<E>(
    bytes: Vec<u8>,
    room_name: Option<String>,
    avatar: RoomPreviewAvatar,
)
    requires
        call_ensures(room_avatar::<E>, (Ok(Some(bytes)), &room_name), avatar),
    ensures
        avatar matches RoomPreviewAvatar::Image(shown) && shown@ == bytes@,
{
}

/// Without a picture, whether there is none or fetching it failed, a room with a
/// name has the avatar that is made of the name.
pub proof fn law_no_picture_gives_the_name_avatar<E>(
    fetched: Result<Option<Vec<u8>>, E>,
    room_name: Option<String>,
    avatar: RoomPreviewAvatar,
    name: &str,
    name_avatar: RoomPreviewAvatar,
)
    requires
        fetched is Err || fetched->Ok_0 is None,
        room_name is Some,
        room_name->0@ == name@,
        call_ensures(room_avatar::<E>, (fetched, &room_name), avatar),
        call_ensures(avatar_from_room_name, (name,), name_avatar),
    ensures
        avatar matches RoomPreviewAvatar::Text(text) && name_avatar
            matches RoomPreviewAvatar::Text(name_text) && text@ == name_text@,
{
}

/// Without a picture, a room without a name has an avatar of no text.
pub proof fn law_no_picture_no_name<E>(
    fetched: Result<Option<Vec<u8>>, E>,
    avatar: RoomPreviewAvatar,
)
    requires
        fetched is Err || fetched->Ok_0 is None,
        call_ensures(room_avatar::<E>, (fetched, &None), avatar),
    ensures
        avatar matches RoomPreviewAvatar::Text(text) && text@.len() == 0,
{
}

/// The update that follows fetching an avatar names the room it was fetched for,
/// and shows the avatar of that room.
pub proof fn law_update_shows_the_avatar<E>(
    room_id: String,
    fetched: Result<Option<Vec<u8>>, E>,
    room_name: Option<String>,
    update: RoomsListUpdate,
    avatar: RoomPreviewAvatar,
)
    requires
        call_ensures(room_avatar_update::<E>, (room_id, fetched, &room_name), update),
        call_ensures(room_avatar::<E>, (fetched, &room_name), avatar),
    ensures
        update matches RoomsListUpdate::UpdateRoomAvatar { room_id: shown_id, avatar: shown }
            && shown_id@ == room_id@ && match (shown, avatar) {
            (RoomPreviewAvatar::Text(text), RoomPreviewAvatar::Text(other)) => text@ == other@,
            (RoomPreviewAvatar::Image(bytes), RoomPreviewAvatar::Image(other)) => bytes@ == other@,
            _ => false,
        },
{
}

/// The update that follows fetching a picture shows the picture; where there is
/// none, it shows the first grapheme cluster of the name, if there is a name.
pub proof fn law_update_shows_picture_or_name<E>(
    room_id: String,
    fetched: Result<Option<Vec<u8>>, E>,
    room_name: Option<String>,
    update: RoomsListUpdate,
)
    requires
        call_ensures(room_avatar_update::<E>, (room_id, fetched, &room_name), update),
    ensures
        update matches RoomsListUpdate::UpdateRoomAvatar { room_id: shown_id, avatar } && shown_id@
            == room_id@ && match fetched {
            Ok(Some(bytes)) => avatar matches RoomPreviewAvatar::Image(shown) && shown@ == bytes@,
            _ => avatar matches RoomPreviewAvatar::Text(text) && if room_name is Some
                && room_name->0@.len() > 0 {
                text@ == leading_grapheme(room_name->0@)->0
            } else {
                text@.len() == 0
            },
        },
{
}

} // verus!
