//! The requests made of the video platform's API and the fields read from
//! its answers.

use crate::text::{decimal, decimal_string, parse_u64, parsed_u64};
use serde_json::Value;
use vstd::prelude::*;
use vstd::string::StringExecFns;

verus! {

/// The text of the JSON string that the JSON pointer `pointer` (such as
/// `/items/0/id`) reaches in the document that `text` holds; `None` where
/// `text` is no JSON document, the pointer reaches nothing, or what it
/// reaches is no string.
pub uninterp spec fn json_str_at(text: Seq<char>, pointer: Seq<char>) -> Option<Seq<char>>;

/// The length of the JSON array that `pointer` reaches in the document that
/// `text` holds; `None` where `text` is no JSON document, the pointer
/// reaches nothing, or what it reaches is no array.
pub uninterp spec fn json_array_len(text: Seq<char>, pointer: Seq<char>) -> Option<usize>;

/// Relies on serde_json's `from_str` to read the document, `Value::pointer`
/// to follow the pointer and `Value::as_str` to take the string's text.
#[verifier::external_body]
fn json_str(text: &str, pointer: &str) -> (r: Option<String>)
    ensures
        match r {
            Some(s) => json_str_at(text@, pointer@) == Some(s@),
            None => json_str_at(text@, pointer@) is None,
        },
{
    serde_json::from_str::<Value>(text).ok()?.pointer(pointer)?.as_str().map(|s| s.to_owned())
}

/// Relies on serde_json's `from_str` to read the document, `Value::pointer`
/// to follow the pointer and `Value::as_array` to take the array's length.
#[verifier::external_body]
fn json_array_length(text: &str, pointer: &str) -> (r: Option<usize>)
    ensures
        r == json_array_len(text@, pointer@),
{
    serde_json::from_str::<Value>(text).ok()?.pointer(pointer)?.as_array().map(|a| a.len())
}

/// The beginning of every address of the API.
pub open spec fn api_base() -> Seq<char> {
    "https://www.googleapis.com/youtube/v3/"@
}

/// The search for the channel named `name`.
pub open spec fn channel_search_url_of(name: Seq<char>, key: Seq<char>) -> Seq<char> {
    api_base() + "search?part=snippet&type=channel&q="@ + name + "&key="@ + key
}

/// The content details of the channel `id`.
pub open spec fn channel_content_url_of(id: Seq<char>, key: Seq<char>) -> Seq<char> {
    api_base() + "channels?part=contentDetails&id="@ + id + "&key="@ + key
}

/// At most `max` items of the playlist `id`.
pub open spec fn playlist_items_url_of(id: Seq<char>, key: Seq<char>, max: nat) -> Seq<char> {
    api_base() + "playlistItems?part=snippet&playlistId="@ + id + "&key="@ + key
        + "&maxResults="@ + decimal(max)
}

/// The statistics and content details of the video `id`.
pub open spec fn video_url_of(id: Seq<char>, key: Seq<char>) -> Seq<char> {
    api_base() + "videos?id="@ + id + "&part=statistics,contentDetails&key="@ + key
}

/// The address that searches for the channel named `channel_name`.
pub fn channel_search_url(channel_name: &str, api_key: &str) -> (r: String)
    ensures
        r@ == channel_search_url_of(channel_name@, api_key@),
{
    let mut s = String::from_str("https://www.googleapis.com/youtube/v3/");
    s.append("search?part=snippet&type=channel&q=");
    s.append(channel_name);
    s.append("&key=");
    s.append(api_key);
    assert(s@ =~= channel_search_url_of(channel_name@, api_key@));
    s
}

/// The address of the content details of the channel `channel_id`.
pub fn channel_content_url(channel_id: &str, api_key: &str) -> (r: String)
    ensures
        r@ == channel_content_url_of(channel_id@, api_key@),
{
    let mut s = String::from_str("https://www.googleapis.com/youtube/v3/");
    s.append("channels?part=contentDetails&id=");
    s.append(channel_id);
    s.append("&key=");
    s.append(api_key);
    assert(s@ =~= channel_content_url_of(channel_id@, api_key@));
    s
}

/// The address of at most `max_recent_vid` items of the playlist
/// `playlist_id`.
pub fn playlist_items_url(playlist_id: &str, api_key: &str, max_recent_vid: u64) -> (r: String)
    ensures
        r@ == playlist_items_url_of(playlist_id@, api_key@, max_recent_vid as nat),
{
    let mut s = String::from_str("https://www.googleapis.com/youtube/v3/");
    s.append("playlistItems?part=snippet&playlistId=");
    s.append(playlist_id);
    s.append("&key=");
    s.append(api_key);
    s.append("&maxResults=");
    let max = decimal_string(max_recent_vid);
    s.append(max.as_str());
    assert(s@ =~= playlist_items_url_of(playlist_id@, api_key@, max_recent_vid as nat));
    s
}

/// The address of the statistics and content details of the video
/// `video_id`.
pub fn video_stats_url(video_id: &str, api_key: &str) -> (r: String)
    ensures
        r@ == video_url_of(video_id@, api_key@),
{
    let mut s = String::from_str("https://www.googleapis.com/youtube/v3/");
    s.append("videos?id=");
    s.append(video_id);
    s.append("&part=statistics,contentDetails&key=");
    s.append(api_key);
    assert(s@ =~= video_url_of(video_id@, api_key@));
    s
}

/// Where the id of the first channel found stands in a channel search.
pub open spec fn channel_id_pointer() -> Seq<char> {
    "/items/0/snippet/channelId"@
}

/// Where the uploads playlist stands in a channel's content details.
pub open spec fn uploads_pointer() -> Seq<char> {
    "/items/0/contentDetails/relatedPlaylists/uploads"@
}

/// The id of the first channel that a channel search found, read from the
/// JSON text of its answer.
pub fn get_channel_id(response: &str) -> (r: Option<String>)
    ensures
        match r {
            Some(s) => json_str_at(response@, channel_id_pointer()) == Some(s@),
            None => json_str_at(response@, channel_id_pointer()) is None,
        },
{
    json_str(response, "/items/0/snippet/channelId")
}

/// The id of the playlist that holds all uploads of a channel, read from
/// the JSON text of the channel's content details.
pub fn uploads_playlist_id(response: &str) -> (r: Option<String>)
    ensures
        match r {
            Some(s) => json_str_at(response@, uploads_pointer()) == Some(s@),
            None => json_str_at(response@, uploads_pointer()) is None,
        },
{
    json_str(response, "/items/0/contentDetails/relatedPlaylists/uploads")
}

/// One item of an uploads playlist: the video's id, title and thumbnail.
pub struct PlaylistEntry {
    pub video_id: String,
    pub title: String,
    pub thumbnail: String,
}

/// The pointer to `field` (such as `/snippet/title`) of the item at place
/// `i` of the `items` array.
pub open spec fn item_pointer(i: nat, field: Seq<char>) -> Seq<char> {
    "/items/"@ + decimal(i) + field
}

/// Where an item's video id stands.
pub open spec fn video_id_field() -> Seq<char> {
    "/snippet/resourceId/videoId"@
}

/// Where an item's title stands.
pub open spec fn title_field() -> Seq<char> {
    "/snippet/title"@
}

/// Where an item's thumbnail stands.
pub open spec fn thumbnail_field() -> Seq<char> {
    "/snippet/thumbnails/default/url"@
}

/// Whether the item at place `i` of the playlist answer `text` has its
/// video id, title and thumbnail as strings.
pub open spec fn item_readable(text: Seq<char>, i: nat) -> bool {
    &&& json_str_at(text, item_pointer(i, video_id_field())) is Some
    &&& json_str_at(text, item_pointer(i, title_field())) is Some
    &&& json_str_at(text, item_pointer(i, thumbnail_field())) is Some
}

/// Whether `e` holds what the item at place `i` of `text` holds.
pub open spec fn entry_of_item(text: Seq<char>, i: nat, e: PlaylistEntry) -> bool {
    &&& json_str_at(text, item_pointer(i, video_id_field())) == Some(e.video_id@)
    &&& json_str_at(text, item_pointer(i, title_field())) == Some(e.title@)
    &&& json_str_at(text, item_pointer(i, thumbnail_field())) == Some(e.thumbnail@)
}

/// How many items are read of `len`, when at most `max` are.
pub open spec fn read_count(len: usize, max: u64) -> nat {
    if len <= max {
        len as nat
    } else {
        max as nat
    }
}

/// The pointer to `field` of the item at place `i`.
fn item_field(i: usize, field: &str) -> (r: String)
    ensures
        r@ == item_pointer(i as nat, field@),
{
    let mut s = String::from_str("/items/");
    let index = decimal_string(i as u64);
    s.append(index.as_str());
    s.append(field);
    s
}

/// The entries of the first `max_recent_vid` items of a playlist (all of
/// them where there are fewer), read from the JSON text of a playlist
/// lookup; `None` where there is no `items` array or one of the items read
/// lacks a field.
pub fn playlist_entries(response: &str, max_recent_vid: u64) -> (r: Option<Vec<PlaylistEntry>>)
    ensures
        match json_array_len(response@, "/items"@) {
            None => r is None,
            Some(len) => {
                &&& r is Some <==> forall|i: nat|
                    i < read_count(len, max_recent_vid) ==> #[trigger] item_readable(
                        response@,
                        i,
                    )
                &&& r matches Some(es) ==> {
                    &&& es.len() == read_count(len, max_recent_vid)
                    &&& forall|i: int|
                        0 <= i < es.len() ==> #[trigger] entry_of_item(
                            response@,
                            i as nat,
                            es@[i],
                        )
                }
            },
        },
{
    let len = match json_array_length(response, "/items") {
        Some(len) => len,
        None => return None,
    };
    let mut out: Vec<PlaylistEntry> = Vec::new();
    let mut i: usize = 0;
    while i < len && (i as u64) < max_recent_vid
        invariant
            json_array_len(response@, "/items"@) == Some(len),
            i <= len,
            i <= max_recent_vid,
            out.len() == i,
            forall|k: nat| k < i ==> #[trigger] item_readable(response@, k),
            forall|k: int| 0 <= k < i ==> #[trigger] entry_of_item(response@, k as nat, out@[k]),
        decreases len - i,
    {
        assert((i as nat) < read_count(len, max_recent_vid));
        let id_pointer = item_field(i, "/snippet/resourceId/videoId");
        let title_pointer = item_field(i, "/snippet/title");
        let thumbnail_pointer = item_field(i, "/snippet/thumbnails/default/url");
        let video_id = match json_str(response, id_pointer.as_str()) {
            Some(s) => s,
            None => {
                assert(!item_readable(response@, i as nat));
                return None;
            },
        };
        let title = match json_str(response, title_pointer.as_str()) {
            Some(s) => s,
            None => {
                assert(!item_readable(response@, i as nat));
                return None;
            },
        };
        let thumbnail = match json_str(response, thumbnail_pointer.as_str()) {
            Some(s) => s,
            None => {
                assert(!item_readable(response@, i as nat));
                return None;
            },
        };
        let ghost prev = out@;
        out.push(PlaylistEntry { video_id, title, thumbnail });
        assert(forall|k: int| 0 <= k < i ==> out@[k] == prev[k]);
        assert(entry_of_item(response@, i as nat, out@[i as int]));
        i = i + 1;
    }
    Some(out)
}

/// The view count that the statistics field `field` gives: zero where the
/// field is missing, else the number it writes.
pub open spec fn view_count_of_field(field: Option<Seq<char>>) -> Option<u64> {
    match field {
        None => Some(0),
        Some(s) => parsed_u64(s),
    }
}

/// The view count written in `field`; zero where there is none, `None`
/// where it is no unsigned number.
pub fn view_count_from(field: Option<&str>) -> (r: Option<u64>)
    ensures
        r == view_count_of_field(
            match field {
                Some(s) => Some(s@),
                None => None,
            },
        ),
{
    match field {
        Some(s) => parse_u64(s),
        None => Some(0),
    }
}

/// Where the view count of the first video stands in a video lookup.
pub open spec fn view_count_pointer() -> Seq<char> {
    "/items/0/statistics/viewCount"@
}

/// Where the duration of the first video stands in a video lookup.
pub open spec fn duration_pointer() -> Seq<char> {
    "/items/0/contentDetails/duration"@
}

/// The view count and the ISO-8601 duration of the first video of a video
/// lookup, read from the JSON text of its answer. A view count that is
/// missing or no string counts as zero. `None` where the duration is
/// missing or the view count is a string that writes no unsigned number.
pub fn get_view_count_and_duration(response: &str) -> (r: Option<(u64, String)>)
    ensures
        match r {
            Some((n, d)) => {
                &&& json_str_at(response@, duration_pointer()) == Some(d@)
                &&& view_count_of_field(json_str_at(response@, view_count_pointer())) == Some(n)
            },
            None => json_str_at(response@, duration_pointer()) is None || view_count_of_field(
                json_str_at(response@, view_count_pointer()),
            ) is None,
        },
{
    let count_field = json_str(response, "/items/0/statistics/viewCount");
    let view_count = match count_field {
        Some(s) => view_count_from(Some(s.as_str())),
        None => view_count_from(None),
    };
    let view_count = match view_count {
        Some(n) => n,
        None => return None,
    };
    let duration = match json_str(response, "/items/0/contentDetails/duration") {
        Some(d) => d,
        None => return None,
    };
    Some((view_count, duration))
}

} // verus!
