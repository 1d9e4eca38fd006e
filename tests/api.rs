use top_videos::api::{
    channel_content_url, channel_search_url, get_channel_id, get_view_count_and_duration,
    playlist_entries, playlist_items_url, uploads_playlist_id, video_stats_url, view_count_from,
};

fn playlist(n: usize) -> String {
    let items: Vec<String> = (0..n)
        .map(|i| {
            format!(
                "{{\"snippet\": {{\"title\": \"Video {i}\", \"resourceId\": {{\"videoId\": \"id{i}\"}}, \"thumbnails\": {{\"default\": {{\"url\": \"https://img/{i}.jpg\"}}}}}}}}"
            )
        })
        .collect();
    format!("{{\"items\": [{}]}}", items.join(","))
}

#[test]
fn request_addresses() {
    assert_eq!(
        channel_search_url("emetsound", "KEY"),
        "https://www.googleapis.com/youtube/v3/search?part=snippet&type=channel&q=emetsound&key=KEY"
    );
    assert_eq!(
        channel_content_url("UC123", "KEY"),
        "https://www.googleapis.com/youtube/v3/channels?part=contentDetails&id=UC123&key=KEY"
    );
    assert_eq!(
        playlist_items_url("UU123", "KEY", 100),
        "https://www.googleapis.com/youtube/v3/playlistItems?part=snippet&playlistId=UU123&key=KEY&maxResults=100"
    );
    assert_eq!(
        video_stats_url("abc", "KEY"),
        "https://www.googleapis.com/youtube/v3/videos?id=abc&part=statistics,contentDetails&key=KEY"
    );
}

#[test]
fn channel_id_read() {
    let text = r#"{"items": [{"snippet": {"channelId": "UCxyz", "title": "t"}}, {"snippet": {"channelId": "UCother"}}]}"#;
    assert_eq!(get_channel_id(text), Some("UCxyz".to_string()));
    assert_eq!(get_channel_id(r#"{"items": []}"#), None);
    assert_eq!(get_channel_id("not json"), None);
    assert_eq!(get_channel_id(""), None);
}

#[test]
fn uploads_playlist_read() {
    let text = r#"{"items": [{"contentDetails": {"relatedPlaylists": {"uploads": "UUxyz"}}}]}"#;
    assert_eq!(uploads_playlist_id(text), Some("UUxyz".to_string()));
    let no_string = r#"{"items": [{"contentDetails": {"relatedPlaylists": {"uploads": 5}}}]}"#;
    assert_eq!(uploads_playlist_id(no_string), None);
}

#[test]
fn playlist_entries_read_in_order() {
    let es = playlist_entries(&playlist(3), 100).unwrap();
    assert_eq!(es.len(), 3);
    assert_eq!(es[0].video_id, "id0");
    assert_eq!(es[2].title, "Video 2");
    assert_eq!(es[1].thumbnail, "https://img/1.jpg");
}

#[test]
fn playlist_entries_capped() {
    assert_eq!(playlist_entries(&playlist(5), 2).unwrap().len(), 2);
    assert_eq!(playlist_entries(&playlist(5), 0).unwrap().len(), 0);
    assert_eq!(playlist_entries(&playlist(0), 3).unwrap().len(), 0);
}

#[test]
fn playlist_missing_fields() {
    assert!(playlist_entries(r#"{"kind": "x"}"#, 5).is_none());
    assert!(playlist_entries(r#"{"items": [{"snippet": {"title": "t"}}]}"#, 5).is_none());
    assert!(playlist_entries("", 5).is_none());
}

#[test]
fn view_count_and_duration_read() {
    let text = r#"{"items": [{"statistics": {"viewCount": "12345"}, "contentDetails": {"duration": "PT3M2S"}}]}"#;
    assert_eq!(get_view_count_and_duration(text), Some((12345, "PT3M2S".to_string())));
}

#[test]
fn missing_view_count_is_zero() {
    let text = r#"{"items": [{"statistics": {}, "contentDetails": {"duration": "PT3M"}}]}"#;
    assert_eq!(get_view_count_and_duration(text), Some((0, "PT3M".to_string())));
}

#[test]
fn bad_view_count_or_no_duration() {
    let bad = r#"{"items": [{"statistics": {"viewCount": "many"}, "contentDetails": {"duration": "PT3M"}}]}"#;
    assert_eq!(get_view_count_and_duration(bad), None);
    let no_duration = r#"{"items": [{"statistics": {"viewCount": "5"}}]}"#;
    assert_eq!(get_view_count_and_duration(no_duration), None);
}

#[test]
fn view_count_fields() {
    assert_eq!(view_count_from(None), Some(0));
    assert_eq!(view_count_from(Some("42")), Some(42));
    assert_eq!(view_count_from(Some("+7")), Some(7));
    assert_eq!(view_count_from(Some("18446744073709551615")), Some(u64::MAX));
    assert_eq!(view_count_from(Some("18446744073709551616")), None);
    assert_eq!(view_count_from(Some("-1")), None);
    assert_eq!(view_count_from(Some("")), None);
    assert_eq!(view_count_from(Some(" 1")), None);
}

#[test]
fn video_answer_example() {
    let text = r#"{"items":[{"statistics":{"viewCount":"42"},"contentDetails":{"duration":"PT4M13S"}}]}"#;
    assert_eq!(get_view_count_and_duration(text), Some((42, "PT4M13S".to_string())));
}

#[test]
fn view_count_not_a_string_is_zero() {
    let text = r#"{"items":[{"statistics":{"viewCount":42},"contentDetails":{"duration":"PT1M"}}]}"#;
    assert_eq!(get_view_count_and_duration(text), Some((0, "PT1M".to_string())));
}

#[test]
fn answers_that_are_not_json() {
    assert_eq!(get_view_count_and_duration("<html>quota exceeded</html>"), None);
    assert_eq!(uploads_playlist_id("{\"items\": ["), None);
    assert!(playlist_entries("null", 5).is_none());
    assert!(playlist_entries(r#"{"items": {"a": 1}}"#, 5).is_none());
}

#[test]
fn channel_id_example() {
    assert_eq!(get_channel_id(r#"{"items":[{"snippet":{"channelId":"UC123"}}]}"#), Some("UC123".to_string()));
}

#[test]
fn playlist_fields_only_of_items_read() {
    let text = r#"{"items": [
        {"snippet": {"title": "A", "resourceId": {"videoId": "a"}, "thumbnails": {"default": {"url": "ua"}}}},
        {"snippet": {"title": "B"}}
    ]}"#;
    let es = playlist_entries(text, 1).unwrap();
    assert_eq!(es.len(), 1);
    assert_eq!(es[0].video_id, "a");
    assert!(playlist_entries(text, 2).is_none());
}
