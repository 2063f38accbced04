use termusic::player::PlayerCmd;
use termusic::songtag::{parse_song_info, to_lyric, to_pic_url, to_song_info, ServiceProvider};

#[test]
fn lyric_of_successful_answer() {
    let json = r#"{"msg":"成功","lyric":"[00:01] hello"}"#;
    assert_eq!(to_lyric(json), Some("[00:01] hello".to_string()));
}

#[test]
fn lyric_of_failed_answer_is_none() {
    assert_eq!(to_lyric(r#"{"msg":"失败","lyric":"x"}"#), None);
    assert_eq!(to_lyric(r#"{"lyric":"x"}"#), None);
    assert_eq!(to_lyric("not json at all"), None);
    assert_eq!(to_lyric(r#"{"msg":"成功"}"#), None);
}

#[test]
fn pic_url_of_successful_answer() {
    let json = r#"{"msg":"成功","largePic":"http://img/large.jpg"}"#;
    assert_eq!(to_pic_url(json), Some("http://img/large.jpg".to_string()));
    assert_eq!(to_pic_url(r#"{"msg":"nope","largePic":"x"}"#), None);
}

#[test]
fn song_info_reads_records_with_defaults() {
    let json = r#"{
        "success": true,
        "musics": [
            {
                "id": "42",
                "songName": "Song A",
                "albumId": "7",
                "copyrightId": "c42",
                "singerName": "Someone",
                "albumName": "Album A",
                "cover": "http://img/a.jpg",
                "mp3": "http://mp3/a.mp3"
            },
            {
                "id": "43",
                "songName": "Song B",
                "albumId": "8",
                "copyrightId": "c43"
            }
        ]
    }"#;
    let tags = to_song_info(json).expect("a successful answer");
    assert_eq!(tags.len(), 2);
    let a = &tags[0];
    assert_eq!(a.song_id.as_deref(), Some("42"));
    assert_eq!(a.title.as_deref(), Some("Song A"));
    assert_eq!(a.artist.as_deref(), Some("Someone"));
    assert_eq!(a.album.as_deref(), Some("Album A"));
    assert_eq!(a.pic_id.as_deref(), Some("http://img/a.jpg"));
    assert_eq!(a.url.as_deref(), Some("http://mp3/a.mp3"));
    assert_eq!(a.lang_ext.as_deref(), Some("migu"));
    assert_eq!(a.lyric_id.as_deref(), Some("c42"));
    assert_eq!(a.service_provider, Some(ServiceProvider::Migu));
    // Missing optional fields fall back to their documented stand-ins.
    let b = &tags[1];
    assert_eq!(b.artist.as_deref(), Some("Unknown Singer"));
    assert_eq!(b.album.as_deref(), Some("Unknown Album"));
    assert_eq!(b.pic_id.as_deref(), Some("N/A"));
    assert_eq!(b.url.as_deref(), Some("N/A"));
}

#[test]
fn song_info_of_failed_answer_is_none() {
    assert_eq!(to_song_info(r#"{"success": false, "musics": []}"#).map(|v| v.len()), None);
    assert_eq!(to_song_info("garbage").map(|v| v.len()), None);
}

#[test]
fn record_without_required_fields_is_dropped() {
    let json = r#"{
        "success": true,
        "musics": [
            {"songName": "No id here", "albumId": "1", "copyrightId": "c"},
            {"id": "1", "songName": "Kept", "albumId": "1", "copyrightId": "c"}
        ]
    }"#;
    let tags = to_song_info(json).expect("a successful answer");
    assert_eq!(tags.len(), 1);
    assert_eq!(tags[0].title.as_deref(), Some("Kept"));
}

#[test]
fn non_text_fields_get_their_own_stand_ins() {
    let v: serde_json::Value = serde_json::from_str(
        r#"{
            "id": "9",
            "songName": "S",
            "albumId": "2",
            "copyrightId": "c9",
            "singerName": 5,
            "albumName": 5,
            "cover": 5,
            "mp3": 5
        }"#,
    )
    .unwrap();
    let tag = parse_song_info(&v).expect("required fields are text");
    assert_eq!(tag.artist.as_deref(), Some("Unknown Singer"));
    assert_eq!(tag.album.as_deref(), Some(""));
    assert_eq!(tag.pic_id.as_deref(), Some(""));
    assert_eq!(tag.url.as_deref(), Some("Copyright protected"));
}

#[test]
fn mutating_commands_are_marked_mutable() {
    assert!(PlayerCmd::TogglePause.is_mut());
    assert!(PlayerCmd::Skip.is_mut());
    assert!(PlayerCmd::Seek(5).is_mut());
    assert!(PlayerCmd::VolumeUp.is_mut());
    assert!(!PlayerCmd::GetProgress.is_mut());
    assert!(!PlayerCmd::FetchStatus.is_mut());
    assert!(!PlayerCmd::Play("x".to_string(), false).is_mut());
    assert!(!PlayerCmd::ProcessID.is_mut());
}
