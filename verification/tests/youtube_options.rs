use termusic::model::Model;
use termusic::youtube::{extract_filepath, youtube_watch_url, YoutubeRecord};

#[test]
fn test_youtube_output_parsing() {
    assert_eq!(
        extract_filepath(
            r"sdflsdf [ExtractAudio] Destination: 观众说“小哥哥，到饭点了”《干饭人之歌》走，端起饭盆干饭去.mp3 sldflsdfj",
            "/tmp"
        )
        .unwrap(),
        "/tmp/观众说“小哥哥，到饭点了”《干饭人之歌》走，端起饭盆干饭去.mp3".to_string()
    );
}

#[test]
fn extract_filepath_without_destination_is_none() {
    assert_eq!(extract_filepath("no destination in here", "/tmp"), None);
}

#[test]
fn extract_filepath_plain_name() {
    assert_eq!(
        extract_filepath("[ExtractAudio] Destination: song.mp3", "/music"),
        Some("/music/song.mp3".to_string())
    );
}

#[test]
fn watch_url_is_exact() {
    assert_eq!(youtube_watch_url("abc123"), "https://www.youtube.com/watch?v=abc123");
}

#[test]
fn download_picks_the_indexed_hit() {
    let mut m = Model::new();
    m.youtube_options.items.push(YoutubeRecord {
        video_id: "id0".to_string(),
        title: "first".to_string(),
        length_seconds: 60,
    });
    m.youtube_options.items.push(YoutubeRecord {
        video_id: "id1".to_string(),
        title: "second".to_string(),
        length_seconds: 61,
    });
    assert_eq!(
        m.youtube_options_download(1),
        Some("https://www.youtube.com/watch?v=id1".to_string())
    );
    assert_eq!(m.youtube_options_download(2), None);
}

#[test]
fn paging_never_goes_before_the_first_page() {
    let mut m = Model::new();
    assert_eq!(m.youtube_options.page, 1);
    m.youtube_options_prev_page();
    assert_eq!(m.youtube_options.page, 1);
    m.youtube_options_next_page();
    m.youtube_options_next_page();
    assert_eq!(m.youtube_options.page, 3);
    m.youtube_options_prev_page();
    assert_eq!(m.youtube_options.page, 2);
}
