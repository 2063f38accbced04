use termusic::kugou::{lyric_download_query, lyric_search_query, search_query, songs_detail_params};

#[test]
fn search_query_carries_all_parameters() {
    let q = search_query("hello world", 3, 30);
    let got: Vec<(&str, &str)> = q.iter().map(|p| (p.name.as_str(), p.value.as_str())).collect();
    assert_eq!(
        got,
        vec![
            ("keyword", "hello world"),
            ("page", "3"),
            ("pagesize", "30"),
            ("showtype", "1"),
        ]
    );
}

#[test]
fn lyric_search_query_is_exact() {
    let q = lyric_search_query("abcdef123");
    let got: Vec<(&str, &str)> = q.iter().map(|p| (p.name.as_str(), p.value.as_str())).collect();
    assert_eq!(
        got,
        vec![
            ("keyword", "%20-%20"),
            ("ver", "1"),
            ("hash", "abcdef123"),
            ("client", "mobi"),
            ("man", "yes"),
        ]
    );
}

#[test]
fn lyric_download_query_is_exact() {
    let q = lyric_download_query("KEY", "77");
    let got: Vec<(&str, &str)> = q.iter().map(|p| (p.name.as_str(), p.value.as_str())).collect();
    assert_eq!(
        got,
        vec![
            ("charset", "utf8"),
            ("accesskey", "KEY"),
            ("id", "77"),
            ("client", "mobi"),
            ("fmt", "lrc"),
            ("ver", "1"),
        ]
    );
}

#[test]
fn songs_detail_params_wrap_the_identifiers() {
    let (c, ids) = songs_detail_params(&vec![347230, 5]);
    assert_eq!(c, "\"[{\"id\":347230,5}]\"");
    assert_eq!(ids, "\"[347230,5]\"");
    let (c1, ids1) = songs_detail_params(&vec![9]);
    assert_eq!(c1, "\"[{\"id\":9}]\"");
    assert_eq!(ids1, "\"[9]\"");
    let (c0, ids0) = songs_detail_params(&vec![]);
    assert_eq!(c0, "\"[{\"id\":}]\"");
    assert_eq!(ids0, "\"[]\"");
}
