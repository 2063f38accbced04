//! Candidate records from a song metadata provider: turning its JSON answers
//! into typed records, with the defaulting rules spelled out exactly.

use vstd::prelude::*;

verus! {

/// Which provider a candidate record came from.
#[derive(Clone, Copy, Debug, PartialEq, Eq, Structural)]
pub enum ServiceProvider {
    Migu,
    Netease,
    Kugou,
}

/// One candidate record offered for a track.
#[derive(Clone, Debug)]
pub struct SongTag {
    pub song_id: Option<String>,
    pub title: Option<String>,
    pub artist: Option<String>,
    pub album: Option<String>,
    pub pic_id: Option<String>,
    pub lang_ext: Option<String>,
    pub service_provider: Option<ServiceProvider>,
    pub lyric_id: Option<String>,
    pub url: Option<String>,
    pub album_id: Option<String>,
}

#[verifier::external_type_specification]
#[verifier::external_body]
pub struct ExValue(serde_json::Value);

/// Relies on serde_json::from_str: the parsed document, or nothing for
/// malformed JSON.
#[verifier::external_body]
fn json_parse(s: &str) -> Option<serde_json::Value> {
    serde_json::from_str::<serde_json::Value>(s).ok()
}

/// Relies on serde_json::Value::get: the value under a key of an object,
/// nothing for other kinds of value or a missing key.
#[verifier::external_body]
fn value_get<'a>(v: &'a serde_json::Value, key: &str) -> Option<&'a serde_json::Value> {
    v.get(key)
}

/// Relies on serde_json::Value::as_str: the owned text of a string value,
/// nothing for any other kind.
#[verifier::external_body]
fn value_as_str(v: &serde_json::Value) -> Option<String> {
    v.as_str().map(|s| s.to_string())
}

/// Relies on serde_json::Value's PartialEq<str>: whether the value is
/// exactly this string.
#[verifier::external_body]
fn value_str_eq(v: &serde_json::Value, s: &str) -> bool {
    v.eq(s)
}

/// Relies on serde_json::Value's PartialEq<bool>: whether the value is
/// exactly this boolean.
#[verifier::external_body]
fn value_bool_eq(v: &serde_json::Value, b: bool) -> bool {
    v.eq(&b)
}

/// Relies on serde_json::Value::as_array: the elements of an array value,
/// nothing for any other kind.
#[verifier::external_body]
fn value_as_array(v: &serde_json::Value) -> Option<&Vec<serde_json::Value>> {
    v.as_array()
}

/// What one field of a provider record looked like: absent, present but not
/// text, or text.
pub enum JsonText {
    Absent,
    NotText,
    Text(String),
}

/// Read one field of a JSON object as text, keeping apart the three cases
/// the defaulting rules below distinguish.
fn field_text(v: &serde_json::Value, key: &str) -> JsonText {
    match value_get(v, key) {
        None => JsonText::Absent,
        Some(inner) => match value_as_str(inner) {
            None => JsonText::NotText,
            Some(s) => JsonText::Text(s),
        },
    }
}

/// The raw fields of one record in a provider's song list.
pub struct MiguRecordFields {
    pub id: JsonText,
    pub cover: JsonText,
    pub singer_name: JsonText,
    pub song_name: JsonText,
    pub album_id: JsonText,
    pub album_name: JsonText,
    pub mp3: JsonText,
    pub copyright_id: JsonText,
}

/// The exact defaulting rules for one record: which fields are required,
/// and what stands in for each optional one that is missing or not text.
pub open spec fn spec_migu_tag(f: MiguRecordFields, r: Option<SongTag>) -> bool {
    match r {
        Option::Some(tag) => {
            &&& (f.song_name matches JsonText::Text(t) && tag.title == Some(t))
            &&& (f.album_id matches JsonText::Text(a) && tag.album_id == Some(a))
            &&& (f.id matches JsonText::Text(i) && tag.song_id == Some(i))
            &&& (f.copyright_id matches JsonText::Text(c) && tag.lyric_id == Some(c))
            &&& (tag.artist matches Some(a) && a@ == (match f.singer_name {
                JsonText::Text(s) => s@,
                _ => "Unknown Singer"@,
            }))
            &&& (tag.album matches Some(a) && a@ == (match f.album_name {
                JsonText::Text(s) => s@,
                JsonText::NotText => ""@,
                JsonText::Absent => "Unknown Album"@,
            }))
            &&& (tag.pic_id matches Some(p) && p@ == (match f.cover {
                JsonText::Text(s) => s@,
                JsonText::NotText => ""@,
                JsonText::Absent => "N/A"@,
            }))
            &&& (tag.url matches Some(u) && u@ == (match f.mp3 {
                JsonText::Text(s) => s@,
                JsonText::NotText => "Copyright protected"@,
                JsonText::Absent => "N/A"@,
            }))
            &&& (tag.lang_ext matches Some(l) && l@ == "migu"@)
            &&& tag.service_provider == Some(ServiceProvider::Migu)
        },
        Option::None => {
            ||| !(f.song_name matches JsonText::Text(_))
            ||| !(f.album_id matches JsonText::Text(_))
            ||| !(f.id matches JsonText::Text(_))
            ||| !(f.copyright_id matches JsonText::Text(_))
        },
    }
}

/// Build one candidate record from raw fields: the song name, album id,
/// song id and copyright id must be text, the rest fall back to their
/// documented stand-ins.
pub fn song_tag_of_migu(f: MiguRecordFields) -> (r: Option<SongTag>)
    ensures
        spec_migu_tag(f, r),
{
    let title = match f.song_name {
        JsonText::Text(t) => t,
        _ => {
            return None;
        },
    };
    let album_id = match f.album_id {
        JsonText::Text(a) => a,
        _ => {
            return None;
        },
    };
    let song_id = match f.id {
        JsonText::Text(i) => i,
        _ => {
            return None;
        },
    };
    let lyric_id = match f.copyright_id {
        JsonText::Text(c) => c,
        _ => {
            return None;
        },
    };
    let artist = match f.singer_name {
        JsonText::Text(s) => s,
        _ => String::from_str("Unknown Singer"),
    };
    let album = match f.album_name {
        JsonText::Text(s) => s,
        JsonText::NotText => String::from_str(""),
        JsonText::Absent => String::from_str("Unknown Album"),
    };
    let pic_id = match f.cover {
        JsonText::Text(s) => s,
        JsonText::NotText => String::from_str(""),
        JsonText::Absent => String::from_str("N/A"),
    };
    let url = match f.mp3 {
        JsonText::Text(s) => s,
        JsonText::NotText => String::from_str("Copyright protected"),
        JsonText::Absent => String::from_str("N/A"),
    };
    Some(
        SongTag {
            song_id: Some(song_id),
            title: Some(title),
            artist: Some(artist),
            album: Some(album),
            pic_id: Some(pic_id),
            lang_ext: Some(String::from_str("migu")),
            service_provider: Some(ServiceProvider::Migu),
            lyric_id: Some(lyric_id),
            url: Some(url),
            album_id: Some(album_id),
        },
    )
}

/// Whether a raw record carries all four required text fields, and so
/// becomes a candidate.
pub open spec fn spec_migu_accepts(f: MiguRecordFields) -> bool {
    &&& (f.song_name matches JsonText::Text(_))
    &&& (f.album_id matches JsonText::Text(_))
    &&& (f.id matches JsonText::Text(_))
    &&& (f.copyright_id matches JsonText::Text(_))
}

/// Read the raw fields of one element of the provider's song list.
fn read_migu_fields(v: &serde_json::Value) -> MiguRecordFields {
    MiguRecordFields {
        id: field_text(v, "id"),
        cover: field_text(v, "cover"),
        singer_name: field_text(v, "singerName"),
        song_name: field_text(v, "songName"),
        album_id: field_text(v, "albumId"),
        album_name: field_text(v, "albumName"),
        mp3: field_text(v, "mp3"),
        copyright_id: field_text(v, "copyrightId"),
    }
}

/// Read one element of the provider's song list into a candidate record.
pub fn parse_song_info(v: &serde_json::Value) -> (r: Option<SongTag>)
    ensures
        (r matches Some(tag) ==> tag.service_provider == Some(ServiceProvider::Migu)),
{
    song_tag_of_migu(read_migu_fields(v))
}

/// The raw records the list walk accepts, in order.
pub open spec fn spec_accepted_records(rs: Seq<MiguRecordFields>) -> Seq<MiguRecordFields>
    decreases rs.len(),
{
    if rs.len() == 0 {
        Seq::empty()
    } else {
        spec_accepted_records(rs.drop_last()) + if spec_migu_accepts(rs.last()) {
            seq![rs.last()]
        } else {
            Seq::empty()
        }
    }
}

/// Build candidate records from raw ones: exactly one candidate per accepted
/// raw record, in the list's order, each by the exact defaulting rules;
/// rejected records are skipped silently.
pub fn song_tags_of_records(records: Vec<MiguRecordFields>) -> (tags: Vec<SongTag>)
    ensures
        tags@.len() == spec_accepted_records(records@).len(),
        forall|j: int|
            0 <= j < tags@.len() ==> spec_migu_tag(
                spec_accepted_records(records@)[j],
                Some(#[trigger] tags@[j]),
            ),
{
    let ghost rs = records@;
    let ghost mut k: int = 0;
    let mut records = records;
    let mut tags: Vec<SongTag> = Vec::new();
    loop
        invariant
            0 <= k <= rs.len(),
            records@ =~= rs.skip(k),
            tags@.len() == spec_accepted_records(rs.take(k)).len(),
            forall|j: int|
                0 <= j < tags@.len() ==> spec_migu_tag(
                    spec_accepted_records(rs.take(k))[j],
                    Some(#[trigger] tags@[j]),
                ),
        ensures
            k == rs.len(),
            tags@.len() == spec_accepted_records(rs).len(),
            forall|j: int|
                0 <= j < tags@.len() ==> spec_migu_tag(
                    spec_accepted_records(rs)[j],
                    Some(#[trigger] tags@[j]),
                ),
        decreases rs.len() - k,
    {
        if records.len() == 0 {
            proof {
                assert(rs.take(k) =~= rs);
            }
            break ;
        }
        let f = records.remove(0);
        proof {
            assert(rs.skip(k).len() > 0);
            assert(f == rs[k]);
            assert(rs.skip(k).remove(0) =~= rs.skip(k + 1));
            assert(rs.take(k + 1).drop_last() =~= rs.take(k));
            assert(rs.take(k + 1).last() == rs[k]);
        }
        match song_tag_of_migu(f) {
            Some(tag) => {
                tags.push(tag);
            },
            None => {},
        }
        proof {
            k = k + 1;
        }
    }
    tags
}

/// What a gated payload answers: the payload's text when the provider's
/// message confirmed success and the payload is text; nothing in every other
/// case — a failed answer maps to nothing, never to an error.
pub open spec fn spec_gated_text(confirmed: bool, payload: JsonText, r: Option<String>) -> bool {
    match r {
        Option::Some(s) => confirmed && (payload matches JsonText::Text(t) && s == t),
        Option::None => !confirmed || !(payload matches JsonText::Text(_)),
    }
}

/// The payload's text iff the provider confirmed success and the payload is
/// text.
pub fn gated_text(confirmed: bool, payload: JsonText) -> (r: Option<String>)
    ensures
        spec_gated_text(confirmed, payload, r),
{
    if !confirmed {
        return None;
    }
    match payload {
        JsonText::Text(t) => Some(t),
        _ => None,
    }
}

/// Whether the answer's message field is exactly the provider's success
/// word; a missing field counts as failure.
fn answer_confirmed(value: &serde_json::Value) -> bool {
    match value_get(value, "msg") {
        Some(m) => value_str_eq(m, "\u{6210}\u{529f}"),
        None => false,
    }
}

/// The lyric text of a provider answer whose message field signals success;
/// `spec_gated_text` pins what comes back for every gate and payload.
pub fn to_lyric(json: &str) -> (r: Option<String>) {
    let value = match json_parse(json) {
        Some(v) => v,
        None => {
            return None;
        },
    };
    let confirmed = answer_confirmed(&value);
    let payload = field_text(&value, "lyric");
    gated_text(confirmed, payload)
}

/// The cover picture location of a successful provider answer;
/// `spec_gated_text` pins what comes back for every gate and payload.
pub fn to_pic_url(json: &str) -> (r: Option<String>) {
    let value = match json_parse(json) {
        Some(v) => v,
        None => {
            return None;
        },
    };
    let confirmed = answer_confirmed(&value);
    let payload = field_text(&value, "largePic");
    gated_text(confirmed, payload)
}

/// Every candidate record of a successful search answer: one per accepted
/// element of the song list, in list order, as `song_tags_of_records`
/// states exactly; a failed answer maps to nothing.
pub fn to_song_info(json: &str) -> (r: Option<Vec<SongTag>>)
    ensures
        (r matches Some(tags) ==> forall|k: int|
            0 <= k < tags@.len() ==> (#[trigger] tags@[k]).service_provider == Some(
                ServiceProvider::Migu,
            )),
{
    let value = match json_parse(json) {
        Some(v) => v,
        None => {
            return None;
        },
    };
    let success = match value_get(&value, "success") {
        Some(s) => s,
        None => {
            return None;
        },
    };
    if !value_bool_eq(success, true) {
        return None;
    }
    let mut raw: Vec<MiguRecordFields> = Vec::new();
    match value_get(&value, "musics") {
        Some(musics) => {
            match value_as_array(musics) {
                Some(array) => {
                    let mut idx: usize = 0;
                    while idx < array.len()
                        decreases array.len() - idx,
                    {
                        raw.push(read_migu_fields(&array[idx]));
                        idx += 1;
                    }
                },
                None => {
                    return None;
                },
            }
        },
        None => {},
    }
    let tags = song_tags_of_records(raw);
    Some(tags)
}

} // verus!
