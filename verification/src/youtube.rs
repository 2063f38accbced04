//! Search results from the video site and the downloader's output: paging
//! through candidates, the watch address of a pick, and finding the audio
//! file that a finished download left behind.

use vstd::prelude::*;

verus! {

/// What the downloader's output names as the extracted audio file: the
/// capture of the fixed destination pattern, a function of the output text
/// alone.
pub uninterp spec fn ytdlp_destination_of(output: Seq<char>) -> Option<Seq<char>>;

/// Relies on regex::Regex::captures with the fixed pattern
/// `\[ExtractAudio\] Destination: (?P<name>.*)\.mp3`: the text of the capture
/// named `name`, if the output matches.
#[verifier::external_body]
fn ytdlp_destination(output: &str) -> (r: Option<String>)
    ensures
        match r {
            Some(name) => ytdlp_destination_of(output@) == Some(name@),
            None => ytdlp_destination_of(output@) is None,
        },
{
    let re = regex::Regex::new(r"\[ExtractAudio\] Destination: (?P<name>.*)\.mp3").unwrap();
    re.captures(output).and_then(|cap| cap.name("name")).map(|c| c.as_str().to_string())
}

/// The full path of the audio file a download produced, read out of the
/// downloader's output: the captured name under the download directory,
/// with the audio suffix restored.
pub fn extract_filepath(output: &str, dir: &str) -> (r: Option<String>)
    ensures
        match ytdlp_destination_of(output@) {
            Option::Some(name) => (r matches Some(f) && f@ =~= dir@ + "/"@ + name + ".mp3"@),
            Option::None => r is None,
        },
{
    match ytdlp_destination(output) {
        Some(name) => {
            let mut path = String::from_str(dir);
            path.append("/");
            path.append(name.as_str());
            path.append(".mp3");
            Some(path)
        },
        None => None,
    }
}

/// One search hit.
#[derive(Clone, Debug)]
pub struct YoutubeRecord {
    pub video_id: String,
    pub title: String,
    pub length_seconds: u64,
}

/// One page of search hits.
#[derive(Clone, Debug)]
pub struct YoutubeOptions {
    pub items: Vec<YoutubeRecord>,
    pub page: u32,
}

impl YoutubeOptions {
    pub fn new() -> (o: YoutubeOptions)
        ensures
            o.items@.len() == 0,
            o.page == 1,
    {
        YoutubeOptions { items: Vec::new(), page: 1 }
    }

    pub fn get_by_index(&self, index: usize) -> (r: Option<&YoutubeRecord>)
        ensures
            match r {
                Some(item) => index < self.items@.len() && *item == self.items@[index as int],
                None => index >= self.items@.len(),
            },
    {
        if index < self.items.len() {
            Some(&self.items[index])
        } else {
            None
        }
    }

    pub fn page(&self) -> (p: u32)
        ensures
            p == self.page,
    {
        self.page
    }

    /// One page back, never before the first; the caller re-queries the
    /// provider for the page's hits.
    pub fn prev_page(&mut self)
        ensures
            *final(self) == (YoutubeOptions {
                page: if old(self).page > 1 {
                    (old(self).page - 1) as u32
                } else {
                    old(self).page
                },
                ..*old(self)
            }),
    {
        if self.page > 1 {
            self.page = self.page - 1;
        }
    }

    /// One page forward; the caller re-queries the provider for the page's
    /// hits.
    pub fn next_page(&mut self)
        ensures
            *final(self) == (YoutubeOptions {
                page: if old(self).page < u32::MAX {
                    (old(self).page + 1) as u32
                } else {
                    old(self).page
                },
                ..*old(self)
            }),
    {
        if self.page < u32::MAX {
            self.page = self.page + 1;
        }
    }
}

/// The watch address of one search hit.
pub fn youtube_watch_url(video_id: &str) -> (url: String)
    ensures
        url@ =~= "https://www.youtube.com/watch?v="@ + video_id@,
{
    let mut url = String::from_str("https://www.youtube.com/watch?v=");
    url.append(video_id);
    url
}

} // verus!
