//! The control-side model: which popups are mounted and which component has
//! focus, the tag editor's dispatch, and the video-search pages. The terminal
//! widgets themselves are external collaborators; this is the state they
//! render.

use vstd::prelude::*;
use crate::playlist::Track;
use crate::youtube::{youtube_watch_url, YoutubeOptions};

verus! {

/// A component of the tag editor.
#[derive(Clone, Copy, Debug, PartialEq, Eq, Structural)]
pub enum IdTagEditor {
    CounterDelete,
    InputAlbum,
    InputArtist,
    InputGenre,
    InputTitle,
    SelectLyric,
    TableLyricOptions,
    TextareaLyric,
}

/// A mountable component of the interface.
#[derive(Clone, Copy, Debug, PartialEq, Eq, Structural)]
pub enum Id {
    DeleteConfirmRadioPopup,
    DeleteConfirmInputPopup,
    ErrorPopup,
    FeedDeleteConfirmRadioPopup,
    FeedDeleteConfirmInputPopup,
    HelpPopup,
    Library,
    MessagePopup,
    PodcastAddPopup,
    PodcastSearchTablePopup,
    QuitPopup,
    SavePlaylistPopup,
    SavePlaylistConfirm,
    TagEditor(IdTagEditor),
    YoutubeSearchInputPopup,
    YoutubeSearchTablePopup,
}

/// `s` with every occurrence of `x` removed; the rest keep their order.
pub open spec fn seq_remove_all<T>(s: Seq<T>, x: T) -> Seq<T>
    decreases s.len(),
{
    if s.len() == 0 {
        Seq::empty()
    } else {
        seq_remove_all(s.drop_last(), x) + if s.last() == x {
            Seq::empty()
        } else {
            seq![s.last()]
        }
    }
}

/// Removing an element that does not occur leaves the sequence whole.
pub proof fn lemma_remove_all_absent<T>(s: Seq<T>, x: T)
    requires
        !s.contains(x),
    ensures
        seq_remove_all(s, x) =~= s,
    decreases s.len(),
{
    if s.len() > 0 {
        assert(!s.drop_last().contains(x)) by {
            if s.drop_last().contains(x) {
                let k = choose|k: int| 0 <= k < s.drop_last().len() && s.drop_last()[k] == x;
                assert(s[k] == x);
            }
        }
        lemma_remove_all_absent(s.drop_last(), x);
        assert(s.last() != x) by {
            if s.last() == x {
                assert(s[s.len() - 1] == x);
            }
        }
    }
}

/// Whether `v` holds `id`.
fn contains_id(v: &Vec<Id>, id: Id) -> (r: bool)
    ensures
        r == v@.contains(id),
{
    let mut i: usize = 0;
    while i < v.len()
        invariant
            i <= v@.len(),
            forall|k: int| 0 <= k < i ==> v@[k] != id,
        decreases v@.len() - i,
    {
        if v[i] == id {
            return true;
        }
        i += 1;
    }
    false
}

/// The mounted components and the one with focus: the state behind the
/// widget tree that the terminal renders.
pub struct AppModel {
    pub mounted: Vec<Id>,
    pub active: Option<Id>,
}

impl AppModel {
    pub fn new() -> (a: AppModel)
        ensures
            a.mounted@.len() == 0,
            (a.active is None),
    {
        AppModel { mounted: Vec::new(), active: None }
    }

    pub open spec fn spec_mounted(self, id: Id) -> bool {
        self.mounted@.contains(id)
    }

    pub fn mounted(&self, id: Id) -> (r: bool)
        ensures
            r == self.spec_mounted(id),
    {
        contains_id(&self.mounted, id)
    }

    /// Mount a component, or replace it if it is already mounted; the rest
    /// of the tree is untouched.
    pub fn remount(&mut self, id: Id)
        ensures
            *final(self) == (AppModel {
                mounted: final(self).mounted,
                ..*old(self)
            }),
            final(self).mounted@ == (if old(self).spec_mounted(id) {
                old(self).mounted@
            } else {
                old(self).mounted@.push(id)
            }),
            final(self).spec_mounted(id),
    {
        if !contains_id(&self.mounted, id) {
            self.mounted.push(id);
            proof {
                assert(self.mounted@.last() == id);
                assert(self.mounted@.contains(id));
            }
        }
    }

    /// Give a mounted component the focus; an unmounted one is refused and
    /// nothing changes.
    pub fn active(&mut self, id: Id) -> (ok: bool)
        ensures
            ok == old(self).spec_mounted(id),
            *final(self) == (AppModel {
                active: if old(self).spec_mounted(id) {
                    Some(id)
                } else {
                    old(self).active
                },
                ..*old(self)
            }),
    {
        if contains_id(&self.mounted, id) {
            self.active = Some(id);
            true
        } else {
            false
        }
    }

    /// Unmount a component; focus leaves it if it had it, and every other
    /// component keeps its place.
    pub fn umount(&mut self, id: Id)
        ensures
            final(self).mounted@ == seq_remove_all(old(self).mounted@, id),
            final(self).active == (if old(self).active == Some(id) {
                Option::<Id>::None
            } else {
                old(self).active
            }),
    {
        let ghost orig = self.mounted@;
        let mut kept: Vec<Id> = Vec::new();
        let mut i: usize = 0;
        while i < self.mounted.len()
            invariant
                i <= orig.len(),
                self.mounted@ == orig,
                kept@ =~= seq_remove_all(orig.take(i as int), id),
            decreases orig.len() - i,
        {
            let x = self.mounted[i];
            if x != id {
                kept.push(x);
            }
            proof {
                assert(orig.take(i + 1).drop_last() =~= orig.take(i as int));
                assert(orig.take(i + 1).last() == orig[i as int]);
                assert(kept@ =~= seq_remove_all(orig.take(i + 1), id));
            }
            i += 1;
        }
        proof {
            assert(orig.take(orig.len() as int) =~= orig);
        }
        self.mounted = kept;
        let was_active = match self.active {
            Some(a) => a == id,
            None => false,
        };
        if was_active {
            self.active = None;
        }
    }
}

/// Focus requests the tag editor's components pass around as one blurs into
/// the next.
#[derive(Clone, Copy, Debug, PartialEq, Eq, Structural)]
pub enum TFMsg {
    CounterDeleteBlurDown,
    CounterDeleteBlurUp,
    InputAlbumBlurDown,
    InputAlbumBlurUp,
    InputArtistBlurDown,
    InputArtistBlurUp,
    InputGenreBlurDown,
    InputGenreBlurUp,
    InputTitleBlurDown,
    InputTitleBlurUp,
    SelectLyricBlurDown,
    SelectLyricBlurUp,
    TableLyricOptionsBlurDown,
    TableLyricOptionsBlurUp,
    TextareaLyricBlurDown,
    TextareaLyricBlurUp,
}

/// Requests the tag editor serves.
#[derive(Clone, Debug)]
pub enum TEMsg {
    TagEditorRun(String),
    TagEditorClose(Option<String>),
    TECounterDeleteOk,
    TESelectLyricOk(usize),
    TESearch,
    TEDownload(usize),
    TEEmbed(usize),
    TERename,
    TEFocus(TFMsg),
}

/// Work the tag editor asks the surrounding program to do: all of it file,
/// network or widget work that lives outside this model.
#[derive(Clone, Debug)]
pub enum TeAction {
    OpenEditor(String),
    CloseEditor(Option<String>),
    DeleteLyric,
    SelectLyric(usize),
    Search,
    Download(usize),
    Embed(usize),
    Rename,
}

/// Where each focus request moves the focus.
pub open spec fn spec_focus_target(msg: TFMsg) -> IdTagEditor {
    match msg {
        TFMsg::TextareaLyricBlurDown => IdTagEditor::InputArtist,
        TFMsg::InputTitleBlurUp => IdTagEditor::InputArtist,
        TFMsg::InputArtistBlurDown => IdTagEditor::InputTitle,
        TFMsg::InputAlbumBlurUp => IdTagEditor::InputTitle,
        TFMsg::InputTitleBlurDown => IdTagEditor::InputAlbum,
        TFMsg::InputGenreBlurUp => IdTagEditor::InputAlbum,
        TFMsg::InputAlbumBlurDown => IdTagEditor::InputGenre,
        TFMsg::TableLyricOptionsBlurUp => IdTagEditor::InputGenre,
        TFMsg::InputGenreBlurDown => IdTagEditor::TableLyricOptions,
        TFMsg::SelectLyricBlurUp => IdTagEditor::TableLyricOptions,
        TFMsg::TableLyricOptionsBlurDown => IdTagEditor::SelectLyric,
        TFMsg::CounterDeleteBlurUp => IdTagEditor::SelectLyric,
        TFMsg::SelectLyricBlurDown => IdTagEditor::CounterDelete,
        TFMsg::TextareaLyricBlurUp => IdTagEditor::CounterDelete,
        TFMsg::CounterDeleteBlurDown => IdTagEditor::TextareaLyric,
        TFMsg::InputArtistBlurUp => IdTagEditor::TextareaLyric,
    }
}

/// One podcast search hit, as the feed search hands it over.
#[derive(Clone, Debug)]
pub struct PodcastRecord {
    pub title: Option<String>,
    pub url: String,
}

/// The rows of the podcast search table: each hit's title — or the fixed
/// stand-in where the feed gave none — beside its address.
pub fn podcast_search_rows(records: &Vec<PodcastRecord>) -> (rows: Vec<(String, String)>)
    ensures
        rows@.len() == records@.len(),
        forall|k: int|
            0 <= k < rows@.len() ==> (#[trigger] rows@[k]).1@ == records@[k].url@ && rows@[k].0@
                == (match records@[k].title {
                Option::Some(t) => t@,
                Option::None => "no title found"@,
            }),
{
    let mut rows: Vec<(String, String)> = Vec::new();
    let mut i: usize = 0;
    while i < records.len()
        invariant
            i <= records@.len(),
            rows@.len() == i,
            forall|k: int|
                0 <= k < i ==> (#[trigger] rows@[k]).1@ == records@[k].url@ && rows@[k].0@
                    == (match records@[k].title {
                    Option::Some(t) => t@,
                    Option::None => "no title found"@,
                }),
        decreases records@.len() - i,
    {
        let title = match &records[i].title {
            Some(t) => String::from_str(t.as_str()),
            None => String::from_str("no title found"),
        };
        let url = String::from_str(records[i].url.as_str());
        rows.push((title, url));
        i += 1;
    }
    rows
}

/// The control-side model the interface renders.
pub struct Model {
    pub app: AppModel,
    pub youtube_options: YoutubeOptions,
    pub tageditor_song: Option<Track>,
    pub podcast_search_vec: Option<Vec<PodcastRecord>>,
}

impl Model {
    pub fn new() -> (m: Model)
        ensures
            m.app.mounted@.len() == 0,
            (m.app.active is None),
            m.youtube_options.items@.len() == 0,
            m.youtube_options.page == 1,
            (m.tageditor_song is None),
            (m.podcast_search_vec is None),
    {
        Model {
            app: AppModel::new(),
            youtube_options: YoutubeOptions::new(),
            tageditor_song: None,
            podcast_search_vec: None,
        }
    }

    /// Mount the delete-confirmation choice and give it focus.
    pub fn mount_confirm_radio(&mut self)
        ensures
            final(self).app.spec_mounted(Id::DeleteConfirmRadioPopup),
            final(self).app.active == Some(Id::DeleteConfirmRadioPopup),
            *final(self) == (Model { app: final(self).app, ..*old(self) }),
    {
        self.app.remount(Id::DeleteConfirmRadioPopup);
        let _focused = self.app.active(Id::DeleteConfirmRadioPopup);
    }

    /// Mount the delete-confirmation input and give it focus.
    pub fn mount_confirm_input(&mut self)
        ensures
            final(self).app.spec_mounted(Id::DeleteConfirmInputPopup),
            final(self).app.active == Some(Id::DeleteConfirmInputPopup),
            *final(self) == (Model { app: final(self).app, ..*old(self) }),
    {
        self.app.remount(Id::DeleteConfirmInputPopup);
        let _focused = self.app.active(Id::DeleteConfirmInputPopup);
    }

    /// Mount the feed delete-confirmation choice and give it focus.
    pub fn mount_feed_delete_confirm_radio(&mut self)
        ensures
            final(self).app.spec_mounted(Id::FeedDeleteConfirmRadioPopup),
            final(self).app.active == Some(Id::FeedDeleteConfirmRadioPopup),
            *final(self) == (Model { app: final(self).app, ..*old(self) }),
    {
        self.app.remount(Id::FeedDeleteConfirmRadioPopup);
        let _focused = self.app.active(Id::FeedDeleteConfirmRadioPopup);
    }

    /// Drop the feed delete-confirmation choice if it is up; focus leaves it
    /// only if it held it, and a call with nothing up changes nothing.
    pub fn umount_feed_delete_confirm_radio(&mut self)
        ensures
            final(self).app.mounted@ == seq_remove_all(
                old(self).app.mounted@,
                Id::FeedDeleteConfirmRadioPopup,
            ),
            final(self).app.active == (if old(self).app.spec_mounted(Id::FeedDeleteConfirmRadioPopup)
                && old(self).app.active == Some(Id::FeedDeleteConfirmRadioPopup) {
                Option::<Id>::None
            } else {
                old(self).app.active
            }),
            *final(self) == (Model { app: final(self).app, ..*old(self) }),
    {
        if self.app.mounted(Id::FeedDeleteConfirmRadioPopup) {
            self.app.umount(Id::FeedDeleteConfirmRadioPopup);
        } else {
            proof {
                lemma_remove_all_absent(self.app.mounted@, Id::FeedDeleteConfirmRadioPopup);
            }
        }
    }

    /// Mount the feed delete-confirmation input and give it focus.
    pub fn mount_feed_delete_confirm_input(&mut self)
        ensures
            final(self).app.spec_mounted(Id::FeedDeleteConfirmInputPopup),
            final(self).app.active == Some(Id::FeedDeleteConfirmInputPopup),
            *final(self) == (Model { app: final(self).app, ..*old(self) }),
    {
        self.app.remount(Id::FeedDeleteConfirmInputPopup);
        let _focused = self.app.active(Id::FeedDeleteConfirmInputPopup);
    }

    /// Drop the feed delete-confirmation input if it is up; focus leaves it
    /// only if it held it, and a call with nothing up changes nothing.
    pub fn umount_feed_delete_confirm_input(&mut self)
        ensures
            final(self).app.mounted@ == seq_remove_all(
                old(self).app.mounted@,
                Id::FeedDeleteConfirmInputPopup,
            ),
            final(self).app.active == (if old(self).app.spec_mounted(Id::FeedDeleteConfirmInputPopup)
                && old(self).app.active == Some(Id::FeedDeleteConfirmInputPopup) {
                Option::<Id>::None
            } else {
                old(self).app.active
            }),
            *final(self) == (Model { app: final(self).app, ..*old(self) }),
    {
        if self.app.mounted(Id::FeedDeleteConfirmInputPopup) {
            self.app.umount(Id::FeedDeleteConfirmInputPopup);
        } else {
            proof {
                lemma_remove_all_absent(self.app.mounted@, Id::FeedDeleteConfirmInputPopup);
            }
        }
    }

    /// Mount the podcast search table and give it focus.
    pub fn mount_podcast_search_table(&mut self)
        ensures
            final(self).app.spec_mounted(Id::PodcastSearchTablePopup),
            final(self).app.active == Some(Id::PodcastSearchTablePopup),
            *final(self) == (Model { app: final(self).app, ..*old(self) }),
    {
        self.app.remount(Id::PodcastSearchTablePopup);
        let _focused = self.app.active(Id::PodcastSearchTablePopup);
    }

    /// Drop the podcast search table if it is up; focus leaves it only if it
    /// held it, and a call with nothing up changes nothing.
    pub fn umount_podcast_search_table(&mut self)
        ensures
            final(self).app.mounted@ == seq_remove_all(
                old(self).app.mounted@,
                Id::PodcastSearchTablePopup,
            ),
            final(self).app.active == (if old(self).app.spec_mounted(Id::PodcastSearchTablePopup)
                && old(self).app.active == Some(Id::PodcastSearchTablePopup) {
                Option::<Id>::None
            } else {
                old(self).app.active
            }),
            *final(self) == (Model { app: final(self).app, ..*old(self) }),
    {
        if self.app.mounted(Id::PodcastSearchTablePopup) {
            self.app.umount(Id::PodcastSearchTablePopup);
        } else {
            proof {
                lemma_remove_all_absent(self.app.mounted@, Id::PodcastSearchTablePopup);
            }
        }
    }

    /// The rows of the podcast search table for the hits last searched: one
    /// row per hit, and a hint row when the playlist stands empty. What the
    /// widget shows is exactly this.
    pub fn update_podcast_search_table(&mut self, playlist_empty: bool) -> (rows: Vec<
        (String, String),
    >)
        ensures
            *final(self) == *old(self),
            match old(self).podcast_search_vec {
                Option::Some(v) => {
                    &&& rows@.len() == v@.len() + (if playlist_empty {
                        1int
                    } else {
                        0int
                    })
                    &&& (forall|k: int|
                        0 <= k < v@.len() ==> (#[trigger] rows@[k]).1@ == v@[k].url@ && rows@[k].0@
                            == (match v@[k].title {
                            Option::Some(t) => t@,
                            Option::None => "no title found"@,
                        }))
                    &&& (playlist_empty ==> rows@.last().0@ == "0"@ && rows@.last().1@
                        == "empty playlist"@)
                },
                Option::None => rows@.len() == 0,
            },
    {
        match &self.podcast_search_vec {
            Some(v) => {
                let mut rows = podcast_search_rows(v);
                if playlist_empty {
                    rows.push((String::from_str("0"), String::from_str("empty playlist")));
                }
                rows
            },
            None => Vec::new(),
        }
    }

    /// Serve one tag editor request: focus moves and lyric picks are applied
    /// here; everything that touches files, the network or the widgets is
    /// handed back as the action to run.
    pub fn update_tageditor(&mut self, msg: &TEMsg) -> (action: Option<TeAction>)
        ensures
            (*msg matches TEMsg::TagEditorRun(node) ==> *final(self) == *old(self) && (
            action matches Some(a) && (a matches TeAction::OpenEditor(n) && n@ == node@))),
            (*msg matches TEMsg::TagEditorClose(_) ==> *final(self) == *old(self) && (
            action matches Some(a) && (a matches TeAction::CloseEditor(f) && (match old(
                self,
            ).tageditor_song {
                Option::Some(song) => f matches Some(file) && file@ == song.file@,
                Option::None => f is None,
            })))),
            (*msg == TEMsg::TECounterDeleteOk ==> *final(self) == *old(self) && action == Some(
                TeAction::DeleteLyric,
            )),
            (*msg matches TEMsg::TESelectLyricOk(index) ==> action == Some(
                TeAction::SelectLyric(index),
            ) && *final(self) == (Model {
                tageditor_song: match old(self).tageditor_song {
                    Option::Some(song) => Option::Some(Track { lyric_selected: index, ..song }),
                    Option::None => Option::<Track>::None,
                },
                ..*old(self)
            })),
            (*msg == TEMsg::TESearch ==> *final(self) == *old(self) && action == Some(
                TeAction::Search,
            )),
            (*msg matches TEMsg::TEDownload(index) ==> *final(self) == *old(self) && action
                == Some(TeAction::Download(index))),
            (*msg matches TEMsg::TEEmbed(index) ==> *final(self) == *old(self) && action == Some(
                TeAction::Embed(index),
            )),
            (*msg == TEMsg::TERename ==> *final(self) == *old(self) && action == Some(
                TeAction::Rename,
            )),
            (*msg matches TEMsg::TEFocus(m) ==> action is None && *final(self) == (Model {
                app: AppModel {
                    active: if old(self).app.spec_mounted(Id::TagEditor(spec_focus_target(m))) {
                        Some(Id::TagEditor(spec_focus_target(m)))
                    } else {
                        old(self).app.active
                    },
                    ..old(self).app
                },
                ..*old(self)
            })),
    {
        match msg {
            TEMsg::TagEditorRun(node_id) => {
                Some(TeAction::OpenEditor(String::from_str(node_id.as_str())))
            },
            TEMsg::TagEditorClose(_song) => {
                let file = match &self.tageditor_song {
                    Some(song) => Some(String::from_str(song.file.as_str())),
                    None => None,
                };
                Some(TeAction::CloseEditor(file))
            },
            TEMsg::TECounterDeleteOk => Some(TeAction::DeleteLyric),
            TEMsg::TESelectLyricOk(index) => {
                match &mut self.tageditor_song {
                    Some(song) => {
                        song.lyric_selected = *index;
                    },
                    None => {},
                }
                Some(TeAction::SelectLyric(*index))
            },
            TEMsg::TESearch => Some(TeAction::Search),
            TEMsg::TEDownload(index) => Some(TeAction::Download(*index)),
            TEMsg::TEEmbed(index) => Some(TeAction::Embed(*index)),
            TEMsg::TERename => Some(TeAction::Rename),
            TEMsg::TEFocus(m) => {
                self.update_tag_editor_focus(m);
                None
            },
        }
    }

    /// Move the focus to the component a blur message names, if the editor
    /// has it mounted.
    pub fn update_tag_editor_focus(&mut self, msg: &TFMsg)
        ensures
            *final(self) == (Model {
                app: AppModel {
                    active: if old(self).app.spec_mounted(Id::TagEditor(spec_focus_target(*msg))) {
                        Some(Id::TagEditor(spec_focus_target(*msg)))
                    } else {
                        old(self).app.active
                    },
                    ..old(self).app
                },
                ..*old(self)
            }),
    {
        let target: IdTagEditor = match msg {
            TFMsg::TextareaLyricBlurDown | TFMsg::InputTitleBlurUp => IdTagEditor::InputArtist,
            TFMsg::InputArtistBlurDown | TFMsg::InputAlbumBlurUp => IdTagEditor::InputTitle,
            TFMsg::InputTitleBlurDown | TFMsg::InputGenreBlurUp => IdTagEditor::InputAlbum,
            TFMsg::InputAlbumBlurDown | TFMsg::TableLyricOptionsBlurUp => IdTagEditor::InputGenre,
            TFMsg::InputGenreBlurDown | TFMsg::SelectLyricBlurUp => IdTagEditor::TableLyricOptions,
            TFMsg::TableLyricOptionsBlurDown | TFMsg::CounterDeleteBlurUp => IdTagEditor::SelectLyric,
            TFMsg::SelectLyricBlurDown | TFMsg::TextareaLyricBlurUp => IdTagEditor::CounterDelete,
            TFMsg::CounterDeleteBlurDown | TFMsg::InputArtistBlurUp => IdTagEditor::TextareaLyric,
        };
        let _focused = self.app.active(Id::TagEditor(target));
    }

    /// The watch address to download for the search hit at `index`, if the
    /// page has one there.
    pub fn youtube_options_download(&mut self, index: usize) -> (r: Option<String>)
        ensures
            *final(self) == *old(self),
            match r {
                Some(url) => index < old(self).youtube_options.items@.len() && url@
                    =~= "https://www.youtube.com/watch?v="@
                    + old(self).youtube_options.items@[index as int].video_id@,
                None => index >= old(self).youtube_options.items@.len(),
            },
    {
        match self.youtube_options.get_by_index(index) {
            Some(item) => Some(youtube_watch_url(item.video_id.as_str())),
            None => None,
        }
    }

    /// One search page back, never before the first; the caller re-queries
    /// and re-renders.
    pub fn youtube_options_prev_page(&mut self)
        ensures
            *final(self) == (Model {
                youtube_options: YoutubeOptions {
                    page: if old(self).youtube_options.page > 1 {
                        (old(self).youtube_options.page - 1) as u32
                    } else {
                        old(self).youtube_options.page
                    },
                    ..old(self).youtube_options
                },
                ..*old(self)
            }),
    {
        self.youtube_options.prev_page();
    }

    /// One search page forward; the caller re-queries and re-renders.
    pub fn youtube_options_next_page(&mut self)
        ensures
            *final(self) == (Model {
                youtube_options: YoutubeOptions {
                    page: if old(self).youtube_options.page < u32::MAX {
                        (old(self).youtube_options.page + 1) as u32
                    } else {
                        old(self).youtube_options.page
                    },
                    ..old(self).youtube_options
                },
                ..*old(self)
            }),
    {
        self.youtube_options.next_page();
    }
}

} // verus!
