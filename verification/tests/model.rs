use termusic::model::{Id, IdTagEditor, Model, PodcastRecord, TeAction, TEMsg, TFMsg};
use termusic::playlist::Track;

#[test]
fn mount_confirm_radio_mounts_and_focuses() {
    let mut m = Model::new();
    m.mount_confirm_radio();
    assert!(m.app.mounted.contains(&Id::DeleteConfirmRadioPopup));
    assert_eq!(m.app.active, Some(Id::DeleteConfirmRadioPopup));
}

#[test]
fn mount_confirm_input_mounts_and_focuses() {
    let mut m = Model::new();
    m.mount_confirm_input();
    assert!(m.app.mounted.contains(&Id::DeleteConfirmInputPopup));
    assert_eq!(m.app.active, Some(Id::DeleteConfirmInputPopup));
}

#[test]
fn feed_delete_confirm_radio_mounts_and_unmounts() {
    let mut m = Model::new();
    m.mount_feed_delete_confirm_radio();
    assert!(m.app.mounted.contains(&Id::FeedDeleteConfirmRadioPopup));
    assert_eq!(m.app.active, Some(Id::FeedDeleteConfirmRadioPopup));
    m.umount_feed_delete_confirm_radio();
    assert!(!m.app.mounted.contains(&Id::FeedDeleteConfirmRadioPopup));
    assert_eq!(m.app.active, None);
    // Unmounting again is harmless.
    m.umount_feed_delete_confirm_radio();
    assert!(!m.app.mounted.contains(&Id::FeedDeleteConfirmRadioPopup));
}

#[test]
fn feed_delete_confirm_input_mounts_and_unmounts() {
    let mut m = Model::new();
    m.mount_feed_delete_confirm_input();
    assert!(m.app.mounted.contains(&Id::FeedDeleteConfirmInputPopup));
    m.umount_feed_delete_confirm_input();
    assert!(!m.app.mounted.contains(&Id::FeedDeleteConfirmInputPopup));
}

#[test]
fn podcast_search_table_mounts_and_unmounts() {
    let mut m = Model::new();
    m.mount_podcast_search_table();
    assert!(m.app.mounted.contains(&Id::PodcastSearchTablePopup));
    assert_eq!(m.app.active, Some(Id::PodcastSearchTablePopup));
    m.umount_podcast_search_table();
    assert!(!m.app.mounted.contains(&Id::PodcastSearchTablePopup));
}

#[test]
fn unmounting_one_popup_spares_the_others() {
    let mut m = Model::new();
    m.mount_feed_delete_confirm_radio();
    m.mount_podcast_search_table();
    m.umount_feed_delete_confirm_radio();
    assert!(m.app.mounted.contains(&Id::PodcastSearchTablePopup));
    // Focus was on the table, not on the removed popup, so it stays.
    assert_eq!(m.app.active, Some(Id::PodcastSearchTablePopup));
}

#[test]
fn remount_does_not_duplicate() {
    let mut m = Model::new();
    m.mount_confirm_radio();
    m.mount_confirm_radio();
    let n = m.app.mounted.iter().filter(|x| **x == Id::DeleteConfirmRadioPopup).count();
    assert_eq!(n, 1);
}

#[test]
fn tageditor_run_hands_back_the_node() {
    let mut m = Model::new();
    let action = m.update_tageditor(&TEMsg::TagEditorRun("node7".to_string()));
    assert!(matches!(action, Some(TeAction::OpenEditor(n)) if n == "node7"));
}

#[test]
fn tageditor_close_names_the_open_song() {
    let mut m = Model::new();
    m.tageditor_song = Some(Track::new("song.mp3".to_string(), 180));
    let action = m.update_tageditor(&TEMsg::TagEditorClose(None));
    assert!(matches!(action, Some(TeAction::CloseEditor(Some(f))) if f == "song.mp3"));
    m.tageditor_song = None;
    let action = m.update_tageditor(&TEMsg::TagEditorClose(None));
    assert!(matches!(action, Some(TeAction::CloseEditor(None))));
}

#[test]
fn tageditor_select_lyric_updates_the_song() {
    let mut m = Model::new();
    m.tageditor_song = Some(Track::new("song.mp3".to_string(), 180));
    let action = m.update_tageditor(&TEMsg::TESelectLyricOk(3));
    assert!(matches!(action, Some(TeAction::SelectLyric(3))));
    assert_eq!(m.tageditor_song.as_ref().unwrap().lyric_selected, 3);
}

#[test]
fn tageditor_io_arms_become_actions() {
    let mut m = Model::new();
    assert!(matches!(m.update_tageditor(&TEMsg::TECounterDeleteOk), Some(TeAction::DeleteLyric)));
    assert!(matches!(m.update_tageditor(&TEMsg::TESearch), Some(TeAction::Search)));
    assert!(matches!(m.update_tageditor(&TEMsg::TEDownload(2)), Some(TeAction::Download(2))));
    assert!(matches!(m.update_tageditor(&TEMsg::TEEmbed(1)), Some(TeAction::Embed(1))));
    assert!(matches!(m.update_tageditor(&TEMsg::TERename), Some(TeAction::Rename)));
}

#[test]
fn focus_moves_between_mounted_editor_components() {
    let mut m = Model::new();
    m.app.remount(Id::TagEditor(IdTagEditor::InputArtist));
    m.app.remount(Id::TagEditor(IdTagEditor::InputTitle));
    let action = m.update_tageditor(&TEMsg::TEFocus(TFMsg::InputArtistBlurDown));
    assert!(action.is_none());
    assert_eq!(m.app.active, Some(Id::TagEditor(IdTagEditor::InputTitle)));
    m.update_tag_editor_focus(&TFMsg::InputAlbumBlurUp);
    assert_eq!(m.app.active, Some(Id::TagEditor(IdTagEditor::InputTitle)));
    // A blur towards an unmounted component leaves the focus alone.
    m.update_tag_editor_focus(&TFMsg::CounterDeleteBlurDown);
    assert_eq!(m.app.active, Some(Id::TagEditor(IdTagEditor::InputTitle)));
}

#[test]
fn podcast_search_rows_use_the_stand_in_title() {
    let mut m = Model::new();
    assert_eq!(m.update_podcast_search_table(false).len(), 0);
    m.podcast_search_vec = Some(vec![
        PodcastRecord { title: Some("A show".to_string()), url: "http://a".to_string() },
        PodcastRecord { title: None, url: "http://b".to_string() },
    ]);
    let rows = m.update_podcast_search_table(false);
    assert_eq!(rows[0], ("A show".to_string(), "http://a".to_string()));
    assert_eq!(rows[1], ("no title found".to_string(), "http://b".to_string()));
    let rows = m.update_podcast_search_table(true);
    assert_eq!(rows.len(), 3);
    assert_eq!(rows[2], ("0".to_string(), "empty playlist".to_string()));
}
