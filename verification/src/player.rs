//! The orchestrator: the one component that mutates the playlist and issues
//! backend commands, so that the two can never diverge. Also the command and
//! event vocabulary shared with the control process.

use vstd::prelude::*;
use crate::backend::{
    clamp_speed, clamp_volume, spec_seek_target, seek_target, BackendCmd, ChannelClosed, CmdView,
    MpvBackend,
};
use crate::channel::{channel_pair, clone_sender};
use crate::config::{SeekStep, Settings};
use crate::playlist::{EosOutcome, LoopMode, Playlist, Status, Track, SHUFFLE_STEP};

verus! {

/// Positions and durations are cached in seconds and held below this bound,
/// so that seek arithmetic can never overflow.
pub const MAX_CACHED_SECS: i64 = 4_000_000_000;

/// An event emitted by the backend loop for the orchestrator (and, fanned
/// out, for remote subscribers).
#[derive(Clone, Copy, Debug, PartialEq, Eq, Structural)]
pub enum PlayerMsg {
    /// The loaded media finished or was force-ended.
    Eos,
    /// The current track is close to its end.
    AboutToFinish,
    /// The engine started a new file.
    CurrentTrackUpdated,
    /// Position and duration, in seconds.
    Progress(i64, i64),
}

/// Every request a control-side caller can make of the player daemon.
#[derive(Clone, Debug)]
pub enum PlayerCmd {
    GetProgress,
    MessageOnEnd,
    Play(String, bool),
    TogglePause,
    QueueNext(String, bool),
    Resume,
    Seek(i64),
    SeekRelative(i64),
    Skip,
    Speed(i32),
    Stop,
    Volume(i64),
    ProcessID,
    Eos,
    VolumeUp,
    VolumeDown,
    CurrentTrackUpdated(String),
    CheckPlaylistChanged,
    ResetPlaylistChanged,
    ReloadPlaylist,
    StartPlay,
    FetchStatus,
    Progress(i64),
    SeekForward,
    SeekBackward,
}

impl PlayerCmd {
    /// Which commands mutate player state.
    pub open spec fn spec_is_mut(&self) -> bool {
        match *self {
            PlayerCmd::CheckPlaylistChanged => true,
            PlayerCmd::ResetPlaylistChanged => true,
            PlayerCmd::ReloadPlaylist => true,
            PlayerCmd::VolumeUp => true,
            PlayerCmd::VolumeDown => true,
            PlayerCmd::Eos => true,
            PlayerCmd::Skip => true,
            PlayerCmd::Resume => true,
            PlayerCmd::TogglePause => true,
            PlayerCmd::Stop => true,
            PlayerCmd::Seek(_) => true,
            PlayerCmd::StartPlay => true,
            PlayerCmd::SeekForward => true,
            PlayerCmd::SeekBackward => true,
            _ => false,
        }
    }

    /// Is this command mutable?
    pub fn is_mut(&self) -> (r: bool)
        ensures
            r == self.spec_is_mut(),
    {
        matches!(
            *self,
            PlayerCmd::CheckPlaylistChanged
                | PlayerCmd::ResetPlaylistChanged
                | PlayerCmd::ReloadPlaylist
                | PlayerCmd::VolumeUp
                | PlayerCmd::VolumeDown
                | PlayerCmd::Eos
                | PlayerCmd::Skip
                | PlayerCmd::Resume
                | PlayerCmd::TogglePause
                | PlayerCmd::Stop
                | PlayerCmd::Seek(_)
                | PlayerCmd::StartPlay
                | PlayerCmd::SeekForward
                | PlayerCmd::SeekBackward
        )
    }
}

/// The capability surface of one native playback engine: what the
/// orchestrator may ask of whichever backend was selected at startup.
pub trait PlayerTrait: Sized {
    /// The mirrored control values stay in their documented ranges.
    spec fn inv(&self) -> bool;

    /// The mirrored volume, in percent.
    spec fn spec_volume(&self) -> i32;

    /// The mirrored rate, in tenths of normal speed.
    spec fn spec_speed(&self) -> i32;

    /// Every command this player has handed to its engine, in order.
    spec fn spec_sent(&self) -> Seq<CmdView>;

    /// What `is_paused` reports.
    spec fn spec_is_paused(&self) -> bool;

    fn add_and_play(&mut self, current_track: &str)
        requires
            old(self).inv(),
        ensures
            final(self).inv(),
            final(self).spec_sent() == old(self).spec_sent().push(CmdView::Play(current_track@)),
            final(self).spec_volume() == old(self).spec_volume(),
            final(self).spec_speed() == old(self).spec_speed(),
    ;

    fn volume(&self) -> (v: i32)
        ensures
            v == self.spec_volume(),
    ;

    fn volume_up(&mut self)
        requires
            old(self).inv(),
        ensures
            final(self).inv(),
            final(self).spec_volume() as int == clamp_volume(old(self).spec_volume() + 5),
            final(self).spec_sent() == old(self).spec_sent().push(
                CmdView::Volume(final(self).spec_volume() as i64),
            ),
            final(self).spec_speed() == old(self).spec_speed(),
    ;

    fn volume_down(&mut self)
        requires
            old(self).inv(),
        ensures
            final(self).inv(),
            final(self).spec_volume() as int == clamp_volume(old(self).spec_volume() - 5),
            final(self).spec_sent() == old(self).spec_sent().push(
                CmdView::Volume(final(self).spec_volume() as i64),
            ),
            final(self).spec_speed() == old(self).spec_speed(),
    ;

    fn set_volume(&mut self, volume: i32)
        requires
            old(self).inv(),
        ensures
            final(self).inv(),
            final(self).spec_volume() as int == clamp_volume(volume as int),
            final(self).spec_sent() == old(self).spec_sent().push(
                CmdView::Volume(final(self).spec_volume() as i64),
            ),
            final(self).spec_speed() == old(self).spec_speed(),
    ;

    fn pause(&mut self)
        requires
            old(self).inv(),
        ensures
            final(self).inv(),
            final(self).spec_sent() == old(self).spec_sent().push(CmdView::Pause),
            final(self).spec_volume() == old(self).spec_volume(),
            final(self).spec_speed() == old(self).spec_speed(),
    ;

    fn resume(&mut self)
        requires
            old(self).inv(),
        ensures
            final(self).inv(),
            final(self).spec_sent() == old(self).spec_sent().push(CmdView::Resume),
            final(self).spec_volume() == old(self).spec_volume(),
            final(self).spec_speed() == old(self).spec_speed(),
    ;

    fn is_paused(&self) -> (b: bool)
        ensures
            b == self.spec_is_paused(),
    ;

    fn seek(&mut self, secs: i64) -> (r: Result<(), ChannelClosed>)
        requires
            old(self).inv(),
        ensures
            final(self).inv(),
            final(self).spec_sent() == old(self).spec_sent().push(CmdView::Seek(secs)),
            final(self).spec_volume() == old(self).spec_volume(),
            final(self).spec_speed() == old(self).spec_speed(),
    ;

    fn seek_to(&mut self, last_pos_secs: u64)
        requires
            old(self).inv(),
            last_pos_secs <= 0x7fff_ffff_ffff_ffff,
        ensures
            final(self).inv(),
            final(self).spec_sent() == old(self).spec_sent().push(
                CmdView::SeekAbsolute(last_pos_secs as i64),
            ),
            final(self).spec_volume() == old(self).spec_volume(),
            final(self).spec_speed() == old(self).spec_speed(),
    ;

    fn set_speed(&mut self, speed: i32)
        requires
            old(self).inv(),
        ensures
            final(self).inv(),
            final(self).spec_speed() as int == clamp_speed(speed as int),
            final(self).spec_sent() == old(self).spec_sent().push(
                CmdView::Speed(final(self).spec_speed()),
            ),
            final(self).spec_volume() == old(self).spec_volume(),
    ;

    fn speed_up(&mut self)
        requires
            old(self).inv(),
        ensures
            final(self).inv(),
            final(self).spec_speed() as int == clamp_speed(old(self).spec_speed() + 1),
            final(self).spec_sent() == old(self).spec_sent().push(
                CmdView::Speed(final(self).spec_speed()),
            ),
            final(self).spec_volume() == old(self).spec_volume(),
    ;

    fn speed_down(&mut self)
        requires
            old(self).inv(),
        ensures
            final(self).inv(),
            final(self).spec_speed() as int == clamp_speed(old(self).spec_speed() - 1),
            final(self).spec_sent() == old(self).spec_sent().push(
                CmdView::Speed(final(self).spec_speed()),
            ),
            final(self).spec_volume() == old(self).spec_volume(),
    ;

    fn speed(&self) -> (s: i32)
        ensures
            s == self.spec_speed(),
    ;

    fn stop(&mut self)
        requires
            old(self).inv(),
        ensures
            final(self).inv(),
            final(self).spec_sent() == old(self).spec_sent().push(CmdView::Stop),
            final(self).spec_volume() == old(self).spec_volume(),
            final(self).spec_speed() == old(self).spec_speed(),
    ;
}

/// The step a relative seek takes, in seconds: negative for backward,
/// positive for forward, long for long tracks when the step is automatic.
pub open spec fn spec_seek_offset(
    step: SeekStep,
    current_duration: Option<u64>,
    forward: bool,
) -> int {
    let base: int = match step {
        SeekStep::Short => -5,
        SeekStep::Long => -30,
        SeekStep::Auto => match current_duration {
            Option::Some(d) => if d >= 600 {
                -30
            } else {
                -5
            },
            Option::None => -5,
        },
    };
    if forward {
        -base
    } else {
        base
    }
}

/// Owns the playlist and the backend handle and is the single writer of
/// both; every mutation, local or remote, funnels through its methods.
pub struct GeneralPlayer {
    pub player: MpvBackend,
    pub message_tx: std::sync::mpsc::Sender<PlayerMsg>,
    pub message_rx: std::sync::mpsc::Receiver<PlayerMsg>,
    pub playlist: Playlist,
    pub config: Settings,
    /// Last position the backend loop reported, in seconds.
    pub position: i64,
    /// Last duration the backend loop reported, in seconds.
    pub duration: i64,
}

impl GeneralPlayer {
    pub open spec fn inv(&self) -> bool {
        &&& self.playlist.wf()
        &&& MpvBackend::inv(&self.player)
        &&& 0 <= self.position <= MAX_CACHED_SECS
        &&& 0 <= self.duration <= MAX_CACHED_SECS
    }

    /// Build the orchestrator and the queue the engine-owning loop drains.
    /// The persisted playlist is loaded by the caller and handed in as plain
    /// tracks.
    pub fn new(config: &Settings, tracks: Vec<Track>) -> (r: (
        GeneralPlayer,
        std::sync::mpsc::Receiver<BackendCmd>,
    ))
        ensures
            r.0.inv(),
            r.0.player.volume as int == clamp_volume(config.volume as int),
            r.0.player.speed as int == clamp_speed(config.speed as int),
            r.0.player.gapless == config.gapless,
            r.0.player.sent@ =~= seq![
                CmdView::Volume(clamp_volume(config.volume as int) as i64),
                CmdView::Speed(clamp_speed(config.speed as int) as i32),
                CmdView::Gapless(config.gapless),
            ],
            r.0.player.signaled@ =~= Seq::<PlayerMsg>::empty(),
            r.0.playlist.tracks == tracks,
            r.0.playlist.current == if tracks.len() > 0 {
                Some(0usize)
            } else {
                Option::<usize>::None
            },
            (r.0.playlist.prefetch is None),
            r.0.playlist.status == Status::Stopped,
            r.0.playlist.loop_mode == config.loop_mode,
            r.0.playlist.shuffle == config.shuffle,
            r.0.config == *config,
            r.0.position == 0,
            r.0.duration == 0,
    {
        let (message_tx, message_rx) = channel_pair::<PlayerMsg>();
        let (player, command_rx) = MpvBackend::new(config, clone_sender(&message_tx));
        let playlist = Playlist::new(tracks, config.loop_mode, config.shuffle);
        let gp = GeneralPlayer {
            player,
            message_tx,
            message_rx,
            playlist,
            config: *config,
            position: 0,
            duration: 0,
        };
        (gp, command_rx)
    }

    /// Flip whether the next track is pre-fetched; takes effect at the next
    /// transition.
    pub fn toggle_gapless(&mut self) -> (on: bool)
        ensures
            *final(self) == (GeneralPlayer {
                player: MpvBackend { gapless: !old(self).player.gapless, ..old(self).player },
                ..*old(self)
            }),
            on == final(self).player.gapless,
    {
        self.player.gapless = !self.player.gapless;
        self.player.gapless
    }

    /// Move to Running. A pre-fetched track is promoted without a new play
    /// command, because the backend is already streaming it; otherwise the
    /// current track is played afresh.
    pub fn start_play(&mut self)
        requires
            old(self).inv(),
        ensures
            final(self).inv(),
            (old(self).playlist.prefetch matches Some(j) ==> *final(self) == (GeneralPlayer {
                playlist: Playlist {
                    current: Some(j),
                    prefetch: Option::<usize>::None,
                    status: Status::Running,
                    ..old(self).playlist
                },
                ..*old(self)
            })),
            (old(self).playlist.prefetch is None ==> (old(self).playlist.current matches Some(i)
                ==> *final(self) == (GeneralPlayer {
                playlist: Playlist { status: Status::Running, ..old(self).playlist },
                player: MpvBackend {
                    sent: Ghost(old(self).player.sent@.push(
                        CmdView::Play(old(self).playlist.tracks[i as int].file@),
                    )),
                    ..old(self).player
                },
                ..*old(self)
            }))),
            (old(self).playlist.prefetch is None && old(self).playlist.current is None
                ==> *final(self) == (GeneralPlayer {
                playlist: Playlist { status: Status::Running, ..old(self).playlist },
                ..*old(self)
            })),
    {
        if self.playlist.is_stopped() || self.playlist.is_paused() {
            self.playlist.set_status(Status::Running);
        }
        if self.playlist.has_next_track() {
            self.playlist.promote_prefetch();
        } else {
            match self.playlist.get_current_track() {
                Some(file) => {
                    self.player.add_and_play(file.as_str());
                },
                None => {},
            }
        }
    }

    /// How one pre-fetch request changes the orchestrator: nothing while a
    /// pre-fetch is outstanding; otherwise the policy pick fills the slot
    /// and its file goes to the backend as the queued-next command, or,
    /// with no pick, only the shuffle draw moves.
    pub open spec fn spec_enqueue_effect(pre: GeneralPlayer, post: GeneralPlayer) -> bool {
        if pre.playlist.prefetch is Some {
            post == pre
        } else {
            match pre.playlist.spec_candidate() {
                Option::Some(k) => post == (GeneralPlayer {
                    playlist: Playlist {
                        prefetch: Option::Some(k as usize),
                        shuffle_state: vstd::wrapping::u64_specs::wrapping_add(
                            pre.playlist.shuffle_state,
                            SHUFFLE_STEP,
                        ),
                        ..pre.playlist
                    },
                    player: MpvBackend {
                        sent: Ghost(pre.player.sent@.push(
                            CmdView::QueueNext(pre.playlist.tracks[k].file@),
                        )),
                        ..pre.player
                    },
                    ..pre
                }),
                Option::None => post == (GeneralPlayer {
                    playlist: Playlist {
                        shuffle_state: vstd::wrapping::u64_specs::wrapping_add(
                            pre.playlist.shuffle_state,
                            SHUFFLE_STEP,
                        ),
                        ..pre.playlist
                    },
                    ..pre
                }),
            }
        }
    }

    /// Pre-fetch the policy's next pick and hand it to the backend ahead of
    /// the end of stream, so the engine is never starved between tracks. A
    /// second pre-fetch while one is outstanding does nothing.
    pub fn enqueue_next(&mut self)
        requires
            old(self).inv(),
        ensures
            final(self).inv(),
            Self::spec_enqueue_effect(*old(self), *final(self)),
    {
        if self.playlist.has_next_track() {
            return ;
        }
        match self.playlist.fetch_next_track() {
            Some(k) => {
                self.playlist.set_next_track(Some(k));
                let file = self.playlist.tracks[k].file.as_str();
                self.player.enqueue_next(file);
            },
            None => {},
        }
    }

    /// Skip the current track: clear any outstanding pre-fetch, then raise
    /// exactly one end-of-stream signal, so the ordinary end-of-stream path
    /// advances exactly once — never twice, whatever the pre-fetch state.
    /// With no current track the same single signal is raised anyway, the
    /// end-of-stream equivalent that keeps playback from wedging.
    pub fn skip(&mut self)
        requires
            old(self).inv(),
        ensures
            final(self).inv(),
            (old(self).playlist.current is Some ==> *final(self) == (GeneralPlayer {
                playlist: Playlist { prefetch: Option::<usize>::None, ..old(self).playlist },
                player: MpvBackend {
                    signaled: Ghost(old(self).player.signaled@.push(PlayerMsg::Eos)),
                    ..old(self).player
                },
                ..*old(self)
            })),
            (old(self).playlist.current is None ==> *final(self) == (GeneralPlayer {
                player: MpvBackend {
                    signaled: Ghost(old(self).player.signaled@.push(PlayerMsg::Eos)),
                    ..old(self).player
                },
                ..*old(self)
            })),
    {
        let has_current = match self.playlist.current {
            Some(_) => true,
            None => false,
        };
        if has_current {
            self.playlist.set_next_track(None);
        }
        self.player.skip_one();
    }

    /// Pause when running, resume when paused, do nothing when stopped.
    pub fn toggle_pause(&mut self)
        requires
            old(self).inv(),
        ensures
            final(self).inv(),
            (old(self).playlist.status == Status::Running ==> *final(self) == (GeneralPlayer {
                playlist: Playlist { status: Status::Paused, ..old(self).playlist },
                player: MpvBackend {
                    sent: Ghost(old(self).player.sent@.push(CmdView::Pause)),
                    ..old(self).player
                },
                ..*old(self)
            })),
            (old(self).playlist.status == Status::Paused ==> *final(self) == (GeneralPlayer {
                playlist: Playlist { status: Status::Running, ..old(self).playlist },
                player: MpvBackend {
                    sent: Ghost(old(self).player.sent@.push(CmdView::Resume)),
                    ..old(self).player
                },
                ..*old(self)
            })),
            (old(self).playlist.status == Status::Stopped ==> *final(self) == *old(self)),
    {
        match self.playlist.status() {
            Status::Running => {
                self.player.pause();
                self.playlist.set_status(Status::Paused);
            },
            Status::Stopped => {},
            Status::Paused => {
                self.player.resume();
                self.playlist.set_status(Status::Running);
            },
        }
    }

    /// The relative-seek step currently in force, by configured policy and
    /// the duration of the current track.
    pub open spec fn spec_current_offset(&self, forward: bool) -> int {
        spec_seek_offset(
            self.config.seek_step,
            match self.playlist.current {
                Option::Some(i) => Option::Some(self.playlist.tracks[i as int].duration_secs),
                Option::None => Option::None,
            },
            forward,
        )
    }

    /// Seek relative to the playing position: the step comes from policy,
    /// the command goes to the backend, and the cached position is updated
    /// optimistically to where the seek will land.
    pub fn seek_relative(&mut self, forward: bool)
        requires
            old(self).inv(),
        ensures
            final(self).inv(),
            ({
                let offset = old(self).spec_current_offset(forward);
                let target = spec_seek_target(offset, old(self).position as int, old(self).duration as int);
                *final(self) == (GeneralPlayer {
                    player: MpvBackend {
                        sent: Ghost(old(self).player.sent@.push(CmdView::Seek(offset as i64))),
                        ..old(self).player
                    },
                    position: target as i64,
                    ..*old(self)
                })
            }),
    {
        let mut offset: i64 = match self.config.seek_step {
            SeekStep::Short => -5,
            SeekStep::Long => -30,
            SeekStep::Auto => {
                match self.playlist.current_track() {
                    Some(track) => {
                        if track.duration() >= 600 {
                            -30
                        } else {
                            -5
                        }
                    },
                    None => -5,
                }
            },
        };
        if forward {
            offset = -offset;
        }
        let target = seek_target(offset, self.position, self.duration);
        self.position = target;
        let _ignored = self.player.seek(offset);
    }

    /// The cached progress pair: position and duration, in seconds.
    pub fn get_progress(&self) -> (r: (i64, i64))
        ensures
            r.0 == self.position,
            r.1 == self.duration,
    {
        (self.position, self.duration)
    }

    /// Apply an end of stream: promotion needs no backend command (the
    /// engine is already playing the pre-fetched file); a policy advance
    /// plays the next track afresh; the end of the queue stops the engine.
    pub fn handle_eos(&mut self)
        requires
            old(self).inv(),
        ensures
            final(self).inv(),
            final(self).playlist == old(self).playlist.spec_after_eos(),
            (old(self).playlist.prefetch is Some ==> *final(self) == (GeneralPlayer {
                playlist: old(self).playlist.spec_after_eos(),
                ..*old(self)
            })),
            (old(self).playlist.prefetch is None ==> match old(self).playlist.spec_candidate() {
                Option::Some(k) => *final(self) == (GeneralPlayer {
                    playlist: old(self).playlist.spec_after_eos(),
                    player: MpvBackend {
                        sent: Ghost(old(self).player.sent@.push(
                            CmdView::Play(old(self).playlist.tracks[k].file@),
                        )),
                        ..old(self).player
                    },
                    ..*old(self)
                }),
                Option::None => *final(self) == (GeneralPlayer {
                    playlist: old(self).playlist.spec_after_eos(),
                    player: MpvBackend {
                        sent: Ghost(old(self).player.sent@.push(CmdView::Stop)),
                        ..old(self).player
                    },
                    ..*old(self)
                }),
            }),
    {
        match self.playlist.handle_eos() {
            EosOutcome::Promoted(_) => {},
            EosOutcome::Advanced(k) => {
                proof {
                    old(self).playlist.lemma_candidate_in_bounds();
                }
                let file = self.playlist.tracks[k].file.as_str();
                self.player.add_and_play(file);
            },
            EosOutcome::Finished => {
                self.player.stop();
            },
        }
    }

    /// The index just before `i`, wrapping to the end of a non-empty queue.
    pub open spec fn spec_prev_index(i: int, len: int) -> int {
        if i > 0 {
            i - 1
        } else {
            len - 1
        }
    }

    /// Jump back one track: the previous index becomes current, any
    /// pre-fetch is dropped, and the track is played afresh.
    pub fn play_previous(&mut self)
        requires
            old(self).inv(),
        ensures
            final(self).inv(),
            (old(self).playlist.current matches Some(i) ==> *final(self) == (GeneralPlayer {
                playlist: Playlist {
                    current: Some(
                        Self::spec_prev_index(i as int, old(self).playlist.tracks.len() as int) as usize,
                    ),
                    prefetch: Option::<usize>::None,
                    ..old(self).playlist
                },
                player: MpvBackend {
                    sent: Ghost(old(self).player.sent@.push(CmdView::Play(
                        old(self).playlist.tracks[
                            Self::spec_prev_index(i as int, old(self).playlist.tracks.len() as int)
                        ].file@,
                    ))),
                    ..old(self).player
                },
                ..*old(self)
            })),
            (old(self).playlist.current is None ==> *final(self) == *old(self)),
    {
        match self.playlist.current {
            Some(i) => {
                let len = self.playlist.tracks.len();
                let p: usize = if i > 0 {
                    i - 1
                } else {
                    len - 1
                };
                self.playlist.current = Some(p);
                self.playlist.prefetch = None;
                let file = self.playlist.tracks[p].file.as_str();
                self.player.add_and_play(file);
            },
            None => {},
        }
    }

    /// Play the track at `index`: it becomes current, any pre-fetch is
    /// dropped, and playback runs. An index outside the queue is rejected
    /// without any effect.
    pub fn play_selected(&mut self, index: usize)
        requires
            old(self).inv(),
        ensures
            final(self).inv(),
            (index < old(self).playlist.tracks.len() ==> *final(self) == (GeneralPlayer {
                playlist: Playlist {
                    current: Some(index),
                    prefetch: Option::<usize>::None,
                    status: Status::Running,
                    ..old(self).playlist
                },
                player: MpvBackend {
                    sent: Ghost(old(self).player.sent@.push(
                        CmdView::Play(old(self).playlist.tracks[index as int].file@),
                    )),
                    ..old(self).player
                },
                ..*old(self)
            })),
            (index >= old(self).playlist.tracks.len() ==> *final(self) == *old(self)),
    {
        if index < self.playlist.tracks.len() {
            self.playlist.current = Some(index);
            self.playlist.prefetch = None;
            self.playlist.status = Status::Running;
            let file = self.playlist.tracks[index].file.as_str();
            self.player.add_and_play(file);
        }
    }

    /// Replace the queue with freshly loaded tracks; the cursor returns to
    /// the head and playback is stopped until asked for again.
    pub fn reload_playlist(&mut self, tracks: Vec<Track>)
        requires
            old(self).inv(),
        ensures
            final(self).inv(),
            *final(self) == (GeneralPlayer {
                playlist: Playlist {
                    tracks: tracks,
                    current: if tracks.len() > 0 {
                        Some(0usize)
                    } else {
                        Option::<usize>::None
                    },
                    prefetch: Option::<usize>::None,
                    status: Status::Stopped,
                    loop_mode: old(self).playlist.loop_mode,
                    shuffle: old(self).playlist.shuffle,
                    shuffle_state: 0,
                },
                ..*old(self)
            }),
    {
        let loop_mode = self.playlist.loop_mode;
        let shuffle = self.playlist.shuffle;
        self.playlist = Playlist::new(tracks, loop_mode, shuffle);
    }

    /// Take one backend message: an end of stream advances the playlist, a
    /// progress report refreshes the cached position and duration (held to
    /// sane bounds), and a starting or nearly finished track triggers the
    /// proactive pre-fetch that keeps transitions gapless.
    pub fn handle_msg(&mut self, msg: PlayerMsg)
        requires
            old(self).inv(),
        ensures
            final(self).inv(),
            (msg matches PlayerMsg::Progress(p, d) ==> *final(self) == (GeneralPlayer {
                position: clamp_secs(p as int) as i64,
                duration: clamp_secs(d as int) as i64,
                ..*old(self)
            })),
            ((msg == PlayerMsg::AboutToFinish || msg == PlayerMsg::CurrentTrackUpdated)
                && old(self).player.gapless ==> Self::spec_enqueue_effect(
                *old(self),
                *final(self),
            )),
            ((msg == PlayerMsg::AboutToFinish || msg == PlayerMsg::CurrentTrackUpdated) && !old(
                self,
            ).player.gapless ==> *final(self) == *old(self)),
            (msg == PlayerMsg::Eos ==> final(self).playlist == old(self).playlist.spec_after_eos()),
    {
        match msg {
            PlayerMsg::Eos => {
                self.handle_eos();
            },
            PlayerMsg::Progress(p, d) => {
                self.position = clamp_secs_exec(p);
                self.duration = clamp_secs_exec(d);
            },
            PlayerMsg::AboutToFinish => {
                if self.player.gapless {
                    self.enqueue_next();
                }
            },
            PlayerMsg::CurrentTrackUpdated => {
                if self.player.gapless {
                    self.enqueue_next();
                }
            },
        }
    }
}

/// The gapless transition, end to end: for a queue of N tracks with loop
/// mode Queue, shuffle off and track `i` current, the proactive pre-fetch
/// picks `(i + 1) % N` and hands the backend exactly one queued-next command
/// for that track, and the end of stream that follows promotes the pick —
/// the cursor lands on `(i + 1) % N` with the slot cleared. The promotion
/// path owes the backend nothing: with the slot filled, `handle_eos` leaves
/// the command log untouched, so the only command across the transition is
/// that prior queued-next and never a fresh play.
pub proof fn lemma_gapless_queue_transition(pre: GeneralPlayer, mid: GeneralPlayer, i: usize)
    requires
        pre.inv(),
        pre.playlist.loop_mode == LoopMode::Queue,
        !pre.playlist.shuffle,
        pre.playlist.current == Some(i),
        (pre.playlist.prefetch is None),
        pre.playlist.tracks.len() > 0,
        GeneralPlayer::spec_enqueue_effect(pre, mid),
    ensures
        ({
            let k = (i + 1) % (pre.playlist.tracks.len() as int);
            &&& mid.playlist.prefetch == Some(k as usize)
            &&& mid.player.sent@ == pre.player.sent@.push(
                CmdView::QueueNext(pre.playlist.tracks[k].file@),
            )
            &&& mid.playlist.spec_after_eos().current == Some(k as usize)
            &&& (mid.playlist.spec_after_eos().prefetch is None)
        }),
{
}

/// Progress values are held to `[0, MAX_CACHED_SECS]` before caching.
pub open spec fn clamp_secs(x: int) -> int {
    if x < 0 {
        0
    } else if x > MAX_CACHED_SECS {
        MAX_CACHED_SECS as int
    } else {
        x
    }
}

fn clamp_secs_exec(x: i64) -> (r: i64)
    ensures
        r == clamp_secs(x as int),
{
    if x < 0 {
        0
    } else if x > MAX_CACHED_SECS {
        MAX_CACHED_SECS
    } else {
        x
    }
}

impl PlayerTrait for GeneralPlayer {
    open spec fn inv(&self) -> bool {
        GeneralPlayer::inv(self)
    }

    open spec fn spec_volume(&self) -> i32 {
        self.player.volume
    }

    open spec fn spec_speed(&self) -> i32 {
        self.player.speed
    }

    open spec fn spec_sent(&self) -> Seq<CmdView> {
        self.player.sent@
    }

    open spec fn spec_is_paused(&self) -> bool {
        self.playlist.status == Status::Paused
    }

    fn add_and_play(&mut self, current_track: &str)
        ensures
            *final(self) == (GeneralPlayer {
                player: MpvBackend {
                    sent: Ghost(old(self).player.sent@.push(CmdView::Play(current_track@))),
                    ..old(self).player
                },
                ..*old(self)
            }),
    {
        self.player.add_and_play(current_track);
    }

    fn volume(&self) -> (v: i32) {
        self.player.volume()
    }

    fn volume_up(&mut self)
        ensures
            *final(self) == (GeneralPlayer {
                player: MpvBackend {
                    volume: clamp_volume(old(self).player.volume + 5) as i32,
                    sent: Ghost(old(self).player.sent@.push(
                        CmdView::Volume(clamp_volume(old(self).player.volume + 5) as i64),
                    )),
                    ..old(self).player
                },
                ..*old(self)
            }),
    {
        self.player.volume_up();
    }

    fn volume_down(&mut self)
        ensures
            *final(self) == (GeneralPlayer {
                player: MpvBackend {
                    volume: clamp_volume(old(self).player.volume - 5) as i32,
                    sent: Ghost(old(self).player.sent@.push(
                        CmdView::Volume(clamp_volume(old(self).player.volume - 5) as i64),
                    )),
                    ..old(self).player
                },
                ..*old(self)
            }),
    {
        self.player.volume_down();
    }

    fn set_volume(&mut self, volume: i32)
        ensures
            *final(self) == (GeneralPlayer {
                player: MpvBackend {
                    volume: clamp_volume(volume as int) as i32,
                    sent: Ghost(old(self).player.sent@.push(
                        CmdView::Volume(clamp_volume(volume as int) as i64),
                    )),
                    ..old(self).player
                },
                ..*old(self)
            }),
    {
        self.player.set_volume(volume);
    }

    /// Pausing records the run state as well, so a later resume knows to
    /// pick playback back up.
    fn pause(&mut self)
        ensures
            *final(self) == (GeneralPlayer {
                playlist: Playlist { status: Status::Paused, ..old(self).playlist },
                player: MpvBackend {
                    sent: Ghost(old(self).player.sent@.push(CmdView::Pause)),
                    ..old(self).player
                },
                ..*old(self)
            }),
    {
        self.playlist.set_status(Status::Paused);
        self.player.pause();
    }

    fn resume(&mut self)
        ensures
            *final(self) == (GeneralPlayer {
                playlist: Playlist { status: Status::Running, ..old(self).playlist },
                player: MpvBackend {
                    sent: Ghost(old(self).player.sent@.push(CmdView::Resume)),
                    ..old(self).player
                },
                ..*old(self)
            }),
    {
        self.playlist.set_status(Status::Running);
        self.player.resume();
    }

    fn is_paused(&self) -> (b: bool) {
        self.playlist.is_paused()
    }

    fn seek(&mut self, secs: i64) -> (r: Result<(), ChannelClosed>)
        ensures
            *final(self) == (GeneralPlayer {
                player: MpvBackend {
                    sent: Ghost(old(self).player.sent@.push(CmdView::Seek(secs))),
                    ..old(self).player
                },
                ..*old(self)
            }),
    {
        self.player.seek(secs)
    }

    fn seek_to(&mut self, last_pos_secs: u64)
        ensures
            *final(self) == (GeneralPlayer {
                player: MpvBackend {
                    sent: Ghost(old(self).player.sent@.push(
                        CmdView::SeekAbsolute(last_pos_secs as i64),
                    )),
                    ..old(self).player
                },
                ..*old(self)
            }),
    {
        self.player.seek_to(last_pos_secs);
    }

    fn set_speed(&mut self, speed: i32)
        ensures
            *final(self) == (GeneralPlayer {
                player: MpvBackend {
                    speed: clamp_speed(speed as int) as i32,
                    sent: Ghost(old(self).player.sent@.push(
                        CmdView::Speed(clamp_speed(speed as int) as i32),
                    )),
                    ..old(self).player
                },
                ..*old(self)
            }),
    {
        self.player.set_speed(speed);
    }

    fn speed_up(&mut self)
        ensures
            *final(self) == (GeneralPlayer {
                player: MpvBackend {
                    speed: clamp_speed(old(self).player.speed + 1) as i32,
                    sent: Ghost(old(self).player.sent@.push(
                        CmdView::Speed(clamp_speed(old(self).player.speed + 1) as i32),
                    )),
                    ..old(self).player
                },
                ..*old(self)
            }),
    {
        self.player.speed_up();
    }

    fn speed_down(&mut self)
        ensures
            *final(self) == (GeneralPlayer {
                player: MpvBackend {
                    speed: clamp_speed(old(self).player.speed - 1) as i32,
                    sent: Ghost(old(self).player.sent@.push(
                        CmdView::Speed(clamp_speed(old(self).player.speed - 1) as i32),
                    )),
                    ..old(self).player
                },
                ..*old(self)
            }),
    {
        self.player.speed_down();
    }

    fn speed(&self) -> (s: i32) {
        self.player.speed()
    }

    /// A full stop clears both the cursor and the pre-fetch slot along with
    /// stopping the engine: a stopped playlist considers nothing playing.
    fn stop(&mut self)
        ensures
            *final(self) == (GeneralPlayer {
                playlist: Playlist {
                    status: Status::Stopped,
                    prefetch: Option::<usize>::None,
                    current: Option::<usize>::None,
                    ..old(self).playlist
                },
                player: MpvBackend {
                    sent: Ghost(old(self).player.sent@.push(CmdView::Stop)),
                    ..old(self).player
                },
                ..*old(self)
            }),
    {
        self.playlist.set_status(Status::Stopped);
        self.playlist.set_next_track(None);
        self.playlist.clear_current_track();
        self.player.stop();
    }
}

} // verus!
