//! The control protocol: requests a remote caller can make, the response each
//! one earns once the in-memory mutation is applied, and the push stream of
//! updates fanned out to subscribers.

use vstd::prelude::*;
use crate::backend::{clamp_speed, clamp_volume, spec_seek_target, CmdView, MpvBackend};
use crate::channel::{channel_pair, channel_send};
use crate::player::{GeneralPlayer, PlayerMsg, PlayerTrait};
use crate::playlist::{LoopMode, Playlist, Status, Track};

verus! {

/// One remote call into the player daemon. The playlist to load rides along
/// with a reload, since only the caller's side touches the disk.
#[derive(Debug)]
pub enum DaemonRequest {
    TogglePause,
    SkipNext,
    SkipPrevious,
    GetProgress,
    VolumeUp,
    VolumeDown,
    SpeedUp,
    SpeedDown,
    ToggleGapless,
    SeekForward,
    SeekBackward,
    CycleLoopMode,
    ReloadPlaylist(Vec<Track>),
    PlaySelected(usize),
}

/// What a request returns once the in-memory mutation is applied — not
/// necessarily once the engine has physically completed it.
#[derive(Clone, Copy, Debug, PartialEq, Eq, Structural)]
pub enum DaemonResponse {
    /// The run state after a pause toggle, in wire encoding.
    Toggled(u32),
    /// Position and duration, in seconds.
    Progress(u32, u32),
    /// The volume now in force, in percent.
    Volume(i32),
    /// The playback rate now in force, in tenths.
    Speed(i32),
    /// Whether gapless pre-fetching is now on.
    Gapless(bool),
    /// Where a seek will land and the cached duration, in seconds.
    Seeked(u32, u32),
    /// The loop mode now in force.
    Cycled(LoopMode),
    /// Done, with nothing to report.
    Ack,
}

/// The run state a pause toggle moves to.
pub open spec fn spec_toggled_status(s: Status) -> Status {
    match s {
        Status::Running => Status::Paused,
        Status::Paused => Status::Running,
        Status::Stopped => Status::Stopped,
    }
}

/// Serve one request: apply the mutation through the single-writer
/// orchestrator and return the resulting value, exactly as the in-memory
/// state now holds it.
pub fn handle_request(player: &mut GeneralPlayer, req: DaemonRequest) -> (r: DaemonResponse)
    requires
        old(player).inv(),
    ensures
        final(player).inv(),
        (req matches DaemonRequest::TogglePause ==> final(player).playlist.status
            == spec_toggled_status(old(player).playlist.status) && r == DaemonResponse::Toggled(
            final(player).playlist.status.spec_as_u32(),
        )),
        (req matches DaemonRequest::SkipNext ==> r == DaemonResponse::Ack && (old(
            player,
        ).playlist.current is Some ==> *final(player) == (GeneralPlayer {
            playlist: Playlist { prefetch: Option::<usize>::None, ..old(player).playlist },
            player: MpvBackend {
                signaled: Ghost(old(player).player.signaled@.push(PlayerMsg::Eos)),
                ..old(player).player
            },
            ..*old(player)
        })) && (old(player).playlist.current is None ==> *final(player) == (GeneralPlayer {
            player: MpvBackend {
                signaled: Ghost(old(player).player.signaled@.push(PlayerMsg::Eos)),
                ..old(player).player
            },
            ..*old(player)
        }))),
        (req matches DaemonRequest::GetProgress ==> *final(player) == *old(player)
            && r == DaemonResponse::Progress(
            old(player).position as u32,
            old(player).duration as u32,
        )),
        (req matches DaemonRequest::VolumeUp ==> final(player).player.volume as int
            == clamp_volume(old(player).player.volume + 5) && r == DaemonResponse::Volume(
            final(player).player.volume,
        )),
        (req matches DaemonRequest::VolumeDown ==> final(player).player.volume as int
            == clamp_volume(old(player).player.volume - 5) && r == DaemonResponse::Volume(
            final(player).player.volume,
        )),
        (req matches DaemonRequest::SpeedUp ==> final(player).player.speed as int
            == clamp_speed(old(player).player.speed + 1) && r == DaemonResponse::Speed(
            final(player).player.speed,
        )),
        (req matches DaemonRequest::SpeedDown ==> final(player).player.speed as int
            == clamp_speed(old(player).player.speed - 1) && r == DaemonResponse::Speed(
            final(player).player.speed,
        )),
        (req matches DaemonRequest::ToggleGapless ==> final(player).player.gapless == !old(
            player,
        ).player.gapless && r == DaemonResponse::Gapless(final(player).player.gapless)),
        (req matches DaemonRequest::SeekForward ==> final(player).position == spec_seek_target(
            old(player).spec_current_offset(true),
            old(player).position as int,
            old(player).duration as int,
        ) && final(player).duration == old(player).duration && r == DaemonResponse::Seeked(
            final(player).position as u32,
            final(player).duration as u32,
        )),
        (req matches DaemonRequest::SeekBackward ==> final(player).position == spec_seek_target(
            old(player).spec_current_offset(false),
            old(player).position as int,
            old(player).duration as int,
        ) && final(player).duration == old(player).duration && r == DaemonResponse::Seeked(
            final(player).position as u32,
            final(player).duration as u32,
        )),
        (req matches DaemonRequest::CycleLoopMode ==> final(player).playlist.loop_mode == old(
            player,
        ).playlist.loop_mode.spec_cycled() && r == DaemonResponse::Cycled(
            final(player).playlist.loop_mode,
        )),
        (req matches DaemonRequest::ReloadPlaylist(tracks) ==> final(player).playlist.tracks
            == tracks && (final(player).playlist.prefetch is None)
            && final(player).playlist.status == Status::Stopped && r == DaemonResponse::Ack),
        (req matches DaemonRequest::PlaySelected(index) ==> r == DaemonResponse::Ack && (index
            < old(player).playlist.tracks.len() ==> *final(player) == (GeneralPlayer {
            playlist: Playlist {
                current: Some(index),
                prefetch: Option::<usize>::None,
                status: Status::Running,
                ..old(player).playlist
            },
            player: MpvBackend {
                sent: Ghost(old(player).player.sent@.push(
                    CmdView::Play(old(player).playlist.tracks[index as int].file@),
                )),
                ..old(player).player
            },
            ..*old(player)
        })) && (index >= old(player).playlist.tracks.len() ==> *final(player) == *old(player))),
        (req matches DaemonRequest::SkipPrevious ==> r == DaemonResponse::Ack && (old(
            player,
        ).playlist.current matches Some(i) ==> *final(player) == (GeneralPlayer {
            playlist: Playlist {
                current: Some(
                    GeneralPlayer::spec_prev_index(
                        i as int,
                        old(player).playlist.tracks.len() as int,
                    ) as usize,
                ),
                prefetch: Option::<usize>::None,
                ..old(player).playlist
            },
            player: MpvBackend {
                sent: Ghost(old(player).player.sent@.push(CmdView::Play(
                    old(player).playlist.tracks[
                        GeneralPlayer::spec_prev_index(
                            i as int,
                            old(player).playlist.tracks.len() as int,
                        )
                    ].file@,
                ))),
                ..old(player).player
            },
            ..*old(player)
        })) && (old(player).playlist.current is None ==> *final(player) == *old(player))),
    {
    match req {
        DaemonRequest::TogglePause => {
            player.toggle_pause();
            let status = player.playlist.status();
            DaemonResponse::Toggled(status.as_u32())
        },
        DaemonRequest::SkipNext => {
            player.skip();
            DaemonResponse::Ack
        },
        DaemonRequest::SkipPrevious => {
            player.play_previous();
            DaemonResponse::Ack
        },
        DaemonRequest::GetProgress => {
            let (p, d) = player.get_progress();
            DaemonResponse::Progress(p as u32, d as u32)
        },
        DaemonRequest::VolumeUp => {
            player.volume_up();
            DaemonResponse::Volume(player.volume())
        },
        DaemonRequest::VolumeDown => {
            player.volume_down();
            DaemonResponse::Volume(player.volume())
        },
        DaemonRequest::SpeedUp => {
            player.speed_up();
            DaemonResponse::Speed(player.speed())
        },
        DaemonRequest::SpeedDown => {
            player.speed_down();
            DaemonResponse::Speed(player.speed())
        },
        DaemonRequest::ToggleGapless => {
            let on = player.toggle_gapless();
            DaemonResponse::Gapless(on)
        },
        DaemonRequest::SeekForward => {
            player.seek_relative(true);
            let (p, d) = player.get_progress();
            DaemonResponse::Seeked(p as u32, d as u32)
        },
        DaemonRequest::SeekBackward => {
            player.seek_relative(false);
            let (p, d) = player.get_progress();
            DaemonResponse::Seeked(p as u32, d as u32)
        },
        DaemonRequest::CycleLoopMode => {
            let mode = player.playlist.cycle_loop_mode();
            DaemonResponse::Cycled(mode)
        },
        DaemonRequest::ReloadPlaylist(tracks) => {
            player.reload_playlist(tracks);
            DaemonResponse::Ack
        },
        DaemonRequest::PlaySelected(index) => {
            player.play_selected(index);
            DaemonResponse::Ack
        },
    }
}

/// One typed update on the push stream.
#[derive(Clone, Copy, Debug, PartialEq, Eq, Structural)]
pub enum DaemonUpdate {
    /// Run state, in wire encoding.
    Status(u32),
    /// The queue index now playing.
    TrackChanged(u32),
    /// Position and duration, in seconds.
    Progress(i64, i64),
    /// Whether gapless pre-fetching is on.
    Gapless(bool),
}

/// The elements of `s` whose mask bit is set, in order.
pub open spec fn mask_filter<T>(s: Seq<T>, mask: Seq<bool>) -> Seq<T>
    decreases s.len(),
{
    if s.len() == 0 {
        Seq::empty()
    } else {
        mask_filter(s.drop_last(), mask.drop_last()) + if mask.len() == s.len() && mask.last() {
            seq![s.last()]
        } else {
            Seq::empty()
        }
    }
}

/// One connected subscriber of the update push stream: its sending end and
/// a ghost log of every update handed to its queue.
pub struct Subscriber {
    pub tx: std::sync::mpsc::Sender<DaemonUpdate>,
    pub delivered: Ghost<Seq<DaemonUpdate>>,
}

/// All subscribers with `update` handed to each of their queues.
pub open spec fn spec_all_handed(subs: Seq<Subscriber>, update: DaemonUpdate) -> Seq<Subscriber> {
    subs.map_values(
        |s: Subscriber| Subscriber { delivered: Ghost(s.delivered@.push(update)), ..s },
    )
}

/// The connected subscribers of the update push stream; one send fails only
/// that subscriber, which is then torn down.
pub struct Subscribers {
    pub senders: Vec<Subscriber>,
}

impl Subscribers {
    pub fn new() -> (s: Subscribers)
        ensures
            s.senders@.len() == 0,
    {
        Subscribers { senders: Vec::new() }
    }

    /// Register one more subscriber and hand back its receiving end; the
    /// ones already connected are untouched and the newcomer has been handed
    /// nothing yet.
    pub fn subscribe(&mut self) -> (rx: std::sync::mpsc::Receiver<DaemonUpdate>)
        ensures
            final(self).senders@.len() == old(self).senders@.len() + 1,
            final(self).senders@.drop_last() == old(self).senders@,
            final(self).senders@.last().delivered@ =~= Seq::<DaemonUpdate>::empty(),
    {
        let (tx, rx) = channel_pair::<DaemonUpdate>();
        self.senders.push(Subscriber { tx, delivered: Ghost(Seq::empty()) });
        rx
    }

    pub fn len(&self) -> (n: usize)
        ensures
            n == self.senders@.len(),
    {
        self.senders.len()
    }

    /// Deliver one update to every subscriber in turn: each one, kept or
    /// dropped, has the update handed to its queue exactly once. A
    /// subscriber whose receiving end is gone is dropped from the list and
    /// nothing else: the failure neither blocks nor fails delivery to the
    /// others, and the survivors — exactly the ones whose send was accepted
    /// — keep their order, each with the update in its delivery log.
    pub fn broadcast(&mut self, update: DaemonUpdate)
        ensures
            exists|oks: Seq<bool>|
                oks.len() == old(self).senders@.len() && final(self).senders@ == mask_filter(
                    spec_all_handed(old(self).senders@, update),
                    oks,
                ),
    {
        let ghost orig = self.senders@;
        let ghost handed = spec_all_handed(orig, update);
        let ghost mut mask: Seq<bool> = Seq::empty();
        let mut kept: Vec<Subscriber> = Vec::new();
        loop
            invariant
                mask.len() <= orig.len(),
                handed == spec_all_handed(orig, update),
                self.senders@ =~= orig.skip(mask.len() as int),
                kept@ =~= mask_filter(handed.take(mask.len() as int), mask),
            ensures
                mask.len() == orig.len(),
                kept@ =~= mask_filter(handed, mask),
            decreases orig.len() - mask.len(),
        {
            if self.senders.len() == 0 {
                proof {
                    assert(handed.take(mask.len() as int) =~= handed);
                }
                break ;
            }
            let s = self.senders.remove(0);
            let Subscriber { tx, delivered } = s;
            let ghost grown = delivered@.push(update);
            let accepted = channel_send(&tx, update);
            let attempted = Subscriber { tx, delivered: Ghost(grown) };
            proof {
                let k = mask.len() as int;
                assert(orig.skip(k).len() > 0);
                assert(s == orig[k]);
                assert(attempted == handed[k]);
                assert(handed.take(k + 1).drop_last() =~= handed.take(k));
                assert(handed.take(k + 1).last() == handed[k]);
                assert(orig.skip(k).remove(0) =~= orig.skip(k + 1));
                let mask2 = mask.push(accepted);
                assert(mask2.drop_last() =~= mask);
                assert(mask_filter(handed.take(k + 1), mask2) =~= mask_filter(handed.take(k), mask)
                    + (if accepted {
                    seq![handed[k]]
                } else {
                    Seq::empty()
                }));
                mask = mask2;
            }
            if accepted {
                kept.push(attempted);
            }
        }
        self.senders = kept;
        proof {
            assert(self.senders@ == mask_filter(handed, mask) && mask.len() == orig.len());
        }
    }
}

} // verus!
