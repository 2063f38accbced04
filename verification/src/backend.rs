//! The backend adapter: the command vocabulary of the engine-owning loop, the
//! decisions that loop takes (all of them pure functions here), and the
//! control-side handle that feeds it through a channel.

use vstd::prelude::*;
use crate::channel::{channel_pair, channel_send};
use crate::config::Settings;
use crate::player::{PlayerMsg, PlayerTrait};

verus! {

/// Seconds kept between a seek target and the end of the track, so that the
/// seek itself cannot trigger a spurious end of stream.
pub const SEEK_GUARD: i64 = 5;

/// The sending end of a channel reported the receiver gone.
#[derive(Clone, Copy, Debug, PartialEq, Eq, Structural)]
pub struct ChannelClosed;

/// A command queued for the engine-owning loop.
#[derive(Clone, Debug, PartialEq, Eq)]
pub enum BackendCmd {
    Play(String),
    Pause,
    QueueNext(String),
    Resume,
    Seek(i64),
    SeekAbsolute(i64),
    Speed(i32),
    Stop,
    Volume(i64),
    /// Whether the engine itself pre-buffers across track ends.
    Gapless(bool),
}

/// The mathematical image of a queued command, kept in a ghost log so that
/// contracts can say which commands a call sent.
pub enum CmdView {
    Play(Seq<char>),
    Pause,
    QueueNext(Seq<char>),
    Resume,
    Seek(i64),
    SeekAbsolute(i64),
    Speed(i32),
    Stop,
    Volume(i64),
    Gapless(bool),
}

impl BackendCmd {
    pub open spec fn view(&self) -> CmdView {
        match *self {
            BackendCmd::Play(ref s) => CmdView::Play(s@),
            BackendCmd::Pause => CmdView::Pause,
            BackendCmd::QueueNext(ref s) => CmdView::QueueNext(s@),
            BackendCmd::Resume => CmdView::Resume,
            BackendCmd::Seek(n) => CmdView::Seek(n),
            BackendCmd::SeekAbsolute(n) => CmdView::SeekAbsolute(n),
            BackendCmd::Speed(n) => CmdView::Speed(n),
            BackendCmd::Stop => CmdView::Stop,
            BackendCmd::Volume(n) => CmdView::Volume(n),
            BackendCmd::Gapless(b) => CmdView::Gapless(b),
        }
    }
}

/// Volume is held to percent range.
pub open spec fn clamp_volume(v: int) -> int {
    if v < 0 {
        0
    } else if v > 100 {
        100
    } else {
        v
    }
}

/// Playback rate is held to one tenth through three times normal speed.
pub open spec fn clamp_speed(s: int) -> int {
    if s < 1 {
        1
    } else if s > 30 {
        30
    } else {
        s
    }
}

/// Where a relative seek lands: position plus delta, clamped into
/// `[0, duration - SEEK_GUARD]`, and never below zero even when the track is
/// shorter than the guard.
pub open spec fn spec_seek_target(secs: int, time_pos: int, duration: int) -> int {
    let raw = secs + time_pos;
    let hi = duration - SEEK_GUARD;
    let capped = if raw < hi {
        raw
    } else {
        hi
    };
    if capped < 0 {
        0
    } else {
        capped
    }
}

/// Compute the absolute target of a relative seek.
pub fn seek_target(secs: i64, time_pos: i64, duration: i64) -> (t: i64)
    requires
        0 <= time_pos,
        0 <= duration,
        secs + time_pos <= i64::MAX,
    ensures
        t == spec_seek_target(secs as int, time_pos as int, duration as int),
        0 <= t,
        duration >= SEEK_GUARD ==> t + SEEK_GUARD <= duration,
{
    let raw: i64 = secs + time_pos;
    let hi: i64 = duration - SEEK_GUARD;
    let capped: i64 = if raw < hi {
        raw
    } else {
        hi
    };
    if capped < 0 {
        0
    } else {
        capped
    }
}

/// What the engine can report to the loop each iteration.
#[derive(Clone, Copy, Debug, PartialEq, Eq, Structural)]
pub enum EngineEvent {
    /// A file ended, with the engine's reason code; zero is a natural end.
    EndFile(i64),
    /// A new file started.
    StartFile,
    /// The duration property changed, in seconds.
    PropertyDuration(i64),
    /// The playback position property changed, in seconds.
    PropertyTimePos(i64),
    /// Anything the loop does not care about.
    Other,
}

/// Map one engine event onto the new duration cache and the message owed to
/// the orchestrator, exactly as the loop forwards them.
pub fn map_engine_event(duration: i64, ev: &EngineEvent) -> (r: (i64, Option<PlayerMsg>))
    ensures
        match *ev {
            EngineEvent::EndFile(e) => r.0 == duration && r.1 == (if e == 0 {
                Some(PlayerMsg::Eos)
            } else {
                Option::<PlayerMsg>::None
            }),
            EngineEvent::StartFile => r.0 == duration && r.1 == Some(PlayerMsg::CurrentTrackUpdated),
            EngineEvent::PropertyDuration(d) => r.0 == d && r.1 is None,
            EngineEvent::PropertyTimePos(t) => r.0 == duration && r.1 == Some(
                PlayerMsg::Progress(t, duration),
            ),
            EngineEvent::Other => r.0 == duration && r.1 is None,
        },
{
    match *ev {
        EngineEvent::EndFile(e) => {
            if e == 0 {
                (duration, Some(PlayerMsg::Eos))
            } else {
                (duration, None)
            }
        },
        EngineEvent::StartFile => (duration, Some(PlayerMsg::CurrentTrackUpdated)),
        EngineEvent::PropertyDuration(d) => (d, None),
        EngineEvent::PropertyTimePos(t) => (duration, Some(PlayerMsg::Progress(t, duration))),
        EngineEvent::Other => (duration, None),
    }
}

/// One call the loop makes into the native engine.
#[derive(Clone, Debug, PartialEq, Eq)]
pub enum EngineAction {
    /// Load a file, replacing what plays.
    LoadReplace(String),
    /// Append a file to the engine's own queue for a gapless hand-over.
    LoadAppend(String),
    PauseEngine,
    ResumeEngine,
    SetVolumeProp(i64),
    SetSpeedProp(i32),
    SetGaplessProp(bool),
    StopEngine,
    /// Seek to an absolute position, in seconds.
    SeekAbsoluteTo(i64),
    /// Seek to an absolute position, retrying with bounded backoff until the
    /// file is loaded enough to accept it; never dropped.
    SeekAbsoluteRetry(i64),
}

/// Plan one queued command: the new duration cache, the engine calls to make
/// in order, and the message owed to the orchestrator. `time_pos` and
/// `duration` are what the engine reported when the command was taken up; a
/// relative seek reports the clamped target it lands on, optimistically,
/// matching the position the control side already computed.
pub fn plan_command(cmd: BackendCmd, time_pos: i64, duration: i64) -> (r: (
    i64,
    Vec<EngineAction>,
    Option<PlayerMsg>,
))
    requires
        0 <= time_pos,
        0 <= duration,
        (cmd matches BackendCmd::Seek(s) ==> s + time_pos <= i64::MAX),
    ensures
        match cmd {
            BackendCmd::Play(uri) => r.0 == 0 && r.1@ =~= seq![EngineAction::LoadReplace(uri)]
                && r.2 is None,
            BackendCmd::QueueNext(uri) => r.0 == duration && r.1@ =~= seq![
                EngineAction::LoadAppend(uri),
            ] && r.2 is None,
            BackendCmd::Pause => r.0 == duration && r.1@ =~= seq![EngineAction::PauseEngine]
                && r.2 is None,
            BackendCmd::Resume => r.0 == duration && r.1@ =~= seq![EngineAction::ResumeEngine]
                && r.2 is None,
            BackendCmd::Volume(v) => r.0 == duration && r.1@ =~= seq![
                EngineAction::SetVolumeProp(v),
            ] && r.2 is None,
            BackendCmd::Speed(s) => r.0 == duration && r.1@ =~= seq![EngineAction::SetSpeedProp(s)]
                && r.2 is None,
            BackendCmd::Stop => r.0 == duration && r.1@ =~= seq![EngineAction::StopEngine]
                && r.2 is None,
            BackendCmd::Gapless(b) => r.0 == duration && r.1@ =~= seq![
                EngineAction::SetGaplessProp(b),
            ] && r.2 is None,
            BackendCmd::Seek(s) => {
                let t = spec_seek_target(s as int, time_pos as int, duration as int);
                r.0 == duration && r.1@ =~= seq![
                    EngineAction::PauseEngine,
                    EngineAction::SeekAbsoluteTo(t as i64),
                    EngineAction::ResumeEngine,
                ] && r.2 == Some(PlayerMsg::Progress(t as i64, duration))
            },
            BackendCmd::SeekAbsolute(s) => r.0 == duration && r.1@ =~= seq![
                EngineAction::PauseEngine,
                EngineAction::SeekAbsoluteRetry(s),
                EngineAction::ResumeEngine,
            ] && r.2 == Some(PlayerMsg::Progress(s, duration)),
        },
{
    match cmd {
        BackendCmd::Play(uri) => {
            let mut acts: Vec<EngineAction> = Vec::new();
            acts.push(EngineAction::LoadReplace(uri));
            (0, acts, None)
        },
        BackendCmd::QueueNext(uri) => {
            let mut acts: Vec<EngineAction> = Vec::new();
            acts.push(EngineAction::LoadAppend(uri));
            (duration, acts, None)
        },
        BackendCmd::Pause => {
            let mut acts: Vec<EngineAction> = Vec::new();
            acts.push(EngineAction::PauseEngine);
            (duration, acts, None)
        },
        BackendCmd::Resume => {
            let mut acts: Vec<EngineAction> = Vec::new();
            acts.push(EngineAction::ResumeEngine);
            (duration, acts, None)
        },
        BackendCmd::Volume(v) => {
            let mut acts: Vec<EngineAction> = Vec::new();
            acts.push(EngineAction::SetVolumeProp(v));
            (duration, acts, None)
        },
        BackendCmd::Speed(s) => {
            let mut acts: Vec<EngineAction> = Vec::new();
            acts.push(EngineAction::SetSpeedProp(s));
            (duration, acts, None)
        },
        BackendCmd::Stop => {
            let mut acts: Vec<EngineAction> = Vec::new();
            acts.push(EngineAction::StopEngine);
            (duration, acts, None)
        },
        BackendCmd::Gapless(b) => {
            let mut acts: Vec<EngineAction> = Vec::new();
            acts.push(EngineAction::SetGaplessProp(b));
            (duration, acts, None)
        },
        BackendCmd::Seek(s) => {
            let t = seek_target(s, time_pos, duration);
            let mut acts: Vec<EngineAction> = Vec::new();
            acts.push(EngineAction::PauseEngine);
            acts.push(EngineAction::SeekAbsoluteTo(t));
            acts.push(EngineAction::ResumeEngine);
            (duration, acts, Some(PlayerMsg::Progress(t, duration)))
        },
        BackendCmd::SeekAbsolute(s) => {
            let mut acts: Vec<EngineAction> = Vec::new();
            acts.push(EngineAction::PauseEngine);
            acts.push(EngineAction::SeekAbsoluteRetry(s));
            acts.push(EngineAction::ResumeEngine);
            (duration, acts, Some(PlayerMsg::Progress(s, duration)))
        },
    }
}

/// The control-side handle on the engine loop: the mirrored volume, speed
/// and gapless flags, and the sending ends of the two channels. Two ghost
/// logs record everything the handle puts on a queue: `sent` the commands
/// for the engine loop, `signaled` the events raised for the orchestrator.
pub struct MpvBackend {
    pub volume: i32,
    pub speed: i32,
    pub gapless: bool,
    pub message_tx: std::sync::mpsc::Sender<PlayerMsg>,
    pub command_tx: std::sync::mpsc::Sender<BackendCmd>,
    pub sent: Ghost<Seq<CmdView>>,
    pub signaled: Ghost<Seq<PlayerMsg>>,
}

impl MpvBackend {
    /// Mirrored values stay inside the ranges the protocol promises.
    pub open spec fn inv(&self) -> bool {
        &&& 0 <= self.volume <= 100
        &&& 1 <= self.speed <= 30
    }

    /// Build the handle and the receiving end that the engine-owning loop
    /// will drain. The configured volume, speed and gapless setting are
    /// queued as the first three commands, so the engine is initialized from
    /// config before it processes anything else.
    pub fn new(config: &Settings, tx: std::sync::mpsc::Sender<PlayerMsg>) -> (r: (
        MpvBackend,
        std::sync::mpsc::Receiver<BackendCmd>,
    ))
        ensures
            r.0.inv(),
            r.0.volume as int == clamp_volume(config.volume as int),
            r.0.speed as int == clamp_speed(config.speed as int),
            r.0.gapless == config.gapless,
            r.0.sent@ =~= seq![
                CmdView::Volume(clamp_volume(config.volume as int) as i64),
                CmdView::Speed(clamp_speed(config.speed as int) as i32),
                CmdView::Gapless(config.gapless),
            ],
            r.0.signaled@ =~= Seq::<PlayerMsg>::empty(),
    {
        let (command_tx, command_rx) = channel_pair::<BackendCmd>();
        let volume: i32 = if config.volume < 0 {
            0
        } else if config.volume > 100 {
            100
        } else {
            config.volume
        };
        let speed: i32 = if config.speed < 1 {
            1
        } else if config.speed > 30 {
            30
        } else {
            config.speed
        };
        let mut backend = MpvBackend {
            volume,
            speed,
            gapless: config.gapless,
            message_tx: tx,
            command_tx,
            sent: Ghost(Seq::empty()),
            signaled: Ghost(Seq::empty()),
        };
        backend.send_cmd(BackendCmd::Volume(volume as i64));
        backend.send_cmd(BackendCmd::Speed(speed));
        backend.send_cmd(BackendCmd::Gapless(config.gapless));
        (backend, command_rx)
    }

    /// Queue one command for the loop and log it; a full or closed queue is
    /// a non-fatal condition and the command is simply dropped there.
    fn send_cmd(&mut self, cmd: BackendCmd)
        ensures
            *final(self) == (MpvBackend {
                sent: Ghost(old(self).sent@.push(cmd.view())),
                ..*old(self)
            }),
    {
        let ghost logged = self.sent@.push(cmd.view());
        let _delivered = channel_send(&self.command_tx, cmd);
        self.sent = Ghost(logged);
    }

    pub fn enqueue_next(&mut self, next: &str)
        ensures
            *final(self) == (MpvBackend {
                sent: Ghost(old(self).sent@.push(CmdView::QueueNext(next@))),
                ..*old(self)
            }),
    {
        self.send_cmd(BackendCmd::QueueNext(String::from_str(next)));
    }

    fn queue_and_play(&mut self, new: &str)
        ensures
            *final(self) == (MpvBackend {
                sent: Ghost(old(self).sent@.push(CmdView::Play(new@))),
                ..*old(self)
            }),
    {
        self.send_cmd(BackendCmd::Play(String::from_str(new)));
    }

    /// Queue one command and report whether the loop end was still there.
    fn send_checked(&mut self, cmd: BackendCmd) -> (r: Result<(), ChannelClosed>)
        ensures
            *final(self) == (MpvBackend {
                sent: Ghost(old(self).sent@.push(cmd.view())),
                ..*old(self)
            }),
    {
        let ghost logged = self.sent@.push(cmd.view());
        let delivered = channel_send(&self.command_tx, cmd);
        self.sent = Ghost(logged);
        if delivered {
            Ok(())
        } else {
            Err(ChannelClosed)
        }
    }

    /// Force-end the current stream: raise exactly one end-of-stream signal
    /// for the orchestrator, reusing the ordinary advance path. A send to a
    /// closed queue is non-fatal and the signal is dropped there.
    pub fn skip_one(&mut self)
        ensures
            *final(self) == (MpvBackend {
                signaled: Ghost(old(self).signaled@.push(PlayerMsg::Eos)),
                ..*old(self)
            }),
    {
        let ghost logged = self.signaled@.push(PlayerMsg::Eos);
        let _delivered = channel_send(&self.message_tx, PlayerMsg::Eos);
        self.signaled = Ghost(logged);
    }
}

impl PlayerTrait for MpvBackend {
    open spec fn inv(&self) -> bool {
        MpvBackend::inv(self)
    }

    open spec fn spec_volume(&self) -> i32 {
        self.volume
    }

    open spec fn spec_speed(&self) -> i32 {
        self.speed
    }

    open spec fn spec_sent(&self) -> Seq<CmdView> {
        self.sent@
    }

    /// The adapter does not track the engine's pause state; it reports
    /// paused, as callers must go by the event stream anyway.
    open spec fn spec_is_paused(&self) -> bool {
        true
    }

    fn add_and_play(&mut self, current_track: &str)
        ensures
            *final(self) == (MpvBackend {
                sent: Ghost(old(self).sent@.push(CmdView::Play(current_track@))),
                ..*old(self)
            }),
    {
        self.queue_and_play(current_track);
    }

    fn volume(&self) -> (v: i32) {
        self.volume
    }

    fn volume_up(&mut self)
        ensures
            *final(self) == (MpvBackend {
                volume: clamp_volume(old(self).volume + 5) as i32,
                sent: Ghost(old(self).sent@.push(
                    CmdView::Volume(clamp_volume(old(self).volume + 5) as i64),
                )),
                ..*old(self)
            }),
    {
        let v: i32 = if self.volume > 95 {
            100
        } else {
            self.volume + 5
        };
        self.set_volume(v);
    }

    fn volume_down(&mut self)
        ensures
            *final(self) == (MpvBackend {
                volume: clamp_volume(old(self).volume - 5) as i32,
                sent: Ghost(old(self).sent@.push(
                    CmdView::Volume(clamp_volume(old(self).volume - 5) as i64),
                )),
                ..*old(self)
            }),
    {
        let v: i32 = if self.volume < 5 {
            0
        } else {
            self.volume - 5
        };
        self.set_volume(v);
    }

    fn set_volume(&mut self, volume: i32)
        ensures
            *final(self) == (MpvBackend {
                volume: clamp_volume(volume as int) as i32,
                sent: Ghost(old(self).sent@.push(CmdView::Volume(clamp_volume(volume as int) as i64))),
                ..*old(self)
            }),
    {
        let v: i32 = if volume < 0 {
            0
        } else if volume > 100 {
            100
        } else {
            volume
        };
        self.volume = v;
        self.send_cmd(BackendCmd::Volume(v as i64));
    }

    fn pause(&mut self)
        ensures
            *final(self) == (MpvBackend {
                sent: Ghost(old(self).sent@.push(CmdView::Pause)),
                ..*old(self)
            }),
    {
        self.send_cmd(BackendCmd::Pause);
    }

    fn resume(&mut self)
        ensures
            *final(self) == (MpvBackend {
                sent: Ghost(old(self).sent@.push(CmdView::Resume)),
                ..*old(self)
            }),
    {
        self.send_cmd(BackendCmd::Resume);
    }

    fn is_paused(&self) -> (b: bool) {
        true
    }

    fn seek(&mut self, secs: i64) -> (r: Result<(), ChannelClosed>)
        ensures
            *final(self) == (MpvBackend {
                sent: Ghost(old(self).sent@.push(CmdView::Seek(secs))),
                ..*old(self)
            }),
    {
        self.send_checked(BackendCmd::Seek(secs))
    }

    fn seek_to(&mut self, last_pos_secs: u64)
        ensures
            *final(self) == (MpvBackend {
                sent: Ghost(old(self).sent@.push(CmdView::SeekAbsolute(last_pos_secs as i64))),
                ..*old(self)
            }),
    {
        self.send_cmd(BackendCmd::SeekAbsolute(last_pos_secs as i64));
    }

    fn set_speed(&mut self, speed: i32)
        ensures
            *final(self) == (MpvBackend {
                speed: clamp_speed(speed as int) as i32,
                sent: Ghost(old(self).sent@.push(CmdView::Speed(clamp_speed(speed as int) as i32))),
                ..*old(self)
            }),
    {
        let s: i32 = if speed < 1 {
            1
        } else if speed > 30 {
            30
        } else {
            speed
        };
        self.speed = s;
        self.send_cmd(BackendCmd::Speed(s));
    }

    fn speed_up(&mut self)
        ensures
            *final(self) == (MpvBackend {
                speed: clamp_speed(old(self).speed + 1) as i32,
                sent: Ghost(old(self).sent@.push(
                    CmdView::Speed(clamp_speed(old(self).speed + 1) as i32),
                )),
                ..*old(self)
            }),
    {
        let s: i32 = if self.speed >= 30 {
            30
        } else {
            self.speed + 1
        };
        self.set_speed(s);
    }

    fn speed_down(&mut self)
        ensures
            *final(self) == (MpvBackend {
                speed: clamp_speed(old(self).speed - 1) as i32,
                sent: Ghost(old(self).sent@.push(
                    CmdView::Speed(clamp_speed(old(self).speed - 1) as i32),
                )),
                ..*old(self)
            }),
    {
        let s: i32 = if self.speed <= 1 {
            1
        } else {
            self.speed - 1
        };
        self.set_speed(s);
    }

    fn speed(&self) -> (s: i32) {
        self.speed
    }

    fn stop(&mut self)
        ensures
            *final(self) == (MpvBackend {
                sent: Ghost(old(self).sent@.push(CmdView::Stop)),
                ..*old(self)
            }),
    {
        self.send_cmd(BackendCmd::Stop);
    }
}


/// One volume request, as the single writer applies it: the stored value is
/// the request clamped to percent range, whatever was stored before.
pub open spec fn apply_volume(state: int, request: int) -> int {
    clamp_volume(request)
}

/// Volume after a serialized burst of requests.
pub open spec fn fold_volume(initial: int, requests: Seq<int>) -> int
    decreases requests.len(),
{
    if requests.len() == 0 {
        initial
    } else {
        apply_volume(fold_volume(initial, requests.drop_last()), requests.last())
    }
}

/// Any number of volume requests racing on the control side are serialized
/// through the single writer: the stored volume ends at the last request's
/// clamped value, and no state along the way leaves `[0, 100]`.
pub proof fn lemma_volume_last_write_wins(initial: int, requests: Seq<int>)
    requires
        0 <= initial <= 100,
    ensures
        0 <= fold_volume(initial, requests) <= 100,
        requests.len() > 0 ==> fold_volume(initial, requests) == clamp_volume(requests.last()),
    decreases requests.len(),
{
    if requests.len() > 0 {
        lemma_volume_last_write_wins(initial, requests.drop_last());
    }
}

} // verus!
