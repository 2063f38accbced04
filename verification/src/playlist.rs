//! The playlist state machine: an ordered queue of tracks, a cursor, a single
//! pre-fetch slot for gapless transitions, and the loop/shuffle policy that
//! picks what plays next.

use vstd::prelude::*;

verus! {

/// Increment of the Weyl sequence that drives shuffle picks.
pub const SHUFFLE_STEP: u64 = 0x9E37_79B9_7F4A_7C15;

/// A playable item: where it lives and what to show for it.
#[derive(Clone, Debug)]
pub struct Track {
    pub file: String,
    pub duration_secs: u64,
    pub title: Option<String>,
    pub artist: Option<String>,
    /// Which of the track's lyric frames is selected for display.
    pub lyric_selected: usize,
}

impl Track {
    pub fn new(file: String, duration_secs: u64) -> (t: Track)
        ensures
            t.file@ == file@,
            t.duration_secs == duration_secs,
            (t.title is None),
            (t.artist is None),
            t.lyric_selected == 0,
    {
        Track { file, duration_secs, title: None, artist: None, lyric_selected: 0 }
    }

    pub fn file(&self) -> (r: &str)
        ensures
            r@ == self.file@,
    {
        self.file.as_str()
    }

    pub fn duration(&self) -> (d: u64)
        ensures
            d == self.duration_secs,
    {
        self.duration_secs
    }
}

/// Run state of the playlist.
#[derive(Clone, Copy, Debug, PartialEq, Eq, Structural)]
pub enum Status {
    Stopped,
    Running,
    Paused,
}

impl Status {
    pub open spec fn spec_as_u32(self) -> u32 {
        match self {
            Status::Stopped => 0,
            Status::Running => 1,
            Status::Paused => 2,
        }
    }

    /// Wire encoding of the run state, as the control protocol sends it.
    pub fn as_u32(&self) -> (r: u32)
        ensures
            r == self.spec_as_u32(),
    {
        match self {
            Status::Stopped => 0,
            Status::Running => 1,
            Status::Paused => 2,
        }
    }

    /// Decode a wire value; anything unknown is read as Stopped.
    pub fn from_u32(v: u32) -> (r: Status)
        ensures
            r == Status::spec_from_u32(v),
    {
        match v {
            1 => Status::Running,
            2 => Status::Paused,
            _ => Status::Stopped,
        }
    }

    pub open spec fn spec_from_u32(v: u32) -> Status {
        if v == 1 {
            Status::Running
        } else if v == 2 {
            Status::Paused
        } else {
            Status::Stopped
        }
    }
}

/// Encoding and decoding a run state over the wire returns the same state.
pub proof fn lemma_status_round_trip(s: Status)
    ensures
        Status::spec_from_u32(s.spec_as_u32()) == s,
{
}

/// What happens when the queue runs past a track.
#[derive(Clone, Copy, Debug, PartialEq, Eq, Structural)]
pub enum LoopMode {
    /// Play the queue once and stop at its end.
    Off,
    /// Wrap around to the first track after the last.
    Queue,
    /// Repeat the current track.
    Single,
}

impl LoopMode {
    /// The mode that a cycle request switches to.
    pub open spec fn spec_cycled(self) -> LoopMode {
        match self {
            LoopMode::Off => LoopMode::Queue,
            LoopMode::Queue => LoopMode::Single,
            LoopMode::Single => LoopMode::Off,
        }
    }

    pub fn cycled(&self) -> (r: LoopMode)
        ensures
            r == self.spec_cycled(),
    {
        match self {
            LoopMode::Off => LoopMode::Queue,
            LoopMode::Queue => LoopMode::Single,
            LoopMode::Single => LoopMode::Off,
        }
    }
}

/// How the playlist advanced when a stream ended.
#[derive(Clone, Copy, Debug, PartialEq, Eq, Structural)]
pub enum EosOutcome {
    /// The pre-fetched track became current; the backend is already playing
    /// it, so no new command is owed.
    Promoted(usize),
    /// The cursor moved by policy to a track the backend knows nothing
    /// about; the caller owes it a fresh play command.
    Advanced(usize),
    /// No further track: playback stopped.
    Finished,
}

/// Ordered track queue with a cursor, one pre-fetch slot, and policy flags.
pub struct Playlist {
    pub tracks: Vec<Track>,
    pub current: Option<usize>,
    pub prefetch: Option<usize>,
    pub status: Status,
    pub loop_mode: LoopMode,
    pub shuffle: bool,
    pub shuffle_state: u64,
}

impl Playlist {
    /// Cursor and pre-fetch slot point inside the queue.
    pub open spec fn wf(self) -> bool {
        &&& (self.current matches Some(i) ==> i < self.tracks.len())
        &&& (self.prefetch matches Some(j) ==> j < self.tracks.len())
    }

    /// The index the loop/shuffle policy picks after `current`, given the
    /// shuffle draw `s2` (the already-advanced Weyl state).
    pub open spec fn spec_candidate_with(self, s2: u64) -> Option<int> {
        match self.current {
            Option::None => Option::None,
            Option::Some(i) => {
                let len = self.tracks.len() as int;
                if self.shuffle && len > 0 {
                    let pick = (s2 as int) % len;
                    if pick == i && len > 1 {
                        Option::Some((pick + 1) % len)
                    } else {
                        Option::Some(pick)
                    }
                } else {
                    match self.loop_mode {
                        LoopMode::Single => Option::Some(i as int),
                        LoopMode::Queue => Option::Some((i + 1) % len),
                        LoopMode::Off => if i + 1 < len {
                            Option::Some(i + 1)
                        } else {
                            Option::None
                        },
                    }
                }
            },
        }
    }

    /// The policy pick as `fetch_next_track` computes it: the shuffle state
    /// advances first, then the draw is taken from the new state.
    pub open spec fn spec_candidate(self) -> Option<int> {
        self.spec_candidate_with(vstd::wrapping::u64_specs::wrapping_add(self.shuffle_state, SHUFFLE_STEP))
    }

    /// A policy pick always lands inside the queue.
    pub proof fn lemma_candidate_in_bounds(self)
        requires
            self.wf(),
        ensures
            (self.spec_candidate() matches Some(k) ==> 0 <= k < self.tracks.len()),
    {
    }

    pub fn new(tracks: Vec<Track>, loop_mode: LoopMode, shuffle: bool) -> (p: Playlist)
        ensures
            p.wf(),
            p.tracks == tracks,
            p.current == if tracks.len() > 0 { Some(0usize) } else { Option::<usize>::None },
            (p.prefetch is None),
            p.status == Status::Stopped,
            p.loop_mode == loop_mode,
            p.shuffle == shuffle,
            p.shuffle_state == 0,
    {
        let current: Option<usize> = if tracks.len() > 0 { Some(0) } else { None };
        Playlist {
            tracks,
            current,
            prefetch: None,
            status: Status::Stopped,
            loop_mode,
            shuffle,
            shuffle_state: 0,
        }
    }

    pub fn len(&self) -> (n: usize)
        ensures
            n == self.tracks.len(),
    {
        self.tracks.len()
    }

    pub fn is_empty(&self) -> (r: bool)
        ensures
            r == (self.tracks.len() == 0),
    {
        self.tracks.len() == 0
    }

    pub fn status(&self) -> (s: Status)
        ensures
            s == self.status,
    {
        self.status
    }

    pub fn set_status(&mut self, s: Status)
        ensures
            *final(self) == (Playlist { status: s, ..*old(self) }),
    {
        self.status = s;
    }

    pub fn is_stopped(&self) -> (r: bool)
        ensures
            r == (self.status == Status::Stopped),
    {
        matches!(self.status, Status::Stopped)
    }

    pub fn is_paused(&self) -> (r: bool)
        ensures
            r == (self.status == Status::Paused),
    {
        matches!(self.status, Status::Paused)
    }

    /// The current track, if a cursor is set.
    pub fn current_track(&self) -> (t: Option<&Track>)
        requires
            self.wf(),
        ensures
            match t {
                Some(tr) => self.current matches Some(i) && *tr == self.tracks[i as int],
                None => self.current is None,
            },
    {
        match self.current {
            Some(i) => Some(&self.tracks[i]),
            None => None,
        }
    }

    /// The file of the current track, cloned for the caller.
    pub fn get_current_track(&self) -> (r: Option<String>)
        requires
            self.wf(),
        ensures
            match r {
                Some(f) => self.current matches Some(i) && f@ == self.tracks[i as int].file@,
                None => self.current is None,
            },
    {
        match self.current {
            Some(i) => Some(String::from_str(self.tracks[i].file.as_str())),
            None => None,
        }
    }

    pub fn has_next_track(&self) -> (r: bool)
        ensures
            r == (self.prefetch is Some),
    {
        matches!(self.prefetch, Some(_))
    }

    /// The pre-fetched track, if one is outstanding.
    pub fn next_track(&self) -> (t: Option<&Track>)
        requires
            self.wf(),
        ensures
            match t {
                Some(tr) => self.prefetch matches Some(j) && *tr == self.tracks[j as int],
                None => self.prefetch is None,
            },
    {
        match self.prefetch {
            Some(j) => Some(&self.tracks[j]),
            None => None,
        }
    }

    /// Fill or clear the pre-fetch slot.
    pub fn set_next_track(&mut self, slot: Option<usize>)
        requires
            old(self).wf(),
            (slot matches Some(j) ==> j < old(self).tracks.len()),
        ensures
            *final(self) == (Playlist { prefetch: slot, ..*old(self) }),
            final(self).wf(),
    {
        self.prefetch = slot;
    }

    /// Compute the policy pick for the track to pre-fetch, advancing the
    /// shuffle state by one draw.
    pub fn fetch_next_track(&mut self) -> (r: Option<usize>)
        requires
            old(self).wf(),
        ensures
            final(self).wf(),
            *final(self) == (Playlist {
                shuffle_state: vstd::wrapping::u64_specs::wrapping_add(
                    old(self).shuffle_state,
                    SHUFFLE_STEP,
                ),
                ..*old(self)
            }),
            match r {
                Some(k) => old(self).spec_candidate() == Some(k as int) && k < old(self).tracks.len(),
                None => old(self).spec_candidate() is None,
            },
    {
        self.shuffle_state = self.shuffle_state.wrapping_add(SHUFFLE_STEP);
        let len = self.tracks.len();
        match self.current {
            None => None,
            Some(i) => {
                if self.shuffle && len > 0 {
                    let pick = (self.shuffle_state % (len as u64)) as usize;
                    if pick == i && len > 1 {
                        Some((pick + 1) % len)
                    } else {
                        Some(pick)
                    }
                } else {
                    match self.loop_mode {
                        LoopMode::Single => Some(i),
                        LoopMode::Queue => Some((i + 1) % len),
                        LoopMode::Off => {
                            if i + 1 < len {
                                Some(i + 1)
                            } else {
                                None
                            }
                        },
                    }
                }
            },
        }
    }

    /// The state after an end of stream: promotion if a pre-fetch is
    /// outstanding, else one policy step, else stopped and cleared.
    pub open spec fn spec_after_eos(self) -> Playlist {
        match self.prefetch {
            Option::Some(j) => Playlist {
                current: Option::Some(j),
                prefetch: Option::<usize>::None,
                ..self
            },
            Option::None => {
                let advanced = Playlist {
                    shuffle_state: vstd::wrapping::u64_specs::wrapping_add(
                        self.shuffle_state,
                        SHUFFLE_STEP,
                    ),
                    ..self
                };
                match self.spec_candidate() {
                    Option::Some(k) => Playlist { current: Option::Some(k as usize), ..advanced },
                    Option::None => Playlist {
                        current: Option::<usize>::None,
                        status: Status::Stopped,
                        ..advanced
                    },
                }
            },
        }
    }

    /// Apply an end of stream: promote the pre-fetch if there is one,
    /// otherwise advance the cursor by policy, otherwise stop.
    pub fn handle_eos(&mut self) -> (r: EosOutcome)
        requires
            old(self).wf(),
        ensures
            final(self).wf(),
            *final(self) == old(self).spec_after_eos(),
            match r {
                EosOutcome::Promoted(j) => old(self).prefetch == Some(j),
                EosOutcome::Advanced(k) => old(self).prefetch is None
                    && old(self).spec_candidate() == Some(k as int),
                EosOutcome::Finished => old(self).prefetch is None
                    && old(self).spec_candidate() is None,
            },
    {
        match self.prefetch {
            Some(j) => {
                self.current = Some(j);
                self.prefetch = None;
                EosOutcome::Promoted(j)
            },
            None => {
                match self.fetch_next_track() {
                    Some(k) => {
                        self.current = Some(k);
                        EosOutcome::Advanced(k)
                    },
                    None => {
                        self.current = None;
                        self.status = Status::Stopped;
                        EosOutcome::Finished
                    },
                }
            },
        }
    }

    /// Promote an outstanding pre-fetch without touching the backend.
    pub fn promote_prefetch(&mut self)
        requires
            old(self).wf(),
            (old(self).prefetch is Some),
        ensures
            final(self).wf(),
            *final(self) == (Playlist {
                current: old(self).prefetch,
                prefetch: Option::<usize>::None,
                ..*old(self)
            }),
    {
        self.current = self.prefetch;
        self.prefetch = None;
    }

    /// Drop the cursor and stop, as a full stop does.
    pub fn clear_current_track(&mut self)
        ensures
            *final(self) == (Playlist { current: Option::<usize>::None, ..*old(self) }),
    {
        self.current = None;
    }

    pub fn cycle_loop_mode(&mut self) -> (m: LoopMode)
        ensures
            *final(self) == (Playlist { loop_mode: old(self).loop_mode.spec_cycled(), ..*old(self) }),
            m == final(self).loop_mode,
    {
        self.loop_mode = self.loop_mode.cycled();
        self.loop_mode
    }
}

/// With loop mode Queue and shuffle off, finishing track `i` of a non-empty
/// queue moves the cursor to `(i + 1) % N`: the policy pick that was
/// pre-fetched is exactly the one promotion selects.
pub proof fn lemma_queue_loop_advances_mod_n(p: Playlist, i: usize)
    requires
        p.wf(),
        p.loop_mode == LoopMode::Queue,
        !p.shuffle,
        p.current == Some(i),
        (p.prefetch is None),
        p.tracks.len() > 0,
    ensures
        p.spec_candidate() == Some((i + 1) % (p.tracks.len() as int)),
        p.spec_after_eos().current == Some((((i + 1) % (p.tracks.len() as int)) as usize)),
        (p.spec_after_eos().prefetch is None),
{
}

/// With loop mode Single and shuffle off, the policy re-selects the current
/// track as the pre-fetch, and an end of stream never advances the cursor:
/// whether the slot was left empty or filled from that policy pick, track
/// `i` stays current.
pub proof fn lemma_single_loop_repeats(p: Playlist, i: usize)
    requires
        p.wf(),
        p.loop_mode == LoopMode::Single,
        !p.shuffle,
        p.current == Some(i),
        p.prefetch is None || p.prefetch == Some(i),
    ensures
        p.spec_candidate() == Some(i as int),
        p.spec_after_eos().current == Some(i),
{
}

/// A skip first clears the pre-fetch slot and then rides the ordinary end
/// of stream path: the orchestrator's skip raises exactly one end-of-stream
/// signal (its contract states the signal), and this lemma shows that the
/// signal's arrival moves the cursor exactly one policy step — never two —
/// whether or not a pre-fetch was outstanding.
pub proof fn lemma_skip_advances_once(p: Playlist)
    requires
        p.wf(),
    ensures
        ({
            let cleared = Playlist { prefetch: Option::<usize>::None, ..p };
            &&& cleared.spec_after_eos().prefetch is None
            &&& cleared.spec_after_eos().current == match p.spec_candidate() {
                Option::Some(k) => Option::Some(k as usize),
                Option::None => Option::<usize>::None,
            }
        }),
{
    let cleared = Playlist { prefetch: Option::<usize>::None, ..p };
    assert(cleared.spec_candidate() == p.spec_candidate());
}

} // verus!
