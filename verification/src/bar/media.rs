//! Media players as the bar tracks them over MPRIS: the state of each player
//! as its events arrive, and the players the UI shows.
use vstd::prelude::*;

use crate::bar::redraw::{combined, Redraw};
use crate::bar::warp::WarpStatus;

verus! {

#[derive(Debug, Clone, Copy, PartialEq, Eq, Structural)]
pub enum PlaybackStatus {
    Playing,
    Paused,
    Stopped,
}

#[derive(Debug, Clone, Copy, PartialEq, Eq, Structural)]
pub enum LoopStatus {
    /// No repetition.
    NoLoop,
    Track,
    Playlist,
}

/// A player event. Volumes travel as the bit pattern of the player's
/// floating-point volume, which the bar only stores and hands back.
#[derive(Debug, Clone, PartialEq, Eq)]
pub enum MediaEvent {
    PlayerShutDown,
    Playing,
    Paused,
    Stopped,
    VolumeChanged(u64),
    ShuffleToggled(bool),
    LoopingChanged(LoopStatus),
    TrackChanged { title: Option<String>, artists: Option<Vec<String>> },
    /// Any event that changes nothing the bar shows.
    Other,
}

/// What the bar knows of one player.
#[derive(Debug, Clone, PartialEq, Eq)]
pub struct PlayerState {
    pub identity: String,
    pub active: bool,
    pub status: PlaybackStatus,
    pub title: Option<String>,
    pub artists: Option<Vec<String>>,
    /// Bit pattern of the volume, once the player reported one.
    pub volume: Option<u64>,
    pub shuffle: bool,
    pub loop_status: LoopStatus,
}

/// The state after one event.
pub open spec fn applied(p: PlayerState, e: MediaEvent) -> PlayerState {
    match e {
        MediaEvent::PlayerShutDown => PlayerState { active: false, status: PlaybackStatus::Stopped, ..p },
        MediaEvent::Playing => PlayerState { status: PlaybackStatus::Playing, ..p },
        MediaEvent::Paused => PlayerState { status: PlaybackStatus::Paused, ..p },
        MediaEvent::Stopped => PlayerState { status: PlaybackStatus::Stopped, ..p },
        MediaEvent::VolumeChanged(v) => PlayerState { volume: Some(v), ..p },
        MediaEvent::ShuffleToggled(s) => PlayerState { shuffle: s, ..p },
        MediaEvent::LoopingChanged(l) => PlayerState { loop_status: l, ..p },
        MediaEvent::TrackChanged { title, artists } => PlayerState { title, artists, ..p },
        MediaEvent::Other => p,
    }
}

impl PlayerState {
    /// A freshly found player: active, stopped, nothing known of its track.
    pub fn new(identity: String) -> (r: PlayerState)
        ensures
            r.identity == identity,
            r.active,
            r.status == PlaybackStatus::Stopped,
            r.title is None,
            r.artists is None,
            r.volume is None,
            !r.shuffle,
            r.loop_status == LoopStatus::NoLoop,
    {
        PlayerState {
            identity,
            active: true,
            status: PlaybackStatus::Stopped,
            title: None,
            artists: None,
            volume: None,
            shuffle: false,
            loop_status: LoopStatus::NoLoop,
        }
    }

    /// Folds one event into the state; a shut-down player becomes inactive
    /// and stopped.
    pub fn apply(&mut self, event: MediaEvent)
        ensures
            *final(self) == applied(*old(self), event),
    {
        match event {
            MediaEvent::PlayerShutDown => {
                self.active = false;
                self.status = PlaybackStatus::Stopped;
            },
            MediaEvent::Playing => self.status = PlaybackStatus::Playing,
            MediaEvent::Paused => self.status = PlaybackStatus::Paused,
            MediaEvent::Stopped => self.status = PlaybackStatus::Stopped,
            MediaEvent::VolumeChanged(v) => self.volume = Some(v),
            MediaEvent::ShuffleToggled(s) => self.shuffle = s,
            MediaEvent::LoopingChanged(l) => self.loop_status = l,
            MediaEvent::TrackChanged { title, artists } => {
                self.title = title;
                self.artists = artists;
            },
            MediaEvent::Other => {},
        }
    }
}

/// What the components read when they paint.
pub struct UIState {
    /// The active players, each identity once.
    pub players: Vec<PlayerState>,
    pub warp: Option<WarpStatus>,
}

/// Whether some player in `ps` has the identity `id`.
pub open spec fn has_player(ps: Seq<PlayerState>, id: Seq<char>) -> bool {
    exists|j: int| 0 <= j < ps.len() && ps[j].identity@ == id
}

impl UIState {
    /// No identity occurs twice.
    pub open spec fn wf(&self) -> bool {
        forall|a: int, b: int|
            0 <= a < b < self.players@.len() ==> self.players@[a].identity@
                != self.players@[b].identity@
    }

    /// No player and no WARP status yet.
    pub fn new() -> (r: UIState)
        ensures
            r.wf(),
            r.players@.len() == 0,
            r.warp is None,
    {
        UIState { players: Vec::new(), warp: None }
    }

    /// The position of the player `identity`.
    pub fn find_player(&self, identity: &String) -> (r: Option<usize>)
        ensures
            r is None <==> !has_player(self.players@, identity@),
            r matches Some(j) ==> j < self.players@.len() && self.players@[j as int].identity@
                == identity@,
    {
        let mut i: usize = 0;
        while i < self.players.len()
            invariant
                i <= self.players@.len(),
                forall|j: int| 0 <= j < i ==> self.players@[j].identity@ != identity@,
            decreases self.players@.len() - i,
        {
            if self.players[i].identity == *identity {
                return Some(i);
            }
            i = i + 1;
        }
        None
    }

    /// Records a player's latest state: an active player is shown with it
    /// (replacing the entry of the same identity), an inactive one is dropped.
    pub fn record_player(&mut self, state: PlayerState)
        requires
            old(self).wf(),
        ensures
            final(self).wf(),
            final(self).warp == old(self).warp,
            state.active ==> has_player(final(self).players@, state.identity@),
            state.active ==> forall|j: int|
                0 <= j < final(self).players@.len() && final(self).players@[j].identity@
                    == state.identity@ ==> final(self).players@[j] == state,
            !state.active ==> !has_player(final(self).players@, state.identity@),
            forall|j: int|
                0 <= j < old(self).players@.len() && old(self).players@[j].identity@
                    != state.identity@ ==> final(self).players@.contains(old(self).players@[j]),
            forall|j: int|
                0 <= j < final(self).players@.len() && final(self).players@[j].identity@
                    != state.identity@ ==> old(self).players@.contains(final(self).players@[j]),
    {
        let found = self.find_player(&state.identity);
        let ghost before = self.players@;
        if state.active {
            match found {
                Some(j) => {
                    self.players.set(j, state);
                    proof {
                        assert forall|k: int|
                            0 <= k < before.len() && before[k].identity@ != self.players@[j as int].identity@
                            implies self.players@.contains(before[k]) by {
                            assert(self.players@[k] == before[k]);
                        }
                        assert forall|k: int|
                            0 <= k < self.players@.len() && self.players@[k].identity@ != self.players@[j as int].identity@
                            implies before.contains(self.players@[k]) by {
                            assert(self.players@[k] == before[k]);
                        }
                    }
                },
                None => {
                    self.players.push(state);
                    proof {
                        let n = before.len() as int;
                        assert(self.players@[n].identity@ == self.players@[n].identity@);
                        assert forall|k: int|
                            0 <= k < before.len() && before[k].identity@ != self.players@[n].identity@
                            implies self.players@.contains(before[k]) by {
                            assert(self.players@[k] == before[k]);
                        }
                        assert forall|k: int|
                            0 <= k < self.players@.len() && self.players@[k].identity@ != self.players@[n].identity@
                            implies before.contains(self.players@[k]) by {
                            assert(self.players@[k] == before[k]);
                        }
                    }
                },
            }
        } else {
            match found {
                Some(j) => {
                    self.players.remove(j);
                    proof {
                        assert forall|k: int|
                            0 <= k < before.len() && before[k].identity@ != state.identity@
                            implies self.players@.contains(before[k]) by {
                            if k < j {
                                assert(self.players@[k] == before[k]);
                            } else {
                                assert(self.players@[k - 1] == before[k]);
                            }
                        }
                        assert forall|k: int|
                            0 <= k < self.players@.len() && self.players@[k].identity@ != state.identity@
                            implies before.contains(self.players@[k]) by {
                            if k < j {
                                assert(self.players@[k] == before[k]);
                            } else {
                                assert(self.players@[k] == before[k + 1]);
                            }
                        }
                        if has_player(self.players@, state.identity@) {
                            let k = choose|k: int| 0 <= k < self.players@.len() && self.players@[k].identity@ == state.identity@;
                            if k < j {
                                assert(self.players@[k] == before[k]);
                            } else {
                                assert(self.players@[k] == before[k + 1]);
                            }
                        }
                    }
                },
                None => {
                    proof {
                        assert forall|k: int|
                            0 <= k < before.len() && before[k].identity@ != state.identity@
                            implies self.players@.contains(before[k]) by {
                            assert(self.players@[k] == before[k]);
                        }
                    }
                },
            }
        }
    }

    /// Records the latest WARP status.
    pub fn record_warp(&mut self, status: WarpStatus)
        ensures
            final(self).warp == Some(status),
            final(self).players == old(self).players,
    {
        self.warp = Some(status);
    }

    /// A player event reached the UI: the components answered `answers`, and
    /// the player's state is recorded. Returns the combined answer.
    pub fn on_mpris(&mut self, answers: &[Redraw], state: PlayerState) -> (r: Redraw)
        requires
            old(self).wf(),
        ensures
            r == combined(answers@),
            final(self).wf(),
            final(self).warp == old(self).warp,
            state.active ==> has_player(final(self).players@, state.identity@),
            !state.active ==> !has_player(final(self).players@, state.identity@),
    {
        let r = Redraw::combine(answers);
        self.record_player(state);
        r
    }

    /// A WARP status reached the UI: the components answered `answers`, and
    /// the status is recorded. Returns the combined answer.
    pub fn on_warp(&mut self, answers: &[Redraw], status: WarpStatus) -> (r: Redraw)
        ensures
            r == combined(answers@),
            final(self).warp == Some(status),
            final(self).players == old(self).players,
    {
        let r = Redraw::combine(answers);
        self.record_warp(status);
        r
    }
}

/// Each event sets exactly what it names: a status event sets that status,
/// a shut-down player is inactive and stopped, volume, shuffle, loop status
/// and track take the reported values; everything else is kept.
pub proof fn law_events_set_what_they_name(p: PlayerState, v: u64, s: bool, l: LoopStatus, title: Option<String>, artists: Option<Vec<String>>)
    ensures
        applied(p, MediaEvent::Playing).status == PlaybackStatus::Playing,
        applied(p, MediaEvent::Paused).status == PlaybackStatus::Paused,
        applied(p, MediaEvent::Stopped).status == PlaybackStatus::Stopped,
        applied(p, MediaEvent::Playing) == (PlayerState { status: PlaybackStatus::Playing, ..p }),
        applied(p, MediaEvent::Paused) == (PlayerState { status: PlaybackStatus::Paused, ..p }),
        applied(p, MediaEvent::Stopped) == (PlayerState { status: PlaybackStatus::Stopped, ..p }),
        !applied(p, MediaEvent::PlayerShutDown).active,
        applied(p, MediaEvent::PlayerShutDown).status == PlaybackStatus::Stopped,
        applied(p, MediaEvent::PlayerShutDown).identity == p.identity,
        applied(p, MediaEvent::VolumeChanged(v)) == (PlayerState { volume: Some(v), ..p }),
        applied(p, MediaEvent::ShuffleToggled(s)) == (PlayerState { shuffle: s, ..p }),
        applied(p, MediaEvent::LoopingChanged(l)) == (PlayerState { loop_status: l, ..p }),
        applied(p, MediaEvent::TrackChanged { title, artists }) == (PlayerState { title, artists, ..p }),
        applied(p, MediaEvent::Other) == p,
{
}

} // verus!
