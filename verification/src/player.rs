//! The player state machine: the upcoming queue, the bounded lookback
//! history, the pause flag, and whether a source is active. The control
//! surface and the poll loop both drive it; every mutation happens through
//! the operations here, which say exactly what moves where.
//!
//! Work that touches the world — checking that a file exists, decoding it,
//! starting or stopping the output stream — happens outside the library.
//! `advance` hands back what must be done (`PlayStep`), and `handle_event`
//! turns a control-surface event into the state change it implies plus the
//! action the host must perform.

use std::collections::VecDeque;

use vstd::math::min;
use vstd::prelude::*;

use crate::playlist::quoted;
use crate::playlist::quoted_spec;
use crate::tracks::classify_path;
use crate::tracks::classify_spec;
use crate::tracks::extension_spec;
use crate::tracks::resolve_path;
use crate::tracks::TrackError;
use crate::tracks::TrackFormat;

verus! {

/// How many entries the lookback history retains; pushing onto a full
/// history evicts the oldest entry.
pub const LOOKBACK_CAP: usize = 32;

/// Ghost image of the player: pause flag, whether a source is active, the
/// two queues (front first), and the cached supported-extension list.
pub struct StatusView {
    pub paused: bool,
    pub active: bool,
    pub upcoming: Seq<Seq<char>>,
    pub lookback: Seq<Seq<char>>,
    pub mod_formats: Seq<Seq<char>>,
}

/// A queue entry that expands in place rather than playing: it starts with
/// `@` and carries quoted sub-entries that enter the queue in order,
/// without being recorded in the lookback.
pub open spec fn is_marker(s: Seq<char>) -> bool {
    s.len() > 0 && s[0] == '@'
}

/// One push onto the lookback history: the entry goes to the front, and a
/// full history loses its oldest entry first.
pub open spec fn lookback_push(lb: Seq<Seq<char>>, x: Seq<char>) -> Seq<Seq<char>> {
    if lb.len() >= LOOKBACK_CAP {
        seq![x] + lb.drop_last()
    } else {
        seq![x] + lb
    }
}

/// What one `advance` call does and reports. Stopping the current source is
/// part of every outcome; installing the next one is the host's part, done
/// only for `Load`.
pub enum PlayStep {
    /// The upcoming queue was empty: there is nothing to play, and calling
    /// again without refilling the queue changes nothing further.
    Exhausted,
    /// The front entry was a grouping marker: its quoted sub-entries now
    /// stand at the front of the queue, nothing entered the lookback, and
    /// the caller should advance again.
    Expanded,
    /// This entry was popped and committed to the lookback; the caller
    /// should resolve and load it, then report back.
    Load(String),
}

/// How `advance` relates the state before (`pre`) to the state after
/// (`post`) and to the reported step. In every case the active source is
/// stopped and the pause flag and format list are kept.
pub open spec fn advance_rel(pre: StatusView, post: StatusView, step: PlayStep) -> bool {
    if pre.upcoming.len() == 0 {
        &&& step is Exhausted
        &&& post == (StatusView { active: false, ..pre })
    } else if is_marker(pre.upcoming[0]) {
        &&& step is Expanded
        &&& post == (StatusView {
            active: false,
            upcoming: quoted_spec(pre.upcoming[0]) + pre.upcoming.skip(1),
            ..pre
        })
    } else {
        &&& step matches PlayStep::Load(s) && s@ == pre.upcoming[0]
        &&& post == (StatusView {
            active: false,
            upcoming: pre.upcoming.skip(1),
            lookback: lookback_push(pre.lookback, pre.upcoming[0]),
            ..pre
        })
    }
}

/// The queue surgery behind "previous": up to two history entries return to
/// the front of the upcoming queue, ordered so that the older of the two
/// plays next; with a single history entry that entry replays.
pub open spec fn rewound(pre: StatusView) -> StatusView {
    if pre.lookback.len() == 0 {
        pre
    } else if pre.lookback.len() == 1 {
        StatusView {
            upcoming: seq![pre.lookback[0]] + pre.upcoming,
            lookback: pre.lookback.skip(1),
            ..pre
        }
    } else {
        StatusView {
            upcoming: seq![pre.lookback[1], pre.lookback[0]] + pre.upcoming,
            lookback: pre.lookback.skip(2),
            ..pre
        }
    }
}

/// A control-surface event, already reduced to plain values: seek times in
/// milliseconds, direction as a flag (true is forward). `Other` stands for
/// anything outside the handled set, which is logged by the host, never
/// fatal.
#[derive(Clone, Copy, PartialEq, Eq, Structural, Debug)]
pub enum PlayerEvent {
    Next,
    Previous,
    Play,
    Pause,
    Toggle,
    Stop,
    SeekForward,
    SeekBackward,
    SetPosition(u64),
    SeekBy(bool, u64),
    Other,
}

/// What the host must do after `handle_event` has applied a state change:
/// run the advance loop, pause or resume the output, seek (milliseconds),
/// quit, or nothing.
#[derive(Clone, Copy, PartialEq, Eq, Structural, Debug)]
pub enum ControlAction {
    StartNext,
    PauseAudio,
    ResumeAudio,
    SeekTo(u64),
    SeekRelative(bool, u64),
    Quit,
    Ignored,
}

/// The fixed hop, in milliseconds, for a bare seek-forward or seek-backward
/// event.
pub const BARE_SEEK_MS: u64 = 10000;

/// The player state both schedulers mutate, always under one lock owned by
/// the host.
pub struct Status {
    paused: bool,
    active: bool,
    upcoming: VecDeque<String>,
    lookback: VecDeque<String>,
    mod_formats: Vec<String>,
}

impl View for Status {
    type V = StatusView;

    closed spec fn view(&self) -> StatusView {
        StatusView {
            paused: self.paused,
            active: self.active,
            upcoming: self.upcoming.deep_view(),
            lookback: self.lookback.deep_view(),
            mod_formats: self.mod_formats.deep_view(),
        }
    }
}

impl Status {
    pub open spec fn wf(self) -> bool {
        self@.lookback.len() <= LOOKBACK_CAP
    }

    /// A fresh player: both queues empty, nothing active, not paused. The
    /// supported-extension list is queried once at startup and cached here
    /// for the player's lifetime.
    pub fn new(mod_formats: Vec<String>) -> (s: Status)
        ensures
            s.wf(),
            s@ == (StatusView {
                paused: false,
                active: false,
                upcoming: Seq::empty(),
                lookback: Seq::empty(),
                mod_formats: mod_formats.deep_view(),
            }),
    {
        let s = Status {
            paused: false,
            active: false,
            upcoming: VecDeque::new(),
            lookback: VecDeque::new(),
            mod_formats,
        };
        proof {
            assert(s.upcoming.deep_view() =~= Seq::<Seq<char>>::empty());
            assert(s.lookback.deep_view() =~= Seq::<Seq<char>>::empty());
        }
        s
    }

    pub fn is_paused(&self) -> (p: bool)
        ensures
            p == self@.paused,
    {
        self.paused
    }

    pub fn set_paused(&mut self, paused: bool)
        requires
            old(self).wf(),
        ensures
            final(self).wf(),
            final(self)@ == (StatusView { paused, ..old(self)@ }),
    {
        self.paused = paused;
    }

    pub fn is_active(&self) -> (a: bool)
        ensures
            a == self@.active,
    {
        self.active
    }

    /// Marks the freshly loaded entry as the active source; the host calls
    /// this after a `Load` step succeeded.
    pub fn note_loaded(&mut self)
        requires
            old(self).wf(),
        ensures
            final(self).wf(),
            final(self)@ == (StatusView { active: true, ..old(self)@ }),
    {
        self.active = true;
    }

    /// Stops whatever is playing; the queues and the pause flag stay put.
    pub fn stopit(&mut self)
        requires
            old(self).wf(),
        ensures
            final(self).wf(),
            final(self)@ == (StatusView { active: false, ..old(self)@ }),
    {
        self.active = false;
    }

    /// How many entries wait in the upcoming queue. Also the host's retry
    /// budget when entries turn out missing: each failed `Load` consumed
    /// one entry, so this bounds the advance loop explicitly.
    pub fn upcoming_len(&self) -> (n: usize)
        ensures
            n == self@.upcoming.len(),
    {
        self.upcoming.len()
    }

    /// How many entries the lookback history holds.
    pub fn lookback_len(&self) -> (n: usize)
        ensures
            n == self@.lookback.len(),
    {
        self.lookback.len()
    }

    /// The history entry at `i`, newest first.
    pub fn lookback_at(&self, i: usize) -> (song: &String)
        requires
            i < self@.lookback.len(),
        ensures
            song@ == self@.lookback[i as int],
    {
        let song = &self.lookback[i];
        proof {
            assert(self.lookback.deep_view()[i as int] == song@);
        }
        song
    }

    /// The queue entry at `i`, front first.
    pub fn upcoming_at(&self, i: usize) -> (song: &String)
        requires
            i < self@.upcoming.len(),
        ensures
            song@ == self@.upcoming[i as int],
    {
        let song = &self.upcoming[i];
        proof {
            assert(self.upcoming.deep_view()[i as int] == song@);
        }
        song
    }

    /// Appends one entry to the back of the upcoming queue.
    pub fn enqueue(&mut self, song: String)
        requires
            old(self).wf(),
        ensures
            final(self).wf(),
            final(self)@ == (StatusView {
                upcoming: old(self)@.upcoming.push(song@),
                ..old(self)@
            }),
    {
        let ghost pre = self.upcoming.deep_view();
        self.upcoming.push_back(song);
        proof {
            assert(self.upcoming.deep_view() =~= pre.push(song@));
        }
    }

    /// Pushes one played entry onto the front of the lookback history,
    /// evicting the oldest entry when the history is full.
    pub fn push_song_to_lookback(&mut self, song: String)
        requires
            old(self).wf(),
        ensures
            final(self).wf(),
            final(self)@ == (StatusView {
                lookback: lookback_push(old(self)@.lookback, song@),
                ..old(self)@
            }),
    {
        let ghost pre = self.lookback.deep_view();
        if self.lookback.len() == LOOKBACK_CAP {
            let _ = self.lookback.pop_back();
            proof {
                assert(self.lookback.deep_view() =~= pre.drop_last());
            }
        }
        let ghost mid = self.lookback.deep_view();
        self.lookback.push_front(song);
        proof {
            assert(self.lookback.deep_view() =~= seq![song@] + mid);
        }
    }

    /// Resolves a path against the cached supported-extension list.
    pub fn classify(&self, path: &str) -> (f: TrackFormat)
        ensures
            f == classify_spec(extension_spec(path@), self@.mod_formats),
    {
        classify_path(path, &self.mod_formats)
    }

    /// Resolves a path to its decode strategy against the cached list, or
    /// to the unsupported-format error exactly when it fits neither.
    pub fn resolve(&self, path: &String) -> (r: Result<TrackFormat, TrackError>)
        ensures
            classify_spec(extension_spec(path@), self@.mod_formats) != TrackFormat::Unsupported
                <==> r is Ok,
            r matches Ok(f) ==> f == classify_spec(extension_spec(path@), self@.mod_formats),
            r matches Err(e) ==> (e matches TrackError::UnsupportedFormat {
                path: p,
                extension: x,
            } && p@ == path@ && x@ == extension_spec(path@)),
    {
        resolve_path(path, &self.mod_formats)
    }

    /// Stops the current source and steps to the next queue entry: reports
    /// `Exhausted` on an empty queue, expands a grouping marker in place
    /// (the marker itself never enters the lookback), or pops the front
    /// entry, commits it to the lookback, and hands it back for loading.
    pub fn advance(&mut self) -> (step: PlayStep)
        requires
            old(self).wf(),
        ensures
            final(self).wf(),
            advance_rel(old(self)@, final(self)@, step),
    {
        self.stopit();
        let ghost pre_up = self.upcoming.deep_view();
        let front_opt = self.upcoming.pop_front();
        match front_opt {
            Option::None => PlayStep::Exhausted,
            Option::Some(front) => {
                proof {
                    assert(pre_up[0] == front@);
                    assert(self.upcoming.deep_view() =~= pre_up.skip(1));
                }
                if is_marker_entry(&front) {
                    let mut words = quoted(front.as_str());
                    let ghost all = quoted_spec(front@);
                    let ghost rest = self.upcoming.deep_view();
                    proof {
                        assert(words.deep_view() =~= all.take(words@.len() as int));
                        assert(all.skip(words@.len() as int) + rest =~= rest);
                    }
                    while words.len() > 0
                        invariant
                            self.wf(),
                            words@.len() <= all.len(),
                            words.deep_view() == all.take(words@.len() as int),
                            self@ == (StatusView {
                                upcoming: all.skip(words@.len() as int) + rest,
                                active: false,
                                ..old(self)@
                            }),
                        decreases words@.len(),
                    {
                        let ghost m = words@.len() as int;
                        let ghost pre_words = words.deep_view();
                        let ghost pre_q = self.upcoming.deep_view();
                        match words.pop() {
                            Option::Some(w) => {
                                proof {
                                    assert(pre_words[m - 1] == w@);
                                    assert(w@ == all[m - 1]);
                                    assert(words.deep_view() =~= all.take(m - 1));
                                }
                                self.upcoming.push_front(w);
                                proof {
                                    assert(self.upcoming.deep_view() =~= seq![w@] + pre_q);
                                    assert(seq![w@] + pre_q =~= all.skip(m - 1) + rest);
                                }
                            },
                            Option::None => {
                                proof {
                                    assert(false);
                                }
                            },
                        }
                    }
                    proof {
                        assert(all.take(0) =~= Seq::<Seq<char>>::empty());
                        assert(self.upcoming.deep_view() =~= all + rest);
                    }
                    PlayStep::Expanded
                } else {
                    self.push_song_to_lookback(front.clone());
                    PlayStep::Load(front)
                }
            },
        }
    }

    /// Returns up to two history entries to the front of the upcoming
    /// queue: first the current track, then the one before it, so that the
    /// older one plays next. With one history entry, that entry replays;
    /// with none, nothing changes.
    pub fn rewind_history(&mut self)
        requires
            old(self).wf(),
        ensures
            final(self).wf(),
            final(self)@ == rewound(old(self)@),
    {
        let ghost pre_lb = self.lookback.deep_view();
        let ghost pre_up = self.upcoming.deep_view();
        if let Option::Some(song) = self.lookback.pop_front() {
            self.upcoming.push_front(song);
            proof {
                assert(self.lookback.deep_view() =~= pre_lb.skip(1));
                assert(self.upcoming.deep_view() =~= seq![pre_lb[0]] + pre_up);
            }
        }
        let ghost mid_lb = self.lookback.deep_view();
        let ghost mid_up = self.upcoming.deep_view();
        if let Option::Some(song) = self.lookback.pop_front() {
            self.upcoming.push_front(song);
            proof {
                assert(self.lookback.deep_view() =~= mid_lb.skip(1));
                assert(self.upcoming.deep_view() =~= seq![mid_lb[0]] + mid_up);
                assert(pre_lb.skip(1).skip(1) =~= pre_lb.skip(2));
                assert(seq![pre_lb[1]] + (seq![pre_lb[0]] + pre_up) =~= seq![
                    pre_lb[1],
                    pre_lb[0],
                ] + pre_up);
            }
        }
    }

    /// The "previous" operation whole: rewind the history, then advance
    /// into whatever now stands at the front.
    pub fn do_the_previous_one(&mut self) -> (step: PlayStep)
        requires
            old(self).wf(),
        ensures
            final(self).wf(),
            advance_rel(rewound(old(self)@), final(self)@, step),
    {
        self.rewind_history();
        self.advance()
    }

    /// Applies one control-surface event: the state change it implies
    /// happens here; whatever must touch the world — loading, pausing the
    /// stream, seeking, quitting — is handed back for the host to perform.
    pub fn handle_event(&mut self, event: PlayerEvent) -> (action: ControlAction)
        requires
            old(self).wf(),
        ensures
            final(self).wf(),
            event is Next ==> (final(self)@ == old(self)@ && action is StartNext),
            event is Previous ==> (final(self)@ == rewound(old(self)@) && action is StartNext),
            event is Play ==> (final(self)@ == (StatusView { paused: false, ..old(self)@ })
                && action is ResumeAudio),
            event is Pause ==> (final(self)@ == (StatusView { paused: true, ..old(self)@ })
                && action is PauseAudio),
            event is Toggle ==> (final(self)@ == (StatusView {
                paused: !old(self)@.paused,
                ..old(self)@
            }) && action == if old(self)@.paused {
                ControlAction::ResumeAudio
            } else {
                ControlAction::PauseAudio
            }),
            event is Stop ==> (final(self)@ == old(self)@ && action is Quit),
            event is SeekForward ==> (final(self)@ == old(self)@ && action
                == ControlAction::SeekRelative(true, BARE_SEEK_MS)),
            event is SeekBackward ==> (final(self)@ == old(self)@ && action
                == ControlAction::SeekRelative(false, BARE_SEEK_MS)),
            event matches PlayerEvent::SetPosition(ms) ==> (final(self)@ == old(self)@ && action
                == ControlAction::SeekTo(ms)),
            event matches PlayerEvent::SeekBy(forward, ms) ==> (final(self)@ == old(self)@
                && action == ControlAction::SeekRelative(forward, ms)),
            event is Other ==> (final(self)@ == old(self)@ && action is Ignored),
    {
        match event {
            PlayerEvent::Next => ControlAction::StartNext,
            PlayerEvent::Previous => {
                self.rewind_history();
                ControlAction::StartNext
            },
            PlayerEvent::Play => {
                self.paused = false;
                ControlAction::ResumeAudio
            },
            PlayerEvent::Pause => {
                self.paused = true;
                ControlAction::PauseAudio
            },
            PlayerEvent::Toggle => {
                let was = self.paused;
                self.paused = !was;
                if was {
                    ControlAction::ResumeAudio
                } else {
                    ControlAction::PauseAudio
                }
            },
            PlayerEvent::Stop => ControlAction::Quit,
            PlayerEvent::SeekForward => ControlAction::SeekRelative(true, BARE_SEEK_MS),
            PlayerEvent::SeekBackward => ControlAction::SeekRelative(false, BARE_SEEK_MS),
            PlayerEvent::SetPosition(ms) => ControlAction::SeekTo(ms),
            PlayerEvent::SeekBy(forward, ms) => ControlAction::SeekRelative(forward, ms),
            PlayerEvent::Other => ControlAction::Ignored,
        }
    }
}

/// Whether a queue entry is a grouping marker: it starts with `@`.
pub fn is_marker_entry(s: &String) -> (r: bool)
    ensures
        r == is_marker(s@),
{
    let st = s.as_str();
    st.unicode_len() > 0 && st.get_char(0) == '@'
}

/// A run of pushes onto the lookback history, oldest push first.
pub open spec fn lookback_push_all(lb: Seq<Seq<char>>, xs: Seq<Seq<char>>) -> Seq<Seq<char>>
    decreases xs.len(),
{
    if xs.len() == 0 {
        lb
    } else {
        lookback_push_all(lookback_push(lb, xs[0]), xs.skip(1))
    }
}

/// The closed form of a run of pushes: the entries in reverse push order,
/// then the prior history, cut to capacity.
pub proof fn lemma_lookback_push_all(lb: Seq<Seq<char>>, xs: Seq<Seq<char>>)
    requires
        lb.len() <= LOOKBACK_CAP,
    ensures
        lookback_push_all(lb, xs) == (xs.reverse() + lb).take(
            min(LOOKBACK_CAP as int, (xs.len() + lb.len()) as int),
        ),
    decreases xs.len(),
{
    if xs.len() == 0 {
        assert(xs.reverse() + lb =~= lb);
        assert(lb.take(lb.len() as int) =~= lb);
    } else {
        let x0 = xs[0];
        let rest = xs.skip(1);
        let lb1 = lookback_push(lb, x0);
        lemma_lookback_push_all(lb1, rest);
        assert(xs.reverse() =~= rest.reverse() + seq![x0]);
        if lb.len() < LOOKBACK_CAP {
            assert(lb1 =~= seq![x0] + lb);
            assert((rest.reverse() + lb1).take(min(LOOKBACK_CAP as int, (rest.len() + lb1.len()) as int))
                =~= (xs.reverse() + lb).take(min(LOOKBACK_CAP as int, (xs.len() + lb.len()) as int)));
        } else {
            assert(lb1 =~= (seq![x0] + lb).take(LOOKBACK_CAP as int));
            assert((rest.reverse() + lb1).take(min(LOOKBACK_CAP as int, (rest.len() + lb1.len()) as int))
                =~= (xs.reverse() + lb).take(min(LOOKBACK_CAP as int, (xs.len() + lb.len()) as int)));
        }
    }
}

/// Pushing at least a full history's worth of entries leaves exactly the
/// capacity, holding the most recent entries with the newest at the front:
/// eviction is oldest-first, retrieval newest-first.
pub proof fn lemma_lookback_bounded(lb: Seq<Seq<char>>, xs: Seq<Seq<char>>)
    requires
        lb.len() <= LOOKBACK_CAP,
        xs.len() >= LOOKBACK_CAP,
    ensures
        lookback_push_all(lb, xs).len() == LOOKBACK_CAP,
        forall|i: int|
            0 <= i < LOOKBACK_CAP ==> lookback_push_all(lb, xs)[i] == xs[xs.len() - 1 - i],
{
    lemma_lookback_push_all(lb, xs);
    assert forall|i: int| 0 <= i < LOOKBACK_CAP implies lookback_push_all(lb, xs)[i] == xs[xs.len()
        - 1 - i] by {
        assert(xs.reverse()[i] == xs[xs.len() - 1 - i]);
    }
}

} // verus!
