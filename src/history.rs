use vstd::prelude::*;

use crate::timeline::Timeline;

verus! {

/// Relies on the `Debug` formatting of std (`format!("{:?}")`): the text that
/// the message's own `Debug` impl writes. Nothing is claimed of that text.
#[verifier::external_body]
fn debug_trace<M: std::fmt::Debug>(message: &M) -> String {
    format!("{message:?}")
}

/// What a stateful preview must do to its state after the timeline moved:
/// when `reboot` is set, start over from the boot state; then apply the
/// recorded messages `start..end` in order.
#[derive(Debug, Clone, Copy, PartialEq, Eq, Structural)]
pub struct Replay {
    /// Rebuild the state from boot before applying messages.
    pub reboot: bool,
    /// Index of the first message to apply.
    pub start: usize,
    /// One past the index of the last message to apply.
    pub end: usize,
}

/// A message routed to a stateful preview.
#[derive(Debug, Clone, PartialEq, Eq)]
pub enum Control<M> {
    /// A message of the preview's own type, already recovered from its envelope.
    Component(M),
    /// Start over from the boot state with an empty history.
    ResetPreview,
    /// Show the state after the first `n` messages.
    TimeTravel(u32),
    /// Go back to the most recent state.
    JumpToPresent,
}

/// What the preview must do to its state after a [`Control`] was handled.
#[derive(Debug, Clone, Copy, PartialEq, Eq, Structural)]
pub enum Action {
    /// Leave the state as it is.
    Nothing,
    /// Run the update function on the message recorded at this index, and
    /// forward the task it returns.
    Apply(usize),
    /// Rebuild the state from boot.
    Reboot,
    /// Carry out this replay, discarding the tasks it produces.
    Replay(Replay),
}

/// The state reached from `init` by applying `msgs` in order with `step`.
pub open spec fn fold_messages<S, M>(init: S, step: spec_fn(S, M) -> S, msgs: Seq<M>) -> S
    decreases msgs.len(),
{
    if msgs.len() == 0 {
        init
    } else {
        step(fold_messages(init, step, msgs.drop_last()), msgs.last())
    }
}

/// The state after carrying out `plan` on `state`, with `boot` as the boot
/// state and `msgs` as the recorded messages.
pub open spec fn apply_replay<S, M>(
    state: S,
    boot: S,
    step: spec_fn(S, M) -> S,
    msgs: Seq<M>,
    plan: Replay,
) -> S {
    fold_messages(
        if plan.reboot { boot } else { state },
        step,
        msgs.subrange(plan.start as int, plan.end as int),
    )
}

/// `n` as a `u32`, saturating at `u32::MAX`.
pub open spec fn saturate(n: nat) -> u32 {
    if n <= u32::MAX { n as u32 } else { u32::MAX }
}

/// A log of the messages a preview emitted, with their traces and the
/// position the user is looking at. The history is live when the position
/// is at the end of the log; otherwise it is historical.
#[derive(Debug, Clone, Default)]
pub struct History<M> {
    /// The messages emitted by the preview.
    pub messages: Vec<M>,
    /// Human-readable traces of `messages`, one each.
    pub traces: Vec<String>,
    /// The number of messages whose effect is shown.
    pub position: usize,
}

impl<M> History<M> {
    /// One trace per message, and a position within the log.
    pub open spec fn wf(&self) -> bool {
        &&& self.traces@.len() == self.messages@.len()
        &&& self.position <= self.messages@.len()
    }

    /// The position is at the end of the log.
    pub open spec fn spec_is_live(&self) -> bool {
        self.position == self.messages@.len()
    }

    /// The position after a request to move to `position`: taken when it is
    /// within the log, ignored otherwise.
    pub open spec fn rewound_position(&self, position: usize) -> usize {
        if position <= self.messages@.len() { position } else { self.position }
    }

    /// The replay that a move to `position` asks for: from boot, up to the
    /// new position.
    pub open spec fn time_travel_plan(&self, position: usize) -> Replay {
        Replay { reboot: true, start: 0, end: self.rewound_position(position) }
    }

    /// The replay that a jump back to the present asks for: nothing when
    /// live; else the messages from the position to the end, on the shown state.
    pub open spec fn present_plan(&self) -> Option<Replay> {
        if self.spec_is_live() {
            None
        } else {
            Some(Replay { reboot: false, start: self.position, end: self.messages@.len() as usize })
        }
    }

    /// An empty, live history.
    pub fn new() -> (r: Self)
        ensures
            r.wf(),
            r.spec_is_live(),
            r.messages@ == Seq::<M>::empty(),
            r.traces@ == Seq::<String>::empty(),
            r.position == 0,
    {
        History { messages: Vec::new(), traces: Vec::new(), position: 0 }
    }

    /// Appends `message` and its trace while live, staying live.
    pub fn push(&mut self, message: M)
        where M: std::fmt::Debug,
        requires
            old(self).wf(),
            old(self).spec_is_live(),
        ensures
            final(self).wf(),
            final(self).spec_is_live(),
            final(self).messages@ == old(self).messages@.push(message),
            final(self).traces@.drop_last() == old(self).traces@,
            final(self).position == old(self).position + 1,
            final(self).traces@.len() == final(self).messages@.len(),
            final(self).messages@.len() == final(self).position,
    {
        let trace = debug_trace(&message);
        self.traces.push(trace);
        self.messages.push(message);
        self.position = self.messages.len();
        assert(self.traces@.drop_last() =~= old(self).traces@);
    }

    /// Records `message` if the history is live, and reports whether it did.
    /// While historical the message is dropped, so the log never forks.
    pub fn record(&mut self, message: M) -> (r: bool)
        where M: std::fmt::Debug,
        requires
            old(self).wf(),
        ensures
            final(self).wf(),
            r == old(self).spec_is_live(),
            r ==> final(self).spec_is_live() && final(self).messages@ == old(self).messages@.push(message)
                && final(self).traces@.drop_last() == old(self).traces@,
            !r ==> *final(self) == *old(self),
    {
        if self.is_live() {
            self.push(message);
            true
        } else {
            false
        }
    }

    /// Clears every message and trace, back to an empty live history.
    pub fn reset(&mut self)
        ensures
            final(self).wf(),
            final(self).messages@ == Seq::<M>::empty(),
            final(self).traces@ == Seq::<String>::empty(),
            final(self).position == 0,
    {
        self.messages.clear();
        self.traces.clear();
        self.position = 0;
    }

    /// All message traces.
    pub fn traces(&self) -> (r: &[String])
        ensures
            r@ == self.traces@,
    {
        self.traces.as_slice()
    }

    /// The traces of the messages whose effect is shown: those before the position.
    pub fn visible_traces(&self) -> (r: &[String])
        requires
            self.wf(),
        ensures
            r@ == self.traces@.take(self.position as int),
    {
        let (visible, _) = self.traces.as_slice().split_at(self.position);
        visible
    }

    /// The number of recorded messages.
    pub fn len(&self) -> (r: usize)
        ensures
            r == self.messages@.len(),
    {
        self.messages.len()
    }

    /// Whether no message is recorded.
    pub fn is_empty(&self) -> (r: bool)
        ensures
            r == (self.messages@.len() == 0),
    {
        self.messages.len() == 0
    }

    /// Whether the position is at the end of the log.
    pub fn is_live(&self) -> (r: bool)
        ensures
            r == self.spec_is_live(),
    {
        self.position == self.messages.len()
    }

    /// Moves the position to the end of the log.
    pub fn go_live(&mut self)
        ensures
            final(self).spec_is_live(),
            final(self).messages == old(self).messages,
            final(self).traces == old(self).traces,
    {
        self.position = self.messages.len();
    }

    /// Moves the position to `position` if it is within the log; otherwise
    /// nothing changes.
    pub fn change_position(&mut self, position: usize)
        ensures
            final(self).position == old(self).rewound_position(position),
            final(self).messages == old(self).messages,
            final(self).traces == old(self).traces,
    {
        if position > self.messages.len() {
            return;
        }
        self.position = position;
    }

    /// Moves to `position` (ignored when past the end) and returns the replay
    /// that rebuilds the state shown there.
    pub fn time_travel(&mut self, position: usize) -> (r: Replay)
        ensures
            final(self).position == old(self).rewound_position(position),
            final(self).messages == old(self).messages,
            final(self).traces == old(self).traces,
            r == old(self).time_travel_plan(position),
    {
        self.change_position(position);
        Replay { reboot: true, start: 0, end: self.position }
    }

    /// Goes live and returns the replay that brings the shown state up to
    /// date, or nothing when already live.
    pub fn jump_to_present(&mut self) -> (r: Option<Replay>)
        ensures
            final(self).spec_is_live(),
            final(self).messages == old(self).messages,
            final(self).traces == old(self).traces,
            r == old(self).present_plan(),
    {
        if self.is_live() {
            return None;
        }
        let start = self.position;
        self.go_live();
        Some(Replay { reboot: false, start, end: self.messages.len() })
    }

    /// Handles a control message: records a component message while live
    /// (dropping it while historical), clears on reset, and moves the
    /// timeline on time travel, saying each time what the state needs.
    pub fn handle(&mut self, control: Control<M>) -> (r: Action)
        where M: std::fmt::Debug,
        requires
            old(self).wf(),
        ensures
            final(self).wf(),
            match control {
                Control::Component(m) => if old(self).spec_is_live() {
                    &&& final(self).spec_is_live()
                    &&& final(self).messages@ == old(self).messages@.push(m)
                    &&& final(self).traces@.drop_last() == old(self).traces@
                    &&& r == Action::Apply(old(self).messages@.len() as usize)
                } else {
                    *final(self) == *old(self) && r == Action::Nothing
                },
                Control::ResetPreview => {
                    &&& final(self).messages@ == Seq::<M>::empty()
                    &&& final(self).traces@ == Seq::<String>::empty()
                    &&& final(self).position == 0
                    &&& r == Action::Reboot
                },
                Control::TimeTravel(p) => {
                    &&& final(self).position == old(self).rewound_position(p as usize)
                    &&& final(self).messages == old(self).messages
                    &&& final(self).traces == old(self).traces
                    &&& r == Action::Replay(old(self).time_travel_plan(p as usize))
                },
                Control::JumpToPresent => {
                    &&& final(self).spec_is_live()
                    &&& final(self).messages == old(self).messages
                    &&& final(self).traces == old(self).traces
                    &&& r == match old(self).present_plan() {
                        None => Action::Nothing,
                        Some(plan) => Action::Replay(plan),
                    }
                },
            },
    {
        match control {
            Control::Component(m) => {
                let index = self.messages.len();
                if self.record(m) {
                    Action::Apply(index)
                } else {
                    Action::Nothing
                }
            },
            Control::ResetPreview => {
                self.reset();
                Action::Reboot
            },
            Control::TimeTravel(p) => Action::Replay(self.time_travel(p as usize)),
            Control::JumpToPresent => match self.jump_to_present() {
                None => Action::Nothing,
                Some(plan) => Action::Replay(plan),
            },
        }
    }

    /// The timeline of this history; lengths past `u32::MAX` saturate.
    pub fn timeline(&self) -> (r: Timeline)
        ensures
            r.wf(),
            r.spec_count() == saturate(self.messages@.len()),
            r.spec_position() == if saturate(self.position as nat) <= saturate(self.messages@.len()) {
                saturate(self.position as nat)
            } else {
                saturate(self.messages@.len())
            },
    {
        let count: u32 = if self.messages.len() <= u32::MAX as usize { self.messages.len() as u32 } else { u32::MAX };
        let position: u32 = if self.position <= u32::MAX as usize { self.position as u32 } else { u32::MAX };
        Timeline::new(position, count)
    }
}

/// Applying a prefix of the messages and then the messages that follow it,
/// up to `j`, is applying the first `j` messages.
pub proof fn lemma_fold_split<S, M>(init: S, step: spec_fn(S, M) -> S, msgs: Seq<M>, k: int, j: int)
    requires
        0 <= k <= j <= msgs.len(),
    ensures
        fold_messages(fold_messages(init, step, msgs.take(k)), step, msgs.subrange(k, j))
            == fold_messages(init, step, msgs.take(j)),
    decreases j - k,
{
    if j == k {
        assert(msgs.subrange(k, j) =~= Seq::<M>::empty());
        assert(msgs.take(k) =~= msgs.take(j));
    } else {
        lemma_fold_split(init, step, msgs, k, j - 1);
        assert(msgs.subrange(k, j).drop_last() =~= msgs.subrange(k, j - 1));
        assert(msgs.take(j).drop_last() =~= msgs.take(j - 1));
    }
}

/// Each replay that the timeline asks for keeps the shown state equal to the
/// boot state with the messages before the position applied: after a move to
/// any position, and after a jump back to the present. This holds for any
/// update that is a function of the state and the message.
pub proof fn lemma_replay_shows_prefix<S, M>(
    h: History<M>,
    shown: S,
    position: usize,
    boot: S,
    step: spec_fn(S, M) -> S,
)
    requires
        h.wf(),
        shown == fold_messages(boot, step, h.messages@.take(h.position as int)),
    ensures
        apply_replay(shown, boot, step, h.messages@, h.time_travel_plan(position))
            == fold_messages(boot, step, h.messages@.take(h.rewound_position(position) as int)),
        match h.present_plan() {
            None => shown == fold_messages(boot, step, h.messages@),
            Some(plan) => apply_replay(shown, boot, step, h.messages@, plan) == fold_messages(
                boot,
                step,
                h.messages@,
            ),
        },
{
    let msgs = h.messages@;
    let p = h.rewound_position(position) as int;
    assert(msgs.subrange(0, p) =~= msgs.take(p));
    assert(msgs.take(msgs.len() as int) =~= msgs);
    if !h.spec_is_live() {
        lemma_fold_split(boot, step, msgs, h.position as int, msgs.len() as int);
        assert(h.messages.len() == msgs.len());
        assert((msgs.len() as usize) as int == msgs.len());
    } else {
        assert(msgs.take(h.position as int) =~= msgs);
    }
}

/// Moving back to any position and then jumping to the present, carrying out
/// both replays, gives back the state that was shown while live: the boot
/// state with every recorded message applied in order.
pub proof fn lemma_rewind_then_present_restores<S, M>(
    h: History<M>,
    position: usize,
    boot: S,
    step: spec_fn(S, M) -> S,
)
    requires
        h.wf(),
        h.spec_is_live(),
    ensures
        ({
            let live = fold_messages(boot, step, h.messages@);
            let shown = apply_replay(live, boot, step, h.messages@, h.time_travel_plan(position));
            let back = History {
                messages: h.messages,
                traces: h.traces,
                position: h.rewound_position(position),
            };
            match back.present_plan() {
                None => shown == live,
                Some(plan) => apply_replay(shown, boot, step, back.messages@, plan) == live,
            }
        }),
{
    let msgs = h.messages@;
    let live = fold_messages(boot, step, msgs);
    assert(msgs.take(h.position as int) =~= msgs);
    lemma_replay_shows_prefix(h, live, position, boot, step);
    let shown = apply_replay(live, boot, step, msgs, h.time_travel_plan(position));
    let back = History { messages: h.messages, traces: h.traces, position: h.rewound_position(position) };
    lemma_replay_shows_prefix(back, shown, position, boot, step);
}

} // verus!
