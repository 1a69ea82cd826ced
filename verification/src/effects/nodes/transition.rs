use vstd::prelude::*;

verus! {

/// What one frame of a node that fades between sources shows: one source
/// as it is, or a blend from one source towards another.
#[derive(Clone, Copy, Debug, PartialEq, Eq, Structural)]
pub enum Frame {
    Source(usize),
    Blend { from: usize, to: usize },
}

/// The sources of a select node: the one shown, once a frame has chosen it,
/// and the one a fade is heading to.
#[derive(Clone, Copy, Debug, PartialEq, Eq, Structural)]
pub struct SelectState {
    pub last: Option<usize>,
    pub next: Option<usize>,
}

/// The state, the frame and whether the fade starts again from zero, after
/// a frame that selects `curr`; `done` tells whether a running fade has
/// reached its end in this frame.
pub open spec fn select_next(state: SelectState, curr: usize, done: bool) -> (SelectState, Frame, bool) {
    match state.last {
        None => (SelectState { last: Some(curr), next: state.next }, Frame::Source(curr), false),
        Some(last) => match state.next {
            Some(next) => if done {
                (SelectState { last: Some(next), next: None }, Frame::Source(next), false)
            } else {
                (state, Frame::Blend { from: last, to: next }, false)
            },
            None => if curr != last {
                (SelectState { last: Some(last), next: Some(curr) }, Frame::Source(last), true)
            } else {
                (state, Frame::Source(last), false)
            },
        },
    }
}

impl SelectState {
    /// Nothing chosen yet.
    pub fn new() -> (res: Self)
        ensures
            res == (SelectState { last: None, next: None }),
    {
        SelectState { last: None, next: None }
    }

    /// A fade runs only from a shown source to another one.
    pub open spec fn wf(self) -> bool {
        self.next matches Some(n) ==> (self.last matches Some(l) && l != n)
    }

    /// Decides one frame: the sources of the first frame and of the end of a
    /// fade are taken as they are, a fade starts when the selection moves
    /// away from the shown source, and while it runs the selection is not
    /// looked at.
    pub fn update(&mut self, curr: usize, done: bool) -> (res: (Frame, bool))
        ensures
            (*final(self), res.0, res.1) == select_next(*old(self), curr, done),
    {
        match self.last {
            None => {
                self.last = Some(curr);
                (Frame::Source(curr), false)
            },
            Some(last) => match self.next {
                Some(next) => if done {
                    self.last = Some(next);
                    self.next = None;
                    (Frame::Source(next), false)
                } else {
                    (Frame::Blend { from: last, to: next }, false)
                },
                None => if curr != last {
                    self.next = Some(curr);
                    (Frame::Source(last), true)
                } else {
                    (Frame::Source(last), false)
                },
            },
        }
    }
}

/// A select node never blends a source with itself, and every frame keeps
/// its state well-formed.
pub proof fn lemma_select_blends_distinct_sources(state: SelectState, curr: usize, done: bool)
    requires
        state.wf(),
    ensures
        select_next(state, curr, done).0.wf(),
        select_next(state, curr, done).1 matches Frame::Blend { from, to } ==> from != to,
{
}

/// A fade that a select node starts ends on the selected source: once the
/// fade is done, the node shows that source and runs no fade.
pub proof fn lemma_select_fade_ends_on_selection(state: SelectState, curr: usize, later: usize)
    requires
        state.last is Some,
        state.next is None,
        state.last != Some(curr),
    ensures
        select_next(select_next(state, curr, false).0, later, true) == (
            SelectState { last: Some(curr), next: None },
            Frame::Source(curr),
            false,
        ),
{
}

/// The sources of a switch node: the one faded from and the one faded to;
/// no fade runs while they are the same.
#[derive(Clone, Copy, Debug, PartialEq, Eq, Structural)]
pub struct SwitchState {
    pub last: usize,
    pub next: usize,
}

/// The state, the frame and whether the fade starts again from zero, after
/// a frame; `value` is the selection, looked at only while no fade runs,
/// and `done` tells whether a running fade has reached its end.
pub open spec fn switch_next(state: SwitchState, value: usize, done: bool) -> (SwitchState, Frame, bool) {
    if state.last == state.next {
        if value != state.next {
            (SwitchState { last: state.last, next: value }, Frame::Source(value), true)
        } else {
            (state, Frame::Source(state.next), false)
        }
    } else if done {
        (SwitchState { last: state.next, next: state.next }, Frame::Blend { from: state.next, to: state.next }, true)
    } else {
        (state, Frame::Blend { from: state.last, to: state.next }, false)
    }
}

impl SwitchState {
    /// Showing `current`, with no fade running.
    pub fn new(current: usize) -> (res: Self)
        ensures
            res == (SwitchState { last: current, next: current }),
    {
        SwitchState { last: current, next: current }
    }

    /// Whether a fade runs, and so whether the selection is looked at.
    pub fn fading(&self) -> (res: bool)
        ensures
            res == (self.last != self.next),
    {
        self.last != self.next
    }

    /// Decides one frame: a new selection starts a fade (the frame already
    /// shows the new source), and a running fade finishes every transition
    /// before the selection is looked at again.
    pub fn update(&mut self, value: usize, done: bool) -> (res: (Frame, bool))
        ensures
            (*final(self), res.0, res.1) == switch_next(*old(self), value, done),
    {
        if self.last == self.next {
            if value != self.next {
                self.next = value;
                (Frame::Source(value), true)
            } else {
                (Frame::Source(self.next), false)
            }
        } else if done {
            self.last = self.next;
            (Frame::Blend { from: self.next, to: self.next }, true)
        } else {
            (Frame::Blend { from: self.last, to: self.next }, false)
        }
    }
}

/// A switch node finishes every transition before it follows the selection
/// again: while a fade runs, the selection changes nothing, and the end of
/// the fade leaves the node resting on its target.
pub proof fn lemma_switch_finishes_transitions(state: SwitchState, v1: usize, v2: usize)
    requires
        state.last != state.next,
    ensures
        switch_next(state, v1, false) == switch_next(state, v2, false),
        switch_next(state, v1, true).0 == (SwitchState { last: state.next, next: state.next }),
{
}

} // verus!
