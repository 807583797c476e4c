//! The progress indicator: a spinner that the caller advances while a
//! request is in flight, and that stays silent once told to stop.

use vstd::prelude::*;

verus! {

/// The spinner's frames, in turn.
pub open spec fn frame_char(i: nat) -> char {
    if i % 4 == 0 {
        '/'
    } else if i % 4 == 1 {
        '-'
    } else if i % 4 == 2 {
        '\\'
    } else {
        '|'
    }
}

/// What a tick writes: nothing once the stop signal has been seen.
pub open spec fn tick_output(frame: nat, stopped: bool, stop: bool) -> Option<char> {
    if stopped || stop {
        None
    } else {
        Some(frame_char(frame))
    }
}

/// What the spinner writes over a run of ticks, one stop-signal reading each.
pub open spec fn outputs(frame: nat, stopped: bool, stops: Seq<bool>) -> Seq<Option<char>>
    decreases stops.len(),
{
    if stops.len() == 0 {
        Seq::empty()
    } else {
        let now = stopped || stops[0];
        let next = if now {
            frame
        } else {
            (frame + 1) % 4
        };
        seq![tick_output(frame, stopped, stops[0])] + outputs(next, now, stops.drop_first())
    }
}

/// A spinner: the next frame, and whether the stop signal has been seen.
pub struct Spinner {
    pub frame: usize,
    pub stopped: bool,
}

impl Spinner {
    pub open spec fn wf(&self) -> bool {
        self.frame < 4
    }

    /// A running spinner at its first frame.
    pub fn new() -> (r: Spinner)
        ensures
            r.wf(),
            r.frame == 0,
            !r.stopped,
    {
        Spinner { frame: 0, stopped: false }
    }

    /// One tick, given the stop signal as read now: the frame to write, or
    /// nothing once the signal has been seen.
    pub fn tick(&mut self, stop_requested: bool) -> (r: Option<char>)
        requires
            old(self).wf(),
        ensures
            final(self).wf(),
            r == tick_output(old(self).frame as nat, old(self).stopped, stop_requested),
            final(self).stopped == (old(self).stopped || stop_requested),
            final(self).frame == (if final(self).stopped {
                old(self).frame as nat
            } else {
                (old(self).frame as nat + 1) % 4
            }),
    {
        if self.stopped || stop_requested {
            self.stopped = true;
            None
        } else {
            let c = if self.frame == 0 {
                '/'
            } else if self.frame == 1 {
                '-'
            } else if self.frame == 2 {
                '\\'
            } else {
                '|'
            };
            self.frame = (self.frame + 1) % 4;
            Some(c)
        }
    }
}

proof fn lemma_outputs_len(frame: nat, stopped: bool, stops: Seq<bool>)
    ensures
        outputs(frame, stopped, stops).len() == stops.len(),
    decreases stops.len(),
{
    if stops.len() > 0 {
        let now = stopped || stops[0];
        let next = if now {
            frame
        } else {
            (frame + 1) % 4
        };
        lemma_outputs_len(next, now, stops.drop_first());
    }
}

/// Once a tick has read the stop signal, that tick and every later one write
/// nothing.
pub proof fn lemma_silent_after_stop(frame: nat, stopped: bool, stops: Seq<bool>, i: int, j: int)
    requires
        0 <= i <= j < stops.len(),
        stops[i],
    ensures
        outputs(frame, stopped, stops)[j] is None,
    decreases stops.len(),
{
    let now = stopped || stops[0];
    let next = if now {
        frame
    } else {
        (frame + 1) % 4
    };
    let rest = outputs(next, now, stops.drop_first());
    lemma_outputs_len(next, now, stops.drop_first());
    assert(outputs(frame, stopped, stops) == seq![tick_output(frame, stopped, stops[0])] + rest);
    if j > 0 {
        if i > 0 {
            lemma_silent_after_stop(next, now, stops.drop_first(), i - 1, j - 1);
        } else {
            lemma_stopped_is_silent(next, stops.drop_first(), j - 1);
        }
    }
}

/// A spinner that has seen the stop signal writes nothing.
pub proof fn lemma_stopped_is_silent(frame: nat, stops: Seq<bool>, j: int)
    requires
        0 <= j < stops.len(),
    ensures
        outputs(frame, true, stops)[j] is None,
    decreases stops.len(),
{
    let rest = outputs(frame, true, stops.drop_first());
    lemma_outputs_len(frame, true, stops.drop_first());
    assert(outputs(frame, true, stops) == seq![tick_output(frame, true, stops[0])] + rest);
    if j > 0 {
        lemma_stopped_is_silent(frame, stops.drop_first(), j - 1);
    }
}

} // verus!
