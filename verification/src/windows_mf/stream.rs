//! The task that feeds one stream sink of the MP4 writer. The sink asks for
//! samples with events; each request is answered with the next sample from
//! the stream's channel, or, once that channel has ended, with an
//! end-of-segment marker. The first end of segment also tells the muxer that
//! this stream is finished; that signal is sent once only.

use vstd::prelude::*;

verus! {

/// An event from the stream sink.
#[derive(Clone, Copy, Debug, PartialEq, Eq, Structural)]
pub enum SinkEvent {
    /// The sink asks for the next sample.
    RequestSample,
    /// An event of another type, by its type number.
    Other(u32),
    /// The event queue reported an error in place of an event.
    Unreadable,
}

/// What to do on an event.
#[derive(Clone, Copy, Debug, PartialEq, Eq, Structural)]
pub enum SinkEventAction {
    /// Wait for the next sample on the stream's channel.
    AwaitSample,
    /// Report an event type that is not handled.
    Report(u32),
    /// Nothing to do.
    Skip,
}

/// What to do once the wait for a sample is over.
#[derive(Clone, Copy, Debug, PartialEq, Eq, Structural)]
pub enum SampleAction {
    /// Hand the sample to the sink.
    Process,
    /// Place an end-of-segment marker, and signal the muxer when
    /// `signal_finish` holds.
    EndSegment { signal_finish: bool },
}

/// The action for an event.
pub fn on_sink_event(event: SinkEvent) -> (res: SinkEventAction)
    ensures
        res == (match event {
            SinkEvent::RequestSample => SinkEventAction::AwaitSample,
            SinkEvent::Other(t) => SinkEventAction::Report(t),
            SinkEvent::Unreadable => SinkEventAction::Skip,
        }),
{
    match event {
        SinkEvent::RequestSample => SinkEventAction::AwaitSample,
        SinkEvent::Other(t) => SinkEventAction::Report(t),
        SinkEvent::Unreadable => SinkEventAction::Skip,
    }
}

/// Whether the stream has told the muxer that it is finished.
pub struct SinkFeeder {
    finish_signalled: bool,
}

impl View for SinkFeeder {
    type V = bool;

    closed spec fn view(&self) -> bool {
        self.finish_signalled
    }
}

/// The signal flag after a sample wait, and the action taken.
pub open spec fn sample_step(signalled: bool, available: bool) -> (bool, SampleAction) {
    if available {
        (signalled, SampleAction::Process)
    } else {
        (true, SampleAction::EndSegment { signal_finish: !signalled })
    }
}

/// How many finish signals a run of sample waits sends, starting from the
/// given flag; `available` tells, wait by wait, whether a sample came.
pub open spec fn finish_signals(signalled: bool, available: Seq<bool>) -> nat
    decreases available.len(),
{
    if available.len() == 0 {
        0
    } else {
        let (next, action) = sample_step(signalled, available[0]);
        let here: nat = if action == (SampleAction::EndSegment { signal_finish: true }) {
            1
        } else {
            0
        };
        here + finish_signals(next, available.drop_first())
    }
}

impl SinkFeeder {
    /// A feeder that has not signalled yet.
    pub fn new() -> (res: Self)
        ensures
            res@ == false,
    {
        SinkFeeder { finish_signalled: false }
    }

    /// The action once the wait for a sample is over: process a sample that
    /// came; otherwise end the segment, signalling the first time only.
    pub fn on_sample(&mut self, available: bool) -> (res: SampleAction)
        ensures
            (final(self)@, res) == sample_step(old(self)@, available),
    {
        if available {
            SampleAction::Process
        } else {
            let signal_finish = !self.finish_signalled;
            self.finish_signalled = true;
            SampleAction::EndSegment { signal_finish }
        }
    }
}

/// Over any run of sample waits the muxer is told at most once that the
/// stream is finished, exactly once when the channel ended at some point
/// of a fresh run, and never after it was told before.
pub proof fn lemma_finish_signalled_at_most_once(signalled: bool, available: Seq<bool>)
    ensures
        finish_signals(signalled, available) <= 1,
        signalled ==> finish_signals(signalled, available) == 0,
        !signalled ==> (finish_signals(signalled, available) == 1 <==> available.contains(false)),
    decreases available.len(),
{
    if available.len() > 0 {
        let (next, _) = sample_step(signalled, available[0]);
        lemma_finish_signalled_at_most_once(next, available.drop_first());
        if !signalled && available[0] {
            assert(available.contains(false) <==> available.drop_first().contains(false)) by {
                if available.contains(false) {
                    let k = choose|k: int| 0 <= k < available.len() && available[k] == false;
                    assert(available.drop_first()[k - 1] == false);
                }
                if available.drop_first().contains(false) {
                    let k = choose|k: int|
                        0 <= k < available.drop_first().len() && available.drop_first()[k]
                            == false;
                    assert(available[k + 1] == false);
                }
            }
        }
        if !signalled && !available[0] {
            assert(available[0] == false);
        }
    }
}

} // verus!
