//! The shell reader: what to do with each result of reading a shell's
//! output, for remote and local shells alike. The caller reads, hands the
//! result over, pushes the event that comes back to the sink, and sleeps,
//! reads again or stops as told.
use vstd::prelude::*;
use crate::model::{TerminalDisconnected, TerminalOutput};
use crate::text::{lossy_utf8, push_text, utf8_lossy};

verus! {

/// The result of one read of a shell's output.
#[derive(Clone, Debug, PartialEq, Eq)]
pub enum ReadOutcome {
    /// Bytes were read; none means the end of the output.
    Data(Vec<u8>),
    /// Nothing to read yet.
    WouldBlock,
    /// The read was interrupted before anything was read.
    Interrupted,
    /// The read failed; the text describes why.
    Failed(String),
}

/// An event for the sink.
#[derive(Clone, Debug, PartialEq, Eq)]
pub enum ShellEvent {
    Output(TerminalOutput),
    Disconnected(TerminalDisconnected),
}

/// What the reader does after handing over the event, if any.
#[derive(Clone, Copy, Debug, PartialEq, Eq, Structural)]
pub enum NextRead {
    /// Read again at once.
    Now,
    /// Release the channel and sleep a short while, then read again.
    AfterPause,
    /// Stop reading.
    Stop,
}

/// What the reader does with one read result.
#[derive(Clone, Debug, PartialEq, Eq)]
pub struct ReaderStep {
    pub event: Option<ShellEvent>,
    pub next: NextRead,
}

/// The kind of an event, for counting.
#[derive(Clone, Copy, Debug, PartialEq, Eq, Structural)]
pub enum EventKind {
    Output,
    Disconnected,
}

/// Whether a read result ends the output: end of output or a failure.
pub open spec fn ends_output(o: ReadOutcome) -> bool {
    match o {
        ReadOutcome::Data(b) => b@.len() == 0,
        ReadOutcome::Failed(_) => true,
        _ => false,
    }
}

/// The kind of event that a read result gives, in a reader that has stopped or not.
pub open spec fn event_kind(stopped: bool, o: ReadOutcome) -> Option<EventKind> {
    if stopped {
        None
    } else if ends_output(o) {
        Some(EventKind::Disconnected)
    } else if o is Data {
        Some(EventKind::Output)
    } else {
        None
    }
}

/// The event kinds that a reader gives for a run of read results.
pub open spec fn event_kinds(stopped: bool, os: Seq<ReadOutcome>) -> Seq<EventKind>
    decreases os.len(),
{
    if os.len() == 0 {
        Seq::empty()
    } else {
        let head = match event_kind(stopped, os[0]) {
            Some(k) => seq![k],
            None => Seq::empty(),
        };
        head + event_kinds(stopped || ends_output(os[0]), os.drop_first())
    }
}

/// The reason given when the output ends: `eof`, or `error: ` and the cause.
pub open spec fn reason_of(o: ReadOutcome) -> Seq<char> {
    match o {
        ReadOutcome::Failed(detail) => "error: "@ + detail@,
        _ => "eof"@,
    }
}

/// The reader of one shell's output.
pub struct ShellReader {
    pub session_id: String,
    pub stopped: bool,
}

impl ShellReader {
    /// A reader for a freshly opened shell.
    pub fn new(session_id: &str) -> (r: Self)
        ensures
            r.session_id@ == session_id@,
            !r.stopped,
    {
        ShellReader { session_id: String::from_str(session_id), stopped: false }
    }

    /// Decides what one read result leads to.
    pub fn step(&mut self, outcome: &ReadOutcome) -> (r: ReaderStep)
        ensures
            final(self).session_id == old(self).session_id,
            final(self).stopped == (old(self).stopped || ends_output(*outcome)),
            r.event is None <==> event_kind(old(self).stopped, *outcome) is None,
            r.event matches Some(ShellEvent::Output(out)) ==> event_kind(old(self).stopped, *outcome)
                == Some(EventKind::Output) && out.session_id@ == old(self).session_id@
                && out.data@ == lossy_utf8(outcome->Data_0@),
            r.event matches Some(ShellEvent::Disconnected(d)) ==> event_kind(
                old(self).stopped,
                *outcome,
            ) == Some(EventKind::Disconnected) && d.session_id@ == old(self).session_id@
                && d.reason@ == reason_of(*outcome),
            r.next == if final(self).stopped {
                NextRead::Stop
            } else if *outcome is WouldBlock {
                NextRead::AfterPause
            } else {
                NextRead::Now
            },
    {
        if self.stopped {
            return ReaderStep { event: None, next: NextRead::Stop };
        }
        match outcome {
            ReadOutcome::Data(bytes) => {
                if bytes.len() == 0 {
                    self.stopped = true;
                    let d = TerminalDisconnected {
                        session_id: self.session_id.clone(),
                        reason: String::from_str("eof"),
                    };
                    ReaderStep { event: Some(ShellEvent::Disconnected(d)), next: NextRead::Stop }
                } else {
                    let out = TerminalOutput {
                        session_id: self.session_id.clone(),
                        data: utf8_lossy(bytes.as_slice()),
                    };
                    ReaderStep { event: Some(ShellEvent::Output(out)), next: NextRead::Now }
                }
            },
            ReadOutcome::WouldBlock => ReaderStep { event: None, next: NextRead::AfterPause },
            ReadOutcome::Interrupted => ReaderStep { event: None, next: NextRead::Now },
            ReadOutcome::Failed(detail) => {
                self.stopped = true;
                let mut reason = String::from_str("error: ");
                push_text(&mut reason, detail.as_str());
                let d = TerminalDisconnected { session_id: self.session_id.clone(), reason };
                ReaderStep { event: Some(ShellEvent::Disconnected(d)), next: NextRead::Stop }
            },
        }
    }
}

proof fn lemma_stopped_reader_is_silent(os: Seq<ReadOutcome>)
    ensures
        event_kinds(true, os).len() == 0,
    decreases os.len(),
{
    if os.len() > 0 {
        lemma_stopped_reader_is_silent(os.drop_first());
    }
}

/// A reader gives at most one disconnection, and nothing after it; it gives
/// one exactly when some read ends the output.
pub proof fn reader_disconnects_at_most_once(os: Seq<ReadOutcome>)
    ensures
        forall|i: int|
            0 <= i < event_kinds(false, os).len() && #[trigger] event_kinds(false, os)[i]
                == EventKind::Disconnected ==> i == event_kinds(false, os).len() - 1,
        event_kinds(false, os).contains(EventKind::Disconnected) <==> exists|k: int|
            0 <= k < os.len() && ends_output(#[trigger] os[k]),
    decreases os.len(),
{
    if os.len() > 0 {
        let rest = os.drop_first();
        let ks = event_kinds(false, os);
        if ends_output(os[0]) {
            lemma_stopped_reader_is_silent(rest);
            assert(ks =~= seq![EventKind::Disconnected]);
            assert(ks[0] == EventKind::Disconnected);
        } else {
            reader_disconnects_at_most_once(rest);
            let head = match event_kind(false, os[0]) {
                Some(k) => seq![k],
                None => Seq::<EventKind>::empty(),
            };
            let tail = event_kinds(false, rest);
            assert(ks =~= head + tail);
            assert forall|i: int| 0 <= i < ks.len() && #[trigger] ks[i] == EventKind::Disconnected
                implies i == ks.len() - 1 by {
                assert(i >= head.len());
                assert(tail[i - head.len()] == EventKind::Disconnected);
            }
            if ks.contains(EventKind::Disconnected) {
                let i = choose|i: int| 0 <= i < ks.len() && ks[i] == EventKind::Disconnected;
                assert(tail[i - head.len()] == EventKind::Disconnected);
                let k = choose|k: int| 0 <= k < rest.len() && ends_output(rest[k]);
                assert(os[k + 1] == rest[k]);
            }
            if exists|k: int| 0 <= k < os.len() && ends_output(#[trigger] os[k]) {
                let k = choose|k: int| 0 <= k < os.len() && ends_output(#[trigger] os[k]);
                assert(rest[k - 1] == os[k]);
                let j = choose|j: int| 0 <= j < tail.len() && tail[j] == EventKind::Disconnected;
                assert(ks[j + head.len()] == EventKind::Disconnected);
            }
        }
    }
}

} // verus!
