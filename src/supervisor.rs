//! The decisions of a job's supervisor. The supervisor reads the output of
//! the job's process line by line; before each line it looks, without
//! waiting, for a control signal. A signal stops the run: the process is
//! killed, the output discarded if the signal was `Cancel`, and the loop
//! ends. Otherwise a progress line is published. Once the process has
//! exited, its exit and the signal taken, if any, give the run's status.
//!
//! The waiting, killing and reading are done by the caller, which hands the
//! results to the functions here.
use vstd::prelude::*;
use crate::cleanup::{matching_names, lemma_matching_names};
use crate::control::try_take;
use crate::events::{progress_message, progress_message_spec};
use crate::job::{JobKey, Signal, Status};
use crate::progress::{marker, parse_progress, parse_progress_spec, progress_at, progress_from};
use crate::text::{contains_text, occurs_at};
use tokio::sync::mpsc::Receiver;

verus! {

/// What the supervisor does with one line of output.
pub enum LineAction {
    /// A signal was waiting: kill the process, discard its output if the
    /// signal says so, and stop reading.
    Halt(Signal),
    /// The line is a progress line: publish this message.
    Publish(String),
    /// Nothing to do for this line.
    Skip,
}

/// How the wait for the job's process ended.
#[derive(Clone, Copy, Debug, PartialEq, Eq, Structural)]
pub enum ProcessExit {
    /// The process exited with code 0.
    Success,
    /// The process exited otherwise, or was killed.
    Failure,
    /// The wait itself failed.
    WaitFailed,
}

/// What the supervisor does with `line` of the job of `key`, given the signal
/// found waiting before it, if any.
pub open spec fn line_action_post(
    key: Seq<char>,
    line: Seq<char>,
    polled: Option<Signal>,
    r: LineAction,
) -> bool {
    match polled {
        Some(signal) => r == LineAction::Halt(signal),
        None => match parse_progress_spec(line) {
            Some(p) => r matches LineAction::Publish(m) && m@ == progress_message_spec(key, p),
            None => r is Skip,
        },
    }
}

/// What the supervisor does with `line` of the job of `key`, given the signal
/// found waiting before it, if any.
pub fn decide_line(key: &JobKey, line: &str, polled: Option<Signal>) -> (r: LineAction)
    ensures
        line_action_post(key@, line@, polled, r),
{
    match polled {
        Some(signal) => LineAction::Halt(signal),
        None => match parse_progress(line) {
            Some(p) => LineAction::Publish(progress_message(key, &p)),
            None => LineAction::Skip,
        },
    }
}

/// The status that ends a run: `Completed` when the process exited with code
/// 0; otherwise the target of the signal taken, if one was; otherwise
/// `Failed`.
pub open spec fn spec_final_status(exit: ProcessExit, taken: Option<Signal>) -> Status {
    match exit {
        ProcessExit::Success => Status::Completed,
        _ => match taken {
            Some(signal) => signal.spec_target(),
            None => Status::Failed,
        },
    }
}

/// The status that ends a run, from how the process exited and the signal
/// taken during the run, if any.
pub fn final_status(exit: ProcessExit, taken: Option<Signal>) -> (r: Status)
    ensures
        r == spec_final_status(exit, taken),
        r.spec_is_final(),
{
    match exit {
        ProcessExit::Success => Status::Completed,
        _ => match taken {
            Some(signal) => signal.target(),
            None => Status::Failed,
        },
    }
}

/// The supervisor of one run of a job: it holds the receiving half of the
/// job's control channel and the signal it has taken, if any.
pub struct Supervisor {
    key: JobKey,
    control: Receiver<Signal>,
    taken: Option<Signal>,
}

impl Supervisor {
    /// The key of the supervised job.
    pub closed spec fn key_view(&self) -> Seq<char> {
        self.key@
    }

    /// The signal taken so far, if any.
    pub closed spec fn taken(&self) -> Option<Signal> {
        self.taken
    }

    /// A supervisor for the job of `key`, listening on `control`.
    pub fn new(key: JobKey, control: Receiver<Signal>) -> (r: Supervisor)
        ensures
            r.key_view() == key@,
            r.taken() is None,
    {
        Supervisor { key, control, taken: None }
    }

    /// Whether a signal has stopped the run.
    pub fn halted(&self) -> (r: bool)
        ensures
            r == self.taken() is Some,
    {
        self.taken.is_some()
    }

    /// Handles one line of output: looks for a waiting signal without
    /// waiting, then decides. A signal found is taken, and no other will be.
    pub fn on_line(&mut self, line: &str) -> (r: LineAction)
        requires
            old(self).taken() is None,
        ensures
            final(self).key_view() == old(self).key_view(),
            match r {
                LineAction::Halt(signal) => final(self).taken() == Some(signal),
                _ => final(self).taken() is None && line_action_post(
                    old(self).key_view(),
                    line@,
                    None,
                    r,
                ),
            },
    {
        let polled = try_take(&mut self.control);
        let r = decide_line(&self.key, line, polled);
        if let LineAction::Halt(signal) = r {
            self.taken = Some(signal);
        }
        r
    }

    /// The status that ends the run, once the process has exited as `exit`.
    pub fn finish(self, exit: ProcessExit) -> (r: Status)
        ensures
            r == spec_final_status(exit, self.taken()),
            r.spec_is_final(),
    {
        final_status(exit, self.taken)
    }
}

/// A line without the progress marker gives no record, and so nothing to
/// publish.
pub proof fn law_no_marker_no_broadcast(
    key: Seq<char>,
    line: Seq<char>,
    r: LineAction,
)
    requires
        !contains_text(line, marker()),
        line_action_post(key, line, None, r),
    ensures
        parse_progress_spec(line) is None,
        r is Skip,
{
    lemma_no_marker_from(line, 0);
}

proof fn lemma_no_marker_from(s: Seq<char>, i: int)
    requires
        !contains_text(s, marker()),
    ensures
        progress_from(s, i) is None,
    decreases s.len() + 1 - i,
{
    if 0 <= i <= s.len() {
        assert(!occurs_at(s, marker(), i));
        assert(progress_at(s, i) is None);
        lemma_no_marker_from(s, i + 1);
    }
}

/// Canceling a running job mid-run: the supervisor halts on the signal and
/// discards the output; the killed process's exit ends the run `Canceled`;
/// the entries removed are exactly those of the directory whose names
/// contain the resolved output name.
pub proof fn law_cancel_mid_run(
    key: Seq<char>,
    line: Seq<char>,
    action: LineAction,
    exit: ProcessExit,
    entries: Seq<Seq<char>>,
    name: Seq<char>,
)
    requires
        line_action_post(key, line, Some(Signal::Cancel), action),
        exit != ProcessExit::Success,
    ensures
        action == LineAction::Halt(Signal::Cancel),
        Signal::Cancel.spec_discards_output(),
        spec_final_status(exit, Some(Signal::Cancel)) == Status::Canceled,
        forall|e: Seq<char>|
            entries.contains(e) ==> (#[trigger] matching_names(entries, name).contains(e)
                <==> contains_text(e, name)),
        forall|e: Seq<char>|
            #[trigger] matching_names(entries, name).contains(e) ==> entries.contains(e),
{
    assert forall|e: Seq<char>|
        #[trigger] matching_names(entries, name).contains(e) implies entries.contains(e)
        && contains_text(e, name) by {
        lemma_matching_names(entries, name, e);
    }
    assert forall|e: Seq<char>| entries.contains(e) implies (#[trigger] matching_names(
        entries,
        name,
    ).contains(e) <==> contains_text(e, name)) by {
        lemma_matching_names(entries, name, e);
    }
}

/// Pausing a running job mid-run: the supervisor halts on the signal, keeps
/// every file, and the killed process's exit ends the run `Paused`.
pub proof fn law_pause_mid_run(key: Seq<char>, line: Seq<char>, action: LineAction, exit: ProcessExit)
    requires
        line_action_post(key, line, Some(Signal::Pause), action),
        exit != ProcessExit::Success,
    ensures
        action == LineAction::Halt(Signal::Pause),
        !Signal::Pause.spec_discards_output(),
        spec_final_status(exit, Some(Signal::Pause)) == Status::Paused,
{
}

} // verus!
