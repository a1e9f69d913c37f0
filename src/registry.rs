//! The job registry: one record per job key, and every transition of a job's
//! status. While a job is `Running` its record holds the sending half of the
//! job's control channel; in every other status it holds none.
use vstd::prelude::*;
use crate::control::{open_channel, try_deliver, CONTROL_CAPACITY};
use crate::job::{DownloadOptions, Error, JobKey, OptionsView, Signal, Status};
use crate::precheck::{precheck_verdict, spec_precheck_verdict, PrecheckOutcome};
use tokio::sync::mpsc::{Receiver, Sender};

verus! {

/// What the registry knows of one job.
pub struct JobView {
    pub status: Status,
    pub options: OptionsView,
    /// The run of the job that the record belongs to (see `Reservation`).
    pub run: u64,
    /// Whether the record holds the sender of the job's control channel.
    pub has_handle: bool,
}

/// The right to drive one run of a job, handed out by `Registry::register`.
/// A record that a later registration has overwritten no longer answers to it.
pub struct Reservation {
    key: JobKey,
    run: u64,
}

impl View for Reservation {
    type V = (Seq<char>, u64);

    closed spec fn view(&self) -> (Seq<char>, u64) {
        (self.key@, self.run)
    }
}

impl Reservation {
    /// The key of the reserved job.
    pub fn key(&self) -> (r: &JobKey)
        ensures
            r@ == self@.0,
    {
        &self.key
    }
}

struct JobEntry {
    key: JobKey,
    options: DownloadOptions,
    status: Status,
    run: u64,
    handle: Option<Sender<Signal>>,
}

impl JobEntry {
    spec fn view(&self) -> JobView {
        JobView {
            status: self.status,
            options: self.options@,
            run: self.run,
            has_handle: self.handle is Some,
        }
    }
}

/// The registry of jobs, keyed by job key.
pub struct Registry {
    entries: Vec<JobEntry>,
    next_run: u64,
    jobs: Ghost<Map<Seq<char>, JobView>>,
}

/// The record of `key` in `m`, with its status and handle replaced.
pub open spec fn with_status(
    m: Map<Seq<char>, JobView>,
    key: Seq<char>,
    status: Status,
    has_handle: bool,
) -> Map<Seq<char>, JobView> {
    m.insert(key, JobView { status, has_handle, ..m[key] })
}

/// `res` names the run that the record of its key belongs to.
pub open spec fn is_current(m: Map<Seq<char>, JobView>, res: (Seq<char>, u64)) -> bool {
    m.contains_key(res.0) && m[res.0].run == res.1
}

/// The job of `key` is being checked or downloaded.
pub open spec fn is_active(m: Map<Seq<char>, JobView>, key: Seq<char>) -> bool {
    m.contains_key(key) && m[key].status.spec_is_active()
}

/// The job of `key` is running.
pub open spec fn is_running(m: Map<Seq<char>, JobView>, key: Seq<char>) -> bool {
    m.contains_key(key) && m[key].status is Running
}

/// What `send_signal` may do: refuse a job that is not running, and for a
/// running one, either deliver the signal and record its target status, or
/// fail to deliver it and change nothing.
pub open spec fn send_signal_post(
    old_jobs: Map<Seq<char>, JobView>,
    key: Seq<char>,
    signal: Signal,
    r: Result<Status, Error>,
    new_jobs: Map<Seq<char>, JobView>,
) -> bool {
    if !is_running(old_jobs, key) {
        r == Err::<Status, Error>(Error::NotDownloading) && new_jobs == old_jobs
    } else {
        ||| r == Ok::<Status, Error>(signal.spec_target()) && new_jobs == with_status(
            old_jobs,
            key,
            signal.spec_target(),
            false,
        )
        ||| r == Err::<Status, Error>(Error::FailedToHalt) && new_jobs == old_jobs
    }
}

/// The answer to a signal, once it is known whether the supervisor took it:
/// the signal's target status if it did, `FailedToHalt` if it did not.
pub open spec fn spec_send_outcome(signal: Signal, delivered: bool) -> Result<Status, Error> {
    if delivered {
        Ok(signal.spec_target())
    } else {
        Err(Error::FailedToHalt)
    }
}

/// The answer to a signal, once it is known whether the supervisor took it.
pub fn send_outcome(signal: Signal, delivered: bool) -> (r: Result<Status, Error>)
    ensures
        r == spec_send_outcome(signal, delivered),
{
    if delivered {
        Ok(signal.target())
    } else {
        Err(Error::FailedToHalt)
    }
}

/// What `conclude_check` does: a job still being checked under `res` moves
/// to `Running` with a fresh control channel when the dry run accepted it,
/// and to `Failed` otherwise; a reservation that no longer names a job being
/// checked changes nothing and cannot start it.
pub open spec fn conclude_check_post(
    old_jobs: Map<Seq<char>, JobView>,
    res: (Seq<char>, u64),
    outcome: PrecheckOutcome,
    r: Result<Receiver<Signal>, Error>,
    new_jobs: Map<Seq<char>, JobView>,
) -> bool {
    let live = is_current(old_jobs, res) && old_jobs[res.0].status is Checking;
    match spec_precheck_verdict(outcome) {
        Err(e) => {
            &&& r == Err::<Receiver<Signal>, Error>(e)
            &&& new_jobs == (if live {
                with_status(old_jobs, res.0, Status::Failed, false)
            } else {
                old_jobs
            })
        },
        Ok(_) => if live {
            r is Ok && new_jobs == with_status(old_jobs, res.0, Status::Running, true)
        } else {
            r == Err::<Receiver<Signal>, Error>(Error::FailedToStart) && new_jobs == old_jobs
        },
    }
}

impl View for Registry {
    type V = Map<Seq<char>, JobView>;

    closed spec fn view(&self) -> Map<Seq<char>, JobView> {
        self.jobs@
    }
}

impl Registry {
    /// The records agree with the view, each key has one record, and a record
    /// holds a control handle exactly when its job is running.
    pub closed spec fn wf(&self) -> bool {
        &&& forall|i: int, j: int|
            0 <= i < j < self.entries@.len() ==> self.entries@[i].key@ != self.entries@[j].key@
        &&& forall|i: int|
            0 <= i < self.entries@.len() ==> {
                &&& self.jobs@.contains_key(#[trigger] self.entries@[i].key@)
                &&& self.jobs@[self.entries@[i].key@] == self.entries@[i].view()
                &&& (self.entries@[i].handle is Some <==> self.entries@[i].status is Running)
            }
        &&& forall|k: Seq<char>|
            #[trigger] self.jobs@.contains_key(k) ==> exists|i: int|
                0 <= i < self.entries@.len() && self.entries@[i].key@ == k
    }

    /// A record holds a control handle exactly when its job is running.
    pub proof fn lemma_handle_iff_running(&self, key: Seq<char>)
        requires
            self.wf(),
            self@.contains_key(key),
        ensures
            self@[key].has_handle <==> self@[key].status is Running,
    {
        let i = choose|i: int| 0 <= i < self.entries@.len() && self.entries@[i].key@ == key;
        assert(self.jobs@[self.entries@[i].key@] == self.entries@[i].view());
    }

    /// An empty registry.
    pub fn new() -> (r: Registry)
        ensures
            r.wf(),
            r@ == Map::<Seq<char>, JobView>::empty(),
    {
        Registry { entries: Vec::new(), next_run: 0, jobs: Ghost(Map::empty()) }
    }

    /// Replaces the status and the control handle of the record at `i`.
    fn update(&mut self, i: usize, status: Status, handle: Option<Sender<Signal>>)
        requires
            old(self).wf(),
            i < old(self).entries@.len(),
            handle is Some <==> status is Running,
        ensures
            final(self).wf(),
            final(self)@ == with_status(
                old(self)@,
                old(self).entries@[i as int].key@,
                status,
                handle is Some,
            ),
            final(self).entries@.len() == old(self).entries@.len(),
            forall|j: int|
                0 <= j < final(self).entries@.len() ==> final(self).entries@[j].key@
                    == old(self).entries@[j].key@,
            final(self).next_run == old(self).next_run,
    {
        let ghost key = self.entries@[i as int].key@;
        let ghost has = handle is Some;
        proof {
            assert(self.jobs@[self.entries@[i as int].key@] == self.entries@[i as int].view());
        }
        self.entries[i].status = status;
        self.entries[i].handle = handle;
        self.jobs = Ghost(with_status(self.jobs@, key, status, has));
        assert forall|k: Seq<char>| #[trigger] self.jobs@.contains_key(k) implies exists|j: int|
            0 <= j < self.entries@.len() && self.entries@[j].key@ == k by {
            if k != key {
                assert(old(self).jobs@.contains_key(k));
                let j = choose|j: int|
                    0 <= j < old(self).entries@.len() && old(self).entries@[j].key@ == k;
                assert(self.entries@[j].key@ == k);
            } else {
                assert(self.entries@[i as int].key@ == k);
            }
        }
        assert forall|j: int| 0 <= j < self.entries@.len() implies {
            &&& self.jobs@.contains_key(#[trigger] self.entries@[j].key@)
            &&& self.jobs@[self.entries@[j].key@] == self.entries@[j].view()
            &&& (self.entries@[j].handle is Some <==> self.entries@[j].status is Running)
        } by {
            assert(old(self).jobs@.contains_key(old(self).entries@[j].key@));
            if j != i {
                assert(old(self).entries@[j].key@ != key);
            }
        }
    }

    /// The position of the record of `key`, if there is one.
    fn find(&self, key: &JobKey) -> (r: Option<usize>)
        requires
            self.wf(),
        ensures
            match r {
                Some(i) => i < self.entries@.len() && self.entries@[i as int].key@ == key@,
                None => !self@.contains_key(key@),
            },
    {
        let mut i: usize = 0;
        while i < self.entries.len()
            invariant
                self.wf(),
                i <= self.entries@.len(),
                forall|j: int| 0 <= j < i ==> self.entries@[j].key@ != key@,
            decreases self.entries@.len() - i,
        {
            if self.entries[i].key.same(key) {
                return Some(i);
            }
            i = i + 1;
        }
        None
    }

    /// Reserves `key` for a new run with `options`, in status `Checking`.
    /// Refused with `DownloadAlreadyPresent` while the job of `key` is being
    /// checked or downloaded; a record in any other status is replaced.
    pub fn register(&mut self, key: JobKey, options: DownloadOptions) -> (r: Result<
        Reservation,
        Error,
    >)
        requires
            old(self).wf(),
        ensures
            final(self).wf(),
            r is Err <==> is_active(old(self)@, key@),
            match r {
                Err(e) => e == Error::DownloadAlreadyPresent && final(self)@ == old(self)@,
                Ok(res) => res@.0 == key@ && final(self)@ == old(self)@.insert(
                    key@,
                    JobView {
                        status: Status::Checking,
                        options: options@,
                        run: res@.1,
                        has_handle: false,
                    },
                ),
            },
    {
        let run = self.next_run;
        let ghost view = JobView {
            status: Status::Checking,
            options: options@,
            run,
            has_handle: false,
        };
        match self.find(&key) {
            Some(i) => {
                proof {
                    assert(self.jobs@[self.entries@[i as int].key@] == self.entries@[i as int].view());
                }
                if self.entries[i].status.is_active() {
                    return Err(Error::DownloadAlreadyPresent);
                }
                let entry = JobEntry {
                    key: key.clone(),
                    options,
                    status: Status::Checking,
                    run,
                    handle: None,
                };
                self.entries[i] = entry;
                self.jobs = Ghost(self.jobs@.insert(key@, view));
                assert forall|k: Seq<char>| #[trigger] self.jobs@.contains_key(k) implies exists|
                    j: int,
                | 0 <= j < self.entries@.len() && self.entries@[j].key@ == k by {
                    if k != key@ {
                        assert(old(self).jobs@.contains_key(k));
                        let j = choose|j: int|
                            0 <= j < old(self).entries@.len() && old(self).entries@[j].key@ == k;
                        assert(self.entries@[j].key@ == k);
                    } else {
                        assert(self.entries@[i as int].key@ == k);
                    }
                }
                assert forall|j: int| 0 <= j < self.entries@.len() implies {
                    &&& self.jobs@.contains_key(#[trigger] self.entries@[j].key@)
                    &&& self.jobs@[self.entries@[j].key@] == self.entries@[j].view()
                    &&& (self.entries@[j].handle is Some <==> self.entries@[j].status is Running)
                } by {
                    assert(old(self).jobs@.contains_key(old(self).entries@[j].key@));
                    if j != i {
                        assert(old(self).entries@[j].key@ != key@);
                    }
                }
            },
            None => {
                let entry = JobEntry {
                    key: key.clone(),
                    options,
                    status: Status::Checking,
                    run,
                    handle: None,
                };
                self.entries.push(entry);
                self.jobs = Ghost(self.jobs@.insert(key@, view));
                let ghost n = self.entries@.len() - 1;
                assert forall|k: Seq<char>| #[trigger] self.jobs@.contains_key(k) implies exists|
                    j: int,
                | 0 <= j < self.entries@.len() && self.entries@[j].key@ == k by {
                    if k != key@ {
                        assert(old(self).jobs@.contains_key(k));
                        let j = choose|j: int|
                            0 <= j < old(self).entries@.len() && old(self).entries@[j].key@ == k;
                        assert(self.entries@[j].key@ == k);
                    } else {
                        assert(self.entries@[n].key@ == k);
                    }
                }
                assert forall|j: int| 0 <= j < self.entries@.len() implies {
                    &&& self.jobs@.contains_key(#[trigger] self.entries@[j].key@)
                    &&& self.jobs@[self.entries@[j].key@] == self.entries@[j].view()
                    &&& (self.entries@[j].handle is Some <==> self.entries@[j].status is Running)
                } by {
                    if j < n {
                        assert(old(self).jobs@.contains_key(old(self).entries@[j].key@));
                        assert(old(self).entries@[j].key@ != key@);
                    }
                }
            },
        }
        self.next_run = self.next_run.wrapping_add(1);
        Ok(Reservation { key, run })
    }

    /// Applies the verdict of the dry run to the job reserved by `res`. On
    /// success the job becomes `Running`, the registry keeps the sending half
    /// of a new control channel, and the receiving half is returned for the
    /// job's supervisor.
    pub fn conclude_check(&mut self, res: &Reservation, outcome: PrecheckOutcome) -> (r: Result<
        Receiver<Signal>,
        Error,
    >)
        requires
            old(self).wf(),
        ensures
            final(self).wf(),
            conclude_check_post(old(self)@, res@, outcome, r, final(self)@),
    {
        let ghost outcome_view = outcome;
        let verdict = precheck_verdict(outcome);
        let found = self.find(&res.key);
        let live = match found {
            Some(i) => {
                proof {
                    assert(self.jobs@[self.entries@[i as int].key@] == self.entries@[i as int].view());
                }
                self.entries[i].run == res.run && match self.entries[i].status {
                    Status::Checking => true,
                    _ => false,
                }
            },
            None => false,
        };
        match verdict {
            Err(e) => {
                if live {
                    let i = found.unwrap();
                    self.update(i, Status::Failed, None);
                }
                Err(e)
            },
            Ok(()) => {
                if live {
                    let i = found.unwrap();
                    let (tx, rx) = open_channel(CONTROL_CAPACITY);
                    self.update(i, Status::Running, Some(tx));
                    Ok(rx)
                } else {
                    Err(Error::FailedToStart)
                }
            },
        }
    }

    /// Records the status that ended the run reserved by `res`, and drops the
    /// job's control handle. A reservation that a later registration has
    /// overtaken changes nothing.
    pub fn mark_terminal(&mut self, res: &Reservation, status: Status) -> (applied: bool)
        requires
            old(self).wf(),
            status.spec_is_final(),
        ensures
            final(self).wf(),
            applied == is_current(old(self)@, res@),
            final(self)@ == (if applied {
                with_status(old(self)@, res@.0, status, false)
            } else {
                old(self)@
            }),
    {
        match self.find(&res.key) {
            Some(i) => {
                proof {
                    assert(self.jobs@[self.entries@[i as int].key@] == self.entries@[i as int].view());
                }
                if self.entries[i].run == res.run {
                    self.update(i, status, None);
                    true
                } else {
                    false
                }
            },
            None => false,
        }
    }

    /// Ends the run reserved by `res` when its process could not be spawned:
    /// a job still running under `res` becomes `Failed` and drops its control
    /// handle. The answer is always `FailedToStart`.
    pub fn start_failed(&mut self, res: &Reservation) -> (e: Error)
        requires
            old(self).wf(),
        ensures
            final(self).wf(),
            e == Error::FailedToStart,
            final(self)@ == (if is_running(old(self)@, res@.0) && is_current(old(self)@, res@) {
                with_status(old(self)@, res@.0, Status::Failed, false)
            } else {
                old(self)@
            }),
    {
        if let Some(i) = self.find(&res.key) {
            proof {
                assert(self.jobs@[self.entries@[i as int].key@] == self.entries@[i as int].view());
            }
            if self.entries[i].run == res.run && matches!(self.entries[i].status, Status::Running) {
                self.update(i, Status::Failed, None);
            }
        }
        Error::FailedToStart
    }

    /// Sends `signal` to the supervisor of the job of `key`. Refused with
    /// `NotDownloading` unless the job is running. When the signal is queued,
    /// the job takes the signal's target status at once and its control
    /// handle is dropped, before the supervisor has acted on it; when it
    /// cannot be queued the answer is `FailedToHalt` and nothing changes.
    pub fn send_signal(&mut self, key: &JobKey, signal: Signal) -> (r: Result<Status, Error>)
        requires
            old(self).wf(),
        ensures
            final(self).wf(),
            send_signal_post(old(self)@, key@, signal, r, final(self)@),
    {
        match self.find(key) {
            None => Err(Error::NotDownloading),
            Some(i) => {
                proof {
                    assert(self.jobs@[self.entries@[i as int].key@] == self.entries@[i as int].view());
                }
                let delivered = match &self.entries[i].handle {
                    Some(tx) => try_deliver(tx, signal),
                    None => {
                        return Err(Error::NotDownloading);
                    },
                };
                let r = send_outcome(signal, delivered);
                if delivered {
                    self.update(i, signal.target(), None);
                }
                r
            },
        }
    }

    /// The status of the job of `key`, if the registry knows it.
    pub fn get_status(&self, key: &JobKey) -> (r: Option<Status>)
        requires
            self.wf(),
        ensures
            r == (if self@.contains_key(key@) {
                Some(self@[key@].status)
            } else {
                None
            }),
    {
        match self.find(key) {
            Some(i) => {
                assert(self.jobs@[self.entries@[i as int].key@] == self.entries@[i as int].view());
                Some(self.entries[i].status)
            },
            None => None,
        }
    }

    /// The keys of all jobs the registry knows, each once.
    pub fn list_keys(&self) -> (r: Vec<JobKey>)
        requires
            self.wf(),
        ensures
            forall|i: int| 0 <= i < r@.len() ==> self@.contains_key(#[trigger] r@[i]@),
            forall|k: Seq<char>| self@.contains_key(k) ==> exists|i: int| 0 <= i < r@.len() && r@[i]@ == k,
            forall|i: int, j: int| 0 <= i < j < r@.len() ==> r@[i]@ != r@[j]@,
    {
        let mut r: Vec<JobKey> = Vec::new();
        let mut i: usize = 0;
        while i < self.entries.len()
            invariant
                self.wf(),
                i <= self.entries@.len(),
                r@.len() == i,
                forall|j: int| 0 <= j < i ==> r@[j]@ == self.entries@[j].key@,
            decreases self.entries@.len() - i,
        {
            r.push(self.entries[i].key.clone());
            i = i + 1;
        }
        assert forall|k: Seq<char>| self@.contains_key(k) implies exists|i: int|
            0 <= i < r@.len() && r@[i]@ == k by {
            assert(self.jobs@.contains_key(k));
            let j = choose|j: int| 0 <= j < self.entries@.len() && self.entries@[j].key@ == k;
            assert(r@[j]@ == k);
        }
        assert forall|i: int| 0 <= i < r@.len() implies self@.contains_key(#[trigger] r@[i]@) by {
            assert(self.jobs@.contains_key(self.entries@[i].key@));
        }
        r
    }
}

/// A delivered `Cancel` leaves the job `Canceled` with no control handle, and
/// a second `Cancel` to the same key is then refused with `NotDownloading`
/// and changes nothing.
pub proof fn law_cancel_then_cancel(
    m0: Map<Seq<char>, JobView>,
    key: Seq<char>,
    r1: Result<Status, Error>,
    m1: Map<Seq<char>, JobView>,
    r2: Result<Status, Error>,
    m2: Map<Seq<char>, JobView>,
)
    requires
        send_signal_post(m0, key, Signal::Cancel, r1, m1),
        r1 is Ok,
        send_signal_post(m1, key, Signal::Cancel, r2, m2),
    ensures
        r1 == Ok::<Status, Error>(Status::Canceled),
        m1[key].status == Status::Canceled,
        !m1[key].has_handle,
        r2 == Err::<Status, Error>(Error::NotDownloading),
        m2 == m1,
{
}

/// A job whose dry run fails does not reach `Running`: it ends `Failed`, and
/// a later attempt to conclude the check of the same run is refused and
/// changes nothing.
pub proof fn law_failed_check_never_runs(
    m0: Map<Seq<char>, JobView>,
    res: (Seq<char>, u64),
    outcome: PrecheckOutcome,
    r1: Result<Receiver<Signal>, Error>,
    m1: Map<Seq<char>, JobView>,
    later: PrecheckOutcome,
    r2: Result<Receiver<Signal>, Error>,
    m2: Map<Seq<char>, JobView>,
)
    requires
        is_current(m0, res),
        m0[res.0].status is Checking,
        spec_precheck_verdict(outcome) is Err,
        conclude_check_post(m0, res, outcome, r1, m1),
        conclude_check_post(m1, res, later, r2, m2),
    ensures
        r1 is Err,
        m1[res.0].status is Failed,
        !m1[res.0].has_handle,
        r2 is Err,
        m2 == m1,
{
}

} // verus!
