//! The data of a job: its key, its options, its status, the control signals
//! it obeys, and the errors that operations on jobs report.
use vstd::prelude::*;
use crate::text::same_text;

verus! {

/// The state of a job. `Running` is the one state in which a job's process
/// is supervised and can be sent a control signal.
#[derive(Clone, Copy, Debug, PartialEq, Eq, Structural)]
pub enum Status {
    Canceled,
    Checking,
    Completed,
    Failed,
    /// Known, but never started.
    Idle,
    Paused,
    Running,
}

/// A one-shot instruction to a running job's supervisor.
#[derive(Clone, Copy, Debug, PartialEq, Eq, Structural)]
pub enum Signal {
    Cancel,
    Pause,
}

/// What an operation on jobs can report instead of a result.
#[derive(Debug, PartialEq, Eq)]
pub enum Error {
    /// The process ran but the job could not be brought to an end.
    FailedToComplete,
    /// A control signal could not be delivered: the supervisor has already
    /// stopped listening.
    FailedToHalt,
    /// The download could not be started.
    FailedToStart,
    /// The availability check ran and rejected the target.
    FailedCheck,
    /// The job has no supervised process to signal.
    NotDownloading,
    /// A job with this key is already being checked or downloaded.
    DownloadAlreadyPresent,
    /// The external tool could not be launched at all; holds the cause.
    General { cause: String },
}

/// How a job's output is produced; fixed once the job starts.
pub struct DownloadOptions {
    pub container: String,
    pub name_format: String,
    pub quality: String,
}

/// The contents of a `DownloadOptions`.
pub struct OptionsView {
    pub container: Seq<char>,
    pub name_format: Seq<char>,
    pub quality: Seq<char>,
}

impl View for DownloadOptions {
    type V = OptionsView;

    open spec fn view(&self) -> OptionsView {
        OptionsView {
            container: self.container@,
            name_format: self.name_format@,
            quality: self.quality@,
        }
    }
}

impl Clone for DownloadOptions {
    fn clone(&self) -> (r: Self)
        ensures
            r@ == self@,
    {
        DownloadOptions {
            container: self.container.clone(),
            name_format: self.name_format.clone(),
            quality: self.quality.clone(),
        }
    }
}

impl Signal {
    /// The status that a job reaches by obeying this signal.
    pub open spec fn spec_target(self) -> Status {
        match self {
            Signal::Cancel => Status::Canceled,
            Signal::Pause => Status::Paused,
        }
    }

    /// The status that a job reaches by obeying this signal.
    #[verifier::when_used_as_spec(spec_target)]
    pub fn target(self) -> (r: Status)
        ensures
            r == self.spec_target(),
    {
        match self {
            Signal::Cancel => Status::Canceled,
            Signal::Pause => Status::Paused,
        }
    }

    /// Whether obeying this signal discards the partial output of the job:
    /// a canceled job leaves nothing behind, a paused one keeps its files.
    pub open spec fn spec_discards_output(self) -> bool {
        self is Cancel
    }

    /// Whether obeying this signal discards the partial output of the job.
    #[verifier::when_used_as_spec(spec_discards_output)]
    pub fn discards_output(self) -> (r: bool)
        ensures
            r == self.spec_discards_output(),
    {
        match self {
            Signal::Cancel => true,
            Signal::Pause => false,
        }
    }
}

impl Status {
    /// Whether a job in this status is being checked or downloaded, so that
    /// its key cannot be taken by another job.
    pub open spec fn spec_is_active(self) -> bool {
        self is Running || self is Checking
    }

    /// Whether a job in this status is being checked or downloaded.
    #[verifier::when_used_as_spec(spec_is_active)]
    pub fn is_active(self) -> (r: bool)
        ensures
            r == self.spec_is_active(),
    {
        match self {
            Status::Running | Status::Checking => true,
            _ => false,
        }
    }

    /// Whether this status ends a run of a job.
    pub open spec fn spec_is_final(self) -> bool {
        self is Canceled || self is Completed || self is Failed || self is Paused
    }

    /// Whether this status ends a run of a job.
    #[verifier::when_used_as_spec(spec_is_final)]
    pub fn is_final(self) -> (r: bool)
        ensures
            r == self.spec_is_final(),
    {
        match self {
            Status::Canceled | Status::Completed | Status::Failed | Status::Paused => true,
            _ => false,
        }
    }

    /// The name of the status, as stored and as sent to subscribers.
    pub open spec fn spec_name(self) -> Seq<char> {
        match self {
            Status::Canceled => "Canceled"@,
            Status::Checking => "Checking"@,
            Status::Completed => "Completed"@,
            Status::Failed => "Failed"@,
            Status::Idle => "Idle"@,
            Status::Paused => "Paused"@,
            Status::Running => "Running"@,
        }
    }

    /// The name of the status.
    pub fn name(self) -> (r: &'static str)
        ensures
            r@ == self.spec_name(),
    {
        match self {
            Status::Canceled => "Canceled",
            Status::Checking => "Checking",
            Status::Completed => "Completed",
            Status::Failed => "Failed",
            Status::Idle => "Idle",
            Status::Paused => "Paused",
            Status::Running => "Running",
        }
    }

    /// The status whose name is `text`, if there is one.
    pub open spec fn spec_from_name(text: Seq<char>) -> Option<Status> {
        if text == "Canceled"@ {
            Some(Status::Canceled)
        } else if text == "Checking"@ {
            Some(Status::Checking)
        } else if text == "Completed"@ {
            Some(Status::Completed)
        } else if text == "Failed"@ {
            Some(Status::Failed)
        } else if text == "Idle"@ {
            Some(Status::Idle)
        } else if text == "Paused"@ {
            Some(Status::Paused)
        } else if text == "Running"@ {
            Some(Status::Running)
        } else {
            None
        }
    }

    /// The status whose name is `text`; `None` for any other text.
    pub fn from_name(text: &str) -> (r: Option<Status>)
        ensures
            r == Status::spec_from_name(text@),
    {
        if same_text(text, "Canceled") {
            Some(Status::Canceled)
        } else if same_text(text, "Checking") {
            Some(Status::Checking)
        } else if same_text(text, "Completed") {
            Some(Status::Completed)
        } else if same_text(text, "Failed") {
            Some(Status::Failed)
        } else if same_text(text, "Idle") {
            Some(Status::Idle)
        } else if same_text(text, "Paused") {
            Some(Status::Paused)
        } else if same_text(text, "Running") {
            Some(Status::Running)
        } else {
            None
        }
    }

    /// Reading back the name of a status gives that status.
    pub proof fn lemma_name_round_trip(self)
        ensures
            Status::spec_from_name(self.spec_name()) == Some(self),
    {
        reveal_strlit("Canceled");
        reveal_strlit("Checking");
        reveal_strlit("Completed");
        reveal_strlit("Failed");
        reveal_strlit("Idle");
        reveal_strlit("Paused");
        reveal_strlit("Running");
        assert("Canceled"@.len() == 8 && "Checking"@.len() == 8 && "Completed"@.len() == 9);
        assert("Failed"@.len() == 6 && "Idle"@.len() == 4 && "Paused"@.len() == 6);
        assert("Running"@.len() == 7);
        assert("Checking"@[1] != "Canceled"@[1]);
        assert("Paused"@[0] != "Failed"@[0]);
    }
}


/// The canonical text of the URL that `text` spells, or `None` when `text` is
/// not an absolute URL.
pub uninterp spec fn url_serialization(text: Seq<char>) -> Option<Seq<char>>;

/// Relies on `url::Url::parse`, which accepts or rejects an absolute URL from
/// its text alone, and on `From<Url> for String`, which hands back the parsed
/// URL's serialization.
#[verifier::external_body]
fn parse_url(text: &str) -> (r: Option<String>)
    ensures
        match r {
            Some(u) => url_serialization(text@) == Some(u@),
            None => url_serialization(text@) is None,
        },
{
    url::Url::parse(text).ok().map(String::from)
}

/// The key of a job: the canonical text of the URL that the job downloads,
/// so that two spellings of one URL name one job.
#[derive(Debug, PartialEq, Eq, Hash)]
pub struct JobKey {
    url: String,
}

impl View for JobKey {
    type V = Seq<char>;

    closed spec fn view(&self) -> Seq<char> {
        self.url@
    }
}

impl Clone for JobKey {
    fn clone(&self) -> (r: Self)
        ensures
            r@ == self@,
    {
        JobKey { url: self.url.clone() }
    }
}

impl JobKey {
    /// The key of the URL that `text` spells; `None` when `text` is not an
    /// absolute URL.
    pub fn parse(text: &str) -> (r: Option<JobKey>)
        ensures
            match r {
                Some(k) => url_serialization(text@) == Some(k@),
                None => url_serialization(text@) is None,
            },
    {
        match parse_url(text) {
            Some(u) => Some(JobKey { url: u }),
            None => None,
        }
    }

    /// The canonical text of the key's URL.
    pub fn as_str(&self) -> (r: &str)
        ensures
            r@ == self@,
    {
        self.url.as_str()
    }

    /// Whether the two keys name the same job.
    pub fn same(&self, other: &JobKey) -> (r: bool)
        ensures
            r == (self@ == other@),
    {
        self.url == other.url
    }
}

} // verus!
