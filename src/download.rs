use vstd::prelude::*;

verus! {

/// Prefix of the progress message while a named download runs.
pub const DOWNLOADING: &'static str = "Downloading ";

/// The finish message of a download; followed by the name when there is one.
pub const DOWNLOADED: &'static str = "Downloaded";

/// Why a download failed.
#[derive(Debug, Clone, PartialEq, Eq)]
pub enum DownloadError {
    /// The request could not be made or the server refused it.
    GetRequestFailed(String),
    /// The response declares no content length, so progress cannot be reported.
    ContentLengthNotAvailable,
    /// Creating a directory or writing the file failed.
    IoError(String),
    /// Fewer or more bytes arrived than the response declared.
    Incomplete { expected: u64, written: u64 },
}

/// The declared total of a response: a response without one is refused.
pub fn check_content_length(content_length: Option<u64>) -> (r: Result<u64, DownloadError>)
    ensures
        match content_length {
            Some(n) => r == Ok::<u64, DownloadError>(n),
            None => r == Err::<u64, DownloadError>(DownloadError::ContentLengthNotAvailable),
        },
{
    match content_length {
        Some(n) => Ok(n),
        None => Err(DownloadError::ContentLengthNotAvailable),
    }
}

/// A transfer succeeds only when exactly the declared number of bytes was written.
pub fn check_transfer_complete(expected: u64, written: u64) -> (r: Result<(), DownloadError>)
    ensures
        expected == written ==> r == Ok::<(), DownloadError>(()),
        expected != written ==> r == Err::<(), DownloadError>(
            DownloadError::Incomplete { expected, written },
        ),
{
    if expected == written {
        Ok(())
    } else {
        Err(DownloadError::Incomplete { expected, written })
    }
}

/// The progress message of a download, when it has a name.
pub fn progress_message(download_name: &Option<String>) -> (r: Option<String>)
    ensures
        match download_name {
            Some(name) => r is Some && r->0@ == DOWNLOADING@ + name@,
            None => r is None,
        },
{
    match download_name {
        Some(name) => {
            let mut m = String::from_str(DOWNLOADING);
            m.append(name.as_str());
            Some(m)
        },
        None => None,
    }
}

/// The message shown when a download has finished.
pub fn finish_message(download_name: &Option<String>) -> (r: String)
    ensures
        match download_name {
            Some(name) => r@ == DOWNLOADED@ + " "@ + name@,
            None => r@ == DOWNLOADED@,
        },
{
    let mut m = String::from_str(DOWNLOADED);
    match download_name {
        Some(name) => {
            m.append(" ");
            m.append(name.as_str());
        },
        None => {},
    }
    m
}

/// What a download run does next.
#[derive(Debug, Clone, Copy, PartialEq, Eq)]
pub enum RunStep {
    /// Download the planned item at this position.
    Download(usize),
    /// The run is over: every item was downloaded, or one failed.
    Finished,
}

/// A run over a download plan: items are downloaded one at a time in plan
/// order, and the first failure ends the run.
#[derive(Debug)]
pub struct DownloadRun {
    total: usize,
    completed: usize,
    failure: Option<DownloadError>,
}

/// The state of a download run.
pub struct DownloadRunView {
    pub total: nat,
    pub completed: nat,
    pub failure: Option<DownloadError>,
}

impl View for DownloadRun {
    type V = DownloadRunView;

    closed spec fn view(&self) -> DownloadRunView {
        DownloadRunView {
            total: self.total as nat,
            completed: self.completed as nat,
            failure: self.failure,
        }
    }
}

/// A run is well formed when it has completed no more items than it has, and a
/// failure stands for an item that was not completed.
pub open spec fn run_wf(s: DownloadRunView) -> bool {
    &&& s.completed <= s.total
    &&& s.failure is Some ==> s.completed < s.total
}

/// The step that follows a state: the next item while nothing failed and items
/// remain, else the end.
pub open spec fn next_step_of(s: DownloadRunView) -> RunStep {
    if s.failure is None && s.completed < s.total {
        RunStep::Download(s.completed as usize)
    } else {
        RunStep::Finished
    }
}

/// The result of a finished run: its failure, if one occurred.
pub open spec fn run_result(s: DownloadRunView) -> Result<(), DownloadError> {
    match s.failure {
        Some(e) => Err(e),
        None => Ok(()),
    }
}

/// The state after the outcome of the current item is recorded. A finished run
/// stays as it is.
pub open spec fn record_outcome(s: DownloadRunView, outcome: Result<(), DownloadError>) -> DownloadRunView {
    if s.failure is Some || s.completed >= s.total {
        s
    } else {
        match outcome {
            Ok(()) => DownloadRunView { completed: s.completed + 1, ..s },
            Err(e) => DownloadRunView { failure: Some(e), ..s },
        }
    }
}

impl DownloadRun {
    #[verifier::type_invariant]
    spec fn inv(&self) -> bool {
        run_wf(self@)
    }

    /// A run over `total` planned items, none of them started.
    pub fn new(total: usize) -> (r: DownloadRun)
        ensures
            r@ == (DownloadRunView { total: total as nat, completed: 0, failure: None }),
            run_wf(r@),
    {
        DownloadRun { total, completed: 0, failure: None }
    }

    /// What the run does next.
    pub fn next_step(&self) -> (r: RunStep)
        ensures
            r == next_step_of(self@),
            run_wf(self@),
    {
        proof {
            use_type_invariant(self);
        }
        if self.failure.is_none() && self.completed < self.total {
            RunStep::Download(self.completed)
        } else {
            RunStep::Finished
        }
    }

    /// The result of a finished run: `Ok` when every item was downloaded, else
    /// the failure that ended it.
    pub fn into_result(self) -> (r: Result<(), DownloadError>)
        requires
            next_step_of(self@) == RunStep::Finished,
        ensures
            r == run_result(self@),
            r is Ok <==> self@.completed == self@.total,
    {
        proof {
            use_type_invariant(&self);
        }
        match self.failure {
            Some(e) => Err(e),
            None => Ok(()),
        }
    }

    /// Records how the item that `next_step` named ended.
    pub fn record(&mut self, outcome: Result<(), DownloadError>)
        ensures
            final(self)@ == record_outcome(old(self)@, outcome),
            run_wf(final(self)@),
    {
        proof {
            use_type_invariant(&*self);
        }
        if self.failure.is_some() || self.completed >= self.total {
            return;
        }
        match outcome {
            Ok(()) => {
                *self = DownloadRun {
                    total: self.total,
                    completed: self.completed + 1,
                    failure: None,
                };
            },
            Err(e) => {
                *self = DownloadRun { total: self.total, completed: self.completed, failure: Some(e) };
            },
        }
    }
}

/// After a failure a run starts no further item: it ends with that failure, and
/// no outcome recorded later changes it.
pub proof fn lemma_failure_ends_run(
    s: DownloadRunView,
    e: DownloadError,
    later: Result<(), DownloadError>,
)
    requires
        run_wf(s),
        next_step_of(s) is Download,
    ensures
        next_step_of(record_outcome(s, Err(e))) == RunStep::Finished,
        run_result(record_outcome(s, Err(e))) == Err::<(), DownloadError>(e),
        record_outcome(record_outcome(s, Err(e)), later) == record_outcome(s, Err(e)),
{
}

/// The state after the outcomes are recorded one after the other.
pub open spec fn drive(s: DownloadRunView, outcomes: Seq<Result<(), DownloadError>>) -> DownloadRunView
    decreases outcomes.len(),
{
    if outcomes.len() == 0 {
        s
    } else {
        drive(record_outcome(s, outcomes[0]), outcomes.drop_first())
    }
}

proof fn lemma_drive_finished(s: DownloadRunView, outcomes: Seq<Result<(), DownloadError>>)
    requires
        s.failure is Some || s.completed >= s.total,
    ensures
        drive(s, outcomes) == s,
    decreases outcomes.len(),
{
    if outcomes.len() > 0 {
        lemma_drive_finished(s, outcomes.drop_first());
    }
}

/// Downloads run strictly in order and the first failure ends the run: when the
/// item at position `k` of the remaining ones is the first to fail, the run
/// has completed the `k` before it and ends with that failure, whatever later
/// outcomes are recorded.
pub proof fn lemma_run_stops_at_first_failure(
    s: DownloadRunView,
    outcomes: Seq<Result<(), DownloadError>>,
    k: int,
    e: DownloadError,
)
    requires
        run_wf(s),
        s.failure is None,
        0 <= k < outcomes.len(),
        s.completed + k < s.total,
        outcomes[k] == Err::<(), DownloadError>(e),
        forall|j: int| 0 <= j < k ==> (#[trigger] outcomes[j]) is Ok,
    ensures
        drive(s, outcomes) == (DownloadRunView { completed: s.completed + k as nat, failure: Some(e), ..s }),
        next_step_of(drive(s, outcomes)) == RunStep::Finished,
        run_result(drive(s, outcomes)) == Err::<(), DownloadError>(e),
    decreases k,
{
    let next = record_outcome(s, outcomes[0]);
    if k == 0 {
        lemma_drive_finished(next, outcomes.drop_first());
    } else {
        assert(outcomes[0] is Ok);
        let rest = outcomes.drop_first();
        assert forall|j: int| 0 <= j < k - 1 implies (#[trigger] rest[j]) is Ok by {
            assert(rest[j] == outcomes[j + 1]);
        }
        lemma_run_stops_at_first_failure(next, rest, k - 1, e);
    }
}

/// A run in which every item succeeds completes all of them and ends with `Ok`.
pub proof fn lemma_run_succeeds_when_all_succeed(
    s: DownloadRunView,
    outcomes: Seq<Result<(), DownloadError>>,
)
    requires
        run_wf(s),
        s.failure is None,
        s.completed + outcomes.len() >= s.total,
        forall|j: int| 0 <= j < outcomes.len() ==> (#[trigger] outcomes[j]) is Ok,
    ensures
        drive(s, outcomes) == (DownloadRunView { completed: s.total, failure: None, ..s }),
        next_step_of(drive(s, outcomes)) == RunStep::Finished,
        run_result(drive(s, outcomes)) == Ok::<(), DownloadError>(()),
    decreases outcomes.len(),
{
    if s.completed >= s.total {
        lemma_drive_finished(s, outcomes);
    } else {
        let rest = outcomes.drop_first();
        assert(outcomes[0] is Ok);
        assert forall|j: int| 0 <= j < rest.len() implies (#[trigger] rest[j]) is Ok by {
            assert(rest[j] == outcomes[j + 1]);
        }
        lemma_run_succeeds_when_all_succeed(record_outcome(s, outcomes[0]), rest);
    }
}

} // verus!
