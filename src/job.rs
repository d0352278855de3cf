//! The background unit that takes one drained batch through join, upload
//! with bounded retries, registration and cleanup.
//!
//! The unit is a state machine: the caller performs each returned action and
//! hands back what came of it as the next event.
use vstd::prelude::*;

verus! {

/// Upload attempts made for one artifact before it is abandoned.
pub const MAX_RETRIES: u32 = 3;

/// Seconds waited before each repeated upload attempt.
pub const RETRY_DELAY_SECS: u64 = 5;

/// Where a batch job stands.
#[derive(Debug)]
pub enum JobState {
    /// The muxer is joining the batch.
    Joining,
    /// Upload attempt `attempt` (counted from one) is under way.
    Uploading { attempt: u32 },
    /// The artifact was accepted after `attempts` attempts; it is being registered.
    Reporting { attempts: u32 },
    /// The files of the batch are being removed.
    CleaningUp { attempts: u32 },
    /// Nothing is left to do.
    Done,
}

/// What came of the last action.
#[derive(Debug)]
pub enum JobEvent {
    /// The muxer exited, with `exit_code` where it had one.
    Joined { exit_code: Option<i32> },
    /// The remote service accepted the artifact.
    Uploaded,
    /// The attempt failed: transport, read or a refusing disposition.
    UploadFailed { cause: String },
    /// The registration call returned; `accepted` is false where it failed.
    Reported { accepted: bool },
    /// The files were removed, as far as removal succeeded.
    CleanedUp,
}

/// How a job ended.
#[derive(Debug)]
pub enum JobOutcome {
    /// The artifact was accepted after `attempts` attempts.
    Delivered { attempts: u32 },
    /// The muxer failed; the clips stay on disk.
    JoinFailed { exit_code: Option<i32> },
    /// Every attempt failed; the artifact stays on disk.
    UploadAbandoned { attempts: u32, cause: String },
}

/// What the caller is to do next.
#[derive(Debug)]
pub enum JobAction {
    /// Join the batch into the artifact.
    Join,
    /// Wait `delay_secs` seconds, then make upload attempt `attempt`.
    Upload { attempt: u32, delay_secs: u64 },
    /// Register the delivered artifact with the metadata service.
    Report,
    /// Remove the artifact and the clips of the batch.
    Cleanup,
    /// The job has ended with `outcome`.
    Finish { outcome: JobOutcome },
    /// Nothing: the event did not belong to the current step.
    Idle,
}

/// One step of a batch job.
pub open spec fn job_step(s: JobState, e: JobEvent) -> (JobState, JobAction) {
    match (s, e) {
        (JobState::Joining, JobEvent::Joined { exit_code }) => {
            if exit_code == Some(0i32) {
                (JobState::Uploading { attempt: 1 }, JobAction::Upload { attempt: 1, delay_secs: 0 })
            } else {
                (JobState::Done, JobAction::Finish { outcome: JobOutcome::JoinFailed { exit_code } })
            }
        },
        (JobState::Uploading { attempt }, JobEvent::Uploaded) => {
            (JobState::Reporting { attempts: attempt }, JobAction::Report)
        },
        (JobState::Uploading { attempt }, JobEvent::UploadFailed { cause }) => {
            if attempt < MAX_RETRIES {
                (
                    JobState::Uploading { attempt: (attempt + 1) as u32 },
                    JobAction::Upload { attempt: (attempt + 1) as u32, delay_secs: RETRY_DELAY_SECS },
                )
            } else {
                (
                    JobState::Done,
                    JobAction::Finish { outcome: JobOutcome::UploadAbandoned { attempts: attempt, cause } },
                )
            }
        },
        (JobState::Reporting { attempts }, JobEvent::Reported { .. }) => {
            (JobState::CleaningUp { attempts }, JobAction::Cleanup)
        },
        (JobState::CleaningUp { attempts }, JobEvent::CleanedUp) => {
            (JobState::Done, JobAction::Finish { outcome: JobOutcome::Delivered { attempts } })
        },
        (s, _) => (s, JobAction::Idle),
    }
}

/// Whether a job state is one that a job can reach: attempt and attempt
/// counts run from one to the retry bound.
pub open spec fn job_state_wf(s: JobState) -> bool {
    match s {
        JobState::Uploading { attempt } => 1 <= attempt <= MAX_RETRIES,
        JobState::Reporting { attempts } => 1 <= attempts <= MAX_RETRIES,
        JobState::CleaningUp { attempts } => 1 <= attempts <= MAX_RETRIES,
        _ => true,
    }
}

/// The state reached and the actions issued when `events` arrive in order.
pub open spec fn replay(s: JobState, events: Seq<JobEvent>) -> (JobState, Seq<JobAction>)
    decreases events.len(),
{
    if events.len() == 0 {
        (s, Seq::empty())
    } else {
        let (s1, a) = job_step(s, events[0]);
        let (s2, rest) = replay(s1, events.drop_first());
        (s2, seq![a] + rest)
    }
}

/// The events of upload attempts that failed with `causes`, in order.
pub open spec fn failures(causes: Seq<String>) -> Seq<JobEvent> {
    causes.map_values(|c: String| JobEvent::UploadFailed { cause: c })
}

/// The `count` repeated attempts that follow attempt `first`, each issued
/// after the retry delay.
pub open spec fn retries(first: u32, count: nat) -> Seq<JobAction> {
    Seq::new(
        count,
        |i: int| JobAction::Upload { attempt: (first + i + 1) as u32, delay_secs: RETRY_DELAY_SECS },
    )
}

/// `count` idle actions.
pub open spec fn idles(count: nat) -> Seq<JobAction> {
    Seq::new(count, |i: int| JobAction::Idle)
}

proof fn lemma_replay_append(s: JobState, a: Seq<JobEvent>, b: Seq<JobEvent>)
    ensures
        replay(s, a + b) == (replay(replay(s, a).0, b).0, replay(s, a).1 + replay(
            replay(s, a).0,
            b,
        ).1),
    decreases a.len(),
{
    if a.len() == 0 {
        assert(a + b =~= b);
        assert(Seq::<JobAction>::empty() + replay(s, b).1 =~= replay(s, b).1);
    } else {
        let s1 = job_step(s, a[0]).0;
        let x = job_step(s, a[0]).1;
        assert((a + b).drop_first() =~= a.drop_first() + b);
        assert((a + b)[0] == a[0]);
        lemma_replay_append(s1, a.drop_first(), b);
        let r1 = replay(s1, a.drop_first());
        let r2 = replay(r1.0, b);
        assert(seq![x] + (r1.1 + r2.1) =~= (seq![x] + r1.1) + r2.1);
    }
}

proof fn lemma_failed_attempts(a: u32, causes: Seq<String>, rest: Seq<JobEvent>)
    requires
        1 <= a,
        a + causes.len() <= MAX_RETRIES,
    ensures
        replay(JobState::Uploading { attempt: a }, failures(causes) + rest) == (replay(
            JobState::Uploading { attempt: (a + causes.len()) as u32 },
            rest,
        ).0, retries(a, causes.len()) + replay(
            JobState::Uploading { attempt: (a + causes.len()) as u32 },
            rest,
        ).1),
    decreases causes.len(),
{
    let evs = failures(causes) + rest;
    if causes.len() == 0 {
        assert(evs =~= rest);
        assert(retries(a, 0) + replay(JobState::Uploading { attempt: a }, rest).1 =~= replay(
            JobState::Uploading { attempt: a },
            rest,
        ).1);
    } else {
        assert(evs[0] == JobEvent::UploadFailed { cause: causes[0] });
        assert(evs.drop_first() =~= failures(causes.drop_first()) + rest);
        lemma_failed_attempts((a + 1) as u32, causes.drop_first(), rest);
        let tail = replay(JobState::Uploading { attempt: (a + causes.len()) as u32 }, rest);
        let step = JobAction::Upload { attempt: (a + 1) as u32, delay_secs: RETRY_DELAY_SECS };
        assert(seq![step] + (retries((a + 1) as u32, (causes.len() - 1) as nat) + tail.1)
            =~= retries(a, causes.len()) + tail.1);
    }
}

proof fn lemma_done_stays_idle(events: Seq<JobEvent>)
    ensures
        replay(JobState::Done, events) == (JobState::Done, idles(events.len())),
    decreases events.len(),
{
    if events.len() > 0 {
        lemma_done_stays_idle(events.drop_first());
        assert(seq![JobAction::Idle] + idles((events.len() - 1) as nat) =~= idles(events.len()));
    }
}

/// A job whose upload fails once for each of `causes`, fewer than the retry
/// bound, and is then accepted, makes one attempt more than it saw failures,
/// issues every repeated attempt after the retry delay, registers the
/// artifact, removes the files and ends delivered.
pub proof fn law_delivered_after_failures(causes: Seq<String>, accepted: bool)
    requires
        causes.len() < MAX_RETRIES,
    ensures
        replay(
            JobState::Joining,
            seq![JobEvent::Joined { exit_code: Some(0i32) }] + failures(causes) + seq![
                JobEvent::Uploaded,
                JobEvent::Reported { accepted },
                JobEvent::CleanedUp,
            ],
        ) == (JobState::Done, seq![JobAction::Upload { attempt: 1, delay_secs: 0 }] + retries(
            1,
            causes.len(),
        ) + seq![
            JobAction::Report,
            JobAction::Cleanup,
            JobAction::Finish {
                outcome: JobOutcome::Delivered { attempts: (causes.len() + 1) as u32 },
            },
        ]),
{
    let head = seq![JobEvent::Joined { exit_code: Some(0i32) }];
    let tail = seq![JobEvent::Uploaded, JobEvent::Reported { accepted }, JobEvent::CleanedUp];
    let n = causes.len();
    assert(head + failures(causes) + tail =~= head + (failures(causes) + tail));
    lemma_replay_append(JobState::Joining, head, failures(causes) + tail);
    assert(head.drop_first() =~= Seq::<JobEvent>::empty());
    assert(replay(JobState::Joining, head) == (
        JobState::Uploading { attempt: 1 },
        seq![JobAction::Upload { attempt: 1, delay_secs: 0 }],
    )) by {
        assert(head[0] == JobEvent::Joined { exit_code: Some(0i32) });
        assert(job_step(JobState::Joining, head[0]) == (
            JobState::Uploading { attempt: 1 },
            JobAction::Upload { attempt: 1, delay_secs: 0 },
        ));
        assert(replay(JobState::Uploading { attempt: 1 }, head.drop_first()) == (
            JobState::Uploading { attempt: 1 },
            Seq::<JobAction>::empty(),
        ));
        assert(seq![JobAction::Upload { attempt: 1, delay_secs: 0 }] + Seq::<JobAction>::empty()
            =~= seq![JobAction::Upload { attempt: 1, delay_secs: 0 }]);
    }
    lemma_failed_attempts(1, causes, tail);
    let last = (1 + n) as u32;
    let t1 = tail.drop_first();
    let t2 = t1.drop_first();
    assert(t2.drop_first() =~= Seq::<JobEvent>::empty());
    let fin = JobAction::Finish { outcome: JobOutcome::Delivered { attempts: last } };
    assert(replay(JobState::CleaningUp { attempts: last }, t2) == (JobState::Done, seq![fin])) by {
        assert(t2[0] == JobEvent::CleanedUp);
        assert(replay(JobState::Done, t2.drop_first()) == (JobState::Done, Seq::<JobAction>::empty()));
        assert(seq![fin] + Seq::<JobAction>::empty() =~= seq![fin]);
    }
    assert(replay(JobState::Reporting { attempts: last }, t1) == (
        JobState::Done,
        seq![JobAction::Cleanup] + seq![fin],
    ));
    assert(replay(JobState::Uploading { attempt: last }, tail) == (
        JobState::Done,
        seq![JobAction::Report] + (seq![JobAction::Cleanup] + seq![fin]),
    ));
    assert(replay(JobState::Uploading { attempt: last }, tail).1 =~= seq![
        JobAction::Report,
        JobAction::Cleanup,
        JobAction::Finish { outcome: JobOutcome::Delivered { attempts: last } },
    ]);
    assert(seq![JobAction::Upload { attempt: 1, delay_secs: 0 }] + (retries(1, n) + replay(
        JobState::Uploading { attempt: last },
        tail,
    ).1) =~= seq![JobAction::Upload { attempt: 1, delay_secs: 0 }] + retries(1, n) + seq![
        JobAction::Report,
        JobAction::Cleanup,
        JobAction::Finish { outcome: JobOutcome::Delivered { attempts: last } },
    ]);
}

/// A job whose upload fails as many times as the retry bound ends abandoned
/// with the last failure's cause; it never registers the artifact and never
/// removes a file, whatever events come after.
pub proof fn law_abandoned_after_max(causes: Seq<String>, later: Seq<JobEvent>)
    requires
        causes.len() == MAX_RETRIES,
    ensures
        replay(
            JobState::Joining,
            seq![JobEvent::Joined { exit_code: Some(0i32) }] + failures(causes) + later,
        ) == (JobState::Done, seq![JobAction::Upload { attempt: 1, delay_secs: 0 }] + retries(
            1,
            (MAX_RETRIES - 1) as nat,
        ) + seq![
            JobAction::Finish {
                outcome: JobOutcome::UploadAbandoned { attempts: MAX_RETRIES, cause: causes.last() },
            },
        ] + idles(later.len())),
        !replay(
            JobState::Joining,
            seq![JobEvent::Joined { exit_code: Some(0i32) }] + failures(causes) + later,
        ).1.contains(JobAction::Report),
        !replay(
            JobState::Joining,
            seq![JobEvent::Joined { exit_code: Some(0i32) }] + failures(causes) + later,
        ).1.contains(JobAction::Cleanup),
{
    let head = seq![JobEvent::Joined { exit_code: Some(0i32) }];
    let first = causes.drop_last();
    let fin = seq![JobEvent::UploadFailed { cause: causes.last() }] + later;
    assert(failures(causes) =~= failures(first) + seq![JobEvent::UploadFailed { cause: causes.last() }]);
    assert(head + failures(causes) + later =~= head + (failures(first) + fin));
    lemma_replay_append(JobState::Joining, head, failures(first) + fin);
    assert(head.drop_first() =~= Seq::<JobEvent>::empty());
    assert(replay(JobState::Joining, head) == (
        JobState::Uploading { attempt: 1 },
        seq![JobAction::Upload { attempt: 1, delay_secs: 0 }],
    )) by {
        assert(head[0] == JobEvent::Joined { exit_code: Some(0i32) });
        assert(job_step(JobState::Joining, head[0]) == (
            JobState::Uploading { attempt: 1 },
            JobAction::Upload { attempt: 1, delay_secs: 0 },
        ));
        assert(replay(JobState::Uploading { attempt: 1 }, head.drop_first()) == (
            JobState::Uploading { attempt: 1 },
            Seq::<JobAction>::empty(),
        ));
        assert(seq![JobAction::Upload { attempt: 1, delay_secs: 0 }] + Seq::<JobAction>::empty()
            =~= seq![JobAction::Upload { attempt: 1, delay_secs: 0 }]);
    }
    lemma_failed_attempts(1, first, fin);
    assert(fin.drop_first() =~= later);
    assert(fin[0] == JobEvent::UploadFailed { cause: causes.last() });
    lemma_done_stays_idle(later);
    let abandon = JobAction::Finish {
        outcome: JobOutcome::UploadAbandoned { attempts: MAX_RETRIES, cause: causes.last() },
    };
    assert(replay(JobState::Uploading { attempt: MAX_RETRIES }, fin) == (
        JobState::Done,
        seq![abandon] + idles(later.len()),
    ));
    let acts = seq![JobAction::Upload { attempt: 1, delay_secs: 0 }] + retries(
        1,
        (MAX_RETRIES - 1) as nat,
    ) + seq![abandon] + idles(later.len());
    assert(seq![JobAction::Upload { attempt: 1, delay_secs: 0 }] + (retries(1, first.len()) + (
    seq![abandon] + idles(later.len()))) =~= acts);
    assert forall|i: int| 0 <= i < acts.len() implies acts[i] != JobAction::Report && acts[i]
        != JobAction::Cleanup by {
        if i == 0 {
        } else if i < MAX_RETRIES {
            assert(acts[i] == retries(1, (MAX_RETRIES - 1) as nat)[i - 1]);
        } else if i == MAX_RETRIES {
            assert(acts[i] == abandon);
        } else {
            assert(acts[i] == idles(later.len())[i - MAX_RETRIES - 1]);
        }
    }
}

/// A batch job.
#[derive(Debug)]
pub struct BatchJob {
    pub state: JobState,
}

impl BatchJob {
    /// A job for a freshly drained batch, and its first action.
    pub fn start() -> (r: (BatchJob, JobAction))
        ensures
            r.0.state == JobState::Joining,
            job_state_wf(r.0.state),
            r.1 == JobAction::Join,
    {
        (BatchJob { state: JobState::Joining }, JobAction::Join)
    }

    /// Takes what came of the last action and returns the next one.
    pub fn handle(&mut self, event: JobEvent) -> (r: JobAction)
        ensures
            (final(self).state, r) == job_step(old(self).state, event),
            job_state_wf(old(self).state) ==> job_state_wf(final(self).state),
    {
        match (&self.state, event) {
            (JobState::Joining, JobEvent::Joined { exit_code }) => {
                if exit_code == Some(0i32) {
                    self.state = JobState::Uploading { attempt: 1 };
                    JobAction::Upload { attempt: 1, delay_secs: 0 }
                } else {
                    self.state = JobState::Done;
                    JobAction::Finish { outcome: JobOutcome::JoinFailed { exit_code } }
                }
            },
            (JobState::Uploading { attempt }, JobEvent::Uploaded) => {
                let attempts = *attempt;
                self.state = JobState::Reporting { attempts };
                JobAction::Report
            },
            (JobState::Uploading { attempt }, JobEvent::UploadFailed { cause }) => {
                let attempt = *attempt;
                if attempt < MAX_RETRIES {
                    self.state = JobState::Uploading { attempt: attempt + 1 };
                    JobAction::Upload { attempt: attempt + 1, delay_secs: RETRY_DELAY_SECS }
                } else {
                    self.state = JobState::Done;
                    JobAction::Finish {
                        outcome: JobOutcome::UploadAbandoned { attempts: attempt, cause },
                    }
                }
            },
            (JobState::Reporting { attempts }, JobEvent::Reported { .. }) => {
                let attempts = *attempts;
                self.state = JobState::CleaningUp { attempts };
                JobAction::Cleanup
            },
            (JobState::CleaningUp { attempts }, JobEvent::CleanedUp) => {
                let attempts = *attempts;
                self.state = JobState::Done;
                JobAction::Finish { outcome: JobOutcome::Delivered { attempts } }
            },
            _ => JobAction::Idle,
        }
    }

    /// Whether the job has ended.
    pub fn is_done(&self) -> (r: bool)
        ensures
            r == (self.state is Done),
    {
        match self.state {
            JobState::Done => true,
            _ => false,
        }
    }
}

} // verus!
