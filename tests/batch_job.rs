use screen_record::job::{
    BatchJob, JobAction, JobEvent, JobOutcome, JobState, MAX_RETRIES, RETRY_DELAY_SECS,
};

fn failed(cause: &str) -> JobEvent {
    JobEvent::UploadFailed { cause: cause.to_string() }
}

#[test]
fn upload_failing_twice_then_accepted_is_delivered_after_three_attempts() {
    let (mut job, first) = BatchJob::start();
    assert!(matches!(first, JobAction::Join));
    let mut attempts = Vec::new();
    let mut actions = Vec::new();
    let events = vec![
        JobEvent::Joined { exit_code: Some(0) },
        failed("connection refused"),
        failed("timed out"),
        JobEvent::Uploaded,
        JobEvent::Reported { accepted: true },
        JobEvent::CleanedUp,
    ];
    for e in events {
        let a = job.handle(e);
        if let JobAction::Upload { attempt, delay_secs } = &a {
            attempts.push((*attempt, *delay_secs));
        }
        actions.push(a);
    }
    assert_eq!(attempts, vec![(1, 0), (2, 5), (3, 5)]);
    for (_, delay) in &attempts[1..] {
        assert!(*delay >= 5);
    }
    assert!(matches!(actions[3], JobAction::Report));
    assert!(matches!(actions[4], JobAction::Cleanup));
    assert!(matches!(
        actions[5],
        JobAction::Finish { outcome: JobOutcome::Delivered { attempts: 3 } }
    ));
    assert!(job.is_done());
}

#[test]
fn upload_failing_three_times_is_abandoned_without_report_or_cleanup() {
    let (mut job, _) = BatchJob::start();
    let mut actions = Vec::new();
    actions.push(job.handle(JobEvent::Joined { exit_code: Some(0) }));
    actions.push(job.handle(failed("first")));
    actions.push(job.handle(failed("second")));
    actions.push(job.handle(failed("third")));
    match &actions[3] {
        JobAction::Finish { outcome: JobOutcome::UploadAbandoned { attempts, cause } } => {
            assert_eq!(*attempts, MAX_RETRIES);
            assert_eq!(cause, "third");
        }
        other => panic!("unexpected action {:?}", other),
    }
    assert!(job.is_done());
    actions.push(job.handle(JobEvent::Uploaded));
    actions.push(job.handle(JobEvent::Reported { accepted: true }));
    actions.push(job.handle(JobEvent::CleanedUp));
    assert!(matches!(actions[4], JobAction::Idle));
    for a in &actions {
        assert!(!matches!(a, JobAction::Report));
        assert!(!matches!(a, JobAction::Cleanup));
    }
}

#[test]
fn upload_accepted_first_time_needs_no_delay() {
    let (mut job, _) = BatchJob::start();
    let a = job.handle(JobEvent::Joined { exit_code: Some(0) });
    assert!(matches!(a, JobAction::Upload { attempt: 1, delay_secs: 0 }));
    assert!(matches!(job.state, JobState::Uploading { attempt: 1 }));
    assert!(matches!(job.handle(JobEvent::Uploaded), JobAction::Report));
    assert!(matches!(job.handle(JobEvent::Reported { accepted: false }), JobAction::Cleanup));
    let end = job.handle(JobEvent::CleanedUp);
    assert!(matches!(end, JobAction::Finish { outcome: JobOutcome::Delivered { attempts: 1 } }));
}

#[test]
fn retry_delay_is_fixed() {
    let (mut job, _) = BatchJob::start();
    job.handle(JobEvent::Joined { exit_code: Some(0) });
    let a = job.handle(failed("x"));
    match a {
        JobAction::Upload { attempt, delay_secs } => {
            assert_eq!(attempt, 2);
            assert_eq!(delay_secs, RETRY_DELAY_SECS);
            assert_eq!(delay_secs, 5);
        }
        other => panic!("unexpected action {:?}", other),
    }
}

#[test]
fn join_failure_ends_the_job_keeping_the_clips() {
    let (mut job, _) = BatchJob::start();
    let a = job.handle(JobEvent::Joined { exit_code: Some(1) });
    assert!(matches!(
        a,
        JobAction::Finish { outcome: JobOutcome::JoinFailed { exit_code: Some(1) } }
    ));
    assert!(job.is_done());
    let (mut killed, _) = BatchJob::start();
    let b = killed.handle(JobEvent::Joined { exit_code: None });
    assert!(matches!(b, JobAction::Finish { outcome: JobOutcome::JoinFailed { exit_code: None } }));
}

#[test]
fn event_out_of_step_is_ignored() {
    let (mut job, _) = BatchJob::start();
    assert!(matches!(job.handle(JobEvent::Uploaded), JobAction::Idle));
    assert!(matches!(job.state, JobState::Joining));
    job.handle(JobEvent::Joined { exit_code: Some(0) });
    assert!(matches!(job.handle(JobEvent::CleanedUp), JobAction::Idle));
    assert!(matches!(job.state, JobState::Uploading { attempt: 1 }));
}
