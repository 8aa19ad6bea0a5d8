use rscapt::job::{CompressOptions, Job, JobKind, JobStatus};
use rscapt::queue::{JobQueue, QueueEvent};

fn job(id: u128, source: &str) -> Job {
    Job::new(id, JobKind::Upscale, source.to_string(), format!("{source}.out"), 1000)
}

#[test]
fn new_job_is_queued_with_its_id_and_time() {
    let j = Job::new(0x4000_0000_0000_4000_8000_0000_0000_0001, JobKind::Upscale, "C:\\clips\\a.mkv".to_string(), "C:\\out\\a_1440p.mkv".to_string(), 1_700_000_000_000);
    assert_eq!(j.status, JobStatus::Queued);
    assert_eq!(j.progress, 0);
    assert_eq!(j.id, 0x4000_0000_0000_4000_8000_0000_0000_0001);
    assert_eq!(j.created_at, 1_700_000_000_000);
    assert_eq!(j.source, "C:\\clips\\a.mkv");
    assert_eq!(j.output, "C:\\out\\a_1440p.mkv");
    assert!(j.finished_at.is_none() && j.share_url.is_none() && j.share_token.is_none());
}

#[test]
fn job_names_and_labels() {
    let j = job(1, "C:\\clips\\Replay 2024-01-01.mkv");
    assert_eq!(j.display_name(), "Replay 2024-01-01.mkv");
    assert_eq!(j.kind_label(), "Upscale");
    let c = Job::new(2, JobKind::Compress(CompressOptions::default()), "a".to_string(), "b".to_string(), 0);
    assert_eq!(c.kind_label(), "Compress");
    let p = Job::new(3, JobKind::PostProcess { effects: vec![] }, "a".to_string(), "b".to_string(), 0);
    assert_eq!(p.kind_label(), "Post-Process");
    let s = Job::new(4, JobKind::Share { expiry: "1h".to_string() }, "a".to_string(), "a".to_string(), 0);
    assert_eq!(s.kind_label(), "Share");
    assert!(!JobStatus::Queued.is_terminal());
    assert!(!JobStatus::Running.is_terminal());
    assert!(JobStatus::Done.is_terminal());
    assert!(JobStatus::Failed("x".to_string()).is_terminal());
    assert!(JobStatus::Cancelled.is_terminal());
}

#[test]
fn pop_takes_jobs_in_order_and_marks_them_running() {
    let mut q = JobQueue::new();
    match q.push(job(1, "a")) {
        QueueEvent::JobAdded(j) => assert_eq!(j.id, 1),
        other => panic!("unexpected {:?}", other),
    }
    q.push(job(2, "b"));
    let first = q.pop_next().unwrap();
    assert_eq!(first.id, 1);
    assert_eq!(first.status, JobStatus::Running);
    assert_eq!(q.pop_next().unwrap().id, 2);
    assert!(q.pop_next().is_none());
    assert_eq!(q.snapshot().len(), 2);
}

#[test]
fn cancelled_jobs_are_skipped_and_cancel_is_idempotent() {
    let mut q = JobQueue::new();
    q.push(job(1, "a"));
    q.push(job(2, "b"));
    assert!(q.cancel(1));
    assert!(!q.cancel(1));
    assert!(q.is_cancelled(1));
    assert_eq!(q.pop_next().unwrap().id, 2);
    assert!(!q.cancel(99));
}

#[test]
fn finishing_records_the_outcome_but_keeps_a_cancellation() {
    let mut q = JobQueue::new();
    q.push(job(1, "a"));
    q.push(job(2, "b"));
    q.push(job(3, "c"));
    q.pop_next();
    let done = q.finish(1, None, 5000).unwrap();
    assert_eq!(done.status, JobStatus::Done);
    assert_eq!(done.progress, 100);
    assert_eq!(done.finished_at, Some(5000));
    q.pop_next();
    let failed = q.finish(2, Some("ffmpeg exited with code 1".to_string()), 6000).unwrap();
    assert_eq!(failed.status, JobStatus::Failed("ffmpeg exited with code 1".to_string()));
    q.pop_next();
    assert!(q.cancel(3));
    let still = q.finish(3, None, 7000).unwrap();
    assert_eq!(still.status, JobStatus::Cancelled);
    assert!(!q.cancel(1));
    assert!(q.finish(42, None, 1).is_none());
}

#[test]
fn progress_and_share_updates() {
    let mut q = JobQueue::new();
    q.push(job(1, "a"));
    assert_eq!(q.set_progress(1, 37).unwrap().progress, 37);
    assert_eq!(q.get(1).unwrap().progress, 37);
    let shared = q.record_share(1, "https://litter.catbox.moe/x.mp4".to_string()).unwrap();
    assert_eq!(shared.share_url.as_deref(), Some("https://litter.catbox.moe/x.mp4"));
    assert!(shared.share_token.is_none());
    assert!(q.set_progress(5, 1).is_none());
    assert!(q.get(5).is_none());
}
