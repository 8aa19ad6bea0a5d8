//! The daemon's decisions: where an upscaled clip goes, and what happens
//! when a job changes state.
use vstd::prelude::*;
use crate::text::{push_str, owned};
use crate::paths::{extension_or_empty, file_name_or_empty, join, stem_or_empty, file_name_string, join_str, stem_and_extension,
    is_sep, lemma_join_file_name, lemma_stem_extension_cover_name};
use crate::job::{Job, JobKind, JobStatus, job_kind_label, is_fresh_job};
use crate::config::Config;

verus! {

/// `<output_dir>/<stem>_1440p.<ext>`.
pub open spec fn upscale_output(source: Seq<char>, output_dir: Seq<char>) -> Seq<char> {
    join(output_dir, stem_or_empty(source) + "_1440p."@ + extension_or_empty(source))
}

pub fn build_output_path(source: &str, output_dir: &str) -> (p: String)
    ensures
        p@ == upscale_output(source@, output_dir@),
{
    let (stem, ext) = stem_and_extension(source);
    let mut name = stem;
    push_str(&mut name, "_1440p.");
    push_str(&mut name, ext.as_str());
    join_str(output_dir, name.as_str())
}

/// The upscale job, under the id `id` and created at `created_at`, for a
/// replay the recorder just saved.
pub fn upscale_job(id: u128, saved: String, output_dir: &str, created_at: i64) -> (j: Job)
    ensures
        is_fresh_job(j, id, JobKind::Upscale, saved@, upscale_output(saved@, output_dir@), created_at),
        j.kind is Upscale,
{
    let output = build_output_path(saved.as_str(), output_dir);
    Job::new(id, JobKind::Upscale, saved, output, created_at)
}

/// Whether the daemon starts OBS itself: it manages OBS and knows where
/// obs64.exe is.  (It still skips the launch when OBS is already running.)
pub fn manages_obs(config: &Config) -> (b: bool)
    ensures
        b == (config.obs_managed && config.obs_exe_path@.len() > 0),
{
    let n: usize = config.obs_exe_path.as_str().as_bytes().len();
    proof {
        if config.obs_exe_path@.len() > 0 {
            assert(vstd::utf8::encode_utf8(config.obs_exe_path@).len() > 0);
        } else {
            assert(config.obs_exe_path@ =~= Seq::<char>::empty());
        }
    }
    config.obs_managed && n > 0
}

/// What the daemon does when a job is updated.
#[derive(Debug, Clone)]
pub enum JobEventAction {
    /// A finished ffmpeg job: add its output to the clip library and notify.
    AddClip { output: String, title: String, body: String },
    /// A finished upload: record the URL on the clip and notify.
    RecordShare { source: String, url: String, title: String, body: String },
    /// A failed job: notify.
    NotifyFailure { title: String, body: String },
    /// Nothing to do (queued, running, cancelled, or a share without URL).
    Nothing,
}

/// `"<kind> done"` and `"<clip> → <output file>"`, and so on for each case.
pub open spec fn job_event_action_of(j: Job, a: JobEventAction) -> bool {
    match j.status {
        JobStatus::Done => match j.kind {
            JobKind::Share { .. } => match j.share_url {
                Some(url) => a matches JobEventAction::RecordShare { source, url: u, title, body }
                    && source@ == j.source@ && u@ == url@ && title@ == "Clip shared"@ && body@ == url@,
                None => a is Nothing,
            },
            _ => a matches JobEventAction::AddClip { output, title, body } && output@ == j.output@
                && title@ == job_kind_label(j.kind) + " done"@
                && body@ == file_name_or_empty(j.source@) + " → "@ + file_name_or_empty(j.output@),
        },
        JobStatus::Failed(e) => a matches JobEventAction::NotifyFailure { title, body }
            && title@ == job_kind_label(j.kind) + " failed"@
            && body@ == file_name_or_empty(j.source@) + ": "@ + e@,
        _ => a is Nothing,
    }
}

pub fn job_event_action(job: &Job) -> (a: JobEventAction)
    ensures
        job_event_action_of(*job, a),
{
    match &job.status {
        JobStatus::Done => match &job.kind {
            JobKind::Share { .. } => match &job.share_url {
                Some(url) => JobEventAction::RecordShare {
                    source: job.source.clone(),
                    url: url.clone(),
                    title: owned("Clip shared"),
                    body: url.clone(),
                },
                None => JobEventAction::Nothing,
            },
            _ => {
                let mut title = owned(job.kind_label());
                push_str(&mut title, " done");
                let mut body = job.display_name();
                push_str(&mut body, " → ");
                let out_name = file_name_string(job.output.as_str());
                push_str(&mut body, out_name.as_str());
                JobEventAction::AddClip { output: job.output.clone(), title, body }
            },
        },
        JobStatus::Failed(e) => {
            let mut title = owned(job.kind_label());
            push_str(&mut title, " failed");
            let mut body = job.display_name();
            push_str(&mut body, ": ");
            push_str(&mut body, e.as_str());
            JobEventAction::NotifyFailure { title, body }
        },
        _ => JobEventAction::Nothing,
    }
}

/// An upscale never writes over the replay it reads: the output's file name
/// is the source's stem and extension around `_1440p.`, longer than the
/// source's own name.
pub proof fn law_upscale_output_is_not_source(source: Seq<char>, output_dir: Seq<char>)
    ensures
        upscale_output(source, output_dir) != source,
{
    lemma_stem_extension_cover_name(source);
    reveal_strlit("_1440p.");
    let st = stem_or_empty(source);
    let ex = extension_or_empty(source);
    let mid = "_1440p."@;
    let n = st + mid + ex;
    assert forall|k: int| 0 <= k < n.len() implies !is_sep(#[trigger] n[k]) by {
        if k < st.len() {
            assert(n[k] == st[k]);
        } else if k < st.len() + 7 {
            assert(n[k] == mid[k - st.len()]);
        } else {
            assert(n[k] == ex[k - st.len() - 7]);
        }
    }
    lemma_join_file_name(output_dir, n);
    assert(file_name_or_empty(upscale_output(source, output_dir)) == n);
}

/// Every job that finishes with an output of its own (an upscale, a
/// post-process or a compression) adds that output to the clip library; a
/// finished upload with a link records it on its clip; every failure is
/// notified; and nothing is done only for queued, running and cancelled jobs
/// and an upload that came back without a link.
pub proof fn law_finished_outputs_join_the_library(j: Job, a: JobEventAction)
    requires
        job_event_action_of(j, a),
    ensures
        j.status is Done && !(j.kind is Share) ==> (a matches JobEventAction::AddClip { output, .. } && output@ == j.output@),
        j.status is Done && j.kind is Share && j.share_url is Some ==> (a matches JobEventAction::RecordShare { source, url, .. }
            && source@ == j.source@ && url@ == j.share_url->0@),
        j.status is Failed ==> a is NotifyFailure,
        a is Nothing <==> (j.status is Queued || j.status is Running || j.status is Cancelled
            || (j.status is Done && j.kind is Share && j.share_url is None)),
        j.status is Done && j.kind is Compress ==> (a matches JobEventAction::AddClip { title, body, .. }
            && title@ == "Compress done"@
            && body@ == file_name_or_empty(j.source@) + " → "@ + file_name_or_empty(j.output@)),
        j.status is Done && j.kind is Upscale ==> (a matches JobEventAction::AddClip { title, .. } && title@ == "Upscale done"@),
        j.status is Done && j.kind is PostProcess ==> (a matches JobEventAction::AddClip { title, .. } && title@ == "Post-Process done"@),
{
    reveal_strlit("Compress");
    reveal_strlit("Upscale");
    reveal_strlit("Post-Process");
    reveal_strlit(" done");
    reveal_strlit("Compress done");
    reveal_strlit("Upscale done");
    reveal_strlit("Post-Process done");
    assert("Compress"@ + " done"@ =~= "Compress done"@);
    assert("Upscale"@ + " done"@ =~= "Upscale done"@);
    assert("Post-Process"@ + " done"@ =~= "Post-Process done"@);
}

} // verus!
