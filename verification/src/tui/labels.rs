//! The texts the dashboard shows for jobs and clips.  Colours and layout are
//! chosen by the program around this library when it draws them.
use vstd::prelude::*;
use crate::clips::{Clip, size_label_text};
use crate::job::{Job, JobStatus, job_kind_label};
use crate::paths::file_name_or_empty;
use crate::text::{decimal, owned, push_char, push_decimal, push_str};

verus! {

/// The status column of the job list.
pub open spec fn status_tag_text(s: JobStatus) -> Seq<char> {
    match s {
        JobStatus::Queued => "QUEUE "@,
        JobStatus::Running => "RUN   "@,
        JobStatus::Done => "DONE  "@,
        JobStatus::Failed(_) => "FAIL  "@,
        JobStatus::Cancelled => "SKIP  "@,
    }
}

pub fn status_tag(s: &JobStatus) -> (t: &'static str)
    ensures
        t@ == status_tag_text(*s),
{
    match s {
        JobStatus::Queued => "QUEUE ",
        JobStatus::Running => "RUN   ",
        JobStatus::Done => "DONE  ",
        JobStatus::Failed(_) => "FAIL  ",
        JobStatus::Cancelled => "SKIP  ",
    }
}

/// `n` right-aligned in three columns (`format!("{:3}", n)`).
pub open spec fn padded3(n: nat) -> Seq<char> {
    if n < 10 {
        "  "@ + decimal(n)
    } else if n < 100 {
        " "@ + decimal(n)
    } else {
        decimal(n)
    }
}

/// The rest of a job's row: its file name, and its progress while it runs.
pub open spec fn job_row_text(j: Job) -> Seq<char> {
    " "@ + file_name_or_empty(j.source@) + if j.status is Running {
        " "@ + padded3(j.progress as nat) + "%"@
    } else {
        Seq::empty()
    }
}

/// A job's row in the list: its status tag, `[kind]`, and the rest.
pub fn job_row(job: &Job) -> (r: (&'static str, String, String))
    ensures
        r.0@ == status_tag_text(job.status),
        r.1@ == "["@ + job_kind_label(job.kind) + "]"@,
        r.2@ == job_row_text(*job),
{
    let mut kind = owned("[");
    push_str(&mut kind, job.kind_label());
    push_str(&mut kind, "]");
    let mut text = owned(" ");
    let name = job.display_name();
    push_str(&mut text, name.as_str());
    match &job.status {
        JobStatus::Running => {
            push_str(&mut text, " ");
            if job.progress < 10 {
                push_str(&mut text, "  ");
            } else if job.progress < 100 {
                push_str(&mut text, " ");
            }
            push_decimal(&mut text, job.progress as u64);
            push_str(&mut text, "%");
        },
        _ => {},
    }
    (status_tag(&job.status), kind, text)
}

/// The label on the progress gauge of the selected job.
pub open spec fn job_info_text(j: Job) -> Seq<char> {
    let name = file_name_or_empty(j.source@);
    match j.status {
        JobStatus::Running => decimal(j.progress as nat) + "%  "@ + name,
        JobStatus::Done => "Done  "@ + name,
        JobStatus::Failed(e) => "Error: "@ + e@,
        JobStatus::Cancelled => "Cancelled  "@ + name,
        JobStatus::Queued => "Waiting…  "@ + name,
    }
}

pub fn job_info_label(job: &Job) -> (s: String)
    ensures
        s@ == job_info_text(*job),
{
    let name = job.display_name();
    match &job.status {
        JobStatus::Running => {
            let mut s = String::new();
            push_decimal(&mut s, job.progress as u64);
            push_str(&mut s, "%  ");
            push_str(&mut s, name.as_str());
            s
        },
        JobStatus::Done => {
            let mut s = owned("Done  ");
            push_str(&mut s, name.as_str());
            s
        },
        JobStatus::Failed(e) => {
            let mut s = owned("Error: ");
            push_str(&mut s, e.as_str());
            s
        },
        JobStatus::Cancelled => {
            let mut s = owned("Cancelled  ");
            push_str(&mut s, name.as_str());
            s
        },
        JobStatus::Queued => {
            let mut s = owned("Waiting…  ");
            push_str(&mut s, name.as_str());
            s
        },
    }
}

/// The detail after a clip's name in the list: its size, and a link mark
/// when it has been shared.
pub open spec fn clip_row_text(c: Clip) -> Seq<char> {
    "  "@ + size_label_text(c.size_bytes as nat) + if c.share_url is Some {
        " 🔗"@
    } else {
        Seq::empty()
    }
}

pub fn clip_row_detail(clip: &Clip) -> (s: String)
    ensures
        s@ == clip_row_text(*clip),
{
    let mut s = owned("  ");
    let size = clip.size_label();
    push_str(&mut s, size.as_str());
    if clip.share_url.is_some() {
        push_str(&mut s, " 🔗");
    }
    s
}

/// The info line of the selected clip: name, size, and where it is shared.
pub open spec fn clip_info_text(c: Clip) -> Seq<char> {
    c.filename@ + "  |  "@ + size_label_text(c.size_bytes as nat) + match c.share_url {
        Some(u) => "  |  Shared: "@ + u@,
        None => Seq::empty(),
    }
}

pub fn clip_info(clip: &Clip) -> (s: String)
    ensures
        s@ == clip_info_text(*clip),
{
    let mut s = clip.filename.clone();
    push_str(&mut s, "  |  ");
    let size = clip.size_label();
    push_str(&mut s, size.as_str());
    match &clip.share_url {
        Some(u) => {
            push_str(&mut s, "  |  Shared: ");
            push_str(&mut s, u.as_str());
        },
        None => {},
    }
    s
}

} // verus!
