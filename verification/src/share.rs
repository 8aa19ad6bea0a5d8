//! Sharing a clip through litterbox.catbox.moe: the retention choices, and the
//! checks on each upload attempt and its answer.  (The HTTP exchange itself is
//! done by the program around this library.)
use vstd::prelude::*;
use crate::text::{trim, starts_with, str_eq, str_starts_with, trim_str};

verus! {

/// Number of retention choices.
pub const EXPIRY_COUNT: usize = 5;

/// The retention keys, in display order.
pub open spec fn expiry_key(i: int) -> Seq<char> {
    if i == 0 {
        "1h"@
    } else if i == 1 {
        "12h"@
    } else if i == 2 {
        "24h"@
    } else if i == 3 {
        "72h"@
    } else {
        "1w"@
    }
}

/// The retention labels, in display order.
pub open spec fn expiry_label(i: int) -> Seq<char> {
    if i == 0 {
        "1 hour"@
    } else if i == 1 {
        "12 hours"@
    } else if i == 2 {
        "24 hours"@
    } else if i == 3 {
        "72 hours"@
    } else {
        "1 week"@
    }
}

pub fn expiry_key_at(i: usize) -> (s: &'static str)
    requires
        i < EXPIRY_COUNT,
    ensures
        s@ == expiry_key(i as int),
{
    if i == 0 {
        "1h"
    } else if i == 1 {
        "12h"
    } else if i == 2 {
        "24h"
    } else if i == 3 {
        "72h"
    } else {
        "1w"
    }
}

pub fn expiry_label_at(i: usize) -> (s: &'static str)
    requires
        i < EXPIRY_COUNT,
    ensures
        s@ == expiry_label(i as int),
{
    if i == 0 {
        "1 hour"
    } else if i == 1 {
        "12 hours"
    } else if i == 2 {
        "24 hours"
    } else if i == 3 {
        "72 hours"
    } else {
        "1 week"
    }
}

/// The position of a retention key; one week for an unknown key.
pub open spec fn expiry_index_of(s: Seq<char>) -> int {
    if exists|i: int| 0 <= i < EXPIRY_COUNT && expiry_key(i) == s {
        choose|i: int| 0 <= i < EXPIRY_COUNT && expiry_key(i) == s
    } else {
        4
    }
}

pub fn expiry_idx(s: &str) -> (i: usize)
    ensures
        i < EXPIRY_COUNT,
        i == expiry_index_of(s@),
{
    let mut i: usize = 0;
    while i < EXPIRY_COUNT
        invariant
            i <= EXPIRY_COUNT,
            forall|k: int| 0 <= k < i ==> expiry_key(k) != s@,
        decreases EXPIRY_COUNT - i,
    {
        if str_eq(expiry_key_at(i), s) {
            proof {
                lemma_expiry_keys_distinct();
            }
            return i;
        }
        i += 1;
    }
    4
}

/// No two retention keys are the same.
proof fn lemma_expiry_keys_distinct()
    ensures
        forall|i: int, j: int| 0 <= i < EXPIRY_COUNT && 0 <= j < EXPIRY_COUNT && i != j ==> expiry_key(i) != expiry_key(j),
{
    reveal_strlit("1h");
    reveal_strlit("12h");
    reveal_strlit("24h");
    reveal_strlit("72h");
    reveal_strlit("1w");
    assert("1h"@.len() == 2 && "1w"@.len() == 2);
    assert("12h"@.len() == 3 && "24h"@.len() == 3 && "72h"@.len() == 3);
    assert("1h"@[1] != "1w"@[1]);
    assert("12h"@[0] != "24h"@[0]);
    assert("12h"@[0] != "72h"@[0]);
    assert("24h"@[0] != "72h"@[0]);
}

/// `expiry_idx` finds every key it lists: the key at each position maps back
/// to that position.
pub proof fn law_expiry_idx_round_trip(i: int)
    requires
        0 <= i < EXPIRY_COUNT,
    ensures
        expiry_index_of(expiry_key(i)) == i,
{
    lemma_expiry_keys_distinct();
}

/// Why an upload was given up.
#[derive(Debug, Clone)]
pub enum UploadError {
    /// The file is empty (0 bytes) — nothing to upload.
    EmptyFile,
    /// The service answered with this non-success HTTP status.
    HttpStatus(u16),
    /// The answer was not a URL.
    UnexpectedResponse(String),
    /// Every attempt failed to reach the service.
    Unreachable { attempts: u32 },
}

/// An empty file is refused before any request is made.
pub fn check_file_size(size: u64) -> (r: Result<(), UploadError>)
    ensures
        r is Ok <==> size > 0,
        r matches Err(e) ==> e is EmptyFile,
{
    if size == 0 {
        Err(UploadError::EmptyFile)
    } else {
        Ok(())
    }
}

/// What one upload attempt came back with.
#[derive(Debug, Clone, Copy, PartialEq, Eq, Structural)]
pub enum AttemptOutcome {
    /// An HTTP answer; `server_error` for a 5xx status.
    Answer { status: u16, server_error: bool },
    /// The request did not get an answer.
    NoAnswer,
}

/// What to do after an attempt.
#[derive(Debug, Clone, Copy, PartialEq, Eq, Structural)]
pub enum AttemptStep {
    /// Wait three seconds and try again.
    Retry,
    /// Take this answer.
    Accept,
    /// Give up.
    GiveUp,
}

/// Up to three attempts: a server error or a failed request is retried while
/// fewer than three attempts were made; any other answer is taken.
pub open spec fn attempt_step_of(attempts: u32, o: AttemptOutcome) -> AttemptStep {
    match o {
        AttemptOutcome::Answer { server_error, .. } => if server_error && attempts < 3 {
            AttemptStep::Retry
        } else {
            AttemptStep::Accept
        },
        AttemptOutcome::NoAnswer => if attempts < 3 {
            AttemptStep::Retry
        } else {
            AttemptStep::GiveUp
        },
    }
}

pub fn attempt_step(attempts: u32, o: AttemptOutcome) -> (s: AttemptStep)
    ensures
        s == attempt_step_of(attempts, o),
{
    match o {
        AttemptOutcome::Answer { server_error, .. } => if server_error && attempts < 3 {
            AttemptStep::Retry
        } else {
            AttemptStep::Accept
        },
        AttemptOutcome::NoAnswer => if attempts < 3 {
            AttemptStep::Retry
        } else {
            AttemptStep::GiveUp
        },
    }
}

/// The URL an accepted answer carries: a success status and a body that,
/// trimmed, starts with `http`.
pub fn response_url(success: bool, status: u16, body: &str) -> (r: Result<String, UploadError>)
    ensures
        !success ==> (r matches Err(UploadError::HttpStatus(s)) && s == status),
        success && trim(body@).len() > 0 && starts_with(trim(body@), "http"@) ==> (r matches Ok(u) && u@ == trim(body@)),
        success && !(trim(body@).len() > 0 && starts_with(trim(body@), "http"@)) ==> (r matches Err(UploadError::UnexpectedResponse(u)) && u@ == trim(body@)),
{
    if !success {
        return Err(UploadError::HttpStatus(status));
    }
    let url = trim_str(body);
    if url.as_str().is_empty() || !str_starts_with(url.as_str(), "http") {
        return Err(UploadError::UnexpectedResponse(url));
    }
    Ok(url)
}

/// The upload request for a file kept `expiry` long: where it is posted,
/// its text fields (`reqtype=fileupload`, `time=<expiry>`), and the name of
/// the field that carries the file.
pub struct UploadRequest {
    pub url: String,
    pub fields: Vec<(String, String)>,
    pub file_field: String,
}

pub fn upload_request(expiry: &str) -> (r: UploadRequest)
    ensures
        r.url@ == "https://litterbox.catbox.moe/resources/internals/api.php"@,
        r.fields@.len() == 2,
        r.fields@[0].0@ == "reqtype"@ && r.fields@[0].1@ == "fileupload"@,
        r.fields@[1].0@ == "time"@ && r.fields@[1].1@ == expiry@,
        r.file_field@ == "fileToUpload"@,
{
    let mut fields: Vec<(String, String)> = Vec::new();
    fields.push((String::from_str("reqtype"), String::from_str("fileupload")));
    fields.push((String::from_str("time"), String::from_str(expiry)));
    UploadRequest {
        url: String::from_str("https://litterbox.catbox.moe/resources/internals/api.php"),
        fields,
        file_field: String::from_str("fileToUpload"),
    }
}

/// An upload makes at most three attempts: from the third on, nothing is
/// retried.
pub proof fn law_upload_attempts_bounded(attempts: u32, o: AttemptOutcome)
    requires
        attempts >= 3,
    ensures
        attempt_step_of(attempts, o) != AttemptStep::Retry,
{
}

} // verus!
