//! Decisions of progressive stream-to-disk playback: the file extension a
//! stream is saved under, when enough is buffered to start, what a read of the
//! growing file may return, where a seek lands, and how to continue a download
//! from the reply to a range request. The download task and the file handles
//! live in the front end; these functions decide for them.
use crate::text::{chars_of, copy_range, decimal, push_decimal, push_str_chars, string_from_chars};
use vstd::prelude::*;

verus! {

/// Bytes to buffer on disk before playback starts.
pub const PREBUFFER_BYTES: u64 = 256 * 1024;

// ---------------------------------------------------------------------------
// File extension.

pub open spec fn is_ascii_alnum(c: char) -> bool {
    ('a' <= c && c <= 'z') || ('A' <= c && c <= 'Z') || ('0' <= c && c <= '9')
}

pub open spec fn ascii_lower(c: char) -> char {
    if 'A' <= c && c <= 'Z' {
        ((c as int) + 32) as char
    } else {
        c
    }
}

/// Index of the first character of `s` satisfying `p`, or `s.len()`.
pub open spec fn first_index(s: Seq<char>, p: spec_fn(char) -> bool) -> int
    decreases s.len(),
{
    if s.len() == 0 {
        0
    } else if p(s[0]) {
        0
    } else {
        1 + first_index(s.drop_first(), p)
    }
}

/// Index just after the last character of `s` satisfying `p`, or 0.
pub open spec fn after_last_index(s: Seq<char>, p: spec_fn(char) -> bool) -> int
    decreases s.len(),
{
    if s.len() == 0 {
        0
    } else if p(s.last()) {
        s.len() as int
    } else {
        after_last_index(s.drop_last(), p)
    }
}

/// The audio file extension of a URL: the last dot-suffix of the path's final
/// segment (ignoring any query or fragment), lowercased, when it is one to
/// five ASCII letters or digits; `mp3` otherwise.
pub open spec fn extension_of(url: Seq<char>) -> Seq<char> {
    let path = url.take(first_index(url, |c: char| c == '?' || c == '#'));
    let name = path.skip(after_last_index(path, |c: char| c == '/'));
    let dot = after_last_index(name, |c: char| c == '.');
    let ext = name.skip(dot);
    if dot > 0 && ext.len() > 0 && ext.len() <= 5 && (forall|i: int| 0 <= i < ext.len() ==> is_ascii_alnum(#[trigger] ext[i])) {
        ext.map_values(|c: char| ascii_lower(c))
    } else {
        "mp3"@
    }
}

proof fn lemma_first_index(s: Seq<char>, p: spec_fn(char) -> bool, k: int)
    requires
        0 <= k <= s.len(),
        forall|j: int| 0 <= j < k ==> !p(#[trigger] s[j]),
        k == s.len() || p(s[k]),
    ensures
        first_index(s, p) == k,
    decreases k,
{
    if k > 0 {
        lemma_first_index(s.drop_first(), p, k - 1);
    }
}

proof fn lemma_after_last_index(s: Seq<char>, p: spec_fn(char) -> bool, k: int)
    requires
        0 <= k <= s.len(),
        forall|j: int| k <= j < s.len() ==> !p(#[trigger] s[j]),
        k == 0 || p(s[k - 1]),
    ensures
        after_last_index(s, p) == k,
    decreases s.len() - k,
{
    if s.len() > k {
        lemma_after_last_index(s.drop_last(), p, k);
    }
}

/// The extension to save a stream under, parsed from the URL path and
/// defaulting to `mp3`; kept short and alphanumeric so a junk URL cannot
/// inject a strange filename.
pub fn stream_extension(url: &str) -> (ext: String)
    ensures
        ext@ == extension_of(url@),
{
    proof {
        reveal_strlit("mp3");
    }
    let v = chars_of(url);
    let ghost qf = |c: char| c == '?' || c == '#';
    let ghost sl = |c: char| c == '/';
    let ghost dt = |c: char| c == '.';
    let mut end: usize = 0;
    while end < v.len() && v[end] != '?' && v[end] != '#'
        invariant
            end <= v@.len(),
            forall|j: int| 0 <= j < end ==> #[trigger] v@[j] != '?' && v@[j] != '#',
        decreases v@.len() - end,
    {
        end = end + 1;
    }
    proof {
        lemma_first_index(v@, qf, end as int);
    }
    let path = copy_range(&v, 0, end);
    assert(path@ == v@.take(end as int));
    let mut start: usize = path.len();
    while start > 0 && path[start - 1] != '/'
        invariant
            start <= path@.len(),
            forall|j: int| start <= j < path@.len() ==> #[trigger] path@[j] != '/',
        decreases start,
    {
        start = start - 1;
    }
    proof {
        lemma_after_last_index(path@, sl, start as int);
    }
    let name = copy_range(&path, start, path.len());
    assert(name@ == path@.skip(start as int));
    let mut dot: usize = name.len();
    while dot > 0 && name[dot - 1] != '.'
        invariant
            dot <= name@.len(),
            forall|j: int| dot <= j < name@.len() ==> #[trigger] name@[j] != '.',
        decreases dot,
    {
        dot = dot - 1;
    }
    proof {
        lemma_after_last_index(name@, dt, dot as int);
    }
    let ext = copy_range(&name, dot, name.len());
    assert(ext@ == name@.skip(dot as int));
    let n = ext.len();
    let mut ok = dot > 0 && n > 0 && n <= 5;
    let mut lower: Vec<char> = Vec::new();
    let mut i: usize = 0;
    while i < n
        invariant
            n == ext@.len(),
            0 <= i <= n,
            lower@ == ext@.take(i as int).map_values(|c: char| ascii_lower(c)),
            ok == (dot > 0 && n > 0 && n <= 5 && forall|j: int| 0 <= j < i ==> is_ascii_alnum(#[trigger] ext@[j])),
        decreases n - i,
    {
        let c = ext[i];
        let alnum = ('a' <= c && c <= 'z') || ('A' <= c && c <= 'Z') || ('0' <= c && c <= '9');
        if !alnum {
            ok = false;
        }
        let lc = if 'A' <= c && c <= 'Z' {
            char_from_ascii_upper(c)
        } else {
            c
        };
        lower.push(lc);
        i = i + 1;
        assert(ext@.take(i as int) == ext@.take(i - 1).push(c));
    }
    assert(ext@.take(n as int) == ext@);
    if ok {
        string_from_chars(&lower)
    } else {
        crate::text::owned("mp3")
    }
}

/// The lowercase counterpart of an ASCII capital letter.
fn char_from_ascii_upper(c: char) -> (r: char)
    requires
        'A' <= c && c <= 'Z',
    ensures
        r == ascii_lower(c),
{
    let b: u8 = (c as u32 + 32) as u8;
    b as char
}

// ---------------------------------------------------------------------------
// Prebuffer.

/// Where the wait before playback stands.
#[derive(Debug, Clone, Copy, PartialEq, Eq, Structural)]
pub enum PrebufferStatus {
    /// The download failed before playback could start.
    Failed,
    /// Enough is on disk (or the whole file is): start playing.
    Ready,
    /// Keep waiting.
    Wait,
}

/// Bytes needed before playback starts: the prebuffer, or the whole file when
/// it is known to be smaller.
pub open spec fn prebuffer_target(total: u64) -> u64 {
    if total > 0 && total < PREBUFFER_BYTES {
        total
    } else {
        PREBUFFER_BYTES
    }
}

pub fn prebuffer_status(failed: bool, complete: bool, downloaded: u64, total: u64) -> (s: PrebufferStatus)
    ensures
        s == if failed {
            PrebufferStatus::Failed
        } else if complete || downloaded >= prebuffer_target(total) {
            PrebufferStatus::Ready
        } else {
            PrebufferStatus::Wait
        },
{
    if failed {
        return PrebufferStatus::Failed;
    }
    if complete {
        return PrebufferStatus::Ready;
    }
    let target = if total > 0 {
        if PREBUFFER_BYTES < total { PREBUFFER_BYTES } else { total }
    } else {
        PREBUFFER_BYTES
    };
    if downloaded >= target {
        PrebufferStatus::Ready
    } else {
        PrebufferStatus::Wait
    }
}

// ---------------------------------------------------------------------------
// Reading the growing file.

/// What a read at the cursor may do right now.
#[derive(Debug, Clone, Copy, PartialEq, Eq, Structural)]
pub enum ReadStep {
    /// Read this many bytes (never past the downloaded frontier).
    Read(usize),
    /// Real end of file: everything is downloaded and read.
    EndOfFile,
    /// The download failed; report an error.
    Failed,
    /// Block until the download makes progress.
    Wait,
}

pub fn read_step(pos: u64, downloaded: u64, complete: bool, failed: bool, buf_len: usize) -> (r: ReadStep)
    ensures
        r == if pos < downloaded {
            ReadStep::Read(
                if (buf_len as int) < downloaded - pos {
                    buf_len
                } else {
                    (downloaded - pos) as usize
                },
            )
        } else if complete {
            ReadStep::EndOfFile
        } else if failed {
            ReadStep::Failed
        } else {
            ReadStep::Wait
        },
{
    if pos < downloaded {
        let available = downloaded - pos;
        let want = if (buf_len as u64) < available { buf_len } else { available as usize };
        ReadStep::Read(want)
    } else if complete {
        ReadStep::EndOfFile
    } else if failed {
        ReadStep::Failed
    } else {
        ReadStep::Wait
    }
}

// ---------------------------------------------------------------------------
// Seeking.

/// Where a seek is measured from.
#[derive(Debug, Clone, Copy, PartialEq, Eq, Structural)]
pub enum SeekOrigin {
    Start(u64),
    Current(i64),
    End(i64),
}

/// A seek would land before the start of the stream.
#[derive(Debug, Clone, Copy, PartialEq, Eq, Structural)]
pub struct SeekBeforeStart;

/// The end a relative-to-end seek measures from: the final size when known,
/// otherwise the current download frontier.
pub open spec fn stream_end(total: u64, downloaded: u64) -> u64 {
    if total > 0 {
        total
    } else {
        downloaded
    }
}

/// The new cursor of a seek, or an error when it would land before the start.
pub fn seek_target(pos: u64, origin: SeekOrigin, total: u64, downloaded: u64) -> (r: Result<u64, SeekBeforeStart>)
    requires
        pos <= i64::MAX,
        origin matches SeekOrigin::Current(d) ==> i64::MIN <= pos + d <= i64::MAX,
        origin matches SeekOrigin::End(d) ==> stream_end(total, downloaded) <= i64::MAX
            && i64::MIN <= stream_end(total, downloaded) + d <= i64::MAX,
    ensures
        ({
            let target: int = match origin {
                SeekOrigin::Start(n) => n as int,
                SeekOrigin::Current(d) => pos + d,
                SeekOrigin::End(d) => stream_end(total, downloaded) + d,
            };
            match origin {
                SeekOrigin::Start(n) => if n <= i64::MAX {
                    r == Ok::<u64, SeekBeforeStart>(n)
                } else {
                    r == Err::<u64, SeekBeforeStart>(SeekBeforeStart)
                },
                _ => if target < 0 {
                    r == Err::<u64, SeekBeforeStart>(SeekBeforeStart)
                } else {
                    r == Ok::<u64, SeekBeforeStart>(target as u64)
                },
            }
        }),
{
    match origin {
        SeekOrigin::Start(n) => {
            if n <= i64::MAX as u64 {
                Ok(n)
            } else {
                Err(SeekBeforeStart)
            }
        },
        SeekOrigin::Current(d) => {
            let t = pos as i64 + d;
            if t < 0 {
                Err(SeekBeforeStart)
            } else {
                Ok(t as u64)
            }
        },
        SeekOrigin::End(d) => {
            let end = if total > 0 { total } else { downloaded };
            let t = end as i64 + d;
            if t < 0 {
                Err(SeekBeforeStart)
            } else {
                Ok(t as u64)
            }
        },
    }
}

// ---------------------------------------------------------------------------
// Resuming a download.

/// How to continue a download after sending it (a range request when
/// `resume_from > 0`).
#[derive(Debug, Clone, Copy, PartialEq, Eq, Structural)]
pub enum ResumeAction {
    /// `206 Partial Content`: append the rest to the partial file.
    Append,
    /// `416 Range Not Satisfiable`: the file on disk is already complete.
    AlreadyComplete,
    /// A success status for a fresh download, or a server that ignored the
    /// range: (re)write the file from the start.
    Restart,
    /// Any other status: fail.
    HttpError,
}

pub fn resume_action(resume_from: u64, status: u16) -> (a: ResumeAction)
    ensures
        a == if resume_from > 0 && status == 206 {
            ResumeAction::Append
        } else if resume_from > 0 && status == 416 {
            ResumeAction::AlreadyComplete
        } else if 200 <= status && status <= 299 {
            ResumeAction::Restart
        } else {
            ResumeAction::HttpError
        },
{
    if resume_from > 0 && status == 206 {
        ResumeAction::Append
    } else if resume_from > 0 && status == 416 {
        ResumeAction::AlreadyComplete
    } else if 200 <= status && status <= 299 {
        ResumeAction::Restart
    } else {
        ResumeAction::HttpError
    }
}

/// The `Range` header of a download that resumes after `resume_from` bytes
/// already on disk (`bytes=N-`); a fresh download sends none.
pub fn range_header(resume_from: u64) -> (r: Option<String>)
    ensures
        match r {
            Some(h) => resume_from > 0 && h@ == "bytes="@ + decimal(resume_from as nat) + "-"@,
            None => resume_from == 0,
        },
{
    if resume_from > 0 {
        let mut v = chars_of("bytes=");
        push_decimal(&mut v, resume_from);
        push_str_chars(&mut v, "-");
        Some(string_from_chars(&v))
    } else {
        None
    }
}

/// How a playing source that ran dry ended: a mid-stream download failure
/// interrupts that episode (its position is kept, it is not marked played and
/// the stream may be reopened), anything else is a natural completion.
#[derive(Debug, Clone, Copy, PartialEq, Eq, Structural)]
pub enum RunDryEnd {
    Completed { episode_id: u128 },
    Interrupted { episode_id: u128 },
}

pub fn run_dry_event(episode_id: u128, failed: bool) -> (e: RunDryEnd)
    ensures
        e == (if failed {
            RunDryEnd::Interrupted { episode_id }
        } else {
            RunDryEnd::Completed { episode_id }
        }),
{
    if failed {
        RunDryEnd::Interrupted { episode_id }
    } else {
        RunDryEnd::Completed { episode_id }
    }
}


// ---------------------------------------------------------------------------
// Laws.

/// A read of the growing file never goes past the downloaded frontier nor
/// the caller's buffer, makes progress whenever both have room, and reports
/// end of file only once everything downloaded has been read.
pub proof fn lemma_read_within_frontier(pos: u64, downloaded: u64, complete: bool, failed: bool, buf_len: usize, r: ReadStep)
    requires
        r == if pos < downloaded {
            ReadStep::Read(
                if (buf_len as int) < downloaded - pos {
                    buf_len
                } else {
                    (downloaded - pos) as usize
                },
            )
        } else if complete {
            ReadStep::EndOfFile
        } else if failed {
            ReadStep::Failed
        } else {
            ReadStep::Wait
        },
    ensures
        r matches ReadStep::Read(n) ==> n <= buf_len && pos + n <= downloaded,
        r matches ReadStep::Read(n) ==> (buf_len > 0 ==> n > 0),
        r == ReadStep::EndOfFile ==> complete && pos >= downloaded,
{
}

/// Playback never waits for more than the prebuffer, nor for more than the
/// whole file when its size is known.
pub proof fn lemma_prebuffer_target_bounded(total: u64)
    ensures
        prebuffer_target(total) <= PREBUFFER_BYTES,
        total > 0 ==> prebuffer_target(total) <= total,
        prebuffer_target(total) > 0,
{
}

} // verus!
