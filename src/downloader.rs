//! The decisions of one resumable download: how local files are reconciled
//! with the remote size, what is requested, how answers and failures are
//! read, what progress is reported, and the names of the side files.
//!
//! The caller performs each step (a request, a rename, a pause) and hands the
//! outcome back; every choice between steps is made here.
use vstd::prelude::*;
use crate::error::DownloadError;
use crate::headers::last_index_of;
use crate::text::{
    cut_to_visible, cut_visible, digit_char, hundredths, push_all, push_char, push_decimal,
    push_hundredths, visible_len, visible_width, decimal, lemma_cut_is_prefix, lemma_width_push,
    MODE_TEXT,
};
use crate::headers::find_last;
use vstd::arithmetic::power2::{
    lemma2_to64, lemma_pow2_strictly_increases, lemma_pow2_unfold, pow2,
};

verus! {

/// Number of pauses allowed before the last failure is surfaced.
pub const MAX_RETRIES: u32 = 5;

/// Visible characters of a title in a progress line.
pub const TITLE_WIDTH: usize = 30;

/// One download: where from, under which label, into which file, and on which
/// progress track, if any.
pub struct Downloader {
    url: String,
    title: String,
    output_path: String,
    track: Option<usize>,
}

/// The MD5 digest of the UTF-8 bytes of a text.
pub uninterp spec fn md5_of_text(t: Seq<char>) -> Seq<u8>;

/// Relies on `md5::compute`: the digest of the text's UTF-8 bytes, whose
/// sixteen bytes the crate returns as `Digest([u8; 16])`.
#[verifier::external_body]
fn md5_digest(t: &str) -> (r: Vec<u8>)
    ensures
        r@ == md5_of_text(t@),
        r@.len() == 16,
{
    md5::compute(t.as_bytes()).0.to_vec()
}

/// The lower-case hexadecimal digit of `n`.
pub open spec fn hex_char(n: nat) -> char {
    if n < 10 { digit_char(n) }
    else if n == 10 { 'a' }
    else if n == 11 { 'b' }
    else if n == 12 { 'c' }
    else if n == 13 { 'd' }
    else if n == 14 { 'e' }
    else { 'f' }
}

/// Bytes written as lower-case hexadecimal, two digits each.
pub open spec fn hex_of(b: Seq<u8>) -> Seq<char>
    decreases b.len(),
{
    if b.len() == 0 {
        seq![]
    } else {
        hex_of(b.drop_last()).push(hex_char((b.last() / 16) as nat)).push(
            hex_char((b.last() % 16) as nat),
        )
    }
}

fn hex_digit(n: u8) -> (c: char)
    requires
        n < 16,
    ensures
        c == hex_char(n as nat),
{
    if n < 10 {
        if n == 0 { '0' }
        else if n == 1 { '1' }
        else if n == 2 { '2' }
        else if n == 3 { '3' }
        else if n == 4 { '4' }
        else if n == 5 { '5' }
        else if n == 6 { '6' }
        else if n == 7 { '7' }
        else if n == 8 { '8' }
        else { '9' }
    }
    else if n == 10 { 'a' }
    else if n == 11 { 'b' }
    else if n == 12 { 'c' }
    else if n == 13 { 'd' }
    else if n == 14 { 'e' }
    else { 'f' }
}

fn push_hex(out: &mut String, b: &Vec<u8>)
    ensures
        final(out)@ == old(out)@ + hex_of(b@),
{
    let mut i: usize = 0;
    while i < b.len()
        invariant
            i <= b@.len(),
            out@ == old(out)@ + hex_of(b@.subrange(0, i as int)),
        decreases b@.len() - i,
    {
        let x = b[i];
        push_char(out, hex_digit(x / 16));
        push_char(out, hex_digit(x % 16));
        assert(b@.subrange(0, i + 1).drop_last() =~= b@.subrange(0, i as int));
        i = i + 1;
        assert(out@ =~= old(out)@ + hex_of(b@.subrange(0, i as int)));
    }
    assert(b@.subrange(0, b@.len() as int) =~= b@);
}

/// The staging file of a destination: its path followed by `.part`.
pub open spec fn temp_path_of(path: Seq<char>) -> Seq<char> {
    path + ".part"@
}

/// The directory part of a path, up to and including its last `/`.
pub open spec fn dir_part(path: Seq<char>) -> Seq<char> {
    path.subrange(0, last_index_of(path, '/') + 1)
}

/// The file name of a path, after its last `/`.
pub open spec fn base_part(path: Seq<char>) -> Seq<char> {
    path.subrange(last_index_of(path, '/') + 1, path.len() as int)
}

/// The lock file of a destination: a hidden file beside it,
/// `.<name>.<md5 of the path in hex>.lock`.
pub open spec fn lock_path_of(path: Seq<char>) -> Seq<char> {
    dir_part(path) + "."@ + base_part(path) + "."@ + hex_of(md5_of_text(path)) + ".lock"@
}

/// A title as shown in progress lines: unchanged when its visible width is at
/// most 30, else its first 29 visible characters followed by `…`.
pub open spec fn short_title_of(t: Seq<char>) -> Seq<char> {
    if visible_width(t) <= TITLE_WIDTH {
        t
    } else {
        cut_visible(t, (TITLE_WIDTH - 1) as nat).push('\u{2026}')
    }
}

/// A title as shown is never wider than 30 visible characters.
pub proof fn law_short_title_width(t: Seq<char>)
    ensures
        visible_width(short_title_of(t)) <= TITLE_WIDTH,
{
    if visible_width(t) > TITLE_WIDTH {
        let c = cut_visible(t, (TITLE_WIDTH - 1) as nat);
        lemma_cut_is_prefix(t, 0, MODE_TEXT, (TITLE_WIDTH - 1) as nat);
        assert(t.subrange(0, c.len() as int) == c);
        lemma_width_push(c, '\u{2026}', 0, MODE_TEXT);
    }
}

/// A title as shown in progress lines, at most 30 visible characters wide.
pub fn short_title(t: &str) -> (r: String)
    ensures
        r@ == short_title_of(t@),
{
    if visible_len(t) <= TITLE_WIDTH {
        let mut r = String::new();
        push_all(&mut r, t);
        assert(r@ =~= t@);
        r
    } else {
        let mut r = cut_to_visible(t, TITLE_WIDTH - 1);
        push_char(&mut r, '\u{2026}');
        r
    }
}

/// The local files of a destination when an attempt starts: the length of
/// the destination file and of its `.part` file, for those that exist.
#[derive(Clone, Copy, Debug, PartialEq, Eq, Structural)]
pub struct LocalFiles {
    pub final_len: Option<u64>,
    pub part_len: Option<u64>,
}

/// What to do first, given the local files.
#[derive(Clone, Copy, Debug, PartialEq, Eq, Structural)]
pub enum Plan {
    /// Nothing is there: download everything into the `.part` file.
    Fresh,
    /// Only the `.part` file is there: request the bytes after it.
    Resume { existing_len: u64 },
    /// The destination is there: delete the `.part` file first when
    /// `discard_part` holds, then probe the remote size and compare it with
    /// `final_len`.
    Probe { discard_part: bool, final_len: u64 },
}

/// What a size probe decides for a destination file that exists.
#[derive(Clone, Copy, Debug, PartialEq, Eq, Structural)]
pub enum ProbeVerdict {
    /// Its length is the remote size: nothing is transferred.
    AlreadyComplete,
    /// Rename it to the `.part` file and resume after its `existing_len` bytes.
    ResumeFromFinal { existing_len: u64 },
}

/// How the download goes on after an attempt failed.
#[derive(Debug)]
pub enum Recovery {
    /// The server answered 416: rename the `.part` file, if there is one, to
    /// the destination and end with success.
    FinalizePartial,
    /// End with success and touch nothing.
    Finish,
    /// Pause `seconds` seconds, then make attempt number `attempt + 1`.
    Wait { attempt: u32, seconds: u64 },
    /// End with this failure.
    GiveUp(DownloadError),
}

pub open spec fn plan_of(local: LocalFiles) -> Plan {
    match local.final_len {
        Some(f) => Plan::Probe { discard_part: local.part_len is Some, final_len: f },
        None => match local.part_len {
            Some(p) => Plan::Resume { existing_len: p },
            None => Plan::Fresh,
        },
    }
}

/// The value of a `Range` header that asks for the bytes from `from` on.
pub open spec fn range_from(from: nat) -> Seq<char> {
    "bytes="@ + decimal(from) + "-"@
}

/// The total size of a successful answer: its length plus the bytes already
/// held, when the length is known and the sum fits.
pub open spec fn total_of(content_length: Option<u64>, existing_len: u64) -> Option<u64> {
    match content_length {
        Some(c) => if c + existing_len <= u64::MAX {
            Some((c + existing_len) as u64)
        } else {
            None
        },
        None => None,
    }
}

/// Bytes in mebibytes, in hundredths, rounded half up.
pub open spec fn mb_hundredths(bytes: nat) -> nat {
    (bytes * 100 + 524288) / 1048576
}

/// `done` out of `total`, in hundredths of a percent, rounded half up.
pub open spec fn percent_hundredths(done: nat, total: nat) -> nat
    recommends
        total > 0,
{
    (done * 10000 + total / 2) / total
}

/// Mebibytes per second, in hundredths, rounded half up, for `bytes`
/// received over `elapsed_ms` milliseconds.
pub open spec fn speed_hundredths(bytes: nat, elapsed_ms: nat) -> nat
    recommends
        elapsed_ms > 0,
{
    (bytes * 100000 + elapsed_ms * 1048576 / 2) / (elapsed_ms * 1048576)
}

/// The speed part of a progress line: ` | X.XX MB/s`.
pub open spec fn speed_suffix_of(bytes: nat, elapsed_ms: nat) -> Seq<char> {
    " | "@ + hundredths(speed_hundredths(bytes, elapsed_ms)) + " MB/s"@
}

/// The progress line after `downloaded` bytes: with the total and a
/// percentage when the total is known and not zero, else the count alone;
/// `speed` is the latest speed part.
pub open spec fn progress_line_of(
    title: Seq<char>,
    downloaded: nat,
    total: Option<u64>,
    speed: Seq<char>,
) -> Seq<char> {
    let known = match total {
        Some(t) => t > 0,
        None => false,
    };
    let t = match total {
        Some(t) => t as nat,
        None => 0,
    };
    if known {
        "Downloading "@ + short_title_of(title) + ": "@ + hundredths(mb_hundredths(downloaded))
            + " MB / "@ + hundredths(mb_hundredths(t)) + " MB ("@ + hundredths(
            percent_hundredths(downloaded, t),
        ) + "%)"@ + speed
    } else {
        "Downloaded "@ + short_title_of(title) + ": "@ + hundredths(mb_hundredths(downloaded))
            + " MB"@ + speed
    }
}

/// Decides the first step of an attempt from the local files: fresh when
/// none is there, resume after the `.part` file when only it is there, and a
/// size probe when the destination is there (with the `.part` file, if any,
/// deleted as stale).
pub fn plan(local: LocalFiles) -> (r: Plan)
    ensures
        r == plan_of(local),
{
    match local.final_len {
        Some(f) => Plan::Probe { discard_part: local.part_len.is_some(), final_len: f },
        None => match local.part_len {
            Some(p) => Plan::Resume { existing_len: p },
            None => Plan::Fresh,
        },
    }
}

/// Reads a size probe for a destination file of `final_len` bytes: no size
/// fails with `UnsupportedServer`; a size equal to `final_len` means the file
/// is complete; any other size means resuming after the file's bytes.
pub fn after_probe(final_len: u64, remote: Option<u64>) -> (r: Result<ProbeVerdict, DownloadError>)
    ensures
        remote is None <==> (r matches Err(e) && e is UnsupportedServer),
        remote is None ==> r is Err,
        remote == Some(final_len) <==> r == Ok::<ProbeVerdict, DownloadError>(
            ProbeVerdict::AlreadyComplete,
        ),
        (remote is Some && remote != Some(final_len)) <==> r == Ok::<ProbeVerdict, DownloadError>(
            ProbeVerdict::ResumeFromFinal { existing_len: final_len },
        ),
{
    match remote {
        None => Err(DownloadError::UnsupportedServer),
        Some(n) => if n == final_len {
            Ok(ProbeVerdict::AlreadyComplete)
        } else {
            Ok(ProbeVerdict::ResumeFromFinal { existing_len: final_len })
        },
    }
}

/// The `Range` header of the size probe: `bytes=0-0`.
pub fn probe_range() -> (r: String)
    ensures
        r@ == "bytes=0-0"@,
{
    let mut r = String::new();
    push_all(&mut r, "bytes=0-0");
    r
}

/// The `Range` header of the transfer: none from the start, else
/// `bytes=<existing_len>-`.
pub fn range_value(existing_len: u64) -> (r: Option<String>)
    ensures
        existing_len == 0 ==> r is None,
        existing_len > 0 ==> (r matches Some(v) && v@ == range_from(existing_len as nat)),
{
    if existing_len == 0 {
        None
    } else {
        let mut r = String::new();
        push_all(&mut r, "bytes=");
        push_decimal(&mut r, existing_len as u128);
        push_all(&mut r, "-");
        Some(r)
    }
}

/// Reads the status of the transfer's answer: 416 fails with
/// `RangeNotSatisfiable`, any other status outside 200..=299 with `Http`;
/// a success gives the total size, when it is known.
pub fn classify_response(status: u16, content_length: Option<u64>, existing_len: u64) -> (r: Result<
    Option<u64>,
    DownloadError,
>)
    ensures
        status == 416 <==> (r matches Err(e) && e is RangeNotSatisfiable),
        (status != 416 && !(200 <= status <= 299)) <==> (r matches Err(e) && e is Http),
        200 <= status <= 299 <==> r == Ok::<Option<u64>, DownloadError>(
            total_of(content_length, existing_len),
        ),
{
    if status == 416 {
        Err(DownloadError::RangeNotSatisfiable)
    } else if status < 200 || status > 299 {
        let mut d = String::new();
        push_all(&mut d, "status ");
        push_decimal(&mut d, status as u128);
        Err(DownloadError::Http(d))
    } else {
        match content_length {
            Some(c) => if c <= u64::MAX - existing_len {
                Ok(Some(c + existing_len))
            } else {
                Ok(None)
            },
            None => Ok(None),
        }
    }
}

/// `2^attempt`.
pub fn backoff_secs(attempt: u32) -> (r: u64)
    requires
        attempt < 64,
    ensures
        r == pow2(attempt as nat),
{
    let mut r: u64 = 1;
    let mut i: u32 = 0;
    proof {
        lemma2_to64();
    }
    while i < attempt
        invariant
            i <= attempt < 64,
            r == pow2(i as nat),
            pow2(64) == 0x1_0000_0000_0000_0000,
        decreases attempt - i,
    {
        proof {
            lemma_pow2_unfold((i + 1) as nat);
            if i + 1 < 64 {
                lemma_pow2_strictly_increases((i + 1) as nat, 64);
            }
        }
        r = r * 2;
        i = i + 1;
    }
    r
}

/// Decides what follows a failed attempt, after `failures` earlier failed
/// ones: 416 finalizes the `.part` file and succeeds, an unsupported server
/// succeeds with nothing done, and any other failure pauses `2^n` seconds
/// before the next attempt, where `n = failures + 1`, until more than
/// `MAX_RETRIES` pauses would be needed: then it gives up with that failure.
pub fn recover(failures: u32, err: DownloadError) -> (r: Recovery)
    requires
        failures <= MAX_RETRIES,
    ensures
        err is RangeNotSatisfiable <==> r is FinalizePartial,
        err is UnsupportedServer <==> r is Finish,
        err.spec_is_retryable() && failures < MAX_RETRIES ==> (r matches Recovery::Wait {
            attempt,
            seconds,
        } && attempt == failures + 1 && seconds == pow2(attempt as nat)),
        err.spec_is_retryable() && failures == MAX_RETRIES ==> r == Recovery::GiveUp(err),
{
    match err {
        DownloadError::RangeNotSatisfiable => Recovery::FinalizePartial,
        DownloadError::UnsupportedServer => Recovery::Finish,
        _ => {
            if failures < MAX_RETRIES {
                let attempt = failures + 1;
                Recovery::Wait { attempt, seconds: backoff_secs(attempt) }
            } else {
                Recovery::GiveUp(err)
            }
        },
    }
}

/// The sliding one-second window of the speed estimate.
pub struct SpeedSampler {
    window_bytes: u64,
    window_start_ms: u64,
    suffix: String,
}

/// Milliseconds of the speed window.
pub const SAMPLE_MS: u64 = 1000;

impl View for SpeedSampler {
    /// Bytes counted in the window, the instant the window opened, and the
    /// speed part of the latest sample (empty before the first).
    type V = (nat, nat, Seq<char>);

    closed spec fn view(&self) -> (nat, nat, Seq<char>) {
        (self.window_bytes as nat, self.window_start_ms as nat, self.suffix@)
    }
}

/// The window after a chunk of `len` bytes received at `now_ms`: when at
/// least one second has passed since the window opened, the speed over it
/// becomes the speed part and a new window opens at `now_ms`; else the bytes
/// are added to the window.
pub open spec fn sampled(w: (nat, nat, Seq<char>), len: nat, now_ms: nat) -> (nat, nat, Seq<char>) {
    if now_ms >= w.1 + SAMPLE_MS {
        (0nat, now_ms, speed_suffix_of(w.0 + len, (now_ms - w.1) as nat))
    } else {
        (w.0 + len, w.1, w.2)
    }
}

impl SpeedSampler {
    /// A window opened at `now_ms`, with no sample yet.
    pub fn new(now_ms: u64) -> (r: SpeedSampler)
        ensures
            r@ == (0nat, now_ms as nat, Seq::<char>::empty()),
    {
        SpeedSampler { window_bytes: 0, window_start_ms: now_ms, suffix: String::new() }
    }

    /// Counts a chunk of `len` bytes received at `now_ms`. When at least one
    /// second has passed since the window opened, the speed over the window
    /// becomes the new speed part and a new window opens at `now_ms`.
    pub fn on_chunk(&mut self, len: u64, now_ms: u64)
        requires
            old(self)@.0 + len <= u64::MAX,
        ensures
            final(self)@ == sampled(old(self)@, len as nat, now_ms as nat),
    {
        let bytes = self.window_bytes + len;
        if now_ms >= self.window_start_ms && now_ms - self.window_start_ms >= SAMPLE_MS {
            let elapsed = now_ms - self.window_start_ms;
            let per = (elapsed as u128) * 1048576;
            let h = ((bytes as u128) * 100000 + per / 2) / per;
            let mut suffix = String::new();
            push_all(&mut suffix, " | ");
            push_hundredths(&mut suffix, h);
            push_all(&mut suffix, " MB/s");
            self.window_bytes = 0;
            self.window_start_ms = now_ms;
            self.suffix = suffix;
        } else {
            self.window_bytes = bytes;
        }
    }

    /// Bytes counted in the current window.
    pub fn window_bytes(&self) -> (r: u64)
        ensures
            r == self@.0,
    {
        self.window_bytes
    }

    /// The speed part of the latest sample, empty before the first.
    pub fn suffix(&self) -> (r: &str)
        ensures
            r@ == self@.2,
    {
        self.suffix.as_str()
    }
}

/// The message shown when another process holds the lock.
pub fn contention_line() -> (r: String)
    ensures
        r@ == "Another instance is downloading \u{2014} aborting"@,
{
    let mut r = String::new();
    push_all(&mut r, "Another instance is downloading \u{2014} aborting");
    r
}

/// Whether `p` is the beginning of `r`.
pub open spec fn is_prefix_of(p: Seq<u8>, r: Seq<u8>) -> bool {
    p.len() <= r.len() && p == r.subrange(0, p.len() as int)
}

/// The staging file after an attempt that requested the remote bytes from
/// `part.len()` on and appended the first `k` of them it received (all that
/// remain, at most).
pub open spec fn resumed(part: Seq<u8>, remote: Seq<u8>, k: nat) -> Seq<u8> {
    let end = if part.len() + k <= remote.len() { (part.len() + k) as int } else { remote.len() as int };
    part + remote.subrange(part.len() as int, end)
}

/// The staging file after a run of attempts, each resuming where the one
/// before stopped, that received `received[i]` bytes in turn.
pub open spec fn after_attempts(part: Seq<u8>, remote: Seq<u8>, received: Seq<nat>) -> Seq<u8>
    decreases received.len(),
{
    if received.len() == 0 {
        part
    } else {
        resumed(after_attempts(part, remote, received.drop_last()), remote, received.last())
    }
}

/// Resumption: starting from a staging file that holds the beginning of the
/// remote resource, any run of attempts that each request the bytes after
/// what is held leaves the beginning of the resource in the staging file, and
/// once the file is as long as the resource it is the resource.
pub proof fn law_resumption(part: Seq<u8>, remote: Seq<u8>, received: Seq<nat>)
    requires
        is_prefix_of(part, remote),
    ensures
        is_prefix_of(after_attempts(part, remote, received), remote),
        after_attempts(part, remote, received).len() == remote.len() ==> after_attempts(
            part,
            remote,
            received,
        ) == remote,
    decreases received.len(),
{
    if received.len() > 0 {
        law_resumption(part, remote, received.drop_last());
        let before = after_attempts(part, remote, received.drop_last());
        let after = after_attempts(part, remote, received);
        let k = received.last();
        let end = if before.len() + k <= remote.len() { (before.len() + k) as int } else { remote.len() as int };
        assert(after == before + remote.subrange(before.len() as int, end));
        assert(after =~= remote.subrange(0, end));
    }
    let a = after_attempts(part, remote, received);
    if a.len() == remote.len() {
        assert(remote.subrange(0, remote.len() as int) =~= remote);
    }
}

impl Downloader {
    pub closed spec fn spec_url(&self) -> Seq<char> {
        self.url@
    }

    pub closed spec fn spec_title(&self) -> Seq<char> {
        self.title@
    }

    pub closed spec fn spec_output_path(&self) -> Seq<char> {
        self.output_path@
    }

    pub closed spec fn spec_track(&self) -> Option<usize> {
        self.track
    }

    /// A download of `url` into `output_path`, labelled `title`, reporting on
    /// progress track `track` when one is given.
    pub fn new(url: &str, title: &str, output_path: &str, track: Option<usize>) -> (r: Downloader)
        ensures
            r.spec_url() == url@,
            r.spec_title() == title@,
            r.spec_output_path() == output_path@,
            r.spec_track() == track,
    {
        Downloader {
            url: url.to_owned(),
            title: title.to_owned(),
            output_path: output_path.to_owned(),
            track,
        }
    }

    pub fn url(&self) -> (r: &str)
        ensures
            r@ == self.spec_url(),
    {
        self.url.as_str()
    }

    pub fn title(&self) -> (r: &str)
        ensures
            r@ == self.spec_title(),
    {
        self.title.as_str()
    }

    /// The destination path.
    pub fn output_path(&self) -> (r: &str)
        ensures
            r@ == self.spec_output_path(),
    {
        self.output_path.as_str()
    }

    pub fn track(&self) -> (r: Option<usize>)
        ensures
            r == self.spec_track(),
    {
        self.track
    }

    /// The staging file that receives the bytes: the destination followed by
    /// `.part`.
    pub fn temp_path(&self) -> (r: String)
        ensures
            r@ == temp_path_of(self.spec_output_path()),
    {
        let mut r = String::new();
        push_all(&mut r, self.output_path.as_str());
        push_all(&mut r, ".part");
        r
    }

    /// The lock file beside the destination, named after the destination's
    /// file name and the MD5 of its whole path.
    pub fn lock_path(&self) -> (r: String)
        ensures
            r@ == lock_path_of(self.spec_output_path()),
    {
        let p = self.output_path.as_str();
        let n = p.unicode_len();
        let cut: usize = match find_last(p, '/') {
            Some(k) => k + 1,
            None => 0,
        };
        proof {
            crate::headers::lemma_last_index_range(p@, '/', n as int);
        }
        assert(cut as int == last_index_of(p@, '/') + 1);
        let digest = md5_digest(p);
        let mut r = String::new();
        push_all(&mut r, p.substring_char(0, cut));
        push_all(&mut r, ".");
        push_all(&mut r, p.substring_char(cut, n));
        push_all(&mut r, ".");
        push_hex(&mut r, &digest);
        push_all(&mut r, ".lock");
        assert(r@ =~= lock_path_of(self.spec_output_path()));
        r
    }
    /// The progress line after `downloaded` bytes of `total`, if known, with
    /// the latest speed part `speed`.
    pub fn progress_line(&self, downloaded: u64, total: Option<u64>, speed: &str) -> (r: String)
        ensures
            r@ == progress_line_of(self.spec_title(), downloaded as nat, total, speed@),
    {
        let title = short_title(self.title.as_str());
        let mut r = String::new();
        let d = downloaded as u128;
        let known = match total {
            Some(t) => t > 0,
            None => false,
        };
        if known {
            let t = match total {
                Some(t) => t as u128,
                None => 1,
            };
            push_all(&mut r, "Downloading ");
            push_all(&mut r, title.as_str());
            push_all(&mut r, ": ");
            push_hundredths(&mut r, (d * 100 + 524288) / 1048576);
            push_all(&mut r, " MB / ");
            push_hundredths(&mut r, (t * 100 + 524288) / 1048576);
            push_all(&mut r, " MB (");
            push_hundredths(&mut r, (d * 10000 + t / 2) / t);
            push_all(&mut r, "%)");
        } else {
            push_all(&mut r, "Downloaded ");
            push_all(&mut r, title.as_str());
            push_all(&mut r, ": ");
            push_hundredths(&mut r, (d * 100 + 524288) / 1048576);
            push_all(&mut r, " MB");
        }
        push_all(&mut r, speed);
        r
    }

    /// The message shown when the destination is already complete.
    pub fn complete_line(&self) -> (r: String)
        ensures
            r@ == "File already complete: "@ + short_title_of(self.spec_title())
                + " \u{2014} skipping download"@,
    {
        let title = short_title(self.title.as_str());
        let mut r = String::new();
        push_all(&mut r, "File already complete: ");
        push_all(&mut r, title.as_str());
        push_all(&mut r, " \u{2014} skipping download");
        r
    }
}

} // verus!
