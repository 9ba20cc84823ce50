//! One call of `download` as a state machine: the caller performs each
//! action (a file operation, a request, a pause) and hands back what came of
//! it; the session decides the next action, up to a final result.
use vstd::prelude::*;
use vstd::arithmetic::power2::pow2;
use crate::downloader::{
    after_probe, classify_response, contention_line, plan, plan_of, probe_range, range_from,
    range_value, recover, sampled, total_of, progress_line_of, short_title_of, Downloader,
    LocalFiles, Plan, ProbeVerdict, Recovery, SpeedSampler, MAX_RETRIES,
};
use crate::error::DownloadError;
use crate::headers::{authoritative_size, probe_size};
use crate::text::push_all;

verus! {

/// Where a session stands.
#[derive(Clone, Copy, Debug, PartialEq, Eq, Structural)]
pub enum Stage {
    /// Waiting for the lengths of the local files.
    Inspect,
    /// Deleting a stale `.part` file before probing.
    Discarding { final_len: u64 },
    /// Waiting for the probe's headers.
    Probing { final_len: u64 },
    /// Renaming the destination to the `.part` file.
    Renaming { existing_len: u64 },
    /// Waiting for the status of the transfer's answer.
    Requesting { existing_len: u64 },
    /// Taking the lock and opening the `.part` file for appending.
    Locking { existing_len: u64, total: Option<u64> },
    /// Receiving the body.
    Streaming { downloaded: u64, total: Option<u64> },
    /// Renaming the `.part` file to the destination and removing the lock.
    Finalizing,
    /// Pausing before the next attempt.
    Waiting,
    /// Renaming the `.part` file, if there is one, to the destination after 416.
    FinalizingPartial,
    /// Finished.
    Done,
}

/// What the caller reports back after performing an action.
#[derive(Debug)]
pub enum Event {
    /// The lengths of the destination and of its `.part` file, where present.
    Local(LocalFiles),
    /// The values of the probe answer's `Content-Range` and `Content-Length`.
    Probed { content_range: Option<String>, content_length: Option<String> },
    /// The status and body length of the transfer's answer.
    Answer { status: u16, content_length: Option<u64> },
    /// Whether the lock was taken (and the `.part` file opened), at `now_ms`.
    Locked { acquired: bool, now_ms: u64 },
    /// A chunk of `len` bytes was appended to the `.part` file at `now_ms`.
    Chunk { len: u64, now_ms: u64 },
    /// The body ended.
    StreamEnd,
    /// The file operation or pause asked for was done.
    Completed,
    /// The action failed.
    Failed(DownloadError),
}

/// What the caller does next.
#[derive(Debug)]
pub enum Action {
    /// Measure the destination and its `.part` file.
    Inspect,
    /// Delete the `.part` file.
    DeletePart,
    /// Send the size probe with this `Range` header.
    Probe { range: String },
    /// Rename the destination to the `.part` file.
    RenameFinalToPart,
    /// Send the transfer request, with this `Range` header if any.
    Request { range: Option<String> },
    /// Take the lock without waiting and open the `.part` file for appending.
    LockAndOpen,
    /// Show `report` on the progress track, if any, then append the next chunk.
    ReadChunk { report: Option<String> },
    /// Rename the `.part` file to the destination, then remove the lock file.
    Finalize,
    /// Rename the `.part` file to the destination, if it exists.
    FinalizePartial,
    /// Pause this many seconds.
    Sleep { seconds: u64 },
    /// Show `report` if any, and end with `result`.
    Finish { report: Option<String>, result: Result<(), DownloadError> },
}

/// The state of one call of `download`.
pub struct Session {
    stage: Stage,
    failures: u32,
    sampler: SpeedSampler,
}

/// Whether `event` answers the action that a session in `stage` asked for.
pub open spec fn answers(stage: Stage, event: Event) -> bool {
    match stage {
        Stage::Inspect => event is Local,
        Stage::Probing { .. } => event is Probed,
        Stage::Requesting { .. } => event is Answer,
        Stage::Locking { .. } => event is Locked,
        Stage::Streaming { .. } => event is Chunk || event is StreamEnd,
        Stage::Done => false,
        _ => event is Completed,
    }
}

/// An action that ends the session with success and shows nothing.
pub open spec fn is_quiet_success(a: Action) -> bool {
    a matches Action::Finish { report: None, result: Ok(()) }
}

impl Session {
    pub closed spec fn spec_stage(&self) -> Stage {
        self.stage
    }

    /// Failed attempts so far.
    pub closed spec fn spec_failures(&self) -> u32 {
        self.failures
    }

    /// The speed window while streaming.
    pub closed spec fn spec_window(&self) -> (nat, nat, Seq<char>) {
        self.sampler@
    }

    pub closed spec fn wf(&self) -> bool {
        &&& self.failures <= MAX_RETRIES
        &&& self.stage matches Stage::Streaming { downloaded, .. } ==> self.sampler@.0
            <= downloaded
    }

    /// What follows the failure `e` of an attempt after `failures` earlier
    /// ones: 416 finalizes the `.part` file, an unsupported server ends with
    /// success, other failures pause `2^n` seconds (n = failures + 1) until
    /// the pauses run out, and then end with `e`.
    pub open spec fn fails_to(failures: u32, e: DownloadError, next: Session, a: Action) -> bool {
        &&& next.wf()
        &&& e is RangeNotSatisfiable ==> next.spec_stage() == Stage::FinalizingPartial
            && a is FinalizePartial
        &&& e is UnsupportedServer ==> next.spec_stage() == Stage::Done && is_quiet_success(a)
        &&& e.spec_is_retryable() && failures < MAX_RETRIES ==> next.spec_stage() == Stage::Waiting
            && next.spec_failures() == failures + 1 && (a matches Action::Sleep { seconds }
            && seconds == pow2((failures + 1) as nat))
        &&& e.spec_is_retryable() && failures >= MAX_RETRIES ==> next.spec_stage() == Stage::Done
            && a == (Action::Finish { report: None, result: Err(e) })
    }

    /// The session at its start, and the first action: measure the local files.
    pub fn new() -> (r: (Session, Action))
        ensures
            r.0.wf(),
            r.0.spec_stage() == Stage::Inspect,
            r.0.spec_failures() == 0,
            r.1 is Inspect,
    {
        (Session { stage: Stage::Inspect, failures: 0, sampler: SpeedSampler::new(0) }, Action::Inspect)
    }

    /// The stage the session is in.
    pub fn stage(&self) -> (r: Stage)
        ensures
            r == self.spec_stage(),
    {
        self.stage
    }

    /// Failed attempts so far.
    pub fn failures(&self) -> (r: u32)
        ensures
            r == self.spec_failures(),
    {
        self.failures
    }

    fn fail(&mut self, e: DownloadError) -> (a: Action)
        requires
            old(self).wf(),
        ensures
            Self::fails_to(old(self).spec_failures(), e, *final(self), a),
    {
        match recover(self.failures, e) {
            Recovery::FinalizePartial => {
                self.stage = Stage::FinalizingPartial;
                Action::FinalizePartial
            },
            Recovery::Finish => {
                self.stage = Stage::Done;
                Action::Finish { report: None, result: Ok(()) }
            },
            Recovery::Wait { attempt, seconds } => {
                self.stage = Stage::Waiting;
                self.failures = attempt;
                Action::Sleep { seconds }
            },
            Recovery::GiveUp(e) => {
                self.stage = Stage::Done;
                Action::Finish { report: None, result: Err(e) }
            },
        }
    }

    fn request(&mut self, existing_len: u64) -> (a: Action)
        requires
            old(self).wf(),
        ensures
            final(self).wf(),
            final(self).spec_failures() == old(self).spec_failures(),
            final(self).spec_stage() == (Stage::Requesting { existing_len }),
            a matches Action::Request { range } && (existing_len == 0 ==> range is None) && (
            existing_len > 0 ==> (range matches Some(v) && v@ == range_from(existing_len as nat))),
    {
        self.stage = Stage::Requesting { existing_len };
        Action::Request { range: range_value(existing_len) }
    }

    /// Takes the outcome of the last action and gives the next one.
    ///
    /// An event that does not answer the last action ends the session with
    /// `InvalidResponse`.
    #[verifier::rlimit(40)]
    pub fn step(&mut self, d: &Downloader, event: Event) -> (a: Action)
        requires
            old(self).wf(),
        ensures
            final(self).wf(),
            old(self).spec_stage() is Inspect ==> (event matches Event::Local(l) ==> match plan_of(l) {
                Plan::Fresh => final(self).spec_stage() == (Stage::Requesting { existing_len: 0 })
                    && (a matches Action::Request { range } && range is None),
                Plan::Resume { existing_len } => final(self).spec_stage() == (Stage::Requesting {
                    existing_len,
                }) && (a matches Action::Request { range } && (existing_len == 0 ==> range is None)
                    && (existing_len > 0 ==> (range matches Some(v) && v@ == range_from(
                    existing_len as nat,
                )))),
                Plan::Probe { discard_part, final_len } => if discard_part {
                    final(self).spec_stage() == (Stage::Discarding { final_len }) && a is DeletePart
                } else {
                    final(self).spec_stage() == (Stage::Probing { final_len }) && (a matches Action::Probe {
                        range,
                    } && range@ == "bytes=0-0"@)
                },
            }),
            old(self).spec_stage() matches Stage::Discarding { final_len } ==> (event is Completed
                ==> final(self).spec_stage() == (Stage::Probing { final_len }) && (a matches Action::Probe {
                range,
            } && range@ == "bytes=0-0"@)),
            old(self).spec_stage() matches Stage::Probing { final_len } ==> (event matches Event::Probed {
                content_range,
                content_length,
            } ==> ({
                let size = authoritative_size(
                    match content_range { Some(v) => Some(v@), None => None },
                    match content_length { Some(v) => Some(v@), None => None },
                );
                &&& size is None ==> Self::fails_to(
                    old(self).spec_failures(),
                    DownloadError::UnsupportedServer,
                    *final(self),
                    a,
                )
                &&& size == Some(final_len) ==> final(self).spec_stage() == Stage::Done && (a matches Action::Finish {
                    report: Some(r),
                    result: Ok(()),
                } && r@ == "File already complete: "@ + short_title_of(d.spec_title())
                    + " \u{2014} skipping download"@)
                &&& (size is Some && size != Some(final_len)) ==> final(self).spec_stage() == (Stage::Renaming {
                    existing_len: final_len,
                }) && a is RenameFinalToPart
            })),
            old(self).spec_stage() matches Stage::Renaming { existing_len } ==> (event is Completed
                ==> final(self).spec_stage() == (Stage::Requesting { existing_len }) && (a matches Action::Request {
                range,
            } && (existing_len == 0 ==> range is None) && (existing_len > 0 ==> (range matches Some(
                v,
            ) && v@ == range_from(existing_len as nat))))),
            old(self).spec_stage() matches Stage::Requesting { existing_len } ==> (event matches Event::Answer {
                status,
                content_length,
            } ==> {
                &&& status == 416 ==> Self::fails_to(
                    old(self).spec_failures(),
                    DownloadError::RangeNotSatisfiable,
                    *final(self),
                    a,
                )
                &&& (status != 416 && !(200 <= status <= 299)) ==> (exists|e: DownloadError|
                    e is Http && #[trigger] Self::fails_to(old(self).spec_failures(), e, *final(self), a))
                &&& 200 <= status <= 299 ==> final(self).spec_stage() == (Stage::Locking {
                    existing_len,
                    total: total_of(content_length, existing_len),
                }) && a is LockAndOpen
            }),
            old(self).spec_stage() matches Stage::Locking { existing_len, total } ==> (event matches Event::Locked {
                acquired,
                now_ms,
            } ==> if acquired {
                final(self).spec_stage() == (Stage::Streaming { downloaded: existing_len, total })
                    && final(self).spec_window() == (0nat, now_ms as nat, Seq::<char>::empty())
                    && (a matches Action::ReadChunk { report } && report is None)
            } else {
                final(self).spec_stage() == Stage::Done && (a matches Action::Finish {
                    report: Some(r),
                    result: Ok(()),
                } && r@ == "Another instance is downloading \u{2014} aborting"@)
            }),
            old(self).spec_stage() matches Stage::Streaming { downloaded, total } ==> (event matches Event::Chunk {
                len,
                now_ms,
            } ==> (downloaded + len <= u64::MAX ==> {
                &&& final(self).spec_stage() == (Stage::Streaming {
                    downloaded: (downloaded + len) as u64,
                    total,
                })
                &&& final(self).spec_window() == sampled(
                    old(self).spec_window(),
                    len as nat,
                    now_ms as nat,
                )
                &&& a matches Action::ReadChunk { report } && (report matches Some(r) && r@
                    == progress_line_of(
                    d.spec_title(),
                    (downloaded + len) as nat,
                    total,
                    final(self).spec_window().2,
                ))
            })),
            old(self).spec_stage() is Streaming ==> (event is StreamEnd ==> final(self).spec_stage()
                == Stage::Finalizing && a is Finalize),
            old(self).spec_stage() is Finalizing ==> (event is Completed ==> final(self).spec_stage()
                == Stage::Done && is_quiet_success(a)),
            old(self).spec_stage() is Waiting ==> (event is Completed ==> final(self).spec_stage()
                == Stage::Inspect && a is Inspect),
            old(self).spec_stage() is FinalizingPartial ==> (event is Completed
                ==> final(self).spec_stage() == Stage::Done && is_quiet_success(a)),
            (old(self).spec_stage() is Inspect || old(self).spec_stage() is Discarding
                || old(self).spec_stage() is Probing || old(self).spec_stage() is Renaming
                || old(self).spec_stage() is Requesting || old(self).spec_stage() is Locking
                || old(self).spec_stage() is Streaming || old(self).spec_stage() is Finalizing) ==> (
            event matches Event::Failed(e) ==> Self::fails_to(
                old(self).spec_failures(),
                e,
                *final(self),
                a,
            )),
            old(self).spec_stage() is Done ==> final(self).spec_stage() is Done && a is Finish,
            !(old(self).spec_stage() is Done) && !(event is Failed) && !answers(
                old(self).spec_stage(),
                event,
            ) ==> final(self).spec_stage() is Done && (a matches Action::Finish {
                report: None,
                result: Err(e),
            } && e is InvalidResponse),
            old(self).spec_stage() matches Stage::Streaming { downloaded, .. } ==> (event matches Event::Chunk {
                len,
                ..
            } ==> (downloaded + len > u64::MAX ==> (exists|e: DownloadError|
                e is InvalidResponse && #[trigger] Self::fails_to(
                    old(self).spec_failures(),
                    e,
                    *final(self),
                    a,
                )))),
            final(self).spec_stage() is Streaming ==> old(self).spec_stage() is Streaming || (old(
                self,
            ).spec_stage() is Locking && (event matches Event::Locked { acquired, .. } && acquired)),
            a is ReadChunk ==> final(self).spec_stage() is Streaming,
            a matches Action::Finish { result: Ok(()), .. } ==> final(self).spec_stage() is Done && (
            (old(self).spec_stage() is Finalizing && event is Completed) || (old(
                self,
            ).spec_stage() is FinalizingPartial && event is Completed) || (old(self).spec_stage() is Probing
                && event is Probed) || (old(self).spec_stage() is Locking && (event matches Event::Locked {
                acquired,
                ..
            } && !acquired)) || (event matches Event::Failed(e) && e is UnsupportedServer)),
    {
        let stage = self.stage;
        match (stage, event) {
            (Stage::Inspect, Event::Local(l)) => match plan(l) {
                Plan::Fresh => self.request(0),
                Plan::Resume { existing_len } => self.request(existing_len),
                Plan::Probe { discard_part, final_len } => {
                    if discard_part {
                        self.stage = Stage::Discarding { final_len };
                        Action::DeletePart
                    } else {
                        self.stage = Stage::Probing { final_len };
                        Action::Probe { range: probe_range() }
                    }
                },
            },
            (Stage::Discarding { final_len }, Event::Completed) => {
                self.stage = Stage::Probing { final_len };
                Action::Probe { range: probe_range() }
            },
            (Stage::Probing { final_len }, Event::Probed { content_range, content_length }) => {
                let cr = match &content_range {
                    Some(v) => Some(v.as_str()),
                    None => None,
                };
                let cl = match &content_length {
                    Some(v) => Some(v.as_str()),
                    None => None,
                };
                let size = probe_size(cr, cl);
                match after_probe(final_len, size) {
                    Err(e) => self.fail(e),
                    Ok(ProbeVerdict::AlreadyComplete) => {
                        self.stage = Stage::Done;
                        Action::Finish { report: Some(d.complete_line()), result: Ok(()) }
                    },
                    Ok(ProbeVerdict::ResumeFromFinal { existing_len }) => {
                        self.stage = Stage::Renaming { existing_len };
                        Action::RenameFinalToPart
                    },
                }
            },
            (Stage::Renaming { existing_len }, Event::Completed) => self.request(existing_len),
            (Stage::Requesting { existing_len }, Event::Answer { status, content_length }) => {
                match classify_response(status, content_length, existing_len) {
                    Err(e) => self.fail(e),
                    Ok(total) => {
                        self.stage = Stage::Locking { existing_len, total };
                        Action::LockAndOpen
                    },
                }
            },
            (Stage::Locking { existing_len, total }, Event::Locked { acquired, now_ms }) => {
                if acquired {
                    self.sampler = SpeedSampler::new(now_ms);
                    self.stage = Stage::Streaming { downloaded: existing_len, total };
                    Action::ReadChunk { report: None }
                } else {
                    self.stage = Stage::Done;
                    Action::Finish { report: Some(contention_line()), result: Ok(()) }
                }
            },
            (Stage::Streaming { downloaded, total }, Event::Chunk { len, now_ms }) => {
                if len > u64::MAX - downloaded {
                    let mut m = String::new();
                    push_all(&mut m, "body longer than the largest length");
                    self.fail(DownloadError::InvalidResponse(m))
                } else {
                    let now = downloaded + len;
                    self.sampler.on_chunk(len, now_ms);
                    self.stage = Stage::Streaming { downloaded: now, total };
                    let line = d.progress_line(now, total, self.sampler.suffix());
                    Action::ReadChunk { report: Some(line) }
                }
            },
            (Stage::Streaming { .. }, Event::StreamEnd) => {
                self.stage = Stage::Finalizing;
                Action::Finalize
            },
            (Stage::Finalizing, Event::Completed) => {
                self.stage = Stage::Done;
                Action::Finish { report: None, result: Ok(()) }
            },
            (Stage::Waiting, Event::Completed) => {
                self.stage = Stage::Inspect;
                Action::Inspect
            },
            (Stage::FinalizingPartial, Event::Completed) => {
                self.stage = Stage::Done;
                Action::Finish { report: None, result: Ok(()) }
            },
            (Stage::Waiting, Event::Failed(e)) | (Stage::FinalizingPartial, Event::Failed(e)) | (
                Stage::Done,
                Event::Failed(e),
            ) => {
                self.stage = Stage::Done;
                Action::Finish { report: None, result: Err(e) }
            },
            (Stage::Done, _) => {
                let mut m = String::new();
                push_all(&mut m, "the download has already finished");
                Action::Finish { report: None, result: Err(DownloadError::InvalidResponse(m)) }
            },
            (_, Event::Failed(e)) => self.fail(e),
            _ => {
                let mut m = String::new();
                push_all(&mut m, "event does not answer the last action");
                self.stage = Stage::Done;
                Action::Finish { report: None, result: Err(DownloadError::InvalidResponse(m)) }
            },
        }
    }
}

} // verus!
