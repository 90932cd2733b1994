//! The single-file upload engine: a state machine that decides between a
//! whole-file send and a resumable multipart upload, and drives the
//! declare / upload-part protocol with a bounded number of attempts. The
//! caller performs each action it returns and hands back the outcome.

use vstd::prelude::*;
use vstd::string::*;
use crate::config::MusicUploaderClientConfig;
use crate::error::MusicUploaderClientError;
use crate::hashing::{content_hash, sha256_hex_of};
use crate::parts::{
    ceil_div, lemma_planned_parts_in_bounds, lemma_resume_sends_exactly_missing, parts_in_file,
    plan_is_exact, remaining_parts, remaining_spans, PartSpan, MAX_PARTS,
};
use crate::text::{decimal_of, decimal_string};

verus! {

/// How many declare / upload-parts cycles a multipart upload may take.
pub const MAX_MULTIPART_UPLOAD_ATTEMPT: u8 = 2;

/// One track to upload: the name the server stores it under, and where its
/// bytes are on disk.
pub struct Song {
    pub song_name: String,
    pub path: String,
}

/// The server's answer to a declared multipart upload.
pub enum DeclareUploadResponse {
    /// The server already holds content with this hash.
    Complete,
    /// An upload session `key` exists; the server holds the parts in `received_parts`.
    Incomplete { key: String, declared_size: u32, part_size: u32, received_parts: Vec<u8> },
}

/// Where an upload stands.
pub enum UploadPhase {
    /// Nothing sent yet.
    Ready,
    /// The whole file was handed out to be sent.
    SendingWhole,
    /// A declare was handed out in attempt `attempt` (counted from 0).
    Declaring { attempt: u8 },
    /// Part `parts[next]` of session `key` was handed out in attempt `attempt`.
    SendingParts { attempt: u8, key: String, parts: Vec<PartSpan>, next: usize },
    /// The upload is over.
    Finished,
}

/// The mathematical form of an [`UploadPhase`].
pub ghost enum PhaseView {
    Ready,
    SendingWhole,
    Declaring { attempt: nat },
    SendingParts { attempt: nat, key: Seq<char>, parts: Seq<PartSpan>, next: nat },
    Finished,
}

impl View for UploadPhase {
    type V = PhaseView;

    open spec fn view(&self) -> PhaseView {
        match self {
            UploadPhase::Ready => PhaseView::Ready,
            UploadPhase::SendingWhole => PhaseView::SendingWhole,
            UploadPhase::Declaring { attempt } => PhaseView::Declaring { attempt: *attempt as nat },
            UploadPhase::SendingParts { attempt, key, parts, next } => PhaseView::SendingParts {
                attempt: *attempt as nat,
                key: key@,
                parts: parts@,
                next: *next as nat,
            },
            UploadPhase::Finished => PhaseView::Finished,
        }
    }
}

/// What happened to the last action handed out.
pub enum UploadEvent {
    /// Begin the upload.
    Start,
    /// The outcome of sending the whole file.
    WholeSent(Result<String, MusicUploaderClientError>),
    /// The outcome of a declare.
    Declared(Result<DeclareUploadResponse, MusicUploaderClientError>),
    /// The outcome of sending one part.
    PartSent(Result<String, MusicUploaderClientError>),
}

/// What the caller is to do next.
#[derive(Debug)]
pub enum UploadAction {
    /// Send the whole file, with its content hash, in one request.
    SendWhole,
    /// Declare a multipart upload of the file's content hash.
    Declare { part_size: u32, declared_size: u32 },
    /// Send `bytes` as part `index` of session `key`.
    UploadPart { key: String, index: u8, bytes: Vec<u8> },
    /// The upload is over, with this result.
    Done(Result<String, MusicUploaderClientError>),
}

/// The message of a multipart upload whose declare answered `Complete` in
/// attempt `attempt`.
pub open spec fn complete_message(attempt: nat) -> Seq<char> {
    if attempt == 0 {
        "Song already present"@
    } else {
        "Succeeded multipart upload on "@ + decimal_of(attempt) + " attempt"@
    }
}

/// The message of an upload that used up its attempts.
pub open spec fn exhausted_message() -> Seq<char> {
    "Could not upload after "@ + decimal_of(MAX_MULTIPART_UPLOAD_ATTEMPT as nat) + " attempts"@
}

/// The message of a file too long for its size to be declared.
pub open spec fn too_large_message() -> Seq<char> {
    "File is too large for a multipart upload"@
}

/// The upload ends with `result`.
pub open spec fn finishes(
    new_phase: PhaseView,
    action: UploadAction,
    result: Result<String, MusicUploaderClientError>,
) -> bool {
    new_phase == PhaseView::Finished && action == UploadAction::Done(result)
}

/// The upload ends with an `AlbumUploadFailure` whose message is `message`.
pub open spec fn fails_with(new_phase: PhaseView, action: UploadAction, message: Seq<char>) -> bool {
    &&& new_phase == PhaseView::Finished
    &&& action matches UploadAction::Done(Err(MusicUploaderClientError::AlbumUploadFailure(m))) && m@
        == message
}

/// Attempt `attempt` begins with a declare of the whole file.
pub open spec fn declares(
    attempt: nat,
    data: Seq<u8>,
    max_part: nat,
    new_phase: PhaseView,
    action: UploadAction,
) -> bool {
    &&& new_phase == PhaseView::Declaring { attempt }
    &&& action == UploadAction::Declare { part_size: max_part as u32, declared_size: data.len() as u32 }
}

/// Attempt `attempt` ended with every part sent: declare again if attempts
/// remain, else fail as exhausted.
pub open spec fn ends_attempt(
    attempt: nat,
    data: Seq<u8>,
    max_part: nat,
    new_phase: PhaseView,
    action: UploadAction,
) -> bool {
    if attempt + 1 < MAX_MULTIPART_UPLOAD_ATTEMPT {
        declares(attempt + 1, data, max_part, new_phase, action)
    } else {
        fails_with(new_phase, action, exhausted_message())
    }
}

/// Attempt `attempt` was aborted by `error`: declare again if attempts
/// remain, else end with that error.
pub open spec fn aborts_attempt(
    attempt: nat,
    data: Seq<u8>,
    max_part: nat,
    error: MusicUploaderClientError,
    new_phase: PhaseView,
    action: UploadAction,
) -> bool {
    if attempt + 1 < MAX_MULTIPART_UPLOAD_ATTEMPT {
        declares(attempt + 1, data, max_part, new_phase, action)
    } else {
        finishes(new_phase, action, Err(error))
    }
}

/// Part `parts[next]` of session `key` is handed out, with its bytes.
pub open spec fn sends_part(
    attempt: nat,
    key: Seq<char>,
    parts: Seq<PartSpan>,
    next: nat,
    data: Seq<u8>,
    new_phase: PhaseView,
    action: UploadAction,
) -> bool {
    &&& new_phase == PhaseView::SendingParts { attempt, key, parts, next }
    &&& action matches UploadAction::UploadPart { key: k, index, bytes } && k@ == key && index
        == parts[next as int].index && bytes@ == data.subrange(
        parts[next as int].start as int,
        parts[next as int].end as int,
    )
}

/// One step of the engine: from `phase`, for a file of bytes `data` and a
/// configured largest part of `max_part` bytes, `event` leads to `new_phase`
/// and `action`.
pub open spec fn step_relation(
    data: Seq<u8>,
    max_part: nat,
    phase: PhaseView,
    event: UploadEvent,
    new_phase: PhaseView,
    action: UploadAction,
) -> bool {
    match (phase, event) {
        (PhaseView::Ready, UploadEvent::Start) => {
            if data.len() <= max_part {
                new_phase == PhaseView::SendingWhole && action == UploadAction::SendWhole
            } else if data.len() > u32::MAX {
                fails_with(new_phase, action, too_large_message())
            } else {
                declares(0, data, max_part, new_phase, action)
            }
        },
        (PhaseView::SendingWhole, UploadEvent::WholeSent(result)) => finishes(
            new_phase,
            action,
            result,
        ),
        (PhaseView::Declaring { attempt }, UploadEvent::Declared(Err(e))) => finishes(
            new_phase,
            action,
            Err(e),
        ),
        (PhaseView::Declaring { attempt }, UploadEvent::Declared(Ok(DeclareUploadResponse::Complete))) => {
            &&& new_phase == PhaseView::Finished
            &&& action matches UploadAction::Done(Ok(m)) && m@ == complete_message(attempt)
        },
        (
            PhaseView::Declaring { attempt },
            UploadEvent::Declared(
                Ok(DeclareUploadResponse::Incomplete { key, part_size, received_parts, .. }),
            ),
        ) => match remaining_spans(data.len(), part_size as nat, received_parts@) {
            Err(e) => if e is EmptyPart {
                aborts_attempt(attempt, data, max_part, e, new_phase, action)
            } else {
                finishes(new_phase, action, Err(e))
            },
            Ok(parts) => if parts.len() == 0 {
                ends_attempt(attempt, data, max_part, new_phase, action)
            } else {
                sends_part(attempt, key@, parts, 0, data, new_phase, action)
            },
        },
        (PhaseView::SendingParts { attempt, .. }, UploadEvent::PartSent(Err(e))) => aborts_attempt(
            attempt,
            data,
            max_part,
            e,
            new_phase,
            action,
        ),
        (PhaseView::SendingParts { attempt, key, parts, next }, UploadEvent::PartSent(Ok(_))) => {
            if next + 1 < parts.len() {
                sends_part(attempt, key, parts, next + 1, data, new_phase, action)
            } else {
                ends_attempt(attempt, data, max_part, new_phase, action)
            }
        },
        _ => false,
    }
}

/// `event` is the outcome that `phase` waits for.
pub open spec fn expects_event(phase: PhaseView, event: UploadEvent) -> bool {
    match (phase, event) {
        (PhaseView::Ready, UploadEvent::Start) => true,
        (PhaseView::SendingWhole, UploadEvent::WholeSent(_)) => true,
        (PhaseView::Declaring { .. }, UploadEvent::Declared(_)) => true,
        (PhaseView::SendingParts { .. }, UploadEvent::PartSent(_)) => true,
        _ => false,
    }
}

/// Part `j` of parts that lie in the file lies in the file.
proof fn lemma_part_in_file(parts: Seq<PartSpan>, len: nat, j: int)
    requires
        parts_in_file(parts, len),
        0 <= j < parts.len(),
    ensures
        parts[j].start < parts[j].end <= len,
{
}

/// The working state of one file's upload.
pub struct UploadState {
    pub config: MusicUploaderClientConfig,
    pub album: String,
    pub artist: String,
    pub song: Song,
    pub data: Vec<u8>,
    pub hash: String,
    pub phase: UploadPhase,
}

impl UploadState {
    /// Well-formed: the attempt counter stays below the bound, and every part
    /// still to send lies inside the file.
    pub open spec fn wf(&self) -> bool {
        match self.phase@ {
            PhaseView::Declaring { attempt } => attempt < MAX_MULTIPART_UPLOAD_ATTEMPT
                && self.data@.len() <= u32::MAX,
            PhaseView::SendingParts { attempt, parts, next, .. } => {
                &&& attempt < MAX_MULTIPART_UPLOAD_ATTEMPT
                &&& self.data@.len() <= u32::MAX
                &&& next < parts.len()
                &&& parts_in_file(parts, self.data@.len())
            },
            _ => true,
        }
    }

    /// A fresh upload of `data`, the bytes of `song`, with `hash` as its
    /// content hash.
    pub fn with_hash(
        config: MusicUploaderClientConfig,
        album: String,
        artist: String,
        song: Song,
        data: Vec<u8>,
        hash: String,
    ) -> (r: UploadState)
        ensures
            r.wf(),
            r.phase@ == PhaseView::Ready,
            r.config == config,
            r.album == album,
            r.artist == artist,
            r.song == song,
            r.data == data,
            r.hash == hash,
    {
        UploadState { config, album, artist, song, data, hash, phase: UploadPhase::Ready }
    }

    /// A fresh upload of `data`, the bytes of `song`; the content hash is the
    /// SHA-256 digest of `data`.
    pub fn new(
        config: MusicUploaderClientConfig,
        album: String,
        artist: String,
        song: Song,
        data: Vec<u8>,
    ) -> (r: UploadState)
        ensures
            r.wf(),
            r.phase@ == PhaseView::Ready,
            r.config == config,
            r.album == album,
            r.artist == artist,
            r.song == song,
            r.data == data,
            r.hash@ == sha256_hex_of(data@),
    {
        let hash = content_hash(&data);
        Self::with_hash(config, album, artist, song, data, hash)
    }

    /// Whether the file goes up in parts: exactly when it is longer than the
    /// configured largest part.
    pub fn should_upload_in_parts(&self) -> (r: bool)
        ensures
            r == (self.data@.len() > self.config.max_upload_part_size),
    {
        self.data.len() > self.config.max_upload_part_size as usize
    }

    /// Whether `event` is the outcome this upload waits for.
    pub fn expects(&self, event: &UploadEvent) -> (r: bool)
        ensures
            r == expects_event(self.phase@, *event),
    {
        match (&self.phase, event) {
            (UploadPhase::Ready, UploadEvent::Start) => true,
            (UploadPhase::SendingWhole, UploadEvent::WholeSent(_)) => true,
            (UploadPhase::Declaring { .. }, UploadEvent::Declared(_)) => true,
            (UploadPhase::SendingParts { .. }, UploadEvent::PartSent(_)) => true,
            _ => false,
        }
    }

    /// The declare action of the file.
    fn declare_action(&self) -> (r: UploadAction)
        requires
            self.data@.len() <= u32::MAX,
        ensures
            r == (UploadAction::Declare {
                part_size: self.config.max_upload_part_size,
                declared_size: self.data@.len() as u32,
            }),
    {
        UploadAction::Declare {
            part_size: self.config.max_upload_part_size,
            declared_size: self.data.len() as u32,
        }
    }

    /// The bytes `[start, end)` of the file.
    fn part_bytes(&self, start: u32, end: u32) -> (r: Vec<u8>)
        requires
            start <= end <= self.data@.len(),
        ensures
            r@ == self.data@.subrange(start as int, end as int),
    {
        let mut out: Vec<u8> = Vec::new();
        let mut k: usize = start as usize;
        while k < end as usize
            invariant
                start <= k <= end <= self.data@.len(),
                out@ == self.data@.subrange(start as int, k as int),
            decreases end - k,
        {
            out.push(self.data[k]);
            proof {
                assert(self.data@.subrange(start as int, k + 1) == self.data@.subrange(
                    start as int,
                    k as int,
                ).push(self.data@[k as int]));
            }
            k = k + 1;
        }
        out
    }

    /// The action that sends `parts[next]` of session `key`.
    fn part_action(&self, key: &String, parts: &Vec<PartSpan>, next: usize) -> (r: UploadAction)
        requires
            next < parts@.len(),
            parts@[next as int].start < parts@[next as int].end <= self.data@.len(),
        ensures
            r matches UploadAction::UploadPart { key: k, index, bytes } && k@ == key@ && index
                == parts@[next as int].index && bytes@ == self.data@.subrange(
                parts@[next as int].start as int,
                parts@[next as int].end as int,
            ),
    {
        let part = parts[next];
        UploadAction::UploadPart {
            key: key.clone(),
            index: part.index,
            bytes: self.part_bytes(part.start, part.end),
        }
    }

    /// The end of attempt `attempt` with every part sent.
    fn end_attempt(&mut self, attempt: u8) -> (r: UploadAction)
        requires
            attempt < MAX_MULTIPART_UPLOAD_ATTEMPT,
            old(self).data@.len() <= u32::MAX,
        ensures
            ends_attempt(
                attempt as nat,
                old(self).data@,
                old(self).config.max_upload_part_size as nat,
                final(self).phase@,
                r,
            ),
            final(self).wf(),
            final(self).config == old(self).config,
            final(self).album == old(self).album,
            final(self).artist == old(self).artist,
            final(self).song == old(self).song,
            final(self).data == old(self).data,
            final(self).hash == old(self).hash,
    {
        if attempt + 1 < MAX_MULTIPART_UPLOAD_ATTEMPT {
            self.phase = UploadPhase::Declaring { attempt: attempt + 1 };
            self.declare_action()
        } else {
            self.phase = UploadPhase::Finished;
            let count = decimal_string(MAX_MULTIPART_UPLOAD_ATTEMPT as u64);
            let mut m = String::from_str("Could not upload after ");
            m.append(count.as_str());
            m.append(" attempts");
            UploadAction::Done(Err(MusicUploaderClientError::AlbumUploadFailure(m)))
        }
    }

    /// The abort of attempt `attempt` by `error`.
    fn abort_attempt(&mut self, attempt: u8, error: MusicUploaderClientError) -> (r: UploadAction)
        requires
            attempt < MAX_MULTIPART_UPLOAD_ATTEMPT,
            old(self).data@.len() <= u32::MAX,
        ensures
            aborts_attempt(
                attempt as nat,
                old(self).data@,
                old(self).config.max_upload_part_size as nat,
                error,
                final(self).phase@,
                r,
            ),
            final(self).wf(),
            final(self).config == old(self).config,
            final(self).album == old(self).album,
            final(self).artist == old(self).artist,
            final(self).song == old(self).song,
            final(self).data == old(self).data,
            final(self).hash == old(self).hash,
    {
        if attempt + 1 < MAX_MULTIPART_UPLOAD_ATTEMPT {
            self.phase = UploadPhase::Declaring { attempt: attempt + 1 };
            self.declare_action()
        } else {
            self.phase = UploadPhase::Finished;
            UploadAction::Done(Err(error))
        }
    }
    /// Advances the upload by the outcome of the last action handed out and
    /// returns the next action.
    pub fn step(&mut self, event: UploadEvent) -> (r: UploadAction)
        requires
            old(self).wf(),
            expects_event(old(self).phase@, event),
        ensures
            step_relation(
                old(self).data@,
                old(self).config.max_upload_part_size as nat,
                old(self).phase@,
                event,
                final(self).phase@,
                r,
            ),
            final(self).wf(),
            final(self).config == old(self).config,
            final(self).album == old(self).album,
            final(self).artist == old(self).artist,
            final(self).song == old(self).song,
            final(self).data == old(self).data,
            final(self).hash == old(self).hash,
    {
        let mut phase = UploadPhase::Finished;
        core::mem::swap(&mut phase, &mut self.phase);
        match (phase, event) {
            (UploadPhase::Ready, UploadEvent::Start) => {
                if self.data.len() <= self.config.max_upload_part_size as usize {
                    self.phase = UploadPhase::SendingWhole;
                    UploadAction::SendWhole
                } else if self.data.len() > u32::MAX as usize {
                    let m = String::from_str("File is too large for a multipart upload");
                    UploadAction::Done(Err(MusicUploaderClientError::AlbumUploadFailure(m)))
                } else {
                    self.phase = UploadPhase::Declaring { attempt: 0 };
                    self.declare_action()
                }
            },
            (UploadPhase::SendingWhole, UploadEvent::WholeSent(result)) => UploadAction::Done(result),
            (UploadPhase::Declaring { .. }, UploadEvent::Declared(Err(e))) => UploadAction::Done(
                Err(e),
            ),
            (
                UploadPhase::Declaring { attempt },
                UploadEvent::Declared(Ok(DeclareUploadResponse::Complete)),
            ) => {
                if attempt == 0 {
                    UploadAction::Done(Ok(String::from_str("Song already present")))
                } else {
                    let n = decimal_string(attempt as u64);
                    let mut m = String::from_str("Succeeded multipart upload on ");
                    m.append(n.as_str());
                    m.append(" attempt");
                    UploadAction::Done(Ok(m))
                }
            },
            (
                UploadPhase::Declaring { attempt },
                UploadEvent::Declared(
                    Ok(DeclareUploadResponse::Incomplete { key, part_size, received_parts, .. }),
                ),
            ) => {
                let total = self.data.len() as u32;
                proof {
                    if remaining_spans(total as nat, part_size as nat, received_parts@) is Ok {
                        lemma_planned_parts_in_bounds(total as nat, part_size as nat, received_parts@);
                    }
                }
                match remaining_parts(total, part_size, &received_parts) {
                    Err(MusicUploaderClientError::EmptyPart(i)) => self.abort_attempt(
                        attempt,
                        MusicUploaderClientError::EmptyPart(i),
                    ),
                    Err(e) => UploadAction::Done(Err(e)),
                    Ok(parts) => {
                        if parts.len() == 0 {
                            self.end_attempt(attempt)
                        } else {
                            let a = self.part_action(&key, &parts, 0);
                            self.phase = UploadPhase::SendingParts { attempt, key, parts, next: 0 };
                            a
                        }
                    },
                }
            },
            (UploadPhase::SendingParts { attempt, .. }, UploadEvent::PartSent(Err(e))) => {
                self.abort_attempt(attempt, e)
            },
            (UploadPhase::SendingParts { attempt, key, parts, next }, UploadEvent::PartSent(Ok(_))) => {
                if parts.len() - next > 1 {
                    proof {
                        lemma_part_in_file(parts@, self.data@.len(), next + 1);
                    }
                    let a = self.part_action(&key, &parts, next + 1);
                    self.phase = UploadPhase::SendingParts { attempt, key, parts, next: next + 1 };
                    a
                } else {
                    self.end_attempt(attempt)
                }
            },
            _ => vstd::pervasive::unreached(),
        }
    }
}

} // verus!

verus! {

/// The attempt that `phase` belongs to, if it belongs to one.
pub open spec fn attempt_of(phase: PhaseView) -> Option<nat> {
    match phase {
        PhaseView::Declaring { attempt } => Some(attempt),
        PhaseView::SendingParts { attempt, .. } => Some(attempt),
        _ => None,
    }
}

/// A file goes up whole exactly when it is no longer than the configured
/// largest part; a longer one, whose length fits the declare, starts a
/// multipart upload with a declare of its full length.
pub proof fn lemma_whole_iff_within_part_size(
    data: Seq<u8>,
    max_part: nat,
    new_phase: PhaseView,
    action: UploadAction,
)
    requires
        step_relation(data, max_part, PhaseView::Ready, UploadEvent::Start, new_phase, action),
    ensures
        (action is SendWhole) <==> data.len() <= max_part,
        data.len() > max_part && data.len() <= u32::MAX ==> action == (UploadAction::Declare {
            part_size: max_part as u32,
            declared_size: data.len() as u32,
        }),
{
}

/// When the first declare answers `Complete`, the upload ends at once,
/// successfully, with the message that the song is already present, and no
/// part is sent.
pub proof fn lemma_complete_on_first_declare(
    data: Seq<u8>,
    max_part: nat,
    new_phase: PhaseView,
    action: UploadAction,
)
    requires
        step_relation(
            data,
            max_part,
            PhaseView::Declaring { attempt: 0 },
            UploadEvent::Declared(Ok(DeclareUploadResponse::Complete)),
            new_phase,
            action,
        ),
    ensures
        new_phase == PhaseView::Finished,
        action matches UploadAction::Done(Ok(m)) && m@ == "Song already present"@,
        !(action is UploadPart),
{
}

/// No step starts an attempt beyond the bound: from a phase whose attempt is
/// below `MAX_MULTIPART_UPLOAD_ATTEMPT`, every step leads to such a phase,
/// and a declare is only handed out for the first attempt or the one after
/// the current attempt.
pub proof fn lemma_no_attempt_beyond_bound(
    data: Seq<u8>,
    max_part: nat,
    phase: PhaseView,
    event: UploadEvent,
    new_phase: PhaseView,
    action: UploadAction,
)
    requires
        attempt_of(phase) matches Some(a) ==> a < MAX_MULTIPART_UPLOAD_ATTEMPT,
        step_relation(data, max_part, phase, event, new_phase, action),
    ensures
        attempt_of(new_phase) matches Some(a) ==> a < MAX_MULTIPART_UPLOAD_ATTEMPT,
        action is Declare ==> new_phase is Declaring && (phase is Ready
            ==> new_phase->Declaring_attempt == 0) && (!(phase is Ready)
            ==> new_phase->Declaring_attempt == attempt_of(phase)->Some_0 + 1),
{
}

/// In the last attempt, once every part still missing has been sent, the
/// upload fails as exhausted instead of declaring again; the same holds when
/// the last declare reports nothing missing yet still answers `Incomplete`.
pub proof fn lemma_last_attempt_exhausts(
    data: Seq<u8>,
    max_part: nat,
    phase: PhaseView,
    event: UploadEvent,
    new_phase: PhaseView,
    action: UploadAction,
)
    requires
        attempt_of(phase) == Some((MAX_MULTIPART_UPLOAD_ATTEMPT - 1) as nat),
        step_relation(data, max_part, phase, event, new_phase, action),
        match (phase, event) {
            (PhaseView::SendingParts { parts, next, .. }, UploadEvent::PartSent(Ok(_))) => next + 1
                >= parts.len(),
            (
                PhaseView::Declaring { .. },
                UploadEvent::Declared(
                    Ok(DeclareUploadResponse::Incomplete { part_size, received_parts, .. }),
                ),
            ) => remaining_spans(data.len(), part_size as nat, received_parts@) matches Ok(p)
                && p.len() == 0,
            _ => false,
        },
    ensures
        fails_with(new_phase, action, exhausted_message()),
        !(action is Declare),
{
}

/// An `Incomplete` answer with parts missing starts sending exactly the
/// parts the server lacks, in ascending order, beginning with the first of
/// them; parts reported as received are never handed out.
pub proof fn lemma_incomplete_sends_missing_parts(
    data: Seq<u8>,
    max_part: nat,
    attempt: nat,
    key: String,
    declared_size: u32,
    part_size: u32,
    received_parts: Vec<u8>,
    new_phase: PhaseView,
    action: UploadAction,
)
    requires
        part_size > 0,
        ceil_div(data.len(), part_size as nat) <= MAX_PARTS,
        remaining_spans(data.len(), part_size as nat, received_parts@)->Ok_0.len() > 0,
        step_relation(
            data,
            max_part,
            PhaseView::Declaring { attempt },
            UploadEvent::Declared(
                Ok(DeclareUploadResponse::Incomplete { key, declared_size, part_size, received_parts }),
            ),
            new_phase,
            action,
        ),
    ensures
        new_phase is SendingParts,
        new_phase->SendingParts_next == 0,
        plan_is_exact(
            new_phase->SendingParts_parts,
            ceil_div(data.len(), part_size as nat),
            part_size as nat,
            data.len(),
            received_parts@,
        ),
        action is UploadPart,
        action->UploadPart_index == new_phase->SendingParts_parts[0].index,
        !received_parts@.contains(action->UploadPart_index),
{
    lemma_resume_sends_exactly_missing(data.len(), part_size as nat, received_parts@);
    let parts = remaining_spans(data.len(), part_size as nat, received_parts@)->Ok_0;
    assert(exists|j: int| 0 <= j < parts.len() && #[trigger] parts[j].index == parts[0].index);
}

/// An `Incomplete` answer whose part size would cut the file into more than
/// `MAX_PARTS` parts ends the upload with `TooManyParts`, and no part is sent.
pub proof fn lemma_too_many_parts_ends_upload(
    data: Seq<u8>,
    max_part: nat,
    attempt: nat,
    event: UploadEvent,
    new_phase: PhaseView,
    action: UploadAction,
)
    requires
        data.len() <= u32::MAX,
        event matches UploadEvent::Declared(
            Ok(DeclareUploadResponse::Incomplete { part_size, .. }),
        ) && part_size > 0 && ceil_div(data.len(), part_size as nat) > MAX_PARTS,
        step_relation(data, max_part, PhaseView::Declaring { attempt }, event, new_phase, action),
    ensures
        new_phase == PhaseView::Finished,
        action matches UploadAction::Done(Err(MusicUploaderClientError::TooManyParts(n))) && n as nat
            == ceil_div(data.len(), event->Declared_0->Ok_0->part_size as nat),
{
    let t = data.len();
    let p = event->Declared_0->Ok_0->part_size as nat;
    let q = t / p;
    let r = t % p;
    assert(t == q * p + r && 0 <= r < p) by {
        vstd::arithmetic::div_mod::lemma_fundamental_div_mod(t as int, p as int);
    }
    assert(ceil_div(t, p) <= t) by (nonlinear_arith)
        requires
            t == q * p + r,
            0 <= r < p,
            p >= 1,
            ceil_div(t, p) == if r == 0 { q } else { q + 1 },
    ;
}

} // verus!
