//! The album upload orchestrator: files go up one after another, a report is
//! emitted after each, one album report follows the last, and the server is
//! asked to rescan only when every file succeeded. The caller performs each
//! action handed out and returns the outcome.

use vstd::prelude::*;
use vstd::string::*;
use crate::error::{error_text, MusicUploaderClientError};
use crate::upload::Song;

verus! {

/// The message of an album whose every file went up.
pub open spec fn all_uploaded_message() -> Seq<char> {
    "All files in album uploaded succesfully"@
}

/// The message of an album with at least one failed file.
pub open spec fn some_failed_message() -> Seq<char> {
    "At least one song failed to upload"@
}

/// Every file result is a success.
pub open spec fn all_ok(results: Seq<Result<String, MusicUploaderClientError>>) -> bool {
    forall|i: int| 0 <= i < results.len() ==> #[trigger] results[i] is Ok
}

/// The album's result, from its files' results: `Ok` exactly when every file
/// succeeded, with a generic message either way; the failures' own details
/// were reported per file.
pub open spec fn album_result_matches(
    results: Seq<Result<String, MusicUploaderClientError>>,
    r: Result<String, MusicUploaderClientError>,
) -> bool {
    if all_ok(results) {
        r matches Ok(m) && m@ == all_uploaded_message()
    } else {
        r matches Err(MusicUploaderClientError::AlbumUploadFailure(m)) && m@
            == some_failed_message()
    }
}

/// Folds the files' results into the album's result.
pub fn get_album_upload_result(upload_results: Vec<Result<String, MusicUploaderClientError>>) -> (r:
    Result<String, MusicUploaderClientError>)
    ensures
        album_result_matches(upload_results@, r),
{
    let mut i: usize = 0;
    while i < upload_results.len()
        invariant
            i <= upload_results.len(),
            forall|k: int| 0 <= k < i ==> #[trigger] upload_results@[k] is Ok,
        decreases upload_results.len() - i,
    {
        if upload_results[i].is_err() {
            return Err(
                MusicUploaderClientError::AlbumUploadFailure(
                    String::from_str("At least one song failed to upload"),
                ),
            );
        }
        i = i + 1;
    }
    Ok(String::from_str("All files in album uploaded succesfully"))
}

/// The text a report carries for a result: the message, or the error's text.
pub open spec fn outcome_text(result: Result<String, MusicUploaderClientError>) -> Seq<char> {
    match result {
        Ok(m) => m@,
        Err(e) => error_text(e),
    }
}

/// The text of a result, for a report.
pub fn outcome_string(result: &Result<String, MusicUploaderClientError>) -> (r: String)
    ensures
        r@ == outcome_text(*result),
{
    match result {
        Ok(m) => m.clone(),
        Err(e) => e.to_string(),
    }
}

} // verus!

verus! {

/// What the caller is to do for an album.
#[derive(Debug)]
pub enum AlbumAction {
    /// Tell the observer that the album started uploading.
    AlbumIsUploading { album_id: String },
    /// Tell the observer that a file started uploading.
    FileIsUploading { album_id: String, file: String },
    /// Upload the song at `index`, and hand back its result.
    UploadFile { index: usize },
    /// Tell the observer how a file ended.
    FileReport { album_id: String, file: String, success: bool, message: String },
    /// Tell the observer how the album ended.
    AlbumReport { album_id: String, success: bool, message: String },
    /// Ask the server to rescan its library, and hand back the result.
    TriggerScan,
    /// The album operation is over, with this result.
    Finish(Result<String, MusicUploaderClientError>),
}

/// What happened to the last action that waits for an answer.
pub enum AlbumEvent {
    /// Begin the album.
    Start,
    /// The result of the file upload handed out last.
    FileUploaded(Result<String, MusicUploaderClientError>),
    /// The result of the rescan request.
    ScanFinished(Result<String, MusicUploaderClientError>),
}

/// Where an album upload stands.
#[derive(PartialEq, Eq, Structural)]
pub enum AlbumPhase {
    Ready,
    Uploading,
    Scanning,
    Finished,
}

/// A report emitted to the observer, as a record: a file's by its position
/// in the album, or the album's.
pub ghost enum ReportView {
    File { index: nat, success: bool },
    Album { success: bool },
}

/// The file reports of the files with results `results`, in order.
pub open spec fn file_reports(results: Seq<Result<String, MusicUploaderClientError>>) -> Seq<
    ReportView,
> {
    Seq::new(results.len(), |i: int| ReportView::File { index: i as nat, success: results[i] is Ok })
}

/// `action` reports that `file` of album `album_id` ended with `result`.
pub open spec fn is_file_report(
    action: AlbumAction,
    album_id: Seq<char>,
    file: Seq<char>,
    result: Result<String, MusicUploaderClientError>,
) -> bool {
    action matches AlbumAction::FileReport { album_id: a, file: f, success, message } && a@
        == album_id && f@ == file && success == (result is Ok) && message@ == outcome_text(result)
}

/// `actions` start the upload of song `index`.
pub open spec fn starts_file(
    actions: Seq<AlbumAction>,
    album_id: Seq<char>,
    songs: Seq<Song>,
    index: nat,
) -> bool {
    &&& actions.len() == 2
    &&& actions[0] matches AlbumAction::FileIsUploading { album_id: a, file: f } && a@ == album_id
        && f@ == songs[index as int].path@
    &&& actions[1] == AlbumAction::UploadFile { index: index as usize }
}

/// `actions` close an album whose files ended with `results`: the album
/// report, then the rescan request if every file succeeded, else the end of
/// the operation with the album's failure.
pub open spec fn closes_album(
    actions: Seq<AlbumAction>,
    album_id: Seq<char>,
    results: Seq<Result<String, MusicUploaderClientError>>,
    new_phase: AlbumPhase,
) -> bool {
    &&& actions.len() == 2
    &&& actions[0] matches AlbumAction::AlbumReport { album_id: a, success, message } && a@
        == album_id && success == all_ok(results) && (if all_ok(results) {
        message@ == all_uploaded_message()
    } else {
        message@ == "Failed to upload album: "@ + some_failed_message()
    })
    &&& if all_ok(results) {
        actions[1] == AlbumAction::TriggerScan && new_phase == AlbumPhase::Scanning
    } else {
        &&& new_phase == AlbumPhase::Finished
        &&& actions[1] matches AlbumAction::Finish(r) && album_result_matches(results, r)
    }
}

/// The state of one album's upload.
pub struct AlbumUpload {
    pub album_id: String,
    pub album_name: String,
    pub artist: String,
    pub songs: Vec<Song>,
    /// The results of the files uploaded so far, in order, until they are
    /// folded into the album's result once every file is done.
    pub results: Vec<Result<String, MusicUploaderClientError>>,
    pub phase: AlbumPhase,
    /// The results of every file uploaded, in order.
    pub history: Ghost<Seq<Result<String, MusicUploaderClientError>>>,
    /// The reports emitted so far.
    pub reports: Ghost<Seq<ReportView>>,
}

/// One step of an album: from `old`, `event` leads to `new` and `actions`.
pub open spec fn album_step_relation(
    old: AlbumUpload,
    event: AlbumEvent,
    new: AlbumUpload,
    actions: Seq<AlbumAction>,
) -> bool {
    let album_id = old.album_id@;
    let n = old.songs@.len();
    match (old.phase, event) {
        (AlbumPhase::Ready, AlbumEvent::Start) => {
            &&& actions.len() == 3
            &&& actions[0] matches AlbumAction::AlbumIsUploading { album_id: a } && a@ == album_id
            &&& new.history@ == old.history@
            &&& if n == 0 {
                &&& closes_album(actions.drop_first(), album_id, old.history@, new.phase)
                &&& new.reports@ == old.reports@.push(ReportView::Album { success: true })
            } else {
                &&& starts_file(actions.drop_first(), album_id, old.songs@, 0)
                &&& new.phase == AlbumPhase::Uploading
                &&& new.reports@ == old.reports@
            }
        },
        (AlbumPhase::Uploading, AlbumEvent::FileUploaded(result)) => {
            let i = old.history@.len();
            let results = old.history@.push(result);
            &&& new.history@ == results
            &&& actions.len() == 3
            &&& is_file_report(actions[0], album_id, old.songs@[i as int].path@, result)
            &&& if i + 1 < n {
                &&& starts_file(actions.drop_first(), album_id, old.songs@, i + 1)
                &&& new.phase == AlbumPhase::Uploading
                &&& new.reports@ == old.reports@.push(
                    ReportView::File { index: i, success: result is Ok },
                )
            } else {
                &&& closes_album(actions.drop_first(), album_id, results, new.phase)
                &&& new.reports@ == old.reports@.push(
                    ReportView::File { index: i, success: result is Ok },
                ).push(ReportView::Album { success: all_ok(results) })
            }
        },
        (AlbumPhase::Scanning, AlbumEvent::ScanFinished(result)) => {
            &&& actions == seq![AlbumAction::Finish(result)]
            &&& new.phase == AlbumPhase::Finished
            &&& new.history@ == old.history@
            &&& new.reports@ == old.reports@
        },
        _ => false,
    }
}

/// `event` is the answer that `phase` waits for.
pub open spec fn album_expects_event(phase: AlbumPhase, event: AlbumEvent) -> bool {
    match (phase, event) {
        (AlbumPhase::Ready, AlbumEvent::Start) => true,
        (AlbumPhase::Uploading, AlbumEvent::FileUploaded(_)) => true,
        (AlbumPhase::Scanning, AlbumEvent::ScanFinished(_)) => true,
        _ => false,
    }
}

impl AlbumUpload {
    /// Well-formed: the results follow the songs in order, and the reports
    /// emitted are one per finished file, in order, then one for the album
    /// once every file is done.
    pub open spec fn wf(&self) -> bool {
        let results = self.history@;
        let n = self.songs@.len();
        match self.phase {
            AlbumPhase::Ready => {
                &&& results.len() == 0
                &&& self.results@.len() == 0
                &&& self.reports@ == Seq::<ReportView>::empty()
            },
            AlbumPhase::Uploading => {
                &&& results.len() < n
                &&& self.results@ == results
                &&& self.reports@ == file_reports(results)
            },
            AlbumPhase::Scanning => {
                &&& results.len() == n
                &&& all_ok(results)
                &&& self.reports@ == file_reports(results).push(ReportView::Album { success: true })
            },
            AlbumPhase::Finished => {
                &&& results.len() == n
                &&& self.reports@ == file_reports(results).push(
                    ReportView::Album { success: all_ok(results) },
                )
            },
        }
    }

    /// A fresh album upload of `songs`, in this order.
    pub fn new(album_id: String, album_name: String, artist: String, songs: Vec<Song>) -> (r:
        AlbumUpload)
        ensures
            r.wf(),
            r.phase == AlbumPhase::Ready,
            r.album_id == album_id,
            r.album_name == album_name,
            r.artist == artist,
            r.songs == songs,
    {
        AlbumUpload {
            album_id,
            album_name,
            artist,
            songs,
            results: Vec::new(),
            phase: AlbumPhase::Ready,
            history: Ghost(Seq::empty()),
            reports: Ghost(Seq::empty()),
        }
    }

    /// Whether `event` is the answer this album waits for.
    pub fn expects(&self, event: &AlbumEvent) -> (r: bool)
        ensures
            r == album_expects_event(self.phase, *event),
    {
        match (&self.phase, event) {
            (AlbumPhase::Ready, AlbumEvent::Start) => true,
            (AlbumPhase::Uploading, AlbumEvent::FileUploaded(_)) => true,
            (AlbumPhase::Scanning, AlbumEvent::ScanFinished(_)) => true,
            _ => false,
        }
    }

    /// The actions that start the upload of song `index`.
    fn start_file(&self, index: usize) -> (r: Vec<AlbumAction>)
        requires
            index < self.songs@.len(),
        ensures
            starts_file(r@, self.album_id@, self.songs@, index as nat),
    {
        let mut r: Vec<AlbumAction> = Vec::new();
        r.push(
            AlbumAction::FileIsUploading {
                album_id: self.album_id.clone(),
                file: self.songs[index].path.clone(),
            },
        );
        r.push(AlbumAction::UploadFile { index });
        r
    }

    /// The actions that close the album once every file is done.
    fn close(&mut self) -> (r: Vec<AlbumAction>)
        requires
            old(self).history@.len() == old(self).songs@.len(),
            old(self).results@ == old(self).history@,
            old(self).reports@ == file_reports(old(self).history@),
        ensures
            closes_album(r@, old(self).album_id@, old(self).history@, final(self).phase),
            final(self).wf(),
            final(self).reports@ == old(self).reports@.push(
                ReportView::Album { success: all_ok(old(self).history@) },
            ),
            final(self).album_id == old(self).album_id,
            final(self).album_name == old(self).album_name,
            final(self).artist == old(self).artist,
            final(self).songs == old(self).songs,
            final(self).history == old(self).history,
    {
        let mut results: Vec<Result<String, MusicUploaderClientError>> = Vec::new();
        core::mem::swap(&mut results, &mut self.results);
        let total = get_album_upload_result(results);
        let success = total.is_ok();
        proof {
            self.reports@ = self.reports@.push(ReportView::Album { success });
        }
        let mut r: Vec<AlbumAction> = Vec::new();
        r.push(
            AlbumAction::AlbumReport {
                album_id: self.album_id.clone(),
                success,
                message: outcome_string(&total),
            },
        );
        if success {
            self.phase = AlbumPhase::Scanning;
            r.push(AlbumAction::TriggerScan);
        } else {
            self.phase = AlbumPhase::Finished;
            r.push(AlbumAction::Finish(total));
        }
        r
    }
    /// Advances the album by the answer to the last action that waits for one,
    /// and returns the actions to perform next, in order.
    pub fn step(&mut self, event: AlbumEvent) -> (r: Vec<AlbumAction>)
        requires
            old(self).wf(),
            album_expects_event(old(self).phase, event),
        ensures
            album_step_relation(*old(self), event, *final(self), r@),
            final(self).wf(),
            final(self).album_id == old(self).album_id,
            final(self).album_name == old(self).album_name,
            final(self).artist == old(self).artist,
            final(self).songs == old(self).songs,
    {
        match event {
            AlbumEvent::Start => {
                let mut r: Vec<AlbumAction> = Vec::new();
                r.push(AlbumAction::AlbumIsUploading { album_id: self.album_id.clone() });
                let rest = if self.songs.len() == 0 {
                    proof {
                        assert(file_reports(self.history@) =~= Seq::<ReportView>::empty());
                        assert(self.results@ =~= self.history@);
                    }
                    self.close()
                } else {
                    proof {
                        assert(file_reports(self.history@) =~= Seq::<ReportView>::empty());
                        assert(self.results@ =~= self.history@);
                    }
                    self.phase = AlbumPhase::Uploading;
                    self.start_file(0)
                };
                let mut rest = rest;
                let ghost tail = rest@;
                r.append(&mut rest);
                proof {
                    assert(r@.drop_first() =~= tail);
                }
                r
            },
            AlbumEvent::FileUploaded(result) => {
                let i = self.results.len();
                let mut r: Vec<AlbumAction> = Vec::new();
                r.push(
                    AlbumAction::FileReport {
                        album_id: self.album_id.clone(),
                        file: self.songs[i].path.clone(),
                        success: result.is_ok(),
                        message: outcome_string(&result),
                    },
                );
                let ghost ok = result is Ok;
                self.results.push(result);
                proof {
                    let before = self.history@;
                    self.history@ = self.history@.push(self.results@[i as int]);
                    self.reports@ = self.reports@.push(ReportView::File { index: i as nat, success: ok });
                    assert(self.reports@ =~= file_reports(self.history@));
                }
                let mut rest = if self.songs.len() - i > 1 {
                    self.start_file(i + 1)
                } else {
                    self.close()
                };
                let ghost tail = rest@;
                r.append(&mut rest);
                proof {
                    assert(r@.drop_first() =~= tail);
                }
                r
            },
            AlbumEvent::ScanFinished(result) => {
                self.phase = AlbumPhase::Finished;
                let mut r: Vec<AlbumAction> = Vec::new();
                r.push(AlbumAction::Finish(result));
                proof {
                    assert(r@ == seq![AlbumAction::Finish(result)]);
                }
                r
            },
        }
    }
}

} // verus!

verus! {

/// The album fails, with the generic message, as soon as one file failed.
pub proof fn lemma_one_failure_fails_album(
    results: Seq<Result<String, MusicUploaderClientError>>,
    r: Result<String, MusicUploaderClientError>,
    failed: int,
)
    requires
        album_result_matches(results, r),
        0 <= failed < results.len(),
        results[failed] is Err,
    ensures
        r matches Err(MusicUploaderClientError::AlbumUploadFailure(m)) && m@ == some_failed_message(),
{
}

/// Once every file is done, exactly one report per file has been emitted, in
/// the order the files were processed and with each file's success, followed
/// by exactly one album report whose success is that of every file.
pub proof fn lemma_reports_once_per_file_then_album(s: AlbumUpload)
    requires
        s.wf(),
        s.phase == AlbumPhase::Scanning || s.phase == AlbumPhase::Finished,
    ensures
        s.reports@.len() == s.songs@.len() + 1,
        forall|i: int|
            0 <= i < s.songs@.len() ==> #[trigger] s.reports@[i] == (ReportView::File {
                index: i as nat,
                success: s.history@[i] is Ok,
            }),
        s.reports@[s.songs@.len() as int] == (ReportView::Album { success: all_ok(s.history@) }),
{
}

/// The rescan is requested exactly when every file succeeded: a step asks for
/// it only when it closes an album whose files all succeeded, and the step
/// that closes such an album always asks for it.
pub proof fn lemma_rescan_iff_all_succeeded(
    old: AlbumUpload,
    event: AlbumEvent,
    new: AlbumUpload,
    actions: Seq<AlbumAction>,
)
    requires
        old.wf(),
        album_step_relation(old, event, new, actions),
    ensures
        actions.contains(AlbumAction::TriggerScan) ==> new.phase == AlbumPhase::Scanning
            && new.history@.len() == old.songs@.len() && all_ok(new.history@),
        old.phase != AlbumPhase::Scanning && new.history@.len() == old.songs@.len() ==> (
        actions.contains(AlbumAction::TriggerScan) <==> all_ok(new.history@)),
{
    if actions.contains(AlbumAction::TriggerScan) {
        let j = choose|j: int| 0 <= j < actions.len() && actions[j] == AlbumAction::TriggerScan;
        assert(j == 2);
    }
    if old.phase != AlbumPhase::Scanning && new.history@.len() == old.songs@.len() && all_ok(
        new.history@,
    ) {
        assert(actions[2] == AlbumAction::TriggerScan);
    }
}

/// A failed rescan makes the album operation fail with the rescan's error,
/// even though every file went up.
pub proof fn lemma_failed_rescan_fails_album(
    old: AlbumUpload,
    e: MusicUploaderClientError,
    new: AlbumUpload,
    actions: Seq<AlbumAction>,
)
    requires
        album_step_relation(old, AlbumEvent::ScanFinished(Err(e)), new, actions),
    ensures
        actions == seq![AlbumAction::Finish(Err(e))],
        new.phase == AlbumPhase::Finished,
{
}

} // verus!
