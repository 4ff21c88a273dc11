//! The service as a mathematical value, and every step it can take as a
//! function on that value.
//!
//! The executable operations are proved to make exactly these steps.

use crate::clock::Timestamp;
use crate::entities::{
    default_capabilities, CapabilitiesView, DocumentType, ScanJobView, ScanResultView,
    ScanSettings, ScannerStatusView, ScannerType, ScannerView, SystemType, PROGRESS_FULL,
};
use crate::ident::FRESH_ID_LEN;
use crate::job_store::{
    anchored_to, bounded, changed, exclusive, holds_scanner, is_held, settled, JobChangeView,
};
use crate::keyed::{distinct, holds, item_at, upsert, upsert_all, without, Text};
use crate::registry::with_status;
use vstd::prelude::*;

verus! {

/// The steps in which a scan advances.
pub const SCAN_STEPS: u32 = 20;

/// A scan that is to fail does so at the first step after this one.
pub const FAILURE_AFTER_STEP: u32 = 10;

/// A scan takes at least this long, in milliseconds.
pub const MIN_SCAN_MS: u64 = 3000;

/// A scan takes less than this, in milliseconds.
pub const MAX_SCAN_MS: u64 = 8000;

/// One scan in `FAILURE_ODDS` is made to fail.
pub const FAILURE_ODDS: u32 = 20;

/// One call in `EVENT_ODDS` of the event simulation changes a scanner.
pub const EVENT_ODDS: u32 = 10;

/// The reason recorded when a scan is made to fail.
pub open spec fn hardware_error() -> Text {
    "Scanner hardware error"@
}

/// The reason recorded when no output directory could be had.
pub open spec fn directory_error(detail: Text) -> Text {
    "Failed to create output directory: "@ + detail
}

/// The reason recorded when the file could not be written.
pub open spec fn generation_error(detail: Text) -> Text {
    "Failed to generate file: "@ + detail
}

/// The reason recorded with a scanner that reports an error.
pub open spec fn paper_jam() -> Text {
    "Paper jam detected"@
}

/// Each step adds this many thousandths to the progress, so that the last
/// step makes it `PROGRESS_FULL`.
pub const PROGRESS_PER_STEP: u32 = 50;

/// The progress, in thousandths, after so many steps.
pub open spec fn step_progress(step: u32) -> u32 {
    (step * PROGRESS_PER_STEP) as u32
}

/// The steps of a scan divide the whole progress evenly.
pub proof fn lemma_steps_fill_progress()
    ensures
        SCAN_STEPS * PROGRESS_PER_STEP == PROGRESS_FULL,
        step_progress(0) == 0,
        step_progress(SCAN_STEPS) == PROGRESS_FULL,
        forall|a: u32, b: u32| a <= b <= SCAN_STEPS ==> step_progress(a) <= step_progress(b),
{
}

/// What happens to a scanner from outside.
#[derive(Debug, Clone, Copy, PartialEq, Eq, Structural)]
pub enum ScannerEvent {
    WentOffline,
    CameOnline,
    ReportedError,
}

/// The event that a number drawn below three stands for: nought for a
/// scanner that goes offline, one for a scanner that comes back online, and
/// anything else for a scanner that reports an error.
pub open spec fn event_for(kind: u64) -> ScannerEvent {
    if kind == 0 {
        ScannerEvent::WentOffline
    } else if kind == 1 {
        ScannerEvent::CameOnline
    } else {
        ScannerEvent::ReportedError
    }
}

impl ScannerEvent {
    /// The event that a drawn number stands for.
    pub fn from_draw(kind: u64) -> (event: ScannerEvent)
        ensures
            event == event_for(kind),
    {
        if kind == 0 {
            ScannerEvent::WentOffline
        } else if kind == 1 {
            ScannerEvent::CameOnline
        } else {
            ScannerEvent::ReportedError
        }
    }
}

/// Where a run of the lifecycle engine stands.
#[derive(Debug, Clone, Copy, PartialEq, Eq, Structural)]
pub enum RunPhase {
    /// Progress steps are being taken.
    Scanning,
    /// All steps are taken; the output file is being made.
    Synthesizing,
    /// The run wrote a terminal status and is over.
    Finished,
}

/// One run of the lifecycle engine for one job.
pub struct ScanRunView {
    pub job_id: Text,
    pub scanner_id: Text,
    pub document_type: DocumentType,
    pub scan_settings: ScanSettings,
    pub steps_done: u32,
    pub step_delay_ms: u64,
    pub should_fail: bool,
    pub phase: RunPhase,
}

impl ScanRunView {
    /// A run is at most `SCAN_STEPS` steps long, and is scanning only while
    /// steps are left.
    pub open spec fn wf(self) -> bool {
        &&& self.steps_done <= SCAN_STEPS
        &&& self.phase == RunPhase::Scanning ==> self.steps_done < SCAN_STEPS
    }
}

/// How the making of the output file ended.
pub enum SynthesisView {
    Done(ScanResultView),
    DirectoryFailed(Text),
    GenerationFailed(Text),
}

/// The registry, the store and the platform that the service runs on.
pub struct ServiceView {
    pub scanners: Seq<ScannerView>,
    pub jobs: Seq<ScanJobView>,
    pub platform: SystemType,
}

impl ServiceView {
    /// What holds of the service at every moment:
    ///
    /// - no two scanners and no two jobs share an identifier;
    /// - no job has made more than all of its progress;
    /// - no scanner is kept busy by two jobs;
    /// - no job is left waiting for a scanner that nobody can find.
    pub open spec fn wf(self) -> bool {
        &&& distinct(self.scanners)
        &&& distinct(self.jobs)
        &&& bounded(self.jobs)
        &&& exclusive(self.jobs)
        &&& self.anchored()
    }

    /// A job can be created for a scanner that is known and available.
    pub open spec fn can_create(self, scanner_id: Text) -> bool {
        holds(self.scanners, scanner_id) && item_at(self.scanners, scanner_id).status is Available
    }

    pub open spec fn with_job(self, job: ScanJobView) -> ServiceView {
        ServiceView { jobs: upsert(self.jobs, job), ..self }
    }

    /// A job can be started while it is pending, and so only once, and while
    /// no other job keeps its scanner busy.
    pub open spec fn can_start(self, job_id: Text) -> bool {
        &&& holds(self.jobs, job_id)
        &&& item_at(self.jobs, job_id).status is Pending
        &&& !is_held(self.jobs, item_at(self.jobs, job_id).scanner_id)
    }

    /// A job that can be started is scanning; any other job, and everything
    /// else, is as it was.
    pub open spec fn started(self, job_id: Text) -> ServiceView {
        if self.can_start(job_id) {
            ServiceView { jobs: changed(self.jobs, job_id, JobChangeView::Start), ..self }
        } else {
            self
        }
    }

    /// A job can be cancelled while it is pending, scanning or processing.
    pub open spec fn can_cancel(self, job_id: Text) -> bool {
        holds(self.jobs, job_id) && item_at(self.jobs, job_id).status.is_active()
    }

    /// The job is cancelled and its scanner, where it is known, available.
    pub open spec fn cancelled(self, job_id: Text, now: Timestamp) -> ServiceView {
        ServiceView {
            jobs: changed(self.jobs, job_id, JobChangeView::Cancel { at: now }),
            scanners: with_status(
                self.scanners,
                item_at(self.jobs, job_id).scanner_id,
                ScannerStatusView::Available,
            ),
            ..self
        }
    }

    pub open spec fn with_scanner(self, scanner: ScannerView) -> ServiceView {
        ServiceView { scanners: upsert(self.scanners, scanner), ..self }
    }

    pub open spec fn without_scanner(self, scanner_id: Text) -> ServiceView {
        ServiceView { scanners: without(self.scanners, scanner_id), ..self }
    }

    pub open spec fn with_scanner_status(self, scanner_id: Text, status: ScannerStatusView) -> ServiceView {
        ServiceView { scanners: with_status(self.scanners, scanner_id, status), ..self }
    }

    /// The registry holds the given scanners and no others. A job that
    /// still had work before it on a scanner that is gone is cancelled at the
    /// time `now`: no job is left waiting for a scanner that nobody can find.
    pub open spec fn rediscovered(self, found: Seq<ScannerView>, now: Timestamp) -> ServiceView {
        let scanners = upsert_all(Seq::empty(), found);
        ServiceView { scanners, jobs: settled(self.jobs, scanners, now), ..self }
    }

    /// No job is left waiting for a scanner that nobody can find: every job
    /// is terminal or has its scanner in the registry.
    pub open spec fn anchored(self) -> bool {
        anchored_to(self.jobs, self.scanners)
    }

    /// The scanner at a place in the listing order met an event. A scanner
    /// comes back online only from offline.
    pub open spec fn after_event(self, index: int, event: ScannerEvent) -> ServiceView {
        if 0 <= index < self.scanners.len() {
            let scanner = self.scanners[index];
            match event {
                ScannerEvent::WentOffline => self.with_scanner_status(
                    scanner.id,
                    ScannerStatusView::Offline,
                ),
                ScannerEvent::CameOnline => if scanner.status is Offline {
                    self.with_scanner_status(scanner.id, ScannerStatusView::Available)
                } else {
                    self
                },
                ScannerEvent::ReportedError => self.with_scanner_status(
                    scanner.id,
                    ScannerStatusView::Error(paper_jam()),
                ),
            }
        } else {
            self
        }
    }

    // ------------------------------------------------ the lifecycle engine

    /// The job is in the store and scanning or processing: a run for it has
    /// work to do. A job that was cancelled, or came to another terminal
    /// state, is no longer alive, and no run touches it again.
    pub open spec fn alive(self, job_id: Text) -> bool {
        holds(self.jobs, job_id) && holds_scanner(item_at(self.jobs, job_id))
    }

    /// A run begins for a job that is alive: its scanner, where it is known,
    /// is busy. For any other job nothing changes.
    pub open spec fn begun(self, job: ScanJobView) -> ServiceView {
        if self.alive(job.id) {
            self.with_scanner_status(job.scanner_id, ScannerStatusView::Busy)
        } else {
            self
        }
    }

    /// A run ends: its job takes the last step and its scanner, where it is
    /// known, is available again.
    pub open spec fn run_ended(self, run: ScanRunView, change: JobChangeView) -> ServiceView {
        ServiceView {
            jobs: changed(self.jobs, run.job_id, change),
            scanners: with_status(self.scanners, run.scanner_id, ScannerStatusView::Available),
            ..self
        }
    }

    /// The service after a run took its next progress step at the time `now`.
    /// While the job is alive, its progress is raised to that of the step,
    /// and a run that is to fail and is past `FAILURE_AFTER_STEP` fails the
    /// job and frees the scanner. Where the job is no longer alive nothing
    /// changes: what ended the job stays as it is.
    pub open spec fn advanced(self, run: ScanRunView, now: Timestamp) -> ServiceView {
        if run.phase == RunPhase::Scanning && run.steps_done < SCAN_STEPS && self.alive(run.job_id) {
            let step = (run.steps_done + 1) as u32;
            let stepped = ServiceView {
                jobs: changed(self.jobs, run.job_id, JobChangeView::Progress(step_progress(step))),
                ..self
            };
            if run.should_fail && step > FAILURE_AFTER_STEP {
                stepped.run_ended(run, JobChangeView::Fail { reason: hardware_error(), at: now })
            } else {
                stepped
            }
        } else {
            self
        }
    }

    /// The service after a run that was making its file learned how that
    /// ended. While the job is alive it becomes terminal, whatever the
    /// outcome, and the scanner is freed. Where the job is no longer alive
    /// nothing changes.
    pub open spec fn finished(self, run: ScanRunView, outcome: SynthesisView, now: Timestamp) -> ServiceView {
        if run.phase == RunPhase::Synthesizing && self.alive(run.job_id) {
            self.run_ended(run, ending_change(outcome, now))
        } else {
            self
        }
    }
}

/// The last step of a job, by how the making of its file ended: completed
/// with the result, or failed with the reason why there is none.
pub open spec fn ending_change(outcome: SynthesisView, now: Timestamp) -> JobChangeView {
    match outcome {
        SynthesisView::Done(result) => JobChangeView::Complete { result, at: now },
        SynthesisView::DirectoryFailed(detail) => JobChangeView::Fail {
            reason: directory_error(detail),
            at: now,
        },
        SynthesisView::GenerationFailed(detail) => JobChangeView::Fail {
            reason: generation_error(detail),
            at: now,
        },
    }
}

/// The run that begins for a job: no step taken, the duration cut into
/// `SCAN_STEPS` equal delays. A run for a job that is not alive is over
/// before it began.
pub open spec fn new_run(job: ScanJobView, duration_ms: u64, should_fail: bool, alive: bool) -> ScanRunView {
    ScanRunView {
        job_id: job.id,
        scanner_id: job.scanner_id,
        document_type: job.document_type,
        scan_settings: job.scan_settings,
        steps_done: 0,
        step_delay_ms: duration_ms / (SCAN_STEPS as u64),
        should_fail,
        phase: if alive {
            RunPhase::Scanning
        } else {
            RunPhase::Finished
        },
    }
}

/// A run after its next progress step. A run whose job is no longer alive
/// is over.
pub open spec fn run_advanced(run: ScanRunView, alive: bool) -> ScanRunView {
    if run.phase == RunPhase::Scanning && run.steps_done < SCAN_STEPS {
        if alive {
            let step = (run.steps_done + 1) as u32;
            let phase = if run.should_fail && step > FAILURE_AFTER_STEP {
                RunPhase::Finished
            } else if step == SCAN_STEPS {
                RunPhase::Synthesizing
            } else {
                RunPhase::Scanning
            };
            ScanRunView { steps_done: step, phase, ..run }
        } else {
            ScanRunView { phase: RunPhase::Finished, ..run }
        }
    } else {
        run
    }
}

/// A run after the making of its file ended.
pub open spec fn run_finished(run: ScanRunView) -> ScanRunView {
    if run.phase == RunPhase::Synthesizing {
        ScanRunView { phase: RunPhase::Finished, ..run }
    } else {
        run
    }
}

// ------------------------------------------------------------- discovery

/// A scanner as discovery describes it, before it has an identifier.
pub open spec fn catalog_entry(
    name: Text,
    scanner_type: ScannerType,
    system_type: SystemType,
    max_resolution: u32,
    has_duplex: bool,
    has_adf: bool,
) -> ScannerView {
    ScannerView {
        id: Seq::empty(),
        name,
        scanner_type,
        status: ScannerStatusView::Available,
        capabilities: CapabilitiesView {
            max_resolution,
            has_duplex,
            has_adf,
            ..default_capabilities()
        },
        system_type,
    }
}

/// The scanners that discovery finds on each platform.
pub open spec fn catalog(platform: SystemType) -> Seq<ScannerView> {
    match platform {
        SystemType::Windows => seq![
            catalog_entry(
                "HP ScanJet Pro 2500 f1 (WIA)"@,
                ScannerType::DocumentFeeder,
                SystemType::Windows,
                1200,
                true,
                true,
            ),
            catalog_entry(
                "Canon CanoScan LiDE 400 (WIA)"@,
                ScannerType::Flatbed,
                SystemType::Windows,
                4800,
                false,
                false,
            ),
        ],
        SystemType::MacOS => seq![
            catalog_entry(
                "Brother MFC-L3770CDW"@,
                ScannerType::DocumentFeeder,
                SystemType::MacOS,
                1200,
                true,
                true,
            ),
            catalog_entry(
                "Epson Perfection V850 Pro"@,
                ScannerType::PhotoScanner,
                SystemType::MacOS,
                6400,
                false,
                false,
            ),
            catalog_entry(
                "Canon imageFORMULA R40"@,
                ScannerType::DocumentFeeder,
                SystemType::MacOS,
                600,
                true,
                true,
            ),
        ],
        SystemType::Linux => seq![
            catalog_entry(
                "HP LaserJet MFP M28w (SANE)"@,
                ScannerType::Flatbed,
                SystemType::Linux,
                1200,
                false,
                false,
            ),
            catalog_entry(
                "Epson ET-4850 (SANE)"@,
                ScannerType::Flatbed,
                SystemType::Linux,
                1200,
                false,
                true,
            ),
        ],
    }
}

/// `found` is `entry` under a fresh identifier.
pub open spec fn is_entry(found: ScannerView, entry: ScannerView) -> bool {
    found == (ScannerView { id: found.id, ..entry }) && found.id.len() == FRESH_ID_LEN
}

/// `found` is the catalog of the platform, entry by entry, each under a fresh
/// identifier.
pub open spec fn is_catalog(found: Seq<ScannerView>, platform: SystemType) -> bool {
    &&& found.len() == catalog(platform).len()
    &&& forall|i: int| 0 <= i < found.len() ==> is_entry(#[trigger] found[i], catalog(platform)[i])
}

/// The waits, in milliseconds, that discovery makes on each platform: one
/// before it starts, one for the query, one for each scanner found.
pub open spec fn discovery_waits(platform: SystemType) -> Seq<u64> {
    match platform {
        SystemType::Windows => seq![1500u64, 300, 200, 200],
        SystemType::MacOS => seq![1500u64, 400, 250, 300, 200],
        SystemType::Linux => seq![1500u64, 500, 300, 250],
    }
}

/// The name of the scanning interface of each platform.
pub open spec fn api_label(platform: SystemType) -> Text {
    match platform {
        SystemType::Windows => "Windows Image Acquisition (WIA)"@,
        SystemType::MacOS => "Image Capture Framework"@,
        SystemType::Linux => "Scanner Access Now Easy (SANE)"@,
    }
}

/// The chance, in hundredths, that a connection test of a scanner succeeds.
pub open spec fn connection_odds(scanner_type: ScannerType) -> u32 {
    match scanner_type {
        ScannerType::Flatbed => 95,
        ScannerType::DocumentFeeder => 90,
        ScannerType::SheetFed => 85,
        ScannerType::Handheld => 80,
        ScannerType::FilmScanner => 88,
        ScannerType::PhotoScanner => 92,
    }
}

} // verus!
