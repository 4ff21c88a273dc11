//! The lifecycle engine: what drives a started job to a terminal state.
//!
//! A run is a value. The caller keeps it, asks it what to do next, does
//! that (waits, or makes the output file) and reports back with one call on
//! the service, which is one indivisible step:
//!
//! 1. `launch_scan` marks the scanner busy and draws how long the scan takes
//!    and whether it is to fail.
//! 2. After each wait, `advance_scan` sets the progress of the job. A run
//!    that is to fail does so once it is past `FAILURE_AFTER_STEP`.
//! 3. After the last step the caller makes the file, and `finish_scan`
//!    records the outcome.
//!
//! Every step that ends a job leaves it in a terminal state and its
//! scanner, where it is known, available. Each step first looks at what the
//! job has become in between. A run acts only while its job is scanning or
//! processing: where the job was cancelled, or is gone, the run is over with
//! its next call and changes nothing, so that a terminal state is never left
//! and a scanner that may serve another job by now is not touched.

use crate::clock::{utc_now, Timestamp};
use crate::entities::{
    DocumentType, JobStatusView, ScanJob, ScanResult, ScanSettings, ScannerStatus,
    ScannerStatusView, PROGRESS_FULL,
};
use crate::guarantees::{lemma_scanner_keys, lemma_step};
use crate::job_store::JobChange;
use crate::keyed::{holds, item_at};
use crate::model::{
    ending_change, hardware_error, new_run, run_advanced, run_finished, step_progress, RunPhase,
    ScanRunView, SynthesisView, FAILURE_AFTER_STEP, FAILURE_ODDS, MAX_SCAN_MS, MIN_SCAN_MS,
    PROGRESS_PER_STEP, SCAN_STEPS,
};
use crate::random::{random_chance, random_in};
use crate::scanner_service::ScannerService;
use vstd::prelude::*;
use vstd::string::StringExecFns;

verus! {

/// One run of the lifecycle engine for one job. It holds what the job was
/// when it was started, not what it has become since.
#[derive(Debug)]
pub struct ScanRun {
    pub job_id: String,
    pub scanner_id: String,
    pub document_type: DocumentType,
    pub scan_settings: ScanSettings,
    pub steps_done: u32,
    pub step_delay_ms: u64,
    pub should_fail: bool,
    pub phase: RunPhase,
}

impl View for ScanRun {
    type V = ScanRunView;

    open spec fn view(&self) -> ScanRunView {
        ScanRunView {
            job_id: self.job_id@,
            scanner_id: self.scanner_id@,
            document_type: self.document_type,
            scan_settings: self.scan_settings,
            steps_done: self.steps_done,
            step_delay_ms: self.step_delay_ms,
            should_fail: self.should_fail,
            phase: self.phase,
        }
    }
}

/// What the caller of the engine is to do next.
#[derive(Debug, Clone, Copy, PartialEq, Eq, Structural)]
pub enum EngineAction {
    /// Wait so many milliseconds, then call `advance_scan`.
    Sleep(u64),
    /// Make the output file, then call `finish_scan`.
    Synthesize,
    /// Nothing: the run is over.
    Finished,
}

/// What a run asks of its caller.
pub open spec fn action_of(run: ScanRunView) -> EngineAction {
    match run.phase {
        RunPhase::Scanning => EngineAction::Sleep(run.step_delay_ms),
        RunPhase::Synthesizing => EngineAction::Synthesize,
        RunPhase::Finished => EngineAction::Finished,
    }
}

/// How the making of the output file ended.
#[derive(Debug)]
pub enum Synthesis {
    /// The file is written.
    Done(ScanResult),
    /// No output directory could be had; the text says why.
    DirectoryFailed(String),
    /// The file could not be written; the text says why.
    GenerationFailed(String),
}

impl View for Synthesis {
    type V = SynthesisView;

    open spec fn view(&self) -> SynthesisView {
        match self {
            Synthesis::Done(result) => SynthesisView::Done(result@),
            Synthesis::DirectoryFailed(detail) => SynthesisView::DirectoryFailed(detail@),
            Synthesis::GenerationFailed(detail) => SynthesisView::GenerationFailed(detail@),
        }
    }
}

impl ScanRun {
    pub open spec fn wf(&self) -> bool {
        self@.wf()
    }

    pub fn next_action(&self) -> (action: EngineAction)
        ensures
            action == action_of(self@),
    {
        match self.phase {
            RunPhase::Scanning => EngineAction::Sleep(self.step_delay_ms),
            RunPhase::Synthesizing => EngineAction::Synthesize,
            RunPhase::Finished => EngineAction::Finished,
        }
    }

    pub fn is_finished(&self) -> (finished: bool)
        ensures
            finished == (self@.phase == RunPhase::Finished),
    {
        self.phase == RunPhase::Finished
    }
}

impl ScannerService {
    /// Begins a run for a job that takes `duration_ms` in all and is to fail
    /// or not. Where the job is scanning, its scanner is busy from now on (a
    /// scanner that is not known is passed over). Where it is not, because it
    /// was cancelled or never started, nothing changes and the run is over
    /// before it began.
    pub fn begin_scan(&mut self, job: &ScanJob, duration_ms: u64, should_fail: bool) -> (run: ScanRun)
        requires
            old(self).wf(),
        ensures
            final(self).wf(),
            final(self)@ == old(self)@.begun(job@),
            run@ == new_run(job@, duration_ms, should_fail, old(self)@.alive(job@.id)),
            run.wf(),
            old(self)@.alive(job@.id) && holds(old(self)@.scanners, job@.scanner_id) ==> item_at(
                final(self)@.scanners,
                job@.scanner_id,
            ).status is Busy,
    {
        proof {
            lemma_scanner_keys(self@.scanners, job@.scanner_id, ScannerStatusView::Busy);
        }
        let alive = self.job_alive(job.id.as_str());
        if alive {
            self.mark_scanner(job.scanner_id.as_str(), ScannerStatus::Busy);
        }
        ScanRun {
            job_id: job.id.clone(),
            scanner_id: job.scanner_id.clone(),
            document_type: job.document_type,
            scan_settings: job.scan_settings,
            steps_done: 0,
            step_delay_ms: duration_ms / (SCAN_STEPS as u64),
            should_fail,
            phase: if alive {
                RunPhase::Scanning
            } else {
                RunPhase::Finished
            },
        }
    }

    /// Begins a run for a job. How long the scan takes is drawn between
    /// `MIN_SCAN_MS` and `MAX_SCAN_MS`; one run in `FAILURE_ODDS` is to fail.
    pub fn launch_scan(&mut self, job: &ScanJob) -> (run: ScanRun)
        requires
            old(self).wf(),
        ensures
            final(self).wf(),
            final(self)@ == old(self)@.begun(job@),
            run.wf(),
            old(self)@.alive(job@.id) && holds(old(self)@.scanners, job@.scanner_id) ==> item_at(
                final(self)@.scanners,
                job@.scanner_id,
            ).status is Busy,
            exists|duration_ms: u64, should_fail: bool|
                MIN_SCAN_MS <= duration_ms < MAX_SCAN_MS && run@ == #[trigger] new_run(
                    job@,
                    duration_ms,
                    should_fail,
                    old(self)@.alive(job@.id),
                ),
    {
        let duration_ms = random_in(MIN_SCAN_MS, MAX_SCAN_MS);
        let should_fail = random_chance(1, FAILURE_ODDS);
        self.begin_scan(job, duration_ms, should_fail)
    }

    /// Ends a run: its job takes the last step, its scanner is available,
    /// the run is over.
    fn end_run(&mut self, run: &mut ScanRun, change: JobChange)
        requires
            old(self).wf(),
            change@ is Fail || change@ is Complete,
        ensures
            final(self).wf(),
            final(self)@ == old(self)@.run_ended(old(run)@, change@),
            final(run)@ == (ScanRunView { phase: RunPhase::Finished, ..old(run)@ }),
    {
        self.change_job(run.job_id.as_str(), change);
        self.mark_scanner(run.scanner_id.as_str(), ScannerStatus::Available);
        run.phase = RunPhase::Finished;
    }

    /// Takes the next progress step of a run, at the time `now`.
    ///
    /// While the job of the run is scanning, its progress is raised to that
    /// of the step, never lowered; a run that is to fail and is past
    /// `FAILURE_AFTER_STEP` fails the job and frees the scanner. Where the
    /// job is no longer scanning (it was cancelled, say), nothing changes and
    /// the run is over. A run that is not scanning is left as it is, and so
    /// is the service.
    pub fn advance_scan_at(&mut self, run: &mut ScanRun, now: Timestamp)
        requires
            old(self).wf(),
            old(run).wf(),
        ensures
            final(self).wf(),
            final(run).wf(),
            final(self)@ == old(self)@.advanced(old(run)@, now),
            final(run)@ == run_advanced(old(run)@, old(self)@.alive(old(run)@.job_id)),
            !old(self)@.alive(old(run)@.job_id) ==> final(self)@ == old(self)@ && (old(run)@.phase
                == RunPhase::Scanning ==> final(run)@.phase == RunPhase::Finished),
            old(run)@.phase == RunPhase::Scanning && old(self)@.alive(old(run)@.job_id) ==> {
                let before = item_at(old(self)@.jobs, old(run)@.job_id);
                let job = item_at(final(self)@.jobs, old(run)@.job_id);
                &&& before.progress <= job.progress <= PROGRESS_FULL
                &&& step_progress(final(run)@.steps_done) <= job.progress
                &&& final(run)@.phase == RunPhase::Finished ==> job.status == JobStatusView::Failed(
                    hardware_error(),
                )
                &&& final(run)@.phase == RunPhase::Finished && holds(
                    old(self)@.scanners,
                    old(run)@.scanner_id,
                ) ==> item_at(final(self)@.scanners, old(run)@.scanner_id).status is Available
            },
    {
        proof {
            lemma_step(self@, run@, SynthesisView::DirectoryFailed(Seq::empty()), now);
        }
        if run.phase == RunPhase::Scanning && run.steps_done < SCAN_STEPS {
            if !self.job_alive(run.job_id.as_str()) {
                run.phase = RunPhase::Finished;
                return ;
            }
            let step: u32 = run.steps_done + 1;
            let progress: u32 = step * PROGRESS_PER_STEP;
            self.change_job(run.job_id.as_str(), JobChange::Progress(progress));
            run.steps_done = step;
            if run.should_fail && step > FAILURE_AFTER_STEP {
                self.end_run(
                    run,
                    JobChange::Fail { reason: "Scanner hardware error".to_owned(), at: now },
                );
            } else if step == SCAN_STEPS {
                run.phase = RunPhase::Synthesizing;
            }
        }
    }

    /// Takes the next progress step of a run, now.
    pub fn advance_scan(&mut self, run: &mut ScanRun)
        requires
            old(self).wf(),
            old(run).wf(),
        ensures
            final(self).wf(),
            final(run).wf(),
            final(run)@ == run_advanced(old(run)@, old(self)@.alive(old(run)@.job_id)),
            exists|now: Timestamp| final(self)@ == #[trigger] old(self)@.advanced(old(run)@, now),
            !old(self)@.alive(old(run)@.job_id) ==> final(self)@ == old(self)@ && (old(run)@.phase
                == RunPhase::Scanning ==> final(run)@.phase == RunPhase::Finished),
            old(run)@.phase == RunPhase::Scanning && old(self)@.alive(old(run)@.job_id) ==> {
                let before = item_at(old(self)@.jobs, old(run)@.job_id);
                let job = item_at(final(self)@.jobs, old(run)@.job_id);
                &&& before.progress <= job.progress <= PROGRESS_FULL
                &&& step_progress(final(run)@.steps_done) <= job.progress
                &&& final(run)@.phase == RunPhase::Finished ==> job.status == JobStatusView::Failed(
                    hardware_error(),
                )
                &&& final(run)@.phase == RunPhase::Finished && holds(
                    old(self)@.scanners,
                    old(run)@.scanner_id,
                ) ==> item_at(final(self)@.scanners, old(run)@.scanner_id).status is Available
            },
    {
        let now = utc_now();
        self.advance_scan_at(run, now);
    }

    /// Ends a run that was making its file, at the time `now`.
    ///
    /// While the job of the run is scanning, it is completed with the result,
    /// or failed with the reason why there is none, and the scanner is
    /// available. Where the job is no longer scanning (it was cancelled,
    /// say), nothing changes: the cancellation stays. Either way the run is
    /// over. A run that is not making its file is left as it is, and so is
    /// the service.
    pub fn finish_scan_at(&mut self, run: &mut ScanRun, outcome: Synthesis, now: Timestamp)
        requires
            old(self).wf(),
            old(run).wf(),
        ensures
            final(self).wf(),
            final(run).wf(),
            final(self)@ == old(self)@.finished(old(run)@, outcome@, now),
            final(run)@ == run_finished(old(run)@),
            !old(self)@.alive(old(run)@.job_id) ==> final(self)@ == old(self)@,
            old(run)@.phase == RunPhase::Synthesizing && old(self)@.alive(old(run)@.job_id) ==> {
                let before = item_at(old(self)@.jobs, old(run)@.job_id);
                let job = item_at(final(self)@.jobs, old(run)@.job_id);
                &&& job.status is Completed || job.status is Failed
                &&& job.status is Completed <==> outcome@ is Done
                &&& job.status is Completed ==> job.progress == PROGRESS_FULL
                &&& before.progress <= job.progress
                &&& holds(old(self)@.scanners, old(run)@.scanner_id) ==> item_at(
                    final(self)@.scanners,
                    old(run)@.scanner_id,
                ).status is Available
            },
    {
        proof {
            lemma_step(self@, run@, outcome@, now);
        }
        if run.phase == RunPhase::Synthesizing {
            if !self.job_alive(run.job_id.as_str()) {
                run.phase = RunPhase::Finished;
                return ;
            }
            let change = match outcome {
                Synthesis::Done(result) => JobChange::Complete { result, at: now },
                Synthesis::DirectoryFailed(detail) => {
                    let mut reason = "Failed to create output directory: ".to_owned();
                    reason.append(detail.as_str());
                    JobChange::Fail { reason, at: now }
                },
                Synthesis::GenerationFailed(detail) => {
                    let mut reason = "Failed to generate file: ".to_owned();
                    reason.append(detail.as_str());
                    JobChange::Fail { reason, at: now }
                },
            };
            assert(change@ == ending_change(outcome@, now));
            self.end_run(run, change);
        }
    }

    /// Ends a run that was making its file, now.
    pub fn finish_scan(&mut self, run: &mut ScanRun, outcome: Synthesis)
        requires
            old(self).wf(),
            old(run).wf(),
        ensures
            final(self).wf(),
            final(run).wf(),
            final(run)@ == run_finished(old(run)@),
            exists|now: Timestamp|
                final(self)@ == #[trigger] old(self)@.finished(old(run)@, outcome@, now),
            !old(self)@.alive(old(run)@.job_id) ==> final(self)@ == old(self)@,
            old(run)@.phase == RunPhase::Synthesizing && old(self)@.alive(old(run)@.job_id) ==> {
                let before = item_at(old(self)@.jobs, old(run)@.job_id);
                let job = item_at(final(self)@.jobs, old(run)@.job_id);
                &&& job.status is Completed || job.status is Failed
                &&& job.status is Completed <==> outcome@ is Done
                &&& job.status is Completed ==> job.progress == PROGRESS_FULL
                &&& before.progress <= job.progress
                &&& holds(old(self)@.scanners, old(run)@.scanner_id) ==> item_at(
                    final(self)@.scanners,
                    old(run)@.scanner_id,
                ).status is Available
            },
    {
        let now = utc_now();
        self.finish_scan_at(run, outcome, now);
    }
}

} // verus!
