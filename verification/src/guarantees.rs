//! What holds of the service whatever its callers do, proved over the model.

use crate::clock::Timestamp;
use crate::entities::{
    DocumentType, ScanJobView, ScanSettings, ScannerStatusView, ScannerView, PROGRESS_FULL,
};
use crate::job_store::{
    active_on, apply_change, changed, exclusive, holds_scanner, is_held,
    lemma_active_on_nonempty, lemma_anchor_changed, lemma_anchor_scanners, lemma_anchor_upsert,
    lemma_changed_distinct, lemma_exclusive_upsert, lemma_settled, lemma_upsert_bounded, settled,
    stranded, JobChangeView,
};
use crate::keyed::{
    distinct, holds, item_at, keys, lemma_held, lemma_replaced_distinct,
    lemma_upsert_all_distinct, lemma_upsert_all_fresh, lemma_upsert_distinct, lemma_upsert_keeps,
    lemma_without_distinct, lemma_without_keeps, place, upsert_all, Text,
};
use crate::model::{
    ending_change, hardware_error, new_run, run_advanced, run_finished, step_progress, RunPhase,
    ScanRunView, ServiceView, SynthesisView, SCAN_STEPS,
};
use crate::registry::{lemma_with_status_distinct, with_status};
use vstd::prelude::*;

verus! {

// ------------------------------------------------------------ single steps

/// A change of status changes no identifier in the registry.
pub proof fn lemma_scanner_keys(scanners: Seq<ScannerView>, id: Text, status: ScannerStatusView)
    requires
        distinct(scanners),
    ensures
        distinct(with_status(scanners, id, status)),
        keys(with_status(scanners, id, status)) == keys(scanners),
        holds(scanners, id) ==> item_at(with_status(scanners, id, status), id).status == status,
{
    lemma_with_status_distinct(scanners, id, status);
    if holds(scanners, id) {
        lemma_held(scanners, id);
        lemma_replaced_distinct(scanners, id, item_at(scanners, id).with_status(status));
    }
}

/// Where one job is replaced by one that keeps no scanner busy, or by one on
/// a scanner that no other job keeps busy, no scanner comes to be kept busy
/// by two.
proof fn lemma_update_exclusive(jobs: Seq<ScanJobView>, i: int, job: ScanJobView)
    requires
        exclusive(jobs),
        0 <= i < jobs.len(),
        !holds_scanner(job) || (forall|k: int|
            0 <= k < jobs.len() && k != i && holds_scanner(#[trigger] jobs[k])
                ==> jobs[k].scanner_id != job.scanner_id),
    ensures
        exclusive(jobs.update(i, job)),
{
    let out = jobs.update(i, job);
    assert forall|a: int, b: int|
        0 <= a < out.len() && 0 <= b < out.len() && a != b && holds_scanner(#[trigger] out[a])
            && holds_scanner(#[trigger] out[b]) implies out[a].scanner_id != out[b].scanner_id by {
        if a != i && b != i {
            assert(holds_scanner(jobs[a]) && holds_scanner(jobs[b]));
        } else if a == i {
            assert(holds_scanner(jobs[b]));
        } else {
            assert(holds_scanner(jobs[a]));
        }
    }
}

/// A step of a job that does not set it scanning keeps the scanners
/// exclusive.
proof fn lemma_change_exclusive(jobs: Seq<ScanJobView>, id: Text, change: JobChangeView)
    requires
        distinct(jobs),
        exclusive(jobs),
        !(change is Start),
    ensures
        exclusive(changed(jobs, id, change)),
{
    if holds(jobs, id) {
        lemma_held(jobs, id);
        let i = place(jobs, id);
        let job = apply_change(jobs[i], change);
        if holds_scanner(job) {
            assert(change is Progress);
            assert(holds_scanner(jobs[i]));
            assert forall|k: int|
                0 <= k < jobs.len() && k != i && holds_scanner(#[trigger] jobs[k])
                    implies jobs[k].scanner_id != job.scanner_id by {
                assert(holds_scanner(jobs[i]));
            }
        }
        lemma_update_exclusive(jobs, i, job);
    }
}

// ------------------------------------------ what every operation keeps

/// A job that is taken leaves the service well formed: it is pending, has
/// made no more than all of its progress, and its scanner is known.
pub proof fn lemma_take_keeps_wf(service: ServiceView, job: ScanJobView)
    requires
        service.wf(),
        job.in_range(),
        !holds_scanner(job),
        job.status.is_terminal() || holds(service.scanners, job.scanner_id),
    ensures
        service.with_job(job).wf(),
        holds(service.with_job(job).jobs, job.id),
        item_at(service.with_job(job).jobs, job.id) == job,
{
    lemma_upsert_distinct(service.jobs, job);
    lemma_upsert_bounded(service.jobs, job);
    lemma_exclusive_upsert(service.jobs, job);
    lemma_anchor_upsert(service.jobs, service.scanners, job);
}

/// A step of a job other than a start leaves the service well formed, where
/// the step ends the job or the job still had work before it.
pub proof fn lemma_change_keeps_wf(service: ServiceView, job_id: Text, change: JobChangeView)
    requires
        service.wf(),
        !(change is Start),
        holds(service.jobs, job_id) ==> apply_change(
            item_at(service.jobs, job_id),
            change,
        ).status.is_terminal() || item_at(service.jobs, job_id).status.is_active(),
    ensures
        (ServiceView { jobs: changed(service.jobs, job_id, change), ..service }).wf(),
{
    lemma_changed_distinct(service.jobs, job_id, change);
    lemma_change_exclusive(service.jobs, job_id, change);
    lemma_anchor_changed(service.jobs, service.scanners, job_id, change);
}

/// A change of a scanner's status leaves the service well formed.
pub proof fn lemma_status_keeps_wf(service: ServiceView, scanner_id: Text, status: ScannerStatusView)
    requires
        service.wf(),
    ensures
        service.with_scanner_status(scanner_id, status).wf(),
        keys(service.with_scanner_status(scanner_id, status).scanners) == keys(service.scanners),
        holds(service.scanners, scanner_id) ==> item_at(
            service.with_scanner_status(scanner_id, status).scanners,
            scanner_id,
        ).status == status,
{
    lemma_scanner_keys(service.scanners, scanner_id, status);
    lemma_anchor_scanners(
        service.jobs,
        service.scanners,
        with_status(service.scanners, scanner_id, status),
    );
}

/// A scanner that is added leaves the service well formed.
pub proof fn lemma_add_keeps_wf(service: ServiceView, scanner: ScannerView)
    requires
        service.wf(),
    ensures
        service.with_scanner(scanner).wf(),
{
    lemma_upsert_distinct(service.scanners, scanner);
    let after = service.with_scanner(scanner).scanners;
    assert forall|id: Text| #[trigger] holds(service.scanners, id) implies holds(after, id) by {
        lemma_upsert_keeps(service.scanners, scanner, id);
    }
    lemma_anchor_scanners(service.jobs, service.scanners, after);
}

/// A scanner without active jobs that is removed leaves the service well
/// formed: no job that still has work before it loses its scanner.
pub proof fn lemma_remove_keeps_wf(service: ServiceView, scanner_id: Text)
    requires
        service.wf(),
        active_on(service.jobs, scanner_id).len() == 0,
    ensures
        service.without_scanner(scanner_id).wf(),
        !holds(service.without_scanner(scanner_id).scanners, scanner_id),
{
    lemma_without_distinct(service.scanners, scanner_id);
    let after = service.without_scanner(scanner_id).scanners;
    assert forall|i: int| 0 <= i < service.jobs.len() implies (
    #[trigger] service.jobs[i]).status.is_terminal() || holds(after, service.jobs[i].scanner_id) by {
        let job = service.jobs[i];
        if !job.status.is_terminal() {
            assert(holds(service.scanners, job.scanner_id));
            if job.scanner_id == scanner_id {
                lemma_active_on_nonempty(service.jobs, scanner_id, i);
            }
            lemma_without_keeps(service.scanners, scanner_id, job.scanner_id);
        }
    }
}

/// The start of a job leaves the service well formed.
pub proof fn lemma_start_keeps_wf(service: ServiceView, job_id: Text)
    requires
        service.wf(),
    ensures
        service.started(job_id).wf(),
{
    lemma_start_keeps_exclusive(service, job_id);
    if service.can_start(job_id) {
        lemma_changed_distinct(service.jobs, job_id, JobChangeView::Start);
        lemma_anchor_changed(service.jobs, service.scanners, job_id, JobChangeView::Start);
    }
}

/// What one call on a run does to the service.
///
/// - The store and the registry stay well formed, no identifier comes or
///   goes, and no scanner comes to be kept busy by two jobs.
/// - Where the job of the run is no longer alive (it was cancelled, or came
///   to another terminal state), nothing changes: a terminal state is never
///   left, and the scanner, which may serve another job by now, is not
///   touched.
/// - A progress step on a job that is alive raises its progress to that of
///   the step and never lowers it. The step that fails the job records the
///   reason and the time and frees the scanner.
/// - The end of the file making on a job that is alive leaves the job
///   completed, with all progress made and the result kept, or failed with
///   the reason, and frees the scanner.
pub proof fn lemma_step(service: ServiceView, run: ScanRunView, outcome: SynthesisView, now: Timestamp)
    requires
        service.wf(),
        run.wf(),
    ensures
        ({
            let stepped = service.advanced(run, now);
            let ended = service.finished(run, outcome, now);
            let before = item_at(service.jobs, run.job_id);
            let next = run_advanced(run, true);
            &&& stepped.wf() && ended.wf()
            &&& keys(stepped.jobs) == keys(service.jobs) && keys(ended.jobs) == keys(service.jobs)
            &&& keys(stepped.scanners) == keys(service.scanners) && keys(ended.scanners) == keys(
                service.scanners,
            )
            &&& exclusive(service.jobs) ==> exclusive(stepped.jobs) && exclusive(ended.jobs)
            &&& !service.alive(run.job_id) ==> stepped == service && ended == service
            &&& service.alive(run.job_id) && run.phase == RunPhase::Scanning ==> {
                let after = item_at(stepped.jobs, run.job_id);
                let raised = before.progressed(step_progress(next.steps_done));
                &&& before.progress <= after.progress <= PROGRESS_FULL
                &&& step_progress(next.steps_done) <= after.progress
                &&& after.progress == raised.progress
                &&& next.phase != RunPhase::Finished ==> after == raised && stepped.scanners
                    == service.scanners
                &&& next.phase == RunPhase::Finished ==> after == raised.failed(hardware_error(), now)
                    && (holds(service.scanners, run.scanner_id) ==> item_at(
                    stepped.scanners,
                    run.scanner_id,
                ).status is Available)
            }
            &&& service.alive(run.job_id) && run.phase == RunPhase::Synthesizing ==> {
                let after = item_at(ended.jobs, run.job_id);
                &&& after == apply_change(before, ending_change(outcome, now))
                &&& after.status is Completed || after.status is Failed
                &&& after.status is Completed <==> outcome is Done
                &&& before.progress <= after.progress
                &&& after.status is Completed ==> after.progress == PROGRESS_FULL
                &&& holds(service.scanners, run.scanner_id) ==> item_at(
                    ended.scanners,
                    run.scanner_id,
                ).status is Available
            }
        }),
{
    let step = (run.steps_done + 1) as u32;
    let progress = JobChangeView::Progress(step_progress(step));
    let fail = JobChangeView::Fail { reason: hardware_error(), at: now };
    let raised = changed(service.jobs, run.job_id, progress);
    lemma_changed_distinct(service.jobs, run.job_id, progress);
    lemma_changed_distinct(raised, run.job_id, fail);
    lemma_changed_distinct(service.jobs, run.job_id, ending_change(outcome, now));
    lemma_scanner_keys(service.scanners, run.scanner_id, ScannerStatusView::Available);
    lemma_change_exclusive(service.jobs, run.job_id, progress);
    lemma_change_exclusive(raised, run.job_id, fail);
    lemma_change_exclusive(service.jobs, run.job_id, ending_change(outcome, now));
    let freed = with_status(service.scanners, run.scanner_id, ScannerStatusView::Available);
    if service.alive(run.job_id) {
        lemma_held(service.jobs, run.job_id);
        assert(item_at(service.jobs, run.job_id).in_range());
        lemma_anchor_changed(service.jobs, service.scanners, run.job_id, progress);
        lemma_anchor_changed(raised, service.scanners, run.job_id, fail);
        lemma_anchor_changed(
            service.jobs,
            service.scanners,
            run.job_id,
            ending_change(outcome, now),
        );
        lemma_anchor_scanners(changed(raised, run.job_id, fail), service.scanners, freed);
        lemma_anchor_scanners(
            changed(service.jobs, run.job_id, ending_change(outcome, now)),
            service.scanners,
            freed,
        );
    }
}

// ------------------------------------------------------- a run comes to an end

/// How many calls a run still needs before it is over, at the most.
pub open spec fn remaining(run: ScanRunView) -> nat {
    match run.phase {
        RunPhase::Finished => 0,
        RunPhase::Synthesizing => 1,
        RunPhase::Scanning => (SCAN_STEPS - run.steps_done + 1) as nat,
    }
}

/// The service and the run after the run was driven to its end: each
/// progress step taken, then the outcome of the file recorded. `clock` gives
/// the time of each call, by what then remained.
pub open spec fn driven(
    service: ServiceView,
    run: ScanRunView,
    outcome: SynthesisView,
    clock: spec_fn(nat) -> Timestamp,
) -> (ServiceView, ScanRunView)
    decreases remaining(run),
{
    if !run.wf() || run.phase == RunPhase::Finished {
        (service, run)
    } else if run.phase == RunPhase::Scanning {
        driven(
            service.advanced(run, clock(remaining(run))),
            run_advanced(run, service.alive(run.job_id)),
            outcome,
            clock,
        )
    } else {
        driven(service.finished(run, outcome, clock(1)), run_finished(run), outcome, clock)
    }
}

/// Every call on a run that is not over brings it nearer to its end, so a run
/// is over after `SCAN_STEPS` steps and one more call at the most.
pub proof fn lemma_run_shortens(run: ScanRunView, alive: bool)
    requires
        run.wf(),
        run.phase != RunPhase::Finished,
    ensures
        remaining(run) <= SCAN_STEPS + 1,
        run.phase == RunPhase::Scanning ==> remaining(run_advanced(run, alive)) < remaining(run)
            && run_advanced(run, alive).wf(),
        run.phase == RunPhase::Synthesizing ==> remaining(run_finished(run)) < remaining(run)
            && run_finished(run).wf(),
{
}

/// A run that is driven to its end is over, and its job is then in a
/// terminal state.
///
/// - Where the job was alive when the run was taken up, it is completed or
///   failed: completed exactly where the run was not to fail (or was past
///   its steps already) and the file was made. The scanner of the run, where
///   it is known, is available.
/// - Where the job had come to a terminal state before, the run changes
///   nothing.
pub proof fn lemma_run_ends(
    service: ServiceView,
    run: ScanRunView,
    outcome: SynthesisView,
    clock: spec_fn(nat) -> Timestamp,
)
    requires
        service.wf(),
        run.wf(),
        run.phase != RunPhase::Finished,
        holds(service.jobs, run.job_id),
        !(item_at(service.jobs, run.job_id).status is Pending),
    ensures
        ({
            let (end, last) = driven(service, run, outcome, clock);
            let job = item_at(end.jobs, run.job_id);
            &&& end.wf()
            &&& last.phase == RunPhase::Finished
            &&& holds(end.jobs, run.job_id)
            &&& job.status.is_terminal()
            &&& !service.alive(run.job_id) ==> end == service
            &&& service.alive(run.job_id) ==> {
                &&& job.status is Completed || job.status is Failed
                &&& job.status is Completed <==> outcome is Done && (run.phase
                    == RunPhase::Synthesizing || !run.should_fail)
                &&& job.status is Completed ==> job.progress == PROGRESS_FULL
                &&& job.status is Completed ==> (outcome matches SynthesisView::Done(result)
                    && job.scan_result == Some(result))
                &&& holds(service.scanners, run.scanner_id) ==> holds(end.scanners, run.scanner_id)
                    && item_at(end.scanners, run.scanner_id).status is Available
            }
        }),
    decreases remaining(run),
{
    let alive = service.alive(run.job_id);
    lemma_run_shortens(run, alive);
    if run.phase == RunPhase::Scanning {
        let now = clock(remaining(run));
        let next = service.advanced(run, now);
        let next_run = run_advanced(run, alive);
        lemma_step(service, run, outcome, now);
        assert(holds(next.jobs, run.job_id));
        assert(holds(service.scanners, run.scanner_id) ==> holds(next.scanners, run.scanner_id));
        assert(driven(service, run, outcome, clock) == driven(next, next_run, outcome, clock));
        if next_run.phase == RunPhase::Finished {
            assert(driven(next, next_run, outcome, clock) == (next, next_run));
        } else {
            assert(next.alive(run.job_id));
            lemma_run_ends(next, next_run, outcome, clock);
        }
    } else {
        let now = clock(1);
        let next = service.finished(run, outcome, now);
        let next_run = run_finished(run);
        lemma_step(service, run, outcome, now);
        assert(holds(next.jobs, run.job_id));
        assert(driven(service, run, outcome, clock) == driven(next, next_run, outcome, clock));
        assert(driven(next, next_run, outcome, clock) == (next, next_run));
    }
}

/// A job that is created for an available scanner and started while no other
/// job keeps that scanner busy comes to exactly one terminal state once its
/// run is driven to the end: completed, with all progress made and the
/// result kept, where the run was not to fail and the file was made; failed
/// otherwise. Its scanner is then available.
pub proof fn lemma_started_job_ends(
    service: ServiceView,
    job_id: Text,
    scanner_id: Text,
    document_type: DocumentType,
    scan_settings: ScanSettings,
    created_at: Timestamp,
    duration_ms: u64,
    should_fail: bool,
    outcome: SynthesisView,
    clock: spec_fn(nat) -> Timestamp,
)
    requires
        service.wf(),
        service.can_create(scanner_id),
        !is_held(
            service.with_job(
                ScanJobView::created(job_id, scanner_id, document_type, scan_settings, created_at),
            ).jobs,
            scanner_id,
        ),
    ensures
        ({
            let created = ScanJobView::created(
                job_id,
                scanner_id,
                document_type,
                scan_settings,
                created_at,
            );
            let started = service.with_job(created).started(job_id);
            let snapshot = item_at(started.jobs, job_id);
            let begun = started.begun(snapshot);
            let (end, last) = driven(
                begun,
                new_run(snapshot, duration_ms, should_fail, started.alive(job_id)),
                outcome,
                clock,
            );
            let job = item_at(end.jobs, job_id);
            &&& snapshot == created.started()
            &&& item_at(begun.scanners, scanner_id).status is Busy
            &&& last.phase == RunPhase::Finished
            &&& holds(end.jobs, job_id)
            &&& job.status is Completed || job.status is Failed
            &&& job.status is Completed <==> !should_fail && outcome is Done
            &&& job.status is Completed ==> job.progress == PROGRESS_FULL
            &&& job.status is Completed ==> (outcome matches SynthesisView::Done(result)
                && job.scan_result == Some(result))
            &&& item_at(end.scanners, scanner_id).status is Available
        }),
{
    let created = ScanJobView::created(job_id, scanner_id, document_type, scan_settings, created_at);
    lemma_take_keeps_wf(service, created);
    let taken = service.with_job(created);
    lemma_changed_distinct(taken.jobs, job_id, JobChangeView::Start);
    lemma_start_keeps_wf(taken, job_id);
    let started = taken.started(job_id);
    let snapshot = item_at(started.jobs, job_id);
    lemma_status_keeps_wf(started, scanner_id, ScannerStatusView::Busy);
    let begun = started.begun(snapshot);
    let run = new_run(snapshot, duration_ms, should_fail, started.alive(job_id));
    assert(started.alive(job_id));
    lemma_run_ends(begun, run, outcome, clock);
}

/// What ended a job stays. Once a job is cancelled, completed or failed, no
/// call on a run for it changes the service, and the run is over: a run
/// cannot be begun for it, a progress step ends the run, and so does the end
/// of the file making.
pub proof fn lemma_terminal_state_stays(
    service: ServiceView,
    run: ScanRunView,
    outcome: SynthesisView,
    now: Timestamp,
)
    requires
        holds(service.jobs, run.job_id),
        item_at(service.jobs, run.job_id).status.is_terminal(),
        run.wf(),
    ensures
        !service.alive(run.job_id),
        service.begun(item_at(service.jobs, run.job_id)) == service,
        service.advanced(run, now) == service,
        service.finished(run, outcome, now) == service,
        run.phase == RunPhase::Scanning ==> run_advanced(run, false).phase == RunPhase::Finished,
        run.phase == RunPhase::Synthesizing ==> run_finished(run).phase == RunPhase::Finished,
        !service.can_start(run.job_id),
        !service.can_cancel(run.job_id),
{
    lemma_held(service.jobs, run.job_id);
}

// ------------------------------------------- one job at a time on a scanner

/// A start keeps the scanners exclusive: it sets a job scanning only while
/// no other job keeps the scanner of that job busy.
pub proof fn lemma_start_keeps_exclusive(service: ServiceView, job_id: Text)
    requires
        service.wf(),
    ensures
        exclusive(service.started(job_id).jobs),
{
    if service.can_start(job_id) {
        lemma_held(service.jobs, job_id);
        let i = place(service.jobs, job_id);
        let begun = service.jobs[i].started();
        assert forall|k: int|
            0 <= k < service.jobs.len() && k != i && holds_scanner(#[trigger] service.jobs[k])
                implies service.jobs[k].scanner_id != begun.scanner_id by {
            assert(!is_held(service.jobs, begun.scanner_id));
        }
        lemma_update_exclusive(service.jobs, i, begun);
    }
}

/// At most one job keeps a scanner busy, and no operation ends that: taking a
/// job, starting one, cancelling one, the steps of a run, a discovery and
/// every change to the registry keep the scanners exclusive. A start is
/// refused while another job keeps the scanner busy.
pub proof fn lemma_exclusive_kept(
    service: ServiceView,
    job: ScanJobView,
    job_id: Text,
    run: ScanRunView,
    outcome: SynthesisView,
    found: Seq<ScannerView>,
    now: Timestamp,
)
    requires
        service.wf(),
        run.wf(),
    ensures
        exclusive(service.jobs),
        job.status is Pending ==> exclusive(service.with_job(job).jobs),
        exclusive(service.started(job_id).jobs),
        exclusive(service.cancelled(job_id, now).jobs),
        exclusive(service.begun(job).jobs),
        exclusive(service.advanced(run, now).jobs),
        exclusive(service.finished(run, outcome, now).jobs),
        exclusive(service.rediscovered(found, now).jobs),
{
    // taking a job
    if job.status is Pending {
        if holds(service.jobs, job.id) {
            lemma_held(service.jobs, job.id);
            lemma_update_exclusive(service.jobs, place(service.jobs, job.id), job);
        } else {
            let out = service.jobs.push(job);
            assert forall|a: int, b: int|
                0 <= a < out.len() && 0 <= b < out.len() && a != b && holds_scanner(
                    #[trigger] out[a],
                ) && holds_scanner(#[trigger] out[b]) implies out[a].scanner_id
                != out[b].scanner_id by {
                assert(holds_scanner(service.jobs[a]) && holds_scanner(service.jobs[b]));
            }
        }
    }
    // a start
    lemma_start_keeps_exclusive(service, job_id);
    // cancelling, the steps of a run, a discovery
    lemma_change_exclusive(service.jobs, job_id, JobChangeView::Cancel { at: now });
    lemma_step(service, run, outcome, now);
    lemma_settled(service.jobs, upsert_all(Seq::empty(), found), now);
}

/// A job that was cancelled is cancelled, with the time recorded, and its
/// scanner, where it is known, is available.
pub proof fn lemma_cancel_frees(service: ServiceView, job_id: Text, now: Timestamp)
    requires
        service.wf(),
        service.can_cancel(job_id),
    ensures
        ({
            let after = service.cancelled(job_id, now);
            let scanner_id = item_at(service.jobs, job_id).scanner_id;
            &&& after.wf()
            &&& item_at(after.jobs, job_id) == item_at(service.jobs, job_id).cancelled(now)
            &&& holds(service.scanners, scanner_id) ==> item_at(after.scanners, scanner_id).status
                is Available
        }),
{
    let cancel = JobChangeView::Cancel { at: now };
    lemma_changed_distinct(service.jobs, job_id, cancel);
    lemma_change_keeps_wf(service, job_id, cancel);
    lemma_status_keeps_wf(
        ServiceView { jobs: changed(service.jobs, job_id, cancel), ..service },
        item_at(service.jobs, job_id).scanner_id,
        ScannerStatusView::Available,
    );
}

// ------------------------------------------------------ progress only grows

/// The progress of a job never falls and never passes `PROGRESS_FULL`:
/// not by a report of progress, whatever it says, not by a step of a run,
/// not by the end of a run, and not by a cancellation, which leaves it as it
/// is. The step that completes the job sets it to `PROGRESS_FULL` exactly.
pub proof fn lemma_progress_grows(
    service: ServiceView,
    run: ScanRunView,
    outcome: SynthesisView,
    report: u32,
    now: Timestamp,
)
    requires
        service.wf(),
        run.wf(),
        holds(service.jobs, run.job_id),
    ensures
        ({
            let before = item_at(service.jobs, run.job_id);
            let reported = before.progressed(report);
            let stepped = item_at(service.advanced(run, now).jobs, run.job_id);
            let ended = item_at(service.finished(run, outcome, now).jobs, run.job_id);
            let cancelled = item_at(service.cancelled(run.job_id, now).jobs, run.job_id);
            &&& before.progress <= reported.progress <= PROGRESS_FULL
            &&& before.progress <= stepped.progress <= PROGRESS_FULL
            &&& before.progress <= ended.progress <= PROGRESS_FULL
            &&& ended.status is Completed && !(before.status is Completed) ==> ended.progress
                == PROGRESS_FULL
            &&& cancelled.progress == before.progress
        }),
{
    lemma_held(service.jobs, run.job_id);
    assert(item_at(service.jobs, run.job_id).in_range());
    lemma_step(service, run, outcome, now);
    lemma_changed_distinct(service.jobs, run.job_id, JobChangeView::Cancel { at: now });
}

// ------------------------------------------- removal waits for the active jobs

/// Where no job of a scanner is active, the list of its active jobs is empty.
proof fn lemma_active_on_empty(jobs: Seq<ScanJobView>, scanner_id: Text)
    requires
        forall|i: int|
            0 <= i < jobs.len() ==> !((#[trigger] jobs[i]).scanner_id == scanner_id
                && jobs[i].status.is_active()),
    ensures
        active_on(jobs, scanner_id).len() == 0,
    decreases jobs.len(),
{
    if jobs.len() > 0 {
        assert forall|i: int| 0 <= i < jobs.drop_last().len() implies !((
        #[trigger] jobs.drop_last()[i]).scanner_id == scanner_id
            && jobs.drop_last()[i].status.is_active()) by {
            assert(jobs.drop_last()[i] == jobs[i]);
        }
        lemma_active_on_empty(jobs.drop_last(), scanner_id);
        assert(!(jobs[jobs.len() - 1].scanner_id == scanner_id && jobs[jobs.len()
            - 1].status.is_active()));
    }
}

/// A scanner has active jobs exactly where some job of it is pending,
/// scanning or processing. Its removal is refused then and only then, so a
/// scanner that is removed leaves no job behind that still has work on it.
pub proof fn lemma_active_jobs_block_removal(service: ServiceView, scanner_id: Text)
    ensures
        active_on(service.jobs, scanner_id).len() > 0 <==> exists|i: int|
            0 <= i < service.jobs.len() && (#[trigger] service.jobs[i]).scanner_id == scanner_id
                && service.jobs[i].status.is_active(),
        distinct(service.scanners) ==> !holds(
            service.without_scanner(scanner_id).scanners,
            scanner_id,
        ),
{
    if exists|i: int|
        0 <= i < service.jobs.len() && (#[trigger] service.jobs[i]).scanner_id == scanner_id
            && service.jobs[i].status.is_active() {
        let i = choose|i: int|
            0 <= i < service.jobs.len() && (#[trigger] service.jobs[i]).scanner_id == scanner_id
                && service.jobs[i].status.is_active();
        lemma_active_on_nonempty(service.jobs, scanner_id, i);
    } else {
        lemma_active_on_empty(service.jobs, scanner_id);
    }
    if distinct(service.scanners) {
        lemma_without_distinct(service.scanners, scanner_id);
    }
}

// ----------------------------------------------- discovery starts from nothing

/// After a discovery the registry is what was found and nothing else, and no
/// job is left waiting for a scanner that is gone: every job is terminal or
/// has its scanner in the registry. No job comes or goes, and a job that is
/// not stranded is as it was.
pub proof fn lemma_discovery_settles(service: ServiceView, found: Seq<ScannerView>, now: Timestamp)
    requires
        service.wf(),
    ensures
        ({
            let after = service.rediscovered(found, now);
            &&& after.wf()
            &&& after.scanners == upsert_all(Seq::empty(), found)
            &&& distinct(found) ==> after.scanners == found
            &&& keys(after.jobs) == keys(service.jobs)
            &&& after.anchored()
            &&& forall|i: int|
                0 <= i < service.jobs.len() && !stranded(
                    #[trigger] service.jobs[i],
                    after.scanners,
                ) ==> after.jobs[i] == service.jobs[i]
        }),
{
    let scanners = upsert_all(Seq::<ScannerView>::empty(), found);
    lemma_upsert_all_distinct(Seq::<ScannerView>::empty(), found);
    lemma_settled(service.jobs, scanners, now);
    if distinct(found) {
        lemma_upsert_all_fresh(found);
    }
    let after = service.rediscovered(found, now);
    assert forall|i: int| 0 <= i < after.jobs.len() implies (#[trigger] after.jobs[i]).status.is_terminal()
        || holds(after.scanners, after.jobs[i].scanner_id) by {
        assert(!stranded(settled(service.jobs, scanners, now)[i], scanners));
    }
}

/// After two discoveries in a row the registry is what the second one
/// found: nothing of the first is left.
pub proof fn lemma_rediscovery_forgets(
    service: ServiceView,
    first: Seq<ScannerView>,
    second: Seq<ScannerView>,
    then: Timestamp,
    now: Timestamp,
)
    ensures
        service.rediscovered(first, then).rediscovered(second, now).scanners
            == service.rediscovered(second, now).scanners,
        distinct(second) ==> service.rediscovered(first, then).rediscovered(second, now).scanners
            == second,
{
    if distinct(second) {
        lemma_upsert_all_fresh(second);
    }
}

} // verus!
