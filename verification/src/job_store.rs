//! The store of scan jobs.

use crate::clock::Timestamp;
use crate::entities::{ScanJob, ScanJobView, ScanResult, ScanResultView, ScannerView};
use crate::registry::DeviceRegistry;
use crate::keyed::{
    distinct, holds, item_at, lemma_absent, lemma_held, lemma_place, lemma_replaced_distinct,
    lemma_upsert_distinct, replaced, text_views, upsert, Keyed, Text,
};
use vstd::prelude::*;

verus! {

impl Keyed for ScanJobView {
    open spec fn key(self) -> Text {
        self.id
    }
}

/// The views of a sequence of jobs.
pub open spec fn job_views(jobs: Seq<ScanJob>) -> Seq<ScanJobView> {
    Seq::new(jobs.len(), |i: int| jobs[i]@)
}

/// One step in the life of a job.
#[derive(Debug)]
pub enum JobChange {
    /// Scanning begins.
    Start,
    /// So many thousandths are done.
    Progress(u32),
    /// The scan is done and left a result.
    Complete { result: ScanResult, at: Timestamp },
    /// The scan failed.
    Fail { reason: String, at: Timestamp },
    /// The job was called off.
    Cancel { at: Timestamp },
}

pub enum JobChangeView {
    Start,
    Progress(u32),
    Complete { result: ScanResultView, at: Timestamp },
    Fail { reason: Text, at: Timestamp },
    Cancel { at: Timestamp },
}

impl View for JobChange {
    type V = JobChangeView;

    open spec fn view(&self) -> JobChangeView {
        match self {
            JobChange::Start => JobChangeView::Start,
            JobChange::Progress(p) => JobChangeView::Progress(*p),
            JobChange::Complete { result, at } => JobChangeView::Complete { result: result@, at: *at },
            JobChange::Fail { reason, at } => JobChangeView::Fail { reason: reason@, at: *at },
            JobChange::Cancel { at } => JobChangeView::Cancel { at: *at },
        }
    }
}

/// A job after one step. The identifier and the scanner stay.
pub open spec fn apply_change(job: ScanJobView, change: JobChangeView) -> ScanJobView {
    match change {
        JobChangeView::Start => job.started(),
        JobChangeView::Progress(p) => job.progressed(p),
        JobChangeView::Complete { result, at } => job.completed_with(result, at),
        JobChangeView::Fail { reason, at } => job.failed(reason, at),
        JobChangeView::Cancel { at } => job.cancelled(at),
    }
}

/// The jobs after one of them took a step; unchanged where no job has the
/// identifier.
pub open spec fn changed(jobs: Seq<ScanJobView>, id: Text, change: JobChangeView) -> Seq<ScanJobView> {
    replaced(jobs, id, apply_change(item_at(jobs, id), change))
}

/// How many jobs are pending, scanning or processing.
pub open spec fn active_count(jobs: Seq<ScanJobView>) -> nat
    decreases jobs.len(),
{
    if jobs.len() == 0 {
        0
    } else if jobs.last().status.is_active() {
        active_count(jobs.drop_last()) + 1
    } else {
        active_count(jobs.drop_last())
    }
}

/// The identifiers of the active jobs of one scanner, in the listing order.
pub open spec fn active_on(jobs: Seq<ScanJobView>, scanner_id: Text) -> Seq<Text>
    decreases jobs.len(),
{
    if jobs.len() == 0 {
        Seq::empty()
    } else if jobs.last().scanner_id == scanner_id && jobs.last().status.is_active() {
        active_on(jobs.drop_last(), scanner_id).push(jobs.last().id)
    } else {
        active_on(jobs.drop_last(), scanner_id)
    }
}

/// The job keeps its scanner busy: it is scanning or processing.
pub open spec fn holds_scanner(job: ScanJobView) -> bool {
    job.status is Scanning || job.status is Processing
}

/// Some job keeps the scanner busy.
pub open spec fn is_held(jobs: Seq<ScanJobView>, scanner_id: Text) -> bool {
    exists|i: int|
        0 <= i < jobs.len() && holds_scanner(#[trigger] jobs[i]) && jobs[i].scanner_id
            == scanner_id
}

/// No scanner is kept busy by two jobs.
pub open spec fn exclusive(jobs: Seq<ScanJobView>) -> bool {
    forall|i: int, k: int|
        0 <= i < jobs.len() && 0 <= k < jobs.len() && i != k && holds_scanner(#[trigger] jobs[i])
            && holds_scanner(#[trigger] jobs[k]) ==> jobs[i].scanner_id != jobs[k].scanner_id
}

/// No job has made more than all of its progress.
pub open spec fn bounded(jobs: Seq<ScanJobView>) -> bool {
    forall|i: int| 0 <= i < jobs.len() ==> (#[trigger] jobs[i]).in_range()
}

/// No job is left waiting for a scanner that is not among the given ones:
/// every job is terminal or has its scanner there.
pub open spec fn anchored_to(jobs: Seq<ScanJobView>, scanners: Seq<ScannerView>) -> bool {
    forall|i: int|
        0 <= i < jobs.len() ==> (#[trigger] jobs[i]).status.is_terminal() || holds(
            scanners,
            jobs[i].scanner_id,
        )
}

/// A job is stranded where it still has work before it and its scanner is
/// not among the given ones.
pub open spec fn stranded(job: ScanJobView, scanners: Seq<ScannerView>) -> bool {
    job.status.is_active() && !holds(scanners, job.scanner_id)
}

/// The job as it is left when the scanners are the given ones: cancelled
/// where it is stranded, and as it was where it is not.
pub open spec fn settle(job: ScanJobView, scanners: Seq<ScannerView>, now: Timestamp) -> ScanJobView {
    if stranded(job, scanners) {
        job.cancelled(now)
    } else {
        job
    }
}

/// The jobs, each as it is left when the scanners are the given ones.
pub open spec fn settled(jobs: Seq<ScanJobView>, scanners: Seq<ScannerView>, now: Timestamp) -> Seq<
    ScanJobView,
> {
    Seq::new(jobs.len(), |i: int| settle(jobs[i], scanners, now))
}

/// A step of a job keeps the jobs distinct and their identifiers as they
/// were; the job that took the step is the one held under its identifier.
pub proof fn lemma_changed_distinct(jobs: Seq<ScanJobView>, id: Text, change: JobChangeView)
    requires
        distinct(jobs),
    ensures
        distinct(changed(jobs, id, change)),
        crate::keyed::keys(changed(jobs, id, change)) == crate::keyed::keys(jobs),
        changed(jobs, id, change).len() == jobs.len(),
        holds(jobs, id) ==> item_at(changed(jobs, id, change), id) == apply_change(
            item_at(jobs, id),
            change,
        ),
        bounded(jobs) ==> bounded(changed(jobs, id, change)),
{
    if holds(jobs, id) {
        lemma_held(jobs, id);
        lemma_replaced_distinct(jobs, id, apply_change(item_at(jobs, id), change));
        if bounded(jobs) {
            let i = crate::keyed::place(jobs, id);
            let out = changed(jobs, id, change);
            assert(jobs[i].in_range());
            assert forall|k: int| 0 <= k < out.len() implies (#[trigger] out[k]).in_range() by {
                if k != i {
                    assert(jobs[k].in_range());
                }
            }
        }
    }
}

/// A job in range that is put in leaves the jobs in range.
pub proof fn lemma_upsert_bounded(jobs: Seq<ScanJobView>, job: ScanJobView)
    requires
        bounded(jobs),
        job.in_range(),
    ensures
        bounded(upsert(jobs, job)),
{
    let out = upsert(jobs, job);
    if holds(jobs, job.id) {
        lemma_held(jobs, job.id);
    }
    assert forall|k: int| 0 <= k < out.len() implies (#[trigger] out[k]).in_range() by {
        if k < jobs.len() && out[k] != job {
            assert(jobs[k].in_range());
        }
    }
}

/// Settling the jobs changes no identifier, no scanner and no progress,
/// keeps them distinct, and leaves no job stranded.
pub proof fn lemma_settled(jobs: Seq<ScanJobView>, scanners: Seq<ScannerView>, now: Timestamp)
    ensures
        settled(jobs, scanners, now).len() == jobs.len(),
        crate::keyed::keys(settled(jobs, scanners, now)) == crate::keyed::keys(jobs),
        distinct(jobs) ==> distinct(settled(jobs, scanners, now)),
        bounded(jobs) ==> bounded(settled(jobs, scanners, now)),
        exclusive(jobs) ==> exclusive(settled(jobs, scanners, now)),
        forall|i: int|
            0 <= i < jobs.len() ==> !stranded(#[trigger] settled(jobs, scanners, now)[i], scanners),
        anchored_to(settled(jobs, scanners, now), scanners),
{
    let out = settled(jobs, scanners, now);
    assert forall|i: int| 0 <= i < out.len() implies (#[trigger] out[i]).status.is_terminal()
        || holds(scanners, out[i].scanner_id) by {
        assert(!stranded(settle(jobs[i], scanners, now), scanners));
    }
    assert(crate::keyed::keys(out) =~= crate::keyed::keys(jobs));
    if bounded(jobs) {
        assert forall|k: int| 0 <= k < out.len() implies (#[trigger] out[k]).in_range() by {
            assert(jobs[k].in_range());
        }
    }
    if exclusive(jobs) {
        assert forall|i: int, k: int|
            0 <= i < out.len() && 0 <= k < out.len() && i != k && holds_scanner(#[trigger] out[i])
                && holds_scanner(#[trigger] out[k]) implies out[i].scanner_id
            != out[k].scanner_id by {
            assert(holds_scanner(jobs[i]) && holds_scanner(jobs[k]));
        }
    }
}

/// Jobs that are anchored stay so where no scanner goes.
pub proof fn lemma_anchor_scanners(jobs: Seq<ScanJobView>, before: Seq<ScannerView>, after: Seq<ScannerView>)
    requires
        anchored_to(jobs, before),
        forall|id: Text| #[trigger] holds(before, id) ==> holds(after, id),
    ensures
        anchored_to(jobs, after),
{
    assert forall|i: int| 0 <= i < jobs.len() implies (#[trigger] jobs[i]).status.is_terminal()
        || holds(after, jobs[i].scanner_id) by {
        if !jobs[i].status.is_terminal() {
            assert(holds(before, jobs[i].scanner_id));
        }
    }
}

/// Jobs that are anchored stay so where one of them takes a step that ends
/// it, or a step of a job that still had work before it.
pub proof fn lemma_anchor_changed(
    jobs: Seq<ScanJobView>,
    scanners: Seq<ScannerView>,
    id: Text,
    change: JobChangeView,
)
    requires
        distinct(jobs),
        anchored_to(jobs, scanners),
        holds(jobs, id) ==> apply_change(item_at(jobs, id), change).status.is_terminal() || item_at(
            jobs,
            id,
        ).status.is_active(),
    ensures
        anchored_to(changed(jobs, id, change), scanners),
{
    let out = changed(jobs, id, change);
    if holds(jobs, id) {
        lemma_held(jobs, id);
        let p = crate::keyed::place(jobs, id);
        assert forall|i: int| 0 <= i < out.len() implies (#[trigger] out[i]).status.is_terminal()
            || holds(scanners, out[i].scanner_id) by {
            assert(jobs[i].status.is_terminal() || holds(scanners, jobs[i].scanner_id));
        }
    }
}

/// Jobs that are anchored stay so where a job is put in that is terminal or
/// has its scanner among the given ones.
pub proof fn lemma_anchor_upsert(jobs: Seq<ScanJobView>, scanners: Seq<ScannerView>, job: ScanJobView)
    requires
        anchored_to(jobs, scanners),
        job.status.is_terminal() || holds(scanners, job.scanner_id),
    ensures
        anchored_to(upsert(jobs, job), scanners),
{
    let out = upsert(jobs, job);
    if holds(jobs, job.id) {
        lemma_held(jobs, job.id);
    }
    assert forall|i: int| 0 <= i < out.len() implies (#[trigger] out[i]).status.is_terminal()
        || holds(scanners, out[i].scanner_id) by {
        if i < jobs.len() && out[i] != job {
            assert(jobs[i].status.is_terminal() || holds(scanners, jobs[i].scanner_id));
        }
    }
}

/// A job that is put in and keeps no scanner busy leaves the scanners
/// exclusive.
pub proof fn lemma_exclusive_upsert(jobs: Seq<ScanJobView>, job: ScanJobView)
    requires
        exclusive(jobs),
        !holds_scanner(job),
    ensures
        exclusive(upsert(jobs, job)),
{
    let out = upsert(jobs, job);
    if holds(jobs, job.id) {
        lemma_held(jobs, job.id);
    }
    assert forall|a: int, b: int|
        0 <= a < out.len() && 0 <= b < out.len() && a != b && holds_scanner(#[trigger] out[a])
            && holds_scanner(#[trigger] out[b]) implies out[a].scanner_id != out[b].scanner_id by {
        assert(holds_scanner(jobs[a]) && holds_scanner(jobs[b]));
    }
}

/// An active job of a scanner shows among the active jobs of that scanner.
pub proof fn lemma_active_on_nonempty(jobs: Seq<ScanJobView>, scanner_id: Text, i: int)
    requires
        0 <= i < jobs.len(),
        jobs[i].scanner_id == scanner_id,
        jobs[i].status.is_active(),
    ensures
        active_on(jobs, scanner_id).len() > 0,
    decreases jobs.len(),
{
    if i < jobs.len() - 1 {
        lemma_active_on_nonempty(jobs.drop_last(), scanner_id, i);
    }
}

/// All jobs that the service has taken, each under its own identifier.
pub struct JobStore {
    jobs: Vec<ScanJob>,
}

impl View for JobStore {
    type V = Seq<ScanJobView>;

    closed spec fn view(&self) -> Seq<ScanJobView> {
        job_views(self.jobs@)
    }
}

impl JobStore {
    /// No two jobs share an identifier.
    pub open spec fn wf(&self) -> bool {
        distinct(self@)
    }

    pub fn new() -> (store: Self)
        ensures
            store@ == Seq::<ScanJobView>::empty(),
            store.wf(),
    {
        let store = JobStore { jobs: Vec::new() };
        assert(store@ =~= Seq::<ScanJobView>::empty());
        store
    }

    pub fn len(&self) -> (n: usize)
        ensures
            n == self@.len(),
    {
        self.jobs.len()
    }

    /// The first place where a job has the identifier.
    fn position(&self, id: &str) -> (found: Option<usize>)
        ensures
            match found {
                Some(i) => i < self@.len() && self@[i as int].id == id@,
                None => !holds(self@, id@),
            },
    {
        let wanted = id.to_owned();
        let mut i: usize = 0;
        while i < self.jobs.len()
            invariant
                i <= self.jobs.len(),
                wanted@ == id@,
                forall|k: int| 0 <= k < i ==> (#[trigger] self@[k]).key() != id@,
            decreases self.jobs.len() - i,
        {
            if self.jobs[i].id == wanted {
                assert(self@[i as int].id == id@);
                return Some(i);
            }
            assert(self@[i as int].key() != id@);
            i = i + 1;
        }
        proof {
            lemma_absent(self@, id@);
        }
        None
    }

    /// A look at the job with the identifier, or `None` where there is none.
    pub fn find(&self, id: &str) -> (found: Option<&ScanJob>)
        requires
            self.wf(),
        ensures
            match found {
                Some(job) => holds(self@, id@) && job@ == item_at(self@, id@),
                None => !holds(self@, id@),
            },
    {
        match self.position(id) {
            Some(i) => {
                proof {
                    lemma_place(self@, i as int);
                }
                Some(&self.jobs[i])
            },
            None => None,
        }
    }

    /// A copy of the job with the identifier, or `None` where there is none.
    pub fn get(&self, id: &str) -> (found: Option<ScanJob>)
        requires
            self.wf(),
        ensures
            match found {
                Some(job) => holds(self@, id@) && job@ == item_at(self@, id@),
                None => !holds(self@, id@),
            },
    {
        match self.find(id) {
            Some(job) => Some(job.clone()),
            None => None,
        }
    }

    /// All jobs, in the order in which their identifiers came in.
    pub fn list(&self) -> (all: Vec<ScanJob>)
        ensures
            job_views(all@) == self@,
    {
        let mut all: Vec<ScanJob> = Vec::new();
        let mut i: usize = 0;
        while i < self.jobs.len()
            invariant
                i <= self.jobs.len(),
                all@.len() == i,
                job_views(all@) == self@.take(i as int),
            decreases self.jobs.len() - i,
        {
            let ghost before = all@;
            all.push(self.jobs[i].clone());
            i = i + 1;
            assert forall|k: int| 0 <= k < i implies job_views(all@)[k] == self@[k] by {
                if k < i - 1 {
                    assert(job_views(before)[k] == self@.take(i - 1)[k]);
                }
            }
            assert(job_views(all@) =~= self@.take(i as int));
        }
        assert(self@.take(self.jobs.len() as int) =~= self@);
        all
    }

    /// Puts a job in: in the place of the one with its identifier, or at the
    /// end.
    pub fn insert(&mut self, job: ScanJob)
        requires
            old(self).wf(),
        ensures
            final(self)@ == upsert(old(self)@, job@),
            final(self).wf(),
    {
        proof {
            lemma_upsert_distinct(self@, job@);
        }
        let ghost before = self@;
        match self.position(job.id.as_str()) {
            Some(i) => {
                proof {
                    lemma_place(before, i as int);
                }
                self.jobs.set(i, job);
                assert(self@ =~= before.update(i as int, job@));
            },
            None => {
                self.jobs.push(job);
                assert(self@ =~= before.push(job@));
            },
        }
    }

    /// Lets the job with the identifier take one step; `false`, and nothing
    /// changed, where there is none. No other job is touched.
    pub fn update(&mut self, id: &str, change: JobChange) -> (found: bool)
        requires
            old(self).wf(),
        ensures
            found == holds(old(self)@, id@),
            final(self)@ == changed(old(self)@, id@, change@),
            final(self).wf(),
    {
        proof {
            lemma_changed_distinct(self@, id@, change@);
        }
        let ghost before = self@;
        match self.position(id) {
            Some(i) => {
                proof {
                    lemma_place(before, i as int);
                }
                let mut job = self.jobs.remove(i);
                match change {
                    JobChange::Start => {
                        job.start_scanning();
                    },
                    JobChange::Progress(p) => {
                        job.update_progress(p);
                    },
                    JobChange::Complete { result, at } => {
                        job.complete_at(at);
                        job.scan_result = Some(result);
                    },
                    JobChange::Fail { reason, at } => {
                        job.fail_at(reason, at);
                    },
                    JobChange::Cancel { at } => {
                        job.cancel_at(at);
                    },
                }
                assert(job@ == apply_change(before[i as int], change@));
                self.jobs.insert(i, job);
                assert(self@ =~= before.update(i as int, apply_change(before[i as int], change@)));
                true
            },
            None => false,
        }
    }

    /// Whether some job keeps the scanner busy.
    pub fn scanner_held(&self, scanner_id: &str) -> (held: bool)
        ensures
            held == is_held(self@, scanner_id@),
    {
        let wanted = scanner_id.to_owned();
        let mut i: usize = 0;
        while i < self.jobs.len()
            invariant
                i <= self.jobs.len(),
                wanted@ == scanner_id@,
                forall|k: int|
                    0 <= k < i ==> !(holds_scanner(#[trigger] self@[k]) && self@[k].scanner_id
                        == scanner_id@),
            decreases self.jobs.len() - i,
        {
            let busy = match self.jobs[i].status {
                crate::entities::JobStatus::Scanning => true,
                crate::entities::JobStatus::Processing => true,
                _ => false,
            };
            if busy && self.jobs[i].scanner_id == wanted {
                assert(holds_scanner(self@[i as int]) && self@[i as int].scanner_id == scanner_id@);
                return true;
            }
            i = i + 1;
        }
        false
    }

    /// Cancels, at the time `now`, every job that still has work before it on
    /// a scanner that the registry does not hold. Every other job is left as
    /// it is.
    pub fn cancel_stranded(&mut self, registry: &DeviceRegistry, now: Timestamp)
        requires
            old(self).wf(),
        ensures
            final(self)@ == settled(old(self)@, registry@, now),
            final(self).wf(),
    {
        let ghost before = self@;
        proof {
            lemma_settled(before, registry@, now);
        }
        let mut i: usize = 0;
        while i < self.jobs.len()
            invariant
                i <= self.jobs.len(),
                self@.len() == before.len(),
                forall|k: int| 0 <= k < i ==> #[trigger] self@[k] == settle(before[k], registry@, now),
                forall|k: int| i <= k < before.len() ==> #[trigger] self@[k] == before[k],
            decreases self.jobs.len() - i,
        {
            let lost = self.jobs[i].status.is_active() && !registry.contains(
                self.jobs[i].scanner_id.as_str(),
            );
            assert(self@[i as int] == before[i as int]);
            if lost {
                let ghost during = self@;
                let mut job = self.jobs.remove(i);
                assert(job@ == during[i as int]);
                job.cancel_at(now);
                assert(job@ == before[i as int].cancelled(now));
                self.jobs.insert(i, job);
                assert(self@ =~= during.update(i as int, before[i as int].cancelled(now)));
                assert(self@[i as int] == settle(before[i as int], registry@, now));
            } else {
                assert(self@[i as int] == settle(before[i as int], registry@, now));
            }
            i = i + 1;
        }
        assert(self@ =~= settled(before, registry@, now));
    }

    /// How many jobs are pending, scanning or processing.
    pub fn count_active(&self) -> (n: usize)
        ensures
            n == active_count(self@),
    {
        let mut n: usize = 0;
        let mut i: usize = 0;
        while i < self.jobs.len()
            invariant
                i <= self.jobs.len(),
                n <= i,
                n == active_count(self@.take(i as int)),
            decreases self.jobs.len() - i,
        {
            assert(self@.take(i + 1).drop_last() =~= self@.take(i as int));
            if self.jobs[i].status.is_active() {
                n = n + 1;
            }
            i = i + 1;
        }
        assert(self@.take(self.jobs.len() as int) =~= self@);
        n
    }

    /// The identifiers of the active jobs of one scanner.
    pub fn active_for_scanner(&self, scanner_id: &str) -> (ids: Vec<String>)
        ensures
            text_views(ids@) == active_on(self@, scanner_id@),
    {
        let wanted = scanner_id.to_owned();
        let mut ids: Vec<String> = Vec::new();
        let mut i: usize = 0;
        while i < self.jobs.len()
            invariant
                i <= self.jobs.len(),
                wanted@ == scanner_id@,
                text_views(ids@) == active_on(self@.take(i as int), scanner_id@),
            decreases self.jobs.len() - i,
        {
            assert(self@.take(i + 1).drop_last() =~= self@.take(i as int));
            let ghost before = ids@;
            if self.jobs[i].scanner_id == wanted && self.jobs[i].status.is_active() {
                ids.push(self.jobs[i].id.clone());
                assert(text_views(ids@) =~= text_views(before).push(self@[i as int].id));
            }
            i = i + 1;
        }
        assert(self@.take(self.jobs.len() as int) =~= self@);
        ids
    }
}

} // verus!
