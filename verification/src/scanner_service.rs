//! The service: scanners and jobs together, and the operations on them.
//!
//! A caller that shares the service between tasks holds it behind one lock
//! and makes one call per acquisition: each operation here is one
//! indivisible step of the model.

use crate::clock::{utc_now, Timestamp};
use crate::entities::{
    DocumentType, JobStatus, ScanJob, ScanJobView, ScanSettings, Scanner, ScannerCapabilities,
    ScannerStatus, ScannerStatusView, ScannerType, ScannerView, SystemType,
};
use crate::errors::{Conflict, ConflictView, Entity, ServiceError};
use crate::ident::{fresh_id, FRESH_ID_LEN};
use crate::guarantees::{
    lemma_add_keeps_wf, lemma_change_keeps_wf, lemma_discovery_settles, lemma_remove_keeps_wf,
    lemma_start_keeps_wf, lemma_status_keeps_wf, lemma_take_keeps_wf,
};
use crate::job_store::{
    active_count, active_on, apply_change, changed, job_views, lemma_changed_distinct, JobChange,
    JobStore,
};
use crate::keyed::{holds, item_at, text_views, Text};
use crate::model::{
    api_label, connection_odds, discovery_waits, is_catalog, is_entry, ScannerEvent, ServiceView,
    EVENT_ODDS,
};
use crate::random::{random_chance, random_in};
use crate::registry::{available_count, of_system, scanner_views, DeviceRegistry};
use vstd::prelude::*;

verus! {

/// What the service knows of itself at one moment.
#[derive(Debug)]
pub struct SystemInfo {
    pub platform: SystemType,
    /// The scanners whose status is available.
    pub available_scanners: usize,
    pub total_scanners: usize,
    pub active_jobs: usize,
    pub scanner_api: String,
}

/// The registry and the store are the service's own: they change through its
/// operations only, so that what the operations keep is kept.
pub struct ScannerService {
    scanners: DeviceRegistry,
    jobs: JobStore,
    platform: SystemType,
}

impl View for ScannerService {
    type V = ServiceView;

    closed spec fn view(&self) -> ServiceView {
        ServiceView { scanners: self.scanners@, jobs: self.jobs@, platform: self.platform }
    }
}

/// The identifier under which an offered scanner is kept: its own, or the
/// spare one where its own is empty.
pub open spec fn kept_id(own: Text, spare: Text) -> Text {
    if own.len() == 0 {
        spare
    } else {
        own
    }
}

/// The chance, in hundredths, that a connection test of a scanner succeeds.
pub fn connection_percent(scanner_type: ScannerType) -> (percent: u32)
    ensures
        percent == connection_odds(scanner_type),
        percent <= 100,
{
    match scanner_type {
        ScannerType::Flatbed => 95,
        ScannerType::DocumentFeeder => 90,
        ScannerType::SheetFed => 85,
        ScannerType::Handheld => 80,
        ScannerType::FilmScanner => 88,
        ScannerType::PhotoScanner => 92,
    }
}

/// The waits, in milliseconds, that go before a discovery on a platform.
pub fn discovery_delays(platform: SystemType) -> (waits: Vec<u64>)
    ensures
        waits@ == discovery_waits(platform),
{
    let mut waits: Vec<u64> = Vec::new();
    waits.push(1500);
    match platform {
        SystemType::Windows => {
            waits.push(300);
            waits.push(200);
            waits.push(200);
        },
        SystemType::MacOS => {
            waits.push(400);
            waits.push(250);
            waits.push(300);
            waits.push(200);
        },
        SystemType::Linux => {
            waits.push(500);
            waits.push(300);
            waits.push(250);
        },
    }
    assert(waits@ =~= discovery_waits(platform));
    waits
}

/// One scanner of the catalog under a fresh identifier.
fn discovered(
    name: &str,
    scanner_type: ScannerType,
    system_type: SystemType,
    max_resolution: u32,
    has_duplex: bool,
    has_adf: bool,
) -> (scanner: Scanner)
    ensures
        is_entry(
            scanner@,
            crate::model::catalog_entry(
                name@,
                scanner_type,
                system_type,
                max_resolution,
                has_duplex,
                has_adf,
            ),
        ),
{
    let mut scanner = Scanner::new(name.to_owned(), scanner_type, system_type);
    scanner.capabilities.max_resolution = max_resolution;
    scanner.capabilities.has_duplex = has_duplex;
    scanner.capabilities.has_adf = has_adf;
    scanner
}

impl ScannerService {
    /// No two scanners and no two jobs share an identifier.
    pub open spec fn wf(&self) -> bool {
        self@.wf()
    }

    /// A service for one platform, with no scanner and no job.
    pub fn new(platform: SystemType) -> (service: Self)
        ensures
            service.wf(),
            service@ == (ServiceView {
                scanners: Seq::empty(),
                jobs: Seq::empty(),
                platform,
            }),
    {
        ScannerService { scanners: DeviceRegistry::new(), jobs: JobStore::new(), platform }
    }

    /// The platform that the service was made for.
    pub fn detect_platform(&self) -> (platform: SystemType)
        ensures
            platform == self@.platform,
    {
        self.platform
    }

    /// The scanners of the service's own platform.
    pub fn get_scanners(&self) -> (some: Vec<Scanner>)
        ensures
            scanner_views(some@) == of_system(self@.scanners, self@.platform),
    {
        self.scanners.list_by_system(self.platform)
    }

    pub fn get_all_scanners(&self) -> (all: Vec<Scanner>)
        ensures
            scanner_views(all@) == self@.scanners,
    {
        self.scanners.list()
    }

    pub fn get_scanners_by_system(&self, system_type: SystemType) -> (some: Vec<Scanner>)
        ensures
            scanner_views(some@) == of_system(self@.scanners, system_type),
    {
        self.scanners.list_by_system(system_type)
    }

    fn simulate_windows_discovery() -> (found: Vec<Scanner>)
        ensures
            is_catalog(scanner_views(found@), SystemType::Windows),
    {
        let mut found: Vec<Scanner> = Vec::new();
        found.push(
            discovered(
                "HP ScanJet Pro 2500 f1 (WIA)",
                ScannerType::DocumentFeeder,
                SystemType::Windows,
                1200,
                true,
                true,
            ),
        );
        found.push(
            discovered(
                "Canon CanoScan LiDE 400 (WIA)",
                ScannerType::Flatbed,
                SystemType::Windows,
                4800,
                false,
                false,
            ),
        );
        found
    }

    fn simulate_macos_discovery() -> (found: Vec<Scanner>)
        ensures
            is_catalog(scanner_views(found@), SystemType::MacOS),
    {
        let mut found: Vec<Scanner> = Vec::new();
        found.push(
            discovered(
                "Brother MFC-L3770CDW",
                ScannerType::DocumentFeeder,
                SystemType::MacOS,
                1200,
                true,
                true,
            ),
        );
        found.push(
            discovered(
                "Epson Perfection V850 Pro",
                ScannerType::PhotoScanner,
                SystemType::MacOS,
                6400,
                false,
                false,
            ),
        );
        found.push(
            discovered(
                "Canon imageFORMULA R40",
                ScannerType::DocumentFeeder,
                SystemType::MacOS,
                600,
                true,
                true,
            ),
        );
        found
    }

    fn simulate_linux_discovery() -> (found: Vec<Scanner>)
        ensures
            is_catalog(scanner_views(found@), SystemType::Linux),
    {
        let mut found: Vec<Scanner> = Vec::new();
        found.push(
            discovered(
                "HP LaserJet MFP M28w (SANE)",
                ScannerType::Flatbed,
                SystemType::Linux,
                1200,
                false,
                false,
            ),
        );
        found.push(
            discovered(
                "Epson ET-4850 (SANE)",
                ScannerType::Flatbed,
                SystemType::Linux,
                1200,
                false,
                true,
            ),
        );
        found
    }

    /// Puts the given scanners in the place of all that were known, in one
    /// step: no caller sees the registry empty in between. A job that still
    /// had work before it on a scanner that is gone is cancelled at the time
    /// `now`, so that every job is terminal or has its scanner in the
    /// registry.
    pub fn install_scanners_at(&mut self, found: &Vec<Scanner>, now: Timestamp)
        requires
            old(self).wf(),
        ensures
            final(self).wf(),
            final(self)@ == old(self)@.rediscovered(scanner_views(found@), now),
            final(self)@.anchored(),
    {
        proof {
            lemma_discovery_settles(self@, scanner_views(found@), now);
        }
        self.scanners.replace_all(found);
        self.jobs.cancel_stranded(&self.scanners, now);
    }

    /// Puts the given scanners in the place of all that were known, now.
    pub fn install_scanners(&mut self, found: &Vec<Scanner>)
        requires
            old(self).wf(),
        ensures
            final(self).wf(),
            exists|now: Timestamp|
                final(self)@ == #[trigger] old(self)@.rediscovered(scanner_views(found@), now),
            final(self)@.anchored(),
    {
        let now = utc_now();
        self.install_scanners_at(found, now);
    }

    /// Finds the scanners of the service's platform, each under a fresh
    /// identifier, and makes them the registry. What comes back is the
    /// registry as it then stands: what was known before is gone. The jobs
    /// stay, but a job that still had work before it on a scanner that is gone
    /// is cancelled.
    pub fn discover_scanners(&mut self) -> (found: Vec<Scanner>)
        requires
            old(self).wf(),
        ensures
            final(self).wf(),
            scanner_views(found@) == final(self)@.scanners,
            exists|drawn: Seq<ScannerView>, now: Timestamp|
                is_catalog(drawn, old(self)@.platform) && final(self)@
                    == #[trigger] old(self)@.rediscovered(drawn, now),
            final(self)@.anchored(),
    {
        let drawn = match self.platform {
            SystemType::Windows => Self::simulate_windows_discovery(),
            SystemType::MacOS => Self::simulate_macos_discovery(),
            SystemType::Linux => Self::simulate_linux_discovery(),
        };
        let now = utc_now();
        self.install_scanners_at(&drawn, now);
        self.scanners.list()
    }

    pub fn get_scanner(&self, scanner_id: &str) -> (found: Result<Scanner, ServiceError>)
        requires
            self.wf(),
        ensures
            match found {
                Ok(scanner) => holds(self@.scanners, scanner_id@) && scanner@ == item_at(
                    self@.scanners,
                    scanner_id@,
                ),
                Err(e) => !holds(self@.scanners, scanner_id@) && e.is_not_found(
                    Entity::Scanner,
                    scanner_id@,
                ),
            },
    {
        match self.scanners.get(scanner_id) {
            Some(scanner) => Ok(scanner),
            None => Err(ServiceError::NotFound { entity: Entity::Scanner, id: scanner_id.to_owned() }),
        }
    }

    pub fn get_scanner_capabilities(&self, scanner_id: &str) -> (found: Result<
        ScannerCapabilities,
        ServiceError,
    >)
        requires
            self.wf(),
        ensures
            match found {
                Ok(capabilities) => holds(self@.scanners, scanner_id@) && capabilities@ == item_at(
                    self@.scanners,
                    scanner_id@,
                ).capabilities,
                Err(e) => !holds(self@.scanners, scanner_id@) && e.is_not_found(
                    Entity::Scanner,
                    scanner_id@,
                ),
            },
    {
        match self.scanners.find(scanner_id) {
            Some(scanner) => Ok(scanner.capabilities.clone()),
            None => Err(ServiceError::NotFound { entity: Entity::Scanner, id: scanner_id.to_owned() }),
        }
    }

    /// Tries the connection to a scanner. The outcome is drawn at random,
    /// with the odds of the scanner's type; only an unknown scanner is an
    /// error.
    pub fn test_scanner_connection(&self, scanner_id: &str) -> (outcome: Result<bool, ServiceError>)
        requires
            self.wf(),
        ensures
            match outcome {
                Ok(_) => holds(self@.scanners, scanner_id@),
                Err(e) => !holds(self@.scanners, scanner_id@) && e.is_not_found(
                    Entity::Scanner,
                    scanner_id@,
                ),
            },
    {
        match self.scanners.find(scanner_id) {
            Some(scanner) => {
                let percent = connection_percent(scanner.scanner_type);
                Ok(random_chance(percent, 100))
            },
            None => Err(ServiceError::NotFound { entity: Entity::Scanner, id: scanner_id.to_owned() }),
        }
    }

    /// Takes a job for a scanner under a given identifier, created at a given
    /// time. The scanner must be known and available; else no job is made.
    pub fn create_scan_job_as(
        &mut self,
        job_id: String,
        scanner_id: String,
        document_type: DocumentType,
        scan_settings: ScanSettings,
        now: Timestamp,
    ) -> (created: Result<String, ServiceError>)
        requires
            old(self).wf(),
        ensures
            final(self).wf(),
            match created {
                Ok(id) => {
                    &&& old(self)@.can_create(scanner_id@)
                    &&& id@ == job_id@
                    &&& final(self)@ == old(self)@.with_job(
                        ScanJobView::created(job_id@, scanner_id@, document_type, scan_settings, now),
                    )
                    &&& holds(final(self)@.jobs, id@)
                    &&& item_at(final(self)@.jobs, id@) == ScanJobView::created(
                        job_id@,
                        scanner_id@,
                        document_type,
                        scan_settings,
                        now,
                    )
                },
                Err(e) => {
                    &&& !old(self)@.can_create(scanner_id@)
                    &&& final(self)@ == old(self)@
                    &&& if holds(old(self)@.scanners, scanner_id@) {
                        e.is_conflict(ConflictView::ScannerNotAvailable)
                    } else {
                        e.is_not_found(Entity::Scanner, scanner_id@)
                    }
                },
            },
    {
        let available = match self.scanners.find(scanner_id.as_str()) {
            Some(scanner) => scanner.is_available(),
            None => {
                return Err(ServiceError::NotFound { entity: Entity::Scanner, id: scanner_id });
            },
        };
        if !available {
            return Err(ServiceError::Conflict(Conflict::ScannerNotAvailable));
        }
        let id = job_id.clone();
        let job = ScanJob::with_id(job_id, scanner_id, document_type, scan_settings, now);
        proof {
            lemma_take_keeps_wf(self@, job@);
        }
        self.jobs.insert(job);
        Ok(id)
    }

    /// Takes a job for a scanner, under a fresh identifier and created now.
    pub fn create_scan_job(
        &mut self,
        scanner_id: String,
        document_type: DocumentType,
        scan_settings: ScanSettings,
    ) -> (created: Result<String, ServiceError>)
        requires
            old(self).wf(),
        ensures
            final(self).wf(),
            match created {
                Ok(id) => {
                    &&& old(self)@.can_create(scanner_id@)
                    &&& id@.len() == FRESH_ID_LEN
                    &&& exists|now: Timestamp|
                        final(self)@ == old(self)@.with_job(
                            #[trigger] ScanJobView::created(
                                id@,
                                scanner_id@,
                                document_type,
                                scan_settings,
                                now,
                            ),
                        )
                    &&& holds(final(self)@.jobs, id@)
                    &&& item_at(final(self)@.jobs, id@).status is Pending
                    &&& item_at(final(self)@.jobs, id@).progress == 0
                },
                Err(e) => {
                    &&& !old(self)@.can_create(scanner_id@)
                    &&& final(self)@ == old(self)@
                    &&& if holds(old(self)@.scanners, scanner_id@) {
                        e.is_conflict(ConflictView::ScannerNotAvailable)
                    } else {
                        e.is_not_found(Entity::Scanner, scanner_id@)
                    }
                },
            },
    {
        let job_id = fresh_id();
        let now = utc_now();
        self.create_scan_job_as(job_id, scanner_id, document_type, scan_settings, now)
    }

    /// Sets a pending job scanning and hands back the job as it then stands,
    /// for the lifecycle engine to run. `None` comes back, and nothing
    /// changes, where the job cannot be started: it is not pending, so it was
    /// started before, or another job keeps its scanner busy, so it has to
    /// wait. No second run is made for a job, and no two jobs scan on one
    /// scanner. Only an unknown job is an error.
    pub fn start_scan_job(&mut self, job_id: &str) -> (started: Result<Option<ScanJob>, ServiceError>)
        requires
            old(self).wf(),
        ensures
            final(self).wf(),
            final(self)@ == old(self)@.started(job_id@),
            match started {
                Ok(Some(job)) => {
                    &&& old(self)@.can_start(job_id@)
                    &&& job@ == item_at(old(self)@.jobs, job_id@).started()
                    &&& job@ == item_at(final(self)@.jobs, job_id@)
                    &&& final(self)@.alive(job_id@)
                },
                Ok(None) => {
                    &&& holds(old(self)@.jobs, job_id@)
                    &&& !old(self)@.can_start(job_id@)
                    &&& final(self)@ == old(self)@
                },
                Err(e) => {
                    &&& !holds(old(self)@.jobs, job_id@)
                    &&& final(self)@ == old(self)@
                    &&& e.is_not_found(Entity::Job, job_id@)
                },
            },
    {
        proof {
            lemma_start_keeps_wf(self@, job_id@);
        }
        let (pending, scanner_id) = match self.jobs.find(job_id) {
            Some(job) => {
                let pending = match job.status {
                    JobStatus::Pending => true,
                    _ => false,
                };
                (pending, job.scanner_id.clone())
            },
            None => {
                return Err(ServiceError::NotFound { entity: Entity::Job, id: job_id.to_owned() });
            },
        };
        if !pending {
            return Ok(None);
        }
        if self.jobs.scanner_held(scanner_id.as_str()) {
            return Ok(None);
        }
        proof {
            lemma_changed_distinct(self@.jobs, job_id@, crate::job_store::JobChangeView::Start);
        }
        self.jobs.update(job_id, JobChange::Start);
        Ok(self.jobs.get(job_id))
    }

    pub fn get_scan_job(&self, job_id: &str) -> (found: Result<ScanJob, ServiceError>)
        requires
            self.wf(),
        ensures
            match found {
                Ok(job) => holds(self@.jobs, job_id@) && job@ == item_at(self@.jobs, job_id@),
                Err(e) => !holds(self@.jobs, job_id@) && e.is_not_found(Entity::Job, job_id@),
            },
    {
        match self.jobs.get(job_id) {
            Some(job) => Ok(job),
            None => Err(ServiceError::NotFound { entity: Entity::Job, id: job_id.to_owned() }),
        }
    }

    pub fn get_all_jobs(&self) -> (all: Vec<ScanJob>)
        ensures
            job_views(all@) == self@.jobs,
    {
        self.jobs.list()
    }

    /// Cancels a job at a given time. The job must be pending, scanning or
    /// processing; it is then cancelled and its scanner, where it is known,
    /// available. A job in a terminal state is refused and nothing changes.
    pub fn cancel_scan_job_at(&mut self, job_id: &str, now: Timestamp) -> (done: Result<
        (),
        ServiceError,
    >)
        requires
            old(self).wf(),
        ensures
            final(self).wf(),
            match done {
                Ok(_) => {
                    let scanner_id = item_at(old(self)@.jobs, job_id@).scanner_id;
                    &&& old(self)@.can_cancel(job_id@)
                    &&& final(self)@ == old(self)@.cancelled(job_id@, now)
                    &&& item_at(final(self)@.jobs, job_id@).status is Cancelled
                    &&& holds(old(self)@.scanners, scanner_id) ==> item_at(
                        final(self)@.scanners,
                        scanner_id,
                    ).status is Available
                },
                Err(e) => {
                    &&& !old(self)@.can_cancel(job_id@)
                    &&& final(self)@ == old(self)@
                    &&& if holds(old(self)@.jobs, job_id@) {
                        e.is_conflict(ConflictView::NotCancellable)
                    } else {
                        e.is_not_found(Entity::Job, job_id@)
                    }
                },
            },
    {
        let scanner_id = match self.jobs.find(job_id) {
            Some(job) => {
                if !job.status.is_active() {
                    return Err(ServiceError::Conflict(Conflict::NotCancellable));
                }
                job.scanner_id.clone()
            },
            None => {
                return Err(ServiceError::NotFound { entity: Entity::Job, id: job_id.to_owned() });
            },
        };
        proof {
            crate::guarantees::lemma_cancel_frees(self@, job_id@, now);
        }
        self.jobs.update(job_id, JobChange::Cancel { at: now });
        self.scanners.set_status(scanner_id.as_str(), ScannerStatus::Available);
        Ok(())
    }

    /// Cancels a job now.
    pub fn cancel_scan_job(&mut self, job_id: &str) -> (done: Result<(), ServiceError>)
        requires
            old(self).wf(),
        ensures
            final(self).wf(),
            match done {
                Ok(_) => {
                    let scanner_id = item_at(old(self)@.jobs, job_id@).scanner_id;
                    &&& old(self)@.can_cancel(job_id@)
                    &&& exists|now: Timestamp|
                        final(self)@ == #[trigger] old(self)@.cancelled(job_id@, now)
                    &&& item_at(final(self)@.jobs, job_id@).status is Cancelled
                    &&& holds(old(self)@.scanners, scanner_id) ==> item_at(
                        final(self)@.scanners,
                        scanner_id,
                    ).status is Available
                },
                Err(e) => {
                    &&& !old(self)@.can_cancel(job_id@)
                    &&& final(self)@ == old(self)@
                    &&& if holds(old(self)@.jobs, job_id@) {
                        e.is_conflict(ConflictView::NotCancellable)
                    } else {
                        e.is_not_found(Entity::Job, job_id@)
                    }
                },
            },
    {
        let now = utc_now();
        self.cancel_scan_job_at(job_id, now)
    }

    /// Whether a scanner of a system may be taken into the registry: only one
    /// of the service's own platform may.
    pub fn accepts_system(&self, system_type: SystemType) -> (accepted: Result<(), ServiceError>)
        ensures
            match accepted {
                Ok(_) => system_type == self@.platform,
                Err(e) => system_type != self@.platform && e.is_conflict(
                    ConflictView::SystemMismatch { scanner: system_type, current: self@.platform },
                ),
            },
    {
        if system_type != self.platform {
            Err(
                ServiceError::Conflict(
                    Conflict::SystemMismatch { scanner: system_type, current: self.platform },
                ),
            )
        } else {
            Ok(())
        }
    }

    /// Takes a scanner into the registry; one without an identifier is kept
    /// under the spare one. A scanner of another system is refused.
    pub fn add_scanner_with(&mut self, scanner: Scanner, spare_id: String) -> (added: Result<
        String,
        ServiceError,
    >)
        requires
            old(self).wf(),
        ensures
            final(self).wf(),
            match added {
                Ok(id) => {
                    &&& scanner@.system_type == old(self)@.platform
                    &&& id@ == kept_id(scanner@.id, spare_id@)
                    &&& final(self)@ == old(self)@.with_scanner(ScannerView { id: id@, ..scanner@ })
                },
                Err(e) => {
                    &&& scanner@.system_type != old(self)@.platform
                    &&& final(self)@ == old(self)@
                    &&& e.is_conflict(
                        ConflictView::SystemMismatch {
                            scanner: scanner@.system_type,
                            current: old(self)@.platform,
                        },
                    )
                },
            },
    {
        match self.accepts_system(scanner.system_type) {
            Ok(_) => {},
            Err(e) => {
                return Err(e);
            },
        }
        let mut scanner = scanner;
        if scanner.id.as_str().is_empty() {
            scanner.id = spare_id;
        }
        let id = scanner.id.clone();
        proof {
            lemma_add_keeps_wf(self@, scanner@);
        }
        self.scanners.upsert(scanner);
        Ok(id)
    }

    /// Takes a scanner into the registry; one without an identifier gets a
    /// fresh one.
    pub fn add_scanner(&mut self, scanner: Scanner) -> (added: Result<String, ServiceError>)
        requires
            old(self).wf(),
        ensures
            final(self).wf(),
            match added {
                Ok(id) => {
                    &&& scanner@.system_type == old(self)@.platform
                    &&& if scanner@.id.len() == 0 {
                        id@.len() == FRESH_ID_LEN
                    } else {
                        id@ == scanner@.id
                    }
                    &&& final(self)@ == old(self)@.with_scanner(ScannerView { id: id@, ..scanner@ })
                },
                Err(e) => {
                    &&& scanner@.system_type != old(self)@.platform
                    &&& final(self)@ == old(self)@
                    &&& e.is_conflict(
                        ConflictView::SystemMismatch {
                            scanner: scanner@.system_type,
                            current: old(self)@.platform,
                        },
                    )
                },
            },
    {
        let spare_id = fresh_id();
        self.add_scanner_with(scanner, spare_id)
    }

    /// The identifiers of the active jobs of a scanner.
    pub fn get_active_jobs_for_scanner(&self, scanner_id: &str) -> (ids: Vec<String>)
        ensures
            text_views(ids@) == active_on(self@.jobs, scanner_id@),
    {
        self.jobs.active_for_scanner(scanner_id)
    }

    /// Takes a scanner out of the registry. A scanner with active jobs is
    /// refused, and so is an unknown one; nothing changes then.
    pub fn remove_scanner(&mut self, scanner_id: &str) -> (done: Result<(), ServiceError>)
        requires
            old(self).wf(),
        ensures
            final(self).wf(),
            match done {
                Ok(_) => {
                    &&& active_on(old(self)@.jobs, scanner_id@).len() == 0
                    &&& holds(old(self)@.scanners, scanner_id@)
                    &&& final(self)@ == old(self)@.without_scanner(scanner_id@)
                    &&& !holds(final(self)@.scanners, scanner_id@)
                },
                Err(e) => {
                    &&& final(self)@ == old(self)@
                    &&& if active_on(old(self)@.jobs, scanner_id@).len() > 0 {
                        e.is_conflict(
                            ConflictView::ActiveJobs {
                                job_ids: active_on(old(self)@.jobs, scanner_id@),
                            },
                        )
                    } else {
                        !holds(old(self)@.scanners, scanner_id@) && e.is_not_found(
                            Entity::Scanner,
                            scanner_id@,
                        )
                    }
                },
            },
    {
        proof {
            if active_on(self@.jobs, scanner_id@).len() == 0 {
                lemma_remove_keeps_wf(self@, scanner_id@);
            }
        }
        let active = self.jobs.active_for_scanner(scanner_id);
        if active.len() > 0 {
            return Err(ServiceError::Conflict(Conflict::ActiveJobs { job_ids: active }));
        }
        match self.scanners.remove(scanner_id) {
            Some(_) => Ok(()),
            None => Err(ServiceError::NotFound { entity: Entity::Scanner, id: scanner_id.to_owned() }),
        }
    }

    /// Lets the scanner at a place in the listing order meet an event.
    /// Nothing changes where the place is past the end.
    pub fn apply_scanner_event(&mut self, index: usize, event: ScannerEvent)
        requires
            old(self).wf(),
        ensures
            final(self).wf(),
            final(self)@ == old(self)@.after_event(index as int, event),
    {
        let (id, offline) = match self.scanners.peek(index) {
            Some(scanner) => {
                let offline = match scanner.status {
                    ScannerStatus::Offline => true,
                    _ => false,
                };
                (scanner.id.clone(), offline)
            },
            None => {
                return ;
            },
        };
        proof {
            lemma_status_keeps_wf(self@, id@, ScannerStatusView::Offline);
            lemma_status_keeps_wf(self@, id@, ScannerStatusView::Available);
            lemma_status_keeps_wf(self@, id@, ScannerStatusView::Error(crate::model::paper_jam()));
        }
        match event {
            ScannerEvent::WentOffline => {
                self.scanners.set_status(id.as_str(), ScannerStatus::Offline);
            },
            ScannerEvent::CameOnline => {
                if offline {
                    self.scanners.set_status(id.as_str(), ScannerStatus::Available);
                }
            },
            ScannerEvent::ReportedError => {
                self.scanners.set_status(
                    id.as_str(),
                    ScannerStatus::Error("Paper jam detected".to_owned()),
                );
            },
        }
    }

    /// Once in `EVENT_ODDS` calls, lets a scanner drawn at random meet an
    /// event drawn at random. The jobs stay as they are.
    pub fn simulate_scanner_events(&mut self)
        requires
            old(self).wf(),
        ensures
            final(self).wf(),
            final(self)@ == old(self)@ || exists|index: int, event: ScannerEvent|
                0 <= index < old(self)@.scanners.len() && final(self)@ == #[trigger] old(
                    self,
                )@.after_event(index, event),
    {
        if random_chance(1, EVENT_ODDS) {
            let count = self.scanners.len();
            if count > 0 {
                let index = random_in(0, count as u64) as usize;
                let event = ScannerEvent::from_draw(random_in(0, 3));
                self.apply_scanner_event(index, event);
            }
        }
    }

    /// Makes a scanner available again, whatever its status was.
    pub fn reset_scanner_status(&mut self, scanner_id: &str) -> (done: Result<(), ServiceError>)
        requires
            old(self).wf(),
        ensures
            final(self).wf(),
            final(self)@ == old(self)@.with_scanner_status(
                scanner_id@,
                ScannerStatusView::Available,
            ),
            match done {
                Ok(_) => holds(old(self)@.scanners, scanner_id@),
                Err(e) => !holds(old(self)@.scanners, scanner_id@) && final(self)@ == old(self)@
                    && e.is_not_found(Entity::Scanner, scanner_id@),
            },
    {
        proof {
            lemma_status_keeps_wf(self@, scanner_id@, ScannerStatusView::Available);
        }
        if self.scanners.set_status(scanner_id, ScannerStatus::Available) {
            Ok(())
        } else {
            Err(ServiceError::NotFound { entity: Entity::Scanner, id: scanner_id.to_owned() })
        }
    }

    pub fn get_system_info(&self) -> (info: SystemInfo)
        ensures
            info.platform == self@.platform,
            info.available_scanners == available_count(self@.scanners),
            info.available_scanners <= info.total_scanners,
            info.total_scanners == self@.scanners.len(),
            info.active_jobs == active_count(self@.jobs),
            info.scanner_api@ == api_label(self@.platform),
    {
        SystemInfo {
            platform: self.platform,
            available_scanners: self.scanners.count_available(),
            total_scanners: self.scanners.len(),
            active_jobs: self.jobs.count_active(),
            scanner_api: self.get_scanner_api_info(self.platform),
        }
    }

    /// The name of the scanning interface of a platform.
    pub fn get_scanner_api_info(&self, platform: SystemType) -> (label: String)
        ensures
            label@ == api_label(platform),
    {
        match platform {
            SystemType::Windows => "Windows Image Acquisition (WIA)".to_owned(),
            SystemType::MacOS => "Image Capture Framework".to_owned(),
            SystemType::Linux => "Scanner Access Now Easy (SANE)".to_owned(),
        }
    }

    /// Whether the job is in the store and scanning or processing.
    pub(crate) fn job_alive(&self, job_id: &str) -> (alive: bool)
        requires
            self.wf(),
        ensures
            alive == self@.alive(job_id@),
    {
        match self.jobs.find(job_id) {
            Some(job) => match job.status {
                JobStatus::Scanning => true,
                JobStatus::Processing => true,
                _ => false,
            },
            None => false,
        }
    }

    /// Sets the status of a scanner, where it is known.
    pub(crate) fn mark_scanner(&mut self, scanner_id: &str, status: ScannerStatus)
        requires
            old(self).wf(),
        ensures
            final(self).wf(),
            final(self)@ == old(self)@.with_scanner_status(scanner_id@, status@),
    {
        proof {
            lemma_status_keeps_wf(self@, scanner_id@, status@);
        }
        self.scanners.set_status(scanner_id, status);
    }

    /// Lets a job take one step, where it is known: a step that ends it, or a
    /// step of a job that still has work before it, and never a start.
    pub(crate) fn change_job(&mut self, job_id: &str, change: JobChange)
        requires
            old(self).wf(),
            !(change@ is Start),
            holds(old(self)@.jobs, job_id@) ==> apply_change(
                item_at(old(self)@.jobs, job_id@),
                change@,
            ).status.is_terminal() || item_at(old(self)@.jobs, job_id@).status.is_active(),
        ensures
            final(self).wf(),
            final(self)@ == (ServiceView {
                jobs: changed(old(self)@.jobs, job_id@, change@),
                ..old(self)@
            }),
    {
        proof {
            lemma_change_keeps_wf(self@, job_id@, change@);
        }
        self.jobs.update(job_id, change);
    }

    /// How many jobs are pending, scanning or processing.
    pub fn get_active_jobs_count(&self) -> (n: usize)
        ensures
            n == active_count(self@.jobs),
    {
        self.jobs.count_active()
    }
}

} // verus!
