//! The records the service keeps: scanners, jobs and what belongs to them.
//!
//! Every record that owns text has a view, a value of the same shape whose
//! strings are sequences of characters. Contracts speak of views.

use crate::clock::{utc_now, Timestamp};
use crate::ident::{fresh_id, FRESH_ID_LEN};
use std::collections::HashMap;
use vstd::prelude::*;

verus! {

/// Progress is counted in thousandths: 0 is nothing done, 1000 is all done.
pub const PROGRESS_FULL: u32 = 1000;

#[derive(Debug, Clone, Copy, PartialEq, Eq, Structural)]
pub enum ScannerType {
    Flatbed,
    DocumentFeeder,
    SheetFed,
    Handheld,
    FilmScanner,
    PhotoScanner,
}

#[derive(Debug, Clone, Copy, PartialEq, Eq, Structural)]
pub enum ColorMode {
    BlackAndWhite,
    Grayscale,
    Color,
}

#[derive(Debug, Clone, Copy, PartialEq, Eq, Structural)]
pub enum PaperSize {
    A4,
    A3,
    Letter,
    Legal,
    Custom { width: u32, height: u32 },
}

#[derive(Debug, Clone, Copy, PartialEq, Eq, Structural)]
pub enum SystemType {
    Windows,
    MacOS,
    Linux,
}

#[derive(Debug, Clone, Copy, PartialEq, Eq, Structural)]
pub enum DocumentType {
    Text,
    Image,
    Mixed,
    Photo,
    BusinessCard,
    Receipt,
    Contract,
    Invoice,
}

#[derive(Debug, Clone, Copy, PartialEq, Eq, Structural)]
pub enum OutputFormat {
    Pdf,
    Jpeg,
    Png,
    Tiff,
}

#[derive(Debug, Clone, Copy, PartialEq, Eq, Structural)]
pub enum ActionType {
    Scan,
    Preview,
    Cancel,
    GetScanners,
    GetCapabilities,
    TestConnection,
}

/// How a scan is to be made. `quality` runs from 1 to 100.
#[derive(Debug, Clone, Copy, PartialEq, Eq, Structural)]
pub struct ScanSettings {
    pub resolution: u32,
    pub color_mode: ColorMode,
    pub paper_size: PaperSize,
    pub duplex: bool,
    pub output_format: OutputFormat,
    pub quality: u8,
}

pub open spec fn default_settings() -> ScanSettings {
    ScanSettings {
        resolution: 300,
        color_mode: ColorMode::Color,
        paper_size: PaperSize::A4,
        duplex: false,
        output_format: OutputFormat::Pdf,
        quality: 85,
    }
}

impl Default for ScanSettings {
    fn default() -> (settings: Self)
        ensures
            settings == default_settings(),
    {
        ScanSettings {
            resolution: 300,
            color_mode: ColorMode::Color,
            paper_size: PaperSize::A4,
            duplex: false,
            output_format: OutputFormat::Pdf,
            quality: 85,
        }
    }
}

/// Copies a vector of plain values.
pub fn copy_items<T: Copy>(items: &Vec<T>) -> (copy: Vec<T>)
    ensures
        copy@ == items@,
{
    let mut copy: Vec<T> = Vec::new();
    let mut i: usize = 0;
    while i < items.len()
        invariant
            i <= items.len(),
            copy@ == items@.take(i as int),
        decreases items.len() - i,
    {
        copy.push(items[i]);
        i = i + 1;
        assert(copy@ == items@.take(i as int));
    }
    assert(items@.take(items.len() as int) == items@);
    copy
}

// ---------------------------------------------------------------- scanners

#[derive(Debug)]
pub enum ScannerStatus {
    Available,
    Busy,
    Offline,
    Error(String),
}

pub enum ScannerStatusView {
    Available,
    Busy,
    Offline,
    Error(Seq<char>),
}

impl View for ScannerStatus {
    type V = ScannerStatusView;

    open spec fn view(&self) -> ScannerStatusView {
        match self {
            ScannerStatus::Available => ScannerStatusView::Available,
            ScannerStatus::Busy => ScannerStatusView::Busy,
            ScannerStatus::Offline => ScannerStatusView::Offline,
            ScannerStatus::Error(reason) => ScannerStatusView::Error(reason@),
        }
    }
}

impl Clone for ScannerStatus {
    fn clone(&self) -> (copy: Self)
        ensures
            copy@ == self@,
    {
        match self {
            ScannerStatus::Available => ScannerStatus::Available,
            ScannerStatus::Busy => ScannerStatus::Busy,
            ScannerStatus::Offline => ScannerStatus::Offline,
            ScannerStatus::Error(reason) => ScannerStatus::Error(reason.clone()),
        }
    }
}

#[derive(Debug)]
pub struct ScannerCapabilities {
    pub max_resolution: u32,
    pub color_modes: Vec<ColorMode>,
    pub paper_sizes: Vec<PaperSize>,
    pub has_duplex: bool,
    /// Whether the scanner has an automatic document feeder.
    pub has_adf: bool,
}

pub struct CapabilitiesView {
    pub max_resolution: u32,
    pub color_modes: Seq<ColorMode>,
    pub paper_sizes: Seq<PaperSize>,
    pub has_duplex: bool,
    pub has_adf: bool,
}

impl View for ScannerCapabilities {
    type V = CapabilitiesView;

    open spec fn view(&self) -> CapabilitiesView {
        CapabilitiesView {
            max_resolution: self.max_resolution,
            color_modes: self.color_modes@,
            paper_sizes: self.paper_sizes@,
            has_duplex: self.has_duplex,
            has_adf: self.has_adf,
        }
    }
}

/// What a scanner can do when nothing more is known of it.
pub open spec fn default_capabilities() -> CapabilitiesView {
    CapabilitiesView {
        max_resolution: 600,
        color_modes: seq![ColorMode::BlackAndWhite, ColorMode::Grayscale, ColorMode::Color],
        paper_sizes: seq![PaperSize::A4, PaperSize::A3, PaperSize::Letter, PaperSize::Legal],
        has_duplex: true,
        has_adf: false,
    }
}

impl Default for ScannerCapabilities {
    fn default() -> (caps: Self)
        ensures
            caps@ == default_capabilities(),
    {
        let mut color_modes: Vec<ColorMode> = Vec::new();
        color_modes.push(ColorMode::BlackAndWhite);
        color_modes.push(ColorMode::Grayscale);
        color_modes.push(ColorMode::Color);
        let mut paper_sizes: Vec<PaperSize> = Vec::new();
        paper_sizes.push(PaperSize::A4);
        paper_sizes.push(PaperSize::A3);
        paper_sizes.push(PaperSize::Letter);
        paper_sizes.push(PaperSize::Legal);
        assert(color_modes@ == default_capabilities().color_modes);
        assert(paper_sizes@ == default_capabilities().paper_sizes);
        ScannerCapabilities {
            max_resolution: 600,
            color_modes,
            paper_sizes,
            has_duplex: true,
            has_adf: false,
        }
    }
}

impl Clone for ScannerCapabilities {
    fn clone(&self) -> (copy: Self)
        ensures
            copy@ == self@,
    {
        ScannerCapabilities {
            max_resolution: self.max_resolution,
            color_modes: copy_items(&self.color_modes),
            paper_sizes: copy_items(&self.paper_sizes),
            has_duplex: self.has_duplex,
            has_adf: self.has_adf,
        }
    }
}

/// A scanner known to the service. `id` names it and never changes.
#[derive(Debug)]
pub struct Scanner {
    pub id: String,
    pub name: String,
    pub scanner_type: ScannerType,
    pub status: ScannerStatus,
    pub capabilities: ScannerCapabilities,
    pub system_type: SystemType,
}

pub struct ScannerView {
    pub id: Seq<char>,
    pub name: Seq<char>,
    pub scanner_type: ScannerType,
    pub status: ScannerStatusView,
    pub capabilities: CapabilitiesView,
    pub system_type: SystemType,
}

impl ScannerView {
    /// The same scanner with another status.
    pub open spec fn with_status(self, status: ScannerStatusView) -> ScannerView {
        ScannerView { status, ..self }
    }
}

impl View for Scanner {
    type V = ScannerView;

    open spec fn view(&self) -> ScannerView {
        ScannerView {
            id: self.id@,
            name: self.name@,
            scanner_type: self.scanner_type,
            status: self.status@,
            capabilities: self.capabilities@,
            system_type: self.system_type,
        }
    }
}

impl Clone for Scanner {
    fn clone(&self) -> (copy: Self)
        ensures
            copy@ == self@,
    {
        Scanner {
            id: self.id.clone(),
            name: self.name.clone(),
            scanner_type: self.scanner_type,
            status: self.status.clone(),
            capabilities: self.capabilities.clone(),
            system_type: self.system_type,
        }
    }
}

impl Scanner {
    /// A scanner under a given identifier: available, with the default
    /// capabilities.
    pub fn with_id(id: String, name: String, scanner_type: ScannerType, system_type: SystemType) -> (scanner: Self)
        ensures
            scanner@ == (ScannerView {
                id: id@,
                name: name@,
                scanner_type,
                status: ScannerStatusView::Available,
                capabilities: default_capabilities(),
                system_type,
            }),
    {
        Scanner {
            id,
            name,
            scanner_type,
            status: ScannerStatus::Available,
            capabilities: ScannerCapabilities::default(),
            system_type,
        }
    }

    /// A scanner under a fresh identifier: available, with the default
    /// capabilities.
    pub fn new(name: String, scanner_type: ScannerType, system_type: SystemType) -> (scanner: Self)
        ensures
            scanner@.id.len() == FRESH_ID_LEN,
            scanner@ == (ScannerView {
                id: scanner@.id,
                name: name@,
                scanner_type,
                status: ScannerStatusView::Available,
                capabilities: default_capabilities(),
                system_type,
            }),
    {
        Scanner::with_id(fresh_id(), name, scanner_type, system_type)
    }

    pub fn is_available(&self) -> (available: bool)
        ensures
            available == (self@.status is Available),
    {
        match self.status {
            ScannerStatus::Available => true,
            _ => false,
        }
    }
}

// -------------------------------------------------------------------- jobs

#[derive(Debug)]
pub enum JobStatus {
    Pending,
    Scanning,
    Processing,
    Completed,
    Failed(String),
    Cancelled,
}

pub enum JobStatusView {
    Pending,
    Scanning,
    Processing,
    Completed,
    Failed(Seq<char>),
    Cancelled,
}

impl JobStatusView {
    /// Pending, scanning or processing: the job still has work before it.
    pub open spec fn is_active(self) -> bool {
        self is Pending || self is Scanning || self is Processing
    }

    /// Completed, failed or cancelled.
    pub open spec fn is_terminal(self) -> bool {
        !self.is_active()
    }
}

impl View for JobStatus {
    type V = JobStatusView;

    open spec fn view(&self) -> JobStatusView {
        match self {
            JobStatus::Pending => JobStatusView::Pending,
            JobStatus::Scanning => JobStatusView::Scanning,
            JobStatus::Processing => JobStatusView::Processing,
            JobStatus::Completed => JobStatusView::Completed,
            JobStatus::Failed(reason) => JobStatusView::Failed(reason@),
            JobStatus::Cancelled => JobStatusView::Cancelled,
        }
    }
}

impl Clone for JobStatus {
    fn clone(&self) -> (copy: Self)
        ensures
            copy@ == self@,
    {
        match self {
            JobStatus::Pending => JobStatus::Pending,
            JobStatus::Scanning => JobStatus::Scanning,
            JobStatus::Processing => JobStatus::Processing,
            JobStatus::Completed => JobStatus::Completed,
            JobStatus::Failed(reason) => JobStatus::Failed(reason.clone()),
            JobStatus::Cancelled => JobStatus::Cancelled,
        }
    }
}

impl JobStatus {
    pub fn is_active(&self) -> (active: bool)
        ensures
            active == self@.is_active(),
    {
        match self {
            JobStatus::Pending => true,
            JobStatus::Scanning => true,
            JobStatus::Processing => true,
            _ => false,
        }
    }
}

/// What a finished scan left behind.
#[derive(Debug)]
pub struct ScanResult {
    pub file_path: String,
    pub file_size: u64,
    pub pages: u32,
    pub resolution: u32,
    pub color_mode: ColorMode,
    pub format: OutputFormat,
    pub scan_time: Timestamp,
}

pub struct ScanResultView {
    pub file_path: Seq<char>,
    pub file_size: u64,
    pub pages: u32,
    pub resolution: u32,
    pub color_mode: ColorMode,
    pub format: OutputFormat,
    pub scan_time: Timestamp,
}

impl View for ScanResult {
    type V = ScanResultView;

    open spec fn view(&self) -> ScanResultView {
        ScanResultView {
            file_path: self.file_path@,
            file_size: self.file_size,
            pages: self.pages,
            resolution: self.resolution,
            color_mode: self.color_mode,
            format: self.format,
            scan_time: self.scan_time,
        }
    }
}

impl Clone for ScanResult {
    fn clone(&self) -> (copy: Self)
        ensures
            copy@ == self@,
    {
        ScanResult {
            file_path: self.file_path.clone(),
            file_size: self.file_size,
            pages: self.pages,
            resolution: self.resolution,
            color_mode: self.color_mode,
            format: self.format,
            scan_time: self.scan_time,
        }
    }
}

/// The view of an optional scan result.
pub open spec fn result_view(result: Option<ScanResult>) -> Option<ScanResultView> {
    match result {
        Some(r) => Some(r@),
        None => None,
    }
}

/// A request to scan one document on one scanner. `progress` is in
/// thousandths and never above `PROGRESS_FULL`.
#[derive(Debug)]
pub struct ScanJob {
    pub id: String,
    pub scanner_id: String,
    pub document_type: DocumentType,
    pub scan_settings: ScanSettings,
    pub status: JobStatus,
    pub progress: u32,
    pub created_at: Timestamp,
    pub completed_at: Option<Timestamp>,
    pub scan_result: Option<ScanResult>,
}

pub struct ScanJobView {
    pub id: Seq<char>,
    pub scanner_id: Seq<char>,
    pub document_type: DocumentType,
    pub scan_settings: ScanSettings,
    pub status: JobStatusView,
    pub progress: u32,
    pub created_at: Timestamp,
    pub completed_at: Option<Timestamp>,
    pub scan_result: Option<ScanResultView>,
}

impl ScanJobView {
    /// A job as it is created: pending, nothing done, no result.
    pub open spec fn created(
        id: Seq<char>,
        scanner_id: Seq<char>,
        document_type: DocumentType,
        scan_settings: ScanSettings,
        now: Timestamp,
    ) -> ScanJobView {
        ScanJobView {
            id,
            scanner_id,
            document_type,
            scan_settings,
            status: JobStatusView::Pending,
            progress: 0,
            created_at: now,
            completed_at: None,
            scan_result: None,
        }
    }

    pub open spec fn started(self) -> ScanJobView {
        ScanJobView { status: JobStatusView::Scanning, ..self }
    }

    /// The progress is no more than all of it.
    pub open spec fn in_range(self) -> bool {
        self.progress <= PROGRESS_FULL
    }

    /// The job after a report that so many thousandths are done. A report
    /// above `PROGRESS_FULL` counts as `PROGRESS_FULL`, and a report below
    /// what the job has already made changes nothing: progress never falls.
    pub open spec fn progressed(self, progress: u32) -> ScanJobView {
        let capped = if progress > PROGRESS_FULL {
            PROGRESS_FULL
        } else {
            progress
        };
        ScanJobView { progress: if capped > self.progress { capped } else { self.progress }, ..self }
    }

    pub open spec fn completed(self, now: Timestamp) -> ScanJobView {
        ScanJobView {
            status: JobStatusView::Completed,
            progress: PROGRESS_FULL,
            completed_at: Some(now),
            ..self
        }
    }

    pub open spec fn completed_with(self, result: ScanResultView, now: Timestamp) -> ScanJobView {
        ScanJobView { scan_result: Some(result), ..self.completed(now) }
    }

    pub open spec fn failed(self, reason: Seq<char>, now: Timestamp) -> ScanJobView {
        ScanJobView { status: JobStatusView::Failed(reason), completed_at: Some(now), ..self }
    }

    pub open spec fn cancelled(self, now: Timestamp) -> ScanJobView {
        ScanJobView { status: JobStatusView::Cancelled, completed_at: Some(now), ..self }
    }
}

impl View for ScanJob {
    type V = ScanJobView;

    open spec fn view(&self) -> ScanJobView {
        ScanJobView {
            id: self.id@,
            scanner_id: self.scanner_id@,
            document_type: self.document_type,
            scan_settings: self.scan_settings,
            status: self.status@,
            progress: self.progress,
            created_at: self.created_at,
            completed_at: self.completed_at,
            scan_result: result_view(self.scan_result),
        }
    }
}

impl Clone for ScanJob {
    fn clone(&self) -> (copy: Self)
        ensures
            copy@ == self@,
    {
        let scan_result = match &self.scan_result {
            Some(r) => Some(r.clone()),
            None => None,
        };
        ScanJob {
            id: self.id.clone(),
            scanner_id: self.scanner_id.clone(),
            document_type: self.document_type,
            scan_settings: self.scan_settings,
            status: self.status.clone(),
            progress: self.progress,
            created_at: self.created_at,
            completed_at: self.completed_at,
            scan_result,
        }
    }
}

impl ScanJob {
    /// A pending job under a given identifier, created at a given time.
    pub fn with_id(
        id: String,
        scanner_id: String,
        document_type: DocumentType,
        scan_settings: ScanSettings,
        now: Timestamp,
    ) -> (job: Self)
        ensures
            job@ == ScanJobView::created(id@, scanner_id@, document_type, scan_settings, now),
    {
        ScanJob {
            id,
            scanner_id,
            document_type,
            scan_settings,
            status: JobStatus::Pending,
            progress: 0,
            created_at: now,
            completed_at: None,
            scan_result: None,
        }
    }

    /// A pending job under a fresh identifier, created now.
    pub fn new(scanner_id: String, document_type: DocumentType, scan_settings: ScanSettings) -> (job: Self)
        ensures
            job@.id.len() == FRESH_ID_LEN,
            job@ == ScanJobView::created(
                job@.id,
                scanner_id@,
                document_type,
                scan_settings,
                job@.created_at,
            ),
    {
        let now = utc_now();
        ScanJob::with_id(fresh_id(), scanner_id, document_type, scan_settings, now)
    }

    pub fn start_scanning(&mut self)
        ensures
            final(self)@ == old(self)@.started(),
    {
        self.status = JobStatus::Scanning;
    }

    /// Marks the job completed at a given time.
    pub fn complete_at(&mut self, now: Timestamp)
        ensures
            final(self)@ == old(self)@.completed(now),
    {
        self.status = JobStatus::Completed;
        self.progress = PROGRESS_FULL;
        self.completed_at = Some(now);
    }

    /// Marks the job completed now.
    pub fn complete(&mut self)
        ensures
            exists|now: Timestamp| final(self)@ == #[trigger] old(self)@.completed(now),
    {
        let now = utc_now();
        self.complete_at(now);
    }

    /// Marks the job failed now, for a given reason.
    pub fn fail(&mut self, error: String)
        ensures
            exists|now: Timestamp| final(self)@ == #[trigger] old(self)@.failed(error@, now),
    {
        let now = utc_now();
        self.fail_at(error, now);
    }

    /// Marks the job failed at a given time, for a given reason.
    pub fn fail_at(&mut self, error: String, now: Timestamp)
        ensures
            final(self)@ == old(self)@.failed(error@, now),
    {
        self.status = JobStatus::Failed(error);
        self.completed_at = Some(now);
    }

    /// Marks the job cancelled at a given time.
    pub fn cancel_at(&mut self, now: Timestamp)
        ensures
            final(self)@ == old(self)@.cancelled(now),
    {
        self.status = JobStatus::Cancelled;
        self.completed_at = Some(now);
    }

    /// Takes a report that so many thousandths are done. A value above
    /// `PROGRESS_FULL` counts as `PROGRESS_FULL`; a value below the progress
    /// that the job has already made is passed over, so that the progress of
    /// a job never falls.
    pub fn update_progress(&mut self, progress: u32)
        ensures
            final(self)@ == old(self)@.progressed(progress),
            final(self)@.progress >= old(self)@.progress,
            old(self)@.in_range() ==> final(self)@.in_range(),
    {
        let capped: u32 = if progress > PROGRESS_FULL {
            PROGRESS_FULL
        } else {
            progress
        };
        if capped > self.progress {
            self.progress = capped;
        }
    }
}

// ------------------------------------------------------------ other records

#[derive(Debug)]
pub struct Document {
    pub id: String,
    pub name: String,
    pub doc_type: DocumentType,
    pub pages: u32,
    pub created_at: Timestamp,
}

#[derive(Debug)]
pub struct ScanAction {
    pub action_type: ActionType,
    pub parameters: HashMap<String, String>,
}

#[derive(Debug)]
pub struct ScanOutput {
    pub job_id: String,
    pub result: Option<ScanResult>,
    pub preview_available: bool,
    pub output_path: Option<String>,
}

} // verus!
