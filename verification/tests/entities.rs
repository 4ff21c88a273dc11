use scanner_tool::clock::Timestamp;
use scanner_tool::entities::{
    ColorMode, DocumentType, JobStatus, OutputFormat, PaperSize, ScanJob, ScanSettings, Scanner,
    ScannerCapabilities, ScannerStatus, ScannerType, SystemType, PROGRESS_FULL,
};

fn at(secs: i64) -> Timestamp {
    Timestamp { secs, nanos: 0 }
}

#[test]
fn default_settings_are_300_dpi_colour_a4_pdf() {
    let settings = ScanSettings::default();
    assert_eq!(settings.resolution, 300);
    assert_eq!(settings.color_mode, ColorMode::Color);
    assert_eq!(settings.paper_size, PaperSize::A4);
    assert!(!settings.duplex);
    assert_eq!(settings.output_format, OutputFormat::Pdf);
    assert_eq!(settings.quality, 85);
}

#[test]
fn default_capabilities_list_three_modes_and_four_sizes() {
    let caps = ScannerCapabilities::default();
    assert_eq!(caps.max_resolution, 600);
    assert_eq!(
        caps.color_modes,
        vec![ColorMode::BlackAndWhite, ColorMode::Grayscale, ColorMode::Color]
    );
    assert_eq!(
        caps.paper_sizes,
        vec![PaperSize::A4, PaperSize::A3, PaperSize::Letter, PaperSize::Legal]
    );
    assert!(caps.has_duplex);
    assert!(!caps.has_adf);
}

#[test]
fn new_scanner_is_available_under_a_fresh_identifier() {
    let scanner = Scanner::new("Desk".to_string(), ScannerType::Flatbed, SystemType::Linux);
    assert!(scanner.is_available());
    assert_eq!(scanner.name, "Desk");
    assert_eq!(scanner.scanner_type, ScannerType::Flatbed);
    assert_eq!(scanner.system_type, SystemType::Linux);
    assert_eq!(scanner.capabilities.max_resolution, 600);
    assert_eq!(scanner.id.chars().count(), 36);
    let marks: Vec<usize> =
        scanner.id.char_indices().filter(|(_, c)| *c == '-').map(|(i, _)| i).collect();
    assert_eq!(marks, vec![8, 13, 18, 23]);
}

#[test]
fn fresh_identifiers_differ() {
    let a = Scanner::new("A".to_string(), ScannerType::Flatbed, SystemType::Linux);
    let b = Scanner::new("B".to_string(), ScannerType::Flatbed, SystemType::Linux);
    assert_ne!(a.id, b.id);
}

#[test]
fn scanner_with_other_status_is_not_available() {
    let mut scanner =
        Scanner::with_id("s".to_string(), "S".to_string(), ScannerType::Handheld, SystemType::MacOS);
    assert!(scanner.is_available());
    scanner.status = ScannerStatus::Busy;
    assert!(!scanner.is_available());
    scanner.status = ScannerStatus::Offline;
    assert!(!scanner.is_available());
    scanner.status = ScannerStatus::Error("jam".to_string());
    assert!(!scanner.is_available());
}

#[test]
fn scanner_clone_keeps_every_field() {
    let mut scanner =
        Scanner::with_id("s".to_string(), "S".to_string(), ScannerType::FilmScanner, SystemType::Windows);
    scanner.status = ScannerStatus::Error("jam".to_string());
    scanner.capabilities.max_resolution = 4800;
    let copy = scanner.clone();
    assert_eq!(copy.id, "s");
    assert_eq!(copy.name, "S");
    assert_eq!(copy.scanner_type, ScannerType::FilmScanner);
    assert_eq!(copy.system_type, SystemType::Windows);
    assert!(matches!(copy.status, ScannerStatus::Error(ref r) if r == "jam"));
    assert_eq!(copy.capabilities.max_resolution, 4800);
    assert_eq!(copy.capabilities.color_modes.len(), 3);
    assert_eq!(copy.capabilities.paper_sizes.len(), 4);
}

#[test]
fn new_job_is_pending_with_nothing_done() {
    let job = ScanJob::new("dev".to_string(), DocumentType::Invoice, ScanSettings::default());
    assert_eq!(job.id.chars().count(), 36);
    assert_eq!(job.scanner_id, "dev");
    assert_eq!(job.document_type, DocumentType::Invoice);
    assert!(matches!(job.status, JobStatus::Pending));
    assert_eq!(job.progress, 0);
    assert!(job.completed_at.is_none());
    assert!(job.scan_result.is_none());
    assert!(job.created_at.secs > 1_600_000_000);
}

#[test]
fn job_with_id_records_its_creation_time() {
    let job = ScanJob::with_id(
        "j".to_string(),
        "dev".to_string(),
        DocumentType::Text,
        ScanSettings::default(),
        at(77),
    );
    assert_eq!(job.id, "j");
    assert_eq!(job.created_at, at(77));
    assert!(job.status.is_active());
}

#[test]
fn job_transitions_set_status_and_time() {
    let fresh = || {
        ScanJob::with_id(
            "j".to_string(),
            "dev".to_string(),
            DocumentType::Text,
            ScanSettings::default(),
            at(1),
        )
    };
    let mut job = fresh();
    job.start_scanning();
    assert!(matches!(job.status, JobStatus::Scanning));
    assert_eq!(job.progress, 0);
    assert!(job.completed_at.is_none());

    job.complete_at(at(9));
    assert!(matches!(job.status, JobStatus::Completed));
    assert_eq!(job.progress, PROGRESS_FULL);
    assert_eq!(job.completed_at, Some(at(9)));
    assert!(!job.status.is_active());

    let mut job = fresh();
    job.update_progress(350);
    job.fail_at("broken".to_string(), at(5));
    assert!(matches!(job.status, JobStatus::Failed(ref r) if r == "broken"));
    assert_eq!(job.progress, 350);
    assert_eq!(job.completed_at, Some(at(5)));

    let mut job = fresh();
    job.cancel_at(at(6));
    assert!(matches!(job.status, JobStatus::Cancelled));
    assert_eq!(job.completed_at, Some(at(6)));
}

#[test]
fn job_complete_and_fail_stamp_the_present() {
    let mut job = ScanJob::new("dev".to_string(), DocumentType::Text, ScanSettings::default());
    job.complete();
    assert!(matches!(job.status, JobStatus::Completed));
    assert_eq!(job.progress, 1000);
    assert!(job.completed_at.unwrap().secs >= job.created_at.secs);

    let mut job = ScanJob::new("dev".to_string(), DocumentType::Text, ScanSettings::default());
    job.fail("no paper".to_string());
    assert!(matches!(job.status, JobStatus::Failed(ref r) if r == "no paper"));
    assert!(job.completed_at.is_some());
}

#[test]
fn progress_is_clamped_to_full() {
    let mut job = ScanJob::with_id(
        "j".to_string(),
        "dev".to_string(),
        DocumentType::Text,
        ScanSettings::default(),
        at(1),
    );
    job.update_progress(0);
    assert_eq!(job.progress, 0);
    job.update_progress(999);
    assert_eq!(job.progress, 999);
    job.update_progress(1001);
    assert_eq!(job.progress, 1000);
    job.update_progress(u32::MAX);
    assert_eq!(job.progress, 1000);
}

#[test]
fn progress_never_falls() {
    let mut job = ScanJob::with_id(
        "j".to_string(),
        "dev".to_string(),
        DocumentType::Text,
        ScanSettings::default(),
        at(1),
    );
    job.start_scanning();
    job.update_progress(400);
    assert_eq!(job.progress, 400);
    job.update_progress(250);
    assert_eq!(job.progress, 400);
    job.update_progress(0);
    assert_eq!(job.progress, 400);
    job.update_progress(400);
    assert_eq!(job.progress, 400);
    job.update_progress(401);
    assert_eq!(job.progress, 401);
    assert!(matches!(job.status, JobStatus::Scanning));
    assert_eq!(job.scanner_id, "dev");
}

#[test]
fn only_pending_scanning_processing_are_active() {
    assert!(JobStatus::Pending.is_active());
    assert!(JobStatus::Scanning.is_active());
    assert!(JobStatus::Processing.is_active());
    assert!(!JobStatus::Completed.is_active());
    assert!(!JobStatus::Failed("x".to_string()).is_active());
    assert!(!JobStatus::Cancelled.is_active());
}
