use scanner_tool::clock::Timestamp;
use scanner_tool::entities::{ColorMode, DocumentType, OutputFormat, PaperSize, ScanSettings, SystemType};
use scanner_tool::errors::{Conflict, Entity, ServiceError};
use scanner_tool::scan_generator::ScanGenerator;
use scanner_tool::text::{decimal, system_label};

#[test]
fn filename_has_prefix_time_and_extension() {
    let t = Timestamp { secs: 1_431_648_000, nanos: 0 };
    assert_eq!(
        ScanGenerator::generate_filename(&DocumentType::Text, &OutputFormat::Pdf, &t).unwrap(),
        "text_document_20150515_000000.pdf"
    );
    let t = Timestamp { secs: 1_700_000_000, nanos: 999_999_999 };
    assert_eq!(
        ScanGenerator::generate_filename(&DocumentType::Invoice, &OutputFormat::Jpeg, &t).unwrap(),
        "invoice_20231114_221320.txt"
    );
    let t = Timestamp { secs: 0, nanos: 0 };
    assert_eq!(
        ScanGenerator::generate_filename(&DocumentType::BusinessCard, &OutputFormat::Tiff, &t)
            .unwrap(),
        "business_card_19700101_000000.txt"
    );
    let t = Timestamp { secs: -1, nanos: 0 };
    assert_eq!(
        ScanGenerator::generate_filename(&DocumentType::Photo, &OutputFormat::Png, &t).unwrap(),
        "photo_scan_19691231_235959.txt"
    );
}

#[test]
fn filename_of_a_time_beyond_the_calendar_is_none() {
    let t = Timestamp { secs: i64::MAX, nanos: 0 };
    assert!(ScanGenerator::generate_filename(&DocumentType::Text, &OutputFormat::Pdf, &t).is_none());
    let t = Timestamp { secs: i64::MIN, nanos: 0 };
    assert!(ScanGenerator::generate_filename(&DocumentType::Text, &OutputFormat::Pdf, &t).is_none());
    let t = Timestamp { secs: 0, nanos: 2_000_000_000 };
    assert!(ScanGenerator::generate_filename(&DocumentType::Text, &OutputFormat::Pdf, &t).is_none());
}

#[test]
fn composed_filenames_for_every_kind_of_document() {
    let cases = [
        (DocumentType::Text, "text_document"),
        (DocumentType::Image, "scanned_image"),
        (DocumentType::Mixed, "mixed_content"),
        (DocumentType::Photo, "photo_scan"),
        (DocumentType::BusinessCard, "business_card"),
        (DocumentType::Receipt, "receipt"),
        (DocumentType::Contract, "contract"),
        (DocumentType::Invoice, "invoice"),
    ];
    for (kind, prefix) in cases {
        assert_eq!(
            ScanGenerator::compose_filename(&kind, &OutputFormat::Pdf, "S"),
            format!("{}_S.pdf", prefix)
        );
    }
    assert_eq!(ScanGenerator::compose_filename(&DocumentType::Text, &OutputFormat::Png, ""), "text_document_.txt");
}

#[test]
fn only_pdf_is_written_as_pdf() {
    assert!(ScanGenerator::writes_pdf(&OutputFormat::Pdf));
    assert!(!ScanGenerator::writes_pdf(&OutputFormat::Jpeg));
    assert!(!ScanGenerator::writes_pdf(&OutputFormat::Png));
    assert!(!ScanGenerator::writes_pdf(&OutputFormat::Tiff));
}

#[test]
fn described_file_takes_its_figures_from_the_settings() {
    let settings = ScanSettings {
        resolution: 1200,
        color_mode: ColorMode::Grayscale,
        paper_size: PaperSize::Custom { width: 10, height: 20 },
        duplex: true,
        output_format: OutputFormat::Tiff,
        quality: 40,
    };
    let now = Timestamp { secs: 5, nanos: 6 };
    let result = ScanGenerator::describe("/a/b.txt".to_string(), 77, &settings, now);
    assert_eq!(result.file_path, "/a/b.txt");
    assert_eq!(result.file_size, 77);
    assert_eq!(result.pages, 1);
    assert_eq!(result.resolution, 1200);
    assert_eq!(result.color_mode, ColorMode::Grayscale);
    assert_eq!(result.format, OutputFormat::Tiff);
    assert_eq!(result.scan_time, now);
}

#[test]
fn numbers_are_written_in_decimal() {
    assert_eq!(decimal(0), "0");
    assert_eq!(decimal(7), "7");
    assert_eq!(decimal(10), "10");
    assert_eq!(decimal(99), "99");
    assert_eq!(decimal(100), "100");
    assert_eq!(decimal(1234567890), "1234567890");
    assert_eq!(decimal(u64::MAX), u64::MAX.to_string());
}

#[test]
fn systems_have_names() {
    assert_eq!(system_label(SystemType::Windows), "Windows");
    assert_eq!(system_label(SystemType::MacOS), "MacOS");
    assert_eq!(system_label(SystemType::Linux), "Linux");
}

#[test]
fn errors_read_as_sentences() {
    let e = ServiceError::NotFound { entity: Entity::Scanner, id: "abc".to_string() };
    assert_eq!(e.message(), "Scanner with ID abc not found");
    let e = ServiceError::NotFound { entity: Entity::Job, id: "j-1".to_string() };
    assert_eq!(e.message(), "Job with ID j-1 not found");
    let e = ServiceError::Conflict(Conflict::ScannerNotAvailable);
    assert_eq!(e.message(), "Scanner is not available");
    let e = ServiceError::Conflict(Conflict::NotCancellable);
    assert_eq!(e.message(), "Job cannot be cancelled in its current state");
    let e = ServiceError::Conflict(Conflict::SystemMismatch {
        scanner: SystemType::Windows,
        current: SystemType::MacOS,
    });
    assert_eq!(e.message(), "Scanner system type Windows does not match current system MacOS");
    let job_ids: Vec<String> = (0..12).map(|n| format!("job-{}", n)).collect();
    let e = ServiceError::Conflict(Conflict::ActiveJobs { job_ids });
    assert_eq!(e.message(), "Cannot remove scanner with 12 active jobs. Cancel jobs first.");
}
