//! Names and descriptions of the files that scans leave behind. The files
//! themselves are made by the caller.

use crate::clock::{format_utc, utc_text, Timestamp};
use crate::entities::{
    DocumentType, OutputFormat, ScanResult, ScanResultView, ScanSettings,
};
use crate::keyed::Text;
use vstd::prelude::*;
use vstd::string::StringExecFns;

verus! {

/// The pattern of the time in a file name: year, month, day, an underscore,
/// hour, minute, second.
pub open spec fn stamp_pattern() -> Text {
    "%Y%m%d_%H%M%S"@
}

/// How the name of a file begins, by the kind of document.
pub open spec fn type_prefix(document_type: DocumentType) -> Text {
    match document_type {
        DocumentType::Text => "text_document"@,
        DocumentType::Image => "scanned_image"@,
        DocumentType::Mixed => "mixed_content"@,
        DocumentType::Photo => "photo_scan"@,
        DocumentType::BusinessCard => "business_card"@,
        DocumentType::Receipt => "receipt"@,
        DocumentType::Contract => "contract"@,
        DocumentType::Invoice => "invoice"@,
    }
}

/// How the name of a file ends, by the format. Only PDF files are written as
/// such; every other format is written as text.
pub open spec fn extension(format: OutputFormat) -> Text {
    match format {
        OutputFormat::Pdf => "pdf"@,
        OutputFormat::Jpeg => "txt"@,
        OutputFormat::Png => "txt"@,
        OutputFormat::Tiff => "txt"@,
    }
}

/// The name of a file: the prefix, an underscore, the time, a dot, the
/// extension.
pub open spec fn filename_text(document_type: DocumentType, format: OutputFormat, stamp: Text) -> Text {
    type_prefix(document_type) + "_"@ + stamp + "."@ + extension(format)
}

/// What is recorded of a file of one page that was written for a scan.
pub open spec fn described(file_path: Text, file_size: u64, settings: ScanSettings, now: Timestamp) -> ScanResultView {
    ScanResultView {
        file_path,
        file_size,
        pages: 1,
        resolution: settings.resolution,
        color_mode: settings.color_mode,
        format: settings.output_format,
        scan_time: now,
    }
}

pub struct ScanGenerator;

impl ScanGenerator {
    fn prefix_of(document_type: &DocumentType) -> (prefix: &'static str)
        ensures
            prefix@ == type_prefix(*document_type),
    {
        match document_type {
            DocumentType::Text => "text_document",
            DocumentType::Image => "scanned_image",
            DocumentType::Mixed => "mixed_content",
            DocumentType::Photo => "photo_scan",
            DocumentType::BusinessCard => "business_card",
            DocumentType::Receipt => "receipt",
            DocumentType::Contract => "contract",
            DocumentType::Invoice => "invoice",
        }
    }

    fn extension_of(format: &OutputFormat) -> (ext: &'static str)
        ensures
            ext@ == extension(*format),
    {
        match format {
            OutputFormat::Pdf => "pdf",
            OutputFormat::Jpeg => "txt",
            OutputFormat::Png => "txt",
            OutputFormat::Tiff => "txt",
        }
    }

    /// Whether a file of the format is written as a PDF file; every other
    /// format is written as text.
    pub fn writes_pdf(format: &OutputFormat) -> (pdf: bool)
        ensures
            pdf == (*format == OutputFormat::Pdf),
    {
        match format {
            OutputFormat::Pdf => true,
            _ => false,
        }
    }

    /// The name of a file, from the text of its time.
    pub fn compose_filename(document_type: &DocumentType, format: &OutputFormat, stamp: &str) -> (name: String)
        ensures
            name@ == filename_text(*document_type, *format, stamp@),
    {
        let mut name = Self::prefix_of(document_type).to_owned();
        name.append("_");
        name.append(stamp);
        name.append(".");
        name.append(Self::extension_of(format));
        name
    }

    /// The name of the file for a scan made at a given time; `None` where the
    /// time is beyond the calendar.
    pub fn generate_filename(
        document_type: &DocumentType,
        format: &OutputFormat,
        timestamp: &Timestamp,
    ) -> (name: Option<String>)
        ensures
            match utc_text(timestamp.secs, timestamp.nanos, stamp_pattern()) {
                Some(stamp) => name matches Some(n) && n@ == filename_text(
                    *document_type,
                    *format,
                    stamp,
                ),
                None => name is None,
            },
    {
        match format_utc(*timestamp, "%Y%m%d_%H%M%S") {
            Some(stamp) => Some(Self::compose_filename(document_type, format, stamp.as_str())),
            None => None,
        }
    }

    /// The record of a file of one page that was written for a scan.
    pub fn describe(file_path: String, file_size: u64, settings: &ScanSettings, now: Timestamp) -> (result:
        ScanResult)
        ensures
            result@ == described(file_path@, file_size, *settings, now),
    {
        ScanResult {
            file_path,
            file_size,
            pages: 1,
            resolution: settings.resolution,
            color_mode: settings.color_mode,
            format: settings.output_format,
            scan_time: now,
        }
    }
}

} // verus!
