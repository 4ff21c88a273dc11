//! The words of the sample documents that stand in for scanned pages when
//! the output is written as text.

use crate::clock::{format_utc, utc_now, utc_text, Timestamp};
use crate::entities::{ColorMode, DocumentType, OutputFormat, PaperSize, ScanSettings};
use crate::keyed::Text;
use crate::random::random_in;
use crate::scan_generator::ScanGenerator;
use crate::text::{decimal, decimal_text};
use vstd::prelude::*;
use vstd::string::StringExecFns;

verus! {

/// The pattern of a day: year, month, day.
pub const DAY: &'static str = "%Y-%m-%d";

/// The pattern of a day written out: the month by name, the day, the year.
pub const LONG_DAY: &'static str = "%B %d, %Y";

/// The pattern of a time of day: hour, minute, second.
pub const CLOCK: &'static str = "%H:%M:%S";

/// The pattern of a day and a time of day.
pub const DAY_AND_CLOCK: &'static str = "%Y-%m-%d %H:%M:%S";

/// An invoice is due so many seconds after its date: thirty days.
pub const DUE_AFTER_SECS: i64 = 2592000;

/// Invoice numbers run from here ...
pub const INVOICE_NUMBER_FROM: u64 = 10000;

/// ... to below here.
pub const INVOICE_NUMBER_BELOW: u64 = 99999;

/// Transaction numbers run from here ...
pub const TRANSACTION_NUMBER_FROM: u64 = 100000;

/// ... to below here.
pub const TRANSACTION_NUMBER_BELOW: u64 = 999999;

// ------------------------------------------------------- names of the settings

pub open spec fn color_name(mode: ColorMode) -> Text {
    match mode {
        ColorMode::BlackAndWhite => "BlackAndWhite"@,
        ColorMode::Grayscale => "Grayscale"@,
        ColorMode::Color => "Color"@,
    }
}

/// The short name of a colour mode, as the scan note has it.
pub open spec fn color_short_name(mode: ColorMode) -> Text {
    match mode {
        ColorMode::BlackAndWhite => "B&W"@,
        ColorMode::Grayscale => "Grayscale"@,
        ColorMode::Color => "Color"@,
    }
}

pub open spec fn paper_name(size: PaperSize) -> Text {
    match size {
        PaperSize::A4 => "A4"@,
        PaperSize::A3 => "A3"@,
        PaperSize::Letter => "Letter"@,
        PaperSize::Legal => "Legal"@,
        PaperSize::Custom { width, height } => "Custom { width: "@ + decimal_text(width as nat)
            + ", height: "@ + decimal_text(height as nat) + " }"@,
    }
}

pub open spec fn format_name(format: OutputFormat) -> Text {
    match format {
        OutputFormat::Pdf => "Pdf"@,
        OutputFormat::Jpeg => "Jpeg"@,
        OutputFormat::Png => "Png"@,
        OutputFormat::Tiff => "Tiff"@,
    }
}

pub open spec fn document_name(document_type: DocumentType) -> Text {
    match document_type {
        DocumentType::Text => "Text"@,
        DocumentType::Image => "Image"@,
        DocumentType::Mixed => "Mixed"@,
        DocumentType::Photo => "Photo"@,
        DocumentType::BusinessCard => "BusinessCard"@,
        DocumentType::Receipt => "Receipt"@,
        DocumentType::Contract => "Contract"@,
        DocumentType::Invoice => "Invoice"@,
    }
}

pub open spec fn yes_or_no(yes: bool) -> Text {
    if yes {
        "Yes"@
    } else {
        "No"@
    }
}

fn color_label(mode: ColorMode) -> (name: &'static str)
    ensures
        name@ == color_name(mode),
{
    match mode {
        ColorMode::BlackAndWhite => "BlackAndWhite",
        ColorMode::Grayscale => "Grayscale",
        ColorMode::Color => "Color",
    }
}

fn color_short_label(mode: ColorMode) -> (name: &'static str)
    ensures
        name@ == color_short_name(mode),
{
    match mode {
        ColorMode::BlackAndWhite => "B&W",
        ColorMode::Grayscale => "Grayscale",
        ColorMode::Color => "Color",
    }
}

fn paper_label(size: PaperSize) -> (name: String)
    ensures
        name@ == paper_name(size),
{
    match size {
        PaperSize::A4 => "A4".to_owned(),
        PaperSize::A3 => "A3".to_owned(),
        PaperSize::Letter => "Letter".to_owned(),
        PaperSize::Legal => "Legal".to_owned(),
        PaperSize::Custom { width, height } => {
            let mut name = "Custom { width: ".to_owned();
            let w = decimal(width as u64);
            name.append(w.as_str());
            name.append(", height: ");
            let h = decimal(height as u64);
            name.append(h.as_str());
            name.append(" }");
            name
        },
    }
}

fn format_label(format: OutputFormat) -> (name: &'static str)
    ensures
        name@ == format_name(format),
{
    match format {
        OutputFormat::Pdf => "Pdf",
        OutputFormat::Jpeg => "Jpeg",
        OutputFormat::Png => "Png",
        OutputFormat::Tiff => "Tiff",
    }
}

fn document_label(document_type: DocumentType) -> (name: &'static str)
    ensures
        name@ == document_name(document_type),
{
    match document_type {
        DocumentType::Text => "Text",
        DocumentType::Image => "Image",
        DocumentType::Mixed => "Mixed",
        DocumentType::Photo => "Photo",
        DocumentType::BusinessCard => "BusinessCard",
        DocumentType::Receipt => "Receipt",
        DocumentType::Contract => "Contract",
        DocumentType::Invoice => "Invoice",
    }
}

fn yes_or_no_label(yes: bool) -> (name: &'static str)
    ensures
        name@ == yes_or_no(yes),
{
    if yes {
        "Yes"
    } else {
        "No"
    }
}

// ------------------------------------------------------------- the documents

/// The note on how the page was scanned, which follows every heading.
pub open spec fn quality_note_text(resolution: Text, quality: Text, mode: Text) -> Text {
    "\n[Scanned at "@
        + resolution
        + " DPI, "@
        + quality
        + " quality, "@
        + mode
        + " mode]\n\n"@
}

fn write_quality_note(resolution: &str, quality: &str, mode: &str) -> (text: String)
    ensures
        text@ == quality_note_text(resolution@, quality@, mode@),
{
    let mut text = "\n[Scanned at ".to_owned();
    text.append(resolution);
    text.append(" DPI, ");
    text.append(quality);
    text.append(" quality, ");
    text.append(mode);
    text.append(" mode]\n\n");
    text
}

/// A memorandum, for a text document.
pub open spec fn memo_text(
    note: Text,
    date: Text,
    resolution: Text,
    color_mode: Text,
    paper_size: Text,
    output_format: Text,
    quality: Text,
    duplex: Text,
) -> Text {
    "MEMORANDUM"@
        + note
        + "\
                TO: Development Team\n\
                FROM: Scanner Tool Project Manager\n\
                DATE: "@
        + date
        + "\n\
                RE: Scanner Tool Implementation Test\n\n\
                This document serves as a test of the scanner simulation functionality.\n\n\
                The implementation includes:\n\
                • Document type recognition\n\
                • Multiple output formats (PDF, JPEG, PNG, TIFF)\n\
                • Realistic scan quality simulation\n\
                • File generation capabilities\n\
                • Cross-platform scanner detection\n\n\
                Scanner Settings Used:\n\
                - Resolution: "@
        + resolution
        + " DPI\n\
                - Color Mode: "@
        + color_mode
        + "\n\
                - Paper Size: "@
        + paper_size
        + "\n\
                - Output Format: "@
        + output_format
        + "\n\
                - Quality: "@
        + quality
        + "%\n\
                - Duplex: "@
        + duplex
        + "\n\n\
                Please review and provide feedback on the scanning functionality.\n\n\
                Best regards,\n\
                Scanner Tool Team"@
}

fn write_memo(
    note: &str,
    date: &str,
    resolution: &str,
    color_mode: &str,
    paper_size: &str,
    output_format: &str,
    quality: &str,
    duplex: &str,
) -> (text: String)
    ensures
        text@ == memo_text(
            note@,
            date@,
            resolution@,
            color_mode@,
            paper_size@,
            output_format@,
            quality@,
            duplex@,
        ),
{
    let mut text = "MEMORANDUM".to_owned();
    text.append(note);
    text.append("\
                TO: Development Team\n\
                FROM: Scanner Tool Project Manager\n\
                DATE: ");
    text.append(date);
    text.append("\n\
                RE: Scanner Tool Implementation Test\n\n\
                This document serves as a test of the scanner simulation functionality.\n\n\
                The implementation includes:\n\
                • Document type recognition\n\
                • Multiple output formats (PDF, JPEG, PNG, TIFF)\n\
                • Realistic scan quality simulation\n\
                • File generation capabilities\n\
                • Cross-platform scanner detection\n\n\
                Scanner Settings Used:\n\
                - Resolution: ");
    text.append(resolution);
    text.append(" DPI\n\
                - Color Mode: ");
    text.append(color_mode);
    text.append("\n\
                - Paper Size: ");
    text.append(paper_size);
    text.append("\n\
                - Output Format: ");
    text.append(output_format);
    text.append("\n\
                - Quality: ");
    text.append(quality);
    text.append("%\n\
                - Duplex: ");
    text.append(duplex);
    text.append("\n\n\
                Please review and provide feedback on the scanning functionality.\n\n\
                Best regards,\n\
                Scanner Tool Team");
    text
}

/// An invoice.
pub open spec fn invoice_text(note: Text, number: Text, date: Text, due_date: Text) -> Text {
    "INVOICE"@
        + note
        + "\
                Invoice #: INV-"@
        + number
        + "\n\
                Date: "@
        + date
        + "\n\
                Due Date: "@
        + due_date
        + "\n\n\
                BILL TO:\n\
                Scanner Tool Test Customer\n\
                123 Business Street\n\
                Technology City, TC 12345\n\
                United States\n\n\
                DESCRIPTION                    QTY    RATE      AMOUNT\n\
                ================================================\n\
                Scanner Tool License            1    $299.00   $299.00\n\
                Technical Support (5 hrs)      5     $50.00   $250.00\n\
                Implementation Services         1    $150.00   $150.00\n\
                ================================================\n\
                                          SUBTOTAL:   $699.00\n\
                                          TAX (8.5%):  $59.42\n\
                                          TOTAL:      $758.42\n\n\
                Payment Terms: Net 30 days\n\
                Thank you for your business!"@
}

fn write_invoice(note: &str, number: &str, date: &str, due_date: &str) -> (text: String)
    ensures
        text@ == invoice_text(note@, number@, date@, due_date@),
{
    let mut text = "INVOICE".to_owned();
    text.append(note);
    text.append("\
                Invoice #: INV-");
    text.append(number);
    text.append("\n\
                Date: ");
    text.append(date);
    text.append("\n\
                Due Date: ");
    text.append(due_date);
    text.append("\n\n\
                BILL TO:\n\
                Scanner Tool Test Customer\n\
                123 Business Street\n\
                Technology City, TC 12345\n\
                United States\n\n\
                DESCRIPTION                    QTY    RATE      AMOUNT\n\
                ================================================\n\
                Scanner Tool License            1    $299.00   $299.00\n\
                Technical Support (5 hrs)      5     $50.00   $250.00\n\
                Implementation Services         1    $150.00   $150.00\n\
                ================================================\n\
                                          SUBTOTAL:   $699.00\n\
                                          TAX (8.5%):  $59.42\n\
                                          TOTAL:      $758.42\n\n\
                Payment Terms: Net 30 days\n\
                Thank you for your business!");
    text
}

/// A licence agreement, for a contract.
pub open spec fn contract_text(note: Text, date: Text) -> Text {
    "SOFTWARE LICENSE AGREEMENT"@
        + note
        + "\
                This Software License Agreement ('Agreement') is entered into\n\
                between Scanner Tool Corporation ('Licensor') and the end user\n\
                ('Licensee') effective as of "@
        + date
        + ".\n\n\
                1. GRANT OF LICENSE\n\
                Licensor hereby grants to Licensee a non-exclusive, non-transferable\n\
                license to use the Scanner Tool software in accordance with the terms\n\
                and conditions set forth herein.\n\n\
                2. PERMITTED USES\n\
                Licensee may:\n\
                (a) Install and use the software on authorized devices\n\
                (b) Create backup copies for archival purposes\n\
                (c) Use the software for legitimate business purposes\n\n\
                3. RESTRICTIONS\n\
                Licensee may not:\n\
                (a) Modify, adapt, or create derivative works\n\
                (b) Reverse engineer, decompile, or disassemble\n\
                (c) Distribute, sublicense, or transfer rights\n\n\
                4. TERMINATION\n\
                This Agreement terminates automatically if Licensee breaches\n\
                any term hereof. Upon termination, Licensee must destroy all\n\
                copies of the software.\n\n\
                5. WARRANTY DISCLAIMER\n\
                THE SOFTWARE IS PROVIDED 'AS IS' WITHOUT WARRANTY OF ANY KIND.\n\n\
                Signature: ________________________________\n\
                Date: ____________________________________\n\
                Print Name: _______________________________"@
}

fn write_contract(note: &str, date: &str) -> (text: String)
    ensures
        text@ == contract_text(note@, date@),
{
    let mut text = "SOFTWARE LICENSE AGREEMENT".to_owned();
    text.append(note);
    text.append("\
                This Software License Agreement ('Agreement') is entered into\n\
                between Scanner Tool Corporation ('Licensor') and the end user\n\
                ('Licensee') effective as of ");
    text.append(date);
    text.append(".\n\n\
                1. GRANT OF LICENSE\n\
                Licensor hereby grants to Licensee a non-exclusive, non-transferable\n\
                license to use the Scanner Tool software in accordance with the terms\n\
                and conditions set forth herein.\n\n\
                2. PERMITTED USES\n\
                Licensee may:\n\
                (a) Install and use the software on authorized devices\n\
                (b) Create backup copies for archival purposes\n\
                (c) Use the software for legitimate business purposes\n\n\
                3. RESTRICTIONS\n\
                Licensee may not:\n\
                (a) Modify, adapt, or create derivative works\n\
                (b) Reverse engineer, decompile, or disassemble\n\
                (c) Distribute, sublicense, or transfer rights\n\n\
                4. TERMINATION\n\
                This Agreement terminates automatically if Licensee breaches\n\
                any term hereof. Upon termination, Licensee must destroy all\n\
                copies of the software.\n\n\
                5. WARRANTY DISCLAIMER\n\
                THE SOFTWARE IS PROVIDED 'AS IS' WITHOUT WARRANTY OF ANY KIND.\n\n\
                Signature: ________________________________\n\
                Date: ____________________________________\n\
                Print Name: _______________________________");
    text
}

/// A shop receipt.
pub open spec fn receipt_text(note: Text, date: Text, time: Text, number: Text) -> Text {
    "        TECH STORE RECEIPT"@
        + note
        + "\
                    123 Technology Avenue\n\
                       Silicon Valley, CA\n\
                      Phone: (555) 123-4567\n\
                =============================\n\n\
                Date: "@
        + date
        + "\n\
                Time: "@
        + time
        + "\n\
                Cashier: Alex T.\n\
                Transaction #: TX-"@
        + number
        + "\n\n\
                ITEMS PURCHASED:\n\
                Scanner Tool Software License\n\
                SKU: SW-SCAN-001\n\
                Price: $299.00\n\n\
                Extended Warranty (1 Year)\n\
                SKU: WR-001\n\
                Price: $49.99\n\n\
                Installation Service\n\
                SKU: SV-INSTALL\n\
                Price: $75.00\n\n\
                -----------------------------\n\
                Subtotal:              $423.99\n\
                Tax (8.75%):            $37.10\n\
                TOTAL:                 $461.09\n\n\
                Payment Method: Credit Card\n\
                Card: ****1234 (VISA)\n\
                Authorization: ABC123\n\n\
                THANK YOU FOR YOUR PURCHASE!\n\
                \n\
                Return Policy: 30 days with receipt\n\
                Customer Service: support@techstore.com"@
}

fn write_receipt(note: &str, date: &str, time: &str, number: &str) -> (text: String)
    ensures
        text@ == receipt_text(note@, date@, time@, number@),
{
    let mut text = "        TECH STORE RECEIPT".to_owned();
    text.append(note);
    text.append("\
                    123 Technology Avenue\n\
                       Silicon Valley, CA\n\
                      Phone: (555) 123-4567\n\
                =============================\n\n\
                Date: ");
    text.append(date);
    text.append("\n\
                Time: ");
    text.append(time);
    text.append("\n\
                Cashier: Alex T.\n\
                Transaction #: TX-");
    text.append(number);
    text.append("\n\n\
                ITEMS PURCHASED:\n\
                Scanner Tool Software License\n\
                SKU: SW-SCAN-001\n\
                Price: $299.00\n\n\
                Extended Warranty (1 Year)\n\
                SKU: WR-001\n\
                Price: $49.99\n\n\
                Installation Service\n\
                SKU: SV-INSTALL\n\
                Price: $75.00\n\n\
                -----------------------------\n\
                Subtotal:              $423.99\n\
                Tax (8.75%):            $37.10\n\
                TOTAL:                 $461.09\n\n\
                Payment Method: Credit Card\n\
                Card: ****1234 (VISA)\n\
                Authorization: ABC123\n\n\
                THANK YOU FOR YOUR PURCHASE!\n\
                \n\
                Return Policy: 30 days with receipt\n\
                Customer Service: support@techstore.com");
    text
}

/// A business card.
pub open spec fn business_card_text(note: Text) -> Text {
    "BUSINESS CARD"@
        + note
        + "\
                ═══════════════════════════════════════\n\
                           JOHN SMITH\n\
                        Senior Developer\n\n\
                      Scanner Tool Corp.\n\n\
                   📧 john.smith@scantech.com\n\
                   📱 +1 (555) 123-4567\n\
                   🌐 www.scannertool.com\n\n\
                   LinkedIn: /in/johnsmith-dev\n\
                   GitHub: @johnsmith-scanner\n\n\
                ═══════════════════════════════════════\n\
                  'Scanning the future, one document\n\
                           at a time.'"@
}

fn write_business_card(note: &str) -> (text: String)
    ensures
        text@ == business_card_text(note@),
{
    let mut text = "BUSINESS CARD".to_owned();
    text.append(note);
    text.append("\
                ═══════════════════════════════════════\n\
                           JOHN SMITH\n\
                        Senior Developer\n\n\
                      Scanner Tool Corp.\n\n\
                   📧 john.smith@scantech.com\n\
                   📱 +1 (555) 123-4567\n\
                   🌐 www.scannertool.com\n\n\
                   LinkedIn: /in/johnsmith-dev\n\
                   GitHub: @johnsmith-scanner\n\n\
                ═══════════════════════════════════════\n\
                  'Scanning the future, one document\n\
                           at a time.'");
    text
}

/// The description of a scanned photograph.
pub open spec fn photo_text(
    note: Text,
    scanned: Text,
    resolution: Text,
    color_mode: Text,
    output_format: Text,
    quality: Text,
) -> Text {
    "PHOTO SCAN METADATA"@
        + note
        + "\
                Original Photo Details:\n\
                - Scanned: "@
        + scanned
        + "\n\
                - Resolution: "@
        + resolution
        + " DPI\n\
                - Color Mode: "@
        + color_mode
        + "\n\
                - Estimated Size: 4x6 inches\n\
                - File Format: "@
        + output_format
        + "\n\n\
                Photo Description:\n\
                This represents a scanned photograph. In a real implementation,\n\
                this would be an actual image file containing the photographed\n\
                content with appropriate color reproduction and detail.\n\n\
                Scan Quality Notes:\n\
                - Dust removal: Applied\n\
                - Color correction: Auto\n\
                - Sharpening: Moderate\n\
                - Noise reduction: "@
        + quality
        + "%"@
}

fn write_photo(
    note: &str,
    scanned: &str,
    resolution: &str,
    color_mode: &str,
    output_format: &str,
    quality: &str,
) -> (text: String)
    ensures
        text@ == photo_text(note@, scanned@, resolution@, color_mode@, output_format@, quality@),
{
    let mut text = "PHOTO SCAN METADATA".to_owned();
    text.append(note);
    text.append("\
                Original Photo Details:\n\
                - Scanned: ");
    text.append(scanned);
    text.append("\n\
                - Resolution: ");
    text.append(resolution);
    text.append(" DPI\n\
                - Color Mode: ");
    text.append(color_mode);
    text.append("\n\
                - Estimated Size: 4x6 inches\n\
                - File Format: ");
    text.append(output_format);
    text.append("\n\n\
                Photo Description:\n\
                This represents a scanned photograph. In a real implementation,\n\
                this would be an actual image file containing the photographed\n\
                content with appropriate color reproduction and detail.\n\n\
                Scan Quality Notes:\n\
                - Dust removal: Applied\n\
                - Color correction: Auto\n\
                - Sharpening: Moderate\n\
                - Noise reduction: ");
    text.append(quality);
    text.append("%");
    text
}

/// The description of any other scanned document.
pub open spec fn plain_text(
    note: Text,
    document_type: Text,
    scanned: Text,
    resolution: Text,
    color_mode: Text,
    paper_size: Text,
    quality: Text,
    duplex: Text,
    output_format: Text,
) -> Text {
    "SCANNED DOCUMENT"@
        + note
        + "\
                Document Type: "@
        + document_type
        + "\n\
                Scan Date: "@
        + scanned
        + "\n\
                Scanner: Simulated Scanner\n\n\
                This is a generic scanned document created by the Scanner Tool\n\
                simulation system. In a real scanning scenario, this would contain\n\
                the actual content from the physical document.\n\n\
                Scan Parameters:\n\
                - Resolution: "@
        + resolution
        + " DPI\n\
                - Color Mode: "@
        + color_mode
        + "\n\
                - Paper Size: "@
        + paper_size
        + "\n\
                - Quality: "@
        + quality
        + "%\n\
                - Duplex: "@
        + duplex
        + "\n\
                - Output Format: "@
        + output_format
        + "\n\n\
                File Information:\n\
                - Generated by: Scanner Tool v1.0\n\
                - Platform: Cross-platform scanner simulator\n\
                - Purpose: Development and testing tool"@
}

fn write_plain(
    note: &str,
    document_type: &str,
    scanned: &str,
    resolution: &str,
    color_mode: &str,
    paper_size: &str,
    quality: &str,
    duplex: &str,
    output_format: &str,
) -> (text: String)
    ensures
        text@ == plain_text(
            note@,
            document_type@,
            scanned@,
            resolution@,
            color_mode@,
            paper_size@,
            quality@,
            duplex@,
            output_format@,
        ),
{
    let mut text = "SCANNED DOCUMENT".to_owned();
    text.append(note);
    text.append("\
                Document Type: ");
    text.append(document_type);
    text.append("\n\
                Scan Date: ");
    text.append(scanned);
    text.append("\n\
                Scanner: Simulated Scanner\n\n\
                This is a generic scanned document created by the Scanner Tool\n\
                simulation system. In a real scanning scenario, this would contain\n\
                the actual content from the physical document.\n\n\
                Scan Parameters:\n\
                - Resolution: ");
    text.append(resolution);
    text.append(" DPI\n\
                - Color Mode: ");
    text.append(color_mode);
    text.append("\n\
                - Paper Size: ");
    text.append(paper_size);
    text.append("\n\
                - Quality: ");
    text.append(quality);
    text.append("%\n\
                - Duplex: ");
    text.append(duplex);
    text.append("\n\
                - Output Format: ");
    text.append(output_format);
    text.append("\n\n\
                File Information:\n\
                - Generated by: Scanner Tool v1.0\n\
                - Platform: Cross-platform scanner simulator\n\
                - Purpose: Development and testing tool");
    text
}

// ------------------------------------------------------ which document, when

/// The scan note of the settings.
pub open spec fn note_of(settings: ScanSettings) -> Text {
    quality_note_text(
        decimal_text(settings.resolution as nat),
        decimal_text(settings.quality as nat),
        color_short_name(settings.color_mode),
    )
}

/// The text of a time under a pattern.
pub open spec fn stamp(now: Timestamp, pattern: Text) -> Option<Text> {
    utc_text(now.secs, now.nanos, pattern)
}

/// The day on which an invoice of a given time is due, as text; `None` where
/// that day is beyond the calendar.
pub open spec fn due_day(now: Timestamp) -> Option<Text> {
    if now.secs + DUE_AFTER_SECS > i64::MAX {
        None
    } else {
        utc_text((now.secs + DUE_AFTER_SECS) as i64, now.nanos, DAY@)
    }
}

/// The words of the sample document of a kind, for given settings, written at
/// the time `now`, with `number` where the document carries one; `None`
/// where a time that the document shows is beyond the calendar.
pub open spec fn content_at(
    document_type: DocumentType,
    settings: ScanSettings,
    now: Timestamp,
    number: u64,
) -> Option<Text> {
    let note = note_of(settings);
    let resolution = decimal_text(settings.resolution as nat);
    let quality = decimal_text(settings.quality as nat);
    let color_mode = color_name(settings.color_mode);
    let paper_size = paper_name(settings.paper_size);
    let output_format = format_name(settings.output_format);
    let duplex = yes_or_no(settings.duplex);
    match document_type {
        DocumentType::Text => match stamp(now, DAY@) {
            Some(date) => Some(
                memo_text(
                    note,
                    date,
                    resolution,
                    color_mode,
                    paper_size,
                    output_format,
                    quality,
                    duplex,
                ),
            ),
            None => None,
        },
        DocumentType::Invoice => match (stamp(now, DAY@), due_day(now)) {
            (Some(date), Some(due_date)) => Some(
                invoice_text(note, decimal_text(number as nat), date, due_date),
            ),
            _ => None,
        },
        DocumentType::Contract => match stamp(now, LONG_DAY@) {
            Some(date) => Some(contract_text(note, date)),
            None => None,
        },
        DocumentType::Receipt => match (stamp(now, DAY@), stamp(now, CLOCK@)) {
            (Some(date), Some(time)) => Some(
                receipt_text(note, date, time, decimal_text(number as nat)),
            ),
            _ => None,
        },
        DocumentType::BusinessCard => Some(business_card_text(note)),
        DocumentType::Photo => match stamp(now, DAY_AND_CLOCK@) {
            Some(scanned) => Some(
                photo_text(note, scanned, resolution, color_mode, output_format, quality),
            ),
            None => None,
        },
        _ => match stamp(now, DAY_AND_CLOCK@) {
            Some(scanned) => Some(
                plain_text(
                    note,
                    document_name(document_type),
                    scanned,
                    resolution,
                    color_mode,
                    paper_size,
                    quality,
                    duplex,
                    output_format,
                ),
            ),
            None => None,
        },
    }
}

/// Whether a number may stand on the document of a kind: an invoice and a
/// receipt each have their range, and no other document shows the number.
pub open spec fn number_fits(document_type: DocumentType, number: u64) -> bool {
    match document_type {
        DocumentType::Invoice => INVOICE_NUMBER_FROM <= number < INVOICE_NUMBER_BELOW,
        DocumentType::Receipt => TRANSACTION_NUMBER_FROM <= number < TRANSACTION_NUMBER_BELOW,
        _ => true,
    }
}

impl ScanGenerator {
    /// The scan note of the settings.
    pub fn quality_note(settings: &ScanSettings) -> (note: String)
        ensures
            note@ == note_of(*settings),
    {
        let resolution = decimal(settings.resolution as u64);
        let quality = decimal(settings.quality as u64);
        write_quality_note(
            resolution.as_str(),
            quality.as_str(),
            color_short_label(settings.color_mode),
        )
    }

    /// The words of the sample document of a kind, written at the time `now`
    /// with a given number.
    pub fn text_content_at(
        document_type: &DocumentType,
        settings: &ScanSettings,
        now: Timestamp,
        number: u64,
    ) -> (content: Option<String>)
        ensures
            match content {
                Some(text) => content_at(*document_type, *settings, now, number) == Some(text@),
                None => content_at(*document_type, *settings, now, number) is None,
            },
    {
        let note = Self::quality_note(settings);
        let resolution = decimal(settings.resolution as u64);
        let quality = decimal(settings.quality as u64);
        let color_mode = color_label(settings.color_mode);
        let paper_size = paper_label(settings.paper_size);
        let output_format = format_label(settings.output_format);
        let duplex = yes_or_no_label(settings.duplex);
        match document_type {
            DocumentType::Text => match format_utc(now, DAY) {
                Some(date) => Some(
                    write_memo(
                        note.as_str(),
                        date.as_str(),
                        resolution.as_str(),
                        color_mode,
                        paper_size.as_str(),
                        output_format,
                        quality.as_str(),
                        duplex,
                    ),
                ),
                None => None,
            },
            DocumentType::Invoice => {
                let date = format_utc(now, DAY);
                if now.secs > i64::MAX - DUE_AFTER_SECS {
                    return None;
                }
                let due = Timestamp { secs: now.secs + DUE_AFTER_SECS, nanos: now.nanos };
                let due_date = format_utc(due, DAY);
                match (date, due_date) {
                    (Some(date), Some(due_date)) => {
                        let number = decimal(number);
                        Some(
                            write_invoice(
                                note.as_str(),
                                number.as_str(),
                                date.as_str(),
                                due_date.as_str(),
                            ),
                        )
                    },
                    _ => None,
                }
            },
            DocumentType::Contract => match format_utc(now, LONG_DAY) {
                Some(date) => Some(write_contract(note.as_str(), date.as_str())),
                None => None,
            },
            DocumentType::Receipt => match (format_utc(now, DAY), format_utc(now, CLOCK)) {
                (Some(date), Some(time)) => {
                    let number = decimal(number);
                    Some(
                        write_receipt(
                            note.as_str(),
                            date.as_str(),
                            time.as_str(),
                            number.as_str(),
                        ),
                    )
                },
                _ => None,
            },
            DocumentType::BusinessCard => Some(write_business_card(note.as_str())),
            DocumentType::Photo => match format_utc(now, DAY_AND_CLOCK) {
                Some(scanned) => Some(
                    write_photo(
                        note.as_str(),
                        scanned.as_str(),
                        resolution.as_str(),
                        color_mode,
                        output_format,
                        quality.as_str(),
                    ),
                ),
                None => None,
            },
            _ => match format_utc(now, DAY_AND_CLOCK) {
                Some(scanned) => Some(
                    write_plain(
                        note.as_str(),
                        document_label(*document_type),
                        scanned.as_str(),
                        resolution.as_str(),
                        color_mode,
                        paper_size.as_str(),
                        quality.as_str(),
                        duplex,
                        output_format,
                    ),
                ),
                None => None,
            },
        }
    }

    /// The words of the sample document of a kind, written now. An invoice
    /// and a receipt carry a number drawn at random from their range.
    pub fn generate_text_content(document_type: &DocumentType, settings: &ScanSettings) -> (content:
        Option<String>)
        ensures
            exists|now: Timestamp, number: u64|
                number_fits(*document_type, number) && match content {
                    Some(text) => #[trigger] content_at(*document_type, *settings, now, number)
                        == Some(text@),
                    None => content_at(*document_type, *settings, now, number) is None,
                },
    {
        let number = match document_type {
            DocumentType::Invoice => random_in(INVOICE_NUMBER_FROM, INVOICE_NUMBER_BELOW),
            DocumentType::Receipt => random_in(TRANSACTION_NUMBER_FROM, TRANSACTION_NUMBER_BELOW),
            _ => 0,
        };
        let now = utc_now();
        Self::text_content_at(document_type, settings, now, number)
    }
}

} // verus!
