//! What stands on the page when the output is written as PDF. The page is
//! described here; the caller draws it.

use crate::entities::DocumentType;
use crate::keyed::Text;
use crate::scan_generator::ScanGenerator;
use vstd::prelude::*;

verus! {

/// The title of every document.
pub const PAGE_TITLE: &'static str = "Scanned Document";

/// The name of the one layer of the page.
pub const PAGE_LAYER: &'static str = "Layer 1";

/// The width of the page in millimetres: A4.
pub const PAGE_WIDTH_MM: u32 = 210;

/// The height of the page in millimetres: A4.
pub const PAGE_HEIGHT_MM: u32 = 297;

/// One line of text on the page: its size in points, and where it begins in
/// millimetres from the left and from the bottom edge.
#[derive(Debug, Clone, Copy)]
pub struct PdfLine {
    pub text: &'static str,
    pub size_pt: u32,
    pub x_mm: u32,
    pub y_mm: u32,
}

pub struct PdfLineView {
    pub text: Text,
    pub size_pt: u32,
    pub x_mm: u32,
    pub y_mm: u32,
}

impl View for PdfLine {
    type V = PdfLineView;

    open spec fn view(&self) -> PdfLineView {
        PdfLineView { text: self.text@, size_pt: self.size_pt, x_mm: self.x_mm, y_mm: self.y_mm }
    }
}

/// The views of a sequence of lines.
pub open spec fn line_views(lines: Seq<PdfLine>) -> Seq<PdfLineView> {
    Seq::new(lines.len(), |i: int| lines[i]@)
}

pub open spec fn line(text: Text, size_pt: u32, x_mm: u32, y_mm: u32) -> PdfLineView {
    PdfLineView { text, size_pt, x_mm, y_mm }
}

fn put(lines: &mut Vec<PdfLine>, text: &'static str, size_pt: u32, x_mm: u32, y_mm: u32)
    ensures
        final(lines)@ == old(lines)@.push(PdfLine { text, size_pt, x_mm, y_mm }),
{
    lines.push(PdfLine { text, size_pt, x_mm, y_mm });
}

/// The title of the page of a document that has no page of its own.
pub open spec fn plain_title(document_type: DocumentType) -> Text {
    match document_type {
        DocumentType::Mixed => "MIXED CONTENT DOCUMENT"@,
        DocumentType::Image => "IMAGE DOCUMENT"@,
        _ => "GENERIC DOCUMENT"@,
    }
}

fn plain_title_of(document_type: &DocumentType) -> (title: &'static str)
    ensures
        title@ == plain_title(*document_type),
{
    match document_type {
        DocumentType::Mixed => "MIXED CONTENT DOCUMENT",
        DocumentType::Image => "IMAGE DOCUMENT",
        _ => "GENERIC DOCUMENT",
    }
}

/// A memorandum, for a text document.
pub open spec fn memo_page() -> Seq<PdfLineView> {
    seq![
        line("MEMORANDUM"@, 18, 20, 250),
        line("TO: Development Team"@, 12, 20, 230),
        line("FROM: Scanner Tool Project Manager"@, 12, 20, 220),
        line("DATE: Today's Date"@, 12, 20, 210),
        line("RE: Scanner Tool Implementation"@, 12, 20, 200),
        line("This document serves as a test of the scanner simulation functionality."@, 10, 20, 180),
        line("The implementation includes document type recognition, multiple output formats,"@, 10, 20, 170),
        line("realistic scan quality simulation, and file generation capabilities."@, 10, 20, 160),
    ]
}

/// An invoice.
pub open spec fn invoice_page() -> Seq<PdfLineView> {
    seq![
        line("INVOICE"@, 24, 20, 270),
        line("Invoice #: INV-2024-001"@, 12, 20, 250),
        line("Date: 2024-01-15"@, 12, 20, 240),
        line("Bill To:"@, 12, 20, 220),
        line("Scanner Tool Test Customer"@, 10, 20, 210),
        line("123 Business Street"@, 10, 20, 200),
        line("Technology City, TC 12345"@, 10, 20, 190),
        line("Scanner Tool License    $299.00"@, 10, 20, 160),
        line("Technical Support       $250.00"@, 10, 20, 150),
        line("TOTAL: $598.41"@, 14, 20, 120),
    ]
}

/// A licence agreement, for a contract.
pub open spec fn contract_page() -> Seq<PdfLineView> {
    seq![
        line("SOFTWARE LICENSE AGREEMENT"@, 18, 20, 270),
        line("This Software License Agreement ('Agreement') is entered into"@, 10, 20, 250),
        line("between Scanner Tool Corp. ('Licensor') and the end user ('Licensee')."@, 10, 20, 240),
        line("1. GRANT OF LICENSE"@, 12, 20, 210),
        line("Licensor hereby grants to Licensee a non-exclusive, non-transferable"@, 10, 20, 200),
        line("license to use the Scanner Tool software in accordance with the terms herein."@, 10, 20, 190),
    ]
}

/// A shop receipt.
pub open spec fn receipt_page() -> Seq<PdfLineView> {
    seq![
        line("TECH STORE RECEIPT"@, 14, 60, 270),
        line("123 Technology Avenue"@, 10, 65, 260),
        line("Phone: (555) 123-4567"@, 10, 70, 250),
        line("Date: 2024-01-15 14:32"@, 10, 20, 220),
        line("Scanner Tool Software    $299.00"@, 10, 20, 200),
        line("Tax (8.25%):              $24.67"@, 10, 20, 180),
        line("TOTAL:                   $323.67"@, 12, 20, 160),
    ]
}

/// A business card.
pub open spec fn business_card_page() -> Seq<PdfLineView> {
    seq![
        line("JOHN SMITH"@, 16, 50, 200),
        line("Senior Developer"@, 12, 50, 190),
        line("Scanner Tool Corp."@, 10, 50, 175),
        line("john.smith@scantech.com"@, 10, 50, 165),
        line("+1 (555) 123-4567"@, 10, 50, 155),
    ]
}

/// The page of any other document, under its title.
pub open spec fn plain_page(document_type: DocumentType) -> Seq<PdfLineView> {
    seq![
        line(plain_title(document_type), 18, 20, 270),
        line("This is a simulated scan of a document generated by Scanner Tool."@, 12, 20, 240),
        line("Generated for testing and development purposes."@, 10, 20, 220),
    ]
}

/// The page of a document, by its kind.
pub open spec fn page_of(document_type: DocumentType) -> Seq<PdfLineView> {
    match document_type {
        DocumentType::Text => memo_page(),
        DocumentType::Invoice => invoice_page(),
        DocumentType::Contract => contract_page(),
        DocumentType::Receipt => receipt_page(),
        DocumentType::BusinessCard => business_card_page(),
        _ => plain_page(document_type),
    }
}

impl ScanGenerator {
    fn memo_lines() -> (lines: Vec<PdfLine>)
        ensures
            line_views(lines@) == memo_page(),
    {
        let mut lines: Vec<PdfLine> = Vec::new();
        put(&mut lines, "MEMORANDUM", 18, 20, 250);
        put(&mut lines, "TO: Development Team", 12, 20, 230);
        put(&mut lines, "FROM: Scanner Tool Project Manager", 12, 20, 220);
        put(&mut lines, "DATE: Today's Date", 12, 20, 210);
        put(&mut lines, "RE: Scanner Tool Implementation", 12, 20, 200);
        put(&mut lines, "This document serves as a test of the scanner simulation functionality.", 10, 20, 180);
        put(&mut lines, "The implementation includes document type recognition, multiple output formats,", 10, 20, 170);
        put(&mut lines, "realistic scan quality simulation, and file generation capabilities.", 10, 20, 160);
        assert(line_views(lines@) =~= memo_page());
        lines
    }

    fn invoice_lines() -> (lines: Vec<PdfLine>)
        ensures
            line_views(lines@) == invoice_page(),
    {
        let mut lines: Vec<PdfLine> = Vec::new();
        put(&mut lines, "INVOICE", 24, 20, 270);
        put(&mut lines, "Invoice #: INV-2024-001", 12, 20, 250);
        put(&mut lines, "Date: 2024-01-15", 12, 20, 240);
        put(&mut lines, "Bill To:", 12, 20, 220);
        put(&mut lines, "Scanner Tool Test Customer", 10, 20, 210);
        put(&mut lines, "123 Business Street", 10, 20, 200);
        put(&mut lines, "Technology City, TC 12345", 10, 20, 190);
        put(&mut lines, "Scanner Tool License    $299.00", 10, 20, 160);
        put(&mut lines, "Technical Support       $250.00", 10, 20, 150);
        put(&mut lines, "TOTAL: $598.41", 14, 20, 120);
        assert(line_views(lines@) =~= invoice_page());
        lines
    }

    fn contract_lines() -> (lines: Vec<PdfLine>)
        ensures
            line_views(lines@) == contract_page(),
    {
        let mut lines: Vec<PdfLine> = Vec::new();
        put(&mut lines, "SOFTWARE LICENSE AGREEMENT", 18, 20, 270);
        put(&mut lines, "This Software License Agreement ('Agreement') is entered into", 10, 20, 250);
        put(&mut lines, "between Scanner Tool Corp. ('Licensor') and the end user ('Licensee').", 10, 20, 240);
        put(&mut lines, "1. GRANT OF LICENSE", 12, 20, 210);
        put(&mut lines, "Licensor hereby grants to Licensee a non-exclusive, non-transferable", 10, 20, 200);
        put(&mut lines, "license to use the Scanner Tool software in accordance with the terms herein.", 10, 20, 190);
        assert(line_views(lines@) =~= contract_page());
        lines
    }

    fn receipt_lines() -> (lines: Vec<PdfLine>)
        ensures
            line_views(lines@) == receipt_page(),
    {
        let mut lines: Vec<PdfLine> = Vec::new();
        put(&mut lines, "TECH STORE RECEIPT", 14, 60, 270);
        put(&mut lines, "123 Technology Avenue", 10, 65, 260);
        put(&mut lines, "Phone: (555) 123-4567", 10, 70, 250);
        put(&mut lines, "Date: 2024-01-15 14:32", 10, 20, 220);
        put(&mut lines, "Scanner Tool Software    $299.00", 10, 20, 200);
        put(&mut lines, "Tax (8.25%):              $24.67", 10, 20, 180);
        put(&mut lines, "TOTAL:                   $323.67", 12, 20, 160);
        assert(line_views(lines@) =~= receipt_page());
        lines
    }

    fn business_card_lines() -> (lines: Vec<PdfLine>)
        ensures
            line_views(lines@) == business_card_page(),
    {
        let mut lines: Vec<PdfLine> = Vec::new();
        put(&mut lines, "JOHN SMITH", 16, 50, 200);
        put(&mut lines, "Senior Developer", 12, 50, 190);
        put(&mut lines, "Scanner Tool Corp.", 10, 50, 175);
        put(&mut lines, "john.smith@scantech.com", 10, 50, 165);
        put(&mut lines, "+1 (555) 123-4567", 10, 50, 155);
        assert(line_views(lines@) =~= business_card_page());
        lines
    }

    fn plain_lines(document_type: &DocumentType) -> (lines: Vec<PdfLine>)
        ensures
            line_views(lines@) == plain_page(*document_type),
    {
        let mut lines: Vec<PdfLine> = Vec::new();
        put(&mut lines, plain_title_of(document_type), 18, 20, 270);
        put(&mut lines, "This is a simulated scan of a document generated by Scanner Tool.", 12, 20, 240);
        put(&mut lines, "Generated for testing and development purposes.", 10, 20, 220);
        assert(line_views(lines@) =~= plain_page(*document_type));
        lines
    }

    /// The lines on the page of a document, in the order in which they are
    /// drawn.
    pub fn pdf_page(document_type: &DocumentType) -> (lines: Vec<PdfLine>)
        ensures
            line_views(lines@) == page_of(*document_type),
    {
        match document_type {
            DocumentType::Text => Self::memo_lines(),
            DocumentType::Invoice => Self::invoice_lines(),
            DocumentType::Contract => Self::contract_lines(),
            DocumentType::Receipt => Self::receipt_lines(),
            DocumentType::BusinessCard => Self::business_card_lines(),
            _ => Self::plain_lines(document_type),
        }
    }
}

} // verus!
