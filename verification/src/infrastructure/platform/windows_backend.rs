//! Printing through the Windows spooler.
use vstd::prelude::*;
use vstd::string::*;
use vstd::utf8::*;

use crate::application::ports::NativeJobStatus;
use crate::domain::capability::{
    ColorMode, DuplexMode, MediaSize, MediaSizeView, PrintResolution, PrinterCapabilities,
    PrinterCapabilitiesView,
};
use crate::domain::id::{parsed_id, LocalPrinterId, NativeJobId};
use crate::domain::printer::{LocalPrinter, LocalPrinterView, PrinterStatus};
use crate::error::{listed, outcome, plain, PrintError, PrintErrorView, PrintResult};
use crate::infrastructure::platform::cups::{common_sizes, modest, modest_capabilities};
use crate::infrastructure::platform::json::{
    json_value, parse_json, JsonMemberView, JsonValue, JsonValueView,
};
use crate::model::{opt, views};
use crate::parts::{
    all_digits, cut_at, digits_value, is_digit, lemma_index_is, parse_u32, parsed_u32, split_once,
};
use crate::text::{
    after_prefix, as_text, chars_of, contains, decimal, decimal_text, digit_char, has_infix, hex,
    hex_char, hex_text, lemma_decimal_text, lemma_hex_text, lemma_utf8_round_trip, lower_ascii,
    lower_text, same, strip_prefix, trim_text, trimmed, utf8_text,
};

verus! {

/// A printer as the system lists it; `None` stands for what is missing or of
/// another kind.
#[derive(Debug, PartialEq, Eq)]
pub struct PrinterRow {
    pub name: Option<String>,
    pub driver: Option<String>,
    pub status: Option<u64>,
    pub is_default: Option<bool>,
}

pub struct PrinterRowView {
    pub name: Option<Seq<char>>,
    pub driver: Option<Seq<char>>,
    pub status: Option<u64>,
    pub is_default: Option<bool>,
}

impl View for PrinterRow {
    type V = PrinterRowView;

    open spec fn view(&self) -> PrinterRowView {
        PrinterRowView {
            name: opt(self.name),
            driver: opt(self.driver),
            status: self.status,
            is_default: self.is_default,
        }
    }
}

/// The value of the first member called `name`.
pub open spec fn member_of(members: Seq<JsonMemberView>, name: Seq<char>) -> Option<JsonValueView>
    decreases members.len(),
{
    if members.len() == 0 {
        None
    } else if members[0].name == name {
        Some(members[0].value)
    } else {
        member_of(members.skip(1), name)
    }
}

/// The member of `value` called `name`; only an object has members.
pub open spec fn json_member(value: JsonValueView, name: Seq<char>) -> Option<JsonValueView> {
    match value {
        JsonValueView::Members(members) => member_of(members, name),
        _ => None,
    }
}

/// The row that a value of the list stands for.
pub open spec fn row_of(value: JsonValueView) -> PrinterRowView {
    PrinterRowView {
        name: match json_member(value, "Name"@) {
            Some(JsonValueView::Text(name)) => Some(name),
            _ => None,
        },
        driver: match json_member(value, "DriverName"@) {
            Some(JsonValueView::Text(driver)) => Some(driver),
            _ => None,
        },
        status: match json_member(value, "PrinterStatus"@) {
            Some(JsonValueView::Number(status)) => status,
            _ => None,
        },
        is_default: match json_member(value, "Default"@) {
            Some(JsonValueView::Bool(is_default)) => Some(is_default),
            _ => None,
        },
    }
}

/// The rows that a value lists. A value that is not a list counts as a list
/// of one.
pub open spec fn rows_of(value: JsonValueView) -> Seq<PrinterRowView> {
    match value {
        JsonValueView::List(items) => items.map_values(|item: JsonValueView| row_of(item)),
        row => seq![row_of(row)],
    }
}

/// The member of `value` called `name`.
fn find_member<'a>(value: &'a JsonValue, name: &str) -> (r: Option<&'a JsonValue>)
    ensures
        match r {
            Some(found) => json_member(value@, name@) == Some(found@),
            None => json_member(value@, name@) is None,
        },
{
    let members = match value {
        JsonValue::Members(members) => members,
        _ => {
            return None;
        },
    };
    let ghost all = value@->Members_0;
    let mut i: usize = 0;
    assert(all.skip(0) =~= all);
    while i < members.len()
        invariant
            i <= members@.len(),
            all.len() == members@.len(),
            forall|j: int| 0 <= j < all.len() ==> #[trigger] all[j] == members@[j]@,
            json_member(value@, name@) == member_of(all.skip(i as int), name@),
        decreases members@.len() - i,
    {
        assert(all.skip(i as int)[0] == all[i as int]);
        assert(all.skip(i as int).skip(1) =~= all.skip(i + 1));
        if same(members[i].name.as_str(), name) {
            return Some(&members[i].value);
        }
        i += 1;
    }
    None
}

fn text_member(value: &JsonValue, name: &str) -> (r: Option<String>)
    ensures
        opt(r) == match json_member(value@, name@) {
            Some(JsonValueView::Text(text)) => Some(text),
            _ => None,
        },
{
    match find_member(value, name) {
        Some(JsonValue::Text(text)) => Some(text.clone()),
        _ => None,
    }
}

fn row_from_json(value: &JsonValue) -> (r: PrinterRow)
    ensures
        r@ == row_of(value@),
{
    let status = match find_member(value, "PrinterStatus") {
        Some(JsonValue::Number(status)) => *status,
        _ => None,
    };
    let is_default = match find_member(value, "Default") {
        Some(JsonValue::Bool(is_default)) => Some(*is_default),
        _ => None,
    };
    PrinterRow {
        name: text_member(value, "Name"),
        driver: text_member(value, "DriverName"),
        status,
        is_default,
    }
}

/// The rows that a value lists.
pub fn rows_from_json(value: &JsonValue) -> (r: Vec<PrinterRow>)
    ensures
        views(r@) == rows_of(value@),
{
    let mut rows: Vec<PrinterRow> = Vec::new();
    match value {
        JsonValue::List(items) => {
            let mut i: usize = 0;
            while i < items.len()
                invariant
                    i == rows@.len() <= items@.len(),
                    forall|j: int| 0 <= j < i ==> (#[trigger] rows@[j])@ == row_of(items@[j]@),
                decreases items@.len() - i,
            {
                let row = row_from_json(&items[i]);
                rows.push(row);
                i += 1;
            }
        },
        _ => {
            let row = row_from_json(value);
            rows.push(row);
        },
    }
    assert(views(rows@) =~= rows_of(value@));
    rows
}

/// Printers that ask the user where to put a file instead of printing.
pub open spec fn asks_for_file(name: Seq<char>, driver: Seq<char>) -> bool {
    let n = lower_text(name);
    let d = lower_text(driver);
    ||| n == "fax"@
    ||| has_infix(n, "microsoft print to pdf"@)
    ||| has_infix(n, "xps document writer"@)
    ||| has_infix(n, "onenote"@)
    ||| has_infix(d, "shared fax"@)
    ||| has_infix(d, "microsoft print to pdf"@)
    ||| has_infix(d, "xps document writer"@)
    ||| has_infix(d, "onenote"@)
}

/// Whether a printer asks the user where to put a file instead of printing.
pub fn interactive_virtual_printer(name: &str, driver: &str) -> (r: bool)
    ensures
        r == asks_for_file(name@, driver@),
{
    let name = lower_ascii(name);
    let driver = lower_ascii(driver);
    same(name.as_str(), "fax") || contains(name.as_str(), "microsoft print to pdf") || contains(
        name.as_str(),
        "xps document writer",
    ) || contains(name.as_str(), "onenote") || contains(driver.as_str(), "shared fax") || contains(
        driver.as_str(),
        "microsoft print to pdf",
    ) || contains(driver.as_str(), "xps document writer") || contains(driver.as_str(), "onenote")
}

/// What the flags of a print queue say: offline counts before busy, and
/// anything else that is set is an error; all bits set stand for no flags
/// known.
pub open spec fn flags_status(status: u64) -> PrinterStatus {
    if status == 0 {
        PrinterStatus::Ready
    } else if status & 128 != 0 {
        PrinterStatus::Offline
    } else if status & (512u64 | 1024u64 | 16_384u64) != 0 {
        PrinterStatus::Busy
    } else if status != u64::MAX {
        PrinterStatus::Error
    } else {
        PrinterStatus::Unknown
    }
}

/// What the flags of a print queue say.
pub fn windows_printer_status(status: u64) -> (r: PrinterStatus)
    ensures
        r == flags_status(status),
{
    if status == 0 {
        PrinterStatus::Ready
    } else if status & 128 != 0 {
        PrinterStatus::Offline
    } else if status & (512u64 | 1024u64 | 16_384u64) != 0 {
        PrinterStatus::Busy
    } else if status != u64::MAX {
        PrinterStatus::Error
    } else {
        PrinterStatus::Unknown
    }
}

/// The kinds of documents that are printed on Windows.
pub open spec fn pdf_only() -> Seq<Seq<char>> {
    seq!["application/pdf"@]
}

/// What every queue is taken to offer until it is asked.
pub fn conservative_capabilities() -> (r: PrinterCapabilities)
    ensures
        r@ == modest_capabilities(pdf_only()),
{
    let mut documents: Vec<String> = Vec::new();
    documents.push("application/pdf".to_string());
    assert(views(documents@) =~= pdf_only());
    modest(documents)
}

/// Whether a row is a printer that can be shared.
pub open spec fn is_printer_row(row: PrinterRowView) -> bool {
    row.name matches Some(name) && !asks_for_file(
        name,
        match row.driver {
            Some(driver) => driver,
            None => seq![],
        },
    )
}

/// The printer of a row.
pub open spec fn row_printer(row: PrinterRowView) -> LocalPrinterView {
    LocalPrinterView {
        id: row.name->Some_0,
        display_name: row.name->Some_0,
        status: flags_status(
            match row.status {
                Some(status) => status,
                None => u64::MAX,
            },
        ),
        connection_kind: "windows-spooler"@,
        is_default: row.is_default == Some(true),
        capabilities: modest_capabilities(pdf_only()),
    }
}

/// The printers in rows, up to the first whose name cannot be used.
pub open spec fn row_printers(rows: Seq<PrinterRowView>) -> core::result::Result<
    Seq<LocalPrinterView>,
    PrintErrorView,
>
    decreases rows.len(),
{
    if rows.len() == 0 {
        Ok(seq![])
    } else {
        match row_printers(rows.drop_last()) {
            Err(error) => Err(error),
            Ok(before) => if !is_printer_row(rows.last()) {
                Ok(before)
            } else {
                match parsed_id("local printer id"@, rows.last().name->Some_0) {
                    Err(error) => Err(error),
                    Ok(_) => Ok(before.push(row_printer(rows.last()))),
                }
            },
        }
    }
}

proof fn lemma_rows_fail_early(rows: Seq<PrinterRowView>, n: int)
    requires
        0 <= n <= rows.len(),
        row_printers(rows.take(n)) is Err,
    ensures
        row_printers(rows) == row_printers(rows.take(n)),
    decreases rows.len() - n,
{
    if n == rows.len() {
        assert(rows.take(n) =~= rows);
    } else {
        assert(rows.take(n + 1).drop_last() =~= rows.take(n));
        lemma_rows_fail_early(rows, n + 1);
    }
}

fn row_name(row: &PrinterRow) -> (r: Option<&str>)
    ensures
        match r {
            Some(name) => is_printer_row(row@) && row@.name == Some(name@),
            None => !is_printer_row(row@),
        },
{
    match &row.name {
        None => None,
        Some(name) => {
            let none = String::new();
            assert(none@ =~= seq![]);
            let driver = match &row.driver {
                Some(driver) => driver.as_str(),
                None => none.as_str(),
            };
            if interactive_virtual_printer(name.as_str(), driver) {
                None
            } else {
                Some(name.as_str())
            }
        },
    }
}

/// The printers in rows.
pub fn printers_from_rows(rows: &Vec<PrinterRow>) -> (r: PrintResult<Vec<LocalPrinter>>)
    ensures
        listed(r) == row_printers(views(rows@)),
{
    let ghost all = views(rows@);
    let mut out: Vec<LocalPrinter> = Vec::new();
    let mut i: usize = 0;
    assert(all.take(0) =~= seq![]);
    assert(views(out@) =~= seq![]);
    while i < rows.len()
        invariant
            i <= rows@.len(),
            all == views(rows@),
            row_printers(all.take(i as int)) == Ok::<Seq<LocalPrinterView>, PrintErrorView>(
                views(out@),
            ),
        decreases rows@.len() - i,
    {
        let row = &rows[i];
        proof {
            assert(all.take(i + 1).drop_last() =~= all.take(i as int));
            assert(all.take(i + 1).last() == row@);
        }
        match row_name(row) {
            None => {},
            Some(name) => match LocalPrinterId::parse(name) {
                Ok(id) => {
                    let printer = LocalPrinter {
                        id,
                        display_name: name.to_string(),
                        status: windows_printer_status(
                            match row.status {
                                Some(status) => status,
                                None => u64::MAX,
                            },
                        ),
                        connection_kind: "windows-spooler".to_string(),
                        is_default: match row.is_default {
                            Some(is_default) => is_default,
                            None => false,
                        },
                        capabilities: conservative_capabilities(),
                    };
                    let ghost before = views(out@);
                    let ghost new = printer@;
                    out.push(printer);
                    assert(views(out@) =~= before.push(new));
                },
                Err(error) => {
                    proof {
                        lemma_rows_fail_early(all, i + 1);
                    }
                    return Err(error);
                },
            },
        }
        i += 1;
    }
    assert(all.take(i as int) =~= all);
    Ok(out)
}

/// The printers in what the system lists, which as JSON is `json`.
pub open spec fn printers_in(
    output: Seq<char>,
    json: core::result::Result<JsonValueView, Seq<char>>,
) -> core::result::Result<Seq<LocalPrinterView>, PrintErrorView> {
    if trim_text(output).len() == 0 {
        Ok(seq![])
    } else {
        match json {
            Ok(value) => row_printers(rows_of(value)),
            Err(message) => Err(PrintErrorView::Serialization(message)),
        }
    }
}

/// The printers of Windows, from what the system lists as JSON.
pub fn parse_printers(output: &str) -> (r: PrintResult<Vec<LocalPrinter>>)
    ensures
        listed(r) == printers_in(output@, json_value(output@)),
{
    if chars_of(trimmed(output).as_str()).len() == 0 {
        let none: Vec<LocalPrinter> = Vec::new();
        assert(views(none@) =~= seq![]);
        return Ok(none);
    }
    match parse_json(output) {
        Ok(value) => printers_from_rows(&rows_from_json(&value)),
        Err(message) => Err(PrintError::Serialization(message)),
    }
}

/// What the spooler says of a job, flag by flag.
#[derive(Debug, Clone, Copy, PartialEq, Eq, Structural)]
pub struct SpoolerFlags {
    /// Deleted, or being deleted.
    pub deleted: bool,
    /// Complete, or printed.
    pub complete: bool,
    pub printing: bool,
    /// In error, offline, or out of paper.
    pub failed: bool,
    /// Paused, blocked, or in need of the user.
    pub held: bool,
    /// Spooling, restarted, or without any flag.
    pub waiting: bool,
}

/// What becomes of a job by its flags: the first of these that is set counts.
pub open spec fn spooler_status(flags: SpoolerFlags) -> NativeJobStatus {
    if flags.deleted {
        NativeJobStatus::Cancelled
    } else if flags.complete {
        NativeJobStatus::Completed
    } else if flags.printing {
        NativeJobStatus::Printing
    } else if flags.failed {
        NativeJobStatus::Failed
    } else if flags.held {
        NativeJobStatus::Held
    } else if flags.waiting {
        NativeJobStatus::Queued
    } else {
        NativeJobStatus::Unknown
    }
}

/// How a job fares; a job that the spooler does not know any more is done.
pub open spec fn known_status(flags: Option<SpoolerFlags>) -> NativeJobStatus {
    match flags {
        Some(flags) => spooler_status(flags),
        None => NativeJobStatus::Completed,
    }
}

/// How a job fares; a job that the spooler does not know any more is done.
pub fn job_status(flags: Option<SpoolerFlags>) -> (r: NativeJobStatus)
    ensures
        r == known_status(flags),
{
    match flags {
        None => NativeJobStatus::Completed,
        Some(flags) => {
            if flags.deleted {
                NativeJobStatus::Cancelled
            } else if flags.complete {
                NativeJobStatus::Completed
            } else if flags.printing {
                NativeJobStatus::Printing
            } else if flags.failed {
                NativeJobStatus::Failed
            } else if flags.held {
                NativeJobStatus::Held
            } else if flags.waiting {
                NativeJobStatus::Queued
            } else {
                NativeJobStatus::Unknown
            }
        },
    }
}

/// Whether a length is within a millimetre of another.
pub open spec fn close_to(length: u32, target: int) -> bool {
    target - 1_000 <= length <= target + 1_000
}

/// The name of a sheet of this size; which side is the longer one makes no
/// difference.
pub open spec fn size_name(width: u32, height: u32) -> Seq<char> {
    let short = if width <= height { width } else { height };
    let long = if width <= height { height } else { width };
    if close_to(short, 210_000) && close_to(long, 297_000) {
        "iso_a4_210x297mm"@
    } else if close_to(short, 215_900) && close_to(long, 279_400) {
        "na_letter_8.5x11in"@
    } else {
        "custom_"@ + decimal_text(short as nat) + "x"@ + decimal_text(long as nat) + "um"@
    }
}

fn near(length: u32, target: u32) -> (r: bool)
    requires
        1_000 <= target <= 1_000_000,
    ensures
        r == close_to(length, target as int),
{
    target - 1_000 <= length && length <= target + 1_000
}

/// The name of a sheet of this size.
pub fn media_name(width: u32, height: u32) -> (r: String)
    ensures
        r@ == size_name(width, height),
{
    let (short, long): (u32, u32) = if width <= height {
        (width, height)
    } else {
        (height, width)
    };
    if near(short, 210_000) && near(long, 297_000) {
        return "iso_a4_210x297mm".to_string();
    }
    if near(short, 215_900) && near(long, 279_400) {
        return "na_letter_8.5x11in".to_string();
    }
    let mut name = "custom_".to_string();
    name.append(decimal(short as u64).as_str());
    name.append("x");
    name.append(decimal(long as u64).as_str());
    name.append("um");
    name
}

/// A sheet, and how the driver numbers it.
pub struct PaperSize {
    pub code: i16,
    pub media: MediaSize,
}

pub struct PaperSizeView {
    pub code: i16,
    pub media: MediaSizeView,
}

impl View for PaperSize {
    type V = PaperSizeView;

    open spec fn view(&self) -> PaperSizeView {
        PaperSizeView { code: self.code, media: self.media@ }
    }
}

/// Whether a sheet of this name is among `papers`.
pub open spec fn has_paper(papers: Seq<PaperSizeView>, name: Seq<char>) -> bool {
    exists|i: int| 0 <= i < papers.len() && (#[trigger] papers[i]).media.name == name
}

/// The sheet of a code and a size in tenths of a millimetre.
pub open spec fn paper_of(code: i16, size: (i32, i32)) -> PaperSizeView {
    let width = (size.0 * 100) as u32;
    let height = (size.1 * 100) as u32;
    PaperSizeView {
        code,
        media: MediaSizeView {
            name: size_name(width, height),
            width_microns: width,
            height_microns: height,
        },
    }
}

/// The sheets of the first `count` codes and sizes: those with a proper size,
/// and of each name the first.
pub open spec fn papers_of(codes: Seq<i16>, sizes: Seq<(i32, i32)>, count: int) -> Seq<
    PaperSizeView,
>
    decreases count,
{
    if count <= 0 {
        seq![]
    } else {
        let before = papers_of(codes, sizes, count - 1);
        let size = sizes[count - 1];
        let paper = paper_of(codes[count - 1], size);
        if size.0 <= 0 || size.1 <= 0 || has_paper(before, paper.media.name) {
            before
        } else {
            before.push(paper)
        }
    }
}

/// How many codes and sizes are known, when the driver says that it has given
/// `code_count` and `size_count`.
pub open spec fn usable_count(
    codes: Seq<i16>,
    sizes: Seq<(i32, i32)>,
    code_count: i32,
    size_count: i32,
) -> int {
    let said = if code_count <= size_count { code_count } else { size_count };
    let there = if codes.len() <= sizes.len() { codes.len() as int } else { sizes.len() as int };
    if said <= 0 {
        0
    } else if said <= there {
        said as int
    } else {
        there
    }
}

fn paper_known(papers: &Vec<PaperSize>, name: &str) -> (r: bool)
    ensures
        r == has_paper(views(papers@), name@),
{
    let mut i: usize = 0;
    while i < papers.len()
        invariant
            i <= papers@.len(),
            forall|j: int| 0 <= j < i ==> (#[trigger] views(papers@)[j]).media.name != name@,
        decreases papers@.len() - i,
    {
        assert(views(papers@)[i as int] == papers@[i as int]@);
        if same(papers[i].media.name.as_str(), name) {
            return true;
        }
        i += 1;
    }
    false
}

/// The sheets that a driver has given as codes and sizes in tenths of a
/// millimetre.
pub fn enumerate_media(
    codes: &Vec<i16>,
    sizes: &Vec<(i32, i32)>,
    code_count: i32,
    size_count: i32,
) -> (r: Vec<PaperSize>)
    requires
        forall|i: int|
            0 <= i < sizes@.len() ==> (#[trigger] sizes@[i]).0 <= 42_949_672 && sizes@[i].1
                <= 42_949_672,
    ensures
        views(r@) == papers_of(
            codes@,
            sizes@,
            usable_count(codes@, sizes@, code_count, size_count),
        ),
{
    let said: i32 = if code_count <= size_count {
        code_count
    } else {
        size_count
    };
    let there: usize = if codes.len() <= sizes.len() {
        codes.len()
    } else {
        sizes.len()
    };
    let count: usize = if said <= 0 {
        0
    } else if (said as u64) <= there as u64 {
        said as usize
    } else {
        there
    };
    let mut out: Vec<PaperSize> = Vec::new();
    let mut i: usize = 0;
    assert(views(out@) =~= seq![]);
    while i < count
        invariant
            i <= count <= codes@.len(),
            count <= sizes@.len(),
            forall|j: int|
                0 <= j < sizes@.len() ==> (#[trigger] sizes@[j]).0 <= 42_949_672 && sizes@[j].1
                    <= 42_949_672,
            views(out@) == papers_of(codes@, sizes@, i as int),
        decreases count - i,
    {
        let (x, y): (i32, i32) = sizes[i];
        assert(sizes@[i as int] == (x, y));
        if x > 0 && y > 0 {
            let width: u32 = x as u32 * 100;
            let height: u32 = y as u32 * 100;
            let name = media_name(width, height);
            if !paper_known(&out, name.as_str()) {
                let ghost before = views(out@);
                let paper = PaperSize {
                    code: codes[i],
                    media: MediaSize { name, width_microns: width, height_microns: height },
                };
                assert(paper@ == paper_of(codes@[i as int], (x, y)));
                out.push(paper);
                assert(views(out@) =~= before.push(paper_of(codes@[i as int], (x, y))));
            }
        }
        i += 1;
    }
    out
}

/// The resolutions among the first `count` pairs of numbers.
pub open spec fn resolutions_of(pairs: Seq<(i32, i32)>, count: int) -> Seq<PrintResolution>
    decreases count,
{
    if count <= 0 {
        seq![]
    } else {
        let before = resolutions_of(pairs, count - 1);
        let (x, y) = pairs[count - 1];
        if x <= 0 || y <= 0 {
            before
        } else {
            before.push(PrintResolution { horizontal_dpi: x as u32, vertical_dpi: y as u32 })
        }
    }
}

/// The resolutions that a driver has given, when it says how many it gave.
pub fn enumerate_resolutions(pairs: &Vec<(i32, i32)>, actual: i32) -> (r: Vec<PrintResolution>)
    ensures
        r@ == resolutions_of(
            pairs@,
            if actual <= pairs@.len() {
                actual as int
            } else {
                pairs@.len() as int
            },
        ),
{
    let count: usize = if actual <= 0 {
        0
    } else if (actual as u64) <= pairs.len() as u64 {
        actual as usize
    } else {
        pairs.len()
    };
    let mut out: Vec<PrintResolution> = Vec::new();
    let mut i: usize = 0;
    assert(out@ =~= seq![]);
    while i < count
        invariant
            i <= count <= pairs@.len(),
            out@ == resolutions_of(pairs@, i as int),
        decreases count - i,
    {
        let (x, y): (i32, i32) = pairs[i];
        if x > 0 && y > 0 {
            out.push(PrintResolution { horizontal_dpi: x as u32, vertical_dpi: y as u32 });
        }
        i += 1;
    }
    out
}

/// The code of the first sheet of this name.
pub open spec fn listed_code(papers: Seq<PaperSizeView>, name: Seq<char>) -> Option<i16>
    decreases papers.len(),
{
    if papers.len() == 0 {
        None
    } else if papers[0].media.name == name {
        Some(papers[0].code)
    } else {
        listed_code(papers.drop_first(), name)
    }
}

/// How the driver numbers the sheet that is asked for; the two common sheets
/// have numbers of their own, `a4` and `letter`, on all drivers.
pub open spec fn paper_code(
    papers: Seq<PaperSizeView>,
    requested: Seq<char>,
    a4: i16,
    letter: i16,
) -> core::result::Result<i16, PrintErrorView> {
    match listed_code(papers, requested) {
        Some(code) => Ok(code),
        None => if requested == "iso_a4_210x297mm"@ {
            Ok(a4)
        } else if requested == "na_letter_8.5x11in"@ {
            Ok(letter)
        } else {
            Err(PrintErrorView::Invalid("printer does not support media "@ + requested))
        },
    }
}

/// How the driver numbers the sheet that is asked for.
pub fn media_code(papers: &Vec<PaperSize>, requested: &str, a4: i16, letter: i16) -> (r: PrintResult<
    i16,
>)
    ensures
        plain(r) == paper_code(views(papers@), requested@, a4, letter),
{
    let ghost all = views(papers@);
    let mut i: usize = 0;
    assert(all.skip(0) =~= all);
    while i < papers.len()
        invariant
            i <= papers@.len(),
            all == views(papers@),
            listed_code(all, requested@) == listed_code(all.skip(i as int), requested@),
        decreases papers@.len() - i,
    {
        assert(all.skip(i as int)[0] == papers@[i as int]@);
        assert(all.skip(i as int).drop_first() =~= all.skip(i + 1));
        if same(papers[i].media.name.as_str(), requested) {
            return Ok(papers[i].code);
        }
        i += 1;
    }
    if same(requested, "iso_a4_210x297mm") {
        return Ok(a4);
    }
    if same(requested, "na_letter_8.5x11in") {
        return Ok(letter);
    }
    let mut message = "printer does not support media ".to_string();
    message.append(requested);
    Err(PrintError::Invalid(message))
}

/// The sheets themselves.
pub open spec fn paper_media(papers: Seq<PaperSizeView>) -> Seq<MediaSizeView> {
    papers.map_values(|paper: PaperSizeView| paper.media)
}

/// What a printer offers that was asked.
pub open spec fn probed(
    color: bool,
    duplex: bool,
    papers: Seq<PaperSizeView>,
    resolutions: Seq<PrintResolution>,
) -> PrinterCapabilitiesView {
    PrinterCapabilitiesView {
        media_sizes: if papers.len() == 0 {
            common_sizes()
        } else {
            paper_media(papers)
        },
        color_modes: if color {
            seq![ColorMode::Monochrome, ColorMode::Color]
        } else {
            seq![ColorMode::Monochrome]
        },
        duplex_modes: if duplex {
            seq![
                DuplexMode::OneSided,
                DuplexMode::TwoSidedLongEdge,
                DuplexMode::TwoSidedShortEdge,
            ]
        } else {
            seq![DuplexMode::OneSided]
        },
        resolutions: if resolutions.len() == 0 {
            seq![PrintResolution { horizontal_dpi: 300, vertical_dpi: 300 }]
        } else {
            resolutions
        },
        max_copies: 100,
        supports_page_ranges: true,
        supports_collation: true,
        accepted_document_types: pdf_only(),
    }
}

fn media_of(papers: &Vec<PaperSize>) -> (r: Vec<MediaSize>)
    ensures
        views(r@) == paper_media(views(papers@)),
{
    let mut out: Vec<MediaSize> = Vec::new();
    let mut i: usize = 0;
    while i < papers.len()
        invariant
            i <= papers@.len(),
            out@.len() == i,
            forall|j: int| 0 <= j < i ==> (#[trigger] out@[j])@ == papers@[j].media@,
        decreases papers@.len() - i,
    {
        out.push(papers[i].media.clone());
        i += 1;
    }
    assert(views(out@) =~= paper_media(views(papers@)));
    out
}

/// What a printer offers that was asked.
pub fn probe_capabilities(
    color: bool,
    duplex: bool,
    papers: &Vec<PaperSize>,
    resolutions: Vec<PrintResolution>,
) -> (r: PrinterCapabilities)
    ensures
        r@ == probed(color, duplex, views(papers@), resolutions@),
{
    let mut capabilities = conservative_capabilities();
    if papers.len() > 0 {
        capabilities.media_sizes = media_of(papers);
    }
    if color {
        capabilities.color_modes.push(ColorMode::Color);
    }
    if duplex {
        capabilities.duplex_modes.push(DuplexMode::TwoSidedLongEdge);
        capabilities.duplex_modes.push(DuplexMode::TwoSidedShortEdge);
    }
    if resolutions.len() > 0 {
        capabilities.resolutions = resolutions;
    }
    assert(capabilities@.color_modes =~= probed(
        color,
        duplex,
        views(papers@),
        resolutions@,
    ).color_modes);
    assert(capabilities@.duplex_modes =~= probed(
        color,
        duplex,
        views(papers@),
        resolutions@,
    ).duplex_modes);
    capabilities
}

/// A job of the spooler, by its number and its printer.
pub open spec fn job_text(printer_name: Seq<char>, job_id: u32) -> Seq<char> {
    "winspool:v1:"@ + decimal_text(job_id as nat) + ":"@ + hex_text(encode_utf8(printer_name))
}

/// A job of the spooler, by its number and its printer.
pub fn encode_native_job_id(printer_name: &str, job_id: u32) -> (r: PrintResult<NativeJobId>)
    ensures
        outcome(r) == parsed_id("native job id"@, job_text(printer_name@, job_id)),
{
    let mut text = "winspool:v1:".to_string();
    text.append(decimal(job_id as u64).as_str());
    text.append(":");
    text.append(hex(printer_name.as_bytes()).as_str());
    NativeJobId::parse(text.as_str())
}

/// The value of a hexadecimal digit.
pub open spec fn hex_value(b: u8) -> Option<u8> {
    if 0x30 <= b <= 0x39 {
        Some((b - 0x30) as u8)
    } else if 0x61 <= b <= 0x66 {
        Some((b - 0x57) as u8)
    } else if 0x41 <= b <= 0x46 {
        Some((b - 0x37) as u8)
    } else {
        None
    }
}

/// The byte that two characters stand for: two hexadecimal digits, or one
/// after a plus sign.
pub open spec fn pair_value(high: u8, low: u8) -> Option<u8> {
    match hex_value(low) {
        None => None,
        Some(l) => if high == 0x2b {
            Some(l)
        } else {
            match hex_value(high) {
                None => None,
                Some(h) => Some((h * 16 + l) as u8),
            }
        },
    }
}

/// The bytes that pairs of characters stand for.
pub open spec fn paired(bytes: Seq<u8>) -> Option<Seq<u8>>
    decreases bytes.len(),
{
    if bytes.len() == 0 {
        Some(seq![])
    } else if bytes.len() == 1 {
        None
    } else {
        let n = bytes.len() - 2;
        match paired(bytes.take(n)) {
            None => None,
            Some(before) => match pair_value(bytes[n], bytes[n + 1]) {
                None => None,
                Some(b) => Some(before.push(b)),
            },
        }
    }
}

fn digit_value(b: u8) -> (r: Option<u8>)
    ensures
        r == hex_value(b),
{
    if 0x30 <= b && b <= 0x39 {
        Some(b - 0x30)
    } else if 0x61 <= b && b <= 0x66 {
        Some(b - 0x57)
    } else if 0x41 <= b && b <= 0x46 {
        Some(b - 0x37)
    } else {
        None
    }
}

fn byte_of(high: u8, low: u8) -> (r: Option<u8>)
    ensures
        r == pair_value(high, low),
{
    match digit_value(low) {
        None => None,
        Some(l) => {
            if high == 0x2b {
                return Some(l);
            }
            match digit_value(high) {
                None => None,
                Some(h) => Some(h * 16 + l),
            }
        },
    }
}

proof fn lemma_pairs_fail_early(bytes: Seq<u8>, n: int)
    requires
        0 <= n <= bytes.len(),
        n % 2 == 0,
        bytes.len() % 2 == 0,
        paired(bytes.take(n)) is None,
    ensures
        paired(bytes) is None,
    decreases bytes.len() - n,
{
    if n == bytes.len() {
        assert(bytes.take(n) =~= bytes);
    } else {
        assert(bytes.take(n + 2).take(n) =~= bytes.take(n));
        lemma_pairs_fail_early(bytes, n + 2);
    }
}

fn unhex(bytes: &[u8]) -> (r: Option<Vec<u8>>)
    requires
        bytes@.len() % 2 == 0,
    ensures
        match paired(bytes@) {
            Some(value) => r matches Some(v) && v@ == value,
            None => r is None,
        },
{
    let mut out: Vec<u8> = Vec::new();
    let mut i: usize = 0;
    assert(bytes@.take(0) =~= seq![]);
    assert(out@ =~= seq![]);
    while i < bytes.len()
        invariant
            i <= bytes@.len(),
            i % 2 == 0,
            bytes@.len() % 2 == 0,
            paired(bytes@.take(i as int)) == Some(out@),
        decreases bytes@.len() - i,
    {
        assert(bytes@.take(i + 2).take(i as int) =~= bytes@.take(i as int));
        match byte_of(bytes[i], bytes[i + 1]) {
            Some(b) => {
                out.push(b);
            },
            None => {
                proof {
                    lemma_pairs_fail_early(bytes@, i + 2);
                }
                return None;
            },
        }
        i += 2;
    }
    assert(bytes@.take(i as int) =~= bytes@);
    Some(out)
}

/// The printer that an encoded name stands for.
pub open spec fn decoded_name(encoded: Seq<char>) -> core::result::Result<
    Seq<char>,
    PrintErrorView,
> {
    let bytes = encode_utf8(encoded);
    if bytes.len() % 2 != 0 {
        Err(PrintErrorView::Invalid("Windows printer name encoding is invalid"@))
    } else {
        match paired(bytes) {
            None => Err(PrintErrorView::Invalid("Windows printer name encoding is invalid"@)),
            Some(name) => match utf8_text(name) {
                None => Err(PrintErrorView::Invalid("Windows printer name is not UTF-8"@)),
                Some(text) => Ok(text),
            },
        }
    }
}

/// What comes before and after the first colon; nothing after where there is
/// none.
pub open spec fn field(s: Seq<char>) -> (Seq<char>, Option<Seq<char>>) {
    match cut_at(s, ':') {
        Some((head, tail)) => (head, Some(tail)),
        None => (s, None),
    }
}

/// The printer and the number of a job of the spooler.
pub open spec fn decoded_job(id: Seq<char>) -> core::result::Result<
    (Seq<char>, u32),
    PrintErrorView,
> {
    let (scheme, after_scheme) = field(id);
    match after_scheme {
        None => Err(PrintErrorView::Invalid("invalid Windows native job id"@)),
        Some(rest) => {
            let (version, after_version) = field(rest);
            if scheme != "winspool"@ || version != "v1"@ {
                Err(PrintErrorView::Invalid("invalid Windows native job id"@))
            } else {
                match after_version {
                    None => Err(PrintErrorView::Invalid("Windows job id is missing"@)),
                    Some(rest) => {
                        let (number, encoded) = field(rest);
                        match parsed_u32(number) {
                            None => Err(PrintErrorView::Invalid("Windows job id is invalid"@)),
                            Some(job_id) => match encoded {
                                None => Err(
                                    PrintErrorView::Invalid("Windows printer name is missing"@),
                                ),
                                Some(encoded) => match decoded_name(encoded) {
                                    Err(error) => Err(error),
                                    Ok(name) => Ok((name, job_id)),
                                },
                            },
                        }
                    },
                }
            }
        },
    }
}

fn next_field(s: &str) -> (r: (String, Option<String>))
    ensures
        (r.0@, opt(r.1)) == field(s@),
{
    match split_once(s, ':') {
        Some((head, tail)) => (head, Some(tail)),
        None => (s.to_string(), None),
    }
}

fn decode_name(encoded: &str) -> (r: PrintResult<String>)
    ensures
        outcome(r) == decoded_name(encoded@),
{
    let bytes = encoded.as_bytes();
    if bytes.len() % 2 != 0 {
        return Err(
            PrintError::Invalid("Windows printer name encoding is invalid".to_string()),
        );
    }
    match unhex(bytes) {
        None => Err(PrintError::Invalid("Windows printer name encoding is invalid".to_string())),
        Some(name) => match as_text(name.as_slice()) {
            Some(text) => Ok(text.to_string()),
            None => Err(PrintError::Invalid("Windows printer name is not UTF-8".to_string())),
        },
    }
}

/// The printer and the number of a job of the spooler.
pub fn decode_native_job_id(id: &NativeJobId) -> (r: PrintResult<(String, u32)>)
    ensures
        match decoded_job(id@) {
            Ok((name, job_id)) => r matches Ok((n, j)) && n@ == name && j == job_id,
            Err(error) => r matches Err(e) && e@ == error,
        },
{
    let (scheme, after_scheme) = next_field(id.as_str());
    let rest = match after_scheme {
        Some(rest) => rest,
        None => {
            return Err(PrintError::Invalid("invalid Windows native job id".to_string()));
        },
    };
    let (version, after_version) = next_field(rest.as_str());
    if !same(scheme.as_str(), "winspool") || !same(version.as_str(), "v1") {
        return Err(PrintError::Invalid("invalid Windows native job id".to_string()));
    }
    let rest = match after_version {
        Some(rest) => rest,
        None => {
            return Err(PrintError::Invalid("Windows job id is missing".to_string()));
        },
    };
    let (number, encoded) = next_field(rest.as_str());
    let job_id: u32 = match parse_u32(number.as_str()) {
        Some(job_id) => job_id,
        None => {
            return Err(PrintError::Invalid("Windows job id is invalid".to_string()));
        },
    };
    match encoded {
        Some(encoded) => match decode_name(encoded.as_str()) {
            Ok(name) => Ok((name, job_id)),
            Err(error) => Err(error),
        },
        None => Err(PrintError::Invalid("Windows printer name is missing".to_string())),
    }
}

/// A character in UTF-16.
pub open spec fn utf16_units(c: char) -> Seq<u16> {
    let v = c as u32;
    if v < 0x1_0000 {
        seq![v as u16]
    } else {
        seq![
            (0xd800 + (v - 0x1_0000) / 0x400) as u16,
            (0xdc00 + (v - 0x1_0000) % 0x400) as u16,
        ]
    }
}

/// Text in UTF-16.
pub open spec fn utf16_text(s: Seq<char>) -> Seq<u16>
    decreases s.len(),
{
    if s.len() == 0 {
        seq![]
    } else {
        utf16_text(s.drop_last()) + utf16_units(s.last())
    }
}

/// Text in UTF-16, with a zero at its end.
pub fn wide(value: &str) -> (r: Vec<u16>)
    ensures
        r@ == utf16_text(value@).push(0),
{
    let chars = chars_of(value);
    let mut out: Vec<u16> = Vec::new();
    let mut i: usize = 0;
    assert(out@ =~= seq![]);
    while i < chars.len()
        invariant
            chars@ == value@,
            i <= chars@.len(),
            out@ == utf16_text(value@.take(i as int)),
        decreases chars@.len() - i,
    {
        let ghost before = out@;
        let v: u32 = chars[i] as u32;
        proof {
            char_is_scalar(chars@[i as int]);
            assert(value@.take(i + 1).drop_last() =~= value@.take(i as int));
            assert(value@.take(i + 1).last() == chars@[i as int]);
        }
        if v < 0x1_0000 {
            out.push(v as u16);
        } else {
            let rest: u32 = v - 0x1_0000;
            out.push((0xd800 + rest / 0x400) as u16);
            out.push((0xdc00 + rest % 0x400) as u16);
        }
        assert(out@ =~= before + utf16_units(chars@[i as int]));
        i += 1;
    }
    assert(value@.take(i as int) =~= value@);
    out.push(0);
    out
}

/// A path as the Windows Runtime takes it: without the prefix that switches
/// off the interpretation of paths.
pub open spec fn runtime_path(path: Seq<char>) -> Seq<char> {
    match after_prefix(path, "\\\\?\\UNC\\"@) {
        Some(rest) => "\\\\"@ + rest,
        None => match after_prefix(path, "\\\\?\\"@) {
            Some(rest) => rest,
            None => path,
        },
    }
}

/// A path as the Windows Runtime takes it.
pub fn winrt_file_path(path: &str) -> (r: String)
    ensures
        r@ == runtime_path(path@),
{
    match strip_prefix(path, "\\\\?\\UNC\\") {
        Some(rest) => {
            let mut plain = "\\\\".to_string();
            plain.append(rest.as_str());
            plain
        },
        None => match strip_prefix(path, "\\\\?\\") {
            Some(rest) => rest,
            None => path.to_string(),
        },
    }
}

proof fn lemma_digits_of_decimal(n: nat)
    ensures
        digits_value(decimal_text(n)) == n,
        all_digits(decimal_text(n)),
    decreases n,
{
    lemma_decimal_text(n);
    let s = decimal_text(n);
    assert(all_digits(s)) by {
        assert forall|i: int| 0 <= i < s.len() implies is_digit(#[trigger] s[i]) by {}
    }
    if n >= 10 {
        lemma_digits_of_decimal(n / 10);
        assert(s.drop_last() =~= decimal_text(n / 10));
        assert(s.last() == digit_char(n % 10));
    } else {
        assert(s.drop_last() =~= seq![]);
        assert(digits_value(s.drop_last()) == 0);
    }
}

proof fn lemma_unhex(bytes: Seq<u8>, text: Seq<u8>)
    requires
        text.len() == 2 * bytes.len(),
        forall|i: int|
            0 <= i < bytes.len() ==> pair_value(text[2 * i], text[2 * i + 1]) == Some(
                #[trigger] bytes[i],
            ),
    ensures
        paired(text) == Some(bytes),
    decreases bytes.len(),
{
    if bytes.len() == 0 {
        assert(bytes =~= seq![]);
    } else {
        let n = text.len() - 2;
        let before = bytes.drop_last();
        assert forall|i: int| 0 <= i < before.len() implies pair_value(
            text.take(n)[2 * i],
            text.take(n)[2 * i + 1],
        ) == Some(#[trigger] before[i]) by {
            assert(before[i] == bytes[i]);
        }
        lemma_unhex(before, text.take(n));
        let last = bytes.len() - 1;
        assert(bytes[last] == bytes.last());
        assert(2 * last == n);
        assert(before.push(bytes.last()) =~= bytes);
    }
}

proof fn lemma_hex_digit(d: int)
    requires
        0 <= d < 16,
    ensures
        hex_value(hex_char(d) as u8) == Some(d as u8),
        hex_char(d) as u8 != 0x2b,
{
}

proof fn lemma_name_round_trip(name: Seq<char>)
    ensures
        decoded_name(hex_text(encode_utf8(name))) == Ok::<Seq<char>, PrintErrorView>(name),
{
    let bytes = encode_utf8(name);
    let text = hex_text(bytes);
    lemma_hex_text(bytes);
    is_ascii_chars_encode_utf8(text);
    let encoded = encode_utf8(text);
    assert forall|i: int| 0 <= i < bytes.len() implies pair_value(
        encoded[2 * i],
        encoded[2 * i + 1],
    ) == Some(#[trigger] bytes[i]) by {
        let b = bytes[i] as int;
        assert((2 * i) / 2 == i && (2 * i) % 2 == 0);
        assert((2 * i + 1) / 2 == i && (2 * i + 1) % 2 == 1);
        assert(text[2 * i] == hex_char(b / 16));
        assert(text[2 * i + 1] == hex_char(b % 16));
        assert(encoded[2 * i] == text[2 * i] as u8);
        assert(encoded[2 * i + 1] == text[2 * i + 1] as u8);
        lemma_hex_digit(b / 16);
        lemma_hex_digit(b % 16);
    }
    lemma_unhex(bytes, encoded);
    lemma_utf8_round_trip(name);
}

proof fn lemma_field(head: Seq<char>, tail: Seq<char>)
    requires
        forall|i: int| 0 <= i < head.len() ==> head[i] != ':',
    ensures
        field(head + seq![':'] + tail) == (head, Some(tail)),
{
    let s = head + seq![':'] + tail;
    let i = head.len() as int;
    assert(s[i] == ':');
    lemma_index_is(s, ':', i);
    assert(s.take(i) =~= head);
    assert(s.skip(i + 1) =~= tail);
}

/// A job of the spooler is found again under its name, whatever its printer
/// is called.
pub proof fn law_native_job_round_trip(printer_name: Seq<char>, job_id: u32)
    ensures
        decoded_job(job_text(printer_name, job_id)) == Ok::<(Seq<char>, u32), PrintErrorView>(
            (printer_name, job_id),
        ),
{
    reveal_strlit("winspool:v1:");
    reveal_strlit("winspool");
    reveal_strlit("v1");
    reveal_strlit(":");
    let number = decimal_text(job_id as nat);
    let name = hex_text(encode_utf8(printer_name));
    let third = number + seq![':'] + name;
    let second = "v1"@ + seq![':'] + third;
    assert(job_text(printer_name, job_id) =~= "winspool"@ + seq![':'] + second);
    lemma_decimal_text(job_id as nat);
    lemma_digits_of_decimal(job_id as nat);
    lemma_field("winspool"@, second);
    lemma_field("v1"@, third);
    assert forall|i: int| 0 <= i < number.len() implies number[i] != ':' by {
        assert('0' <= number[i] <= '9');
    }
    lemma_field(number, name);
    assert('0' <= number[0] <= '9');
    lemma_name_round_trip(printer_name);
}

/// Of the sheets that a driver has given no two have the same name.
pub proof fn law_paper_names_are_distinct(
    codes: Seq<i16>,
    sizes: Seq<(i32, i32)>,
    count: int,
    i: int,
    j: int,
)
    requires
        0 <= i < j < papers_of(codes, sizes, count).len(),
    ensures
        papers_of(codes, sizes, count)[i].media.name != papers_of(codes, sizes, count)[j].media.name,
    decreases count,
{
    if count > 0 {
        let before = papers_of(codes, sizes, count - 1);
        let all = papers_of(codes, sizes, count);
        if j < before.len() {
            law_paper_names_are_distinct(codes, sizes, count - 1, i, j);
        } else {
            assert(all[i] == before[i]);
            assert(before[i].media.name == before[i].media.name);
        }
    }
}

/// A printer that was asked offers something that can be printed on.
pub proof fn law_probed_capabilities_are_valid(
    color: bool,
    duplex: bool,
    papers: Seq<PaperSizeView>,
    resolutions: Seq<PrintResolution>,
)
    ensures
        probed(color, duplex, papers, resolutions).validation() is Ok,
        modest_capabilities(pdf_only()).validation() is Ok,
{
}

} // verus!
