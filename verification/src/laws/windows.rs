//! What the Windows spooler is asked to do, and what it says.
use vstd::prelude::*;

use crate::application::ports::NativeJobStatus;
use crate::domain::capability::{ColorMode, DuplexMode, PrintResolution};
use crate::domain::id::valid_id;
use crate::domain::job::{PageRange, PrintOptionsView};
use crate::domain::printer::{LocalPrinterView, PrinterStatus};
use crate::error::PrintErrorView;
use crate::infrastructure::platform::json::{JsonMemberView, JsonValueView};
use crate::infrastructure::platform::render::{
    area_check, copied_each, copied_through, cut_to_budget, document_check, encoded_size_check,
    first_bad_range, fits_budget, is_plan, is_selection, loaded_check, margin, opaque_bgra,
    over_white, printed_order,
};
use crate::infrastructure::platform::windows_backend::{
    asks_for_file, decoded_job, flags_status, hex_value, pair_value, known_status, listed_code, member_of, paper_code, paper_of,
    papers_of, probed, resolutions_of, row_of, row_printers, rows_of, runtime_path, size_name,
    usable_count, utf16_text, utf16_units, PaperSizeView, PrinterRowView, SpoolerFlags,
};
use crate::parts::lemma_index_is;
use crate::text::{decimal_text, has_infix, lower_text};

verus! {

/// A printer with the offline flag is offline, whatever else is set; without
/// it, one that is busy, printing or processing is busy, and any other flag is
/// an error. Without flags it is ready.
pub proof fn law_printer_flags(status: u64)
    ensures
        flags_status(0) == PrinterStatus::Ready,
        flags_status(status | 128) == PrinterStatus::Offline,
        status & 128 == 0 ==> flags_status(status | 512) == PrinterStatus::Busy,
        status & 128 == 0 ==> flags_status(status | 1024) == PrinterStatus::Busy,
        status & 128 == 0 ==> flags_status(status | 16_384) == PrinterStatus::Busy,
        status != 0 && status & 128 == 0 && status & 512 == 0 && status & 1024 == 0 && status
            & 16_384 == 0 ==> flags_status(status) == PrinterStatus::Error,
{
    assert((status | 128) != 0 && (status | 128) & 128 != 0) by (bit_vector);
    assert(status & 128 == 0 ==> (status | 512) != 0 && (status | 512) & 128 == 0 && (status | 512)
        & (512u64 | 1024u64 | 16_384u64) != 0) by (bit_vector);
    assert(status & 128 == 0 ==> (status | 1024) != 0 && (status | 1024) & 128 == 0 && (status
        | 1024) & (512u64 | 1024u64 | 16_384u64) != 0) by (bit_vector);
    assert(status & 128 == 0 ==> (status | 16_384) != 0 && (status | 16_384) & 128 == 0 && (status
        | 16_384) & (512u64 | 1024u64 | 16_384u64) != 0) by (bit_vector);
    assert(status & 512 == 0 && status & 1024 == 0 && status & 16_384 == 0 ==> status & (512u64
        | 1024u64 | 16_384u64) == 0) by (bit_vector);
    assert(0xffff_ffff_ffff_ffffu64 & 128 != 0) by (bit_vector);
}

/// A job that the spooler has forgotten is done; one that was deleted is
/// cancelled; one that is complete is so though it has other flags; and a job
/// fails, is held or waits only if it neither has ended nor is printed.
pub proof fn law_spooler_flags(flags: SpoolerFlags)
    ensures
        known_status(None) == NativeJobStatus::Completed,
        known_status(Some(flags)) == NativeJobStatus::Cancelled <==> flags.deleted,
        known_status(Some(flags)) == NativeJobStatus::Completed <==> flags.complete
            && !flags.deleted,
        known_status(Some(flags)) == NativeJobStatus::Printing <==> flags.printing
            && !flags.complete && !flags.deleted,
        known_status(Some(flags)) == NativeJobStatus::Failed <==> flags.failed && !flags.printing
            && !flags.complete && !flags.deleted,
        known_status(Some(flags)) == NativeJobStatus::Held <==> flags.held && !flags.failed
            && !flags.printing && !flags.complete && !flags.deleted,
        known_status(Some(flags)) == NativeJobStatus::Queued <==> flags.waiting && !flags.held
            && !flags.failed && !flags.printing && !flags.complete && !flags.deleted,
{
}

/// The system lists printers as one value or as a list of values; each tells
/// its name, driver, status and whether it is the default under these names.
pub proof fn law_rows_are_read(
    name: Seq<char>,
    driver: Seq<char>,
    status: u64,
    is_default: bool,
    items: Seq<JsonValueView>,
    i: int,
)
    ensures
        ({
            let value = JsonValueView::Members(
                seq![
                    JsonMemberView { name: "Name"@, value: JsonValueView::Text(name) },
                    JsonMemberView {
                        name: "PrinterStatus"@,
                        value: JsonValueView::Number(Some(status)),
                    },
                    JsonMemberView { name: "DriverName"@, value: JsonValueView::Text(driver) },
                    JsonMemberView { name: "Default"@, value: JsonValueView::Bool(is_default) },
                ],
            );
            &&& row_of(value) == (PrinterRowView {
                name: Some(name),
                driver: Some(driver),
                status: Some(status),
                is_default: Some(is_default),
            })
            &&& rows_of(value) == seq![row_of(value)]
        }),
        rows_of(JsonValueView::List(items)).len() == items.len(),
        0 <= i < items.len() ==> rows_of(JsonValueView::List(items))[i] == row_of(items[i]),
{
    reveal_strlit("Name");
    reveal_strlit("PrinterStatus");
    reveal_strlit("DriverName");
    reveal_strlit("Default");
    assert("Name"@.len() == 4);
    assert("PrinterStatus"@.len() == 13);
    assert("DriverName"@.len() == 10);
    assert("Default"@.len() == 7);
    let members = seq![
        JsonMemberView { name: "Name"@, value: JsonValueView::Text(name) },
        JsonMemberView { name: "PrinterStatus"@, value: JsonValueView::Number(Some(status)) },
        JsonMemberView { name: "DriverName"@, value: JsonValueView::Text(driver) },
        JsonMemberView { name: "Default"@, value: JsonValueView::Bool(is_default) },
    ];
    assert(members.skip(1)[0] == members[1]);
    assert(members.skip(1).skip(1) =~= members.skip(2));
    assert(members.skip(2)[0] == members[2]);
    assert(members.skip(2).skip(1) =~= members.skip(3));
    assert(members.skip(3)[0] == members[3]);
    reveal_with_fuel(member_of, 5);
}

/// A printer that asks the user for a file instead of printing is known by its
/// name or its driver, in any case.
pub proof fn law_interactive_printers(name: Seq<char>, driver: Seq<char>)
    ensures
        asks_for_file(name, driver) <==> {
            ||| lower_text(name) == "fax"@
            ||| has_infix(lower_text(name), "microsoft print to pdf"@)
            ||| has_infix(lower_text(name), "xps document writer"@)
            ||| has_infix(lower_text(name), "onenote"@)
            ||| has_infix(lower_text(driver), "shared fax"@)
            ||| has_infix(lower_text(driver), "microsoft print to pdf"@)
            ||| has_infix(lower_text(driver), "xps document writer"@)
            ||| has_infix(lower_text(driver), "onenote"@)
        },
{
}

/// A row with a name is the printer of that name, with the status that its
/// flags tell, unless it asks for a file; a row without a name is none.
pub proof fn law_rows_are_printers(rows: Seq<PrinterRowView>, row: PrinterRowView, before: Seq<
    LocalPrinterView,
>)
    requires
        row_printers(rows) == Ok::<Seq<LocalPrinterView>, PrintErrorView>(before),
    ensures
        row.name is None ==> row_printers(rows.push(row)) == row_printers(rows),
        row.name matches Some(name) ==> {
            let driver = match row.driver {
                Some(driver) => driver,
                None => seq![],
            };
            &&& asks_for_file(name, driver) ==> row_printers(rows.push(row)) == row_printers(rows)
            &&& !asks_for_file(name, driver) && valid_id(name) ==> (row_printers(
                rows.push(row),
            ) matches Ok(printers) && {
                let printer = printers.last();
                &&& printers == before.push(printer)
                &&& printer.id == name && printer.display_name == name
                &&& printer.connection_kind == "windows-spooler"@
                &&& printer.is_default == (row.is_default == Some(true))
                &&& row.status matches Some(status) ==> printer.status == flags_status(status)
                &&& row.status is None ==> printer.status == flags_status(u64::MAX)
                &&& printer.capabilities == crate::infrastructure::platform::cups::modest_capabilities(
                    seq!["application/pdf"@],
                )
            })
        },
{
    assert(rows.push(row).drop_last() =~= rows);
    assert(crate::infrastructure::platform::windows_backend::pdf_only() =~= seq![
        "application/pdf"@,
    ]);
}

/// A sheet is A4 or letter if both its sides are within a millimetre of those,
/// however it is turned; any other is called by its sides, the shorter first.
pub proof fn law_sheets_are_named(width: u32, height: u32)
    ensures
        size_name(width, height) == size_name(height, width),
        209_000 <= width <= 211_000 && 296_000 <= height <= 298_000 ==> size_name(width, height)
            == "iso_a4_210x297mm"@,
        214_900 <= width <= 216_900 && 278_400 <= height <= 280_400 ==> size_name(width, height)
            == "na_letter_8.5x11in"@,
        width <= height && !(209_000 <= width <= 211_000 && 296_000 <= height <= 298_000) && !(
        214_900 <= width <= 216_900 && 278_400 <= height <= 280_400) ==> size_name(width, height)
            == "custom_"@ + decimal_text(width as nat) + "x"@ + decimal_text(height as nat)
            + "um"@,
{
}

/// A sheet that the driver gives in tenths of a millimetre has sides of a
/// hundred times as many micrometres, its code, and the name of its size.
pub proof fn law_papers_are_converted(code: i16, width: i32, height: i32)
    requires
        0 < width <= 42_949_672,
        0 < height <= 42_949_672,
    ensures
        paper_of(code, (width, height)).code == code,
        paper_of(code, (width, height)).media.width_microns == width * 100,
        paper_of(code, (width, height)).media.height_microns == height * 100,
        paper_of(code, (width, height)).media.name == size_name(
            (width * 100) as u32,
            (height * 100) as u32,
        ),
{
}

/// Sheets are listed in the order in which the driver gives them; those
/// without a proper size, and those whose name is listed already, are passed
/// over.
pub proof fn law_papers_are_listed(codes: Seq<i16>, sizes: Seq<(i32, i32)>, n: int)
    requires
        0 <= n < codes.len(),
        n < sizes.len(),
    ensures
        ({
            let before = papers_of(codes, sizes, n);
            let after = papers_of(codes, sizes, n + 1);
            let paper = paper_of(codes[n], sizes[n]);
            let known = exists|i: int|
                0 <= i < before.len() && (#[trigger] before[i]).media.name == paper.media.name;
            after == if sizes[n].0 >= 1 && sizes[n].1 >= 1 && !known {
                before.push(paper)
            } else {
                before
            }
        }),
        papers_of(codes, sizes, 0).len() == 0,
{
}

/// Of what a driver gives as many are used as it says and as there are.
pub proof fn law_counts_are_bounded(
    codes: Seq<i16>,
    sizes: Seq<(i32, i32)>,
    code_count: i32,
    size_count: i32,
)
    ensures
        ({
            let n = usable_count(codes, sizes, code_count, size_count);
            &&& 0 <= n <= codes.len() && n <= sizes.len()
            &&& n > 0 ==> n <= code_count && n <= size_count
            &&& code_count >= 0 && size_count >= 0 ==> n == code_count || n == size_count || n
                == codes.len() || n == sizes.len()
        }),
{
}

/// Resolutions are listed in order; those that are not positive are passed
/// over.
pub proof fn law_resolutions_are_listed(pairs: Seq<(i32, i32)>, n: int)
    requires
        0 <= n < pairs.len(),
    ensures
        resolutions_of(pairs, 0).len() == 0,
        resolutions_of(pairs, n + 1) == if pairs[n].0 >= 1 && pairs[n].1 >= 1 {
            resolutions_of(pairs, n).push(
                PrintResolution {
                    horizontal_dpi: pairs[n].0 as u32,
                    vertical_dpi: pairs[n].1 as u32,
                },
            )
        } else {
            resolutions_of(pairs, n)
        },
{
}

/// A sheet is asked for by the code of the first of its name; A4 and letter
/// have codes of their own, and any other name is refused.
pub proof fn law_papers_are_asked_for(
    papers: Seq<PaperSizeView>,
    requested: Seq<char>,
    a4: i16,
    letter: i16,
    i: int,
)
    ensures
        0 <= i < papers.len() && papers[i].media.name == requested && (forall|j: int|
            0 <= j < i ==> (#[trigger] papers[j]).media.name != requested) ==> paper_code(
            papers,
            requested,
            a4,
            letter,
        ) == Ok::<i16, PrintErrorView>(papers[i].code),
        (forall|j: int| 0 <= j < papers.len() ==> (#[trigger] papers[j]).media.name != requested)
            ==> {
            &&& requested == "iso_a4_210x297mm"@ ==> paper_code(papers, requested, a4, letter)
                == Ok::<i16, PrintErrorView>(a4)
            &&& requested == "na_letter_8.5x11in"@ ==> paper_code(papers, requested, a4, letter)
                == Ok::<i16, PrintErrorView>(letter)
            &&& requested != "iso_a4_210x297mm"@ && requested != "na_letter_8.5x11in"@
                ==> paper_code(papers, requested, a4, letter) is Err
        },
{
    reveal_strlit("iso_a4_210x297mm");
    reveal_strlit("na_letter_8.5x11in");
    assert("iso_a4_210x297mm"@.len() == 16);
    assert("na_letter_8.5x11in"@.len() == 18);
    lemma_listed_code(papers, requested, i);
}

proof fn lemma_listed_code(papers: Seq<PaperSizeView>, name: Seq<char>, i: int)
    ensures
        0 <= i < papers.len() && papers[i].media.name == name && (forall|j: int|
            0 <= j < i ==> (#[trigger] papers[j]).media.name != name) ==> listed_code(papers, name)
            == Some(papers[i].code),
        (forall|j: int| 0 <= j < papers.len() ==> (#[trigger] papers[j]).media.name != name)
            ==> listed_code(papers, name) is None,
    decreases papers.len(),
{
    if papers.len() > 0 {
        let rest = papers.drop_first();
        lemma_listed_code(rest, name, i - 1);
        if forall|j: int| 0 <= j < papers.len() ==> (#[trigger] papers[j]).media.name != name {
            assert(papers[0].media.name != name);
            assert forall|j: int| 0 <= j < rest.len() implies (#[trigger] rest[j]).media.name
                != name by {
                assert(rest[j] == papers[j + 1]);
            }
        } else if 0 < i < papers.len() && forall|j: int|
            0 <= j < i ==> (#[trigger] papers[j]).media.name != name {
            assert(papers[0].media.name != name);
            assert(rest[i - 1] == papers[i]);
            assert forall|j: int| 0 <= j < i - 1 implies (#[trigger] rest[j]).media.name != name by {
                assert(rest[j] == papers[j + 1]);
            }
        }
    }
}

/// A printer that was asked offers what it said: color and two sides exactly
/// if it has them, its sheets and its resolutions, if it gave any.
pub proof fn law_probed_printers_offer_what_they_said(
    color: bool,
    duplex: bool,
    papers: Seq<PaperSizeView>,
    resolutions: Seq<PrintResolution>,
    i: int,
)
    ensures
        ({
            let c = probed(color, duplex, papers, resolutions);
            &&& c.color_modes.contains(ColorMode::Color) <==> color
            &&& c.color_modes.contains(ColorMode::Monochrome)
            &&& c.duplex_modes.contains(DuplexMode::TwoSidedLongEdge) <==> duplex
            &&& c.duplex_modes.contains(DuplexMode::TwoSidedShortEdge) <==> duplex
            &&& c.duplex_modes.contains(DuplexMode::OneSided)
            &&& papers.len() > 0 ==> c.media_sizes.len() == papers.len()
            &&& 0 <= i < papers.len() ==> c.media_sizes[i] == papers[i].media
            &&& papers.len() == 0 ==> c.media_sizes.len() == 2 && c.media_sizes[0].name
                == "iso_a4_210x297mm"@ && c.media_sizes[1].name == "na_letter_8.5x11in"@
            &&& resolutions.len() > 0 ==> c.resolutions == resolutions
            &&& resolutions.len() == 0 ==> c.resolutions == seq![
                PrintResolution { horizontal_dpi: 300, vertical_dpi: 300 },
            ]
            &&& c.max_copies == 100 && c.supports_page_ranges && c.supports_collation
            &&& c.accepted_document_types == seq!["application/pdf"@]
        }),
{
    let c = probed(color, duplex, papers, resolutions);
    assert(c.color_modes[0] == ColorMode::Monochrome);
    assert(c.duplex_modes[0] == DuplexMode::OneSided);
    if color {
        assert(c.color_modes[1] == ColorMode::Color);
    }
    if duplex {
        assert(c.duplex_modes[1] == DuplexMode::TwoSidedLongEdge);
        assert(c.duplex_modes[2] == DuplexMode::TwoSidedShortEdge);
    }
}

/// Digits of either case stand for their values, and two of them for a byte;
/// a plus sign in front of a digit counts for nothing.
pub proof fn law_bytes_are_read(high: u8, low: u8)
    ensures
        0x30 <= low <= 0x39 ==> hex_value(low) == Some((low - 0x30) as u8),
        0x61 <= low <= 0x66 ==> hex_value(low) == Some((low - 0x61 + 10) as u8),
        0x41 <= low <= 0x46 ==> hex_value(low) == Some((low - 0x41 + 10) as u8),
        !(0x30 <= low <= 0x39) && !(0x61 <= low <= 0x66) && !(0x41 <= low <= 0x46) ==> hex_value(
            low,
        ) is None,
        hex_value(high) is Some && hex_value(low) is Some ==> pair_value(high, low) == Some(
            (16 * hex_value(high)->Some_0 + hex_value(low)->Some_0) as u8,
        ),
        pair_value(0x2b, low) == hex_value(low),
        hex_value(high) is None && high != 0x2b || hex_value(low) is None ==> pair_value(
            high,
            low,
        ) is None,
{
}

/// What does not begin as the spooler's names do names no job.
pub proof fn law_other_schemes_are_refused(scheme: Seq<char>, version: Seq<char>, rest: Seq<char>)
    requires
        forall|i: int| 0 <= i < scheme.len() ==> scheme[i] != ':',
        forall|i: int| 0 <= i < version.len() ==> version[i] != ':',
        scheme != "winspool"@ || version != "v1"@,
    ensures
        decoded_job(scheme + seq![':'] + version + seq![':'] + rest) matches Err(error) && error
            is Invalid,
{
    let tail = version + seq![':'] + rest;
    let id = scheme + seq![':'] + version + seq![':'] + rest;
    lemma_index_is(id, ':', scheme.len() as int);
    lemma_index_is(tail, ':', version.len() as int);
    assert(id.take(scheme.len() as int) =~= scheme);
    assert(id.skip(scheme.len() as int + 1) =~= tail);
    assert(tail.take(version.len() as int) =~= version);
}

/// Text is written as UTF-16, character after character: those of the basic
/// plane as they are, others as two halves.
pub proof fn law_wide_text(s: Seq<char>, c: char)
    ensures
        utf16_text(Seq::<char>::empty()).len() == 0,
        utf16_text(s.push(c)) == utf16_text(s) + utf16_units(c),
        (c as u32) < 0x1_0000 ==> utf16_units(c) == seq![c as u16],
        c as u32 >= 0x1_0000 ==> {
            let units = utf16_units(c);
            &&& units.len() == 2
            &&& 0xd800 <= units[0] < 0xdc00
            &&& 0xdc00 <= units[1] < 0xe000
            &&& (units[0] - 0xd800) * 0x400 + (units[1] - 0xdc00) + 0x1_0000 == c as u32
        },
{
    assert(s.push(c).drop_last() =~= s);
}

/// A path loses the prefix that switches off its interpretation; a share of
/// the network keeps its two backslashes.
pub proof fn law_paths(rest: Seq<char>)
    requires
        !(rest.len() >= 4 && rest[0] == 'U' && rest[1] == 'N' && rest[2] == 'C' && rest[3] == '\\'),
    ensures
        runtime_path("\\\\?\\UNC\\"@ + rest) == "\\\\"@ + rest,
        runtime_path("\\\\?\\"@ + rest) == rest,
{
    reveal_strlit("\\\\?\\UNC\\");
    reveal_strlit("\\\\?\\");
    let long = "\\\\?\\UNC\\"@;
    let short = "\\\\?\\"@;
    assert((long + rest).subrange(0, 8) =~= long);
    assert((long + rest).skip(8) =~= rest);
    let s = short + rest;
    assert(s.subrange(0, 4) =~= short);
    assert(s.skip(4) =~= rest);
    if crate::text::has_prefix(s, long) {
        assert(s.subrange(0, 8)[4] == 'U');
        assert(s.subrange(0, 8)[5] == 'N');
        assert(s.subrange(0, 8)[6] == 'C');
        assert(s.subrange(0, 8)[7] == '\\');
        assert(s[4] == rest[0] && s[5] == rest[1] && s[6] == rest[2] && s[7] == rest[3]);
    }
}

/// A page is rendered if it takes no more than 64 MiB; one that is larger is
/// made smaller on its longer side only.
pub proof fn law_render_budget(width: u32, height: u32)
    requires
        width > 0,
        height > 0,
    ensures
        fits_budget(width, height) <==> width * height * 4 <= 67_108_864,
        fits_budget(width, height) ==> cut_to_budget(width, height) == (width, height),
        !fits_budget(width, height) && width > height ==> cut_to_budget(width, height).1 == height,
        !fits_budget(width, height) && width <= height ==> cut_to_budget(width, height).0 == width,
        ({
            let (w, h) = cut_to_budget(width, height);
            &&& width <= 16_777_216 || height <= 16_777_216 ==> w * h * 4 <= 67_108_864
            &&& width > height && w < width && height <= 16_777_216 ==> (w + 1) * h * 4
                > 67_108_864
            &&& width <= height && h < height && width <= 16_777_216 ==> w * (h + 1) * 4
                > 67_108_864
        }),
{
    let side: int = if width > height {
        height as int
    } else {
        width as int
    };
    let most: int = 16_777_216int / side;
    assert(most * side <= 16_777_216 < (most + 1) * side && 0 <= most <= 16_777_216)
        by (nonlinear_arith)
        requires
            side > 0,
            most == 16_777_216int / side,
    ;
    assert(side * most == most * side) by (nonlinear_arith);
    assert(side * (most + 1) == (most + 1) * side) by (nonlinear_arith);
}

/// A page is put in the middle: what is left of the paper is the same on both
/// sides, up to one.
pub proof fn law_pages_are_centered(printable: int, target: int)
    requires
        0 <= printable,
        0 <= target,
    ensures
        printable >= target ==> 0 <= printable - target - 2 * margin(printable, target) <= 1,
        printable < target ==> margin(printable, target) == 0,
{
}

/// A sheet can be printed on if its sides are positive and it can be rendered.
pub proof fn law_printable_area(width: i32, height: i32)
    ensures
        area_check(width, height) is Ok <==> width > 0 && height > 0 && width * height * 4
            <= 67_108_864,
{
}

/// The image of a page is used if there is one of at most 32 MiB and all of it
/// was read.
pub proof fn law_page_images(size: u64, loaded: u32)
    ensures
        encoded_size_check(size) is Ok <==> 0 < size <= 33_554_432,
        loaded_check(loaded, size) is Ok <==> loaded == size,
{
}

/// A pixel is put over white and turned round: blue and red change places,
/// each channel is mixed with white by its alpha, and the result is opaque.
pub proof fn law_pixels_are_composited(pixels: Seq<u8>, k: int)
    requires
        pixels.len() % 4 == 0,
        0 <= k,
        4 * k + 3 < pixels.len(),
    ensures
        ({
            let out = opaque_bgra(pixels);
            let alpha = pixels[4 * k + 3] as int;
            &&& out.len() == pixels.len()
            &&& out[4 * k] == (pixels[4 * k + 2] * alpha + 255 * (255 - alpha)) / 255
            &&& out[4 * k + 1] == (pixels[4 * k + 1] * alpha + 255 * (255 - alpha)) / 255
            &&& out[4 * k + 2] == (pixels[4 * k] * alpha + 255 * (255 - alpha)) / 255
            &&& out[4 * k + 3] == 255
        }),
{
    lemma_mixed(pixels[4 * k], pixels[4 * k + 3]);
    lemma_mixed(pixels[4 * k + 1], pixels[4 * k + 3]);
    lemma_mixed(pixels[4 * k + 2], pixels[4 * k + 3]);
    assert((4 * k) % 4 == 0 && (4 * k + 1) % 4 == 1 && (4 * k + 2) % 4 == 2 && (4 * k + 3) % 4
        == 3);
}

proof fn lemma_mixed(channel: u8, alpha: u8)
    ensures
        over_white(channel, alpha) == (channel * alpha + 255 * (255 - alpha)) / 255,
{
    let sum = channel * alpha + 255 * (255 - alpha);
    assert(0 <= channel * alpha <= 255 * alpha) by (nonlinear_arith)
        requires
            0 <= channel <= 255,
            0 <= alpha,
    ;
    assert(0 <= sum <= 255 * 255);
    assert(0 <= sum / 255 <= 255);
}

/// A document is printed if it has no password and between one and 2000 pages,
/// and if all ranges of pages are in it.
pub proof fn law_documents_can_be_printed(
    protected: bool,
    page_count: u32,
    ranges: Seq<PageRange>,
)
    ensures
        document_check(protected, page_count, ranges) is None <==> !protected && 1 <= page_count
            <= 2_000 && forall|i: int|
            0 <= i < ranges.len() ==> 1 <= (#[trigger] ranges[i]).first <= ranges[i].last
                <= page_count,
{
    lemma_bad_range(ranges, page_count);
}

proof fn lemma_bad_range(ranges: Seq<PageRange>, page_count: u32)
    ensures
        first_bad_range(ranges, page_count) is None <==> forall|i: int|
            0 <= i < ranges.len() ==> 1 <= (#[trigger] ranges[i]).first <= ranges[i].last
                <= page_count,
    decreases ranges.len(),
{
    if ranges.len() > 0 {
        let rest = ranges.drop_first();
        lemma_bad_range(rest, page_count);
        if forall|i: int|
            0 <= i < ranges.len() ==> 1 <= (#[trigger] ranges[i]).first <= ranges[i].last
                <= page_count {
            assert(1 <= ranges[0].first <= ranges[0].last <= page_count);
            assert forall|i: int| 0 <= i < rest.len() implies 1 <= (#[trigger] rest[i]).first
                <= rest[i].last <= page_count by {
                assert(rest[i] == ranges[i + 1]);
            }
        } else if first_bad_range(ranges, page_count) is None {
            assert forall|i: int| 0 <= i < ranges.len() implies 1 <= (#[trigger] ranges[i]).first
                <= ranges[i].last <= page_count by {
                if i > 0 {
                    assert(rest[i - 1] == ranges[i]);
                }
            }
        }
    }
}

/// The pages of a document that are printed: those in one of the ranges, from
/// the first to the last, or all of them; each once and in order.
pub proof fn law_pages_are_selected(
    pages: Seq<u32>,
    page_count: u32,
    ranges: Seq<PageRange>,
    page: u32,
    r: int,
)
    requires
        is_selection(pages, page_count, ranges),
    ensures
        pages.contains(page) ==> page < page_count,
        ranges.len() == 0 && page < page_count ==> pages.contains(page),
        page < page_count && 0 <= r < ranges.len() && ranges[r].first <= page + 1
            <= ranges[r].last ==> pages.contains(page),
        ranges.len() > 0 && pages.contains(page) ==> exists|i: int|
            0 <= i < ranges.len() && (#[trigger] ranges[i]).first <= page + 1 <= ranges[i].last,
        forall|i: int, j: int| 0 <= i < j < pages.len() ==> pages[i] < pages[j],
{
}

/// Copies that are kept together are printed one after the other; otherwise
/// all copies of a page are printed before the next page.
pub proof fn law_copies_are_ordered(pages: Seq<u32>, copies: u32, copy: int, i: int)
    requires
        0 <= copy < copies,
        0 <= i < pages.len(),
    ensures
        printed_order(pages, copies, true)[copy * pages.len() + i] == pages[i],
        printed_order(pages, copies, false)[i * copies + copy] == pages[i],
{
    lemma_through(pages, copies as nat, copy, i);
    lemma_each(pages, copies as nat, copy, i);
}

proof fn lemma_through(pages: Seq<u32>, copies: nat, copy: int, i: int)
    requires
        0 <= copy < copies,
        0 <= i < pages.len(),
    ensures
        copied_through(pages, copies).len() == copies * pages.len(),
        copied_through(pages, copies)[copy * pages.len() + i] == pages[i],
    decreases copies,
{
    let fewer = (copies - 1) as nat;
    let m = pages.len() as int;
    if fewer == 0 {
        assert(copied_through(pages, 0).len() == 0);
        assert(copied_through(pages, copies) =~= pages);
        assert(copy == 0);
        assert(copies * m == m) by (nonlinear_arith)
            requires
                copies == 1,
        ;
    } else {
        lemma_through(pages, fewer, if copy < fewer { copy } else { 0 }, i);
        assert(copied_through(pages, fewer).len() == fewer * m);
        assert(fewer * m + m == copies * m) by (nonlinear_arith)
            requires
                fewer + 1 == copies,
        ;
        if copy < fewer {
            assert(copy * m + i < fewer * m) by (nonlinear_arith)
                requires
                    copy + 1 <= fewer,
                    0 <= i < m,
            ;
            assert(0 <= copy * m) by (nonlinear_arith)
                requires
                    0 <= copy,
                    0 <= m,
            ;
        } else {
            assert(copy == fewer);
        }
    }
}

proof fn lemma_each(pages: Seq<u32>, copies: nat, copy: int, i: int)
    requires
        0 <= copy < copies,
        0 <= i < pages.len(),
    ensures
        copied_each(pages, copies).len() == pages.len() * copies,
        copied_each(pages, copies)[i * copies + copy] == pages[i],
    decreases pages.len(),
{
    let most = pages.drop_last();
    let n = most.len() as int;
    let c = copies as int;
    if n == 0 {
        assert(copied_each(most, copies).len() == 0);
        assert(i == 0);
        assert(i * c == 0);
        assert(pages.len() * copies == copies) by (nonlinear_arith)
            requires
                pages.len() == 1,
        ;
    } else {
        lemma_each(most, copies, copy, if i < n { i } else { 0 });
        assert(copied_each(most, copies).len() == n * c);
        assert(n * c + c == (n + 1) * c) by (nonlinear_arith);
        if i < n {
            assert(most[i] == pages[i]);
            assert(i * c + copy < n * c) by (nonlinear_arith)
                requires
                    i + 1 <= n,
                    0 <= copy < c,
            ;
            assert(0 <= i * c) by (nonlinear_arith)
                requires
                    0 <= i,
                    0 <= c,
            ;
        } else {
            assert(i == n);
        }
    }
}

/// A document that is printed on both sides, or collated, is printed copy by
/// copy; any other page by page.
pub proof fn law_sides_keep_copies_together(
    order: Seq<u32>,
    page_count: u32,
    options: PrintOptionsView,
)
    requires
        is_plan(order, page_count, options),
    ensures
        exists|pages: Seq<u32>|
            #![trigger is_selection(pages, page_count, options.page_ranges)]
            is_selection(pages, page_count, options.page_ranges) && order == if options.collate
                || options.duplex_mode == DuplexMode::TwoSidedLongEdge || options.duplex_mode
                == DuplexMode::TwoSidedShortEdge {
                printed_order(pages, options.copies, true)
            } else {
                printed_order(pages, options.copies, false)
            },
{
}

} // verus!
