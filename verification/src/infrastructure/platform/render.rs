//! Rendering pages within a memory budget.
use vstd::prelude::*;
use vstd::seq_lib::{group_to_multiset_ensures, lemma_multiset_commutative};
use vstd::string::*;

use crate::domain::capability::DuplexMode;
use crate::domain::job::{PageRange, PrintOptions, PrintOptionsView};
use crate::error::{outcome, PrintError, PrintErrorView, PrintResult};
use crate::text::{decimal, decimal_text};

verus! {

/// How large a rendered page may be, in bytes.
pub const MAX_RENDER_BUFFER_BYTES: u64 = 64 * 1024 * 1024;

/// How many pages a document may have.
pub const MAX_PDF_PAGES: u32 = 2_000;

/// How large the image of a rendered page may be, in bytes.
pub const MAX_ENCODED_PAGE_BYTES: u64 = 32 * 1024 * 1024;

/// How many pixels a rendered page may have.
pub const MAX_RENDER_PIXELS: u64 = 16 * 1024 * 1024;

/// Whether a page of this size, at four bytes a pixel, fits in the budget.
pub open spec fn fits_budget(width: u32, height: u32) -> bool {
    width * height * 4 <= MAX_RENDER_BUFFER_BYTES
}

/// Whether a page of this size, at four bytes a pixel, fits in the budget.
pub fn within_render_memory_budget(width: u32, height: u32) -> (r: bool)
    ensures
        r == fits_budget(width, height),
{
    proof {
        lemma_area(width, height);
    }
    let pixels: u64 = width as u64 * height as u64;
    pixels <= MAX_RENDER_PIXELS
}

proof fn lemma_area(width: u32, height: u32)
    ensures
        0 <= width * height <= 0xffff_ffff * 0xffff_ffff,
{
    assert(0 <= width * height <= 0xffff_ffff * 0xffff_ffff) by (nonlinear_arith)
        requires
            width <= 0xffff_ffff,
            height <= 0xffff_ffff,
    ;
}

/// A size that was scaled to the budget, up to rounding, made to fit: the
/// longer side gives way.
pub open spec fn cut_to_budget(width: u32, height: u32) -> (u32, u32) {
    if fits_budget(width, height) {
        (width, height)
    } else if width > height {
        ((MAX_RENDER_PIXELS / height as u64) as u32, height)
    } else {
        (width, (MAX_RENDER_PIXELS / width as u64) as u32)
    }
}

/// A size that was scaled to the budget, up to rounding, made to fit: the
/// longer side gives way.
pub fn trim_to_budget(width: u32, height: u32) -> (r: (u32, u32))
    requires
        width > 0,
        height > 0,
    ensures
        r == cut_to_budget(width, height),
        fits_budget(r.0, r.1),
        r.0 <= width,
        r.1 <= height,
        width <= MAX_RENDER_PIXELS || height <= MAX_RENDER_PIXELS ==> r.0 > 0 && r.1 > 0,
{
    if within_render_memory_budget(width, height) {
        return (width, height);
    }
    if width > height {
        proof {
            assert(height * width == width * height) by (nonlinear_arith);
            lemma_quotient(height as int, width as int);
        }
        ((MAX_RENDER_PIXELS / height as u64) as u32, height)
    } else {
        proof {
            lemma_quotient(width as int, height as int);
        }
        (width, (MAX_RENDER_PIXELS / width as u64) as u32)
    }
}

proof fn lemma_quotient(short: int, long: int)
    requires
        0 < short <= long,
        short * long * 4 > MAX_RENDER_BUFFER_BYTES,
    ensures
        0 <= MAX_RENDER_PIXELS as int / short <= long,
        (MAX_RENDER_PIXELS as int / short) * short * 4 <= MAX_RENDER_BUFFER_BYTES,
        short * (MAX_RENDER_PIXELS as int / short) * 4 <= MAX_RENDER_BUFFER_BYTES,
        short <= MAX_RENDER_PIXELS ==> MAX_RENDER_PIXELS as int / short > 0,
        (long * short) == (short * long),
{
    let p = MAX_RENDER_PIXELS as int;
    let q = p / short;
    assert(q * short <= p && p < (q + 1) * short && q >= 0) by (nonlinear_arith)
        requires
            short > 0,
            p >= 0,
            q == p / short,
    ;
    assert(q <= long) by (nonlinear_arith)
        requires
            q * short <= p,
            short * long * 4 > p * 4,
            short > 0,
    ;
    assert(short * q == q * short) by (nonlinear_arith);
    assert(long * short == short * long) by (nonlinear_arith);
    if short <= p {
        assert(q > 0) by (nonlinear_arith)
            requires
                p < (q + 1) * short,
                short <= p,
                short > 0,
        ;
    }
}

/// A channel of a pixel over white.
pub open spec fn over_white(channel: u8, alpha: u8) -> u8 {
    ((channel * alpha + 255 * (255 - alpha)) / 255) as u8
}

/// Pixels in red, green, blue and alpha, over white, in the order blue,
/// green, red and an opaque alpha.
pub open spec fn opaque_bgra(pixels: Seq<u8>) -> Seq<u8> {
    Seq::new(
        pixels.len(),
        |i: int|
            {
                let at = i - i % 4;
                if i % 4 == 3 {
                    255
                } else {
                    over_white(pixels[at + 2 - i % 4], pixels[at + 3])
                }
            },
    )
}

fn composite(channel: u8, alpha: u8) -> (r: u8)
    ensures
        r == over_white(channel, alpha),
{
    let c: u32 = channel as u32;
    let a: u32 = alpha as u32;
    assert(0 <= c * a <= 255 * a) by (nonlinear_arith)
        requires
            0 <= c <= 255,
            0 <= a,
    ;
    ((c * a + 255 * (255 - a)) / 255) as u8
}

/// Puts pixels over white and turns them round, in place.
pub fn composite_rgba_to_bgra(pixels: &mut [u8])
    requires
        old(pixels)@.len() % 4 == 0,
    ensures
        final(pixels)@ == opaque_bgra(old(pixels)@),
{
    let ghost before = pixels@;
    let n: usize = pixels.len();
    let mut i: usize = 0;
    while i < n
        invariant
            n == pixels@.len() == before.len(),
            n % 4 == 0,
            i % 4 == 0,
            i <= n,
            forall|j: int| 0 <= j < i ==> pixels@[j] == #[trigger] opaque_bgra(before)[j],
            forall|j: int| i <= j < n ==> pixels@[j] == before[j],
        decreases n - i,
    {
        let red: u8 = pixels[i];
        let green: u8 = pixels[i + 1];
        let blue: u8 = pixels[i + 2];
        let alpha: u8 = pixels[i + 3];
        pixels[i] = composite(blue, alpha);
        pixels[i + 1] = composite(green, alpha);
        pixels[i + 2] = composite(red, alpha);
        pixels[i + 3] = 255;
        assert(opaque_bgra(before)[i as int] == over_white(blue, alpha));
        assert(opaque_bgra(before)[i + 1] == over_white(green, alpha));
        assert(opaque_bgra(before)[i + 2] == over_white(red, alpha));
        assert(opaque_bgra(before)[i + 3] == 255);
        i += 4;
    }
    assert(pixels@ =~= opaque_bgra(before));
}

/// A page that does not cover the paper is printed in its middle: the
/// distance from the edge.
pub open spec fn margin(printable: int, target: int) -> int {
    if printable > target {
        (printable - target) / 2
    } else {
        0
    }
}

/// A page that does not cover the paper is printed in its middle: the
/// distance from the edge.
pub fn centered(printable: i32, target: i32) -> (r: i32)
    requires
        0 <= printable,
        0 <= target,
    ensures
        r == margin(printable as int, target as int),
{
    if printable > target {
        (printable - target) / 2
    } else {
        0
    }
}

/// What is wrong with the printable area of a sheet, if anything.
pub open spec fn area_check(width: i32, height: i32) -> core::result::Result<(), PrintErrorView> {
    if width <= 0 || height <= 0 {
        Err(PrintErrorView::Backend("printer reported an invalid printable area"@))
    } else if !fits_budget(width as u32, height as u32) {
        Err(
            PrintErrorView::Backend(
                "printer render area is too large: "@ + decimal_text(width as nat) + "x"@
                    + decimal_text(height as nat),
            ),
        )
    } else {
        Ok(())
    }
}

/// Checks the printable area of a sheet.
pub fn check_printable_area(width: i32, height: i32) -> (r: PrintResult<()>)
    ensures
        outcome(r) == area_check(width, height),
{
    if width <= 0 || height <= 0 {
        return Err(PrintError::Backend("printer reported an invalid printable area".to_string()));
    }
    if !within_render_memory_budget(width as u32, height as u32) {
        let mut message = "printer render area is too large: ".to_string();
        message.append(decimal(width as u64).as_str());
        message.append("x");
        message.append(decimal(height as u64).as_str());
        return Err(PrintError::Backend(message));
    }
    Ok(())
}

/// What can be wrong with a page.
#[derive(Debug, Clone, Copy, PartialEq, Eq, Structural)]
pub enum PageFault {
    Dimensions,
    TooManyPixels,
}

/// What is reported of a page, which is counted from zero here and from one
/// in the message.
pub fn page_error(page_index: u32, fault: PageFault) -> (r: PrintError)
    ensures
        r@ == PrintErrorView::Invalid(
            "PDF page "@ + decimal_text((page_index + 1) as nat) + match fault {
                PageFault::Dimensions => " has invalid dimensions"@,
                PageFault::TooManyPixels => " exceeds the render pixel limit"@,
            },
        ),
{
    let mut message = "PDF page ".to_string();
    message.append(decimal(page_index as u64 + 1).as_str());
    message.append(
        match fault {
            PageFault::Dimensions => " has invalid dimensions",
            PageFault::TooManyPixels => " exceeds the render pixel limit",
        },
    );
    PrintError::Invalid(message)
}

/// What is wrong with the size of the image of a rendered page, if anything.
pub open spec fn encoded_size_check(size: u64) -> core::result::Result<(), PrintErrorView> {
    if size == 0 || size > MAX_ENCODED_PAGE_BYTES {
        Err(PrintErrorView::Invalid("rendered PDF page has an invalid size"@))
    } else {
        Ok(())
    }
}

/// Checks the size of the image of a rendered page.
pub fn check_encoded_size(size: u64) -> (r: PrintResult<()>)
    ensures
        outcome(r) == encoded_size_check(size),
{
    if size == 0 || size > MAX_ENCODED_PAGE_BYTES {
        return Err(PrintError::Invalid("rendered PDF page has an invalid size".to_string()));
    }
    Ok(())
}

/// What is wrong if not all of the image of a rendered page has been read.
pub open spec fn loaded_check(loaded: u32, size: u64) -> core::result::Result<(), PrintErrorView> {
    if loaded as u64 != size {
        Err(PrintErrorView::Backend("Windows PDF renderer returned a truncated page"@))
    } else {
        Ok(())
    }
}

/// Checks that all of the image of a rendered page has been read.
pub fn check_loaded(loaded: u32, size: u64) -> (r: PrintResult<()>)
    ensures
        outcome(r) == loaded_check(loaded, size),
{
    if loaded as u64 != size {
        return Err(
            PrintError::Backend("Windows PDF renderer returned a truncated page".to_string()),
        );
    }
    Ok(())
}

/// A range of pages of a document with `page_count` pages.
pub open spec fn within_document(range: PageRange, page_count: u32) -> bool {
    0 < range.first <= range.last <= page_count
}

/// Whether a page, counted from zero, is in one of the ranges.
pub open spec fn in_ranges(page: u32, ranges: Seq<PageRange>) -> bool {
    exists|i: int|
        0 <= i < ranges.len() && (#[trigger] ranges[i]).first <= page + 1 <= ranges[i].last
}

/// Pages in rising order, each once.
pub open spec fn rising(pages: Seq<u32>) -> bool {
    forall|i: int, j: int| 0 <= i < j < pages.len() ==> pages[i] < pages[j]
}

/// What is reported of a range that is not within the document.
pub open spec fn range_error(range: PageRange) -> PrintErrorView {
    PrintErrorView::Invalid(
        "page range "@ + decimal_text(range.first as nat) + "-"@ + decimal_text(range.last as nat)
            + " is outside the PDF"@,
    )
}

/// The first range that is not within the document, if there is one.
pub open spec fn first_bad_range(ranges: Seq<PageRange>, page_count: u32) -> Option<PageRange>
    decreases ranges.len(),
{
    if ranges.len() == 0 {
        None
    } else if !within_document(ranges[0], page_count) {
        Some(ranges[0])
    } else {
        first_bad_range(ranges.drop_first(), page_count)
    }
}

/// What the selection of pages yields: every page of the document, counted
/// from zero, that is in one of the ranges, or simply every page where there
/// are no ranges.
pub open spec fn is_selection(pages: Seq<u32>, page_count: u32, ranges: Seq<PageRange>) -> bool {
    &&& rising(pages)
    &&& forall|page: u32| #[trigger]
        pages.contains(page) <==> page < page_count && (ranges.len() == 0 || in_ranges(
            page,
            ranges,
        ))
}

fn check_ranges(ranges: &Vec<PageRange>, page_count: u32) -> (r: PrintResult<()>)
    ensures
        match first_bad_range(ranges@, page_count) {
            Some(range) => r matches Err(e) && e@ == range_error(range),
            None => r is Ok,
        },
{
    let mut i: usize = 0;
    assert(ranges@.skip(0) =~= ranges@);
    while i < ranges.len()
        invariant
            i <= ranges@.len(),
            first_bad_range(ranges@, page_count) == first_bad_range(
                ranges@.skip(i as int),
                page_count,
            ),
        decreases ranges@.len() - i,
    {
        let range = ranges[i];
        assert(ranges@.skip(i as int)[0] == range);
        assert(ranges@.skip(i as int).drop_first() =~= ranges@.skip(i + 1));
        if range.first == 0 || range.last > page_count || range.first > range.last {
            let mut message = "page range ".to_string();
            message.append(decimal(range.first as u64).as_str());
            message.append("-");
            message.append(decimal(range.last as u64).as_str());
            message.append(" is outside the PDF");
            return Err(PrintError::Invalid(message));
        }
        i += 1;
    }
    Ok(())
}

fn is_in_ranges(page: u32, ranges: &Vec<PageRange>) -> (r: bool)
    ensures
        r == in_ranges(page, ranges@),
{
    let mut i: usize = 0;
    while i < ranges.len()
        invariant
            i <= ranges@.len(),
            forall|j: int|
                0 <= j < i ==> !((#[trigger] ranges@[j]).first <= page + 1 <= ranges@[j].last),
        decreases ranges@.len() - i,
    {
        let range = ranges[i];
        let number: u64 = page as u64 + 1;
        if range.first as u64 <= number && number <= range.last as u64 {
            assert(ranges@[i as int].first <= page + 1 <= ranges@[i as int].last);
            return true;
        }
        i += 1;
    }
    false
}

/// The pages, counted from zero, that are in one of the ranges, in rising
/// order; all pages where there are no ranges.
pub fn selected_pages(page_count: u32, ranges: &Vec<PageRange>) -> (r: PrintResult<Vec<u32>>)
    ensures
        match first_bad_range(ranges@, page_count) {
            Some(range) => r matches Err(e) && e@ == range_error(range),
            None => r matches Ok(pages) && is_selection(pages@, page_count, ranges@),
        },
{
    match check_ranges(ranges, page_count) {
        Ok(_) => {},
        Err(error) => {
            return Err(error);
        },
    }
    let mut pages: Vec<u32> = Vec::new();
    let mut page: u32 = 0;
    while page < page_count
        invariant
            page <= page_count,
            rising(pages@),
            forall|i: int| 0 <= i < pages@.len() ==> pages@[i] < page,
            forall|p: u32| #[trigger]
                pages@.contains(p) <==> p < page && (ranges@.len() == 0 || in_ranges(p, ranges@)),
        decreases page_count - page,
    {
        let ghost before = pages@;
        if ranges.len() == 0 || is_in_ranges(page, ranges) {
            pages.push(page);
            assert forall|p: u32| #[trigger] pages@.contains(p) <==> p < page + 1 && (ranges@.len()
                == 0 || in_ranges(p, ranges@)) by {
                if before.contains(p) {
                    let i = choose|i: int| 0 <= i < before.len() && before[i] == p;
                    assert(pages@[i] == p);
                }
                if p == page {
                    assert(pages@[before.len() as int] == p);
                }
                if pages@.contains(p) && p != page {
                    let i = choose|i: int| 0 <= i < pages@.len() && pages@[i] == p;
                    assert(before[i] == p);
                }
            }
        }
        page += 1;
    }
    Ok(pages)
}

/// `pages`, `copies` times over.
pub open spec fn copied_through(pages: Seq<u32>, copies: nat) -> Seq<u32>
    decreases copies,
{
    if copies == 0 {
        seq![]
    } else {
        copied_through(pages, (copies - 1) as nat) + pages
    }
}

/// Each of `pages`, `copies` times.
pub open spec fn copied_each(pages: Seq<u32>, copies: nat) -> Seq<u32>
    decreases pages.len(),
{
    if pages.len() == 0 {
        seq![]
    } else {
        copied_each(pages.drop_last(), copies) + Seq::new(copies, |i: int| pages.last())
    }
}

/// The order in which pages are printed.
pub open spec fn printed_order(pages: Seq<u32>, copies: u32, collate: bool) -> Seq<u32> {
    if collate {
        copied_through(pages, copies as nat)
    } else {
        copied_each(pages, copies as nat)
    }
}

/// The order in which pages are printed: copy after copy, or all copies of a
/// page before the next page.
pub fn print_sequence(pages: &[u32], copies: u32, collate: bool) -> (r: Vec<u32>)
    ensures
        r@ == printed_order(pages@, copies, collate),
{
    let mut sequence: Vec<u32> = Vec::new();
    assert(sequence@ =~= seq![]);
    if collate {
        let mut copy: u32 = 0;
        while copy < copies
            invariant
                copy <= copies,
                sequence@ == copied_through(pages@, copy as nat),
            decreases copies - copy,
        {
            let ghost before = sequence@;
            let mut i: usize = 0;
            assert(before + pages@.take(0) =~= before);
            while i < pages.len()
                invariant
                    i <= pages@.len(),
                    sequence@ == before + pages@.take(i as int),
                decreases pages@.len() - i,
            {
                sequence.push(pages[i]);
                assert(sequence@ =~= before + pages@.take(i + 1));
                i += 1;
            }
            assert(pages@.take(i as int) =~= pages@);
            copy += 1;
        }
    } else {
        let mut i: usize = 0;
        while i < pages.len()
            invariant
                i <= pages@.len(),
                sequence@ == copied_each(pages@.take(i as int), copies as nat),
            decreases pages@.len() - i,
        {
            let ghost before = sequence@;
            let page: u32 = pages[i];
            let mut copy: u32 = 0;
            assert(before + Seq::new(0, |k: int| page) =~= before);
            while copy < copies
                invariant
                    copy <= copies,
                    sequence@ == before + Seq::new(copy as nat, |k: int| page),
                decreases copies - copy,
            {
                sequence.push(page);
                assert(sequence@ =~= before + Seq::new((copy + 1) as nat, |k: int| page));
                copy += 1;
            }
            assert(pages@.take(i + 1).drop_last() =~= pages@.take(i as int));
            assert(pages@.take(i + 1).last() == page);
            assert(sequence@ =~= before + Seq::new(
                copies as nat,
                |k: int| pages@.take(i + 1).last(),
            ));
            i += 1;
        }
        assert(pages@.take(i as int) =~= pages@);
    }
    sequence
}

/// Why a document cannot be printed, if it cannot.
pub open spec fn document_check(protected: bool, page_count: u32, ranges: Seq<PageRange>) -> Option<
    PrintErrorView,
> {
    if protected {
        Some(PrintErrorView::Invalid("password-protected PDF documents are not supported"@))
    } else if page_count == 0 || page_count > MAX_PDF_PAGES {
        Some(
            PrintErrorView::Invalid(
                "PDF page count "@ + decimal_text(page_count as nat)
                    + " is outside the supported range"@,
            ),
        )
    } else {
        match first_bad_range(ranges, page_count) {
            Some(range) => Some(range_error(range)),
            None => None,
        }
    }
}

/// Whether `order` is the order in which the pages of a document are printed.
/// Copies that are printed on both sides are always kept together.
pub open spec fn is_plan(order: Seq<u32>, page_count: u32, options: PrintOptionsView) -> bool {
    exists|pages: Seq<u32>|
        #![trigger is_selection(pages, page_count, options.page_ranges)]
        is_selection(pages, page_count, options.page_ranges) && order == printed_order(
            pages,
            options.copies,
            options.collate || options.duplex_mode != DuplexMode::OneSided,
        )
}

/// The pages of a document in the order in which they are printed. Copies
/// that are printed on both sides are always kept together.
pub fn plan_pages(protected: bool, page_count: u32, options: &PrintOptions) -> (r: PrintResult<
    Vec<u32>,
>)
    ensures
        match document_check(protected, page_count, options@.page_ranges) {
            Some(error) => r matches Err(e) && e@ == error,
            None => r matches Ok(order) && is_plan(order@, page_count, options@),
        },
{
    if protected {
        return Err(
            PrintError::Invalid("password-protected PDF documents are not supported".to_string()),
        );
    }
    if page_count == 0 || page_count > MAX_PDF_PAGES {
        let mut message = "PDF page count ".to_string();
        message.append(decimal(page_count as u64).as_str());
        message.append(" is outside the supported range");
        return Err(PrintError::Invalid(message));
    }
    match selected_pages(page_count, &options.page_ranges) {
        Ok(pages) => {
            let together = options.collate || options.duplex_mode != DuplexMode::OneSided;
            let order = print_sequence(pages.as_slice(), options.copies, together);
            assert(is_selection(pages@, page_count, options@.page_ranges));
            Ok(order)
        },
        Err(error) => Err(error),
    }
}

/// The selection of pages is determined: two lists that are right are equal.
pub proof fn law_selection_is_unique(
    a: Seq<u32>,
    b: Seq<u32>,
    page_count: u32,
    ranges: Seq<PageRange>,
)
    requires
        is_selection(a, page_count, ranges),
        is_selection(b, page_count, ranges),
    ensures
        a == b,
    decreases a.len(),
{
    assert forall|p: u32| a.contains(p) <==> b.contains(p) by {}
    lemma_rising_unique(a, b);
}

proof fn lemma_rising_unique(a: Seq<u32>, b: Seq<u32>)
    requires
        rising(a),
        rising(b),
        forall|p: u32| a.contains(p) <==> b.contains(p),
    ensures
        a == b,
    decreases a.len(),
{
    if a.len() == 0 {
        if b.len() > 0 {
            assert(b.contains(b[0]));
            assert(a.contains(b[0]));
        }
        assert(a =~= b);
    } else {
        assert(a.contains(a.last()));
        assert(b.contains(a.last()));
        assert(b.len() > 0);
        assert(b.contains(b.last()));
        assert(a.contains(b.last()));
        let i = choose|i: int| 0 <= i < b.len() && b[i] == a.last();
        let j = choose|j: int| 0 <= j < a.len() && a[j] == b.last();
        if i < b.len() - 1 {
            assert(b[i] < b[b.len() - 1]);
        }
        if j < a.len() - 1 {
            assert(a[j] < a[a.len() - 1]);
        }
        assert(a.last() == b.last());
        let a0 = a.drop_last();
        let b0 = b.drop_last();
        assert forall|p: u32| a0.contains(p) <==> b0.contains(p) by {
            if a0.contains(p) {
                let k = choose|k: int| 0 <= k < a0.len() && a0[k] == p;
                assert(a[k] == p);
                assert(a[k] < a[a.len() - 1]);
                assert(b.contains(p));
                let m = choose|m: int| 0 <= m < b.len() && b[m] == p;
                assert(b0[m] == p);
            }
            if b0.contains(p) {
                let k = choose|k: int| 0 <= k < b0.len() && b0[k] == p;
                assert(b[k] == p);
                assert(b[k] < b[b.len() - 1]);
                assert(a.contains(p));
                let m = choose|m: int| 0 <= m < a.len() && a[m] == p;
                assert(a0[m] == p);
            }
        }
        lemma_rising_unique(a0, b0);
        assert(a =~= a0.push(a.last()));
        assert(b =~= b0.push(b.last()));
    }
}

/// Each page is printed as often as there are copies, whether they are kept
/// together or not.
pub proof fn law_every_copy_is_printed(pages: Seq<u32>, copies: u32, collate: bool)
    ensures
        printed_order(pages, copies, collate).len() == pages.len() * copies,
        printed_order(pages, copies, true).to_multiset() == printed_order(
            pages,
            copies,
            false,
        ).to_multiset(),
{
    lemma_through_len(pages, copies as nat);
    lemma_each_len(pages, copies as nat);
    lemma_same_pages(pages, copies as nat);
}

proof fn lemma_through_len(pages: Seq<u32>, copies: nat)
    ensures
        copied_through(pages, copies).len() == pages.len() * copies,
    decreases copies,
{
    if copies == 0 {
        assert(pages.len() * copies == 0) by (nonlinear_arith)
            requires
                copies == 0,
        ;
    } else {
        lemma_through_len(pages, (copies - 1) as nat);
        assert(pages.len() * (copies - 1) + pages.len() == pages.len() * copies)
            by (nonlinear_arith);
    }
}

proof fn lemma_each_len(pages: Seq<u32>, copies: nat)
    ensures
        copied_each(pages, copies).len() == pages.len() * copies,
    decreases pages.len(),
{
    if pages.len() > 0 {
        lemma_each_len(pages.drop_last(), copies);
        assert((pages.len() - 1) * copies + copies == pages.len() * copies) by (nonlinear_arith);
    }
}

proof fn lemma_each_step(pages: Seq<u32>, copies: nat)
    requires
        copies > 0,
    ensures
        copied_each(pages, copies).to_multiset() =~= copied_each(
            pages,
            (copies - 1) as nat,
        ).to_multiset().add(pages.to_multiset()),
    decreases pages.len(),
{
    broadcast use group_to_multiset_ensures;

    if pages.len() > 0 {
        let less = (copies - 1) as nat;
        let before = pages.drop_last();
        let last = pages.last();
        lemma_each_step(before, copies);
        let many = Seq::new(copies, |i: int| last);
        let fewer = Seq::new(less, |i: int| last);
        assert(Seq::new(copies, |i: int| pages.last()) =~= many);
        assert(Seq::new(less, |i: int| pages.last()) =~= fewer);
        assert(many =~= fewer.push(last));
        lemma_multiset_commutative(copied_each(before, copies), many);
        lemma_multiset_commutative(copied_each(before, less), fewer);
        assert(pages =~= before.push(last));
    } else {
        assert(copied_each(pages, copies) =~= pages);
        assert(copied_each(pages, (copies - 1) as nat) =~= pages);
    }
}

proof fn lemma_none_each(pages: Seq<u32>)
    ensures
        copied_each(pages, 0) == Seq::<u32>::empty(),
    decreases pages.len(),
{
    if pages.len() > 0 {
        lemma_none_each(pages.drop_last());
        assert(copied_each(pages, 0) =~= seq![]);
    }
}

proof fn lemma_same_pages(pages: Seq<u32>, copies: nat)
    ensures
        copied_through(pages, copies).to_multiset() == copied_each(pages, copies).to_multiset(),
    decreases copies,
{
    if copies == 0 {
        lemma_none_each(pages);
    } else {
        let less = (copies - 1) as nat;
        lemma_same_pages(pages, less);
        lemma_each_step(pages, copies);
        lemma_multiset_commutative(copied_through(pages, less), pages);
        assert(copied_through(pages, copies).to_multiset() =~= copied_each(
            pages,
            copies,
        ).to_multiset());
    }
}

/// A white background shows through exactly where a pixel is transparent, and
/// an opaque pixel keeps its color.
pub proof fn law_compositing_over_white(channel: u8)
    ensures
        over_white(channel, 0) == 255,
        over_white(channel, 255) == channel,
{
    assert(channel * 255 / 255 == channel) by (nonlinear_arith);
}

} // verus!
