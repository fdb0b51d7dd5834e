//! What an IPP request asks for.
use vstd::arithmetic::power::pow;
use vstd::prelude::*;
use vstd::string::*;
use vstd::utf8::*;

use crate::domain::capability::{ColorMode, DuplexMode, Orientation};
use crate::domain::id::{valid_id, ClientJobId};
use crate::domain::job::{valid_range, PageRange, PrintOptions, PrintOptionsView};
use crate::infrastructure::ipp::request::{IppRequest, IppRequestView};
use crate::model::{lemma_filter_kept, lemma_filter_none, lemma_filter_step};
use crate::text::{
    blank, bytes_between, decimal, decimal_text, hex, hex_text, is_blank, is_white_space,
    lemma_decimal_len, lemma_decimal_text, lemma_hex_text, lower_ascii, lower_text, same,
    text_equals,
};

verus! {

/// The name of a medium; the page-size keywords that some print systems send
/// are mapped to the names that printers advertise.
pub open spec fn normalized_media(media: Seq<char>) -> Seq<char> {
    let lower = lower_text(media);
    if lower == "a4"@ {
        "iso_a4_210x297mm"@
    } else if lower == "letter"@ || lower == "usletter"@ {
        "na_letter_8.5x11in"@
    } else {
        media
    }
}

/// The name of a medium; the page-size keywords that some print systems send
/// are mapped to the names that printers advertise.
pub fn normalize_media_name(media: &str) -> (r: String)
    ensures
        r@ == normalized_media(media@),
{
    let lower = lower_ascii(media);
    if same(lower.as_str(), "a4") {
        return "iso_a4_210x297mm".to_string();
    }
    if same(lower.as_str(), "letter") || same(lower.as_str(), "usletter") {
        return "na_letter_8.5x11in".to_string();
    }
    media.to_string()
}

/// A pair of numbers that is a range of pages.
pub open spec fn is_page_range(pair: (i32, i32)) -> bool {
    pair.0 > 0 && pair.1 >= pair.0
}

/// The ranges of pages among pairs of numbers.
pub open spec fn page_ranges_of(pairs: Seq<(i32, i32)>) -> Seq<PageRange> {
    pairs.filter(|pair: (i32, i32)| is_page_range(pair)).map_values(
        |pair: (i32, i32)| PageRange { first: pair.0 as u32, last: pair.1 as u32 },
    )
}

/// The number of copies that is asked for, between 1 and 100.
pub open spec fn copies_of(asked: Option<i32>) -> u32 {
    match asked {
        Some(n) => if n < 1 {
            1
        } else if n > 100 {
            100
        } else {
            n as u32
        },
        None => 1,
    }
}

/// The options that a request asks for.
pub open spec fn requested_options(request: IppRequestView) -> PrintOptionsView {
    PrintOptionsView {
        copies: copies_of(request.integer_of("copies"@)),
        color_mode: if request.text_of("print-color-mode"@) == Some("color"@) {
            ColorMode::Color
        } else {
            ColorMode::Monochrome
        },
        duplex_mode: if request.text_of("sides"@) == Some("two-sided-long-edge"@) {
            DuplexMode::TwoSidedLongEdge
        } else if request.text_of("sides"@) == Some("two-sided-short-edge"@) {
            DuplexMode::TwoSidedShortEdge
        } else {
            DuplexMode::OneSided
        },
        orientation: if request.integer_of("orientation-requested"@) == Some(4i32) {
            Orientation::Landscape
        } else {
            Orientation::Portrait
        },
        media_name: normalized_media(
            match request.text_of("media"@) {
                Some(media) => media,
                None => "iso_a4_210x297mm"@,
            },
        ),
        page_ranges: page_ranges_of(request.ranges_of("page-ranges"@)),
        collate: request.text_of("sheet-collate"@) == Some("collated"@) || request.text_of(
            "multiple-document-handling"@,
        ) == Some("separate-documents-collated-copies"@),
    }
}

fn page_ranges(pairs: &Vec<(i32, i32)>) -> (r: Vec<PageRange>)
    ensures
        r@ == page_ranges_of(pairs@),
{
    let ghost keep = |pair: (i32, i32)| is_page_range(pair);
    let ghost show = |pair: (i32, i32)| PageRange { first: pair.0 as u32, last: pair.1 as u32 };
    let mut out: Vec<PageRange> = Vec::new();
    let mut i: usize = 0;
    proof {
        lemma_filter_none(pairs@, keep);
        assert(out@ =~= pairs@.take(0).filter(keep).map_values(show));
    }
    while i < pairs.len()
        invariant
            i <= pairs@.len(),
            keep == (|pair: (i32, i32)| is_page_range(pair)),
            show == (|pair: (i32, i32)| PageRange {
                first: pair.0 as u32,
                last: pair.1 as u32,
            }),
            out@ == pairs@.take(i as int).filter(keep).map_values(show),
        decreases pairs@.len() - i,
    {
        let (first, last): (i32, i32) = pairs[i];
        proof {
            lemma_filter_step(pairs@, i as int, keep);
        }
        if first > 0 && last >= first {
            out.push(PageRange { first: first as u32, last: last as u32 });
        }
        assert(out@ =~= pairs@.take(i + 1).filter(keep).map_values(show));
        i += 1;
    }
    assert(pairs@.take(i as int) =~= pairs@);
    out
}

/// The options that a request asks for.
pub fn options_from_request(request: &IppRequest) -> (r: PrintOptions)
    ensures
        r@ == requested_options(request@),
{
    let copies: u32 = match request.integer("copies") {
        Some(n) => if n < 1 {
            1
        } else if n > 100 {
            100
        } else {
            n as u32
        },
        None => 1,
    };
    let color_mode = if text_equals(request.text("print-color-mode"), "color") {
        ColorMode::Color
    } else {
        ColorMode::Monochrome
    };
    let duplex_mode = if text_equals(request.text("sides"), "two-sided-long-edge") {
        DuplexMode::TwoSidedLongEdge
    } else if text_equals(request.text("sides"), "two-sided-short-edge") {
        DuplexMode::TwoSidedShortEdge
    } else {
        DuplexMode::OneSided
    };
    let orientation = match request.integer("orientation-requested") {
        Some(4) => Orientation::Landscape,
        _ => Orientation::Portrait,
    };
    let media_name = normalize_media_name(
        match request.text("media") {
            Some(media) => media,
            None => "iso_a4_210x297mm",
        },
    );
    PrintOptions {
        copies,
        color_mode,
        duplex_mode,
        orientation,
        media_name,
        page_ranges: page_ranges(&request.ranges("page-ranges")),
        collate: text_equals(request.text("sheet-collate"), "collated") || text_equals(
            request.text("multiple-document-handling"),
            "separate-documents-collated-copies",
        ),
    }
}

/// The name that a request gives to its document, or one for all that give
/// none.
pub open spec fn requested_name(request: IppRequestView) -> Seq<char> {
    match request.text_of("job-name"@) {
        Some(name) => if is_blank(name) {
            "ArcRelay Print Job"@
        } else {
            name
        },
        None => "ArcRelay Print Job"@,
    }
}

/// The name that a request gives to its document, or one for all that give
/// none.
pub fn document_name(request: &IppRequest) -> (r: String)
    ensures
        r@ == requested_name(request@),
{
    match request.text("job-name") {
        Some(name) => {
            if blank(name) {
                "ArcRelay Print Job".to_string()
            } else {
                name.to_string()
            }
        },
        None => "ArcRelay Print Job".to_string(),
    }
}

/// A name made of the number of a request and the digest of its document.
pub open spec fn derived_job_name(request_id: u32, digest: Seq<u8>) -> Seq<char> {
    "ipp-"@ + decimal_text(request_id as nat) + "-"@ + hex_text(digest.take(8))
}

/// The name under which the job of a request is submitted: its own, if it has
/// a usable one.
pub open spec fn client_job_name(request: IppRequestView, digest: Seq<u8>) -> Seq<char> {
    match request.text_of("job-uuid"@) {
        Some(uuid) => if valid_id(uuid) {
            uuid
        } else {
            derived_job_name(request.request_id, digest)
        },
        None => derived_job_name(request.request_id, digest),
    }
}

proof fn lemma_derived_name_valid(request_id: u32, digest: Seq<u8>)
    requires
        digest.len() == 32,
    ensures
        valid_id(derived_job_name(request_id, digest)),
{
    let number = decimal_text(request_id as nat);
    let tail = hex_text(digest.take(8));
    let s = derived_job_name(request_id, digest);
    lemma_decimal_text(request_id as nat);
    lemma_hex_text(digest.take(8));
    assert(pow(10, 10) == 10_000_000_000) by {
        reveal_with_fuel(pow, 11);
    }
    lemma_decimal_len(request_id as nat, 10);
    reveal_strlit("ipp-");
    reveal_strlit("-");
    assert(s[0] == 'i');
    assert(!is_white_space(s[0]));
    assert forall|i: int| 0 <= i < s.len() implies '\0' <= #[trigger] s[i] <= '\u{7f}' by {
        let a = 4int;
        let b = a + number.len();
        if i < a {
        } else if i < b {
            assert(s[i] == number[i - a]);
        } else if i > b {
            assert(s[i] == tail[i - b - 1]);
        }
    }
    is_ascii_chars_encode_utf8(s);
}

/// The name under which the job of a request is submitted: its own, if it has
/// a usable one.
pub fn ipp_client_job_id(request: &IppRequest, digest: &[u8; 32]) -> (r: ClientJobId)
    ensures
        r@ == client_job_name(request@, digest@),
        valid_id(r@),
{
    match request.text("job-uuid") {
        Some(uuid) => match ClientJobId::parse(uuid) {
            Ok(id) => {
                return id;
            },
            Err(_) => {},
        },
        None => {},
    }
    proof {
        lemma_derived_name_valid(request.request_id, digest@);
    }
    let mut text = "ipp-".to_string();
    text.append(decimal(request.request_id as u64).as_str());
    text.append("-");
    let head = bytes_between(digest, 0, 8);
    assert(head@ =~= digest@.take(8));
    text.append(hex(head.as_slice()).as_str());
    ClientJobId::restore(text)
}

/// The options of every request are valid but for the medium, which may be
/// blank if the request says so.
pub proof fn law_requested_options_are_valid(request: IppRequestView)
    requires
        !is_blank(requested_options(request).media_name),
    ensures
        requested_options(request).validation() is Ok,
{
    let options = requested_options(request);
    let pairs = request.ranges_of("page-ranges"@);
    let keep = |pair: (i32, i32)| is_page_range(pair);
    assert forall|i: int| 0 <= i < options.page_ranges.len() implies valid_range(
        #[trigger] options.page_ranges[i],
    ) by {
        lemma_filter_kept(pairs, keep, i);
    }
}

/// Asking for a medium by its proper name twice is the same as asking once.
pub proof fn law_normalizing_is_idempotent(media: Seq<char>)
    ensures
        normalized_media(normalized_media(media)) == normalized_media(media),
{
    reveal_strlit("a4");
    reveal_strlit("letter");
    reveal_strlit("usletter");
    reveal_strlit("iso_a4_210x297mm");
    reveal_strlit("na_letter_8.5x11in");
    let a = lower_text("iso_a4_210x297mm"@);
    let b = lower_text("na_letter_8.5x11in"@);
    assert(a.len() == 16 && b.len() == 18);
}

} // verus!
