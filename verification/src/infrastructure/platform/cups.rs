//! Printing through the command line tools of CUPS.
use vstd::prelude::*;
use vstd::string::*;

use crate::application::ports::{NativeJobStatus, SystemQueueSpec};
use crate::domain::capability::{
    ColorMode, DuplexMode, MediaSize, MediaSizeView, Orientation, PrintResolution,
    PrinterCapabilities, PrinterCapabilitiesView,
};
use crate::domain::id::{parsed_id, LocalPrinterId, NativeJobId};
use crate::domain::job::{PageRange, PrintOptions, PrintOptionsView};
use crate::domain::printer::{LocalPrinter, LocalPrinterView, PrinterStatus};
use crate::error::{listed, outcome, PrintError, PrintErrorView, PrintResult};
use crate::model::{opt, views};
use crate::parts::{
    all_digits, cut_at, first_word, is_digit, last_index_of, lemma_last_index_of, lines, lines_of,
    replace_char, replaced_char, rsplit_once, split_once, word,
};
use crate::text::{
    chars_of, decimal, decimal_text, find_from, has_prefix, occurs_at, same, starts_with,
    text_between, trim_text, trimmed,
};

verus! {

/// The sheets that every printer is taken to feed.
pub open spec fn common_sizes() -> Seq<MediaSizeView> {
    seq![
        MediaSizeView { name: "iso_a4_210x297mm"@, width_microns: 210_000, height_microns: 297_000 },
        MediaSizeView {
            name: "na_letter_8.5x11in"@,
            width_microns: 215_900,
            height_microns: 279_400,
        },
    ]
}

/// The sheets that every printer is taken to feed.
pub fn common_media() -> (r: Vec<MediaSize>)
    ensures
        views(r@) == common_sizes(),
{
    let mut out: Vec<MediaSize> = Vec::new();
    out.push(
        MediaSize {
            name: "iso_a4_210x297mm".to_string(),
            width_microns: 210_000,
            height_microns: 297_000,
        },
    );
    out.push(
        MediaSize {
            name: "na_letter_8.5x11in".to_string(),
            width_microns: 215_900,
            height_microns: 279_400,
        },
    );
    assert(views(out@) =~= common_sizes());
    out
}

/// What every queue is taken to offer, with these kinds of documents.
pub open spec fn modest_capabilities(documents: Seq<Seq<char>>) -> PrinterCapabilitiesView {
    PrinterCapabilitiesView {
        media_sizes: common_sizes(),
        color_modes: seq![ColorMode::Monochrome],
        duplex_modes: seq![DuplexMode::OneSided],
        resolutions: seq![PrintResolution { horizontal_dpi: 300, vertical_dpi: 300 }],
        max_copies: 100,
        supports_page_ranges: true,
        supports_collation: true,
        accepted_document_types: documents,
    }
}

/// What every queue is taken to offer, with these kinds of documents.
pub fn modest(documents: Vec<String>) -> (r: PrinterCapabilities)
    ensures
        r@ == modest_capabilities(views(documents@)),
{
    let mut color_modes: Vec<ColorMode> = Vec::new();
    color_modes.push(ColorMode::Monochrome);
    let mut duplex_modes: Vec<DuplexMode> = Vec::new();
    duplex_modes.push(DuplexMode::OneSided);
    let mut resolutions: Vec<PrintResolution> = Vec::new();
    resolutions.push(PrintResolution { horizontal_dpi: 300, vertical_dpi: 300 });
    let r = PrinterCapabilities {
        media_sizes: common_media(),
        color_modes,
        duplex_modes,
        resolutions,
        max_copies: 100,
        supports_page_ranges: true,
        supports_collation: true,
        accepted_document_types: documents,
    };
    assert(r@.color_modes =~= seq![ColorMode::Monochrome]);
    assert(r@.duplex_modes =~= seq![DuplexMode::OneSided]);
    assert(r@.resolutions =~= seq![PrintResolution { horizontal_dpi: 300, vertical_dpi: 300 }]);
    r
}

/// The kinds of documents that CUPS takes.
pub open spec fn cups_documents() -> Seq<Seq<char>> {
    seq!["application/pdf"@, "image/pwg-raster"@]
}

/// What every CUPS queue is taken to offer.
pub fn baseline_capabilities() -> (r: PrinterCapabilities)
    ensures
        r@ == modest_capabilities(cups_documents()),
{
    let mut documents: Vec<String> = Vec::new();
    documents.push("application/pdf".to_string());
    documents.push("image/pwg-raster".to_string());
    assert(views(documents@) =~= cups_documents());
    modest(documents)
}

/// Whether a queue is among those that accept jobs: each line begins with the
/// name of one.
pub open spec fn accepts_jobs(accepting: Seq<Seq<char>>, name: Seq<char>) -> bool {
    exists|i: int| 0 <= i < accepting.len() && first_word(#[trigger] accepting[i]) == Some(name)
}

/// The name of the default queue: what follows the first colon.
pub open spec fn default_queue(output: Seq<char>) -> Option<Seq<char>> {
    match cut_at(output, ':') {
        Some((_, destination)) => Some(trim_text(destination)),
        None => None,
    }
}

/// The queue of this name.
pub open spec fn cups_printer(
    name: Seq<char>,
    accepting: Seq<Seq<char>>,
    default: Option<Seq<char>>,
) -> LocalPrinterView {
    LocalPrinterView {
        id: name,
        display_name: replaced_char(name, '_', " "@),
        status: if accepts_jobs(accepting, name) {
            PrinterStatus::Ready
        } else {
            PrinterStatus::Offline
        },
        connection_kind: "system"@,
        is_default: default == Some(name),
        capabilities: modest_capabilities(cups_documents()),
    }
}

/// The queues on lines of their own, up to the first whose name is too long.
pub open spec fn cups_printers(
    destinations: Seq<Seq<char>>,
    accepting: Seq<Seq<char>>,
    default: Option<Seq<char>>,
) -> core::result::Result<Seq<LocalPrinterView>, PrintErrorView>
    decreases destinations.len(),
{
    if destinations.len() == 0 {
        Ok(seq![])
    } else {
        match cups_printers(destinations.drop_last(), accepting, default) {
            Err(error) => Err(error),
            Ok(before) => {
                let name = trim_text(destinations.last());
                if name.len() == 0 {
                    Ok(before)
                } else {
                    match parsed_id("local printer id"@, name) {
                        Err(error) => Err(error),
                        Ok(_) => Ok(before.push(cups_printer(name, accepting, default))),
                    }
                }
            },
        }
    }
}

fn accepts(accepting: &Vec<String>, name: &str) -> (r: bool)
    ensures
        r == accepts_jobs(views(accepting@), name@),
{
    let mut i: usize = 0;
    while i < accepting.len()
        invariant
            i <= accepting@.len(),
            forall|j: int|
                0 <= j < i ==> first_word(#[trigger] views(accepting@)[j]) != Some(name@),
        decreases accepting@.len() - i,
    {
        assert(views(accepting@)[i as int] == accepting@[i as int]@);
        match word(accepting[i].as_str()) {
            Some(first) => {
                if same(first.as_str(), name) {
                    return true;
                }
            },
            None => {},
        }
        i += 1;
    }
    false
}

proof fn lemma_listing_fails_early(
    destinations: Seq<Seq<char>>,
    accepting: Seq<Seq<char>>,
    default: Option<Seq<char>>,
    n: int,
)
    requires
        0 <= n <= destinations.len(),
        cups_printers(destinations.take(n), accepting, default) is Err,
    ensures
        cups_printers(destinations, accepting, default) == cups_printers(
            destinations.take(n),
            accepting,
            default,
        ),
    decreases destinations.len() - n,
{
    if n == destinations.len() {
        assert(destinations.take(n) =~= destinations);
    } else {
        assert(destinations.take(n + 1).drop_last() =~= destinations.take(n));
        lemma_listing_fails_early(destinations, accepting, default, n + 1);
    }
}

/// The printers of CUPS, from what its tools print: all queues, those that
/// accept jobs, and the default. The prose around the names depends on the
/// language; the names do not.
pub fn parse_printers(destinations: &str, accepting: &str, default_output: &str) -> (r: PrintResult<
    Vec<LocalPrinter>,
>)
    ensures
        listed(r) == cups_printers(
            lines_of(destinations@),
            lines_of(accepting@),
            default_queue(default_output@),
        ),
{
    let names = lines(destinations);
    let ready_lines = lines(accepting);
    let default = match split_once(default_output, ':') {
        Some((_, destination)) => Some(trimmed(destination.as_str())),
        None => None,
    };
    let ghost all = views(names@);
    let ghost ready = views(ready_lines@);
    let ghost first = default_queue(default_output@);
    let mut out: Vec<LocalPrinter> = Vec::new();
    let mut i: usize = 0;
    assert(all.take(0) =~= seq![]);
    assert(views(out@) =~= seq![]);
    while i < names.len()
        invariant
            i <= names@.len(),
            all == views(names@),
            all == lines_of(destinations@),
            ready == views(ready_lines@),
            ready == lines_of(accepting@),
            first == default_queue(default_output@),
            opt(default) == first,
            cups_printers(all.take(i as int), ready, first) == Ok::<
                Seq<LocalPrinterView>,
                PrintErrorView,
            >(views(out@)),
        decreases names@.len() - i,
    {
        let name = trimmed(names[i].as_str());
        proof {
            assert(all.take(i + 1).drop_last() =~= all.take(i as int));
            assert(all.take(i + 1).last() == names@[i as int]@);
        }
        if chars_of(name.as_str()).len() > 0 {
            match LocalPrinterId::parse(name.as_str()) {
                Ok(id) => {
                    let printer = LocalPrinter {
                        id,
                        display_name: replace_char(name.as_str(), '_', " "),
                        status: if accepts(&ready_lines, name.as_str()) {
                            PrinterStatus::Ready
                        } else {
                            PrinterStatus::Offline
                        },
                        connection_kind: "system".to_string(),
                        is_default: match &default {
                            Some(default) => same(default.as_str(), name.as_str()),
                            None => false,
                        },
                        capabilities: baseline_capabilities(),
                    };
                    let ghost before = views(out@);
                    let ghost new = printer@;
                    out.push(printer);
                    assert(views(out@) =~= before.push(new));
                },
                Err(error) => {
                    proof {
                        lemma_listing_fails_early(all, ready, first, i + 1);
                    }
                    return Err(error);
                },
            }
        }
        i += 1;
    }
    assert(all.take(i as int) =~= all);
    Ok(out)
}

/// The arguments with which `lpadmin` installs a queue.
pub open spec fn install_words(queue_name: Seq<char>, ipp_uri: Seq<char>) -> Seq<Seq<char>> {
    seq!["-p"@, queue_name, "-E"@, "-v"@, ipp_uri, "-m"@, "everywhere"@]
}

/// The arguments with which `lpadmin` installs a queue.
pub fn install_arguments(spec: &SystemQueueSpec) -> (r: Vec<String>)
    ensures
        views(r@) == install_words(spec@.queue_name, spec@.ipp_uri),
{
    let mut out: Vec<String> = Vec::new();
    out.push("-p".to_string());
    out.push(spec.queue_name.clone());
    out.push("-E".to_string());
    out.push("-v".to_string());
    out.push(spec.ipp_uri.clone());
    out.push("-m".to_string());
    out.push("everywhere".to_string());
    assert(views(out@) =~= install_words(spec@.queue_name, spec@.ipp_uri));
    out
}

/// How CUPS names a way of printing in color.
pub open spec fn color_word(mode: ColorMode) -> Seq<char> {
    match mode {
        ColorMode::Monochrome => "print-color-mode=monochrome"@,
        ColorMode::Color => "print-color-mode=color"@,
    }
}

/// How CUPS names a way of printing on both sides.
pub open spec fn sides_word(mode: DuplexMode) -> Seq<char> {
    match mode {
        DuplexMode::OneSided => "sides=one-sided"@,
        DuplexMode::TwoSidedLongEdge => "sides=two-sided-long-edge"@,
        DuplexMode::TwoSidedShortEdge => "sides=two-sided-short-edge"@,
    }
}

/// How CUPS names an orientation.
pub open spec fn orientation_word(orientation: Orientation) -> Seq<char> {
    match orientation {
        Orientation::Portrait => "orientation-requested=3"@,
        Orientation::Landscape => "orientation-requested=4"@,
    }
}

/// Ranges of pages, separated by commas.
pub open spec fn ranges_word(ranges: Seq<PageRange>) -> Seq<char>
    decreases ranges.len(),
{
    if ranges.len() == 0 {
        seq![]
    } else {
        let last = decimal_text(ranges.last().first as nat) + "-"@ + decimal_text(
            ranges.last().last as nat,
        );
        if ranges.len() == 1 {
            last
        } else {
            ranges_word(ranges.drop_last()) + ","@ + last
        }
    }
}

fn ranges_text(ranges: &Vec<PageRange>) -> (r: String)
    ensures
        r@ == ranges_word(ranges@),
{
    let mut out = String::new();
    let mut i: usize = 0;
    assert(out@ =~= seq![]);
    while i < ranges.len()
        invariant
            i <= ranges@.len(),
            out@ == ranges_word(ranges@.take(i as int)),
        decreases ranges@.len() - i,
    {
        assert(ranges@.take(i + 1).drop_last() =~= ranges@.take(i as int));
        assert(ranges@.take(i + 1).last() == ranges@[i as int]);
        let mut last = decimal(ranges[i].first as u64);
        last.append("-");
        last.append(decimal(ranges[i].last as u64).as_str());
        if i > 0 {
            out.append(",");
            out.append(last.as_str());
        } else {
            out = last;
        }
        i += 1;
    }
    assert(ranges@.take(i as int) =~= ranges@);
    out
}

/// The arguments with which `lp` prints the document at `path`.
pub open spec fn print_words(
    printer: Seq<char>,
    options: PrintOptionsView,
    path: Seq<char>,
) -> Seq<Seq<char>> {
    let always = seq![
        "-d"@,
        printer,
        "-n"@,
        decimal_text(options.copies as nat),
        "-o"@,
        color_word(options.color_mode),
        "-o"@,
        sides_word(options.duplex_mode),
        "-o"@,
        orientation_word(options.orientation),
        "-o"@,
        "media="@ + options.media_name,
    ];
    let ranges = if options.page_ranges.len() == 0 {
        always
    } else {
        always + seq!["-o"@, "page-ranges="@ + ranges_word(options.page_ranges)]
    };
    let collated = if options.collate {
        ranges + seq!["-o"@, "Collate=True"@]
    } else {
        ranges
    };
    collated + seq![path]
}

/// The arguments with which `lp` prints the document at `path`.
pub fn print_arguments(printer: &LocalPrinterId, options: &PrintOptions, path: &str) -> (r: Vec<
    String,
>)
    ensures
        views(r@) == print_words(printer@, options@, path@),
{
    let mut out: Vec<String> = Vec::new();
    out.push("-d".to_string());
    out.push(printer.to_string());
    out.push("-n".to_string());
    out.push(decimal(options.copies as u64));
    out.push("-o".to_string());
    out.push(
        match options.color_mode {
            ColorMode::Monochrome => "print-color-mode=monochrome",
            ColorMode::Color => "print-color-mode=color",
        }.to_string(),
    );
    out.push("-o".to_string());
    out.push(
        match options.duplex_mode {
            DuplexMode::OneSided => "sides=one-sided",
            DuplexMode::TwoSidedLongEdge => "sides=two-sided-long-edge",
            DuplexMode::TwoSidedShortEdge => "sides=two-sided-short-edge",
        }.to_string(),
    );
    out.push("-o".to_string());
    out.push(
        match options.orientation {
            Orientation::Portrait => "orientation-requested=3",
            Orientation::Landscape => "orientation-requested=4",
        }.to_string(),
    );
    out.push("-o".to_string());
    let mut media = "media=".to_string();
    media.append(options.media_name.as_str());
    out.push(media);
    let ghost always = views(out@);
    let ghost ranges = if options@.page_ranges.len() == 0 {
        always
    } else {
        always + seq!["-o"@, "page-ranges="@ + ranges_word(options@.page_ranges)]
    };
    if options.page_ranges.len() > 0 {
        out.push("-o".to_string());
        let mut pages = "page-ranges=".to_string();
        pages.append(ranges_text(&options.page_ranges).as_str());
        out.push(pages);
    }
    assert(views(out@) =~= ranges);
    if options.collate {
        out.push("-o".to_string());
        out.push("Collate=True".to_string());
        assert(views(out@) =~= ranges + seq!["-o"@, "Collate=True"@]);
    }
    let ghost collated = views(out@);
    out.push(path.to_string());
    assert(views(out@) =~= collated + seq![path@]);
    assert(views(out@) =~= print_words(printer@, options@, path@));
    out
}

/// Where `needle` first occurs in `s`, if it does.
pub open spec fn first_occurrence(s: Seq<char>, needle: Seq<char>) -> Option<int> {
    if exists|i: int| occurs_at(s, needle, i) && forall|j: int| 0 <= j < i ==> !occurs_at(
        s,
        needle,
        j,
    ) {
        Some(
            choose|i: int|
                occurs_at(s, needle, i) && forall|j: int|
                    0 <= j < i ==> !occurs_at(s, needle, j),
        )
    } else {
        None
    }
}

/// The digits at the beginning of `s`.
pub open spec fn leading_digits(s: Seq<char>) -> Seq<char>
    decreases s.len(),
{
    if s.len() == 0 || !is_digit(s[0]) {
        seq![]
    } else {
        seq![s[0]] + leading_digits(s.drop_first())
    }
}

/// The name of a job in what `lp` prints: the name of the printer, a hyphen
/// and a number, wherever they first stand.
pub open spec fn job_in_output(printer: Seq<char>, output: Seq<char>) -> Option<Seq<char>> {
    let prefix = printer + "-"@;
    match first_occurrence(output, prefix) {
        None => None,
        Some(start) => {
            let digits = leading_digits(output.skip(start + prefix.len()));
            if digits.len() == 0 {
                None
            } else {
                Some(prefix + digits)
            }
        },
    }
}

proof fn lemma_first_occurrence(s: Seq<char>, needle: Seq<char>, i: int)
    requires
        occurs_at(s, needle, i),
        forall|j: int| 0 <= j < i ==> !occurs_at(s, needle, j),
    ensures
        first_occurrence(s, needle) == Some(i),
{
    let k = choose|k: int|
        occurs_at(s, needle, k) && forall|j: int| 0 <= j < k ==> !occurs_at(s, needle, j);
    if k < i {
        assert(!occurs_at(s, needle, k));
    } else if i < k {
        assert(!occurs_at(s, needle, i));
    }
}

fn digits_from(chars: &Vec<char>, from: usize) -> (r: usize)
    requires
        from <= chars@.len(),
    ensures
        from <= r <= chars@.len(),
        chars@.subrange(from as int, r as int) == leading_digits(chars@.skip(from as int)),
{
    let ghost rest = chars@.skip(from as int);
    let mut to: usize = from;
    assert(chars@.subrange(from as int, from as int) + leading_digits(rest) =~= leading_digits(
        rest,
    ));
    while to < chars.len() && '0' <= chars[to] && chars[to] <= '9'
        invariant
            from <= to <= chars@.len(),
            rest == chars@.skip(from as int),
            chars@.subrange(from as int, to as int) + leading_digits(chars@.skip(to as int))
                == leading_digits(rest),
        decreases chars@.len() - to,
    {
        assert(chars@.skip(to as int)[0] == chars@[to as int]);
        assert(chars@.skip(to as int).drop_first() =~= chars@.skip(to + 1));
        assert(chars@.subrange(from as int, to as int) + (seq![chars@[to as int]] + leading_digits(
            chars@.skip(to + 1),
        )) =~= chars@.subrange(from as int, to + 1) + leading_digits(chars@.skip(to + 1)));
        to += 1;
    }
    assert(leading_digits(chars@.skip(to as int)) =~= seq![]);
    assert(chars@.subrange(from as int, to as int) + Seq::<char>::empty() =~= chars@.subrange(
        from as int,
        to as int,
    ));
    to
}

/// The name of a job in what `lp` prints.
pub fn native_job_id_from_output(printer: &str, output: &str) -> (r: Option<String>)
    ensures
        opt(r) == job_in_output(printer@, output@),
{
    let mut prefix = printer.to_string();
    prefix.append("-");
    let text = chars_of(output);
    let needle = chars_of(prefix.as_str());
    match find_from(&text, &needle, 0) {
        None => {
            assert(first_occurrence(output@, prefix@) is None);
            None
        },
        Some(start) => {
            proof {
                lemma_first_occurrence(output@, prefix@, start as int);
            }
            let total: usize = text.len();
            let from: usize = start + needle.len();
            let to: usize = digits_from(&text, from);
            if from == to {
                assert(text@.subrange(from as int, to as int) =~= seq![]);
                return None;
            }
            let digits = text_between(&text, from, to);
            let mut id = prefix;
            id.append(digits.as_str());
            Some(id)
        },
    }
}

/// The job that was submitted, as `lp` says.
pub open spec fn submitted_job(printer: Seq<char>, output: Seq<char>) -> core::result::Result<
    Seq<char>,
    PrintErrorView,
> {
    match job_in_output(printer, output) {
        Some(id) => parsed_id("native job id"@, id),
        None => Err(PrintErrorView::Backend("could not parse native job id: "@ + output)),
    }
}

/// The job that was submitted, as `lp` says.
pub fn submitted_native_job(printer: &LocalPrinterId, output: &str) -> (r: PrintResult<NativeJobId>)
    ensures
        outcome(r) == submitted_job(printer@, output@),
{
    match native_job_id_from_output(printer.as_str(), output) {
        Some(id) => NativeJobId::parse(id.as_str()),
        None => {
            let mut message = "could not parse native job id: ".to_string();
            message.append(output);
            Err(PrintError::Backend(message))
        },
    }
}

/// The queue of a job: what comes before the last hyphen, if a number comes
/// after it.
pub open spec fn queue_of_job(id: Seq<char>) -> Option<Seq<char>> {
    match last_index_of(id, '-') {
        Some(i) => if i > 0 && i + 1 < id.len() && all_digits(id.skip(i + 1)) {
            Some(id.take(i))
        } else {
            None
        },
        None => None,
    }
}

fn digits_only(chars: &Vec<char>) -> (r: bool)
    ensures
        r == all_digits(chars@),
{
    let mut i: usize = 0;
    while i < chars.len()
        invariant
            i <= chars@.len(),
            forall|j: int| 0 <= j < i ==> is_digit(#[trigger] chars@[j]),
        decreases chars@.len() - i,
    {
        if !('0' <= chars[i] && chars[i] <= '9') {
            assert(!is_digit(chars@[i as int]));
            return false;
        }
        i += 1;
    }
    true
}

/// The queue of a job.
pub fn native_job_destination(id: &str) -> (r: Option<String>)
    ensures
        opt(r) == queue_of_job(id@),
{
    proof {
        lemma_last_index_of(id@, '-');
    }
    match rsplit_once(id, '-') {
        Some((destination, number)) => {
            let digits = chars_of(number.as_str());
            if chars_of(destination.as_str()).len() == 0 || digits.len() == 0 {
                return None;
            }
            if !digits_only(&digits) {
                return None;
            }
            Some(destination)
        },
        None => None,
    }
}

/// Whether a job is on a list of unfinished jobs.
pub open spec fn is_listed(id: Seq<char>, listing: Seq<Seq<char>>) -> bool {
    exists|i: int| 0 <= i < listing.len() && has_prefix(#[trigger] listing[i], id)
}

fn on_list(id: &str, rows: &Vec<String>) -> (r: bool)
    ensures
        r == is_listed(id@, views(rows@)),
{
    let mut i: usize = 0;
    while i < rows.len()
        invariant
            i <= rows@.len(),
            forall|j: int| 0 <= j < i ==> !has_prefix(#[trigger] views(rows@)[j], id@),
        decreases rows@.len() - i,
    {
        assert(views(rows@)[i as int] == rows@[i as int]@);
        if starts_with(rows[i].as_str(), id) {
            return true;
        }
        i += 1;
    }
    false
}

/// How a job fares: on the list of unfinished jobs it waits, without a list
/// nothing is known, and otherwise it is done.
pub open spec fn listed_status(
    id: Seq<char>,
    listing: core::result::Result<Seq<char>, PrintErrorView>,
) -> NativeJobStatus {
    match listing {
        Ok(text) => if is_listed(id, lines_of(text)) {
            NativeJobStatus::Queued
        } else {
            NativeJobStatus::Completed
        },
        Err(_) => NativeJobStatus::Unknown,
    }
}

/// How a job fares: on the list of unfinished jobs it waits, without a list
/// nothing is known, and otherwise it is done.
pub fn status_from_listing(id: &NativeJobId, listing: &PrintResult<String>) -> (r: NativeJobStatus)
    ensures
        r == listed_status(
            id@,
            match *listing {
                Ok(text) => Ok(text@),
                Err(error) => Err(error@),
            },
        ),
{
    match listing {
        Ok(text) => {
            if on_list(id.as_str(), &lines(text.as_str())) {
                NativeJobStatus::Queued
            } else {
                NativeJobStatus::Completed
            }
        },
        Err(_) => NativeJobStatus::Unknown,
    }
}

/// The queue of a job that was submitted is the printer that it was submitted
/// to.
pub proof fn law_job_leads_back_to_printer(printer: Seq<char>, output: Seq<char>)
    requires
        printer.len() > 0,
        job_in_output(printer, output) is Some,
    ensures
        queue_of_job(job_in_output(printer, output)->Some_0) == Some(printer),
{
    reveal_strlit("-");
    let prefix = printer + "-"@;
    let start = first_occurrence(output, prefix)->Some_0;
    let digits = leading_digits(output.skip(start + prefix.len()));
    lemma_leading_digits(output.skip(start + prefix.len()));
    let id = prefix + digits;
    let at = printer.len() as int;
    lemma_last_index_of(id, '-');
    assert(id[at] == '-');
    assert forall|j: int| at < j < id.len() implies id[j] != '-' by {
        assert(id[j] == digits[j - at - 1]);
        assert(is_digit(digits[j - at - 1]));
    }
    assert(id.take(at) =~= printer);
    assert(id.skip(at + 1) =~= digits);
}

proof fn lemma_leading_digits(s: Seq<char>)
    ensures
        all_digits(leading_digits(s)),
    decreases s.len(),
{
    if s.len() > 0 && is_digit(s[0]) {
        lemma_leading_digits(s.drop_first());
        let rest = leading_digits(s.drop_first());
        assert forall|i: int| 0 <= i < leading_digits(s).len() implies is_digit(
            #[trigger] leading_digits(s)[i],
        ) by {
            if i > 0 {
                assert(leading_digits(s)[i] == rest[i - 1]);
            }
        }
    }
}

} // verus!
