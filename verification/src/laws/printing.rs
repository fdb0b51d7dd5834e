//! What the print system CUPS is asked to do, and what it says.
use vstd::prelude::*;

use crate::application::ports::NativeJobStatus;
use crate::domain::capability::{ColorMode, DuplexMode, Orientation};
use crate::domain::id::valid_id;
use crate::domain::job::{PageRange, PrintOptionsView};
use crate::domain::printer::{LocalPrinterView, PrinterStatus};
use crate::error::PrintErrorView;
use crate::infrastructure::ipp::options::requested_options;
use crate::infrastructure::ipp::request::IppRequestView;
use crate::infrastructure::platform::cups::{
    cups_documents, cups_printer, cups_printers, default_queue, first_occurrence, install_words,
    is_listed, job_in_output, leading_digits, listed_status, modest_capabilities, print_words,
    queue_of_job, ranges_word, submitted_job,
};
use crate::laws::text::{law_decimal_is_read_back, law_last_of_a_kind};
use crate::parts::{digits_value, lines_of, replaced_char};
use crate::text::{decimal_text, occurs_at, trim_text};

verus! {

/// A document is printed on the printer, as many times, in the color, on the
/// sides, in the orientation and on the sheet that its options say: these are
/// the words of the protocol for them, 3 being portrait and 4 landscape.
pub proof fn law_options_are_passed_on(
    printer: Seq<char>,
    options: PrintOptionsView,
    path: Seq<char>,
)
    ensures
        ({
            let words = print_words(printer, options, path);
            &&& words[0] == "-d"@ && words[1] == printer
            &&& words[2] == "-n"@ && digits_value(words[3]) == options.copies
            &&& words[4] == "-o"@ && words[6] == "-o"@ && words[8] == "-o"@ && words[10] == "-o"@
            &&& words[5] == "print-color-mode="@ + match options.color_mode {
                ColorMode::Monochrome => "monochrome"@,
                ColorMode::Color => "color"@,
            }
            &&& words[7] == "sides="@ + match options.duplex_mode {
                DuplexMode::OneSided => "one-sided"@,
                DuplexMode::TwoSidedLongEdge => "two-sided-long-edge"@,
                DuplexMode::TwoSidedShortEdge => "two-sided-short-edge"@,
            }
            &&& words[9] == "orientation-requested="@ + match options.orientation {
                Orientation::Portrait => seq!['3'],
                Orientation::Landscape => seq!['4'],
            }
            &&& words[11] == "media="@ + options.media_name
            &&& words.last() == path
        }),
{
    law_decimal_is_read_back(options.copies as nat);
    reveal_strlit("print-color-mode=");
    reveal_strlit("monochrome");
    reveal_strlit("color");
    reveal_strlit("print-color-mode=monochrome");
    reveal_strlit("print-color-mode=color");
    assert("print-color-mode=monochrome"@ =~= "print-color-mode="@ + "monochrome"@);
    assert("print-color-mode=color"@ =~= "print-color-mode="@ + "color"@);
    reveal_strlit("sides=");
    reveal_strlit("one-sided");
    reveal_strlit("two-sided-long-edge");
    reveal_strlit("two-sided-short-edge");
    reveal_strlit("sides=one-sided");
    reveal_strlit("sides=two-sided-long-edge");
    reveal_strlit("sides=two-sided-short-edge");
    assert("sides=one-sided"@ =~= "sides="@ + "one-sided"@);
    assert("sides=two-sided-long-edge"@ =~= "sides="@ + "two-sided-long-edge"@);
    assert("sides=two-sided-short-edge"@ =~= "sides="@ + "two-sided-short-edge"@);
    reveal_strlit("orientation-requested=");
    reveal_strlit("orientation-requested=3");
    reveal_strlit("orientation-requested=4");
    assert("orientation-requested=3"@ =~= "orientation-requested="@ + seq!['3']);
    assert("orientation-requested=4"@ =~= "orientation-requested="@ + seq!['4']);
}

/// Pages are chosen and copies are collated exactly if the options say so, and
/// nothing else is asked for.
pub proof fn law_pages_and_collation_are_passed_on(
    printer: Seq<char>,
    options: PrintOptionsView,
    path: Seq<char>,
)
    ensures
        ({
            let words = print_words(printer, options, path);
            let extra = if options.page_ranges.len() > 0 {
                14int
            } else {
                12
            };
            &&& options.page_ranges.len() > 0 ==> words[12] == "-o"@ && words[13]
                == "page-ranges="@ + ranges_word(options.page_ranges)
            &&& options.collate ==> words[extra] == "-o"@ && words[extra + 1] == "Collate=True"@
            &&& words.len() == extra + if options.collate {
                3int
            } else {
                1
            }
        }),
{
}

/// Ranges of pages are written as their first and last pages with a hyphen
/// between them, in order and with commas between them.
pub proof fn law_page_ranges_are_written(ranges: Seq<PageRange>, range: PageRange)
    ensures
        ranges_word(seq![range]) == decimal_text(range.first as nat) + seq!['-'] + decimal_text(
            range.last as nat,
        ),
        ranges.len() > 0 ==> ranges_word(ranges.push(range)) == ranges_word(ranges) + seq![
            ',',
        ] + ranges_word(seq![range]),
{
    reveal_strlit("-");
    reveal_strlit(",");
    assert("-"@ =~= seq!['-']);
    assert(","@ =~= seq![',']);
    assert(ranges.push(range).drop_last() =~= ranges);
    assert(seq![range].last() == range);
}

/// Jobs that differ in color, sides, orientation, sheet or number of copies
/// are printed differently.
pub proof fn law_different_options_are_told_apart(
    printer: Seq<char>,
    a: PrintOptionsView,
    b: PrintOptionsView,
    path: Seq<char>,
)
    requires
        print_words(printer, a, path) == print_words(printer, b, path),
    ensures
        a.copies == b.copies,
        a.color_mode == b.color_mode,
        a.duplex_mode == b.duplex_mode,
        a.orientation == b.orientation,
        a.media_name == b.media_name,
        (a.page_ranges.len() > 0) == (b.page_ranges.len() > 0) ==> a.collate == b.collate,
{
    law_options_are_passed_on(printer, a, path);
    law_options_are_passed_on(printer, b, path);
    law_pages_and_collation_are_passed_on(printer, a, path);
    law_pages_and_collation_are_passed_on(printer, b, path);
    let x = print_words(printer, a, path);
    reveal_strlit("print-color-mode=");
    reveal_strlit("monochrome");
    reveal_strlit("color");
    assert(("print-color-mode="@ + "monochrome"@).len() != ("print-color-mode="@
        + "color"@).len());
    reveal_strlit("sides=");
    reveal_strlit("one-sided");
    reveal_strlit("two-sided-long-edge");
    reveal_strlit("two-sided-short-edge");
    assert(("sides="@ + "one-sided"@).len() == 15);
    assert(("sides="@ + "two-sided-long-edge"@).len() == 25);
    assert(("sides="@ + "two-sided-short-edge"@).len() == 26);
    reveal_strlit("orientation-requested=");
    assert(("orientation-requested="@ + seq!['3'])[22] == '3');
    assert(("orientation-requested="@ + seq!['4'])[22] == '4');
    reveal_strlit("media=");
    assert(("media="@ + a.media_name).skip(6) =~= a.media_name);
    assert(("media="@ + b.media_name).skip(6) =~= b.media_name);
}

/// What is asked of CUPS for a job is what a request of the protocol with the
/// same words asks for: color, sides and orientation come back.
pub proof fn law_options_mean_the_same_everywhere(
    printer: Seq<char>,
    options: PrintOptionsView,
    path: Seq<char>,
    request: IppRequestView,
)
    requires
        ({
            let words = print_words(printer, options, path);
            &&& request.text_of("print-color-mode"@) matches Some(color) && words[5]
                == "print-color-mode="@ + color
            &&& request.text_of("sides"@) matches Some(sides) && words[7] == "sides="@ + sides
            &&& request.integer_of("orientation-requested"@) matches Some(n) && 0 <= n && words[9]
                == "orientation-requested="@ + decimal_text(n as nat)
        }),
    ensures
        requested_options(request).color_mode == options.color_mode,
        requested_options(request).duplex_mode == options.duplex_mode,
        requested_options(request).orientation == options.orientation,
{
    law_options_are_passed_on(printer, options, path);
    let words = print_words(printer, options, path);
    let color = request.text_of("print-color-mode"@)->Some_0;
    let sides = request.text_of("sides"@)->Some_0;
    let n = request.integer_of("orientation-requested"@)->Some_0;
    reveal_strlit("print-color-mode=");
    assert(words[5].skip(17) =~= color);
    assert(("print-color-mode="@ + "monochrome"@).skip(17) =~= "monochrome"@);
    assert(("print-color-mode="@ + "color"@).skip(17) =~= "color"@);
    reveal_strlit("monochrome");
    reveal_strlit("color");
    reveal_strlit("sides=");
    assert(words[7].skip(6) =~= sides);
    assert(("sides="@ + "one-sided"@).skip(6) =~= "one-sided"@);
    assert(("sides="@ + "two-sided-long-edge"@).skip(6) =~= "two-sided-long-edge"@);
    assert(("sides="@ + "two-sided-short-edge"@).skip(6) =~= "two-sided-short-edge"@);
    reveal_strlit("one-sided");
    reveal_strlit("two-sided-long-edge");
    reveal_strlit("two-sided-short-edge");
    reveal_strlit("orientation-requested=");
    assert(words[9].skip(22) =~= decimal_text(n as nat));
    assert(("orientation-requested="@ + seq!['3']).skip(22) =~= seq!['3']);
    assert(("orientation-requested="@ + seq!['4']).skip(22) =~= seq!['4']);
    law_decimal_is_read_back(n as nat);
    law_decimal_is_read_back(3);
    law_decimal_is_read_back(4);
    assert(decimal_text(3) =~= seq!['3']);
    assert(decimal_text(4) =~= seq!['4']);
}

/// A queue is set up under its name and address, switched on, and without a
/// driver.
pub proof fn law_queues_are_set_up(queue_name: Seq<char>, ipp_uri: Seq<char>)
    ensures
        ({
            let words = install_words(queue_name, ipp_uri);
            &&& words.len() == 7
            &&& words[0] == "-p"@ && words[1] == queue_name
            &&& words[2] == "-E"@
            &&& words[3] == "-v"@ && words[4] == ipp_uri
            &&& words[5] == "-m"@ && words[6] == "everywhere"@
        }),
{
}

/// Every CUPS queue is taken to feed A4 and letter sheets, to print on one
/// side in one color, to make up to a hundred copies, to choose pages and to
/// collate, and to take PDF and raster documents.
pub proof fn law_baseline_capabilities()
    ensures
        ({
            let c = modest_capabilities(cups_documents());
            &&& c.media_sizes.len() == 2
            &&& c.media_sizes[0].name == "iso_a4_210x297mm"@
            &&& c.media_sizes[0].width_microns == 210_000
            &&& c.media_sizes[0].height_microns == 297_000
            &&& c.media_sizes[1].name == "na_letter_8.5x11in"@
            &&& c.media_sizes[1].width_microns == 215_900
            &&& c.media_sizes[1].height_microns == 279_400
            &&& c.color_modes == seq![ColorMode::Monochrome]
            &&& c.duplex_modes == seq![DuplexMode::OneSided]
            &&& c.resolutions.len() == 1 && c.resolutions[0].horizontal_dpi == 300
                && c.resolutions[0].vertical_dpi == 300
            &&& c.max_copies == 100
            &&& c.supports_page_ranges && c.supports_collation
            &&& c.accepted_document_types == seq!["application/pdf"@, "image/pwg-raster"@]
        }),
{
}

/// A queue is listed under its name, with spaces for underscores; it is ready
/// exactly if a line of the queues that accept jobs begins with its name, and
/// is the default exactly if that is its name.
pub proof fn law_queue_is_described(
    name: Seq<char>,
    accepting: Seq<Seq<char>>,
    default: Option<Seq<char>>,
)
    ensures
        ({
            let printer = cups_printer(name, accepting, default);
            &&& printer.id == name
            &&& printer.display_name == replaced_char(name, '_', seq![' '])
            &&& printer.status == PrinterStatus::Ready <==> exists|i: int|
                0 <= i < accepting.len() && crate::parts::first_word(#[trigger] accepting[i])
                    == Some(name)
            &&& printer.status == PrinterStatus::Ready || printer.status == PrinterStatus::Offline
            &&& printer.is_default <==> default == Some(name)
            &&& printer.connection_kind == "system"@
            &&& printer.capabilities == modest_capabilities(cups_documents())
        }),
{
    reveal_strlit(" ");
    assert(" "@ =~= seq![' ']);
}

/// Queues are listed in the order of their lines; blank lines are passed over.
pub proof fn law_queues_are_listed_in_order(
    lines: Seq<Seq<char>>,
    line: Seq<char>,
    before: Seq<LocalPrinterView>,
    accepting: Seq<Seq<char>>,
    default: Option<Seq<char>>,
)
    requires
        cups_printers(lines, accepting, default) == Ok::<Seq<LocalPrinterView>, PrintErrorView>(
            before,
        ),
    ensures
        cups_printers(Seq::<Seq<char>>::empty(), accepting, default) == Ok::<
            Seq<LocalPrinterView>,
            PrintErrorView,
        >(seq![]),
        trim_text(line).len() == 0 ==> cups_printers(lines.push(line), accepting, default) == Ok::<
            Seq<LocalPrinterView>,
            PrintErrorView,
        >(before),
        valid_id(trim_text(line)) ==> cups_printers(lines.push(line), accepting, default) == Ok::<
            Seq<LocalPrinterView>,
            PrintErrorView,
        >(before.push(cups_printer(trim_text(line), accepting, default))),
{
    assert(lines.push(line).drop_last() =~= lines);
    if valid_id(trim_text(line)) && trim_text(line).len() == 0 {
        assert(crate::text::is_blank(trim_text(line)));
    }
}

/// The default queue is what follows the first colon.
pub proof fn law_default_queue(prose: Seq<char>, name: Seq<char>)
    requires
        forall|i: int| 0 <= i < prose.len() ==> prose[i] != ':',
    ensures
        default_queue(prose + seq![':'] + name) == Some(trim_text(name)),
        default_queue(prose) is None,
{
    crate::laws::text::law_cutting(prose, ':', name);
}

/// The name of a new job is the printer's, a hyphen and the number that
/// follows, whatever prose stands before and behind.
pub proof fn law_job_is_found_in_output(
    printer: Seq<char>,
    prose: Seq<char>,
    number: Seq<char>,
    rest: Seq<char>,
)
    requires
        number.len() > 0,
        forall|i: int| 0 <= i < number.len() ==> '0' <= #[trigger] number[i] <= '9',
        rest.len() == 0 || !('0' <= rest[0] <= '9'),
        forall|i: int|
            0 <= i < prose.len() ==> !#[trigger] occurs_at(
                prose + (printer + seq!['-']) + number + rest,
                printer + seq!['-'],
                i,
            ),
    ensures
        job_in_output(printer, prose + (printer + seq!['-']) + number + rest) == Some(
            printer + seq!['-'] + number,
        ),
{
    reveal_strlit("-");
    assert("-"@ =~= seq!['-']);
    let prefix = printer + seq!['-'];
    let output = prose + prefix + number + rest;
    let at = prose.len() as int;
    assert(output.subrange(at, at + prefix.len()) =~= prefix);
    assert(occurs_at(output, prefix, at));
    let start = first_occurrence(output, prefix)->Some_0;
    assert(first_occurrence(output, prefix) is Some);
    assert(start == at) by {
        assert(occurs_at(output, prefix, start));
        if start > at {
            assert(!occurs_at(output, prefix, at));
        }
    }
    assert(output.skip(at + prefix.len()) =~= number + rest);
    lemma_leading_digits(number, rest);
}

proof fn lemma_leading_digits(number: Seq<char>, rest: Seq<char>)
    requires
        forall|i: int| 0 <= i < number.len() ==> '0' <= #[trigger] number[i] <= '9',
        rest.len() == 0 || !('0' <= rest[0] <= '9'),
    ensures
        leading_digits(number + rest) == number,
    decreases number.len(),
{
    if number.len() == 0 {
        assert(number + rest =~= rest);
    } else {
        let less = number.drop_first();
        assert forall|i: int| 0 <= i < less.len() implies '0' <= #[trigger] less[i] <= '9' by {
            assert(less[i] == number[i + 1]);
        }
        assert('0' <= number[0] <= '9');
        assert((number + rest).drop_first() =~= less + rest);
        lemma_leading_digits(less, rest);
        assert(seq![number[0]] + less =~= number);
    }
}

/// A submission whose job cannot be made out has failed.
pub proof fn law_submission_needs_a_job(printer: Seq<char>, output: Seq<char>)
    ensures
        match job_in_output(printer, output) {
            Some(id) => valid_id(id) ==> submitted_job(printer, output) == Ok::<
                Seq<char>,
                PrintErrorView,
            >(id),
            None => submitted_job(printer, output) == Err::<Seq<char>, PrintErrorView>(
                PrintErrorView::Backend("could not parse native job id: "@ + output),
            ),
        },
{
}

/// The queue of a job is what stands before the hyphen and the number at its
/// end, even where the name of the queue has hyphens too.
pub proof fn law_job_names_its_queue(queue: Seq<char>, number: Seq<char>)
    requires
        queue.len() > 0,
        number.len() > 0,
        forall|i: int| 0 <= i < number.len() ==> '0' <= #[trigger] number[i] <= '9',
    ensures
        queue_of_job(queue + seq!['-'] + number) == Some(queue),
{
    let id = queue + seq!['-'] + number;
    law_last_of_a_kind(queue, '-', number);
    assert(id.skip(queue.len() as int + 1) =~= number);
    assert(id.take(queue.len() as int) =~= queue);
}

/// What has no hyphen, nothing before the last one, or no number after it names
/// no job.
pub proof fn law_other_names_are_no_jobs(head: Seq<char>, tail: Seq<char>)
    requires
        forall|i: int| 0 <= i < tail.len() ==> tail[i] != '-',
    ensures
        queue_of_job(tail) is None,
        head.len() == 0 || tail.len() == 0 || (exists|i: int|
            0 <= i < tail.len() && !('0' <= #[trigger] tail[i] <= '9')) ==> queue_of_job(
            head + seq!['-'] + tail,
        ) is None,
{
    let id = head + seq!['-'] + tail;
    law_last_of_a_kind(head, '-', tail);
    assert(id.skip(head.len() as int + 1) =~= tail);
}

/// A job that a line of the unfinished jobs begins with waits; a job that is
/// on no line is done; without the list nothing is known.
pub proof fn law_listed_jobs_wait(id: Seq<char>, text: Seq<char>, error: PrintErrorView)
    ensures
        ({
            let waits = exists|i: int|
                0 <= i < lines_of(text).len() && id.len() <= (#[trigger] lines_of(text)[i]).len()
                    && lines_of(text)[i].take(id.len() as int) == id;
            &&& waits ==> listed_status(id, Ok(text)) == NativeJobStatus::Queued
            &&& !waits ==> listed_status(id, Ok(text)) == NativeJobStatus::Completed
            &&& listed_status(id, Err(error)) == NativeJobStatus::Unknown
        }),
{
    let lines = lines_of(text);
    if is_listed(id, lines) {
        let i = choose|i: int|
            0 <= i < lines.len() && crate::text::has_prefix(#[trigger] lines[i], id);
        assert(lines[i].take(id.len() as int) =~= lines[i].subrange(0, id.len() as int));
    }
    if exists|i: int|
        0 <= i < lines.len() && id.len() <= (#[trigger] lines[i]).len() && lines[i].take(
            id.len() as int,
        ) == id {
        let i = choose|i: int|
            0 <= i < lines.len() && id.len() <= (#[trigger] lines[i]).len() && lines[i].take(
                id.len() as int,
            ) == id;
        assert(lines[i].take(id.len() as int) =~= lines[i].subrange(0, id.len() as int));
        assert(crate::text::has_prefix(lines[i], id));
    }
}

} // verus!
