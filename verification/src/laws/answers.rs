//! What the answers to print clients say.
use vstd::prelude::*;
use vstd::utf8::encode_utf8;

use crate::bytes::{be16, be32, signed, twos};
use crate::domain::TimestampMs;
use crate::domain::capability::{ColorMode, DuplexMode, MediaSizeView, PrintResolution};
use crate::error::PrintErrorView;
use crate::infrastructure::ipp::bridge::{
    accepted_payload, bare_response, beginning, begins_pdf, cancel_answer, job_answer, job_bytes,
    job_uri, print_plan, protocol_state, unread_answer, IppIntakeView, MAX_IPP_REQUEST_BYTES,
};
use crate::infrastructure::ipp::message::{
    law_message_round_trip, law_values_are_found, lemma_list, lemma_push, list_part, message_bytes,
    parts_bytes, parts_fit, parts_under, parts_values, IppPart,
};
use crate::infrastructure::ipp::options::{requested_name, requested_options};
use crate::infrastructure::ipp::printer::{
    color_keywords, creation_keywords, info_uri, media_names, operation_numbers, printer_payload,
    queue_uri, resolution_pairs, sides_keyword, up_time, version_keywords, with_colors, with_copies,
    with_identity, with_media, with_modes, with_resolutions, with_state,
};
use crate::infrastructure::ipp::request::{parsed_request, values_of, IppRequestView};
use crate::infrastructure::ipp::response::{
    encoded_numbers, encoded_resolutions, encoded_texts, operation_bytes, repeated_bytes,
    response_bytes,
};
use crate::infrastructure::quic::printers::RemotePrinterView;
use crate::infrastructure::quic::replies::RemotePrintJobView;
use crate::text::decimal_text;

verus! {

/// A value with its tag and its name.
pub open spec fn entry(tag: u8, name: Seq<char>, value: Seq<u8>) -> Seq<u8> {
    seq![tag] + be16(encode_utf8(name).len()) + encode_utf8(name) + be16(value.len()) + value
}

/// Several values with a tag; the first carries the name.
pub open spec fn entries(tag: u8, name: Seq<char>, values: Seq<Seq<u8>>) -> Seq<u8>
    decreases values.len(),
{
    if values.len() == 0 {
        seq![]
    } else if values.len() == 1 {
        entry(tag, name, values[0])
    } else {
        entries(tag, name, values.drop_last()) + entry(tag, seq![], values.last())
    }
}

/// The versions of the protocol.
pub open spec fn spoken_versions() -> Seq<Seq<u8>> {
    seq![encode_utf8("1.1"@), encode_utf8("2.0"@)]
}

/// The operations: to print and to check a job, to call it off, to ask about
/// it, about all jobs and about the printer.
pub open spec fn served_operations() -> Seq<Seq<u8>> {
    seq![be32(2), be32(4), be32(8), be32(9), be32(10), be32(11)]
}

/// What can be said of a job when it is made.
pub open spec fn taken_attributes() -> Seq<Seq<u8>> {
    seq![
        encode_utf8("copies"@),
        encode_utf8("sides"@),
        encode_utf8("orientation-requested"@),
        encode_utf8("media"@),
        encode_utf8("printer-resolution"@),
        encode_utf8("job-name"@),
        encode_utf8("print-color-mode"@),
    ]
}

/// Whether `block` stands in `bytes` at `at`.
pub open spec fn stands_at(bytes: Seq<u8>, block: Seq<u8>, at: int) -> bool {
    &&& 0 <= at
    &&& at + block.len() <= bytes.len()
    &&& bytes.subrange(at, at + block.len()) == block
}

/// Whether `block` stands somewhere in `bytes`.
pub open spec fn says(bytes: Seq<u8>, block: Seq<u8>) -> bool {
    exists|at: int| #[trigger] stands_at(bytes, block, at)
}

proof fn lemma_says(bytes: Seq<u8>, block: Seq<u8>)
    ensures
        says(bytes + block, block),
        forall|other: Seq<u8>| says(bytes, other) ==> #[trigger] says(bytes + block, other),
{
    assert((bytes + block).subrange(bytes.len() as int, (bytes.len() + block.len()) as int)
        =~= block);
    assert(stands_at(bytes + block, block, bytes.len() as int));
    assert forall|other: Seq<u8>| says(bytes, other) implies #[trigger] says(
        bytes + block,
        other,
    ) by {
        let at = choose|at: int| #[trigger] stands_at(bytes, other, at);
        assert((bytes + block).subrange(at, at + other.len()) =~= bytes.subrange(
            at,
            at + other.len(),
        ));
        assert(stands_at(bytes + block, other, at));
    }
}

proof fn lemma_entries(tag: u8, name: Seq<char>, values: Seq<Seq<u8>>)
    ensures
        repeated_bytes(tag, name, values) == entries(tag, name, values),
    decreases values.len(),
{
    reveal_with_fuel(repeated_bytes, 2);
    if values.len() == 1 {
        assert(Seq::<u8>::empty() + entry(tag, name, values[0]) =~= entry(tag, name, values[0]));
    } else if values.len() > 1 {
        lemma_entries(tag, name, values.drop_last());
    }
}

proof fn lemma_identity(
    payload: Seq<u8>,
    uri: Seq<char>,
    name: Seq<char>,
    info: Seq<char>,
    share_id: Seq<char>,
)
    requires
        info == info_uri(uri),
    ensures
        ({
            let after = with_identity(payload, uri, name, share_id);
            &&& says(after, entry(0x45, "printer-uri-supported"@, encode_utf8(uri)))
            &&& says(after, entry(0x44, "uri-authentication-supported"@, encode_utf8("none"@)))
            &&& says(after, entry(0x44, "uri-security-supported"@, encode_utf8("none"@)))
            &&& says(after, entry(0x47, "charset-configured"@, encode_utf8("utf-8"@)))
            &&& says(after, entry(0x47, "charset-supported"@, encode_utf8("utf-8"@)))
            &&& says(after, entry(0x44, "compression-supported"@, encode_utf8("none"@)))
            &&& says(after, entry(0x48, "natural-language-configured"@, encode_utf8("en"@)))
            &&& says(
                after,
                entry(0x48, "generated-natural-language-supported"@, encode_utf8("en"@)),
            )
            &&& says(after, entry(0x42, "printer-name"@, encode_utf8(name)))
            &&& says(after, entry(0x41, "printer-info"@, encode_utf8(name)))
            &&& says(after, entry(0x41, "printer-location"@, encode_utf8("ArcRelay"@)))
            &&& says(after, entry(0x41, "printer-make-and-model"@, encode_utf8(name)))
            &&& says(after, entry(0x45, "printer-more-info"@, encode_utf8(info)))
            &&& says(after, entry(0x45, "printer-uuid"@, encode_utf8("urn:uuid:"@ + share_id)))
            &&& forall|other: Seq<u8>| says(payload, other) ==> #[trigger] says(after, other)
        }),
{
    lemma_says(payload, entry(0x45, "printer-uri-supported"@, encode_utf8(uri)));
    let p1 = payload + entry(0x45, "printer-uri-supported"@, encode_utf8(uri));
    lemma_says(p1, entry(0x44, "uri-authentication-supported"@, encode_utf8("none"@)));
    let p2 = p1 + entry(0x44, "uri-authentication-supported"@, encode_utf8("none"@));
    lemma_says(p2, entry(0x44, "uri-security-supported"@, encode_utf8("none"@)));
    let p3 = p2 + entry(0x44, "uri-security-supported"@, encode_utf8("none"@));
    lemma_says(p3, entry(0x47, "charset-configured"@, encode_utf8("utf-8"@)));
    let p4 = p3 + entry(0x47, "charset-configured"@, encode_utf8("utf-8"@));
    lemma_says(p4, entry(0x47, "charset-supported"@, encode_utf8("utf-8"@)));
    let p5 = p4 + entry(0x47, "charset-supported"@, encode_utf8("utf-8"@));
    lemma_says(p5, entry(0x44, "compression-supported"@, encode_utf8("none"@)));
    let p6 = p5 + entry(0x44, "compression-supported"@, encode_utf8("none"@));
    lemma_says(p6, entry(0x48, "natural-language-configured"@, encode_utf8("en"@)));
    let p7 = p6 + entry(0x48, "natural-language-configured"@, encode_utf8("en"@));
    lemma_says(p7, entry(0x48, "generated-natural-language-supported"@, encode_utf8("en"@)));
    let p8 = p7 + entry(0x48, "generated-natural-language-supported"@, encode_utf8("en"@));
    lemma_says(p8, entry(0x42, "printer-name"@, encode_utf8(name)));
    let p9 = p8 + entry(0x42, "printer-name"@, encode_utf8(name));
    lemma_says(p9, entry(0x41, "printer-info"@, encode_utf8(name)));
    let p10 = p9 + entry(0x41, "printer-info"@, encode_utf8(name));
    lemma_says(p10, entry(0x41, "printer-location"@, encode_utf8("ArcRelay"@)));
    let p11 = p10 + entry(0x41, "printer-location"@, encode_utf8("ArcRelay"@));
    lemma_says(p11, entry(0x41, "printer-make-and-model"@, encode_utf8(name)));
    let p12 = p11 + entry(0x41, "printer-make-and-model"@, encode_utf8(name));
    lemma_says(p12, entry(0x45, "printer-more-info"@, encode_utf8(info)));
    let p13 = p12 + entry(0x45, "printer-more-info"@, encode_utf8(info));
    lemma_says(p13, entry(0x45, "printer-uuid"@, encode_utf8("urn:uuid:"@ + share_id)));
    let p14 = p13 + entry(0x45, "printer-uuid"@, encode_utf8("urn:uuid:"@ + share_id));
    assert(p14 == with_identity(payload, uri, name, share_id));
}

proof fn lemma_state(payload: Seq<u8>, up_time: i32)
    ensures
        ({
            let after = with_state(payload, up_time);
            &&& says(after, entry(0x23, "printer-state"@, be32(twos(3))))
            &&& says(after, entry(0x44, "printer-state-reasons"@, encode_utf8("none"@)))
            &&& says(after, entry(0x22, "printer-is-accepting-jobs"@, seq![1u8]))
            &&& says(after, entry(0x21, "queued-job-count"@, be32(twos(0))))
            &&& says(after, entry(0x21, "printer-up-time"@, be32(twos(up_time))))
            &&& says(after, entries(0x44, "ipp-versions-supported"@, spoken_versions()))
            &&& says(after, entries(0x23, "operations-supported"@, served_operations()))
            &&& says(
                after,
                entry(0x49, "document-format-supported"@, encode_utf8("application/pdf"@)),
            )
            &&& says(
                after,
                entry(0x49, "document-format-default"@, encode_utf8("application/pdf"@)),
            )
            &&& says(after, entry(0x44, "pdl-override-supported"@, encode_utf8("attempted"@)))
            &&& says(after, entries(0x44, "job-creation-attributes-supported"@, taken_attributes()))
            &&& forall|other: Seq<u8>| says(payload, other) ==> #[trigger] says(after, other)
        }),
{
    assert(encoded_texts(version_keywords()) =~= spoken_versions());
    lemma_entries(0x44, "ipp-versions-supported"@, encoded_texts(version_keywords()));
    assert(encoded_numbers(operation_numbers()) =~= served_operations());
    lemma_entries(0x23, "operations-supported"@, encoded_numbers(operation_numbers()));
    assert(encoded_texts(creation_keywords()) =~= taken_attributes());
    lemma_entries(
        0x44,
        "job-creation-attributes-supported"@,
        encoded_texts(creation_keywords()),
    );
    lemma_says(payload, entry(0x23, "printer-state"@, be32(twos(3))));
    let p1 = payload + entry(0x23, "printer-state"@, be32(twos(3)));
    lemma_says(p1, entry(0x44, "printer-state-reasons"@, encode_utf8("none"@)));
    let p2 = p1 + entry(0x44, "printer-state-reasons"@, encode_utf8("none"@));
    lemma_says(p2, entry(0x22, "printer-is-accepting-jobs"@, seq![1u8]));
    let p3 = p2 + entry(0x22, "printer-is-accepting-jobs"@, seq![1u8]);
    lemma_says(p3, entry(0x21, "queued-job-count"@, be32(twos(0))));
    let p4 = p3 + entry(0x21, "queued-job-count"@, be32(twos(0)));
    lemma_says(p4, entry(0x21, "printer-up-time"@, be32(twos(up_time))));
    let p5 = p4 + entry(0x21, "printer-up-time"@, be32(twos(up_time)));
    lemma_says(p5, entries(0x44, "ipp-versions-supported"@, spoken_versions()));
    let p6 = p5 + entries(0x44, "ipp-versions-supported"@, spoken_versions());
    lemma_says(p6, entries(0x23, "operations-supported"@, served_operations()));
    let p7 = p6 + entries(0x23, "operations-supported"@, served_operations());
    lemma_says(p7, entry(0x49, "document-format-supported"@, encode_utf8("application/pdf"@)));
    let p8 = p7 + entry(0x49, "document-format-supported"@, encode_utf8("application/pdf"@));
    lemma_says(p8, entry(0x49, "document-format-default"@, encode_utf8("application/pdf"@)));
    let p9 = p8 + entry(0x49, "document-format-default"@, encode_utf8("application/pdf"@));
    lemma_says(p9, entry(0x44, "pdl-override-supported"@, encode_utf8("attempted"@)));
    let p10 = p9 + entry(0x44, "pdl-override-supported"@, encode_utf8("attempted"@));
    lemma_says(p10, entries(0x44, "job-creation-attributes-supported"@, taken_attributes()));
    let p11 = p10 + entries(0x44, "job-creation-attributes-supported"@, taken_attributes());
    assert(p11 == with_state(payload, up_time));
}

/// How print clients name the sides on which is printed.
pub open spec fn side_word(mode: DuplexMode) -> Seq<char> {
    if mode == DuplexMode::TwoSidedLongEdge {
        "two-sided-long-edge"@
    } else if mode == DuplexMode::TwoSidedShortEdge {
        "two-sided-short-edge"@
    } else {
        "one-sided"@
    }
}

proof fn lemma_modes(payload: Seq<u8>, color: bool, modes: Seq<DuplexMode>)
    ensures
        ({
            let after = with_modes(payload, color, modes);
            &&& says(after, entry(0x22, "color-supported"@, seq![if color { 1u8 } else { 0u8 }]))
            &&& says(
                after,
                entries(
                    0x44,
                    "sides-supported"@,
                    modes.map_values(|mode: DuplexMode| encode_utf8(side_word(mode))),
                ),
            )
            &&& says(after, entry(0x44, "sides-default"@, encode_utf8("one-sided"@)))
            &&& forall|other: Seq<u8>|
                says(payload, other) ==> #[trigger] says(after, other)
        }),
{
    let words = modes.map_values(|mode: DuplexMode| encode_utf8(side_word(mode)));
    assert(encoded_texts(modes.map_values(|mode: DuplexMode| sides_keyword(mode))) =~= words);
    lemma_entries(0x44, "sides-supported"@, words);
    let first = entry(0x22, "color-supported"@, seq![if color { 1u8 } else { 0u8 }]);
    let second = entries(0x44, "sides-supported"@, words);
    let third = entry(0x44, "sides-default"@, encode_utf8("one-sided"@));
    lemma_says(payload, first);
    lemma_says(payload + first, second);
    lemma_says(payload + first + second, third);
    assert(payload + first + second + third == with_modes(payload, color, modes));
}

/// A member of a collection with a number.
pub open spec fn member(name: Seq<char>, value: i32) -> Seq<u8> {
    entry(0x4a, seq![], encode_utf8(name)) + entry(0x21, seq![], be32(twos(value)))
}

proof fn lemma_media(payload: Seq<u8>, sizes: Seq<MediaSizeView>)
    ensures
        ({
            let after = with_media(payload, sizes);
            &&& says(
                after,
                entries(
                    0x44,
                    "media-supported"@,
                    sizes.map_values(|size: MediaSizeView| encode_utf8(size.name)),
                ),
            )
            &&& sizes.len() > 0 ==> {
                &&& says(after, entry(0x44, "media-default"@, encode_utf8(sizes[0].name)))
                &&& says(after, entry(0x34, "media-col-default"@, seq![]))
                &&& says(after, member("x-dimension"@, (sizes[0].width_microns / 10) as i32))
                &&& says(after, member("y-dimension"@, (sizes[0].height_microns / 10) as i32))
                &&& says(after, member("media-top-margin"@, 0))
                &&& says(after, member("media-bottom-margin"@, 0))
                &&& says(after, member("media-left-margin"@, 0))
                &&& says(after, member("media-right-margin"@, 0))
            }
            &&& forall|other: Seq<u8>|
                says(payload, other) ==> #[trigger] says(after, other)
        }),
{
    let names = sizes.map_values(|size: MediaSizeView| encode_utf8(size.name));
    assert(encoded_texts(media_names(sizes)) =~= names);
    lemma_entries(0x44, "media-supported"@, names);
    let listed = entries(0x44, "media-supported"@, names);
    lemma_says(payload, listed);
    if sizes.len() > 0 {
        let p1 = payload + listed;
        let default = entry(0x44, "media-default"@, encode_utf8(sizes[0].name));
        lemma_says(p1, default);
        let p2 = p1 + default;
        let open = entry(0x34, "media-col-default"@, seq![]);
        lemma_says(p2, open);
        let p3 = p2 + open;
        let size = entry(0x4a, seq![], encode_utf8("media-size"@)) + entry(0x34, seq![], seq![]);
        lemma_says(p3, size);
        let p4 = p3 + size;
        let width = member("x-dimension"@, (sizes[0].width_microns / 10) as i32);
        lemma_says(p4, width);
        let p5 = p4 + width;
        let height = member("y-dimension"@, (sizes[0].height_microns / 10) as i32);
        lemma_says(p5, height);
        let p6 = p5 + height;
        let close = entry(0x37, seq![], seq![]);
        lemma_says(p6, close);
        let p7 = p6 + close;
        let top = member("media-top-margin"@, 0);
        lemma_says(p7, top);
        let p8 = p7 + top;
        let bottom = member("media-bottom-margin"@, 0);
        lemma_says(p8, bottom);
        let p9 = p8 + bottom;
        let left = member("media-left-margin"@, 0);
        lemma_says(p9, left);
        let p10 = p9 + left;
        let right = member("media-right-margin"@, 0);
        lemma_says(p10, right);
        let p11 = p10 + right;
        lemma_says(p11, close);
        assert(p11 + close =~= with_media(payload, sizes));
    }
}

proof fn lemma_copies(payload: Seq<u8>, max_copies: u32)
    ensures
        ({
            let after = with_copies(payload, max_copies);
            &&& says(
                after,
                entry(0x33, "copies-supported"@, be32(1) + be32(max_copies as nat)),
            )
            &&& says(after, entry(0x21, "copies-default"@, be32(1)))
            &&& says(after, entry(0x23, "orientation-requested-default"@, be32(3)))
            &&& says(
                after,
                entries(0x23, "orientation-requested-supported"@, seq![be32(3), be32(4)]),
            )
            &&& forall|other: Seq<u8>|
                says(payload, other) ==> #[trigger] says(after, other)
        }),
{
    assert(twos(signed(max_copies as nat)) == max_copies);
    assert(encoded_numbers(seq![3i32, 4i32]) =~= seq![be32(3), be32(4)]);
    lemma_entries(0x23, "orientation-requested-supported"@, seq![be32(3), be32(4)]);
    let first = entry(0x33, "copies-supported"@, be32(1) + be32(max_copies as nat));
    let second = entry(0x21, "copies-default"@, be32(1));
    let third = entry(0x23, "orientation-requested-default"@, be32(3));
    let fourth = entries(0x23, "orientation-requested-supported"@, seq![be32(3), be32(4)]);
    lemma_says(payload, first);
    lemma_says(payload + first, second);
    lemma_says(payload + first + second, third);
    lemma_says(payload + first + second + third, fourth);
    assert(payload + first + second + third + fourth == with_copies(payload, max_copies));
}

/// A resolution in dots per inch, as far as its numbers fit.
pub open spec fn dots(resolution: PrintResolution) -> Seq<u8> {
    let horizontal: nat = if resolution.horizontal_dpi < 0x8000_0000 {
        resolution.horizontal_dpi as nat
    } else {
        0x7fff_ffff
    };
    let vertical: nat = if resolution.vertical_dpi < 0x8000_0000 {
        resolution.vertical_dpi as nat
    } else {
        0x7fff_ffff
    };
    be32(horizontal) + be32(vertical) + seq![3u8]
}

proof fn lemma_resolutions(payload: Seq<u8>, resolutions: Seq<PrintResolution>)
    ensures
        ({
            let after = with_resolutions(payload, resolutions);
            &&& resolutions.len() > 0 ==> says(
                after,
                entry(0x32, "printer-resolution-default"@, dots(resolutions[0])),
            )
            &&& says(
                after,
                entries(
                    0x32,
                    "printer-resolution-supported"@,
                    resolutions.map_values(|r: PrintResolution| dots(r)),
                ),
            )
            &&& forall|other: Seq<u8>|
                says(payload, other) ==> #[trigger] says(after, other)
        }),
{
    let values = resolutions.map_values(|r: PrintResolution| dots(r));
    assert(encoded_resolutions(resolution_pairs(resolutions)) =~= values);
    lemma_entries(0x32, "printer-resolution-supported"@, values);
    let listed = entries(0x32, "printer-resolution-supported"@, values);
    if resolutions.len() > 0 {
        let first = entry(0x32, "printer-resolution-default"@, dots(resolutions[0]));
        lemma_says(payload, first);
        lemma_says(payload + first, listed);
        assert(payload + first + listed == with_resolutions(payload, resolutions));
    } else {
        lemma_says(payload, listed);
        assert(payload + listed == with_resolutions(payload, resolutions));
    }
}

proof fn lemma_colors(payload: Seq<u8>, color: bool)
    ensures
        ({
            let after = with_colors(payload, color);
            &&& says(
                after,
                entry(0x44, "print-color-mode-default"@, encode_utf8("monochrome"@)),
            )
            &&& color ==> says(
                after,
                entries(
                    0x44,
                    "print-color-mode-supported"@,
                    seq![encode_utf8("monochrome"@), encode_utf8("color"@)],
                ),
            )
            &&& !color ==> says(
                after,
                entries(0x44, "print-color-mode-supported"@, seq![encode_utf8("monochrome"@)]),
            )
            &&& forall|other: Seq<u8>|
                says(payload, other) ==> #[trigger] says(after, other)
        }),
{
    let words = if color {
        seq![encode_utf8("monochrome"@), encode_utf8("color"@)]
    } else {
        seq![encode_utf8("monochrome"@)]
    };
    assert(encoded_texts(color_keywords(color)) =~= words);
    lemma_entries(0x44, "print-color-mode-supported"@, words);
    let first = entry(0x44, "print-color-mode-default"@, encode_utf8("monochrome"@));
    let second = entries(0x44, "print-color-mode-supported"@, words);
    lemma_says(payload, first);
    lemma_says(payload + first, second);
    assert(payload + first + second == with_colors(payload, color));
}

/// The payload of the answer about a printer, section by section.
proof fn lemma_payload(port: u16, remote: RemotePrinterView, now_ms: TimestampMs)
    ensures
        ({
            let p = printer_payload(port, remote, now_ms);
            let c = remote.printer.capabilities;
            let color = c.color_modes.contains(ColorMode::Color);
            let p1 = with_identity(
                operation_bytes() + seq![0x04u8],
                queue_uri(port, remote),
                remote.printer.display_name,
                remote.printer.share_id,
            );
            let p2 = with_state(p1, up_time(now_ms));
            let p3 = with_modes(p2, color, c.duplex_modes);
            let p4 = with_media(p3, c.media_sizes);
            let p5 = with_copies(p4, c.max_copies);
            let p6 = with_resolutions(p5, c.resolutions);
            &&& p == with_colors(p6, color)
            &&& forall|other: Seq<u8>| says(p1, other) ==> #[trigger] says(p, other)
            &&& forall|other: Seq<u8>| says(p2, other) ==> #[trigger] says(p, other)
            &&& forall|other: Seq<u8>| says(p3, other) ==> #[trigger] says(p, other)
            &&& forall|other: Seq<u8>| says(p4, other) ==> #[trigger] says(p, other)
            &&& forall|other: Seq<u8>| says(p5, other) ==> #[trigger] says(p, other)
            &&& forall|other: Seq<u8>| says(p6, other) ==> #[trigger] says(p, other)
        }),
{
    let c = remote.printer.capabilities;
    let color = c.color_modes.contains(ColorMode::Color);
    let p1 = with_identity(
        operation_bytes() + seq![0x04u8],
        queue_uri(port, remote),
        remote.printer.display_name,
        remote.printer.share_id,
    );
    let p2 = with_state(p1, up_time(now_ms));
    let p3 = with_modes(p2, color, c.duplex_modes);
    let p4 = with_media(p3, c.media_sizes);
    let p5 = with_copies(p4, c.max_copies);
    let p6 = with_resolutions(p5, c.resolutions);
    lemma_state(p1, up_time(now_ms));
    lemma_modes(p2, color, c.duplex_modes);
    lemma_media(p3, c.media_sizes);
    lemma_copies(p4, c.max_copies);
    lemma_resolutions(p5, c.resolutions);
    lemma_colors(p6, color);
}

proof fn lemma_addresses(port: u16, remote: RemotePrinterView)
    ensures
        ({
            let path = decimal_text(port as nat) + "/printers/"@ + remote.printer.source_device_id
                + "/"@ + remote.printer.share_id;
            &&& queue_uri(port, remote) == "ipp://127.0.0.1:"@ + path
            &&& info_uri(queue_uri(port, remote)) == "http://127.0.0.1:"@ + path
        }),
{
    let path = decimal_text(port as nat) + "/printers/"@ + remote.printer.source_device_id + "/"@
        + remote.printer.share_id;
    let uri = "ipp://127.0.0.1:"@ + path;
    reveal_strlit("ipp://127.0.0.1:");
    reveal_strlit("http://127.0.0.1:");
    reveal_strlit("ipp://");
    reveal_strlit("http://");
    assert(queue_uri(port, remote) =~= uri);
    assert(uri.subrange(0, 6) =~= "ipp://"@);
    assert("http://"@ + uri.skip(6) =~= "http://127.0.0.1:"@ + path);
}

/// The answer about a printer says where its queue and the page about it are,
/// what the printer is called and which one it is.
pub proof fn law_printer_tells_who_it_is(port: u16, remote: RemotePrinterView, now_ms: TimestampMs)
    ensures
        ({
            let p = printer_payload(port, remote, now_ms);
            let path = decimal_text(port as nat) + "/printers/"@ + remote.printer.source_device_id
                + "/"@ + remote.printer.share_id;
            let uri = "ipp://127.0.0.1:"@ + path;
            let info = "http://127.0.0.1:"@ + path;
            let name = remote.printer.display_name;
            let share_id = remote.printer.share_id;
            &&& says(p, entry(0x45, "printer-uri-supported"@, encode_utf8(uri)))
            &&& says(p, entry(0x44, "uri-authentication-supported"@, encode_utf8("none"@)))
            &&& says(p, entry(0x44, "uri-security-supported"@, encode_utf8("none"@)))
            &&& says(p, entry(0x47, "charset-configured"@, encode_utf8("utf-8"@)))
            &&& says(p, entry(0x47, "charset-supported"@, encode_utf8("utf-8"@)))
            &&& says(p, entry(0x44, "compression-supported"@, encode_utf8("none"@)))
            &&& says(p, entry(0x48, "natural-language-configured"@, encode_utf8("en"@)))
            &&& says(p, entry(0x48, "generated-natural-language-supported"@, encode_utf8("en"@)))
            &&& says(p, entry(0x42, "printer-name"@, encode_utf8(name)))
            &&& says(p, entry(0x41, "printer-info"@, encode_utf8(name)))
            &&& says(p, entry(0x41, "printer-location"@, encode_utf8("ArcRelay"@)))
            &&& says(p, entry(0x41, "printer-make-and-model"@, encode_utf8(name)))
            &&& says(p, entry(0x45, "printer-more-info"@, encode_utf8(info)))
            &&& says(p, entry(0x45, "printer-uuid"@, encode_utf8("urn:uuid:"@ + share_id)))
        }),
{
    lemma_payload(port, remote, now_ms);
    lemma_addresses(port, remote);
    let info = info_uri(queue_uri(port, remote));
    lemma_identity(
        operation_bytes() + seq![0x04u8],
        queue_uri(port, remote),
        remote.printer.display_name,
        info,
        remote.printer.share_id,
    );
}

/// The answer about a printer says that it is idle and takes PDF documents,
/// and which operations and versions there are; time is counted in seconds.
pub proof fn law_printer_tells_what_it_does(
    port: u16,
    remote: RemotePrinterView,
    now_ms: TimestampMs,
)
    ensures
        ({
            let p = printer_payload(port, remote, now_ms);
            let up_time: i32 = if now_ms <= 0 {
                0
            } else if now_ms < 2_147_483_648_000 {
                (now_ms / 1_000) as i32
            } else {
                i32::MAX
            };
            &&& says(p, entry(0x23, "printer-state"@, be32(twos(3))))
            &&& says(p, entry(0x44, "printer-state-reasons"@, encode_utf8("none"@)))
            &&& says(p, entry(0x22, "printer-is-accepting-jobs"@, seq![1u8]))
            &&& says(p, entry(0x21, "queued-job-count"@, be32(twos(0))))
            &&& says(p, entry(0x21, "printer-up-time"@, be32(twos(up_time))))
            &&& says(p, entries(0x44, "ipp-versions-supported"@, spoken_versions()))
            &&& says(p, entries(0x23, "operations-supported"@, served_operations()))
            &&& says(p, entry(0x49, "document-format-supported"@, encode_utf8("application/pdf"@)))
            &&& says(p, entry(0x49, "document-format-default"@, encode_utf8("application/pdf"@)))
            &&& says(p, entry(0x44, "pdl-override-supported"@, encode_utf8("attempted"@)))
            &&& says(p, entries(0x44, "job-creation-attributes-supported"@, taken_attributes()))
        }),
{
    lemma_payload(port, remote, now_ms);
    let c = remote.printer.capabilities;
    lemma_state(
        with_identity(
            operation_bytes() + seq![0x04u8],
            queue_uri(port, remote),
            remote.printer.display_name,
            remote.printer.share_id,
        ),
        up_time(now_ms),
    );
}

/// The answer about a printer says what it can print: sides, color, sheets,
/// copies and resolutions, the first of each being the default.
pub proof fn law_printer_tells_what_it_offers(
    port: u16,
    remote: RemotePrinterView,
    now_ms: TimestampMs,
)
    ensures
        ({
            let p = printer_payload(port, remote, now_ms);
            let c = remote.printer.capabilities;
            let color = c.color_modes.contains(ColorMode::Color);
            &&& says(p, entry(0x22, "color-supported"@, seq![if color { 1u8 } else { 0u8 }]))
            &&& says(
                p,
                entries(
                    0x44,
                    "sides-supported"@,
                    c.duplex_modes.map_values(|mode: DuplexMode| encode_utf8(side_word(mode))),
                ),
            )
            &&& says(p, entry(0x44, "sides-default"@, encode_utf8("one-sided"@)))
            &&& says(
                p,
                entries(
                    0x44,
                    "media-supported"@,
                    c.media_sizes.map_values(|size: MediaSizeView| encode_utf8(size.name)),
                ),
            )
            &&& c.media_sizes.len() > 0 ==> {
                let sheet = c.media_sizes[0];
                &&& says(p, entry(0x44, "media-default"@, encode_utf8(sheet.name)))
                &&& says(p, entry(0x34, "media-col-default"@, seq![]))
                &&& says(p, member("x-dimension"@, (sheet.width_microns / 10) as i32))
                &&& says(p, member("y-dimension"@, (sheet.height_microns / 10) as i32))
                &&& says(p, member("media-top-margin"@, 0))
                &&& says(p, member("media-bottom-margin"@, 0))
                &&& says(p, member("media-left-margin"@, 0))
                &&& says(p, member("media-right-margin"@, 0))
            }
            &&& says(
                p,
                entry(0x33, "copies-supported"@, be32(1) + be32(c.max_copies as nat)),
            )
            &&& says(p, entry(0x21, "copies-default"@, be32(1)))
            &&& says(p, entry(0x23, "orientation-requested-default"@, be32(3)))
            &&& says(
                p,
                entries(0x23, "orientation-requested-supported"@, seq![be32(3), be32(4)]),
            )
            &&& c.resolutions.len() > 0 ==> says(
                p,
                entry(0x32, "printer-resolution-default"@, dots(c.resolutions[0])),
            )
            &&& says(
                p,
                entries(
                    0x32,
                    "printer-resolution-supported"@,
                    c.resolutions.map_values(|r: PrintResolution| dots(r)),
                ),
            )
            &&& says(p, entry(0x44, "print-color-mode-default"@, encode_utf8("monochrome"@)))
            &&& says(
                p,
                entries(
                    0x44,
                    "print-color-mode-supported"@,
                    if color {
                        seq![encode_utf8("monochrome"@), encode_utf8("color"@)]
                    } else {
                        seq![encode_utf8("monochrome"@)]
                    },
                ),
            )
        }),
{
    lemma_payload(port, remote, now_ms);
    let c = remote.printer.capabilities;
    let color = c.color_modes.contains(ColorMode::Color);
    let p1 = with_identity(
        operation_bytes() + seq![0x04u8],
        queue_uri(port, remote),
        remote.printer.display_name,
        remote.printer.share_id,
    );
    let p2 = with_state(p1, up_time(now_ms));
    let p3 = with_modes(p2, color, c.duplex_modes);
    let p4 = with_media(p3, c.media_sizes);
    let p5 = with_copies(p4, c.max_copies);
    let p6 = with_resolutions(p5, c.resolutions);
    lemma_modes(p2, color, c.duplex_modes);
    lemma_media(p3, c.media_sizes);
    lemma_copies(p4, c.max_copies);
    lemma_resolutions(p5, c.resolutions);
    lemma_colors(p6, color);
}

/// Every answer begins with its character set and its language.
pub proof fn law_answers_name_their_language()
    ensures
        operation_bytes() == seq![0x01u8] + entry(
            0x47,
            "attributes-charset"@,
            encode_utf8("utf-8"@),
        ) + entry(0x48, "attributes-natural-language"@, encode_utf8("en"@)),
{
}

/// The answer about a job has its number, its state in the protocol's numbers,
/// and whether something went wrong.
pub proof fn law_job_tells_how_it_fares(request: IppRequestView, id: u32, job: RemotePrintJobView)
    ensures
        job_bytes(id, job)[0] == 0x02,
        says(job_bytes(id, job), entry(0x21, "job-id"@, be32(id as nat))),
        says(
            job_bytes(id, job),
            entry(0x23, "job-state"@, be32(twos(protocol_state(job.state)))),
        ),
        job.failure_message is Some ==> says(
            job_bytes(id, job),
            entry(0x44, "job-state-reasons"@, encode_utf8("job-completed-with-errors"@)),
        ),
        job.failure_message is None ==> says(
            job_bytes(id, job),
            entry(0x44, "job-state-reasons"@, encode_utf8("none"@)),
        ),
        job_answer(request, id, Ok(job)) == response_bytes(
            request.version,
            0x0000,
            request.request_id,
            job_bytes(id, job),
        ),
{
    assert(twos(signed(id as nat)) == id);
    let start = seq![0x02u8];
    let first = entry(0x21, "job-id"@, be32(id as nat));
    let second = entry(0x23, "job-state"@, be32(twos(protocol_state(job.state))));
    let word = if job.failure_message is Some {
        "job-completed-with-errors"@
    } else {
        "none"@
    };
    let third = entry(0x44, "job-state-reasons"@, encode_utf8(word));
    lemma_says(start, first);
    lemma_says(start + first, second);
    lemma_says(start + first + second, third);
    assert(start + first + second + third == job_bytes(id, job));
}

/// A document that was taken is answered with the number and the address of
/// its job, which is being printed.
pub proof fn law_accepted_jobs_are_told(port: u16, id: u32)
    ensures
        ({
            let p = accepted_payload(port, id);
            let uri = "ipp://127.0.0.1:"@ + decimal_text(port as nat) + "/jobs/"@ + decimal_text(
                id as nat,
            );
            &&& says(p, entry(0x45, "job-uri"@, encode_utf8(uri)))
            &&& says(p, entry(0x21, "job-id"@, be32(id as nat)))
            &&& says(p, entry(0x23, "job-state"@, be32(5)))
            &&& says(p, entry(0x44, "job-state-reasons"@, encode_utf8("none"@)))
            &&& p.subrange(0, operation_bytes().len() as int) == operation_bytes()
            &&& p[operation_bytes().len() as int] == 0x02
        }),
{
    assert(twos(signed(id as nat)) == id);
    let start = operation_bytes() + seq![0x02u8];
    let first = entry(0x45, "job-uri"@, encode_utf8(job_uri(port, id)));
    let second = entry(0x21, "job-id"@, be32(id as nat));
    let third = entry(0x23, "job-state"@, be32(5));
    let fourth = entry(0x44, "job-state-reasons"@, encode_utf8("none"@));
    lemma_says(start, first);
    lemma_says(start + first, second);
    lemma_says(start + first + second, third);
    lemma_says(start + first + second + third, fourth);
    assert(start + first + second + third + fourth == accepted_payload(port, id));
    assert(accepted_payload(port, id).subrange(0, operation_bytes().len() as int)
        =~= operation_bytes());
}

/// A job is cancelled with success if its device says so, and with a failure
/// otherwise.
pub proof fn law_cancellations_are_answered(
    request: IppRequestView,
    job: RemotePrintJobView,
    error: PrintErrorView,
)
    ensures
        cancel_answer(request, Ok(job)) == bare_response(request, 0x0000),
        cancel_answer(request, Err(error)) == bare_response(request, 0x0500),
        unread_answer() == response_bytes(seq![2u8, 0u8], 0x0400, 0, seq![]),
{
}

/// A document is printed exactly if there is one and it begins as a PDF
/// document does; it is printed as the request says.
pub proof fn law_only_pdf_is_printed(request: IppRequestView, start: Seq<u8>)
    ensures
        ({
            let pdf = start.len() >= 5 && start[0] == 0x25 && start[1] == 0x50 && start[2] == 0x44
                && start[3] == 0x46 && start[4] == 0x2d;
            &&& begins_pdf(start) <==> pdf
            &&& pdf && request.document_size > 0 ==> (print_plan(request, start) matches Ok(plan)
                && plan.options == requested_options(request) && plan.document_name
                == requested_name(request))
            &&& !pdf || request.document_size == 0 ==> print_plan(request, start) == Err::<
                crate::infrastructure::ipp::bridge::PrintJobPlanView,
                Seq<u8>,
            >(bare_response(request, 0x0400))
        }),
{
    let signature = seq![0x25u8, 0x50u8, 0x44u8, 0x46u8, 0x2du8];
    if start.len() >= 5 {
        if begins_pdf(start) {
            assert(start.take(5) == signature);
            assert(start.take(5)[0] == signature[0] && start.take(5)[1] == signature[1]
                && start.take(5)[2] == signature[2] && start.take(5)[3] == signature[3]
                && start.take(5)[4] == signature[4]);
        } else if start[0] == 0x25 && start[1] == 0x50 && start[2] == 0x44 && start[3] == 0x46
            && start[4] == 0x2d {
            assert(start.take(5) =~= signature);
        }
    }
}

/// Of a request as much is kept as can hold attributes, from its beginning on,
/// and no more is taken of it than allowed.
pub proof fn law_requests_are_limited(intake: IppIntakeView, bytes: Seq<u8>, data: Seq<u8>)
    ensures
        bytes.len() <= 65_536 ==> beginning(bytes) == bytes,
        bytes.len() > 65_536 ==> beginning(bytes) == bytes.take(65_536),
        intake.total + data.len() <= intake.limit ==> intake.has_room(data.len() as int),
        intake.total + data.len() > intake.limit ==> !intake.has_room(data.len() as int),
        intake.has_room(data.len() as int) ==> intake.with_data(data).total == intake.total
            + data.len() && intake.with_data(data).limit == intake.limit && intake.with_data(
            data,
        ).prefix == beginning(intake.prefix + data),
        MAX_IPP_REQUEST_BYTES == 524_353_536,
{
}

/// A request is read as it was written: its version, its operation, its
/// number, the values under a name, and the size of its document.
pub proof fn law_requests_are_read(
    version: Seq<u8>,
    operation: u16,
    request_id: u32,
    group: u8,
    tag: u8,
    name: Seq<char>,
    values: Seq<Seq<u8>>,
    document: Seq<u8>,
)
    requires
        version.len() == 2,
        group <= 0x0f,
        group != 0x03,
        tag > 0x0f,
        0 < encode_utf8(name).len() < 0x1_0000,
        forall|i: int| 0 <= i < values.len() ==> (#[trigger] values[i]).len() < 0x1_0000,
        11 + entries(tag, name, values).len() + document.len() <= usize::MAX,
    ensures
        ({
            let bytes = version + be16(operation as nat) + be32(request_id as nat) + seq![group]
                + entries(tag, name, values) + seq![0x03u8] + document;
            parsed_request(bytes, bytes.len() as u64) matches Ok(request) && {
                &&& request.version == version
                &&& request.operation == operation
                &&& request.request_id == request_id
                &&& values_of(request.attributes, name) == values
                &&& request.attributes.len() == values.len()
                &&& request.document_size == document.len()
                &&& request.document_offset == bytes.len() - document.len()
            }
        }),
{
    let none = Seq::<IppPart>::empty();
    let part = list_part(tag, name, values);
    let one = none.push(IppPart::Group(group));
    let parts = one.push(part);
    lemma_push(none, IppPart::Group(group));
    lemma_push(one, part);
    lemma_list(tag, name, values);
    lemma_entries(tag, name, values);
    assert(parts_bytes(parts) =~= seq![group] + entries(tag, name, values));
    let bytes = version + be16(operation as nat) + be32(request_id as nat) + seq![group] + entries(
        tag,
        name,
        values,
    ) + seq![0x03u8] + document;
    assert(message_bytes(version, operation, request_id, parts, document) =~= bytes);
    assert(parts_fit(none));
    law_message_round_trip(version, operation, request_id, parts, document);
    law_values_are_found(parts, name);
    assert(one.drop_last() =~= none);
    assert(parts.drop_last() =~= one);
    reveal_with_fuel(parts_under, 3);
    reveal_with_fuel(parts_values, 3);
    assert(parts_under(parts, name) =~= values);
}

/// Bytes that end before their attributes do are no request.
pub proof fn law_short_requests_are_refused(bytes: Seq<u8>, total_size: u64)
    requires
        bytes.len() < 9,
    ensures
        parsed_request(bytes, total_size) matches Err(error) && error is Invalid,
{
}

} // verus!
