//! How a reader finds what a print queue is told about a printer.
use vstd::prelude::*;
use vstd::utf8::*;

use crate::bytes::{be32, twos};
use crate::domain::capability::{ColorMode, DuplexMode, MediaSizeView, PrintResolution};
use crate::domain::id::valid_id;
use crate::domain::TimestampMs;
use crate::infrastructure::ipp::message::{
    law_message_round_trip, law_values_are_found, lemma_list, lemma_push, lemma_push_under,
    lemma_single, lemma_tagged_push, list_part, message_bytes, parts_bytes, parts_fit, parts_under,
    single_part, tagged_bytes, values_fit, IppPart,
};
use crate::infrastructure::ipp::printer::{
    color_keywords, creation_keywords, info_uri, media_names, operation_numbers, printer_payload,
    queue_uri, reinterpreted, resolution_pairs, sides_keyword, up_time, version_keywords,
    with_colors, with_copies, with_identity, with_media, with_modes, with_resolutions, with_state,
    IPP_OK,
};
use crate::infrastructure::ipp::request::{parsed_request, values_of};
use crate::infrastructure::ipp::response::{
    attribute_bytes, boolean_value, encoded_numbers, encoded_resolutions, encoded_texts,
    integer_member_bytes, media_col_bytes, member_bytes, number_bytes, operation_bytes,
    repeated_bytes, resolution_value, response_bytes,
};
use crate::infrastructure::quic::printers::RemotePrinterView;
use crate::text::{decimal_text, lemma_utf8_round_trip, lemma_utf8_size};

verus! {

broadcast proof fn lemma_single_written(
    parts: Seq<IppPart>,
    tag: u8,
    name: Seq<char>,
    value: Seq<u8>,
)
    ensures
        #[trigger] parts_bytes(parts.push(single_part(tag, name, value))) == parts_bytes(parts)
            + attribute_bytes(tag, name, value),
{
    lemma_push(parts, single_part(tag, name, value));
    lemma_single(tag, name, value);
}

broadcast proof fn lemma_list_written(
    parts: Seq<IppPart>,
    tag: u8,
    name: Seq<char>,
    values: Seq<Seq<u8>>,
)
    ensures
        #[trigger] parts_bytes(parts.push(list_part(tag, name, values))) == parts_bytes(parts)
            + repeated_bytes(tag, name, values),
{
    lemma_push(parts, list_part(tag, name, values));
    lemma_list(tag, name, values);
}

broadcast proof fn lemma_single_fits(
    parts: Seq<IppPart>,
    tag: u8,
    name: Seq<char>,
    value: Seq<u8>,
)
    requires
        tag > 0x0f,
        0 < name.len() < 100,
        value.len() < 0x1_0000,
    ensures
        #[trigger] parts_fit(parts.push(single_part(tag, name, value))) == parts_fit(parts),
{
    lemma_push(parts, single_part(tag, name, value));
    lemma_utf8_size(name);
}

/// Whether no value is too long.
spec fn short_values(values: Seq<Seq<u8>>) -> bool {
    forall|i: int| 0 <= i < values.len() ==> (#[trigger] values[i]).len() < 0x1_0000
}

broadcast proof fn lemma_list_fits(
    parts: Seq<IppPart>,
    tag: u8,
    name: Seq<char>,
    values: Seq<Seq<u8>>,
)
    requires
        tag > 0x0f,
        0 < name.len() < 100,
        short_values(values),
    ensures
        #[trigger] parts_fit(parts.push(list_part(tag, name, values))) == parts_fit(parts),
{
    lemma_push(parts, list_part(tag, name, values));
    lemma_utf8_size(name);
}

/// Whether a part holds nothing under `name`.
spec fn is_other(part: IppPart, name: Seq<char>) -> bool {
    part matches IppPart::Attribute { name: own, .. } ==> own != name
}

broadcast proof fn lemma_other_skipped(parts: Seq<IppPart>, part: IppPart, name: Seq<char>)
    requires
        is_other(part, name),
    ensures
        #[trigger] parts_under(parts.push(part), name) == parts_under(parts, name),
{
    lemma_push_under(parts, part, name);
}

broadcast proof fn lemma_text_size(text: Seq<char>)
    ensures
        text.len() <= (#[trigger] encode_utf8(text)).len() <= 4 * text.len(),
{
    lemma_utf8_size(text);
}

broadcast group group_written {
    lemma_single_written,
    lemma_list_written,
    lemma_single_fits,
    lemma_list_fits,
    lemma_text_size,
}

proof fn lemma_short_texts(texts: Seq<Seq<char>>)
    requires
        forall|i: int| 0 <= i < texts.len() ==> (#[trigger] texts[i]).len() < 100,
    ensures
        short_values(encoded_texts(texts)),
{
    assert forall|i: int| 0 <= i < encoded_texts(texts).len() implies (#[trigger] encoded_texts(
        texts,
    )[i]).len() < 0x1_0000 by {
        lemma_utf8_size(texts[i]);
    }
}

spec fn start_parts() -> Seq<IppPart> {
    Seq::<IppPart>::empty().push(IppPart::Group(0x01)).push(
        single_part(0x47, "attributes-charset"@, encode_utf8("utf-8"@)),
    ).push(single_part(0x48, "attributes-natural-language"@, encode_utf8("en"@))).push(
        IppPart::Group(0x04),
    )
}

proof fn lemma_start()
    ensures
        parts_bytes(start_parts()) == operation_bytes() + seq![0x04u8],
        parts_fit(start_parts()),
{
    broadcast use group_written;

    reveal_strlit("attributes-charset");
    reveal_strlit("attributes-natural-language");
    reveal_strlit("utf-8");
    reveal_strlit("en");
    let none = Seq::<IppPart>::empty();
    lemma_push(none, IppPart::Group(0x01));
    assert(parts_bytes(none) + seq![0x01u8] =~= seq![0x01u8]);
    lemma_push(start_parts().drop_last(), IppPart::Group(0x04));
    assert(start_parts() =~= start_parts().drop_last().push(IppPart::Group(0x04)));
    let named = none.push(IppPart::Group(0x01)).push(
        single_part(0x47, "attributes-charset"@, encode_utf8("utf-8"@)),
    ).push(single_part(0x48, "attributes-natural-language"@, encode_utf8("en"@)));
    assert(start_parts().drop_last() =~= named);
}

spec fn identity_parts(
    parts: Seq<IppPart>,
    uri: Seq<char>,
    name: Seq<char>,
    share_id: Seq<char>,
) -> Seq<IppPart> {
    parts
        .push(single_part(0x45, "printer-uri-supported"@, encode_utf8(uri)))
        .push(single_part(0x44, "uri-authentication-supported"@, encode_utf8("none"@)))
        .push(single_part(0x44, "uri-security-supported"@, encode_utf8("none"@)))
        .push(single_part(0x47, "charset-configured"@, encode_utf8("utf-8"@)))
        .push(single_part(0x47, "charset-supported"@, encode_utf8("utf-8"@)))
        .push(single_part(0x44, "compression-supported"@, encode_utf8("none"@)))
        .push(single_part(0x48, "natural-language-configured"@, encode_utf8("en"@)))
        .push(single_part(0x48, "generated-natural-language-supported"@, encode_utf8("en"@)))
        .push(single_part(0x42, "printer-name"@, encode_utf8(name)))
        .push(single_part(0x41, "printer-info"@, encode_utf8(name)))
        .push(single_part(0x41, "printer-location"@, encode_utf8("ArcRelay"@)))
        .push(single_part(0x41, "printer-make-and-model"@, encode_utf8(name)))
        .push(single_part(0x45, "printer-more-info"@, encode_utf8(info_uri(uri))))
        .push(single_part(0x45, "printer-uuid"@, encode_utf8("urn:uuid:"@ + share_id)))
}

proof fn lemma_identity_names()
    ensures
        "printer-uri-supported"@.len() == 21,
        "uri-authentication-supported"@.len() == 28,
        "uri-security-supported"@.len() == 22,
        "charset-configured"@.len() == 18,
        "charset-supported"@.len() == 17,
        "compression-supported"@.len() == 21,
        "natural-language-configured"@.len() == 27,
        "generated-natural-language-supported"@.len() == 36,
        "printer-name"@.len() == 12,
        "printer-info"@.len() == 12,
        "printer-location"@.len() == 16,
        "printer-make-and-model"@.len() == 22,
        "printer-more-info"@.len() == 17,
        "printer-uuid"@.len() == 12,
        "compression-supported"@ != "printer-uri-supported"@,
        "printer-info"@ != "printer-name"@,
        "printer-uuid"@ != "printer-name"@,
{
    reveal_strlit("printer-uri-supported");
    reveal_strlit("uri-authentication-supported");
    reveal_strlit("uri-security-supported");
    reveal_strlit("charset-configured");
    reveal_strlit("charset-supported");
    reveal_strlit("compression-supported");
    reveal_strlit("natural-language-configured");
    reveal_strlit("generated-natural-language-supported");
    reveal_strlit("printer-name");
    reveal_strlit("printer-info");
    reveal_strlit("printer-location");
    reveal_strlit("printer-make-and-model");
    reveal_strlit("printer-more-info");
    reveal_strlit("printer-uuid");
    assert("compression-supported"@[0] != "printer-uri-supported"@[0]);
    assert("printer-info"@[8] != "printer-name"@[8]);
    assert("printer-uuid"@[8] != "printer-name"@[8]);
}

proof fn lemma_identity(
    parts: Seq<IppPart>,
    uri: Seq<char>,
    name: Seq<char>,
    share_id: Seq<char>,
)
    requires
        parts_fit(parts),
        uri.len() < 2_000,
        encode_utf8(name).len() < 0x1_0000,
        share_id.len() <= 512,
    ensures
        parts_bytes(identity_parts(parts, uri, name, share_id)) == with_identity(
            parts_bytes(parts),
            uri,
            name,
            share_id,
        ),
        parts_fit(identity_parts(parts, uri, name, share_id)),
{
    broadcast use group_written;

    lemma_identity_names();
    reveal_strlit("none");
    reveal_strlit("utf-8");
    reveal_strlit("en");
    reveal_strlit("ArcRelay");
    reveal_strlit("urn:uuid:");
    reveal_strlit("http://");
    reveal_strlit("ipp://");
    assert(info_uri(uri).len() <= uri.len() + 7);
}

spec fn state_parts(parts: Seq<IppPart>, up_time: i32) -> Seq<IppPart> {
    parts
        .push(single_part(0x23, "printer-state"@, be32(twos(3))))
        .push(single_part(0x44, "printer-state-reasons"@, encode_utf8("none"@)))
        .push(single_part(0x22, "printer-is-accepting-jobs"@, boolean_value(true)))
        .push(single_part(0x21, "queued-job-count"@, be32(twos(0))))
        .push(single_part(0x21, "printer-up-time"@, be32(twos(up_time))))
        .push(list_part(0x44, "ipp-versions-supported"@, encoded_texts(version_keywords())))
        .push(list_part(0x23, "operations-supported"@, encoded_numbers(operation_numbers())))
        .push(single_part(0x49, "document-format-supported"@, encode_utf8("application/pdf"@)))
        .push(single_part(0x49, "document-format-default"@, encode_utf8("application/pdf"@)))
        .push(single_part(0x44, "pdl-override-supported"@, encode_utf8("attempted"@)))
        .push(
            list_part(
                0x44,
                "job-creation-attributes-supported"@,
                encoded_texts(creation_keywords()),
            ),
        )
}

proof fn lemma_state_names()
    ensures
        "printer-state"@.len() == 13,
        "printer-state-reasons"@.len() == 21,
        "printer-is-accepting-jobs"@.len() == 25,
        "queued-job-count"@.len() == 16,
        "printer-up-time"@.len() == 15,
        "ipp-versions-supported"@.len() == 22,
        "operations-supported"@.len() == 20,
        "document-format-supported"@.len() == 25,
        "document-format-default"@.len() == 23,
        "pdl-override-supported"@.len() == 22,
        "job-creation-attributes-supported"@.len() == 33,
        "printer-up-time"@ != "media-supported"@,
        "printer-state-reasons"@ != "printer-uri-supported"@,
{
    reveal_strlit("printer-state");
    reveal_strlit("printer-state-reasons");
    reveal_strlit("printer-is-accepting-jobs");
    reveal_strlit("queued-job-count");
    reveal_strlit("printer-up-time");
    reveal_strlit("ipp-versions-supported");
    reveal_strlit("operations-supported");
    reveal_strlit("document-format-supported");
    reveal_strlit("document-format-default");
    reveal_strlit("pdl-override-supported");
    reveal_strlit("job-creation-attributes-supported");
    reveal_strlit("media-supported");
    reveal_strlit("printer-uri-supported");
    assert("printer-up-time"@[0] != "media-supported"@[0]);
    assert("printer-state-reasons"@[8] != "printer-uri-supported"@[8]);
}

proof fn lemma_keywords()
    ensures
        short_values(encoded_texts(version_keywords())),
        short_values(encoded_texts(creation_keywords())),
{
    reveal_strlit("1.1");
    reveal_strlit("2.0");
    lemma_short_texts(version_keywords());
    reveal_strlit("copies");
    reveal_strlit("sides");
    reveal_strlit("orientation-requested");
    reveal_strlit("media");
    reveal_strlit("printer-resolution");
    reveal_strlit("job-name");
    reveal_strlit("print-color-mode");
    lemma_short_texts(creation_keywords());
}

proof fn lemma_state(parts: Seq<IppPart>, up_time: i32)
    requires
        parts_fit(parts),
    ensures
        parts_bytes(state_parts(parts, up_time)) == with_state(parts_bytes(parts), up_time),
        parts_fit(state_parts(parts, up_time)),
{
    broadcast use group_written;

    lemma_state_names();
    lemma_keywords();
    reveal_strlit("none");
    reveal_strlit("application/pdf");
    reveal_strlit("attempted");
}

spec fn mode_parts(parts: Seq<IppPart>, color: bool, modes: Seq<DuplexMode>) -> Seq<IppPart> {
    parts
        .push(single_part(0x22, "color-supported"@, boolean_value(color)))
        .push(
            list_part(
                0x44,
                "sides-supported"@,
                encoded_texts(modes.map_values(|mode: DuplexMode| sides_keyword(mode))),
            ),
        )
        .push(single_part(0x44, "sides-default"@, encode_utf8("one-sided"@)))
}

proof fn lemma_mode_names()
    ensures
        "color-supported"@.len() == 15,
        "sides-supported"@.len() == 15,
        "sides-default"@.len() == 13,
        "color-supported"@ != "media-supported"@,
        "sides-supported"@ != "media-supported"@,
{
    reveal_strlit("color-supported");
    reveal_strlit("sides-supported");
    reveal_strlit("sides-default");
    reveal_strlit("media-supported");
    assert("color-supported"@[0] != "media-supported"@[0]);
    assert("sides-supported"@[0] != "media-supported"@[0]);
}

proof fn lemma_modes(parts: Seq<IppPart>, color: bool, modes: Seq<DuplexMode>)
    requires
        parts_fit(parts),
    ensures
        parts_bytes(mode_parts(parts, color, modes)) == with_modes(
            parts_bytes(parts),
            color,
            modes,
        ),
        parts_fit(mode_parts(parts, color, modes)),
{
    broadcast use group_written;

    lemma_mode_names();
    reveal_strlit("one-sided");
    reveal_strlit("two-sided-long-edge");
    reveal_strlit("two-sided-short-edge");
    lemma_short_texts(modes.map_values(|mode: DuplexMode| sides_keyword(mode)));
}

spec fn media_col_values(width_microns: u32, height_microns: u32) -> Seq<(u8, Seq<u8>)> {
    let zero = be32(twos(0));
    Seq::<(u8, Seq<u8>)>::empty()
        .push((0x34u8, seq![]))
        .push((0x4au8, encode_utf8("media-size"@)))
        .push((0x34u8, seq![]))
        .push((0x4au8, encode_utf8("x-dimension"@)))
        .push((0x21u8, be32(twos((width_microns / 10) as i32))))
        .push((0x4au8, encode_utf8("y-dimension"@)))
        .push((0x21u8, be32(twos((height_microns / 10) as i32))))
        .push((0x37u8, seq![]))
        .push((0x4au8, encode_utf8("media-top-margin"@)))
        .push((0x21u8, zero))
        .push((0x4au8, encode_utf8("media-bottom-margin"@)))
        .push((0x21u8, zero))
        .push((0x4au8, encode_utf8("media-left-margin"@)))
        .push((0x21u8, zero))
        .push((0x4au8, encode_utf8("media-right-margin"@)))
        .push((0x21u8, zero))
        .push((0x37u8, seq![]))
}

broadcast proof fn lemma_value_written(
    name: Seq<char>,
    values: Seq<(u8, Seq<u8>)>,
    value: (u8, Seq<u8>),
)
    ensures
        #[trigger] tagged_bytes(name, values.push(value)) == tagged_bytes(name, values)
            + attribute_bytes(
            value.0,
            if values.len() == 0 {
                name
            } else {
                seq![]
            },
            value.1,
        ),
{
    lemma_tagged_push(name, values, value);
}

broadcast proof fn lemma_member_written(before: Seq<u8>, name: Seq<char>, value: i32)
    ensures
        #[trigger] (before + integer_member_bytes(name, value)) == before + member_bytes(name)
            + number_bytes(0x21, seq![], value),
{
    assert(before + integer_member_bytes(name, value) =~= before + member_bytes(name)
        + number_bytes(0x21, seq![], value));
}

broadcast proof fn lemma_value_fits(values: Seq<(u8, Seq<u8>)>, value: (u8, Seq<u8>))
    requires
        value.0 > 0x0f,
        value.1.len() < 0x1_0000,
        values_fit(values),
    ensures
        #[trigger] values_fit(values.push(value)),
{
}

proof fn lemma_media_col(width_microns: u32, height_microns: u32)
    ensures
        tagged_bytes("media-col-default"@, media_col_values(width_microns, height_microns))
            == media_col_bytes(width_microns, height_microns),
        values_fit(media_col_values(width_microns, height_microns)),
{
    broadcast use {lemma_value_written, lemma_member_written, lemma_value_fits, lemma_text_size};

    reveal_strlit("media-size");
    reveal_strlit("x-dimension");
    reveal_strlit("y-dimension");
    reveal_strlit("media-top-margin");
    reveal_strlit("media-bottom-margin");
    reveal_strlit("media-left-margin");
    reveal_strlit("media-right-margin");
    let name = "media-col-default"@;
    let none = Seq::<(u8, Seq<u8>)>::empty();
    let first = attribute_bytes(0x34, name, seq![]);
    assert(tagged_bytes(name, none) + first =~= first);
}

spec fn media_col_part(width_microns: u32, height_microns: u32) -> IppPart {
    IppPart::Attribute {
        name: "media-col-default"@,
        values: media_col_values(width_microns, height_microns),
    }
}

spec fn media_parts(parts: Seq<IppPart>, sizes: Seq<MediaSizeView>) -> Seq<IppPart> {
    let listed = parts.push(
        list_part(0x44, "media-supported"@, encoded_texts(media_names(sizes))),
    );
    if sizes.len() == 0 {
        listed
    } else {
        listed.push(single_part(0x44, "media-default"@, encode_utf8(sizes[0].name))).push(
            media_col_part(sizes[0].width_microns, sizes[0].height_microns),
        )
    }
}

proof fn lemma_media_names()
    ensures
        "media-supported"@.len() == 15,
        "media-default"@.len() == 13,
        "media-col-default"@.len() == 17,
{
    reveal_strlit("media-supported");
    reveal_strlit("media-default");
    reveal_strlit("media-col-default");
}

/// Whether the names of all sheets fit into an attribute.
pub open spec fn names_fit(sizes: Seq<MediaSizeView>) -> bool {
    forall|i: int|
        0 <= i < sizes.len() ==> encode_utf8((#[trigger] sizes[i]).name).len() < 0x1_0000
}

proof fn lemma_media(parts: Seq<IppPart>, sizes: Seq<MediaSizeView>)
    requires
        parts_fit(parts),
        names_fit(sizes),
    ensures
        parts_bytes(media_parts(parts, sizes)) == with_media(parts_bytes(parts), sizes),
        parts_fit(media_parts(parts, sizes)),
{
    broadcast use group_written;

    lemma_media_names();
    let names = encoded_texts(media_names(sizes));
    assert forall|i: int| 0 <= i < names.len() implies (#[trigger] names[i]).len() < 0x1_0000 by {
        assert(names[i] == encode_utf8(sizes[i].name));
    }
    let listed = parts.push(list_part(0x44, "media-supported"@, names));
    if sizes.len() > 0 {
        let first = sizes[0];
        assert(encode_utf8(first.name).len() < 0x1_0000);
        lemma_media_col(first.width_microns, first.height_microns);
        let more = listed.push(single_part(0x44, "media-default"@, encode_utf8(first.name)));
        lemma_push(more, media_col_part(first.width_microns, first.height_microns));
        assert(encode_utf8("media-col-default"@).len() > 0);
        assert(parts_fit(more));
    }
}

spec fn copies_parts(parts: Seq<IppPart>, max_copies: u32) -> Seq<IppPart> {
    parts
        .push(
            single_part(
                0x33,
                "copies-supported"@,
                be32(twos(1)) + be32(twos(reinterpreted(max_copies))),
            ),
        )
        .push(single_part(0x21, "copies-default"@, be32(twos(1))))
        .push(single_part(0x23, "orientation-requested-default"@, be32(twos(3))))
        .push(
            list_part(
                0x23,
                "orientation-requested-supported"@,
                encoded_numbers(seq![3i32, 4i32]),
            ),
        )
}

proof fn lemma_copies_names()
    ensures
        "copies-supported"@.len() == 16,
        "copies-default"@.len() == 14,
        "orientation-requested-default"@.len() == 29,
        "orientation-requested-supported"@.len() == 31,
{
    reveal_strlit("copies-supported");
    reveal_strlit("copies-default");
    reveal_strlit("orientation-requested-default");
    reveal_strlit("orientation-requested-supported");
}

proof fn lemma_copies(parts: Seq<IppPart>, max_copies: u32)
    requires
        parts_fit(parts),
    ensures
        parts_bytes(copies_parts(parts, max_copies)) == with_copies(
            parts_bytes(parts),
            max_copies,
        ),
        parts_fit(copies_parts(parts, max_copies)),
{
    broadcast use group_written;

    lemma_copies_names();
}

spec fn resolution_parts(parts: Seq<IppPart>, resolutions: Seq<PrintResolution>) -> Seq<IppPart> {
    let first = if resolutions.len() == 0 {
        parts
    } else {
        parts.push(
            single_part(
                0x32,
                "printer-resolution-default"@,
                resolution_value(resolutions[0].horizontal_dpi, resolutions[0].vertical_dpi),
            ),
        )
    };
    first.push(
        list_part(
            0x32,
            "printer-resolution-supported"@,
            encoded_resolutions(resolution_pairs(resolutions)),
        ),
    )
}

spec fn color_parts(parts: Seq<IppPart>, color: bool) -> Seq<IppPart> {
    parts
        .push(single_part(0x44, "print-color-mode-default"@, encode_utf8("monochrome"@)))
        .push(
            list_part(
                0x44,
                "print-color-mode-supported"@,
                encoded_texts(color_keywords(color)),
            ),
        )
}

proof fn lemma_end_names()
    ensures
        "printer-resolution-default"@.len() == 26,
        "printer-resolution-supported"@.len() == 28,
        "print-color-mode-default"@.len() == 24,
        "print-color-mode-supported"@.len() == 26,
{
    reveal_strlit("printer-resolution-default");
    reveal_strlit("printer-resolution-supported");
    reveal_strlit("print-color-mode-default");
    reveal_strlit("print-color-mode-supported");
}

proof fn lemma_resolutions(parts: Seq<IppPart>, resolutions: Seq<PrintResolution>)
    requires
        parts_fit(parts),
    ensures
        parts_bytes(resolution_parts(parts, resolutions)) == with_resolutions(
            parts_bytes(parts),
            resolutions,
        ),
        parts_fit(resolution_parts(parts, resolutions)),
{
    broadcast use group_written;

    lemma_end_names();
}

proof fn lemma_colors(parts: Seq<IppPart>, color: bool)
    requires
        parts_fit(parts),
    ensures
        parts_bytes(color_parts(parts, color)) == with_colors(parts_bytes(parts), color),
        parts_fit(color_parts(parts, color)),
{
    broadcast use group_written;

    lemma_end_names();
    reveal_strlit("monochrome");
    reveal_strlit("color");
    lemma_short_texts(color_keywords(color));
}

proof fn lemma_start_found()
    ensures
        parts_under(start_parts(), "media-supported"@) == Seq::<Seq<u8>>::empty(),
        parts_under(start_parts(), "printer-uri-supported"@) == Seq::<Seq<u8>>::empty(),
        parts_under(start_parts(), "printer-name"@) == Seq::<Seq<u8>>::empty(),
{
    broadcast use lemma_other_skipped;

    lemma_identity_names();
    lemma_media_names();
    reveal_strlit("attributes-charset");
    reveal_strlit("attributes-natural-language");
}

proof fn lemma_identity_found(
    parts: Seq<IppPart>,
    uri: Seq<char>,
    name: Seq<char>,
    share_id: Seq<char>,
)
    ensures
        ({
            let all = identity_parts(parts, uri, name, share_id);
            &&& parts_under(all, "media-supported"@) == parts_under(parts, "media-supported"@)
            &&& parts_under(all, "printer-uri-supported"@) == parts_under(
                parts,
                "printer-uri-supported"@,
            ) + seq![encode_utf8(uri)]
            &&& parts_under(all, "printer-name"@) == parts_under(parts, "printer-name"@)
                + seq![encode_utf8(name)]
        }),
{
    broadcast use lemma_other_skipped;

    lemma_identity_names();
    lemma_media_names();
    let address = single_part(0x45, "printer-uri-supported"@, encode_utf8(uri));
    lemma_push_under(parts, address, "printer-uri-supported"@);
    lemma_single(0x45, "printer-uri-supported"@, encode_utf8(uri));
    let before = parts
        .push(address)
        .push(single_part(0x44, "uri-authentication-supported"@, encode_utf8("none"@)))
        .push(single_part(0x44, "uri-security-supported"@, encode_utf8("none"@)))
        .push(single_part(0x47, "charset-configured"@, encode_utf8("utf-8"@)))
        .push(single_part(0x47, "charset-supported"@, encode_utf8("utf-8"@)))
        .push(single_part(0x44, "compression-supported"@, encode_utf8("none"@)))
        .push(single_part(0x48, "natural-language-configured"@, encode_utf8("en"@)))
        .push(single_part(0x48, "generated-natural-language-supported"@, encode_utf8("en"@)));
    lemma_push_under(
        before,
        single_part(0x42, "printer-name"@, encode_utf8(name)),
        "printer-name"@,
    );
    lemma_single(0x42, "printer-name"@, encode_utf8(name));
}

/// Whether two lists of parts hold the same under the names that are sought.
spec fn same_found(one: Seq<IppPart>, other: Seq<IppPart>) -> bool {
    &&& parts_under(one, "media-supported"@) == parts_under(other, "media-supported"@)
    &&& parts_under(one, "printer-uri-supported"@) == parts_under(other, "printer-uri-supported"@)
    &&& parts_under(one, "printer-name"@) == parts_under(other, "printer-name"@)
}

proof fn lemma_state_found(parts: Seq<IppPart>, up_time: i32)
    ensures
        same_found(state_parts(parts, up_time), parts),
{
    broadcast use lemma_other_skipped;

    lemma_identity_names();
    lemma_media_names();
    lemma_state_names();
}

proof fn lemma_modes_found(parts: Seq<IppPart>, color: bool, modes: Seq<DuplexMode>)
    ensures
        same_found(mode_parts(parts, color, modes), parts),
{
    broadcast use lemma_other_skipped;

    lemma_identity_names();
    lemma_media_names();
    lemma_mode_names();
}

proof fn lemma_media_found(parts: Seq<IppPart>, sizes: Seq<MediaSizeView>)
    ensures
        ({
            let all = media_parts(parts, sizes);
            &&& parts_under(all, "media-supported"@) == parts_under(parts, "media-supported"@)
                + encoded_texts(media_names(sizes))
            &&& parts_under(all, "printer-uri-supported"@) == parts_under(
                parts,
                "printer-uri-supported"@,
            )
            &&& parts_under(all, "printer-name"@) == parts_under(parts, "printer-name"@)
        }),
{
    broadcast use lemma_other_skipped;

    lemma_identity_names();
    lemma_media_names();
    let names = encoded_texts(media_names(sizes));
    lemma_push_under(parts, list_part(0x44, "media-supported"@, names), "media-supported"@);
    lemma_list(0x44, "media-supported"@, names);
}

proof fn lemma_copies_found(parts: Seq<IppPart>, max_copies: u32)
    ensures
        same_found(copies_parts(parts, max_copies), parts),
{
    broadcast use lemma_other_skipped;

    lemma_identity_names();
    lemma_media_names();
    lemma_copies_names();
}

proof fn lemma_resolutions_found(parts: Seq<IppPart>, resolutions: Seq<PrintResolution>)
    ensures
        same_found(resolution_parts(parts, resolutions), parts),
{
    broadcast use lemma_other_skipped;

    lemma_identity_names();
    lemma_media_names();
    lemma_end_names();
}

proof fn lemma_colors_found(parts: Seq<IppPart>, color: bool)
    ensures
        same_found(color_parts(parts, color), parts),
{
    broadcast use lemma_other_skipped;

    lemma_identity_names();
    lemma_media_names();
    lemma_end_names();
}

spec fn printer_parts(port: u16, remote: RemotePrinterView, now_ms: TimestampMs) -> Seq<IppPart> {
    let printer = remote.printer;
    let capabilities = printer.capabilities;
    let color = capabilities.color_modes.contains(ColorMode::Color);
    let named = identity_parts(
        start_parts(),
        queue_uri(port, remote),
        printer.display_name,
        printer.share_id,
    );
    let stated = state_parts(named, up_time(now_ms));
    let modes = mode_parts(stated, color, capabilities.duplex_modes);
    let media = media_parts(modes, capabilities.media_sizes);
    let copies = copies_parts(media, capabilities.max_copies);
    color_parts(resolution_parts(copies, capabilities.resolutions), color)
}

proof fn lemma_uri_size(port: u16, remote: RemotePrinterView)
    requires
        valid_id(remote.printer.source_device_id),
        valid_id(remote.printer.share_id),
    ensures
        queue_uri(port, remote).len() < 2_000,
        remote.printer.share_id.len() <= 512,
{
    lemma_utf8_size(remote.printer.source_device_id);
    lemma_utf8_size(remote.printer.share_id);
    reveal_strlit("ipp://127.0.0.1:");
    reveal_strlit("/printers/");
    reveal_strlit("/");
    assert(decimal_text(port as nat).len() <= 5) by {
        reveal_with_fuel(decimal_text, 6);
    }
}

proof fn lemma_printer_written(port: u16, remote: RemotePrinterView, now_ms: TimestampMs)
    requires
        valid_id(remote.printer.source_device_id),
        valid_id(remote.printer.share_id),
        encode_utf8(remote.printer.display_name).len() < 0x1_0000,
        names_fit(remote.printer.capabilities.media_sizes),
    ensures
        parts_bytes(printer_parts(port, remote, now_ms)) == printer_payload(port, remote, now_ms),
        parts_fit(printer_parts(port, remote, now_ms)),
{
    let printer = remote.printer;
    let capabilities = printer.capabilities;
    let color = capabilities.color_modes.contains(ColorMode::Color);
    let uri = queue_uri(port, remote);
    lemma_uri_size(port, remote);
    lemma_start();
    lemma_identity(start_parts(), uri, printer.display_name, printer.share_id);
    let named = identity_parts(start_parts(), uri, printer.display_name, printer.share_id);
    lemma_state(named, up_time(now_ms));
    let stated = state_parts(named, up_time(now_ms));
    lemma_modes(stated, color, capabilities.duplex_modes);
    let modes = mode_parts(stated, color, capabilities.duplex_modes);
    lemma_media(modes, capabilities.media_sizes);
    let media = media_parts(modes, capabilities.media_sizes);
    lemma_copies(media, capabilities.max_copies);
    let copies = copies_parts(media, capabilities.max_copies);
    lemma_resolutions(copies, capabilities.resolutions);
    lemma_colors(resolution_parts(copies, capabilities.resolutions), color);
}

proof fn lemma_printer_found(port: u16, remote: RemotePrinterView, now_ms: TimestampMs)
    ensures
        ({
            let all = printer_parts(port, remote, now_ms);
            &&& parts_under(all, "media-supported"@) == encoded_texts(
                media_names(remote.printer.capabilities.media_sizes),
            )
            &&& parts_under(all, "printer-uri-supported"@) == seq![
                encode_utf8(queue_uri(port, remote)),
            ]
            &&& parts_under(all, "printer-name"@) == seq![encode_utf8(remote.printer.display_name)]
        }),
{
    let printer = remote.printer;
    let capabilities = printer.capabilities;
    let color = capabilities.color_modes.contains(ColorMode::Color);
    let uri = queue_uri(port, remote);
    let names = encoded_texts(media_names(capabilities.media_sizes));
    lemma_start_found();
    lemma_identity_found(start_parts(), uri, printer.display_name, printer.share_id);
    let named = identity_parts(start_parts(), uri, printer.display_name, printer.share_id);
    lemma_state_found(named, up_time(now_ms));
    let stated = state_parts(named, up_time(now_ms));
    lemma_modes_found(stated, color, capabilities.duplex_modes);
    let modes = mode_parts(stated, color, capabilities.duplex_modes);
    lemma_media_found(modes, capabilities.media_sizes);
    let media = media_parts(modes, capabilities.media_sizes);
    lemma_copies_found(media, capabilities.max_copies);
    let copies = copies_parts(media, capabilities.max_copies);
    lemma_resolutions_found(copies, capabilities.resolutions);
    lemma_colors_found(resolution_parts(copies, capabilities.resolutions), color);
    assert(Seq::<Seq<u8>>::empty() + names =~= names);
    assert(Seq::<Seq<u8>>::empty() + seq![encode_utf8(uri)] =~= seq![encode_utf8(uri)]);
    assert(Seq::<Seq<u8>>::empty() + seq![encode_utf8(printer.display_name)] =~= seq![
        encode_utf8(printer.display_name),
    ]);
}

/// The answer to a question about a printer is read back: it has the version
/// and the number of the request and no document, and says where the queue
/// is, what the printer is called and which sheets it feeds, in order.
pub proof fn law_printer_attributes_are_read_back(
    port: u16,
    remote: RemotePrinterView,
    version: Seq<u8>,
    request_id: u32,
    now_ms: TimestampMs,
)
    requires
        version.len() == 2,
        valid_id(remote.printer.source_device_id),
        valid_id(remote.printer.share_id),
        encode_utf8(remote.printer.display_name).len() < 0x1_0000,
        names_fit(remote.printer.capabilities.media_sizes),
        response_bytes(
            version,
            IPP_OK,
            request_id,
            printer_payload(port, remote, now_ms),
        ).len() <= usize::MAX,
    ensures
        ({
            let body = response_bytes(
                version,
                IPP_OK,
                request_id,
                printer_payload(port, remote, now_ms),
            );
            parsed_request(body, body.len() as u64) matches Ok(answer) && {
                &&& answer.version == version
                &&& answer.operation == IPP_OK
                &&& answer.request_id == request_id
                &&& answer.document_size == 0
                &&& answer.text_of("printer-uri-supported"@) == Some(queue_uri(port, remote))
                &&& answer.text_of("printer-name"@) == Some(remote.printer.display_name)
                &&& values_of(answer.attributes, "media-supported"@) == encoded_texts(
                    media_names(remote.printer.capabilities.media_sizes),
                )
            }
        }),
{
    let parts = printer_parts(port, remote, now_ms);
    let payload = printer_payload(port, remote, now_ms);
    lemma_printer_written(port, remote, now_ms);
    lemma_printer_found(port, remote, now_ms);
    assert(message_bytes(version, IPP_OK, request_id, parts, seq![]) =~= response_bytes(
        version,
        IPP_OK,
        request_id,
        payload,
    ));
    law_message_round_trip(version, IPP_OK, request_id, parts, seq![]);
    law_values_are_found(parts, "media-supported"@);
    law_values_are_found(parts, "printer-uri-supported"@);
    law_values_are_found(parts, "printer-name"@);
    lemma_utf8_round_trip(queue_uri(port, remote));
    lemma_utf8_round_trip(remote.printer.display_name);
}

} // verus!
