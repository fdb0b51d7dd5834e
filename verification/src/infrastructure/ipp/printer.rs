//! What a print queue learns about a printer.
use vstd::prelude::*;
use vstd::string::*;

use crate::bytes::{be32, signed, to_signed, twos};
use crate::domain::capability::{ColorMode, DuplexMode, MediaSize, MediaSizeView, PrintResolution};
use crate::domain::TimestampMs;
use crate::infrastructure::ipp::request::IppRequest;
use crate::infrastructure::ipp::response::{
    attribute_bytes, boolean_attribute, boolean_value, encoded_numbers, encoded_resolutions,
    encoded_texts, enum_attribute, integer_attribute, ipp_response, media_col_bytes,
    media_col_default_attribute, number_bytes, operation_attributes, operation_bytes, put_byte,
    range_attribute, repeated_bytes, repeated_i32_attribute, repeated_resolution_attribute,
    repeated_attribute, resolution_attribute, resolution_value, response_bytes, text_attribute,
    text_bytes,
};
use crate::infrastructure::quic::printers::{RemotePrinter, RemotePrinterView};
use crate::model::views;
use crate::text::{after_prefix, decimal, decimal_text, has_prefix, strip_prefix};

verus! {

/// The operations of the protocol that are served.
pub const PRINT_JOB: u16 = 0x0002;

pub const VALIDATE_JOB: u16 = 0x0004;

pub const CANCEL_JOB: u16 = 0x0008;

pub const GET_JOB_ATTRIBUTES: u16 = 0x0009;

pub const GET_JOBS: u16 = 0x000a;

pub const GET_PRINTER_ATTRIBUTES: u16 = 0x000b;

/// The outcomes of the protocol.
pub const IPP_OK: u16 = 0x0000;

pub const IPP_BAD_REQUEST: u16 = 0x0400;

pub const IPP_NOT_FOUND: u16 = 0x0406;

pub const IPP_INTERNAL_ERROR: u16 = 0x0500;

pub const IPP_OPERATION_NOT_SUPPORTED: u16 = 0x0501;

/// Where the queue for a printer of another device leads.
pub open spec fn queue_uri(port: u16, remote: RemotePrinterView) -> Seq<char> {
    "ipp://127.0.0.1:"@ + decimal_text(port as nat) + "/printers/"@
        + remote.printer.source_device_id + "/"@ + remote.printer.share_id
}

/// Where the queue for a printer of another device leads.
pub fn printer_uri(port: u16, remote: &RemotePrinter) -> (r: String)
    ensures
        r@ == queue_uri(port, remote@),
{
    let mut uri = "ipp://127.0.0.1:".to_string();
    uri.append(decimal(port as u64).as_str());
    uri.append("/printers/");
    uri.append(remote.printer.source_device_id.as_str());
    uri.append("/");
    uri.append(remote.printer.share_id.as_str());
    uri
}

/// The page about a queue: its address, with another scheme.
pub open spec fn info_uri(uri: Seq<char>) -> Seq<char> {
    match after_prefix(uri, "ipp://"@) {
        Some(rest) => "http://"@ + rest,
        None => uri,
    }
}

/// The page about a queue: its address, with another scheme.
pub fn more_info_uri(uri: &str) -> (r: String)
    ensures
        r@ == info_uri(uri@),
{
    match strip_prefix(uri, "ipp://") {
        Some(rest) => {
            let mut page = "http://".to_string();
            page.append(rest.as_str());
            page
        },
        None => uri.to_string(),
    }
}

/// The seconds for which this machine is said to run: those since the epoch,
/// as far as they fit.
pub open spec fn up_time(now_ms: TimestampMs) -> i32 {
    if now_ms <= 0 {
        0
    } else if now_ms / 1_000 > i32::MAX {
        i32::MAX
    } else {
        (now_ms / 1_000) as i32
    }
}

fn up_time_seconds(now_ms: TimestampMs) -> (r: i32)
    ensures
        r == up_time(now_ms),
{
    if now_ms <= 0 {
        return 0;
    }
    let seconds: i64 = now_ms / 1_000;
    if seconds > 0x7fff_ffff {
        i32::MAX
    } else {
        seconds as i32
    }
}

/// How the protocol names a way of printing on both sides.
pub open spec fn sides_keyword(mode: DuplexMode) -> Seq<char> {
    match mode {
        DuplexMode::OneSided => "one-sided"@,
        DuplexMode::TwoSidedLongEdge => "two-sided-long-edge"@,
        DuplexMode::TwoSidedShortEdge => "two-sided-short-edge"@,
    }
}

fn sides(modes: &Vec<DuplexMode>) -> (r: Vec<&'static str>)
    ensures
        r@.map_values(|text: &str| text@) == modes@.map_values(
            |mode: DuplexMode| sides_keyword(mode),
        ),
{
    let mut out: Vec<&'static str> = Vec::new();
    let mut i: usize = 0;
    while i < modes.len()
        invariant
            i <= modes@.len(),
            out@.len() == i,
            forall|j: int| 0 <= j < i ==> (#[trigger] out@[j])@ == sides_keyword(modes@[j]),
        decreases modes@.len() - i,
    {
        out.push(
            match modes[i] {
                DuplexMode::OneSided => "one-sided",
                DuplexMode::TwoSidedLongEdge => "two-sided-long-edge",
                DuplexMode::TwoSidedShortEdge => "two-sided-short-edge",
            },
        );
        i += 1;
    }
    assert(out@.map_values(|text: &str| text@) =~= modes@.map_values(
        |mode: DuplexMode| sides_keyword(mode),
    ));
    out
}

/// The names of sheets.
pub open spec fn media_names(sizes: Seq<MediaSizeView>) -> Seq<Seq<char>> {
    sizes.map_values(|size: MediaSizeView| size.name)
}

fn media_keywords<'a>(sizes: &'a Vec<MediaSize>) -> (r: Vec<&'a str>)
    ensures
        r@.map_values(|text: &str| text@) == media_names(views(sizes@)),
{
    let mut out: Vec<&'a str> = Vec::new();
    let mut i: usize = 0;
    while i < sizes.len()
        invariant
            i <= sizes@.len(),
            out@.len() == i,
            forall|j: int| 0 <= j < i ==> (#[trigger] out@[j])@ == sizes@[j].name@,
        decreases sizes@.len() - i,
    {
        out.push(sizes[i].name.as_str());
        i += 1;
    }
    assert(out@.map_values(|text: &str| text@) =~= media_names(views(sizes@)));
    out
}

/// Resolutions as pairs of numbers.
pub open spec fn resolution_pairs(resolutions: Seq<PrintResolution>) -> Seq<(u32, u32)> {
    resolutions.map_values(|r: PrintResolution| (r.horizontal_dpi, r.vertical_dpi))
}

fn pairs_of(resolutions: &Vec<PrintResolution>) -> (r: Vec<(u32, u32)>)
    ensures
        r@ == resolution_pairs(resolutions@),
{
    let mut out: Vec<(u32, u32)> = Vec::new();
    let mut i: usize = 0;
    while i < resolutions.len()
        invariant
            i <= resolutions@.len(),
            out@ == resolution_pairs(resolutions@.take(i as int)),
        decreases resolutions@.len() - i,
    {
        out.push((resolutions[i].horizontal_dpi, resolutions[i].vertical_dpi));
        assert(out@ =~= resolution_pairs(resolutions@.take(i + 1)));
        i += 1;
    }
    assert(resolutions@.take(i as int) =~= resolutions@);
    out
}

fn prints_color(modes: &Vec<ColorMode>) -> (r: bool)
    ensures
        r == modes@.contains(ColorMode::Color),
{
    let mut i: usize = 0;
    while i < modes.len()
        invariant
            i <= modes@.len(),
            forall|j: int| 0 <= j < i ==> modes@[j] != ColorMode::Color,
        decreases modes@.len() - i,
    {
        if modes[i] == ColorMode::Color {
            return true;
        }
        i += 1;
    }
    false
}

/// The addresses and the names of a printer.
pub open spec fn with_identity(
    payload: Seq<u8>,
    uri: Seq<char>,
    name: Seq<char>,
    share_id: Seq<char>,
) -> Seq<u8> {
    payload
        + text_bytes(0x45, "printer-uri-supported"@, uri)
        + text_bytes(0x44, "uri-authentication-supported"@, "none"@)
        + text_bytes(0x44, "uri-security-supported"@, "none"@)
        + text_bytes(0x47, "charset-configured"@, "utf-8"@)
        + text_bytes(0x47, "charset-supported"@, "utf-8"@)
        + text_bytes(0x44, "compression-supported"@, "none"@)
        + text_bytes(0x48, "natural-language-configured"@, "en"@)
        + text_bytes(0x48, "generated-natural-language-supported"@, "en"@)
        + text_bytes(0x42, "printer-name"@, name)
        + text_bytes(0x41, "printer-info"@, name)
        + text_bytes(0x41, "printer-location"@, "ArcRelay"@)
        + text_bytes(0x41, "printer-make-and-model"@, name)
        + text_bytes(0x45, "printer-more-info"@, info_uri(uri))
        + text_bytes(0x45, "printer-uuid"@, "urn:uuid:"@ + share_id)
}

fn put_identity(payload: &mut Vec<u8>, uri: &str, name: &str, share_id: &str)
    ensures
        final(payload)@ == with_identity(old(payload)@, uri@, name@, share_id@),
{
    let mut uuid = "urn:uuid:".to_string();
    uuid.append(share_id);
    text_attribute(payload, 0x45, "printer-uri-supported", uri);
    text_attribute(payload, 0x44, "uri-authentication-supported", "none");
    text_attribute(payload, 0x44, "uri-security-supported", "none");
    text_attribute(payload, 0x47, "charset-configured", "utf-8");
    text_attribute(payload, 0x47, "charset-supported", "utf-8");
    text_attribute(payload, 0x44, "compression-supported", "none");
    text_attribute(payload, 0x48, "natural-language-configured", "en");
    text_attribute(payload, 0x48, "generated-natural-language-supported", "en");
    text_attribute(payload, 0x42, "printer-name", name);
    text_attribute(payload, 0x41, "printer-info", name);
    text_attribute(payload, 0x41, "printer-location", "ArcRelay");
    text_attribute(payload, 0x41, "printer-make-and-model", name);
    text_attribute(payload, 0x45, "printer-more-info", more_info_uri(uri).as_str());
    text_attribute(payload, 0x45, "printer-uuid", uuid.as_str());
}

/// The versions of the protocol that are spoken.
pub open spec fn version_keywords() -> Seq<Seq<char>> {
    seq!["1.1"@, "2.0"@]
}

/// What a job can be given when it is created.
pub open spec fn creation_keywords() -> Seq<Seq<char>> {
    seq![
        "copies"@,
        "sides"@,
        "orientation-requested"@,
        "media"@,
        "printer-resolution"@,
        "job-name"@,
        "print-color-mode"@,
    ]
}

/// The operations that are served.
pub open spec fn operation_numbers() -> Seq<i32> {
    seq![
        PRINT_JOB as i32,
        VALIDATE_JOB as i32,
        CANCEL_JOB as i32,
        GET_JOB_ATTRIBUTES as i32,
        GET_JOBS as i32,
        GET_PRINTER_ATTRIBUTES as i32,
    ]
}

fn put_versions(payload: &mut Vec<u8>)
    ensures
        final(payload)@ == old(payload)@ + repeated_bytes(
            0x44,
            "ipp-versions-supported"@,
            encoded_texts(version_keywords()),
        ),
{
    let mut values: Vec<&str> = Vec::new();
    values.push("1.1");
    values.push("2.0");
    assert(values@.map_values(|text: &str| text@) =~= version_keywords());
    repeated_attribute(payload, 0x44, "ipp-versions-supported", &values);
}

fn put_creation_attributes(payload: &mut Vec<u8>)
    ensures
        final(payload)@ == old(payload)@ + repeated_bytes(
            0x44,
            "job-creation-attributes-supported"@,
            encoded_texts(creation_keywords()),
        ),
{
    let mut values: Vec<&str> = Vec::new();
    values.push("copies");
    values.push("sides");
    values.push("orientation-requested");
    values.push("media");
    values.push("printer-resolution");
    values.push("job-name");
    values.push("print-color-mode");
    assert(values@.map_values(|text: &str| text@) =~= creation_keywords());
    repeated_attribute(payload, 0x44, "job-creation-attributes-supported", &values);
}

fn put_operations(payload: &mut Vec<u8>)
    ensures
        final(payload)@ == old(payload)@ + repeated_bytes(
            0x23,
            "operations-supported"@,
            encoded_numbers(operation_numbers()),
        ),
{
    let values: [i32; 6] = [
        PRINT_JOB as i32,
        VALIDATE_JOB as i32,
        CANCEL_JOB as i32,
        GET_JOB_ATTRIBUTES as i32,
        GET_JOBS as i32,
        GET_PRINTER_ATTRIBUTES as i32,
    ];
    assert(values@ =~= operation_numbers());
    repeated_i32_attribute(payload, 0x23, "operations-supported", &values);
}

fn put_orientations(payload: &mut Vec<u8>)
    ensures
        final(payload)@ == old(payload)@ + repeated_bytes(
            0x23,
            "orientation-requested-supported"@,
            encoded_numbers(seq![3i32, 4i32]),
        ),
{
    let values: [i32; 2] = [3, 4];
    assert(values@ =~= seq![3i32, 4i32]);
    repeated_i32_attribute(payload, 0x23, "orientation-requested-supported", &values);
}

/// What a printer does, and what it can be asked.
pub open spec fn with_state(payload: Seq<u8>, up_time: i32) -> Seq<u8> {
    payload
        + number_bytes(0x23, "printer-state"@, 3)
        + text_bytes(0x44, "printer-state-reasons"@, "none"@)
        + attribute_bytes(0x22, "printer-is-accepting-jobs"@, boolean_value(true))
        + number_bytes(0x21, "queued-job-count"@, 0)
        + number_bytes(0x21, "printer-up-time"@, up_time)
        + repeated_bytes(0x44, "ipp-versions-supported"@, encoded_texts(version_keywords()))
        + repeated_bytes(0x23, "operations-supported"@, encoded_numbers(operation_numbers()))
        + text_bytes(0x49, "document-format-supported"@, "application/pdf"@)
        + text_bytes(0x49, "document-format-default"@, "application/pdf"@)
        + text_bytes(0x44, "pdl-override-supported"@, "attempted"@)
        + repeated_bytes(
        0x44,
        "job-creation-attributes-supported"@,
        encoded_texts(creation_keywords()),
    )
}

fn put_state(payload: &mut Vec<u8>, up_time: i32)
    ensures
        final(payload)@ == with_state(old(payload)@, up_time),
{
    enum_attribute(payload, "printer-state", 3);
    text_attribute(payload, 0x44, "printer-state-reasons", "none");
    boolean_attribute(payload, "printer-is-accepting-jobs", true);
    integer_attribute(payload, "queued-job-count", 0);
    integer_attribute(payload, "printer-up-time", up_time);
    put_versions(payload);
    put_operations(payload);
    text_attribute(payload, 0x49, "document-format-supported", "application/pdf");
    text_attribute(payload, 0x49, "document-format-default", "application/pdf");
    text_attribute(payload, 0x44, "pdl-override-supported", "attempted");
    put_creation_attributes(payload);
}

/// The sheets that a printer feeds; the first is the default.
pub open spec fn with_media(payload: Seq<u8>, sizes: Seq<MediaSizeView>) -> Seq<u8> {
    let listed = payload + repeated_bytes(
        0x44,
        "media-supported"@,
        encoded_texts(media_names(sizes)),
    );
    if sizes.len() == 0 {
        listed
    } else {
        listed + text_bytes(0x44, "media-default"@, sizes[0].name) + media_col_bytes(
            sizes[0].width_microns,
            sizes[0].height_microns,
        )
    }
}

fn put_media(payload: &mut Vec<u8>, sizes: &Vec<MediaSize>)
    ensures
        final(payload)@ == with_media(old(payload)@, views(sizes@)),
{
    repeated_attribute(payload, 0x44, "media-supported", &media_keywords(sizes));
    if sizes.len() > 0 {
        text_attribute(payload, 0x44, "media-default", sizes[0].name.as_str());
        media_col_default_attribute(payload, sizes[0].width_microns, sizes[0].height_microns);
    }
}

/// The resolutions of a printer; the first is the default.
pub open spec fn with_resolutions(payload: Seq<u8>, resolutions: Seq<PrintResolution>) -> Seq<u8> {
    let first = if resolutions.len() == 0 {
        payload
    } else {
        payload + attribute_bytes(
            0x32,
            "printer-resolution-default"@,
            resolution_value(resolutions[0].horizontal_dpi, resolutions[0].vertical_dpi),
        )
    };
    first + repeated_bytes(
        0x32,
        "printer-resolution-supported"@,
        encoded_resolutions(resolution_pairs(resolutions)),
    )
}

fn put_resolutions(payload: &mut Vec<u8>, resolutions: &Vec<PrintResolution>)
    ensures
        final(payload)@ == with_resolutions(old(payload)@, resolutions@),
{
    if resolutions.len() > 0 {
        resolution_attribute(
            payload,
            "printer-resolution-default",
            resolutions[0].horizontal_dpi,
            resolutions[0].vertical_dpi,
        );
    }
    repeated_resolution_attribute(
        payload,
        "printer-resolution-supported",
        &pairs_of(resolutions),
    );
}

/// How the protocol names the ways of printing in color.
pub open spec fn color_keywords(color: bool) -> Seq<Seq<char>> {
    if color {
        seq!["monochrome"@, "color"@]
    } else {
        seq!["monochrome"@]
    }
}

/// Whether a printer prints in color.
pub open spec fn with_colors(payload: Seq<u8>, color: bool) -> Seq<u8> {
    payload + text_bytes(0x44, "print-color-mode-default"@, "monochrome"@) + repeated_bytes(
        0x44,
        "print-color-mode-supported"@,
        encoded_texts(color_keywords(color)),
    )
}

fn put_colors(payload: &mut Vec<u8>, color: bool)
    ensures
        final(payload)@ == with_colors(old(payload)@, color),
{
    let mut values: Vec<&str> = Vec::new();
    values.push("monochrome");
    if color {
        values.push("color");
    }
    assert(values@.map_values(|text: &str| text@) =~= color_keywords(color));
    text_attribute(payload, 0x44, "print-color-mode-default", "monochrome");
    repeated_attribute(payload, 0x44, "print-color-mode-supported", &values);
}

/// Color and sides.
pub open spec fn with_modes(payload: Seq<u8>, color: bool, modes: Seq<DuplexMode>) -> Seq<u8> {
    payload + attribute_bytes(0x22, "color-supported"@, boolean_value(color)) + repeated_bytes(
        0x44,
        "sides-supported"@,
        encoded_texts(modes.map_values(|mode: DuplexMode| sides_keyword(mode))),
    ) + text_bytes(0x44, "sides-default"@, "one-sided"@)
}

fn put_modes(payload: &mut Vec<u8>, color: bool, modes: &Vec<DuplexMode>)
    ensures
        final(payload)@ == with_modes(old(payload)@, color, modes@),
{
    boolean_attribute(payload, "color-supported", color);
    repeated_attribute(payload, 0x44, "sides-supported", &sides(modes));
    text_attribute(payload, 0x44, "sides-default", "one-sided");
}

/// `n` with its 32 bits read as a signed number.
pub open spec fn reinterpreted(n: u32) -> i32 {
    signed(n as nat)
}

/// Copies and orientations.
pub open spec fn with_copies(payload: Seq<u8>, max_copies: u32) -> Seq<u8> {
    payload + attribute_bytes(
        0x33,
        "copies-supported"@,
        be32(twos(1)) + be32(twos(reinterpreted(max_copies))),
    ) + number_bytes(0x21, "copies-default"@, 1) + number_bytes(
        0x23,
        "orientation-requested-default"@,
        3,
    ) + repeated_bytes(
        0x23,
        "orientation-requested-supported"@,
        encoded_numbers(seq![3i32, 4i32]),
    )
}

fn put_copies(payload: &mut Vec<u8>, max_copies: u32)
    ensures
        final(payload)@ == with_copies(old(payload)@, max_copies),
{
    range_attribute(payload, "copies-supported", 1, to_signed(max_copies));
    integer_attribute(payload, "copies-default", 1);
    enum_attribute(payload, "orientation-requested-default", 3);
    put_orientations(payload);
}

/// Everything that a print queue learns about a printer.
pub open spec fn printer_payload(port: u16, remote: RemotePrinterView, now_ms: TimestampMs) -> Seq<
    u8,
> {
    let printer = remote.printer;
    let capabilities = printer.capabilities;
    let color = capabilities.color_modes.contains(ColorMode::Color);
    let start = operation_bytes() + seq![0x04u8];
    let named = with_identity(
        start,
        queue_uri(port, remote),
        printer.display_name,
        printer.share_id,
    );
    let stated = with_state(named, up_time(now_ms));
    let modes = with_modes(stated, color, capabilities.duplex_modes);
    let media = with_media(modes, capabilities.media_sizes);
    let copies = with_copies(media, capabilities.max_copies);
    with_colors(with_resolutions(copies, capabilities.resolutions), color)
}

/// The answer to a question about a printer.
pub fn printer_attributes_response(
    port: u16,
    remote: &RemotePrinter,
    request: &IppRequest,
    now_ms: TimestampMs,
) -> (r: Vec<u8>)
    ensures
        r@ == response_bytes(
            request@.version,
            IPP_OK,
            request@.request_id,
            printer_payload(port, remote@, now_ms),
        ),
{
    let capabilities = &remote.printer.capabilities;
    let color = prints_color(&capabilities.color_modes);
    let mut payload = operation_attributes();
    put_byte(&mut payload, 0x04);
    put_identity(
        &mut payload,
        printer_uri(port, remote).as_str(),
        remote.printer.display_name.as_str(),
        remote.printer.share_id.as_str(),
    );
    put_state(&mut payload, up_time_seconds(now_ms));
    put_modes(&mut payload, color, &capabilities.duplex_modes);
    put_media(&mut payload, &capabilities.media_sizes);
    put_copies(&mut payload, capabilities.max_copies);
    put_resolutions(&mut payload, &capabilities.resolutions);
    put_colors(&mut payload, color);
    ipp_response(&request.version, IPP_OK, request.request_id, payload)
}

/// The page about a queue has the queue's own address but for the scheme.
pub proof fn law_info_page_is_at_queue(port: u16, remote: RemotePrinterView)
    ensures
        has_prefix(queue_uri(port, remote), "ipp://"@),
        info_uri(queue_uri(port, remote)) == "http://"@ + queue_uri(port, remote).skip(6),
{
    reveal_strlit("ipp://");
    reveal_strlit("ipp://127.0.0.1:");
    let uri = queue_uri(port, remote);
    assert(uri.subrange(0, 6) =~= "ipp://"@);
}

} // verus!
