//! Between the domain and the messages of the print protocol.
use vstd::prelude::*;
use vstd::string::*;

use crate::domain::capability::{
    copied, ColorMode, DuplexMode, MediaSize, MediaSizeView, Orientation,
    PrinterCapabilities, PrinterCapabilitiesView,
};
use crate::domain::id::{parsed_id, valid_id, ClientJobId, DeviceId, PrinterShareId};
use crate::domain::job::{
    PrintDocument, PrintDocumentView, PrintJob, PrintJobView, PrintOptions,
    PrintOptionsView,
};
use crate::domain::printer::{PublishedPrinter, PublishedPrinterView};
use crate::error::{outcome, PrintError, PrintErrorView, PrintResult};
use crate::infrastructure::messages::{
    PrintCreateJobRequest, PrintCreateJobRequestView, PrintDocumentMetadata,
    PrintDocumentMetadataView, PrintJobInfo, PrintJobInfoView, PrintJobOptions, PrintJobOptionsView,
    PrintPrinterCapabilities, PrintPrinterCapabilitiesView, PrintPrinterList, PrintPrinterListView,
    PrintPublishedPrinter, PrintPublishedPrinterView, Status, StatusView, WireJobState,
};
use crate::model::{opt, views};
use crate::text::{bytes_between, is_blank};

verus! {

/// A job as a device offers it over the network.
#[derive(Debug)]
pub struct CreateJobOffer {
    pub client_job_id: ClientJobId,
    pub printer_share_id: PrinterShareId,
    pub document: PrintDocument,
    pub options: PrintOptions,
}

pub struct CreateJobOfferView {
    pub client_job_id: Seq<char>,
    pub printer_share_id: Seq<char>,
    pub document: PrintDocumentView,
    pub options: PrintOptionsView,
}

impl View for CreateJobOffer {
    type V = CreateJobOfferView;

    open spec fn view(&self) -> CreateJobOfferView {
        CreateJobOfferView {
            client_job_id: self.client_job_id@,
            printer_share_id: self.printer_share_id@,
            document: self.document@,
            options: self.options@,
        }
    }
}

impl Clone for CreateJobOffer {
    fn clone(&self) -> (r: Self)
        ensures
            r@ == self@,
    {
        CreateJobOffer {
            client_job_id: self.client_job_id.clone(),
            printer_share_id: self.printer_share_id.clone(),
            document: self.document.clone(),
            options: self.options.clone(),
        }
    }
}

/// A document as a message.
pub open spec fn document_message(document: PrintDocumentView) -> PrintDocumentMetadataView {
    PrintDocumentMetadataView {
        name: document.name,
        media_type: document.media_type,
        size_bytes: document.size_bytes,
        sha256: document.sha256,
    }
}

/// A document as a message.
pub fn encode_document(document: &PrintDocument) -> (r: PrintDocumentMetadata)
    ensures
        r@ == document_message(document@),
{
    let sha256 = bytes_between(&document.sha256, 0, 32);
    assert(sha256@ =~= document.sha256@);
    PrintDocumentMetadata {
        name: document.name.clone(),
        media_type: document.media_type.clone(),
        size_bytes: document.size_bytes,
        sha256,
    }
}

/// Options as a message.
pub open spec fn options_message(options: PrintOptionsView) -> PrintJobOptionsView {
    PrintJobOptionsView {
        copies: options.copies,
        color_mode: Some(options.color_mode),
        duplex_mode: Some(options.duplex_mode),
        orientation: Some(options.orientation),
        media_name: options.media_name,
        page_ranges: options.page_ranges,
        collate: options.collate,
    }
}

/// Options as a message.
pub fn encode_options(options: &PrintOptions) -> (r: PrintJobOptions)
    ensures
        r@ == options_message(options@),
{
    PrintJobOptions {
        copies: options.copies,
        color_mode: Some(options.color_mode),
        duplex_mode: Some(options.duplex_mode),
        orientation: Some(options.orientation),
        media_name: options.media_name.clone(),
        page_ranges: copied(&options.page_ranges),
        collate: options.collate,
    }
}

/// The document that a message describes.
pub open spec fn decoded_document(
    message: Option<PrintDocumentMetadataView>,
) -> core::result::Result<PrintDocumentView, PrintErrorView> {
    match message {
        None => Err(PrintErrorView::Invalid("print job document is missing"@)),
        Some(m) => if m.sha256.len() != 32 {
            Err(PrintErrorView::Invalid("print document SHA-256 must be 32 bytes"@))
        } else {
            let document = PrintDocumentView {
                name: m.name,
                media_type: m.media_type,
                size_bytes: m.size_bytes,
                sha256: m.sha256,
            };
            match document.validation() {
                Ok(_) => Ok(document),
                Err(error) => Err(error),
            }
        },
    }
}

/// The options that a message describes.
pub open spec fn decoded_options(message: Option<PrintJobOptionsView>) -> core::result::Result<
    PrintOptionsView,
    PrintErrorView,
> {
    match message {
        None => Err(PrintErrorView::Invalid("print job options are missing"@)),
        Some(m) => if m.color_mode is None {
            Err(PrintErrorView::Invalid("unsupported print color mode"@))
        } else if m.duplex_mode is None {
            Err(PrintErrorView::Invalid("unsupported print duplex mode"@))
        } else if m.orientation is None {
            Err(PrintErrorView::Invalid("unsupported print orientation"@))
        } else {
            let options = PrintOptionsView {
                copies: m.copies,
                color_mode: m.color_mode->Some_0,
                duplex_mode: m.duplex_mode->Some_0,
                orientation: m.orientation->Some_0,
                media_name: m.media_name,
                page_ranges: m.page_ranges,
                collate: m.collate,
            };
            match options.validation() {
                Ok(_) => Ok(options),
                Err(error) => Err(error),
            }
        },
    }
}

/// The offer that a message describes.
pub open spec fn decoded_offer(request: PrintCreateJobRequestView) -> core::result::Result<
    CreateJobOfferView,
    PrintErrorView,
> {
    match decoded_document(request.document) {
        Err(error) => Err(error),
        Ok(document) => match decoded_options(request.options) {
            Err(error) => Err(error),
            Ok(options) => match parsed_id("client job id"@, request.client_job_id) {
                Err(error) => Err(error),
                Ok(client_job_id) => match parsed_id("printer share id"@, request.printer_share_id) {
                    Err(error) => Err(error),
                    Ok(printer_share_id) => Ok(
                        CreateJobOfferView { client_job_id, printer_share_id, document, options },
                    ),
                },
            },
        },
    }
}

/// The 32 bytes of a digest, if there are so many.
pub fn digest_of(bytes: &Vec<u8>) -> (r: Option<[u8; 32]>)
    ensures
        r is Some <==> bytes@.len() == 32,
        r matches Some(digest) ==> digest@ == bytes@,
{
    if bytes.len() != 32 {
        return None;
    }
    let mut digest: [u8; 32] = [0;32];
    let mut i: usize = 0;
    while i < 32
        invariant
            bytes@.len() == 32,
            i <= 32,
            forall|j: int| 0 <= j < i ==> digest@[j] == bytes@[j],
        decreases 32 - i,
    {
        digest[i] = bytes[i];
        i += 1;
    }
    assert(digest@ =~= bytes@);
    Some(digest)
}

fn decode_document(message: Option<PrintDocumentMetadata>) -> (r: PrintResult<PrintDocument>)
    ensures
        outcome(r) == decoded_document(opt(message)),
{
    let m = match message {
        Some(m) => m,
        None => {
            return Err(PrintError::Invalid("print job document is missing".to_string()));
        },
    };
    let sha256 = match digest_of(&m.sha256) {
        Some(digest) => digest,
        None => {
            return Err(PrintError::Invalid("print document SHA-256 must be 32 bytes".to_string()));
        },
    };
    let document = PrintDocument {
        name: m.name,
        media_type: m.media_type,
        size_bytes: m.size_bytes,
        sha256,
    };
    match document.validate() {
        Ok(_) => Ok(document),
        Err(error) => Err(error),
    }
}

fn decode_color_mode(value: Option<ColorMode>) -> (r: PrintResult<ColorMode>)
    ensures
        match value {
            Some(mode) => r matches Ok(m) && m == mode,
            None => r matches Err(e) && e@ == PrintErrorView::Invalid(
                "unsupported print color mode"@,
            ),
        },
{
    match value {
        Some(mode) => Ok(mode),
        None => Err(PrintError::Invalid("unsupported print color mode".to_string())),
    }
}

fn decode_duplex_mode(value: Option<DuplexMode>) -> (r: PrintResult<DuplexMode>)
    ensures
        match value {
            Some(mode) => r matches Ok(m) && m == mode,
            None => r matches Err(e) && e@ == PrintErrorView::Invalid(
                "unsupported print duplex mode"@,
            ),
        },
{
    match value {
        Some(mode) => Ok(mode),
        None => Err(PrintError::Invalid("unsupported print duplex mode".to_string())),
    }
}

fn decode_orientation(value: Option<Orientation>) -> (r: PrintResult<Orientation>)
    ensures
        match value {
            Some(orientation) => r matches Ok(o) && o == orientation,
            None => r matches Err(e) && e@ == PrintErrorView::Invalid(
                "unsupported print orientation"@,
            ),
        },
{
    match value {
        Some(orientation) => Ok(orientation),
        None => Err(PrintError::Invalid("unsupported print orientation".to_string())),
    }
}

fn decode_options(message: Option<PrintJobOptions>) -> (r: PrintResult<PrintOptions>)
    ensures
        outcome(r) == decoded_options(opt(message)),
{
    let m = match message {
        Some(m) => m,
        None => {
            return Err(PrintError::Invalid("print job options are missing".to_string()));
        },
    };
    let color_mode = match decode_color_mode(m.color_mode) {
        Ok(mode) => mode,
        Err(error) => {
            return Err(error);
        },
    };
    let duplex_mode = match decode_duplex_mode(m.duplex_mode) {
        Ok(mode) => mode,
        Err(error) => {
            return Err(error);
        },
    };
    let orientation = match decode_orientation(m.orientation) {
        Ok(orientation) => orientation,
        Err(error) => {
            return Err(error);
        },
    };
    let options = PrintOptions {
        copies: m.copies,
        color_mode,
        duplex_mode,
        orientation,
        media_name: m.media_name,
        page_ranges: m.page_ranges,
        collate: m.collate,
    };
    match options.validate() {
        Ok(_) => Ok(options),
        Err(error) => Err(error),
    }
}

/// The offer that a message describes.
pub fn decode_create_job(request: PrintCreateJobRequest) -> (r: PrintResult<CreateJobOffer>)
    ensures
        outcome(r) == decoded_offer(request@),
{
    let document = match decode_document(request.document) {
        Ok(document) => document,
        Err(error) => {
            return Err(error);
        },
    };
    let options = match decode_options(request.options) {
        Ok(options) => options,
        Err(error) => {
            return Err(error);
        },
    };
    let client_job_id = match ClientJobId::parse(request.client_job_id.as_str()) {
        Ok(id) => id,
        Err(error) => {
            return Err(error);
        },
    };
    let printer_share_id = match PrinterShareId::parse(request.printer_share_id.as_str()) {
        Ok(id) => id,
        Err(error) => {
            return Err(error);
        },
    };
    Ok(CreateJobOffer { client_job_id, printer_share_id, document, options })
}

/// Modes as a message holds them.
pub open spec fn some_each<T>(modes: Seq<T>) -> Seq<Option<T>> {
    modes.map_values(|mode: T| Some(mode))
}

/// Capabilities as a message.
pub open spec fn capabilities_message(c: PrinterCapabilitiesView) -> PrintPrinterCapabilitiesView {
    PrintPrinterCapabilitiesView {
        media_sizes: c.media_sizes,
        color_modes: some_each(c.color_modes),
        duplex_modes: some_each(c.duplex_modes),
        resolutions: c.resolutions,
        max_copies: c.max_copies,
        supports_page_ranges: c.supports_page_ranges,
        supports_collation: c.supports_collation,
        accepted_document_types: c.accepted_document_types,
    }
}

fn wrap_each<T: Copy>(modes: &Vec<T>) -> (r: Vec<Option<T>>)
    ensures
        r@ == some_each(modes@),
{
    let mut out: Vec<Option<T>> = Vec::new();
    let mut i: usize = 0;
    while i < modes.len()
        invariant
            i <= modes@.len(),
            out@.len() == i,
            forall|j: int| 0 <= j < i ==> out@[j] == Some(modes@[j]),
        decreases modes@.len() - i,
    {
        out.push(Some(modes[i]));
        i += 1;
    }
    assert(out@ =~= some_each(modes@));
    out
}

/// Capabilities as a message.
pub fn encode_capabilities(capabilities: &PrinterCapabilities) -> (r: PrintPrinterCapabilities)
    ensures
        r@ == capabilities_message(capabilities@),
{
    let copy = capabilities.clone();
    PrintPrinterCapabilities {
        media_sizes: copy.media_sizes,
        color_modes: wrap_each(&copy.color_modes),
        duplex_modes: wrap_each(&copy.duplex_modes),
        resolutions: copy.resolutions,
        max_copies: copy.max_copies,
        supports_page_ranges: copy.supports_page_ranges,
        supports_collation: copy.supports_collation,
        accepted_document_types: copy.accepted_document_types,
    }
}

/// A sheet that [`MediaSize::new`] accepts.
pub open spec fn usable_size(size: MediaSizeView) -> bool {
    !is_blank(size.name) && size.width_microns != 0 && size.height_microns != 0
}

/// Sheets that are all acceptable.
pub open spec fn usable_sizes(sizes: Seq<MediaSizeView>) -> bool {
    forall|i: int| 0 <= i < sizes.len() ==> usable_size(#[trigger] sizes[i])
}

/// Modes that the protocol all defines.
pub open spec fn all_defined<T>(modes: Seq<Option<T>>) -> bool {
    forall|i: int| 0 <= i < modes.len() ==> (#[trigger] modes[i]) is Some
}

/// The modes themselves.
pub open spec fn defined<T>(modes: Seq<Option<T>>) -> Seq<T> {
    modes.map_values(|mode: Option<T>| mode->Some_0)
}

/// The capabilities that a message describes.
pub open spec fn decoded_capabilities(m: PrintPrinterCapabilitiesView) -> core::result::Result<
    PrinterCapabilitiesView,
    PrintErrorView,
> {
    if !usable_sizes(m.media_sizes) {
        Err(PrintErrorView::Invalid("invalid media size"@))
    } else if !all_defined(m.color_modes) {
        Err(PrintErrorView::Invalid("unsupported print color mode"@))
    } else if !all_defined(m.duplex_modes) {
        Err(PrintErrorView::Invalid("unsupported print duplex mode"@))
    } else {
        let capabilities = PrinterCapabilitiesView {
            media_sizes: m.media_sizes,
            color_modes: defined(m.color_modes),
            duplex_modes: defined(m.duplex_modes),
            resolutions: m.resolutions,
            max_copies: m.max_copies,
            supports_page_ranges: m.supports_page_ranges,
            supports_collation: m.supports_collation,
            accepted_document_types: m.accepted_document_types,
        };
        match capabilities.validation() {
            Ok(_) => Ok(capabilities),
            Err(error) => Err(error),
        }
    }
}

fn decode_media_sizes(sizes: &Vec<MediaSize>) -> (r: PrintResult<Vec<MediaSize>>)
    ensures
        if usable_sizes(views(sizes@)) {
            r matches Ok(v) && views(v@) == views(sizes@)
        } else {
            r matches Err(e) && e@ == PrintErrorView::Invalid("invalid media size"@)
        },
{
    let ghost all = views(sizes@);
    let mut out: Vec<MediaSize> = Vec::new();
    let mut i: usize = 0;
    while i < sizes.len()
        invariant
            i <= sizes@.len(),
            all == views(sizes@),
            out@.len() == i,
            forall|j: int| 0 <= j < i ==> usable_size(#[trigger] all[j]) && out@[j]@ == all[j],
        decreases sizes@.len() - i,
    {
        let size = &sizes[i];
        assert(all[i as int] == size@);
        match MediaSize::new(size.name.as_str(), size.width_microns, size.height_microns) {
            Ok(size) => {
                out.push(size);
            },
            Err(error) => {
                assert(!usable_size(all[i as int]));
                return Err(error);
            },
        }
        i += 1;
    }
    assert(views(out@) =~= all);
    Ok(out)
}

fn decode_color_modes(modes: &Vec<Option<ColorMode>>) -> (r: PrintResult<Vec<ColorMode>>)
    ensures
        if all_defined(modes@) {
            r matches Ok(v) && v@ == defined(modes@)
        } else {
            r matches Err(e) && e@ == PrintErrorView::Invalid("unsupported print color mode"@)
        },
{
    let mut out: Vec<ColorMode> = Vec::new();
    let mut i: usize = 0;
    while i < modes.len()
        invariant
            i <= modes@.len(),
            out@.len() == i,
            forall|j: int| 0 <= j < i ==> (#[trigger] modes@[j]) == Some(out@[j]),
        decreases modes@.len() - i,
    {
        match decode_color_mode(modes[i]) {
            Ok(mode) => {
                out.push(mode);
            },
            Err(error) => {
                assert(!(modes@[i as int] is Some));
                return Err(error);
            },
        }
        i += 1;
    }
    assert(out@ =~= defined(modes@));
    Ok(out)
}

fn decode_duplex_modes(modes: &Vec<Option<DuplexMode>>) -> (r: PrintResult<Vec<DuplexMode>>)
    ensures
        if all_defined(modes@) {
            r matches Ok(v) && v@ == defined(modes@)
        } else {
            r matches Err(e) && e@ == PrintErrorView::Invalid("unsupported print duplex mode"@)
        },
{
    let mut out: Vec<DuplexMode> = Vec::new();
    let mut i: usize = 0;
    while i < modes.len()
        invariant
            i <= modes@.len(),
            out@.len() == i,
            forall|j: int| 0 <= j < i ==> (#[trigger] modes@[j]) == Some(out@[j]),
        decreases modes@.len() - i,
    {
        match decode_duplex_mode(modes[i]) {
            Ok(mode) => {
                out.push(mode);
            },
            Err(error) => {
                assert(!(modes@[i as int] is Some));
                return Err(error);
            },
        }
        i += 1;
    }
    assert(out@ =~= defined(modes@));
    Ok(out)
}

/// The capabilities that a message describes.
pub fn decode_capabilities(capabilities: PrintPrinterCapabilities) -> (r: PrintResult<
    PrinterCapabilities,
>)
    ensures
        outcome(r) == decoded_capabilities(capabilities@),
{
    let media_sizes = match decode_media_sizes(&capabilities.media_sizes) {
        Ok(sizes) => sizes,
        Err(error) => {
            return Err(error);
        },
    };
    let color_modes = match decode_color_modes(&capabilities.color_modes) {
        Ok(modes) => modes,
        Err(error) => {
            return Err(error);
        },
    };
    let duplex_modes = match decode_duplex_modes(&capabilities.duplex_modes) {
        Ok(modes) => modes,
        Err(error) => {
            return Err(error);
        },
    };
    let decoded = PrinterCapabilities {
        media_sizes,
        color_modes,
        duplex_modes,
        resolutions: capabilities.resolutions,
        max_copies: capabilities.max_copies,
        supports_page_ranges: capabilities.supports_page_ranges,
        supports_collation: capabilities.supports_collation,
        accepted_document_types: capabilities.accepted_document_types,
    };
    match decoded.validate() {
        Ok(_) => Ok(decoded),
        Err(error) => Err(error),
    }
}

/// A printer as a message.
pub open spec fn printer_message(printer: PublishedPrinterView) -> PrintPublishedPrinterView {
    PrintPublishedPrinterView {
        share_id: printer.share_id,
        display_name: printer.display_name,
        state: printer.status,
        capabilities: Some(capabilities_message(printer.capabilities)),
        capability_revision: printer.capability_revision,
    }
}

/// A printer as a message.
pub fn encode_printer(printer: &PublishedPrinter) -> (r: PrintPublishedPrinter)
    ensures
        r@ == printer_message(printer@),
{
    PrintPublishedPrinter {
        share_id: printer.share_id.to_string(),
        display_name: printer.display_name.clone(),
        state: printer.status,
        capabilities: Some(encode_capabilities(&printer.capabilities)),
        capability_revision: printer.capability_revision,
    }
}

/// The printer that a message of a device describes.
pub open spec fn decoded_printer(
    source_device_id: Seq<char>,
    source_device_name: Seq<char>,
    printer: PrintPublishedPrinterView,
) -> core::result::Result<PublishedPrinterView, PrintErrorView> {
    match parsed_id("printer share id"@, printer.share_id) {
        Err(error) => Err(error),
        Ok(share_id) => match printer.capabilities {
            None => Err(PrintErrorView::Invalid("printer capabilities are missing"@)),
            Some(message) => match decoded_capabilities(message) {
                Err(error) => Err(error),
                Ok(capabilities) => Ok(
                    PublishedPrinterView {
                        source_device_id,
                        source_device_name,
                        share_id,
                        display_name: printer.display_name,
                        status: printer.state,
                        capabilities,
                        capability_revision: printer.capability_revision,
                    },
                ),
            },
        },
    }
}

/// The printer that a message of a device describes.
pub fn decode_printer(
    source_device_id: &DeviceId,
    source_device_name: &str,
    printer: PrintPublishedPrinter,
) -> (r: PrintResult<PublishedPrinter>)
    ensures
        outcome(r) == decoded_printer(source_device_id@, source_device_name@, printer@),
{
    let share_id = match PrinterShareId::parse(printer.share_id.as_str()) {
        Ok(id) => id,
        Err(error) => {
            return Err(error);
        },
    };
    let message = match printer.capabilities {
        Some(message) => message,
        None => {
            return Err(PrintError::Invalid("printer capabilities are missing".to_string()));
        },
    };
    let capabilities = match decode_capabilities(message) {
        Ok(capabilities) => capabilities,
        Err(error) => {
            return Err(error);
        },
    };
    Ok(
        PublishedPrinter {
            source_device_id: source_device_id.clone(),
            source_device_name: source_device_name.to_string(),
            share_id,
            display_name: printer.display_name,
            status: printer.state,
            capabilities,
            capability_revision: printer.capability_revision,
        },
    )
}

/// The printers of a device as a message.
pub open spec fn printer_list_message(
    device_id: Seq<char>,
    device_name: Seq<char>,
    printers: Seq<PublishedPrinterView>,
    status: StatusView,
) -> PrintPrinterListView {
    PrintPrinterListView {
        status: Some(status),
        source_device_id: device_id,
        source_device_name: device_name,
        printers: printers.map_values(|p: PublishedPrinterView| printer_message(p)),
    }
}

/// The printers of a device as a message.
pub fn encode_printer_list(
    device_id: &DeviceId,
    device_name: &str,
    printers: &Vec<PublishedPrinter>,
    status: Status,
) -> (r: PrintPrinterList)
    ensures
        r@ == printer_list_message(device_id@, device_name@, views(printers@), status@),
{
    let mut out: Vec<PrintPublishedPrinter> = Vec::new();
    let mut i: usize = 0;
    while i < printers.len()
        invariant
            i <= printers@.len(),
            out@.len() == i,
            forall|j: int| 0 <= j < i ==> (#[trigger] out@[j])@ == printer_message(printers@[j]@),
        decreases printers@.len() - i,
    {
        out.push(encode_printer(&printers[i]));
        i += 1;
    }
    assert(views(out@) =~= views(printers@).map_values(
        |p: PublishedPrinterView| printer_message(p),
    ));
    PrintPrinterList {
        status: Some(status),
        source_device_id: device_id.to_string(),
        source_device_name: device_name.to_string(),
        printers: out,
    }
}

/// A job as a message.
pub open spec fn job_message(job: PrintJobView) -> PrintJobInfoView {
    PrintJobInfoView {
        job_id: job.id,
        client_job_id: job.client_job_id,
        printer_share_id: job.printer_share_id,
        state: WireJobState::Known(job.state),
        failure_message: job.failure_message,
        created_at_ms: job.created_at_ms,
        updated_at_ms: job.updated_at_ms,
    }
}

/// A job as a message.
pub fn encode_job(job: &PrintJob) -> (r: PrintJobInfo)
    ensures
        r@ == job_message(job@),
{
    PrintJobInfo {
        job_id: job.id.to_string(),
        client_job_id: job.client_job_id.to_string(),
        printer_share_id: job.printer_share_id.to_string(),
        state: WireJobState::Known(job.state),
        failure_message: match &job.failure_message {
            Some(message) => Some(message.clone()),
            None => None,
        },
        created_at_ms: job.created_at_ms,
        updated_at_ms: job.updated_at_ms,
    }
}

/// A valid offer that is sent is received as it was.
pub proof fn law_offer_round_trip(offer: CreateJobOfferView)
    requires
        offer.document.sha256.len() == 32,
        offer.document.validation() is Ok,
        offer.options.validation() is Ok,
        valid_id(offer.client_job_id),
        valid_id(offer.printer_share_id),
    ensures
        decoded_offer(
            PrintCreateJobRequestView {
                client_job_id: offer.client_job_id,
                printer_share_id: offer.printer_share_id,
                document: Some(document_message(offer.document)),
                options: Some(options_message(offer.options)),
            },
        ) == Ok::<CreateJobOfferView, PrintErrorView>(offer),
{
}

/// Valid capabilities that are sent are received as they were.
pub proof fn law_capabilities_round_trip(capabilities: PrinterCapabilitiesView)
    requires
        capabilities.validation() is Ok,
        usable_sizes(capabilities.media_sizes),
    ensures
        decoded_capabilities(capabilities_message(capabilities)) == Ok::<
            PrinterCapabilitiesView,
            PrintErrorView,
        >(capabilities),
{
    let m = capabilities_message(capabilities);
    assert(defined(m.color_modes) =~= capabilities.color_modes);
    assert(defined(m.duplex_modes) =~= capabilities.duplex_modes);
}

/// A valid printer that is sent is received as it was.
pub proof fn law_printer_round_trip(printer: PublishedPrinterView)
    requires
        printer.capabilities.validation() is Ok,
        usable_sizes(printer.capabilities.media_sizes),
        valid_id(printer.share_id),
    ensures
        decoded_printer(
            printer.source_device_id,
            printer.source_device_name,
            printer_message(printer),
        ) == Ok::<PublishedPrinterView, PrintErrorView>(printer),
{
    law_capabilities_round_trip(printer.capabilities);
}

/// What is received is always valid.
pub proof fn law_received_offers_are_valid(request: PrintCreateJobRequestView)
    ensures
        decoded_offer(request) matches Ok(offer) ==> {
            &&& offer.document.validation() is Ok
            &&& offer.options.validation() is Ok
            &&& valid_id(offer.client_job_id)
            &&& valid_id(offer.printer_share_id)
        },
{
}

} // verus!
