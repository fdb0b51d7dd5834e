//! Printers, shares, queues and jobs.
use arcrelay_print::domain::{
    is_managed_remote_queue_name, ClientJobId, ColorMode, DeviceId, DuplexMode, LocalPrinter,
    LocalPrinterId, MediaSize, NativeJobId, Orientation, PageRange, PrintDocument, PrintJob,
    PrintJobId, PrintJobState, PrintOptions, PrintResolution, PrinterCapabilities, PrinterShare,
    PrinterShareId, PrinterStatus, QueueBindingId, QueueBindingState, RemoteQueueBinding,
    ShareScope, ShareState, SystemQueueId, MAX_DOCUMENT_BYTES,
};
use arcrelay_print::{IoErrorKind, PrintError};

fn document() -> PrintDocument {
    PrintDocument {
        name: "document.pdf".into(),
        media_type: "application/pdf".into(),
        size_bytes: 10,
        sha256: [7; 32],
    }
}

fn options() -> PrintOptions {
    PrintOptions {
        copies: 1,
        color_mode: ColorMode::Monochrome,
        duplex_mode: DuplexMode::OneSided,
        orientation: Orientation::Portrait,
        media_name: "iso_a4_210x297mm".into(),
        page_ranges: vec![],
        collate: false,
    }
}

fn job() -> PrintJob {
    PrintJob::offer(
        ClientJobId::parse("client-job").unwrap(),
        DeviceId::parse("device").unwrap(),
        PrinterShareId::parse("share").unwrap(),
        document(),
        options(),
        1,
    )
    .unwrap()
}

fn capabilities() -> PrinterCapabilities {
    PrinterCapabilities {
        media_sizes: vec![MediaSize::new("iso_a4_210x297mm", 210_000, 297_000).unwrap()],
        color_modes: vec![ColorMode::Monochrome],
        duplex_modes: vec![DuplexMode::OneSided],
        resolutions: vec![PrintResolution {
            horizontal_dpi: 300,
            vertical_dpi: 300,
        }],
        max_copies: 1,
        supports_page_ranges: true,
        supports_collation: false,
        accepted_document_types: vec!["application/pdf".into()],
    }
}

fn printer() -> LocalPrinter {
    LocalPrinter {
        id: LocalPrinterId::parse("printer").unwrap(),
        display_name: "Test Printer".into(),
        status: PrinterStatus::Ready,
        connection_kind: "test".into(),
        is_default: true,
        capabilities: capabilities(),
    }
}

#[test]
fn job_cannot_skip_validation_or_reprint_after_completion() {
    let mut job = job();
    assert!(job
        .queued(NativeJobId::parse("native").unwrap(), 2)
        .is_err());
    job.begin_receiving(2).unwrap();
    job.document_received([7; 32], 3).unwrap();
    job.validated(4).unwrap();
    job.begin_submitting(5).unwrap();
    job.queued(NativeJobId::parse("native").unwrap(), 5)
        .unwrap();
    job.complete(6).unwrap();
    assert!(job.queued(NativeJobId::parse("again").unwrap(), 7).is_err());
}

#[test]
fn digest_mismatch_does_not_advance_job() {
    let mut job = job();
    job.begin_receiving(2).unwrap();
    assert!(job.document_received([8; 32], 3).is_err());
    assert_eq!(job.state, PrintJobState::Receiving);
}

#[test]
fn ambiguous_submission_cannot_return_to_ready_or_submit_again() {
    let mut job = job();
    job.begin_receiving(2).unwrap();
    job.document_received([7; 32], 3).unwrap();
    job.validated(4).unwrap();
    job.begin_submitting(5).unwrap();
    job.submission_ambiguous(None, "inspect system queue".into(), 6)
        .unwrap();

    assert_eq!(job.state, PrintJobState::Ambiguous);
    assert!(job.begin_submitting(7).is_err());
    assert!(job.validated(7).is_err());
}

#[test]
fn refused_transition_names_both_states_and_changes_nothing() {
    let mut job = job();
    let before = job.clone();
    let error = job.validated(9).unwrap_err();
    assert_eq!(
        error,
        PrintError::InvalidState("cannot transition Offered to Ready".into())
    );
    assert_eq!(
        error.to_string(),
        "print state does not allow this operation: cannot transition Offered to Ready"
    );
    assert_eq!(error.code(), "print.failed_precondition");
    assert_eq!(job, before);
    assert_eq!(
        job.document_received([7; 32], 2).unwrap_err(),
        PrintError::InvalidState("document is not being received".into())
    );
    job.begin_receiving(2).unwrap();
    assert_eq!(
        job.document_received([8; 32], 2).unwrap_err(),
        PrintError::Invalid("document digest does not match".into())
    );
}

#[test]
fn a_step_to_the_same_state_keeps_the_time() {
    let mut job = job();
    job.begin_receiving(5).unwrap();
    job.begin_receiving(8).unwrap();
    assert_eq!(job.updated_at_ms, 5);
}

#[test]
fn held_and_ambiguous_jobs_follow_the_spooler() {
    let mut job = job();
    job.begin_receiving(2).unwrap();
    job.document_received([7; 32], 3).unwrap();
    job.validated(4).unwrap();
    job.begin_submitting(5).unwrap();
    job.submission_ambiguous(
        Some(NativeJobId::parse("native-1").unwrap()),
        "in doubt".into(),
        6,
    )
    .unwrap();
    assert_eq!(job.native_job_id.as_ref().unwrap().as_str(), "native-1");
    assert_eq!(job.failure_message.as_deref(), Some("in doubt"));
    job.hold("paper".into(), 7).unwrap();
    assert_eq!(job.failure_message.as_deref(), Some("paper"));
    job.printing(8).unwrap();
    assert_eq!(job.failure_message, None);
    job.fail("jam".into(), 9).unwrap();
    assert!(job.state.terminal());
    assert_eq!(job.failure_message.as_deref(), Some("jam"));
    assert!(job.cancel(10).is_err());
}

#[test]
fn jobs_never_go_back() {
    let offered = job();
    let mut later = job();
    later.id = offered.id.clone();
    assert!(later.begin_submitting(2).is_err());
    later.begin_receiving(3).unwrap();
    later.document_received(offered.document.sha256, 4).unwrap();
    assert!(later.begin_receiving(5).is_err());
    later.validated(6).unwrap();
    later.begin_submitting(7).unwrap();
    assert!(later.validated(8).is_err());
    assert_eq!(later.state, PrintJobState::Submitting);
    later.cancel(9).unwrap();
    assert!(later.begin_submitting(10).is_err());
    assert_eq!(later.state, PrintJobState::Cancelled);
    assert_eq!(later.document, offered.document);
    assert_eq!(later.options, offered.options);
    assert_eq!(later.created_at_ms, offered.created_at_ms);
}

#[test]
fn documents_are_validated() {
    assert!(document().validate().is_ok());
    let mut d = document();
    d.name = " \u{3000}\t".into();
    assert_eq!(
        d.validate().unwrap_err(),
        PrintError::Invalid("invalid document name".into())
    );
    d.name = "x".repeat(513);
    assert!(d.validate().is_err());
    d.name = "é".repeat(256);
    assert!(d.validate().is_ok());
    d.name = "é".repeat(257);
    assert!(d.validate().is_err());
    let mut d = document();
    d.media_type = "text/plain".into();
    assert_eq!(
        d.validate().unwrap_err(),
        PrintError::Invalid("unsupported print document type: text/plain".into())
    );
    d.media_type = "image/pwg-raster".into();
    assert!(d.validate().is_ok());
    d.size_bytes = 0;
    assert_eq!(
        d.validate().unwrap_err(),
        PrintError::Invalid("invalid print document size".into())
    );
    d.size_bytes = MAX_DOCUMENT_BYTES;
    assert!(d.validate().is_ok());
    assert_eq!(MAX_DOCUMENT_BYTES, 524_288_000);
    d.size_bytes = MAX_DOCUMENT_BYTES + 1;
    assert!(d.validate().is_err());
}

#[test]
fn options_are_validated() {
    assert!(options().validate().is_ok());
    let mut o = options();
    o.copies = 0;
    assert_eq!(
        o.validate().unwrap_err(),
        PrintError::Invalid("invalid number of copies".into())
    );
    o.copies = 100;
    assert!(o.validate().is_ok());
    o.copies = 101;
    assert!(o.validate().is_err());
    let mut o = options();
    o.media_name = "  ".into();
    assert_eq!(
        o.validate().unwrap_err(),
        PrintError::Invalid("print media name is empty".into())
    );
    let mut o = options();
    o.page_ranges = vec![PageRange { first: 1, last: 2 }, PageRange { first: 3, last: 2 }];
    assert_eq!(
        o.validate().unwrap_err(),
        PrintError::Invalid("invalid page range".into())
    );
    o.page_ranges = vec![PageRange { first: 0, last: 2 }];
    assert!(o.validate().is_err());
    o.page_ranges = vec![PageRange { first: 2, last: 2 }];
    assert!(o.validate().is_ok());
}

#[test]
fn offers_need_a_valid_document_and_valid_options() {
    let mut o = options();
    o.copies = 0;
    let mut d = document();
    d.size_bytes = 0;
    let error = PrintJob::offer(
        ClientJobId::parse("client-job").unwrap(),
        DeviceId::parse("device").unwrap(),
        PrinterShareId::parse("share").unwrap(),
        d,
        o,
        1,
    )
    .unwrap_err();
    assert_eq!(error, PrintError::Invalid("invalid print document size".into()));
    let job = job();
    assert_eq!(job.state, PrintJobState::Offered);
    assert_eq!(job.created_at_ms, 1);
    assert_eq!(job.id.as_str().len(), 36);
}

#[test]
fn identifiers_are_limited() {
    assert_eq!(
        DeviceId::parse(" ").unwrap_err(),
        PrintError::Invalid("device id must contain 1 to 512 characters".into())
    );
    assert_eq!(
        LocalPrinterId::parse("").unwrap_err().message(),
        "local printer id must contain 1 to 512 characters"
    );
    assert_eq!(
        SystemQueueId::parse("").unwrap_err().message(),
        "system queue id must contain 1 to 512 characters"
    );
    assert_eq!(
        NativeJobId::parse("").unwrap_err().message(),
        "native job id must contain 1 to 512 characters"
    );
    assert_eq!(
        ClientJobId::parse("").unwrap_err().message(),
        "client job id must contain 1 to 512 characters"
    );
    assert_eq!(
        PrinterShareId::parse("").unwrap_err().message(),
        "printer share id must contain 1 to 512 characters"
    );
    assert_eq!(
        QueueBindingId::parse("").unwrap_err().message(),
        "queue binding id must contain 1 to 512 characters"
    );
    assert_eq!(
        PrintJobId::parse("").unwrap_err().message(),
        "print job id must contain 1 to 512 characters"
    );
    assert!(DeviceId::parse(&"a".repeat(512)).is_ok());
    assert!(DeviceId::parse(&"a".repeat(513)).is_err());
    assert_eq!(DeviceId::parse(" a ").unwrap().into_string(), " a ");
}

#[test]
fn random_identifiers_are_version_four_uuids_and_differ() {
    let a = PrintJobId::random();
    let b = PrintJobId::random();
    assert_ne!(a, b);
    let parsed = uuid::Uuid::parse_str(a.as_str()).unwrap();
    assert_eq!(parsed.get_version_num(), 4);
    assert_eq!(parsed.to_string(), a.to_string());
    assert!(PrinterShareId::parse(PrinterShareId::random().as_str()).is_ok());
    assert!(QueueBindingId::parse(QueueBindingId::random().as_str()).is_ok());
}

#[test]
fn media_sizes_and_capabilities_are_validated() {
    assert!(MediaSize::new(" ", 1, 1).is_err());
    assert!(MediaSize::new("a", 0, 1).is_err());
    assert_eq!(
        MediaSize::new("a", 1, 0).unwrap_err(),
        PrintError::Invalid("invalid media size".into())
    );
    assert!(capabilities().validate().is_ok());
    let mut c = capabilities();
    c.media_sizes.clear();
    assert_eq!(
        c.validate().unwrap_err().message(),
        "printer must advertise at least one media size"
    );
    let mut c = capabilities();
    c.max_copies = 0;
    assert_eq!(
        c.validate().unwrap_err().message(),
        "printer max copies must be positive"
    );
    let mut c = capabilities();
    c.accepted_document_types.clear();
    assert_eq!(
        c.validate().unwrap_err().message(),
        "printer must accept at least one document type"
    );
    let mut p = printer();
    p.display_name = "\n".into();
    assert_eq!(p.validate().unwrap_err().message(), "printer name is empty");
}

#[test]
fn recognizes_only_reserved_arcrelay_queue_names() {
    assert!(is_managed_remote_queue_name("ArcRelay_Office_ab12cd34"));
    assert!(!is_managed_remote_queue_name("Office_ArcRelay_Printer"));
    assert!(!is_managed_remote_queue_name("ArcRelay"));
}

#[test]
fn failed_binding_can_retry_installation() {
    let mut binding = RemoteQueueBinding::installing(
        DeviceId::parse("device").unwrap(),
        PrinterShareId::parse("share").unwrap(),
        "ArcRelay_Printer_share".into(),
        1,
    )
    .unwrap();
    binding.fail("already exists".into(), 2);

    binding.retry_installing(3).unwrap();

    assert_eq!(binding.state, QueueBindingState::Installing);
    assert_eq!(binding.failure_message, None);
    assert_eq!(binding.updated_at_ms, 3);
}

#[test]
fn bindings_follow_their_source() {
    assert_eq!(
        RemoteQueueBinding::installing(
            DeviceId::parse("device").unwrap(),
            PrinterShareId::parse("share").unwrap(),
            " ".into(),
            1,
        )
        .unwrap_err(),
        PrintError::Invalid("system queue name is empty".into())
    );
    let mut binding = RemoteQueueBinding::installing(
        DeviceId::parse("device").unwrap(),
        PrinterShareId::parse("share").unwrap(),
        "ArcRelay_Printer_share".into(),
        1,
    )
    .unwrap();
    assert_eq!(
        binding.begin_removal(2).unwrap_err().message(),
        "queue has not been installed"
    );
    assert_eq!(
        binding.retry_installing(2).unwrap_err().message(),
        "only a failed queue can retry installation"
    );
    binding.source_offline(2);
    assert_eq!(binding.updated_at_ms, 1);
    binding
        .installed(SystemQueueId::parse("queue").unwrap(), 3)
        .unwrap();
    assert_eq!(
        binding
            .installed(SystemQueueId::parse("queue").unwrap(), 3)
            .unwrap_err()
            .message(),
        "only an installing queue can become ready"
    );
    binding.source_offline(4);
    assert_eq!(binding.state, QueueBindingState::SourceOffline);
    binding.source_online(5);
    assert_eq!(binding.state, QueueBindingState::Ready);
    assert_eq!(binding.updated_at_ms, 5);
    binding.source_online(6);
    assert_eq!(binding.updated_at_ms, 5);
    binding.begin_removal(6).unwrap();
    binding.begin_removal(7).unwrap();
    assert_eq!(binding.state, QueueBindingState::Removing);
    assert_eq!(binding.updated_at_ms, 6);
}

#[test]
fn shares_are_suspended_resumed_and_removed() {
    let mut share = PrinterShare::publish(printer(), 1).unwrap();
    assert_eq!(share.scope, ShareScope::PairedDevices);
    assert_eq!(share.capability_revision, 1);
    share.suspend(2).unwrap();
    share.suspend(3).unwrap();
    assert_eq!(share.updated_at_ms, 2);
    share.resume(4).unwrap();
    assert_eq!(share.state, ShareState::Published);
    assert_eq!(share.updated_at_ms, 4);
    share.remove(5);
    assert_eq!(
        share.resume(6).unwrap_err().message(),
        "a removed printer share cannot be resumed"
    );
    assert_eq!(
        share.suspend(6).unwrap_err().message(),
        "a removed printer share cannot be suspended"
    );
    assert_eq!(share.updated_at_ms, 5);
}

#[test]
fn the_revision_counts_changes() {
    let mut share = PrinterShare::publish(printer(), 1).unwrap();
    assert_eq!(
        share.update_capabilities("Test Printer".into(), capabilities(), 2),
        Ok(false)
    );
    assert_eq!(share.capability_revision, 1);
    let mut more = capabilities();
    more.color_modes.push(ColorMode::Color);
    assert_eq!(
        share.update_capabilities("Test Printer".into(), more.clone(), 3),
        Ok(true)
    );
    assert_eq!(share.capability_revision, 2);
    assert_eq!(share.updated_at_ms, 3);
    assert_eq!(
        share.update_capabilities(" ".into(), more.clone(), 4).unwrap_err().message(),
        "printer name is empty"
    );
    share.capability_revision = u64::MAX;
    assert_eq!(
        share.update_capabilities("Other".into(), more, 5),
        Ok(true)
    );
    assert_eq!(share.capability_revision, u64::MAX);
}

#[test]
fn errors_have_codes_and_sentences() {
    let cases = [
        (
            PrintError::Invalid("m".into()),
            "print.invalid_argument",
            "invalid print value: m",
        ),
        (
            PrintError::InvalidState("m".into()),
            "print.failed_precondition",
            "print state does not allow this operation: m",
        ),
        (
            PrintError::NotFound("m".into()),
            "print.not_found",
            "print resource not found: m",
        ),
        (
            PrintError::Conflict("m".into()),
            "print.conflict",
            "print resource already exists: m",
        ),
        (
            PrintError::Backend("m".into()),
            "print.unavailable",
            "print backend failed: m",
        ),
        (
            PrintError::Persistence("m".into()),
            "print.internal",
            "print persistence failed: m",
        ),
        (
            PrintError::Serialization("m".into()),
            "print.internal",
            "print serialization failed: m",
        ),
        (
            PrintError::Io(IoErrorKind::Other, "m".into()),
            "print.unavailable",
            "print I/O failed: m",
        ),
    ];
    for (error, code, text) in cases {
        assert_eq!(error.code(), code);
        assert_eq!(error.to_string(), text);
    }
}
