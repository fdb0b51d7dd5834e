//! The print protocol between devices.
use arcrelay_print::domain::{
    ClientJobId, ColorMode, DeviceId, DuplexMode, MediaSize, Orientation, PageRange, PrintDocument,
    PrintJob, PrintJobId, PrintJobState, PrintOptions, PrintResolution, PrinterCapabilities,
    PrinterShareId, PrinterStatus, PublishedPrinter,
};
use arcrelay_print::infrastructure::messages::{
    ClientBody, ErrorCode, PrintClientFrame, PrintCreateJobRequest, PrintDocumentMetadata,
    PrintDocumentOpen, PrintJobInfo, PrintJobOptions, PrintJobResult, PrintPrinterList,
    PrintServerFrame, RecoveryAction, ServerBody, Status, WireJobState,
};
use arcrelay_print::infrastructure::quic::client::{
    check_document_size, document_name, document_open, fresh_client_job_id, interpret_creation,
    prepare_bytes, prepare_file, SubmissionKind, SubmissionStep,
};
use arcrelay_print::infrastructure::quic::printers::{
    cached_printers_for_refresh, choose_session, find_remote, printer_list_result,
    refreshed_printers, replace_device_printers, DeviceAnswer, RemotePrinter, SessionChoice,
};
use arcrelay_print::infrastructure::quic::replies::{
    correlate, error_status, frame_error, network_error, ok_status, remote_job_result, require_ok,
    require_upload_ticket, FrameError, RequestCounter, PRINT_REQUEST_TIMEOUT_MS,
};
use arcrelay_print::infrastructure::quic::server::{
    accept_feature, deadline_response, next_request, ConnectionStep, RequestStage, ServerAction,
    ServerContext, ServerReply,
};
use arcrelay_print::infrastructure::quic::tickets::UploadTickets;
use arcrelay_print::infrastructure::quic::upload::{
    check_stream_kind, stall_error, UploadAction, UploadFlow, UploadReply, UploadStall,
};
use arcrelay_print::infrastructure::ranges::UploadCursor;
use arcrelay_print::infrastructure::spool::SpoolDirectory;
use arcrelay_print::infrastructure::wire::{
    decode_capabilities, decode_create_job, decode_printer, encode_capabilities, encode_document,
    encode_job, encode_options, encode_printer, encode_printer_list,
};
use arcrelay_print::{IoErrorKind, PrintError};

fn remote_printer(device_id: &str, share_id: &str, status: PrinterStatus) -> RemotePrinter {
    RemotePrinter {
        printer: PublishedPrinter {
            source_device_id: DeviceId::parse(device_id).expect("valid device id"),
            source_device_name: format!("Computer {device_id}"),
            share_id: PrinterShareId::parse(share_id).expect("valid share id"),
            display_name: format!("Printer {share_id}"),
            status,
            capabilities: PrinterCapabilities {
                media_sizes: vec![
                    MediaSize::new("iso_a4_210x297mm", 210_000, 297_000).expect("valid media")
                ],
                color_modes: vec![ColorMode::Monochrome],
                duplex_modes: vec![DuplexMode::OneSided],
                resolutions: vec![PrintResolution {
                    horizontal_dpi: 300,
                    vertical_dpi: 300,
                }],
                max_copies: 1,
                supports_page_ranges: false,
                supports_collation: false,
                accepted_document_types: vec!["application/pdf".into()],
            },
            capability_revision: 1,
        },
        address: "127.0.0.1".into(),
        port: 8766,
        certificate_sha256: "certificate".into(),
    }
}

#[test]
fn refresh_retains_cached_printer_offline_until_device_query_succeeds() {
    let cached = remote_printer("device-a", "share-a", PrinterStatus::Ready);
    let mut printers = cached_printers_for_refresh(vec![cached]);

    assert_eq!(printers.len(), 1);
    assert_eq!(printers[0].printer.status, PrinterStatus::Offline);

    replace_device_printers(&mut printers, "device-a", Vec::new());
    assert!(printers.is_empty());
}

#[test]
fn successful_device_query_replaces_only_that_devices_cached_printers() {
    let mut printers = cached_printers_for_refresh(vec![
        remote_printer("device-a", "old-share", PrinterStatus::Ready),
        remote_printer("device-b", "other-share", PrinterStatus::Busy),
    ]);
    let replacement = remote_printer("device-a", "new-share", PrinterStatus::Ready);

    replace_device_printers(&mut printers, "device-a", vec![replacement]);

    assert_eq!(printers.len(), 2);
    assert!(printers
        .iter()
        .any(|printer| printer.printer.share_id.as_str() == "new-share"));
    assert!(printers.iter().any(|printer| {
        printer.printer.share_id.as_str() == "other-share"
            && printer.printer.status == PrinterStatus::Offline
    }));
}

fn create_request(sha256: Vec<u8>) -> PrintCreateJobRequest {
    PrintCreateJobRequest {
        client_job_id: "client".into(),
        printer_share_id: "share".into(),
        document: Some(PrintDocumentMetadata {
            name: "test.pdf".into(),
            media_type: "application/pdf".into(),
            size_bytes: 10,
            sha256,
        }),
        options: Some(PrintJobOptions {
            copies: 1,
            color_mode: Some(ColorMode::Monochrome),
            duplex_mode: Some(DuplexMode::OneSided),
            orientation: Some(Orientation::Portrait),
            media_name: "iso_a4_210x297mm".into(),
            page_ranges: vec![],
            collate: false,
        }),
    }
}

#[test]
fn create_job_rejects_unknown_enums_and_bad_digest() {
    let request = create_request(vec![1; 31]);
    assert!(decode_create_job(request).is_err());
}

#[test]
fn each_fault_of_an_offer_has_its_message() {
    let fault = |change: &dyn Fn(&mut PrintCreateJobRequest)| {
        let mut request = create_request(vec![1; 32]);
        change(&mut request);
        match decode_create_job(request) {
            Ok(_) => panic!("accepted"),
            Err(error) => error.message().to_string(),
        }
    };
    assert!(decode_create_job(create_request(vec![1; 32])).is_ok());
    assert_eq!(
        fault(&|r| r.document = None),
        "print job document is missing"
    );
    assert_eq!(
        fault(&|r| r.document.as_mut().unwrap().sha256 = vec![1; 33]),
        "print document SHA-256 must be 32 bytes"
    );
    assert_eq!(
        fault(&|r| r.document.as_mut().unwrap().size_bytes = 0),
        "invalid print document size"
    );
    assert_eq!(fault(&|r| r.options = None), "print job options are missing");
    assert_eq!(
        fault(&|r| r.options.as_mut().unwrap().color_mode = None),
        "unsupported print color mode"
    );
    assert_eq!(
        fault(&|r| r.options.as_mut().unwrap().duplex_mode = None),
        "unsupported print duplex mode"
    );
    assert_eq!(
        fault(&|r| r.options.as_mut().unwrap().orientation = None),
        "unsupported print orientation"
    );
    assert_eq!(
        fault(&|r| r.options.as_mut().unwrap().copies = 0),
        "invalid number of copies"
    );
    assert_eq!(
        fault(&|r| r.client_job_id = "".into()),
        "client job id must contain 1 to 512 characters"
    );
    assert_eq!(
        fault(&|r| r.printer_share_id = "".into()),
        "printer share id must contain 1 to 512 characters"
    );
}

fn document() -> PrintDocument {
    PrintDocument {
        name: "test.pdf".into(),
        media_type: "application/pdf".into(),
        size_bytes: 10,
        sha256: [9; 32],
    }
}

fn options() -> PrintOptions {
    PrintOptions {
        copies: 2,
        color_mode: ColorMode::Color,
        duplex_mode: DuplexMode::TwoSidedLongEdge,
        orientation: Orientation::Landscape,
        media_name: "iso_a4_210x297mm".into(),
        page_ranges: vec![PageRange { first: 1, last: 2 }],
        collate: true,
    }
}

#[test]
fn offers_and_printers_survive_the_wire() {
    let offer = decode_create_job(PrintCreateJobRequest {
        client_job_id: "client".into(),
        printer_share_id: "share".into(),
        document: Some(encode_document(&document())),
        options: Some(encode_options(&options())),
    })
    .unwrap();
    assert_eq!(offer.document, document());
    assert_eq!(offer.options, options());
    let printer = remote_printer("d", "s", PrinterStatus::Unknown).printer;
    let decoded = decode_printer(
        &printer.source_device_id,
        &printer.source_device_name,
        encode_printer(&printer),
    )
    .unwrap();
    assert_eq!(decoded, printer);
    let mut message = encode_capabilities(&printer.capabilities);
    assert_eq!(
        decode_capabilities(encode_capabilities(&printer.capabilities)).unwrap(),
        printer.capabilities
    );
    message.media_sizes[0].width_microns = 0;
    assert_eq!(
        decode_capabilities(message).unwrap_err().message(),
        "invalid media size"
    );
    let mut message = encode_printer(&printer);
    message.capabilities = None;
    assert_eq!(
        decode_printer(&printer.source_device_id, "x", message)
            .unwrap_err()
            .message(),
        "printer capabilities are missing"
    );
}

fn named(device: &str, share: &str, device_name: &str, name: &str) -> RemotePrinter {
    let mut remote = remote_printer(device, share, PrinterStatus::Ready);
    remote.printer.source_device_name = device_name.into();
    remote.printer.display_name = name.into();
    remote
}

#[test]
fn printers_are_listed_by_device_and_name() {
    let refreshed = refreshed_printers(
        vec![
            named("a", "1", "Zoo", "Printer"),
            named("b", "2", "Attic", "Printer"),
        ],
        "own",
        vec![
            DeviceAnswer {
                device_id: "c".into(),
                found: Some(vec![
                    named("c", "3", "Attic", "Laser"),
                    named("c", "4", "Attic", "Printer"),
                    named("c", "5", "attic", "Laser"),
                ]),
            },
            DeviceAnswer {
                device_id: "a".into(),
                found: None,
            },
            DeviceAnswer {
                device_id: "own".into(),
                found: Some(vec![named("own", "6", "A", "A")]),
            },
        ],
    );
    let shares: Vec<&str> = refreshed
        .iter()
        .map(|remote| remote.printer.share_id.as_str())
        .collect();
    assert_eq!(shares, ["3", "2", "4", "1", "5"]);
    assert_eq!(refreshed[1].printer.status, PrinterStatus::Offline);
    assert_eq!(refreshed[2].printer.status, PrinterStatus::Ready);
    let found = find_remote(&refreshed, "c", "4").unwrap();
    assert_eq!(found.printer.display_name, "Printer");
    assert!(find_remote(&refreshed, "a", "4").is_none());
}

#[test]
fn printer_lists_are_read() {
    let printer = remote_printer("d", "s", PrinterStatus::Ready).printer;
    let device = DeviceId::parse("d").unwrap();
    let list = |status: Status| PrintServerFrame {
        request_id: 5,
        body: ServerBody::PrinterList(encode_printer_list(
            &device,
            "Computer d",
            &vec![printer.clone()],
            status,
        )),
    };
    let read = printer_list_result(list(ok_status()), 5, "10.0.0.1", 9, &[0xab, 0x01]).unwrap();
    assert_eq!(read.len(), 1);
    assert_eq!(read[0].printer, printer);
    assert_eq!(read[0].address, "10.0.0.1");
    assert_eq!(read[0].port, 9);
    assert_eq!(read[0].certificate_sha256, "ab01");
    let message = |frame: PrintServerFrame| {
        printer_list_result(frame, 5, "x", 9, &[])
            .unwrap_err()
            .message()
            .to_string()
    };
    let mut other = list(ok_status());
    other.request_id = 6;
    assert_eq!(message(other), "print response id 6 does not match request 5");
    assert_eq!(
        message(PrintServerFrame {
            request_id: 5,
            body: ServerBody::Other
        }),
        "printer list response is missing"
    );
    assert_eq!(
        message(list(error_status(ErrorCode::Internal, "broken".into()))),
        "broken"
    );
    assert_eq!(
        message(PrintServerFrame {
            request_id: 5,
            body: ServerBody::PrinterList(PrintPrinterList {
                status: Some(ok_status()),
                source_device_id: "".into(),
                source_device_name: "".into(),
                printers: vec![],
            }),
        }),
        "device id must contain 1 to 512 characters"
    );
}

#[test]
fn sessions_are_used_retried_or_given_up() {
    assert_eq!(choose_session("me", "me", 9_999), SessionChoice::Use);
    assert_eq!(choose_session("you", "me", 2_999), SessionChoice::Retry);
    assert_eq!(choose_session("you", "me", 3_000), SessionChoice::GiveUp);
}

#[test]
fn outcomes_are_told_and_understood() {
    let busy = error_status(ErrorCode::Busy, "later".into());
    assert!(busy.retryable);
    assert_eq!(busy.recovery_action, RecoveryAction::RetryWithBackoff);
    let conflict = error_status(ErrorCode::Conflict, "".into());
    assert!(!conflict.retryable);
    assert_eq!(conflict.recovery_action, RecoveryAction::Refresh);
    assert_eq!(
        error_status(ErrorCode::InvalidArgument, "".into()).recovery_action,
        RecoveryAction::ChangeRequest
    );
    assert_eq!(
        error_status(ErrorCode::Internal, "".into()).recovery_action,
        RecoveryAction::Nothing
    );
    assert!(require_ok(Some(ok_status())).is_ok());
    assert_eq!(
        require_ok(None).unwrap_err(),
        PrintError::Backend("print status is missing".into())
    );
    assert_eq!(
        require_ok(Some(conflict)).unwrap_err(),
        PrintError::Backend("print request failed".into())
    );
    assert_eq!(
        require_ok(Some(busy)).unwrap_err(),
        PrintError::Backend("later".into())
    );
    assert_eq!(
        network_error("open stream", "reset"),
        PrintError::Backend("open stream: reset".into())
    );
    assert_eq!(
        frame_error(FrameError::Other("too large".into()), "read frame"),
        PrintError::Backend("read frame: too large".into())
    );
    assert_eq!(
        frame_error(
            FrameError::Io(IoErrorKind::UnexpectedEof, "end".into()),
            "read frame"
        ),
        PrintError::Io(IoErrorKind::UnexpectedEof, "end".into())
    );
    assert_eq!(
        correlate(
            PrintServerFrame {
                request_id: 1,
                body: ServerBody::Other
            },
            1
        ),
        Ok(ServerBody::Other)
    );
}

#[test]
fn requests_are_numbered_from_one() {
    let mut counter = RequestCounter::new();
    let first = counter.new_client_frame(ClientBody::ListPrinters);
    let second = counter.new_client_frame(ClientBody::GetJob("j".into()));
    assert_eq!((first.request_id, second.request_id), (1, 2));
    assert_eq!(first.timeout_ms, PRINT_REQUEST_TIMEOUT_MS);
}

fn job_frame(state: WireJobState, ticket: &[u8], expires: i64) -> PrintServerFrame {
    PrintServerFrame {
        request_id: 3,
        body: ServerBody::JobResult(PrintJobResult {
            status: Some(ok_status()),
            job: Some(PrintJobInfo {
                job_id: "job".into(),
                client_job_id: "client".into(),
                printer_share_id: "share".into(),
                state,
                failure_message: Some("note".into()),
                created_at_ms: 1,
                updated_at_ms: 2,
            }),
            upload_ticket: ticket.to_vec(),
            upload_ticket_expires_at_ms: expires,
        }),
    }
}

#[test]
fn answers_about_jobs_are_read() {
    let job = remote_job_result(
        job_frame(WireJobState::Known(PrintJobState::Held), &[], 0),
        3,
    )
    .unwrap();
    assert_eq!(job.id.as_str(), "job");
    assert_eq!(job.state, PrintJobState::Held);
    assert_eq!(job.failure_message.as_deref(), Some("note"));
    let message = |frame: PrintServerFrame| {
        remote_job_result(frame, 3)
            .unwrap_err()
            .message()
            .to_string()
    };
    assert_eq!(
        message(job_frame(WireJobState::Unspecified, &[], 0)),
        "invalid remote print job state"
    );
    let bare = |body: ServerBody| PrintServerFrame {
        request_id: 3,
        body,
    };
    assert_eq!(
        message(bare(ServerBody::Other)),
        "print job response is missing"
    );
    assert_eq!(
        message(bare(ServerBody::Status(ok_status()))),
        "print job response is missing"
    );
    assert_eq!(
        message(bare(ServerBody::Status(error_status(
            ErrorCode::NotFound,
            "gone".into()
        )))),
        "gone"
    );
    assert_eq!(
        message(bare(ServerBody::JobResult(PrintJobResult {
            status: Some(ok_status()),
            job: None,
            upload_ticket: vec![],
            upload_ticket_expires_at_ms: 0,
        }))),
        "print job is missing"
    );
}

#[test]
fn submissions_upload_what_is_wanted() {
    let step = |state: WireJobState, kind: SubmissionKind| {
        interpret_creation(job_frame(state, &[1, 2], 5), 3, kind)
    };
    match step(
        WireJobState::Known(PrintJobState::Offered),
        SubmissionKind::Bytes,
    )
    .unwrap()
    {
        SubmissionStep::Upload { job_id, ticket } => {
            assert_eq!(job_id.as_str(), "job");
            assert_eq!(ticket, [1, 2]);
        }
        SubmissionStep::Accepted(_) => panic!("not uploaded"),
    }
    assert!(matches!(
        step(
            WireJobState::Known(PrintJobState::Completed),
            SubmissionKind::File
        ),
        Ok(SubmissionStep::Accepted(_))
    ));
    let error = |result: Result<SubmissionStep, PrintError>| match result {
        Ok(_) => panic!("accepted"),
        Err(error) => error,
    };
    assert_eq!(
        error(step(
            WireJobState::Known(PrintJobState::Held),
            SubmissionKind::Bytes
        )),
        PrintError::InvalidState("remote print job cannot be uploaded in state Held".into())
    );
    assert_eq!(
        error(step(WireJobState::Unspecified, SubmissionKind::File)),
        PrintError::InvalidState("remote print job cannot be submitted in state Unspecified".into())
    );
    assert_eq!(
        error(step(WireJobState::Undefined, SubmissionKind::File)),
        PrintError::Backend("remote print job state is invalid".into())
    );
    assert_eq!(
        error(interpret_creation(
            job_frame(WireJobState::Known(PrintJobState::Receiving), &[], 5),
            3,
            SubmissionKind::File
        )),
        PrintError::Backend("print job response is missing its upload ticket".into())
    );
    match job_frame(WireJobState::Unspecified, &[4], 0).body {
        ServerBody::JobResult(result) => assert!(require_upload_ticket(&result).is_err()),
        _ => panic!("no result"),
    }
}

#[test]
fn submissions_are_prepared() {
    let remote = remote_printer("d", "share", PrinterStatus::Ready);
    let client = ClientJobId::parse("client").unwrap();
    let bytes = prepare_bytes(&remote, &client, "a.pdf", b"abc", &options()).unwrap();
    assert_eq!(bytes.document.size_bytes, 3);
    assert_eq!(
        bytes.document.sha256[..4],
        [0xba, 0x78, 0x16, 0xbf],
        "the digest of abc"
    );
    assert_eq!(bytes.request.printer_share_id, "share");
    assert_eq!(bytes.request.client_job_id, "client");
    let file = prepare_file(&remote, &client, "a.pdf", 3, bytes.document.sha256, &options());
    assert_eq!(file.unwrap().document, bytes.document);
    let mut bad = options();
    bad.copies = 0;
    match prepare_file(&remote, &client, "", 0, [0; 32], &bad) {
        Ok(_) => panic!("accepted"),
        Err(error) => assert_eq!(error.message(), "invalid number of copies"),
    }
    assert_eq!(document_name(None), "document.pdf");
    assert_eq!(document_name(Some("x.pdf")), "x.pdf");
    assert!(check_document_size(5, 5).is_ok());
    assert_eq!(
        check_document_size(6, 5).unwrap_err().message(),
        "print document is too large"
    );
    assert_ne!(
        fresh_client_job_id().unwrap(),
        fresh_client_job_id().unwrap()
    );
    let open = document_open(
        &PrintJobId::parse("job").unwrap(),
        &bytes.document,
        &vec![7],
    );
    assert_eq!(open.size_bytes, 3);
    assert_eq!(open.upload_ticket, [7]);
    assert_eq!(open.sha256, bytes.document.sha256.to_vec());
}

fn job(state: PrintJobState, sha256: [u8; 32], size: u64) -> PrintJob {
    let mut job = PrintJob::offer(
        ClientJobId::parse("client").unwrap(),
        DeviceId::parse("device").unwrap(),
        PrinterShareId::parse("share").unwrap(),
        PrintDocument {
            name: "a.pdf".into(),
            media_type: "application/pdf".into(),
            size_bytes: size,
            sha256,
        },
        options(),
        1,
    )
    .unwrap();
    job.state = state;
    job
}

#[test]
fn tickets_are_used_once_and_expire() {
    let device = DeviceId::parse("device").unwrap();
    let other = DeviceId::parse("other").unwrap();
    let offered = job(PrintJobState::Offered, [0; 32], 1);
    let mut tickets = UploadTickets::new();
    let ticket = tickets
        .issue_upload_ticket(&device, &offered, 1_000)
        .unwrap();
    assert_eq!(ticket.token.len(), 16);
    assert_eq!(ticket.expires_at_ms, 301_000);
    assert_eq!(
        tickets.issue_upload_ticket(&device, &offered, 2_000),
        Some(ticket.clone())
    );
    assert!(tickets
        .issue_upload_ticket(&device, &job(PrintJobState::Ready, [0; 32], 1), 2_000)
        .is_none());
    assert!(tickets
        .consume_upload_ticket(&other, &offered.id, &ticket.token, 3_000)
        .is_err());
    assert!(tickets
        .consume_upload_ticket(&device, &offered.id, &[1], 3_000)
        .is_err());
    assert!(tickets
        .consume_upload_ticket(&device, &offered.id, &ticket.token, 3_000)
        .is_ok());
    assert_eq!(
        tickets
            .consume_upload_ticket(&device, &offered.id, &ticket.token, 3_000)
            .unwrap_err(),
        PrintError::Invalid("print upload ticket is invalid, expired, or already used".into())
    );
    let late = tickets
        .issue_upload_ticket(&device, &offered, 5_000)
        .unwrap();
    assert_ne!(late.token, ticket.token);
    assert!(tickets
        .consume_upload_ticket(&device, &offered.id, &late.token, 305_000)
        .is_err());
    let last = tickets
        .issue_upload_ticket(&device, &offered, i64::MAX - 1)
        .unwrap();
    assert_eq!(last.expires_at_ms, i64::MAX);
}

fn context() -> ServerContext {
    ServerContext {
        source: DeviceId::parse("device").unwrap(),
        device_id: "this".into(),
        device_name: "This device".into(),
        spool: SpoolDirectory::open("/spool".into()),
    }
}

fn answered(stage: &RequestStage) -> &PrintServerFrame {
    match stage {
        RequestStage::Answered(frame) => {
            assert_eq!(frame.request_id, 9);
            frame
        }
        _ => panic!("not answered"),
    }
}

fn result_of(stage: &RequestStage) -> &PrintJobResult {
    match &answered(stage).body {
        ServerBody::JobResult(result) => result,
        _ => panic!("not a job result"),
    }
}

fn code_of(stage: &RequestStage) -> ErrorCode {
    match &answered(stage).body {
        ServerBody::JobResult(result) => result.status.as_ref().unwrap().code,
        ServerBody::PrinterList(list) => list.status.as_ref().unwrap().code,
        ServerBody::Status(status) => status.code,
        ServerBody::Other => panic!("nothing answered"),
    }
}

#[test]
fn offers_are_answered_with_a_ticket() {
    let context = context();
    let stage = RequestStage::start(
        &context,
        9,
        ClientBody::CreateJob(create_request(vec![1; 32])),
    );
    assert!(matches!(stage.action(&context), ServerAction::Offer(_, _)));
    let offered = job(PrintJobState::Offered, [1; 32], 10);
    let stage = stage.resume(&context, 9, ServerReply::Job(Ok(offered.clone())));
    assert!(matches!(stage.action(&context), ServerAction::IssueTicket(_, _)));
    let mut tickets = UploadTickets::new();
    let device = DeviceId::parse("device").unwrap();
    let ticket = tickets.issue_upload_ticket(&device, &offered, 0);
    let stage = stage.resume(&context, 9, ServerReply::Ticket(ticket.clone()));
    let result = result_of(&stage);
    assert_eq!(result.upload_ticket, ticket.unwrap().token);
    assert_eq!(result.job, Some(encode_job(&offered)));
    let refused = RequestStage::start(
        &context,
        9,
        ClientBody::CreateJob(create_request(vec![1; 3])),
    );
    assert_eq!(code_of(&refused), ErrorCode::InvalidArgument);
    let stage = RequestStage::start(
        &context,
        9,
        ClientBody::CreateJob(create_request(vec![1; 32])),
    );
    let stage = stage.resume(
        &context,
        9,
        ServerReply::Job(Err(PrintError::Conflict("x".into()))),
    );
    assert_eq!(code_of(&stage), ErrorCode::FailedPrecondition);
    assert_eq!(
        result_of(&stage).status.as_ref().unwrap().message,
        "print resource already exists: x"
    );
}

#[test]
fn interrupted_jobs_are_taken_up_again() {
    let context = context();
    let start = || {
        RequestStage::start(
            &context,
            9,
            ClientBody::CreateJob(create_request(vec![1; 32])),
        )
    };
    let validating = job(PrintJobState::Validating, [1; 32], 10);
    let mut ready = validating.clone();
    ready.state = PrintJobState::Ready;
    let mut queued = validating.clone();
    queued.state = PrintJobState::Queued;
    let stage = start().resume(&context, 9, ServerReply::Job(Ok(validating)));
    assert!(matches!(stage.action(&context), ServerAction::MarkValid(_)));
    let stage = stage.resume(&context, 9, ServerReply::Job(Ok(ready.clone())));
    match stage.action(&context) {
        ServerAction::DocumentExists(path) => {
            assert_eq!(path.file_name, format!("{}.document", ready.id.as_str()));
            assert_eq!(path.area.name(), "ready");
        }
        _ => panic!("the document is not looked for"),
    }
    let missing = start()
        .resume(&context, 9, ServerReply::Job(Ok(ready)))
        .resume(&context, 9, ServerReply::Exists(Ok(false)));
    assert_eq!(code_of(&missing), ErrorCode::Internal);
    let stage = stage.resume(&context, 9, ServerReply::Exists(Ok(true)));
    assert!(matches!(stage.action(&context), ServerAction::Submit(_, _)));
    let stage = stage.resume(&context, 9, ServerReply::Job(Ok(queued)));
    assert!(matches!(stage.action(&context), ServerAction::DeleteReady(_)));
    let stage = stage.resume(&context, 9, ServerReply::Deleted);
    let stage = stage.resume(&context, 9, ServerReply::Ticket(None));
    assert_eq!(code_of(&stage), ErrorCode::Success);
    assert!(result_of(&stage).upload_ticket.is_empty());
}

#[test]
fn other_requests_are_served() {
    let context = context();
    let list = RequestStage::start(&context, 9, ClientBody::ListPrinters);
    assert!(matches!(list.action(&context), ServerAction::ListPublished(_)));
    let list = list.resume(
        &context,
        9,
        ServerReply::Published(Ok(vec![
            remote_printer("this", "s", PrinterStatus::Ready).printer
        ])),
    );
    match &answered(&list).body {
        ServerBody::PrinterList(list) => {
            assert_eq!(list.source_device_name, "This device");
            assert_eq!(list.printers.len(), 1);
        }
        _ => panic!("no list"),
    }
    let broken = RequestStage::start(&context, 9, ClientBody::ListPrinters).resume(
        &context,
        9,
        ServerReply::Published(Err(PrintError::Backend("x".into()))),
    );
    assert_eq!(code_of(&broken), ErrorCode::Internal);
    let get = RequestStage::start(&context, 9, ClientBody::GetJob("job".into()));
    assert!(matches!(get.action(&context), ServerAction::Refresh(_, _)));
    let get = get.resume(
        &context,
        9,
        ServerReply::Job(Err(PrintError::NotFound("job".into()))),
    );
    assert_eq!(code_of(&get), ErrorCode::NotFound);
    let cancel = RequestStage::start(&context, 9, ClientBody::CancelJob("job".into()));
    assert!(matches!(cancel.action(&context), ServerAction::Cancel(_, _)));
    let cancel = cancel.resume(
        &context,
        9,
        ServerReply::Job(Err(PrintError::InvalidState("x".into()))),
    );
    assert_eq!(code_of(&cancel), ErrorCode::FailedPrecondition);
    let blank = RequestStage::start(&context, 9, ClientBody::CancelJob(" ".into()));
    assert_eq!(code_of(&blank), ErrorCode::InvalidArgument);
    let other = RequestStage::start(&context, 9, ClientBody::Other);
    assert_eq!(code_of(&other), ErrorCode::Unsupported);
    assert_eq!(
        deadline_response(9),
        PrintServerFrame {
            request_id: 9,
            body: ServerBody::Status(error_status(
                ErrorCode::DeadlineExceeded,
                "print request deadline exceeded".into()
            )),
        }
    );
}

#[test]
fn requests_without_number_or_limit_are_refused() {
    let frame = |request_id: u64, timeout_ms: u32| PrintClientFrame {
        request_id,
        timeout_ms,
        body: ClientBody::ListPrinters,
    };
    assert!(matches!(
        next_request(Ok(frame(1, 120_000))),
        ConnectionStep::Serve(_)
    ));
    for bad in [frame(0, 1), frame(1, 0), frame(1, 120_001)] {
        let id = bad.request_id;
        match next_request(Ok(bad)) {
            ConnectionStep::Reply(reply) => assert_eq!(reply.request_id, id),
            _ => panic!("not refused"),
        }
    }
    assert!(matches!(
        next_request(Err(PrintError::Io(IoErrorKind::UnexpectedEof, "".into()))),
        ConnectionStep::Close
    ));
    assert!(matches!(
        next_request(Err(PrintError::Io(IoErrorKind::Other, "".into()))),
        ConnectionStep::Fail(_)
    ));
    assert!(accept_feature("arcrelay.print", true).is_ok());
    assert!(accept_feature("arcrelay.print", false).is_err());
    assert!(accept_feature("arcrelay.other", true).is_err());
}

#[test]
fn a_document_is_sent_and_received_whole() {
    let bytes: Vec<u8> = (0..1_000u32).map(|n| (n % 251) as u8).collect();
    let remote = remote_printer("d", "share", PrinterStatus::Ready);
    let client = ClientJobId::parse("client").unwrap();
    let submission = prepare_bytes(&remote, &client, "a.pdf", &bytes, &options()).unwrap();
    let job = job(
        PrintJobState::Offered,
        submission.document.sha256,
        submission.document.size_bytes,
    );
    let spool = SpoolDirectory::open("/spool".into());
    let source = DeviceId::parse("device").unwrap();
    let open = document_open(&job.id, &submission.document, &vec![1, 2, 3]);
    let mut cursor = UploadCursor::new(bytes.len() as u64);
    let mut file: Vec<u8> = Vec::new();
    let mut steps = Vec::new();
    let mut flow = UploadFlow::start(&source, open);
    let result = loop {
        let reply = match flow.action() {
            UploadAction::FindJob(_) => UploadReply::Job(Ok(Some(job.clone()))),
            UploadAction::ConsumeTicket(device, _, token) => {
                assert_eq!(device.as_str(), "device");
                assert_eq!(*token, [1, 2, 3]);
                UploadReply::Finished(Ok(()))
            }
            UploadAction::DocumentExists(_) => UploadReply::Exists(Ok(false)),
            UploadAction::CreateFile(path) => {
                assert_eq!(path.area.name(), "receiving");
                UploadReply::Finished(Ok(()))
            }
            UploadAction::ReadChunk => UploadReply::Chunk(Ok(cursor.next_chunk(&bytes, 300))),
            UploadAction::WriteFile(data) => {
                file.extend_from_slice(data);
                UploadReply::Finished(Ok(()))
            }
            UploadAction::BeginReceiving(_) => {
                steps.push("begin");
                UploadReply::Finished(Ok(()))
            }
            UploadAction::CloseFile => UploadReply::Finished(Ok(())),
            UploadAction::MoveFile(_) => {
                steps.push("move");
                UploadReply::Finished(Ok(()))
            }
            UploadAction::DocumentReceived(_, digest) => {
                assert_eq!(*digest, submission.document.sha256);
                steps.push("received");
                UploadReply::Finished(Ok(()))
            }
            UploadAction::MarkValid(_) => {
                steps.push("valid");
                UploadReply::Finished(Ok(()))
            }
            UploadAction::Submit(_, _) => {
                steps.push("submit");
                UploadReply::Finished(Ok(()))
            }
            UploadAction::DeleteReady(_) => UploadReply::Deleted,
            UploadAction::Respond(result) => {
                assert_eq!(result.received_bytes, 1_000);
                break result.status.as_ref().unwrap().code;
            }
            UploadAction::Abandon(error) => panic!("{}", error.to_string()),
        };
        flow = flow.resume(&spool, reply);
    };
    assert_eq!(result, ErrorCode::Success);
    assert_eq!(file, bytes);
    assert!(cursor.done());
    assert_eq!(steps, ["begin", "move", "received", "valid", "submit"]);
}

#[test]
fn uploads_are_refused_for_other_jobs() {
    let job = job(PrintJobState::Offered, [5; 32], 4);
    let spool = SpoolDirectory::open("/spool".into());
    let open = |job_id: &str, size_bytes: u64, sha256: Vec<u8>| PrintDocumentOpen {
        job_id: job_id.into(),
        size_bytes,
        sha256,
        upload_ticket: vec![1],
    };
    let refusal = |device: &str, open: PrintDocumentOpen, found: Option<PrintJob>| {
        let flow = UploadFlow::start(&DeviceId::parse(device).unwrap(), open)
            .resume(&spool, UploadReply::Job(Ok(found)));
        match flow.action() {
            UploadAction::Abandon(error) => error.message().to_string(),
            _ => panic!("not refused"),
        }
    };
    let id = job.id.as_str();
    assert_eq!(refusal("device", open("j", 4, vec![5; 32]), None), "j");
    assert_eq!(
        refusal("stranger", open(id, 4, vec![5; 32]), Some(job.clone())),
        "print job belongs to a different device"
    );
    assert_eq!(
        refusal("device", open(id, 5, vec![5; 32]), Some(job.clone())),
        "print upload metadata differs from job"
    );
    assert_eq!(
        refusal("device", open(id, 4, vec![6; 32]), Some(job.clone())),
        "print upload metadata differs from job"
    );
    let flow = UploadFlow::start(
        &DeviceId::parse("device").unwrap(),
        open(id, 4, vec![5; 32]),
    )
    .resume(&spool, UploadReply::Job(Ok(Some(job))));
    let flow = flow.resume(
        &spool,
        UploadReply::Finished(Err(PrintError::Invalid("used".into()))),
    );
    assert!(matches!(flow.action(), UploadAction::Abandon(_)));
    assert_eq!(
        stall_error(UploadStall::Idle),
        PrintError::Backend("print upload idle timeout".into())
    );
    assert!(check_stream_kind(3, 3).is_ok());
    assert_eq!(
        check_stream_kind(3, 4).unwrap_err(),
        PrintError::Invalid("unexpected print upload stream kind".into())
    );
}
