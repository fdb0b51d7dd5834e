//! The Internet Printing Protocol.
use arcrelay_print::domain::{
    ColorMode, DeviceId, DuplexMode, MediaSize, Orientation, PageRange, PrintJobId, PrintJobState,
    PrintResolution, PrinterCapabilities, PrinterShareId, PrinterStatus, PublishedPrinter,
};
use arcrelay_print::infrastructure::ipp::activity::{ListAction, ListContext, ListFlow, ListReply};
use arcrelay_print::infrastructure::ipp::bridge::{
    cancel_job_response, find_job, get_jobs_response, ipp_job_state, is_pdf, job_attributes,
    job_attributes_response, plan_print_job, print_job_response, route_job_request,
    route_printer_request, GetJobsFlow, IppIntake, IppJobIntake, IppRoute,
    MAX_IPP_REQUEST_BYTES,
};
use arcrelay_print::infrastructure::ipp::jobs::{IppBridge, IppJobBinding, JobEntry};
use arcrelay_print::infrastructure::ipp::options::{
    document_name, ipp_client_job_id, normalize_media_name, options_from_request,
};
use arcrelay_print::infrastructure::ipp::printer::{
    printer_attributes_response, CANCEL_JOB, GET_JOBS, GET_JOB_ATTRIBUTES, GET_PRINTER_ATTRIBUTES,
    PRINT_JOB, VALIDATE_JOB,
};
use arcrelay_print::infrastructure::ipp::request::{IppAttributes, IppRequest};
use arcrelay_print::infrastructure::ipp::response::{
    attribute, integer_attribute, ipp_response, operation_attributes, range_attribute,
    repeated_i32_attribute, resolution_attribute,
};
use arcrelay_print::infrastructure::quic::printers::RemotePrinter;
use arcrelay_print::infrastructure::quic::replies::RemotePrintJob;
use arcrelay_print::PrintError;

fn request_with(attributes: IppAttributes, operation: u16) -> IppRequest {
    IppRequest {
        version: [2, 0],
        operation,
        request_id: 1,
        attributes,
        document_offset: 0,
        document_size: 1,
    }
}

fn remote(device: &str, share: &str) -> RemotePrinter {
    RemotePrinter {
        printer: PublishedPrinter {
            source_device_id: DeviceId::parse(device).unwrap(),
            source_device_name: "Studio".into(),
            share_id: PrinterShareId::parse(share).unwrap(),
            display_name: "Laser".into(),
            status: PrinterStatus::Ready,
            capabilities: PrinterCapabilities {
                media_sizes: vec![
                    MediaSize::new("iso_a4_210x297mm", 210_000, 297_000).unwrap()
                ],
                color_modes: vec![ColorMode::Monochrome, ColorMode::Color],
                duplex_modes: vec![DuplexMode::OneSided, DuplexMode::TwoSidedLongEdge],
                resolutions: vec![PrintResolution {
                    horizontal_dpi: 300,
                    vertical_dpi: u32::MAX,
                }],
                max_copies: 100,
                supports_page_ranges: true,
                supports_collation: true,
                accepted_document_types: vec!["application/pdf".into()],
            },
            capability_revision: 1,
        },
        address: "127.0.0.1".into(),
        port: 8766,
        certificate_sha256: "certificate".into(),
    }
}

#[test]
fn parses_attributes_and_separates_document() {
    let mut bytes = vec![2, 0, 0, 2, 0, 0, 0, 7, 0x01];
    attribute(&mut bytes, 0x42, "job-name", b"Report");
    integer_attribute(&mut bytes, "copies", 2);
    bytes.push(0x03);
    bytes.extend_from_slice(b"%PDF-test");
    let request = IppRequest::parse(&bytes, bytes.len() as u64).unwrap();
    assert_eq!(request.request_id, 7);
    assert_eq!(request.text("job-name"), Some("Report"));
    assert_eq!(request.integer("copies"), Some(2));
    assert_eq!(&bytes[request.document_offset as usize..], b"%PDF-test");
    assert_eq!(request.document_size, 9);
}

#[test]
fn rejects_truncated_attributes() {
    let bytes = [2, 0, 0, 2, 0, 0, 0, 1, 0x01, 0x42];
    assert!(IppRequest::parse(&bytes, bytes.len() as u64).is_err());
}

#[test]
fn maps_page_ranges_and_collation_from_ipp() {
    let mut attributes = IppAttributes::new();
    attributes.add_value(
        "page-ranges".to_string(),
        [1_i32.to_be_bytes(), 3_i32.to_be_bytes()].concat(),
    );
    attributes.add_value("sheet-collate".to_string(), b"collated".to_vec());
    let request = request_with(attributes, PRINT_JOB);
    let options = options_from_request(&request);
    assert_eq!(options.page_ranges, vec![PageRange { first: 1, last: 3 }]);
    assert!(options.collate);
}

#[test]
fn maps_cups_page_size_keywords_to_ipp_media_names() {
    let mut attributes = IppAttributes::new();
    attributes.add_value("media".to_string(), b"A4".to_vec());
    let request = request_with(attributes, PRINT_JOB);

    assert_eq!(
        options_from_request(&request).media_name,
        "iso_a4_210x297mm"
    );
    assert_eq!(normalize_media_name("Letter"), "na_letter_8.5x11in");
}

#[test]
fn each_kind_of_broken_request_has_its_message() {
    let message = |bytes: &[u8], total: u64| match IppRequest::parse(bytes, total) {
        Err(PrintError::Invalid(message)) => message,
        Err(error) => panic!("{}", error.to_string()),
        Ok(_) => panic!("accepted"),
    };
    assert_eq!(message(&[2, 0, 0, 2, 0, 0, 0, 1], 8), "IPP request is too short");
    let head = [2, 0, 0, 2, 0, 0, 0, 1, 0x01];
    assert_eq!(message(&head, 9), "IPP attributes are truncated");
    let mut cut = head.to_vec();
    cut.extend_from_slice(&[0x42, 0, 5, b'a']);
    assert_eq!(message(&cut, 13), "IPP attribute is truncated");
    let mut bad = head.to_vec();
    bad.extend_from_slice(&[0x42, 0, 1, 0xff, 0, 0, 0x03]);
    assert_eq!(message(&bad, 16), "IPP attribute name is invalid");
    let mut long = head.to_vec();
    long.push(0x03);
    assert_eq!(
        message(&long, 9),
        "IPP request is shorter than its attributes"
    );
}

#[test]
fn values_without_a_name_belong_to_the_attribute_before() {
    let mut bytes = vec![1, 1, 0, 2, 0, 0, 0, 1, 0x02];
    repeated_i32_attribute(&mut bytes, 0x21, "numbers", &[-1, 5]);
    range_attribute(&mut bytes, "page-ranges", 2, 4);
    range_attribute(&mut bytes, "", 0, 4);
    range_attribute(&mut bytes, "", 6, 6);
    bytes.push(0x04);
    integer_attribute(&mut bytes, "", 9);
    bytes.push(0x03);
    let request = IppRequest::parse(&bytes, bytes.len() as u64).unwrap();
    assert_eq!(request.version, [1, 1]);
    assert_eq!(request.integer("numbers"), Some(-1));
    assert_eq!(request.integer(""), Some(9));
    assert_eq!(request.integer("page-ranges"), None);
    assert_eq!(
        request.ranges("page-ranges"),
        vec![(2, 4), (0, 4), (6, 6)]
    );
    assert_eq!(request.ranges("numbers"), vec![]);
    assert_eq!(
        options_from_request(&request).page_ranges,
        vec![PageRange { first: 2, last: 4 }, PageRange { first: 6, last: 6 }]
    );
    assert_eq!(request.document_size, 0);
}

#[test]
fn options_have_defaults_and_limits() {
    let plain = options_from_request(&request_with(IppAttributes::new(), PRINT_JOB));
    assert_eq!(plain.copies, 1);
    assert_eq!(plain.color_mode, ColorMode::Monochrome);
    assert_eq!(plain.duplex_mode, DuplexMode::OneSided);
    assert_eq!(plain.orientation, Orientation::Portrait);
    assert_eq!(plain.media_name, "iso_a4_210x297mm");
    assert!(!plain.collate);
    let mut attributes = IppAttributes::new();
    attributes.add_value("copies".into(), 500_i32.to_be_bytes().to_vec());
    attributes.add_value("print-color-mode".into(), b"color".to_vec());
    attributes.add_value("sides".into(), b"two-sided-short-edge".to_vec());
    attributes.add_value("orientation-requested".into(), 4_i32.to_be_bytes().to_vec());
    attributes.add_value("media".into(), b"Custom".to_vec());
    attributes.add_value(
        "multiple-document-handling".into(),
        b"separate-documents-collated-copies".to_vec(),
    );
    let full = options_from_request(&request_with(attributes, PRINT_JOB));
    assert_eq!(full.copies, 100);
    assert_eq!(full.color_mode, ColorMode::Color);
    assert_eq!(full.duplex_mode, DuplexMode::TwoSidedShortEdge);
    assert_eq!(full.orientation, Orientation::Landscape);
    assert_eq!(full.media_name, "Custom");
    assert!(full.collate);
    let mut attributes = IppAttributes::new();
    attributes.add_value("copies".into(), (-3_i32).to_be_bytes().to_vec());
    assert_eq!(
        options_from_request(&request_with(attributes, PRINT_JOB)).copies,
        1
    );
}

#[test]
fn jobs_have_names_and_clients() {
    let digest = [0xab; 32];
    let bare = request_with(IppAttributes::new(), PRINT_JOB);
    assert_eq!(document_name(&bare), "ArcRelay Print Job");
    assert_eq!(
        ipp_client_job_id(&bare, &digest).as_str(),
        "ipp-1-abababababababab"
    );
    let mut attributes = IppAttributes::new();
    attributes.add_value("job-name".into(), b"Letter".to_vec());
    attributes.add_value("job-uuid".into(), b"urn:uuid:x".to_vec());
    let named = request_with(attributes, PRINT_JOB);
    assert_eq!(document_name(&named), "Letter");
    assert_eq!(ipp_client_job_id(&named, &digest).as_str(), "urn:uuid:x");
    let mut attributes = IppAttributes::new();
    attributes.add_value("job-name".into(), b"  ".to_vec());
    attributes.add_value("job-uuid".into(), b" ".to_vec());
    let blank = request_with(attributes, PRINT_JOB);
    assert_eq!(document_name(&blank), "ArcRelay Print Job");
    assert_eq!(
        ipp_client_job_id(&blank, &digest).as_str(),
        "ipp-1-abababababababab"
    );
}

#[test]
fn responses_are_encoded_byte_by_byte() {
    let mut payload = vec![0x01, 0x47, 0, 18];
    payload.extend_from_slice(b"attributes-charset");
    payload.extend_from_slice(&[0, 5]);
    payload.extend_from_slice(b"utf-8");
    payload.extend_from_slice(&[0x48, 0, 27]);
    payload.extend_from_slice(b"attributes-natural-language");
    payload.extend_from_slice(&[0, 2]);
    payload.extend_from_slice(b"en");
    assert_eq!(operation_attributes(), payload);
    let mut whole = vec![2, 0, 0x04, 0x06, 0, 0, 0, 9];
    whole.extend_from_slice(&payload);
    whole.push(0x03);
    assert_eq!(ipp_response(&[2, 0], 0x0406, 9, payload), whole);
    let mut out = Vec::new();
    resolution_attribute(&mut out, "r", 300, u32::MAX);
    assert_eq!(
        out,
        [0x32, 0, 1, b'r', 0, 9, 0, 0, 1, 44, 127, 255, 255, 255, 3]
    );
}

#[test]
fn printer_attributes_can_be_read_back() {
    let mut request = request_with(IppAttributes::new(), GET_PRINTER_ATTRIBUTES);
    request.request_id = 77;
    let remote = remote("device", "share");
    let bytes = printer_attributes_response(17_654, &remote, &request, 5_000);
    let read = IppRequest::parse(&bytes, bytes.len() as u64).unwrap();
    assert_eq!(read.operation, 0);
    assert_eq!(read.request_id, 77);
    assert_eq!(read.version, request.version);
    assert_eq!(read.text("media-supported"), Some("iso_a4_210x297mm"));
    assert_eq!(
        read.text("printer-uri-supported"),
        Some("ipp://127.0.0.1:17654/printers/device/share")
    );
    assert_eq!(
        read.text("printer-more-info"),
        Some("http://127.0.0.1:17654/printers/device/share")
    );
    assert_eq!(read.text("printer-uuid"), Some("urn:uuid:share"));
    assert_eq!(read.text("printer-name"), Some("Laser"));
    assert_eq!(read.integer("printer-up-time"), Some(5));
    assert_eq!(read.integer("operations-supported"), Some(2));
    assert_eq!(read.text("sides-supported"), Some("one-sided"));
    assert_eq!(read.text("media-default"), Some("iso_a4_210x297mm"));
    assert_eq!(read.ranges("copies-supported"), vec![(1, 100)]);
    assert_eq!(read.integer("orientation-requested-supported"), Some(3));
    assert_eq!(read.text("print-color-mode-supported"), Some("monochrome"));
    assert_eq!(read.document_size, 0);
}

fn binding(created_at_ms: i64) -> IppJobBinding {
    IppJobBinding {
        remote_device_id: "device".into(),
        printer_share_id: "share".into(),
        remote_job_id: "remote-job".into(),
        remote_device_name: "".into(),
        printer_name: "".into(),
        document_name: "".into(),
        state: None,
        failure_message: None,
        created_at_ms,
        updated_at_ms: created_at_ms,
    }
}

#[test]
fn only_the_newest_jobs_are_remembered() {
    let entries: Vec<JobEntry> = (1..=1024)
        .rev()
        .map(|id| JobEntry {
            id,
            binding: binding(id as i64),
        })
        .collect();
    let mut bridge = IppBridge::new(1, &entries);
    let request = request_with(IppAttributes::new(), PRINT_JOB);
    let answer = print_job_response(
        &mut bridge,
        &remote("device", "share"),
        &request,
        "Doc",
        &PrintJobId::parse("job"),
        9,
    );
    let read = IppRequest::parse(&answer, answer.len() as u64).unwrap();
    assert_eq!(read.integer("job-id"), Some(1025));
    assert_eq!(read.text("job-uri"), Some("ipp://127.0.0.1:1/jobs/1025"));
    assert_eq!(read.integer("job-state"), Some(5));
    let kept = bridge.bindings();
    assert_eq!(kept.len(), 1024);
    assert_eq!(kept[0].id, 2);
    assert_eq!(kept[1023].id, 1025);
    assert_eq!(kept[1023].binding.document_name, "Doc");
    assert_eq!(kept[1023].binding.state, Some(PrintJobState::Queued));
    let failed = print_job_response(
        &mut bridge,
        &remote("device", "share"),
        &request,
        "Doc",
        &Err(PrintError::Backend("x".into())),
        9,
    );
    assert_eq!(failed[2..4], [0x05, 0x00]);
    assert_eq!(bridge.bindings().len(), 1024);
    assert_eq!(IppBridge::new(3, &vec![]).port(), 3);
}

#[test]
fn jobs_are_found_by_number() {
    let bridge = IppBridge::new(
        1,
        &vec![
            JobEntry {
                id: 7,
                binding: binding(1),
            },
            JobEntry {
                id: 8,
                binding: IppJobBinding {
                    remote_job_id: " ".into(),
                    ..binding(1)
                },
            },
        ],
    );
    let request = request_with(IppAttributes::new(), GET_JOB_ATTRIBUTES);
    let remotes = vec![remote("device", "share")];
    let found = match find_job(&bridge, &remotes, &request, Some(7)) {
        Ok(query) => query,
        Err(_) => panic!("not found"),
    };
    assert_eq!(found.local_job_id, 7);
    assert_eq!(found.job_id.as_str(), "remote-job");
    let status = |id: Option<i32>, remotes: &Vec<RemotePrinter>| match find_job(
        &bridge, remotes, &request, id,
    ) {
        Ok(_) => panic!("found"),
        Err(answer) => [answer[2], answer[3]],
    };
    assert_eq!(status(None, &remotes), [0x04, 0x00]);
    assert_eq!(status(Some(-1), &remotes), [0x04, 0x00]);
    assert_eq!(status(Some(6), &remotes), [0x04, 0x06]);
    assert_eq!(status(Some(8), &remotes), [0x04, 0x06]);
    assert_eq!(status(Some(7), &vec![]), [0x04, 0x06]);
}

fn remote_job(state: PrintJobState, message: Option<&str>) -> RemotePrintJob {
    RemotePrintJob {
        id: PrintJobId::parse("remote-job").unwrap(),
        state,
        failure_message: message.map(|text| text.to_string()),
    }
}

#[test]
fn job_states_are_told_by_number() {
    assert_eq!(ipp_job_state(PrintJobState::Offered), 3);
    assert_eq!(ipp_job_state(PrintJobState::Queued), 3);
    assert_eq!(ipp_job_state(PrintJobState::Printing), 5);
    assert_eq!(ipp_job_state(PrintJobState::Ambiguous), 6);
    assert_eq!(ipp_job_state(PrintJobState::Cancelled), 7);
    assert_eq!(ipp_job_state(PrintJobState::Failed), 8);
    assert_eq!(ipp_job_state(PrintJobState::Completed), 9);
    let request = request_with(IppAttributes::new(), GET_JOB_ATTRIBUTES);
    let answer = job_attributes_response(
        &request,
        7,
        &Ok(remote_job(PrintJobState::Failed, Some("jam"))),
    );
    let read = IppRequest::parse(&answer, answer.len() as u64).unwrap();
    assert_eq!(read.integer("job-id"), Some(7));
    assert_eq!(read.integer("job-state"), Some(8));
    assert_eq!(
        read.text("job-state-reasons"),
        Some("job-completed-with-errors")
    );
    let error = job_attributes_response(&request, 7, &Err(PrintError::Backend("x".into())));
    assert_eq!(error[2..4], [0x05, 0x00]);
    let cancelled = cancel_job_response(&request, &Ok(remote_job(PrintJobState::Cancelled, None)));
    assert_eq!(cancelled[2..4], [0, 0]);
    let refused = cancel_job_response(&request, &Err(PrintError::Backend("x".into())));
    assert_eq!(refused[2..4], [0x05, 0x00]);
}

#[test]
fn all_jobs_of_a_printer_are_asked_about_once() {
    let mut entries: Vec<JobEntry> = (1..=70)
        .map(|id| JobEntry {
            id,
            binding: binding(id as i64),
        })
        .collect();
    for entry in entries.iter_mut() {
        if entry.id > 67 {
            entry.binding.printer_share_id = "other".into();
        }
    }
    let bridge = IppBridge::new(1, &entries);
    let remote = remote("device", "share");
    let mut flow = GetJobsFlow::start(&bridge, &remote);
    let mut asked = Vec::new();
    loop {
        flow = match flow {
            GetJobsFlow::Done(payload) => {
                let mut expected = operation_attributes();
                expected.extend(job_attributes(
                    67,
                    &remote_job(PrintJobState::Printing, None),
                ));
                assert_eq!(payload, expected);
                let request = request_with(IppAttributes::new(), GET_JOBS);
                assert_eq!(
                    get_jobs_response(&request, payload),
                    ipp_response(&[2, 0], 0, 1, expected)
                );
                break;
            }
            GetJobsFlow::Asking { local_job_id, .. } => {
                asked.push(local_job_id);
                let answer = if local_job_id == 67 {
                    Some(remote_job(PrintJobState::Printing, None))
                } else {
                    None
                };
                flow.take_job(&remote, answer)
            }
            GetJobsFlow::Recording { .. } => flow.recorded(&remote),
        };
    }
    assert_eq!(asked.len(), 61);
    assert_eq!(asked[0], 67);
    assert_eq!(asked[60], 7);
}

#[test]
fn listed_jobs_are_the_newest_first_and_few_are_refreshed() {
    let entries: Vec<JobEntry> = (1..=12)
        .map(|id| JobEntry {
            id,
            binding: binding(100 - (id as i64) / 2),
        })
        .collect();
    let bridge = IppBridge::new(1, &entries);
    let context = ListContext {
        remotes: vec![remote("device", "share")],
        refresh_active: true,
    };
    let mut flow = bridge.list_jobs(&context, 10);
    let mut queries = 0;
    let mut records = Vec::new();
    loop {
        let reply = match flow.action() {
            ListAction::Query(_, id) => {
                assert_eq!(id.as_str(), "remote-job");
                queries += 1;
                ListReply::Job(if queries == 1 {
                    Some(remote_job(PrintJobState::Failed, Some("jam")))
                } else {
                    None
                })
            }
            ListAction::Record(id, state, message) => {
                records.push((id, state, message.clone()));
                ListReply::Recorded
            }
            ListAction::Finished => break,
        };
        flow = flow.resume(&context, reply, 555);
    }
    let jobs = match flow {
        ListFlow::Done(jobs) => jobs,
        _ => panic!("the flow has not ended"),
    };
    assert_eq!(queries, 6);
    assert_eq!(
        records,
        vec![(1, PrintJobState::Failed, Some("jam".to_string()))]
    );
    let order: Vec<u32> = jobs.iter().map(|job| job.local_job_id).collect();
    assert_eq!(order, [1, 3, 2, 5, 4, 7, 6, 9, 8, 11]);
    assert_eq!(jobs[0].state, Some(PrintJobState::Failed));
    assert_eq!(jobs[0].updated_at_ms, 555);
    assert_eq!(jobs[0].remote_device_name, "Studio");
    assert_eq!(jobs[0].printer_name, "Laser");
    assert_eq!(jobs[0].document_name, "Print job");
    assert!(jobs[0].source_available);
    let alone = ListContext {
        remotes: vec![],
        refresh_active: false,
    };
    match bridge.list_jobs(&alone, 1) {
        ListFlow::Done(jobs) => {
            assert_eq!(jobs.len(), 1);
            assert_eq!(jobs[0].remote_device_name, "device");
            assert_eq!(jobs[0].printer_name, "LAN printer");
            assert!(!jobs[0].source_available);
        }
        _ => panic!("nothing is to be asked"),
    }
}

#[test]
fn reports_on_known_jobs_are_taken() {
    let mut bridge = IppBridge::new(
        1,
        &vec![JobEntry {
            id: 4,
            binding: binding(1),
        }],
    );
    assert!(bridge.update_job_state(4, PrintJobState::Held, Some("x".into()), 9));
    let after = bridge.bindings();
    assert_eq!(after[0].binding.state, Some(PrintJobState::Held));
    assert_eq!(after[0].binding.failure_message.as_deref(), Some("x"));
    assert_eq!(after[0].binding.updated_at_ms, 9);
    assert!(!bridge.update_job_state(5, PrintJobState::Held, None, 9));
    assert_eq!(bridge.bindings(), after);
}

#[test]
fn requests_are_routed_by_operation() {
    let known = Some(remote("device", "share"));
    let route = |operation: u16, remote: &Option<RemotePrinter>| {
        let mut attributes = IppAttributes::new();
        attributes.add_value("job-id".into(), 3_i32.to_be_bytes().to_vec());
        route_printer_request(1, remote, &request_with(attributes, operation), 0)
    };
    let status = |route: IppRoute| match route {
        IppRoute::Answer(bytes) => [bytes[2], bytes[3]],
        _ => panic!("not answered"),
    };
    assert_eq!(status(route(PRINT_JOB, &None)), [0x04, 0x06]);
    assert_eq!(status(route(GET_PRINTER_ATTRIBUTES, &known)), [0, 0]);
    assert_eq!(status(route(VALIDATE_JOB, &known)), [0, 0]);
    assert_eq!(status(route(0x0005, &known)), [0x05, 0x01]);
    assert!(matches!(route(GET_JOBS, &known), IppRoute::Jobs));
    assert!(matches!(route(PRINT_JOB, &known), IppRoute::PrintJob));
    assert!(matches!(
        route(GET_JOB_ATTRIBUTES, &known),
        IppRoute::JobAttributes(Some(3))
    ));
    assert!(matches!(
        route(CANCEL_JOB, &known),
        IppRoute::CancelJob(Some(3))
    ));
    let job = |operation: u16| {
        route_job_request(&request_with(IppAttributes::new(), operation), u32::MAX)
    };
    assert!(matches!(
        job(GET_JOB_ATTRIBUTES),
        IppRoute::JobAttributes(Some(-1))
    ));
    assert!(matches!(job(CANCEL_JOB), IppRoute::CancelJob(Some(-1))));
    assert_eq!(status(job(GET_JOBS)), [0x05, 0x01]);
}

#[test]
fn requests_arrive_in_pieces() {
    let mut bytes = vec![2, 0, 0, 2, 0, 0, 0, 7, 0x01];
    attribute(&mut bytes, 0x42, "job-name", b"Report");
    bytes.push(0x03);
    bytes.extend_from_slice(&[b'x'; 70_000]);
    let mut intake = IppIntake::new(80_000);
    for piece in bytes.chunks(1_000) {
        assert!(intake.take(piece));
    }
    assert!(!intake.take(&[0; 20_000]));
    let request = intake.parse().unwrap();
    assert_eq!(request.text("job-name"), Some("Report"));
    assert_eq!(request.document_size, 70_000);
    let empty = match IppIntake::new(10).parse() {
        Ok(_) => panic!("accepted"),
        Err(answer) => answer,
    };
    assert_eq!(empty, [2, 0, 0x04, 0x00, 0, 0, 0, 0, 0x03]);
    let mut small = IppJobIntake::new();
    assert!(small.take(&[1; 65_536]));
    assert!(!small.take(&[1]));
    assert!(small.parse().is_err());
    let mut small = IppJobIntake::new();
    assert!(small.take(&[2, 0, 0, 9, 0, 0, 0, 1, 0x01]));
    assert!(small.take(&[0x03]));
    assert_eq!(small.parse().unwrap().operation, GET_JOB_ATTRIBUTES);
}

#[test]
fn only_pdf_documents_are_printed() {
    let mut request = request_with(IppAttributes::new(), PRINT_JOB);
    let plan = match plan_print_job(&request, b"%PDF-") {
        Ok(plan) => plan,
        Err(_) => panic!("refused"),
    };
    assert_eq!(plan.document_name, "ArcRelay Print Job");
    assert_eq!(plan.options.copies, 1);
    assert!(plan_print_job(&request, b"%PDF").is_err());
    assert!(plan_print_job(&request, b"%PNG-").is_err());
    assert!(is_pdf(b"%PDF-1.7"));
    assert!(!is_pdf(b""));
    assert_eq!(MAX_IPP_REQUEST_BYTES, 524_353_536);
    request.document_size = 0;
    match plan_print_job(&request, b"%PDF-") {
        Err(answer) => assert_eq!(answer[2..4], [0x04, 0x00]),
        Ok(_) => panic!("accepted"),
    }
}
