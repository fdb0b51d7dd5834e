//! The print systems of operating systems.
use arcrelay_print::application::ports::{NativeJobStatus, SystemQueueSpec};
use arcrelay_print::domain::{
    ColorMode, DeviceId, DuplexMode, LocalPrinterId, MediaSize, NativeJobId, Orientation, PageRange,
    PrintJobState, PrintOptions, PrintResolution, PrinterShareId, PrinterStatus, PublishedPrinter,
    QueueBindingState, ShareState,
};
use arcrelay_print::infrastructure::persistence::{
    needs_client_scope_migration, needs_single_connection, recent_limit,
};
use arcrelay_print::infrastructure::platform::bitmap::{decode_page, page_bitmap};
use arcrelay_print::infrastructure::platform::commands::{
    build_elevated_powershell_script, command_result, find_printer, queue_exists,
    queue_to_install, validate_queue_name,
};
use arcrelay_print::infrastructure::platform::cups::{
    baseline_capabilities, install_arguments, native_job_destination, native_job_id_from_output,
    parse_printers, print_arguments, status_from_listing, submitted_native_job,
};
use arcrelay_print::infrastructure::platform::json::{parse_json, JsonMember, JsonValue};
use arcrelay_print::infrastructure::platform::render::{
    centered, check_encoded_size, check_loaded, check_printable_area, composite_rgba_to_bgra,
    page_error, plan_pages, print_sequence, selected_pages, trim_to_budget,
    within_render_memory_budget, PageFault, MAX_RENDER_PIXELS,
};
use arcrelay_print::infrastructure::platform::windows_backend::{
    self, conservative_capabilities, decode_native_job_id, encode_native_job_id, enumerate_media,
    enumerate_resolutions, interactive_virtual_printer, job_status, media_code, media_name,
    probe_capabilities, rows_from_json, wide, windows_printer_status, winrt_file_path, PrinterRow,
    SpoolerFlags,
};
use arcrelay_print::PrintError;

#[test]
fn queue_names_are_safe_for_all_platform_adapters() {
    assert!(validate_queue_name("ArcRelay_Office-Printer").is_ok());
    assert!(validate_queue_name("office printer").is_err());
    assert!(validate_queue_name("printer;rm").is_err());
}

#[test]
fn queue_names_are_limited() {
    assert!(validate_queue_name("").is_err());
    assert!(validate_queue_name(&"a".repeat(127)).is_ok());
    assert!(validate_queue_name(&"a".repeat(128)).is_err());
    assert_eq!(
        validate_queue_name("é").unwrap_err(),
        PrintError::Invalid("queue name may contain only letters, digits, '-' and '_'".into())
    );
    let spec = |name: &str| SystemQueueSpec {
        queue_name: name.into(),
        ipp_uri: "ipp://x".into(),
        printer: PublishedPrinter {
            source_device_id: DeviceId::parse("d").unwrap(),
            source_device_name: "D".into(),
            share_id: PrinterShareId::parse("s").unwrap(),
            display_name: "P".into(),
            status: PrinterStatus::Ready,
            capabilities: baseline_capabilities(),
            capability_revision: 1,
        },
    };
    assert_eq!(queue_to_install(&spec("q-1")).unwrap().as_str(), "q-1");
    assert!(queue_to_install(&spec("q 1")).is_err());
    assert_eq!(
        install_arguments(&spec("q-1")),
        ["-p", "q-1", "-E", "-v", "ipp://x", "-m", "everywhere"]
    );
}

#[test]
fn elevated_script_embeds_values_without_relying_on_child_environment() {
    let script = build_elevated_powershell_script(
        "Add-Printer -Name $env:QUEUE -IppURL $env:URI",
        &[("QUEUE", "Office'Printer"), ("URI", "http://127.0.0.1")],
        "C:\\Temp\\result.txt",
    );

    assert!(script.contains("$env:QUEUE = 'Office''Printer'"));
    assert!(script.contains("$env:URI = 'http://127.0.0.1'"));
    assert!(script.contains("[IO.File]::WriteAllText('C:\\Temp\\result.txt'"));
}

#[test]
fn elevated_script_is_complete() {
    assert_eq!(
        build_elevated_powershell_script("Do-It", &[("A", "b")], "r'"),
        "$ErrorActionPreference = 'Stop'\n$env:A = 'b'\ntry {\nDo-It\n} catch {\n\
         [IO.File]::WriteAllText('r''', $_.Exception.Message)\nexit 1\n}\n"
    );
}

fn bounded_render_size(width: u32, height: u32) -> (u32, u32) {
    let width = width.max(1);
    let height = height.max(1);
    let scale = (MAX_RENDER_PIXELS as f64 / (f64::from(width) * f64::from(height)))
        .sqrt()
        .min(1.0);
    let w = (f64::from(width) * scale).floor().max(1.0) as u32;
    let h = (f64::from(height) * scale).floor().max(1.0) as u32;
    trim_to_budget(w, h)
}

#[test]
fn render_budget_caps_each_page_at_128_mib() {
    assert!(within_render_memory_budget(4_096, 4_096));
    assert!(!within_render_memory_budget(4_097, 4_096));
    for (width, height) in [(8_192, 8_192), (1, u32::MAX), (u32::MAX, 1), (2_480, 3_508)] {
        let (w, h) = bounded_render_size(width, height);
        assert!(within_render_memory_budget(w, h));
        assert!(w > 0 && h > 0 && w <= width && h <= height);
    }
}

#[test]
fn sizes_over_the_budget_lose_their_longer_side() {
    assert_eq!(trim_to_budget(4_097, 4_096), (4_096, 4_096));
    assert_eq!(trim_to_budget(10, u32::MAX), (10, 1_677_721));
    assert_eq!(trim_to_budget(3, 4), (3, 4));
}

#[test]
fn rgba_pixels_are_composited_to_bgra_in_place() {
    let mut pixels = [10, 20, 30, 0, 10, 20, 30, 255];

    composite_rgba_to_bgra(&mut pixels);

    assert_eq!(pixels, [255, 255, 255, 255, 30, 20, 10, 255]);
}

#[test]
fn half_transparent_pixels_are_mixed_with_white() {
    let mut pixels = [0, 100, 255, 128];
    composite_rgba_to_bgra(&mut pixels);
    assert_eq!(pixels, [255, 177, 127, 255]);
}

#[test]
fn parses_native_job_id_from_localized_lp_output() {
    assert_eq!(
        native_job_id_from_output("HP_home", "request id is HP_home-35 (1 file(s))"),
        Some("HP_home-35".into())
    );
    assert_eq!(
        native_job_id_from_output("HP_home", "请求id是HP_home-35（1个文件）"),
        Some("HP_home-35".into())
    );
    assert_eq!(
        native_job_id_from_output("Office-Printer", "请求id是Office-Printer-127。"),
        Some("Office-Printer-127".into())
    );
    assert_eq!(native_job_id_from_output("HP_home", "打印请求失败"), None);
}

#[test]
fn extracts_destination_from_native_job_id() {
    assert_eq!(native_job_destination("HP_home-35").as_deref(), Some("HP_home"));
    assert_eq!(
        native_job_destination("Office-Printer-127").as_deref(),
        Some("Office-Printer")
    );
    assert_eq!(native_job_destination("HP_home"), None);
    assert_eq!(native_job_destination("HP_home-invalid"), None);
}

#[test]
fn submissions_to_cups_are_read() {
    let printer = LocalPrinterId::parse("HP").unwrap();
    assert_eq!(
        submitted_native_job(&printer, "request id is HP-7").unwrap().as_str(),
        "HP-7"
    );
    assert_eq!(
        submitted_native_job(&printer, "HP-x HP-7").unwrap_err(),
        PrintError::Backend("could not parse native job id: HP-x HP-7".into())
    );
    assert_eq!(native_job_destination("-7"), None);
    assert_eq!(native_job_destination("HP-"), None);
}

#[test]
fn cups_printers_are_read() {
    let printers = parse_printers(
        "Office_Laser\r\n  \nAttic\n",
        "Office_Laser accepting requests since Monday\n\nOther accepting\n",
        "system default destination: Attic\n",
    )
    .unwrap();
    assert_eq!(printers.len(), 2);
    assert_eq!(printers[0].id.as_str(), "Office_Laser");
    assert_eq!(printers[0].display_name, "Office Laser");
    assert_eq!(printers[0].status, PrinterStatus::Ready);
    assert!(!printers[0].is_default);
    assert_eq!(printers[1].status, PrinterStatus::Offline);
    assert!(printers[1].is_default);
    assert_eq!(printers[1].connection_kind, "system");
    assert_eq!(printers[1].capabilities, baseline_capabilities());
    assert_eq!(
        baseline_capabilities().accepted_document_types,
        ["application/pdf", "image/pwg-raster"]
    );
    assert!(parse_printers(&"x".repeat(513), "", "").is_err());
    assert!(parse_printers("", "", "").unwrap().is_empty());
    let found = find_printer(&printers, "Attic").unwrap();
    assert_eq!(found, printers[1]);
    let id = arcrelay_print::SystemQueueId::parse("Attic").unwrap();
    assert!(queue_exists(&printers, &id));
    assert!(!queue_exists(&vec![], &id));
}

fn options() -> PrintOptions {
    PrintOptions {
        copies: 2,
        color_mode: ColorMode::Color,
        duplex_mode: DuplexMode::TwoSidedShortEdge,
        orientation: Orientation::Landscape,
        media_name: "iso_a4_210x297mm".into(),
        page_ranges: vec![PageRange { first: 1, last: 2 }, PageRange { first: 5, last: 5 }],
        collate: true,
    }
}

#[test]
fn cups_gets_all_options() {
    let printer = LocalPrinterId::parse("HP").unwrap();
    assert_eq!(
        print_arguments(&printer, &options(), "/tmp/x"),
        [
            "-d",
            "HP",
            "-n",
            "2",
            "-o",
            "print-color-mode=color",
            "-o",
            "sides=two-sided-short-edge",
            "-o",
            "orientation-requested=4",
            "-o",
            "media=iso_a4_210x297mm",
            "-o",
            "page-ranges=1-2,5-5",
            "-o",
            "Collate=True",
            "/tmp/x"
        ]
    );
    let mut plain = options();
    plain.page_ranges.clear();
    plain.collate = false;
    assert_eq!(print_arguments(&printer, &plain, "/tmp/x").len(), 13);
}

#[test]
fn cups_jobs_are_looked_up_in_the_listing() {
    let id = NativeJobId::parse("HP-7").unwrap();
    assert_eq!(
        status_from_listing(&id, &Ok("HP-6 x\nHP-7 user 1024".into())),
        NativeJobStatus::Queued
    );
    assert_eq!(
        status_from_listing(&id, &Ok("HP-6 x\n HP-7".into())),
        NativeJobStatus::Completed
    );
    assert_eq!(
        status_from_listing(&id, &Err(PrintError::Backend("x".into()))),
        NativeJobStatus::Unknown
    );
}

#[test]
fn commands_tell_what_went_wrong() {
    assert_eq!(command_result(true, "exit status: 0", " out\n", "note"), Ok("out".into()));
    assert_eq!(
        command_result(false, "exit status: 1", "", " no printer \n").unwrap_err(),
        PrintError::Backend("no printer".into())
    );
    assert_eq!(
        command_result(false, "exit status: 1", "", " \n").unwrap_err(),
        PrintError::Backend("print command exited with exit status: 1".into())
    );
}

#[test]
fn native_job_id_round_trips_unicode_printer_names() {
    let id = encode_native_job_id("办公室 打印机", 42).unwrap();
    assert_eq!(
        decode_native_job_id(&id).unwrap(),
        ("办公室 打印机".into(), 42)
    );
}

#[test]
fn native_job_ids_are_checked() {
    let message = |id: &str| {
        decode_native_job_id(&NativeJobId::parse(id).unwrap())
            .unwrap_err()
            .message()
            .to_string()
    };
    assert_eq!(message("spool:v1:1:61"), "invalid Windows native job id");
    assert_eq!(message("winspool:v2:1:61"), "invalid Windows native job id");
    assert_eq!(message("winspool"), "invalid Windows native job id");
    assert_eq!(message("winspool:v1"), "Windows job id is missing");
    assert_eq!(message("winspool:v1:x:61"), "Windows job id is invalid");
    assert_eq!(
        message("winspool:v1:4294967296:61"),
        "Windows job id is invalid"
    );
    assert_eq!(message("winspool:v1:1"), "Windows printer name is missing");
    assert_eq!(
        message("winspool:v1:1:616"),
        "Windows printer name encoding is invalid"
    );
    assert_eq!(
        message("winspool:v1:1:6g"),
        "Windows printer name encoding is invalid"
    );
    assert_eq!(
        message("winspool:v1:1:ff"),
        "Windows printer name is not UTF-8"
    );
    assert_eq!(
        decode_native_job_id(&NativeJobId::parse("winspool:v1:+7:4A+9").unwrap()).unwrap(),
        ("J\t".into(), 7)
    );
    assert_eq!(
        encode_native_job_id("ab", 5).unwrap().as_str(),
        "winspool:v1:5:6162"
    );
    assert!(encode_native_job_id(&"x".repeat(300), 5).is_err());
}

#[test]
fn page_sequences_honor_collation() {
    assert_eq!(print_sequence(&[0, 1], 2, true), [0, 1, 0, 1]);
    assert_eq!(print_sequence(&[0, 1], 2, false), [0, 0, 1, 1]);
}

#[test]
fn pages_are_selected_once_and_in_order() {
    let ranges = vec![
        PageRange { first: 4, last: 5 },
        PageRange { first: 1, last: 2 },
        PageRange { first: 2, last: 4 },
    ];
    assert_eq!(selected_pages(6, &ranges).unwrap(), [0, 1, 2, 3, 4]);
    assert_eq!(selected_pages(3, &vec![]).unwrap(), [0, 1, 2]);
    assert_eq!(
        selected_pages(4, &ranges).unwrap_err(),
        PrintError::Invalid("page range 4-5 is outside the PDF".into())
    );
    let plan = plan_pages(false, 6, &options()).unwrap();
    assert_eq!(plan, [0, 1, 4, 0, 1, 4]);
    let mut loose = options();
    loose.collate = false;
    loose.duplex_mode = DuplexMode::OneSided;
    assert_eq!(plan_pages(false, 6, &loose).unwrap(), [0, 0, 1, 1, 4, 4]);
    assert_eq!(
        plan_pages(true, 6, &loose).unwrap_err().message(),
        "password-protected PDF documents are not supported"
    );
    assert_eq!(
        plan_pages(false, 0, &loose).unwrap_err().message(),
        "PDF page count 0 is outside the supported range"
    );
    assert!(plan_pages(false, 2_000, &loose).is_ok());
    assert!(plan_pages(false, 2_001, &loose).is_err());
}

#[test]
fn pages_and_sheets_are_checked() {
    assert!(check_printable_area(4_000, 4_000).is_ok());
    assert_eq!(
        check_printable_area(0, 5).unwrap_err().message(),
        "printer reported an invalid printable area"
    );
    assert_eq!(
        check_printable_area(5_000, 5_000).unwrap_err().message(),
        "printer render area is too large: 5000x5000"
    );
    assert_eq!(
        page_error(0, PageFault::Dimensions).message(),
        "PDF page 1 has invalid dimensions"
    );
    assert_eq!(
        page_error(4, PageFault::TooManyPixels).message(),
        "PDF page 5 exceeds the render pixel limit"
    );
    assert!(check_encoded_size(0).is_err());
    assert!(check_encoded_size(32 * 1024 * 1024).is_ok());
    assert!(check_encoded_size(32 * 1024 * 1024 + 1).is_err());
    assert!(check_loaded(5, 5).is_ok());
    assert!(check_loaded(4, 5).is_err());
    assert_eq!(centered(100, 31), 34);
    assert_eq!(centered(30, 31), 0);
}

#[test]
fn maps_windows_print_queue_status_flags() {
    assert_eq!(windows_printer_status(0), PrinterStatus::Ready);
    assert_eq!(windows_printer_status(128), PrinterStatus::Offline);
    assert_eq!(windows_printer_status(1024), PrinterStatus::Busy);
    assert_eq!(windows_printer_status(16), PrinterStatus::Error);
}

#[test]
fn spooler_flags_count_in_order() {
    let none = SpoolerFlags {
        deleted: false,
        complete: false,
        printing: false,
        failed: false,
        held: false,
        waiting: false,
    };
    assert_eq!(job_status(None), NativeJobStatus::Completed);
    assert_eq!(job_status(Some(none)), NativeJobStatus::Unknown);
    let mut flags = none;
    flags.waiting = true;
    assert_eq!(job_status(Some(flags)), NativeJobStatus::Queued);
    flags.held = true;
    assert_eq!(job_status(Some(flags)), NativeJobStatus::Held);
    flags.failed = true;
    assert_eq!(job_status(Some(flags)), NativeJobStatus::Failed);
    flags.printing = true;
    assert_eq!(job_status(Some(flags)), NativeJobStatus::Printing);
    flags.complete = true;
    assert_eq!(job_status(Some(flags)), NativeJobStatus::Completed);
    flags.deleted = true;
    assert_eq!(job_status(Some(flags)), NativeJobStatus::Cancelled);
    assert_eq!(windows_printer_status(u64::MAX), PrinterStatus::Offline);
}

#[test]
fn windows_printers_are_read_from_json() {
    let rows = r#"[
        {"Name":"Laser","PrinterStatus":128,"DriverName":"HP","Default":true},
        {"Name":"Fax","PrinterStatus":0,"DriverName":"x"},
        {"Name":"Notes","DriverName":"Send to OneNote"},
        {"PrinterStatus":0},
        {"Name":"Ink","PrinterStatus":"?"}
    ]"#;
    let printers = windows_backend::parse_printers(rows).unwrap();
    assert_eq!(printers.len(), 2);
    assert_eq!(printers[0].display_name, "Laser");
    assert_eq!(printers[0].status, PrinterStatus::Offline);
    assert!(printers[0].is_default);
    assert_eq!(printers[0].connection_kind, "windows-spooler");
    assert_eq!(printers[0].capabilities, conservative_capabilities());
    assert_eq!(printers[1].id.as_str(), "Ink");
    assert!(!printers[1].is_default);
    let one = windows_backend::parse_printers(r#"{"Name":"Solo","PrinterStatus":0}"#).unwrap();
    assert_eq!(one.len(), 1);
    assert_eq!(one[0].status, PrinterStatus::Ready);
    assert!(windows_backend::parse_printers(" \n").unwrap().is_empty());
    assert!(matches!(
        windows_backend::parse_printers("nonsense"),
        Err(PrintError::Serialization(_))
    ));
    assert!(interactive_virtual_printer("FAX", ""));
    assert!(interactive_virtual_printer("My Microsoft Print to PDF", ""));
    assert!(!interactive_virtual_printer("Faxmaster", "HP"));
}

fn json_member(name: &str, value: JsonValue) -> JsonMember {
    JsonMember {
        name: name.into(),
        value,
    }
}

#[test]
fn json_text_is_taken_apart() {
    assert_eq!(
        parse_json(r#"[null, true, 7, -1, 1.5, "a", {"k": [], "j": {}}]"#),
        Ok(JsonValue::List(vec![
            JsonValue::Null,
            JsonValue::Bool(true),
            JsonValue::Number(Some(7)),
            JsonValue::Number(None),
            JsonValue::Number(None),
            JsonValue::Text("a".into()),
            match parse_json(r#"{"k": [], "j": {}}"#).unwrap() {
                JsonValue::Members(members) => {
                    assert_eq!(members.len(), 2);
                    assert!(members.contains(&json_member("k", JsonValue::List(vec![]))));
                    assert!(members.contains(&json_member("j", JsonValue::Members(vec![]))));
                    JsonValue::Members(members)
                }
                other => panic!("not an object: {other:?}"),
            },
        ]))
    );
    assert!(parse_json("[1").is_err());
}

#[test]
fn windows_rows_have_four_members() {
    let row = JsonValue::Members(vec![
        json_member("Default", JsonValue::Bool(true)),
        json_member("DriverName", JsonValue::Text("HP".into())),
        json_member("Name", JsonValue::Text("Laser".into())),
        json_member("PortName", JsonValue::Text("USB".into())),
        json_member("PrinterStatus", JsonValue::Number(Some(128))),
    ]);
    let expected = PrinterRow {
        name: Some("Laser".into()),
        driver: Some("HP".into()),
        status: Some(128),
        is_default: Some(true),
    };
    let nothing = || PrinterRow {
        name: None,
        driver: None,
        status: None,
        is_default: None,
    };
    assert_eq!(rows_from_json(&row), [expected]);
    assert_eq!(rows_from_json(&JsonValue::Null), [nothing()]);
    assert_eq!(rows_from_json(&JsonValue::List(vec![])), []);
    let odd = JsonValue::Members(vec![
        json_member("Name", JsonValue::Number(Some(1))),
        json_member("PrinterStatus", JsonValue::Number(None)),
        json_member("Default", JsonValue::Text("true".into())),
    ]);
    assert_eq!(
        rows_from_json(&JsonValue::List(vec![odd, JsonValue::Bool(false)])),
        [nothing(), nothing()]
    );
}

#[test]
fn windows_sheets_are_named_and_numbered() {
    assert_eq!(media_name(297_000, 210_000), "iso_a4_210x297mm");
    assert_eq!(media_name(211_000, 296_000), "iso_a4_210x297mm");
    assert_eq!(media_name(215_900, 279_400), "na_letter_8.5x11in");
    assert_eq!(media_name(211_001, 297_000), "custom_211001x297000um");
    let codes = vec![9, 10, 1, 77, 5];
    let sizes = vec![
        (2_100, 2_970),
        (2_101, 2_969),
        (2_159, 2_794),
        (0, 5),
        (1_000, 2_000),
    ];
    let papers = enumerate_media(&codes, &sizes, 4, 5);
    let seen: Vec<(i16, &str)> = papers
        .iter()
        .map(|paper| (paper.code, paper.media.name.as_str()))
        .collect();
    assert_eq!(seen, [(9, "iso_a4_210x297mm"), (1, "na_letter_8.5x11in")]);
    assert_eq!(enumerate_media(&codes, &sizes, 5, 5).len(), 3);
    assert_eq!(enumerate_media(&codes, &sizes, -1, 5).len(), 0);
    assert_eq!(media_code(&papers, "iso_a4_210x297mm", 109, 101), Ok(9));
    assert_eq!(media_code(&vec![], "iso_a4_210x297mm", 109, 101), Ok(109));
    assert_eq!(media_code(&vec![], "na_letter_8.5x11in", 109, 101), Ok(101));
    assert_eq!(
        media_code(&papers, "custom", 109, 101).unwrap_err(),
        PrintError::Invalid("printer does not support media custom".into())
    );
    let resolutions = enumerate_resolutions(&vec![(600, 300), (-1, 5), (1_200, 1_200)], 3);
    assert_eq!(resolutions.len(), 2);
    assert_eq!(enumerate_resolutions(&vec![(600, 300)], 9).len(), 1);
    let probed = probe_capabilities(true, true, &papers, resolutions);
    assert_eq!(probed.color_modes, [ColorMode::Monochrome, ColorMode::Color]);
    assert_eq!(probed.duplex_modes.len(), 3);
    assert_eq!(
        probed.media_sizes[1],
        MediaSize::new("na_letter_8.5x11in", 215_900, 279_400).unwrap()
    );
    assert_eq!(probed.resolutions[0].horizontal_dpi, 600);
    assert_eq!(
        probe_capabilities(false, false, &vec![], vec![]),
        conservative_capabilities()
    );
    assert_eq!(
        conservative_capabilities().resolutions,
        [PrintResolution {
            horizontal_dpi: 300,
            vertical_dpi: 300
        }]
    );
}

#[test]
fn windows_text_and_paths() {
    assert_eq!(wide("aé"), [0x61, 0xe9, 0]);
    assert_eq!(wide("😀"), [0xd83d, 0xde00, 0]);
    assert_eq!(winrt_file_path(r"\\?\UNC\server\x"), r"\\server\x");
    assert_eq!(winrt_file_path(r"\\?\C:\x"), r"C:\x");
    assert_eq!(winrt_file_path(r"C:\x"), r"C:\x");
}

#[test]
fn rendered_pages_are_decoded() {
    let mut encoded = std::io::Cursor::new(Vec::new());
    let mut picture = image::RgbaImage::new(2, 1);
    picture.put_pixel(0, 0, image::Rgba([10, 20, 30, 255]));
    picture.put_pixel(1, 0, image::Rgba([10, 20, 30, 0]));
    picture
        .write_to(&mut encoded, image::ImageFormat::Png)
        .unwrap();
    let encoded = encoded.into_inner();
    let page = decode_page(encoded.clone(), 2, 1).unwrap();
    assert_eq!((page.width, page.height), (2, 1));
    assert_eq!(page.bgra, [30, 20, 10, 255, 255, 255, 255, 255]);
    assert!(decode_page(encoded, 1, 1).is_err());
    let broken = decode_page(vec![1, 2, 3], 1, 1).unwrap_err();
    assert!(broken.message().starts_with("decode rendered PDF page: "));
    assert_eq!(
        page_bitmap(Err("bad".into())).unwrap_err(),
        PrintError::Backend("decode rendered PDF page: bad".into())
    );
    let shown = page_bitmap(Ok((1, 1, vec![1, 2, 3, 255]))).unwrap();
    assert_eq!(shown.bgra, [3, 2, 1, 255]);
}

#[test]
fn stored_states_and_databases() {
    assert_eq!(ShareState::Published.token(), "published");
    assert_eq!(QueueBindingState::SourceOffline.token(), "sourceOffline");
    assert_eq!(PrintJobState::Ambiguous.token(), "ambiguous");
    assert!(needs_single_connection("sqlite::memory:"));
    assert!(!needs_single_connection("sqlite://x.db"));
    assert!(needs_client_scope_migration(
        "CREATE TABLE print_jobs (client_job_id TEXT NOT NULL UNIQUE)"
    ));
    assert!(!needs_client_scope_migration(
        "CREATE TABLE print_jobs (client_job_id TEXT NOT NULL)"
    ));
    assert_eq!(recent_limit(7), 7);
    assert_eq!(recent_limit(700), 100);
}
