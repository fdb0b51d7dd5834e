//! Documents on their way to a printer.
use arcrelay_print::domain::{
    ClientJobId, ColorMode, DeviceId, DuplexMode, Orientation, PrintDocument, PrintJob, PrintJobId,
    PrintOptions, PrinterShareId,
};
use arcrelay_print::hash::digest;
use arcrelay_print::infrastructure::ranges::{begins_with, RangeHasher, UploadCursor};
use arcrelay_print::infrastructure::spool::{
    harden_failure, icacls_arguments, SpoolArea, SpoolDirectory,
};
use arcrelay_print::{IoErrorKind, PrintError};

fn job(bytes: &[u8]) -> PrintJob {
    PrintJob::offer(
        ClientJobId::parse("client-job").unwrap(),
        DeviceId::parse("device").unwrap(),
        PrinterShareId::parse("share").unwrap(),
        PrintDocument {
            name: "test.pdf".into(),
            media_type: "application/pdf".into(),
            size_bytes: bytes.len() as u64,
            sha256: digest(bytes),
        },
        PrintOptions {
            copies: 1,
            color_mode: ColorMode::Monochrome,
            duplex_mode: DuplexMode::OneSided,
            orientation: Orientation::Portrait,
            media_name: "iso_a4_210x297mm".into(),
            page_ranges: vec![],
            collate: false,
        },
        1,
    )
    .unwrap()
}

#[test]
fn chunks_are_taken_in_order_and_verified() {
    let spool = SpoolDirectory::open("/spool".into());
    let bytes = b"%PDF-test";
    let job = job(bytes);
    let mut writer = spool.begin(&job, false).unwrap();
    assert_eq!(writer.receiving_path().area, SpoolArea::Receiving);
    assert_eq!(
        writer.receiving_path().file_name,
        format!("{}.part", job.id.as_str())
    );
    writer.write_chunk(0, &bytes[..4]).unwrap();
    assert_eq!(
        writer.write_chunk(0, &bytes[4..]).unwrap_err(),
        PrintError::Invalid("unexpected print document offset 0; expected 4".into())
    );
    assert_eq!(
        writer.write_chunk(4, &[]).unwrap_err(),
        PrintError::Invalid("empty print document chunk".into())
    );
    assert_eq!(
        writer.check_chunk(4, b"too long").unwrap_err(),
        PrintError::Invalid("print document exceeds declared size".into())
    );
    writer.write_chunk(4, &bytes[4..]).unwrap();
    let ready = writer.finish().unwrap();
    assert_eq!(ready, spool.ready_path(&job.id).unwrap());
    assert_eq!(ready.root, "/spool");
    assert_eq!(ready.area.name(), "ready");
    assert_eq!(ready.file_name, format!("{}.document", job.id.as_str()));
}

#[test]
fn documents_that_differ_are_refused() {
    let spool = SpoolDirectory::open("/spool".into());
    let mut job = job(b"original");
    job.document.sha256 = [0; 32];
    let mut writer = spool.begin(&job, false).unwrap();
    writer.write_chunk(0, b"orig").unwrap();
    assert_eq!(writer.received(), 4);
    writer.write_chunk(4, b"inal").unwrap();
    assert_eq!(
        writer.finish().unwrap_err(),
        PrintError::Invalid("print document digest does not match".into())
    );
    let mut writer = spool.begin(&job, false).unwrap();
    writer.write_chunk(0, b"orig").unwrap();
    assert_eq!(
        writer.finish().unwrap_err(),
        PrintError::Invalid("received 4 bytes; expected 8".into())
    );
    match spool.begin(&job, true) {
        Ok(_) => panic!("accepted"),
        Err(error) => assert_eq!(
            error,
            PrintError::Conflict(format!(
                "document for job {} is already ready",
                job.id.as_str()
            ))
        ),
    }
}

#[test]
fn only_uuids_name_files() {
    let spool = SpoolDirectory::open("/spool".into());
    let accepted = |id: &str| spool.ready_path(&PrintJobId::parse(id).unwrap()).is_ok();
    assert!(accepted("67e55044-10b1-426f-9247-bb680e5fe0c8"));
    assert!(accepted("67E5504410B1426F9247BB680E5FE0C8"));
    assert!(accepted("{67e55044-10b1-426f-9247-bb680e5fe0c8}"));
    assert!(accepted("urn:uuid:67e55044-10b1-426f-9247-bb680e5fe0c8"));
    assert!(accepted("URN:UUID:67e55044-10b1-426f-9247-bb680e5fe0c8"));
    assert!(!accepted("../67e55044-10b1-426f-9247-bb680e5fe0"));
    assert!(!accepted("67e55044-10b1-426f-9247-bb680e5fe0cg"));
    assert!(!accepted("67e5504410b1-426f-9247-bb680e5fe0c8ab"));
    assert!(!accepted("{67e55044-10b1-426f-9247-bb680e5fe0c8]"));
    assert!(!accepted("job"));
    assert_eq!(
        spool
            .ready_path(&PrintJobId::parse("job").unwrap())
            .unwrap_err(),
        PrintError::Invalid("print job id is not a UUID".into())
    );
    assert_eq!(spool.root(), "/spool");
}

#[test]
fn a_document_that_is_gone_counts_as_deleted() {
    let spool = SpoolDirectory::open("/spool".into());
    assert!(spool.deletion(Ok(())).is_ok());
    assert!(spool
        .deletion(Err(PrintError::Io(IoErrorKind::NotFound, "gone".into())))
        .is_ok());
    assert!(spool
        .deletion(Err(PrintError::Io(IoErrorKind::Other, "busy".into())))
        .is_err());
}

#[test]
fn files_are_kept_private() {
    assert_eq!(
        icacls_arguments("me", true),
        ["/inheritance:r", "/grant:r", "me:(OI)(CI)F", "SYSTEM:(OI)(CI)F"]
    );
    assert_eq!(
        icacls_arguments("me", false),
        ["/inheritance:r", "/grant:r", "me:F", "SYSTEM:F"]
    );
    assert_eq!(
        harden_failure(" denied\r\n"),
        PrintError::Backend("could not secure Windows print spool path: denied".into())
    );
}

#[test]
fn parts_of_files_are_hashed_piece_by_piece() {
    let mut hasher = RangeHasher::new(3);
    assert_eq!(hasher.limit(2), 2);
    hasher.take(b"ab", "print document").unwrap();
    assert_eq!(hasher.limit(64), 1);
    assert_eq!(
        hasher.take(b"", "IPP document").unwrap_err(),
        PrintError::Invalid("IPP document ended before its declared size".into())
    );
    hasher.take(b"c", "print document").unwrap();
    assert_eq!(hasher.remaining(), 0);
    let result = hasher.finish();
    assert_eq!(result, digest(b"abc"));
    assert_eq!(
        result[..8],
        [0xba, 0x78, 0x16, 0xbf, 0x8f, 0x01, 0xcf, 0xea]
    );
    assert!(begins_with(b"%PDF-1.7", b"%PDF-"));
    assert!(!begins_with(b"%PDF", b"%PDF-"));
    assert!(!begins_with(b"%PNG-1.7", b"%PDF-"));
}

#[test]
fn documents_are_cut_for_sending() {
    let mut cursor = UploadCursor::new(5);
    let first = cursor.next_chunk(b"abcde", 2);
    assert_eq!((first.offset, first.data), (0, b"ab".to_vec()));
    assert_eq!(cursor.limit(64), 3);
    let second = cursor.take(b"cde").unwrap();
    assert_eq!((second.offset, second.data), (2, b"cde".to_vec()));
    assert!(cursor.done());
    let mut empty = UploadCursor::new(1);
    assert_eq!(
        empty.take(b"").unwrap_err(),
        PrintError::Invalid("print document ended before its declared size".into())
    );
}
