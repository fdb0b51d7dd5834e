//! Documents on their way to a printer.
//!
//! A document is received into one directory and moved to another when it is
//! complete and has the announced digest.
use vstd::prelude::*;
use vstd::string::*;

use crate::domain::id::PrintJobId;
use crate::domain::job::{PrintJob, PrintJobView};
use crate::error::{outcome, IoErrorKind, PrintError, PrintErrorView, PrintResult};
use crate::hash::{sha256, ChunkHasher};
use crate::model::views;
use crate::text::{decimal, decimal_text, lower_char, lower_text, same_bytes, trim_text, trimmed};
use crate::unique::{
    hyphen_at, is_hex_digit, is_random_text, is_uuid_text, law_random_text, parses_as_uuid,
};

verus! {

/// The directories below the root of the spool.
#[derive(Debug, Clone, Copy, PartialEq, Eq, Structural)]
pub enum SpoolArea {
    Receiving,
    Ready,
    Failed,
}

impl SpoolArea {
    /// The name of the directory.
    pub open spec fn label(self) -> Seq<char> {
        match self {
            SpoolArea::Receiving => "receiving"@,
            SpoolArea::Ready => "ready"@,
            SpoolArea::Failed => "failed"@,
        }
    }

    /// The name of the directory.
    pub fn name(self) -> (r: &'static str)
        ensures
            r@ == self.label(),
    {
        match self {
            SpoolArea::Receiving => "receiving",
            SpoolArea::Ready => "ready",
            SpoolArea::Failed => "failed",
        }
    }
}

/// A file in the spool: the root, a directory below it and a name.
#[derive(Debug, PartialEq, Eq)]
pub struct SpoolPath {
    pub root: String,
    pub area: SpoolArea,
    pub file_name: String,
}

pub struct SpoolPathView {
    pub root: Seq<char>,
    pub area: SpoolArea,
    pub file_name: Seq<char>,
}

impl View for SpoolPath {
    type V = SpoolPathView;

    open spec fn view(&self) -> SpoolPathView {
        SpoolPathView { root: self.root@, area: self.area, file_name: self.file_name@ }
    }
}

impl Clone for SpoolPath {
    fn clone(&self) -> (r: Self)
        ensures
            r@ == self@,
    {
        SpoolPath { root: self.root.clone(), area: self.area, file_name: self.file_name.clone() }
    }
}

/// Where documents are kept.
#[derive(Debug)]
pub struct SpoolDirectory {
    root: String,
}

impl View for SpoolDirectory {
    type V = Seq<char>;

    closed spec fn view(&self) -> Seq<char> {
        self.root@
    }
}

impl Clone for SpoolDirectory {
    fn clone(&self) -> (r: Self)
        ensures
            r@ == self@,
    {
        SpoolDirectory { root: self.root.clone() }
    }
}

/// Where the document of a job is received.
pub open spec fn receiving_path(root: Seq<char>, job_id: Seq<char>) -> SpoolPathView {
    SpoolPathView { root, area: SpoolArea::Receiving, file_name: job_id + ".part"@ }
}

/// Where the complete document of a job is.
pub open spec fn complete_path(root: Seq<char>, job_id: Seq<char>) -> SpoolPathView {
    SpoolPathView { root, area: SpoolArea::Ready, file_name: job_id + ".document"@ }
}

/// What is wrong with `job_id` as the name of a file, if anything.
pub open spec fn job_id_check(job_id: Seq<char>) -> core::result::Result<(), PrintErrorView> {
    if is_uuid_text(job_id) {
        Ok(())
    } else {
        Err(PrintErrorView::Invalid("print job id is not a UUID"@))
    }
}

fn validate_job_id(id: &PrintJobId) -> (r: PrintResult<()>)
    ensures
        outcome(r) == job_id_check(id@),
{
    if parses_as_uuid(id.as_str()) {
        Ok(())
    } else {
        Err(PrintError::Invalid("print job id is not a UUID".to_string()))
    }
}

fn file_in(root: &String, area: SpoolArea, job_id: &PrintJobId, extension: &str) -> (r: SpoolPath)
    ensures
        r@ == (SpoolPathView { root: root@, area, file_name: job_id@ + extension@ }),
{
    let mut file_name = job_id.to_string();
    file_name.append(extension);
    SpoolPath { root: root.clone(), area, file_name }
}

/// Where the complete document of a job is, if the job can have one.
pub open spec fn document_path(root: Seq<char>, job_id: Seq<char>) -> core::result::Result<
    SpoolPathView,
    PrintErrorView,
> {
    match job_id_check(job_id) {
        Ok(_) => Ok(complete_path(root, job_id)),
        Err(error) => Err(error),
    }
}

/// What becomes of the receipt of a document.
pub open spec fn reception_start(
    root: Seq<char>,
    job: PrintJobView,
    already_ready: bool,
) -> core::result::Result<SpoolWriterView, PrintErrorView> {
    if job_id_check(job.id) is Err {
        Err(job_id_check(job.id)->Err_0)
    } else if already_ready {
        Err(PrintErrorView::Conflict("document for job "@ + job.id + " is already ready"@))
    } else {
        Ok(
            SpoolWriterView {
                receiving: receiving_path(root, job.id),
                ready: complete_path(root, job.id),
                expected_size: job.document.size_bytes,
                expected_sha256: job.document.sha256,
                received: seq![],
            },
        )
    }
}

impl SpoolDirectory {
    /// The spool below `root`.
    pub fn open(root: String) -> (r: Self)
        ensures
            r@ == root@,
    {
        SpoolDirectory { root }
    }

    /// The root of the spool.
    pub fn root(&self) -> (r: &str)
        ensures
            r@ == self@,
    {
        self.root.as_str()
    }

    /// Starts to receive the document of a job; `already_ready` says whether
    /// there is a file where the complete document belongs.
    pub fn begin(&self, job: &PrintJob, already_ready: bool) -> (r: PrintResult<SpoolWriter>)
        ensures
            outcome(r) == reception_start(self@, job@, already_ready),
            r matches Ok(writer) ==> writer.wf(),
    {
        match validate_job_id(&job.id) {
            Ok(_) => {},
            Err(error) => {
                return Err(error);
            },
        }
        if already_ready {
            let mut message = "document for job ".to_string();
            message.append(job.id.as_str());
            message.append(" is already ready");
            return Err(PrintError::Conflict(message));
        }
        Ok(
            SpoolWriter {
                receiving: file_in(&self.root, SpoolArea::Receiving, &job.id, ".part"),
                ready: file_in(&self.root, SpoolArea::Ready, &job.id, ".document"),
                expected_size: job.document.size_bytes,
                expected_sha256: job.document.sha256,
                written: 0,
                hasher: ChunkHasher::new(),
            },
        )
    }

    /// Where the complete document of a job is.
    pub fn ready_path(&self, job_id: &PrintJobId) -> (r: PrintResult<SpoolPath>)
        ensures
            outcome(r) == document_path(self@, job_id@),
    {
        match validate_job_id(job_id) {
            Ok(_) => Ok(file_in(&self.root, SpoolArea::Ready, job_id, ".document")),
            Err(error) => Err(error),
        }
    }

    /// What the deletion of a complete document comes to: a document that is
    /// gone already is as good as deleted.
    pub fn deletion(&self, removed: PrintResult<()>) -> (r: PrintResult<()>)
        ensures
            outcome(r) == deleted(outcome(removed)),
    {
        match removed {
            Err(PrintError::Io(IoErrorKind::NotFound, _)) => Ok(()),
            other => other,
        }
    }
}

/// What the deletion of a complete document comes to.
pub open spec fn deleted(removed: core::result::Result<(), PrintErrorView>) -> core::result::Result<
    (),
    PrintErrorView,
> {
    match removed {
        Err(PrintErrorView::Io(IoErrorKind::NotFound, _)) => Ok(()),
        other => other,
    }
}

/// A document that is being received.
pub struct SpoolWriter {
    receiving: SpoolPath,
    ready: SpoolPath,
    expected_size: u64,
    expected_sha256: [u8; 32],
    written: u64,
    hasher: ChunkHasher,
}

pub struct SpoolWriterView {
    pub receiving: SpoolPathView,
    pub ready: SpoolPathView,
    pub expected_size: u64,
    pub expected_sha256: Seq<u8>,
    pub received: Seq<u8>,
}

impl View for SpoolWriter {
    type V = SpoolWriterView;

    closed spec fn view(&self) -> SpoolWriterView {
        SpoolWriterView {
            receiving: self.receiving@,
            ready: self.ready@,
            expected_size: self.expected_size,
            expected_sha256: self.expected_sha256@,
            received: self.hasher@,
        }
    }
}

impl SpoolWriterView {
    /// What is wrong with `data` as the next piece, if anything.
    pub open spec fn chunk_check(self, offset: u64, data: Seq<u8>) -> core::result::Result<
        (),
        PrintErrorView,
    > {
        if data.len() == 0 {
            Err(PrintErrorView::Invalid("empty print document chunk"@))
        } else if offset != self.received.len() {
            Err(
                PrintErrorView::Invalid(
                    "unexpected print document offset "@ + decimal_text(offset as nat)
                        + "; expected "@ + decimal_text(self.received.len()),
                ),
            )
        } else if self.received.len() + data.len() > u64::MAX {
            Err(PrintErrorView::Invalid("print document size overflow"@))
        } else if self.received.len() + data.len() > self.expected_size {
            Err(PrintErrorView::Invalid("print document exceeds declared size"@))
        } else {
            Ok(())
        }
    }

    /// The document after the next piece.
    pub open spec fn with_chunk(self, data: Seq<u8>) -> Self {
        SpoolWriterView { received: self.received + data, ..self }
    }

    /// Where the complete document belongs, if it is as announced.
    pub open spec fn finished(self) -> core::result::Result<SpoolPathView, PrintErrorView> {
        if self.received.len() != self.expected_size {
            Err(
                PrintErrorView::Invalid(
                    "received "@ + decimal_text(self.received.len()) + " bytes; expected "@
                        + decimal_text(self.expected_size as nat),
                ),
            )
        } else if sha256(self.received) != self.expected_sha256 {
            Err(PrintErrorView::Invalid("print document digest does not match"@))
        } else {
            Ok(self.ready)
        }
    }
}

impl SpoolWriter {
    /// No more has been received than was announced.
    pub closed spec fn wf(&self) -> bool {
        self.written == self.hasher@.len() && self.written <= self.expected_size
    }

    /// Where the document is received.
    pub fn receiving_path(&self) -> (r: &SpoolPath)
        ensures
            r@ == self@.receiving,
    {
        &self.receiving
    }

    /// How many bytes have been received.
    pub fn received(&self) -> (r: u64)
        requires
            self.wf(),
        ensures
            r == self@.received.len(),
    {
        self.written
    }

    /// Checks the next piece before it is written.
    pub fn check_chunk(&self, offset: u64, data: &[u8]) -> (r: PrintResult<()>)
        requires
            self.wf(),
        ensures
            outcome(r) == self@.chunk_check(offset, data@),
    {
        if data.len() == 0 {
            return Err(PrintError::Invalid("empty print document chunk".to_string()));
        }
        if offset != self.written {
            let mut message = "unexpected print document offset ".to_string();
            message.append(decimal(offset).as_str());
            message.append("; expected ");
            message.append(decimal(self.written).as_str());
            return Err(PrintError::Invalid(message));
        }
        let size: u64 = data.len() as u64;
        if size > u64::MAX - self.written {
            return Err(PrintError::Invalid("print document size overflow".to_string()));
        }
        if self.written + size > self.expected_size {
            return Err(PrintError::Invalid("print document exceeds declared size".to_string()));
        }
        Ok(())
    }

    /// Takes the next piece, which has been written to the file.
    pub fn write_chunk(&mut self, offset: u64, data: &[u8]) -> (r: PrintResult<()>)
        requires
            old(self).wf(),
        ensures
            final(self).wf(),
            outcome(r) == old(self)@.chunk_check(offset, data@),
            final(self)@ == if r is Ok {
                old(self)@.with_chunk(data@)
            } else {
                old(self)@
            },
    {
        match self.check_chunk(offset, data) {
            Ok(_) => {},
            Err(error) => {
                return Err(error);
            },
        }
        self.hasher.update(data);
        self.written = self.written + data.len() as u64;
        Ok(())
    }

    /// Where to move the complete document, if its size and its digest are
    /// as announced.
    pub fn finish(self) -> (r: PrintResult<SpoolPath>)
        requires
            self.wf(),
        ensures
            outcome(r) == self@.finished(),
    {
        if self.written != self.expected_size {
            let mut message = "received ".to_string();
            message.append(decimal(self.written).as_str());
            message.append(" bytes; expected ");
            message.append(decimal(self.expected_size).as_str());
            return Err(PrintError::Invalid(message));
        }
        let actual = self.hasher.finish();
        if !same_bytes(&actual, &self.expected_sha256) {
            return Err(PrintError::Invalid("print document digest does not match".to_string()));
        }
        Ok(self.ready)
    }
}

/// The arguments, after the path, with which `icacls.exe` keeps everybody but
/// `username` and the system away from a file or a directory.
pub open spec fn private_grants(username: Seq<char>, directory: bool) -> Seq<Seq<char>> {
    if directory {
        seq!["/inheritance:r"@, "/grant:r"@, username + ":(OI)(CI)F"@, "SYSTEM:(OI)(CI)F"@]
    } else {
        seq!["/inheritance:r"@, "/grant:r"@, username + ":F"@, "SYSTEM:F"@]
    }
}

/// The arguments, after the path, with which `icacls.exe` keeps everybody but
/// `username` and the system away from a file or a directory.
pub fn icacls_arguments(username: &str, directory: bool) -> (r: Vec<String>)
    ensures
        views(r@) == private_grants(username@, directory),
{
    let mut user_grant = username.to_string();
    user_grant.append(
        if directory {
            ":(OI)(CI)F"
        } else {
            ":F"
        },
    );
    let system_grant = if directory {
        "SYSTEM:(OI)(CI)F"
    } else {
        "SYSTEM:F"
    };
    let mut out: Vec<String> = Vec::new();
    out.push("/inheritance:r".to_string());
    out.push("/grant:r".to_string());
    out.push(user_grant);
    out.push(system_grant.to_string());
    assert(views(out@) =~= private_grants(username@, directory));
    out
}

/// What is reported when `icacls.exe` fails.
pub fn harden_failure(stderr: &str) -> (r: PrintError)
    ensures
        r@ == PrintErrorView::Backend(
            "could not secure Windows print spool path: "@ + trim_text(stderr@),
        ),
{
    let mut message = "could not secure Windows print spool path: ".to_string();
    message.append(trimmed(stderr).as_str());
    PrintError::Backend(message)
}

/// A document is moved to its place exactly when it has the announced size
/// and the announced digest.
pub proof fn law_complete_iff_as_announced(writer: SpoolWriterView)
    ensures
        writer.finished() is Ok <==> writer.received.len() == writer.expected_size && sha256(
            writer.received,
        ) == writer.expected_sha256,
{
}

/// All of `chunks`, one after the other.
pub open spec fn joined(chunks: Seq<Seq<u8>>) -> Seq<u8>
    decreases chunks.len(),
{
    if chunks.len() == 0 {
        seq![]
    } else {
        joined(chunks.drop_last()) + chunks.last()
    }
}

/// The document after a sequence of pieces that were all taken.
pub open spec fn with_chunks(writer: SpoolWriterView, chunks: Seq<Seq<u8>>) -> SpoolWriterView
    decreases chunks.len(),
{
    if chunks.len() == 0 {
        writer
    } else {
        with_chunks(writer, chunks.drop_last()).with_chunk(chunks.last())
    }
}

/// A document arrives whole: if its pieces, none of them empty, are sent in
/// order, each is taken, and in the end all of it is there and is accepted.
pub proof fn law_document_arrives_whole(
    root: Seq<char>,
    job: PrintJobView,
    chunks: Seq<Seq<u8>>,
    i: int,
)
    requires
        is_uuid_text(job.id),
        job.document.size_bytes == joined(chunks).len(),
        job.document.sha256 == sha256(joined(chunks)),
        forall|j: int| 0 <= j < chunks.len() ==> (#[trigger] chunks[j]).len() > 0,
        0 <= i <= chunks.len(),
    ensures
        reception_start(root, job, false) matches Ok(writer) && {
            &&& with_chunks(writer, chunks.take(i)).received == joined(chunks.take(i))
            &&& i < chunks.len() ==> with_chunks(writer, chunks.take(i)).chunk_check(
                joined(chunks.take(i)).len() as u64,
                chunks[i],
            ) is Ok
            &&& i == chunks.len() ==> with_chunks(writer, chunks.take(i)).finished() == Ok::<
                SpoolPathView,
                PrintErrorView,
            >(complete_path(root, job.id))
        },
{
    let writer = reception_start(root, job, false)->Ok_0;
    lemma_received(writer, chunks.take(i));
    assert(Seq::<u8>::empty() + joined(chunks.take(i)) =~= joined(chunks.take(i)));
    if i < chunks.len() {
        lemma_joined_grows(chunks, i + 1);
        assert(chunks.take(i + 1).drop_last() =~= chunks.take(i));
        assert(joined(chunks.take(i + 1)).len() == joined(chunks.take(i)).len() + chunks[i].len());
    } else {
        assert(chunks.take(i) =~= chunks);
    }
}

proof fn lemma_received(writer: SpoolWriterView, chunks: Seq<Seq<u8>>)
    ensures
        with_chunks(writer, chunks) == (SpoolWriterView {
            received: writer.received + joined(chunks),
            ..writer
        }),
    decreases chunks.len(),
{
    if chunks.len() == 0 {
        assert(writer.received + joined(chunks) =~= writer.received);
    } else {
        lemma_received(writer, chunks.drop_last());
        assert(writer.received + joined(chunks.drop_last()) + chunks.last() =~= writer.received
            + joined(chunks));
    }
}

proof fn lemma_joined_grows(chunks: Seq<Seq<u8>>, i: int)
    requires
        0 <= i <= chunks.len(),
    ensures
        joined(chunks.take(i)).len() <= joined(chunks).len(),
    decreases chunks.len(),
{
    if i < chunks.len() {
        lemma_joined_grows(chunks.drop_last(), i);
        assert(chunks.drop_last().take(i) =~= chunks.take(i));
    } else {
        assert(chunks.take(i) =~= chunks);
    }
}

/// The spool takes every identifier that a new job gets.
pub proof fn law_new_jobs_can_be_spooled(job_id: Seq<char>)
    requires
        is_random_text(job_id),
    ensures
        job_id_check(job_id) is Ok,
{
    law_random_text(job_id);
}

/// A file in the spool stays in its directory: its name holds nothing that
/// separates directories.
pub proof fn law_names_stay_in_directory(root: Seq<char>, job_id: Seq<char>)
    requires
        job_id_check(job_id) is Ok,
    ensures
        forall|i: int|
            0 <= i < complete_path(root, job_id).file_name.len() ==> {
                let c = #[trigger] complete_path(root, job_id).file_name[i];
                c != '/' && c != '\\'
            },
        forall|i: int|
            0 <= i < receiving_path(root, job_id).file_name.len() ==> {
                let c = #[trigger] receiving_path(root, job_id).file_name[i];
                c != '/' && c != '\\'
            },
{
    reveal_strlit(".document");
    reveal_strlit(".part");
    reveal_strlit("urn:uuid:");
    assert forall|i: int| 0 <= i < job_id.len() implies #[trigger] job_id[i] != '/' && job_id[i]
        != '\\' by {
        if job_id.len() == 32 {
            assert(is_hex_digit(job_id[i]));
        } else if job_id.len() == 36 {
            assert(hyphen_at(i) || is_hex_digit(job_id[i]));
        } else if job_id.len() == 38 {
            if 0 < i < 37 {
                assert(job_id.subrange(1, 37)[i - 1] == job_id[i]);
                assert(hyphen_at(i - 1) || is_hex_digit(job_id[i]));
            }
        } else {
            if i < 9 {
                let lower = lower_text(job_id.take(9));
                assert(lower[i] == lower_char(job_id[i]));
                assert(lower[i] == "urn:uuid:"@[i]);
            } else {
                assert(job_id.skip(9)[i - 9] == job_id[i]);
                assert(hyphen_at(i - 9) || is_hex_digit(job_id[i]));
            }
        }
    }
}

/// Different jobs have different files.
pub proof fn law_files_are_distinct(root: Seq<char>, a: Seq<char>, b: Seq<char>)
    requires
        a != b,
    ensures
        complete_path(root, a) != complete_path(root, b),
        receiving_path(root, a) != receiving_path(root, b),
{
    assert((a + ".document"@).take(a.len() as int) =~= a);
    assert((b + ".document"@).take(b.len() as int) =~= b);
    assert((a + ".part"@).take(a.len() as int) =~= a);
    assert((b + ".part"@).take(b.len() as int) =~= b);
    assert((a + ".document"@).len() == a.len() + ".document"@.len());
    assert((b + ".document"@).len() == b.len() + ".document"@.len());
    assert((a + ".part"@).len() == a.len() + ".part"@.len());
    assert((b + ".part"@).len() == b.len() + ".part"@.len());
}

} // verus!
