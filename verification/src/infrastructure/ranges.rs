//! Reading a part of a file piece by piece.
use vstd::prelude::*;
use vstd::string::*;

use crate::domain::job::PrintJobView;
use crate::error::{outcome, PrintError, PrintErrorView, PrintResult};
use crate::hash::{sha256, ChunkHasher};
use crate::infrastructure::messages::{PrintDocumentChunk, PrintDocumentChunkView};
use crate::infrastructure::spool::{
    complete_path, joined, law_document_arrives_whole, reception_start, with_chunks, SpoolPathView,
    SpoolWriterView,
};
use crate::text::bytes_between;
use crate::unique::is_uuid_text;

verus! {

/// How many bytes to read next, of `remaining` bytes with room for `room`.
pub open spec fn read_limit(remaining: int, room: int) -> int {
    if remaining <= room {
        remaining
    } else {
        room
    }
}

fn limited(remaining: u64, room: usize) -> (r: usize)
    ensures
        r == read_limit(remaining as int, room as int),
{
    if remaining <= room as u64 {
        remaining as usize
    } else {
        room
    }
}

/// What is reported when a file ends too early.
pub open spec fn early_end(subject: Seq<char>) -> PrintErrorView {
    PrintErrorView::Invalid(subject + " ended before its declared size"@)
}

fn early_end_error(subject: &str) -> (r: PrintError)
    ensures
        r@ == early_end(subject@),
{
    let mut message = subject.to_string();
    message.append(" ended before its declared size");
    PrintError::Invalid(message)
}

/// The digest of a part of a file.
pub struct RangeHasher {
    remaining: u64,
    hasher: ChunkHasher,
}

pub struct RangeHasherView {
    pub remaining: u64,
    pub read: Seq<u8>,
}

impl View for RangeHasher {
    type V = RangeHasherView;

    closed spec fn view(&self) -> RangeHasherView {
        RangeHasherView { remaining: self.remaining, read: self.hasher@ }
    }
}

impl RangeHasher {
    /// The digest of a part of `size` bytes.
    pub fn new(size: u64) -> (r: Self)
        ensures
            r@ == (RangeHasherView { remaining: size, read: seq![] }),
    {
        RangeHasher { remaining: size, hasher: ChunkHasher::new() }
    }

    /// How many bytes are still to be read.
    pub fn remaining(&self) -> (r: u64)
        ensures
            r == self@.remaining,
    {
        self.remaining
    }

    /// How many bytes to read next, with room for `room`.
    pub fn limit(&self, room: usize) -> (r: usize)
        ensures
            r == read_limit(self@.remaining as int, room as int),
    {
        limited(self.remaining, room)
    }

    /// Takes what has been read; nothing means that the file, called
    /// `subject` in the error, has ended.
    pub fn take(&mut self, data: &[u8], subject: &str) -> (r: PrintResult<()>)
        requires
            data@.len() <= old(self)@.remaining,
        ensures
            if data@.len() == 0 {
                &&& r matches Err(e) && e@ == early_end(subject@)
                &&& final(self)@ == old(self)@
            } else {
                &&& r is Ok
                &&& final(self)@ == (RangeHasherView {
                    remaining: (old(self)@.remaining - data@.len()) as u64,
                    read: old(self)@.read + data@,
                })
            },
    {
        if data.len() == 0 {
            return Err(early_end_error(subject));
        }
        self.hasher.update(data);
        self.remaining = self.remaining - data.len() as u64;
        Ok(())
    }

    /// The digest, once everything has been read.
    pub fn finish(self) -> (r: [u8; 32])
        requires
            self@.remaining == 0,
        ensures
            r@ == sha256(self@.read),
    {
        self.hasher.finish()
    }
}

/// Whether the beginning of what was read at some place is `prefix`; too
/// little read means that the file ends before.
pub fn begins_with(read: &[u8], prefix: &[u8]) -> (r: bool)
    ensures
        r == (prefix@.len() <= read@.len() && read@.take(prefix@.len() as int) == prefix@),
{
    if prefix.len() > read.len() {
        return false;
    }
    let mut i: usize = 0;
    while i < prefix.len()
        invariant
            i <= prefix@.len() <= read@.len(),
            forall|j: int| 0 <= j < i ==> read@[j] == prefix@[j],
        decreases prefix@.len() - i,
    {
        if read[i] != prefix[i] {
            assert(read@.take(prefix@.len() as int)[i as int] != prefix@[i as int]);
            return false;
        }
        i += 1;
    }
    assert(read@.take(prefix@.len() as int) =~= prefix@);
    true
}

/// A document that is sent piece by piece.
#[derive(Debug)]
pub struct UploadCursor {
    size: u64,
    written: u64,
}

pub struct UploadCursorView {
    pub size: u64,
    pub written: u64,
}

impl View for UploadCursor {
    type V = UploadCursorView;

    closed spec fn view(&self) -> UploadCursorView {
        UploadCursorView { size: self.size, written: self.written }
    }
}

impl UploadCursor {
    /// No more has been sent than there is.
    pub open spec fn wf(&self) -> bool {
        self@.written <= self@.size
    }

    /// A document of `size` bytes, of which nothing has been sent.
    pub fn new(size: u64) -> (r: Self)
        ensures
            r@ == (UploadCursorView { size, written: 0 }),
            r.wf(),
    {
        UploadCursor { size, written: 0 }
    }

    /// Whether everything has been sent.
    pub fn done(&self) -> (r: bool)
        ensures
            r == (self@.written >= self@.size),
    {
        self.written >= self.size
    }

    /// How many bytes to send next, in a message with room for `room`.
    pub fn limit(&self, room: usize) -> (r: usize)
        requires
            self.wf(),
        ensures
            r == read_limit(self@.size - self@.written, room as int),
    {
        limited(self.size - self.written, room)
    }

    /// The message for what has been read; nothing means that the file has
    /// ended.
    pub fn take(&mut self, data: &[u8]) -> (r: PrintResult<PrintDocumentChunk>)
        requires
            old(self).wf(),
            data@.len() <= old(self)@.size - old(self)@.written,
        ensures
            final(self).wf(),
            if data@.len() == 0 {
                &&& outcome(r) == Err::<PrintDocumentChunkView, _>(early_end("print document"@))
                &&& final(self)@ == old(self)@
            } else {
                &&& outcome(r) == Ok::<PrintDocumentChunkView, PrintErrorView>(
                    PrintDocumentChunkView { offset: old(self)@.written, data: data@ },
                )
                &&& final(self)@ == (UploadCursorView {
                    size: old(self)@.size,
                    written: (old(self)@.written + data@.len()) as u64,
                })
            },
    {
        if data.len() == 0 {
            return Err(early_end_error("print document"));
        }
        let copy = bytes_between(data, 0, data.len());
        assert(copy@ =~= data@);
        let chunk = PrintDocumentChunk { offset: self.written, data: copy };
        self.written = self.written + data.len() as u64;
        Ok(chunk)
    }

    /// The next message of a document that is in memory, with room for `room`
    /// bytes.
    pub fn next_chunk(&mut self, document: &[u8], room: usize) -> (r: PrintDocumentChunk)
        requires
            old(self).wf(),
            old(self)@.size == document@.len(),
            old(self)@.written < old(self)@.size,
            room > 0,
        ensures
            final(self).wf(),
            ({
                let from = old(self)@.written as int;
                let to = from + read_limit(old(self)@.size - from, room as int);
                &&& r@ == (PrintDocumentChunkView {
                    offset: old(self)@.written,
                    data: document@.subrange(from, to),
                })
                &&& final(self)@ == (UploadCursorView { size: old(self)@.size, written: to as u64 })
            }),
    {
        let total: usize = document.len();
        let limit: usize = self.limit(room);
        assert(self.written + limit <= total);
        let from: usize = self.written as usize;
        let data = bytes_between(document, from, from + limit);
        let chunk = PrintDocumentChunk { offset: self.written, data };
        self.written = self.written + limit as u64;
        chunk
    }
}

/// What one side sends the other takes: where as much has been received as
/// was sent, the next message of the sender is taken by the receiver, and
/// afterwards again as much has been received as was sent.
pub proof fn law_sent_chunks_are_taken(
    cursor: UploadCursorView,
    writer: SpoolWriterView,
    chunk: PrintDocumentChunkView,
)
    requires
        cursor.size == writer.expected_size,
        cursor.written == writer.received.len(),
        chunk.offset == cursor.written,
        0 < chunk.data.len() <= cursor.size - cursor.written,
    ensures
        writer.chunk_check(chunk.offset, chunk.data) is Ok,
        writer.with_chunk(chunk.data).received.len() == cursor.written + chunk.data.len(),
{
}

/// A document in memory arrives as it is: what the receiver has, the first
/// `written` bytes of the document, becomes the first bytes up to the next
/// position; at the end it is the whole document.
pub proof fn law_document_is_sent_in_order(document: Seq<u8>, written: int, room: int)
    requires
        0 <= written <= document.len(),
        0 < room,
    ensures
        ({
            let to = written + read_limit(document.len() - written, room);
            &&& document.take(written) + document.subrange(written, to) == document.take(to)
            &&& written < document.len() ==> written < to
            &&& to == document.len() ==> document.take(to) == document
        }),
{
    let to = written + read_limit(document.len() - written, room);
    assert(document.take(written) + document.subrange(written, to) =~= document.take(to));
    assert(document.take(document.len() as int) =~= document);
}

/// The pieces in which a document is sent, with room for `room` bytes in each.
pub open spec fn pieces(document: Seq<u8>, room: int) -> Seq<Seq<u8>>
    decreases document.len(),
{
    if document.len() == 0 || room <= 0 {
        seq![]
    } else {
        let n = read_limit(document.len() as int, room);
        seq![document.take(n)] + pieces(document.skip(n), room)
    }
}

proof fn lemma_joined_front(first: Seq<u8>, rest: Seq<Seq<u8>>)
    ensures
        joined(seq![first] + rest) == first + joined(rest),
    decreases rest.len(),
{
    let all = seq![first] + rest;
    if rest.len() == 0 {
        assert(rest =~= seq![]);
        assert(all.drop_last() =~= rest);
        assert(joined(all) == joined(rest) + first);
        assert(joined(rest) =~= seq![]);
        assert(joined(all) =~= first + joined(rest));
    } else {
        assert(all.drop_last() =~= seq![first] + rest.drop_last());
        assert(all.last() == rest.last());
        lemma_joined_front(first, rest.drop_last());
        assert(joined(all) =~= first + joined(rest));
    }
}

/// A sender that has sent `written` bytes sends the first of the pieces that
/// are left, and is then left with the others.
pub proof fn law_pieces_are_sent_in_turn(document: Seq<u8>, written: int, room: int)
    requires
        0 <= written < document.len(),
        0 < room,
    ensures
        ({
            let to = written + read_limit(document.len() - written, room);
            pieces(document.skip(written), room) == seq![document.subrange(written, to)] + pieces(
                document.skip(to),
                room,
            )
        }),
{
    let to = written + read_limit(document.len() - written, room);
    let rest = document.skip(written);
    assert(rest.take(to - written) =~= document.subrange(written, to));
    assert(rest.skip(to - written) =~= document.skip(to));
}

/// The pieces of a document are the document: together they make it up, none
/// is empty, and none is too large.
pub proof fn law_pieces_make_up_document(document: Seq<u8>, room: int)
    requires
        room > 0,
    ensures
        joined(pieces(document, room)) == document,
        forall|i: int|
            0 <= i < pieces(document, room).len() ==> 0 < (#[trigger] pieces(
                document,
                room,
            )[i]).len() <= room,
    decreases document.len(),
{
    if document.len() > 0 {
        let n = read_limit(document.len() as int, room);
        let rest = pieces(document.skip(n), room);
        law_pieces_make_up_document(document.skip(n), room);
        lemma_joined_front(document.take(n), rest);
        assert(document.take(n) + document.skip(n) =~= document);
        assert forall|i: int| 0 <= i < pieces(document, room).len() implies 0 < (#[trigger] pieces(
            document,
            room,
        )[i]).len() <= room by {
            if i > 0 {
                assert(pieces(document, room)[i] == rest[i - 1]);
            }
        }
    } else {
        assert(document =~= seq![]);
    }
}

/// A document that is cut in pieces by one device is received by another as it
/// was, and accepted.
pub proof fn law_sent_documents_are_accepted(
    root: Seq<char>,
    job: PrintJobView,
    document: Seq<u8>,
    room: int,
)
    requires
        room > 0,
        is_uuid_text(job.id),
        job.document.size_bytes == document.len(),
        job.document.sha256 == sha256(document),
    ensures
        reception_start(root, job, false) matches Ok(writer) && {
            let whole = with_chunks(writer, pieces(document, room));
            &&& whole.received == document
            &&& whole.finished() == Ok::<SpoolPathView, PrintErrorView>(
                complete_path(root, job.id),
            )
        },
{
    let chunks = pieces(document, room);
    law_pieces_make_up_document(document, room);
    law_document_arrives_whole(root, job, chunks, chunks.len() as int);
    assert(chunks.take(chunks.len() as int) =~= chunks);
}

} // verus!
