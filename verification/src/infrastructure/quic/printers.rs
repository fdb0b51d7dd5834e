//! The printers of other devices.
use vstd::prelude::*;
use vstd::string::*;
use vstd::utf8::*;

use crate::domain::id::{parsed_id, DeviceId};
use crate::domain::printer::{PrinterStatus, PublishedPrinter, PublishedPrinterView};
use crate::error::{listed, PrintError, PrintErrorView, PrintResult};
use crate::infrastructure::messages::{
    PrintPublishedPrinter, PrintPublishedPrinterView, PrintServerFrame,
    PrintServerFrameView, ServerBody, ServerBodyView,
};
use crate::infrastructure::quic::replies::{
    answer_to, clone_status, correlate, require_ok, status_check,
};
use crate::infrastructure::wire::{decode_printer, decoded_printer};
use crate::model::{
    lemma_filter_drops_all, lemma_filter_keeps_all, lemma_filter_kept, lemma_filter_none,
    lemma_filter_single, lemma_filter_step, lemma_filter_twice, opt, views,
};
use crate::order::{
    bytes_le, lemma_lex_antisymmetric, lemma_lex_reflexive, lemma_lex_total, lemma_lex_transitive,
    lex_le,
};
use crate::text::{hex, hex_text, same};

verus! {

/// A printer of another device, and where that device is.
#[derive(Debug, PartialEq, Eq)]
pub struct RemotePrinter {
    pub printer: PublishedPrinter,
    pub address: String,
    pub port: u16,
    pub certificate_sha256: String,
}

pub struct RemotePrinterView {
    pub printer: PublishedPrinterView,
    pub address: Seq<char>,
    pub port: u16,
    pub certificate_sha256: Seq<char>,
}

impl View for RemotePrinter {
    type V = RemotePrinterView;

    open spec fn view(&self) -> RemotePrinterView {
        RemotePrinterView {
            printer: self.printer@,
            address: self.address@,
            port: self.port,
            certificate_sha256: self.certificate_sha256@,
        }
    }
}

impl Clone for RemotePrinter {
    fn clone(&self) -> (r: Self)
        ensures
            r@ == self@,
    {
        RemotePrinter {
            printer: self.printer.clone(),
            address: self.address.clone(),
            port: self.port,
            certificate_sha256: self.certificate_sha256.clone(),
        }
    }
}

/// A printer that cannot be reached for now.
pub open spec fn offline(remote: RemotePrinterView) -> RemotePrinterView {
    RemotePrinterView {
        printer: PublishedPrinterView { status: PrinterStatus::Offline, ..remote.printer },
        ..remote
    }
}

/// The printers that are known at the start of a refresh: those of before,
/// which count as offline until their device answers.
pub fn cached_printers_for_refresh(printers: Vec<RemotePrinter>) -> (r: Vec<RemotePrinter>)
    ensures
        views(r@) == views(printers@).map_values(|p: RemotePrinterView| offline(p)),
{
    let mut out: Vec<RemotePrinter> = Vec::new();
    let mut i: usize = 0;
    while i < printers.len()
        invariant
            i <= printers@.len(),
            out@.len() == i,
            forall|j: int| 0 <= j < i ==> (#[trigger] out@[j])@ == offline(printers@[j]@),
        decreases printers@.len() - i,
    {
        let mut remote = printers[i].clone();
        remote.printer.status = PrinterStatus::Offline;
        out.push(remote);
        i += 1;
    }
    assert(views(out@) =~= views(printers@).map_values(|p: RemotePrinterView| offline(p)));
    out
}

/// `printers` with what a device has answered in place of what was known of
/// it.
pub open spec fn replaced(
    printers: Seq<RemotePrinterView>,
    device_id: Seq<char>,
    found: Seq<RemotePrinterView>,
) -> Seq<RemotePrinterView> {
    printers.filter(|p: RemotePrinterView| p.printer.source_device_id != device_id) + found
}

/// Takes over what a device has answered.
pub fn replace_device_printers(
    printers: &mut Vec<RemotePrinter>,
    device_id: &str,
    found: Vec<RemotePrinter>,
)
    ensures
        views(final(printers)@) == replaced(views(old(printers)@), device_id@, views(found@)),
{
    let ghost all = views(printers@);
    let ghost keep = |p: RemotePrinterView| p.printer.source_device_id != device_id@;
    let mut out: Vec<RemotePrinter> = Vec::new();
    let mut i: usize = 0;
    proof {
        lemma_filter_none(all, keep);
        assert(views(out@) =~= seq![]);
    }
    while i < printers.len()
        invariant
            i <= printers@.len(),
            all == views(printers@),
            keep == (|p: RemotePrinterView| p.printer.source_device_id != device_id@),
            views(out@) == all.take(i as int).filter(keep),
        decreases printers@.len() - i,
    {
        let ghost before = views(out@);
        proof {
            lemma_filter_step(all, i as int, keep);
        }
        if !same(printers[i].printer.source_device_id.as_str(), device_id) {
            out.push(printers[i].clone());
            assert(views(out@) =~= before.push(all[i as int]));
        }
        i += 1;
    }
    assert(all.take(i as int) =~= all);
    let ghost kept = views(out@);
    let ghost new = views(found@);
    let mut j: usize = 0;
    assert(views(out@) =~= kept + new.take(0));
    while j < found.len()
        invariant
            j <= found@.len(),
            new == views(found@),
            views(out@) == kept + new.take(j as int),
        decreases found@.len() - j,
    {
        let ghost before = views(out@);
        out.push(found[j].clone());
        assert(views(out@) =~= before.push(new[j as int]));
        assert(views(out@) =~= kept + new.take(j + 1));
        j += 1;
    }
    assert(new.take(j as int) =~= new);
    *printers = out;
}

/// Whether `a` is listed before `b` or in the same place: by the name of the
/// device, and then by the name of the printer, as UTF-8.
pub open spec fn listed_before(a: RemotePrinterView, b: RemotePrinterView) -> bool {
    if a.printer.source_device_name == b.printer.source_device_name {
        lex_le(encode_utf8(a.printer.display_name), encode_utf8(b.printer.display_name))
    } else {
        lex_le(
            encode_utf8(a.printer.source_device_name),
            encode_utf8(b.printer.source_device_name),
        )
    }
}

/// Printers with this device name and this name of their own.
pub open spec fn is_named(p: RemotePrinterView, device: Seq<char>, name: Seq<char>) -> bool {
    p.printer.source_device_name == device && p.printer.display_name == name
}

/// The printers with these names.
pub open spec fn named(printers: Seq<RemotePrinterView>, device: Seq<char>, name: Seq<char>) -> Seq<
    RemotePrinterView,
> {
    printers.filter(|p: RemotePrinterView| is_named(p, device, name))
}

/// Printers in the order in which they are listed.
pub open spec fn in_order(printers: Seq<RemotePrinterView>) -> bool {
    forall|i: int, j: int|
        0 <= i < j < printers.len() ==> listed_before(
            #[trigger] printers[i],
            #[trigger] printers[j],
        )
}

/// Of the same names, the same printers in the same order.
pub open spec fn same_by_name(a: Seq<RemotePrinterView>, b: Seq<RemotePrinterView>) -> bool {
    forall|device: Seq<char>, name: Seq<char>| #[trigger]
        named(a, device, name) == named(b, device, name)
}

/// `after` is `before`, put in order; printers with the same names stay in
/// the order that they had.
pub open spec fn sorted_from(before: Seq<RemotePrinterView>, after: Seq<RemotePrinterView>) -> bool {
    in_order(after) && same_by_name(before, after)
}

fn printer_le(a: &RemotePrinter, b: &RemotePrinter) -> (r: bool)
    ensures
        r == listed_before(a@, b@),
{
    if same(a.printer.source_device_name.as_str(), b.printer.source_device_name.as_str()) {
        bytes_le(a.printer.display_name.as_str().as_bytes(), b.printer.display_name.as_str().as_bytes())
    } else {
        bytes_le(
            a.printer.source_device_name.as_str().as_bytes(),
            b.printer.source_device_name.as_str().as_bytes(),
        )
    }
}

proof fn lemma_listed_total(a: RemotePrinterView, b: RemotePrinterView)
    ensures
        listed_before(a, b) || listed_before(b, a),
        a.printer.source_device_name == b.printer.source_device_name && a.printer.display_name
            == b.printer.display_name ==> listed_before(a, b),
{
    lemma_lex_total(encode_utf8(a.printer.display_name), encode_utf8(b.printer.display_name));
    lemma_lex_total(
        encode_utf8(a.printer.source_device_name),
        encode_utf8(b.printer.source_device_name),
    );
    lemma_lex_reflexive(encode_utf8(a.printer.display_name));
}

proof fn lemma_listed_transitive(
    a: RemotePrinterView,
    b: RemotePrinterView,
    c: RemotePrinterView,
)
    requires
        listed_before(a, b),
        listed_before(b, c),
    ensures
        listed_before(a, c),
{
    let (x, y, z) = (
        a.printer.source_device_name,
        b.printer.source_device_name,
        c.printer.source_device_name,
    );
    if x == y && y == z {
        lemma_lex_transitive(
            encode_utf8(a.printer.display_name),
            encode_utf8(b.printer.display_name),
            encode_utf8(c.printer.display_name),
        );
    } else if x != y && y != z {
        lemma_lex_transitive(encode_utf8(x), encode_utf8(y), encode_utf8(z));
        if x == z {
            lemma_lex_antisymmetric(encode_utf8(x), encode_utf8(y));
            encode_utf8_decode_utf8(x);
            encode_utf8_decode_utf8(y);
        }
    }
}

proof fn lemma_insert_in_order(s: Seq<RemotePrinterView>, x: RemotePrinterView, at: int)
    requires
        in_order(s),
        0 <= at <= s.len(),
        at > 0 ==> listed_before(s[at - 1], x),
        forall|j: int| at <= j < s.len() ==> !listed_before(#[trigger] s[j], x),
    ensures
        in_order(s.insert(at, x)),
        same_by_name(s.push(x), s.insert(at, x)),
{
    let t = s.insert(at, x);
    assert forall|i: int, j: int| 0 <= i < j < t.len() implies listed_before(
        #[trigger] t[i],
        #[trigger] t[j],
    ) by {
        let i0 = if i < at { i } else { i - 1 };
        let j0 = if j < at { j } else { j - 1 };
        if i == at {
            lemma_listed_total(x, s[j0]);
        } else if j == at {
            if i0 < at - 1 {
                assert(listed_before(s[i0], s[at - 1]));
                lemma_listed_transitive(s[i0], s[at - 1], x);
            }
        } else {
            assert(listed_before(s[i0], s[j0]));
        }
    }
    let u = s.push(x);
    assert forall|device: Seq<char>, name: Seq<char>| #[trigger]
        named(u, device, name) == named(t, device, name) by {
        let keep = |p: RemotePrinterView| is_named(p, device, name);
        let head = s.take(at);
        let tail = s.skip(at);
        assert(s =~= head + tail);
        assert(t =~= head + (seq![x] + tail));
        assert(u =~= head + (tail + seq![x]));
        Seq::filter_distributes_over_add(head, seq![x] + tail, keep);
        Seq::filter_distributes_over_add(head, tail + seq![x], keep);
        Seq::filter_distributes_over_add(seq![x], tail, keep);
        Seq::filter_distributes_over_add(tail, seq![x], keep);
        lemma_filter_single(x, keep);
        if keep(x) {
            assert forall|j: int| 0 <= j < tail.len() implies !keep(#[trigger] tail[j]) by {
                assert(tail[j] == s[at + j]);
                assert(!listed_before(s[at + j], x));
                lemma_listed_total(s[at + j], x);
            }
            lemma_filter_drops_all(tail, keep);
        }
        assert(seq![x].filter(keep) + tail.filter(keep) =~= tail.filter(keep) + seq![x].filter(
            keep,
        ));
    }
}

proof fn lemma_same_by_name_step(
    a: Seq<RemotePrinterView>,
    b: Seq<RemotePrinterView>,
    x: RemotePrinterView,
    c: Seq<RemotePrinterView>,
)
    requires
        same_by_name(a, b),
        same_by_name(b.push(x), c),
    ensures
        same_by_name(a.push(x), c),
{
    assert forall|device: Seq<char>, name: Seq<char>| #[trigger]
        named(a.push(x), device, name) == named(c, device, name) by {
        let keep = |p: RemotePrinterView| is_named(p, device, name);
        assert(named(a, device, name) == named(b, device, name));
        assert(named(b.push(x), device, name) == named(c, device, name));
        reveal(Seq::filter);
        assert(a.push(x).drop_last() =~= a);
        assert(b.push(x).drop_last() =~= b);
    }
}

/// Puts printers in the order in which they are listed.
pub fn sort_printers(printers: Vec<RemotePrinter>) -> (r: Vec<RemotePrinter>)
    ensures
        sorted_from(views(printers@), views(r@)),
{
    let ghost all = views(printers@);
    let mut out: Vec<RemotePrinter> = Vec::new();
    let mut i: usize = 0;
    assert(all.take(0) =~= views(out@));
    while i < printers.len()
        invariant
            i <= printers@.len(),
            all == views(printers@),
            sorted_from(all.take(i as int), views(out@)),
        decreases printers@.len() - i,
    {
        let remote = &printers[i];
        let ghost sorted = views(out@);
        let mut at: usize = out.len();
        while at > 0 && !printer_le(&out[at - 1], remote)
            invariant
                at <= out@.len(),
                sorted == views(out@),
                forall|j: int| at <= j < sorted.len() ==> !listed_before(#[trigger] sorted[j], remote@),
            decreases at,
        {
            at -= 1;
        }
        proof {
            lemma_insert_in_order(sorted, remote@, at as int);
            assert(all.take(i + 1) =~= all.take(i as int).push(remote@));
            lemma_same_by_name_step(
                all.take(i as int),
                sorted,
                remote@,
                sorted.insert(at as int, remote@),
            );
        }
        let copy = remote.clone();
        out.insert(at, copy);
        assert(views(out@) =~= sorted.insert(at as int, remote@));
        i += 1;
    }
    assert(all.take(i as int) =~= all);
    out
}

/// What a device has answered; nothing, where the query failed.
pub struct DeviceAnswer {
    pub device_id: String,
    pub found: Option<Vec<RemotePrinter>>,
}

pub struct DeviceAnswerView {
    pub device_id: Seq<char>,
    pub found: Option<Seq<RemotePrinterView>>,
}

impl View for DeviceAnswer {
    type V = DeviceAnswerView;

    open spec fn view(&self) -> DeviceAnswerView {
        DeviceAnswerView {
            device_id: self.device_id@,
            found: match self.found {
                Some(found) => Some(views(found@)),
                None => None,
            },
        }
    }
}

/// The printers after some answers; this device's own answer does not count,
/// and a failed query leaves what was known.
pub open spec fn after_answers(
    printers: Seq<RemotePrinterView>,
    own_device_id: Seq<char>,
    answers: Seq<DeviceAnswerView>,
) -> Seq<RemotePrinterView>
    decreases answers.len(),
{
    if answers.len() == 0 {
        printers
    } else {
        let before = after_answers(printers, own_device_id, answers.drop_last());
        let answer = answers.last();
        match answer.found {
            Some(found) => if answer.device_id == own_device_id {
                before
            } else {
                replaced(before, answer.device_id, found)
            },
            None => before,
        }
    }
}

/// The printers of other devices, given those known before and what the
/// devices have answered now.
pub fn refreshed_printers(
    cached: Vec<RemotePrinter>,
    own_device_id: &str,
    answers: Vec<DeviceAnswer>,
) -> (r: Vec<RemotePrinter>)
    ensures
        sorted_from(
            after_answers(
                views(cached@).map_values(|p: RemotePrinterView| offline(p)),
                own_device_id@,
                views(answers@),
            ),
            views(r@),
        ),
{
    let mut printers = cached_printers_for_refresh(cached);
    let ghost start = views(printers@);
    let ghost all = views(answers@);
    let mut i: usize = 0;
    assert(all.take(0) =~= seq![]);
    while i < answers.len()
        invariant
            i <= answers@.len(),
            all == views(answers@),
            views(printers@) == after_answers(start, own_device_id@, all.take(i as int)),
        decreases answers@.len() - i,
    {
        let answer = &answers[i];
        assert(all.take(i + 1).drop_last() =~= all.take(i as int));
        assert(all.take(i + 1).last() == answer@);
        match &answer.found {
            Some(found) => {
                if !same(answer.device_id.as_str(), own_device_id) {
                    let copy = clone_printers(found);
                    replace_device_printers(&mut printers, answer.device_id.as_str(), copy);
                }
            },
            None => {},
        }
        i += 1;
    }
    assert(all.take(i as int) =~= all);
    sort_printers(printers)
}

/// A copy of a list of printers.
pub fn clone_printers(printers: &Vec<RemotePrinter>) -> (r: Vec<RemotePrinter>)
    ensures
        views(r@) == views(printers@),
{
    let mut out: Vec<RemotePrinter> = Vec::new();
    let mut i: usize = 0;
    while i < printers.len()
        invariant
            i <= printers@.len(),
            out@.len() == i,
            forall|j: int| 0 <= j < i ==> (#[trigger] out@[j])@ == printers@[j]@,
        decreases printers@.len() - i,
    {
        out.push(printers[i].clone());
        i += 1;
    }
    assert(views(out@) =~= views(printers@));
    out
}

/// Whether `remote` is the printer of this device and share.
pub open spec fn is_printer(remote: RemotePrinterView, device: Seq<char>, share: Seq<char>) -> bool {
    remote.printer.source_device_id == device && remote.printer.share_id == share
}

/// The first printer of this device and share.
pub open spec fn found_remote(
    printers: Seq<RemotePrinterView>,
    device: Seq<char>,
    share: Seq<char>,
) -> Option<RemotePrinterView>
    decreases printers.len(),
{
    if printers.len() == 0 {
        None
    } else if is_printer(printers[0], device, share) {
        Some(printers[0])
    } else {
        found_remote(printers.drop_first(), device, share)
    }
}

/// The first printer of this device and share.
pub fn find_remote(printers: &Vec<RemotePrinter>, device: &str, share: &str) -> (r: Option<
    RemotePrinter,
>)
    ensures
        opt(r) == found_remote(views(printers@), device@, share@),
{
    let ghost all = views(printers@);
    let mut i: usize = 0;
    assert(all.skip(0) =~= all);
    while i < printers.len()
        invariant
            i <= printers@.len(),
            all == views(printers@),
            found_remote(all, device@, share@) == found_remote(all.skip(i as int), device@, share@),
        decreases printers@.len() - i,
    {
        let remote = &printers[i];
        assert(all.skip(i as int)[0] == remote@);
        assert(all.skip(i as int).drop_first() =~= all.skip(i + 1));
        if same(remote.printer.source_device_id.as_str(), device) && same(
            remote.printer.share_id.as_str(),
            share,
        ) {
            return Some(remote.clone());
        }
        i += 1;
    }
    None
}

/// The printers in a message of a device, up to the first that is invalid.
pub open spec fn decoded_printers(
    source_device_id: Seq<char>,
    source_device_name: Seq<char>,
    printers: Seq<PrintPublishedPrinterView>,
    address: Seq<char>,
    port: u16,
    certificate_sha256: Seq<u8>,
) -> core::result::Result<Seq<RemotePrinterView>, PrintErrorView>
    decreases printers.len(),
{
    if printers.len() == 0 {
        Ok(seq![])
    } else {
        match decoded_printers(
            source_device_id,
            source_device_name,
            printers.drop_last(),
            address,
            port,
            certificate_sha256,
        ) {
            Err(error) => Err(error),
            Ok(before) => match decoded_printer(
                source_device_id,
                source_device_name,
                printers.last(),
            ) {
                Err(error) => Err(error),
                Ok(printer) => Ok(
                    before.push(
                        RemotePrinterView {
                            printer,
                            address,
                            port,
                            certificate_sha256: hex_text(certificate_sha256),
                        },
                    ),
                ),
            },
        }
    }
}

/// The printers that the answer of a device tells of.
pub open spec fn printer_answer(
    frame: PrintServerFrameView,
    request_id: u64,
    address: Seq<char>,
    port: u16,
    certificate_sha256: Seq<u8>,
) -> core::result::Result<Seq<RemotePrinterView>, PrintErrorView> {
    match answer_to(frame, request_id) {
        Err(error) => Err(error),
        Ok(ServerBodyView::PrinterList(list)) => match status_check(list.status) {
            Err(error) => Err(error),
            Ok(_) => match parsed_id("device id"@, list.source_device_id) {
                Err(error) => Err(error),
                Ok(source) => decoded_printers(
                    source,
                    list.source_device_name,
                    list.printers,
                    address,
                    port,
                    certificate_sha256,
                ),
            },
        },
        Ok(_) => Err(PrintErrorView::Backend("printer list response is missing"@)),
    }
}

proof fn lemma_decoding_fails_early(
    source_device_id: Seq<char>,
    source_device_name: Seq<char>,
    printers: Seq<PrintPublishedPrinterView>,
    address: Seq<char>,
    port: u16,
    certificate_sha256: Seq<u8>,
    n: int,
)
    requires
        0 <= n <= printers.len(),
        decoded_printers(
            source_device_id,
            source_device_name,
            printers.take(n),
            address,
            port,
            certificate_sha256,
        ) is Err,
    ensures
        decoded_printers(
            source_device_id,
            source_device_name,
            printers,
            address,
            port,
            certificate_sha256,
        ) == decoded_printers(
            source_device_id,
            source_device_name,
            printers.take(n),
            address,
            port,
            certificate_sha256,
        ),
    decreases printers.len() - n,
{
    if n == printers.len() {
        assert(printers.take(n) =~= printers);
    } else {
        assert(printers.take(n + 1).drop_last() =~= printers.take(n));
        lemma_decoding_fails_early(
            source_device_id,
            source_device_name,
            printers,
            address,
            port,
            certificate_sha256,
            n + 1,
        );
    }
}

fn decode_printers(
    source: &DeviceId,
    name: &str,
    printers: Vec<PrintPublishedPrinter>,
    address: &str,
    port: u16,
    certificate_sha256: &[u8],
) -> (r: PrintResult<Vec<RemotePrinter>>)
    ensures
        listed(r) == decoded_printers(
            source@,
            name@,
            views(printers@),
            address@,
            port,
            certificate_sha256@,
        ),
{
    let ghost all = views(printers@);
    let mut pending = printers;
    let mut out: Vec<RemotePrinter> = Vec::new();
    let ghost n = 0int;
    assert(all.take(0) =~= seq![]);
    assert(views(out@) =~= seq![]);
    assert(all.skip(0) =~= all);
    while pending.len() > 0
        invariant
            0 <= n <= all.len(),
            views(pending@) == all.skip(n),
            pending@.len() == all.len() - n,
            views(printers@) == all,
            decoded_printers(source@, name@, all.take(n), address@, port, certificate_sha256@)
                == Ok::<Seq<RemotePrinterView>, PrintErrorView>(views(out@)),
        ensures
            n == all.len(),
        decreases pending@.len(),
    {
        let ghost waiting = pending@;
        let message = pending.remove(0);
        proof {
            assert(views(waiting)[0] == message@);
            assert(views(pending@) =~= all.skip(n + 1)) by {
                assert(views(pending@) =~= views(waiting).skip(1));
            }
            assert(all[n] == message@);
            assert(all.take(n + 1).drop_last() =~= all.take(n));
            assert(all.take(n + 1).last() == message@);
        }
        match decode_printer(source, name, message) {
            Ok(printer) => {
                let ghost before = views(out@);
                let remote = RemotePrinter {
                    printer,
                    address: address.to_string(),
                    port,
                    certificate_sha256: hex(certificate_sha256),
                };
                let ghost seen = remote@;
                out.push(remote);
                assert(views(out@) =~= before.push(seen));
            },
            Err(error) => {
                proof {
                    lemma_decoding_fails_early(
                        source@,
                        name@,
                        all,
                        address@,
                        port,
                        certificate_sha256@,
                        n + 1,
                    );
                }
                return Err(error);
            },
        }
        proof {
            n = n + 1;
        }
    }
    assert(all.take(n) =~= all);
    Ok(out)
}

/// The printers that the answer of a device tells of.
pub fn printer_list_result(
    frame: PrintServerFrame,
    request_id: u64,
    address: &str,
    port: u16,
    certificate_sha256: &[u8],
) -> (r: PrintResult<Vec<RemotePrinter>>)
    ensures
        listed(r) == printer_answer(frame@, request_id, address@, port, certificate_sha256@),
{
    let list = match correlate(frame, request_id) {
        Err(error) => {
            return Err(error);
        },
        Ok(ServerBody::PrinterList(list)) => list,
        Ok(_) => {
            return Err(PrintError::Backend("printer list response is missing".to_string()));
        },
    };
    match require_ok(clone_status(&list.status)) {
        Ok(_) => {},
        Err(error) => {
            return Err(error);
        },
    }
    let source = match DeviceId::parse(list.source_device_id.as_str()) {
        Ok(source) => source,
        Err(error) => {
            return Err(error);
        },
    };
    decode_printers(
        &source,
        list.source_device_name.as_str(),
        list.printers,
        address,
        port,
        certificate_sha256,
    )
}

/// What to do with a session to another device.
#[derive(Debug, Clone, Copy, PartialEq, Eq, Structural)]
pub enum SessionChoice {
    /// It is this device's own: requests can be sent.
    Use,
    /// The other device has opened it: try again after a pause.
    Retry,
    /// The other device keeps the session to itself.
    GiveUp,
}

/// How long to try for a session of one's own, in milliseconds.
pub const PRINT_SESSION_DIRECTION_RETRY_TIMEOUT_MS: u64 = 3_000;

/// The pause between two tries, in milliseconds.
pub const PRINT_SESSION_DIRECTION_RETRY_DELAY_MS: u64 = 50;

/// What to do with a session that is there `elapsed_ms` after the first try.
pub open spec fn session_choice(
    initiator_id: Seq<char>,
    own_device_id: Seq<char>,
    elapsed_ms: u64,
) -> SessionChoice {
    if initiator_id == own_device_id {
        SessionChoice::Use
    } else if elapsed_ms >= PRINT_SESSION_DIRECTION_RETRY_TIMEOUT_MS {
        SessionChoice::GiveUp
    } else {
        SessionChoice::Retry
    }
}

/// What to do with a session that is there `elapsed_ms` after the first try.
pub fn choose_session(initiator_id: &str, own_device_id: &str, elapsed_ms: u64) -> (r:
    SessionChoice)
    ensures
        r == session_choice(initiator_id@, own_device_id@, elapsed_ms),
{
    if same(initiator_id, own_device_id) {
        SessionChoice::Use
    } else if elapsed_ms >= PRINT_SESSION_DIRECTION_RETRY_TIMEOUT_MS {
        SessionChoice::GiveUp
    } else {
        SessionChoice::Retry
    }
}

/// A printer stays known until its device answers: where no device answers,
/// everything that was known is still there, offline.
pub proof fn law_silence_keeps_printers(
    printers: Seq<RemotePrinterView>,
    own_device_id: Seq<char>,
    answers: Seq<DeviceAnswerView>,
)
    requires
        forall|i: int| 0 <= i < answers.len() ==> (#[trigger] answers[i]).found is None,
    ensures
        after_answers(printers, own_device_id, answers) == printers,
    decreases answers.len(),
{
    if answers.len() > 0 {
        assert(answers[answers.len() - 1].found is None);
        assert forall|i: int| 0 <= i < answers.drop_last().len() implies (
        #[trigger] answers.drop_last()[i]).found is None by {
            assert(answers[i].found is None);
        }
        law_silence_keeps_printers(printers, own_device_id, answers.drop_last());
    }
}

/// An answer replaces the printers of its own device and no others.
pub proof fn law_answer_replaces_own_printers(
    printers: Seq<RemotePrinterView>,
    device_id: Seq<char>,
    found: Seq<RemotePrinterView>,
    other: Seq<char>,
)
    requires
        forall|i: int|
            0 <= i < found.len() ==> (#[trigger] found[i]).printer.source_device_id == device_id,
        other != device_id,
    ensures
        replaced(printers, device_id, found).filter(
            |p: RemotePrinterView| p.printer.source_device_id == device_id,
        ) == found,
        replaced(printers, device_id, found).filter(
            |p: RemotePrinterView| p.printer.source_device_id == other,
        ) == printers.filter(|p: RemotePrinterView| p.printer.source_device_id == other),
{
    let keep = |p: RemotePrinterView| p.printer.source_device_id != device_id;
    let own = |p: RemotePrinterView| p.printer.source_device_id == device_id;
    let foreign = |p: RemotePrinterView| p.printer.source_device_id == other;
    let kept = printers.filter(keep);
    Seq::filter_distributes_over_add(kept, found, own);
    Seq::filter_distributes_over_add(kept, found, foreign);
    assert forall|i: int| 0 <= i < kept.len() implies !own(#[trigger] kept[i]) by {
        lemma_filter_kept(printers, keep, i);
    }
    lemma_filter_drops_all(kept, own);
    lemma_filter_keeps_all(found, own);
    assert forall|i: int| 0 <= i < found.len() implies !foreign(#[trigger] found[i]) by {}
    lemma_filter_drops_all(found, foreign);
    lemma_filter_twice(printers, keep, foreign);
    assert(Seq::<RemotePrinterView>::empty() + found =~= found);
    assert(printers.filter(foreign) + Seq::<RemotePrinterView>::empty() =~= printers.filter(
        foreign,
    ));
}

} // verus!
