//! Permissions to upload a document, each for one upload.
use vstd::prelude::*;
use vstd::string::*;

use crate::domain::id::{DeviceId, PrintJobId};
use crate::domain::job::{PrintJob, PrintJobState};
use crate::domain::TimestampMs;
use crate::error::{outcome, PrintError, PrintErrorView, PrintResult};
use crate::model::opt;
use crate::text::{bytes_between, same, same_bytes};
use crate::unique::{is_random_uuid, lemma_random_uuid_exists, random_uuid};

verus! {

/// How long a permission holds, in milliseconds.
pub const PRINT_UPLOAD_TICKET_TTL_MS: i64 = 5 * 60 * 1_000;

/// A permission to upload a document.
#[derive(Debug, PartialEq, Eq)]
pub struct UploadTicket {
    pub token: Vec<u8>,
    pub expires_at_ms: TimestampMs,
}

pub struct UploadTicketView {
    pub token: Seq<u8>,
    pub expires_at_ms: TimestampMs,
}

impl View for UploadTicket {
    type V = UploadTicketView;

    open spec fn view(&self) -> UploadTicketView {
        UploadTicketView { token: self.token@, expires_at_ms: self.expires_at_ms }
    }
}

impl Clone for UploadTicket {
    fn clone(&self) -> (r: Self)
        ensures
            r@ == self@,
    {
        let token = bytes_between(self.token.as_slice(), 0, self.token.len());
        assert(token@ =~= self.token@);
        UploadTicket { token, expires_at_ms: self.expires_at_ms }
    }
}

struct TicketEntry {
    device: String,
    job: String,
    ticket: UploadTicket,
}

impl TicketEntry {
    spec fn key(self) -> (Seq<char>, Seq<char>) {
        (self.device@, self.job@)
    }
}

/// The permissions that hold: at most one for each device and job.
pub struct UploadTickets {
    entries: Vec<TicketEntry>,
}

/// Permissions by device and job.
pub type TicketMap = Map<(Seq<char>, Seq<char>), UploadTicketView>;

spec fn map_of(entries: Seq<TicketEntry>) -> TicketMap
    decreases entries.len(),
{
    if entries.len() == 0 {
        Map::empty()
    } else {
        map_of(entries.drop_last()).insert(entries.last().key(), entries.last().ticket@)
    }
}

spec fn distinct(entries: Seq<TicketEntry>) -> bool {
    forall|i: int, j: int|
        0 <= i < j < entries.len() ==> (#[trigger] entries[i]).key() != (
        #[trigger] entries[j]).key()
}

proof fn lemma_map_of(entries: Seq<TicketEntry>)
    requires
        distinct(entries),
    ensures
        forall|k: (Seq<char>, Seq<char>)| #[trigger]
            map_of(entries).dom().contains(k) <==> exists|i: int|
                0 <= i < entries.len() && (#[trigger] entries[i]).key() == k,
        forall|i: int|
            0 <= i < entries.len() ==> map_of(entries)[(#[trigger] entries[i]).key()]
                == entries[i].ticket@,
    decreases entries.len(),
{
    if entries.len() > 0 {
        let before = entries.drop_last();
        let last = entries.last();
        assert(distinct(before)) by {
            assert forall|i: int, j: int| 0 <= i < j < before.len() implies (
            #[trigger] before[i]).key() != (#[trigger] before[j]).key() by {
                assert(entries[i].key() != entries[j].key());
            }
        }
        lemma_map_of(before);
        assert forall|k: (Seq<char>, Seq<char>)| #[trigger]
            map_of(entries).dom().contains(k) <==> exists|i: int|
                0 <= i < entries.len() && (#[trigger] entries[i]).key() == k by {
            if map_of(before).dom().contains(k) {
                let i = choose|i: int| 0 <= i < before.len() && (#[trigger] before[i]).key() == k;
                assert(entries[i].key() == k);
            }
            if k == last.key() {
                assert(entries[entries.len() - 1].key() == k);
            }
            if exists|i: int| 0 <= i < entries.len() && (#[trigger] entries[i]).key() == k {
                let i = choose|i: int| 0 <= i < entries.len() && (#[trigger] entries[i]).key() == k;
                if i < before.len() {
                    assert(before[i].key() == k);
                }
            }
        }
        assert forall|i: int| 0 <= i < entries.len() implies map_of(entries)[(
        #[trigger] entries[i]).key()] == entries[i].ticket@ by {
            if i < before.len() {
                assert(before[i] == entries[i]);
                assert(entries[i].key() != entries[entries.len() - 1].key());
            }
        }
    }
}

/// The permissions among `tickets` that still hold.
pub open spec fn live(tickets: TicketMap, now_ms: TimestampMs) -> TicketMap {
    Map::new(
        |k: (Seq<char>, Seq<char>)| tickets.dom().contains(k) && tickets[k].expires_at_ms > now_ms,
        |k: (Seq<char>, Seq<char>)| tickets[k],
    )
}

/// When a permission that is given now ends.
pub open spec fn expiry(now_ms: TimestampMs) -> TimestampMs {
    if now_ms + PRINT_UPLOAD_TICKET_TTL_MS > i64::MAX {
        i64::MAX
    } else {
        (now_ms + PRINT_UPLOAD_TICKET_TTL_MS) as i64
    }
}

fn ticket_expiry(now_ms: TimestampMs) -> (r: TimestampMs)
    ensures
        r == expiry(now_ms),
{
    if now_ms > i64::MAX - PRINT_UPLOAD_TICKET_TTL_MS {
        i64::MAX
    } else {
        now_ms + PRINT_UPLOAD_TICKET_TTL_MS
    }
}

/// Whether a document can still be uploaded for a job in this state.
pub open spec fn takes_upload(state: PrintJobState) -> bool {
    state == PrintJobState::Offered || state == PrintJobState::Receiving
}

/// The permission that is given for `key`, a new one having `token`.
pub open spec fn issued(
    tickets: TicketMap,
    key: (Seq<char>, Seq<char>),
    now_ms: TimestampMs,
    token: Seq<u8>,
) -> UploadTicketView {
    if live(tickets, now_ms).dom().contains(key) {
        live(tickets, now_ms)[key]
    } else {
        UploadTicketView { token, expires_at_ms: expiry(now_ms) }
    }
}

/// The permissions once one has been given for `key`.
pub open spec fn after_issue(
    tickets: TicketMap,
    key: (Seq<char>, Seq<char>),
    now_ms: TimestampMs,
    token: Seq<u8>,
) -> TicketMap {
    live(tickets, now_ms).insert(key, issued(tickets, key, now_ms, token))
}

/// Whether `provided` permits an upload for `key`.
pub open spec fn permits(
    tickets: TicketMap,
    key: (Seq<char>, Seq<char>),
    provided: Seq<u8>,
    now_ms: TimestampMs,
) -> bool {
    live(tickets, now_ms).dom().contains(key) && live(tickets, now_ms)[key].token == provided
}

/// The permissions after `provided` has been presented for `key`.
pub open spec fn after_consume(
    tickets: TicketMap,
    key: (Seq<char>, Seq<char>),
    provided: Seq<u8>,
    now_ms: TimestampMs,
) -> TicketMap {
    if permits(tickets, key, provided, now_ms) {
        live(tickets, now_ms).remove(key)
    } else {
        live(tickets, now_ms)
    }
}

impl View for UploadTickets {
    type V = TicketMap;

    closed spec fn view(&self) -> TicketMap {
        map_of(self.entries@)
    }
}

impl UploadTickets {
    /// No device and job has two permissions.
    pub closed spec fn wf(&self) -> bool {
        distinct(self.entries@)
    }

    /// No permissions.
    pub fn new() -> (r: Self)
        ensures
            r.wf(),
            r@ == Map::<(Seq<char>, Seq<char>), UploadTicketView>::empty(),
    {
        UploadTickets { entries: Vec::new() }
    }

    fn drop_expired(&mut self, now_ms: TimestampMs)
        requires
            old(self).wf(),
        ensures
            final(self).wf(),
            final(self)@ == live(old(self)@, now_ms),
    {
        let ghost all = self.entries@;
        let mut i: usize = 0;
        proof {
            lemma_map_of(all);
        }
        while i < self.entries.len()
            invariant
                i <= self.entries@.len(),
                distinct(self.entries@),
                distinct(all),
                all == old(self).entries@,
                forall|j: int|
                    0 <= j < i ==> (#[trigger] self.entries@[j]).ticket.expires_at_ms > now_ms,
                forall|j: int|
                    0 <= j < self.entries@.len() ==> all.contains(#[trigger] self.entries@[j]),
                forall|j: int|
                    0 <= j < all.len() && (#[trigger] all[j]).ticket.expires_at_ms > now_ms
                        ==> self.entries@.contains(all[j]),
            decreases self.entries@.len() - i,
        {
            let ghost before = self.entries@;
            if self.entries[i].ticket.expires_at_ms > now_ms {
                i += 1;
            } else {
                self.entries.remove(i);
                let ghost after = self.entries@;
                proof {
                    assert(after =~= before.remove(i as int));
                    assert forall|a: int, b: int| 0 <= a < b < after.len() implies (
                    #[trigger] after[a]).key() != (#[trigger] after[b]).key() by {
                        let a0 = if a < i { a } else { a + 1 };
                        let b0 = if b < i { b } else { b + 1 };
                        assert(before[a0].key() != before[b0].key());
                    }
                    assert forall|j: int| 0 <= j < after.len() implies all.contains(
                        #[trigger] after[j],
                    ) by {
                        let j0 = if j < i { j } else { j + 1 };
                        assert(all.contains(before[j0]));
                    }
                    assert forall|j: int|
                        0 <= j < all.len() && (#[trigger] all[j]).ticket.expires_at_ms
                            > now_ms implies after.contains(all[j]) by {
                        let p = choose|p: int| 0 <= p < before.len() && before[p] == all[j];
                        assert(p != i);
                        let p0 = if p < i { p } else { p - 1 };
                        assert(after[p0] == all[j]);
                    }
                    assert forall|j: int| 0 <= j < i implies (
                    #[trigger] after[j]).ticket.expires_at_ms > now_ms by {
                        assert(before[j].ticket.expires_at_ms > now_ms);
                    }
                }
            }
        }
        proof {
            let kept = self.entries@;
            lemma_map_of(kept);
            let target = live(map_of(all), now_ms);
            assert forall|k: (Seq<char>, Seq<char>)| #[trigger]
                map_of(kept).dom().contains(k) <==> target.dom().contains(k) by {
                if map_of(kept).dom().contains(k) {
                    let j = choose|j: int| 0 <= j < kept.len() && (#[trigger] kept[j]).key() == k;
                    assert(all.contains(kept[j]));
                    let p = choose|p: int| 0 <= p < all.len() && all[p] == kept[j];
                    assert(all[p].key() == k);
                }
                if target.dom().contains(k) {
                    let p = choose|p: int| 0 <= p < all.len() && (#[trigger] all[p]).key() == k;
                    assert(kept.contains(all[p]));
                    let j = choose|j: int| 0 <= j < kept.len() && kept[j] == all[p];
                    assert(kept[j].key() == k);
                }
            }
            assert forall|k: (Seq<char>, Seq<char>)| #[trigger]
                map_of(kept).dom().contains(k) implies map_of(kept)[k] == target[k] by {
                let j = choose|j: int| 0 <= j < kept.len() && (#[trigger] kept[j]).key() == k;
                assert(all.contains(kept[j]));
                let p = choose|p: int| 0 <= p < all.len() && all[p] == kept[j];
                assert(all[p].key() == k);
            }
            assert(map_of(kept) =~= target);
        }
    }

    fn position(&self, device: &str, job: &str) -> (r: Option<usize>)
        requires
            self.wf(),
        ensures
            match r {
                Some(i) => i < self.entries@.len() && self.entries@[i as int].key() == (
                    device@,
                    job@,
                ) && self@.dom().contains((device@, job@)) && self@[(device@, job@)]
                    == self.entries@[i as int].ticket@,
                None => !self@.dom().contains((device@, job@)),
            },
    {
        proof {
            lemma_map_of(self.entries@);
        }
        let mut i: usize = 0;
        while i < self.entries.len()
            invariant
                i <= self.entries@.len(),
                self.wf(),
                forall|j: int|
                    0 <= j < i ==> (#[trigger] self.entries@[j]).key() != (device@, job@),
            decreases self.entries@.len() - i,
        {
            let entry = &self.entries[i];
            if same(entry.device.as_str(), device) && same(entry.job.as_str(), job) {
                proof {
                    lemma_map_of(self.entries@);
                    assert(self.entries@[i as int].key() == (device@, job@));
                }
                return Some(i);
            }
            i += 1;
        }
        None
    }

    /// Gives a permission to upload the document of `job`, or gives again the
    /// one that holds; a job whose document has arrived gets none.
    pub fn issue_upload_ticket(
        &mut self,
        source_device_id: &DeviceId,
        job: &PrintJob,
        now_ms: TimestampMs,
    ) -> (r: Option<UploadTicket>)
        requires
            old(self).wf(),
        ensures
            final(self).wf(),
            if takes_upload(job@.state) {
                exists|token: Seq<u8>|
                    is_random_uuid(token) && opt(r) == Some(
                        #[trigger] issued(old(self)@, (source_device_id@, job@.id), now_ms, token),
                    ) && final(self)@ == after_issue(
                        old(self)@,
                        (source_device_id@, job@.id),
                        now_ms,
                        token,
                    )
            } else {
                r is None && final(self)@ == old(self)@
            },
    {
        match job.state {
            PrintJobState::Offered | PrintJobState::Receiving => {},
            _ => {
                return None;
            },
        }
        self.drop_expired(now_ms);
        let ghost key = (source_device_id@, job@.id);
        match self.position(source_device_id.as_str(), job.id.as_str()) {
            Some(i) => {
                let ticket = self.entries[i].ticket.clone();
                assert(self@ =~= self@.insert(key, ticket@));
                proof {
                    let any = lemma_random_uuid_exists();
                    assert(Some(ticket@) == Some(issued(old(self)@, key, now_ms, any)));
                }
                Some(ticket)
            },
            None => {
                let fresh = random_uuid();
                let token = bytes_between(&fresh, 0, 16);
                assert(token@ =~= fresh@);
                let ticket = UploadTicket {
                    token,
                    expires_at_ms: ticket_expiry(now_ms),
                };
                let ghost before = self.entries@;
                proof {
                    lemma_map_of(before);
                }
                self.entries.push(
                    TicketEntry {
                        device: source_device_id.to_string(),
                        job: job.id.to_string(),
                        ticket: ticket.clone(),
                    },
                );
                proof {
                    let after = self.entries@;
                    assert(after.drop_last() =~= before);
                    assert forall|a: int, b: int| 0 <= a < b < after.len() implies (
                    #[trigger] after[a]).key() != (#[trigger] after[b]).key() by {
                        if b < before.len() {
                            assert(before[a].key() != before[b].key());
                        } else {
                            assert(before[a].key() != key);
                        }
                    }
                    assert(Some(ticket@) == Some(issued(old(self)@, key, now_ms, fresh@)));
                }
                Some(ticket)
            },
        }
    }

    /// Presents a permission, which is used up by that.
    pub fn consume_upload_ticket(
        &mut self,
        source_device_id: &DeviceId,
        job_id: &PrintJobId,
        provided: &[u8],
        now_ms: TimestampMs,
    ) -> (r: PrintResult<()>)
        requires
            old(self).wf(),
        ensures
            final(self).wf(),
            outcome(r) == if permits(old(self)@, (source_device_id@, job_id@), provided@, now_ms) {
                Ok(())
            } else {
                Err(
                    PrintErrorView::Invalid(
                        "print upload ticket is invalid, expired, or already used"@,
                    ),
                )
            },
            final(self)@ == after_consume(
                old(self)@,
                (source_device_id@, job_id@),
                provided@,
                now_ms,
            ),
    {
        self.drop_expired(now_ms);
        match self.position(source_device_id.as_str(), job_id.as_str()) {
            Some(i) => {
                if same_bytes(self.entries[i].ticket.token.as_slice(), provided) {
                    let ghost before = self.entries@;
                    let ghost key = before[i as int].key();
                    proof {
                        lemma_map_of(before);
                    }
                    self.entries.remove(i);
                    proof {
                        let after = self.entries@;
                        assert(after =~= before.remove(i as int));
                        assert forall|a: int, b: int| 0 <= a < b < after.len() implies (
                        #[trigger] after[a]).key() != (#[trigger] after[b]).key() by {
                            let a0 = if a < i { a } else { a + 1 };
                            let b0 = if b < i { b } else { b + 1 };
                            assert(before[a0].key() != before[b0].key());
                        }
                        lemma_map_of(after);
                        lemma_map_without(before, after, i as int);
                    }
                    return Ok(());
                }
            },
            None => {},
        }
        Err(
            PrintError::Invalid(
                "print upload ticket is invalid, expired, or already used".to_string(),
            ),
        )
    }
}

proof fn lemma_map_without(before: Seq<TicketEntry>, after: Seq<TicketEntry>, i: int)
    requires
        distinct(before),
        distinct(after),
        0 <= i < before.len(),
        after == before.remove(i),
    ensures
        map_of(after) == map_of(before).remove(before[i].key()),
{
    lemma_map_of(before);
    lemma_map_of(after);
    let key = before[i].key();
    let target = map_of(before).remove(key);
    assert forall|k: (Seq<char>, Seq<char>)| #[trigger]
        map_of(after).dom().contains(k) <==> target.dom().contains(k) by {
        if map_of(after).dom().contains(k) {
            let j = choose|j: int| 0 <= j < after.len() && (#[trigger] after[j]).key() == k;
            let p = if j < i { j } else { j + 1 };
            assert(before[p] == after[j]);
            assert(before[p].key() == k);
            if p < i {
                assert(before[p].key() != before[i].key());
            } else {
                assert(before[i].key() != before[p].key());
            }
        }
        if target.dom().contains(k) {
            let p = choose|p: int| 0 <= p < before.len() && (#[trigger] before[p]).key() == k;
            let j = if p < i { p } else { p - 1 };
            assert(after[j] == before[p]);
            assert(after[j].key() == k);
        }
    }
    assert forall|k: (Seq<char>, Seq<char>)| #[trigger]
        map_of(after).dom().contains(k) implies map_of(after)[k] == target[k] by {
        let j = choose|j: int| 0 <= j < after.len() && (#[trigger] after[j]).key() == k;
        let p = if j < i { j } else { j + 1 };
        assert(before[p] == after[j]);
        assert(before[p].key() == k);
    }
    assert(map_of(after) =~= target);
}

/// A permission is good for one upload: once it has been used, presenting it
/// again, or anything else, is refused.
pub proof fn law_ticket_is_used_once(
    tickets: TicketMap,
    key: (Seq<char>, Seq<char>),
    provided: Seq<u8>,
    now_ms: TimestampMs,
    again: Seq<u8>,
    later_ms: TimestampMs,
)
    requires
        permits(tickets, key, provided, now_ms),
    ensures
        !permits(after_consume(tickets, key, provided, now_ms), key, again, later_ms),
{
}

/// A permission holds from when it is given until it ends, and no longer.
pub proof fn law_ticket_expires(
    tickets: TicketMap,
    key: (Seq<char>, Seq<char>),
    token: Seq<u8>,
    now_ms: TimestampMs,
    later_ms: TimestampMs,
)
    ensures
        ({
            let ticket = issued(tickets, key, now_ms, token);
            permits(after_issue(tickets, key, now_ms, token), key, ticket.token, later_ms)
                <==> later_ms < ticket.expires_at_ms
        }),
        now_ms < i64::MAX ==> now_ms < issued(tickets, key, now_ms, token).expires_at_ms,
{
}

/// A permission of one device or job is of no use to another.
pub proof fn law_tickets_are_personal(
    tickets: TicketMap,
    key: (Seq<char>, Seq<char>),
    other: (Seq<char>, Seq<char>),
    token: Seq<u8>,
    provided: Seq<u8>,
    now_ms: TimestampMs,
    later_ms: TimestampMs,
)
    requires
        key != other,
        now_ms <= later_ms,
    ensures
        permits(after_issue(tickets, key, now_ms, token), other, provided, later_ms) <==> permits(
            tickets,
            other,
            provided,
            later_ms,
        ),
{
}

} // verus!
