//! The notary REST service: document hashes are notarized under sequential
//! receipt ids with the time of notarization, and can be looked up again.
//! Every handler returns a status and a structured body; the HTTP edge turns
//! the body into JSON.

use std::collections::HashMap;
use vstd::prelude::*;
use crate::clock::{seconds_since_unix_epoch, system_time_now};
use crate::reply::{error_reply, joined, now_view, BodyModel, Reply, ReplyBody, ReplyModel};

verus! {

broadcast use vstd::std_specs::hash::group_hash_axioms;

/// A single notarized receipt.
pub struct Receipt {
    /// The document hash that was notarized.
    pub hash: String,
    /// Unix timestamp when the hash was notarized.
    pub timestamp: u64,
    /// Sequential receipt number.
    pub receipt_id: u64,
}

/// The content of a receipt.
pub struct ReceiptModel {
    pub hash: Seq<char>,
    pub timestamp: u64,
    pub receipt_id: u64,
}

impl View for Receipt {
    type V = ReceiptModel;

    open spec fn view(&self) -> ReceiptModel {
        ReceiptModel { hash: self.hash@, timestamp: self.timestamp, receipt_id: self.receipt_id }
    }
}

/// The notary's state: receipts by id and the next id to hand out.
pub struct NotaryModel {
    pub receipts: Map<u64, ReceiptModel>,
    pub next_id: u64,
}

/// Receipts are exactly the ids below `next_id`, each stored under its own id.
pub open spec fn notary_wf(m: NotaryModel) -> bool {
    &&& forall|k: u64| #[trigger] m.receipts.contains_key(k) <==> k < m.next_id
    &&& forall|k: u64| #[trigger] m.receipts.contains_key(k) ==> m.receipts[k].receipt_id == k
}

/// Notarizing `hash` at time `now`: an empty hash is refused with 400, a
/// clock error gives 500, otherwise the receipt is stored under the next id.
pub open spec fn notarize_model(m: NotaryModel, hash: Seq<char>, now: Result<u64, Seq<char>>) -> (
    NotaryModel,
    ReplyModel,
) {
    if hash.len() == 0 {
        (m, error_reply(400, "hash must not be empty"@))
    } else {
        match now {
            Err(e) => (m, error_reply(500, "system clock error: "@ + e)),
            Ok(t) => {
                let id = m.next_id;
                let receipt = ReceiptModel { hash, timestamp: t, receipt_id: id };
                (
                    NotaryModel { receipts: m.receipts.insert(id, receipt), next_id: (id + 1) as u64 },
                    ReplyModel {
                        status: 200,
                        body: BodyModel::Receipt { hash, timestamp: t, receipt_id: id },
                    },
                )
            },
        }
    }
}

/// Looking up a receipt: 200 with the receipt, or 404.
pub open spec fn verify_model(m: NotaryModel, receipt_id: u64) -> ReplyModel {
    if m.receipts.contains_key(receipt_id) {
        let r = m.receipts[receipt_id];
        ReplyModel {
            status: 200,
            body: BodyModel::Receipt {
                hash: r.hash,
                timestamp: r.timestamp,
                receipt_id: r.receipt_id,
            },
        }
    } else {
        error_reply(404, "receipt not found"@)
    }
}

/// The number of receipts.
pub open spec fn stats_model(m: NotaryModel) -> ReplyModel {
    ReplyModel { status: 200, body: BodyModel::Stats { total_notarized: m.next_id } }
}

/// Receipts and id counter, kept together so that they can be replaced as
/// one value.
struct Ledger {
    receipts: HashMap<u64, Receipt>,
    next_id: u64,
}

/// Shared application state holding all notarized receipts.
pub struct AppState {
    ledger: Ledger,
}

impl Ledger {
    spec fn model(&self) -> NotaryModel {
        NotaryModel { receipts: self.receipts@.map_values(|r: Receipt| r@), next_id: self.next_id }
    }

    spec fn ok(&self) -> bool {
        &&& notary_wf(self.model())
        &&& self.receipts@.len() == self.next_id
    }
}

impl View for AppState {
    type V = NotaryModel;

    closed spec fn view(&self) -> NotaryModel {
        self.ledger.model()
    }
}

impl AppState {
    #[verifier::type_invariant]
    spec fn inv(&self) -> bool {
        self.ledger.ok()
    }

    /// An empty notary.
    pub fn new() -> (res: Self)
        ensures
            res@.next_id == 0,
            res@.receipts == Map::<u64, ReceiptModel>::empty(),
            notary_wf(res@),
    {
        let res = AppState { ledger: Ledger { receipts: HashMap::new(), next_id: 0 } };
        assert(res@.receipts =~= Map::<u64, ReceiptModel>::empty());
        res
    }

    /// The id the next notarized hash will get.
    pub fn next_receipt_id(&self) -> (res: u64)
        ensures
            res == self@.next_id,
    {
        self.ledger.next_id
    }

    /// Notarizes `hash` at the unix time `now` (or the clock's error text).
    pub fn notarize_at(&mut self, hash: String, now: Result<u64, String>) -> (reply: Reply)
        requires
            old(self)@.next_id < u64::MAX,
        ensures
            (final(self)@, reply@) == notarize_model(old(self)@, hash@, now_view(now)),
            notary_wf(old(self)@),
            notary_wf(final(self)@),
    {
        proof {
            use_type_invariant(&*self);
        }
        if hash.as_str().is_empty() {
            return Reply {
                status: 400,
                body: ReplyBody::Error { error: "hash must not be empty".to_string() },
            };
        }
        let timestamp = match now {
            Ok(t) => t,
            Err(e) => {
                return Reply {
                    status: 500,
                    body: ReplyBody::Error { error: joined("system clock error: ", e.as_str()) },
                };
            },
        };
        let receipt_id = self.ledger.next_id;
        let ghost before = self.ledger.model();
        let mut ledger = Ledger { receipts: HashMap::new(), next_id: 0 };
        assert(ledger.receipts@ =~= Map::<u64, Receipt>::empty());
        std::mem::swap(&mut ledger, &mut self.ledger);
        let receipt = Receipt { hash: hash.clone(), timestamp, receipt_id };
        ledger.receipts.insert(receipt_id, receipt);
        ledger.next_id = receipt_id + 1;
        assert(ledger.model().receipts =~= before.receipts.insert(
            receipt_id,
            ReceiptModel { hash: hash@, timestamp, receipt_id },
        ));
        assert(!before.receipts.contains_key(receipt_id));
        self.ledger = ledger;
        Reply { status: 200, body: ReplyBody::Receipt { hash, timestamp, receipt_id } }
    }

    /// Notarizes `hash` at the current time.
    pub fn notarize(&mut self, hash: String) -> (reply: Reply)
        requires
            old(self)@.next_id < u64::MAX,
        ensures
            exists|now: Result<u64, Seq<char>>|
                (final(self)@, reply@) == notarize_model(old(self)@, hash@, now),
    {
        let now = seconds_since_unix_epoch(system_time_now());
        let reply = self.notarize_at(hash, now);
        assert((self@, reply@) == notarize_model(old(self)@, hash@, now_view(now)));
        reply
    }

    /// Looks up a receipt by id.
    pub fn verify(&self, receipt_id: u64) -> (reply: Reply)
        ensures
            reply@ == verify_model(self@, receipt_id),
            notary_wf(self@),
    {
        proof {
            use_type_invariant(self);
        }
        match self.ledger.receipts.get(&receipt_id) {
            Some(receipt) => Reply {
                status: 200,
                body: ReplyBody::Receipt {
                    hash: receipt.hash.clone(),
                    timestamp: receipt.timestamp,
                    receipt_id: receipt.receipt_id,
                },
            },
            None => Reply {
                status: 404,
                body: ReplyBody::Error { error: "receipt not found".to_string() },
            },
        }
    }

    /// The number of notarized receipts.
    pub fn stats(&self) -> (reply: Reply)
        ensures
            reply@ == stats_model(self@),
    {
        proof {
            use_type_invariant(self);
        }
        let total = self.ledger.receipts.len();
        Reply { status: 200, body: ReplyBody::Stats { total_notarized: total as u64 } }
    }
}

// ---------------------------------------------------------------------------
// Laws
// ---------------------------------------------------------------------------

/// Receipt ids are handed out in sequence: two successful notarizations in
/// a row get ids `n` and `n + 1`.
pub proof fn law_receipt_ids_sequential(
    m: NotaryModel,
    first: Seq<char>,
    second: Seq<char>,
    t1: u64,
    t2: u64,
)
    requires
        notary_wf(m),
        first.len() > 0,
        second.len() > 0,
        m.next_id + 1 < u64::MAX,
    ensures
        ({
            let (m1, r1) = notarize_model(m, first, Ok(t1));
            let (m2, r2) = notarize_model(m1, second, Ok(t2));
            &&& r1.body == BodyModel::Receipt { hash: first, timestamp: t1, receipt_id: m.next_id }
            &&& r2.body == BodyModel::Receipt {
                hash: second,
                timestamp: t2,
                receipt_id: (m.next_id + 1) as u64,
            }
            &&& m2.next_id == m.next_id + 2
        }),
{
}

/// A notarized hash can be looked up under its receipt id, with the time it
/// was notarized; every other lookup answers as before.
pub proof fn law_verify_after_notarize(m: NotaryModel, hash: Seq<char>, t: u64, other: u64)
    requires
        notary_wf(m),
        hash.len() > 0,
        m.next_id < u64::MAX,
    ensures
        ({
            let (m1, r) = notarize_model(m, hash, Ok(t));
            &&& r.status == 200
            &&& verify_model(m1, m.next_id) == ReplyModel {
                status: 200,
                body: BodyModel::Receipt { hash, timestamp: t, receipt_id: m.next_id },
            }
            &&& other != m.next_id ==> verify_model(m1, other) == verify_model(m, other)
            &&& notary_wf(m1)
        }),
{
    let (m1, r) = notarize_model(m, hash, Ok(t));
    assert(m1.receipts.contains_key(m.next_id));
}

/// A refused notarization (empty hash, or no clock) changes nothing.
pub proof fn law_refused_notarize_keeps_state(
    m: NotaryModel,
    hash: Seq<char>,
    now: Result<u64, Seq<char>>,
)
    requires
        hash.len() == 0 || now is Err,
    ensures
        notarize_model(m, hash, now).0 == m,
        notarize_model(m, hash, now).1.status != 200,
{
}

/// Every successful notarization raises the count by one.
pub proof fn law_stats_counts_notarizations(m: NotaryModel, hash: Seq<char>, t: u64)
    requires
        notary_wf(m),
        hash.len() > 0,
        m.next_id < u64::MAX,
    ensures
        stats_model(notarize_model(m, hash, Ok(t)).0) == (ReplyModel {
            status: 200,
            body: BodyModel::Stats { total_notarized: (m.next_id + 1) as u64 },
        }),
{
}

/// Ids that were never handed out are not found.
pub proof fn law_unknown_receipt_not_found(m: NotaryModel, receipt_id: u64)
    requires
        notary_wf(m),
        receipt_id >= m.next_id,
    ensures
        verify_model(m, receipt_id) == error_reply(404, "receipt not found"@),
{
}

} // verus!
