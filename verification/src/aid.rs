//! Aid distribution: a donor escrows an amount for a recipient, who can
//! claim it until an expiry ledger; afterwards the donor (or the admin) can
//! have it refunded. Records are indexed per donor and per recipient for
//! paginated queries.
use vstd::prelude::*;
use std::collections::HashMap;
use crate::token::Transfer;

verus! {

broadcast use vstd::std_specs::hash::group_hash_axioms;

/// Upper bound for the page size of paginated queries; larger requests are
/// clamped to it.
pub const MAX_QUERY_LIMIT: u32 = 50;

/// Aid contract error codes (100-106).
#[derive(Clone, Copy, Debug, PartialEq, Eq, Structural)]
pub enum AidError {
    Unauthorized,
    NotFound,
    AlreadyClaimed,
    Expired,
    Paused,
    NotExpiredYet,
    AlreadyRefunded,
}

impl AidError {
    pub open spec fn spec_code(&self) -> u32 {
        match self {
            AidError::Unauthorized => 100,
            AidError::NotFound => 101,
            AidError::AlreadyClaimed => 102,
            AidError::Expired => 103,
            AidError::Paused => 104,
            AidError::NotExpiredYet => 105,
            AidError::AlreadyRefunded => 106,
        }
    }

    /// The numeric code of this error.
    pub fn code(&self) -> (c: u32)
        ensures
            c == self.spec_code(),
    {
        match self {
            AidError::Unauthorized => 100,
            AidError::NotFound => 101,
            AidError::AlreadyClaimed => 102,
            AidError::Expired => 103,
            AidError::Paused => 104,
            AidError::NotExpiredYet => 105,
            AidError::AlreadyRefunded => 106,
        }
    }
}

/// Why an aid could not be created.
#[derive(Clone, Copy, Debug, PartialEq, Eq, Structural)]
pub enum CreateAidError {
    /// The amount is not positive (reported as the shared `InvalidAmount`).
    InvalidAmount,
    /// The expiry ledger is not after the current one (reported as
    /// [`AidError::NotExpiredYet`]).
    ExpiryNotInFuture,
}

impl CreateAidError {
    pub open spec fn spec_code(&self) -> u32 {
        match self {
            CreateAidError::InvalidAmount => 1,
            CreateAidError::ExpiryNotInFuture => 105,
        }
    }

    /// The numeric code under which the error is reported.
    pub fn code(&self) -> (c: u32)
        ensures
            c == self.spec_code(),
    {
        match self {
            CreateAidError::InvalidAmount => 1,
            CreateAidError::ExpiryNotInFuture => 105,
        }
    }
}

/// Lifecycle of an aid record.
#[derive(Clone, Copy, Debug, PartialEq, Eq, Structural)]
pub enum AidStatus {
    Pending,
    Settled,
    Refunded,
}

/// One escrowed disbursement.
#[derive(Clone, Copy, Debug, PartialEq, Eq, Structural)]
pub struct AidRecord {
    pub id: u64,
    pub donor: u64,
    pub recipient: u64,
    pub token: u64,
    pub amount: i128,
    pub expiry_ledger: u32,
    pub status: AidStatus,
}

/// One page of records and the cursor of the next page, if any.
#[derive(Clone, Debug)]
pub struct AidPage {
    pub records: Vec<AidRecord>,
    pub next_cursor: Option<u32>,
}

/// One page of the id-range listing and the next id to read, if any.
#[derive(Clone, Debug)]
pub struct PaginatedAidsResponse {
    pub aids: Vec<AidRecord>,
    pub next_cursor: Option<u64>,
}

/// Abstract state of the aid contract.
pub struct AidView {
    /// This contract's own account, which holds the escrow.
    pub contract: u64,
    pub admin: u64,
    pub token: u64,
    pub paused: bool,
    pub aids: Map<u64, AidRecord>,
    /// The number of aids created so far; the next id.
    pub counter: u64,
    pub donor_index: Map<u64, Seq<u64>>,
    pub recipient_index: Map<u64, Seq<u64>>,
}

pub struct AidContract {
    contract: u64,
    admin: u64,
    token: u64,
    paused: bool,
    aids: HashMap<u64, AidRecord>,
    counter: u64,
    donor_index: HashMap<u64, Vec<u64>>,
    recipient_index: HashMap<u64, Vec<u64>>,
}

impl View for AidContract {
    type V = AidView;

    closed spec fn view(&self) -> AidView {
        AidView {
            contract: self.contract,
            admin: self.admin,
            token: self.token,
            paused: self.paused,
            aids: self.aids@,
            counter: self.counter,
            donor_index: self.donor_index@.map_values(|v: Vec<u64>| v@),
            recipient_index: self.recipient_index@.map_values(|v: Vec<u64>| v@),
        }
    }
}

/// Whether `id` names a stored record, of `donor` when one is given.
pub open spec fn listed(aids: Map<u64, AidRecord>, donor: Option<u64>, id: u64) -> bool {
    &&& aids.contains_key(id)
    &&& match donor {
        Some(d) => aids[id].donor == d,
        None => true,
    }
}

/// Where a scan over `ids`, from position `cur`, stops: at the end of
/// `ids` or once `limit` records (counting `found` already taken) are
/// listed.
pub open spec fn index_scan_end(
    aids: Map<u64, AidRecord>,
    ids: Seq<u64>,
    cur: int,
    limit: nat,
    found: nat,
) -> int
    decreases ids.len() - cur,
{
    if cur >= ids.len() || found >= limit || cur < 0 {
        cur
    } else {
        index_scan_end(
            aids,
            ids,
            cur + 1,
            limit,
            if listed(aids, None, ids[cur]) { found + 1 } else { found },
        )
    }
}

/// The stored records whose ids stand in `ids` at positions `lo..hi`.
pub open spec fn index_kept(aids: Map<u64, AidRecord>, ids: Seq<u64>, lo: int, hi: int) -> Seq<AidRecord>
    decreases hi - lo,
{
    if hi <= lo {
        Seq::empty()
    } else {
        let prev = index_kept(aids, ids, lo, hi - 1);
        if listed(aids, None, ids[hi - 1]) {
            prev.push(aids[ids[hi - 1]])
        } else {
            prev
        }
    }
}

/// Where a scan over the ids `cur..total` stops once `limit` records of
/// `donor` (any donor for `None`) are listed.
pub open spec fn range_scan_end(
    aids: Map<u64, AidRecord>,
    donor: Option<u64>,
    cur: int,
    total: int,
    limit: nat,
    found: nat,
) -> int
    decreases total - cur,
{
    if cur >= total || found >= limit {
        cur
    } else {
        range_scan_end(
            aids,
            donor,
            cur + 1,
            total,
            limit,
            if listed(aids, donor, cur as u64) { found + 1 } else { found },
        )
    }
}

/// The records of `donor` (any donor for `None`) with ids in `lo..hi`.
pub open spec fn range_kept(aids: Map<u64, AidRecord>, donor: Option<u64>, lo: int, hi: int) -> Seq<AidRecord>
    decreases hi - lo,
{
    if hi <= lo {
        Seq::empty()
    } else {
        let prev = range_kept(aids, donor, lo, hi - 1);
        if listed(aids, donor, (hi - 1) as u64) {
            prev.push(aids[(hi - 1) as u64])
        } else {
            prev
        }
    }
}

/// The page size actually used for a requested `limit`.
pub open spec fn effective_limit(limit: u32) -> nat {
    if limit > MAX_QUERY_LIMIT {
        MAX_QUERY_LIMIT as nat
    } else {
        limit as nat
    }
}

impl AidView {
    pub open spec fn wf(self) -> bool {
        &&& forall|id: u64| #[trigger] self.aids.contains_key(id) ==> id < self.counter && self.aids[id].id == id
        &&& forall|d: u64| #[trigger]
            self.donor_index.contains_key(d) ==> self.donor_index[d].len() <= self.counter
                && self.donor_index[d].len() <= u32::MAX
        &&& forall|d: u64| #[trigger]
            self.recipient_index.contains_key(d) ==> self.recipient_index[d].len() <= self.counter
                && self.recipient_index[d].len() <= u32::MAX
    }

    pub open spec fn donor_ids(self, donor: u64) -> Seq<u64> {
        if self.donor_index.contains_key(donor) {
            self.donor_index[donor]
        } else {
            Seq::empty()
        }
    }

    pub open spec fn recipient_ids(self, recipient: u64) -> Seq<u64> {
        if self.recipient_index.contains_key(recipient) {
            self.recipient_index[recipient]
        } else {
            Seq::empty()
        }
    }

    /// Outcome of `create_aid` at ledger `seq`.
    pub open spec fn create_spec(self, donor: u64, recipient: u64, amount: i128, expiry_ledger: u32, seq: u32)
        -> Result<AidView, CreateAidError> {
        if amount <= 0 {
            Err(CreateAidError::InvalidAmount)
        } else if expiry_ledger <= seq {
            Err(CreateAidError::ExpiryNotInFuture)
        } else {
            let id = self.counter;
            Ok(
                AidView {
                    aids: self.aids.insert(
                        id,
                        AidRecord {
                            id,
                            donor,
                            recipient,
                            token: self.token,
                            amount,
                            expiry_ledger,
                            status: AidStatus::Pending,
                        },
                    ),
                    counter: (id + 1) as u64,
                    donor_index: self.donor_index.insert(donor, self.donor_ids(donor).push(id)),
                    recipient_index: self.recipient_index.insert(
                        recipient,
                        self.recipient_ids(recipient).push(id),
                    ),
                    ..self
                },
            )
        }
    }

    /// Outcome of `claim_aid` at ledger `seq`.
    pub open spec fn claim_spec(self, aid_id: u64, caller: u64, seq: u32) -> Result<AidView, AidError> {
        if self.paused {
            Err(AidError::Paused)
        } else if !self.aids.contains_key(aid_id) {
            Err(AidError::NotFound)
        } else if seq > self.aids[aid_id].expiry_ledger {
            Err(AidError::Expired)
        } else if self.aids[aid_id].status != AidStatus::Pending {
            Err(AidError::AlreadyClaimed)
        } else if caller != self.aids[aid_id].recipient {
            Err(AidError::Unauthorized)
        } else {
            Ok(
                AidView {
                    aids: self.aids.insert(aid_id, AidRecord { status: AidStatus::Settled, ..self.aids[aid_id] }),
                    ..self
                },
            )
        }
    }

    /// Outcome of `refund_aid` at ledger `seq`.
    pub open spec fn refund_spec(self, caller: u64, aid_id: u64, seq: u32) -> Result<AidView, AidError> {
        if !self.aids.contains_key(aid_id) {
            Err(AidError::NotFound)
        } else if caller != self.aids[aid_id].donor && caller != self.admin {
            Err(AidError::Unauthorized)
        } else if self.aids[aid_id].status == AidStatus::Settled {
            Err(AidError::AlreadyClaimed)
        } else if self.aids[aid_id].status == AidStatus::Refunded {
            Err(AidError::AlreadyRefunded)
        } else if seq <= self.aids[aid_id].expiry_ledger {
            Err(AidError::NotExpiredYet)
        } else {
            Ok(
                AidView {
                    aids: self.aids.insert(aid_id, AidRecord { status: AidStatus::Refunded, ..self.aids[aid_id] }),
                    ..self
                },
            )
        }
    }

    /// The page of `ids` starting at `cursor` with at most
    /// `effective_limit(limit)` records.
    pub open spec fn page_records(self, ids: Seq<u64>, cursor: u32, limit: u32) -> Seq<AidRecord> {
        index_kept(
            self.aids,
            ids,
            cursor as int,
            index_scan_end(self.aids, ids, cursor as int, effective_limit(limit), 0),
        )
    }

    pub open spec fn page_next(self, ids: Seq<u64>, cursor: u32, limit: u32) -> Option<u32> {
        let end = index_scan_end(self.aids, ids, cursor as int, effective_limit(limit), 0);
        if end < ids.len() {
            Some(end as u32)
        } else {
            None
        }
    }

    /// The records of the id-range listing starting at `start`.
    pub open spec fn range_records(self, donor: Option<u64>, start: u64, limit: u32) -> Seq<AidRecord> {
        range_kept(
            self.aids,
            donor,
            start as int,
            range_scan_end(self.aids, donor, start as int, self.counter as int, limit as nat, 0),
        )
    }

    /// Where the next page of the id-range listing starts: the end of the
    /// scan when the page is full, else nothing.
    pub open spec fn range_next(self, donor: Option<u64>, start: u64, limit: u32) -> Option<u64> {
        let end = range_scan_end(self.aids, donor, start as int, self.counter as int, limit as nat, 0);
        if self.range_records(donor, start, limit).len() == limit {
            Some(end as u64)
        } else {
            None
        }
    }
}

proof fn lemma_index_scan_end_bounds(aids: Map<u64, AidRecord>, ids: Seq<u64>, cur: int, limit: nat, found: nat)
    requires
        0 <= cur,
    ensures
        cur <= index_scan_end(aids, ids, cur, limit, found),
        cur <= ids.len() ==> index_scan_end(aids, ids, cur, limit, found) <= ids.len(),
    decreases ids.len() - cur,
{
    if cur >= ids.len() || found >= limit {
    } else {
        lemma_index_scan_end_bounds(
            aids,
            ids,
            cur + 1,
            limit,
            if listed(aids, None, ids[cur]) { found + 1 } else { found },
        );
    }
}

/// An aid pays out at most once: once it is claimed or refunded, every
/// further claim and refund of it is refused, at any later ledger.
pub proof fn lemma_aid_pays_out_once(
    v: AidView,
    aid_id: u64,
    caller: u64,
    seq: u32,
    later_caller: u64,
    later_seq: u32,
)
    ensures
        v.claim_spec(aid_id, caller, seq) is Ok ==> {
            let w = v.claim_spec(aid_id, caller, seq)->Ok_0;
            &&& w.claim_spec(aid_id, later_caller, later_seq) is Err
            &&& w.refund_spec(later_caller, aid_id, later_seq) is Err
        },
        v.refund_spec(caller, aid_id, seq) is Ok ==> {
            let w = v.refund_spec(caller, aid_id, seq)->Ok_0;
            &&& w.claim_spec(aid_id, later_caller, later_seq) is Err
            &&& w.refund_spec(later_caller, aid_id, later_seq) is Err
        },
{
}

/// A new aid settles exactly as it was created: it gets the next id, its
/// recipient can claim it up to its expiry ledger while the contract is
/// not paused, its donor can refund it once the expiry has passed, and
/// either way the record pays out the escrowed amount in the escrowed
/// token.
pub proof fn lemma_create_then_settle(
    v: AidView,
    donor: u64,
    recipient: u64,
    amount: i128,
    expiry_ledger: u32,
    seq: u32,
    later: u32,
)
    requires
        v.wf(),
        v.create_spec(donor, recipient, amount, expiry_ledger, seq) is Ok,
    ensures
        ({
            let w = v.create_spec(donor, recipient, amount, expiry_ledger, seq)->Ok_0;
            let id = v.counter;
            &&& !v.aids.contains_key(id)
            &&& w.aids[id].amount == amount && w.aids[id].token == v.token
            &&& w.aids[id].donor == donor && w.aids[id].recipient == recipient
            &&& !v.paused && later <= expiry_ledger ==> w.claim_spec(id, recipient, later) is Ok
            &&& later > expiry_ledger ==> w.refund_spec(donor, id, later) is Ok
        }),
{
}

/// Pagination always makes progress: a page requested inside the index
/// with a positive limit ends strictly after its cursor, and holds at most
/// the clamped limit of records.
pub proof fn lemma_page_progress(v: AidView, ids: Seq<u64>, cursor: u32, limit: u32)
    requires
        limit > 0,
        cursor < ids.len(),
        ids.len() <= u32::MAX,
    ensures
        index_scan_end(v.aids, ids, cursor as int, effective_limit(limit), 0) > cursor,
        v.page_next(ids, cursor, limit) matches Some(n) ==> n > cursor,
        v.page_records(ids, cursor, limit).len() <= effective_limit(limit),
{
    let eff = effective_limit(limit);
    lemma_index_scan_end_bounds(v.aids, ids, cursor + 1, eff, if listed(v.aids, None, ids[cursor as int]) { 1 } else { 0 });
    lemma_scan_kept_len(v.aids, ids, cursor as int, cursor as int, eff, 0);
}

proof fn lemma_scan_kept_len(aids: Map<u64, AidRecord>, ids: Seq<u64>, lo: int, cur: int, limit: nat, found: nat)
    requires
        0 <= lo <= cur,
        cur <= ids.len(),
        found == index_kept(aids, ids, lo, cur).len(),
        found <= limit,
    ensures
        index_kept(aids, ids, lo, index_scan_end(aids, ids, cur, limit, found)).len() <= limit,
    decreases ids.len() - cur,
{
    if cur >= ids.len() || found >= limit {
    } else {
        let f2: nat = if listed(aids, None, ids[cur]) { found + 1 } else { found };
        assert(index_kept(aids, ids, lo, cur + 1).len() == f2);
        lemma_scan_kept_len(aids, ids, lo, cur + 1, limit, f2);
    }
}

impl AidContract {
    pub open spec fn wf(&self) -> bool {
        self@.wf()
    }

    /// Sets up the contract held at account `contract`, with its admin and
    /// the escrowed token.
    pub fn initialize(contract: u64, admin: u64, token: u64) -> (c: Self)
        ensures
            c@ == (AidView {
                contract,
                admin,
                token,
                paused: false,
                aids: Map::empty(),
                counter: 0,
                donor_index: Map::empty(),
                recipient_index: Map::empty(),
            }),
            c.wf(),
    {
        let c = AidContract {
            contract,
            admin,
            token,
            paused: false,
            aids: HashMap::new(),
            counter: 0,
            donor_index: HashMap::new(),
            recipient_index: HashMap::new(),
        };
        assert(c@.donor_index =~= Map::empty());
        assert(c@.recipient_index =~= Map::empty());
        c
    }

    fn index_of(map: &HashMap<u64, Vec<u64>>, who: u64) -> (v: Vec<u64>)
        ensures
            map@.contains_key(who) ==> v@ == map@[who]@,
            !map@.contains_key(who) ==> v@ == Seq::<u64>::empty(),
    {
        match map.get(&who) {
            Some(v) => {
                let c = v.clone();
                assert(c@ =~= v@);
                c
            },
            None => Vec::new(),
        }
    }

    /// Escrows `amount` from `donor` for `recipient` until `expiry_ledger`,
    /// at ledger `seq`. Returns the new aid id (ids count up from 0) and the
    /// escrow transfer into this contract.
    pub fn create_aid(&mut self, donor: u64, recipient: u64, amount: i128, expiry_ledger: u32, seq: u32) -> (r:
        Result<(u64, Transfer), CreateAidError>)
        requires
            old(self).wf(),
            old(self)@.counter < u64::MAX,
            old(self)@.donor_ids(donor).len() < u32::MAX,
            old(self)@.recipient_ids(recipient).len() < u32::MAX,
        ensures
            match old(self)@.create_spec(donor, recipient, amount, expiry_ledger, seq) {
                Err(e) => r == Err::<(u64, Transfer), CreateAidError>(e) && final(self)@ == old(self)@,
                Ok(v) => r == Ok::<(u64, Transfer), CreateAidError>(
                    (
                        old(self)@.counter,
                        Transfer { token: old(self)@.token, from: donor, to: old(self)@.contract, amount },
                    ),
                ) && final(self)@ == v,
            },
            final(self).wf(),
    {
        if amount <= 0 {
            return Err(CreateAidError::InvalidAmount);
        }
        if expiry_ledger <= seq {
            return Err(CreateAidError::ExpiryNotInFuture);
        }
        let id = self.counter;
        let record = AidRecord {
            id,
            donor,
            recipient,
            token: self.token,
            amount,
            expiry_ledger,
            status: AidStatus::Pending,
        };
        self.aids.insert(id, record);
        self.counter = id + 1;
        let mut d = Self::index_of(&self.donor_index, donor);
        d.push(id);
        let ghost dv = d@;
        self.donor_index.insert(donor, d);
        let mut rc = Self::index_of(&self.recipient_index, recipient);
        rc.push(id);
        let ghost rv = rc@;
        self.recipient_index.insert(recipient, rc);
        proof {
            assert(dv == old(self)@.donor_ids(donor).push(id));
            assert(rv == old(self)@.recipient_ids(recipient).push(id));
            assert(self@.donor_index =~= old(self)@.donor_index.insert(donor, dv));
            assert(self@.recipient_index =~= old(self)@.recipient_index.insert(recipient, rv));
        }
        Ok((id, Transfer { token: self.token, from: donor, to: self.contract, amount }))
    }

    /// The recipient claims a pending, unexpired aid at ledger `seq`;
    /// returns the payout from the escrow.
    pub fn claim_aid(&mut self, aid_id: u64, caller: u64, seq: u32) -> (r: Result<Transfer, AidError>)
        requires
            old(self).wf(),
        ensures
            match old(self)@.claim_spec(aid_id, caller, seq) {
                Err(e) => r == Err::<Transfer, AidError>(e) && final(self)@ == old(self)@,
                Ok(v) => r == Ok::<Transfer, AidError>(
                    Transfer {
                        token: old(self)@.aids[aid_id].token,
                        from: old(self)@.contract,
                        to: old(self)@.aids[aid_id].recipient,
                        amount: old(self)@.aids[aid_id].amount,
                    },
                ) && final(self)@ == v,
            },
            final(self).wf(),
    {
        if self.paused {
            return Err(AidError::Paused);
        }
        let record = match self.aids.get(&aid_id) {
            Some(r) => *r,
            None => {
                return Err(AidError::NotFound);
            },
        };
        if seq > record.expiry_ledger {
            return Err(AidError::Expired);
        }
        if record.status != AidStatus::Pending {
            return Err(AidError::AlreadyClaimed);
        }
        if caller != record.recipient {
            return Err(AidError::Unauthorized);
        }
        self.aids.insert(aid_id, AidRecord { status: AidStatus::Settled, ..record });
        Ok(Transfer { token: record.token, from: self.contract, to: record.recipient, amount: record.amount })
    }

    /// The donor or the admin refunds an expired, unclaimed aid at ledger
    /// `seq`; returns the payment back to the donor.
    pub fn refund_aid(&mut self, caller: u64, aid_id: u64, seq: u32) -> (r: Result<Transfer, AidError>)
        requires
            old(self).wf(),
        ensures
            match old(self)@.refund_spec(caller, aid_id, seq) {
                Err(e) => r == Err::<Transfer, AidError>(e) && final(self)@ == old(self)@,
                Ok(v) => r == Ok::<Transfer, AidError>(
                    Transfer {
                        token: old(self)@.aids[aid_id].token,
                        from: old(self)@.contract,
                        to: old(self)@.aids[aid_id].donor,
                        amount: old(self)@.aids[aid_id].amount,
                    },
                ) && final(self)@ == v,
            },
            final(self).wf(),
    {
        let record = match self.aids.get(&aid_id) {
            Some(r) => *r,
            None => {
                return Err(AidError::NotFound);
            },
        };
        if caller != record.donor && caller != self.admin {
            return Err(AidError::Unauthorized);
        }
        if record.status == AidStatus::Settled {
            return Err(AidError::AlreadyClaimed);
        }
        if record.status == AidStatus::Refunded {
            return Err(AidError::AlreadyRefunded);
        }
        if seq <= record.expiry_ledger {
            return Err(AidError::NotExpiredYet);
        }
        self.aids.insert(aid_id, AidRecord { status: AidStatus::Refunded, ..record });
        Ok(Transfer { token: record.token, from: self.contract, to: record.donor, amount: record.amount })
    }

    /// The record of `aid_id`, if any.
    pub fn get_aid(&self, aid_id: u64) -> (r: Option<AidRecord>)
        ensures
            self@.aids.contains_key(aid_id) ==> r == Some(self@.aids[aid_id]),
            !self@.aids.contains_key(aid_id) ==> r is None,
    {
        match self.aids.get(&aid_id) {
            Some(a) => Some(*a),
            None => None,
        }
    }

    /// Whether a record with this id is stored.
    pub fn has_aid(&self, aid_id: u64) -> (b: bool)
        ensures
            b == self@.aids.contains_key(aid_id),
    {
        self.aids.contains_key(&aid_id)
    }

    /// Drops the record of `aid_id` (the per-participant indexes keep the
    /// id; pagination skips it).
    pub fn remove_aid(&mut self, aid_id: u64)
        requires
            old(self).wf(),
        ensures
            final(self)@ == (AidView { aids: old(self)@.aids.remove(aid_id), ..old(self)@ }),
            final(self).wf(),
    {
        self.aids.remove(&aid_id);
    }

    /// The number of aids created so far.
    pub fn get_aid_counter(&self) -> (r: u64)
        ensures
            r == self@.counter,
    {
        self.counter
    }

    /// The escrowed token.
    pub fn get_token(&self) -> (r: u64)
        ensures
            r == self@.token,
    {
        self.token
    }

    /// Whether state-changing claims are suspended.
    pub fn is_paused(&self) -> (b: bool)
        ensures
            b == self@.paused,
    {
        self.paused
    }

    /// All aid ids created by `donor`, oldest first.
    pub fn get_donor_index(&self, donor: u64) -> (r: Vec<u64>)
        ensures
            r@ == self@.donor_ids(donor),
    {
        Self::index_of(&self.donor_index, donor)
    }

    /// All aid ids assigned to `recipient`, oldest first.
    pub fn get_recipient_index(&self, recipient: u64) -> (r: Vec<u64>)
        ensures
            r@ == self@.recipient_ids(recipient),
    {
        Self::index_of(&self.recipient_index, recipient)
    }

    /// One page of the stored records named by `ids`, from position
    /// `cursor`; records that are no longer stored are skipped.
    fn paginate(&self, ids: &Vec<u64>, cursor: u32, limit: u32) -> (p: AidPage)
        requires
            ids.len() <= u32::MAX,
        ensures
            p.records@ == self@.page_records(ids@, cursor, limit),
            p.next_cursor == self@.page_next(ids@, cursor, limit),
    {
        let eff: u32 = if limit > MAX_QUERY_LIMIT {
            MAX_QUERY_LIMIT
        } else {
            limit
        };
        let total: usize = ids.len();
        let mut records: Vec<AidRecord> = Vec::new();
        let mut index: usize = cursor as usize;
        let ghost aids = self@.aids;
        proof {
            lemma_index_scan_end_bounds(aids, ids@, cursor as int, eff as nat, 0);
        }
        while index < total && records.len() < eff as usize
            invariant
                aids == self@.aids,
                total == ids.len(),
                total <= u32::MAX,
                eff as nat == effective_limit(limit),
                cursor <= index,
                index <= total || index == cursor,
                records@ == index_kept(aids, ids@, cursor as int, index as int),
                index_scan_end(aids, ids@, index as int, eff as nat, records.len() as nat) == index_scan_end(
                    aids,
                    ids@,
                    cursor as int,
                    eff as nat,
                    0,
                ),
            decreases total - index,
        {
            let id = ids[index];
            match self.aids.get(&id) {
                Some(rec) => {
                    records.push(*rec);
                },
                None => {},
            }
            index = index + 1;
        }
        let next_cursor = if index < total {
            Some(index as u32)
        } else {
            None
        };
        AidPage { records, next_cursor }
    }

    /// Pages through the aids created by `donor`, oldest first; `limit`
    /// must be positive and is clamped to [`MAX_QUERY_LIMIT`].
    pub fn get_aids_by_donor(&self, donor: u64, cursor: u32, limit: u32) -> (r: Result<AidPage, crate::Error>)
        requires
            self.wf(),
        ensures
            limit == 0 ==> r == Err::<AidPage, crate::Error>(crate::Error::InvalidArgument),
            limit != 0 ==> r is Ok && r->Ok_0.records@ == self@.page_records(self@.donor_ids(donor), cursor, limit)
                && r->Ok_0.next_cursor == self@.page_next(self@.donor_ids(donor), cursor, limit),
    {
        if limit == 0 {
            return Err(crate::Error::InvalidArgument);
        }
        let ids = Self::index_of(&self.donor_index, donor);
        Ok(self.paginate(&ids, cursor, limit))
    }

    /// Pages through the aids assigned to `recipient`, oldest first; same
    /// cursor and limit rules as [`AidContract::get_aids_by_donor`].
    pub fn get_aids_by_recipient(&self, recipient: u64, cursor: u32, limit: u32) -> (r: Result<
        AidPage,
        crate::Error,
    >)
        requires
            self.wf(),
        ensures
            limit == 0 ==> r == Err::<AidPage, crate::Error>(crate::Error::InvalidArgument),
            limit != 0 ==> r is Ok && r->Ok_0.records@ == self@.page_records(
                self@.recipient_ids(recipient),
                cursor,
                limit,
            ) && r->Ok_0.next_cursor == self@.page_next(self@.recipient_ids(recipient), cursor, limit),
    {
        if limit == 0 {
            return Err(crate::Error::InvalidArgument);
        }
        let ids = Self::index_of(&self.recipient_index, recipient);
        Ok(self.paginate(&ids, cursor, limit))
    }

    /// The admin pauses or resumes claims.
    pub fn set_paused(&mut self, caller: u64, paused: bool) -> (r: Result<(), crate::Error>)
        requires
            old(self).wf(),
        ensures
            caller != old(self)@.admin ==> r == Err::<(), crate::Error>(crate::Error::Unauthorized)
                && final(self)@ == old(self)@,
            caller == old(self)@.admin ==> r is Ok && final(self)@ == (AidView { paused, ..old(self)@ }),
            final(self).wf(),
    {
        if caller != self.admin {
            return Err(crate::Error::Unauthorized);
        }
        self.paused = paused;
        Ok(())
    }

    /// Scans the ids `start..counter`, listing up to `limit` stored records
    /// (of `donor`, when given).
    fn scan_range(&self, donor: Option<u64>, limit: u32, start: u64) -> (r: PaginatedAidsResponse)
        requires
            limit > 0,
        ensures
            r.aids@ == self@.range_records(donor, start, limit),
            r.next_cursor == self@.range_next(donor, start, limit),
    {
        let total = self.counter;
        let mut aids: Vec<AidRecord> = Vec::new();
        let mut current: u64 = start;
        let ghost m = self@.aids;
        while aids.len() < limit as usize && current < total
            invariant
                m == self@.aids,
                total == self@.counter,
                start <= current,
                current <= total || current == start,
                aids@ == range_kept(m, donor, start as int, current as int),
                range_scan_end(m, donor, current as int, total as int, limit as nat, aids.len() as nat)
                    == range_scan_end(m, donor, start as int, total as int, limit as nat, 0),
            decreases total - current,
        {
            match self.aids.get(&current) {
                Some(rec) => {
                    let keep = match donor {
                        Some(d) => rec.donor == d,
                        None => true,
                    };
                    if keep {
                        aids.push(*rec);
                    }
                },
                None => {},
            }
            current = current + 1;
        }
        let next_cursor = if aids.len() == limit as usize {
            Some(current)
        } else {
            None
        };
        PaginatedAidsResponse { aids, next_cursor }
    }
}

/// Listing of aid records by id range, outside the per-participant indexes.
pub struct ExternalApi;

impl ExternalApi {
    /// Up to `limit` stored records with ids from `cursor` (default 0) up to
    /// the counter and, when the page is full, the id after the last one
    /// scanned, where the next page starts. A zero `limit` returns nothing
    /// and hands the cursor back.
    pub fn list_aids(aid: &AidContract, limit: u32, cursor: Option<u64>) -> (r: PaginatedAidsResponse)
        ensures
            limit == 0 ==> r.aids@ == Seq::<AidRecord>::empty() && r.next_cursor == cursor,
            limit != 0 ==> r.aids@ == aid@.range_records(None, cursor.unwrap_or(0), limit) && r.next_cursor
                == aid@.range_next(None, cursor.unwrap_or(0), limit),
    {
        if limit == 0 {
            return PaginatedAidsResponse { aids: Vec::new(), next_cursor: cursor };
        }
        let start = match cursor {
            Some(c) => c,
            None => 0,
        };
        aid.scan_range(None, limit, start)
    }

    /// As [`ExternalApi::list_aids`], listing only the records of `donor`;
    /// `limit` counts listed records, not scanned ids.
    pub fn list_aids_by_donor(aid: &AidContract, donor: u64, limit: u32, cursor: Option<u64>) -> (r:
        PaginatedAidsResponse)
        ensures
            limit == 0 ==> r.aids@ == Seq::<AidRecord>::empty() && r.next_cursor == cursor,
            limit != 0 ==> r.aids@ == aid@.range_records(Some(donor), cursor.unwrap_or(0), limit)
                && r.next_cursor == aid@.range_next(Some(donor), cursor.unwrap_or(0), limit),
    {
        if limit == 0 {
            return PaginatedAidsResponse { aids: Vec::new(), next_cursor: cursor };
        }
        let start = match cursor {
            Some(c) => c,
            None => 0,
        };
        aid.scan_range(Some(donor), limit, start)
    }
}

} // verus!
