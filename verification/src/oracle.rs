//! Price oracle: registered submitters post prices per feed, protected
//! against replay by a per-submitter-per-feed nonce and against staleness
//! by a configurable window; the latest value and the full history of each
//! feed are kept.
use vstd::prelude::*;
use std::collections::HashMap;

verus! {

broadcast use vstd::std_specs::hash::group_hash_axioms;

/// Staleness window used until the admin sets one, in seconds.
pub const DEFAULT_STALENESS_WINDOW: u64 = 3600;

/// Largest number of decimal places a price may carry.
pub const MAX_DECIMALS: u32 = 18;

/// Oracle error codes (500-509).
#[derive(Clone, Copy, Debug, PartialEq, Eq, Structural)]
pub enum OracleError {
    SubmitterNotAuthorized,
    DuplicateSubmission,
    FeedNotFound,
    SubmitterAlreadyRegistered,
    SubmissionStale,
    InvalidPrice,
    InvalidDecimals,
    InvalidFeedId,
    Unauthorized,
    InternalError,
}

impl OracleError {
    pub open spec fn spec_code(&self) -> u32 {
        match self {
            OracleError::SubmitterNotAuthorized => 500,
            OracleError::DuplicateSubmission => 501,
            OracleError::FeedNotFound => 502,
            OracleError::SubmitterAlreadyRegistered => 503,
            OracleError::SubmissionStale => 504,
            OracleError::InvalidPrice => 505,
            OracleError::InvalidDecimals => 506,
            OracleError::InvalidFeedId => 507,
            OracleError::Unauthorized => 508,
            OracleError::InternalError => 509,
        }
    }

    /// The numeric code of this error.
    pub fn code(&self) -> (c: u32)
        ensures
            c == self.spec_code(),
    {
        match self {
            OracleError::SubmitterNotAuthorized => 500,
            OracleError::DuplicateSubmission => 501,
            OracleError::FeedNotFound => 502,
            OracleError::SubmitterAlreadyRegistered => 503,
            OracleError::SubmissionStale => 504,
            OracleError::InvalidPrice => 505,
            OracleError::InvalidDecimals => 506,
            OracleError::InvalidFeedId => 507,
            OracleError::Unauthorized => 508,
            OracleError::InternalError => 509,
        }
    }
}

/// One price submission.
#[derive(Clone, Copy, Debug, PartialEq, Eq, Structural)]
pub struct PriceSubmission {
    pub id: u64,
    pub submitter: u64,
    pub feed_id: u64,
    /// Fixed-point price with `decimals` decimal places.
    pub price: i128,
    pub decimals: u32,
    /// When the price was observed off-chain.
    pub timestamp: u64,
    pub nonce: u64,
}

/// The latest value of a feed.
#[derive(Clone, Copy, Debug, PartialEq, Eq, Structural)]
pub struct FeedLatest {
    pub feed_id: u64,
    pub price: i128,
    pub decimals: u32,
    pub timestamp: u64,
    /// Number of submissions accepted for this feed.
    pub submission_count: u64,
}

/// A registered submitter.
#[derive(Clone, Copy, Debug, PartialEq, Eq, Structural)]
pub struct SubmitterInfo {
    pub address: u64,
    pub active: bool,
    pub registered_at: u64,
}

/// Abstract state of the oracle.
pub struct OracleView {
    pub admin: u64,
    pub submitters: Map<u64, SubmitterInfo>,
    pub latest: Map<u64, FeedLatest>,
    pub history: Map<u64, Seq<PriceSubmission>>,
    /// The last submission id handed out (ids count up from 1).
    pub last_id: u64,
    /// The last nonce accepted per submitter, per feed.
    pub nonces: Map<u64, Map<u64, u64>>,
    pub staleness_window: u64,
}

pub struct OracleContract {
    admin: u64,
    submitters: HashMap<u64, SubmitterInfo>,
    latest: HashMap<u64, FeedLatest>,
    history: HashMap<u64, Vec<PriceSubmission>>,
    last_id: u64,
    nonces: HashMap<u64, HashMap<u64, u64>>,
    staleness_window: u64,
}

impl View for OracleContract {
    type V = OracleView;

    closed spec fn view(&self) -> OracleView {
        OracleView {
            admin: self.admin,
            submitters: self.submitters@,
            latest: self.latest@,
            history: self.history@.map_values(|v: Vec<PriceSubmission>| v@),
            last_id: self.last_id,
            nonces: self.nonces@.map_values(|m: HashMap<u64, u64>| m@),
            staleness_window: self.staleness_window,
        }
    }
}

impl OracleView {
    pub open spec fn wf(self) -> bool {
        &&& forall|f: u64| #[trigger] self.latest.contains_key(f) ==> self.latest[f].submission_count <= self.last_id
    }

    pub open spec fn is_active(self, who: u64) -> bool {
        self.submitters.contains_key(who) && self.submitters[who].active
    }

    pub open spec fn nonce_of(self, who: u64, feed: u64) -> u64 {
        if self.nonces.contains_key(who) && self.nonces[who].contains_key(feed) {
            self.nonces[who][feed]
        } else {
            0
        }
    }

    pub open spec fn feed_nonces(self, who: u64) -> Map<u64, u64> {
        if self.nonces.contains_key(who) {
            self.nonces[who]
        } else {
            Map::empty()
        }
    }

    pub open spec fn feed_history(self, feed: u64) -> Seq<PriceSubmission> {
        if self.history.contains_key(feed) {
            self.history[feed]
        } else {
            Seq::empty()
        }
    }

    /// Whether an observation at `timestamp` is still fresh at `now`.
    pub open spec fn fresh(self, timestamp: u64, now: u64) -> bool {
        timestamp + self.staleness_window >= now
    }

    /// Outcome of `submit_price` at time `now`.
    pub open spec fn submit_spec(
        self,
        submitter: u64,
        feed_id: u64,
        price: i128,
        decimals: u32,
        timestamp: u64,
        nonce: u64,
        now: u64,
    ) -> Result<OracleView, OracleError> {
        if !self.is_active(submitter) {
            Err(OracleError::SubmitterNotAuthorized)
        } else if nonce != self.nonce_of(submitter, feed_id) + 1 {
            Err(OracleError::DuplicateSubmission)
        } else if !self.fresh(timestamp, now) {
            Err(OracleError::SubmissionStale)
        } else if price < 0 {
            Err(OracleError::InvalidPrice)
        } else if decimals > MAX_DECIMALS {
            Err(OracleError::InvalidDecimals)
        } else if self.last_id == u64::MAX {
            Err(OracleError::InternalError)
        } else {
            let id = (self.last_id + 1) as u64;
            let count = if self.latest.contains_key(feed_id) {
                self.latest[feed_id].submission_count
            } else {
                0
            };
            Ok(
                OracleView {
                    latest: self.latest.insert(
                        feed_id,
                        FeedLatest { feed_id, price, decimals, timestamp, submission_count: (count + 1) as u64 },
                    ),
                    history: self.history.insert(
                        feed_id,
                        self.feed_history(feed_id).push(
                            PriceSubmission { id, submitter, feed_id, price, decimals, timestamp, nonce },
                        ),
                    ),
                    last_id: id,
                    nonces: self.nonces.insert(submitter, self.feed_nonces(submitter).insert(feed_id, nonce)),
                    ..self
                },
            )
        }
    }

    /// The last `limit` submissions of `feed`, oldest first.
    pub open spec fn recent(self, feed: u64, limit: u32) -> Seq<PriceSubmission> {
        let h = self.feed_history(feed);
        if h.len() > limit {
            h.subrange(h.len() - limit, h.len() as int)
        } else {
            h
        }
    }
}

impl OracleContract {
    pub open spec fn wf(&self) -> bool {
        self@.wf()
    }

    /// A fresh oracle administered by `admin`, with the default staleness
    /// window.
    pub fn initialize(admin: u64) -> (c: Self)
        ensures
            c@ == (OracleView {
                admin,
                submitters: Map::empty(),
                latest: Map::empty(),
                history: Map::empty(),
                last_id: 0,
                nonces: Map::empty(),
                staleness_window: DEFAULT_STALENESS_WINDOW,
            }),
            c.wf(),
    {
        let c = OracleContract {
            admin,
            submitters: HashMap::new(),
            latest: HashMap::new(),
            history: HashMap::new(),
            last_id: 0,
            nonces: HashMap::new(),
            staleness_window: DEFAULT_STALENESS_WINDOW,
        };
        assert(c@.history =~= Map::empty());
        assert(c@.nonces =~= Map::empty());
        c
    }

    /// Initialising again replaces the admin and keeps everything else.
    pub fn reinitialize(&mut self, admin: u64)
        requires
            old(self).wf(),
        ensures
            final(self)@ == (OracleView { admin, ..old(self)@ }),
            final(self).wf(),
    {
        self.admin = admin;
    }

    pub fn get_admin(&self) -> (r: u64)
        ensures
            r == self@.admin,
    {
        self.admin
    }

    /// All registered submitters.
    pub fn get_submitters(&self) -> (r: HashMap<u64, SubmitterInfo>)
        ensures
            r@ == self@.submitters,
    {
        self.submitters.clone()
    }

    /// Whether `who` is registered and active.
    pub fn is_submitter_active(&self, who: u64) -> (b: bool)
        ensures
            b == self@.is_active(who),
    {
        match self.submitters.get(&who) {
            Some(info) => info.active,
            None => false,
        }
    }

    /// The admin registers a new, active submitter at time `now`.
    pub fn register_submitter(&mut self, caller: u64, submitter: u64, now: u64) -> (r: Result<(), OracleError>)
        requires
            old(self).wf(),
        ensures
            caller != old(self)@.admin ==> r == Err::<(), OracleError>(OracleError::Unauthorized) && final(self)@
                == old(self)@,
            caller == old(self)@.admin && old(self)@.submitters.contains_key(submitter) ==> r == Err::<
                (),
                OracleError,
            >(OracleError::SubmitterAlreadyRegistered) && final(self)@ == old(self)@,
            caller == old(self)@.admin && !old(self)@.submitters.contains_key(submitter) ==> r is Ok
                && final(self)@ == (OracleView {
                submitters: old(self)@.submitters.insert(
                    submitter,
                    SubmitterInfo { address: submitter, active: true, registered_at: now },
                ),
                ..old(self)@
            }),
            final(self).wf(),
    {
        if caller != self.admin {
            return Err(OracleError::Unauthorized);
        }
        if self.submitters.contains_key(&submitter) {
            return Err(OracleError::SubmitterAlreadyRegistered);
        }
        self.submitters.insert(submitter, SubmitterInfo { address: submitter, active: true, registered_at: now });
        Ok(())
    }

    /// The admin deactivates a submitter (nothing changes for an unknown
    /// one).
    pub fn deactivate_submitter(&mut self, caller: u64, submitter: u64) -> (r: Result<(), OracleError>)
        requires
            old(self).wf(),
        ensures
            caller != old(self)@.admin ==> r == Err::<(), OracleError>(OracleError::Unauthorized) && final(self)@
                == old(self)@,
            caller == old(self)@.admin && old(self)@.submitters.contains_key(submitter) ==> r is Ok && final(self)@
                == (OracleView {
                submitters: old(self)@.submitters.insert(
                    submitter,
                    SubmitterInfo { active: false, ..old(self)@.submitters[submitter] },
                ),
                ..old(self)@
            }),
            caller == old(self)@.admin && !old(self)@.submitters.contains_key(submitter) ==> r is Ok
                && final(self)@ == old(self)@,
            final(self).wf(),
    {
        if caller != self.admin {
            return Err(OracleError::Unauthorized);
        }
        match self.submitters.get(&submitter) {
            Some(info) => {
                let updated = SubmitterInfo { active: false, ..*info };
                self.submitters.insert(submitter, updated);
            },
            None => {},
        }
        Ok(())
    }

    /// The last nonce accepted from `submitter` on `feed_id` (0 before the
    /// first).
    pub fn get_nonce(&self, submitter: u64, feed_id: u64) -> (r: u64)
        ensures
            r == self@.nonce_of(submitter, feed_id),
    {
        match self.nonces.get(&submitter) {
            Some(m) => match m.get(&feed_id) {
                Some(n) => *n,
                None => 0,
            },
            None => 0,
        }
    }

    /// The current staleness window in seconds.
    pub fn get_staleness_window(&self) -> (r: u64)
        ensures
            r == self@.staleness_window,
    {
        self.staleness_window
    }

    /// The admin sets the staleness window.
    pub fn set_staleness_window(&mut self, caller: u64, seconds: u64) -> (r: Result<(), OracleError>)
        requires
            old(self).wf(),
        ensures
            caller != old(self)@.admin ==> r == Err::<(), OracleError>(OracleError::Unauthorized) && final(self)@
                == old(self)@,
            caller == old(self)@.admin ==> r is Ok && final(self)@ == (OracleView {
                staleness_window: seconds,
                ..old(self)@
            }),
            final(self).wf(),
    {
        if caller != self.admin {
            return Err(OracleError::Unauthorized);
        }
        self.staleness_window = seconds;
        Ok(())
    }

    /// The latest value of `feed_id`, if it has one.
    pub fn get_feed_latest(&self, feed_id: u64) -> (r: Option<FeedLatest>)
        ensures
            self@.latest.contains_key(feed_id) ==> r == Some(self@.latest[feed_id]),
            !self@.latest.contains_key(feed_id) ==> r is None,
    {
        match self.latest.get(&feed_id) {
            Some(l) => Some(*l),
            None => None,
        }
    }

    /// The latest value of `feed_id`; `FeedNotFound` before its first
    /// submission.
    pub fn get_latest_price(&self, feed_id: u64) -> (r: Result<FeedLatest, OracleError>)
        ensures
            self@.latest.contains_key(feed_id) ==> r == Ok::<FeedLatest, OracleError>(self@.latest[feed_id]),
            !self@.latest.contains_key(feed_id) ==> r == Err::<FeedLatest, OracleError>(OracleError::FeedNotFound),
    {
        match self.latest.get(&feed_id) {
            Some(l) => Ok(*l),
            None => Err(OracleError::FeedNotFound),
        }
    }

    /// The last `limit` submissions of `feed_id`, oldest first (empty for
    /// a feed without history).
    pub fn get_feed_history(&self, feed_id: u64, limit: u32) -> (r: Vec<PriceSubmission>)
        ensures
            r@ == self@.recent(feed_id, limit),
    {
        let mut result: Vec<PriceSubmission> = Vec::new();
        match self.history.get(&feed_id) {
            Some(subs) => {
                let len = subs.len();
                let start: usize = if len > limit as usize {
                    len - limit as usize
                } else {
                    0
                };
                let mut i = start;
                while i < len
                    invariant
                        len == subs@.len(),
                        start <= i <= len,
                        result@ == subs@.subrange(start as int, i as int),
                    decreases len - i,
                {
                    result.push(subs[i]);
                    proof {
                        assert(result@ =~= subs@.subrange(start as int, i + 1));
                    }
                    i = i + 1;
                }
                proof {
                    assert(self@.feed_history(feed_id) == subs@);
                    if !(len > limit as usize) {
                        assert(result@ =~= subs@);
                    }
                }
            },
            None => {
                assert(result@ =~= self@.recent(feed_id, limit));
            },
        }
        result
    }

    /// The last `limit` submissions of `feed_id`, oldest first;
    /// `FeedNotFound` for a feed without history.
    pub fn get_price_history(&self, feed_id: u64, limit: u32) -> (r: Result<Vec<PriceSubmission>, OracleError>)
        ensures
            self@.history.contains_key(feed_id) ==> r is Ok && r->Ok_0@ == self@.recent(feed_id, limit),
            !self@.history.contains_key(feed_id) ==> r is Err && r->Err_0 == OracleError::FeedNotFound,
    {
        if !self.history.contains_key(&feed_id) {
            return Err(OracleError::FeedNotFound);
        }
        Ok(self.get_feed_history(feed_id, limit))
    }

    /// An active submitter posts `price` for `feed_id`, observed at
    /// `timestamp`, with the next nonce of its sequence on that feed, at
    /// time `now`. Returns the new submission id.
    pub fn submit_price(
        &mut self,
        submitter: u64,
        feed_id: u64,
        price: i128,
        decimals: u32,
        timestamp: u64,
        nonce: u64,
        now: u64,
    ) -> (r: Result<u64, OracleError>)
        requires
            old(self).wf(),
        ensures
            match old(self)@.submit_spec(submitter, feed_id, price, decimals, timestamp, nonce, now) {
                Err(e) => r == Err::<u64, OracleError>(e) && final(self)@ == old(self)@,
                Ok(v) => r == Ok::<u64, OracleError>((old(self)@.last_id + 1) as u64) && final(self)@ == v,
            },
            final(self).wf(),
    {
        if !self.is_submitter_active(submitter) {
            return Err(OracleError::SubmitterNotAuthorized);
        }
        let expected = self.get_nonce(submitter, feed_id);
        if expected == u64::MAX || nonce != expected + 1 {
            return Err(OracleError::DuplicateSubmission);
        }
        if timestamp < now && now - timestamp > self.staleness_window {
            return Err(OracleError::SubmissionStale);
        }
        if price < 0 {
            return Err(OracleError::InvalidPrice);
        }
        if decimals > MAX_DECIMALS {
            return Err(OracleError::InvalidDecimals);
        }
        let id = match self.last_id.checked_add(1) {
            Some(n) => n,
            None => {
                return Err(OracleError::InternalError);
            },
        };
        let count = match self.latest.get(&feed_id) {
            Some(l) => l.submission_count,
            None => 0,
        };
        self.latest.insert(
            feed_id,
            FeedLatest { feed_id, price, decimals, timestamp, submission_count: count + 1 },
        );
        let mut subs: Vec<PriceSubmission> = match self.history.get(&feed_id) {
            Some(v) => v.clone(),
            None => Vec::new(),
        };
        proof {
            assert(subs@ =~= old(self)@.feed_history(feed_id));
        }
        subs.push(PriceSubmission { id, submitter, feed_id, price, decimals, timestamp, nonce });
        let ghost new_subs = subs@;
        self.history.insert(feed_id, subs);
        self.last_id = id;
        let mut inner: HashMap<u64, u64> = match self.nonces.get(&submitter) {
            Some(m) => m.clone(),
            None => HashMap::new(),
        };
        proof {
            assert(inner@ =~= old(self)@.feed_nonces(submitter));
        }
        inner.insert(feed_id, nonce);
        let ghost new_inner = inner@;
        self.nonces.insert(submitter, inner);
        proof {
            assert(self@.history =~= old(self)@.history.insert(feed_id, new_subs));
            assert(self@.nonces =~= old(self)@.nonces.insert(submitter, new_inner));
        }
        Ok(id)
    }
}

/// A nonce is accepted at most once: after a submission, resubmitting with
/// the same nonce for the same submitter and feed is refused as a replay,
/// while the latest value of the feed reads back what was submitted.
pub proof fn lemma_submission_replay_and_read_back(
    v: OracleView,
    submitter: u64,
    feed_id: u64,
    price: i128,
    decimals: u32,
    timestamp: u64,
    nonce: u64,
    now: u64,
    price2: i128,
    decimals2: u32,
    timestamp2: u64,
    now2: u64,
)
    requires
        v.wf(),
        v.submit_spec(submitter, feed_id, price, decimals, timestamp, nonce, now) is Ok,
    ensures
        ({
            let w = v.submit_spec(submitter, feed_id, price, decimals, timestamp, nonce, now)->Ok_0;
            &&& w.submit_spec(submitter, feed_id, price2, decimals2, timestamp2, nonce, now2) == Err::<
                OracleView,
                OracleError,
            >(OracleError::DuplicateSubmission)
            &&& w.latest[feed_id].price == price
            &&& w.latest[feed_id].decimals == decimals
            &&& w.latest[feed_id].timestamp == timestamp
            &&& w.latest[feed_id].submission_count == (if v.latest.contains_key(feed_id) {
                v.latest[feed_id].submission_count + 1
            } else {
                1
            })
            &&& w.feed_history(feed_id).len() == v.feed_history(feed_id).len() + 1
            &&& w.feed_history(feed_id).last().id == w.last_id
        }),
{
    let w = v.submit_spec(submitter, feed_id, price, decimals, timestamp, nonce, now)->Ok_0;
    assert(w.nonce_of(submitter, feed_id) == nonce);
}

} // verus!
