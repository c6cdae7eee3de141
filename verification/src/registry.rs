//! The nullifier registry: a keyed, append-once-per-key store recording which
//! nullifiers were admitted, when, and until when. A nullifier is admitted at
//! most once for the lifetime of the registry; a second admission attempt is
//! rejected, never silently accepted. The surrounding environment serializes
//! admissions per key and commits all-or-nothing; the registry itself only
//! enforces "fail if already present".

use vstd::prelude::*;

use crate::bytes::bytes_eq;
use crate::errors::VeiledError;

verus! {

/// Seconds until a fresh record's `expires_at`: 30 days. Informational for
/// downstream permission lifetimes, not a registry eviction trigger.
pub const RECORD_LIFETIME: i64 = 2592000;

/// One admitted nullifier: the key, a short label, and the admission and
/// expiry timestamps. Immutable once created.
pub struct NullifierAccount {
    /// The one-time-use identifying token, 32 bytes.
    pub nullifier: Vec<u8>,
    /// Caller-supplied label, a UTF-8 string of 1 to 32 bytes.
    pub domain: String,
    /// When the nullifier was admitted.
    pub created_at: i64,
    /// `created_at` plus `RECORD_LIFETIME`.
    pub expires_at: i64,
}

/// The mathematical value of a registry record.
pub struct RecordModel {
    pub nullifier: Seq<u8>,
    pub domain: Seq<char>,
    pub created_at: i64,
    pub expires_at: i64,
}

impl View for NullifierAccount {
    type V = RecordModel;

    open spec fn view(&self) -> RecordModel {
        RecordModel {
            nullifier: self.nullifier@,
            domain: self.domain@,
            created_at: self.created_at,
            expires_at: self.expires_at,
        }
    }
}

/// True when some record of `m` holds the nullifier `n`.
pub open spec fn contains_nullifier(m: Seq<RecordModel>, n: Seq<u8>) -> bool {
    exists|i: int| 0 <= i < m.len() && m[i].nullifier == n
}

/// What admission does to a registry: a duplicate nullifier is rejected and
/// the registry kept; a fresh one appends a record created at `now` that
/// expires `RECORD_LIFETIME` seconds later.
pub open spec fn admit_model(
    m: Seq<RecordModel>,
    nullifier: Seq<u8>,
    domain: Seq<char>,
    now: i64,
) -> Result<Seq<RecordModel>, VeiledError>
    recommends
        now + RECORD_LIFETIME <= i64::MAX,
{
    if contains_nullifier(m, nullifier) {
        Err(VeiledError::DuplicateNullifier)
    } else {
        Ok(
            m.push(
                RecordModel {
                    nullifier,
                    domain,
                    created_at: now,
                    expires_at: (now + RECORD_LIFETIME) as i64,
                },
            ),
        )
    }
}

/// The explicit keyed store of admitted nullifiers.
pub struct NullifierRegistry {
    records: Vec<NullifierAccount>,
}

impl View for NullifierRegistry {
    type V = Seq<RecordModel>;

    closed spec fn view(&self) -> Seq<RecordModel> {
        Seq::new(self.records@.len(), |i: int| self.records@[i]@)
    }
}

impl NullifierRegistry {
    /// No two records hold the same nullifier.
    pub open spec fn wf(&self) -> bool {
        forall|i: int, j: int|
            0 <= i < j < self@.len() ==> #[trigger] self@[i].nullifier != #[trigger] self@[j].nullifier
    }

    /// An empty registry.
    pub fn new() -> (r: NullifierRegistry)
        ensures
            r@ == Seq::<RecordModel>::empty(),
            r.wf(),
    {
        let r = NullifierRegistry { records: Vec::new() };
        assert(r@ =~= Seq::<RecordModel>::empty());
        r
    }

    /// The records admitted so far, oldest first.
    pub fn records(&self) -> (r: &Vec<NullifierAccount>)
        ensures
            r@.len() == self@.len(),
            forall|i: int| 0 <= i < r@.len() ==> #[trigger] r@[i]@ == self@[i],
    {
        &self.records
    }

    /// Whether `nullifier` was admitted before.
    pub fn contains(&self, nullifier: &Vec<u8>) -> (r: bool)
        ensures
            r == contains_nullifier(self@, nullifier@),
    {
        let n = self.records.len();
        let mut i: usize = 0;
        while i < n
            invariant
                i <= n,
                self@.len() == n,
                forall|j: int| 0 <= j < i ==> #[trigger] self@[j].nullifier != nullifier@,
            decreases n - i,
        {
            if bytes_eq(&self.records[i].nullifier, nullifier) {
                assert(self@[i as int].nullifier == nullifier@);
                return true;
            }
            i = i + 1;
        }
        false
    }

    /// Admits `nullifier` if it was never admitted before, recording the
    /// label and the admission time; rejects a replay with
    /// `DuplicateNullifier` and leaves the registry unchanged.
    pub fn admit_nullifier(&mut self, nullifier: Vec<u8>, domain: String, now: i64) -> (r: Result<
        (),
        VeiledError,
    >)
        requires
            old(self).wf(),
            now + RECORD_LIFETIME <= i64::MAX,
        ensures
            final(self).wf(),
            admit_model(old(self)@, nullifier@, domain@, now) matches Ok(m2) ==> (r == Ok::<
                (),
                VeiledError,
            >(()) && final(self)@ == m2),
            admit_model(old(self)@, nullifier@, domain@, now) matches Err(e) ==> (r == Err::<
                (),
                VeiledError,
            >(e) && final(self)@ == old(self)@),
            r is Ok <==> !contains_nullifier(old(self)@, nullifier@),
    {
        if self.contains(&nullifier) {
            return Err(VeiledError::DuplicateNullifier);
        }
        let ghost m0 = self@;
        let ghost n = nullifier@;
        let record = NullifierAccount {
            nullifier,
            domain,
            created_at: now,
            expires_at: now + RECORD_LIFETIME,
        };
        let ghost rm = record@;
        self.records.push(record);
        proof {
            assert(self@ =~= m0.push(rm));
            assert forall|i: int, j: int| 0 <= i < j < self@.len() implies #[trigger] self@[i].nullifier
                != #[trigger] self@[j].nullifier by {
                if j < m0.len() {
                    assert(self@[i] == m0[i] && self@[j] == m0[j]);
                } else {
                    assert(self@[j] == rm);
                    assert(self@[i] == m0[i]);
                    assert(!contains_nullifier(m0, n));
                    assert(m0[i].nullifier != n);
                }
            }
        }
        Ok(())
    }
}

/// Replay protection: once a nullifier is admitted, admitting it again — with
/// any label and at any time — fails with `DuplicateNullifier`.
pub proof fn lemma_admit_at_most_once(
    m: Seq<RecordModel>,
    nullifier: Seq<u8>,
    domain1: Seq<char>,
    now1: i64,
    domain2: Seq<char>,
    now2: i64,
)
    requires
        admit_model(m, nullifier, domain1, now1) matches Ok(_),
    ensures
        admit_model(m, nullifier, domain1, now1) matches Ok(m2) ==> admit_model(
            m2,
            nullifier,
            domain2,
            now2,
        ) == Err::<Seq<RecordModel>, VeiledError>(VeiledError::DuplicateNullifier),
{
    let m2 = admit_model(m, nullifier, domain1, now1)->Ok_0;
    assert(m2[m.len() as int].nullifier == nullifier);
    assert(contains_nullifier(m2, nullifier));
}

/// Independence: two distinct nullifiers, neither admitted before, are both
/// admitted, in either order; the second admission is not disturbed by the
/// first.
pub proof fn lemma_distinct_nullifiers_admit_independently(
    m: Seq<RecordModel>,
    n1: Seq<u8>,
    domain1: Seq<char>,
    now1: i64,
    n2: Seq<u8>,
    domain2: Seq<char>,
    now2: i64,
)
    requires
        n1 != n2,
        !contains_nullifier(m, n1),
        !contains_nullifier(m, n2),
    ensures
        admit_model(m, n1, domain1, now1) matches Ok(_),
        admit_model(m, n1, domain1, now1) matches Ok(m2) ==> admit_model(
            m2,
            n2,
            domain2,
            now2,
        ) matches Ok(_),
{
    let m2 = admit_model(m, n1, domain1, now1)->Ok_0;
    if contains_nullifier(m2, n2) {
        let i = choose|i: int| 0 <= i < m2.len() && m2[i].nullifier == n2;
        if i < m.len() {
            assert(m[i].nullifier == n2);
            assert(contains_nullifier(m, n2));
        } else {
            assert(m2[i].nullifier == n1);
        }
        assert(false);
    }
}

} // verus!
