//! The subscription store: one record per endpoint.
//!
//! The store is a table keyed by endpoint. Registering an endpoint again
//! replaces its key material and leaves its owner; removing an endpoint that
//! is not there changes nothing.

use vstd::prelude::*;

use crate::owner::User;
use crate::subscription::{DescriptorView, RecordView, SubscriptionDescriptor, SubscriptionRecord};

verus! {

/// The subscriptions on record, by endpoint.
pub type Table = Map<Seq<char>, RecordView>;

/// The records of a list as plain values.
pub open spec fn record_views(rows: Seq<SubscriptionRecord>) -> Seq<RecordView> {
    rows.map_values(|r: SubscriptionRecord| r@)
}

/// No two records of the list share an endpoint.
pub open spec fn distinct_endpoints(rows: Seq<RecordView>) -> bool {
    forall|i: int, j: int|
        0 <= i < j < rows.len() ==> rows[i].descriptor.endpoint != rows[j].descriptor.endpoint
}

/// The list holds a record for the endpoint at position `i`.
pub open spec fn holds_at(rows: Seq<RecordView>, endpoint: Seq<char>, i: int) -> bool {
    0 <= i < rows.len() && rows[i].descriptor.endpoint == endpoint
}

/// The table that a list of records amounts to.
pub open spec fn table_of(rows: Seq<RecordView>) -> Table {
    Map::new(
        |e: Seq<char>| exists|i: int| holds_at(rows, e, i),
        |e: Seq<char>| rows[choose|i: int| holds_at(rows, e, i)],
    )
}

/// The table after a registration: new key material under the endpoint, and
/// the owner that the endpoint had, if it had one.
pub open spec fn upserted(table: Table, descriptor: DescriptorView, owner: User) -> Table {
    table.insert(
        descriptor.endpoint,
        RecordView {
            descriptor,
            owner: if table.contains_key(descriptor.endpoint) {
                table[descriptor.endpoint].owner
            } else {
                owner
            },
        },
    )
}

/// The table after the removal of one endpoint.
pub open spec fn deleted(table: Table, endpoint: Seq<char>) -> Table {
    table.remove(endpoint)
}

/// In the table of a list without a repeated endpoint, every record of the
/// list stands under its endpoint.
pub proof fn lemma_lookup(rows: Seq<RecordView>, i: int)
    requires
        distinct_endpoints(rows),
        0 <= i < rows.len(),
    ensures
        table_of(rows).contains_key(rows[i].descriptor.endpoint),
        table_of(rows)[rows[i].descriptor.endpoint] == rows[i],
{
    assert(holds_at(rows, rows[i].descriptor.endpoint, i));
}

proof fn lemma_absent(rows: Seq<RecordView>, endpoint: Seq<char>)
    requires
        forall|i: int| !holds_at(rows, endpoint, i),
    ensures
        !table_of(rows).contains_key(endpoint),
{
}

proof fn lemma_push(rows: Seq<RecordView>, record: RecordView)
    requires
        distinct_endpoints(rows),
        forall|i: int| !holds_at(rows, record.descriptor.endpoint, i),
    ensures
        distinct_endpoints(rows.push(record)),
        table_of(rows.push(record)) == table_of(rows).insert(record.descriptor.endpoint, record),
{
    let after = rows.push(record);
    let n = rows.len() as int;
    assert forall|i: int, j: int| 0 <= i < j < after.len() implies after[i].descriptor.endpoint
        != after[j].descriptor.endpoint by {
        if j == n {
            assert(!holds_at(rows, record.descriptor.endpoint, i));
        }
    }
    let want = table_of(rows).insert(record.descriptor.endpoint, record);
    assert forall|e: Seq<char>| table_of(after).contains_key(e) == want.contains_key(e) by {
        if table_of(after).contains_key(e) {
            let i = choose|i: int| holds_at(after, e, i);
            if i < n {
                assert(holds_at(rows, e, i));
            }
        }
        if want.contains_key(e) {
            if e == record.descriptor.endpoint {
                assert(holds_at(after, e, n));
            } else {
                let i = choose|i: int| holds_at(rows, e, i);
                assert(holds_at(after, e, i));
            }
        }
    }
    assert forall|e: Seq<char>| table_of(after).contains_key(e) implies table_of(after)[e]
        == want[e] by {
        let i = choose|i: int| holds_at(after, e, i);
        lemma_lookup(after, i);
        if i < n {
            lemma_lookup(rows, i);
        }
    }
}

proof fn lemma_update(rows: Seq<RecordView>, at: int, record: RecordView)
    requires
        distinct_endpoints(rows),
        0 <= at < rows.len(),
        rows[at].descriptor.endpoint == record.descriptor.endpoint,
    ensures
        distinct_endpoints(rows.update(at, record)),
        table_of(rows.update(at, record)) == table_of(rows).insert(
            record.descriptor.endpoint,
            record,
        ),
{
    let after = rows.update(at, record);
    assert(distinct_endpoints(after));
    let want = table_of(rows).insert(record.descriptor.endpoint, record);
    assert forall|e: Seq<char>| table_of(after).contains_key(e) == want.contains_key(e) by {
        if table_of(after).contains_key(e) {
            let i = choose|i: int| holds_at(after, e, i);
            assert(holds_at(rows, e, i));
        }
        if want.contains_key(e) {
            if e == record.descriptor.endpoint {
                assert(holds_at(after, e, at));
            } else {
                let i = choose|i: int| holds_at(rows, e, i);
                assert(holds_at(after, e, i));
            }
        }
    }
    assert forall|e: Seq<char>| table_of(after).contains_key(e) implies table_of(after)[e]
        == want[e] by {
        let i = choose|i: int| holds_at(after, e, i);
        lemma_lookup(after, i);
        lemma_lookup(rows, i);
    }
}

proof fn lemma_remove(rows: Seq<RecordView>, at: int)
    requires
        distinct_endpoints(rows),
        0 <= at < rows.len(),
    ensures
        distinct_endpoints(rows.remove(at)),
        table_of(rows.remove(at)) == table_of(rows).remove(rows[at].descriptor.endpoint),
{
    let after = rows.remove(at);
    assert(distinct_endpoints(after));
    let want = table_of(rows).remove(rows[at].descriptor.endpoint);
    assert forall|e: Seq<char>| table_of(after).contains_key(e) == want.contains_key(e) by {
        if table_of(after).contains_key(e) {
            let i = choose|i: int| holds_at(after, e, i);
            assert(holds_at(rows, e, if i < at { i } else { i + 1 }));
        }
        if want.contains_key(e) {
            let a = choose|a: int| holds_at(rows, e, a);
            assert(holds_at(after, e, if a < at { a } else { a - 1 }));
        }
    }
    assert forall|e: Seq<char>| table_of(after).contains_key(e) implies table_of(after)[e]
        == want[e] by {
        let i = choose|i: int| holds_at(after, e, i);
        lemma_lookup(after, i);
        lemma_lookup(rows, if i < at { i } else { i + 1 });
    }
}

proof fn lemma_size(rows: Seq<RecordView>)
    requires
        distinct_endpoints(rows),
    ensures
        table_of(rows).dom().finite(),
        table_of(rows).len() == rows.len(),
    decreases rows.len(),
{
    if rows.len() == 0 {
        assert(table_of(rows) =~= Map::<Seq<char>, RecordView>::empty());
    } else {
        let front = rows.drop_last();
        let last = rows.last();
        assert(distinct_endpoints(front));
        assert forall|i: int| !holds_at(front, last.descriptor.endpoint, i) by {}
        lemma_size(front);
        lemma_push(front, last);
        lemma_absent(front, last.descriptor.endpoint);
        assert(front.push(last) =~= rows);
    }
}

/// The subscriptions on record.
pub struct SubscriptionStore {
    rows: Vec<SubscriptionRecord>,
}

impl View for SubscriptionStore {
    type V = Table;

    closed spec fn view(&self) -> Table {
        table_of(record_views(self.rows@))
    }
}

impl SubscriptionStore {
    #[verifier::type_invariant]
    spec fn unique(&self) -> bool {
        distinct_endpoints(record_views(self.rows@))
    }

    /// A store without subscriptions.
    pub fn new() -> (r: SubscriptionStore)
        ensures
            r@ == Map::<Seq<char>, RecordView>::empty(),
    {
        let r = SubscriptionStore { rows: Vec::new() };
        r
    }

    fn take_rows(&mut self) -> (rows: Vec<SubscriptionRecord>)
        ensures
            rows@ == old(self).rows@,
            distinct_endpoints(record_views(rows@)),
    {
        let mut taken = SubscriptionStore { rows: Vec::new() };
        core::mem::swap(self, &mut taken);
        proof {
            use_type_invariant(&taken);
        }
        taken.rows
    }

    fn position(&self, endpoint: &str) -> (r: Option<usize>)
        ensures
            match r {
                Some(i) => holds_at(record_views(self.rows@), endpoint@, i as int),
                None => forall|i: int| !holds_at(record_views(self.rows@), endpoint@, i),
            },
    {
        let wanted = endpoint.to_owned();
        let n: usize = self.rows.len();
        let mut i: usize = 0;
        while i < n
            invariant
                i <= n,
                n == self.rows@.len(),
                wanted@ == endpoint@,
                forall|j: int| 0 <= j < i ==> !holds_at(record_views(self.rows@), endpoint@, j),
            decreases n - i,
        {
            if self.rows[i].descriptor.endpoint == wanted {
                return Some(i);
            }
            i += 1;
        }
        None
    }

    /// How many subscriptions are on record.
    pub fn len(&self) -> (r: usize)
        ensures
            self@.dom().finite(),
            r == self@.len(),
    {
        proof {
            use_type_invariant(self);
            lemma_size(record_views(self.rows@));
        }
        self.rows.len()
    }

    /// Whether the endpoint is on record.
    pub fn contains(&self, endpoint: &str) -> (r: bool)
        ensures
            r == self@.contains_key(endpoint@),
    {
        match self.position(endpoint) {
            Some(_) => true,
            None => false,
        }
    }

    /// The owner of the endpoint's subscription, if it is on record.
    pub fn owner_of(&self, endpoint: &str) -> (r: Option<User>)
        ensures
            r == (if self@.contains_key(endpoint@) {
                Some(self@[endpoint@].owner)
            } else {
                None
            }),
    {
        match self.position(endpoint) {
            Some(i) => {
                proof {
                    use_type_invariant(self);
                    lemma_lookup(record_views(self.rows@), i as int);
                }
                Some(self.rows[i].owner)
            },
            None => None,
        }
    }

    /// Registers a subscription. An endpoint that is new gets a record of its
    /// own, with `owner`. One that is on record keeps its owner and gets the
    /// descriptor's key material.
    pub fn upsert(&mut self, descriptor: SubscriptionDescriptor, owner: User)
        ensures
            final(self)@ == upserted(old(self)@, descriptor@, owner),
    {
        let found = self.position(descriptor.endpoint.as_str());
        let mut rows = self.take_rows();
        let ghost before = record_views(rows@);
        match found {
            Some(i) => {
                let kept = rows[i].owner;
                let record = SubscriptionRecord { descriptor, owner: kept };
                proof {
                    lemma_lookup(before, i as int);
                    lemma_update(before, i as int, record@);
                    assert(record_views(rows@.update(i as int, record)) =~= before.update(
                        i as int,
                        record@,
                    ));
                }
                rows.set(i, record);
            },
            None => {
                let record = SubscriptionRecord { descriptor, owner };
                proof {
                    lemma_absent(before, record@.descriptor.endpoint);
                    lemma_push(before, record@);
                    assert(record_views(rows@.push(record)) =~= before.push(record@));
                }
                rows.push(record);
            },
        }
        *self = SubscriptionStore { rows };
    }

    /// Removes the endpoint's subscription. An endpoint that is not on record
    /// is no error: nothing changes.
    pub fn delete(&mut self, endpoint: &str)
        ensures
            final(self)@ == deleted(old(self)@, endpoint@),
    {
        let found = self.position(endpoint);
        let mut rows = self.take_rows();
        let ghost before = record_views(rows@);
        match found {
            Some(i) => {
                proof {
                    lemma_remove(before, i as int);
                    assert(record_views(rows@.remove(i as int)) =~= before.remove(i as int));
                }
                rows.remove(i);
            },
            None => {
                proof {
                    lemma_absent(before, endpoint@);
                }
            },
        }
        *self = SubscriptionStore { rows };
    }

    /// Every subscription on record, each endpoint once.
    pub fn list_all(&self) -> (r: Vec<SubscriptionRecord>)
        ensures
            distinct_endpoints(record_views(r@)),
            table_of(record_views(r@)) == self@,
            r@.len() == self@.len(),
    {
        proof {
            use_type_invariant(self);
            lemma_size(record_views(self.rows@));
        }
        let n: usize = self.rows.len();
        let mut out: Vec<SubscriptionRecord> = Vec::new();
        let mut i: usize = 0;
        while i < n
            invariant
                i <= n,
                n == self.rows@.len(),
                out@.len() == i,
                forall|j: int| 0 <= j < i ==> out@[j]@ == self.rows@[j]@,
            decreases n - i,
        {
            out.push(self.rows[i].clone());
            i += 1;
        }
        assert(record_views(out@) =~= record_views(self.rows@));
        out
    }
}

/// Registering the same subscription twice leaves the table as the first
/// registration left it, with one record under the endpoint, which holds the
/// descriptor.
pub proof fn lemma_upsert_idempotent(table: Table, descriptor: DescriptorView, owner: User)
    ensures
        upserted(upserted(table, descriptor, owner), descriptor, owner) == upserted(
            table,
            descriptor,
            owner,
        ),
        upserted(table, descriptor, owner).contains_key(descriptor.endpoint),
        upserted(table, descriptor, owner)[descriptor.endpoint].descriptor == descriptor,
        table.dom().finite() ==> upserted(table, descriptor, owner).len() == (if table.contains_key(
            descriptor.endpoint,
        ) {
            table.len()
        } else {
            table.len() + 1
        }),
{
}

/// Registering an endpoint touches no other endpoint's record.
pub proof fn lemma_upsert_frame(
    table: Table,
    descriptor: DescriptorView,
    owner: User,
    other: Seq<char>,
)
    requires
        other != descriptor.endpoint,
    ensures
        upserted(table, descriptor, owner).contains_key(other) == table.contains_key(other),
        table.contains_key(other) ==> upserted(table, descriptor, owner)[other] == table[other],
{
}

/// Removing an endpoint that is not on record changes nothing, and removing
/// an endpoint twice is the same as removing it once.
pub proof fn lemma_delete_idempotent(table: Table, endpoint: Seq<char>)
    ensures
        !table.contains_key(endpoint) ==> deleted(table, endpoint) == table,
        deleted(deleted(table, endpoint), endpoint) == deleted(table, endpoint),
        !deleted(table, endpoint).contains_key(endpoint),
{
}

} // verus!
