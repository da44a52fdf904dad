//! The markets known at startup: a snapshot that is taken once and handed on.

use vstd::prelude::*;

use crate::decimal::fixed_u64;
use crate::decimal::to_fixed_u64;
use crate::decimal::Decimal;
use crate::error::Field;
use crate::error::StoreError;

verus! {

/// A set of market ids. It keeps the order in which the ids came.
#[derive(Debug)]
pub struct MarketSet {
    ids: Vec<u64>,
}

impl View for MarketSet {
    type V = Set<u64>;

    closed spec fn view(&self) -> Set<u64> {
        self.ids@.to_set()
    }
}

/// The elements of a sequence, each once, in the order in which they first
/// come.
pub open spec fn first_occurrences(ids: Seq<u64>) -> Seq<u64>
    decreases ids.len(),
{
    if ids.len() == 0 {
        Seq::empty()
    } else if first_occurrences(ids.drop_last()).contains(ids.last()) {
        first_occurrences(ids.drop_last())
    } else {
        first_occurrences(ids.drop_last()).push(ids.last())
    }
}

/// The market id of each row, where every one converts.
pub open spec fn row_ids(rows: Seq<Decimal>) -> Seq<u64> {
    Seq::new(rows.len(), |i: int| fixed_u64(rows[i]@)->0)
}

/// The market ids that the rows hold.
pub open spec fn row_markets(rows: Seq<Decimal>) -> Set<u64> {
    Set::new(
        |id: u64| exists|i: int| 0 <= i < rows.len() && fixed_u64(#[trigger] rows[i]@) == Some(id),
    )
}

impl MarketSet {
    #[verifier::type_invariant]
    spec fn distinct(self) -> bool {
        self.ids@.no_duplicates()
    }

    /// The ids in the order in which they came.
    pub closed spec fn order(self) -> Seq<u64> {
        self.ids@
    }

    /// The empty set.
    pub fn new() -> (r: MarketSet)
        ensures
            r@ == Set::<u64>::empty(),
            r.order() == Seq::<u64>::empty(),
    {
        MarketSet { ids: Vec::new() }
    }

    /// Whether `id` is in the set.
    pub fn contains(&self, id: u64) -> (r: bool)
        ensures
            r == self@.contains(id),
    {
        holds(&self.ids, id)
    }

    /// The number of markets.
    pub fn len(&self) -> (r: usize)
        ensures
            r == self@.len(),
            r == self.order().len(),
    {
        proof {
            use_type_invariant(self);
            self.ids@.unique_seq_to_set();
        }
        self.ids.len()
    }

    /// Whether no market is registered: the pipeline then runs, degraded.
    pub fn is_empty(&self) -> (r: bool)
        ensures
            r == (self@ == Set::<u64>::empty()),
    {
        proof {
            use_type_invariant(self);
            self.ids@.unique_seq_to_set();
            if self.ids@.len() == 0 {
                assert(self@ =~= Set::<u64>::empty());
            }
        }
        self.ids.len() == 0
    }

    /// The ids in the order in which they came, each once.
    pub fn ids(&self) -> (r: &Vec<u64>)
        ensures
            r@ == self.order(),
            r@.no_duplicates(),
            r@.to_set() == self@,
            r@.len() == self@.len(),
    {
        proof {
            use_type_invariant(self);
            self.ids@.unique_seq_to_set();
        }
        &self.ids
    }

    /// The set of the given ids.
    pub fn from_ids(ids: &Vec<u64>) -> (r: MarketSet)
        ensures
            r@ == ids@.to_set(),
            r.order() == first_occurrences(ids@),
    {
        let mut distinct: Vec<u64> = Vec::new();
        let mut i: usize = 0;
        while i < ids.len()
            invariant
                i <= ids.len(),
                distinct@.no_duplicates(),
                distinct@.to_set() == ids@.subrange(0, i as int).to_set(),
                distinct@ == first_occurrences(ids@.subrange(0, i as int)),
            decreases ids.len() - i,
        {
            include_id(&mut distinct, ids[i]);
            proof {
                let upto = ids@.subrange(0, i + 1);
                let before = ids@.subrange(0, i as int);
                assert(upto =~= before.push(ids@[i as int]));
                assert(upto.drop_last() =~= before);
                lemma_push_to_set(before, ids@[i as int]);
            }
            i += 1;
        }
        assert(ids@.subrange(0, ids.len() as int) =~= ids@);
        MarketSet { ids: distinct }
    }
}

/// Whether `id` is among `ids`.
fn holds(ids: &Vec<u64>, id: u64) -> (r: bool)
    ensures
        r == ids@.contains(id),
{
    let mut i: usize = 0;
    while i < ids.len()
        invariant
            i <= ids.len(),
            forall|j: int| 0 <= j < i ==> ids@[j] != id,
        decreases ids.len() - i,
    {
        if ids[i] == id {
            return true;
        }
        i += 1;
    }
    false
}

/// Appends `id` unless it is there already.
fn include_id(ids: &mut Vec<u64>, id: u64)
    requires
        old(ids)@.no_duplicates(),
    ensures
        final(ids)@.no_duplicates(),
        final(ids)@.to_set() == old(ids)@.to_set().insert(id),
        final(ids)@ == if old(ids)@.contains(id) {
            old(ids)@
        } else {
            old(ids)@.push(id)
        },
{
    if holds(ids, id) {
    } else {
        proof {
            lemma_push_to_set(ids@, id);
        }
        ids.push(id);
    }
}

/// The elements of a sequence with one more pushed are those of the
/// sequence, and the one.
pub proof fn lemma_push_to_set(s: Seq<u64>, x: u64)
    ensures
        s.push(x).to_set() == s.to_set().insert(x),
{
    assert forall|y: u64| s.push(x).to_set().contains(y) == s.to_set().insert(x).contains(y) by {
        if s.contains(y) {
            let j = choose|j: int| 0 <= j < s.len() && s[j] == y;
            assert(s.push(x)[j] == y);
        }
        if y == x {
            assert(s.push(x)[s.len() as int] == y);
        }
    }
}

/// Takes the snapshot of the registered markets from the market id column
/// as the store returned it. Every id passes through the strict conversion;
/// the first row that fails it fails the load. No rows give the empty set.
pub fn load_markets(rows: &Vec<Decimal>) -> (r: Result<MarketSet, StoreError>)
    ensures
        match r {
            Ok(markets) => {
                &&& forall|i: int| 0 <= i < rows.len() ==> fixed_u64(#[trigger] rows[i]@) is Some
                &&& markets@ == row_markets(rows@)
                &&& markets.order() == first_occurrences(row_ids(rows@))
            },
            Err(StoreError::MarketId { row }) => {
                &&& row < rows.len()
                &&& fixed_u64(rows[row as int]@) is None
                &&& forall|i: int| 0 <= i < row ==> fixed_u64(#[trigger] rows[i]@) is Some
            },
            Err(_) => false,
        },
{
    let mut markets: Vec<u64> = Vec::new();
    let mut i: usize = 0;
    while i < rows.len()
        invariant
            i <= rows.len(),
            forall|j: int| 0 <= j < i ==> fixed_u64(#[trigger] rows[j]@) is Some,
            markets@.no_duplicates(),
            markets@.to_set() == row_markets(rows@.subrange(0, i as int)),
            markets@ == first_occurrences(row_ids(rows@.subrange(0, i as int))),
        decreases rows.len() - i,
    {
        let ghost upto = rows@.subrange(0, i + 1);
        proof {
            assert(upto.last() == rows@[i as int]);
            assert(row_ids(upto).drop_last() =~= row_ids(rows@.subrange(0, i as int)));
        }
        match to_fixed_u64(&rows[i], Field::MarketId) {
            Ok(id) => {
                include_id(&mut markets, id);
                proof {
                    let before = rows@.subrange(0, i as int);
                    assert(row_markets(upto) =~= row_markets(before).insert(id)) by {
                        assert forall|x: u64| row_markets(upto).contains(x) == row_markets(
                            before,
                        ).insert(id).contains(x) by {
                        }
                    }
                }
            },
            Err(_) => {
                return Err(StoreError::MarketId { row: i });
            },
        }
        i += 1;
    }
    assert(rows@.subrange(0, rows.len() as int) =~= rows@);
    Ok(MarketSet { ids: markets })
}

} // verus!
