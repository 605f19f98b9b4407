//! A write buffer that holds at most one record per 64-bit key in a
//! `BTreeMap` and hands its records out in key order.
use vstd::prelude::*;
use std::collections::BTreeMap;
use crate::data_buffer::{Keyed, strictly_sorted, by_key, lemma_by_key};
use vstd::std_specs::btree::increasing_seq;
use vstd::std_specs::iter::IteratorSpec;
use vstd::std_specs::cmp::OrdSpec;

verus! {

broadcast use vstd::std_specs::btree::group_btree_axioms, vstd::laws_cmp::group_laws_cmp;

/// Records waiting to be written, at most one per key, in a `BTreeMap` by key.
pub struct KeyedBuffer<R> {
    items: BTreeMap<u64, R>,
}

/// A sequence of keys that a `BTreeMap` calls increasing is strictly increasing.
proof fn lemma_increasing_keys(s: Seq<&u64>)
    requires
        increasing_seq(s),
    ensures
        forall|a: int, b: int| 0 <= a < b < s.len() ==> *#[trigger] s[a] < *#[trigger] s[b],
{
    broadcast use vstd::laws_cmp::lemma_ref_obeys_cmp_spec;
    assert(vstd::laws_cmp::obeys_cmp::<u64>());
    assert(vstd::laws_cmp::obeys_cmp::<&u64>());
    assert(increasing_seq(s));
    assert forall|a: int, b: int| 0 <= a < b < s.len() implies *#[trigger] s[a] < *#[trigger] s[b] by {
        let x: &u64 = s[a];
        let y: &u64 = s[b];
        assert((&x).cmp_spec(&y) is Less);
    }
}

/// The keys of `m`, in increasing order.
fn sorted_keys<R>(m: &BTreeMap<u64, R>) -> (r: Vec<u64>)
    ensures
        r@.to_set() == m@.dom(),
        forall|i: int, j: int| 0 <= i < j < r@.len() ==> #[trigger] r@[i] < #[trigger] r@[j],
{
    let mut keys: Vec<u64> = Vec::new();
    let iter = m.keys();
    let ghost s0 = iter.remaining();
    assert(s0.map_values(|x: &u64| *x) =~= s0.unref());
    proof {
        lemma_increasing_keys(s0);
    }
    for k in it: iter
        invariant
            it.seq() == s0,
            keys@ == s0.take(it.index() as int).map_values(|x: &u64| *x),
            s0.map_values(|x: &u64| *x).to_set() == m@.dom(),
            forall|a: int, b: int| 0 <= a < b < s0.len() ==> *#[trigger] s0[a] < *#[trigger] s0[b],
            it.index() == s0.len() ==> keys@ == s0.map_values(|x: &u64| *x),
    {
        keys.push(*k);
        assert(s0.take(it.index() + 1 as int) =~= s0.take(it.index() as int).push(s0[it.index() as int]));
        assert(keys@ =~= s0.take(it.index() + 1 as int).map_values(|x: &u64| *x));
        assert(s0.take(s0.len() as int) =~= s0);
    }
    keys
}

impl<R: Keyed> KeyedBuffer<R> {
    /// The waiting records by key.
    pub closed spec fn records(&self) -> Map<u64, R> {
        self.items@
    }

    /// Every record waits under its own key.
    pub open spec fn wf(&self) -> bool {
        forall|k: u64| #[trigger] self.records().contains_key(k) ==> self.records()[k].spec_key() == k
    }

    /// An empty buffer.
    pub fn new() -> (r: KeyedBuffer<R>)
        ensures
            r.wf(),
            r.records() == Map::<u64, R>::empty(),
    {
        KeyedBuffer { items: BTreeMap::new() }
    }

    /// Adds a record, replacing a waiting record with the same key.
    pub fn add(&mut self, record: R)
        requires
            old(self).wf(),
        ensures
            final(self).wf(),
            final(self).records() == old(self).records().insert(record.spec_key(), record),
    {
        let k = record.key();
        self.items.insert(k, record);
    }

    /// Takes every waiting record out, in key order, leaving the buffer empty.
    pub fn take(&mut self) -> (r: Vec<R>)
        requires
            old(self).wf(),
        ensures
            final(self).wf(),
            final(self).records() == Map::<u64, R>::empty(),
            strictly_sorted(r@),
            by_key(r@) == old(self).records(),
    {
        let mut m: BTreeMap<u64, R> = BTreeMap::new();
        std::mem::swap(&mut m, &mut self.items);
        let ghost orig = m@;
        assert(orig == old(self).records());
        let keys = sorted_keys(&m);
        let mut out: Vec<R> = Vec::new();
        let mut i: usize = 0;
        while i < keys.len()
            invariant
                i <= keys@.len(),
                keys@.to_set() == orig.dom(),
                forall|a: int, b: int| 0 <= a < b < keys@.len() ==> #[trigger] keys@[a] < #[trigger] keys@[b],
                forall|k: u64| #[trigger] orig.contains_key(k) ==> orig[k].spec_key() == k,
                forall|j: int| i <= j < keys@.len() ==> #[trigger] m@.contains_key(keys@[j]) && m@[keys@[j]] == orig[keys@[j]],
                out@.len() == i,
                forall|j: int| 0 <= j < i ==> #[trigger] out@[j] == orig[keys@[j]],
            decreases keys@.len() - i,
        {
            let k = keys[i];
            assert(m@.contains_key(keys@[i as int]));
            assert forall|j: int| i < j < keys@.len() implies keys@[j] != k by {
                assert(keys@[i as int] < keys@[j]);
            }
            let removed = m.remove(&k);
            match removed {
                Some(v) => {
                    out.push(v);
                },
                None => {
                    assert(false);
                },
            }
            i = i + 1;
        }
        proof {
            assert forall|j: int| 0 <= j < keys@.len() implies #[trigger] orig.contains_key(keys@[j]) by {
                assert(keys@.to_set().contains(keys@[j]));
            }
            assert(strictly_sorted(out@)) by {
                assert forall|a: int, b: int| 0 <= a < b < out@.len() implies #[trigger] out@[a].spec_key() < #[trigger] out@[b].spec_key() by {
                    assert(orig.contains_key(keys@[a]));
                    assert(orig.contains_key(keys@[b]));
                    assert(keys@[a] < keys@[b]);
                }
            }
            lemma_by_key(out@);
            assert(by_key(out@) =~= orig) by {
                assert forall|k: u64| #[trigger] by_key(out@).contains_key(k) <==> orig.contains_key(k) by {
                    if by_key(out@).contains_key(k) {
                        let j = choose|j: int| 0 <= j < out@.len() && out@[j].spec_key() == k;
                        assert(orig.contains_key(keys@[j]));
                    }
                    if orig.contains_key(k) {
                        assert(keys@.to_set().contains(k));
                        let j = choose|j: int| 0 <= j < keys@.len() && keys@[j] == k;
                        assert(out@[j].spec_key() == k);
                        assert(by_key(out@).contains_key(out@[j].spec_key()));
                    }
                }
                assert forall|k: u64| #[trigger] by_key(out@).contains_key(k) implies by_key(out@)[k] == orig[k] by {
                    let j = choose|j: int| 0 <= j < out@.len() && out@[j].spec_key() == k;
                    assert(orig.contains_key(keys@[j]));
                }
            }
        }
        out
    }

    /// The number of waiting records.
    pub fn len(&self) -> (r: usize)
        ensures
            r == self.records().len(),
    {
        self.items.len()
    }
}

} // verus!
