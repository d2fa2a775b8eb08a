//! A cache from syntactic annotations to their resolved types: a
//! mapping with unique keys, where adding an entry for a known key
//! replaces its value.

use vstd::prelude::*;

use crate::tokens::str_eq;
use crate::types::annotated_type::{AnnotatedType, AnnotatedTypeV};
use crate::types::{ValueType, ValueTypeV};

verus! {

/// Structural equality of two annotations.
pub fn annotated_eq(a: &AnnotatedType, b: &AnnotatedType) -> (r: bool)
    ensures
        r == (a@ == b@),
    decreases a,
{
    match (a, b) {
        (AnnotatedType::Primitive(x), AnnotatedType::Primitive(y)) => str_eq(
            x.as_str(),
            y.as_str(),
        ),
        (AnnotatedType::Pointer(i), AnnotatedType::Pointer(j)) => annotated_eq(i, j),
        _ => false,
    }
}

/// The mapping an entry sequence denotes, later entries inserted later.
pub open spec fn tm_map(es: Seq<(AnnotatedType, ValueType)>) -> Map<AnnotatedTypeV, ValueTypeV>
    decreases es.len(),
{
    if es.len() == 0 {
        Map::<AnnotatedTypeV, ValueTypeV>::empty()
    } else {
        tm_map(es.drop_last()).insert(es.last().0@, es.last().1@)
    }
}

/// Whether no two entries share a key.
pub open spec fn tm_unique(es: Seq<(AnnotatedType, ValueType)>) -> bool {
    forall|i: int, j: int| 0 <= i < j < es.len() ==> (#[trigger] es[i]).0@ != (#[trigger] es[j]).0@
}

/// A key is in the mapping exactly when some entry carries it.
proof fn lemma_tm_map_contains(es: Seq<(AnnotatedType, ValueType)>, k: AnnotatedTypeV)
    ensures
        tm_map(es).contains_key(k) <==> exists|i: int|
            0 <= i < es.len() && (#[trigger] es[i]).0@ == k,
    decreases es.len(),
{
    if es.len() > 0 {
        lemma_tm_map_contains(es.drop_last(), k);
        if tm_map(es).contains_key(k) {
            if es.last().0@ != k {
                let i = choose|i: int| 0 <= i < es.len() - 1 && (#[trigger] es.drop_last()[i]).0@
                    == k;
                assert(es[i].0@ == k);
            }
        }
        if exists|i: int| 0 <= i < es.len() && (#[trigger] es[i]).0@ == k {
            let i = choose|i: int| 0 <= i < es.len() && (#[trigger] es[i]).0@ == k;
            if i < es.len() - 1 {
                assert(es.drop_last()[i].0@ == k);
            }
        }
    }
}

/// Under unique keys, each entry is what the mapping holds at its key.
proof fn lemma_tm_map_get(es: Seq<(AnnotatedType, ValueType)>, i: int)
    requires
        tm_unique(es),
        0 <= i < es.len(),
    ensures
        tm_map(es).contains_key(es[i].0@),
        tm_map(es)[es[i].0@] == es[i].1@,
    decreases es.len(),
{
    if i == es.len() - 1 {
    } else {
        lemma_tm_map_get(es.drop_last(), i);
        assert(es.drop_last()[i] == es[i]);
        assert(es.last().0@ != es[i].0@);
    }
}

/// Removing the one entry of a key takes the key out of the mapping.
proof fn lemma_tm_map_remove(es: Seq<(AnnotatedType, ValueType)>, i: int)
    requires
        tm_unique(es),
        0 <= i < es.len(),
    ensures
        tm_map(es.remove(i)) =~= tm_map(es).remove(es[i].0@),
    decreases es.len(),
{
    if i == es.len() - 1 {
        assert(es.remove(i) =~= es.drop_last());
        lemma_tm_map_contains(es.drop_last(), es[i].0@);
        assert(!tm_map(es.drop_last()).contains_key(es[i].0@));
    } else {
        lemma_tm_map_remove(es.drop_last(), i);
        assert(es.remove(i).drop_last() =~= es.drop_last().remove(i));
        assert(es.remove(i).last() == es.last());
    }
}

/// A cache from annotations to resolved types.
#[derive(Debug)]
pub struct ZastTypeMap {
    type_map: Vec<(AnnotatedType, ValueType)>,
}

impl View for ZastTypeMap {
    type V = Map<AnnotatedTypeV, ValueTypeV>;

    closed spec fn view(&self) -> Map<AnnotatedTypeV, ValueTypeV> {
        tm_map(self.type_map@)
    }
}

impl ZastTypeMap {
    /// The cache's keys are unique.
    pub closed spec fn wf(&self) -> bool {
        tm_unique(self.type_map@)
    }

    /// An empty cache.
    pub fn new() -> (r: Self)
        ensures
            r.wf(),
            r@ == Map::<AnnotatedTypeV, ValueTypeV>::empty(),
    {
        ZastTypeMap { type_map: Vec::new() }
    }

    /// Adds a mapping; an entry already present for the same annotation
    /// is replaced.
    #[verifier::loop_isolation(false)]
    pub fn add_mapping(&mut self, annotated_type: AnnotatedType, value_type: ValueType)
        requires
            old(self).wf(),
        ensures
            final(self).wf(),
            final(self)@ == old(self)@.insert(annotated_type@, value_type@),
    {
        let ghost es0 = self.type_map@;
        let mut i: usize = 0;
        while i < self.type_map.len()
            invariant
                0 <= i <= self.type_map@.len(),
                self.wf(),
                self.type_map@ == es0,
                forall|j: int| 0 <= j < i ==> (#[trigger] es0[j]).0@ != annotated_type@,
            decreases self.type_map@.len() - i,
        {
            if annotated_eq(&self.type_map[i].0, &annotated_type) {
                proof {
                    lemma_tm_map_remove(es0, i as int);
                }
                let _ = self.type_map.remove(i);
                let ghost es1 = self.type_map@;
                self.type_map.push((annotated_type, value_type));
                proof {
                    assert(self.type_map@.drop_last() =~= es1);
                    assert(es1 =~= es0.subrange(0, i as int) + es0.subrange(
                        i + 1,
                        es0.len() as int,
                    ));
                    assert(tm_unique(es1)) by {
                        assert forall|a: int, b: int| 0 <= a < b < es1.len() implies (
                        #[trigger] es1[a]).0@ != (#[trigger] es1[b]).0@ by {
                            let a0: int = if a < i { a } else { a + 1 };
                            let b0: int = if b < i { b } else { b + 1 };
                            assert(es1[a] == es0[a0]);
                            assert(es1[b] == es0[b0]);
                            assert(es0[a0].0@ != es0[b0].0@);
                        }
                    }
                    lemma_tm_map_contains(es1, annotated_type@);
                    assert(es0[i as int].0@ == annotated_type@);
                    assert(tm_map(es1) =~= tm_map(es0).remove(annotated_type@));
                    assert(self.type_map@.drop_last() =~= es1);
                    assert(tm_map(self.type_map@) == tm_map(self.type_map@.drop_last()).insert(
                        self.type_map@.last().0@,
                        self.type_map@.last().1@,
                    ));
                    assert(tm_map(self.type_map@.drop_last()) == tm_map(es1));
                    assert(self.type_map@.last().0@ == annotated_type@);
                    assert(self.type_map@.last().1@ == value_type@);
                    assert(self@ == tm_map(es0).remove(annotated_type@).insert(
                        annotated_type@,
                        value_type@,
                    ));
                    assert(old(self)@ == tm_map(es0));
                    assert(self@ =~= old(self)@.insert(annotated_type@, value_type@));
                }
                return ;
            }
            i = i + 1;
        }
        proof {
            lemma_tm_map_contains(es0, annotated_type@);
        }
        let ghost es1 = self.type_map@;
        self.type_map.push((annotated_type, value_type));
        proof {
            assert(self.type_map@.drop_last() =~= es1);
        }
    }

    /// Looks an annotation up in the cache.
    pub fn resolve_mapping(&self, annotated_type: AnnotatedType) -> (r: Option<&ValueType>)
        requires
            self.wf(),
        ensures
            match r {
                Some(v) => self@.contains_key(annotated_type@) && v@ == self@[annotated_type@],
                None => !self@.contains_key(annotated_type@),
            },
    {
        let mut i: usize = 0;
        while i < self.type_map.len()
            invariant
                0 <= i <= self.type_map@.len(),
                self.wf(),
                forall|j: int| 0 <= j < i ==> (#[trigger] self.type_map@[j]).0@
                    != annotated_type@,
            decreases self.type_map@.len() - i,
        {
            if annotated_eq(&self.type_map[i].0, &annotated_type) {
                proof {
                    lemma_tm_map_get(self.type_map@, i as int);
                }
                return Some(&self.type_map[i].1);
            }
            i = i + 1;
        }
        proof {
            lemma_tm_map_contains(self.type_map@, annotated_type@);
        }
        None
    }
}

} // verus!
