//! Facts about sequences of records with distinct keys.

use crate::models::contract::{distinct_keys, has_key, lookup, position, same_elsewhere, Record};
use vstd::prelude::*;

verus! {

/// The test that keeps every record but the one under `id`.
pub open spec fn other_key<M: Record>(id: int) -> spec_fn(M::V) -> bool {
    |record: M::V| M::key(record) != id
}

/// Among distinct keys, the record at a position is the one found under its
/// key.
pub proof fn lemma_lookup_at<M: Record>(records: Seq<M::V>, i: int)
    requires
        distinct_keys::<M>(records),
        0 <= i < records.len(),
    ensures
        has_key::<M>(records, M::key(records[i])),
        lookup::<M>(records, M::key(records[i])) == Some(records[i]),
{
    let id = M::key(records[i]);
    assert(has_key::<M>(records, id));
    assert(position::<M>(records, id) == i);
}

/// A record that was found stands somewhere in the sequence, under the key
/// that was asked for.
pub proof fn lemma_lookup_found<M: Record>(records: Seq<M::V>, id: int) -> (i: int)
    requires
        has_key::<M>(records, id),
    ensures
        0 <= i < records.len(),
        M::key(records[i]) == id,
        lookup::<M>(records, id) == Some(records[i]),
{
    position::<M>(records, id)
}

/// Two sequences of equal length that agree on keys position by position
/// hold the same keys.
proof fn lemma_same_keys<M: Record>(before: Seq<M::V>, after: Seq<M::V>)
    requires
        before.len() == after.len(),
        forall|i: int|
            0 <= i < before.len() ==> M::key(#[trigger] after[i]) == M::key(before[i]),
        distinct_keys::<M>(before),
    ensures
        distinct_keys::<M>(after),
        forall|id: int| has_key::<M>(after, id) == has_key::<M>(before, id),
{
    assert forall|id: int| has_key::<M>(after, id) == has_key::<M>(before, id) by {
        if has_key::<M>(after, id) {
            let i = lemma_lookup_found::<M>(after, id);
            assert(M::key(before[i]) == id);
        }
        if has_key::<M>(before, id) {
            let i = lemma_lookup_found::<M>(before, id);
            assert(M::key(after[i]) == id);
        }
    }
    assert forall|i: int, j: int| 0 <= i < j < after.len() implies M::key(
        #[trigger] after[i],
    ) != M::key(#[trigger] after[j]) by {
        assert(M::key(before[i]) != M::key(before[j]));
    }
}

/// Appending a record under a free key: it is found under that key, and
/// every other key finds what it found before.
pub proof fn lemma_push<M: Record>(before: Seq<M::V>, record: M::V)
    requires
        distinct_keys::<M>(before),
        !has_key::<M>(before, M::key(record)),
    ensures
        distinct_keys::<M>(before.push(record)),
        lookup::<M>(before.push(record), M::key(record)) == Some(record),
        same_elsewhere::<M>(before, before.push(record), M::key(record)),
{
    let after = before.push(record);
    let last = before.len() as int;
    assert forall|i: int, j: int| 0 <= i < j < after.len() implies M::key(
        #[trigger] after[i],
    ) != M::key(#[trigger] after[j]) by {
        assert(after[i] == before[i]);
        if j < last {
            assert(after[j] == before[j]);
        }
    }
    assert(after[last] == record);
    lemma_lookup_at::<M>(after, last);
    assert forall|other: int| other != M::key(record) implies #[trigger] lookup::<M>(
        after,
        other,
    ) == lookup::<M>(before, other) by {
        if has_key::<M>(before, other) {
            let i = lemma_lookup_found::<M>(before, other);
            assert(after[i] == before[i]);
            lemma_lookup_at::<M>(after, i);
        } else if has_key::<M>(after, other) {
            let j = lemma_lookup_found::<M>(after, other);
            assert(j < last);
            assert(after[j] == before[j]);
        }
    }
}

/// Replacing the settable part of the record under `id`, position by
/// position: that key finds the replaced record, and every other key finds
/// what it found before.
pub proof fn lemma_rewrite<M: Record>(
    before: Seq<M::V>,
    id: int,
    input: &M::Mutable,
    after: Seq<M::V>,
)
    requires
        distinct_keys::<M>(before),
        after.len() == before.len(),
        forall|i: int|
            0 <= i < before.len() ==> #[trigger] after[i] == if M::key(before[i]) == id {
                M::apply(before[i], input)
            } else {
                before[i]
            },
    ensures
        distinct_keys::<M>(after),
        lookup::<M>(after, id) == match lookup::<M>(before, id) {
            Some(record) => Some(M::apply(record, input)),
            None => None,
        },
        same_elsewhere::<M>(before, after, id),
{
    assert forall|i: int| 0 <= i < before.len() implies M::key(#[trigger] after[i]) == M::key(
        before[i],
    ) by {
        M::apply_is_stable(before[i], input);
    }
    lemma_same_keys::<M>(before, after);
    assert forall|other: int| #[trigger]
        lookup::<M>(after, other) == match lookup::<M>(before, other) {
            Some(record) => Some(
                if other == id {
                    M::apply(record, input)
                } else {
                    record
                },
            ),
            None => None,
        } by {
        if has_key::<M>(before, other) {
            let i = lemma_lookup_found::<M>(before, other);
            assert(M::key(after[i]) == other);
            lemma_lookup_at::<M>(after, i);
        }
    }
}

/// A filter that every record passes keeps the sequence as it is.
proof fn lemma_filter_keeps_all<A>(records: Seq<A>, keep: spec_fn(A) -> bool)
    requires
        forall|i: int| 0 <= i < records.len() ==> keep(#[trigger] records[i]),
    ensures
        records.filter(keep) == records,
    decreases records.len(),
{
    reveal(Seq::filter);
    if records.len() > 0 {
        let front = records.drop_last();
        assert forall|i: int| 0 <= i < front.len() implies keep(#[trigger] front[i]) by {
            assert(front[i] == records[i]);
        }
        lemma_filter_keeps_all(front, keep);
        assert(front.push(records.last()) =~= records);
    }
}

/// Among distinct keys, taking out the record at the position of `id` is
/// keeping every record under another key.
pub proof fn lemma_remove_is_filter<M: Record>(records: Seq<M::V>, at: int)
    requires
        distinct_keys::<M>(records),
        0 <= at < records.len(),
    ensures
        records.remove(at) == records.filter(other_key::<M>(M::key(records[at]))),
{
    let keep = other_key::<M>(M::key(records[at]));
    let front = records.take(at);
    let middle = seq![records[at]];
    let back = records.skip(at + 1);
    assert(records =~= front + middle + back);
    assert forall|i: int| 0 <= i < front.len() implies keep(#[trigger] front[i]) by {
        assert(front[i] == records[i]);
    }
    assert forall|i: int| 0 <= i < back.len() implies keep(#[trigger] back[i]) by {
        assert(back[i] == records[at + 1 + i]);
    }
    lemma_filter_keeps_all(front, keep);
    lemma_filter_keeps_all(back, keep);
    assert(middle.filter(keep) =~= Seq::<M::V>::empty()) by {
        reveal_with_fuel(Seq::filter, 2);
        assert(middle.drop_last() =~= Seq::<M::V>::empty());
    }
    Seq::filter_distributes_over_add(front, middle, keep);
    Seq::filter_distributes_over_add(front + middle, back, keep);
    assert(records.remove(at) =~= front + back);
    assert(front + Seq::<M::V>::empty() + back =~= front + back);
}

/// Where no record has the key `id`, keeping every record under another key
/// changes nothing.
pub proof fn lemma_filter_absent<M: Record>(records: Seq<M::V>, id: int)
    requires
        !has_key::<M>(records, id),
    ensures
        records.filter(other_key::<M>(id)) == records,
{
    lemma_filter_keeps_all(records, other_key::<M>(id));
}

/// Taking out the record at a position: its key finds nothing, and every
/// other key finds what it found before.
pub proof fn lemma_remove<M: Record>(before: Seq<M::V>, at: int)
    requires
        distinct_keys::<M>(before),
        0 <= at < before.len(),
    ensures
        distinct_keys::<M>(before.remove(at)),
        lookup::<M>(before.remove(at), M::key(before[at])) is None,
        same_elsewhere::<M>(before, before.remove(at), M::key(before[at])),
{
    let after = before.remove(at);
    let id = M::key(before[at]);
    assert forall|i: int| 0 <= i < after.len() implies #[trigger] after[i] == before[if i < at {
        i
    } else {
        i + 1
    }] by {}
    assert forall|i: int, j: int| 0 <= i < j < after.len() implies M::key(
        #[trigger] after[i],
    ) != M::key(#[trigger] after[j]) by {
        let a = if i < at { i } else { i + 1 };
        let b = if j < at { j } else { j + 1 };
        assert(M::key(before[a]) != M::key(before[b]));
    }
    if has_key::<M>(after, id) {
        let i = lemma_lookup_found::<M>(after, id);
        let a = if i < at { i } else { i + 1 };
        assert(M::key(before[a]) == M::key(before[at]));
        if a < at {
            assert(M::key(before[a]) != M::key(before[at]));
        } else {
            assert(M::key(before[at]) != M::key(before[a]));
        }
    }
    assert forall|other: int| other != id implies #[trigger] lookup::<M>(after, other)
        == lookup::<M>(before, other) by {
        if has_key::<M>(before, other) {
            let i = lemma_lookup_found::<M>(before, other);
            let a = if i < at { i } else { i - 1 };
            assert(after[a] == before[i]);
            lemma_lookup_at::<M>(after, a);
        } else if has_key::<M>(after, other) {
            let j = lemma_lookup_found::<M>(after, other);
            let b = if j < at { j } else { j + 1 };
            assert(M::key(before[b]) == other);
        }
    }
}

} // verus!
