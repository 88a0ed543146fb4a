//! External references that Work caches snapshots of, their stable sort keys, and the
//! cursor that names a set of refreshed references.

use vstd::prelude::*;
use vstd::relations::{sorted_by, total_ordering};

use crate::text::{
    decimal, lex_le, lex_less, text_less, u64_to_decimal, lemma_lex_irreflexive,
    lemma_lex_less_transitive, lemma_lex_total,
};

verus! {

broadcast use vstd::seq_lib::group_to_multiset_ensures;

/// A reference to a record owned by an adjacent boundary. Source and evidence
/// references carry the numeric code of their kind.
#[derive(Clone, Debug)]
pub enum ExternalReferenceRef {
    Member(String),
    MethodDefinition(String),
    SourceWork { source_kind: u8, external_id: String },
    Evidence { evidence_kind: u8, external_id: String },
    ProcessTimebox(String),
}

/// The stable sort key of a reference: a class digit, then the identifying parts,
/// separated by `:`.
pub open spec fn sort_key(r: ExternalReferenceRef) -> Seq<char> {
    match r {
        ExternalReferenceRef::Member(m) => "0:"@ + m@,
        ExternalReferenceRef::MethodDefinition(d) => "1:"@ + d@,
        ExternalReferenceRef::SourceWork { source_kind, external_id } => "2:"@ + decimal(source_kind as nat) + ":"@ + external_id@,
        ExternalReferenceRef::Evidence { evidence_kind, external_id } => "3:"@ + decimal(evidence_kind as nat) + ":"@ + external_id@,
        ExternalReferenceRef::ProcessTimebox(t) => "4:"@ + t@,
    }
}

/// The sort key of a reference.
pub fn reference_sort_key(reference_ref: &ExternalReferenceRef) -> (r: String)
    ensures
        r@ == sort_key(*reference_ref),
{
    match reference_ref {
        ExternalReferenceRef::Member(member_ref) => {
            let mut key = String::from_str("0:");
            key.append(member_ref.as_str());
            key
        },
        ExternalReferenceRef::MethodDefinition(definition_ref) => {
            let mut key = String::from_str("1:");
            key.append(definition_ref.as_str());
            key
        },
        ExternalReferenceRef::SourceWork { source_kind, external_id } => {
            let mut key = String::from_str("2:");
            key.append(u64_to_decimal(*source_kind as u64).as_str());
            key.append(":");
            key.append(external_id.as_str());
            key
        },
        ExternalReferenceRef::Evidence { evidence_kind, external_id } => {
            let mut key = String::from_str("3:");
            key.append(u64_to_decimal(*evidence_kind as u64).as_str());
            key.append(":");
            key.append(external_id.as_str());
            key
        },
        ExternalReferenceRef::ProcessTimebox(timebox_ref) => {
            let mut key = String::from_str("4:");
            key.append(timebox_ref.as_str());
            key
        },
    }
}

/// The keys of a list of references, in order.
pub open spec fn keys_of(items: Seq<ExternalReferenceRef>) -> Seq<Seq<char>> {
    items.map_values(|r: ExternalReferenceRef| sort_key(r))
}

/// The references of `items` whose key does not occur earlier in the list: the first
/// occurrence of each key, in order.
pub open spec fn first_occurrences(items: Seq<ExternalReferenceRef>) -> Seq<ExternalReferenceRef>
    decreases items.len(),
{
    if items.len() == 0 {
        Seq::empty()
    } else {
        let kept = first_occurrences(items.drop_last());
        if keys_of(items.drop_last()).contains(sort_key(items.last())) {
            kept
        } else {
            kept.push(items.last())
        }
    }
}

proof fn lemma_push_contains(s: Seq<Seq<char>>, x: Seq<char>, k: Seq<char>)
    ensures
        s.push(x).contains(k) == (s.contains(k) || x == k),
{
    if s.contains(k) {
        let i = choose|i: int| 0 <= i < s.len() && s[i] == k;
        assert(s.push(x)[i] == k);
    }
    if x == k {
        assert(s.push(x)[s.len() as int] == k);
    }
    if s.push(x).contains(k) {
        let i = choose|i: int| 0 <= i < s.push(x).len() && s.push(x)[i] == k;
        if i < s.len() {
            assert(s[i] == k);
        }
    }
}

proof fn lemma_first_occurrence_keys(items: Seq<ExternalReferenceRef>)
    ensures
        forall|k: Seq<char>| keys_of(first_occurrences(items)).contains(k) <==> keys_of(items).contains(k),
        keys_of(first_occurrences(items)).no_duplicates(),
    decreases items.len(),
{
    if items.len() > 0 {
        let init = items.drop_last();
        lemma_first_occurrence_keys(init);
        assert(keys_of(items).drop_last() =~= keys_of(init));
        assert(keys_of(items) =~= keys_of(init).push(sort_key(items.last())));
        let kept = first_occurrences(init);
        let x = sort_key(items.last());
        if !keys_of(init).contains(x) {
            assert(keys_of(kept.push(items.last())) =~= keys_of(kept).push(x));
        }
        assert forall|k: Seq<char>| keys_of(first_occurrences(items)).contains(k) <==> keys_of(items).contains(k) by {
            lemma_push_contains(keys_of(init), x, k);
            lemma_push_contains(keys_of(kept), x, k);
        }
    }
}

/// Removes references whose key repeats an earlier one, keeping the first of each key
/// and the order of the rest.
pub fn stable_dedup_reference_refs(items: Vec<ExternalReferenceRef>) -> (r: Vec<ExternalReferenceRef>)
    ensures
        keys_of(r@) == keys_of(first_occurrences(items@)),
        keys_of(r@).no_duplicates(),
        forall|k: Seq<char>| keys_of(r@).contains(k) <==> keys_of(items@).contains(k),
{
    let mut seen: Vec<String> = Vec::new();
    let mut deduped: Vec<ExternalReferenceRef> = Vec::new();
    let mut i: usize = 0;
    while i < items.len()
        invariant
            i <= items@.len(),
            seen@.map_values(|s: String| s@) == keys_of(first_occurrences(items@.take(i as int))),
            keys_of(deduped@) == keys_of(first_occurrences(items@.take(i as int))),
        decreases items.len() - i,
    {
        let ghost prefix = items@.take(i as int);
        proof {
            assert(items@.take(i + 1).drop_last() =~= prefix);
            assert(items@.take(i + 1).last() == items@[i as int]);
            lemma_first_occurrence_keys(prefix);
        }
        let key = reference_sort_key(&items[i]);
        let mut found = false;
        let mut j: usize = 0;
        while j < seen.len()
            invariant
                j <= seen@.len(),
                found == exists|k: int| 0 <= k < j && seen@[k]@ == key@,
            decreases seen.len() - j,
        {
            if seen[j] == key {
                found = true;
            }
            j = j + 1;
        }
        proof {
            let sv = seen@.map_values(|s: String| s@);
            if found {
                let k = choose|k: int| 0 <= k < seen@.len() && seen@[k]@ == key@;
                assert(sv[k] == key@);
            } else {
                assert forall|k: int| 0 <= k < sv.len() implies sv[k] != key@ by {
                    assert(sv[k] == seen@[k]@);
                }
            }
            assert(keys_of(first_occurrences(prefix)).contains(key@) == found);
            assert(keys_of(prefix).contains(key@) == found);
        }
        if !found {
            seen.push(key);
            deduped.push(items[i].clone_ref());
            proof {
                assert(seen@.map_values(|s: String| s@) =~= keys_of(first_occurrences(prefix)).push(sort_key(items@[i as int])));
                assert(keys_of(deduped@) =~= keys_of(first_occurrences(prefix)).push(sort_key(items@[i as int])));
                assert(keys_of(first_occurrences(prefix).push(items@[i as int])) =~= keys_of(first_occurrences(prefix)).push(sort_key(items@[i as int])));
            }
        }
        i = i + 1;
    }
    proof {
        assert(items@.take(items@.len() as int) =~= items@);
        lemma_first_occurrence_keys(items@);
    }
    deduped
}

impl ExternalReferenceRef {
    /// A copy of the reference with the same sort key.
    pub fn clone_ref(&self) -> (r: ExternalReferenceRef)
        ensures
            sort_key(r) == sort_key(*self),
    {
        match self {
            ExternalReferenceRef::Member(m) => ExternalReferenceRef::Member(m.clone()),
            ExternalReferenceRef::MethodDefinition(d) => ExternalReferenceRef::MethodDefinition(d.clone()),
            ExternalReferenceRef::SourceWork { source_kind, external_id } => {
                ExternalReferenceRef::SourceWork { source_kind: *source_kind, external_id: external_id.clone() }
            },
            ExternalReferenceRef::Evidence { evidence_kind, external_id } => {
                ExternalReferenceRef::Evidence { evidence_kind: *evidence_kind, external_id: external_id.clone() }
            },
            ExternalReferenceRef::ProcessTimebox(t) => ExternalReferenceRef::ProcessTimebox(t.clone()),
        }
    }
}

// ---------------------------------------------------------------------------
// The cursor of a set of refreshed references.
// ---------------------------------------------------------------------------

/// `keys` joined with `sep` between neighbours.
pub open spec fn join(keys: Seq<Seq<char>>, sep: Seq<char>) -> Seq<char>
    decreases keys.len(),
{
    if keys.len() == 0 {
        Seq::empty()
    } else if keys.len() == 1 {
        keys[0]
    } else {
        join(keys.drop_last(), sep) + sep + keys.last()
    }
}

/// The order keys are sorted in.
pub open spec fn key_order() -> spec_fn(Seq<char>, Seq<char>) -> bool {
    |a: Seq<char>, b: Seq<char>| lex_le(a, b)
}

/// Key order is a total order.
pub proof fn lemma_key_order_total()
    ensures
        total_ordering(key_order()),
{
    assert forall|a: Seq<char>, b: Seq<char>, c: Seq<char>| #[trigger] key_order()(a, b) && #[trigger] key_order()(b, c) implies key_order()(a, c) by {
        if a != b && b != c {
            lemma_lex_less_transitive(a, b, c);
        }
    }
    assert forall|a: Seq<char>, b: Seq<char>| #[trigger] key_order()(a, b) && #[trigger] key_order()(b, a) implies a == b by {
        if a != b {
            lemma_lex_less_transitive(a, b, a);
            lemma_lex_irreflexive(a);
        }
    }
    assert forall|a: Seq<char>, b: Seq<char>| #[trigger] key_order()(a, b) || #[trigger] key_order()(b, a) by {
        lemma_lex_total(a, b);
    }
}

/// The cursor naming a set of references: their keys in sorted order, joined by `|`.
/// The cursor depends only on which references (with repetition) are named, not on
/// their order.
pub open spec fn is_cursor_of(cursor: Seq<char>, refs: Seq<ExternalReferenceRef>) -> bool {
    exists|sorted: Seq<Seq<char>>|
        #![trigger sorted_by(sorted, key_order())]
        sorted_by(sorted, key_order())
        && sorted.to_multiset() == keys_of(refs).to_multiset()
        && cursor == join(sorted, "|"@)
}

/// Two cursors of the same references, given in any order, are equal.
pub proof fn lemma_cursor_ignores_order(c1: Seq<char>, r1: Seq<ExternalReferenceRef>, c2: Seq<char>, r2: Seq<ExternalReferenceRef>)
    requires
        is_cursor_of(c1, r1),
        is_cursor_of(c2, r2),
        keys_of(r1).to_multiset() == keys_of(r2).to_multiset(),
    ensures
        c1 == c2,
{
    let s1 = choose|sorted: Seq<Seq<char>>| #![trigger sorted_by(sorted, key_order())] sorted_by(sorted, key_order()) && sorted.to_multiset() == keys_of(r1).to_multiset() && c1 == join(sorted, "|"@);
    let s2 = choose|sorted: Seq<Seq<char>>| #![trigger sorted_by(sorted, key_order())] sorted_by(sorted, key_order()) && sorted.to_multiset() == keys_of(r2).to_multiset() && c2 == join(sorted, "|"@);
    lemma_key_order_total();
    vstd::seq_lib::lemma_sorted_unique(s1, s2, key_order());
}

/// Inserts `key` into the sorted list `sorted` after every key that does not sort after it.
fn insert_sorted(sorted: &mut Vec<String>, key: String)
    requires
        sorted_by(old(sorted)@.map_values(|s: String| s@), key_order()),
    ensures
        sorted_by(final(sorted)@.map_values(|s: String| s@), key_order()),
        final(sorted)@.map_values(|s: String| s@).to_multiset() == old(sorted)@.map_values(|s: String| s@).to_multiset().insert(key@),
{
    let ghost before = sorted@.map_values(|s: String| s@);
    let mut pos: usize = 0;
    while pos < sorted.len() && !text_less(key.as_str(), sorted[pos].as_str())
        invariant
            pos <= sorted@.len(),
            before == sorted@.map_values(|s: String| s@),
            forall|k: int| 0 <= k < pos ==> !lex_less(key@, #[trigger] before[k]),
        decreases sorted.len() - pos,
    {
        proof {
            assert(before[pos as int] == sorted@[pos as int]@);
        }
        pos = pos + 1;
    }
    let ghost kv = key@;
    sorted.insert(pos, key);
    proof {
        let after = sorted@.map_values(|s: String| s@);
        assert(after =~= before.insert(pos as int, kv));
        vstd::seq_lib::to_multiset_insert(before, pos as int, kv);
        lemma_key_order_total();
        if pos < before.len() {
            assert(lex_less(kv, before[pos as int]));
        }
        assert forall|i: int, j: int| 0 <= i < j < after.len() implies #[trigger] key_order()(after[i], after[j]) by {
            if i < pos && j < pos {
                assert(key_order()(before[i], before[j]));
            } else if i < pos && j == pos {
                lemma_lex_total(kv, before[i]);
            } else if i < pos && j > pos {
                assert(key_order()(before[i], before[j - 1]));
            } else if i == pos {
                assert(lex_less(kv, before[pos as int]));
                if j - 1 > pos {
                    assert(key_order()(before[pos as int], before[j - 1]));
                    if before[pos as int] != before[j - 1] {
                        lemma_lex_less_transitive(kv, before[pos as int], before[j - 1]);
                    }
                }
                assert(lex_le(kv, before[j - 1]));
            } else {
                assert(key_order()(before[i - 1], before[j - 1]));
            }
        }
    }
}

/// Joins texts with a separator.
fn join_keys(keys: &Vec<String>, sep: &str) -> (r: String)
    ensures
        r@ == join(keys@.map_values(|s: String| s@), sep@),
{
    let ghost kv = keys@.map_values(|s: String| s@);
    let mut out = String::new();
    let mut i: usize = 0;
    while i < keys.len()
        invariant
            i <= keys@.len(),
            kv == keys@.map_values(|s: String| s@),
            out@ == join(kv.take(i as int), sep@),
        decreases keys.len() - i,
    {
        proof {
            assert(kv.take(i + 1).drop_last() =~= kv.take(i as int));
            assert(kv.take(i + 1).last() == keys@[i as int]@);
        }
        if i > 0 {
            out.append(sep);
        } else {
            proof {
                assert(kv.take(0) =~= Seq::<Seq<char>>::empty());
            }
        }
        out.append(keys[i].as_str());
        i = i + 1;
    }
    proof {
        assert(kv.take(keys@.len() as int) =~= kv);
    }
    out
}

/// The cursor naming a set of refreshed references.
pub fn current_cursor(reference_refs: &Vec<ExternalReferenceRef>) -> (r: String)
    ensures
        is_cursor_of(r@, reference_refs@),
{
    let mut sorted: Vec<String> = Vec::new();
    let mut i: usize = 0;
    proof {
        assert(sorted@.map_values(|s: String| s@) =~= Seq::<Seq<char>>::empty());
        assert(keys_of(reference_refs@.take(0)) =~= Seq::<Seq<char>>::empty());
    }
    while i < reference_refs.len()
        invariant
            i <= reference_refs@.len(),
            sorted_by(sorted@.map_values(|s: String| s@), key_order()),
            sorted@.map_values(|s: String| s@).to_multiset() == keys_of(reference_refs@.take(i as int)).to_multiset(),
        decreases reference_refs.len() - i,
    {
        let key = reference_sort_key(&reference_refs[i]);
        proof {
            assert(keys_of(reference_refs@.take(i + 1)) =~= keys_of(reference_refs@.take(i as int)).push(key@));
        }
        insert_sorted(&mut sorted, key);
        i = i + 1;
    }
    let cursor = join_keys(&sorted, "|");
    proof {
        assert(reference_refs@.take(reference_refs@.len() as int) =~= reference_refs@);
        let sv = sorted@.map_values(|s: String| s@);
        assert(sorted_by(sv, key_order()));
    }
    cursor
}

} // verus!
