use vstd::prelude::*;

verus! {

// The rendering context handed to the template engine is an arbitrary
// JSON-like value: the request's `data` field merged over the request
// dimensions. It is modelled as this crate's own datatype; the rim
// converts from its wire representation at the boundary. A number is
// carried as its JSON source text, so that a value round-trips through
// the context without this crate having to interpret it.

/// A JSON-like value, as the verified core holds it.
#[derive(Debug)]
pub enum JsonValue {
    Null,
    Bool(bool),
    /// A number, as JSON text (for instance `42` or `-1.5e3`).
    Num(String),
    Str(String),
    Arr(Vec<JsonValue>),
    Obj(Vec<(String, JsonValue)>),
}

/// The mathematical shape of a [`JsonValue`]: strings become sequences
/// of characters, vectors become sequences.
pub enum JsonVal {
    Null,
    Bool(bool),
    Num(Seq<char>),
    Str(Seq<char>),
    Arr(Seq<JsonVal>),
    Obj(Seq<(Seq<char>, JsonVal)>),
}

/// The shape of one value, defined by structural recursion.
pub open spec fn jval(v: JsonValue) -> JsonVal
    decreases v,
{
    match v {
        JsonValue::Null => JsonVal::Null,
        JsonValue::Bool(b) => JsonVal::Bool(b),
        JsonValue::Num(s) => JsonVal::Num(s@),
        JsonValue::Str(s) => JsonVal::Str(s@),
        JsonValue::Arr(items) => JsonVal::Arr(view_items(items@)),
        JsonValue::Obj(entries) => JsonVal::Obj(view_entries(entries@)),
    }
}

pub open spec fn view_items(items: Seq<JsonValue>) -> Seq<JsonVal>
    decreases items,
{
    if items.len() == 0 {
        Seq::empty()
    } else {
        seq![jval(items[0])] + view_items(items.drop_first())
    }
}

pub open spec fn view_entries(entries: Seq<(String, JsonValue)>) -> Seq<(Seq<char>, JsonVal)>
    decreases entries,
{
    if entries.len() == 0 {
        Seq::empty()
    } else {
        seq![(entries[0].0@, jval(entries[0].1))] + view_entries(entries.drop_first())
    }
}

impl View for JsonValue {
    type V = JsonVal;

    open spec fn view(&self) -> JsonVal {
        jval(*self)
    }
}

pub proof fn lemma_view_items_pointwise(items: Seq<JsonValue>)
    ensures
        view_items(items).len() == items.len(),
        forall|i: int| 0 <= i < items.len() ==> view_items(items)[i] == items[i]@,
    decreases items,
{
    if items.len() > 0 {
        lemma_view_items_pointwise(items.drop_first());
        assert forall|i: int| 0 <= i < items.len() implies view_items(items)[i] == items[i]@ by {
            if i > 0 {
                assert(view_items(items)[i] == view_items(items.drop_first())[i - 1]);
                assert(items.drop_first()[i - 1] == items[i]);
            }
        }
    }
}

pub proof fn lemma_view_entries_pointwise(entries: Seq<(String, JsonValue)>)
    ensures
        view_entries(entries).len() == entries.len(),
        forall|i: int|
            0 <= i < entries.len() ==> view_entries(entries)[i] == (
                entries[i].0@,
                entries[i].1@,
            ),
    decreases entries,
{
    if entries.len() > 0 {
        lemma_view_entries_pointwise(entries.drop_first());
        assert forall|i: int|
            0 <= i < entries.len() implies view_entries(entries)[i] == (
            entries[i].0@,
            entries[i].1@,
        ) by {
            if i > 0 {
                assert(view_entries(entries)[i] == view_entries(entries.drop_first())[i - 1]);
                assert(entries.drop_first()[i - 1] == entries[i]);
            }
        }
    }
}

/// The mapping an object's entry list denotes. A later entry for the
/// same key shadows an earlier one, as it does for the JSON parsers
/// this crate interoperates with.
pub open spec fn entries_map(entries: Seq<(Seq<char>, JsonVal)>) -> Map<Seq<char>, JsonVal>
    decreases entries,
{
    if entries.len() == 0 {
        Map::empty()
    } else {
        entries_map(entries.drop_last()).insert(entries.last().0, entries.last().1)
    }
}

/// No two entries share a key.
pub open spec fn entries_unique(entries: Seq<(Seq<char>, JsonVal)>) -> bool {
    forall|i: int, j: int|
        0 <= i < j < entries.len() ==> (#[trigger] entries[i]).0 != (#[trigger] entries[j]).0
}

pub proof fn lemma_entries_map_domain(entries: Seq<(Seq<char>, JsonVal)>)
    ensures
        forall|k: Seq<char>|
            #[trigger] entries_map(entries).contains_key(k) <==> exists|i: int|
                0 <= i < entries.len() && (#[trigger] entries[i]).0 == k,
    decreases entries,
{
    if entries.len() > 0 {
        lemma_entries_map_domain(entries.drop_last());
        assert forall|k: Seq<char>|
            entries_map(entries).contains_key(k) implies exists|i: int|
            0 <= i < entries.len() && (#[trigger] entries[i]).0 == k by {
            if entries.last().0 != k {
                assert(entries_map(entries) == entries_map(entries.drop_last()).insert(
                    entries.last().0,
                    entries.last().1,
                ));
                assert(entries_map(entries.drop_last()).contains_key(k));
                let i = choose|i: int|
                    0 <= i < entries.drop_last().len() && (#[trigger] entries.drop_last()[i]).0
                        == k;
                assert(entries.drop_last()[i] == entries[i]);
                assert(entries[i].0 == k);
            } else {
                assert(entries[entries.len() - 1].0 == k);
            }
        }
        assert forall|k: Seq<char>|
            (exists|i: int|
                0 <= i < entries.len() && (#[trigger] entries[i]).0
                    == k) implies entries_map(entries).contains_key(k) by {
            let i = choose|i: int| 0 <= i < entries.len() && (#[trigger] entries[i]).0 == k;
            if i < entries.len() - 1 {
                assert(entries.drop_last()[i].0 == k);
                assert(entries_map(entries.drop_last()).contains_key(k));
            }
        }
    }
}

/// With unique keys, replacing the entry that holds a key denotes the
/// same mapping as inserting that key.
pub proof fn lemma_entries_map_update(
    entries: Seq<(Seq<char>, JsonVal)>,
    i: int,
    k: Seq<char>,
    v: JsonVal,
)
    requires
        entries_unique(entries),
        0 <= i < entries.len(),
        entries[i].0 == k,
    ensures
        entries_map(entries.update(i, (k, v))) == entries_map(entries).insert(k, v),
        entries_unique(entries.update(i, (k, v))),
    decreases entries,
{
    let updated = entries.update(i, (k, v));
    if i == entries.len() - 1 {
        assert(updated.drop_last() =~= entries.drop_last());
        assert(entries_map(updated) =~= entries_map(entries).insert(k, v));
    } else {
        assert(updated.drop_last() =~= entries.drop_last().update(i, (k, v)));
        lemma_entries_map_update(entries.drop_last(), i, k, v);
        assert(entries.last().0 != k);
        assert(entries_map(updated) =~= entries_map(entries).insert(k, v));
    }
}

/// Insertion into an entry list: replace the first entry that holds
/// the key, keeping its position, or append the pair if the key is new.
pub open spec fn spec_insert_entry(
    entries: Seq<(Seq<char>, JsonVal)>,
    k: Seq<char>,
    v: JsonVal,
) -> Seq<(Seq<char>, JsonVal)>
    decreases entries,
{
    if entries.len() == 0 {
        seq![(k, v)]
    } else if entries[0].0 == k {
        seq![(k, v)] + entries.drop_first()
    } else {
        seq![entries[0]] + spec_insert_entry(entries.drop_first(), k, v)
    }
}

proof fn lemma_insert_entry_found(
    entries: Seq<(Seq<char>, JsonVal)>,
    i: int,
    k: Seq<char>,
    v: JsonVal,
)
    requires
        0 <= i < entries.len(),
        entries[i].0 == k,
        forall|j: int| 0 <= j < i ==> entries[j].0 != k,
    ensures
        spec_insert_entry(entries, k, v) == entries.update(i, (k, v)),
    decreases entries,
{
    if i == 0 {
        assert(spec_insert_entry(entries, k, v) =~= entries.update(0, (k, v)));
    } else {
        lemma_insert_entry_found(entries.drop_first(), i - 1, k, v);
        assert(entries.drop_first().update(i - 1, (k, v)) =~= entries.update(
            i,
            (k, v),
        ).drop_first());
        assert(spec_insert_entry(entries, k, v) =~= entries.update(i, (k, v)));
    }
}

proof fn lemma_insert_entry_missing(entries: Seq<(Seq<char>, JsonVal)>, k: Seq<char>, v: JsonVal)
    requires
        forall|j: int| 0 <= j < entries.len() ==> entries[j].0 != k,
    ensures
        spec_insert_entry(entries, k, v) == entries.push((k, v)),
    decreases entries,
{
    if entries.len() == 0 {
        assert(spec_insert_entry(entries, k, v) =~= entries.push((k, v)));
    } else {
        lemma_insert_entry_missing(entries.drop_first(), k, v);
        assert(entries.drop_first().push((k, v)) =~= entries.push((k, v)).drop_first());
        assert(spec_insert_entry(entries, k, v) =~= entries.push((k, v)));
    }
}

/// Replace the value the object holds for `key`, or append the pair if
/// the key is new, keeping the keys unique.
pub fn obj_insert(entries: &mut Vec<(String, JsonValue)>, key: String, value: JsonValue)
    requires
        entries_unique(view_entries(old(entries)@)),
    ensures
        entries_unique(view_entries(final(entries)@)),
        view_entries(final(entries)@) == spec_insert_entry(
            view_entries(old(entries)@),
            key@,
            value@,
        ),
        entries_map(view_entries(final(entries)@)) == entries_map(
            view_entries(old(entries)@),
        ).insert(key@, value@),
{
    proof {
        lemma_view_entries_pointwise(entries@);
    }
    let ghost orig = entries@;
    let mut i: usize = 0;
    while i < entries.len()
        invariant
            entries@ == orig,
            orig == old(entries)@,
            0 <= i <= orig.len(),
            entries_unique(view_entries(orig)),
            forall|j: int| 0 <= j < i ==> view_entries(orig)[j].0 != key@,
        decreases orig.len() - i,
    {
        proof {
            lemma_view_entries_pointwise(orig);
        }
        if entries[i].0 == key {
            entries.set(i, (key, value));
            proof {
                lemma_view_entries_pointwise(entries@);
                assert(view_entries(entries@) =~= view_entries(orig).update(
                    i as int,
                    (key@, value@),
                ));
                lemma_entries_map_update(view_entries(orig), i as int, key@, value@);
                lemma_insert_entry_found(view_entries(orig), i as int, key@, value@);
            }
            return ;
        }
        i += 1;
    }
    entries.push((key, value));
    proof {
        lemma_view_entries_pointwise(entries@);
        assert(view_entries(entries@).drop_last() =~= view_entries(orig));
        assert(view_entries(entries@).last() == (key@, value@));
        lemma_insert_entry_missing(view_entries(orig), key@, value@);
        assert(view_entries(entries@) =~= view_entries(orig).push((key@, value@)));
        lemma_entries_map_domain(view_entries(orig));
        assert(entries_map(view_entries(entries@)) == entries_map(view_entries(orig)).insert(
            key@,
            value@,
        ));
        assert forall|a: int, b: int|
            0 <= a < b < view_entries(entries@).len() implies (#[trigger] view_entries(
            entries@,
        )[a]).0 != (#[trigger] view_entries(entries@)[b]).0 by {
            let now = view_entries(entries@);
            assert(now[a] == now.drop_last()[a]);
            assert(now[a] == view_entries(orig)[a]);
            if b == now.len() - 1 {
                assert(view_entries(orig)[a].0 != key@);
            } else {
                assert(now[b] == view_entries(orig)[b]);
            }
        }
    }
}

} // verus!
