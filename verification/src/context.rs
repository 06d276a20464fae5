use vstd::prelude::*;
use vstd::string::*;

use crate::jsonval::{
    entries_map, entries_unique, lemma_view_entries_pointwise, obj_insert, spec_insert_entry,
    view_entries, JsonVal, JsonValue,
};
use crate::numtext::{dec_str, u32_to_string};

verus! {

// The template-rendering context: the request's dimensions, overlaid
// with whatever mapping the caller supplied. A caller-supplied key
// always wins over the dimension defaults; caller data that is not a
// mapping goes in whole under the key "data".

/// The two entries every context starts from.
pub open spec fn base_map(width: nat, height: nat) -> Map<Seq<char>, JsonVal> {
    map!["width"@ => JsonVal::Num(dec_str(width)), "height"@ => JsonVal::Num(dec_str(height))]
}

/// The mapping the finished context denotes.
pub open spec fn merged_map(width: nat, height: nat, data: Option<JsonVal>) -> Map<
    Seq<char>,
    JsonVal,
> {
    match data {
        Option::None => base_map(width, height),
        Option::Some(JsonVal::Obj(d)) => base_map(width, height).union_prefer_right(
            entries_map(d),
        ),
        Option::Some(other) => base_map(width, height).insert("data"@, other),
    }
}

/// The two entries every context starts from, in order.
pub open spec fn base_entries(width: nat, height: nat) -> Seq<(Seq<char>, JsonVal)> {
    seq![
        ("width"@, JsonVal::Num(dec_str(width))),
        ("height"@, JsonVal::Num(dec_str(height))),
    ]
}

/// Fold a list of caller entries into the context, first to last.
pub open spec fn insert_all(
    s: Seq<(Seq<char>, JsonVal)>,
    d: Seq<(Seq<char>, JsonVal)>,
) -> Seq<(Seq<char>, JsonVal)>
    decreases d,
{
    if d.len() == 0 {
        s
    } else {
        insert_all(spec_insert_entry(s, d[0].0, d[0].1), d.drop_first())
    }
}

proof fn lemma_insert_all_snoc(
    s: Seq<(Seq<char>, JsonVal)>,
    d: Seq<(Seq<char>, JsonVal)>,
    e: (Seq<char>, JsonVal),
)
    ensures
        insert_all(s, d.push(e)) == spec_insert_entry(insert_all(s, d), e.0, e.1),
    decreases d,
{
    if d.len() == 0 {
        assert(d.push(e)[0] == e);
        assert(d.push(e).drop_first() =~= Seq::<(Seq<char>, JsonVal)>::empty());
        assert(insert_all(s, d.push(e)) == insert_all(
            spec_insert_entry(s, e.0, e.1),
            Seq::<(Seq<char>, JsonVal)>::empty(),
        ));
        assert(insert_all(spec_insert_entry(s, e.0, e.1), Seq::<(Seq<char>, JsonVal)>::empty())
            == spec_insert_entry(s, e.0, e.1));
        assert(insert_all(s, d) == s);
    } else {
        assert(d.push(e)[0] == d[0]);
        assert(d.push(e).drop_first() =~= d.drop_first().push(e));
        assert(insert_all(s, d.push(e)) == insert_all(
            spec_insert_entry(s, d[0].0, d[0].1),
            d.drop_first().push(e),
        ));
        lemma_insert_all_snoc(spec_insert_entry(s, d[0].0, d[0].1), d.drop_first(), e);
        assert(insert_all(s, d) == insert_all(
            spec_insert_entry(s, d[0].0, d[0].1),
            d.drop_first(),
        ));
    }
}

/// The exact entry list of the finished context, in order: the two
/// dimension entries, then every caller entry folded in.
pub open spec fn context_entries(width: nat, height: nat, data: Option<JsonVal>) -> Seq<
    (Seq<char>, JsonVal),
> {
    match data {
        Option::None => base_entries(width, height),
        Option::Some(JsonVal::Obj(d)) => insert_all(base_entries(width, height), d),
        Option::Some(other) => spec_insert_entry(base_entries(width, height), "data"@, other),
    }
}

/// The shape of the caller's `data` field, if it was supplied.
pub open spec fn data_view(data: Option<JsonValue>) -> Option<JsonVal> {
    match data {
        Option::Some(d) => Option::Some(d@),
        Option::None => Option::None,
    }
}

/// Build the rendering context for one request. Never fails; every
/// caller-supplied key overwrites a default of the same name.
pub fn build_context(width: u32, height: u32, data: Option<JsonValue>) -> (r: JsonValue)
    ensures
        r@ matches JsonVal::Obj(es) && entries_unique(es) && es == context_entries(
            width as nat,
            height as nat,
            data_view(data),
        ) && entries_map(es) == merged_map(width as nat, height as nat, data_view(data)),
{
    let mut entries: Vec<(String, JsonValue)> = Vec::new();
    proof {
        assert(view_entries(entries@) =~= Seq::<(Seq<char>, JsonVal)>::empty());
    }
    let ghost wv = JsonVal::Num(dec_str(width as nat));
    let ghost hv = JsonVal::Num(dec_str(height as nat));
    let wnum = JsonValue::Num(u32_to_string(width));
    proof {
        assert(wnum@ == wv);
    }
    obj_insert(&mut entries, String::from_str("width"), wnum);
    proof {
        assert(view_entries(entries@) =~= seq![("width"@, wv)]);
    }
    let hnum = JsonValue::Num(u32_to_string(height));
    proof {
        assert(hnum@ == hv);
    }
    obj_insert(&mut entries, String::from_str("height"), hnum);
    proof {
        reveal_strlit("width");
        reveal_strlit("height");
        assert("width"@.len() == 5);
        assert("height"@.len() == 6);
        assert("width"@ != "height"@);
        assert(seq![("width"@, wv)].drop_first() =~= Seq::<(Seq<char>, JsonVal)>::empty());
        reveal_with_fuel(spec_insert_entry, 3);
        assert(spec_insert_entry(seq![("width"@, wv)], "height"@, hv) =~= seq![
            ("width"@, wv),
            ("height"@, hv),
        ]);
        assert(view_entries(entries@) =~= base_entries(width as nat, height as nat));
        assert(entries_map(view_entries(entries@)) =~= base_map(width as nat, height as nat));
    }
    match data {
        Option::None => {},
        Option::Some(JsonValue::Obj(mut d)) => {
            let ghost d_orig = d@;
            let ghost dv = view_entries(d@);
            proof {
                lemma_view_entries_pointwise(d@);
            }
            let ghost base = entries_map(view_entries(entries@));
            let ghost base_es = view_entries(entries@);
            let n0 = d.len();
            proof {
                assert(dv.subrange(0, 0) =~= Seq::<(Seq<char>, JsonVal)>::empty());
                assert(base.union_prefer_right(entries_map(dv.subrange(0, 0))) =~= base);
                assert(insert_all(base_es, dv.subrange(0, 0)) == base_es);
                assert(d_orig.subrange(0, d_orig.len() as int) =~= d_orig);
            }
            let mut k: usize = 0;
            while d.len() > 0
                invariant
                    entries_unique(view_entries(entries@)),
                    0 <= k <= n0,
                    n0 == d_orig.len(),
                    dv.len() == d_orig.len(),
                    forall|j: int| 0 <= j < d_orig.len() ==> dv[j] == (
                        d_orig[j].0@,
                        d_orig[j].1@,
                    ),
                    d@ =~= d_orig.subrange(k as int, d_orig.len() as int),
                    entries_map(view_entries(entries@)) == base.union_prefer_right(
                        entries_map(dv.subrange(0, k as int)),
                    ),
                    view_entries(entries@) == insert_all(base_es, dv.subrange(0, k as int)),
                decreases d@.len(),
            {
                let (key, value) = d.remove(0);
                let ghost gk = key@;
                let ghost gv = value@;
                proof {
                    assert(gk == d_orig[k as int].0@ && gv == d_orig[k as int].1@);
                    assert(dv[k as int] == (gk, gv));
                    assert(d@ =~= d_orig.subrange(k as int + 1, d_orig.len() as int));
                }
                obj_insert(&mut entries, key, value);
                proof {
                    assert(dv.subrange(0, k as int + 1).drop_last() =~= dv.subrange(0, k as int));
                    assert(dv.subrange(0, k as int + 1).last() == (gk, gv));
                    assert(entries_map(dv.subrange(0, k as int + 1)) == entries_map(
                        dv.subrange(0, k as int),
                    ).insert(gk, gv));
                    assert(base.union_prefer_right(
                        entries_map(dv.subrange(0, k as int)),
                    ).insert(gk, gv) =~= base.union_prefer_right(
                        entries_map(dv.subrange(0, k as int + 1)),
                    ));
                    lemma_insert_all_snoc(base_es, dv.subrange(0, k as int), (gk, gv));
                    assert(dv.subrange(0, k as int).push((gk, gv)) =~= dv.subrange(
                        0,
                        k as int + 1,
                    ));
                }
                k += 1;
            }
            proof {
                assert(dv.subrange(0, k as int) =~= dv);
            }
        },
        Option::Some(other) => {
            obj_insert(&mut entries, String::from_str("data"), other);
        },
    }
    JsonValue::Obj(entries)
}

/// A key the caller supplies always overrides the dimension defaults:
/// whatever mapping the data object holds for a key, the finished
/// context holds the same value for it.
pub proof fn lemma_context_precedence(
    width: nat,
    height: nat,
    d: Seq<(Seq<char>, JsonVal)>,
    k: Seq<char>,
)
    requires
        entries_map(d).contains_key(k),
    ensures
        merged_map(width, height, Option::Some(JsonVal::Obj(d))).contains_key(k),
        merged_map(width, height, Option::Some(JsonVal::Obj(d)))[k] == entries_map(d)[k],
{
}

} // verus!
