use vstd::prelude::*;

use crate::errors::{RenderError, RenderErrorV};

verus! {

// Font registration. The rim reads each resolved font file and hands
// the bytes in beside the path they came from (`None` where the read
// failed); the decisions - fail the whole request on the first
// unreadable file, and on the first file with no usable font face -
// are made here, against the font database the layout engine will use.

/// The layout engine's font database. Opaque to the verified core: it
/// is created, filled through the wrappers below, and handed on.
#[verifier::external_type_specification]
#[verifier::external_body]
pub struct ExFontContext(parley::FontContext);

/// Relies on `parley::FontContext::new`, which starts from the fonts
/// installed on the machine; nothing is claimed of the result.
#[verifier::external_body]
pub fn new_font_context() -> parley::FontContext {
    parley::FontContext::new()
}

/// How many usable font families a scan finds in the bytes. The
/// database's scanner reads the data alone, so the count is a function
/// of the bytes; the state of the database affects only the
/// identifiers the families are filed under, never the count.
pub uninterp spec fn usable_families_of(bytes: Seq<u8>) -> nat;

/// Relies on `fontique::Collection::register_fonts` (reached through
/// `FontContext::collection`, with no metadata override): registers
/// every font face found in the bytes and returns the families added,
/// here reduced to their count, `usable_families_of` the bytes.
#[verifier::external_body]
fn register_font_blob(ctx: &mut parley::FontContext, bytes: Vec<u8>) -> (n: usize)
    ensures
        n == usable_families_of(bytes@),
{
    ctx.collection.register_fonts(
        linebender_resource_handle::Blob::new(std::sync::Arc::new(bytes)),
        None,
    ).len()
}

/// The entry's file was readable and its bytes hold at least one
/// usable font family.
pub open spec fn load_ok(entry: (String, Option<Vec<u8>>)) -> bool {
    entry.1 matches Some(b) && usable_families_of(b@) > 0
}

/// Registration stops at entry `i` with failure `e`: everything before
/// it was fine, and `i` itself was unreadable (`ReadFont`) or held no
/// usable family (`RegisterFont`).
pub open spec fn registration_fails_at(
    loads: Seq<(String, Option<Vec<u8>>)>,
    i: int,
    e: RenderErrorV,
) -> bool {
    &&& 0 <= i < loads.len()
    &&& forall|j: int| 0 <= j < i ==> load_ok(#[trigger] loads[j])
    &&& match loads[i].1 {
        Option::None => e == RenderErrorV::ReadFont { path: loads[i].0@ },
        Option::Some(b) => usable_families_of(b@) == 0 && e == RenderErrorV::RegisterFont {
            path: loads[i].0@,
        },
    }
}

/// Register each loaded font file, in order. Succeeds exactly when
/// every file was readable and held a usable face; otherwise the first
/// offending entry fails the whole request, `ReadFont` for an
/// unreadable file, `RegisterFont` for one with no usable face - no
/// font is ever skipped silently.
pub fn register_fonts(ctx: &mut parley::FontContext, loads: Vec<(String, Option<Vec<u8>>)>) -> (r:
    Result<(), RenderError>)
    ensures
        r is Ok <==> (forall|i: int| 0 <= i < loads@.len() ==> load_ok(#[trigger] loads@[i])),
        r matches Err(e) ==> exists|i: int| registration_fails_at(loads@, i, e@),
{
    let mut remaining = loads;
    let ghost all = remaining@;
    let n0 = remaining.len();
    let mut i: usize = 0;
    while remaining.len() > 0
        invariant
            all == loads@,
            n0 == all.len(),
            i + remaining@.len() == all.len(),
            remaining@ =~= all.subrange(i as int, all.len() as int),
            forall|j: int| 0 <= j < i ==> load_ok(#[trigger] all[j]),
        decreases remaining@.len(),
    {
        let (path, maybe_bytes) = remaining.remove(0);
        proof {
            assert(all[i as int] == (path, maybe_bytes));
            assert(remaining@ =~= all.subrange(i as int + 1, all.len() as int));
        }
        let ghost gpath = path@;
        match maybe_bytes {
            Option::None => {
                let e = RenderError::ReadFont { path };
                proof {
                    assert(registration_fails_at(loads@, i as int, e@));
                    assert(!load_ok(loads@[i as int]));
                }
                return Err(e);
            },
            Option::Some(bytes) => {
                let ghost gbytes = bytes@;
                let added = register_font_blob(ctx, bytes);
                if added == 0 {
                    let e = RenderError::RegisterFont { path };
                    proof {
                        assert(loads@[i as int].1 matches Some(b) && b@ == gbytes);
                        assert(registration_fails_at(loads@, i as int, e@));
                        assert(!load_ok(loads@[i as int]));
                    }
                    return Err(e);
                }
                proof {
                    assert(loads@[i as int].1 matches Some(b) && b@ == gbytes);
                    assert(load_ok(loads@[i as int]));
                }
            },
        }
        i += 1;
    }
    Ok(())
}

} // verus!
