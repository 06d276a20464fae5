use vstd::prelude::*;
use vstd::string::*;

use crate::config::AppState;
use crate::errors::{ApiError, ApiErrorV};

verus! {

// Font resolution. A request may name font files; each name is resolved
// against the configured fonts directory and must stay inside it. The
// layered order is deliberate and fixed:
//
//   1. a name holding a path separator is refused before any
//      filesystem access;
//   2. the joined path is canonicalized against the real filesystem
//      (resolving `..` and symlinks); a name that does not resolve is
//      a validation failure;
//   3. the canonical path must still lie under the fonts directory -
//      this is the authoritative sandbox check, made after
//      canonicalization, never before it.
//
// Canonicalization depends on the state of the disk, so nothing is
// assumed about its result; whatever path comes back, step 3 is a
// verified check on that very path.

/// The name holds a forward or backward slash somewhere.
pub open spec fn has_separator(name: Seq<char>) -> bool {
    exists|i: int| 0 <= i < name.len() && (name[i] == '/' || name[i] == '\\')
}

/// Scan a name for path separators.
pub fn name_has_separator(name: &str) -> (r: bool)
    ensures
        r == has_separator(name@),
{
    let n = name.unicode_len();
    let mut i: usize = 0;
    while i < n
        invariant
            n == name@.len(),
            0 <= i <= n,
            forall|j: int| 0 <= j < i ==> !(name@[j] == '/' || name@[j] == '\\'),
        decreases n - i,
    {
        let c = name.get_char(i);
        if c == '/' || c == '\\' {
            return true;
        }
        i += 1;
    }
    false
}

/// The directory, as a path prefix: itself if it already ends with a
/// slash (the filesystem root does), else with one slash appended.
pub open spec fn dir_prefix(dir: Seq<char>) -> Seq<char> {
    if dir.len() > 0 && dir.last() == '/' {
        dir
    } else {
        dir + "/"@
    }
}

/// `path` lies within `dir`: it is the directory itself, or continues
/// it immediately below a path separator. For canonical paths (no `..`
/// or `.` segments, no trailing slash except on the root) this is
/// exactly component-wise path containment. The rule is written for
/// '/'-separated paths as POSIX canonicalization produces them; on a
/// platform whose canonical paths use backslashes it refuses every
/// resolved font - the sandbox fails closed rather than open.
pub open spec fn path_within(path: Seq<char>, dir: Seq<char>) -> bool {
    ||| path == dir
    ||| (path.len() > dir_prefix(dir).len() && path.subrange(0, dir_prefix(dir).len() as int)
        == dir_prefix(dir))
}

/// Check that `path` lies within `dir`.
pub fn is_path_within(path: &String, dir: &String) -> (r: bool)
    ensures
        r == path_within(path@, dir@),
{
    if path.eq(dir) {
        return true;
    }
    let dn = dir.as_str().unicode_len();
    let pn = path.as_str().unicode_len();
    let ends_in_slash = if dn > 0 {
        dir.as_str().get_char(dn - 1) == '/'
    } else {
        false
    };
    let prefix_len: usize = if ends_in_slash {
        dn
    } else {
        if dn == usize::MAX {
            // A directory name a slash cannot be appended to cannot
            // prefix any longer path either.
            proof {
                reveal_strlit("/");
                assert(dir_prefix(dir@).len() > usize::MAX);
            }
            return false;
        }
        dn + 1
    };
    proof {
        if dir@.len() > 0 && dir@.last() == '/' {
            assert(dir_prefix(dir@) == dir@);
        } else {
            reveal_strlit("/");
            assert(dir_prefix(dir@).len() == dir@.len() + 1);
        }
    }
    if pn <= prefix_len {
        return false;
    }
    let mut i: usize = 0;
    while i < prefix_len
        invariant
            pn == path@.len(),
            dn == dir@.len(),
            prefix_len == dir_prefix(dir@).len(),
            pn > prefix_len,
            0 <= i <= prefix_len,
            forall|j: int| 0 <= j < i ==> path@[j] == dir_prefix(dir@)[j],
        decreases prefix_len - i,
    {
        let pc = path.as_str().get_char(i);
        let dc = if i < dn {
            dir.as_str().get_char(i)
        } else {
            '/'
        };
        proof {
            if dir@.len() > 0 && dir@.last() == '/' {
                assert(dir_prefix(dir@)[i as int] == dir@[i as int]);
            } else {
                reveal_strlit("/");
                if i < dn {
                    assert(dir_prefix(dir@)[i as int] == dir@[i as int]);
                } else {
                    assert(dir_prefix(dir@)[i as int] == "/"@[0]);
                    assert("/"@[0] == '/');
                }
            }
        }
        if pc != dc {
            return false;
        }
        i += 1;
    }
    proof {
        assert(path@.subrange(0, prefix_len as int) =~= dir_prefix(dir@));
    }
    true
}

/// Relies on `std::path::Path::canonicalize`: resolves `..`, `.` and
/// symlinks against the real filesystem, failing if the path does not
/// exist. The result depends on the state of the disk, so nothing is
/// claimed of it; every caller checks what comes back. A path that is
/// not valid unicode is reported as a failure, with the failure text
/// from the operating system otherwise.
#[verifier::external_body]
fn canonicalize_path(path: &String) -> (r: Result<String, String>)
{
    match std::path::Path::new(path.as_str()).canonicalize() {
        Ok(p) => match p.into_os_string().into_string() {
            Ok(s) => Ok(s),
            Err(_) => Err(String::from("path is not valid unicode")),
        },
        Err(e) => Err(e.to_string()),
    }
}

/// The message for a name that did not resolve on disk.
pub open spec fn font_not_found_message(name: Seq<char>, detail: Seq<char>) -> Seq<char> {
    "font not found: "@ + name + " ("@ + detail + ")"@
}

/// Join one font name onto the fonts directory.
fn join_font_path(fonts_dir: &String, name: &String) -> (r: String)
    ensures
        r@ == fonts_dir@ + "/"@ + name@,
{
    fonts_dir.clone().concat("/").concat(name.as_str())
}

/// Accept a canonicalized candidate path only if it still lies within
/// the fonts directory; everything outside the sandbox is refused.
pub fn accept_canonical(fonts_dir: &String, canonical: String) -> (r: Result<String, ApiError>)
    ensures
        path_within(canonical@, fonts_dir@) ==> (r matches Ok(p) && p@ == canonical@),
        !path_within(canonical@, fonts_dir@) ==> (r matches Err(e) && e@
            == ApiErrorV::FontsNotAllowed),
{
    if is_path_within(&canonical, fonts_dir) {
        Ok(canonical)
    } else {
        Err(ApiError::FontsNotAllowed)
    }
}

/// Resolve one requested font name. A name with a separator is refused
/// before any filesystem access; a name that does not resolve on disk
/// is a validation failure; a resolved path outside the fonts
/// directory is refused. Whatever the disk held, a returned path lies
/// within the fonts directory.
pub fn resolve_font_name(fonts_dir: &String, name: &String) -> (r: Result<String, ApiError>)
    ensures
        has_separator(name@) ==> (r matches Err(e) && e@ == ApiErrorV::FontsNotAllowed),
        r matches Ok(p) ==> !has_separator(name@) && path_within(p@, fonts_dir@),
        r matches Err(e) ==> (e@ matches ApiErrorV::FontsNotAllowed || (e@ matches
            ApiErrorV::Validation(m) && exists|detail: Seq<char>|
            m == font_not_found_message(name@, detail))),
{
    if name_has_separator(name.as_str()) {
        return Err(ApiError::FontsNotAllowed);
    }
    let candidate = join_font_path(fonts_dir, name);
    match canonicalize_path(&candidate) {
        Ok(canonical) => accept_canonical(fonts_dir, canonical),
        Err(detail) => {
            let msg = String::from_str("font not found: ").concat(name.as_str()).concat(
                " (",
            ).concat(detail.as_str()).concat(")");
            proof {
                assert(msg@ == font_not_found_message(name@, detail@));
            }
            Err(ApiError::validation(msg))
        },
    }
}

/// Resolve every requested name, in order, stopping at the first
/// failure; no partial font list is ever returned. On success each
/// returned path lies within the fonts directory.
pub fn resolve_font_paths(fonts_dir: &String, requested: &Vec<String>) -> (r: Result<
    Vec<String>,
    ApiError,
>)
    ensures
        r matches Ok(paths) ==> paths@.len() == requested@.len() && forall|i: int|
            0 <= i < requested@.len() ==> !has_separator(requested@[i]@) && path_within(
                #[trigger] paths@[i]@,
                fonts_dir@,
            ),
        (exists|i: int| 0 <= i < requested@.len() && has_separator(#[trigger] requested@[i]@))
            ==> r is Err,
        requested@.len() > 0 && has_separator(requested@[0]@) ==> (r matches Err(e) && e@
            == ApiErrorV::FontsNotAllowed),
        r matches Err(e) ==> (e@ matches ApiErrorV::FontsNotAllowed || (e@ matches
            ApiErrorV::Validation(m) && exists|i: int|
            0 <= i < requested@.len() && !has_separator(#[trigger] requested@[i]@) && (
            exists|detail: Seq<char>| m == font_not_found_message(requested@[i]@, detail)))),
{
    let mut resolved: Vec<String> = Vec::new();
    let mut i: usize = 0;
    while i < requested.len()
        invariant
            0 <= i <= requested@.len(),
            resolved@.len() == i,
            forall|j: int| 0 <= j < i ==> !has_separator(#[trigger] requested@[j]@),
            forall|j: int|
                0 <= j < i ==> path_within(#[trigger] resolved@[j]@, fonts_dir@),
        decreases requested@.len() - i,
    {
        match resolve_font_name(fonts_dir, &requested[i]) {
            Ok(path) => {
                resolved.push(path);
            },
            Err(e) => {
                return Err(e);
            },
        }
        i += 1;
    }
    Ok(resolved)
}

/// Resolve the request's font list against the server state. No
/// requested fonts means no lookup and no error; requested fonts on a
/// server with no fonts directory are refused outright.
pub fn resolve_requested_fonts(state: &AppState, requested: Option<&Vec<String>>) -> (r: Result<
    Vec<String>,
    ApiError,
>)
    ensures
        requested is None ==> (r matches Ok(paths) && paths@.len() == 0),
        requested matches Some(v) && v@.len() == 0 ==> (r matches Ok(paths) && paths@.len()
            == 0),
        requested matches Some(v) && v@.len() > 0 && state.fonts_dir is None ==> (r matches Err(
            e,
        ) && e@ == ApiErrorV::FontsNotAllowed),
        r matches Ok(paths) ==> (state.fonts_dir matches Some(dir) ==> forall|i: int|
            0 <= i < paths@.len() ==> path_within(#[trigger] paths@[i]@, dir@)),
        r matches Ok(paths) ==> (requested matches Some(v) ==> paths@.len() == v@.len()
            && forall|i: int| 0 <= i < v@.len() ==> !has_separator(#[trigger] v@[i]@)),
        requested matches Some(v) ==> ((exists|i: int|
            0 <= i < v@.len() && has_separator(#[trigger] v@[i]@)) ==> r is Err),
        requested matches Some(v) && v@.len() > 0 && state.fonts_dir is Some && has_separator(
            v@[0]@,
        ) ==> (r matches Err(e) && e@ == ApiErrorV::FontsNotAllowed),
        r matches Err(e) ==> (e@ matches ApiErrorV::FontsNotAllowed || e@ matches
            ApiErrorV::Validation(_)),
        requested matches Some(v) ==> (r matches Err(e) ==> (e@ matches
            ApiErrorV::FontsNotAllowed || (e@ matches ApiErrorV::Validation(m) && exists|i: int|
            0 <= i < v@.len() && !has_separator(#[trigger] v@[i]@) && (exists|detail: Seq<char>|
            m == font_not_found_message(v@[i]@, detail))))),
{
    let entries = match requested {
        Option::Some(entries) => entries,
        Option::None => {
            return Ok(Vec::new());
        },
    };
    if entries.len() == 0 {
        return Ok(Vec::new());
    }
    let fonts_dir = match &state.fonts_dir {
        Option::Some(dir) => dir,
        Option::None => {
            return Err(ApiError::FontsNotAllowed);
        },
    };
    resolve_font_paths(fonts_dir, entries)
}

} // verus!
