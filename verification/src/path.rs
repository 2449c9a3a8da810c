//! Path normalization for document loading: a leading home-directory marker
//! is expanded against the home directory handed in by the caller.
use vstd::prelude::*;
use vstd::string::StrSliceExecFns;
use vstd::string::StringExecFns;

verus! {

/// Whether `p` begins with the home-directory marker: it is exactly `~`, or
/// starts with `~/`.
pub open spec fn has_home_marker(p: Seq<char>) -> bool {
    p.len() >= 1 && p[0] == '~' && (p.len() == 1 || p[1] == '/')
}

/// Why a path could not be normalized.
#[derive(Clone, Copy, Debug, PartialEq, Eq, Structural)]
pub enum PathError {
    /// The path begins with the home-directory marker, but no home directory
    /// is known.
    HomeNotSet,
}

/// Expands a leading `~` against `home`, the home directory of the running
/// user, if one is known; any other path passes through unchanged.
pub fn normalize_path(path: &str, home: Option<&str>) -> (res: Result<String, PathError>)
    ensures
        !has_home_marker(path@) ==> (res matches Ok(p) && p@ == path@),
        has_home_marker(path@) && home is Some ==> (res matches Ok(p) && p@ == home->0@
            + path@.skip(1)),
        res is Err <==> has_home_marker(path@) && home is None,
{
    let n = path.unicode_len();
    let marked = n >= 1 && path.get_char(0) == '~' && (n == 1 || path.get_char(1) == '/');
    if !marked {
        return Ok(path.to_owned());
    }
    match home {
        Some(h) => {
            let rest = path.substring_char(1, n);
            let mut out = h.to_owned();
            out.append(rest);
            proof {
                assert(rest@ =~= path@.skip(1));
            }
            Ok(out)
        },
        None => Err(PathError::HomeNotSet),
    }
}

} // verus!
