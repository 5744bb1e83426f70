//! Resolution of a possibly relative filesystem path against a root.
//!
//! Paths are handled as the raw bytes a Unix filesystem reports: a path is
//! absolute exactly when it begins with the separator byte `/`.

use vstd::prelude::*;

verus! {

/// The path separator byte, `/`.
pub const SEPARATOR: u8 = 47;

/// Whether `p` is an absolute path: it begins with the separator.
pub open spec fn is_absolute_path(p: Seq<u8>) -> bool {
    p.len() > 0 && p[0] == SEPARATOR
}

/// `root` extended with the path `rel`: a separator is inserted between the
/// two unless `root` is empty or already ends with one.
pub open spec fn joined_path(root: Seq<u8>, rel: Seq<u8>) -> Seq<u8> {
    if root.len() == 0 {
        rel
    } else if root[root.len() - 1] == SEPARATOR {
        root + rel
    } else {
        root.push(SEPARATOR) + rel
    }
}

/// `path` itself if it is already absolute, otherwise `path` joined onto
/// `root`.
pub open spec fn resolved_path(path: Seq<u8>, root: Seq<u8>) -> Seq<u8> {
    if is_absolute_path(path) {
        path
    } else {
        joined_path(root, path)
    }
}

/// Makes `path` absolute with respect to the root `relative_to`: a path
/// that is already absolute is returned unchanged, any other is appended to
/// the root with a separator inserted as needed.
pub fn make_absolute_relative_to(path: Vec<u8>, relative_to: Vec<u8>) -> (r: Vec<u8>)
    ensures
        r@ == resolved_path(path@, relative_to@),
{
    if path.len() > 0 && path[0] == SEPARATOR {
        path
    } else if relative_to.len() == 0 {
        path
    } else {
        let ghost root: Seq<u8> = relative_to@;
        let mut out = relative_to;
        if out[out.len() - 1] != SEPARATOR {
            out.push(SEPARATOR);
        }
        let ghost base: Seq<u8> = out@;
        proof {
            assert(joined_path(root, path@) == base + path@);
            assert(base + path@.take(0) =~= base);
        }
        let mut i: usize = 0;
        while i < path.len()
            invariant
                i <= path.len(),
                out@ == base + path@.take(i as int),
            decreases path.len() - i,
        {
            let b = path[i];
            out.push(b);
            proof {
                assert(path@.take(i + 1) =~= path@.take(i as int).push(b));
                assert(base + path@.take(i + 1) =~= (base + path@.take(i as int)).push(b));
            }
            i = i + 1;
        }
        proof {
            assert(path@.take(path@.len() as int) =~= path@);
        }
        out
    }
}

} // verus!
