//! File-system paths as text, joined the way `PathBuf::push` joins them on
//! Unix: an absolute part replaces the base, otherwise a `/` separates them
//! unless the base is empty or already ends in one.
use vstd::prelude::*;
use vstd::string::StrSliceExecFns;
use vstd::string::StringExecFns;

verus! {

/// `base` joined with `part`.
pub open spec fn join_path(base: Seq<char>, part: Seq<char>) -> Seq<char> {
    if part.len() > 0 && part[0] == '/' {
        part
    } else if base.len() > 0 && base.last() != '/' {
        base + seq!['/'] + part
    } else {
        base + part
    }
}

/// `base` joined with `part` (`Path::join`).
pub fn join(base: &str, part: &str) -> (r: String)
    ensures
        r@ == join_path(base@, part@),
{
    let nb = base.unicode_len();
    let np = part.unicode_len();
    if np > 0 && part.get_char(0) == '/' {
        String::from_str(part)
    } else if nb > 0 && base.get_char(nb - 1) != '/' {
        let mut r = String::from_str(base);
        r.append("/");
        r.append(part);
        proof {
            reveal_strlit("/");
        }
        assert(r@ =~= base@ + seq!['/'] + part@);
        r
    } else {
        let mut r = String::from_str(base);
        r.append(part);
        r
    }
}

} // verus!
