//! Joining path components as text, with `/` between them.

use vstd::prelude::*;
use vstd::string::StringExecFns;

verus! {

/// `part` under `base`, as a path joins them: an absolute `part` (one that
/// starts with `/`) replaces `base`; otherwise `base` is followed by `part`,
/// with nothing put in between when `base` is empty or already ends with
/// `/`.
pub open spec fn joined(base: Seq<char>, part: Seq<char>) -> Seq<char> {
    if part.len() > 0 && part[0] == '/' {
        part
    } else if base.len() == 0 {
        part
    } else if base.last() == '/' {
        base + part
    } else {
        base + seq!['/'] + part
    }
}

pub fn join_path(base: &str, part: &str) -> (r: String)
    ensures
        r@ == joined(base@, part@),
{
    if part.unicode_len() > 0 && part.get_char(0) == '/' {
        return part.to_owned();
    }
    let n = base.unicode_len();
    if n == 0 {
        return part.to_owned();
    }
    let last = base.get_char(n - 1);
    let mut out = base.to_owned();
    if last != '/' {
        out.append("/");
        proof {
            reveal_strlit("/");
        }
    }
    out.append(part);
    out
}

} // verus!
