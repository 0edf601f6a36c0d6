//! Paths of the tool's files, held as strings with `/` as the separator.
use vstd::prelude::*;

verus! {

/// `part` appended to `dir`, with one `/` between the two unless `dir` is empty
/// or already ends with one.
pub open spec fn joined(dir: Seq<char>, part: Seq<char>) -> Seq<char> {
    if dir.len() == 0 || dir.last() == '/' {
        dir + part
    } else {
        dir + seq!['/'] + part
    }
}

/// Joins a directory and a path relative to it.
pub fn join_path(dir: &str, part: &str) -> (r: String)
    ensures
        r@ == joined(dir@, part@),
{
    let n = dir.unicode_len();
    let mut r = String::from_str(dir);
    if n == 0 || dir.get_char(n - 1) == '/' {
        r.append(part);
    } else {
        let sep = "/";
        proof {
            reveal_strlit("/");
        }
        r.append(sep);
        r.append(part);
        assert(r@ =~= dir@ + seq!['/'] + part@);
    }
    r
}

} // verus!
