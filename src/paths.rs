use vstd::prelude::*;

verus! {

/// What `Path::join` yields on two textual paths: an absolute `part`
/// replaces `base`; otherwise one `/` separates them unless `base` is empty
/// or already ends with one.
pub open spec fn path_join(base: Seq<char>, part: Seq<char>) -> Seq<char> {
    if part.len() > 0 && part[0] == '/' {
        part
    } else if base.len() == 0 || base.last() == '/' {
        base + part
    } else {
        base + seq!['/'] + part
    }
}

/// Joins `part` onto `base` as a path.
pub fn join_path(base: &str, part: &str) -> (r: String)
    ensures
        r@ == path_join(base@, part@),
{
    let part_len = part.unicode_len();
    if part_len > 0 && part.get_char(0) == '/' {
        return String::from_str(part);
    }
    let base_len = base.unicode_len();
    let mut r = String::from_str(base);
    if base_len > 0 && base.get_char(base_len - 1) != '/' {
        let sep = "/";
        proof {
            reveal_strlit("/");
        }
        r.append(sep);
    }
    r.append(part);
    proof {
        if !(base@.len() == 0 || base@.last() == '/') {
            assert(r@ == base@ + seq!['/'] + part@);
        }
    }
    r
}

} // verus!
