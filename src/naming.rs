//! Names of operations, for the messages that report their failures.
use vstd::prelude::*;
use vstd::string::StrSliceExecFns;

verus! {

/// Where the last segment of a `::`-separated path starts: just after its
/// last `:`, or at 0 when it has none.
pub open spec fn segment_start(s: Seq<char>) -> int
    decreases s.len(),
{
    if s.len() == 0 {
        0
    } else if s.last() == ':' {
        s.len() as int
    } else {
        segment_start(s.drop_last())
    }
}

proof fn lemma_segment_start_tail(s: Seq<char>, i: int)
    requires
        0 <= i <= s.len(),
        forall|j: int| i <= j < s.len() ==> s[j] != ':',
    ensures
        segment_start(s) == segment_start(s.subrange(0, i)),
    decreases s.len() - i,
{
    if i < s.len() {
        assert(s.last() == s[s.len() - 1]);
        lemma_segment_start_tail(s.drop_last(), i);
        assert(s.drop_last().subrange(0, i) =~= s.subrange(0, i));
    } else {
        assert(s.subrange(0, i) =~= s);
    }
}

/// The name of a function given its full path, such as
/// `my_crate::module::do_thing`: the path's last segment.
pub fn function_name(path: &str) -> (r: &str)
    ensures
        r@ == path@.subrange(segment_start(path@), path@.len() as int),
{
    let len = path.unicode_len();
    let mut i: usize = len;
    while i > 0 && path.get_char(i - 1) != ':'
        invariant
            i <= len,
            len == path@.len(),
            forall|j: int| i <= j < len ==> path@[j] != ':',
        decreases i,
    {
        i = i - 1;
    }
    proof {
        let s = path@;
        lemma_segment_start_tail(s, i as int);
        if i > 0 {
            let t = s.subrange(0, i as int);
            assert(t.last() == s[i - 1]);
        } else {
            assert(s.subrange(0, 0).len() == 0);
        }
    }
    path.substring_char(i, len)
}

} // verus!
