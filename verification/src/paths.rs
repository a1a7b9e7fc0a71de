//! Paths as sequences of segments, and what it takes for a name to stay
//! inside the directory it is joined to.

use vstd::prelude::*;
use vstd::string::{StrSliceExecFns, StringExecFns};

verus! {

/// A character that separates path segments on some platform.
pub open spec fn is_separator(c: char) -> bool {
    c == '/' || c == '\\'
}

/// The two names that stand for a directory itself and for its parent.
pub open spec fn is_dot_name(name: Seq<char>) -> bool {
    name =~= seq!['.'] || name =~= seq!['.', '.']
}

/// A name that, joined to a directory, names an entry of that directory
/// and nothing else: it is not empty, holds no separator, and is neither
/// `.` nor `..`.
pub open spec fn is_confined(name: Seq<char>) -> bool {
    &&& name.len() > 0
    &&& forall|i: int| 0 <= i < name.len() ==> !is_separator(#[trigger] name[i])
    &&& !is_dot_name(name)
}

/// `base`, one `/`, and `name`.
pub open spec fn joined(base: Seq<char>, name: Seq<char>) -> Seq<char> {
    base + seq!['/'] + name
}

/// The segments of a path: what stands before, between and behind its
/// separators. A path without a separator is one segment.
pub open spec fn segments(path: Seq<char>) -> Seq<Seq<char>>
    decreases path.len(),
{
    if path.len() == 0 {
        seq![Seq::<char>::empty()]
    } else {
        let front = segments(path.drop_last());
        if is_separator(path.last()) {
            front.push(Seq::<char>::empty())
        } else {
            front.update(front.len() - 1, front.last().push(path.last()))
        }
    }
}

/// Joining a name without separators adds one segment to the base, the
/// name itself. A confined name is such a name, is not empty and is not
/// `..`, so the joined path names an entry of the base: never the base
/// itself, and nothing above or below it.
pub proof fn lemma_joined_adds_one_segment(base: Seq<char>, name: Seq<char>)
    requires
        forall|i: int| 0 <= i < name.len() ==> !is_separator(#[trigger] name[i]),
    ensures
        segments(joined(base, name)) == segments(base).push(name),
    decreases name.len(),
{
    let path = joined(base, name);
    if name.len() == 0 {
        assert(path.drop_last() =~= base);
        assert(name =~= Seq::<char>::empty());
    } else {
        let shorter = name.drop_last();
        assert(path.drop_last() =~= joined(base, shorter));
        assert(path.last() == name.last());
        assert forall|i: int| 0 <= i < shorter.len() implies !is_separator(
            #[trigger] shorter[i],
        ) by {
            assert(shorter[i] == name[i]);
        }
        lemma_joined_adds_one_segment(base, shorter);
        let front = segments(base).push(shorter);
        assert(shorter.push(name.last()) =~= name);
        assert(front.update(front.len() - 1, front.last().push(name.last())) =~= segments(
            base,
        ).push(name));
    }
}

/// Tells whether a name is confined.
pub fn check_confined(name: &str) -> (confined: bool)
    ensures
        confined == is_confined(name@),
{
    let len = name.unicode_len();
    if len == 0 {
        return false;
    }
    let mut i: usize = 0;
    while i < len
        invariant
            0 <= i <= len,
            len == name@.len(),
            forall|k: int| 0 <= k < i ==> !is_separator(#[trigger] name@[k]),
        decreases len - i,
    {
        let c = name.get_char(i);
        if c == '/' || c == '\\' {
            return false;
        }
        i += 1;
    }
    if len == 1 && name.get_char(0) == '.' {
        assert(name@ =~= seq!['.']);
        return false;
    }
    if len == 2 && name.get_char(0) == '.' && name.get_char(1) == '.' {
        assert(name@ =~= seq!['.', '.']);
        return false;
    }
    assert(!is_dot_name(name@)) by {
        if name@ =~= seq!['.'] {
            assert(name@[0] == seq!['.'][0]);
        }
        if name@ =~= seq!['.', '.'] {
            assert(name@[0] == seq!['.', '.'][0]);
            assert(name@[1] == seq!['.', '.'][1]);
        }
    }
    true
}

/// `base`, one `/`, and `name`.
pub fn join(base: &str, name: &str) -> (path: String)
    ensures
        path@ == joined(base@, name@),
{
    let mut path = base.to_owned();
    proof {
        reveal_strlit("/");
        assert("/"@ =~= seq!['/']);
    }
    path.append("/");
    path.append(name);
    path
}

} // verus!
