//! Path-string parsing: the file-name component of a path and its
//! extension. Both `/` and `\` count as separators, so paths from either
//! platform convention are read the same way.

use vstd::prelude::*;

use crate::text::{lower_seq, str_eq};

verus! {

/// True for the characters treated as path separators.
pub open spec fn is_separator(c: char) -> bool {
    c == '/' || c == '\\'
}

/// `path` with every trailing separator removed.
pub open spec fn strip_trailing_separators(path: Seq<char>) -> Seq<char>
    decreases path.len(),
{
    if path.len() > 0 && is_separator(path.last()) {
        strip_trailing_separators(path.drop_last())
    } else {
        path
    }
}

/// The suffix of `s` after its last separator (all of `s` when it has
/// none, empty when it ends with one).
pub open spec fn after_last_separator(s: Seq<char>) -> Seq<char>
    decreases s.len(),
{
    if s.len() == 0 {
        Seq::empty()
    } else if is_separator(s.last()) {
        Seq::empty()
    } else {
        after_last_separator(s.drop_last()).push(s.last())
    }
}

/// The file-name component of `path`: the part after the last separator,
/// trailing separators ignored; the relative components "." and ".."
/// name no file and give the empty sequence.
pub open spec fn spec_file_name(path: Seq<char>) -> Seq<char> {
    let name = after_last_separator(strip_trailing_separators(path));
    if name == "."@ || name == ".."@ {
        Seq::empty()
    } else {
        name
    }
}

/// The index of the last '.' in `name`, or -1 when it has none.
pub open spec fn last_dot_index(name: Seq<char>) -> int
    decreases name.len(),
{
    if name.len() == 0 {
        -1
    } else if name.last() == '.' {
        name.len() - 1
    } else {
        last_dot_index(name.drop_last())
    }
}

/// The index of the last dot lies inside `name` when a dot exists at all.
pub proof fn lemma_last_dot_index_bounds(name: Seq<char>)
    ensures
        -1 <= last_dot_index(name) < name.len(),
    decreases name.len(),
{
    if name.len() > 0 && name.last() != '.' {
        lemma_last_dot_index_bounds(name.drop_last());
    }
}

/// The extension of the file name `name`, not lowercased: the characters
/// after its last '.', provided that dot is neither absent nor the first
/// character; the empty sequence otherwise.
pub open spec fn raw_extension(name: Seq<char>) -> Seq<char> {
    let d = last_dot_index(name);
    if d > 0 {
        name.subrange(d + 1, name.len() as int)
    } else {
        Seq::empty()
    }
}

/// The lowercased extension of `path`'s file name, empty when there is none.
pub open spec fn spec_extension(path: Seq<char>) -> Seq<char> {
    lower_seq(raw_extension(spec_file_name(path)))
}

fn is_separator_char(c: char) -> (r: bool)
    ensures
        r == is_separator(c),
{
    c == '/' || c == '\\'
}

/// The file-name component of `path`, as [`spec_file_name`] defines it.
pub fn file_name_of(path: &str) -> (r: String)
    ensures
        r@ == spec_file_name(path@),
{
    let n = path.unicode_len();
    proof {
        assert(path@.subrange(0, n as int) =~= path@);
    }
    let mut e: usize = n;
    while e > 0 && is_separator_char(path.get_char(e - 1))
        invariant
            e <= n,
            n == path@.len(),
            strip_trailing_separators(path@.subrange(0, e as int)) == strip_trailing_separators(
                path@,
            ),
        decreases e,
    {
        proof {
            assert(path@.subrange(0, e as int).drop_last() =~= path@.subrange(0, e - 1));
        }
        e -= 1;
    }
    proof {
        assert(strip_trailing_separators(path@) == path@.subrange(0, e as int));
        assert(after_last_separator(path@.subrange(0, e as int)) + path@.subrange(
            e as int,
            e as int,
        ) =~= after_last_separator(path@.subrange(0, e as int)));
    }
    let mut b: usize = e;
    while b > 0 && !is_separator_char(path.get_char(b - 1))
        invariant
            b <= e,
            e <= n,
            n == path@.len(),
            after_last_separator(path@.subrange(0, e as int)) == after_last_separator(
                path@.subrange(0, b as int),
            ) + path@.subrange(b as int, e as int),
        decreases b,
    {
        proof {
            assert(path@.subrange(0, b as int).drop_last() =~= path@.subrange(0, b - 1));
            assert(after_last_separator(path@.subrange(0, b - 1)).push(path@[b - 1])
                + path@.subrange(b as int, e as int) =~= after_last_separator(
                path@.subrange(0, b - 1),
            ) + path@.subrange(b - 1, e as int));
        }
        b -= 1;
    }
    proof {
        if b == 0 {
            assert(Seq::<char>::empty() + path@.subrange(0, e as int) =~= path@.subrange(
                0,
                e as int,
            ));
        } else {
            assert(Seq::<char>::empty() + path@.subrange(b as int, e as int) =~= path@.subrange(
                b as int,
                e as int,
            ));
        }
        assert(after_last_separator(path@.subrange(0, e as int)) == path@.subrange(
            b as int,
            e as int,
        ));
    }
    let name = path.substring_char(b, e);
    if str_eq(name, ".") || str_eq(name, "..") {
        String::new()
    } else {
        name.to_owned()
    }
}

/// The extension of the file name `name`, not lowercased, as
/// [`raw_extension`] defines it.
pub fn raw_extension_of<'a>(name: &'a str) -> (r: &'a str)
    ensures
        r@ == raw_extension(name@),
{
    let n = name.unicode_len();
    proof {
        assert(name@.subrange(0, n as int) =~= name@);
    }
    let mut k: usize = n;
    while k > 0 && name.get_char(k - 1) != '.'
        invariant
            k <= n,
            n == name@.len(),
            last_dot_index(name@) == last_dot_index(name@.subrange(0, k as int)),
        decreases k,
    {
        proof {
            assert(name@.subrange(0, k as int).drop_last() =~= name@.subrange(0, k - 1));
        }
        k -= 1;
    }
    if k > 1 {
        proof {
            assert(last_dot_index(name@) == k - 1);
        }
        name.substring_char(k, n)
    } else {
        proof {
            reveal_strlit("");
            assert(""@ =~= Seq::<char>::empty());
            assert(raw_extension(name@) =~= Seq::<char>::empty());
        }
        ""
    }
}

} // verus!
