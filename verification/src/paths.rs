use vstd::prelude::*;
use vstd::string::StrSliceExecFns;
use vstd::string::StringExecFns;

verus! {

/// `s` without its trailing slashes.
pub open spec fn spec_strip_trailing_slashes(s: Seq<char>) -> Seq<char>
    decreases s.len(),
{
    if s.len() > 0 && s.last() == '/' {
        spec_strip_trailing_slashes(s.drop_last())
    } else {
        s
    }
}

/// The index of the last occurrence of `c` in `s`, or -1.
pub open spec fn spec_last_index_of(s: Seq<char>, c: char) -> int
    decreases s.len(),
{
    if s.len() == 0 {
        -1
    } else if s.last() == c {
        s.len() - 1
    } else {
        spec_last_index_of(s.drop_last(), c)
    }
}

/// The directory containing the file `s` names.
///
/// Trailing slashes are ignored; a bare file name has the empty
/// directory; a file directly under the root has directory "/"; the
/// root itself and the empty path have no parent.
pub open spec fn spec_parent_dir(s: Seq<char>) -> Option<Seq<char>> {
    let t = spec_strip_trailing_slashes(s);
    if t.len() == 0 {
        None
    } else {
        let i = spec_last_index_of(t, '/');
        if i == -1 {
            Some(Seq::empty())
        } else if i == 0 {
            Some(seq!['/'])
        } else {
            Some(t.subrange(0, i))
        }
    }
}

pub(crate) proof fn lemma_strip_characterization(s: Seq<char>, e: int)
    requires
        0 <= e <= s.len(),
        forall|j: int| e <= j < s.len() ==> s[j] == '/',
        e == 0 || s[e - 1] != '/',
    ensures
        spec_strip_trailing_slashes(s) == s.subrange(0, e),
    decreases s.len(),
{
    if s.len() == 0 {
        assert(s.subrange(0, 0) =~= s);
    } else if s.last() == '/' {
        assert(e < s.len());
        lemma_strip_characterization(s.drop_last(), e);
        assert(s.drop_last().subrange(0, e) =~= s.subrange(0, e));
    } else {
        assert(e == s.len());
        assert(s.subrange(0, s.len() as int) =~= s);
    }
}

proof fn lemma_last_index_at(s: Seq<char>, c: char, i: int)
    requires
        0 <= i < s.len(),
        s[i] == c,
        forall|j: int| i < j < s.len() ==> s[j] != c,
    ensures
        spec_last_index_of(s, c) == i,
    decreases s.len(),
{
    if s.last() == c {
        assert(i == s.len() - 1);
    } else {
        lemma_last_index_at(s.drop_last(), c, i);
    }
}

proof fn lemma_last_index_none(s: Seq<char>, c: char)
    requires
        forall|j: int| 0 <= j < s.len() ==> s[j] != c,
    ensures
        spec_last_index_of(s, c) == -1,
    decreases s.len(),
{
    if s.len() > 0 {
        lemma_last_index_none(s.drop_last(), c);
    }
}

/// The directory part of a path, as `spec_parent_dir` describes.
pub fn parent_dir(s: &str) -> (r: Option<String>)
    ensures
        r is Some <==> spec_parent_dir(s@) is Some,
        r matches Some(d) ==> spec_parent_dir(s@) matches Some(sd) && d@ == sd,
{
    let len = s.unicode_len();
    let mut e: usize = len;
    loop
        invariant
            0 <= e <= len,
            len == s@.len(),
            forall|j: int| e <= j < len ==> s@[j] == '/',
        ensures
            0 <= e <= len,
            len == s@.len(),
            forall|j: int| e <= j < len ==> s@[j] == '/',
            e == 0 || s@[e - 1] != '/',
        decreases e,
    {
        if e == 0 {
            break;
        }
        if s.get_char(e - 1) != '/' {
            break;
        }
        e = e - 1;
    }
    proof {
        lemma_strip_characterization(s@, e as int);
    }
    if e == 0 {
        return None;
    }
    let ghost t = spec_strip_trailing_slashes(s@);
    assert(t =~= s@.subrange(0, e as int));
    let mut k: usize = e;
    loop
        invariant
            0 <= k <= e <= len,
            len == s@.len(),
            t == s@.subrange(0, e as int),
            forall|j: int| k <= j < e ==> s@[j] != '/',
        ensures
            0 <= k <= e,
            forall|j: int| k <= j < e ==> s@[j] != '/',
            k == 0 || s@[k - 1] == '/',
            len == s@.len(),
        decreases k,
    {
        if k == 0 {
            break;
        }
        if s.get_char(k - 1) == '/' {
            break;
        }
        k = k - 1;
    }
    if k == 0 {
        proof {
            assert(forall|j: int| 0 <= j < t.len() ==> t[j] != '/');
            lemma_last_index_none(t, '/');
        }
        Some(String::new())
    } else if k == 1 {
        proof {
            assert(t[0] == '/');
            lemma_last_index_at(t, '/', 0);
            reveal_strlit("/");
            assert("/"@ =~= seq!['/']);
        }
        Some(String::from_str("/"))
    } else {
        proof {
            assert(t[k - 1int] == '/');
            lemma_last_index_at(t, '/', k - 1);
        }
        let d = s.substring_char(0, k - 1);
        proof {
            assert(d@ =~= t.subrange(0, k - 1));
        }
        Some(d.to_owned())
    }
}

} // verus!
