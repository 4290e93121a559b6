use vstd::prelude::*;
use vstd::string::StrSliceExecFns;
use vstd::string::StringExecFns;
use vstd::utf8::encode_utf8;

use crate::paths::{lemma_strip_characterization, spec_strip_trailing_slashes};
use crate::text::{spec_has_prefix, str_eq, str_has_prefix};

verus! {

/// One entry of a directory listing handed to browsers.
#[derive(Debug, Clone)]
pub struct FileEntry {
    pub name: String,
    /// The virtual path, rooted at the user's home.
    pub path: String,
    pub is_dir: bool,
    pub size: u64,
    /// Modification time, seconds since the Unix epoch.
    pub modified: u64,
}

/// `s` without leading slashes.
pub open spec fn spec_strip_leading_slashes(s: Seq<char>) -> Seq<char>
    decreases s.len(),
{
    if s.len() > 0 && s[0] == '/' {
        spec_strip_leading_slashes(s.skip(1))
    } else {
        s
    }
}

proof fn lemma_strip_leading_characterization(s: Seq<char>, a: int)
    requires
        0 <= a <= s.len(),
        forall|j: int| 0 <= j < a ==> s[j] == '/',
        a == s.len() || s[a] != '/',
    ensures
        spec_strip_leading_slashes(s) == s.skip(a),
    decreases s.len(),
{
    if s.len() > 0 && s[0] == '/' {
        assert(a >= 1);
        lemma_strip_leading_characterization(s.skip(1), a - 1);
        assert(s.skip(1).skip(a - 1) =~= s.skip(a));
    } else {
        assert(a == 0);
        assert(s.skip(0) =~= s);
    }
}

/// Where the virtual root maps a browser path: the path relative to
/// the virtual root, joined under the user's home directory.
pub open spec fn spec_resolve_target(input: Seq<char>, home: Seq<char>) -> Seq<char> {
    let rel = spec_strip_leading_slashes(input);
    if rel.len() == 0 {
        home
    } else if home.len() > 0 && home.last() == '/' {
        home + rel
    } else if home.len() == 0 {
        rel
    } else {
        home + seq!['/'] + rel
    }
}

/// Map a browser path onto the user's home directory: the virtual
/// root "/" is the home itself, "/x" is x under it. The result still
/// has to be canonicalized and checked with `path_within_home` before
/// any file access.
pub fn resolve_safe_path(input_path: &str, user_home: &str) -> (r: String)
    ensures
        r@ == spec_resolve_target(input_path@, user_home@),
{
    let len = input_path.unicode_len();
    let mut a: usize = 0;
    loop
        invariant
            0 <= a <= len,
            len == input_path@.len(),
            forall|j: int| 0 <= j < a ==> input_path@[j] == '/',
        ensures
            0 <= a <= len,
            len == input_path@.len(),
            forall|j: int| 0 <= j < a ==> input_path@[j] == '/',
            a == len || input_path@[a as int] != '/',
        decreases len - a,
    {
        if a == len {
            break;
        }
        if input_path.get_char(a) != '/' {
            break;
        }
        a = a + 1;
    }
    proof {
        lemma_strip_leading_characterization(input_path@, a as int);
    }
    let rel = input_path.substring_char(a, len);
    assert(rel@ =~= input_path@.skip(a as int));
    if rel.is_empty() {
        return user_home.to_owned();
    }
    let home_len = user_home.unicode_len();
    if home_len == 0 {
        return rel.to_owned();
    }
    let mut out = user_home.to_owned();
    if user_home.get_char(home_len - 1) != '/' {
        out.append("/");
        proof {
            reveal_strlit("/");
        }
    }
    out.append(rel);
    assert(out@ =~= spec_resolve_target(input_path@, user_home@));
    out
}

/// Whether a canonical path lies inside a canonical home directory,
/// component-wise: it is the home itself or continues below it at a
/// component boundary. Canonical paths carry no trailing slash, the
/// root excepted.
pub open spec fn spec_within_home(canonical: Seq<char>, home: Seq<char>) -> bool {
    if home == seq!['/'] {
        canonical.len() >= 1 && canonical[0] == '/'
    } else {
        spec_has_prefix(canonical, home) && (canonical.len() == home.len() || canonical[
            home.len() as int
        ] == '/')
    }
}

/// The sandbox check behind the file browser: access stays inside the
/// user's home.
pub fn path_within_home(canonical: &str, canonical_home: &str) -> (r: bool)
    ensures
        r == spec_within_home(canonical@, canonical_home@),
{
    proof {
        reveal_strlit("/");
    }
    if str_eq(canonical_home, "/") {
        assert(canonical_home@ == seq!['/']) by {
            assert("/"@ =~= seq!['/']);
        }
        return !canonical.is_empty() && canonical.get_char(0) == '/';
    }
    assert(canonical_home@ != seq!['/']) by {
        assert("/"@ =~= seq!['/']);
    }
    if !str_has_prefix(canonical, canonical_home) {
        return false;
    }
    let clen = canonical.unicode_len();
    let hlen = canonical_home.unicode_len();
    if clen == hlen {
        true
    } else {
        canonical.get_char(hlen) == '/'
    }
}

/// The virtual path of a directory entry: the child's name under the
/// virtual directory path shown to the browser.
pub open spec fn spec_virtual_child(input: Seq<char>, name: Seq<char>) -> Seq<char> {
    if input == seq!['/'] {
        seq!['/'] + name
    } else {
        spec_strip_trailing_slashes(input) + seq!['/'] + name
    }
}

/// Build a listed entry's virtual path from the listed directory's
/// virtual path and the entry's name.
pub fn virtual_child_path(input_path: &str, name: &str) -> (r: String)
    ensures
        r@ == spec_virtual_child(input_path@, name@),
{
    proof {
        reveal_strlit("/");
        assert("/"@ =~= seq!['/']);
    }
    if str_eq(input_path, "/") {
        let mut out = String::from_str("/");
        out.append(name);
        assert(out@ =~= spec_virtual_child(input_path@, name@));
        return out;
    }
    let len = input_path.unicode_len();
    let mut e: usize = len;
    loop
        invariant
            0 <= e <= len,
            len == input_path@.len(),
            forall|j: int| e <= j < len ==> input_path@[j] == '/',
        ensures
            0 <= e <= len,
            len == input_path@.len(),
            forall|j: int| e <= j < len ==> input_path@[j] == '/',
            e == 0 || input_path@[e - 1] != '/',
        decreases e,
    {
        if e == 0 {
            break;
        }
        if input_path.get_char(e - 1) != '/' {
            break;
        }
        e = e - 1;
    }
    proof {
        lemma_strip_characterization(input_path@, e as int);
    }
    let stem = input_path.substring_char(0, e);
    assert(stem@ =~= spec_strip_trailing_slashes(input_path@));
    let mut out = stem.to_owned();
    out.append("/");
    out.append(name);
    assert(out@ =~= spec_virtual_child(input_path@, name@));
    out
}

/// Lexicographic order on byte strings.
pub open spec fn lex_le(a: Seq<u8>, b: Seq<u8>) -> bool
    decreases a.len(),
{
    if a.len() == 0 {
        true
    } else if b.len() == 0 {
        false
    } else if a[0] < b[0] {
        true
    } else if a[0] > b[0] {
        false
    } else {
        lex_le(a.skip(1), b.skip(1))
    }
}

/// Any two byte strings compare one way or the other.
pub proof fn lemma_lex_le_total(a: Seq<u8>, b: Seq<u8>)
    ensures
        lex_le(a, b) || lex_le(b, a),
    decreases a.len(),
{
    if a.len() > 0 && b.len() > 0 && a[0] == b[0] {
        lemma_lex_le_total(a.skip(1), b.skip(1));
    }
}

/// Lexicographic order is transitive.
pub proof fn lemma_lex_le_trans(a: Seq<u8>, b: Seq<u8>, c: Seq<u8>)
    requires
        lex_le(a, b),
        lex_le(b, c),
    ensures
        lex_le(a, c),
    decreases a.len(),
{
    if a.len() > 0 {
        assert(b.len() > 0);
        assert(c.len() > 0);
        if a[0] == c[0] {
            assert(a[0] == b[0] && b[0] == c[0]);
            lemma_lex_le_trans(a.skip(1), b.skip(1), c.skip(1));
        }
    }
}

/// The listing order: directories before files, then by name bytes.
pub open spec fn entry_le(a: FileEntry, b: FileEntry) -> bool {
    if a.is_dir != b.is_dir {
        a.is_dir
    } else {
        lex_le(encode_utf8(a.name@), encode_utf8(b.name@))
    }
}

/// The listing order is total.
pub proof fn lemma_entry_le_total(a: FileEntry, b: FileEntry)
    ensures
        entry_le(a, b) || entry_le(b, a),
{
    if a.is_dir == b.is_dir {
        lemma_lex_le_total(encode_utf8(a.name@), encode_utf8(b.name@));
    }
}

/// The listing order is transitive.
pub proof fn lemma_entry_le_trans(a: FileEntry, b: FileEntry, c: FileEntry)
    requires
        entry_le(a, b),
        entry_le(b, c),
    ensures
        entry_le(a, c),
{
    if a.is_dir == b.is_dir && b.is_dir == c.is_dir {
        lemma_lex_le_trans(encode_utf8(a.name@), encode_utf8(b.name@), encode_utf8(c.name@));
    }
}

/// Byte order on two byte vectors.
fn bytes_le(x: &Vec<u8>, y: &Vec<u8>) -> (r: bool)
    ensures
        r == lex_le(x@, y@),
{
    let xlen = x.len();
    let ylen = y.len();
    let mut i: usize = 0;
    proof {
        assert(x@.skip(0) =~= x@);
        assert(y@.skip(0) =~= y@);
    }
    loop
        invariant
            0 <= i <= xlen,
            i <= ylen,
            xlen == x@.len(),
            ylen == y@.len(),
            lex_le(x@, y@) == lex_le(x@.skip(i as int), y@.skip(i as int)),
        ensures
            ({
                let xi = x@.skip(i as int);
                let yi = y@.skip(i as int);
                lex_le(x@, y@) == lex_le(xi, yi) && (i == xlen || i == ylen || xi[0] != yi[0])
                    && i <= xlen && i <= ylen && xlen == x@.len() && ylen == y@.len()
            }),
        decreases xlen - i,
    {
        if i == xlen || i == ylen {
            break;
        }
        if x[i] != y[i] {
            break;
        }
        proof {
            let xi = x@.skip(i as int);
            let yi = y@.skip(i as int);
            assert(xi[0] == yi[0]);
            assert(xi.skip(1) =~= x@.skip(i + 1));
            assert(yi.skip(1) =~= y@.skip(i + 1));
        }
        i = i + 1;
    }
    if i == xlen {
        proof {
            assert(x@.skip(i as int).len() == 0);
        }
        true
    } else if i == ylen {
        proof {
            assert(y@.skip(i as int).len() == 0);
            assert(x@.skip(i as int).len() > 0);
        }
        false
    } else {
        let r = x[i] < y[i];
        proof {
            let xi = x@.skip(i as int);
            let yi = y@.skip(i as int);
            assert(xi[0] == x@[i as int]);
            assert(yi[0] == y@[i as int]);
        }
        r
    }
}

/// Compare two entries in the listing order.
pub fn entry_le_exec(a: &FileEntry, b: &FileEntry) -> (r: bool)
    ensures
        r == entry_le(*a, *b),
{
    if a.is_dir != b.is_dir {
        a.is_dir
    } else {
        let an = a.name.as_str().as_bytes_vec();
        let bn = b.name.as_str().as_bytes_vec();
        bytes_le(&an, &bn)
    }
}

/// Sort a directory listing: directories first, then by name, as
/// `entry_le` orders them; the result is a rearrangement of the
/// input.
pub fn sort_entries(entries: Vec<FileEntry>) -> (r: Vec<FileEntry>)
    ensures
        r@.to_multiset() == entries@.to_multiset(),
        r@.len() == entries@.len(),
        forall|i: int| 0 <= i < r@.len() - 1 ==> entry_le(#[trigger] r@[i], r@[i + 1]),
{
    broadcast use vstd::seq_lib::group_to_multiset_ensures;

    let mut rem = entries;
    let mut out: Vec<FileEntry> = Vec::new();
    proof {
        assert(out@.to_multiset().add(rem@.to_multiset()) =~= entries@.to_multiset());
    }
    while rem.len() > 0
        invariant
            out@.to_multiset().add(rem@.to_multiset()) == entries@.to_multiset(),
            out@.len() + rem@.len() == entries@.len(),
            forall|i: int| 0 <= i < out@.len() - 1 ==> entry_le(#[trigger] out@[i], out@[i + 1]),
            out@.len() > 0 ==> forall|j: int|
                0 <= j < rem@.len() ==> entry_le(out@.last(), #[trigger] rem@[j]),
        decreases rem@.len(),
    {
        let mut min: usize = 0;
        let mut k: usize = 1;
        proof {
            lemma_entry_le_total(rem@[0], rem@[0]);
        }
        while k < rem.len()
            invariant
                0 <= min < k <= rem@.len(),
                rem@.len() > 0,
                forall|j: int| 0 <= j < k ==> entry_le(rem@[min as int], #[trigger] rem@[j]),
            decreases rem@.len() - k,
        {
            if entry_le_exec(&rem[k], &rem[min]) {
                proof {
                    assert forall|j: int| 0 <= j < k + 1 implies entry_le(
                        rem@[k as int],
                        #[trigger] rem@[j],
                    ) by {
                        if j == k {
                            lemma_entry_le_total(rem@[k as int], rem@[k as int]);
                        } else {
                            lemma_entry_le_trans(rem@[k as int], rem@[min as int], rem@[j]);
                        }
                    }
                }
                min = k;
            } else {
                proof {
                    lemma_entry_le_total(rem@[k as int], rem@[min as int]);
                }
            }
            k = k + 1;
        }
        let ghost old_out = out@;
        let ghost old_rem = rem@;
        let picked = rem.remove(min);
        out.push(picked);
        proof {
            old_rem.to_multiset_ensures();
            old_out.to_multiset_ensures();
            assert(old_rem.contains(picked)) by {
                assert(old_rem[min as int] == picked);
            }
            assert(old_rem.to_multiset().count(picked) > 0);
            assert(rem@ == old_rem.remove(min as int));
            assert(rem@.to_multiset() =~= old_rem.to_multiset().remove(picked));
            assert(out@.to_multiset() =~= old_out.to_multiset().insert(picked));
            assert(out@.to_multiset().add(rem@.to_multiset()) =~= entries@.to_multiset());
            assert(out@.last() == picked);
            assert forall|j: int| 0 <= j < rem@.len() implies entry_le(
                out@.last(),
                #[trigger] rem@[j],
            ) by {
                if j < min {
                    assert(rem@[j] == old_rem[j]);
                } else {
                    assert(rem@[j] == old_rem[j + 1]);
                }
            }
            assert forall|i: int| 0 <= i < out@.len() - 1 implies entry_le(
                #[trigger] out@[i],
                out@[i + 1],
            ) by {
                if i < old_out.len() - 1 {
                    assert(out@[i] == old_out[i]);
                    assert(out@[i + 1] == old_out[i + 1]);
                } else {
                    assert(out@[i] == old_out.last());
                    assert(out@[i + 1] == picked);
                    assert(entry_le(old_out.last(), old_rem[min as int]));
                }
            }
        }
    }
    proof {
        assert(rem@.to_multiset().len() == 0);
        assert(out@.to_multiset().add(rem@.to_multiset()) =~= out@.to_multiset());
    }
    out
}

} // verus!
