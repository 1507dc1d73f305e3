//! The virtual-versus-physical heuristic: an adapter counts as virtual when
//! its description contains, case-insensitively, any keyword of a fixed set
//! (hypervisors, tunnels, loopbacks and the like). This is a heuristic over
//! vendor strings, not a guarantee; the keyword set is part of the contract.

use vstd::prelude::*;
use vstd::string::StrSliceExecFns;

verus! {

/// How many keywords the heuristic knows.
pub const KEYWORD_COUNT: usize = 10;

/// The keyword at position `k` of the fixed set.
pub open spec fn keyword(k: int) -> Seq<char> {
    if k == 0 {
        "virtual"@
    } else if k == 1 {
        "vmware"@
    } else if k == 2 {
        "hyper-v"@
    } else if k == 3 {
        "tap"@
    } else if k == 4 {
        "loopback"@
    } else if k == 5 {
        "vpn"@
    } else if k == 6 {
        "container"@
    } else if k == 7 {
        "bluetooth"@
    } else if k == 8 {
        "kernel debug"@
    } else if k == 9 {
        "zerotier"@
    } else {
        Seq::empty()
    }
}

/// Upper-case ASCII letters fold to lower case; every other character is
/// left as it is.
pub open spec fn lower_char(c: char) -> char {
    if 'A' <= c && c <= 'Z' {
        ((c as u8) + 32) as char
    } else {
        c
    }
}

/// Character-wise ASCII case folding of a whole string.
pub open spec fn lower_seq(s: Seq<char>) -> Seq<char> {
    s.map_values(|c: char| lower_char(c))
}

/// `needle` occurs in `hay` starting at position `i`.
pub open spec fn contains_at(hay: Seq<char>, needle: Seq<char>, i: int) -> bool {
    &&& 0 <= i
    &&& i + needle.len() <= hay.len()
    &&& forall|j: int| 0 <= j < needle.len() ==> hay[i + j] == needle[j]
}

/// `needle` occurs somewhere in `hay`.
pub open spec fn contains_seq(hay: Seq<char>, needle: Seq<char>) -> bool {
    exists|i: int| contains_at(hay, needle, i)
}

/// The heuristic itself: the case-folded description contains at least one
/// keyword of the fixed set.
pub open spec fn is_virtual_desc(desc: Seq<char>) -> bool {
    exists|k: int| 0 <= k < KEYWORD_COUNT && contains_seq(lower_seq(desc), keyword(k))
}

/// The keyword at position `k`, as a string slice.
fn keyword_at(k: usize) -> (r: &'static str)
    requires
        k < KEYWORD_COUNT,
    ensures
        r@ == keyword(k as int),
{
    match k {
        0 => "virtual",
        1 => "vmware",
        2 => "hyper-v",
        3 => "tap",
        4 => "loopback",
        5 => "vpn",
        6 => "container",
        7 => "bluetooth",
        8 => "kernel debug",
        _ => "zerotier",
    }
}

/// The characters of `s`, as a vector.
pub fn chars_vec(s: &str) -> (r: Vec<char>)
    ensures
        r@ == s@,
{
    let n = s.unicode_len();
    let mut r: Vec<char> = Vec::new();
    let mut i: usize = 0;
    while i < n
        invariant
            n == s@.len(),
            i <= n,
            r@ == s@.take(i as int),
        decreases n - i,
    {
        r.push(s.get_char(i));
        i = i + 1;
        proof {
            assert(r@ =~= s@.take(i as int));
        }
    }
    proof {
        assert(s@.take(n as int) =~= s@);
    }
    r
}

/// Case-folds every character of `s`.
fn lower_vec(s: &Vec<char>) -> (r: Vec<char>)
    ensures
        r@ == lower_seq(s@),
{
    let mut r: Vec<char> = Vec::new();
    let mut i: usize = 0;
    while i < s.len()
        invariant
            i <= s@.len(),
            r@.len() == i,
            forall|j: int| 0 <= j < i ==> r@[j] == lower_char(s@[j]),
        decreases s@.len() - i,
    {
        let c = s[i];
        if 'A' <= c && c <= 'Z' {
            r.push(((c as u8) + 32) as char);
        } else {
            r.push(c);
        }
        i = i + 1;
    }
    proof {
        assert(r@ =~= lower_seq(s@));
    }
    r
}

/// `needle` occurs in `hay` at position `i`.
fn match_at(hay: &Vec<char>, needle: &Vec<char>, i: usize) -> (r: bool)
    requires
        i + needle@.len() <= hay@.len(),
    ensures
        r == contains_at(hay@, needle@, i as int),
{
    let hlen = hay.len();
    let mut j: usize = 0;
    while j < needle.len()
        invariant
            i + needle@.len() <= hlen,
            hlen == hay@.len(),
            j <= needle@.len(),
            forall|jj: int| 0 <= jj < j ==> hay@[i + jj] == needle@[jj],
        decreases needle@.len() - j,
    {
        if hay[i + j] != needle[j] {
            return false;
        }
        j = j + 1;
    }
    true
}

/// `needle` occurs somewhere in `hay`.
fn contains_chars(hay: &Vec<char>, needle: &Vec<char>) -> (r: bool)
    ensures
        r == contains_seq(hay@, needle@),
{
    if needle.len() == 0 {
        assert(contains_at(hay@, needle@, 0));
        return true;
    }
    if needle.len() > hay.len() {
        return false;
    }
    let hlen = hay.len();
    let end = hlen - needle.len();
    let mut i: usize = 0;
    while i <= end
        invariant
            1 <= needle@.len() <= hay@.len(),
            hlen == hay@.len(),
            end == hlen - needle@.len(),
            i <= end + 1,
            forall|ii: int| 0 <= ii < i ==> !contains_at(hay@, needle@, ii),
        decreases end + 1 - i,
    {
        if match_at(hay, needle, i) {
            assert(contains_at(hay@, needle@, i as int));
            return true;
        }
        i = i + 1;
    }
    false
}

/// Decides whether an adapter description denotes a virtual adapter: true
/// exactly when the case-folded description contains a keyword of the fixed
/// set.
pub fn classify(description: &str) -> (r: bool)
    ensures
        r == is_virtual_desc(description@),
{
    let chars = chars_vec(description);
    let lowered = lower_vec(&chars);
    let mut k: usize = 0;
    while k < KEYWORD_COUNT
        invariant
            lowered@ == lower_seq(description@),
            k <= KEYWORD_COUNT,
            forall|kk: int| 0 <= kk < k ==> !contains_seq(lower_seq(description@), keyword(kk)),
        decreases KEYWORD_COUNT - k,
    {
        let kw = chars_vec(keyword_at(k));
        if contains_chars(&lowered, &kw) {
            assert(contains_seq(lower_seq(description@), keyword(k as int)));
            return true;
        }
        k = k + 1;
    }
    false
}

/// Law: case folding is idempotent, so a description and its case-folded
/// form fold to the same string.
pub proof fn lemma_lower_idempotent(s: Seq<char>)
    ensures
        lower_seq(lower_seq(s)) == lower_seq(s),
{
    assert forall|j: int| 0 <= j < s.len() implies lower_char(lower_char(s[j])) == lower_char(
        s[j],
    ) by {
        let c = s[j];
        if 'A' <= c && c <= 'Z' {
            assert(lower_char(c) == ((c as u8) + 32) as char);
        }
    }
    assert(lower_seq(lower_seq(s)) =~= lower_seq(s));
}

/// Law: classification is invariant under case transformation of the input.
/// Any two descriptions with the same case-folded form — in particular a
/// description and any re-cased variant of it — classify alike.
pub proof fn lemma_classify_case_invariant(s1: Seq<char>, s2: Seq<char>)
    requires
        lower_seq(s1) == lower_seq(s2),
    ensures
        is_virtual_desc(s1) == is_virtual_desc(s2),
{
}

/// Law: case-folding a description before classifying it changes nothing.
pub proof fn lemma_classify_of_lowered(s: Seq<char>)
    ensures
        is_virtual_desc(lower_seq(s)) == is_virtual_desc(s),
{
    lemma_lower_idempotent(s);
    lemma_classify_case_invariant(lower_seq(s), s);
}

} // verus!
