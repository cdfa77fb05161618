//! Names of the files a finished battle's logs are exported to.
use vstd::prelude::*;
use vstd::string::*;

use crate::chars::{ascii_lower_seq, lower_char};

verus! {

pub open spec fn is_ascii_alnum(c: char) -> bool {
    ('0' <= c && c <= '9') || ('a' <= c && c <= 'z') || ('A' <= c && c <= 'Z')
}

/// The characters of `s` a file name keeps: ASCII letters and digits as they are, a space, `-`
/// or `_` as `_`; every other character is dropped.
pub open spec fn slug_chars(s: Seq<char>) -> Seq<char>
    decreases s.len(),
{
    if s.len() == 0 {
        Seq::empty()
    } else {
        let r = slug_chars(s.drop_last());
        let c = s.last();
        if is_ascii_alnum(c) {
            r.push(c)
        } else if c == ' ' || c == '-' || c == '_' {
            r.push('_')
        } else {
            r
        }
    }
}

/// `s` without the `_` at its start and its end.
pub open spec fn strip_underscores(s: Seq<char>) -> Seq<char>
    decreases s.len(),
{
    if s.len() > 0 && s[0] == '_' {
        strip_underscores(s.drop_first())
    } else if s.len() > 0 && s.last() == '_' {
        strip_underscores(s.drop_last())
    } else {
        s
    }
}

/// The file-name part made of a text: its kept characters (see `slug_chars`) without leading and
/// trailing `_`, in lower case; `battle_result` when nothing is left.
pub open spec fn spec_filename_segment(s: Seq<char>) -> Seq<char> {
    let t = strip_underscores(slug_chars(s));
    if t.len() == 0 {
        "battle_result"@
    } else {
        ascii_lower_seq(t)
    }
}

/// The text of `chars`, in order, through std's collection of characters into a `String`.
#[verifier::external_body]
fn string_from_chars(chars: &Vec<char>) -> (s: String)
    ensures
        s@ == chars@,
{
    chars.iter().collect()
}

proof fn lemma_strip(s: Seq<char>, i: int, j: int)
    requires
        0 <= i <= j <= s.len(),
        forall|k: int| 0 <= k < i ==> s[k] == '_',
        forall|k: int| j <= k < s.len() ==> s[k] == '_',
        i < j ==> s[i] != '_' && s[j - 1] != '_',
        i == j ==> i == s.len(),
    ensures
        strip_underscores(s) == s.subrange(i, j),
    decreases s.len(),
{
    if i > 0 {
        let t = s.drop_first();
        assert forall|k: int| 0 <= k < i - 1 implies t[k] == '_' by {
            assert(t[k] == s[k + 1]);
        }
        assert forall|k: int| j - 1 <= k < t.len() implies t[k] == '_' by {
            assert(t[k] == s[k + 1]);
        }
        if i < j {
            assert(t[i - 1] == s[i]);
            assert(t[j - 2] == s[j - 1]);
        }
        lemma_strip(t, i - 1, j - 1);
        assert(t.subrange(i - 1, j - 1) =~= s.subrange(i, j));
    } else if j < s.len() {
        let t = s.drop_last();
        assert forall|k: int| j <= k < t.len() implies t[k] == '_' by {
            assert(t[k] == s[k]);
        }
        assert(t[0] == s[0]);
        assert(t[j - 1] == s[j - 1]);
        lemma_strip(t, 0, j);
        assert(t.subrange(0, j) =~= s.subrange(0, j));
    } else {
        assert(s.subrange(0, s.len() as int) =~= s);
    }
}

/// The file-name part made of a result message (see `spec_filename_segment`).
pub fn sanitize_filename_segment(input: &str) -> (out: String)
    ensures
        out@ == spec_filename_segment(input@),
{
    let n = input.unicode_len();
    let mut kept: Vec<char> = Vec::new();
    let mut k: usize = 0;
    while k < n
        invariant
            n == input@.len(),
            k <= n,
            kept@ == slug_chars(input@.subrange(0, k as int)),
        decreases n - k,
    {
        let ghost pre = input@.subrange(0, k + 1);
        assert(pre.drop_last() =~= input@.subrange(0, k as int));
        let c = input.get_char(k);
        if ('0' <= c && c <= '9') || ('a' <= c && c <= 'z') || ('A' <= c && c <= 'Z') {
            kept.push(c);
        } else if c == ' ' || c == '-' || c == '_' {
            kept.push('_');
        }
        k = k + 1;
    }
    assert(input@.subrange(0, n as int) =~= input@);
    let m = kept.len();
    let mut i: usize = 0;
    while i < m && kept[i] == '_'
        invariant
            m == kept@.len(),
            i <= m,
            forall|x: int| 0 <= x < i ==> kept@[x] == '_',
        decreases m - i,
    {
        i = i + 1;
    }
    let mut j: usize = m;
    while j > i && kept[j - 1] == '_'
        invariant
            m == kept@.len(),
            i <= j <= m,
            forall|x: int| j <= x < m ==> kept@[x] == '_',
        decreases j,
    {
        j = j - 1;
    }
    proof {
        lemma_strip(kept@, i as int, j as int);
    }
    if i == j {
        return "battle_result".to_owned();
    }
    let mut lowered: Vec<char> = Vec::new();
    let mut x: usize = i;
    while x < j
        invariant
            i <= x <= j <= m,
            m == kept@.len(),
            lowered@ == ascii_lower_seq(kept@.subrange(i as int, x as int)),
        decreases j - x,
    {
        lowered.push(lower_char(kept[x]));
        assert(lowered@ =~= ascii_lower_seq(kept@.subrange(i as int, x + 1)));
        x = x + 1;
    }
    string_from_chars(&lowered)
}

} // verus!
