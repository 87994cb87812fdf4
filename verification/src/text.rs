//! Character-exact text helpers: equality of string slices, left-justified
//! padding, and runs of a repeated character.

use vstd::prelude::*;
use vstd::string::StrSliceExecFns;
use vstd::string::StringExecFns;

verus! {

/// `n` space characters.
pub open spec fn spaces(n: nat) -> Seq<char> {
    Seq::new(n, |i: int| ' ')
}

/// `n` dash characters.
pub open spec fn dashes(n: nat) -> Seq<char> {
    Seq::new(n, |i: int| '-')
}

/// `s` left-justified in a field of `width` characters: padded on the right
/// with spaces where it is shorter, kept whole where it is not.
pub open spec fn pad_text(s: Seq<char>, width: nat) -> Seq<char> {
    if s.len() >= width {
        s
    } else {
        s + spaces((width - s.len()) as nat)
    }
}

/// Text with no newline in it: text that prints as a single line.
pub open spec fn newline_free(s: Seq<char>) -> bool {
    forall|i: int| 0 <= i < s.len() ==> s[i] != '\n'
}

/// Joining single-line texts keeps them a single line.
pub proof fn lemma_newline_free_concat(a: Seq<char>, b: Seq<char>)
    requires
        newline_free(a),
        newline_free(b),
    ensures
        newline_free(a + b),
{
    assert forall|i: int| 0 <= i < (a + b).len() implies (a + b)[i] != '\n' by {
        if i < a.len() {
            assert((a + b)[i] == a[i]);
        } else {
            assert((a + b)[i] == b[i - a.len()]);
        }
    }
}

/// Padding keeps single-line text a single line.
pub proof fn lemma_pad_newline_free(s: Seq<char>, width: nat)
    requires
        newline_free(s),
    ensures
        newline_free(pad_text(s, width)),
{
    if s.len() < width {
        assert(newline_free(spaces((width - s.len()) as nat)));
        lemma_newline_free_concat(s, spaces((width - s.len()) as nat));
    }
}

/// Character-exact equality of two string slices.
pub fn str_eq(a: &str, b: &str) -> (r: bool)
    ensures
        r == (a@ == b@),
{
    let a_len = a.unicode_len();
    let b_len = b.unicode_len();
    if a_len != b_len {
        return false;
    }
    let mut i: usize = 0;
    while i < a_len
        invariant
            a_len == a@.len(),
            b_len == b@.len(),
            a_len == b_len,
            i <= a_len,
            forall|k: int| 0 <= k < i ==> a@[k] == b@[k],
        decreases a_len - i,
    {
        if a.get_char(i) != b.get_char(i) {
            return false;
        }
        i += 1;
    }
    proof {
        assert(a@ =~= b@);
    }
    true
}

/// Left-justifies `s` with spaces up to a minimum of `width` characters.
pub fn pad_right(s: &str, width: usize) -> (r: String)
    ensures
        r@ == pad_text(s@, width as nat),
{
    let len = s.unicode_len();
    let mut r = String::from_str(s);
    if len >= width {
        return r;
    }
    let mut i: usize = len;
    while i < width
        invariant
            len == s@.len(),
            len <= i <= width,
            r@ == s@ + spaces((i - len) as nat),
        decreases width - i,
    {
        r.append(" ");
        proof {
            reveal_strlit(" ");
            assert(r@ =~= s@ + spaces((i + 1 - len) as nat));
        }
        i += 1;
    }
    proof {
        assert(r@ =~= pad_text(s@, width as nat));
    }
    r
}

/// A line of `n` dashes.
pub fn dash_line(n: usize) -> (r: String)
    ensures
        r@ == dashes(n as nat),
{
    let mut r = String::new();
    let mut i: usize = 0;
    while i < n
        invariant
            i <= n,
            r@ == dashes(i as nat),
        decreases n - i,
    {
        r.append("-");
        proof {
            reveal_strlit("-");
            assert(r@ =~= dashes((i + 1) as nat));
        }
        i += 1;
    }
    r
}

} // verus!
