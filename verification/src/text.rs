//! Small verified helpers over text values shared by the validation code.

use vstd::prelude::*;

verus! {

/// Whether `c` is whitespace: the characters of the Unicode `White_Space`
/// property, the set `char::is_whitespace` recognises. A label is blank
/// exactly when trimming these characters leaves nothing.
pub open spec fn is_space_char(c: char) -> bool {
    ||| c == '\t'
    ||| c == '\n'
    ||| c == '\u{000B}'
    ||| c == '\u{000C}'
    ||| c == '\r'
    ||| c == ' '
    ||| c == '\u{0085}'
    ||| c == '\u{00A0}'
    ||| c == '\u{1680}'
    ||| ('\u{2000}' <= c && c <= '\u{200A}')
    ||| c == '\u{2028}'
    ||| c == '\u{2029}'
    ||| c == '\u{202F}'
    ||| c == '\u{205F}'
    ||| c == '\u{3000}'
}

/// Returns whether `c` is whitespace.
pub(crate) fn char_is_space(c: char) -> (r: bool)
    ensures
        r == is_space_char(c),
{
    c == '\t' || c == '\n' || c == '\u{000B}' || c == '\u{000C}' || c == '\r' || c == ' ' || c
        == '\u{0085}' || c == '\u{00A0}' || c == '\u{1680}' || ('\u{2000}' <= c && c
        <= '\u{200A}') || c == '\u{2028}' || c == '\u{2029}' || c == '\u{202F}' || c == '\u{205F}'
        || c == '\u{3000}'
}

/// Whether a text consists of whitespace alone (an empty text is blank).
pub open spec fn spec_blank(t: Seq<char>) -> bool {
    forall|i: int| 0 <= i < t.len() ==> is_space_char(t[i])
}

/// Returns whether the text is empty or holds only whitespace.
pub fn is_blank(s: &str) -> (r: bool)
    ensures
        r == spec_blank(s@),
{
    let n = s.unicode_len();
    let mut i: usize = 0;
    while i < n
        invariant
            0 <= i <= n,
            n == s@.len(),
            forall|j: int| 0 <= j < i ==> is_space_char(s@[j]),
        decreases n - i,
    {
        let c = s.get_char(i);
        if !char_is_space(c) {
            return false;
        }
        i = i + 1;
    }
    true
}

/// Lexicographic order on texts, by character code point — the order a
/// byte-wise comparison of their UTF-8 encodings gives.
pub open spec fn seq_char_le(a: Seq<char>, b: Seq<char>) -> bool
    decreases a.len(),
{
    if a.len() == 0 {
        true
    } else if b.len() == 0 {
        false
    } else if a[0] != b[0] {
        a[0] < b[0]
    } else {
        seq_char_le(a.drop_first(), b.drop_first())
    }
}

/// The text order is total: one of the two directions always holds.
pub proof fn lemma_seq_char_le_total(a: Seq<char>, b: Seq<char>)
    ensures
        seq_char_le(a, b) || seq_char_le(b, a),
    decreases a.len(),
{
    if a.len() > 0 && b.len() > 0 && a[0] == b[0] {
        lemma_seq_char_le_total(a.drop_first(), b.drop_first());
    }
}

/// The text order is transitive.
pub proof fn lemma_seq_char_le_trans(a: Seq<char>, b: Seq<char>, c: Seq<char>)
    requires
        seq_char_le(a, b),
        seq_char_le(b, c),
    ensures
        seq_char_le(a, c),
    decreases a.len(),
{
    if a.len() == 0 {
    } else if a[0] == b[0] && b[0] == c[0] {
        lemma_seq_char_le_trans(a.drop_first(), b.drop_first(), c.drop_first());
    }
}

/// Compares two texts under the lexicographic order.
#[verifier::loop_isolation(false)]
pub fn str_le(a: &str, b: &str) -> (r: bool)
    ensures
        r == seq_char_le(a@, b@),
{
    let na = a.unicode_len();
    let nb = b.unicode_len();
    let mut i: usize = 0;
    proof {
        assert(a@.skip(0) =~= a@);
        assert(b@.skip(0) =~= b@);
    }
    while i < na && i < nb
        invariant
            0 <= i <= na,
            i <= nb,
            seq_char_le(a@, b@) == seq_char_le(a@.skip(i as int), b@.skip(i as int)),
        decreases na - i,
    {
        let ca = a.get_char(i);
        let cb = b.get_char(i);
        if ca != cb {
            return (ca as u32) < (cb as u32);
        }
        proof {
            assert(a@.skip(i as int).drop_first() =~= a@.skip(i as int + 1));
            assert(b@.skip(i as int).drop_first() =~= b@.skip(i as int + 1));
        }
        i = i + 1;
    }
    na <= nb
}

} // verus!
