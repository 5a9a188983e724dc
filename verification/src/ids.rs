//! Agent identifier type: a 128-bit opaque value with a canonical
//! hyphenated-hexadecimal text form.

use vstd::prelude::*;

verus! {

/// Unique identifier for an agent participating in the mesh.
///
/// Equality and hashing go by the bit pattern alone.
#[derive(Clone, Copy, Debug, Hash, PartialEq, Eq, Structural)]
pub struct AgentId {
    bits: u128,
}

/// Relies on `uuid::Uuid::new_v4`: a version-4 identifier drawn from the
/// process's cryptographic random source. Its source fixes the version
/// nibble to 4 and the variant bits to the RFC form; nothing else is known
/// of the value.
#[verifier::external_body]
pub(crate) fn fresh_v4_bits() -> (r: u128)
    ensures
        (r >> 76) & 0xf == 4,
        (r >> 62) & 0x3 == 2,
{
    uuid::Uuid::new_v4().as_u128()
}

/// The hexadecimal digit character for a value below sixteen.
pub open spec fn hex_char(d: u128) -> char {
    if d == 0 {
        '0'
    } else if d == 1 {
        '1'
    } else if d == 2 {
        '2'
    } else if d == 3 {
        '3'
    } else if d == 4 {
        '4'
    } else if d == 5 {
        '5'
    } else if d == 6 {
        '6'
    } else if d == 7 {
        '7'
    } else if d == 8 {
        '8'
    } else if d == 9 {
        '9'
    } else if d == 10 {
        'a'
    } else if d == 11 {
        'b'
    } else if d == 12 {
        'c'
    } else if d == 13 {
        'd'
    } else if d == 14 {
        'e'
    } else {
        'f'
    }
}

/// The `k`-th nibble of `bits`, counting from the most significant.
pub open spec fn nibble(bits: u128, k: int) -> u128 {
    (bits >> (((31 - k) * 4) as u128)) & 0xf
}

/// Hexadecimal characters for nibbles `from..to` of `bits`.
pub open spec fn hex_chars(bits: u128, from: int, to: int) -> Seq<char>
    decreases to - from,
{
    if to <= from {
        Seq::empty()
    } else {
        hex_chars(bits, from, to - 1).push(hex_char(nibble(bits, to - 1)))
    }
}

/// The canonical text of a 128-bit identifier: 32 lowercase hexadecimal
/// digits in five hyphen-separated groups of 8, 4, 4, 4 and 12.
pub open spec fn spec_id_text(bits: u128) -> Seq<char> {
    hex_chars(bits, 0, 8) + seq!['-'] + hex_chars(bits, 8, 12) + seq!['-'] + hex_chars(bits, 12, 16)
        + seq!['-'] + hex_chars(bits, 16, 20) + seq!['-'] + hex_chars(bits, 20, 32)
}

/// The nibble value of a hexadecimal digit character, if it is one.
/// Both letter cases are accepted.
pub open spec fn spec_hex_val(c: char) -> Option<u8> {
    if c == '0' {
        Some(0u8)
    } else if c == '1' {
        Some(1u8)
    } else if c == '2' {
        Some(2u8)
    } else if c == '3' {
        Some(3u8)
    } else if c == '4' {
        Some(4u8)
    } else if c == '5' {
        Some(5u8)
    } else if c == '6' {
        Some(6u8)
    } else if c == '7' {
        Some(7u8)
    } else if c == '8' {
        Some(8u8)
    } else if c == '9' {
        Some(9u8)
    } else if c == 'a' || c == 'A' {
        Some(10u8)
    } else if c == 'b' || c == 'B' {
        Some(11u8)
    } else if c == 'c' || c == 'C' {
        Some(12u8)
    } else if c == 'd' || c == 'D' {
        Some(13u8)
    } else if c == 'e' || c == 'E' {
        Some(14u8)
    } else if c == 'f' || c == 'F' {
        Some(15u8)
    } else {
        None
    }
}

/// Whether position `i` of the canonical text holds a hyphen.
pub open spec fn is_hyphen_pos(i: int) -> bool {
    i == 8 || i == 13 || i == 18 || i == 23
}

/// What parsing the canonical text yields from position `i` on, having
/// accumulated `acc`: each digit shifts the accumulator left by one nibble.
pub open spec fn spec_parse_from(t: Seq<char>, i: int, acc: u128) -> Option<u128>
    decreases 36 - i,
{
    if i < 0 || i >= 36 {
        Some(acc)
    } else if is_hyphen_pos(i) {
        if t[i] == '-' {
            spec_parse_from(t, i + 1, acc)
        } else {
            None
        }
    } else {
        match spec_hex_val(t[i]) {
            Some(d) => spec_parse_from(t, i + 1, (acc << 4) | d as u128),
            None => None,
        }
    }
}

/// What parsing a candidate canonical text yields: the bit pattern, or
/// nothing when the text is not 36 characters of hyphen-grouped hex digits.
pub open spec fn spec_parse_id(t: Seq<char>) -> Option<u128> {
    if t.len() == 36 {
        spec_parse_from(t, 0, 0)
    } else {
        None
    }
}

/// Appends the hexadecimal digit character for `d` to `out`.
fn push_hex_digit(out: &mut String, d: u128)
    requires
        d < 16,
    ensures
        final(out)@ == old(out)@.push(hex_char(d)),
{
    let ghost prior = out@;
    if d == 0 {
        out.append("0");
        proof {
            reveal_strlit("0");
        }
    } else if d == 1 {
        out.append("1");
        proof {
            reveal_strlit("1");
        }
    } else if d == 2 {
        out.append("2");
        proof {
            reveal_strlit("2");
        }
    } else if d == 3 {
        out.append("3");
        proof {
            reveal_strlit("3");
        }
    } else if d == 4 {
        out.append("4");
        proof {
            reveal_strlit("4");
        }
    } else if d == 5 {
        out.append("5");
        proof {
            reveal_strlit("5");
        }
    } else if d == 6 {
        out.append("6");
        proof {
            reveal_strlit("6");
        }
    } else if d == 7 {
        out.append("7");
        proof {
            reveal_strlit("7");
        }
    } else if d == 8 {
        out.append("8");
        proof {
            reveal_strlit("8");
        }
    } else if d == 9 {
        out.append("9");
        proof {
            reveal_strlit("9");
        }
    } else if d == 10 {
        out.append("a");
        proof {
            reveal_strlit("a");
        }
    } else if d == 11 {
        out.append("b");
        proof {
            reveal_strlit("b");
        }
    } else if d == 12 {
        out.append("c");
        proof {
            reveal_strlit("c");
        }
    } else if d == 13 {
        out.append("d");
        proof {
            reveal_strlit("d");
        }
    } else if d == 14 {
        out.append("e");
        proof {
            reveal_strlit("e");
        }
    } else {
        out.append("f");
        proof {
            reveal_strlit("f");
        }
    }
    proof {
        assert(final(out)@ =~= prior.push(hex_char(d)));
    }
}

/// Appends the hex digits for nibbles `from..to` of `bits` to `out`.
fn push_hex_range(out: &mut String, bits: u128, from: usize, to: usize)
    requires
        from <= to <= 32,
    ensures
        final(out)@ == old(out)@ + hex_chars(bits, from as int, to as int),
{
    let ghost prior = out@;
    let mut k: usize = from;
    proof {
        assert(prior + hex_chars(bits, from as int, from as int) =~= prior);
    }
    while k < to
        invariant
            from <= k <= to <= 32,
            out@ == prior + hex_chars(bits, from as int, k as int),
        decreases to - k,
    {
        let shift: u32 = ((31 - k) as u32) * 4;
        let d: u128 = (bits >> shift) & 0xf;
        proof {
            assert((bits >> shift) & 0xf < 16) by (bit_vector);
            assert(d == nibble(bits, k as int));
        }
        push_hex_digit(out, d);
        k = k + 1;
        proof {
            assert(out@ =~= prior + hex_chars(bits, from as int, k as int));
        }
    }
}

/// The nibble value of a hexadecimal digit character, if it is one.
fn hex_val(c: char) -> (r: Option<u8>)
    ensures
        r == spec_hex_val(c),
{
    match c {
        '0' => Some(0),
        '1' => Some(1),
        '2' => Some(2),
        '3' => Some(3),
        '4' => Some(4),
        '5' => Some(5),
        '6' => Some(6),
        '7' => Some(7),
        '8' => Some(8),
        '9' => Some(9),
        'a' | 'A' => Some(10),
        'b' | 'B' => Some(11),
        'c' | 'C' => Some(12),
        'd' | 'D' => Some(13),
        'e' | 'E' => Some(14),
        'f' | 'F' => Some(15),
        _ => None,
    }
}

/// Renders the canonical text of a 128-bit identifier: five
/// hyphen-separated groups of lowercase hexadecimal digits.
pub fn id_text(bits: u128) -> (r: String)
    ensures
        r@ == spec_id_text(bits),
{
    let mut out = String::new();
    push_hex_range(&mut out, bits, 0, 8);
    proof {
        reveal_strlit("-");
    }
    out.append("-");
    push_hex_range(&mut out, bits, 8, 12);
    out.append("-");
    push_hex_range(&mut out, bits, 12, 16);
    out.append("-");
    push_hex_range(&mut out, bits, 16, 20);
    out.append("-");
    push_hex_range(&mut out, bits, 20, 32);
    proof {
        assert(out@ =~= spec_id_text(bits));
    }
    out
}

impl AgentId {
    /// Generates a random agent identifier.
    pub fn random() -> (r: AgentId) {
        AgentId { bits: fresh_v4_bits() }
    }

    /// Creates an identifier from an existing bit pattern.
    pub fn from_bits(bits: u128) -> (r: AgentId)
        ensures
            r.bits() == bits,
    {
        AgentId { bits }
    }

    /// Returns the underlying 128-bit value.
    pub fn as_bits(self) -> (r: u128)
        ensures
            r == self.bits(),
    {
        self.bits
    }

    /// The identifier's bit pattern.
    pub closed spec fn bits(self) -> u128 {
        self.bits
    }

    /// Renders the canonical text form: five hyphen-separated groups of
    /// lowercase hexadecimal digits.
    pub fn to_text(&self) -> (r: String)
        ensures
            r@ == spec_id_text(self.bits()),
    {
        id_text(self.bits)
    }

    /// Parses the canonical text form back into an identifier.
    ///
    /// Returns `None` exactly when the text is not 36 characters of
    /// hyphen-grouped hexadecimal digits; letter case is not significant.
    pub fn parse_text(s: &str) -> (r: Option<AgentId>)
        ensures
            match r {
                Some(id) => spec_parse_id(s@) == Some(id.bits()),
                None => spec_parse_id(s@) is None,
            },
    {
        let n = s.unicode_len();
        if n != 36 {
            return None;
        }
        let mut acc: u128 = 0;
        let mut i: usize = 0;
        while i < 36
            invariant
                0 <= i <= 36,
                s@.len() == 36,
                spec_parse_from(s@, 0, 0) == spec_parse_from(s@, i as int, acc),
            decreases 36 - i,
        {
            let c = s.get_char(i);
            if i == 8 || i == 13 || i == 18 || i == 23 {
                if c != '-' {
                    return None;
                }
            } else {
                match hex_val(c) {
                    Some(d) => {
                        acc = (acc << 4) | d as u128;
                    },
                    None => {
                        return None;
                    },
                }
            }
            i = i + 1;
        }
        Some(AgentId { bits: acc })
    }
}

} // verus!
