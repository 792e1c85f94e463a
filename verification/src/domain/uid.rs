//! Universally unique identifiers held as sixteen plain bytes, with
//! the hyphenated lower-case hexadecimal rendering used in query text,
//! a strict parser for that same form, and a generator of fresh random
//! identifiers.

use vstd::prelude::*;
use vstd::string::StringSliceAdditionalSpecFns;

use crate::text::{byte_hex, push_byte_hex, push_char};

verus! {

/// A 128-bit identifier, big-endian byte order.
#[derive(Clone, Copy, PartialEq, Eq, Structural, Debug)]
pub struct Uuid {
    b0: u8,
    b1: u8,
    b2: u8,
    b3: u8,
    b4: u8,
    b5: u8,
    b6: u8,
    b7: u8,
    b8: u8,
    b9: u8,
    b10: u8,
    b11: u8,
    b12: u8,
    b13: u8,
    b14: u8,
    b15: u8,
}

impl Uuid {
    /// Byte `j` of the identifier.
    pub closed spec fn byte(self, j: int) -> u8 {
        if j == 0 {
            self.b0
        } else if j == 1 {
            self.b1
        } else if j == 2 {
            self.b2
        } else if j == 3 {
            self.b3
        } else if j == 4 {
            self.b4
        } else if j == 5 {
            self.b5
        } else if j == 6 {
            self.b6
        } else if j == 7 {
            self.b7
        } else if j == 8 {
            self.b8
        } else if j == 9 {
            self.b9
        } else if j == 10 {
            self.b10
        } else if j == 11 {
            self.b11
        } else if j == 12 {
            self.b12
        } else if j == 13 {
            self.b13
        } else if j == 14 {
            self.b14
        } else {
            self.b15
        }
    }

    /// The identifier whose bytes are the sixteen given ones.
    pub fn from_bytes(b: &[u8]) -> (r: Uuid)
        requires
            b@.len() == 16,
        ensures
            forall|j: int| 0 <= j < 16 ==> r.byte(j) == b@[j],
    {
        Uuid {
            b0: b[0],
            b1: b[1],
            b2: b[2],
            b3: b[3],
            b4: b[4],
            b5: b[5],
            b6: b[6],
            b7: b[7],
            b8: b[8],
            b9: b[9],
            b10: b[10],
            b11: b[11],
            b12: b[12],
            b13: b[13],
            b14: b[14],
            b15: b[15],
        }
    }

    /// A fresh random identifier.
    ///
    /// Relies on `uuid::Uuid::new_v4`: sixteen random bytes with the
    /// version nibble set to 4 and the variant bits set to 10.
    #[verifier::external_body]
    pub fn new_v4() -> (r: Uuid)
        ensures
            r.byte(6) / 16 == 4,
            r.byte(8) / 64 == 2,
    {
        let b = uuid::Uuid::new_v4().into_bytes();
        Uuid {
            b0: b[0], b1: b[1], b2: b[2], b3: b[3],
            b4: b[4], b5: b[5], b6: b[6], b7: b[7],
            b8: b[8], b9: b[9], b10: b[10], b11: b[11],
            b12: b[12], b13: b[13], b14: b[14], b15: b[15],
        }
    }
}

/// The hexadecimal digits of bytes `from` (inclusive) to `to`
/// (exclusive) of an identifier.
pub open spec fn hex_group(u: Uuid, from: int, to: int) -> Seq<char>
    decreases to - from,
{
    if from >= to {
        Seq::empty()
    } else {
        byte_hex(u.byte(from) as int) + hex_group(u, from + 1, to)
    }
}

/// The hyphenated lower-case hexadecimal rendering of an identifier:
/// digit groups of bytes 0..4, 4..6, 6..8, 8..10 and 10..16.
pub open spec fn uuid_chars(u: Uuid) -> Seq<char> {
    hex_group(u, 0, 4) + seq!['-'] + hex_group(u, 4, 6) + seq!['-'] + hex_group(u, 6, 8)
        + seq!['-'] + hex_group(u, 8, 10) + seq!['-'] + hex_group(u, 10, 16)
}

fn byte_at(u: &Uuid, j: usize) -> (b: u8)
    requires
        j < 16,
    ensures
        b == u.byte(j as int),
{
    if j == 0 {
        u.b0
    } else if j == 1 {
        u.b1
    } else if j == 2 {
        u.b2
    } else if j == 3 {
        u.b3
    } else if j == 4 {
        u.b4
    } else if j == 5 {
        u.b5
    } else if j == 6 {
        u.b6
    } else if j == 7 {
        u.b7
    } else if j == 8 {
        u.b8
    } else if j == 9 {
        u.b9
    } else if j == 10 {
        u.b10
    } else if j == 11 {
        u.b11
    } else if j == 12 {
        u.b12
    } else if j == 13 {
        u.b13
    } else if j == 14 {
        u.b14
    } else {
        u.b15
    }
}

fn push_hex_group(s: &mut String, u: &Uuid, from: usize, to: usize)
    requires
        from <= to <= 16,
    ensures
        final(s)@ == old(s)@ + hex_group(*u, from as int, to as int),
    decreases to - from,
{
    if from < to {
        push_byte_hex(s, byte_at(u, from));
        push_hex_group(s, u, from + 1, to);
    }
    assert(s@ =~= old(s)@ + hex_group(*u, from as int, to as int));
}

/// Appends the hyphenated rendering of an identifier.
pub fn push_uuid(s: &mut String, u: &Uuid)
    ensures
        final(s)@ == old(s)@ + uuid_chars(*u),
{
    push_hex_group(s, u, 0, 4);
    push_char(s, '-');
    push_hex_group(s, u, 4, 6);
    push_char(s, '-');
    push_hex_group(s, u, 6, 8);
    push_char(s, '-');
    push_hex_group(s, u, 8, 10);
    push_char(s, '-');
    push_hex_group(s, u, 10, 16);
    assert(s@ =~= old(s)@ + uuid_chars(*u));
}

impl Uuid {
    /// The hyphenated rendering as a fresh string.
    pub fn hyphenated(&self) -> (r: String)
        ensures
            r@ == uuid_chars(*self),
    {
        let mut s = String::new();
        push_uuid(&mut s, self);
        assert(s@ =~= uuid_chars(*self));
        s
    }
}

/// Whether a byte is an ASCII hexadecimal digit.
pub open spec fn is_hex_byte(c: int) -> bool {
    (48 <= c <= 57) || (97 <= c <= 102) || (65 <= c <= 70)
}

/// The value of an ASCII hexadecimal digit, either case.
pub open spec fn hex_val(c: int) -> int {
    if 48 <= c <= 57 {
        c - 48
    } else if 97 <= c <= 102 {
        c - 87
    } else {
        c - 55
    }
}

/// Where the two digits of byte `j` stand in the hyphenated text.
pub open spec fn hex_pos(j: int) -> int {
    2 * j + if j < 4 {
        0int
    } else if j < 6 {
        1int
    } else if j < 8 {
        2int
    } else if j < 10 {
        3int
    } else {
        4int
    }
}

/// Well-formed hyphenated identifier text, as UTF-8 bytes: 36 bytes,
/// hyphens at positions 8, 13, 18 and 23, hexadecimal digits at every
/// digit position.
pub open spec fn uuid_text_wf(sb: Seq<u8>) -> bool {
    &&& sb.len() == 36
    &&& sb[8] == 45
    &&& sb[13] == 45
    &&& sb[18] == 45
    &&& sb[23] == 45
    &&& forall|j: int|
        0 <= j < 16 ==> is_hex_byte(#[trigger] sb[hex_pos(j)] as int) && is_hex_byte(
            sb[hex_pos(j) + 1] as int,
        )
}

/// The byte encoded at pair `j` of well-formed identifier text.
pub open spec fn parsed_byte(sb: Seq<u8>, j: int) -> int {
    16 * hex_val(sb[hex_pos(j)] as int) + hex_val(sb[hex_pos(j) + 1] as int)
}

fn hex_nibble(c: u8) -> (r: Option<u8>)
    ensures
        r is Some <==> is_hex_byte(c as int),
        r is Some ==> r->0 == hex_val(c as int),
{
    if c >= 48 && c <= 57 {
        Some(c - 48)
    } else if c >= 97 && c <= 102 {
        Some(c - 87)
    } else if c >= 65 && c <= 70 {
        Some(c - 55)
    } else {
        None
    }
}

fn hex_pos_x(j: usize) -> (p: usize)
    requires
        j < 16,
    ensures
        p == hex_pos(j as int),
{
    if j < 4 {
        2 * j
    } else if j < 6 {
        2 * j + 1
    } else if j < 8 {
        2 * j + 2
    } else if j < 10 {
        2 * j + 3
    } else {
        2 * j + 4
    }
}

impl Uuid {
    /// Parses hyphenated identifier text, strictly: exactly the form
    /// `hyphenated` renders, either digit case.
    pub fn parse_str(s: &str) -> (r: Option<Uuid>)
        ensures
            r is Some <==> uuid_text_wf(s.spec_bytes()),
            r is Some ==> forall|j: int|
                0 <= j < 16 ==> r->0.byte(j) as int == parsed_byte(s.spec_bytes(), j),
    {
        let b = s.as_bytes();
        if b.len() != 36 {
            return None;
        }
        if b[8] != 45 || b[13] != 45 || b[18] != 45 || b[23] != 45 {
            return None;
        }
        let mut v: Vec<u8> = Vec::new();
        let mut j: usize = 0;
        while j < 16
            invariant
                j <= 16,
                v@.len() == j,
                b@ == s.spec_bytes(),
                b@.len() == 36,
                forall|jj: int|
                    0 <= jj < j ==> is_hex_byte(b@[#[trigger] hex_pos(jj)] as int) && is_hex_byte(
                        b@[hex_pos(jj) + 1] as int,
                    ),
                forall|jj: int| 0 <= jj < j ==> v@[jj] as int == parsed_byte(b@, jj),
            decreases 16 - j,
        {
            let p = hex_pos_x(j);
            let hi = match hex_nibble(b[p]) {
                Some(h) => h,
                None => {
                    return None;
                },
            };
            let lo = match hex_nibble(b[p + 1]) {
                Some(l) => l,
                None => {
                    return None;
                },
            };
            v.push(16 * hi + lo);
            proof {
                assert forall|jj: int| 0 <= jj < j + 1 implies is_hex_byte(
                    b@[#[trigger] hex_pos(jj)] as int,
                ) && is_hex_byte(b@[hex_pos(jj) + 1] as int) by {
                    if jj == j {
                        assert(hex_pos(jj) == p as int);
                        assert(is_hex_byte(b@[p as int] as int));
                        assert(is_hex_byte(b@[p as int + 1] as int));
                    }
                }
                assert forall|jj: int| 0 <= jj < j + 1 implies #[trigger] v@[jj] as int
                    == parsed_byte(b@, jj) by {
                    if jj == j {
                        assert(hex_pos(jj) == p as int);
                    }
                }
            }
            j = j + 1;
        }
        Some(Uuid::from_bytes(v.as_slice()))
    }
}

} // verus!
