//! Fixed-width 128-bit identifiers (player ids, leaderboard keys, admin
//! account ids) and their canonical lowercase hyphenated text form.

use vstd::prelude::*;

use crate::InvalidKey;

verus! {

/// The lowercase hexadecimal digit for a nibble value.
pub open spec fn hex_char(n: u8) -> char {
    if n == 0 {
        '0'
    } else if n == 1 {
        '1'
    } else if n == 2 {
        '2'
    } else if n == 3 {
        '3'
    } else if n == 4 {
        '4'
    } else if n == 5 {
        '5'
    } else if n == 6 {
        '6'
    } else if n == 7 {
        '7'
    } else if n == 8 {
        '8'
    } else if n == 9 {
        '9'
    } else if n == 10 {
        'a'
    } else if n == 11 {
        'b'
    } else if n == 12 {
        'c'
    } else if n == 13 {
        'd'
    } else if n == 14 {
        'e'
    } else {
        'f'
    }
}

/// The nibble value of a lowercase hexadecimal digit.
pub open spec fn hex_val(c: char) -> u8 {
    if c == '0' {
        0
    } else if c == '1' {
        1
    } else if c == '2' {
        2
    } else if c == '3' {
        3
    } else if c == '4' {
        4
    } else if c == '5' {
        5
    } else if c == '6' {
        6
    } else if c == '7' {
        7
    } else if c == '8' {
        8
    } else if c == '9' {
        9
    } else if c == 'a' {
        10
    } else if c == 'b' {
        11
    } else if c == 'c' {
        12
    } else if c == 'd' {
        13
    } else if c == 'e' {
        14
    } else {
        15
    }
}

pub open spec fn is_hex_lower(c: char) -> bool {
    c == '0' || c == '1' || c == '2' || c == '3' || c == '4' || c == '5' || c == '6' || c == '7'
        || c == '8' || c == '9' || c == 'a' || c == 'b' || c == 'c' || c == 'd' || c == 'e' || c
        == 'f'
}

pub proof fn lemma_hex_char_val(n: u8)
    requires
        n < 16,
    ensures
        is_hex_lower(hex_char(n)),
        hex_val(hex_char(n)) == n,
{
}

pub proof fn lemma_hex_val_char(c: char)
    requires
        is_hex_lower(c),
    ensures
        hex_val(c) < 16,
        hex_char(hex_val(c)) == c,
{
}

/// The exec counterpart of `hex_char`, as a one-character string slice.
fn hex_char_str<'a>(n: u8) -> (r: &'a str)
    requires
        n < 16,
    ensures
        r@ =~= seq![hex_char(n)],
{
    if n == 0 {
        proof {
            reveal_strlit("0");
        }
        "0"
    } else if n == 1 {
        proof {
            reveal_strlit("1");
        }
        "1"
    } else if n == 2 {
        proof {
            reveal_strlit("2");
        }
        "2"
    } else if n == 3 {
        proof {
            reveal_strlit("3");
        }
        "3"
    } else if n == 4 {
        proof {
            reveal_strlit("4");
        }
        "4"
    } else if n == 5 {
        proof {
            reveal_strlit("5");
        }
        "5"
    } else if n == 6 {
        proof {
            reveal_strlit("6");
        }
        "6"
    } else if n == 7 {
        proof {
            reveal_strlit("7");
        }
        "7"
    } else if n == 8 {
        proof {
            reveal_strlit("8");
        }
        "8"
    } else if n == 9 {
        proof {
            reveal_strlit("9");
        }
        "9"
    } else if n == 10 {
        proof {
            reveal_strlit("a");
        }
        "a"
    } else if n == 11 {
        proof {
            reveal_strlit("b");
        }
        "b"
    } else if n == 12 {
        proof {
            reveal_strlit("c");
        }
        "c"
    } else if n == 13 {
        proof {
            reveal_strlit("d");
        }
        "d"
    } else if n == 14 {
        proof {
            reveal_strlit("e");
        }
        "e"
    } else {
        proof {
            reveal_strlit("f");
        }
        "f"
    }
}

/// The exec counterpart of `hex_val`: `Some` exactly on lowercase hex digits.
fn hex_val_opt(c: char) -> (r: Option<u8>)
    ensures
        r is Some <==> is_hex_lower(c),
        r matches Some(v) ==> v == hex_val(c) && v < 16,
{
    if c == '0' {
        Some(0)
    } else if c == '1' {
        Some(1)
    } else if c == '2' {
        Some(2)
    } else if c == '3' {
        Some(3)
    } else if c == '4' {
        Some(4)
    } else if c == '5' {
        Some(5)
    } else if c == '6' {
        Some(6)
    } else if c == '7' {
        Some(7)
    } else if c == '8' {
        Some(8)
    } else if c == '9' {
        Some(9)
    } else if c == 'a' {
        Some(10)
    } else if c == 'b' {
        Some(11)
    } else if c == 'c' {
        Some(12)
    } else if c == 'd' {
        Some(13)
    } else if c == 'e' {
        Some(14)
    } else if c == 'f' {
        Some(15)
    } else {
        None
    }
}

/// In the 36-character hyphenated form, these positions hold a hyphen.
pub open spec fn uuid_pos_is_hyphen(i: int) -> bool {
    i == 8 || i == 13 || i == 18 || i == 23
}

/// For a non-hyphen position, which hex digit (0..32) stands there.
pub open spec fn uuid_digit_index(i: int) -> int {
    if i < 8 {
        i
    } else if i < 13 {
        i - 1
    } else if i < 18 {
        i - 2
    } else if i < 23 {
        i - 3
    } else {
        i - 4
    }
}

/// Where the d-th hex digit (0..32) stands in the 36-character form.
pub open spec fn uuid_digit_pos(d: int) -> int {
    if d < 8 {
        d
    } else if d < 12 {
        d + 1
    } else if d < 16 {
        d + 2
    } else if d < 20 {
        d + 3
    } else {
        d + 4
    }
}

/// The character at position i of the hyphenated form of 16 bytes.
pub open spec fn uuid_char_at(b: Seq<u8>, i: int) -> char {
    if uuid_pos_is_hyphen(i) {
        '-'
    } else {
        let d = uuid_digit_index(i);
        if d % 2 == 0 {
            hex_char(b[d / 2] / 16)
        } else {
            hex_char(b[d / 2] % 16)
        }
    }
}

/// Canonical lowercase hyphenated text of 16 bytes: 8-4-4-4-12 hex digits.
pub open spec fn spec_hyphenated(b: Seq<u8>) -> Seq<char> {
    Seq::new(36, |i: int| uuid_char_at(b, i))
}

/// A 36-character sequence shaped like a lowercase hyphenated id.
pub open spec fn is_hyphenated_format(s: Seq<char>) -> bool {
    &&& s.len() == 36
    &&& forall|i: int| 0 <= i < 36 && uuid_pos_is_hyphen(i) ==> #[trigger] s[i] == '-'
    &&& forall|i: int| 0 <= i < 36 && !uuid_pos_is_hyphen(i) ==> is_hex_lower(#[trigger] s[i])
}

/// The 16 bytes read back from a hyphenated text.
pub open spec fn bytes_of_hyphenated(s: Seq<char>) -> Seq<u8> {
    Seq::new(
        16,
        |k: int| (hex_val(s[uuid_digit_pos(2 * k)]) * 16 + hex_val(
            s[uuid_digit_pos(2 * k + 1)],
        )) as u8,
    )
}

/// A fixed-width 128-bit identifier: a player id, a player's secret MAC key,
/// a leaderboard key, or an admin account id.
pub struct UuidBytes {
    bytes: Vec<u8>,
}

impl View for UuidBytes {
    type V = Seq<u8>;

    closed spec fn view(&self) -> Seq<u8> {
        self.bytes@
    }
}

/// Every id value carries the fixed 16-byte width.
#[verifier::type_invariant]
pub open spec fn uuid_wf(u: UuidBytes) -> bool {
    u@.len() == 16
}

impl Clone for UuidBytes {
    fn clone(&self) -> (r: Self)
        ensures
            r@ == self@,
    {
        proof {
            use_type_invariant(self);
        }
        let mut bytes: Vec<u8> = Vec::new();
        let mut i: usize = 0;
        while i < 16
            invariant
                self@.len() == 16,
                i <= 16,
                bytes@ =~= self@.take(i as int),
            decreases 16 - i,
        {
            bytes.push(self.bytes[i]);
            proof {
                assert(bytes@ =~= self@.take(i as int + 1));
            }
            i += 1;
        }
        proof {
            assert(bytes@ =~= self@);
        }
        UuidBytes { bytes }
    }
}

impl UuidBytes {
    /// Builds an id from raw bytes; fails with `InvalidKey` unless the slice
    /// has exactly the fixed 16-byte width (never truncates or pads).
    pub fn from_slice(v: &[u8]) -> (r: Result<UuidBytes, InvalidKey>)
        ensures
            r matches Ok(u) ==> u@ == v@ && v@.len() == 16,
            r is Err <==> v@.len() != 16,
    {
        if v.len() != 16 {
            return Err(InvalidKey);
        }
        let bytes = vstd::slice::slice_to_vec(v);
        Ok(UuidBytes { bytes })
    }

    /// The raw 16 bytes.
    pub fn bytes(&self) -> (r: &[u8])
        ensures
            r@ == self@,
            r@.len() == 16,
    {
        proof {
            use_type_invariant(self);
        }
        self.bytes.as_slice()
    }

    /// The canonical lowercase hyphenated text form.
    pub fn to_hyphenated(&self) -> (r: String)
        ensures
            r@ == spec_hyphenated(self@),
    {
        proof {
            use_type_invariant(self);
        }
        let mut s = String::new();
        let mut i: usize = 0;
        while i < 36
            invariant
                self@.len() == 16,
                i <= 36,
                s@ =~= spec_hyphenated(self@).take(i as int),
            decreases 36 - i,
        {
            if i == 8 || i == 13 || i == 18 || i == 23 {
                proof {
                    reveal_strlit("-");
                }
                s.append("-");
                proof {
                    assert(("-")@ =~= seq!['-']);
                }
            } else {
                let d: usize = if i < 8 {
                    i
                } else if i < 13 {
                    i - 1
                } else if i < 18 {
                    i - 2
                } else if i < 23 {
                    i - 3
                } else {
                    i - 4
                };
                let byte = self.bytes[d / 2];
                let nib: u8 = if d % 2 == 0 {
                    byte / 16
                } else {
                    byte % 16
                };
                s.append(hex_char_str(nib));
            }
            proof {
                assert(s@ =~= spec_hyphenated(self@).take(i as int + 1));
            }
            i += 1;
        }
        proof {
            assert(s@ =~= spec_hyphenated(self@));
        }
        s
    }

    /// Parses the canonical lowercase hyphenated form, and nothing else.
    pub fn parse_hyphenated(s: &str) -> (r: Option<UuidBytes>)
        ensures
            r is Some <==> is_hyphenated_format(s@),
            r matches Some(u) ==> u@ == bytes_of_hyphenated(s@) && s@ == spec_hyphenated(u@),
    {
        let n = s.unicode_len();
        if n != 36 {
            return None;
        }
        let mut i: usize = 0;
        while i < 36
            invariant
                s@.len() == 36,
                i <= 36,
                forall|j: int|
                    0 <= j < i && uuid_pos_is_hyphen(j) ==> #[trigger] s@[j] == '-',
                forall|j: int|
                    0 <= j < i && !uuid_pos_is_hyphen(j) ==> is_hex_lower(#[trigger] s@[j]),
            decreases 36 - i,
        {
            let c = s.get_char(i);
            if i == 8 || i == 13 || i == 18 || i == 23 {
                if c != '-' {
                    return None;
                }
            } else {
                if hex_val_opt(c).is_none() {
                    return None;
                }
            }
            i += 1;
        }
        assert(is_hyphenated_format(s@));
        let mut out: Vec<u8> = Vec::new();
        let mut k: usize = 0;
        while k < 16
            invariant
                is_hyphenated_format(s@),
                k <= 16,
                out@.len() == k,
                forall|j: int| 0 <= j < k ==> #[trigger] out@[j] == bytes_of_hyphenated(s@)[j],
            decreases 16 - k,
        {
            let d: usize = 2 * k;
            let p: usize = if d < 8 {
                d
            } else if d < 12 {
                d + 1
            } else if d < 16 {
                d + 2
            } else if d < 20 {
                d + 3
            } else {
                d + 4
            };
            assert(p == uuid_digit_pos(2 * k) && p + 1 == uuid_digit_pos(2 * k + 1));
            assert(!uuid_pos_is_hyphen(p as int) && !uuid_pos_is_hyphen(p as int + 1));
            let c1 = s.get_char(p);
            let c2 = s.get_char(p + 1);
            let v1 = match hex_val_opt(c1) {
                Some(v) => v,
                None => {
                    proof {
                        assert(false);
                    }
                    0
                },
            };
            let v2 = match hex_val_opt(c2) {
                Some(v) => v,
                None => {
                    proof {
                        assert(false);
                    }
                    0
                },
            };
            out.push(v1 * 16 + v2);
            k += 1;
        }
        proof {
            assert(out@ =~= bytes_of_hyphenated(s@));
            lemma_hyphenated_of_bytes_of(s@);
        }
        Some(UuidBytes { bytes: out })
    }
}

/// Formatting 16 bytes always yields a well-shaped text, and reading the
/// bytes back undoes the formatting.
pub proof fn lemma_hyphenated_round_trip(b: Seq<u8>)
    requires
        b.len() == 16,
    ensures
        is_hyphenated_format(spec_hyphenated(b)),
        bytes_of_hyphenated(spec_hyphenated(b)) =~= b,
{
    let s = spec_hyphenated(b);
    assert forall|i: int| 0 <= i < 36 && !uuid_pos_is_hyphen(i) implies is_hex_lower(
        #[trigger] s[i],
    ) by {
        let d = uuid_digit_index(i);
        if d % 2 == 0 {
            lemma_hex_char_val(b[d / 2] / 16);
        } else {
            lemma_hex_char_val(b[d / 2] % 16);
        }
    }
    assert forall|k: int| 0 <= k < 16 implies bytes_of_hyphenated(s)[k] == b[k] by {
        let p1 = uuid_digit_pos(2 * k);
        let p2 = uuid_digit_pos(2 * k + 1);
        assert(uuid_digit_index(p1) == 2 * k && uuid_digit_index(p2) == 2 * k + 1);
        assert(s[p1] == hex_char(b[k] / 16) && s[p2] == hex_char(b[k] % 16));
        lemma_hex_char_val(b[k] / 16);
        lemma_hex_char_val(b[k] % 16);
        assert((b[k] / 16) * 16 + b[k] % 16 == b[k]);
    }
}

/// A well-shaped text is the formatting of the bytes read from it.
pub proof fn lemma_hyphenated_of_bytes_of(s: Seq<char>)
    requires
        is_hyphenated_format(s),
    ensures
        spec_hyphenated(bytes_of_hyphenated(s)) =~= s,
{
    let b = bytes_of_hyphenated(s);
    assert forall|i: int| 0 <= i < 36 implies spec_hyphenated(b)[i] == s[i] by {
        if !uuid_pos_is_hyphen(i) {
            let d = uuid_digit_index(i);
            let k = d / 2;
            let p1 = uuid_digit_pos(2 * k);
            let p2 = uuid_digit_pos(2 * k + 1);
            if d % 2 == 0 {
                assert(p1 == i);
            } else {
                assert(p2 == i);
            }
            lemma_hex_val_char(s[p1]);
            lemma_hex_val_char(s[p2]);
            assert(b[k] == (hex_val(s[p1]) * 16 + hex_val(s[p2])) as u8);
            assert(b[k] / 16 == hex_val(s[p1]) && b[k] % 16 == hex_val(s[p2]));
        }
    }
}

} // verus!
