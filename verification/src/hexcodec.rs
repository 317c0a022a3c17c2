//! Lower-case hexadecimal text for address bytes, and its inverse. Decoding
//! accepts upper-case digits as well, as the textual address forms of several
//! chains carry them; encoding always produces the lower-case form.
use vstd::prelude::*;

verus! {

/// The lower-case hexadecimal digit of a value below 16.
pub open spec fn hex_digit(v: nat) -> char {
    if v == 0 {
        '0'
    } else if v == 1 {
        '1'
    } else if v == 2 {
        '2'
    } else if v == 3 {
        '3'
    } else if v == 4 {
        '4'
    } else if v == 5 {
        '5'
    } else if v == 6 {
        '6'
    } else if v == 7 {
        '7'
    } else if v == 8 {
        '8'
    } else if v == 9 {
        '9'
    } else if v == 10 {
        'a'
    } else if v == 11 {
        'b'
    } else if v == 12 {
        'c'
    } else if v == 13 {
        'd'
    } else if v == 14 {
        'e'
    } else {
        'f'
    }
}

/// The lower-case hexadecimal text of a byte sequence: two digits per byte,
/// high digit first.
pub open spec fn hex_chars(b: Seq<u8>) -> Seq<char>
    decreases b.len(),
{
    if b.len() == 0 {
        Seq::empty()
    } else {
        seq![hex_digit((b[0] / 16) as nat), hex_digit((b[0] % 16) as nat)] + hex_chars(
            b.drop_first(),
        )
    }
}

/// Whether `c` is a hexadecimal digit, in either case.
pub open spec fn is_hex_char(c: char) -> bool {
    (48 <= c as u32 <= 57) || (97 <= c as u32 <= 102) || (65 <= c as u32 <= 70)
}

/// Whether `c` is a digit or a lower-case hexadecimal letter, the form the
/// encoder produces.
pub open spec fn is_lower_hex_char(c: char) -> bool {
    (48 <= c as u32 <= 57) || (97 <= c as u32 <= 102)
}

/// The value of a hexadecimal digit (zero on other characters).
pub open spec fn hex_val(c: char) -> nat {
    if 48 <= c as u32 <= 57 {
        (c as u32 - 48) as nat
    } else if 97 <= c as u32 <= 102 {
        (c as u32 - 87) as nat
    } else if 65 <= c as u32 <= 70 {
        (c as u32 - 55) as nat
    } else {
        0
    }
}

/// Whether a character sequence is well-formed hexadecimal text: an even
/// number of hexadecimal digits.
pub open spec fn is_hex_seq(s: Seq<char>) -> bool {
    s.len() % 2 == 0 && forall|i: int| 0 <= i < s.len() ==> is_hex_char(#[trigger] s[i])
}

/// The bytes denoted by hexadecimal text, two digits per byte.
pub open spec fn hex_bytes(s: Seq<char>) -> Seq<u8>
    decreases s.len(),
{
    if s.len() < 2 {
        Seq::empty()
    } else {
        seq![(hex_val(s[0]) * 16 + hex_val(s[1])) as u8] + hex_bytes(s.skip(2))
    }
}

pub proof fn lemma_hex_chars_len(b: Seq<u8>)
    ensures
        hex_chars(b).len() == 2 * b.len(),
        forall|i: int| 0 <= i < hex_chars(b).len() ==> is_lower_hex_char(#[trigger] hex_chars(b)[i]),
    decreases b.len(),
{
    if b.len() > 0 {
        lemma_hex_chars_len(b.drop_first());
    }
}

pub proof fn lemma_hex_bytes_len(s: Seq<char>)
    requires
        s.len() % 2 == 0,
    ensures
        hex_bytes(s).len() == s.len() / 2,
    decreases s.len(),
{
    if s.len() >= 2 {
        lemma_hex_bytes_len(s.skip(2));
    }
}

/// Law: decoding the hexadecimal text of any byte sequence returns exactly
/// those bytes, and that text is well-formed lower-case hexadecimal.
pub proof fn lemma_hex_round_trip_bytes(b: Seq<u8>)
    ensures
        is_hex_seq(hex_chars(b)),
        hex_bytes(hex_chars(b)) == b,
    decreases b.len(),
{
    lemma_hex_chars_len(b);
    if b.len() == 0 {
        assert(hex_bytes(hex_chars(b)) =~= b);
    } else {
        lemma_hex_round_trip_bytes(b.drop_first());
        lemma_hex_chars_len(b.drop_first());
        let s = hex_chars(b);
        assert(s.skip(2) =~= hex_chars(b.drop_first()));
        assert(hex_val(s[0]) == b[0] / 16 && hex_val(s[1]) == b[0] % 16);
        assert((b[0] / 16) * 16 + b[0] % 16 == b[0]) by (nonlinear_arith);
        assert(hex_bytes(s) =~= b);
    }
}

/// Law: encoding the bytes denoted by well-formed lower-case hexadecimal
/// text returns exactly that text.
pub proof fn lemma_hex_round_trip_text(s: Seq<char>)
    requires
        s.len() % 2 == 0,
        forall|i: int| 0 <= i < s.len() ==> is_lower_hex_char(#[trigger] s[i]),
    ensures
        hex_chars(hex_bytes(s)) == s,
    decreases s.len(),
{
    if s.len() == 0 {
        assert(hex_chars(hex_bytes(s)) =~= s);
    } else {
        lemma_hex_round_trip_text(s.skip(2));
        lemma_hex_bytes_len(s.skip(2));
        let v0 = hex_val(s[0]);
        let v1 = hex_val(s[1]);
        let b0 = (v0 * 16 + v1) as u8;
        assert(v0 < 16 && v1 < 16);
        assert(b0 / 16 == v0 && b0 % 16 == v1) by (nonlinear_arith)
            requires
                v0 < 16 && v1 < 16 && b0 == v0 * 16 + v1,
        ;
        lemma_hex_digit_of_val(s[0]);
        lemma_hex_digit_of_val(s[1]);
        assert(hex_digit(v0) == s[0] && hex_digit(v1) == s[1]);
        let b = hex_bytes(s);
        assert(b.drop_first() =~= hex_bytes(s.skip(2)));
        assert(hex_chars(b) =~= s);
    }
}

/// A lower-case hexadecimal digit character is recovered from its value.
pub proof fn lemma_hex_digit_of_val(c: char)
    requires
        is_lower_hex_char(c),
    ensures
        hex_digit(hex_val(c)) == c,
{
    broadcast use vstd::utf8::char_u32_cast;

    let u = c as u32;
    assert(hex_digit(hex_val(c)) as u32 == u);
}

/// Encodes bytes as lower-case hexadecimal characters.
pub fn hex_encode_chars(b: &Vec<u8>) -> (r: Vec<char>)
    ensures
        r@ == hex_chars(b@),
{
    let mut out: Vec<char> = Vec::new();
    let mut i: usize = 0;
    proof {
        assert(b@.skip(0) =~= b@);
        assert(out@ + hex_chars(b@) =~= hex_chars(b@));
    }
    while i < b.len()
        invariant
            i <= b@.len(),
            hex_chars(b@) == out@ + hex_chars(b@.skip(i as int)),
        decreases b@.len() - i,
    {
        let byte = b[i];
        out.push(hex_digit_exec(byte / 16));
        out.push(hex_digit_exec(byte % 16));
        proof {
            let rest = b@.skip(i as int);
            assert(rest[0] == b@[i as int]);
            assert(rest.drop_first() =~= b@.skip(i + 1));
        }
        i = i + 1;
    }
    proof {
        assert(b@.skip(i as int) =~= Seq::<u8>::empty());
        assert(hex_chars(b@) =~= out@);
    }
    out
}

/// Decodes hexadecimal characters into bytes; rejects text of odd length or
/// with a character that is no hexadecimal digit.
pub fn hex_decode_chars(s: &Vec<char>) -> (r: Option<Vec<u8>>)
    ensures
        r is Some <==> is_hex_seq(s@),
        r is Some ==> r->Some_0@ == hex_bytes(s@),
{
    if s.len() % 2 != 0 {
        return None;
    }
    let mut out: Vec<u8> = Vec::new();
    let mut i: usize = 0;
    proof {
        assert(s@.skip(0) =~= s@);
        assert(out@ + hex_bytes(s@) =~= hex_bytes(s@));
    }
    while i < s.len()
        invariant
            i <= s@.len(),
            i % 2 == 0,
            s@.len() % 2 == 0,
            hex_bytes(s@) == out@ + hex_bytes(s@.skip(i as int)),
            forall|k: int| 0 <= k < i ==> is_hex_char(#[trigger] s@[k]),
        decreases s@.len() - i,
    {
        let c0 = match hex_val_exec(s[i]) {
            Some(v) => v,
            None => {
                return None;
            },
        };
        let c1 = match hex_val_exec(s[i + 1]) {
            Some(v) => v,
            None => {
                return None;
            },
        };
        out.push(c0 * 16 + c1);
        proof {
            let rest = s@.skip(i as int);
            assert(rest[0] == s@[i as int] && rest[1] == s@[i + 1]);
            assert(rest.skip(2) =~= s@.skip(i + 2));
        }
        i = i + 2;
    }
    proof {
        assert(s@.skip(i as int) =~= Seq::<char>::empty());
        assert(hex_bytes(s@) =~= out@);
    }
    Some(out)
}

/// Computes the lower-case hexadecimal digit of a value below 16.
pub fn hex_digit_exec(v: u8) -> (r: char)
    requires
        v < 16,
    ensures
        r == hex_digit(v as nat),
{
    match v {
        0 => '0',
        1 => '1',
        2 => '2',
        3 => '3',
        4 => '4',
        5 => '5',
        6 => '6',
        7 => '7',
        8 => '8',
        9 => '9',
        10 => 'a',
        11 => 'b',
        12 => 'c',
        13 => 'd',
        14 => 'e',
        _ => 'f',
    }
}

/// Computes the value of a hexadecimal digit, or rejects the character.
pub fn hex_val_exec(c: char) -> (r: Option<u8>)
    ensures
        r is Some <==> is_hex_char(c),
        r is Some ==> r->Some_0 == hex_val(c),
{
    let u = c as u32;
    if 48 <= u && u <= 57 {
        Some((u - 48) as u8)
    } else if 97 <= u && u <= 102 {
        Some((u - 87) as u8)
    } else if 65 <= u && u <= 70 {
        Some((u - 55) as u8)
    } else {
        None
    }
}

} // verus!
