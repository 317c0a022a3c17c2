//! The address codec: translation between the raw byte form and the textual
//! form of an address, relative to the chain type of the chain that owns it.
//! Account-machine style chains (EVM, Tron) use 20 raw bytes shown as
//! `0x`-prefixed lower-case hexadecimal, Solana-style chains use 32 such
//! bytes, and every other chain type carries its address as UTF-8 text.
use crate::hexcodec::hex_bytes;
use crate::hexcodec::hex_chars;
use crate::hexcodec::hex_decode_chars;
use crate::hexcodec::hex_encode_chars;
use crate::hexcodec::is_hex_seq;
use crate::hexcodec::is_lower_hex_char;
use crate::hexcodec::lemma_hex_bytes_len;
use crate::hexcodec::lemma_hex_chars_len;
use crate::hexcodec::lemma_hex_round_trip_bytes;
use crate::hexcodec::lemma_hex_round_trip_text;
use crate::text::chars_of_str;
use crate::text::string_from_chars;
use crate::text::string_from_utf8;
use crate::RelayError;
use vstd::prelude::*;
use vstd::string::StrSliceExecFns;
use vstd::utf8::decode_utf8;
use vstd::utf8::decode_utf8_encode_utf8;
use vstd::utf8::encode_utf8;
use vstd::utf8::encode_utf8_decode_utf8;
use vstd::utf8::encode_utf8_valid_utf8;
use vstd::utf8::valid_utf8;

verus! {

/// The family of execution semantics of a destination ledger, which selects
/// the address codec and the call encoding.
#[derive(Clone, Copy, PartialEq, Eq, Structural, Debug)]
pub enum ChainType {
    ChainTypeNone,
    ChainTypeRouter,
    ChainTypeEvm,
    ChainTypeCosmos,
    ChainTypePolkadot,
    ChainTypeSolana,
    ChainTypeNear,
    ChainTypeTron,
    ChainTypeStarknet,
    ChainTypeBitcoin,
    ChainTypeSui,
    ChainTypeAlephZero,
    ChainTypeCasper,
    ChainTypeAptos,
}

/// The chain-type code under which a chain type is registered.
pub open spec fn chain_code(t: ChainType) -> u64 {
    match t {
        ChainType::ChainTypeNone => 0,
        ChainType::ChainTypeRouter => 1,
        ChainType::ChainTypeEvm => 2,
        ChainType::ChainTypeCosmos => 3,
        ChainType::ChainTypePolkadot => 4,
        ChainType::ChainTypeSolana => 5,
        ChainType::ChainTypeNear => 6,
        ChainType::ChainTypeTron => 7,
        ChainType::ChainTypeStarknet => 8,
        ChainType::ChainTypeBitcoin => 9,
        ChainType::ChainTypeSui => 10,
        ChainType::ChainTypeAlephZero => 11,
        ChainType::ChainTypeCasper => 12,
        ChainType::ChainTypeAptos => 13,
    }
}

impl ChainType {
    pub fn get_chain_code(&self) -> (r: u64)
        ensures
            r == chain_code(*self),
    {
        match self {
            ChainType::ChainTypeNone => 0,
            ChainType::ChainTypeRouter => 1,
            ChainType::ChainTypeEvm => 2,
            ChainType::ChainTypeCosmos => 3,
            ChainType::ChainTypePolkadot => 4,
            ChainType::ChainTypeSolana => 5,
            ChainType::ChainTypeNear => 6,
            ChainType::ChainTypeTron => 7,
            ChainType::ChainTypeStarknet => 8,
            ChainType::ChainTypeBitcoin => 9,
            ChainType::ChainTypeSui => 10,
            ChainType::ChainTypeAlephZero => 11,
            ChainType::ChainTypeCasper => 12,
            ChainType::ChainTypeAptos => 13,
        }
    }
}

/// Chain-type codes whose addresses are 20 raw bytes in hexadecimal text.
pub open spec fn is_evm_style(ct: u64) -> bool {
    ct == chain_code(ChainType::ChainTypeEvm) || ct == chain_code(ChainType::ChainTypeTron)
}

/// Chain-type codes whose addresses are 32 raw bytes in hexadecimal text.
pub open spec fn is_solana_style(ct: u64) -> bool {
    ct == chain_code(ChainType::ChainTypeSolana)
}

/// Chain-type codes with a hexadecimal textual address form.
pub open spec fn is_hex_style(ct: u64) -> bool {
    is_evm_style(ct) || is_solana_style(ct)
}

/// The raw byte length an address must have under a hexadecimal scheme.
pub open spec fn hex_addr_len(ct: u64) -> nat {
    if is_evm_style(ct) {
        20
    } else {
        32
    }
}

/// `s` with every occurrence of the two-character sequence `c0 c1` removed,
/// scanning left to right.
pub open spec fn remove_pairs(s: Seq<char>, c0: char, c1: char) -> Seq<char>
    decreases s.len(),
{
    if s.len() >= 2 && s[0] == c0 && s[1] == c1 {
        remove_pairs(s.skip(2), c0, c1)
    } else if s.len() == 0 {
        s
    } else {
        seq![s[0]] + remove_pairs(s.drop_first(), c0, c1)
    }
}

/// The hexadecimal digits of a textual address: the text with every `0x` and
/// `0X` marker removed.
pub open spec fn strip_hex_markers(s: Seq<char>) -> Seq<char> {
    remove_pairs(remove_pairs(s, '0', 'x'), '0', 'X')
}

/// Whether address bytes are valid for a chain type: the exact raw length
/// under a hexadecimal scheme, valid UTF-8 under the textual scheme.
pub open spec fn addr_bytes_ok(b: Seq<u8>, ct: u64) -> bool {
    if is_hex_style(ct) {
        b.len() == hex_addr_len(ct)
    } else {
        valid_utf8(b)
    }
}

/// The textual form of valid address bytes under a chain type.
pub open spec fn addr_to_text(b: Seq<u8>, ct: u64) -> Seq<char> {
    if is_hex_style(ct) {
        seq!['0', 'x'] + hex_chars(b)
    } else {
        decode_utf8(b)
    }
}

/// Whether a textual address is accepted for a chain type: under a
/// hexadecimal scheme, its digits (markers aside) must be hexadecimal and
/// denote exactly the scheme's byte length; under the textual scheme every
/// string is accepted.
pub open spec fn addr_text_ok(s: Seq<char>, ct: u64) -> bool {
    if is_hex_style(ct) {
        is_hex_seq(strip_hex_markers(s)) && hex_bytes(strip_hex_markers(s)).len() == hex_addr_len(
            ct,
        )
    } else {
        true
    }
}

/// The byte form of an accepted textual address under a chain type.
pub open spec fn addr_to_bytes(s: Seq<char>, ct: u64) -> Seq<u8> {
    if is_hex_style(ct) {
        hex_bytes(strip_hex_markers(s))
    } else {
        encode_utf8(s)
    }
}

/// Removes every occurrence of the pair `c0 c1` from the characters.
fn remove_pairs_exec(s: &Vec<char>, c0: char, c1: char) -> (r: Vec<char>)
    ensures
        r@ == remove_pairs(s@, c0, c1),
{
    let mut out: Vec<char> = Vec::new();
    let mut i: usize = 0;
    proof {
        assert(s@.skip(0) =~= s@);
        assert(out@ + remove_pairs(s@, c0, c1) =~= remove_pairs(s@, c0, c1));
    }
    while i < s.len()
        invariant
            i <= s@.len(),
            remove_pairs(s@, c0, c1) == out@ + remove_pairs(s@.skip(i as int), c0, c1),
        decreases s@.len() - i,
    {
        proof {
            let rest = s@.skip(i as int);
            assert(rest[0] == s@[i as int]);
            if rest.len() >= 2 {
                assert(rest[1] == s@[i + 1]);
                assert(rest.skip(2) =~= s@.skip(i + 2));
            }
            assert(rest.drop_first() =~= s@.skip(i + 1));
        }
        if i + 1 < s.len() && s[i] == c0 && s[i + 1] == c1 {
            i = i + 2;
        } else {
            out.push(s[i]);
            i = i + 1;
        }
    }
    proof {
        assert(s@.skip(i as int) =~= Seq::<char>::empty());
        assert(remove_pairs(s@, c0, c1) =~= out@);
    }
    out
}

/// Converts raw address bytes to the textual form of the given chain type.
/// Rejects bytes of the wrong length under a hexadecimal scheme, and bytes
/// that are not UTF-8 under the textual scheme.
pub fn convert_address_from_bytes_to_string(address: &Vec<u8>, chain_type: u64) -> (r: Result<
    String,
    RelayError,
>)
    ensures
        r is Ok <==> addr_bytes_ok(address@, chain_type),
        r is Ok ==> r->Ok_0@ == addr_to_text(address@, chain_type),
        r is Err ==> r->Err_0 == RelayError::InvalidAddress,
{
    let is_evm = chain_type == ChainType::ChainTypeEvm.get_chain_code() || chain_type
        == ChainType::ChainTypeTron.get_chain_code();
    let is_sol = chain_type == ChainType::ChainTypeSolana.get_chain_code();
    if is_evm || is_sol {
        let want: usize = if is_evm {
            20
        } else {
            32
        };
        if address.len() != want {
            return Err(RelayError::InvalidAddress);
        }
        let mut chars: Vec<char> = Vec::new();
        chars.push('0');
        chars.push('x');
        let mut digits = hex_encode_chars(address);
        chars.append(&mut digits);
        proof {
            assert(chars@ =~= addr_to_text(address@, chain_type));
        }
        Ok(string_from_chars(&chars))
    } else {
        match string_from_utf8(clone_bytes(address)) {
            Some(s) => Ok(s),
            None => Err(RelayError::InvalidAddress),
        }
    }
}

/// Copies a byte vector.
fn clone_bytes(b: &Vec<u8>) -> (r: Vec<u8>)
    ensures
        r@ == b@,
{
    let mut out: Vec<u8> = Vec::new();
    out.extend_from_slice(b.as_slice());
    proof {
        assert(out@ =~= b@);
    }
    out
}

/// Converts a textual address to the raw byte form of the given chain type.
/// Under a hexadecimal scheme, `0x`/`0X` markers are removed, the digits are
/// decoded, and the byte length is checked; under the textual scheme the
/// address is carried as its UTF-8 bytes.
pub fn convert_address_from_string_to_bytes(address: &str, chain_type: u64) -> (r: Result<
    Vec<u8>,
    RelayError,
>)
    ensures
        r is Ok <==> addr_text_ok(address@, chain_type),
        r is Ok ==> r->Ok_0@ == addr_to_bytes(address@, chain_type),
        r is Err ==> r->Err_0 == RelayError::InvalidAddress,
{
    let is_evm = chain_type == ChainType::ChainTypeEvm.get_chain_code() || chain_type
        == ChainType::ChainTypeTron.get_chain_code();
    let is_sol = chain_type == ChainType::ChainTypeSolana.get_chain_code();
    if is_evm || is_sol {
        let chars = chars_of_str(address);
        let lower_stripped = remove_pairs_exec(&chars, '0', 'x');
        let stripped = remove_pairs_exec(&lower_stripped, '0', 'X');
        let bytes = match hex_decode_chars(&stripped) {
            Some(b) => b,
            None => {
                return Err(RelayError::InvalidAddress);
            },
        };
        let want: usize = if is_evm {
            20
        } else {
            32
        };
        if bytes.len() != want {
            return Err(RelayError::InvalidAddress);
        }
        Ok(bytes)
    } else {
        Ok(address.as_bytes_vec())
    }
}

/// Whether `c1` occurs nowhere in `s`; then removing `c0 c1` pairs leaves
/// `s` unchanged.
pub proof fn lemma_remove_pairs_absent(s: Seq<char>, c0: char, c1: char)
    requires
        forall|i: int| 0 <= i < s.len() ==> s[i] != c1,
    ensures
        remove_pairs(s, c0, c1) == s,
    decreases s.len(),
{
    if s.len() > 0 {
        lemma_remove_pairs_absent(s.drop_first(), c0, c1);
        assert(remove_pairs(s, c0, c1) =~= s);
    }
}

/// Removing pairs from text that begins with one such pair removes that
/// leading pair first.
pub proof fn lemma_remove_pairs_prefix(s: Seq<char>, c0: char, c1: char)
    ensures
        remove_pairs(seq![c0, c1] + s, c0, c1) == remove_pairs(s, c0, c1),
{
    let t = seq![c0, c1] + s;
    assert(t.skip(2) =~= s);
}

/// Law: the address codec round-trips from bytes. Converting valid address
/// bytes to text and that text back to bytes returns the original bytes, for
/// every chain type.
pub proof fn lemma_address_round_trip_from_bytes(b: Seq<u8>, ct: u64)
    requires
        addr_bytes_ok(b, ct),
    ensures
        addr_text_ok(addr_to_text(b, ct), ct),
        addr_to_bytes(addr_to_text(b, ct), ct) == b,
{
    if is_hex_style(ct) {
        let digits = hex_chars(b);
        let text = seq!['0', 'x'] + digits;
        lemma_hex_chars_len(b);
        lemma_remove_pairs_prefix(digits, '0', 'x');
        assert(forall|i: int| 0 <= i < digits.len() ==> digits[i] != 'x' && digits[i] != 'X') by {
            assert(forall|i: int|
                0 <= i < digits.len() ==> is_lower_hex_char(#[trigger] digits[i]));
        }
        lemma_remove_pairs_absent(digits, '0', 'x');
        lemma_remove_pairs_absent(digits, '0', 'X');
        assert(strip_hex_markers(text) == digits);
        lemma_hex_round_trip_bytes(b);
    } else {
        broadcast use encode_utf8_valid_utf8, decode_utf8_encode_utf8;

        assert(addr_to_bytes(addr_to_text(b, ct), ct) == b);
    }
}

/// The canonical textual form of an address under a chain type: for a
/// hexadecimal scheme, a single leading `0x` marker followed by lower-case
/// digits of the scheme's length, which is exactly the form the encoder
/// produces; every text is canonical under the textual scheme.
pub open spec fn canonical_addr_text(s: Seq<char>, ct: u64) -> bool {
    if is_hex_style(ct) {
        s.len() == 2 + 2 * hex_addr_len(ct) && s[0] == '0' && s[1] == 'x' && forall|i: int|
            2 <= i < s.len() ==> is_lower_hex_char(#[trigger] s[i])
    } else {
        true
    }
}

/// Law: the address codec round-trips from text. Converting a canonical
/// textual address to bytes and those bytes back to text returns the
/// original text, for every chain type.
pub proof fn lemma_address_round_trip_from_text(s: Seq<char>, ct: u64)
    requires
        canonical_addr_text(s, ct),
    ensures
        addr_text_ok(s, ct),
        addr_bytes_ok(addr_to_bytes(s, ct), ct),
        addr_to_text(addr_to_bytes(s, ct), ct) == s,
{
    if is_hex_style(ct) {
        let digits = s.skip(2);
        assert(s =~= seq!['0', 'x'] + digits);
        lemma_remove_pairs_prefix(digits, '0', 'x');
        assert(forall|i: int| 0 <= i < digits.len() ==> digits[i] != 'x' && digits[i] != 'X') by {
            assert(forall|i: int|
                0 <= i < digits.len() ==> is_lower_hex_char(#[trigger] digits[i]));
        }
        lemma_remove_pairs_absent(digits, '0', 'x');
        lemma_remove_pairs_absent(digits, '0', 'X');
        assert(strip_hex_markers(s) == digits);
        lemma_hex_bytes_len(digits);
        lemma_hex_round_trip_text(digits);
        assert(addr_to_text(addr_to_bytes(s, ct), ct) =~= s);
    } else {
        broadcast use encode_utf8_valid_utf8, encode_utf8_decode_utf8;

        assert(addr_to_text(addr_to_bytes(s, ct), ct) == s);
    }
}

} // verus!
