//! The canonical binary layout of outbound request metadata and request
//! packets. Every value is laid out in 32-byte words: integers big-endian and
//! left-padded, dynamic byte fields length-prefixed and right-padded with
//! zeroes, and each dynamic field reached through a word holding its offset.
//! A destination chain rejects or misreads a request whose bytes deviate from
//! this layout, so the encoders below carry exact byte-level contracts.
use vstd::prelude::*;
use vstd::string::StrSliceExecFns;

verus! {

/// A sequence of `n` zero bytes.
pub open spec fn zero_bytes(n: nat) -> Seq<u8> {
    Seq::new(n, |i: int| 0u8)
}

/// The `n`-byte big-endian encoding of `v` (modulo 256^n).
pub open spec fn be_bytes(v: nat, n: nat) -> Seq<u8>
    decreases n,
{
    if n == 0 {
        Seq::empty()
    } else {
        be_bytes(v / 256, (n - 1) as nat).push((v % 256) as u8)
    }
}

pub broadcast proof fn lemma_be_bytes_len(v: nat, n: nat)
    ensures
        #[trigger] be_bytes(v, n).len() == n,
    decreases n,
{
    if n > 0 {
        lemma_be_bytes_len(v / 256, (n - 1) as nat);
    }
}

/// One 32-byte word of the layout: the big-endian encoding of `v`.
pub open spec fn abi_word(v: nat) -> Seq<u8> {
    be_bytes(v, 32)
}

/// The number of zero bytes that extend a field of `n` bytes to the next
/// multiple of 32.
pub open spec fn pad32_len(n: nat) -> nat {
    if n % 32 == 0 {
        0
    } else {
        (32 - n % 32) as nat
    }
}

/// A byte field right-padded with zeroes to a multiple of 32 bytes.
pub open spec fn padded32(b: Seq<u8>) -> Seq<u8> {
    b + zero_bytes(pad32_len(b.len()))
}

/// A dynamic byte field: one word holding the byte length, then the bytes,
/// zero-padded to a word boundary.
pub open spec fn abi_dyn_bytes(b: Seq<u8>) -> Seq<u8> {
    abi_word(b.len()) + padded32(b)
}

pub broadcast proof fn lemma_abi_dyn_bytes_len(b: Seq<u8>)
    ensures
        #[trigger] abi_dyn_bytes(b).len() == 32 + b.len() + pad32_len(b.len()),
{
    broadcast use lemma_be_bytes_len;

}

/// Computes the 32-byte big-endian word of `v`.
pub fn abi_word_u128(v: u128) -> (r: Vec<u8>)
    ensures
        r@ == abi_word(v as nat),
{
    broadcast use lemma_be_bytes_len;

    let mut digits: Vec<u8> = Vec::new();
    let mut cur: u128 = v;
    let mut i: usize = 0;
    while i < 32
        invariant
            i <= 32,
            digits@.len() == i,
            be_bytes(v as nat, 32).subrange(0, 32 - i) == be_bytes(cur as nat, (32 - i) as nat),
            forall|k: int| 0 <= k < i ==> be_bytes(v as nat, 32)[31 - k] == digits@[k],
        decreases 32 - i,
    {
        proof {
            let full = be_bytes(v as nat, 32);
            let w = be_bytes(cur as nat, (32 - i) as nat);
            let w0 = be_bytes((cur / 256) as nat, (31 - i) as nat);
            lemma_be_bytes_len(v as nat, 32);
            lemma_be_bytes_len(cur as nat, (32 - i) as nat);
            lemma_be_bytes_len((cur / 256) as nat, (31 - i) as nat);
            assert(full.len() == 32);
            assert(w.len() == 32 - i);
            assert(w0.len() == 31 - i);
            assert(w == w0.push((cur % 256) as u8));
            assert(full.subrange(0, 32 - i)[31 - i] == full[31 - i]);
            assert(full[31 - i] == (cur % 256) as u8);
            assert(full.subrange(0, 31 - i) =~= w0);
        }
        digits.push((cur % 256) as u8);
        cur = cur / 256;
        i = i + 1;
    }
    let mut r: Vec<u8> = Vec::new();
    let mut j: usize = 0;
    while j < 32
        invariant
            j <= 32,
            r@.len() == j,
            digits@.len() == 32,
            forall|k: int| 0 <= k < 32 ==> be_bytes(v as nat, 32)[31 - k] == digits@[k],
            forall|k: int| 0 <= k < j ==> r@[k] == be_bytes(v as nat, 32)[k],
        decreases 32 - j,
    {
        r.push(digits[31 - j]);
        j = j + 1;
    }
    proof {
        assert(r@ =~= abi_word(v as nat));
    }
    r
}

/// Appends the 32-byte big-endian word of `v` to `out`.
pub fn push_word(out: &mut Vec<u8>, v: u128)
    ensures
        final(out)@ == old(out)@ + abi_word(v as nat),
{
    let mut w = abi_word_u128(v);
    out.append(&mut w);
}

/// Computes the padding that extends `n` bytes to a multiple of 32.
pub fn pad32_len_exec(n: usize) -> (r: usize)
    ensures
        r == pad32_len(n as nat),
{
    if n % 32 == 0 {
        0
    } else {
        32 - n % 32
    }
}

/// Appends zero padding that extends a field of `n` bytes to a word boundary.
pub fn push_padding(out: &mut Vec<u8>, n: usize)
    ensures
        final(out)@ == old(out)@ + zero_bytes(pad32_len(n as nat)),
{
    let k = pad32_len_exec(n);
    let mut i: usize = 0;
    while i < k
        invariant
            i <= k,
            k == pad32_len(n as nat),
            out@ == old(out)@ + zero_bytes(i as nat),
        decreases k - i,
    {
        out.push(0u8);
        proof {
            assert(old(out)@ + zero_bytes((i + 1) as nat) =~= (old(out)@ + zero_bytes(
                i as nat,
            )).push(0u8));
        }
        i = i + 1;
    }
    proof {
        assert(old(out)@ + zero_bytes(pad32_len(n as nat)) =~= out@);
    }
}

/// Appends a dynamic byte field: its length word, its bytes, and padding.
pub fn push_dyn_bytes(out: &mut Vec<u8>, b: &Vec<u8>)
    ensures
        final(out)@ == old(out)@ + abi_dyn_bytes(b@),
{
    push_word(out, b.len() as u128);
    out.extend_from_slice(b.as_slice());
    push_padding(out, b.len());
    proof {
        assert(old(out)@ + abi_dyn_bytes(b@) =~= out@);
    }
}

/// The acknowledgment policy attached to an outbound request.
#[derive(Clone, Copy, PartialEq, Eq, Structural, Debug)]
pub enum AckType {
    NoAck,
    AckOnSuccess,
    AckOnError,
    AckOnBoth,
}

/// The wire code of an acknowledgment policy.
pub open spec fn ack_code(a: AckType) -> u8 {
    match a {
        AckType::NoAck => 0,
        AckType::AckOnSuccess => 1,
        AckType::AckOnError => 2,
        AckType::AckOnBoth => 3,
    }
}

impl AckType {
    pub fn get_ack_code(&self) -> (r: u8)
        ensures
            r == ack_code(*self),
    {
        match self {
            AckType::NoAck => 0,
            AckType::AckOnSuccess => 1,
            AckType::AckOnError => 2,
            AckType::AckOnBoth => 3,
        }
    }
}

/// The execution parameters that accompany an outbound request: gas limits
/// and prices for the destination call and for its acknowledgment, the
/// relayer fee, the acknowledgment policy, the read-only flag, and an
/// optional authenticated-source-module address (empty when absent).
pub struct RequestMetaData {
    pub dest_gas_limit: u64,
    pub dest_gas_price: u64,
    pub ack_gas_limit: u64,
    pub ack_gas_price: u64,
    pub relayer_fee: u128,
    pub ack_type: AckType,
    pub is_read_call: bool,
    pub asm_address: Vec<u8>,
}

/// The canonical encoding of request metadata: an offset word, the seven
/// fixed fields one word each, and the source-module address as a trailing
/// dynamic byte field at offset 256 within the tuple.
pub open spec fn spec_encode_metadata(m: RequestMetaData) -> Seq<u8> {
    abi_word(32) + abi_word(m.dest_gas_limit as nat) + abi_word(m.dest_gas_price as nat)
        + abi_word(m.ack_gas_limit as nat) + abi_word(m.ack_gas_price as nat) + abi_word(
        m.relayer_fee as nat,
    ) + abi_word(ack_code(m.ack_type) as nat) + abi_word(
        if m.is_read_call {
            1
        } else {
            0
        },
    ) + abi_word(256) + abi_dyn_bytes(m.asm_address@)
}

impl RequestMetaData {
    /// Produces the canonical byte encoding of this metadata.
    pub fn get_abi_encoded_bytes(&self) -> (r: Vec<u8>)
        ensures
            r@ == spec_encode_metadata(*self),
    {
        let mut out = abi_word_u128(32);
        push_word(&mut out, self.dest_gas_limit as u128);
        push_word(&mut out, self.dest_gas_price as u128);
        push_word(&mut out, self.ack_gas_limit as u128);
        push_word(&mut out, self.ack_gas_price as u128);
        push_word(&mut out, self.relayer_fee);
        push_word(&mut out, self.ack_type.get_ack_code() as u128);
        push_word(
            &mut out,
            if self.is_read_call {
                1
            } else {
                0
            },
        );
        push_word(&mut out, 256);
        push_dyn_bytes(&mut out, &self.asm_address);
        proof {
            assert(out@ =~= spec_encode_metadata(*self));
        }
        out
    }
}

/// The canonical encoding of a request packet holding the encoded call
/// `payload` and the destination contract address `dest`: two offset words,
/// then each part as a dynamic byte field.
pub open spec fn spec_encode_packet(payload: Seq<u8>, dest: Seq<u8>) -> Seq<u8> {
    abi_word(64) + abi_word(64 + abi_dyn_bytes(payload).len()) + abi_dyn_bytes(payload)
        + abi_dyn_bytes(dest)
}

/// Encodes a request packet from the encoded call payload and the
/// destination contract address bytes.
pub fn encode_packet(payload: &Vec<u8>, dest: &Vec<u8>) -> (r: Vec<u8>)
    ensures
        r@ == spec_encode_packet(payload@, dest@),
{
    let pad = pad32_len_exec(payload.len());
    let second_offset: u128 = 96u128 + (payload.len() as u128) + (pad as u128);
    let mut out = abi_word_u128(64);
    proof {
        lemma_abi_dyn_bytes_len(payload@);
    }
    push_word(&mut out, second_offset);
    push_dyn_bytes(&mut out, payload);
    push_dyn_bytes(&mut out, dest);
    proof {
        assert(out@ =~= spec_encode_packet(payload@, dest@));
    }
    out
}

/// The canonical encoding of a single text value as a call payload: an
/// offset word, then the UTF-8 bytes of the text as a dynamic byte field.
pub open spec fn spec_encode_string_token(s: Seq<char>) -> Seq<u8> {
    abi_word(32) + abi_dyn_bytes(vstd::utf8::encode_utf8(s))
}

/// Encodes a text value as a call payload.
pub fn encode_string_token(s: &str) -> (r: Vec<u8>)
    ensures
        r@ == spec_encode_string_token(s@),
{
    let bytes = s.as_bytes_vec();
    let mut out = abi_word_u128(32);
    push_dyn_bytes(&mut out, &bytes);
    proof {
        assert(out@ =~= spec_encode_string_token(s@));
    }
    out
}

/// Law: the metadata encoding is deterministic. Any two encodings of equal
/// metadata values, each as `get_abi_encoded_bytes` returns them, are
/// byte-identical.
pub proof fn lemma_metadata_encoding_deterministic(
    m1: RequestMetaData,
    m2: RequestMetaData,
    r1: Seq<u8>,
    r2: Seq<u8>,
)
    requires
        m1 == m2,
        r1 == spec_encode_metadata(m1),
        r2 == spec_encode_metadata(m2),
    ensures
        r1 == r2,
{
}

/// Law: the packet encoding is deterministic. Any two encodings of the same
/// payload and destination, each as `encode_packet` returns them, are
/// byte-identical.
pub proof fn lemma_packet_encoding_deterministic(
    payload: Seq<u8>,
    dest: Seq<u8>,
    r1: Seq<u8>,
    r2: Seq<u8>,
)
    requires
        r1 == spec_encode_packet(payload, dest),
        r2 == spec_encode_packet(payload, dest),
    ensures
        r1 == r2,
{
}

} // verus!
