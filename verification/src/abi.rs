//! The encodings that cross-chain requests travel in. The encoders and the
//! decoder are those of the messaging layer's own libraries; this module
//! gives them contracts and checks how a payload is framed before it is
//! handed to the decoder.

use cosmwasm_std::Uint128;
use router_wasm_bindings::ethabi::ethereum_types::U256;
use router_wasm_bindings::ethabi::{decode, encode, ParamType, Token};
use router_wasm_bindings::types::RequestMetaData;
use router_wasm_bindings::utils::convert_address_from_bytes_to_string;
use vstd::prelude::*;
use vstd::slice::*;
use vstd::string::*;
use vstd::utf8::{decode_utf8, encode_utf8, valid_utf8};

verus! {

/// The error of the payload decoder.
#[verifier::external_type_specification]
#[verifier::external_body]
pub struct ExAbiError(router_wasm_bindings::ethabi::Error);

/// The error of the messaging layer's helpers.
#[verifier::external_type_specification]
#[verifier::external_body]
pub struct ExStdError(cosmwasm_std::StdError);

/// The kinds of value that a payload is made of.
#[derive(Clone, Copy, Debug, PartialEq, Eq, Structural)]
pub enum AbiKind {
    /// A text.
    Text,
    /// A byte string.
    Bytes,
    /// An unsigned integer of the given number of bits.
    Uint(usize),
}

/// One value of a payload.
#[derive(Clone, Debug, PartialEq)]
pub enum AbiToken {
    /// A text.
    Text(String),
    /// A byte string.
    Bytes(Vec<u8>),
    /// An unsigned integer of 256 bits, as four words from the least
    /// significant to the most significant.
    Uint([u64; 4]),
}

/// One value of a payload, as mathematical values.
pub enum AbiTokenView {
    Text(Seq<char>),
    Bytes(Seq<u8>),
    Uint(Seq<u64>),
}

impl View for AbiToken {
    type V = AbiTokenView;

    open spec fn view(&self) -> AbiTokenView {
        match self {
            AbiToken::Text(text) => AbiTokenView::Text(text@),
            AbiToken::Bytes(bytes) => AbiTokenView::Bytes(bytes@),
            AbiToken::Uint(words) => AbiTokenView::Uint(words@),
        }
    }
}

/// The views of a list of tokens.
pub open spec fn tokens_view(tokens: Seq<AbiToken>) -> Seq<AbiTokenView> {
    tokens.map_values(|t: AbiToken| t@)
}

/// The view of a decoded value: none where the value is of a kind that the
/// ledger does not read.
pub open spec fn decoded_token_view(token: Option<AbiToken>) -> Option<AbiTokenView> {
    match token {
        Some(t) => Some(t@),
        None => None,
    }
}

/// The views of a list of decoded values.
pub open spec fn decoded_view(tokens: Seq<Option<AbiToken>>) -> Seq<Option<AbiTokenView>> {
    tokens.map_values(|t: Option<AbiToken>| decoded_token_view(t))
}

/// When the sender of a cross-chain request wants an acknowledgement.
#[derive(Clone, Copy, Debug, PartialEq, Eq, Structural)]
pub enum AckType {
    NoAck,
    AckOnSuccess,
    AckOnError,
    AckOnBoth,
}

impl AckType {
    /// The byte that stands for this choice in request metadata.
    pub open spec fn code(self) -> u8 {
        match self {
            AckType::NoAck => 0,
            AckType::AckOnSuccess => 1,
            AckType::AckOnError => 2,
            AckType::AckOnBoth => 3,
        }
    }
}

/// The encoding of a list of tokens.
pub uninterp spec fn abi_encoding(tokens: Seq<AbiTokenView>) -> Seq<u8>;

/// The values that a payload whose values are framed within it decodes to
/// under a list of kinds; a value of a kind that the ledger does not read
/// counts as none.
pub uninterp spec fn abi_decoding(kinds: Seq<AbiKind>, data: Seq<u8>) -> Seq<Option<AbiTokenView>>;

/// The address encoding of EVM chains.
pub const EVM_CHAIN_TYPE: u64 = 2;

/// The number of bytes of an address of an EVM chain.
pub const EVM_ADDRESS_LENGTH: usize = 20;

/// The lower-case hexadecimal digit of a number below 16.
pub open spec fn hex_digit(nibble: int) -> char {
    seq!['0', '1', '2', '3', '4', '5', '6', '7', '8', '9', 'a', 'b', 'c', 'd', 'e', 'f'][nibble]
}

/// The bytes in lower-case hexadecimal, two digits for each byte, the
/// higher half first.
pub open spec fn hex_text(bytes: Seq<u8>) -> Seq<char>
    decreases bytes.len(),
{
    if bytes.len() == 0 {
        Seq::empty()
    } else {
        hex_text(bytes.drop_last()).push(hex_digit(bytes.last() as int / 16)).push(
            hex_digit(bytes.last() as int % 16),
        )
    }
}

/// The text form of an address given in bytes, under an address encoding, if
/// the bytes are an address of that encoding. An address of an EVM chain is
/// 20 bytes, written as `0x` and the bytes in hexadecimal; an address of any
/// other encoding is the text that the bytes are the UTF-8 form of.
pub open spec fn address_text(address: Seq<u8>, chain_type: u64) -> Option<Seq<char>> {
    if chain_type == EVM_CHAIN_TYPE {
        if address.len() == EVM_ADDRESS_LENGTH {
            Some("0x"@ + hex_text(address))
        } else {
            None
        }
    } else if valid_utf8(address) {
        Some(decode_utf8(address))
    } else {
        None
    }
}

/// The lower-case form of a text.
pub uninterp spec fn lowercase_of(text: Seq<char>) -> Seq<char>;

/// The number of bytes of a text or byte string that a token holds.
pub open spec fn token_bytes(token: AbiTokenView) -> nat {
    match token {
        AbiTokenView::Text(text) => encode_utf8(text).len(),
        AbiTokenView::Bytes(bytes) => bytes.len(),
        AbiTokenView::Uint(_) => 0,
    }
}

/// A number of bytes filled up to whole words of 32 bytes.
pub open spec fn padded(n: nat) -> nat {
    (((n + 31) / 32) * 32) as nat
}

/// The number of bytes that one token takes in an encoding: one word for an
/// integer; for a text or byte string a word for its place, a word for its
/// length, and its bytes filled up to whole words.
pub open spec fn token_encoded_len(token: AbiTokenView) -> nat {
    match token {
        AbiTokenView::Uint(_) => 32,
        _ => 64 + padded(token_bytes(token)),
    }
}

/// The number of bytes that a list of tokens takes in an encoding.
pub open spec fn abi_encoded_len(tokens: Seq<AbiTokenView>) -> nat
    decreases tokens.len(),
{
    if tokens.len() == 0 {
        0
    } else {
        abi_encoded_len(tokens.drop_last()) + token_encoded_len(tokens.last())
    }
}

/// Whether the encoder can produce an encoding of `len` bytes: it counts
/// the bytes in 32 bits, and it reserves 32 bytes for each of them in one
/// allocation.
pub open spec fn fits_encoder(len: nat) -> bool {
    len <= u32::MAX && 32 * len <= isize::MAX
}

/// Whether a list of tokens can be encoded: its encoding is no longer than
/// the encoder can produce.
pub open spec fn encodable(tokens: Seq<AbiTokenView>) -> bool {
    fits_encoder(abi_encoded_len(tokens))
}

/// The number that the word of 32 bytes at `pos` holds, where the word lies
/// within the data and its 28 leading bytes are zero.
pub open spec fn small_word_at(data: Seq<u8>, pos: int) -> Option<int> {
    if 0 <= pos && pos + 32 <= data.len() && (forall|j: int|
        pos <= j < pos + 28 ==> #[trigger] data[j] == 0) {
        Some(
            data[pos + 28] * 0x100_0000 + data[pos + 29] * 0x1_0000 + data[pos + 30] * 0x100
                + data[pos + 31],
        )
    } else {
        None
    }
}

/// Whether the value whose head word lies at `pos` is framed within the
/// data: an integer's word lies within it; a text or byte string names a
/// place within it, where its length and then that many bytes lie within it.
pub open spec fn slot_framed(kind: AbiKind, data: Seq<u8>, pos: int) -> bool {
    match kind {
        AbiKind::Uint(_) => 0 <= pos && pos + 32 <= data.len(),
        _ => {
            &&& small_word_at(data, pos) matches Some(place)
            &&& small_word_at(data, place) matches Some(len)
            &&& place + 32 + len <= data.len()
        },
    }
}

/// Whether every value of a payload is framed within the data.
pub open spec fn frame_ok(kinds: Seq<AbiKind>, data: Seq<u8>) -> bool {
    forall|i: int| 0 <= i < kinds.len() ==> #[trigger] slot_framed(kinds[i], data, 32 * i)
}

/// Whether a decoded value is of the kind that was asked for.
pub open spec fn token_of_kind(token: Option<AbiTokenView>, kind: AbiKind) -> bool {
    match kind {
        AbiKind::Text => token matches Some(AbiTokenView::Text(_)),
        AbiKind::Bytes => token matches Some(AbiTokenView::Bytes(_)),
        AbiKind::Uint(_) => token matches Some(AbiTokenView::Uint(words)) && words.len() == 4,
    }
}

/// The bytes of `value` in `width` bytes, most significant first.
pub open spec fn be_bytes(value: nat, width: nat) -> Seq<u8>
    decreases width,
{
    if width == 0 {
        Seq::empty()
    } else {
        be_bytes(value / 256, (width - 1) as nat).push((value % 256) as u8)
    }
}

/// The packed form of request metadata: the four gas figures in 8 bytes
/// each, the relayer fee in 16 bytes, one byte for the acknowledgement
/// choice, one byte for the read-call flag, then the bytes of the address of
/// the additional security module.
pub open spec fn request_metadata_encoding(
    dest_gas_limit: u64,
    dest_gas_price: u64,
    ack_gas_limit: u64,
    ack_gas_price: u64,
    relayer_fee: u128,
    ack_type: AckType,
    is_read_call: bool,
    asm_address: Seq<char>,
) -> Seq<u8> {
    be_bytes(dest_gas_limit as nat, 8) + be_bytes(dest_gas_price as nat, 8) + be_bytes(
        ack_gas_limit as nat,
        8,
    ) + be_bytes(ack_gas_price as nat, 8) + be_bytes(relayer_fee as nat, 16) + seq![
        ack_type.code(),
    ] + seq![
        if is_read_call {
            1u8
        } else {
            0u8
        },
    ] + encode_utf8(asm_address)
}

/// Calls `ethabi::encode` on the tokens. The contract names the bytes that
/// come back and states their number: 32 for each integer, and for each text
/// or byte string 64 and its bytes filled up to a multiple of 32. The
/// encoder adds these numbers up in 32 bits and reserves 32 bytes for every
/// byte that it is going to write, which is why encodings that are longer
/// than that allows are left out.
#[verifier::external_body]
pub(crate) fn abi_encode(tokens: &Vec<AbiToken>) -> (out: Vec<u8>)
    requires
        encodable(tokens_view(tokens@)),
    ensures
        out@ == abi_encoding(tokens_view(tokens@)),
        out@.len() == abi_encoded_len(tokens_view(tokens@)),
{
    let converted: Vec<Token> = tokens.iter().map(|t| match t {
        AbiToken::Text(text) => Token::String(text.clone()),
        AbiToken::Bytes(bytes) => Token::Bytes(bytes.clone()),
        AbiToken::Uint(words) => Token::Uint(U256(*words)),
    }).collect();
    encode(&converted)
}

/// Calls `ethabi::decode` on a payload whose values are framed within it.
/// The contract says that the decoder succeeds on such a payload, names the
/// values that come back and states that there is one for each kind asked
/// for, of that kind. The decoder fails only where a word or a text lies
/// outside the payload or a place or length has a non-zero byte among its
/// 28 leading ones, which a framed payload rules out. It adds places and
/// lengths that it reads from the payload without a check for overflow,
/// which is why payloads that are not framed are left out.
#[verifier::external_body]
pub(crate) fn abi_decode(kinds: &Vec<AbiKind>, data: &Vec<u8>) -> (res: Result<
    Vec<Option<AbiToken>>,
    router_wasm_bindings::ethabi::Error,
>)
    requires
        frame_ok(kinds@, data@),
    ensures
        res is Ok,
        decoded_view(res->Ok_0@) == abi_decoding(kinds@, data@),
        res->Ok_0@.len() == kinds@.len(),
        forall|i: int|
            0 <= i < kinds@.len() ==> token_of_kind(
                decoded_token_view(#[trigger] res->Ok_0@[i]),
                kinds@[i],
            ),
{
    let types: Vec<ParamType> = kinds.iter().map(|k| match k {
        AbiKind::Text => ParamType::String,
        AbiKind::Bytes => ParamType::Bytes,
        AbiKind::Uint(bits) => ParamType::Uint(*bits),
    }).collect();
    Ok(decode(&types, data)?.into_iter().map(|t| match t {
        Token::String(text) => Some(AbiToken::Text(text)),
        Token::Bytes(bytes) => Some(AbiToken::Bytes(bytes)),
        Token::Uint(U256(words)) => Some(AbiToken::Uint(words)),
        _ => None,
    }).collect())
}

/// Calls `RequestMetaData::get_abi_encoded_bytes`. The contract states the
/// bytes that come back: the fields one after the other, numbers most
/// significant byte first.
#[verifier::external_body]
pub(crate) fn request_metadata_bytes(
    dest_gas_limit: u64,
    dest_gas_price: u64,
    ack_gas_limit: u64,
    ack_gas_price: u64,
    relayer_fee: u128,
    ack_type: AckType,
    is_read_call: bool,
    asm_address: &String,
) -> (out: Vec<u8>)
    ensures
        out@ == request_metadata_encoding(
            dest_gas_limit,
            dest_gas_price,
            ack_gas_limit,
            ack_gas_price,
            relayer_fee,
            ack_type,
            is_read_call,
            asm_address@,
        ),
{
    let ack_type = match ack_type {
        AckType::NoAck => router_wasm_bindings::types::AckType::NoAck,
        AckType::AckOnSuccess => router_wasm_bindings::types::AckType::AckOnSuccess,
        AckType::AckOnError => router_wasm_bindings::types::AckType::AckOnError,
        AckType::AckOnBoth => router_wasm_bindings::types::AckType::AckOnBoth,
    };
    let relayer_fee = Uint128::new(relayer_fee);
    let asm_address = asm_address.clone();
    RequestMetaData { dest_gas_limit, dest_gas_price, ack_gas_limit, ack_gas_price, relayer_fee, ack_type, is_read_call, asm_address }.get_abi_encoded_bytes()
}

/// Calls `convert_address_from_bytes_to_string`. The contract states the
/// text that comes back, and says that none comes back exactly where the
/// bytes are no address of the encoding: not 20 bytes for an EVM chain, not
/// UTF-8 for any other.
#[verifier::external_body]
pub(crate) fn address_from_bytes(address: &Vec<u8>, chain_type: u64) -> (res: Result<
    String,
    cosmwasm_std::StdError,
>)
    ensures
        match res {
            Ok(text) => address_text(address@, chain_type) == Some(text@),
            Err(_) => address_text(address@, chain_type) is None,
        },
{
    convert_address_from_bytes_to_string(address, chain_type)
}

/// Calls `str::to_lowercase`. The contract names the text that comes back.
#[verifier::external_body]
pub(crate) fn lowercase(text: &String) -> (lower: String)
    ensures
        lower@ == lowercase_of(text@),
{
    text.to_lowercase()
}

/// The number of bytes that a text takes.
pub fn text_byte_len(text: &String) -> (n: usize)
    ensures
        n == encode_utf8(text@).len(),
{
    text.as_str().as_bytes().len()
}

/// Whether the encoder can produce an encoding of `len` bytes.
pub fn check_fits_encoder(len: u128) -> (fits: bool)
    ensures
        fits == fits_encoder(len as nat),
{
    len <= u32::MAX as u128 && len <= isize::MAX as u128 / 32
}

/// Reads the word of 32 bytes at `pos` as a number, where the word lies
/// within the data and its 28 leading bytes are zero.
pub fn read_small_word(data: &Vec<u8>, pos: usize) -> (word: Option<u32>)
    ensures
        word is Some <==> small_word_at(data@, pos as int) is Some,
        word matches Some(w) ==> small_word_at(data@, pos as int) == Some(w as int),
{
    if data.len() < 32 || pos > data.len() - 32 {
        return None;
    }
    let mut j: usize = 0;
    while j < 28
        invariant
            j <= 28,
            pos + 32 <= data.len(),
            forall|x: int| pos <= x < pos + j ==> #[trigger] data@[x] == 0,
        decreases 28 - j,
    {
        if data[pos + j] != 0 {
            return None;
        }
        j = j + 1;
    }
    let b0: u32 = data[pos + 28] as u32;
    let b1: u32 = data[pos + 29] as u32;
    let b2: u32 = data[pos + 30] as u32;
    let b3: u32 = data[pos + 31] as u32;
    Some(b0 * 0x100_0000 + b1 * 0x1_0000 + b2 * 0x100 + b3)
}

/// Whether the value of `kind` whose head word lies at `pos` is framed
/// within the data.
pub fn check_slot(kind: AbiKind, data: &Vec<u8>, pos: usize) -> (framed: bool)
    ensures
        framed == slot_framed(kind, data@, pos as int),
{
    match kind {
        AbiKind::Uint(_) => data.len() >= 32 && pos <= data.len() - 32,
        _ => {
            let place: u32 = match read_small_word(data, pos) {
                Some(p) => p,
                None => {
                    return false;
                },
            };
            if place as u64 > usize::MAX as u64 {
                return false;
            }
            let len: u32 = match read_small_word(data, place as usize) {
                Some(l) => l,
                None => {
                    return false;
                },
            };
            place as u64 + 32 + len as u64 <= data.len() as u64
        },
    }
}

/// Whether every value of a payload of the given kinds is framed within the
/// data.
pub fn check_frame(kinds: &Vec<AbiKind>, data: &Vec<u8>) -> (framed: bool)
    ensures
        framed == frame_ok(kinds@, data@),
{
    let mut i: usize = 0;
    while i < kinds.len()
        invariant
            i <= kinds.len(),
            32 * i <= data@.len(),
            forall|x: int| 0 <= x < i ==> #[trigger] slot_framed(kinds@[x], data@, 32 * x),
        decreases kinds.len() - i,
    {
        if data.len() - 32 * i < 32 {
            assert(!slot_framed(kinds@[i as int], data@, 32 * i));
            return false;
        }
        if !check_slot(kinds[i], data, 32 * i) {
            return false;
        }
        i = i + 1;
    }
    true
}

} // verus!
