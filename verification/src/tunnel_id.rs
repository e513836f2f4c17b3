//! Tunnel identifiers: 128-bit values, their big-endian wire form and their
//! textual form as the left-most label of a public host name.

use vstd::prelude::*;

verus! {

/// Number of bytes a tunnel identifier takes on the wire.
pub const TUNNEL_ID_LEN: usize = 16;

/// The number of values that `len` bytes can hold: `256` to the power `len`.
pub open spec fn byte_limit(len: nat) -> nat
    decreases len,
{
    if len == 0 {
        1
    } else {
        256 * byte_limit((len - 1) as nat)
    }
}

/// The number a byte string denotes when read big-endian.
pub open spec fn be_value(bytes: Seq<u8>) -> nat
    decreases bytes.len(),
{
    if bytes.len() == 0 {
        0
    } else {
        be_value(bytes.drop_last()) * 256 + bytes.last() as nat
    }
}

/// The `len` low-order bytes of `value`, most significant first.
pub open spec fn be_bytes(value: nat, len: nat) -> Seq<u8>
    decreases len,
{
    if len == 0 {
        Seq::empty()
    } else {
        be_bytes(value / 256, (len - 1) as nat).push((value % 256) as u8)
    }
}

/// `be_bytes` yields exactly `len` bytes.
pub proof fn lemma_be_bytes_len(value: nat, len: nat)
    ensures
        be_bytes(value, len).len() == len,
    decreases len,
{
    if len > 0 {
        lemma_be_bytes_len(value / 256, (len - 1) as nat);
    }
}

/// A byte string denotes a number below the limit of its length.
pub proof fn lemma_be_value_bound(bytes: Seq<u8>)
    ensures
        be_value(bytes) < byte_limit(bytes.len()),
    decreases bytes.len(),
{
    if bytes.len() > 0 {
        lemma_be_value_bound(bytes.drop_last());
    }
}

/// Writing the number a byte string denotes gives the byte string back.
pub proof fn lemma_be_bytes_of_value(bytes: Seq<u8>)
    ensures
        be_bytes(be_value(bytes), bytes.len()) == bytes,
    decreases bytes.len(),
{
    if bytes.len() > 0 {
        let front = bytes.drop_last();
        lemma_be_bytes_of_value(front);
        let v = be_value(bytes);
        assert(v / 256 == be_value(front));
        assert(v % 256 == bytes.last() as nat);
        assert(be_bytes(v, bytes.len()) =~= bytes);
    }
}

/// Reading the bytes written for a number below the limit gives the number back.
pub proof fn lemma_be_value_of_bytes(value: nat, len: nat)
    requires
        value < byte_limit(len),
    ensures
        be_value(be_bytes(value, len)) == value,
    decreases len,
{
    if len > 0 {
        lemma_be_value_of_bytes(value / 256, (len - 1) as nat);
        let front = be_bytes(value / 256, (len - 1) as nat);
        let all = be_bytes(value, len);
        assert(all.drop_last() =~= front);
        assert(all.last() == (value % 256) as u8);
    }
}

/// Sixteen bytes hold exactly the values of a `u128`, two bytes those of a `u16`.
pub proof fn lemma_byte_limits()
    ensures
        byte_limit(2) == 0x1_0000,
        byte_limit(16) == 0x1_0000_0000_0000_0000_0000_0000_0000_0000,
{
    reveal_with_fuel(byte_limit, 17);
}

/// The identifier a server assigns to a connected agent.
#[derive(Clone, Copy, Debug, PartialEq, Eq, Hash, Structural)]
pub struct TunnelId {
    pub value: u128,
}

/// The value that a text denotes as a UUID, if it denotes one; `None` for
/// every other text. Simple, hyphenated, braced and URN forms are read.
pub uninterp spec fn uuid_text_value(text: Seq<char>) -> Option<u128>;

/// The lower-case hyphenated text of a 128-bit value.
pub uninterp spec fn uuid_hyphenated_text(value: u128) -> Seq<char>;

/// The bits that mark a value as a random (version 4) UUID.
pub open spec fn is_random_uuid(value: u128) -> bool {
    value & 0xF000_C000_0000_0000_0000u128 == 0x4000_8000_0000_0000_0000u128
}

/// `uuid::Uuid::parse_str`, its error dropped and its result taken as the
/// 128-bit number of the UUID's bytes read big-endian. The outcome depends on
/// the text alone.
#[verifier::external_body]
fn parse_uuid_text(text: &str) -> (value: Option<u128>)
    ensures
        value == uuid_text_value(text@),
{
    match uuid::Uuid::parse_str(text) {
        Ok(id) => Some(id.as_u128()),
        Err(_) => None,
    }
}

/// `uuid::Uuid::new_v4`: a random UUID. Only its version and variant bits
/// are known.
#[verifier::external_body]
fn random_uuid_value() -> (value: u128)
    ensures
        is_random_uuid(value),
{
    uuid::Uuid::new_v4().as_u128()
}

/// The `Display` text of `uuid::Uuid::hyphenated` for the UUID whose bytes are
/// `value` written big-endian.
#[verifier::external_body]
fn hyphenated_uuid_text(value: u128) -> (text: String)
    ensures
        text@ == uuid_hyphenated_text(value),
{
    uuid::Uuid::from_u128(value).hyphenated().to_string()
}

impl TunnelId {
    /// The identifier with the given value.
    pub fn new(value: u128) -> (id: TunnelId)
        ensures
            id.value == value,
    {
        TunnelId { value }
    }

    /// The sixteen bytes of the identifier as they go over the wire.
    pub open spec fn wire(self) -> Seq<u8> {
        be_bytes(self.value as nat, 16)
    }

    /// A fresh random identifier.
    pub fn fresh() -> (id: TunnelId)
        ensures
            is_random_uuid(id.value),
    {
        TunnelId { value: random_uuid_value() }
    }

    /// Reads an identifier from UUID text.
    pub fn parse(text: &str) -> (id: Option<TunnelId>)
        ensures
            id == Self::from_parsed(uuid_text_value(text@)),
    {
        Self::from_value(parse_uuid_text(text))
    }

    /// The identifier that a parsed UUID value stands for.
    pub open spec fn from_parsed(value: Option<u128>) -> Option<TunnelId> {
        match value {
            Some(v) => Some(TunnelId { value: v }),
            None => None,
        }
    }

    /// Wraps a parsed UUID value, if there is one.
    pub fn from_value(value: Option<u128>) -> (id: Option<TunnelId>)
        ensures
            id == Self::from_parsed(value),
    {
        match value {
            Some(v) => Some(TunnelId { value: v }),
            None => None,
        }
    }

    /// The hyphenated text of the identifier, as it appears in host names.
    pub fn label(&self) -> (text: String)
        ensures
            text@ == uuid_hyphenated_text(self.value),
    {
        hyphenated_uuid_text(self.value)
    }

    /// The identifier's wire form: sixteen bytes, most significant first.
    pub fn to_bytes(&self) -> (bytes: Vec<u8>)
        ensures
            bytes@ == self.wire(),
            bytes@.len() == 16,
    {
        let bytes = encode_be(self.value, 16);
        proof {
            lemma_be_bytes_len(self.value as nat, 16);
        }
        bytes
    }

    /// Reads an identifier from its wire form: `None` unless there are
    /// exactly sixteen bytes.
    pub fn from_bytes(bytes: &[u8]) -> (id: Option<TunnelId>)
        ensures
            bytes@.len() != 16 ==> id is None,
            bytes@.len() == 16 ==> id == Some(TunnelId { value: be_value(bytes@) as u128 }),
            bytes@.len() == 16 ==> id.unwrap().wire() == bytes@,
    {
        if bytes.len() != TUNNEL_ID_LEN {
            return None;
        }
        let value = decode_be(bytes);
        proof {
            lemma_be_bytes_of_value(bytes@);
        }
        Some(TunnelId { value })
    }
}

/// Writes the `len` low-order bytes of `value`, most significant first.
pub fn encode_be(value: u128, len: usize) -> (bytes: Vec<u8>)
    ensures
        bytes@ == be_bytes(value as nat, len as nat),
{
    let mut low_first: Vec<u8> = Vec::new();
    let mut rest: u128 = value;
    let mut k: usize = 0;
    while k < len
        invariant
            k <= len,
            low_first@.len() == k,
            be_bytes(value as nat, len as nat) == be_bytes(rest as nat, (len - k) as nat)
                + low_first@.reverse(),
        decreases len - k,
    {
        let low: u8 = (rest % 256) as u8;
        proof {
            let head = be_bytes((rest / 256) as nat, (len - k - 1) as nat);
            assert(be_bytes(rest as nat, (len - k) as nat) == head.push(low));
            assert(low_first@.push(low).reverse() =~= seq![low] + low_first@.reverse());
            assert(head.push(low) + low_first@.reverse() =~= head + low_first@.push(low).reverse());
        }
        low_first.push(low);
        rest = rest / 256;
        k = k + 1;
    }
    let mut bytes: Vec<u8> = Vec::new();
    let mut i: usize = len;
    while i > 0
        invariant
            i <= len,
            low_first@.len() == len,
            bytes@ == low_first@.reverse().take((len - i) as int),
        decreases i,
    {
        i = i - 1;
        bytes.push(low_first[i]);
        assert(bytes@ =~= low_first@.reverse().take((len - i) as int));
    }
    assert(bytes@ =~= low_first@.reverse());
    assert(be_bytes(rest as nat, 0) + low_first@.reverse() =~= low_first@.reverse());
    bytes
}

/// Reads at most sixteen bytes as one big-endian number.
pub fn decode_be(bytes: &[u8]) -> (value: u128)
    requires
        bytes@.len() <= 16,
    ensures
        value == be_value(bytes@),
{
    let mut acc: u128 = 0;
    let mut i: usize = 0;
    while i < bytes.len()
        invariant
            i <= bytes@.len() <= 16,
            acc == be_value(bytes@.take(i as int)),
        decreases bytes@.len() - i,
    {
        proof {
            let next = bytes@.take(i + 1);
            assert(next.drop_last() =~= bytes@.take(i as int));
            assert(next.last() == bytes@[i as int]);
            lemma_be_value_bound(next);
            lemma_byte_limit_monotonic((i + 1) as nat, 16);
            lemma_byte_limits();
        }
        acc = acc * 256 + bytes[i] as u128;
        i = i + 1;
    }
    assert(bytes@.take(i as int) =~= bytes@);
    acc
}

/// Longer byte strings hold at least as many values.
pub proof fn lemma_byte_limit_monotonic(a: nat, b: nat)
    requires
        a <= b,
    ensures
        byte_limit(a) <= byte_limit(b),
        byte_limit(a) >= 1,
    decreases b,
{
    if a < b {
        lemma_byte_limit_monotonic(a, (b - 1) as nat);
    } else if a > 0 {
        lemma_byte_limit_monotonic((a - 1) as nat, (a - 1) as nat);
    }
}

} // verus!
