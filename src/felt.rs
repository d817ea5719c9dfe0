//! Field elements of the Starknet prime field, held as 32 big-endian bytes.

use vstd::prelude::*;

verus! {

/// The field modulus `2^251 + 17 * 2^192 + 1`, big-endian.
pub open spec fn modulus_bytes() -> Seq<u8> {
    seq![
        0x08u8, 0, 0, 0, 0, 0, 0, 0x11, 0, 0, 0, 0, 0, 0, 0, 0,
        0, 0, 0, 0, 0, 0, 0, 0, 0, 0, 0, 0, 0, 0, 0, 1,
    ]
}

/// `a` is below `b` in big-endian (lexicographic) order: they agree up to some
/// index, where `a` holds the smaller byte.
pub open spec fn bytes_lt(a: Seq<u8>, b: Seq<u8>) -> bool {
    exists|i: int|
        #![trigger a[i], b[i]]
        0 <= i < a.len() && i < b.len() && a[i] < b[i] && forall|j: int|
            0 <= j < i ==> a[j] == b[j]
}

/// 32 bytes that encode an element of the field, that is a value below the modulus.
pub open spec fn is_felt_bytes(s: Seq<u8>) -> bool {
    s.len() == 32 && bytes_lt(s, modulus_bytes())
}

/// `s` left-padded with zero bytes to 32 bytes.
pub open spec fn left_pad(s: Seq<u8>) -> Seq<u8>
    recommends
        s.len() <= 32,
{
    Seq::new((32 - s.len()) as nat, |i: int| 0u8) + s
}

/// The 32-byte big-endian encoding of `n`.
pub open spec fn u64_felt_bytes(n: u64) -> Seq<u8> {
    Seq::new(24, |i: int| 0u8) + seq![
        (n >> 56u64) as u8,
        (n >> 48u64) as u8,
        (n >> 40u64) as u8,
        (n >> 32u64) as u8,
        (n >> 24u64) as u8,
        (n >> 16u64) as u8,
        (n >> 8u64) as u8,
        n as u8,
    ]
}

pub open spec fn zero_bytes() -> Seq<u8> {
    Seq::new(32, |i: int| 0u8)
}

/// An element of the Starknet field.
#[derive(Clone, Copy, Debug)]
pub struct Felt {
    bytes: [u8; 32],
}

/// Error of a conversion into a field element: the value does not fit.
#[derive(Clone, Copy, Debug, PartialEq, Eq, Structural)]
pub struct OverflowError;

impl View for Felt {
    type V = Seq<u8>;

    closed spec fn view(&self) -> Seq<u8> {
        self.bytes@
    }
}

fn bytes_below_modulus(b: &[u8; 32]) -> (r: bool)
    ensures
        r == bytes_lt(b@, modulus_bytes()),
{
    let m: [u8; 32] = [
        0x08u8, 0, 0, 0, 0, 0, 0, 0x11, 0, 0, 0, 0, 0, 0, 0, 0,
        0, 0, 0, 0, 0, 0, 0, 0, 0, 0, 0, 0, 0, 0, 0, 1,
    ];
    assert(m@ =~= modulus_bytes());
    let mut i: usize = 0;
    while i < 32
        invariant
            0 <= i <= 32,
            m@ == modulus_bytes(),
            forall|j: int| 0 <= j < i ==> b@[j] == m@[j],
        decreases 32 - i,
    {
        if b[i] != m[i] {
            let r = b[i] < m[i];
            proof {
                if !r {
                    assert forall|k: int|
                        0 <= k < b@.len() && k < m@.len() && b@[k] < m@[k] implies exists|j: int|
                        0 <= j < k && b@[j] != m@[j] by {
                        assert(k != i);
                        if k > i {
                            assert(b@[i as int] != m@[i as int]);
                        }
                    }
                }
            }
            return r;
        }
        i = i + 1;
    }
    proof {
        assert forall|k: int|
            0 <= k < b@.len() && k < m@.len() implies !(b@[k] < m@[k]) by {
            assert(b@[k] == m@[k]);
        }
    }
    false
}

impl Felt {
    /// The zero element.
    pub fn zero() -> (r: Felt)
        ensures
            r@ == zero_bytes(),
    {
        let r = Felt { bytes: [0u8; 32] };
        assert(r@ =~= zero_bytes());
        r
    }

    /// Reads a field element from 32 big-endian bytes; fails where they encode
    /// a value that is not below the modulus.
    pub fn from_be_bytes(bytes: [u8; 32]) -> (r: Result<Felt, OverflowError>)
        ensures
            r is Ok <==> is_felt_bytes(bytes@),
            r is Ok ==> r->Ok_0@ == bytes@,
    {
        if bytes_below_modulus(&bytes) {
            Ok(Felt { bytes })
        } else {
            Err(OverflowError)
        }
    }

    /// The 32 big-endian bytes of this element.
    pub fn to_be_bytes(&self) -> (r: [u8; 32])
        ensures
            r@ == self@,
    {
        self.bytes
    }

    /// The element whose value is `n`.
    pub fn from_u64(n: u64) -> (r: Felt)
        ensures
            r@ == u64_felt_bytes(n),
    {
        let mut bytes = [0u8; 32];
        bytes[24] = (n >> 56u64) as u8;
        bytes[25] = (n >> 48u64) as u8;
        bytes[26] = (n >> 40u64) as u8;
        bytes[27] = (n >> 32u64) as u8;
        bytes[28] = (n >> 24u64) as u8;
        bytes[29] = (n >> 16u64) as u8;
        bytes[30] = (n >> 8u64) as u8;
        bytes[31] = n as u8;
        let r = Felt { bytes };
        assert(r@ =~= u64_felt_bytes(n));
        r
    }

    /// Reads a field element from at most 32 big-endian bytes, left-padded with
    /// zeros; fails where they are too many or encode a value that is not below
    /// the modulus.
    pub fn from_be_slice(s: &[u8]) -> (r: Result<Felt, OverflowError>)
        ensures
            r is Ok <==> (s@.len() <= 32 && is_felt_bytes(left_pad(s@))),
            r is Ok ==> r->Ok_0@ == left_pad(s@),
    {
        if s.len() > 32 {
            return Err(OverflowError);
        }
        let pad: usize = 32 - s.len();
        let mut bytes = [0u8; 32];
        let mut i: usize = 0;
        while i < s.len()
            invariant
                pad + s@.len() == 32,
                0 <= i <= s@.len(),
                forall|j: int| 0 <= j < pad ==> bytes@[j] == 0u8,
                forall|j: int| 0 <= j < i ==> bytes@[pad + j] == s@[j],
            decreases s@.len() - i,
        {
            bytes[pad + i] = s[i];
            i = i + 1;
        }
        assert(bytes@ =~= left_pad(s@));
        Felt::from_be_bytes(bytes)
    }
}

impl PartialEq for Felt {
    fn eq(&self, other: &Felt) -> (r: bool) {
        let mut i: usize = 0;
        while i < 32
            invariant
                0 <= i <= 32,
                forall|j: int| 0 <= j < i ==> self.bytes@[j] == other.bytes@[j],
            decreases 32 - i,
        {
            if self.bytes[i] != other.bytes[i] {
                return false;
            }
            i = i + 1;
        }
        assert(self.bytes@ =~= other.bytes@);
        true
    }
}

impl vstd::std_specs::cmp::PartialEqSpecImpl for Felt {
    open spec fn obeys_eq_spec() -> bool {
        true
    }

    open spec fn eq_spec(&self, other: &Felt) -> bool {
        self@ == other@
    }
}

/// The Starknet Pedersen hash of two field elements, by their bytes.
pub uninterp spec fn pedersen_of(a: Seq<u8>, b: Seq<u8>) -> Seq<u8>;

/// The Starknet Poseidon hash of a sequence of field elements, by their bytes.
pub uninterp spec fn poseidon_many_of(items: Seq<Seq<u8>>) -> Seq<u8>;

/// The views of a sequence of field elements.
pub open spec fn felt_views(s: Seq<Felt>) -> Seq<Seq<u8>> {
    s.map_values(|f: Felt| f@)
}

/// Relies on starknet_crypto::pedersen_hash: the Pedersen hash of two field
/// elements, which depends on them alone.
#[verifier::external_body]
pub(crate) fn pedersen(a: &Felt, b: &Felt) -> (r: Felt)
    ensures
        r@ == pedersen_of(a@, b@),
{
    let x = starknet_crypto::Felt::from_bytes_be(&a.bytes);
    let y = starknet_crypto::Felt::from_bytes_be(&b.bytes);
    Felt { bytes: starknet_crypto::pedersen_hash(&x, &y).to_bytes_be() }
}

/// Relies on starknet_crypto::poseidon_hash_many: the Poseidon hash of a
/// sequence of field elements, which depends on them alone.
#[verifier::external_body]
pub(crate) fn poseidon_many(items: &[Felt]) -> (r: Felt)
    ensures
        r@ == poseidon_many_of(felt_views(items@)),
{
    let v: Vec<starknet_crypto::Felt> =
        items.iter().map(|f| starknet_crypto::Felt::from_bytes_be(&f.bytes)).collect();
    Felt { bytes: starknet_crypto::poseidon_hash_many(&v).to_bytes_be() }
}

/// 32 bytes with the six highest bits cleared.
pub open spec fn truncate_to_250_bits(b: Seq<u8>) -> Seq<u8> {
    b.update(0, b[0] & 0x03u8)
}

proof fn lemma_small_first_byte(s: Seq<u8>)
    requires
        s.len() == 32,
        s[0] < 8,
    ensures
        is_felt_bytes(s),
{
    assert(s[0] < modulus_bytes()[0]);
}

/// Left-padded bytes of a string of at most 31 bytes always fit the field.
pub proof fn lemma_short_fits(s: Seq<u8>)
    requires
        s.len() <= 31,
    ensures
        is_felt_bytes(left_pad(s)),
{
    assert(left_pad(s)[0] == 0u8);
    lemma_small_first_byte(left_pad(s));
}

impl Felt {
    /// The element read from `b` with its six highest bits cleared, which
    /// always fits the field.
    pub fn truncated(b: [u8; 32]) -> (r: Felt)
        ensures
            r@ == truncate_to_250_bits(b@),
    {
        let mut bytes = b;
        let top = b[0];
        bytes[0] = top & 0x03u8;
        assert((top & 0x03u8) <= 3u8) by (bit_vector);
        assert(bytes@ =~= truncate_to_250_bits(b@));
        Felt { bytes }
    }

    /// The element holding the ASCII string `s` of at most 31 bytes, big-endian.
    pub fn from_short_string(s: &[u8]) -> (r: Felt)
        requires
            s@.len() <= 31,
        ensures
            r@ == left_pad(s@),
    {
        proof {
            lemma_short_fits(s@);
        }
        match Felt::from_be_slice(s) {
            Ok(f) => f,
            Err(_) => Felt::zero(),
        }
    }
}

} // verus!
