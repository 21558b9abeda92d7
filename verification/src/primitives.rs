//! Plain-value models of the chain primitives the relayer reasons about.

use vstd::prelude::*;

verus! {

broadcast use vstd::array::group_array_axioms;

/// A chain identifier.
pub type ChainId = u64;

/// A nonce of a relayer account.
pub type TransactionNonce = u64;

/// A gas limit.
/// A gas limit. Typed transactions carry it as a `u64`; wider values are
/// truncated when a typed transaction is built.
pub type GasLimit = u128;

/// A block number.
pub type BlockNumber = u64;

/// The identifier of a relayer (a 128-bit UUID).
#[derive(Debug, Clone, Copy, PartialEq, Eq, Hash, Structural)]
pub struct RelayerId(pub u128);

/// The identifier of a transaction (a 128-bit UUID).
#[derive(Debug, Clone, Copy, PartialEq, Eq, Hash, Structural)]
pub struct TransactionId(pub u128);

/// A 20-byte account address.
#[derive(Debug, Clone, Copy, PartialEq, Eq)]
pub struct EvmAddress {
    pub bytes: [u8; 20],
}

/// A 32-byte transaction hash.
#[derive(Debug, Clone, Copy, PartialEq, Eq)]
pub struct TransactionHash {
    pub bytes: [u8; 32],
}

/// The mixed-case checksummed hexadecimal text of an address, `0x` first.
pub uninterp spec fn checksummed_address_text(bytes: Seq<u8>) -> Seq<char>;

/// `<alloy::primitives::Address as Display>::to_string`: the checksummed
/// (EIP-55) hexadecimal text of the address.
#[verifier::external_body]
fn address_to_checksum_string(address: &EvmAddress) -> (r: String)
    ensures
        r@ == checksummed_address_text(address.bytes@),
{
    alloy::primitives::Address::from(address.bytes).to_string()
}

impl EvmAddress {
    /// Whether two addresses hold the same bytes.
    pub fn same_as(&self, other: &EvmAddress) -> (r: bool)
        ensures
            r == (*self == *other),
    {
        let mut i: usize = 0;
        while i < 20
            invariant
                i <= 20,
                forall|j: int| 0 <= j < i ==> self.bytes[j] == other.bytes[j],
            decreases 20 - i,
        {
            if self.bytes[i] != other.bytes[i] {
                return false;
            }
            i += 1;
        }
        assert(self.bytes =~= other.bytes);
        true
    }

    /// The checksummed hexadecimal text of the address, as it is displayed.
    pub open spec fn display(&self) -> Seq<char> {
        checksummed_address_text(self.bytes@)
    }

    /// The address as it is displayed.
    pub fn to_display_string(&self) -> (r: String)
        ensures
            r@ == self.display(),
    {
        address_to_checksum_string(self)
    }
}

/// Whether `address` occurs in `addresses`.
pub fn contains_address(addresses: &Vec<EvmAddress>, address: &EvmAddress) -> (r: bool)
    ensures
        r == addresses@.contains(*address),
{
    let mut i: usize = 0;
    while i < addresses.len()
        invariant
            i <= addresses.len(),
            forall|j: int| 0 <= j < i ==> addresses@[j] != *address,
        decreases addresses.len() - i,
    {
        if addresses[i].same_as(address) {
            assert(addresses@[i as int] == *address);
            return true;
        }
        i += 1;
    }
    false
}

/// 2^64.
pub open spec fn limb_base() -> nat {
    0x1_0000_0000_0000_0000
}

/// 2^256.
pub open spec fn uint256_modulus() -> nat {
    limb_base() * limb_base() * limb_base() * limb_base()
}

/// Numbers written with a low digit below `m` and a high part compare as
/// their high parts do, and as their low digits where those are equal.
proof fn lemma_lex_less(a_lo: int, a_hi: int, b_lo: int, b_hi: int, m: int)
    requires
        0 <= a_lo < m,
        0 <= b_lo < m,
    ensures
        (a_lo + m * a_hi < b_lo + m * b_hi) == (a_hi < b_hi || (a_hi == b_hi && a_lo < b_lo)),
{
    if a_hi < b_hi {
        assert(m * a_hi + m <= m * b_hi) by (nonlinear_arith)
            requires a_hi < b_hi, m > 0;
    } else if a_hi > b_hi {
        assert(m * b_hi + m <= m * a_hi) by (nonlinear_arith)
            requires b_hi < a_hi, m > 0;
    }
}

/// A 256-bit unsigned integer, held as four 64-bit limbs, least significant first.
#[derive(Debug, Clone, Copy, PartialEq, Eq)]
pub struct Uint256 {
    pub limbs: [u64; 4],
}

impl Uint256 {
    /// The number the limbs stand for.
    pub open spec fn value(&self) -> nat {
        (self.limbs[0] as nat) + limb_base() * ((self.limbs[1] as nat) + limb_base() * (
        (self.limbs[2] as nat) + limb_base() * (self.limbs[3] as nat)))
    }

    pub fn zero() -> (r: Uint256)
        ensures
            r.value() == 0,
    {
        Uint256 { limbs: [0, 0, 0, 0] }
    }

    /// The 256-bit number equal to `x`.
    pub fn from_u128(x: u128) -> (r: Uint256)
        ensures
            r.value() == x,
    {
        let low = (x % 0x1_0000_0000_0000_0000u128) as u64;
        let high = (x / 0x1_0000_0000_0000_0000u128) as u64;
        Uint256 { limbs: [low, high, 0, 0] }
    }

    /// Whether the number is zero.
    pub fn is_zero(&self) -> (r: bool)
        ensures
            r == (self.value() == 0),
    {
        proof {
            let b = limb_base();
            let l1 = self.limbs[1] as nat;
            let l2 = self.limbs[2] as nat;
            let l3 = self.limbs[3] as nat;
            assert(b * (l2 + b * l3) == 0 ==> l2 + b * l3 == 0) by (nonlinear_arith)
                requires b > 0;
            assert(b * l3 == 0 ==> l3 == 0) by (nonlinear_arith)
                requires b > 0;
            assert(b * (l1 + b * (l2 + b * l3)) == 0 ==> l1 + b * (l2 + b * l3) == 0) by (nonlinear_arith)
                requires b > 0;
        }
        self.limbs[0] == 0 && self.limbs[1] == 0 && self.limbs[2] == 0 && self.limbs[3] == 0
    }

    /// Whether the number `self` stands for is below the one `other` stands
    /// for: the limbs compared from the most significant down.
    pub(crate) fn lt(&self, other: &Uint256) -> (r: bool)
        ensures
            r == (self.value() < other.value()),
    {
        let a = self.limbs;
        let b = other.limbs;
        proof {
            let m = limb_base() as int;
            let a2 = a[2] + m * a[3];
            let b2 = b[2] + m * b[3];
            let a1 = a[1] + m * a2;
            let b1 = b[1] + m * b2;
            lemma_lex_less(a[2] as int, a[3] as int, b[2] as int, b[3] as int, m);
            lemma_lex_less(a[1] as int, a2, b[1] as int, b2, m);
            lemma_lex_less(a[0] as int, a1, b[0] as int, b1, m);
        }
        if a[3] != b[3] {
            a[3] < b[3]
        } else if a[2] != b[2] {
            a[2] < b[2]
        } else if a[1] != b[1] {
            a[1] < b[1]
        } else {
            a[0] < b[0]
        }
    }

    /// `<U256 as Add>::add`, which wraps around at 2^256.
    #[verifier::external_body]
    pub(crate) fn wrapping_add(&self, other: &Uint256) -> (r: Uint256)
        ensures
            r.value() == (self.value() + other.value()) % uint256_modulus(),
    {
        let sum = alloy::primitives::U256::from_limbs(self.limbs) + alloy::primitives::U256::from_limbs(other.limbs);
        Uint256 { limbs: sum.into_limbs() }
    }

    /// `<U256 as Mul>::mul`, which wraps around at 2^256.
    #[verifier::external_body]
    pub(crate) fn wrapping_mul(&self, other: &Uint256) -> (r: Uint256)
        ensures
            r.value() == (self.value() * other.value()) % uint256_modulus(),
    {
        let product = alloy::primitives::U256::from_limbs(self.limbs) * alloy::primitives::U256::from_limbs(other.limbs);
        Uint256 { limbs: product.into_limbs() }
    }
}

} // verus!
