//! The decisions of the automatic top-up task: which addresses to top up,
//! whether the funding relayer can afford it, and the transaction each
//! top-up is queued as.

use vstd::prelude::*;

use crate::config::{AllOrAddresses, Erc20TokenConfig, NativeTokenConfig, NetworkAutomaticTopUpConfig, NetworkSetupConfig, SetupConfig};
use crate::primitives::{contains_address, uint256_modulus, ChainId, EvmAddress, TransactionId, Uint256};
use crate::queue::valid_time;
use crate::sending::TransactionToSend;
use crate::text::{decimal_string, decimal_text};
use crate::transaction::TransactionSpeed;
use vstd::string::*;

verus! {

/// The gas of a plain native transfer.
pub const NATIVE_TRANSFER_GAS: u64 = 21000;

/// The gas an ERC-20 transfer typically uses.
pub const ERC20_TRANSFER_GAS: u64 = 65000;

/// The gas price assumed when the network's cannot be read: 20 gwei.
pub const FALLBACK_GAS_PRICE_WEI: u64 = 20_000_000_000;

/// `s` without the elements equal to `a`, in order.
pub open spec fn without(s: Seq<EvmAddress>, a: EvmAddress) -> Seq<EvmAddress>
    decreases s.len(),
{
    if s.len() == 0 {
        Seq::empty()
    } else {
        without(s.drop_last(), a) + if s.last() == a { Seq::empty() } else { seq![s.last()] }
    }
}

/// The elements of `s` that occur in `known`, in order.
pub open spec fn known_only(s: Seq<EvmAddress>, known: Seq<EvmAddress>) -> Seq<EvmAddress>
    decreases s.len(),
{
    if s.len() == 0 {
        Seq::empty()
    } else {
        known_only(s.drop_last(), known) + if known.contains(s.last()) { seq![s.last()] } else { Seq::empty() }
    }
}

/// The elements of `s` that occur neither in `taken` nor equal `a`, in order.
pub open spec fn fresh_only(s: Seq<EvmAddress>, a: EvmAddress, taken: Seq<EvmAddress>) -> Seq<EvmAddress>
    decreases s.len(),
{
    if s.len() == 0 {
        Seq::empty()
    } else {
        fresh_only(s.drop_last(), a, taken) + if s.last() != a && !taken.contains(s.last()) {
            seq![s.last()]
        } else {
            Seq::empty()
        }
    }
}

fn remove_address(addresses: &Vec<EvmAddress>, a: &EvmAddress) -> (r: Vec<EvmAddress>)
    ensures
        r@ == without(addresses@, *a),
{
    let mut out: Vec<EvmAddress> = Vec::new();
    let mut i: usize = 0;
    while i < addresses.len()
        invariant
            i <= addresses@.len(),
            out@ == without(addresses@.subrange(0, i as int), *a),
        decreases addresses.len() - i,
    {
        assert(addresses@.subrange(0, i + 1).drop_last() =~= addresses@.subrange(0, i as int));
        if !addresses[i].same_as(a) {
            out.push(addresses[i]);
        }
        i += 1;
    }
    assert(addresses@.subrange(0, addresses@.len() as int) =~= addresses@);
    out
}

fn keep_known(addresses: &Vec<EvmAddress>, known: &Vec<EvmAddress>) -> (r: Vec<EvmAddress>)
    ensures
        r@ == known_only(addresses@, known@),
{
    let mut out: Vec<EvmAddress> = Vec::new();
    let mut i: usize = 0;
    while i < addresses.len()
        invariant
            i <= addresses@.len(),
            out@ == known_only(addresses@.subrange(0, i as int), known@),
        decreases addresses.len() - i,
    {
        assert(addresses@.subrange(0, i + 1).drop_last() =~= addresses@.subrange(0, i as int));
        if contains_address(known, &addresses[i]) {
            out.push(addresses[i]);
        }
        i += 1;
    }
    assert(addresses@.subrange(0, addresses@.len() as int) =~= addresses@);
    out
}

/// The addresses a top-up configuration targets, the funding address taken
/// out: all relayers of the chain (none where they cannot be listed), or
/// the configured ones that are relayers of the chain (an error where the
/// relayers cannot be listed).
pub open spec fn resolved_targets(
    relayers: AllOrAddresses,
    chain_relayers: Result<Seq<EvmAddress>, Seq<char>>,
    from_address: EvmAddress,
) -> Result<Seq<EvmAddress>, Seq<char>> {
    match relayers {
        AllOrAddresses::All => match chain_relayers {
            Ok(c) => Ok(without(c, from_address)),
            Err(_) => Ok(Seq::empty()),
        },
        AllOrAddresses::List(listed) => match chain_relayers {
            Ok(c) => Ok(without(known_only(listed@, c), from_address)),
            Err(e) => Err(e),
        },
    }
}

/// Resolves the relayer addresses a top-up configuration targets;
/// `chain_relayers` is the listing of the chain's relayers, or its error.
pub fn resolve_relayer_addresses(
    relayers: &AllOrAddresses,
    chain_relayers: Result<Vec<EvmAddress>, String>,
    from_address: &EvmAddress,
) -> (r: Result<Vec<EvmAddress>, String>)
    ensures
        match resolved_targets(*relayers, match chain_relayers {
            Ok(c) => Ok(c@),
            Err(e) => Err(e@),
        }, *from_address) {
            Ok(t) => r matches Ok(v) && v@ == t,
            Err(e) => r matches Err(m) && m@ == e,
        },
{
    let addresses = match relayers {
        AllOrAddresses::All => match chain_relayers {
            Ok(c) => c,
            Err(_) => Vec::new(),
        },
        AllOrAddresses::List(listed) => match chain_relayers {
            Ok(c) => keep_known(listed, &c),
            Err(e) => return Err(e),
        },
    };
    Ok(remove_address(&addresses, from_address))
}

/// The non-relayer addresses a top-up configuration adds: none unless such
/// top-ups are allowed; else its additional addresses other than the
/// funding address and the relayer targets.
pub fn resolve_additional_addresses(
    allow_non_relayer_topups: bool,
    config: &NetworkAutomaticTopUpConfig,
    relayer_addresses: &Vec<EvmAddress>,
) -> (r: Vec<EvmAddress>)
    ensures
        !allow_non_relayer_topups ==> r@.len() == 0,
        allow_non_relayer_topups ==> r@ == match config.additional_addresses {
            Some(a) => fresh_only(a@, config.from.relayer.address, relayer_addresses@),
            None => Seq::empty(),
        },
{
    if !allow_non_relayer_topups {
        return Vec::new();
    }
    match &config.additional_addresses {
        None => Vec::new(),
        Some(addrs) => {
            let from = config.from.relayer.address;
            let mut out: Vec<EvmAddress> = Vec::new();
            let mut i: usize = 0;
            while i < addrs.len()
                invariant
                    i <= addrs@.len(),
                    from == config.from.relayer.address,
                    out@ == fresh_only(addrs@.subrange(0, i as int), from, relayer_addresses@),
                decreases addrs.len() - i,
            {
                assert(addrs@.subrange(0, i + 1).drop_last() =~= addrs@.subrange(0, i as int));
                if !addrs[i].same_as(&from) && !contains_address(relayer_addresses, &addrs[i]) {
                    out.push(addrs[i]);
                }
                i += 1;
            }
            assert(addrs@.subrange(0, addrs@.len() as int) =~= addrs@);
            out
        },
    }
}

/// The addresses whose balance was read and lies below `min_balance`, in order.
pub open spec fn below_minimum(addresses: Seq<EvmAddress>, balances: Seq<Option<Uint256>>, min_balance: nat) -> Seq<EvmAddress>
    decreases addresses.len(),
{
    if addresses.len() == 0 || balances.len() == 0 {
        Seq::empty()
    } else {
        below_minimum(addresses.drop_last(), balances.drop_last(), min_balance) + match balances.last() {
            Some(b) => if b.value() < min_balance { seq![addresses.last()] } else { Seq::empty() },
            None => Seq::empty(),
        }
    }
}

/// The addresses that need a top-up: those whose balance (read for each
/// address, `None` where reading failed) lies below the minimum.
pub fn addresses_needing_top_up(addresses: &Vec<EvmAddress>, balances: &Vec<Option<Uint256>>, min_balance: &Uint256) -> (r: Vec<EvmAddress>)
    requires
        balances@.len() == addresses@.len(),
    ensures
        r@ == below_minimum(addresses@, balances@, min_balance.value()),
{
    let mut out: Vec<EvmAddress> = Vec::new();
    let mut i: usize = 0;
    while i < addresses.len()
        invariant
            i <= addresses@.len(),
            balances@.len() == addresses@.len(),
            out@ == below_minimum(addresses@.subrange(0, i as int), balances@.subrange(0, i as int), min_balance.value()),
        decreases addresses.len() - i,
    {
        assert(addresses@.subrange(0, i + 1).drop_last() =~= addresses@.subrange(0, i as int));
        assert(balances@.subrange(0, i + 1).drop_last() =~= balances@.subrange(0, i as int));
        if let Some(b) = &balances[i] {
            if b.lt(min_balance) {
                out.push(addresses[i]);
            }
        }
        i += 1;
    }
    assert(addresses@.subrange(0, addresses@.len() as int) =~= addresses@);
    assert(balances@.subrange(0, balances@.len() as int) =~= balances@);
    out
}

/// A product in 256-bit arithmetic (which wraps).
pub open spec fn mul256(a: nat, b: nat) -> nat {
    (a * b) % uint256_modulus()
}

/// A sum in 256-bit arithmetic (which wraps).
pub open spec fn add256(a: nat, b: nat) -> nat {
    (a + b) % uint256_modulus()
}

/// What a transfer costs at a gas price: price times gas, in 256-bit arithmetic.
pub fn transfer_cost(gas_price: u128, gas: u64) -> (r: Uint256)
    ensures
        r.value() == mul256(gas_price as nat, gas as nat),
{
    Uint256::from_u128(gas_price).wrapping_mul(&Uint256::from_u128(gas as u128))
}

/// The estimated cost of the transfers of a top-up round: the estimate from
/// the network's gas price where it could be read, else `gas` at 20 gwei.
pub open spec fn estimated_cost(gas_price: Option<u128>, gas: u64) -> nat {
    match gas_price {
        Some(p) => mul256(p as nat, gas as nat),
        None => mul256(gas as nat, FALLBACK_GAS_PRICE_WEI as nat),
    }
}

fn estimate_cost(gas_price: Option<u128>, gas: u64) -> (r: Uint256)
    ensures
        r.value() == estimated_cost(gas_price, gas),
{
    match gas_price {
        Some(p) => transfer_cost(p, gas),
        None => Uint256::from_u128(gas as u128).wrapping_mul(&Uint256::from_u128(FALLBACK_GAS_PRICE_WEI as u128)),
    }
}

/// Whether the funding address holds enough native token for `count`
/// top-ups: the top-up amount plus the estimated transfer cost, times the
/// count, in 256-bit arithmetic.
pub fn native_balance_sufficient(
    balance: &Uint256,
    native_config: &NativeTokenConfig,
    gas_price: Option<u128>,
    count: usize,
) -> (r: bool)
    ensures
        r == !(balance.value() < mul256(
            add256(native_config.top_up_amount.value(), estimated_cost(gas_price, NATIVE_TRANSFER_GAS)),
            count as nat,
        )),
{
    let gas = estimate_cost(gas_price, NATIVE_TRANSFER_GAS);
    let required = native_config.top_up_amount.wrapping_add(&gas).wrapping_mul(&Uint256::from_u128(count as u128));
    !balance.lt(&required)
}

/// Whether the funding address can pay `count` ERC-20 top-ups: enough
/// native token for their estimated gas, and enough tokens, each in
/// 256-bit arithmetic.
pub fn erc20_balances_sufficient(
    token_balance: &Uint256,
    native_balance: &Uint256,
    token_config: &Erc20TokenConfig,
    gas_price: Option<u128>,
    count: usize,
) -> (r: bool)
    ensures
        r == (!(native_balance.value() < mul256(estimated_cost(gas_price, ERC20_TRANSFER_GAS), count as nat))
            && !(token_balance.value() < mul256(token_config.top_up_amount.value(), count as nat))),
{
    let n = Uint256::from_u128(count as u128);
    let gas = estimate_cost(gas_price, ERC20_TRANSFER_GAS);
    let total_gas_required = gas.wrapping_mul(&n);
    let total_tokens_required = token_config.top_up_amount.wrapping_mul(&n);
    if native_balance.lt(&total_gas_required) {
        return false;
    }
    if token_balance.lt(&total_tokens_required) {
        return false;
    }
    true
}

/// The 32-byte big-endian form of `v` (below 2^256).
pub open spec fn be_bytes(v: nat, count: nat) -> Seq<u8>
    decreases count,
{
    if count == 0 {
        Seq::empty()
    } else {
        be_bytes(v / 256, (count - 1) as nat).push((v % 256) as u8)
    }
}

/// `U256::to_be_bytes::<32>`: the number as 32 bytes, most significant first.
#[verifier::external_body]
fn to_be_bytes(v: &Uint256) -> (r: Vec<u8>)
    ensures
        r@ == be_bytes(v.value(), 32),
{
    alloy::primitives::U256::from_limbs(v.limbs).to_be_bytes::<32>().to_vec()
}

/// The selector of `transfer(address,uint256)`.
pub open spec fn transfer_selector() -> Seq<u8> {
    seq![0xa9u8, 0x05u8, 0x9cu8, 0xbbu8]
}

/// The ABI encoding of a call of `transfer(to, amount)`: the selector, the
/// address left-padded to 32 bytes, the amount as 32 big-endian bytes.
pub open spec fn transfer_calldata(to: EvmAddress, amount: nat) -> Seq<u8> {
    transfer_selector() + Seq::new(12, |i: int| 0u8) + to.bytes@ + be_bytes(amount, 32)
}

/// Encodes a call of the ERC-20 `transfer(to, amount)`.
pub fn encode_transfer_call(to: &EvmAddress, amount: &Uint256) -> (r: Vec<u8>)
    ensures
        r@ == transfer_calldata(*to, amount.value()),
{
    let mut out: Vec<u8> = Vec::new();
    out.push(0xa9);
    out.push(0x05);
    out.push(0x9c);
    out.push(0xbb);
    let mut i: usize = 0;
    while i < 12
        invariant
            i <= 12,
            out@ == transfer_selector() + Seq::new(i as nat, |k: int| 0u8),
        decreases 12 - i,
    {
        out.push(0);
        i += 1;
        assert(out@ =~= transfer_selector() + Seq::new(i as nat, |k: int| 0u8));
    }
    let mut j: usize = 0;
    while j < 20
        invariant
            j <= 20,
            out@ == transfer_selector() + Seq::new(12, |k: int| 0u8) + to.bytes@.subrange(0, j as int),
        decreases 20 - j,
    {
        out.push(to.bytes[j]);
        j += 1;
        assert(out@ =~= transfer_selector() + Seq::new(12, |k: int| 0u8) + to.bytes@.subrange(0, j as int));
    }
    let amount_bytes = to_be_bytes(amount);
    let mut k: usize = 0;
    while k < amount_bytes.len()
        invariant
            k <= amount_bytes@.len(),
            out@ == transfer_selector() + Seq::new(12, |k: int| 0u8) + to.bytes@ + amount_bytes@.subrange(0, k as int),
        decreases amount_bytes.len() - k,
    {
        out.push(amount_bytes[k]);
        k += 1;
        assert(out@ =~= transfer_selector() + Seq::new(12, |k: int| 0u8) + to.bytes@ + amount_bytes@.subrange(0, k as int));
    }
    assert(amount_bytes@.subrange(0, amount_bytes@.len() as int) =~= amount_bytes@);
    assert(to.bytes@.subrange(0, 20) =~= to.bytes@);
    out
}

/// The number bytes stand for, most significant first.
pub open spec fn be_number(bytes: Seq<u8>) -> nat
    decreases bytes.len(),
{
    if bytes.len() == 0 {
        0
    } else {
        be_number(bytes.drop_last()) * 256 + bytes.last() as nat
    }
}

/// `<(Uint<256>,) as SolType>::abi_decode_sequence` (with its default,
/// lenient settings): the uint256 the first 32-byte word holds, read
/// big-endian, or `None` where the data is shorter than a word; bytes after
/// the word are ignored.
#[verifier::external_body]
fn decode_uint256(data: &Vec<u8>) -> (r: Option<Uint256>)
    ensures
        r is None <==> data@.len() < 32,
        r matches Some(v) ==> v.value() == be_number(data@.subrange(0, 32)),
{
    match <(alloy::sol_types::sol_data::Uint<256>,) as alloy::sol_types::SolType>::abi_decode_sequence(data) {
        Ok((v,)) => Some(Uint256 { limbs: v.into_limbs() }),
        Err(_) => None,
    }
}

/// The token balance a `balanceOf` call returned: the number its first
/// 32-byte word holds, big-endian; zero for a reply shorter than a word
/// (an empty one included).
pub fn balance_from_call_result(data: &Vec<u8>) -> (r: Uint256)
    ensures
        data@.len() < 32 ==> r.value() == 0,
        data@.len() >= 32 ==> r.value() == be_number(data@.subrange(0, 32)),
{
    if data.len() == 0 {
        return Uint256::zero();
    }
    match decode_uint256(data) {
        Some(v) => v,
        None => Uint256::zero(),
    }
}

/// The message refusing a top-up of the funding address itself.
pub open spec fn self_top_up_message(erc20: bool, from: EvmAddress, target: EvmAddress) -> Seq<char> {
    (if erc20 { "Cannot send ERC-20 top-up transaction to self: from_address "@ } else {
        "Cannot send top-up transaction to self: from_address "@
    }) + from.display() + " equals relayer_address "@ + target.display()
}

/// Refuses a top-up from an address to itself.
pub fn check_not_self(erc20: bool, from: &EvmAddress, target: &EvmAddress) -> (r: Result<(), String>)
    ensures
        *from == *target ==> (r matches Err(m) && m@ == self_top_up_message(erc20, *from, *target)),
        *from != *target ==> r is Ok,
{
    if from.same_as(target) {
        let prefix = if erc20 {
            String::from_str("Cannot send ERC-20 top-up transaction to self: from_address ")
        } else {
            String::from_str("Cannot send top-up transaction to self: from_address ")
        };
        let from_text = from.to_display_string();
        let target_text = target.to_display_string();
        return Err(prefix.concat(from_text.as_str()).concat(" equals relayer_address ").concat(target_text.as_str()));
    }
    Ok(())
}

/// Checks that a top-up target is a registered relayer of the chain;
/// `lookup` is whether the database found it, or its error.
pub fn check_registered_target(target: &EvmAddress, chain_id: ChainId, lookup: Result<bool, String>) -> (r: Result<(), String>)
    ensures
        match lookup {
            Ok(true) => r is Ok,
            Ok(false) => r matches Err(m) && m@ == "Security check failed: relayer_address "@ + target.display()
                + " is not a registered relayer on chain "@ + decimal_text(chain_id as nat),
            Err(e) => r matches Err(m) && m@ == "Failed to validate relayer_address "@ + target.display() + " as relayer: "@ + e@,
        },
{
    match lookup {
        Ok(true) => Ok(()),
        Ok(false) => {
            let target_text = target.to_display_string();
            let chain_text = decimal_string(chain_id);
            Err(String::from_str("Security check failed: relayer_address ").concat(target_text.as_str()).concat(
                " is not a registered relayer on chain ",
            ).concat(chain_text.as_str()))
        },
        Err(e) => {
            let target_text = target.to_display_string();
            Err(String::from_str("Failed to validate relayer_address ").concat(target_text.as_str()).concat(
                " as relayer: ",
            ).concat(e.as_str()))
        },
    }
}

/// The external id of a native top-up.
pub open spec fn native_top_up_id(from: EvmAddress, target: EvmAddress) -> Seq<char> {
    "automatic_top_up_native_"@ + from.display() + "_"@ + target.display()
}

/// The external id of an ERC-20 top-up.
pub open spec fn erc20_top_up_id(token: EvmAddress, from: EvmAddress, target: EvmAddress) -> Seq<char> {
    "automatic_top_up_erc20_"@ + token.display() + "_"@ + from.display() + "_"@ + target.display()
}

/// Where a top-up transaction goes, what it carries and sends: directly
/// to the target, or through a Safe whose signed call data the caller built.
pub struct TopUpRoute {
    pub to: EvmAddress,
    pub value: Uint256,
    pub data: Vec<u8>,
}

/// The transaction a native top-up is queued as, sent fast: the top-up
/// amount straight to the target, or through the Safe with `safe_call`.
pub fn native_top_up_request(
    id: TransactionId,
    from: &EvmAddress,
    target: &EvmAddress,
    native_config: &NativeTokenConfig,
    safe_call: Option<(EvmAddress, Vec<u8>)>,
) -> (r: TransactionToSend)
    ensures
        r.id == id,
        r.speed == TransactionSpeed::FAST,
        r.blobs is None,
        (r.external_id matches Some(e) && e@ == native_top_up_id(*from, *target)),
        match safe_call {
            None => r.to == *target && r.value.value() == native_config.top_up_amount.value() && r.data@.len() == 0,
            Some((safe, call)) => r.to == safe && r.value.value() == 0 && r.data@ == call@,
        },
{
    let external_id = String::from_str("automatic_top_up_native_").concat(from.to_display_string().as_str()).concat("_").concat(
        target.to_display_string().as_str(),
    );
    let (to, value, data) = match safe_call {
        None => (*target, native_config.top_up_amount, Vec::new()),
        Some((safe, call)) => (safe, Uint256::zero(), call),
    };
    TransactionToSend { id, to, value, data, speed: TransactionSpeed::FAST, blobs: None, external_id: Some(external_id) }
}

/// The transaction an ERC-20 top-up is queued as, sent fast with no value:
/// the token's `transfer` to the target, or through the Safe with `safe_call`.
pub fn erc20_top_up_request(
    id: TransactionId,
    from: &EvmAddress,
    target: &EvmAddress,
    token_config: &Erc20TokenConfig,
    safe_call: Option<(EvmAddress, Vec<u8>)>,
) -> (r: TransactionToSend)
    ensures
        r.id == id,
        r.speed == TransactionSpeed::FAST,
        r.blobs is None,
        r.value.value() == 0,
        (r.external_id matches Some(e) && e@ == erc20_top_up_id(token_config.address, *from, *target)),
        match safe_call {
            None => r.to == token_config.address && r.data@ == transfer_calldata(*target, token_config.top_up_amount.value()),
            Some((safe, call)) => r.to == safe && r.data@ == call@,
        },
{
    let external_id = String::from_str("automatic_top_up_erc20_").concat(token_config.address.to_display_string().as_str()).concat(
        "_",
    ).concat(from.to_display_string().as_str()).concat("_").concat(target.to_display_string().as_str());
    let (to, data) = match safe_call {
        None => (token_config.address, encode_transfer_call(target, &token_config.top_up_amount)),
        Some((safe, call)) => (safe, call),
    };
    TransactionToSend {
        id,
        to,
        value: Uint256::zero(),
        data,
        speed: TransactionSpeed::FAST,
        blobs: None,
        external_id: Some(external_id),
    }
}


proof fn lemma_without_excludes(s: Seq<EvmAddress>, a: EvmAddress)
    ensures
        !without(s, a).contains(a),
        forall|x: EvmAddress| #[trigger] without(s, a).contains(x) ==> s.contains(x),
    decreases s.len(),
{
    if s.len() > 0 {
        lemma_without_excludes(s.drop_last(), a);
        let rest = without(s.drop_last(), a);
        let tail: Seq<EvmAddress> = if s.last() == a { Seq::empty() } else { seq![s.last()] };
        assert forall|x: EvmAddress| #[trigger] (rest + tail).contains(x) implies s.contains(x) && x != a by {
            let k = choose|k: int| 0 <= k < (rest + tail).len() && (rest + tail)[k] == x;
            if k < rest.len() {
                assert(rest[k] == x);
                assert(rest.contains(x));
                let j = choose|j: int| 0 <= j < s.drop_last().len() && s.drop_last()[j] == x;
                assert(s[j] == x);
            } else {
                assert(s[s.len() - 1] == x);
            }
        }
    }
}

/// No top-up funds its own source: the resolved relayer targets never hold
/// the funding address, and hold only addresses the listing or the
/// configuration named.
pub proof fn lemma_no_self_funding(
    relayers: AllOrAddresses,
    chain_relayers: Result<Seq<EvmAddress>, Seq<char>>,
    from_address: EvmAddress,
)
    ensures
        resolved_targets(relayers, chain_relayers, from_address) matches Ok(t) ==> !t.contains(from_address),
{
    match relayers {
        AllOrAddresses::All => match chain_relayers {
            Ok(c) => lemma_without_excludes(c, from_address),
            Err(_) => {},
        },
        AllOrAddresses::List(listed) => match chain_relayers {
            Ok(c) => lemma_without_excludes(known_only(listed@, c), from_address),
            Err(_) => {},
        },
    }
}

proof fn lemma_fresh_excludes(s: Seq<EvmAddress>, a: EvmAddress, taken: Seq<EvmAddress>)
    ensures
        forall|x: EvmAddress| #[trigger] fresh_only(s, a, taken).contains(x) ==> x != a && !taken.contains(x),
    decreases s.len(),
{
    if s.len() > 0 {
        lemma_fresh_excludes(s.drop_last(), a, taken);
        let rest = fresh_only(s.drop_last(), a, taken);
        let tail: Seq<EvmAddress> = if s.last() != a && !taken.contains(s.last()) { seq![s.last()] } else { Seq::empty() };
        assert forall|x: EvmAddress| #[trigger] (rest + tail).contains(x) implies x != a && !taken.contains(x) by {
            let k = choose|k: int| 0 <= k < (rest + tail).len() && (rest + tail)[k] == x;
            if k < rest.len() {
                assert(rest[k] == x);
                assert(rest.contains(x));
            }
        }
    }
}

/// The non-relayer addresses a top-up adds never hold the funding address
/// nor any relayer target.
pub proof fn lemma_additional_addresses_are_fresh(s: Seq<EvmAddress>, from_address: EvmAddress, relayer_targets: Seq<EvmAddress>, x: EvmAddress)
    requires
        fresh_only(s, from_address, relayer_targets).contains(x),
    ensures
        x != from_address,
        !relayer_targets.contains(x),
{
    lemma_fresh_excludes(s, from_address, relayer_targets);
}


/// Whether top-ups may go to addresses that are not relayers: off unless
/// the advanced settings turn it on.
pub fn allow_non_relayer_topups(config: &SetupConfig) -> (r: bool)
    ensures
        r == (config.advanced matches Some(a) && a.allow_non_relayer_topups == Some(true)),
{
    match &config.advanced {
        Some(a) => match a.allow_non_relayer_topups {
            Some(b) => b,
            None => false,
        },
        None => false,
    }
}

/// Whether a network has top-up configurations to act on.
pub open spec fn tops_up(n: NetworkSetupConfig) -> bool {
    n.automatic_top_up matches Some(c) && c@.len() > 0
}

/// The chains, in order, of the networks that have top-up configurations.
pub open spec fn top_up_chains(networks: Seq<NetworkSetupConfig>) -> Seq<ChainId>
    decreases networks.len(),
{
    if networks.len() == 0 {
        Seq::empty()
    } else {
        top_up_chains(networks.drop_last()) + if tops_up(networks.last()) {
            seq![networks.last().chain_id]
        } else {
            Seq::empty()
        }
    }
}

/// The chains whose relayers the top-up task keeps track of: those of the
/// networks with top-up configurations, in order.
pub fn networks_with_top_ups(networks: &Vec<NetworkSetupConfig>) -> (r: Vec<ChainId>)
    ensures
        r@ == top_up_chains(networks@),
{
    let mut out: Vec<ChainId> = Vec::new();
    let mut i: usize = 0;
    while i < networks.len()
        invariant
            i <= networks@.len(),
            out@ == top_up_chains(networks@.subrange(0, i as int)),
        decreases networks.len() - i,
    {
        assert(networks@.subrange(0, i + 1).drop_last() =~= networks@.subrange(0, i as int));
        let has_configs = match &networks[i].automatic_top_up {
            Some(configs) => configs.len() > 0,
            None => false,
        };
        if has_configs {
            out.push(networks[i].chain_id);
        }
        i += 1;
    }
    assert(networks@.subrange(0, networks@.len() as int) =~= networks@);
    out
}

/// One batch of top-ups: a token (native, or the ERC-20 token at an index
/// of the configuration) for either the relayer targets or the additional
/// addresses; the additional addresses skip the registered-relayer check.
#[derive(Debug, Clone, Copy, PartialEq, Eq, Structural)]
pub struct TopUpJob {
    /// `None` for the native token, else the index of the ERC-20 token.
    pub erc20_token: Option<usize>,
    /// Whether the batch is for the additional (non-relayer) addresses.
    pub additional_addresses: bool,
}

/// The batches of one configuration, in order: native for the relayers,
/// native for the additional addresses, then for each ERC-20 token the same
/// two; a batch only where it has addresses and its token is configured.
pub open spec fn planned_jobs(native: bool, tokens: nat, relayers: bool, additional: bool) -> Seq<TopUpJob>
    decreases tokens,
{
    if tokens == 0 {
        (if native && relayers { seq![TopUpJob { erc20_token: None, additional_addresses: false }] } else { Seq::empty() })
            + (if native && additional { seq![TopUpJob { erc20_token: None, additional_addresses: true }] } else { Seq::empty() })
    } else {
        let i = (tokens - 1) as nat;
        planned_jobs(native, i, relayers, additional)
            + (if relayers { seq![TopUpJob { erc20_token: Some(i as usize), additional_addresses: false }] } else { Seq::empty() })
            + (if additional { seq![TopUpJob { erc20_token: Some(i as usize), additional_addresses: true }] } else { Seq::empty() })
    }
}

/// The top-up batches of a configuration, given whether it has relayer
/// targets and additional addresses; none where it has neither.
pub fn top_up_jobs(
    config: &NetworkAutomaticTopUpConfig,
    has_relayer_targets: bool,
    has_additional_addresses: bool,
) -> (r: Vec<TopUpJob>)
    ensures
        r@ == planned_jobs(
            config.native is Some,
            match config.erc20_tokens {
                Some(t) => t@.len(),
                None => 0,
            },
            has_relayer_targets,
            has_additional_addresses,
        ),
{
    let mut jobs: Vec<TopUpJob> = Vec::new();
    let native = config.native.is_some();
    if native && has_relayer_targets {
        jobs.push(TopUpJob { erc20_token: None, additional_addresses: false });
    }
    if native && has_additional_addresses {
        jobs.push(TopUpJob { erc20_token: None, additional_addresses: true });
    }
    assert(jobs@ =~= planned_jobs(native, 0, has_relayer_targets, has_additional_addresses));
    let count: usize = match &config.erc20_tokens {
        Some(t) => t.len(),
        None => 0,
    };
    let mut i: usize = 0;
    while i < count
        invariant
            i <= count,
            jobs@ == planned_jobs(native, i as nat, has_relayer_targets, has_additional_addresses),
        decreases count - i,
    {
        let ghost before = jobs@;
        if has_relayer_targets {
            jobs.push(TopUpJob { erc20_token: Some(i), additional_addresses: false });
        }
        if has_additional_addresses {
            jobs.push(TopUpJob { erc20_token: Some(i), additional_addresses: true });
        }
        i += 1;
        assert(jobs@ =~= planned_jobs(native, i as nat, has_relayer_targets, has_additional_addresses));
    }
    jobs
}


/// Whether the top-ups of a batch go ahead after the funding address's
/// balance check: as the check says, and also where the balance could not
/// be read (the sends then show whether the funds suffice).
pub fn should_send_top_ups(balance_check: &Result<bool, String>) -> (r: bool)
    ensures
        r == match balance_check {
            Ok(sufficient) => *sufficient,
            Err(_) => true,
        },
{
    match balance_check {
        Ok(sufficient) => *sufficient,
        Err(_) => true,
    }
}


/// How often the top-up task reloads the relayers it serves: every 60 seconds.
pub const RELAYER_REFRESH_INTERVAL_MS: i64 = 60_000;

/// How often the top-up task checks balances and tops up: every 30 seconds.
pub const TOP_UP_CHECK_INTERVAL_MS: i64 = 30_000;

/// What the top-up task does on waking: reload its relayers, check the
/// balances, or both.
#[derive(Debug, Clone, Copy, PartialEq, Eq, Structural)]
pub struct TopUpTaskWork {
    pub refresh_relayers: bool,
    pub check_top_ups: bool,
}

/// Decides what the top-up task does at `now_ms`, given when it last
/// reloaded its relayers and last checked the balances: each is due once
/// its interval has passed.
pub fn top_up_task_work(now_ms: i64, last_refresh_ms: i64, last_check_ms: i64) -> (r: TopUpTaskWork)
    requires
        valid_time(now_ms),
        valid_time(last_refresh_ms),
        valid_time(last_check_ms),
    ensures
        r.refresh_relayers == (now_ms - last_refresh_ms >= RELAYER_REFRESH_INTERVAL_MS),
        r.check_top_ups == (now_ms - last_check_ms >= TOP_UP_CHECK_INTERVAL_MS),
{
    TopUpTaskWork {
        refresh_relayers: now_ms - last_refresh_ms >= RELAYER_REFRESH_INTERVAL_MS,
        check_top_ups: now_ms - last_check_ms >= TOP_UP_CHECK_INTERVAL_MS,
    }
}


/// The batches of a top-up round: a native batch for the relayers exactly
/// when there is a native configuration and relayer targets, one for the
/// additional addresses exactly when there is a native configuration and
/// such addresses; for each configured ERC-20 token (and no other index)
/// a batch for the relayers exactly when there are relayer targets, and
/// one for the additional addresses exactly when there are any.
pub proof fn lemma_top_up_batches(native: bool, tokens: nat, relayers: bool, additional: bool, j: TopUpJob)
    ensures
        planned_jobs(native, tokens, relayers, additional).contains(j) <==> match j.erc20_token {
            None => native && (if j.additional_addresses { additional } else { relayers }),
            Some(i) => i < tokens && (if j.additional_addresses { additional } else { relayers }),
        },
    decreases tokens,
{
    let p = planned_jobs(native, tokens, relayers, additional);
    let want = match j.erc20_token {
        None => native && (if j.additional_addresses { additional } else { relayers }),
        Some(i) => i < tokens && (if j.additional_addresses { additional } else { relayers }),
    };
    if tokens == 0 {
        let a: Seq<TopUpJob> = if native && relayers { seq![TopUpJob { erc20_token: None, additional_addresses: false }] } else { Seq::empty() };
        let b: Seq<TopUpJob> = if native && additional { seq![TopUpJob { erc20_token: None, additional_addresses: true }] } else { Seq::empty() };
        assert(p == a + b);
        if want {
            if j.additional_addresses {
                assert(p[a.len() as int] == j);
            } else {
                assert(p[0] == j);
            }
        }
        if p.contains(j) {
            let k = choose|k: int| 0 <= k < p.len() && p[k] == j;
            if k < a.len() {
                assert(a[k] == j);
            } else {
                assert(b[k - a.len()] == j);
            }
        }
    } else {
        let i = (tokens - 1) as nat;
        let q = planned_jobs(native, i, relayers, additional);
        let a: Seq<TopUpJob> = if relayers { seq![TopUpJob { erc20_token: Some(i as usize), additional_addresses: false }] } else { Seq::empty() };
        let b: Seq<TopUpJob> = if additional { seq![TopUpJob { erc20_token: Some(i as usize), additional_addresses: true }] } else { Seq::empty() };
        assert(p == q + a + b);
        lemma_top_up_batches(native, i, relayers, additional, j);
        if p.contains(j) {
            let k = choose|k: int| 0 <= k < p.len() && p[k] == j;
            if k < q.len() {
                assert(q[k] == j);
                assert(q.contains(j));
            } else if k < q.len() + a.len() {
                assert(a[k - q.len()] == j);
            } else {
                assert(b[k - q.len() - a.len()] == j);
            }
        }
        if want {
            if q.contains(j) {
                let k = choose|k: int| 0 <= k < q.len() && q[k] == j;
                assert(p[k] == j);
            } else {
                assert(j.erc20_token == Some(i as usize));
                if j.additional_addresses {
                    assert(p[(q.len() + a.len()) as int] == j);
                } else {
                    assert(p[q.len() as int] == j);
                }
            }
        }
    }
}


/// An address needs a top-up exactly when it is one of the addresses whose
/// balance was read and lies below the minimum.
pub proof fn lemma_below_minimum_members(
    addresses: Seq<EvmAddress>,
    balances: Seq<Option<Uint256>>,
    min_balance: nat,
    x: EvmAddress,
)
    requires
        addresses.len() == balances.len(),
    ensures
        below_minimum(addresses, balances, min_balance).contains(x) <==> exists|i: int|
            0 <= i < addresses.len() && addresses[i] == x && (#[trigger] balances[i] matches Some(b) && b.value() < min_balance),
    decreases addresses.len(),
{
    if addresses.len() > 0 {
        let a0 = addresses.drop_last();
        let b0 = balances.drop_last();
        let n = addresses.len() - 1;
        lemma_below_minimum_members(a0, b0, min_balance, x);
        let before = below_minimum(a0, b0, min_balance);
        let added: Seq<EvmAddress> = match balances.last() {
            Some(b) => if b.value() < min_balance { seq![addresses.last()] } else { Seq::empty() },
            None => Seq::empty(),
        };
        let all = below_minimum(addresses, balances, min_balance);
        assert(all == before + added);
        if all.contains(x) {
            let k = choose|k: int| 0 <= k < all.len() && all[k] == x;
            if k < before.len() {
                assert(before[k] == x);
                let i = choose|i: int|
                    0 <= i < a0.len() && a0[i] == x && (#[trigger] b0[i] matches Some(b) && b.value() < min_balance);
                assert(addresses[i] == x && balances[i] == b0[i]);
            } else {
                assert(added[k - before.len()] == x);
                assert(addresses[n] == x && balances[n] == balances.last());
            }
        }
        if exists|i: int| 0 <= i < addresses.len() && addresses[i] == x && (#[trigger] balances[i] matches Some(b) && b.value() < min_balance) {
            let i = choose|i: int|
                0 <= i < addresses.len() && addresses[i] == x && (#[trigger] balances[i] matches Some(b) && b.value() < min_balance);
            if i < n {
                assert(a0[i] == x && b0[i] == balances[i]);
                let k = choose|k: int| 0 <= k < before.len() && before[k] == x;
                assert(all[k] == x);
            } else {
                assert(all[before.len() as int] == x);
            }
        }
    }
}

proof fn lemma_pow256_positive(n: nat)
    ensures
        crate::process_result::nat_pow(256, n) >= 1,
    decreases n,
{
    if n > 0 {
        lemma_pow256_positive((n - 1) as nat);
    }
}

/// The big-endian bytes of a number read back give the number, modulo
/// the room the bytes have.
proof fn lemma_be_bytes_read_back(v: nat, count: nat)
    ensures
        be_number(be_bytes(v, count)) == v % crate::process_result::nat_pow(256, count),
        be_bytes(v, count).len() == count,
    decreases count,
{
    if count > 0 {
        let c = (count - 1) as nat;
        lemma_be_bytes_read_back(v / 256, c);
        let s = be_bytes(v, count);
        assert(s.drop_last() == be_bytes(v / 256, c));
        let m = crate::process_result::nat_pow(256, c);
        lemma_pow256_positive(c);
        vstd::arithmetic::div_mod::lemma_mod_breakdown(v as int, 256, m as int);
        assert(crate::process_result::nat_pow(256, count) == 256 * m);
        assert(be_number(s) == ((v / 256) % m) * 256 + v % 256);
        assert(((v / 256) % m) * 256 == 256 * ((v / 256) % m)) by (nonlinear_arith);
    }
}

/// The ERC-20 transfer call: 68 bytes, the selector `a9059cbb`, twelve
/// zero bytes, the recipient's 20 bytes, then a word that reads back as
/// the amount (below 2^256).
pub proof fn lemma_transfer_calldata_layout(to: EvmAddress, amount: nat)
    requires
        amount < uint256_modulus(),
    ensures
        ({
            let d = transfer_calldata(to, amount);
            &&& d.len() == 68
            &&& d[0] == 0xa9u8 && d[1] == 0x05u8 && d[2] == 0x9cu8 && d[3] == 0xbbu8
            &&& forall|i: int| 4 <= i < 16 ==> d[i] == 0u8
            &&& d.subrange(16, 36) == to.bytes@
            &&& be_number(d.subrange(36, 68)) == amount
        }),
{
    lemma_be_bytes_read_back(amount, 32);
    let d = transfer_calldata(to, amount);
    let z = Seq::new(12, |i: int| 0u8);
    assert(d == transfer_selector() + z + to.bytes@ + be_bytes(amount, 32));
    assert(d.len() == 68);
    assert(d[0] == 0xa9u8 && d[1] == 0x05u8 && d[2] == 0x9cu8 && d[3] == 0xbbu8);
    assert forall|i: int| 4 <= i < 16 implies d[i] == 0u8 by {
        assert(d[i] == z[i - 4]);
    }
    assert(d.subrange(16, 36) =~= to.bytes@);
    assert(d.subrange(36, 68) =~= be_bytes(amount, 32));
    assert(crate::process_result::nat_pow(256, 32) == uint256_modulus()) by {
        reveal_with_fuel(crate::process_result::nat_pow, 33);
    }
    vstd::arithmetic::div_mod::lemma_small_mod(amount, uint256_modulus());
    assert(be_number(d.subrange(36, 68)) == amount);
}

} // verus!
