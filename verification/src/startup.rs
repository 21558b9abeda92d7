//! What the relayer derives from its configuration at start-up: the Safe
//! proxies it uses, the relayers kept internal, the relayers open to random
//! selection, the networks signed by imported private keys only, and the
//! relayers to create for imported private keys.

use vstd::prelude::*;

use crate::config::{
    has_main_method, AllOrOneOrManyAddresses, ApiConfig, ApiKey, GasBumpBlockConfig, NetworkAutomaticTopUpConfig,
    NetworkPermissionsConfig, NetworkSetupConfig, SafeProxyConfig, SigningProvider,
};
use std::collections::HashMap;
use crate::primitives::{ChainId, EvmAddress};
use crate::text::{chars_of, decimal_string, decimal_text};
use vstd::string::*;

verus! {

/// The top-up sources of a network that are kept internal (the default).
pub open spec fn internal_sources(configs: Seq<NetworkAutomaticTopUpConfig>, chain_id: ChainId) -> Seq<(ChainId, EvmAddress)>
    decreases configs.len(),
{
    if configs.len() == 0 {
        Seq::empty()
    } else {
        let c = configs.last();
        internal_sources(configs.drop_last(), chain_id) + if c.from.relayer.internal_only != Some(false) {
            seq![(chain_id, c.from.relayer.address)]
        } else {
            Seq::empty()
        }
    }
}

/// The Safe proxies of a network's top-ups: the Safe, the one relayer that
/// uses it, and the chain.
pub open spec fn safe_sources(configs: Seq<NetworkAutomaticTopUpConfig>, chain_id: ChainId) -> Seq<(EvmAddress, EvmAddress, ChainId)>
    decreases configs.len(),
{
    if configs.len() == 0 {
        Seq::empty()
    } else {
        let c = configs.last();
        safe_sources(configs.drop_last(), chain_id) + match c.from.safe {
            Some(safe) => seq![(safe, c.from.relayer.address, chain_id)],
            None => Seq::empty(),
        }
    }
}

/// The top-up configurations of a network.
pub open spec fn top_ups(n: NetworkSetupConfig) -> Seq<NetworkAutomaticTopUpConfig> {
    match n.automatic_top_up {
        Some(v) => v@,
        None => Seq::empty(),
    }
}

/// The internal top-up sources of all networks, in order.
pub open spec fn internal_entries(networks: Seq<NetworkSetupConfig>) -> Seq<(ChainId, EvmAddress)>
    decreases networks.len(),
{
    if networks.len() == 0 {
        Seq::empty()
    } else {
        internal_entries(networks.drop_last()) + internal_sources(top_ups(networks.last()), networks.last().chain_id)
    }
}

/// The Safe proxies of all networks, in order.
pub open spec fn safe_entries(networks: Seq<NetworkSetupConfig>) -> Seq<(EvmAddress, EvmAddress, ChainId)>
    decreases networks.len(),
{
    if networks.len() == 0 {
        Seq::empty()
    } else {
        safe_entries(networks.drop_last()) + safe_sources(top_ups(networks.last()), networks.last().chain_id)
    }
}

/// A Safe proxy configuration as (Safe, relayers, chain).
pub open spec fn safe_view(c: SafeProxyConfig) -> (EvmAddress, Seq<EvmAddress>, ChainId) {
    (c.address, c.relayers@, c.chain_id)
}

/// The relayers open to random selection on each chain that restricts it
/// (none listed meaning all); where several networks share a chain, the
/// last one's list stands.
pub open spec fn random_map(networks: Seq<NetworkSetupConfig>) -> Map<ChainId, Seq<EvmAddress>>
    decreases networks.len(),
{
    if networks.len() == 0 {
        Map::empty()
    } else {
        let n = networks.last();
        let before = random_map(networks.drop_last());
        match n.allowed_random_relayers {
            Some(a) => before.insert(n.chain_id, a.listed()),
            None => before,
        }
    }
}

/// The networks' permission lists, per network that sets them, in order.
pub open spec fn permission_entries(networks: Seq<NetworkSetupConfig>) -> Seq<(ChainId, Seq<NetworkPermissionsConfig>)>
    decreases networks.len(),
{
    if networks.len() == 0 {
        Seq::empty()
    } else {
        let n = networks.last();
        permission_entries(networks.drop_last()) + match n.permissions {
            Some(p) => seq![(n.chain_id, p@)],
            None => Seq::empty(),
        }
    }
}

/// The networks' API keys, one entry per network in order (an empty list
/// where none are set).
pub open spec fn api_key_entries(networks: Seq<NetworkSetupConfig>) -> Seq<(ChainId, Seq<ApiKey>)>
    decreases networks.len(),
{
    if networks.len() == 0 {
        Seq::empty()
    } else {
        let n = networks.last();
        api_key_entries(networks.drop_last()).push(
            (n.chain_id, match n.api_keys {
                Some(k) => k@,
                None => Seq::empty(),
            }),
        )
    }
}

/// Whether two relayer choices are the same: the same variant with the same addresses.
pub open spec fn same_addresses_choice(a: AllOrOneOrManyAddresses, b: AllOrOneOrManyAddresses) -> bool {
    match a {
        AllOrOneOrManyAddresses::All => b is All,
        AllOrOneOrManyAddresses::One(x) => b matches AllOrOneOrManyAddresses::One(y) && x == y,
        AllOrOneOrManyAddresses::Many(v) => b matches AllOrOneOrManyAddresses::Many(w) && v@ == w@,
    }
}

/// Whether `a` is a copy of the permissions `b`.
pub open spec fn same_permissions(a: NetworkPermissionsConfig, b: NetworkPermissionsConfig) -> bool {
    &&& same_addresses_choice(a.relayers, b.relayers)
    &&& a.allowlist@ == b.allowlist@
    &&& a.disable_native_transfer == b.disable_native_transfer
    &&& a.disable_personal_sign == b.disable_personal_sign
    &&& a.disable_typed_data_sign == b.disable_typed_data_sign
    &&& a.disable_transactions == b.disable_transactions
}

/// Whether `a` is a copy of the API keys `b`.
pub open spec fn same_api_key(a: ApiKey, b: ApiKey) -> bool {
    &&& a.relayer == b.relayer
    &&& a.keys@.len() == b.keys@.len()
    &&& forall|i: int| 0 <= i < a.keys@.len() ==> #[trigger] a.keys@[i]@ == b.keys@[i]@
}

/// Whether `out` holds, entry by entry, copies of the permission entries `src`.
pub open spec fn copies_permission_entries(
    out: Seq<(ChainId, Vec<NetworkPermissionsConfig>)>,
    src: Seq<(ChainId, Seq<NetworkPermissionsConfig>)>,
) -> bool {
    &&& out.len() == src.len()
    &&& forall|k: int| 0 <= k < out.len() ==> {
        &&& (#[trigger] out[k]).0 == src[k].0
        &&& out[k].1@.len() == src[k].1.len()
        &&& forall|j: int| 0 <= j < src[k].1.len() ==> same_permissions(out[k].1@[j], #[trigger] src[k].1[j])
    }
}

/// Whether `out` holds, entry by entry, copies of the API key entries `src`.
pub open spec fn copies_api_key_entries(out: Seq<(ChainId, Vec<ApiKey>)>, src: Seq<(ChainId, Seq<ApiKey>)>) -> bool {
    &&& out.len() == src.len()
    &&& forall|k: int| 0 <= k < out.len() ==> {
        &&& (#[trigger] out[k]).0 == src[k].0
        &&& out[k].1@.len() == src[k].1.len()
        &&& forall|j: int| 0 <= j < src[k].1.len() ==> same_api_key(out[k].1@[j], #[trigger] src[k].1[j])
    }
}

/// What the relayer derives from its networks at start-up.
pub struct StartupPlan {
    pub safe_configs: Vec<SafeProxyConfig>,
    pub relayer_internal_only: Vec<(ChainId, EvmAddress)>,
    /// Per chain that restricts random selection, the relayers allowed.
    pub relayers_allowed_for_random: HashMap<ChainId, Vec<EvmAddress>>,
    pub network_permissions: Vec<(ChainId, Vec<NetworkPermissionsConfig>)>,
    pub api_keys: Vec<(ChainId, Vec<ApiKey>)>,
}

fn copy_addresses_choice(a: &AllOrOneOrManyAddresses) -> (r: AllOrOneOrManyAddresses)
    ensures
        same_addresses_choice(r, *a),
{
    match a {
        AllOrOneOrManyAddresses::All => AllOrOneOrManyAddresses::All,
        AllOrOneOrManyAddresses::One(x) => AllOrOneOrManyAddresses::One(*x),
        AllOrOneOrManyAddresses::Many(v) => AllOrOneOrManyAddresses::Many(copy_addresses(v)),
    }
}

fn copy_permission_list(v: &Vec<NetworkPermissionsConfig>) -> (r: Vec<NetworkPermissionsConfig>)
    ensures
        r@.len() == v@.len(),
        forall|j: int| 0 <= j < v@.len() ==> same_permissions(r@[j], #[trigger] v@[j]),
{
    let mut out: Vec<NetworkPermissionsConfig> = Vec::new();
    let mut i: usize = 0;
    while i < v.len()
        invariant
            i <= v@.len(),
            out@.len() == i,
            forall|j: int| 0 <= j < i ==> same_permissions(out@[j], #[trigger] v@[j]),
        decreases v.len() - i,
    {
        let p = &v[i];
        out.push(NetworkPermissionsConfig {
            relayers: copy_addresses_choice(&p.relayers),
            allowlist: copy_addresses(&p.allowlist),
            disable_native_transfer: p.disable_native_transfer,
            disable_personal_sign: p.disable_personal_sign,
            disable_typed_data_sign: p.disable_typed_data_sign,
            disable_transactions: p.disable_transactions,
        });
        i += 1;
    }
    out
}

fn copy_strings(v: &Vec<String>) -> (r: Vec<String>)
    ensures
        r@.len() == v@.len(),
        forall|j: int| 0 <= j < v@.len() ==> #[trigger] r@[j]@ == v@[j]@,
{
    let mut out: Vec<String> = Vec::new();
    let mut i: usize = 0;
    while i < v.len()
        invariant
            i <= v@.len(),
            out@.len() == i,
            forall|j: int| 0 <= j < i ==> #[trigger] out@[j]@ == v@[j]@,
        decreases v.len() - i,
    {
        out.push(v[i].clone());
        i += 1;
    }
    out
}

fn copy_api_key_list(v: &Vec<ApiKey>) -> (r: Vec<ApiKey>)
    ensures
        r@.len() == v@.len(),
        forall|j: int| 0 <= j < v@.len() ==> same_api_key(r@[j], #[trigger] v@[j]),
{
    let mut out: Vec<ApiKey> = Vec::new();
    let mut i: usize = 0;
    while i < v.len()
        invariant
            i <= v@.len(),
            out@.len() == i,
            forall|j: int| 0 <= j < i ==> same_api_key(out@[j], #[trigger] v@[j]),
        decreases v.len() - i,
    {
        let k = &v[i];
        out.push(ApiKey { relayer: k.relayer, keys: copy_strings(&k.keys) });
        i += 1;
    }
    out
}

fn add_top_up_sources(
    configs: &Vec<NetworkAutomaticTopUpConfig>,
    chain_id: ChainId,
    safe_configs: &mut Vec<SafeProxyConfig>,
    internal: &mut Vec<(ChainId, EvmAddress)>,
)
    ensures
        final(internal)@ == old(internal)@ + internal_sources(configs@, chain_id),
        final(safe_configs)@.map_values(|c: SafeProxyConfig| safe_view(c)) == old(safe_configs)@.map_values(
            |c: SafeProxyConfig| safe_view(c),
        ) + safe_sources(configs@, chain_id).map_values(
            |e: (EvmAddress, EvmAddress, ChainId)| (e.0, seq![e.1], e.2),
        ),
{
    let ghost safe0 = safe_configs@;
    let ghost internal0 = internal@;
    let mut i: usize = 0;
    while i < configs.len()
        invariant
            i <= configs@.len(),
            internal@ == internal0 + internal_sources(configs@.subrange(0, i as int), chain_id),
            safe_configs@.map_values(|c: SafeProxyConfig| safe_view(c)) == safe0.map_values(|c: SafeProxyConfig| safe_view(c))
                + safe_sources(configs@.subrange(0, i as int), chain_id).map_values(
                |e: (EvmAddress, EvmAddress, ChainId)| (e.0, seq![e.1], e.2),
            ),
        decreases configs.len() - i,
    {
        let c = &configs[i];
        let ghost prefix = configs@.subrange(0, i as int);
        let ghost next = configs@.subrange(0, i + 1);
        assert(next.drop_last() =~= prefix);
        let ghost safe_before = safe_configs@;
        if let Some(safe) = c.from.safe {
            let mut relayers: Vec<EvmAddress> = Vec::new();
            relayers.push(c.from.relayer.address);
            safe_configs.push(SafeProxyConfig { address: safe, relayers, chain_id });
        }
        proof {
            let f = |e: (EvmAddress, EvmAddress, ChainId)| (e.0, seq![e.1], e.2);
            let g = |c: SafeProxyConfig| safe_view(c);
            let added: Seq<(EvmAddress, EvmAddress, ChainId)> = match c.from.safe {
                Some(safe) => seq![(safe, c.from.relayer.address, chain_id)],
                None => Seq::empty(),
            };
            assert(safe_sources(next, chain_id) == safe_sources(prefix, chain_id) + added);
            lemma_map_values_add(safe_sources(prefix, chain_id), added, f);
            assert(safe_configs@.map_values(g) =~= safe_before.map_values(g) + added.map_values(f));
        }
        let internal_only = match c.from.relayer.internal_only {
            Some(b) => b,
            None => true,
        };
        if internal_only {
            internal.push((chain_id, c.from.relayer.address));
        }
        assert(internal@ =~= internal0 + internal_sources(next, chain_id));
        i += 1;
    }
    assert(configs@.subrange(0, configs@.len() as int) =~= configs@);
}

proof fn lemma_map_values_add<A, B>(a: Seq<A>, b: Seq<A>, f: spec_fn(A) -> B)
    ensures
        (a + b).map_values(f) =~= a.map_values(f) + b.map_values(f),
{
}

fn copy_addresses(addresses: &Vec<EvmAddress>) -> (r: Vec<EvmAddress>)
    ensures
        r@ == addresses@,
{
    let mut out: Vec<EvmAddress> = Vec::new();
    let mut i: usize = 0;
    while i < addresses.len()
        invariant
            i <= addresses@.len(),
            out@ == addresses@.subrange(0, i as int),
        decreases addresses.len() - i,
    {
        out.push(addresses[i]);
        i += 1;
    }
    out
}

/// Derives, from the configured networks in order: a Safe proxy for every
/// top-up that goes through a Safe; every top-up source that stays
/// internal (unless it says otherwise); for every chain whose network
/// restricts random relayer selection, the relayers it allows (none listed
/// meaning all; the last network on a chain decides); the permission lists
/// of the networks that set them; and every network's API keys.
pub fn plan_startup(networks: &Vec<NetworkSetupConfig>) -> (r: StartupPlan)
    ensures
        r.relayer_internal_only@ == internal_entries(networks@),
        r.safe_configs@.map_values(|c: SafeProxyConfig| safe_view(c)) == safe_entries(networks@).map_values(
            |e: (EvmAddress, EvmAddress, ChainId)| (e.0, seq![e.1], e.2),
        ),
        r.relayers_allowed_for_random@.dom() == random_map(networks@).dom(),
        forall|c: ChainId| #[trigger] r.relayers_allowed_for_random@.contains_key(c)
            ==> r.relayers_allowed_for_random@[c]@ == random_map(networks@)[c],
        copies_permission_entries(r.network_permissions@, permission_entries(networks@)),
        copies_api_key_entries(r.api_keys@, api_key_entries(networks@)),
{
    broadcast use vstd::std_specs::hash::group_hash_axioms;
    let mut safe_configs: Vec<SafeProxyConfig> = Vec::new();
    let mut internal: Vec<(ChainId, EvmAddress)> = Vec::new();
    let mut random: HashMap<ChainId, Vec<EvmAddress>> = HashMap::new();
    let mut permissions: Vec<(ChainId, Vec<NetworkPermissionsConfig>)> = Vec::new();
    let mut api_keys: Vec<(ChainId, Vec<ApiKey>)> = Vec::new();
    let mut i: usize = 0;
    while i < networks.len()
        invariant
            i <= networks@.len(),
            internal@ == internal_entries(networks@.subrange(0, i as int)),
            safe_configs@.map_values(|c: SafeProxyConfig| safe_view(c)) == safe_entries(networks@.subrange(0, i as int)).map_values(
                |e: (EvmAddress, EvmAddress, ChainId)| (e.0, seq![e.1], e.2),
            ),
            random@.dom() == random_map(networks@.subrange(0, i as int)).dom(),
            forall|c: ChainId| #[trigger] random@.contains_key(c)
                ==> random@[c]@ == random_map(networks@.subrange(0, i as int))[c],
            copies_permission_entries(permissions@, permission_entries(networks@.subrange(0, i as int))),
            copies_api_key_entries(api_keys@, api_key_entries(networks@.subrange(0, i as int))),
        decreases networks.len() - i,
    {
        let network = &networks[i];
        let ghost prefix = networks@.subrange(0, i as int);
        let ghost next = networks@.subrange(0, i + 1);
        assert(next.drop_last() =~= prefix);
        assert(next.last() == networks@[i as int]);
        let ghost random_before = random@;
        match &network.allowed_random_relayers {
            Some(allowed) => {
                let addresses = match allowed {
                    AllOrOneOrManyAddresses::All => Vec::new(),
                    AllOrOneOrManyAddresses::One(address) => {
                        let mut v: Vec<EvmAddress> = Vec::new();
                        v.push(*address);
                        v
                    },
                    AllOrOneOrManyAddresses::Many(addresses) => copy_addresses(addresses),
                };
                assert(addresses@ =~= allowed.listed());
                random.insert(network.chain_id, addresses);
                assert(random@.dom() =~= random_map(next).dom());
            },
            None => {
                assert(random@.dom() =~= random_map(next).dom());
            },
        }
        let ghost permissions_before = permissions@;
        match &network.permissions {
            Some(p) => {
                permissions.push((network.chain_id, copy_permission_list(p)));
            },
            None => {},
        }
        proof {
            let src = permission_entries(next);
            assert forall|k: int| 0 <= k < permissions@.len() implies {
                &&& (#[trigger] permissions@[k]).0 == src[k].0
                &&& permissions@[k].1@.len() == src[k].1.len()
                &&& forall|j: int| 0 <= j < src[k].1.len() ==> same_permissions(permissions@[k].1@[j], #[trigger] src[k].1[j])
            } by {
                if k < permissions_before.len() {
                    assert(permissions@[k] == permissions_before[k]);
                    assert(src[k] == permission_entries(prefix)[k]);
                }
            }
        }
        let ghost api_keys_before = api_keys@;
        let keys = match &network.api_keys {
            Some(k) => copy_api_key_list(k),
            None => Vec::new(),
        };
        api_keys.push((network.chain_id, keys));
        proof {
            let src = api_key_entries(next);
            assert forall|k: int| 0 <= k < api_keys@.len() implies {
                &&& (#[trigger] api_keys@[k]).0 == src[k].0
                &&& api_keys@[k].1@.len() == src[k].1.len()
                &&& forall|j: int| 0 <= j < src[k].1.len() ==> same_api_key(api_keys@[k].1@[j], #[trigger] src[k].1[j])
            } by {
                if k < api_keys_before.len() {
                    assert(api_keys@[k] == api_keys_before[k]);
                    assert(src[k] == api_key_entries(prefix)[k]);
                }
            }
        }
        match &network.automatic_top_up {
            Some(configs) => {
                add_top_up_sources(configs, network.chain_id, &mut safe_configs, &mut internal);
            },
            None => {},
        }
        proof {
            assert(internal@ =~= internal_entries(next));
            let f = |e: (EvmAddress, EvmAddress, ChainId)| (e.0, seq![e.1], e.2);
            assert(safe_entries(next) =~= safe_entries(prefix) + safe_sources(top_ups(networks@[i as int]), networks@[i as int].chain_id));
            assert(safe_entries(next).map_values(f) =~= safe_entries(prefix).map_values(f) + safe_sources(
                top_ups(networks@[i as int]),
                networks@[i as int].chain_id,
            ).map_values(f));
        }
        i += 1;
    }
    assert(networks@.subrange(0, networks@.len() as int) =~= networks@);
    StartupPlan {
        safe_configs,
        relayer_internal_only: internal,
        relayers_allowed_for_random: random,
        network_permissions: permissions,
        api_keys,
    }
}

/// The signing provider a network uses: its own, else the global one.
pub open spec fn effective_signing(n: NetworkSetupConfig, global: Option<SigningProvider>) -> Option<SigningProvider> {
    match n.signing_provider {
        Some(p) => Some(p),
        None => global,
    }
}

/// Whether a network signs with imported private keys only.
pub open spec fn private_key_only(n: NetworkSetupConfig, global: Option<SigningProvider>) -> bool {
    match effective_signing(n, global) {
        Some(p) => p.private_keys is Some && !has_main_method(p),
        None => false,
    }
}

/// The chains of the networks, among the first `n`, that sign with imported
/// private keys only, in order.
pub open spec fn private_key_only_chains(networks: Seq<NetworkSetupConfig>, global: Option<SigningProvider>) -> Seq<ChainId>
    decreases networks.len(),
{
    if networks.len() == 0 {
        Seq::empty()
    } else {
        private_key_only_chains(networks.drop_last(), global) + if private_key_only(networks.last(), global) {
            seq![networks.last().chain_id]
        } else {
            Seq::empty()
        }
    }
}

/// The chains of the networks that sign with imported private keys only:
/// their signing provider (their own, else the global one) has private
/// keys and no other method.
pub fn private_key_only_networks(networks: &Vec<NetworkSetupConfig>, global: Option<&SigningProvider>) -> (r: Vec<ChainId>)
    ensures
        r@ == private_key_only_chains(networks@, match global {
            Some(g) => Some(*g),
            None => None,
        }),
{
    let ghost g = match global {
        Some(g) => Some(*g),
        None => None,
    };
    let mut out: Vec<ChainId> = Vec::new();
    let mut i: usize = 0;
    while i < networks.len()
        invariant
            i <= networks@.len(),
            g == (match global {
                Some(x) => Some(*x),
                None => None::<SigningProvider>,
            }),
            out@ == private_key_only_chains(networks@.subrange(0, i as int), g),
        decreases networks.len() - i,
    {
        let network = &networks[i];
        let ghost next = networks@.subrange(0, i + 1);
        assert(next.drop_last() =~= networks@.subrange(0, i as int));
        let signing = match &network.signing_provider {
            Some(p) => Some(p),
            None => global,
        };
        if let Some(p) = signing {
            if p.private_keys.is_some() && !p.has_main_signing_provider() {
                out.push(network.chain_id);
            }
        }
        assert(out@ =~= private_key_only_chains(next, g));
        i += 1;
    }
    assert(networks@.subrange(0, networks@.len() as int) =~= networks@);
    out
}

/// A relayer to create for an imported private key.
#[derive(Debug)]
pub struct PrivateKeyImport {
    /// The key's position among the configured private keys; also the index
    /// its address is derived at.
    pub index: u32,
    /// `<network>-pk-<index>`.
    pub relayer_name: String,
    /// Imported keys take negative wallet indexes, -1 for the first, so as
    /// not to meet mnemonic wallets.
    pub wallet_index: i32,
}

/// The name of the relayer for the private key at `index` of a network.
pub open spec fn import_name(network_name: Seq<char>, index: nat) -> Seq<char> {
    network_name + "-pk-"@ + decimal_text(index)
}

/// `imp` is the import of the private key at `index`.
pub open spec fn import_at(imp: PrivateKeyImport, network_name: Seq<char>, index: int) -> bool {
    &&& imp.index == index
    &&& imp.relayer_name@ == import_name(network_name, index as nat)
    &&& imp.wallet_index == -(index + 1)
}

/// The relayers to create for a network's imported private keys: one per
/// key of its signing provider (its own, else the global one), in order.
pub fn private_key_imports(network: &NetworkSetupConfig, global: Option<&SigningProvider>) -> (r: Vec<PrivateKeyImport>)
    requires
        effective_signing(*network, match global {
            Some(g) => Some(*g),
            None => None,
        }) matches Some(p) ==> (p.private_keys matches Some(keys) ==> keys@.len() < 0x7fff_ffff),
    ensures
        match effective_signing(*network, match global {
            Some(g) => Some(*g),
            None => None,
        }) {
            Some(p) => match p.private_keys {
                Some(keys) => r@.len() == keys@.len() && forall|i: int| 0 <= i < r@.len() ==> import_at(
                    #[trigger] r@[i],
                    network.name@,
                    i,
                ),
                None => r@.len() == 0,
            },
            None => r@.len() == 0,
        },
{
    let signing = match &network.signing_provider {
        Some(p) => Some(p),
        None => global,
    };
    let mut out: Vec<PrivateKeyImport> = Vec::new();
    if let Some(p) = signing {
        if let Some(keys) = &p.private_keys {
            let mut i: usize = 0;
            while i < keys.len()
                invariant
                    i <= keys@.len() < 0x7fff_ffff,
                    out@.len() == i,
                    forall|k: int| 0 <= k < i ==> import_at(#[trigger] out@[k], network.name@, k),
                decreases keys.len() - i,
            {
                let index_text = decimal_string(i as u64);
                let relayer_name = network.name.clone().concat("-pk-").concat(index_text.as_str());
                let position: i32 = i as i32;
                out.push(PrivateKeyImport { index: i as u32, relayer_name, wallet_index: -(position + 1) });
                i += 1;
            }
        }
    }
    out
}


/// The index of the first network on `chain_id`, if any.
pub open spec fn first_network_on(networks: Seq<NetworkSetupConfig>, chain_id: ChainId) -> Option<int> {
    if exists|i: int| 0 <= i < networks.len() && networks[i].chain_id == chain_id {
        Some(choose|i: int| 0 <= i < networks.len() && networks[i].chain_id == chain_id
            && forall|j: int| 0 <= j < i ==> #[trigger] networks[j].chain_id != chain_id)
    } else {
        None
    }
}

/// The gas-bump settings a relayer's queue runs with: those of the first
/// network on its chain; the default bump blocks and a price multiplier of
/// 2 where no network is configured for the chain.
pub fn relayer_queue_settings(networks: &Vec<NetworkSetupConfig>, chain_id: ChainId) -> (r: (GasBumpBlockConfig, u64))
    ensures
        match first_network_on(networks@, chain_id) {
            Some(i) => r == (networks@[i].gas_bump_blocks_every, networks@[i].max_gas_price_multiplier),
            None => r == (GasBumpBlockConfig { slow: 10, medium: 6, fast: 4, super_fast: 2 }, 2u64),
        },
{
    let mut i: usize = 0;
    while i < networks.len()
        invariant
            i <= networks@.len(),
            forall|j: int| 0 <= j < i ==> #[trigger] networks@[j].chain_id != chain_id,
        decreases networks.len() - i,
    {
        if networks[i].chain_id == chain_id {
            let found = (networks[i].gas_bump_blocks_every, networks[i].max_gas_price_multiplier);
            proof {
                let k = first_network_on(networks@, chain_id)->0;
                assert(networks@[i as int].chain_id == chain_id);
                if k < i {
                    assert(networks@[k].chain_id != chain_id);
                }
                if k > i {
                    assert(networks@[i as int].chain_id != chain_id);
                }
            }
            return found;
        }
        i += 1;
    }
    (GasBumpBlockConfig::default(), 2)
}

/// Whether the API accepts requests from any origin: where no origins, or
/// an empty list of them, are configured.
pub fn allows_any_origin(api_config: &ApiConfig) -> (r: bool)
    ensures
        r == match api_config.allowed_origins {
            None => true,
            Some(o) => o@.len() == 0,
        },
{
    match &api_config.allowed_origins {
        None => true,
        Some(origins) => origins.len() == 0,
    }
}

/// The address the API listens on: `<host>:<port>`, the host `localhost`
/// unless one is configured.
pub fn api_listen_address(api_config: &ApiConfig) -> (r: String)
    ensures
        r@ == match api_config.host {
            Some(h) => h@,
            None => "localhost"@,
        } + ":"@ + decimal_text(api_config.port as nat),
{
    let host = match &api_config.host {
        Some(h) => h.clone(),
        None => String::from_str("localhost"),
    };
    let port = decimal_string(api_config.port as u64);
    host.concat(":").concat(port.as_str())
}


/// Whether a character may stand in an HTTP header value: its UTF-8 bytes
/// are each a tab or at least 32 other than 127 (`http`'s `is_valid`),
/// which holds of every character beyond ASCII.
pub open spec fn header_value_char(c: char) -> bool {
    c == '\t' || ((c as u32) >= 32 && (c as u32) != 127)
}

/// Whether a text is a valid HTTP header value (`HeaderValue::from_str`
/// accepts it).
pub open spec fn valid_header_value(s: Seq<char>) -> bool {
    forall|i: int| 0 <= i < s.len() ==> header_value_char(#[trigger] s[i])
}

/// The origins of `origins` that are valid header values, in order.
pub open spec fn header_value_origins(origins: Seq<String>) -> Seq<Seq<char>>
    decreases origins.len(),
{
    if origins.len() == 0 {
        Seq::empty()
    } else {
        let rest = header_value_origins(origins.drop_last());
        if valid_header_value(origins.last()@) {
            rest.push(origins.last()@)
        } else {
            rest
        }
    }
}

fn is_header_value(s: &String) -> (r: bool)
    ensures
        r == valid_header_value(s@),
{
    let chars = chars_of(s.as_str());
    let mut i: usize = 0;
    while i < chars.len()
        invariant
            chars@ == s@,
            i <= chars@.len(),
            forall|k: int| 0 <= k < i ==> header_value_char(#[trigger] chars@[k]),
        decreases chars.len() - i,
    {
        let c = chars[i];
        if !(c == '\t' || ((c as u32) >= 32 && (c as u32) != 127)) {
            assert(!header_value_char(s@[i as int]));
            return false;
        }
        i += 1;
    }
    true
}

/// The origins the API allows where a list of them is configured: those of
/// the configured origins that are valid header values, in order (the
/// others are dropped); none where no origins are configured.
pub fn allowed_origin_values(api_config: &ApiConfig) -> (r: Vec<String>)
    ensures
        r@.map_values(|o: String| o@) == match api_config.allowed_origins {
            Some(o) => header_value_origins(o@),
            None => Seq::empty(),
        },
{
    let mut out: Vec<String> = Vec::new();
    match &api_config.allowed_origins {
        None => {
            assert(out@.map_values(|o: String| o@) =~= Seq::<Seq<char>>::empty());
            out
        },
        Some(origins) => {
            let mut i: usize = 0;
            while i < origins.len()
                invariant
                    i <= origins@.len(),
                    out@.map_values(|o: String| o@) == header_value_origins(origins@.subrange(0, i as int)),
                decreases origins.len() - i,
            {
                let ghost sub = origins@.subrange(0, i as int + 1);
                assert(sub.drop_last() =~= origins@.subrange(0, i as int));
                assert(sub.last() == origins@[i as int]);
                if is_header_value(&origins[i]) {
                    let ghost before = out@;
                    out.push(origins[i].clone());
                    assert(out@.map_values(|o: String| o@) =~= before.map_values(|o: String| o@).push(origins@[i as int]@));
                }
                i += 1;
            }
            assert(origins@.subrange(0, origins@.len() as int) =~= origins@);
            out
        },
    }
}

} // verus!
