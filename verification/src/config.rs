//! The relayer's setup configuration: its types, defaults and validation,
//! and the `${VAR}` substitution applied to the configuration text.

use vstd::prelude::*;

use crate::primitives::{contains_address, ChainId, EvmAddress, Uint256};
use crate::text::{chars_of, has_run, string_from_chars};
use crate::transaction::TransactionSpeed;
use vstd::string::*;

verus! {

#[derive(Debug, Clone)]
pub struct GcpSecretManagerProviderConfig {
    pub id: String,
    pub key: String,
    pub version: Option<String>,
    pub service_account_key_path: String,
}

#[derive(Debug, Clone)]
pub struct AwsSecretManagerProviderConfig {
    pub id: String,
    pub key: String,
    pub region: String,
}

#[derive(Debug, Clone)]
pub struct AwsKmsSigningProviderConfig {
    pub region: String,
    pub danger_override_alias: Option<String>,
    pub endpoint_url: Option<String>,
    pub multi_region: Option<bool>,
}

#[derive(Debug, Clone)]
pub struct RawSigningProviderConfig {
    pub mnemonic: String,
}

#[derive(Debug, Clone)]
pub struct PrivySigningProviderConfig {
    pub app_id: String,
    pub app_secret: String,
}

#[derive(Debug, Clone)]
pub struct TurnkeySigningProviderConfig {
    pub api_public_key: String,
    pub api_private_key: String,
    pub organization_id: String,
    pub wallet_id: String,
}

#[derive(Debug, Clone)]
pub struct Pkcs11SigningProviderConfig {
    pub library_path: String,
    /// Required unique identifier for key naming (e.g. "production").
    pub identity: String,
    pub pin: Option<String>,
    pub slot_id: Option<u64>,
    /// Development only: mock signatures for testing.
    pub test_mode: Option<bool>,
}

#[derive(Debug, Clone)]
pub struct FireblocksSigningProviderConfig {
    pub api_key: String,
    pub private_key_path: String,
    /// Required unique identifier for vault naming (e.g. "production").
    pub identity: String,
    pub sandbox: Option<bool>,
    pub hidden_on_ui: Option<bool>,
}

#[derive(Debug, Clone)]
pub struct PrivateKeyConfig {
    pub raw: String,
}

/// How a network (or the whole relayer) signs: exactly one method is
/// meant to be configured.
#[derive(Debug, Clone)]
pub struct SigningProvider {
    pub raw: Option<RawSigningProviderConfig>,
    pub aws_secret_manager: Option<AwsSecretManagerProviderConfig>,
    pub gcp_secret_manager: Option<GcpSecretManagerProviderConfig>,
    pub privy: Option<PrivySigningProviderConfig>,
    pub aws_kms: Option<AwsKmsSigningProviderConfig>,
    pub turnkey: Option<TurnkeySigningProviderConfig>,
    pub pkcs11: Option<Pkcs11SigningProviderConfig>,
    pub fireblocks: Option<FireblocksSigningProviderConfig>,
    pub private_keys: Option<Vec<PrivateKeyConfig>>,
}

#[derive(Debug, Clone)]
pub struct RateLimitWithInterval {
    pub interval: String,
    pub transactions: u64,
    pub signing_operations: u64,
}

#[derive(Debug, Clone)]
pub struct UserRateLimitConfig {
    pub per_relayer: Option<RateLimitWithInterval>,
    pub global: Option<RateLimitWithInterval>,
}

#[derive(Debug, Clone)]
pub struct RateLimitConfig {
    pub user_limits: Option<UserRateLimitConfig>,
    pub relayer_limits: Option<RateLimitWithInterval>,
    pub fallback_to_relayer: bool,
}

/// A message of a failed configuration check.
pub open spec fn message_is(r: Result<(), String>, m: Seq<char>) -> bool {
    r matches Err(e) && e@ == m
}

impl AwsKmsSigningProviderConfig {
    pub fn validate(&self) -> (r: Result<(), String>)
        ensures
            by_problem(r, aws_kms_problem(*self)),
    {
        if self.region.as_str().is_empty() {
            return Err(String::from_str("AWS KMS region cannot be empty"));
        }
        Ok(())
    }
}

impl TurnkeySigningProviderConfig {
    /// Every Turnkey credential must be set; the first empty one is reported.
    pub fn validate(&self) -> (r: Result<(), String>)
        ensures
            by_problem(r, turnkey_problem(*self)),
    {
        if self.api_public_key.as_str().is_empty() {
            return Err(String::from_str("Turnkey API public key cannot be empty"));
        }
        if self.api_private_key.as_str().is_empty() {
            return Err(String::from_str("Turnkey API private key cannot be empty"));
        }
        if self.organization_id.as_str().is_empty() {
            return Err(String::from_str("Turnkey organization ID cannot be empty"));
        }
        if self.wallet_id.as_str().is_empty() {
            return Err(String::from_str("Turnkey wallet ID cannot be empty"));
        }
        Ok(())
    }
}

/// Whether a character is alphabetic or numeric by the Unicode rules.
pub uninterp spec fn alphanumeric(c: char) -> bool;

/// `char::is_alphanumeric`: whether the character is alphabetic or numeric
/// by the Unicode tables.
#[verifier::external_body]
fn is_alphanumeric(c: char) -> (r: bool)
    ensures
        r == alphanumeric(c),
{
    c.is_alphanumeric()
}

/// Whether a character may stand in an identity: alphanumeric, `-` or `_`.
pub open spec fn identity_char(c: char) -> bool {
    alphanumeric(c) || c == '-' || c == '_'
}

/// Whether every character of an identity may stand in one.
pub open spec fn identity_chars_ok(s: Seq<char>) -> bool {
    forall|i: int| 0 <= i < s.len() ==> identity_char(#[trigger] s[i])
}

fn identity_chars_valid(identity: &str) -> (r: bool)
    ensures
        r == identity_chars_ok(identity@),
{
    let chars = chars_of(identity);
    let mut i: usize = 0;
    while i < chars.len()
        invariant
            chars@ == identity@,
            i <= chars@.len(),
            forall|k: int| 0 <= k < i ==> identity_char(#[trigger] chars@[k]),
        decreases chars.len() - i,
    {
        let c = chars[i];
        if !(is_alphanumeric(c) || c == '-' || c == '_') {
            assert(!identity_char(identity@[i as int]));
            return false;
        }
        i += 1;
    }
    true
}

/// The longest identity, in bytes of its UTF-8 text.
pub const MAX_IDENTITY_BYTES: usize = 32;

/// The first problem with an identity, if any: empty, a character that may
/// not stand in it, or more than 32 bytes.
pub open spec fn identity_problem(identity: Seq<char>, empty: Seq<char>, chars: Seq<char>, long: Seq<char>) -> Option<Seq<char>> {
    if identity.len() == 0 {
        Some(empty)
    } else if !identity_chars_ok(identity) {
        Some(chars)
    } else if vstd::utf8::encode_utf8(identity).len() as usize > MAX_IDENTITY_BYTES {
        Some(long)
    } else {
        None
    }
}

/// What a private key file holds, as far as validation needs to know.
#[derive(Debug, Clone)]
pub enum KeyFileState {
    /// There is no file at the path.
    Missing,
    /// The file exists but could not be read; the read error's text.
    Unreadable(String),
    /// The file's text.
    Contents(String),
}

/// The first problem of a Fireblocks configuration, if any.
pub open spec fn fireblocks_problem(c: FireblocksSigningProviderConfig, key_file: KeyFileState) -> Option<Seq<char>> {
    if c.api_key@.len() == 0 {
        Some("Fireblocks API key cannot be empty"@)
    } else if c.private_key_path@.len() == 0 {
        Some("Fireblocks private key path cannot be empty"@)
    } else if identity_problem(
        c.identity@,
        "Fireblocks identity cannot be empty"@,
        "Fireblocks identity must contain only alphanumeric characters, hyphens, and underscores"@,
        "Fireblocks identity must be 32 characters or less"@,
    ) is Some {
        identity_problem(
            c.identity@,
            "Fireblocks identity cannot be empty"@,
            "Fireblocks identity must contain only alphanumeric characters, hyphens, and underscores"@,
            "Fireblocks identity must be 32 characters or less"@,
        )
    } else {
        match key_file {
            KeyFileState::Missing => Some("Fireblocks private key file not found: "@ + c.private_key_path@),
            KeyFileState::Unreadable(e) => Some("Cannot read Fireblocks private key file "@ + c.private_key_path@ + ": "@ + e@),
            KeyFileState::Contents(text) => if !has_run(text@, "BEGIN"@) || !has_run(text@, "END"@) {
                Some("Fireblocks private key file must contain a valid PEM key"@)
            } else {
                None
            },
        }
    }
}

/// The first problem of a PKCS#11 configuration, if any.
pub open spec fn pkcs11_problem(c: Pkcs11SigningProviderConfig, library_exists: bool) -> Option<Seq<char>> {
    if c.library_path@.len() == 0 {
        Some("PKCS#11 library path cannot be empty"@)
    } else if identity_problem(
        c.identity@,
        "PKCS#11 identity cannot be empty"@,
        "PKCS#11 identity must contain only alphanumeric characters, hyphens, and underscores"@,
        "PKCS#11 identity must be 32 characters or less"@,
    ) is Some {
        identity_problem(
            c.identity@,
            "PKCS#11 identity cannot be empty"@,
            "PKCS#11 identity must contain only alphanumeric characters, hyphens, and underscores"@,
            "PKCS#11 identity must be 32 characters or less"@,
        )
    } else if !library_exists {
        Some("PKCS#11 library not found: "@ + c.library_path@)
    } else {
        None
    }
}

/// A check's result by its first problem.
pub open spec fn by_problem(r: Result<(), String>, problem: Option<Seq<char>>) -> bool {
    match problem {
        None => r is Ok,
        Some(m) => message_is(r, m),
    }
}

impl FireblocksSigningProviderConfig {
    /// Validates the configuration and the private key file it points to,
    /// whose state the caller read from disk.
    pub fn validate(&self, key_file: &KeyFileState) -> (r: Result<(), String>)
        ensures
            by_problem(r, fireblocks_problem(*self, *key_file)),
    {
        if self.api_key.as_str().is_empty() {
            return Err(String::from_str("Fireblocks API key cannot be empty"));
        }
        if self.private_key_path.as_str().is_empty() {
            return Err(String::from_str("Fireblocks private key path cannot be empty"));
        }
        if self.identity.as_str().is_empty() {
            return Err(String::from_str("Fireblocks identity cannot be empty"));
        }
        if !identity_chars_valid(self.identity.as_str()) {
            return Err(String::from_str(
                "Fireblocks identity must contain only alphanumeric characters, hyphens, and underscores",
            ));
        }
        if self.identity.as_str().len() > MAX_IDENTITY_BYTES {
            return Err(String::from_str("Fireblocks identity must be 32 characters or less"));
        }
        match key_file {
            KeyFileState::Missing => Err(
                String::from_str("Fireblocks private key file not found: ").concat(self.private_key_path.as_str()),
            ),
            KeyFileState::Unreadable(e) => Err(
                String::from_str("Cannot read Fireblocks private key file ").concat(self.private_key_path.as_str()).concat(
                    ": ",
                ).concat(e.as_str()),
            ),
            KeyFileState::Contents(text) => {
                if !crate::text::contains_text(text.as_str(), "BEGIN") || !crate::text::contains_text(text.as_str(), "END") {
                    return Err(String::from_str("Fireblocks private key file must contain a valid PEM key"));
                }
                Ok(())
            },
        }
    }

    /// Returns the base URL of the Fireblocks API: the sandbox's where
    /// sandbox mode is on, production's otherwise.
    pub fn get_base_url(&self) -> (r: String)
        ensures
            self.sandbox == Some(true) ==> r@ == "https://sandbox-api.fireblocks.io"@,
            self.sandbox != Some(true) ==> r@ == "https://api.fireblocks.io"@,
    {
        if self.is_sandbox() {
            String::from_str("https://sandbox-api.fireblocks.io")
        } else {
            String::from_str("https://api.fireblocks.io")
        }
    }

    /// Returns true if running in sandbox mode (off unless set).
    pub fn is_sandbox(&self) -> (r: bool)
        ensures
            r == (self.sandbox == Some(true)),
    {
        match self.sandbox {
            Some(b) => b,
            None => false,
        }
    }
}

impl Pkcs11SigningProviderConfig {
    /// Validates the configuration; `library_exists` says whether the
    /// caller found the library at its path.
    pub fn validate(&self, library_exists: bool) -> (r: Result<(), String>)
        ensures
            by_problem(r, pkcs11_problem(*self, library_exists)),
    {
        if self.library_path.as_str().is_empty() {
            return Err(String::from_str("PKCS#11 library path cannot be empty"));
        }
        if self.identity.as_str().is_empty() {
            return Err(String::from_str("PKCS#11 identity cannot be empty"));
        }
        if !identity_chars_valid(self.identity.as_str()) {
            return Err(String::from_str(
                "PKCS#11 identity must contain only alphanumeric characters, hyphens, and underscores",
            ));
        }
        if self.identity.as_str().len() > MAX_IDENTITY_BYTES {
            return Err(String::from_str("PKCS#11 identity must be 32 characters or less"));
        }
        if !library_exists {
            return Err(String::from_str("PKCS#11 library not found: ").concat(self.library_path.as_str()));
        }
        Ok(())
    }
}


/// The number of signing methods a provider configures.
pub open spec fn configured_methods(p: SigningProvider) -> nat {
    (if p.raw is Some { 1nat } else { 0nat }) + (if p.aws_secret_manager is Some { 1nat } else { 0nat })
        + (if p.gcp_secret_manager is Some { 1nat } else { 0nat }) + (if p.privy is Some { 1nat } else { 0nat })
        + (if p.aws_kms is Some { 1nat } else { 0nat }) + (if p.turnkey is Some { 1nat } else { 0nat })
        + (if p.pkcs11 is Some { 1nat } else { 0nat }) + (if p.fireblocks is Some { 1nat } else { 0nat })
        + (if p.private_keys is Some { 1nat } else { 0nat })
}

/// Whether a provider configures a signing method other than imported
/// private keys.
pub open spec fn has_main_method(p: SigningProvider) -> bool {
    p.raw is Some || p.aws_secret_manager is Some || p.gcp_secret_manager is Some || p.privy is Some
        || p.aws_kms is Some || p.turnkey is Some || p.pkcs11 is Some || p.fireblocks is Some
}

/// A provider with nothing configured.
pub open spec fn no_methods(p: SigningProvider) -> bool {
    p.raw is None && p.aws_secret_manager is None && p.gcp_secret_manager is None && p.privy is None
        && p.aws_kms is None && p.turnkey is None && p.pkcs11 is None && p.fireblocks is None && p.private_keys is None
}

fn count_if(b: bool) -> (r: usize)
    ensures
        r == (if b { 1nat } else { 0nat }),
{
    if b { 1 } else { 0 }
}

impl SigningProvider {
    fn empty() -> (r: SigningProvider)
        ensures
            no_methods(r),
    {
        SigningProvider {
            raw: None,
            aws_secret_manager: None,
            gcp_secret_manager: None,
            privy: None,
            aws_kms: None,
            turnkey: None,
            pkcs11: None,
            fireblocks: None,
            private_keys: None,
        }
    }

    /// A provider that signs with a raw mnemonic only.
    pub fn from_raw(raw: RawSigningProviderConfig) -> (r: Self)
        ensures
            r.raw == Some(raw),
            no_methods(SigningProvider { raw: None, ..r }),
    {
        SigningProvider { raw: Some(raw), ..Self::empty() }
    }

    /// A provider that signs with AWS KMS only.
    pub fn from_aws_kms(aws_kms: AwsKmsSigningProviderConfig) -> (r: Self)
        ensures
            r.aws_kms == Some(aws_kms),
            no_methods(SigningProvider { aws_kms: None, ..r }),
    {
        SigningProvider { aws_kms: Some(aws_kms), ..Self::empty() }
    }

    /// A provider that signs with Turnkey only.
    pub fn from_turnkey(turnkey: TurnkeySigningProviderConfig) -> (r: Self)
        ensures
            r.turnkey == Some(turnkey),
            no_methods(SigningProvider { turnkey: None, ..r }),
    {
        SigningProvider { turnkey: Some(turnkey), ..Self::empty() }
    }

    /// A provider that signs with a PKCS#11 module only.
    pub fn from_pkcs11(pkcs11: Pkcs11SigningProviderConfig) -> (r: Self)
        ensures
            r.pkcs11 == Some(pkcs11),
            no_methods(SigningProvider { pkcs11: None, ..r }),
    {
        SigningProvider { pkcs11: Some(pkcs11), ..Self::empty() }
    }

    /// A provider that signs with Fireblocks only.
    pub fn from_fireblocks(fireblocks: FireblocksSigningProviderConfig) -> (r: Self)
        ensures
            r.fireblocks == Some(fireblocks),
            no_methods(SigningProvider { fireblocks: None, ..r }),
    {
        SigningProvider { fireblocks: Some(fireblocks), ..Self::empty() }
    }

    /// Exactly one signing method must be configured.
    pub fn validate(&self) -> (r: Result<(), String>)
        ensures
            configured_methods(*self) == 0 ==> message_is(r, "Signing key is not set"@),
            configured_methods(*self) == 1 ==> r is Ok,
            configured_methods(*self) > 1 ==> message_is(r, "Only one signing key method can be configured at a time"@),
    {
        let configured = count_if(self.raw.is_some()) + count_if(self.aws_secret_manager.is_some())
            + count_if(self.gcp_secret_manager.is_some()) + count_if(self.privy.is_some())
            + count_if(self.aws_kms.is_some()) + count_if(self.turnkey.is_some()) + count_if(self.pkcs11.is_some())
            + count_if(self.fireblocks.is_some()) + count_if(self.private_keys.is_some());
        if configured == 0 {
            Err(String::from_str("Signing key is not set"))
        } else if configured == 1 {
            Ok(())
        } else {
            Err(String::from_str("Only one signing key method can be configured at a time"))
        }
    }

    /// Whether a signing method other than imported private keys is configured.
    pub fn has_main_signing_provider(&self) -> (r: bool)
        ensures
            r == has_main_method(*self),
    {
        self.raw.is_some() || self.aws_secret_manager.is_some() || self.gcp_secret_manager.is_some()
            || self.privy.is_some() || self.aws_kms.is_some() || self.turnkey.is_some() || self.pkcs11.is_some()
            || self.fireblocks.is_some()
    }
}

/// Relayers given as all of them, or a list of addresses.
#[derive(Debug, Clone)]
pub enum AllOrAddresses {
    All,
    List(Vec<EvmAddress>),
}

impl AllOrAddresses {
    pub open spec fn spec_contains(&self, address: EvmAddress) -> bool {
        match self {
            AllOrAddresses::All => true,
            AllOrAddresses::List(addresses) => addresses@.contains(address),
        }
    }

    /// Whether the address is covered: always for all, else by membership.
    pub fn contains(&self, address: &EvmAddress) -> (r: bool)
        ensures
            r == self.spec_contains(*address),
    {
        match self {
            AllOrAddresses::All => true,
            AllOrAddresses::List(addresses) => contains_address(addresses, address),
        }
    }
}

/// Relayers given as all of them, one address, or several.
#[derive(Debug, Clone)]
pub enum AllOrOneOrManyAddresses {
    All,
    One(EvmAddress),
    Many(Vec<EvmAddress>),
}

impl AllOrOneOrManyAddresses {
    pub open spec fn spec_contains(&self, address: EvmAddress) -> bool {
        match self {
            AllOrOneOrManyAddresses::All => true,
            AllOrOneOrManyAddresses::One(a) => *a == address,
            AllOrOneOrManyAddresses::Many(addresses) => addresses@.contains(address),
        }
    }

    /// The addresses listed: none for all.
    pub open spec fn listed(&self) -> Seq<EvmAddress> {
        match self {
            AllOrOneOrManyAddresses::All => Seq::empty(),
            AllOrOneOrManyAddresses::One(a) => seq![*a],
            AllOrOneOrManyAddresses::Many(addresses) => addresses@,
        }
    }

    /// Whether the address is covered: always for all, else by equality or membership.
    pub fn contains(&self, address: &EvmAddress) -> (r: bool)
        ensures
            r == self.spec_contains(*address),
    {
        match self {
            AllOrOneOrManyAddresses::All => true,
            AllOrOneOrManyAddresses::One(addr) => addr.same_as(address),
            AllOrOneOrManyAddresses::Many(addresses) => contains_address(addresses, address),
        }
    }

    /// How many addresses are listed; `None` for all.
    pub fn len(&self) -> (r: Option<usize>)
        ensures
            match self {
                AllOrOneOrManyAddresses::All => r is None,
                AllOrOneOrManyAddresses::One(_) => r == Some(1usize),
                AllOrOneOrManyAddresses::Many(addresses) => r == Some(addresses@.len() as usize),
            },
    {
        match self {
            AllOrOneOrManyAddresses::All => None,
            AllOrOneOrManyAddresses::One(_) => Some(1),
            AllOrOneOrManyAddresses::Many(addresses) => Some(addresses.len()),
        }
    }

    /// Whether no address is listed; all is never empty.
    pub fn is_empty(&self) -> (r: bool)
        ensures
            r == (match self {
                AllOrOneOrManyAddresses::All => false,
                AllOrOneOrManyAddresses::One(_) => false,
                AllOrOneOrManyAddresses::Many(addresses) => addresses@.len() == 0,
            }),
    {
        match self {
            AllOrOneOrManyAddresses::All => false,
            AllOrOneOrManyAddresses::One(_) => false,
            AllOrOneOrManyAddresses::Many(addresses) => addresses.len() == 0,
        }
    }

    /// The listed addresses in order; none for all.
    pub fn iter(&self) -> (r: Vec<EvmAddress>)
        ensures
            r@ == self.listed(),
    {
        match self {
            AllOrOneOrManyAddresses::All => Vec::new(),
            AllOrOneOrManyAddresses::One(addr) => {
                let mut v: Vec<EvmAddress> = Vec::new();
                v.push(*addr);
                v
            },
            AllOrOneOrManyAddresses::Many(addresses) => {
                let mut v: Vec<EvmAddress> = Vec::new();
                let mut i: usize = 0;
                while i < addresses.len()
                    invariant
                        i <= addresses@.len(),
                        v@ == addresses@.subrange(0, i as int),
                    decreases addresses.len() - i,
                {
                    v.push(addresses[i]);
                    i += 1;
                }
                v
            },
        }
    }
}

/// Networks given as all of them, or a list of names.
#[derive(Debug, Clone)]
pub enum AllOrNetworks {
    All,
    List(Vec<String>),
}

/// Whether `name` is one of `names`.
pub open spec fn names_contain(names: Seq<String>, name: Seq<char>) -> bool {
    exists|i: int| 0 <= i < names.len() && #[trigger] names[i]@ == name
}

/// Whether `network` is one of `networks`.
fn names_include(networks: &Vec<String>, network: &str) -> (r: bool)
    ensures
        r == names_contain(networks@, network@),
{
    let wanted = network.to_owned();
    let mut i: usize = 0;
    while i < networks.len()
        invariant
            wanted@ == network@,
            i <= networks@.len(),
            forall|k: int| 0 <= k < i ==> networks@[k]@ != network@,
        decreases networks.len() - i,
    {
        if networks[i] == wanted {
            assert(networks@[i as int]@ == network@);
            return true;
        }
        i += 1;
    }
    false
}

impl AllOrNetworks {
    /// Whether the network is covered: always for all, else by name.
    pub fn contains(&self, network: &str) -> (r: bool)
        ensures
            r == (match self {
                AllOrNetworks::All => true,
                AllOrNetworks::List(networks) => names_contain(networks@, network@),
            }),
    {
        match self {
            AllOrNetworks::All => true,
            AllOrNetworks::List(networks) => names_include(networks, network),
        }
    }

    /// Whether no network is listed; all is never empty.
    pub fn is_empty(&self) -> (r: bool)
        ensures
            r == (match self {
                AllOrNetworks::All => false,
                AllOrNetworks::List(networks) => networks@.len() == 0,
            }),
    {
        match self {
            AllOrNetworks::All => false,
            AllOrNetworks::List(networks) => networks.len() == 0,
        }
    }
}

#[derive(Debug, Clone)]
pub struct NetworkPermissionsConfig {
    pub relayers: AllOrOneOrManyAddresses,
    pub allowlist: Vec<EvmAddress>,
    pub disable_native_transfer: Option<bool>,
    pub disable_personal_sign: Option<bool>,
    pub disable_typed_data_sign: Option<bool>,
    pub disable_transactions: Option<bool>,
}

#[derive(Debug, Clone)]
pub struct ApiKey {
    pub relayer: EvmAddress,
    pub keys: Vec<String>,
}

/// How many blocks an unmined transaction waits, by speed, before its fees are bumped.
#[derive(Debug, Clone, Copy, PartialEq, Eq, Structural)]
pub struct GasBumpBlockConfig {
    pub slow: u64,
    pub medium: u64,
    pub fast: u64,
    pub super_fast: u64,
}

pub fn default_slow_blocks() -> (r: u64)
    ensures
        r == 10,
{
    10
}

pub fn default_medium_blocks() -> (r: u64)
    ensures
        r == 6,
{
    6
}

pub fn default_fast_blocks() -> (r: u64)
    ensures
        r == 4,
{
    4
}

pub fn default_super_blocks() -> (r: u64)
    ensures
        r == 2,
{
    2
}

pub fn default_max_gas_price_multiplier() -> (r: u64)
    ensures
        r == 4,
{
    4
}

pub fn default_decimals() -> (r: u8)
    ensures
        r == 18,
{
    18
}

impl Default for GasBumpBlockConfig {
    fn default() -> (r: Self)
        ensures
            r == (GasBumpBlockConfig { slow: 10, medium: 6, fast: 4, super_fast: 2 }),
    {
        GasBumpBlockConfig {
            slow: default_slow_blocks(),
            medium: default_medium_blocks(),
            fast: default_fast_blocks(),
            super_fast: default_super_blocks(),
        }
    }
}

impl GasBumpBlockConfig {
    pub open spec fn spec_blocks_to_wait_before_bump(&self, speed: TransactionSpeed) -> u64 {
        match speed {
            TransactionSpeed::SLOW => self.slow,
            TransactionSpeed::MEDIUM => self.medium,
            TransactionSpeed::FAST => self.fast,
            TransactionSpeed::SUPER => self.super_fast,
        }
    }

    /// The blocks a transaction of this speed waits before its fees are bumped.
    pub fn blocks_to_wait_before_bump(&self, speed: &TransactionSpeed) -> (r: u64)
        ensures
            r == self.spec_blocks_to_wait_before_bump(*speed),
    {
        match speed {
            TransactionSpeed::SLOW => self.slow,
            TransactionSpeed::MEDIUM => self.medium,
            TransactionSpeed::FAST => self.fast,
            TransactionSpeed::SUPER => self.super_fast,
        }
    }
}


/// The number of bytes `c` takes in UTF-8.
pub open spec fn utf8_len(c: char) -> nat {
    if (c as u32) < 0x80 {
        1
    } else if (c as u32) < 0x800 {
        2
    } else if (c as u32) < 0x10000 {
        3
    } else {
        4
    }
}

/// The number of bytes a text takes in UTF-8.
pub open spec fn utf8_byte_len(s: Seq<char>) -> nat
    decreases s.len(),
{
    if s.len() == 0 {
        0
    } else {
        utf8_len(s[0]) + utf8_byte_len(s.subrange(1, s.len() as int))
    }
}

/// The UTF-8 length of the text from character `j` on.
pub open spec fn suffix_bytes(s: Seq<char>, j: int) -> nat {
    utf8_byte_len(s.subrange(j, s.len() as int))
}

/// `i` is where the first `.` of `s` stands.
pub open spec fn first_dot_at(s: Seq<char>, i: int) -> bool {
    &&& 0 <= i < s.len()
    &&& s[i] == '.'
    &&& forall|k: int| 0 <= k < i ==> s[k] != '.'
}

/// Whether `alloy::primitives::utils::parse_units` panics on `amount` at
/// `decimals` decimals: with valid decimals (at most 77), it drops the first
/// `.` and cuts the bytes of the fractional digits beyond `decimals` off the
/// end of the text; it panics where that cut falls inside a character.
pub open spec fn parse_units_panics(amount: Seq<char>, decimals: u8) -> bool {
    &&& decimals <= 77
    &&& exists|i: int| #[trigger] first_dot_at(amount, i) && {
        let frac = suffix_bytes(amount, i + 1);
        &&& frac > decimals
        &&& !(exists|j: int| i + 1 <= j <= amount.len() && #[trigger] suffix_bytes(amount, j) == frac - decimals)
    }
}

proof fn lemma_suffix_bytes_step(s: Seq<char>, j: int)
    requires
        0 <= j < s.len(),
    ensures
        suffix_bytes(s, j) == utf8_len(s[j]) + suffix_bytes(s, j + 1),
{
    let x = s.subrange(j, s.len() as int);
    assert(x.subrange(1, x.len() as int) =~= s.subrange(j + 1, s.len() as int));
}

proof fn lemma_suffix_bytes_decrease(s: Seq<char>, a: int, b: int)
    requires
        0 <= a < b <= s.len(),
    ensures
        suffix_bytes(s, a) > suffix_bytes(s, b),
    decreases b - a,
{
    lemma_suffix_bytes_step(s, a);
    if a + 1 < b {
        lemma_suffix_bytes_decrease(s, a + 1, b);
    }
}

fn char_utf8_len(c: char) -> (r: u128)
    ensures
        r == utf8_len(c),
{
    let v = c as u32;
    if v < 0x80 {
        1
    } else if v < 0x800 {
        2
    } else if v < 0x10000 {
        3
    } else {
        4
    }
}

/// Whether `alloy::primitives::utils::parse_units` would panic on `amount`
/// at `decimals` decimals (see `parse_units_panics`).
pub fn parse_units_would_panic(amount: &str, decimals: u8) -> (r: bool)
    ensures
        r == parse_units_panics(amount@, decimals),
{
    if decimals > 77 {
        return false;
    }
    let s = chars_of(amount);
    let n = s.len();
    let mut i: usize = 0;
    while i < n && s[i] != '.'
        invariant
            s@ == amount@,
            n == s@.len(),
            i <= n,
            forall|k: int| 0 <= k < i ==> s@[k] != '.',
        decreases n - i,
    {
        i += 1;
    }
    if i == n {
        assert forall|d: int| !first_dot_at(amount@, d) by {
            if first_dot_at(amount@, d) {
                assert(s@[d] != '.');
            }
        }
        return false;
    }
    assert(first_dot_at(amount@, i as int));
    assert forall|d: int| #[trigger] first_dot_at(amount@, d) implies d == i by {
        if d < i {
            assert(s@[d] != '.');
        } else if d > i {
            assert(amount@[i as int] == '.');
        }
    }
    // The byte length of the fractional digits.
    let mut frac: u128 = 0;
    let mut j: usize = n;
    while j > i + 1
        invariant
            s@ == amount@,
            n == s@.len(),
            i < n,
            i + 1 <= j <= n,
            frac == suffix_bytes(s@, j as int),
            frac <= 4 * (n - j),
        decreases j,
    {
        proof {
            lemma_suffix_bytes_step(s@, j - 1);
        }
        frac = frac + char_utf8_len(s[j - 1]);
        j -= 1;
    }
    if frac <= decimals as u128 {
        return false;
    }
    let cut: u128 = frac - decimals as u128;
    // Walk back from the end until the bytes walked over reach `cut`.
    let mut acc: u128 = 0;
    let mut k: usize = n;
    loop
        invariant
            s@ == amount@,
            n == s@.len(),
            i < n,
            i + 1 <= k <= n,
            frac == suffix_bytes(s@, i + 1),
            0 < cut <= frac,
            decimals <= 77,
            cut == frac - decimals,
            first_dot_at(amount@, i as int),
            forall|d: int| #[trigger] first_dot_at(amount@, d) ==> d == i,
            acc == suffix_bytes(s@, k as int),
            acc <= 4 * (n - k),
            forall|m: int| k < m <= n ==> #[trigger] suffix_bytes(s@, m) < cut,
        decreases k,
    {
        if acc == cut {
            return false;
        }
        if acc > cut {
            assert forall|m: int| i + 1 <= m <= n implies #[trigger] suffix_bytes(s@, m) != cut by {
                if m < k {
                    lemma_suffix_bytes_decrease(s@, m, k as int);
                }
            }
            return true;
        }
        if k == i + 1 {
            assert(false);
        }
        proof {
            lemma_suffix_bytes_step(s@, k - 1);
        }
        acc = acc + char_utf8_len(s[k - 1]);
        k -= 1;
    }
}

/// The 256-bit number `alloy::primitives::utils::parse_units` gives for a
/// decimal text at `decimals` decimals, where it parses: the amount in the
/// smallest unit, a negative amount as its two's-complement bits.
pub uninterp spec fn parsed_units(text: Seq<char>, decimals: u8) -> Option<nat>;

/// `alloy::primitives::utils::parse_units` followed by the conversion of
/// its result to `U256` (`ParseUnits::get_absolute`, which keeps the bits of
/// a negative amount): the number, or `None` where the text or the decimals
/// are refused. It is not called where it would panic.
#[verifier::external_body]
fn parse_units(amount: &str, decimals: u8) -> (r: Option<Uint256>)
    requires
        !parse_units_panics(amount@, decimals),
    ensures
        r is None <==> parsed_units(amount@, decimals) is None,
        r matches Some(v) ==> parsed_units(amount@, decimals) == Some(v.value()),
{
    match alloy::primitives::utils::parse_units(amount, decimals) {
        Ok(p) => {
            let v: alloy::primitives::U256 = p.into();
            Some(Uint256 { limbs: v.into_limbs() })
        },
        Err(_) => None,
    }
}

/// The amount a configured decimal text stands for: zero where it does not parse.
pub open spec fn token_amount(text: Seq<char>, decimals: u8) -> nat {
    match parsed_units(text, decimals) {
        Some(v) => v,
        None => 0,
    }
}

/// The amount a configured decimal text stands for at `decimals` decimals;
/// zero where it does not parse.
pub fn token_amount_from_text(text: &str, decimals: u8) -> (r: Uint256)
    requires
        !parse_units_panics(text@, decimals),
    ensures
        r.value() == token_amount(text@, decimals),
{
    match parse_units(text, decimals) {
        Some(v) => v,
        None => Uint256::zero(),
    }
}

/// The native token balance every relayer should keep, and how much a top-up sends.
#[derive(Debug, Clone)]
pub struct NativeTokenConfig {
    pub min_balance: Uint256,
    pub top_up_amount: Uint256,
    pub decimals: u8,
}

impl NativeTokenConfig {
    /// Reads the configuration from its decimal amount texts.
    pub fn from_amount_texts(min_balance: &str, top_up_amount: &str, decimals: u8) -> (r: Self)
        requires
            !parse_units_panics(min_balance@, decimals),
            !parse_units_panics(top_up_amount@, decimals),
        ensures
            r.min_balance.value() == token_amount(min_balance@, decimals),
            r.top_up_amount.value() == token_amount(top_up_amount@, decimals),
            r.decimals == decimals,
    {
        NativeTokenConfig {
            min_balance: token_amount_from_text(min_balance, decimals),
            top_up_amount: token_amount_from_text(top_up_amount, decimals),
            decimals,
        }
    }
}

/// An ERC-20 token balance every relayer should keep, and how much a top-up sends.
#[derive(Debug, Clone)]
pub struct Erc20TokenConfig {
    pub address: EvmAddress,
    pub min_balance: Uint256,
    pub top_up_amount: Uint256,
    pub decimals: u8,
}

impl Erc20TokenConfig {
    /// Reads the configuration from its decimal amount texts.
    pub fn from_amount_texts(address: EvmAddress, min_balance: &str, top_up_amount: &str, decimals: u8) -> (r: Self)
        requires
            !parse_units_panics(min_balance@, decimals),
            !parse_units_panics(top_up_amount@, decimals),
        ensures
            r.address == address,
            r.min_balance.value() == token_amount(min_balance@, decimals),
            r.top_up_amount.value() == token_amount(top_up_amount@, decimals),
            r.decimals == decimals,
    {
        Erc20TokenConfig {
            address,
            min_balance: token_amount_from_text(min_balance, decimals),
            top_up_amount: token_amount_from_text(top_up_amount, decimals),
            decimals,
        }
    }
}

#[derive(Debug, Clone)]
pub struct NetworkAutomaticTopUpRelayer {
    pub address: EvmAddress,
    pub internal_only: Option<bool>,
}

#[derive(Debug, Clone)]
pub struct NetworkAutomaticTopUpFrom {
    pub safe: Option<EvmAddress>,
    pub relayer: NetworkAutomaticTopUpRelayer,
}

/// Keeps a set of relayers (and possibly other addresses) topped up from one relayer.
#[derive(Debug, Clone)]
pub struct NetworkAutomaticTopUpConfig {
    pub from: NetworkAutomaticTopUpFrom,
    pub relayers: AllOrAddresses,
    pub native: Option<NativeTokenConfig>,
    pub erc20_tokens: Option<Vec<Erc20TokenConfig>>,
    pub additional_addresses: Option<Vec<EvmAddress>>,
}

impl NetworkAutomaticTopUpConfig {
    /// Whether top-ups go through a Safe.
    pub fn via_safe(&self) -> (r: bool)
        ensures
            r == self.from.safe is Some,
    {
        self.from.safe.is_some()
    }
}

/// One network the relayer serves. Its gas provider settings are read and
/// used by the application around the library.
#[derive(Debug, Clone)]
pub struct NetworkSetupConfig {
    pub name: String,
    pub chain_id: ChainId,
    pub signing_provider: Option<SigningProvider>,
    pub provider_urls: Vec<String>,
    pub block_explorer_url: Option<String>,
    pub automatic_top_up: Option<Vec<NetworkAutomaticTopUpConfig>>,
    pub permissions: Option<Vec<NetworkPermissionsConfig>>,
    pub api_keys: Option<Vec<ApiKey>>,
    pub confirmations: Option<u64>,
    pub enable_sending_blobs: Option<bool>,
    pub gas_bump_blocks_every: GasBumpBlockConfig,
    pub max_gas_price_multiplier: u64,
    pub allowed_random_relayers: Option<AllOrOneOrManyAddresses>,
}

#[derive(Debug, Clone)]
pub struct ApiConfig {
    pub host: Option<String>,
    pub port: u32,
    pub allowed_origins: Option<Vec<String>>,
    pub authentication_username: String,
    pub authentication_password: String,
}

#[derive(Debug, Clone)]
pub struct WebhookConfig {
    pub endpoint: String,
    pub shared_secret: String,
    pub networks: AllOrNetworks,
    pub max_retries: Option<u32>,
    pub alert_on_low_balances: Option<bool>,
}

#[derive(Debug, Clone)]
pub struct SafeProxyConfig {
    pub address: EvmAddress,
    pub relayers: Vec<EvmAddress>,
    pub chain_id: ChainId,
}

#[derive(Debug, Clone)]
pub struct AdvancedConfig {
    /// When enabled, noop/expired transactions are automatically failed after
    /// max send attempts with exponential backoff. Off when not set.
    pub auto_fail_expired_transactions: Option<bool>,
    /// When enabled, the automatic top-up job may send funds to the
    /// `additional_addresses` that are not relayers. Off when not set.
    pub allow_non_relayer_topups: Option<bool>,
}

/// The relayer's whole setup. Its gas provider settings are read and used
/// by the application around the library.
#[derive(Debug, Clone)]
pub struct SetupConfig {
    pub name: String,
    pub description: Option<String>,
    pub signing_provider: Option<SigningProvider>,
    pub networks: Vec<NetworkSetupConfig>,
    pub api_config: ApiConfig,
    pub webhooks: Option<Vec<WebhookConfig>>,
    pub rate_limits: Option<RateLimitConfig>,
    pub advanced: Option<AdvancedConfig>,
}

/// Why the setup configuration could not be read.
#[derive(Debug, Clone, PartialEq, Eq)]
pub enum ReadYamlError {
    CanNotFindYaml,
    CanNotReadYaml,
    SetupConfigInvalidYaml(String),
    EnvironmentVariableNotFound(String),
    NoNetworksEnabled,
    SigningProviderYamlError(String),
    NetworkProviderUrlsNotDefined(String),
}

/// The on-disk state the checks of the global signing provider need.
pub struct SigningProviderFiles {
    /// The state of the Fireblocks private key file, where Fireblocks is configured.
    pub fireblocks_key_file: KeyFileState,
    /// Whether the PKCS#11 library exists, where PKCS#11 is configured.
    pub pkcs11_library_exists: bool,
}

/// The first problem the checks of a configuration meet.
pub enum YamlProblem {
    NoNetworks,
    /// The network of this name has no provider URLs.
    ProviderUrls(Seq<char>),
    /// A signing provider is refused with this message.
    Signing(Seq<char>),
}

/// The problem of a signing provider that does not configure exactly one method.
pub open spec fn signing_count_problem(p: SigningProvider) -> Option<Seq<char>> {
    if configured_methods(p) == 0 {
        Some("Signing key is not set"@)
    } else if configured_methods(p) > 1 {
        Some("Only one signing key method can be configured at a time"@)
    } else {
        None
    }
}

/// The problem of an AWS KMS configuration.
pub open spec fn aws_kms_problem(c: AwsKmsSigningProviderConfig) -> Option<Seq<char>> {
    if c.region@.len() == 0 {
        Some("AWS KMS region cannot be empty"@)
    } else {
        None
    }
}

/// The first problem of a Turnkey configuration.
pub open spec fn turnkey_problem(c: TurnkeySigningProviderConfig) -> Option<Seq<char>> {
    if c.api_public_key@.len() == 0 {
        Some("Turnkey API public key cannot be empty"@)
    } else if c.api_private_key@.len() == 0 {
        Some("Turnkey API private key cannot be empty"@)
    } else if c.organization_id@.len() == 0 {
        Some("Turnkey organization ID cannot be empty"@)
    } else if c.wallet_id@.len() == 0 {
        Some("Turnkey wallet ID cannot be empty"@)
    } else {
        None
    }
}

/// The first problem among the networks from index `i` on: missing provider
/// URLs, then a signing provider without exactly one method.
pub open spec fn networks_problem(networks: Seq<NetworkSetupConfig>, i: int) -> Option<YamlProblem>
    decreases networks.len() - i,
{
    if i < 0 || i >= networks.len() {
        None
    } else if networks[i].provider_urls@.len() == 0 {
        Some(YamlProblem::ProviderUrls(networks[i].name@))
    } else if networks[i].signing_provider matches Some(p) && signing_count_problem(p) is Some {
        Some(YamlProblem::Signing(signing_count_problem(networks[i].signing_provider->0)->0))
    } else {
        networks_problem(networks, i + 1)
    }
}

/// The first problem of the global signing provider: its method count,
/// then its AWS KMS, Turnkey, Fireblocks and PKCS#11 settings.
pub open spec fn global_signing_problem(p: SigningProvider, files: SigningProviderFiles) -> Option<Seq<char>> {
    if signing_count_problem(p) is Some {
        signing_count_problem(p)
    } else if p.aws_kms matches Some(c) && aws_kms_problem(c) is Some {
        aws_kms_problem(p.aws_kms->0)
    } else if p.turnkey matches Some(c) && turnkey_problem(c) is Some {
        turnkey_problem(p.turnkey->0)
    } else if p.fireblocks matches Some(c) && fireblocks_problem(c, files.fireblocks_key_file) is Some {
        fireblocks_problem(p.fireblocks->0, files.fireblocks_key_file)
    } else if p.pkcs11 matches Some(c) && pkcs11_problem(c, files.pkcs11_library_exists) is Some {
        pkcs11_problem(p.pkcs11->0, files.pkcs11_library_exists)
    } else {
        None
    }
}

/// The first problem of a parsed configuration: no networks; then each
/// network in order; then the global signing provider.
pub open spec fn setup_problem(c: SetupConfig, files: SigningProviderFiles) -> Option<YamlProblem> {
    if c.networks@.len() == 0 {
        Some(YamlProblem::NoNetworks)
    } else if networks_problem(c.networks@, 0) is Some {
        networks_problem(c.networks@, 0)
    } else {
        match c.signing_provider {
            Some(p) => match global_signing_problem(p, files) {
                Some(m) => Some(YamlProblem::Signing(m)),
                None => None,
            },
            None => None,
        }
    }
}

/// A check's result by its first problem.
pub open spec fn by_yaml_problem(r: Result<(), ReadYamlError>, problem: Option<YamlProblem>) -> bool {
    match problem {
        None => r is Ok,
        Some(YamlProblem::NoNetworks) => r == Err::<(), ReadYamlError>(ReadYamlError::NoNetworksEnabled),
        Some(YamlProblem::ProviderUrls(name)) => r matches Err(ReadYamlError::NetworkProviderUrlsNotDefined(n)) && n@ == name,
        Some(YamlProblem::Signing(m)) => r matches Err(ReadYamlError::SigningProviderYamlError(e)) && e@ == m,
    }
}

fn as_signing_error(r: Result<(), String>) -> (out: Result<(), ReadYamlError>)
    ensures
        match r {
            Ok(()) => out is Ok,
            Err(e) => out == Err::<(), ReadYamlError>(ReadYamlError::SigningProviderYamlError(e)),
        },
{
    match r {
        Ok(()) => Ok(()),
        Err(e) => Err(ReadYamlError::SigningProviderYamlError(e)),
    }
}

fn check_networks(networks: &Vec<NetworkSetupConfig>) -> (r: Result<(), ReadYamlError>)
    ensures
        by_yaml_problem(r, networks_problem(networks@, 0)),
{
    let mut i: usize = 0;
    while i < networks.len()
        invariant
            i <= networks@.len(),
            networks_problem(networks@, 0) == networks_problem(networks@, i as int),
        decreases networks.len() - i,
    {
        let network = &networks[i];
        if network.provider_urls.len() == 0 {
            return Err(ReadYamlError::NetworkProviderUrlsNotDefined(network.name.clone()));
        }
        if let Some(signing_key) = &network.signing_provider {
            let checked = as_signing_error(signing_key.validate());
            if checked.is_err() {
                return checked;
            }
        }
        i += 1;
    }
    Ok(())
}

/// Checks a parsed setup configuration: it has networks; each network has
/// provider URLs and, where it names a signing provider, exactly one
/// signing method; the global signing provider, where there is one,
/// configures exactly one method and valid AWS KMS, Turnkey, Fireblocks and
/// PKCS#11 settings, with `files` telling what is on disk.
pub fn check_setup_config(config: &SetupConfig, files: &SigningProviderFiles) -> (r: Result<(), ReadYamlError>)
    ensures
        by_yaml_problem(r, setup_problem(*config, *files)),
{
    if config.networks.len() == 0 {
        return Err(ReadYamlError::NoNetworksEnabled);
    }
    let checked = check_networks(&config.networks);
    if checked.is_err() {
        return checked;
    }
    if let Some(signing_key) = &config.signing_provider {
        let checked = as_signing_error(signing_key.validate());
        if checked.is_err() {
            return checked;
        }
        if let Some(aws_kms) = &signing_key.aws_kms {
            let checked = as_signing_error(aws_kms.validate());
            if checked.is_err() {
                return checked;
            }
        }
        if let Some(turnkey) = &signing_key.turnkey {
            let checked = as_signing_error(turnkey.validate());
            if checked.is_err() {
                return checked;
            }
        }
        if let Some(fireblocks) = &signing_key.fireblocks {
            let checked = as_signing_error(fireblocks.validate(&files.fireblocks_key_file));
            if checked.is_err() {
                return checked;
            }
        }
        if let Some(pkcs11) = &signing_key.pkcs11 {
            let checked = as_signing_error(pkcs11.validate(files.pkcs11_library_exists));
            if checked.is_err() {
                return checked;
            }
        }
    }
    Ok(())
}


/// The index of the first `}` at or after `i`, or the length where there is none.
pub open spec fn first_close(s: Seq<char>, i: int) -> int
    decreases s.len() - i,
{
    if i < 0 || i >= s.len() {
        s.len() as int
    } else if s[i] == '}' {
        i
    } else {
        first_close(s, i + 1)
    }
}

/// Whether a reference `${NAME}`, with a nonempty NAME free of `}`, starts at `i`.
pub open spec fn reference_at(s: Seq<char>, i: int) -> bool {
    &&& 0 <= i
    &&& i + 1 < s.len()
    &&& s[i] == '$'
    &&& s[i + 1] == '{'
    &&& i + 2 < first_close(s, i + 2) < s.len()
}

/// The value of the first variable named `name` in `env`.
pub open spec fn env_value(env: Seq<(Seq<char>, Seq<char>)>, name: Seq<char>) -> Option<Seq<char>>
    decreases env.len(),
{
    if env.len() == 0 {
        None
    } else if env[0].0 == name {
        Some(env[0].1)
    } else {
        env_value(env.drop_first(), name)
    }
}

/// `prefix` put before a substitution's text; an error stays as it is.
pub open spec fn prepend(prefix: Seq<char>, r: Result<Seq<char>, Seq<char>>) -> Result<Seq<char>, Seq<char>> {
    match r {
        Ok(t) => Ok(prefix + t),
        Err(e) => Err(e),
    }
}

/// The text from index `i` on with every reference `${NAME}` replaced by the
/// variable's value, left to right; the name of the first variable missing
/// from `env` where there is one.
pub open spec fn substituted_from(s: Seq<char>, env: Seq<(Seq<char>, Seq<char>)>, i: int) -> Result<Seq<char>, Seq<char>>
    decreases s.len() - i,
{
    if i < 0 || i >= s.len() {
        Ok(Seq::empty())
    } else if reference_at(s, i) {
        let close = first_close(s, i + 2);
        let name = s.subrange(i + 2, close);
        match env_value(env, name) {
            None => Err(name),
            Some(v) => prepend(v, substituted_from(s, env, close + 1)),
        }
    } else {
        prepend(seq![s[i]], substituted_from(s, env, i + 1))
    }
}

/// The environment as pairs of texts.
pub open spec fn env_view(env: Seq<(String, String)>) -> Seq<(Seq<char>, Seq<char>)> {
    env.map_values(|p: (String, String)| (p.0@, p.1@))
}

fn find_close(s: &Vec<char>, from: usize) -> (r: usize)
    requires
        from <= s@.len(),
    ensures
        r == first_close(s@, from as int),
{
    let mut k = from;
    while k < s.len()
        invariant
            from <= k <= s@.len(),
            first_close(s@, from as int) == first_close(s@, k as int),
        decreases s.len() - k,
    {
        if s[k] == '}' {
            return k;
        }
        k += 1;
    }
    k
}

/// Where the reference starting at `i` closes, if one does.
fn reference_end(s: &Vec<char>, i: usize) -> (r: Option<usize>)
    requires
        i < s@.len(),
    ensures
        match r {
            Some(close) => reference_at(s@, i as int) && close == first_close(s@, i + 2),
            None => !reference_at(s@, i as int),
        },
{
    if s.len() - i > 2 && s[i] == '$' && s[i + 1] == '{' {
        let close = find_close(s, i + 2);
        if close < s.len() && close > i + 2 {
            return Some(close);
        }
    }
    None
}

fn lookup_env(env: &Vec<(String, String)>, name: &String) -> (r: Option<String>)
    ensures
        match env_value(env_view(env@), name@) {
            None => r is None,
            Some(v) => r matches Some(x) && x@ == v,
        },
{
    let mut i: usize = 0;
    assert(env_view(env@).subrange(0, env@.len() as int) =~= env_view(env@));
    while i < env.len()
        invariant
            i <= env@.len(),
            env_value(env_view(env@), name@) == env_value(env_view(env@).subrange(i as int, env@.len() as int), name@),
        decreases env.len() - i,
    {
        proof {
            let rest = env_view(env@).subrange(i as int, env@.len() as int);
            assert(rest.drop_first() =~= env_view(env@).subrange(i + 1, env@.len() as int));
        }
        if env[i].0 == *name {
            return Some(env[i].1.clone());
        }
        i += 1;
    }
    proof {
        false_is_none(env_view(env@).subrange(i as int, env@.len() as int), name@);
    }
    None
}

proof fn false_is_none(env: Seq<(Seq<char>, Seq<char>)>, name: Seq<char>)
    requires
        env.len() == 0,
    ensures
        env_value(env, name) is None,
{
}

fn push_all(out: &mut Vec<char>, chars: &Vec<char>)
    ensures
        final(out)@ == old(out)@ + chars@,
{
    let mut i: usize = 0;
    while i < chars.len()
        invariant
            i <= chars@.len(),
            out@ == old(out)@ + chars@.subrange(0, i as int),
        decreases chars.len() - i,
    {
        out.push(chars[i]);
        i += 1;
        assert(out@ =~= old(out)@ + chars@.subrange(0, i as int));
    }
    assert(chars@.subrange(0, chars@.len() as int) =~= chars@);
}

/// Replaces every `${NAME}` in the configuration text by the value of the
/// environment variable NAME, where `env` holds the environment's variables;
/// gives the name of the first variable that is not set instead.
pub fn substitute_env_variables(contents: &str, env: &Vec<(String, String)>) -> (r: Result<String, String>)
    ensures
        match substituted_from(contents@, env_view(env@), 0) {
            Ok(t) => r matches Ok(x) && x@ == t,
            Err(n) => r matches Err(x) && x@ == n,
        },
{
    let s = chars_of(contents);
    let ghost sv = s@;
    let ghost ev = env_view(env@);
    let mut out: Vec<char> = Vec::new();
    let mut i: usize = 0;
    while i < s.len()
        invariant
            sv == s@,
            sv == contents@,
            ev == env_view(env@),
            i <= s@.len(),
            substituted_from(sv, ev, 0) == prepend(out@, substituted_from(sv, ev, i as int)),
        decreases s.len() - i,
    {
        match reference_end(&s, i) {
            Some(close) => {
                let mut name_chars: Vec<char> = Vec::new();
                let mut k = i + 2;
                while k < close
                    invariant
                        i + 2 <= k <= close < s@.len(),
                        name_chars@ == s@.subrange(i + 2, k as int),
                    decreases close - k,
                {
                    name_chars.push(s[k]);
                    k += 1;
                    assert(name_chars@ =~= s@.subrange(i + 2, k as int));
                }
                let name = string_from_chars(&name_chars);
                match lookup_env(env, &name) {
                    None => {
                        return Err(name);
                    },
                    Some(value) => {
                        let value_chars = chars_of(value.as_str());
                        let ghost before = out@;
                        push_all(&mut out, &value_chars);
                        proof {
                            assert(name@ == sv.subrange(i + 2, close as int));
                            assert(env_value(ev, name@) == Some(value@));
                            assert(substituted_from(sv, ev, i as int) == prepend(value@, substituted_from(sv, ev, close + 1)));
                            assert(out@ == before + value@);
                            let rest = substituted_from(sv, ev, close + 1);
                            match rest {
                                Ok(t) => assert(before + (value@ + t) =~= (before + value@) + t),
                                Err(_) => {},
                            }
                        }
                        i = close + 1;
                    },
                }
            },
            None => {
                let ghost before = out@;
                out.push(s[i]);
                proof {
                    assert(substituted_from(sv, ev, i as int) == prepend(seq![sv[i as int]], substituted_from(sv, ev, i + 1)));
                    assert(out@ == before + seq![sv[i as int]]);
                    let rest = substituted_from(sv, ev, i + 1);
                    match rest {
                        Ok(t) => assert(before + (seq![sv[i as int]] + t) =~= (before + seq![sv[i as int]]) + t),
                        Err(_) => {},
                    }
                }
                i += 1;
            },
        }
    }
    proof {
        assert(out@ + Seq::<char>::empty() =~= out@);
    }
    Ok(string_from_chars(&out))
}


/// A provider built for one signing method passes the one-method check.
pub proof fn lemma_single_method_providers_validate(p: SigningProvider)
    requires
        (p.raw is Some && no_methods(SigningProvider { raw: None, ..p }))
            || (p.aws_kms is Some && no_methods(SigningProvider { aws_kms: None, ..p }))
            || (p.turnkey is Some && no_methods(SigningProvider { turnkey: None, ..p }))
            || (p.pkcs11 is Some && no_methods(SigningProvider { pkcs11: None, ..p }))
            || (p.fireblocks is Some && no_methods(SigningProvider { fireblocks: None, ..p })),
    ensures
        configured_methods(p) == 1,
        signing_count_problem(p) is None,
{
}

/// The listed addresses of a selection agree with its membership test and
/// its length, wherever it lists addresses rather than all of them.
pub proof fn lemma_listed_addresses_agree(a: AllOrOneOrManyAddresses, x: EvmAddress)
    requires
        !(a is All),
    ensures
        a.spec_contains(x) <==> a.listed().contains(x),
        a.listed().len() == match a {
            AllOrOneOrManyAddresses::Many(v) => v@.len(),
            _ => 1,
        },
{
    match a {
        AllOrOneOrManyAddresses::One(b) => {
            if b == x {
                assert(a.listed()[0] == x);
            }
        },
        _ => {},
    }
}

/// Whether a reference could start anywhere in `s`: a `$` right before a `{`.
pub open spec fn has_reference_opening(s: Seq<char>) -> bool {
    exists|i: int| 0 <= i && i + 1 < s.len() && s[i] == '$' && #[trigger] s[i + 1] == '{'
}

proof fn lemma_plain_suffix_unchanged(s: Seq<char>, env: Seq<(Seq<char>, Seq<char>)>, i: int)
    requires
        0 <= i <= s.len(),
        !has_reference_opening(s),
    ensures
        substituted_from(s, env, i) == Ok::<Seq<char>, Seq<char>>(s.subrange(i, s.len() as int)),
    decreases s.len() - i,
{
    if i < s.len() {
        lemma_plain_suffix_unchanged(s, env, i + 1);
        if reference_at(s, i) {
            assert(s[i] == '$' && s[i + 1] == '{');
            assert(has_reference_opening(s));
        }
        assert(seq![s[i]] + s.subrange(i + 1, s.len() as int) =~= s.subrange(i, s.len() as int));
    } else {
        assert(s.subrange(i, s.len() as int) =~= Seq::<char>::empty());
    }
}

/// Text in which no `${` occurs comes out of the substitution unchanged,
/// whatever the environment holds.
pub proof fn lemma_text_without_references_unchanged(s: Seq<char>, env: Seq<(Seq<char>, Seq<char>)>)
    requires
        !has_reference_opening(s),
    ensures
        substituted_from(s, env, 0) == Ok::<Seq<char>, Seq<char>>(s),
{
    lemma_plain_suffix_unchanged(s, env, 0);
    assert(s.subrange(0, s.len() as int) =~= s);
}


/// Each speed waits the number of blocks its own setting gives: slow the
/// slow one, medium the medium one, fast the fast one, super the super one.
pub proof fn lemma_bump_wait_by_speed(c: GasBumpBlockConfig)
    ensures
        c.spec_blocks_to_wait_before_bump(TransactionSpeed::SLOW) == c.slow,
        c.spec_blocks_to_wait_before_bump(TransactionSpeed::MEDIUM) == c.medium,
        c.spec_blocks_to_wait_before_bump(TransactionSpeed::FAST) == c.fast,
        c.spec_blocks_to_wait_before_bump(TransactionSpeed::SUPER) == c.super_fast,
{
}

} // verus!
