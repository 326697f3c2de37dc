//! Value and identity primitives, the call context, and the byte-keyed
//! administrative classification enums.

use vstd::prelude::*;

verus! {

/// A 160-bit account address, held as a big-endian pair of limbs:
/// the upper 32 bits in `hi`, the lower 128 bits in `lo`.
#[derive(Clone, Copy, Debug, PartialEq, Eq, Structural)]
pub struct Address {
    pub hi: u32,
    pub lo: u128,
}

impl Address {
    /// The numeric value of the address.
    pub open spec fn as_nat(self) -> nat {
        self.hi as nat * 0x100000000000000000000000000000000 + self.lo as nat
    }

    /// True on the all-zero address and on it alone.
    pub fn is_zero(&self) -> (r: bool)
        ensures
            r == (self.as_nat() == 0),
    {
        self.hi == 0 && self.lo == 0
    }
}

impl Default for Address {
    /// The all-zero address.
    fn default() -> (r: Address)
        ensures
            r.as_nat() == 0,
    {
        Address { hi: 0, lo: 0 }
    }
}

/// An unsigned 256-bit amount, held as a big-endian pair of 128-bit
/// limbs.
#[derive(Clone, Copy, Debug, PartialEq, Eq, Structural)]
pub struct U256 {
    pub hi: u128,
    pub lo: u128,
}

impl U256 {
    /// The numeric value of the amount.
    pub open spec fn as_nat(self) -> nat {
        self.hi as nat * 0x100000000000000000000000000000000 + self.lo as nat
    }

    /// True on zero and on it alone.
    pub fn is_zero(&self) -> (r: bool)
        ensures
            r == (self.as_nat() == 0),
    {
        self.hi == 0 && self.lo == 0
    }
}

impl Default for U256 {
    /// The zero amount.
    fn default() -> (r: U256)
        ensures
            r.as_nat() == 0,
    {
        U256 { hi: 0, lo: 0 }
    }
}

/// Call schemes.
#[derive(Clone, Copy, Debug, PartialEq, Eq, Structural)]
pub enum CallScheme {
    /// `CALL`
    Call,
    /// `CALLCODE`
    CallCode,
    /// `DELEGATECALL`
    DelegateCall,
    /// `STATICCALL`
    StaticCall,
}

/// How the address of a created contract is derived.
#[derive(Clone, Copy, Debug, PartialEq, Eq, Structural)]
pub enum CreateScheme {
    /// Sequential address, derived from the creator's nonce.
    Create,
    /// Deterministic address, derived from the given salt.
    Create2 { salt: U256 },
}

/// The context of a call frame: who is executing, on behalf of whom,
/// and under which call scheme. Built once at frame entry and immutable
/// afterwards.
#[derive(Clone, Debug, PartialEq, Eq, Structural)]
pub struct CallContext {
    /// Execution address.
    pub address: Address,
    /// Immediate caller of this frame.
    pub caller: Address,
    /// The address the contract code was loaded from; diverges from
    /// `address` under delegate or code-call semantics.
    pub code_address: Address,
    /// The value the callee observes.
    pub apparent_value: U256,
    /// The scheme used for the call.
    pub scheme: CallScheme,
}

impl Default for CallContext {
    /// All-zero addresses, zero apparent value, plain `Call` scheme.
    fn default() -> (r: CallContext)
        ensures
            r.address.as_nat() == 0,
            r.caller.as_nat() == 0,
            r.code_address.as_nat() == 0,
            r.apparent_value.as_nat() == 0,
            r.scheme is Call,
    {
        CallContext {
            address: Address::default(),
            caller: Address::default(),
            code_address: Address::default(),
            apparent_value: U256::default(),
            scheme: CallScheme::Call,
        }
    }
}

/// The kind of a configuration request, keyed by one wire byte.
#[derive(Clone, Copy, Debug, PartialEq, Eq, Structural)]
pub enum ConfigKind {
    /// Any byte outside the assigned ordinals. Declared first so that
    /// the named kinds keep their wire ordinals 1 to 4, which are part
    /// of the wire contract and are never renumbered.
    Unknown,
    MultisigAddress,
    RequiredGas,
    SetBalance,
    DumpState,
}

impl ConfigKind {
    /// The wire mapping: bytes 1 to 4 name a kind, every other byte,
    /// zero included, falls through to `Unknown`.
    pub open spec fn spec_from_u8(value: u8) -> ConfigKind {
        match value {
            1 => ConfigKind::MultisigAddress,
            2 => ConfigKind::RequiredGas,
            3 => ConfigKind::SetBalance,
            4 => ConfigKind::DumpState,
            _ => ConfigKind::Unknown,
        }
    }

    /// Decodes one wire byte. Total: every byte yields a kind, and an
    /// unassigned byte yields `Unknown` rather than an error.
    #[verifier::when_used_as_spec(spec_from_u8)]
    pub fn from_u8(value: u8) -> (r: ConfigKind)
        ensures
            r == ConfigKind::spec_from_u8(value),
    {
        match value {
            1 => ConfigKind::MultisigAddress,
            2 => ConfigKind::RequiredGas,
            3 => ConfigKind::SetBalance,
            4 => ConfigKind::DumpState,
            _ => ConfigKind::Unknown,
        }
    }
}

/// Every byte decodes to exactly one `ConfigKind`: each assigned kind
/// comes from its one ordinal, and `Unknown` from zero and from every
/// byte above the highest assigned ordinal, and from those alone.
pub proof fn lemma_config_kind_decode_total(value: u8)
    ensures
        ConfigKind::spec_from_u8(value) == ConfigKind::MultisigAddress <==> value == 1,
        ConfigKind::spec_from_u8(value) == ConfigKind::RequiredGas <==> value == 2,
        ConfigKind::spec_from_u8(value) == ConfigKind::SetBalance <==> value == 3,
        ConfigKind::spec_from_u8(value) == ConfigKind::DumpState <==> value == 4,
        ConfigKind::spec_from_u8(value) == ConfigKind::Unknown <==> (value == 0 || value >= 5),
{
}

/// The kind of an administrative call, keyed by one wire byte.
#[derive(Clone, Copy, Debug, PartialEq, Eq, Structural)]
pub enum AdminCallKind {
    /// Any byte outside the assigned ordinals. Declared first so that
    /// the named kinds keep their wire ordinals 1 to 4, which are part
    /// of the wire contract and are never renumbered.
    Unknown,
    EmergencyStop,
    ReloadRuntimeConfig,
    Mint,
    Burn,
}

impl AdminCallKind {
    /// The wire mapping: bytes 1 to 4 name a kind, every other byte,
    /// zero included, falls through to `Unknown`.
    pub open spec fn spec_from_u8(value: u8) -> AdminCallKind {
        match value {
            1 => AdminCallKind::EmergencyStop,
            2 => AdminCallKind::ReloadRuntimeConfig,
            3 => AdminCallKind::Mint,
            4 => AdminCallKind::Burn,
            _ => AdminCallKind::Unknown,
        }
    }

    /// Decodes one wire byte. Total: every byte yields a kind, and an
    /// unassigned byte yields `Unknown` rather than an error.
    #[verifier::when_used_as_spec(spec_from_u8)]
    pub fn from_u8(value: u8) -> (r: AdminCallKind)
        ensures
            r == AdminCallKind::spec_from_u8(value),
    {
        match value {
            1 => AdminCallKind::EmergencyStop,
            2 => AdminCallKind::ReloadRuntimeConfig,
            3 => AdminCallKind::Mint,
            4 => AdminCallKind::Burn,
            _ => AdminCallKind::Unknown,
        }
    }
}

/// Every byte decodes to exactly one `AdminCallKind`: each assigned
/// kind comes from its one ordinal, and `Unknown` from zero and from
/// every byte above the highest assigned ordinal, and from those alone.
pub proof fn lemma_admin_call_kind_decode_total(value: u8)
    ensures
        AdminCallKind::spec_from_u8(value) == AdminCallKind::EmergencyStop <==> value == 1,
        AdminCallKind::spec_from_u8(value) == AdminCallKind::ReloadRuntimeConfig <==> value == 2,
        AdminCallKind::spec_from_u8(value) == AdminCallKind::Mint <==> value == 3,
        AdminCallKind::spec_from_u8(value) == AdminCallKind::Burn <==> value == 4,
        AdminCallKind::spec_from_u8(value) == AdminCallKind::Unknown <==> (value == 0 || value >= 5),
{
}

} // verus!
