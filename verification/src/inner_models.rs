//! The request shapes an interpreter frame receives: call and creation
//! inputs, the value transfer that rides along with a call, and the
//! flags that come back from a self-destruct.

use crate::primitives::{Address, CallContext, CallScheme, CreateScheme, U256};
use vstd::prelude::*;

verus! {

/// Transfer from source to target, with given value. A pure descriptor:
/// the state layer applies it atomically or not at all.
#[derive(Clone, Debug, PartialEq, Eq, Structural)]
pub struct Transfer {
    /// Source address.
    pub source: Address,
    /// Target address.
    pub target: Address,
    /// Transfer value.
    pub value: U256,
}

/// Two transfers are equal exactly when all three fields agree: they
/// are value objects with no identity of their own.
pub proof fn lemma_transfer_structural_equality(a: Transfer, b: Transfer)
    ensures
        a == b <==> (a.source == b.source && a.target == b.target && a.value == b.value),
{
}

/// Inputs for a call.
pub struct CallInputs {
    /// The target of the call.
    pub contract: Address,
    /// The transfer, if any, in this call.
    pub transfer: Transfer,
    /// The call data of the call.
    pub input: Vec<u8>,
    /// The gas limit of the call.
    pub gas_limit: u64,
    /// The context of the call.
    pub context: CallContext,
    /// Is static call
    pub is_static: bool,
}

/// The static-call discipline over the fields a `CallInputs` is built
/// from: a frame under the `StaticCall` scheme must be marked static,
/// and a static frame moves no value.
pub open spec fn static_rules_hold(scheme: CallScheme, is_static: bool, value: U256) -> bool {
    &&& (scheme is StaticCall ==> is_static)
    &&& (is_static ==> value.as_nat() == 0)
}

impl CallInputs {
    /// The structure keeps the static-call discipline: see
    /// `static_rules_hold`.
    pub open spec fn well_formed(self) -> bool {
        static_rules_hold(self.context.scheme, self.is_static, self.transfer.value)
    }

    /// The validator an assembling caller runs before handing the
    /// structure to the interpreter: the fields themselves carry no
    /// enforcement, so a violation must be caught here.
    pub fn validate(&self) -> (r: bool)
        ensures
            r == self.well_formed(),
    {
        let scheme_ok = match self.context.scheme {
            CallScheme::StaticCall => self.is_static,
            _ => true,
        };
        let value_ok = !self.is_static || self.transfer.value.is_zero();
        scheme_ok && value_ok
    }

    /// Builds call inputs only when the static-call discipline holds of
    /// the given fields; a violating combination yields `None`.
    pub fn new(
        contract: Address,
        transfer: Transfer,
        input: Vec<u8>,
        gas_limit: u64,
        context: CallContext,
        is_static: bool,
    ) -> (r: Option<CallInputs>)
        ensures
            r is Some <==> static_rules_hold(context.scheme, is_static, transfer.value),
            r matches Some(c) ==> {
                &&& c.well_formed()
                &&& c.contract == contract
                &&& c.transfer == transfer
                &&& c.input@ == input@
                &&& c.gas_limit == gas_limit
                &&& c.context == context
                &&& c.is_static == is_static
            },
    {
        let inputs = CallInputs { contract, transfer, input, gas_limit, context, is_static };
        if inputs.validate() {
            Some(inputs)
        } else {
            None
        }
    }
}

/// Inputs for a contract creation. Carries no static flag: creation is
/// never permitted inside a static context, a restriction the caller
/// enforces before building this structure.
pub struct CreateInputs {
    pub caller: Address,
    pub scheme: CreateScheme,
    pub value: U256,
    pub init_code: Vec<u8>,
    pub gas_limit: u64,
}

/// The outcome of a self-destruct, as the state layer reports it to the
/// interpreter for gas and refund bookkeeping.
pub struct SelfDestructResult {
    /// The destroyed account still held value.
    pub had_value: bool,
    /// The beneficiary account existed before the operation.
    pub target_exists: bool,
    /// The beneficiary was touched for the first time in this
    /// transaction.
    pub is_cold: bool,
    /// The account was already destroyed earlier in this transaction,
    /// so the beneficiary must not be credited again.
    pub previously_destroyed: bool,
}

impl Default for SelfDestructResult {
    /// All four flags false: no-op, beneficiary already in its final
    /// state.
    fn default() -> (r: SelfDestructResult)
        ensures
            !r.had_value,
            !r.target_exists,
            !r.is_cold,
            !r.previously_destroyed,
    {
        SelfDestructResult {
            had_value: false,
            target_exists: false,
            is_cold: false,
            previously_destroyed: false,
        }
    }
}

} // verus!
