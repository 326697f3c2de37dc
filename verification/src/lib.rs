//! Message-passing data contracts for a contract-bytecode interpreter:
//! the shapes that describe an inbound call or creation request, the
//! value transfer that accompanies it, the outcome of a self-destruct,
//! and the byte-keyed classification of administrative requests.

pub mod inner_models;
pub mod primitives;

pub use inner_models::{CallInputs, CreateInputs, SelfDestructResult, Transfer};
pub use primitives::{
    Address, AdminCallKind, CallContext, CallScheme, ConfigKind, CreateScheme, U256,
};
