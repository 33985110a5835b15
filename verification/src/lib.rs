//! The failures of a DNS protocol stack: one catalog of what can go wrong,
//! the chain that carries a failure together with what caused it, and the
//! conversions that bring failures raised elsewhere into the catalog.

pub mod chain;
pub mod foreign;
pub mod kind;
pub mod not_openssl;
pub mod std_specs;
pub mod text;

pub use chain::{Cause, ProtoError, ProtoResult};
pub use foreign::AddrParseFailure;
pub use kind::ProtoErrorKind;
pub use not_openssl::SslErrorStack;
