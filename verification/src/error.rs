use vstd::prelude::*;

verus! {

/// Failure modes of the client.
///
/// `InvalidIndex` aborts a command before any network traffic;
/// `TransportError` and `DecodeError` mark a failed sync; `ConfigError`
/// marks an unusable configuration. None of them is ever retried.
#[derive(Clone, Copy, PartialEq, Eq, Structural, Debug)]
pub enum ShopError {
    InvalidIndex,
    TransportError,
    DecodeError,
    ConfigError,
}

} // verus!
