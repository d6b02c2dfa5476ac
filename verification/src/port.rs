use vstd::prelude::*;

verus! {

/// Opaque reference to an exchangeable object, in one of four forms: an object
/// owned by the local process (strong or weak), or a handle to an object held
/// remotely (strong or weak). The broker never interprets the token or handle
/// value; it only stores the reference and hands it back.
#[derive(Clone, Copy, PartialEq, Eq, Structural, Debug, Hash)]
pub enum PortRef {
    /// Strong reference to an object owned by the local process.
    Local { token: u64 },
    /// Weak reference to an object owned by the local process.
    LocalWeak { token: u64 },
    /// Strong handle to an object held by a remote process.
    Remote { handle: u64 },
    /// Weak handle to an object held by a remote process.
    RemoteWeak { handle: u64 },
}

} // verus!
