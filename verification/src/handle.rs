//! References to toolkit-owned widgets.

use vstd::prelude::*;

verus! {

/// A reference to a widget that the toolkit owns.
///
/// A handle is the address the toolkit gave out, and that address is never
/// zero: the toolkit reports "no widget" as zero, which has no handle. Handles
/// are freely copyable; a handle is meaningful only while the toolkit is open.
#[derive(Clone, Copy, Debug, PartialEq, Eq, Structural, Hash)]
pub struct Handle {
    addr: usize,
}

impl Handle {
    #[verifier::type_invariant]
    spec fn nonzero(self) -> bool {
        self.addr != 0
    }

    /// The address this handle stands for.
    pub closed spec fn address(self) -> usize {
        self.addr
    }

    /// The handle for an address that is known to name a widget.
    ///
    /// Zero names no widget and is not accepted; use [`Handle::from_addr_opt`]
    /// for an address that may be zero.
    pub fn from_addr(addr: usize) -> (handle: Handle)
        requires
            addr != 0,
        ensures
            handle.address() == addr,
    {
        Handle { addr }
    }

    /// The handle for `addr`, or `None` exactly when `addr` is zero.
    pub fn from_addr_opt(addr: usize) -> (found: Option<Handle>)
        ensures
            addr == 0 <==> found is None,
            found matches Some(handle) ==> handle.address() == addr,
    {
        if addr != 0 {
            Some(Handle { addr })
        } else {
            None
        }
    }

    /// The address to hand to the toolkit. It is never zero.
    pub fn addr(self) -> (addr: usize)
        ensures
            addr == self.address(),
            addr != 0,
    {
        proof {
            use_type_invariant(&self);
        }
        self.addr
    }
}

/// Two handles are the same handle exactly when their addresses agree.
pub proof fn lemma_handle_by_address(a: Handle, b: Handle)
    ensures
        a == b <==> a.address() == b.address(),
{
}

} // verus!
