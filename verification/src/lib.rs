//! Host-side bridge letting a sandboxed guest module drive a small
//! publish/subscribe middleware session.
//!
//! The guest cannot hold native pointers or call host APIs directly; it only
//! presents small integers (handles), offsets and lengths into its linear
//! memory. The bridge keeps every native resource in host-owned handle
//! tables ([`handles`]), marshals byte ranges between guest memory and host
//! strings ([`memory`]), implements the narrow import surface the guest is
//! restricted to ([`bridge`]), and re-enters guest code for inbound messages
//! through an explicit Idle/Dispatching state machine ([`dispatch`]).
//!
//! The middleware itself (session, node, publisher and subscription
//! creation, transport) is an external collaborator: the bridge validates
//! and records each request and hands the runner the plain values the
//! middleware needs. Boundary contract violations -- an unknown handle, an
//! out-of-range memory access, bytes that are not text -- are reported as a
//! [`BridgeError`] for the in-flight call; a middleware or transport failure
//! is fatal for the whole session and is left to the runner to surface.

use vstd::prelude::*;

pub mod bridge;
pub mod dispatch;
pub mod handles;
pub mod memory;

verus! {

/// Why an import call was aborted: every variant is a boundary contract
/// violation by the guest, fatal for the in-flight call.
#[derive(Clone, Copy, Debug, PartialEq, Eq, Structural)]
pub enum BridgeError {
    /// A handle was presented that is not live in the table it addresses.
    UnknownHandle,
    /// A byte range reaches beyond the current size of guest memory.
    OutOfRange,
    /// A byte range inside guest memory does not decode as text.
    InvalidText,
    /// An inbound message arrived while another dispatch into the guest was
    /// still running; re-entry must be serialized.
    DispatchBusy,
}

/// Handle to a live middleware session context.
#[derive(Clone, Copy, Debug, PartialEq, Eq, Structural)]
pub enum RNContext {
    Handle(u32),
}

impl RNContext {
    /// The handle's integer value, as the guest presents it.
    pub open spec fn spec_id(&self) -> u32 {
        self->0
    }

    #[verifier::when_used_as_spec(spec_id)]
    pub fn id(&self) -> (id: u32)
        ensures
            id == self.spec_id(),
    {
        match self {
            RNContext::Handle(id) => *id,
        }
    }
}

/// Handle to a live node.
#[derive(Clone, Copy, Debug, PartialEq, Eq, Structural)]
pub enum RNNode {
    Handle(u32),
}

impl RNNode {
    /// The handle's integer value, as the guest presents it.
    pub open spec fn spec_id(&self) -> u32 {
        self->0
    }

    #[verifier::when_used_as_spec(spec_id)]
    pub fn id(&self) -> (id: u32)
        ensures
            id == self.spec_id(),
    {
        match self {
            RNNode::Handle(id) => *id,
        }
    }
}

/// Handle to a live publisher.
#[derive(Clone, Copy, Debug, PartialEq, Eq, Structural)]
pub enum RNPublisher {
    Handle(u32),
}

impl RNPublisher {
    /// The handle's integer value, as the guest presents it.
    pub open spec fn spec_id(&self) -> u32 {
        self->0
    }

    #[verifier::when_used_as_spec(spec_id)]
    pub fn id(&self) -> (id: u32)
        ensures
            id == self.spec_id(),
    {
        match self {
            RNPublisher::Handle(id) => *id,
        }
    }
}

/// Handle to a live subscription.
#[derive(Clone, Copy, Debug, PartialEq, Eq, Structural)]
pub enum RNSubscription {
    Handle(u32),
}

impl RNSubscription {
    /// The handle's integer value, as the guest presents it.
    pub open spec fn spec_id(&self) -> u32 {
        self->0
    }

    #[verifier::when_used_as_spec(spec_id)]
    pub fn id(&self) -> (id: u32)
        ensures
            id == self.spec_id(),
    {
        match self {
            RNSubscription::Handle(id) => *id,
        }
    }
}

/// Handle to a live text message.
#[derive(Clone, Copy, Debug, PartialEq, Eq, Structural)]
pub enum RNStdMsgString {
    Handle(u32),
}

impl RNStdMsgString {
    /// The handle's integer value, as the guest presents it.
    pub open spec fn spec_id(&self) -> u32 {
        self->0
    }

    #[verifier::when_used_as_spec(spec_id)]
    pub fn id(&self) -> (id: u32)
        ensures
            id == self.spec_id(),
    {
        match self {
            RNStdMsgString::Handle(id) => *id,
        }
    }
}

} // verus!
