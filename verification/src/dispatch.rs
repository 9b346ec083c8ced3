//! Callback dispatch bridge: the path by which an inbound message, arriving
//! on whatever thread drives the middleware's event loop, re-enters guest
//! code.
//!
//! The bridge is an explicit two-state machine. It is Idle while no inbound
//! message is being processed. When the loop delivers a message for a live
//! subscription, the bridge copies the payload into a fresh message,
//! registers it for a handle, and goes Dispatching; the runner then invokes
//! the guest's exported dispatcher with the subscription's captured guest
//! function reference and that handle -- a synchronous, blocking re-entry.
//! When the call returns, the runner reports it and the bridge goes Idle
//! again. No two dispatches may run at once for the one guest instance: a
//! delivery that finds the bridge Dispatching is refused, so re-entry stays
//! serialized, a hard invariant rather than an accidental property.

use vstd::prelude::*;
use vstd::utf8::encode_utf8;
use crate::bridge::{Endpoint, RosData, StdMsgString};
use crate::handles::register_at_index;
use crate::{BridgeError, RNStdMsgString, RNSubscription};

verus! {

/// Whether the bridge is between dispatches or re-entering the guest.
#[derive(Clone, Copy, Debug, PartialEq, Eq, Structural)]
pub enum DispatchState {
    Idle,
    Dispatching,
}

/// What the runner needs to re-enter the guest: the guest function
/// reference captured when the subscription was created, and the handle of
/// the freshly registered inbound message.
#[derive(Clone, Copy, Debug, PartialEq, Eq, Structural)]
pub struct DispatchTicket {
    pub func_ref: u32,
    pub message: RNStdMsgString,
}

impl RosData {
    /// An inbound message arrived for the given subscription: copies the
    /// payload into a fresh registered message and goes Idle to Dispatching.
    /// Refused while another dispatch is still running, and for a handle
    /// that is not a live subscription.
    pub fn begin_dispatch(&mut self, rn_subscription: RNSubscription, data: String) -> (r: Result<
        DispatchTicket,
        BridgeError,
    >)
        requires
            old(self).wf(),
            old(self).messages.slots.len() < u32::MAX as usize,
            encode_utf8(data@).len() <= u32::MAX,
        ensures
            final(self).wf(),
            final(self).messages.slots.len() <= old(self).messages.slots.len() + 1,
            ({
                let idle = old(self).dispatch is Idle;
                let live = old(self).endpoints@.dom().contains(rn_subscription.id()) && old(self).endpoints@[rn_subscription.id()] is Subscription;
                &&& (r is Ok <==> idle && live)
                &&& (!idle ==> (r matches Err(e) && e == BridgeError::DispatchBusy))
                &&& (idle && !live ==> (r matches Err(e) && e == BridgeError::UnknownHandle))
                &&& (r is Err ==> final(self).messages == old(self).messages && final(self).dispatch == old(self).dispatch)
                &&& (r matches Ok(ticket) ==> ({
                    let h = ticket.message.id();
                    &&& (old(self).endpoints@[rn_subscription.id()] matches Endpoint::Subscription(s)
                        && ticket.func_ref == s.func_ref)
                    &&& !old(self).messages@.dom().contains(h)
                    &&& (forall|g: u32| g < h ==> old(self).messages@.dom().contains(g))
                    &&& final(self).messages@.dom() == old(self).messages@.dom().insert(h)
                    &&& final(self).messages@[h].data@ == data@
                    &&& (forall|g: u32|
                        old(self).messages@.dom().contains(g) ==> final(self).messages@[g] == old(self).messages@[g])
                    &&& final(self).dispatch is Dispatching
                }))
                &&& final(self).contexts == old(self).contexts
                &&& final(self).nodes == old(self).nodes
                &&& final(self).endpoints == old(self).endpoints
            }),
    {
        match self.dispatch {
            DispatchState::Dispatching => {
                return Err(BridgeError::DispatchBusy);
            },
            DispatchState::Idle => {},
        }
        let func_ref = match self.endpoints.resolve(rn_subscription.id()) {
            Some(Endpoint::Subscription(s)) => s.func_ref,
            _ => {
                return Err(BridgeError::UnknownHandle);
            },
        };
        let id = register_at_index(&mut self.messages, StdMsgString { data });
        self.dispatch = DispatchState::Dispatching;
        Ok(DispatchTicket { func_ref, message: RNStdMsgString::Handle(id) })
    }

    /// The re-entrant call into the guest returned: Dispatching to Idle.
    pub fn finish_dispatch(&mut self)
        requires
            old(self).wf(),
            old(self).dispatch is Dispatching,
        ensures
            final(self).wf(),
            final(self).dispatch is Idle,
            final(self).contexts == old(self).contexts,
            final(self).nodes == old(self).nodes,
            final(self).endpoints == old(self).endpoints,
            final(self).messages == old(self).messages,
    {
        self.dispatch = DispatchState::Idle;
    }
}

} // verus!
