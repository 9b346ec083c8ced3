//! Import surface of the bridge: the host functions the guest is restricted
//! to, one per middleware capability.
//!
//! Each call resolves the handles it was given, failing for the in-flight
//! call when any is unknown; pulls string-valued arguments out of guest
//! memory through the linear-memory accessor; records the validated request
//! in the bridge state; and returns any newly created resource as a fresh
//! handle. The runner performs the middleware side of each recorded request
//! and treats a middleware or transport failure as fatal for the session.

use vstd::prelude::*;
use vstd::utf8::{decode_utf8, decode_utf8_encode_utf8, encode_utf8, valid_utf8};
use crate::dispatch::DispatchState;
use crate::handles::{register_at_index, HandleTable};
use crate::memory::{clipped_len, get_string_from_memory, set_memory_to_string, GuestMemory};
use crate::{BridgeError, RNContext, RNNode, RNPublisher, RNStdMsgString, RNSubscription};

verus! {

/// A live middleware session context. Opaque beyond identity: what the
/// middleware keeps for it lives with the runner, under the same handle.
pub struct Context {}

/// A named participant in the middleware graph, owned by one session.
pub struct Node {
    pub context: RNContext,
    pub name: String,
}

/// Bound to one node and one topic; stateless beyond identity.
pub struct Publisher {
    pub node: RNNode,
    pub topic: String,
}

/// Bound to one node, one topic, and the guest function reference captured
/// at creation time, which every inbound dispatch hands back to the guest.
pub struct Subscription {
    pub node: RNNode,
    pub topic: String,
    pub func_ref: u32,
}

/// A publisher or a subscription; the two share one handle table.
pub enum Endpoint {
    Publisher(Publisher),
    Subscription(Subscription),
}

/// The one message shape the bridge models: a mutable text payload.
pub struct StdMsgString {
    pub data: String,
}

/// An outbound publication, handed to the transport: the publisher's topic
/// and the message text at the moment of the call.
#[derive(Debug)]
pub struct OutboundMessage {
    pub topic: String,
    pub data: String,
}

/// The node an endpoint is bound to.
pub open spec fn endpoint_node(e: Endpoint) -> RNNode {
    match e {
        Endpoint::Publisher(p) => p.node,
        Endpoint::Subscription(s) => s.node,
    }
}

/// The bridge's process-wide state: one handle table per resource category
/// and the dispatch state machine. It exclusively owns every registered
/// resource; the guest's integers are capability references, not ownership.
pub struct RosData {
    pub contexts: HandleTable<Context>,
    pub nodes: HandleTable<Node>,
    pub endpoints: HandleTable<Endpoint>,
    pub messages: HandleTable<StdMsgString>,
    pub dispatch: DispatchState,
}

impl RosData {
    /// Well-formedness: every node belongs to a live session, every
    /// endpoint to a live node, and every message text fits the length
    /// field of the import surface.
    pub open spec fn wf(self) -> bool {
        &&& forall|h: u32| #[trigger]
            self.nodes@.dom().contains(h) ==> self.contexts@.dom().contains(
                self.nodes@[h].context.id(),
            )
        &&& forall|h: u32| #[trigger]
            self.endpoints@.dom().contains(h) ==> self.nodes@.dom().contains(
                endpoint_node(self.endpoints@[h]).id(),
            )
        &&& forall|h: u32| #[trigger]
            self.messages@.dom().contains(h) ==> encode_utf8(self.messages@[h].data@).len()
                <= u32::MAX
    }

    /// Fresh bridge state: no live handles, dispatch idle. Installed once
    /// before the guest's entry point runs.
    pub fn new() -> (d: RosData)
        ensures
            d.wf(),
            d.contexts@ == Map::<u32, Context>::empty(),
            d.nodes@ == Map::<u32, Node>::empty(),
            d.endpoints@ == Map::<u32, Endpoint>::empty(),
            d.messages@ == Map::<u32, StdMsgString>::empty(),
            d.contexts.slots.len() == 0,
            d.nodes.slots.len() == 0,
            d.endpoints.slots.len() == 0,
            d.messages.slots.len() == 0,
            d.dispatch is Idle,
    {
        RosData {
            contexts: HandleTable::new(),
            nodes: HandleTable::new(),
            endpoints: HandleTable::new(),
            messages: HandleTable::new(),
            dispatch: DispatchState::Idle,
        }
    }

    /// Creates the default session context and registers it.
    pub fn rn_get_default_context(&mut self) -> (h: RNContext)
        requires
            old(self).wf(),
            old(self).contexts.slots.len() < u32::MAX as usize,
        ensures
            final(self).wf(),
            !old(self).contexts@.dom().contains(h.id()),
            forall|g: u32| g < h.id() ==> old(self).contexts@.dom().contains(g),
            final(self).contexts@ == old(self).contexts@.insert(h.id(), (Context {  })),
            final(self).contexts.slots.len() <= old(self).contexts.slots.len() + 1,
            final(self).nodes == old(self).nodes,
            final(self).endpoints == old(self).endpoints,
            final(self).messages == old(self).messages,
            final(self).dispatch == old(self).dispatch,
    {
        let id = register_at_index(&mut self.contexts, Context {  });
        RNContext::Handle(id)
    }

    /// Looks the session context up, reads the node name out of guest
    /// memory, and registers the new node.
    pub fn rn_create_node(
        &mut self,
        mem: &GuestMemory,
        rn_context: RNContext,
        name_ptr: u32,
        name_len: u32,
    ) -> (r: Result<RNNode, BridgeError>)
        requires
            old(self).wf(),
            old(self).nodes.slots.len() < u32::MAX as usize,
        ensures
            final(self).wf(),
            final(self).nodes.slots.len() <= old(self).nodes.slots.len() + 1,
            ({
                let live = old(self).contexts@.dom().contains(rn_context.id());
                let in_range = name_ptr + name_len <= mem@.len();
                let bytes = mem@.subrange(name_ptr as int, name_ptr + name_len);
                &&& (r is Ok <==> live && in_range && valid_utf8(bytes))
                &&& (!live ==> (r matches Err(e) && e == BridgeError::UnknownHandle))
                &&& (live && !in_range ==> (r matches Err(e) && e == BridgeError::OutOfRange))
                &&& (live && in_range && !valid_utf8(bytes) ==> (r matches Err(e) && e == BridgeError::InvalidText))
                &&& (r matches Ok(rn_node) ==> ({
                    let h = rn_node.id();
                    &&& !old(self).nodes@.dom().contains(h)
                    &&& (forall|g: u32| g < h ==> old(self).nodes@.dom().contains(g))
                    &&& final(self).nodes@.dom() == old(self).nodes@.dom().insert(h)
                    &&& final(self).nodes@[h].context == rn_context
                    &&& final(self).nodes@[h].name@ == decode_utf8(bytes)
                    &&& (forall|g: u32|
                        old(self).nodes@.dom().contains(g) ==> final(self).nodes@[g] == old(self).nodes@[g])
                }))
                &&& (r is Err ==> final(self).nodes == old(self).nodes)
                &&& final(self).contexts == old(self).contexts
                &&& final(self).endpoints == old(self).endpoints
                &&& final(self).messages == old(self).messages
                &&& final(self).dispatch == old(self).dispatch
            }),
    {
        if self.contexts.resolve(rn_context.id()).is_none() {
            return Err(BridgeError::UnknownHandle);
        }
        let name = match get_string_from_memory(mem, name_ptr, name_len) {
            Ok(s) => s,
            Err(e) => {
                return Err(e);
            },
        };
        let h = register_at_index(&mut self.nodes, Node { context: rn_context, name });
        proof {
            assert(self.nodes@.dom() =~= old(self).nodes@.dom().insert(h));
        }
        Ok(RNNode::Handle(h))
    }

    /// Looks the node up, reads the topic out of guest memory, and
    /// registers the new publisher.
    pub fn rn_create_publisher(
        &mut self,
        mem: &GuestMemory,
        rn_node: RNNode,
        topic_ptr: u32,
        topic_len: u32,
    ) -> (r: Result<RNPublisher, BridgeError>)
        requires
            old(self).wf(),
            old(self).endpoints.slots.len() < u32::MAX as usize,
        ensures
            final(self).wf(),
            final(self).endpoints.slots.len() <= old(self).endpoints.slots.len() + 1,
            ({
                let live = old(self).nodes@.dom().contains(rn_node.id());
                let in_range = topic_ptr + topic_len <= mem@.len();
                let bytes = mem@.subrange(topic_ptr as int, topic_ptr + topic_len);
                &&& (r is Ok <==> live && in_range && valid_utf8(bytes))
                &&& (!live ==> (r matches Err(e) && e == BridgeError::UnknownHandle))
                &&& (live && !in_range ==> (r matches Err(e) && e == BridgeError::OutOfRange))
                &&& (live && in_range && !valid_utf8(bytes) ==> (r matches Err(e) && e == BridgeError::InvalidText))
                &&& (r matches Ok(rn_publisher) ==> ({
                    let h = rn_publisher.id();
                    &&& !old(self).endpoints@.dom().contains(h)
                    &&& (forall|g: u32| g < h ==> old(self).endpoints@.dom().contains(g))
                    &&& final(self).endpoints@.dom() == old(self).endpoints@.dom().insert(h)
                    &&& (final(self).endpoints@[h] matches Endpoint::Publisher(p) && p.node
                        == rn_node && p.topic@ == decode_utf8(bytes))
                    &&& (forall|g: u32|
                        old(self).endpoints@.dom().contains(g) ==> final(self).endpoints@[g]
                            == old(self).endpoints@[g])
                }))
                &&& (r is Err ==> final(self).endpoints == old(self).endpoints)
                &&& final(self).contexts == old(self).contexts
                &&& final(self).nodes == old(self).nodes
                &&& final(self).messages == old(self).messages
                &&& final(self).dispatch == old(self).dispatch
            }),
    {
        if self.nodes.resolve(rn_node.id()).is_none() {
            return Err(BridgeError::UnknownHandle);
        }
        let topic = match get_string_from_memory(mem, topic_ptr, topic_len) {
            Ok(s) => s,
            Err(e) => {
                return Err(e);
            },
        };
        let h = register_at_index(
            &mut self.endpoints,
            Endpoint::Publisher(Publisher { node: rn_node, topic }),
        );
        proof {
            assert(self.endpoints@.dom() =~= old(self).endpoints@.dom().insert(h));
        }
        Ok(RNPublisher::Handle(h))
    }

    /// Looks the node up, reads the topic out of guest memory, and
    /// registers the new subscription together with the guest function
    /// reference that inbound dispatches will hand back to the guest.
    pub fn rn_create_subscription(
        &mut self,
        mem: &GuestMemory,
        rn_node: RNNode,
        topic_ptr: u32,
        topic_len: u32,
        func_ref: u32,
    ) -> (r: Result<RNSubscription, BridgeError>)
        requires
            old(self).wf(),
            old(self).endpoints.slots.len() < u32::MAX as usize,
        ensures
            final(self).wf(),
            final(self).endpoints.slots.len() <= old(self).endpoints.slots.len() + 1,
            ({
                let live = old(self).nodes@.dom().contains(rn_node.id());
                let in_range = topic_ptr + topic_len <= mem@.len();
                let bytes = mem@.subrange(topic_ptr as int, topic_ptr + topic_len);
                &&& (r is Ok <==> live && in_range && valid_utf8(bytes))
                &&& (!live ==> (r matches Err(e) && e == BridgeError::UnknownHandle))
                &&& (live && !in_range ==> (r matches Err(e) && e == BridgeError::OutOfRange))
                &&& (live && in_range && !valid_utf8(bytes) ==> (r matches Err(e) && e == BridgeError::InvalidText))
                &&& (r matches Ok(rn_subscription) ==> ({
                    let h = rn_subscription.id();
                    &&& !old(self).endpoints@.dom().contains(h)
                    &&& (forall|g: u32| g < h ==> old(self).endpoints@.dom().contains(g))
                    &&& final(self).endpoints@.dom() == old(self).endpoints@.dom().insert(h)
                    &&& (final(self).endpoints@[h] matches Endpoint::Subscription(s) && s.node
                        == rn_node && s.topic@ == decode_utf8(bytes) && s.func_ref == func_ref)
                    &&& (forall|g: u32|
                        old(self).endpoints@.dom().contains(g) ==> final(self).endpoints@[g]
                            == old(self).endpoints@[g])
                }))
                &&& (r is Err ==> final(self).endpoints == old(self).endpoints)
                &&& final(self).contexts == old(self).contexts
                &&& final(self).nodes == old(self).nodes
                &&& final(self).messages == old(self).messages
                &&& final(self).dispatch == old(self).dispatch
            }),
    {
        if self.nodes.resolve(rn_node.id()).is_none() {
            return Err(BridgeError::UnknownHandle);
        }
        let topic = match get_string_from_memory(mem, topic_ptr, topic_len) {
            Ok(s) => s,
            Err(e) => {
                return Err(e);
            },
        };
        let h = register_at_index(
            &mut self.endpoints,
            Endpoint::Subscription(Subscription { node: rn_node, topic, func_ref }),
        );
        proof {
            assert(self.endpoints@.dom() =~= old(self).endpoints@.dom().insert(h));
        }
        Ok(RNSubscription::Handle(h))
    }

    /// Creates a fresh message with empty text and registers it.
    pub fn rn_std_msg_string_default(&mut self) -> (h: RNStdMsgString)
        requires
            old(self).wf(),
            old(self).messages.slots.len() < u32::MAX as usize,
        ensures
            final(self).wf(),
            final(self).messages.slots.len() <= old(self).messages.slots.len() + 1,
            !old(self).messages@.dom().contains(h.id()),
            forall|g: u32| g < h.id() ==> old(self).messages@.dom().contains(g),
            final(self).messages@.dom() == old(self).messages@.dom().insert(h.id()),
            final(self).messages@[h.id()].data@ == Seq::<char>::empty(),
            forall|g: u32|
                old(self).messages@.dom().contains(g) ==> final(self).messages@[g] == old(self).messages@[g],
            final(self).contexts == old(self).contexts,
            final(self).nodes == old(self).nodes,
            final(self).endpoints == old(self).endpoints,
            final(self).dispatch == old(self).dispatch,
    {
        let id = register_at_index(&mut self.messages, StdMsgString { data: String::new() });
        proof {
            assert(self.messages@.dom() =~= old(self).messages@.dom().insert(id));
            assert(encode_utf8(Seq::<char>::empty()) =~= Seq::<u8>::empty());
        }
        RNStdMsgString::Handle(id)
    }

    /// Looks the message up and replaces its text with the bytes read out
    /// of guest memory.
    pub fn rn_std_msg_string_set_data(
        &mut self,
        mem: &GuestMemory,
        rn_msg: RNStdMsgString,
        data_ptr: u32,
        data_len: u32,
    ) -> (r: Result<(), BridgeError>)
        requires
            old(self).wf(),
        ensures
            final(self).wf(),
            final(self).messages.slots.len() == old(self).messages.slots.len(),
            ({
                let live = old(self).messages@.dom().contains(rn_msg.id());
                let in_range = data_ptr + data_len <= mem@.len();
                let bytes = mem@.subrange(data_ptr as int, data_ptr + data_len);
                &&& (r is Ok <==> live && in_range && valid_utf8(bytes))
                &&& (!live ==> (r matches Err(e) && e == BridgeError::UnknownHandle))
                &&& (live && !in_range ==> (r matches Err(e) && e == BridgeError::OutOfRange))
                &&& (live && in_range && !valid_utf8(bytes) ==> (r matches Err(e) && e == BridgeError::InvalidText))
                &&& (r is Ok ==> final(self).messages@.dom() == old(self).messages@.dom()
                    && final(self).messages@[rn_msg.id()].data@ == decode_utf8(bytes) && (
                forall|g: u32|
                    old(self).messages@.dom().contains(g) && g != rn_msg.id() ==> final(self).messages@[g] == old(self).messages@[g]))
                &&& (r is Err ==> final(self).messages == old(self).messages)
                &&& final(self).contexts == old(self).contexts
                &&& final(self).nodes == old(self).nodes
                &&& final(self).endpoints == old(self).endpoints
                &&& final(self).dispatch == old(self).dispatch
            }),
    {
        if self.messages.resolve(rn_msg.id()).is_none() {
            return Err(BridgeError::UnknownHandle);
        }
        let data = match get_string_from_memory(mem, data_ptr, data_len) {
            Ok(s) => s,
            Err(e) => {
                return Err(e);
            },
        };
        let _replaced = self.messages.replace(rn_msg.id(), StdMsgString { data });
        proof {
            decode_utf8_encode_utf8(mem@.subrange(data_ptr as int, data_ptr + data_len));
        }
        Ok(())
    }

    /// Looks the message up and returns its text length in bytes.
    pub fn rn_std_msg_string_get_data_len(&self, rn_msg: RNStdMsgString) -> (r: Result<
        u32,
        BridgeError,
    >)
        requires
            self.wf(),
        ensures
            r is Ok <==> self.messages@.dom().contains(rn_msg.id()),
            r matches Ok(n) ==> n == encode_utf8(self.messages@[rn_msg.id()].data@).len(),
            r matches Err(e) ==> e == BridgeError::UnknownHandle,
    {
        match self.messages.resolve(rn_msg.id()) {
            Some(message) => {
                let len = message.data.as_str().len();
                Ok(len as u32)
            },
            None => Err(BridgeError::UnknownHandle),
        }
    }

    /// Looks the message up and copies its text into guest memory, clipped
    /// to the length the guest asked for.
    pub fn rn_std_msg_string_get_data(
        &self,
        mem: &mut GuestMemory,
        rn_msg: RNStdMsgString,
        data_ptr: u32,
        data_len: u32,
    ) -> (r: Result<(), BridgeError>)
        requires
            self.wf(),
        ensures
            ({
                let live = self.messages@.dom().contains(rn_msg.id());
                let in_range = data_ptr + data_len <= old(mem)@.len();
                let payload = encode_utf8(self.messages@[rn_msg.id()].data@);
                &&& (r is Ok <==> live && in_range)
                &&& (!live ==> (r matches Err(e) && e == BridgeError::UnknownHandle))
                &&& (live && !in_range ==> (r matches Err(e) && e == BridgeError::OutOfRange))
                &&& (r is Err ==> final(mem)@ == old(mem)@)
                &&& (r is Ok ==> final(mem)@.len() == old(mem)@.len() && (forall|i: int|
                    0 <= i < clipped_len(data_len, payload) ==> final(mem)@[data_ptr + i]
                        == payload[i]) && (forall|i: int|
                    0 <= i < old(mem)@.len() && !(data_ptr <= i < data_ptr + clipped_len(
                        data_len,
                        payload,
                    )) ==> final(mem)@[i] == old(mem)@[i]))
            }),
    {
        match self.messages.resolve(rn_msg.id()) {
            Some(message) => set_memory_to_string(mem, data_ptr, data_len, message.data.as_str()),
            None => Err(BridgeError::UnknownHandle),
        }
    }

    /// Looks the publisher and the message up and hands the runner the
    /// outbound publication for the transport to carry.
    pub fn rn_publish(&self, rn_publisher: RNPublisher, rn_msg: RNStdMsgString) -> (r: Result<
        OutboundMessage,
        BridgeError,
    >)
        requires
            self.wf(),
        ensures
            ({
                let publisher_live = self.endpoints@.dom().contains(rn_publisher.id())
                    && self.endpoints@[rn_publisher.id()] is Publisher;
                let message_live = self.messages@.dom().contains(rn_msg.id());
                &&& (r is Ok <==> publisher_live && message_live)
                &&& (r matches Err(e) ==> e == BridgeError::UnknownHandle)
                &&& (r matches Ok(out) ==> (self.endpoints@[rn_publisher.id()] matches
                Endpoint::Publisher(p) && out.topic@ == p.topic@ && out.data@
                    == self.messages@[rn_msg.id()].data@))
            }),
    {
        let publisher = match self.endpoints.resolve(rn_publisher.id()) {
            Some(Endpoint::Publisher(p)) => p,
            _ => {
                return Err(BridgeError::UnknownHandle);
            },
        };
        let message = match self.messages.resolve(rn_msg.id()) {
            Some(m) => m,
            None => {
                return Err(BridgeError::UnknownHandle);
            },
        };
        Ok(OutboundMessage { topic: publisher.topic.clone(), data: message.data.clone() })
    }

    /// Validates the node behind a spin request. The blocking
    /// receive-and-dispatch loop itself is the runner's: it holds the
    /// calling thread and feeds each arrived message through the dispatch
    /// bridge until the session is torn down.
    pub fn rn_node_spin(&self, rn_node: RNNode) -> (r: Result<(), BridgeError>)
        ensures
            r is Ok <==> self.nodes@.dom().contains(rn_node.id()),
            r matches Err(e) ==> e == BridgeError::UnknownHandle,
    {
        if self.nodes.resolve(rn_node.id()).is_some() {
            Ok(())
        } else {
            Err(BridgeError::UnknownHandle)
        }
    }
}

} // verus!
