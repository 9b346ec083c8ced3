use ros2_rust_wasm::bridge::RosData;
use ros2_rust_wasm::memory::{set_memory_to_string, GuestMemory};
use ros2_rust_wasm::{BridgeError, RNContext, RNPublisher, RNStdMsgString, RNSubscription};

fn put(mem: &mut GuestMemory, at: u32, text: &str) -> (u32, u32) {
    set_memory_to_string(mem, at, text.len() as u32, text).unwrap();
    (at, text.len() as u32)
}

#[test]
fn scenario_published_message_reaches_matching_subscription() {
    let mut state = RosData::new();
    let mut mem = GuestMemory::new(256);
    let ctx = state.rn_get_default_context();
    let (name_ptr, name_len) = put(&mut mem, 0, "node");
    let node = state.rn_create_node(&mem, ctx, name_ptr, name_len).unwrap();
    let (topic_ptr, topic_len) = put(&mut mem, 8, "topic");
    let publisher = state.rn_create_publisher(&mem, node, topic_ptr, topic_len).unwrap();
    let subscription = state.rn_create_subscription(&mem, node, topic_ptr, topic_len, 1).unwrap();
    let message = state.rn_std_msg_string_default();
    let text = "Hello Rust ROS! 0";
    let (data_ptr, data_len) = put(&mut mem, 16, text);
    state.rn_std_msg_string_set_data(&mem, message, data_ptr, data_len).unwrap();

    let outbound = state.rn_publish(publisher, message).unwrap();
    assert_eq!(outbound.topic.as_str(), "topic");

    // The transport delivers the publication to the one subscription whose
    // topic matches.
    let ticket = state.begin_dispatch(subscription, outbound.data).unwrap();
    let len = state.rn_std_msg_string_get_data_len(ticket.message).unwrap();
    assert_eq!(len, text.len() as u32);
    state.rn_std_msg_string_get_data(&mut mem, ticket.message, 64, len).unwrap();
    assert_eq!(mem.read_bytes(64, len).unwrap(), text.as_bytes().to_vec());
    state.finish_dispatch();
}

#[test]
fn scenario_dispatcher_gets_the_captured_reference_exactly_once() {
    let mut state = RosData::new();
    let mut mem = GuestMemory::new(64);
    let ctx = state.rn_get_default_context();
    let (name_ptr, name_len) = put(&mut mem, 0, "node");
    let node = state.rn_create_node(&mem, ctx, name_ptr, name_len).unwrap();
    let (topic_ptr, topic_len) = put(&mut mem, 8, "topic");
    let func_ref = 42;
    let subscription =
        state.rn_create_subscription(&mem, node, topic_ptr, topic_len, func_ref).unwrap();

    let ticket = state.begin_dispatch(subscription, String::from("ping")).unwrap();
    assert_eq!(ticket.func_ref, func_ref);
    let len = state.rn_std_msg_string_get_data_len(ticket.message).unwrap();
    assert_eq!(len, 4);
    state.rn_std_msg_string_get_data(&mut mem, ticket.message, 32, len).unwrap();
    assert_eq!(mem.read_bytes(32, len).unwrap(), b"ping".to_vec());

    // While the guest callback runs, a second delivery is refused: the
    // dispatcher is entered once per delivery.
    assert_eq!(
        state.begin_dispatch(subscription, String::from("again")).unwrap_err(),
        BridgeError::DispatchBusy
    );
    state.finish_dispatch();

    // After the re-entrant call returns, the next delivery goes through,
    // with a fresh message handle.
    let second = state.begin_dispatch(subscription, String::from("again")).unwrap();
    assert_ne!(second.message, ticket.message);
    state.finish_dispatch();
}

#[test]
fn scenario_unregistered_handle_is_a_fatal_error_not_a_default() {
    let mut state = RosData::new();
    let mut mem = GuestMemory::new(64);
    let _ctx = state.rn_get_default_context();
    let (name_ptr, name_len) = put(&mut mem, 0, "node");
    assert_eq!(
        state.rn_create_node(&mem, RNContext::Handle(999), name_ptr, name_len).unwrap_err(),
        BridgeError::UnknownHandle
    );
    assert_eq!(
        state.rn_std_msg_string_get_data_len(RNStdMsgString::Handle(999)).unwrap_err(),
        BridgeError::UnknownHandle
    );
    let message = state.rn_std_msg_string_default();
    assert_eq!(
        state.rn_publish(RNPublisher::Handle(999), message).unwrap_err(),
        BridgeError::UnknownHandle
    );
    assert_eq!(
        state.begin_dispatch(RNSubscription::Handle(999), String::from("x")).unwrap_err(),
        BridgeError::UnknownHandle
    );
}

#[test]
fn publisher_and_subscription_handles_are_not_interchangeable() {
    let mut state = RosData::new();
    let mut mem = GuestMemory::new(64);
    let ctx = state.rn_get_default_context();
    let (name_ptr, name_len) = put(&mut mem, 0, "node");
    let node = state.rn_create_node(&mem, ctx, name_ptr, name_len).unwrap();
    let (topic_ptr, topic_len) = put(&mut mem, 8, "topic");
    let subscription = state.rn_create_subscription(&mem, node, topic_ptr, topic_len, 3).unwrap();
    let message = state.rn_std_msg_string_default();
    // The subscription's handle is not a live publisher handle.
    assert_eq!(
        state.rn_publish(RNPublisher::Handle(subscription.id()), message).unwrap_err(),
        BridgeError::UnknownHandle
    );
    let publisher = state.rn_create_publisher(&mem, node, topic_ptr, topic_len).unwrap();
    assert_eq!(
        state.begin_dispatch(RNSubscription::Handle(publisher.id()), String::from("x")).unwrap_err(),
        BridgeError::UnknownHandle
    );
}

#[test]
fn message_text_round_trips_including_empty_and_multibyte() {
    let mut state = RosData::new();
    let mut mem = GuestMemory::new(128);
    let message = state.rn_std_msg_string_default();
    assert_eq!(state.rn_std_msg_string_get_data_len(message).unwrap(), 0);
    for text in ["", "V", "Hello Rust ROS! 9", "héllo ⚙ 日本語"] {
        let (data_ptr, data_len) = put(&mut mem, 0, text);
        state.rn_std_msg_string_set_data(&mem, message, data_ptr, data_len).unwrap();
        let len = state.rn_std_msg_string_get_data_len(message).unwrap();
        assert_eq!(len, text.len() as u32);
        state.rn_std_msg_string_get_data(&mut mem, message, 64, len).unwrap();
        assert_eq!(mem.read_bytes(64, len).unwrap(), text.as_bytes().to_vec());
    }
}

#[test]
fn bad_string_arguments_surface_memory_errors() {
    let mut state = RosData::new();
    let mut mem = GuestMemory::new(16);
    let ctx = state.rn_get_default_context();
    assert_eq!(
        state.rn_create_node(&mem, ctx, 8, 12).unwrap_err(),
        BridgeError::OutOfRange
    );
    // A clipped write leaves a lone lead byte: not text.
    set_memory_to_string(&mut mem, 0, 1, "é").unwrap();
    assert_eq!(
        state.rn_create_node(&mem, ctx, 0, 1).unwrap_err(),
        BridgeError::InvalidText
    );
    let message = state.rn_std_msg_string_default();
    assert_eq!(
        state.rn_std_msg_string_set_data(&mem, message, 8, 12).unwrap_err(),
        BridgeError::OutOfRange
    );
    assert_eq!(
        state.rn_std_msg_string_get_data(&mut mem, message, 15, 4).unwrap_err(),
        BridgeError::OutOfRange
    );
}

#[test]
fn spin_validates_the_node_handle() {
    let mut state = RosData::new();
    let mut mem = GuestMemory::new(32);
    let ctx = state.rn_get_default_context();
    let (name_ptr, name_len) = put(&mut mem, 0, "node");
    let node = state.rn_create_node(&mem, ctx, name_ptr, name_len).unwrap();
    assert!(state.rn_node_spin(node).is_ok());
    assert_eq!(
        state.rn_node_spin(ros2_rust_wasm::RNNode::Handle(999)).unwrap_err(),
        BridgeError::UnknownHandle
    );
}

#[test]
fn get_data_into_a_short_window_is_clipped() {
    let mut state = RosData::new();
    let mut mem = GuestMemory::from_bytes(vec![9u8; 16]);
    let message = state.rn_std_msg_string_default();
    let (data_ptr, data_len) = put(&mut mem, 0, "abcdef");
    state.rn_std_msg_string_set_data(&mem, message, data_ptr, data_len).unwrap();
    // Ask for only three bytes: exactly three bytes land, nothing else moves.
    state.rn_std_msg_string_get_data(&mut mem, message, 10, 3).unwrap();
    assert_eq!(
        mem.read_bytes(8, 8).unwrap(),
        vec![9, 9, b'a', b'b', b'c', 9, 9, 9]
    );
}
