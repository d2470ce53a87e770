use discord_mpv_rpc::ipc::{property_request, reply_outcome, IpcError};

#[test]
fn request_lines() {
    assert_eq!(property_request("time-pos"), "{\"command\":[\"get_property\",\"time-pos\"]}\n");
    assert_eq!(
        property_request("a\"b"),
        "{\"command\":[\"get_property\",\"a\\\"b\"]}\n"
    );
}

#[test]
fn zero_bytes_is_connection_closed() {
    assert_eq!(reply_outcome::<bool>(0, None), Err(IpcError::ConnectionClosed));
    assert_eq!(reply_outcome(0, Some(Some(true))), Err(IpcError::ConnectionClosed));
}

#[test]
fn reply_kinds() {
    assert_eq!(reply_outcome::<bool>(5, None), Err(IpcError::Decode));
    assert_eq!(reply_outcome::<bool>(12, Some(None)), Ok(None));
    assert_eq!(reply_outcome(20, Some(Some(3u64))), Ok(Some(3)));
}

#[test]
fn plain_name_is_quoted_as_is() {
    assert_eq!(property_request("pause"), "{\"command\":[\"get_property\",\"pause\"]}\n");
}
