use drogue_esp8266::protocol::{route, Destination, FirmwareInfo, Response};

#[test]
fn command_results_go_to_the_response_queue() {
    let replies = vec![
        Response::Okay,
        Response::Error,
        Response::FirmwareInfo(FirmwareInfo { major: 1, minor: 7, patch: 4, build: 0 }),
        Response::Connect(2),
        Response::ReadyForData,
        Response::ReceivedDataToSend(12),
        Response::DataReceived(vec![1, 2, 3]),
        Response::SendOk,
        Response::SendFail,
        Response::WifiConnectionFailure(3),
        Response::IpAddress([192, 168, 1, 10]),
        Response::Resolvers([8, 8, 8, 8], [1, 1, 1, 1]),
        Response::DnsFail,
        Response::UnlinkFail,
        Response::IpAddresses([10, 0, 0, 2], [10, 0, 0, 1], [255, 255, 255, 0]),
    ];
    for r in &replies {
        assert_eq!(route(r), Destination::ResponseQueue);
    }
}

#[test]
fn link_events_go_to_the_notification_queue() {
    assert_eq!(route(&Response::Closed(0)), Destination::NotificationQueue);
    assert_eq!(
        route(&Response::DataAvailable { link_id: 1, len: 64 }),
        Destination::NotificationQueue
    );
}

#[test]
fn control_plane_events_are_only_logged() {
    assert_eq!(route(&Response::WifiConnected), Destination::LogOnly);
    assert_eq!(route(&Response::WifiDisconnect), Destination::LogOnly);
    assert_eq!(route(&Response::GotIp), Destination::LogOnly);
}

#[test]
fn the_empty_response_is_ignored() {
    assert_eq!(route(&Response::Nothing), Destination::Ignore);
}
