//! The closed set of parsed protocol events and their routing classes.
use vstd::prelude::*;

verus! {

/// Firmware version reported by the modem.
#[derive(Debug, Clone, Copy, PartialEq, Eq)]
pub struct FirmwareInfo {
    pub major: u8,
    pub minor: u8,
    pub patch: u8,
    pub build: u8,
}

/// One structured protocol event recognised by the parser.
#[derive(Debug, Clone, PartialEq, Eq)]
pub enum Response {
    /// Nothing was recognised.
    Nothing,
    Okay,
    Error,
    FirmwareInfo(FirmwareInfo),
    /// A link was established; carries the link id.
    Connect(usize),
    ReadyForData,
    /// The modem accepted this many bytes for sending.
    ReceivedDataToSend(usize),
    /// Payload bytes delivered in reply to a read command.
    DataReceived(Vec<u8>),
    SendOk,
    SendFail,
    /// Joining the access point failed; carries the modem's reason code.
    WifiConnectionFailure(u8),
    IpAddress([u8; 4]),
    /// Primary and secondary DNS servers.
    Resolvers([u8; 4], [u8; 4]),
    DnsFail,
    UnlinkFail,
    /// Station address, gateway and netmask.
    IpAddresses([u8; 4], [u8; 4], [u8; 4]),
    /// The peer closed the given link.
    Closed(usize),
    /// Bytes are waiting on a link.
    DataAvailable { link_id: usize, len: usize },
    WifiConnected,
    WifiDisconnect,
    GotIp,
}

/// Where the ingestion pipeline sends a parsed response.
#[derive(Debug, Clone, Copy, PartialEq, Eq)]
pub enum Destination {
    /// The bounded channel of synchronous command results.
    ResponseQueue,
    /// The bounded channel of unsolicited asynchronous events.
    NotificationQueue,
    /// Control-plane events that no consumer waits for: logged, then dropped.
    LogOnly,
    /// Nothing to do.
    Ignore,
}

/// A reply that correlates with the command most recently issued.
pub open spec fn is_command_result(r: Response) -> bool {
    r is Okay || r is Error || r is FirmwareInfo || r is Connect || r is ReadyForData
        || r is ReceivedDataToSend || r is DataReceived || r is SendOk || r is SendFail
        || r is WifiConnectionFailure || r is IpAddress || r is Resolvers || r is DnsFail
        || r is UnlinkFail || r is IpAddresses
}

/// An unsolicited event about the state of one link.
pub open spec fn is_notification(r: Response) -> bool {
    r is Closed || r is DataAvailable
}

/// A change of WiFi association that no consumer waits for.
pub open spec fn is_control_plane(r: Response) -> bool {
    r is WifiConnected || r is WifiDisconnect || r is GotIp
}

/// The destination of each class of response.
pub open spec fn destination_of(r: Response) -> Destination {
    if is_command_result(r) {
        Destination::ResponseQueue
    } else if is_notification(r) {
        Destination::NotificationQueue
    } else if is_control_plane(r) {
        Destination::LogOnly
    } else {
        Destination::Ignore
    }
}

/// Classifies a response; every variant is named, so a new variant cannot
/// fall into a class silently.
pub fn route(r: &Response) -> (d: Destination)
    ensures
        d == destination_of(*r),
{
    match r {
        Response::Nothing => Destination::Ignore,
        Response::Okay
        | Response::Error
        | Response::FirmwareInfo(..)
        | Response::Connect(..)
        | Response::ReadyForData
        | Response::ReceivedDataToSend(..)
        | Response::DataReceived(..)
        | Response::SendOk
        | Response::SendFail
        | Response::WifiConnectionFailure(..)
        | Response::IpAddress(..)
        | Response::Resolvers(..)
        | Response::DnsFail
        | Response::UnlinkFail
        | Response::IpAddresses(..) => Destination::ResponseQueue,
        Response::Closed(..) | Response::DataAvailable { .. } => Destination::NotificationQueue,
        Response::WifiConnected | Response::WifiDisconnect | Response::GotIp => Destination::LogOnly,
    }
}

/// Routing is total and exclusive: every response lies in exactly one of the
/// four classes, the empty response alone is ignored, and the destination is
/// the one of its class.
pub proof fn lemma_routing_exhaustive(r: Response)
    ensures
        is_command_result(r) || is_notification(r) || is_control_plane(r) || r is Nothing,
        !(is_command_result(r) && is_notification(r)),
        !(is_command_result(r) && is_control_plane(r)),
        !(is_notification(r) && is_control_plane(r)),
        r is Nothing ==> !is_command_result(r) && !is_notification(r) && !is_control_plane(r),
        is_command_result(r) <==> destination_of(r) == Destination::ResponseQueue,
        is_notification(r) <==> destination_of(r) == Destination::NotificationQueue,
        is_control_plane(r) <==> destination_of(r) == Destination::LogOnly,
        r is Nothing <==> destination_of(r) == Destination::Ignore,
{
}

} // verus!
