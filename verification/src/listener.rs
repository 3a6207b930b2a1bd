//! What a listener does with what it receives, and what is counted and logged about it.

use crate::config::Config;
use crate::errors::DhcpError;
use crate::metrics::{
    DhcpPacketDropped, DhcpV6ListenerUnavailable, DhcpV6ReplySent, DhcpV6RequestDropped,
    DhcpV6RequestReceived, DropReason, MessageTypeLabel, V6DropReason, V6ReplyMessageType,
};
use crate::reply::PacketV6;
use crate::request::DecodedPacketV6;
use crate::text::push_decimal;
#[allow(unused_imports)]
use crate::{
    errors::error_text,
    metrics::{drop_reason, label_v6, v6_drop_reason},
    text::{decimal_text, decimal_value, law_decimal_text_reads_back, text_of},
};
use vstd::prelude::*;
use vstd::string::StringExecFns;

verus! {

/// How many packets of one family are handled at the same time.
pub const MAX_PARALLEL_PACKET_HANDLING_ALLOWED: usize = 128;

/// The length of the fixed part of a DHCPv4 packet.
pub const MINIMUM_DHCP_PKT_SIZE: usize = 236;

/// Whether a DHCPv4 drop has this reason and this text.
pub open spec fn drops(event: DhcpPacketDropped, reason: DropReason, error: Seq<char>) -> bool {
    event.reason == reason && event.error@ == error
}

/// Whether a DHCPv6 drop has this reason and this text.
pub open spec fn drops_v6(
    event: DhcpV6RequestDropped,
    reason: V6DropReason,
    error: Seq<char>,
) -> bool {
    event.reason == reason && event.error@ == error
}

/// How a packet that is too short is told of.
pub open spec fn too_short_text(length: nat) -> Seq<char> {
    decimal_text(length) + " bytes is below the 236-byte minimum"@
}

/// A packet that is too short is told of with its length and the length that it lacks.
pub proof fn law_short_packets_tell_their_length(length: nat)
    ensures
        exists|digits: Seq<char>|
            {
                &&& #[trigger] decimal_value(digits) == length
                &&& too_short_text(length) == digits + " bytes is below the 236-byte minimum"@
            },
{
    law_decimal_text_reads_back(length);
}

/// Room goes before length, for a DHCPv4 listener: it serves a packet exactly when there is room for
/// it and it is at least as long as the fixed part of one, and it drops every other, for want of
/// room if there is none and for its length otherwise.
pub proof fn law_room_goes_before_length(has_room: bool, length: usize, action: V4ReceiveAction)
    requires
        call_ensures(receive_v4, (ReceiveEvent::Received { has_room, length },), action),
    ensures
        action is Serve <==> has_room && length >= 236,
        !has_room ==> action is Drop && action->Drop_0.reason is RateLimited
            && action->Drop_0.error@ == "parallel packet handling limit reached"@,
        has_room && length < 236 ==> action is Drop && action->Drop_0.reason is TooShort
            && action->Drop_0.error@ == too_short_text(length as nat),
{
}

/// How a packet that is too short is told of.
fn too_short(length: usize) -> (event: DhcpPacketDropped)
    ensures
        drops(event, DropReason::TooShort, too_short_text(length as nat)),
{
    let mut error = String::new();
    push_decimal(&mut error, length as u64);
    error.append(" bytes is below the 236-byte minimum");
    assert(error@ == too_short_text(length as nat));
    DhcpPacketDropped { reason: DropReason::TooShort, error }
}

/// Take in a DHCPv4 packet of `length` octets, if there is room for it and it is not too short.
/// Room comes first.
pub fn admit_v4(has_room: bool, length: usize) -> (result: Result<(), DhcpPacketDropped>)
    ensures
        match result {
            Ok(_) => has_room && length >= MINIMUM_DHCP_PKT_SIZE,
            Err(event) => if !has_room {
                drops(event, DropReason::RateLimited, "parallel packet handling limit reached"@)
            } else {
                &&& length < MINIMUM_DHCP_PKT_SIZE
                &&& drops(event, DropReason::TooShort, too_short_text(length as nat))
            },
        },
        result is Ok <==> has_room && length >= 236,
{
    if !has_room {
        return Err(
            DhcpPacketDropped {
                reason: DropReason::RateLimited,
                error: "parallel packet handling limit reached".to_owned(),
            },
        );
    }
    if length < MINIMUM_DHCP_PKT_SIZE {
        return Err(too_short(length));
    }
    Ok(())
}

/// Take in a DHCPv6 packet, if there is room for it. It may be as short as its header.
pub fn admit_v6(has_room: bool) -> (result: Result<(), DhcpV6RequestDropped>)
    ensures
        match result {
            Ok(_) => has_room,
            Err(event) => !has_room && drops_v6(
                event,
                V6DropReason::RateLimited,
                "parallel packet handling limit reached"@,
            ),
        },
{
    if !has_room {
        return Err(
            DhcpV6RequestDropped {
                reason: V6DropReason::RateLimited,
                error: "parallel packet handling limit reached".to_owned(),
            },
        );
    }
    Ok(())
}

/// Check where a DHCPv4 packet came from and return its operation code.
pub fn check_v4_packet(source: &str, is_ipv4: bool, packet: &[u8]) -> (result: Result<
    u8,
    DhcpPacketDropped,
>)
    ensures
        match result {
            Ok(operation) => is_ipv4 && packet@.len() > 0 && operation == packet@[0],
            Err(event) => if !is_ipv4 {
                drops(
                    event,
                    DropReason::NotIpv4,
                    "source address "@ + source@ + " is not IPv4"@,
                )
            } else {
                &&& packet@.len() == 0
                &&& drops(event, DropReason::TooShort, too_short_text(0))
            },
        },
{
    if !is_ipv4 {
        let mut error = "source address ".to_owned();
        error.append(source);
        error.append(" is not IPv4");
        return Err(DhcpPacketDropped { reason: DropReason::NotIpv4, error });
    }
    if packet.len() == 0 {
        return Err(too_short(0));
    }
    Ok(packet[0])
}

/// The drop of a DHCPv4 packet that could not be served.
pub fn dropped_v4(error: &DhcpError) -> (event: DhcpPacketDropped)
    ensures
        drops(event, drop_reason(error), error_text(error@)),
{
    DhcpPacketDropped { reason: DropReason::from(error), error: error.message() }
}

/// The drop of a DHCPv4 reply that could not be sent.
pub fn unsent_v4(error: String) -> (event: DhcpPacketDropped)
    ensures
        drops(event, DropReason::SendFailed, error@),
{
    DhcpPacketDropped { reason: DropReason::SendFailed, error }
}

/// The drop of a packet on a DHCPv6 socket that came from no IPv6 address.
pub fn not_from_ipv6(source: &str) -> (event: DhcpV6RequestDropped)
    ensures
        drops_v6(
            event,
            V6DropReason::InvalidPacket,
            "source address "@ + source@ + " is not IPv6"@,
        ),
{
    let mut error = "source address ".to_owned();
    error.append(source);
    error.append(" is not IPv6");
    DhcpV6RequestDropped { reason: V6DropReason::InvalidPacket, error }
}

/// What becomes of a DHCPv6 request that was processed.
#[derive(Debug)]
pub enum V6Disposition {
    /// It is dropped, and the drop is counted.
    Drop(DhcpV6RequestDropped),
    /// It is discarded as the protocol wants it, and nothing is counted.
    Discard,
    /// The packet is sent to where the request came from.
    Send(PacketV6),
}

/// Decide what becomes of a DHCPv6 request that was processed.
pub fn dispose_v6(result: Result<Option<PacketV6>, DhcpError>) -> (disposition: V6Disposition)
    ensures
        match result {
            Ok(Some(packet)) => disposition == V6Disposition::Send(packet),
            Ok(None) => disposition is Discard,
            Err(error) => {
                &&& disposition matches V6Disposition::Drop(event)
                &&& drops_v6(event, v6_drop_reason(&error), error_text(error@))
            },
        },
{
    match result {
        Ok(Some(packet)) => V6Disposition::Send(packet),
        Ok(None) => V6Disposition::Discard,
        Err(error) => V6Disposition::Drop(
            DhcpV6RequestDropped { reason: V6DropReason::from(&error), error: error.message() },
        ),
    }
}

/// What is counted once a DHCPv6 reply was handed to the socket.
#[derive(Debug)]
pub enum V6SendEvent {
    Sent(DhcpV6ReplySent),
    Failed(DhcpV6RequestDropped),
}

/// Count a DHCPv6 reply that was sent, or that could not be sent for the reason given.
pub fn sent_v6(message_type: V6ReplyMessageType, failure: Option<String>) -> (event: V6SendEvent)
    ensures
        match failure {
            None => event == V6SendEvent::Sent(DhcpV6ReplySent { message_type }),
            Some(error) => {
                &&& event matches V6SendEvent::Failed(dropped)
                &&& drops_v6(dropped, V6DropReason::SendFailed, error@)
            },
        },
{
    match failure {
        None => V6SendEvent::Sent(DhcpV6ReplySent { message_type }),
        Some(error) => V6SendEvent::Failed(
            DhcpV6RequestDropped { reason: V6DropReason::SendFailed, error },
        ),
    }
}

/// What is counted about a DHCPv6 request that could be decoded.
pub fn received_v6(request: &DecodedPacketV6) -> (event: DhcpV6RequestReceived)
    ensures
        event.message_type == label_v6(request@.message.msg_type),
{
    DhcpV6RequestReceived { message_type: MessageTypeLabel::from(request.message.msg_type) }
}

/// The interface whose time of service is recorded: a DPU's own. A controller records none.
pub fn timestamped_interface(config: &Config) -> (interface: Option<String>)
    ensures
        text_of(interface) == (match config.host_config {
            Some(host) => Some(host.host_interface_id@),
            None => None,
        }),
{
    match config.host_config() {
        Some(host_config) => Some(host_config.host_interface_id.clone()),
        None => None,
    }
}

/// Something that happened while a listener waited for a packet.
#[derive(Debug, Clone, Copy, PartialEq, Eq, Structural)]
pub enum ReceiveEvent {
    Cancelled,
    Failed,
    /// A packet of some length came in, and there was room for it or not.
    Received { has_room: bool, length: usize },
}

/// What a DHCPv4 listener does about it.
#[derive(Debug)]
pub enum V4ReceiveAction {
    Stop,
    RecreateSocket,
    Drop(DhcpPacketDropped),
    Serve,
}

/// Decide what a DHCPv4 listener does. A socket that failed once is not trusted again.
pub fn receive_v4(event: ReceiveEvent) -> (action: V4ReceiveAction)
    ensures
        match event {
            ReceiveEvent::Cancelled => action is Stop,
            ReceiveEvent::Failed => action is RecreateSocket,
            ReceiveEvent::Received { has_room, length } => match action {
                V4ReceiveAction::Serve => has_room && length >= MINIMUM_DHCP_PKT_SIZE,
                V4ReceiveAction::Drop(dropped) => if !has_room {
                    drops(
                        dropped,
                        DropReason::RateLimited,
                        "parallel packet handling limit reached"@,
                    )
                } else {
                    &&& length < MINIMUM_DHCP_PKT_SIZE
                    &&& drops(dropped, DropReason::TooShort, too_short_text(length as nat))
                },
                _ => false,
            },
        },
{
    match event {
        ReceiveEvent::Cancelled => V4ReceiveAction::Stop,
        ReceiveEvent::Failed => V4ReceiveAction::RecreateSocket,
        ReceiveEvent::Received { has_room, length } => match admit_v4(has_room, length) {
            Ok(_) => V4ReceiveAction::Serve,
            Err(dropped) => V4ReceiveAction::Drop(dropped),
        },
    }
}

/// What a DHCPv6 listener does about it.
#[derive(Debug)]
pub enum V6ReceiveAction {
    Stop,
    RecreateSocket,
    Drop(DhcpV6RequestDropped),
    Serve,
}

/// Decide what a DHCPv6 listener does.
pub fn receive_v6(event: ReceiveEvent) -> (action: V6ReceiveAction)
    ensures
        match event {
            ReceiveEvent::Cancelled => action is Stop,
            ReceiveEvent::Failed => action is RecreateSocket,
            ReceiveEvent::Received { has_room, .. } => match action {
                V6ReceiveAction::Serve => has_room,
                V6ReceiveAction::Drop(dropped) => !has_room && drops_v6(
                    dropped,
                    V6DropReason::RateLimited,
                    "parallel packet handling limit reached"@,
                ),
                _ => false,
            },
        },
{
    match event {
        ReceiveEvent::Cancelled => V6ReceiveAction::Stop,
        ReceiveEvent::Failed => V6ReceiveAction::RecreateSocket,
        ReceiveEvent::Received { has_room, .. } => match admit_v6(has_room) {
            Ok(_) => V6ReceiveAction::Serve,
            Err(dropped) => V6ReceiveAction::Drop(dropped),
        },
    }
}

/// When a DHCPv6 listener asks for a socket.
#[derive(Debug, Clone, Copy, PartialEq, Eq, Structural)]
pub enum SocketOccasion {
    Start,
    Recreation,
}

/// Why a DHCPv6 listener ends without a socket. DHCPv4 service on the interface goes on.
pub fn v6_socket_unavailable(occasion: SocketOccasion, interface_name: String, error: String) -> (
event: DhcpV6ListenerUnavailable)
    ensures
        event == (match occasion {
            SocketOccasion::Start => DhcpV6ListenerUnavailable::InitialSocketSetup {
                interface_name,
                error,
            },
            SocketOccasion::Recreation => DhcpV6ListenerUnavailable::SocketRecreation {
                interface_name,
                error,
            },
        }),
{
    match occasion {
        SocketOccasion::Start => DhcpV6ListenerUnavailable::InitialSocketSetup {
            interface_name,
            error,
        },
        SocketOccasion::Recreation => DhcpV6ListenerUnavailable::SocketRecreation {
            interface_name,
            error,
        },
    }
}

/// A DHCPv6 listener serves every packet that there is room for, however short, and drops every other
/// for want of room. Neither listener goes on after a cancellation, nor trusts a socket that failed.
pub proof fn law_listeners_stop_and_start_over(
    event: ReceiveEvent,
    v4: V4ReceiveAction,
    v6: V6ReceiveAction,
)
    requires
        call_ensures(receive_v4, (event,), v4),
        call_ensures(receive_v6, (event,), v6),
    ensures
        v4 is Stop <==> event is Cancelled,
        v6 is Stop <==> event is Cancelled,
        v4 is RecreateSocket <==> event is Failed,
        v6 is RecreateSocket <==> event is Failed,
        v6 is Serve <==> event is Received && event->has_room,
        v6 matches V6ReceiveAction::Drop(dropped) ==> dropped.reason is RateLimited
            && dropped.error@ == "parallel packet handling limit reached"@,
{
}

/// A DHCPv4 packet from an IPv4 address is known by its first octet. One from elsewhere is dropped
/// with its sender, and one without an octet for its length.
pub proof fn law_v4_packets_are_known_by_their_operation(
    source: &str,
    is_ipv4: bool,
    packet: &[u8],
    result: Result<u8, DhcpPacketDropped>,
)
    requires
        call_ensures(check_v4_packet, (source, is_ipv4, packet), result),
    ensures
        result is Ok <==> is_ipv4 && packet@.len() > 0,
        result matches Ok(operation) ==> operation == packet@[0],
        !is_ipv4 ==> result->Err_0.reason is NotIpv4 && result->Err_0.error@ == "source address "@
            + source@ + " is not IPv4"@,
        is_ipv4 && packet@.len() == 0 ==> result->Err_0.reason is TooShort
            && result->Err_0.error@ == too_short_text(0),
{
}

/// Every DHCPv6 request that was processed is sent its packet, discarded or dropped, and only a drop
/// is for an error: it is counted under the error's reason and told with the error's text.
pub proof fn law_every_request_is_disposed_of(
    result: Result<Option<PacketV6>, DhcpError>,
    disposition: V6Disposition,
)
    requires
        call_ensures(dispose_v6, (result,), disposition),
    ensures
        disposition is Drop <==> result is Err,
        disposition is Discard <==> result is Ok && result->Ok_0 is None,
        disposition is Send <==> result is Ok && result->Ok_0 is Some,
        disposition matches V6Disposition::Send(packet) ==> packet@ == result->Ok_0->Some_0@,
        disposition matches V6Disposition::Drop(event) ==> {
            &&& event.reason == v6_drop_reason(&result->Err_0)
            &&& event.error@ == error_text(result->Err_0@)
        },
{
}

/// A reply that was handed to the socket is counted once: as sent, under its own type, or as dropped,
/// with the reason.
pub proof fn law_every_reply_is_counted(
    message_type: V6ReplyMessageType,
    failure: Option<String>,
    event: V6SendEvent,
)
    requires
        call_ensures(sent_v6, (message_type, failure), event),
    ensures
        event is Sent <==> failure is None,
        event matches V6SendEvent::Sent(sent) ==> sent.message_type == message_type,
        event matches V6SendEvent::Failed(dropped) ==> dropped.reason is SendFailed
            && dropped.error@ == failure->Some_0@,
{
}

/// A DHCPv4 drop is counted under its error's reason and told with its error's text, and a reply that
/// could not be sent is told with what the socket said.
pub proof fn law_v4_drops_tell_their_error(
    error: &DhcpError,
    refusal: String,
    dropped: DhcpPacketDropped,
    unsent: DhcpPacketDropped,
)
    requires
        call_ensures(dropped_v4, (error,), dropped),
        call_ensures(unsent_v4, (refusal,), unsent),
    ensures
        dropped.reason == drop_reason(error),
        dropped.error@ == error_text(error@),
        unsent.reason is SendFailed,
        unsent.error@ == refusal@,
        dropped.reason != unsent.reason,
{
}

} // verus!
