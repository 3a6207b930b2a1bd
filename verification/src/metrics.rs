//! What is counted and logged about packets and sockets.
//!
//! A drop is the operational error, so one value says both which counter moves and what is logged.
//! Interface names, paths and error texts go to the log and never become labels.

use crate::address::Ipv4Addr;
use crate::errors::DhcpError;
use crate::message::{MessageType, MessageTypeV4};
use vstd::prelude::*;

verus! {

/// The DHCP message type of a packet, as a bounded metric label. Extensions and unknown codes
/// count as `Other`.
#[derive(Debug, Clone, Copy, PartialEq, Eq, Structural)]
pub enum MessageTypeLabel {
    Discover,
    Solicit,
    Request,
    Renew,
    Rebind,
    Confirm,
    InformationRequest,
    Offer,
    Advertise,
    Ack,
    Nak,
    Reply,
    Release,
    Decline,
    Inform,
    Other,
}

impl MessageTypeLabel {
    /// The message type as a metric label.
    pub fn label(self) -> (label: &'static str)
        ensures
            label@ == (match self {
                MessageTypeLabel::Discover => "discover"@,
                MessageTypeLabel::Solicit => "solicit"@,
                MessageTypeLabel::Request => "request"@,
                MessageTypeLabel::Renew => "renew"@,
                MessageTypeLabel::Rebind => "rebind"@,
                MessageTypeLabel::Confirm => "confirm"@,
                MessageTypeLabel::InformationRequest => "information_request"@,
                MessageTypeLabel::Offer => "offer"@,
                MessageTypeLabel::Advertise => "advertise"@,
                MessageTypeLabel::Ack => "ack"@,
                MessageTypeLabel::Nak => "nak"@,
                MessageTypeLabel::Reply => "reply"@,
                MessageTypeLabel::Release => "release"@,
                MessageTypeLabel::Decline => "decline"@,
                MessageTypeLabel::Inform => "inform"@,
                MessageTypeLabel::Other => "other"@,
            }),
    {
        match self {
            MessageTypeLabel::Discover => "discover",
            MessageTypeLabel::Solicit => "solicit",
            MessageTypeLabel::Request => "request",
            MessageTypeLabel::Renew => "renew",
            MessageTypeLabel::Rebind => "rebind",
            MessageTypeLabel::Confirm => "confirm",
            MessageTypeLabel::InformationRequest => "information_request",
            MessageTypeLabel::Offer => "offer",
            MessageTypeLabel::Advertise => "advertise",
            MessageTypeLabel::Ack => "ack",
            MessageTypeLabel::Nak => "nak",
            MessageTypeLabel::Reply => "reply",
            MessageTypeLabel::Release => "release",
            MessageTypeLabel::Decline => "decline",
            MessageTypeLabel::Inform => "inform",
            MessageTypeLabel::Other => "other",
        }
    }
}

/// The label of a DHCPv6 message type.
pub open spec fn label_v6(value: MessageType) -> MessageTypeLabel {
    match value {
        MessageType::Solicit => MessageTypeLabel::Solicit,
        MessageType::Request => MessageTypeLabel::Request,
        MessageType::Renew => MessageTypeLabel::Renew,
        MessageType::Rebind => MessageTypeLabel::Rebind,
        MessageType::Confirm => MessageTypeLabel::Confirm,
        MessageType::InformationRequest => MessageTypeLabel::InformationRequest,
        MessageType::Advertise => MessageTypeLabel::Advertise,
        MessageType::Reply => MessageTypeLabel::Reply,
        MessageType::Release => MessageTypeLabel::Release,
        MessageType::Decline => MessageTypeLabel::Decline,
        _ => MessageTypeLabel::Other,
    }
}

impl From<MessageType> for MessageTypeLabel {
    fn from(value: MessageType) -> (label: Self) {
        match value {
            MessageType::Solicit => MessageTypeLabel::Solicit,
            MessageType::Request => MessageTypeLabel::Request,
            MessageType::Renew => MessageTypeLabel::Renew,
            MessageType::Rebind => MessageTypeLabel::Rebind,
            MessageType::Confirm => MessageTypeLabel::Confirm,
            MessageType::InformationRequest => MessageTypeLabel::InformationRequest,
            MessageType::Advertise => MessageTypeLabel::Advertise,
            MessageType::Reply => MessageTypeLabel::Reply,
            MessageType::Release => MessageTypeLabel::Release,
            MessageType::Decline => MessageTypeLabel::Decline,
            _ => MessageTypeLabel::Other,
        }
    }
}

impl vstd::std_specs::convert::FromSpecImpl<MessageType> for MessageTypeLabel {
    open spec fn obeys_from_spec() -> bool {
        true
    }

    open spec fn from_spec(value: MessageType) -> Self {
        label_v6(value)
    }
}

/// A DHCPv6 label stands for the message type of its name and for no other; the types without a label
/// of their own share the one that is left.
pub proof fn law_v6_labels_tell_the_type(value: MessageType)
    ensures
        ({
            let label = label_v6(value);
            &&& label is Solicit <==> value is Solicit
            &&& label is Request <==> value is Request
            &&& label is Renew <==> value is Renew
            &&& label is Rebind <==> value is Rebind
            &&& label is Confirm <==> value is Confirm
            &&& label is InformationRequest <==> value is InformationRequest
            &&& label is Advertise <==> value is Advertise
            &&& label is Reply <==> value is Reply
            &&& label is Release <==> value is Release
            &&& label is Decline <==> value is Decline
            &&& !(label is Discover)
            &&& !(label is Offer)
            &&& !(label is Ack)
            &&& !(label is Nak)
            &&& !(label is Inform)
        }),
{
}

/// The label of a DHCPv4 message type.
pub open spec fn label_v4(value: MessageTypeV4) -> MessageTypeLabel {
    match value {
        MessageTypeV4::Discover => MessageTypeLabel::Discover,
        MessageTypeV4::Request => MessageTypeLabel::Request,
        MessageTypeV4::Offer => MessageTypeLabel::Offer,
        MessageTypeV4::Ack => MessageTypeLabel::Ack,
        MessageTypeV4::Nak => MessageTypeLabel::Nak,
        MessageTypeV4::Release => MessageTypeLabel::Release,
        MessageTypeV4::Decline => MessageTypeLabel::Decline,
        MessageTypeV4::Inform => MessageTypeLabel::Inform,
        _ => MessageTypeLabel::Other,
    }
}

impl From<MessageTypeV4> for MessageTypeLabel {
    fn from(value: MessageTypeV4) -> (label: Self) {
        match value {
            MessageTypeV4::Discover => MessageTypeLabel::Discover,
            MessageTypeV4::Request => MessageTypeLabel::Request,
            MessageTypeV4::Offer => MessageTypeLabel::Offer,
            MessageTypeV4::Ack => MessageTypeLabel::Ack,
            MessageTypeV4::Nak => MessageTypeLabel::Nak,
            MessageTypeV4::Release => MessageTypeLabel::Release,
            MessageTypeV4::Decline => MessageTypeLabel::Decline,
            MessageTypeV4::Inform => MessageTypeLabel::Inform,
            _ => MessageTypeLabel::Other,
        }
    }
}

impl vstd::std_specs::convert::FromSpecImpl<MessageTypeV4> for MessageTypeLabel {
    open spec fn obeys_from_spec() -> bool {
        true
    }

    open spec fn from_spec(value: MessageTypeV4) -> Self {
        label_v4(value)
    }
}

/// A DHCPv4 label stands for the message type of its name and for no other; the types without a label
/// of their own share the one that is left.
pub proof fn law_v4_labels_tell_the_type(value: MessageTypeV4)
    ensures
        ({
            let label = label_v4(value);
            &&& label is Discover <==> value is Discover
            &&& label is Request <==> value is Request
            &&& label is Offer <==> value is Offer
            &&& label is Ack <==> value is Ack
            &&& label is Nak <==> value is Nak
            &&& label is Release <==> value is Release
            &&& label is Decline <==> value is Decline
            &&& label is Inform <==> value is Inform
            &&& !(label is Solicit)
            &&& !(label is Renew)
            &&& !(label is Rebind)
            &&& !(label is Confirm)
            &&& !(label is InformationRequest)
            &&& !(label is Advertise)
            &&& !(label is Reply)
        }),
{
}

/// Why a packet was dropped, as a bounded metric label: one for each [`DhcpError`], and those of
/// the drops that never make an error.
#[derive(Debug, Clone, Copy, PartialEq, Eq, Structural)]
pub enum DropReason {
    RateLimited,
    TooShort,
    NotIpv4,
    SendFailed,
    IoError,
    ConfigParseFailure,
    MissingArgument,
    MissingOption,
    UnhandledMessageType,
    DhcpDeclineMessage,
    MissingRelayCode,
    InvalidInput,
    GenericError,
    UpstreamApiError,
    Utf8Error,
    PacketDecodeFailure,
    PacketEncodeFailure,
    AddressParseError,
    NonRelayedPacket,
    UnknownPacket,
    NotMyPacket,
    VendorClassParseError,
    MultipleInterfaces,
    MissingOptionV6,
    UnhandledMessageTypeV6,
    MalformedDuid,
    UnsupportedDuid,
    NoMacNoOption79,
    NestedRelayV6,
    RelayHopCountExceededV6,
}

impl DropReason {
    /// The reason as a metric label.
    pub fn label(self) -> (label: &'static str)
        ensures
            label@ == (match self {
                DropReason::RateLimited => "rate_limited"@,
                DropReason::TooShort => "too_short"@,
                DropReason::NotIpv4 => "not_ipv4"@,
                DropReason::SendFailed => "send_failed"@,
                DropReason::IoError => "io_error"@,
                DropReason::ConfigParseFailure => "config_parse_failure"@,
                DropReason::MissingArgument => "missing_argument"@,
                DropReason::MissingOption => "missing_option"@,
                DropReason::UnhandledMessageType => "unhandled_message_type"@,
                DropReason::DhcpDeclineMessage => "dhcp_decline_message"@,
                DropReason::MissingRelayCode => "missing_relay_code"@,
                DropReason::InvalidInput => "invalid_input"@,
                DropReason::GenericError => "generic_error"@,
                DropReason::UpstreamApiError => "upstream_api_error"@,
                DropReason::Utf8Error => "utf8_error"@,
                DropReason::PacketDecodeFailure => "packet_decode_failure"@,
                DropReason::PacketEncodeFailure => "packet_encode_failure"@,
                DropReason::AddressParseError => "address_parse_error"@,
                DropReason::NonRelayedPacket => "non_relayed_packet"@,
                DropReason::UnknownPacket => "unknown_packet"@,
                DropReason::NotMyPacket => "not_my_packet"@,
                DropReason::VendorClassParseError => "vendor_class_parse_error"@,
                DropReason::MultipleInterfaces => "multiple_interfaces"@,
                DropReason::MissingOptionV6 => "missing_option_v6"@,
                DropReason::UnhandledMessageTypeV6 => "unhandled_message_type_v6"@,
                DropReason::MalformedDuid => "malformed_duid"@,
                DropReason::UnsupportedDuid => "unsupported_duid"@,
                DropReason::NoMacNoOption79 => "no_mac_no_option79"@,
                DropReason::NestedRelayV6 => "nested_relay_v6"@,
                DropReason::RelayHopCountExceededV6 => "relay_hop_count_exceeded_v6"@,
            }),
    {
        match self {
            DropReason::RateLimited => "rate_limited",
            DropReason::TooShort => "too_short",
            DropReason::NotIpv4 => "not_ipv4",
            DropReason::SendFailed => "send_failed",
            DropReason::IoError => "io_error",
            DropReason::ConfigParseFailure => "config_parse_failure",
            DropReason::MissingArgument => "missing_argument",
            DropReason::MissingOption => "missing_option",
            DropReason::UnhandledMessageType => "unhandled_message_type",
            DropReason::DhcpDeclineMessage => "dhcp_decline_message",
            DropReason::MissingRelayCode => "missing_relay_code",
            DropReason::InvalidInput => "invalid_input",
            DropReason::GenericError => "generic_error",
            DropReason::UpstreamApiError => "upstream_api_error",
            DropReason::Utf8Error => "utf8_error",
            DropReason::PacketDecodeFailure => "packet_decode_failure",
            DropReason::PacketEncodeFailure => "packet_encode_failure",
            DropReason::AddressParseError => "address_parse_error",
            DropReason::NonRelayedPacket => "non_relayed_packet",
            DropReason::UnknownPacket => "unknown_packet",
            DropReason::NotMyPacket => "not_my_packet",
            DropReason::VendorClassParseError => "vendor_class_parse_error",
            DropReason::MultipleInterfaces => "multiple_interfaces",
            DropReason::MissingOptionV6 => "missing_option_v6",
            DropReason::UnhandledMessageTypeV6 => "unhandled_message_type_v6",
            DropReason::MalformedDuid => "malformed_duid",
            DropReason::UnsupportedDuid => "unsupported_duid",
            DropReason::NoMacNoOption79 => "no_mac_no_option79",
            DropReason::NestedRelayV6 => "nested_relay_v6",
            DropReason::RelayHopCountExceededV6 => "relay_hop_count_exceeded_v6",
        }
    }
}

/// The drop reason of an error.
pub open spec fn drop_reason(value: &DhcpError) -> DropReason {
    match value {
        DhcpError::IoError(_) => DropReason::IoError,
        DhcpError::SerdeYaml(_) => DropReason::ConfigParseFailure,
        DhcpError::MissingArgument(_) => DropReason::MissingArgument,
        DhcpError::MissingOption(_) => DropReason::MissingOption,
        DhcpError::UnhandledMessageType(_) => DropReason::UnhandledMessageType,
        DhcpError::DhcpDeclineMessage(_, _) => DropReason::DhcpDeclineMessage,
        DhcpError::MissingRelayCode(_) => DropReason::MissingRelayCode,
        DhcpError::InvalidInput(_) => DropReason::InvalidInput,
        DhcpError::GenericError(_) => DropReason::GenericError,
        DhcpError::TonicStatusError(_) => DropReason::UpstreamApiError,
        DhcpError::Utf8Error(_) => DropReason::Utf8Error,
        DhcpError::PacketDecodeFailure(_) => DropReason::PacketDecodeFailure,
        DhcpError::PacketEncodeFailure(_) => DropReason::PacketEncodeFailure,
        DhcpError::AddressParseError(_) => DropReason::AddressParseError,
        DhcpError::NonRelayedPacket(_) => DropReason::NonRelayedPacket,
        DhcpError::UnknownPacket(_) => DropReason::UnknownPacket,
        DhcpError::NotMyPacket(_) => DropReason::NotMyPacket,
        DhcpError::VendorClassParseError(_) => DropReason::VendorClassParseError,
        DhcpError::MultipleInterfacesProvidedOneSupported(_) => DropReason::MultipleInterfaces,
        DhcpError::MissingOptionV6(_) => DropReason::MissingOptionV6,
        DhcpError::UnhandledMessageTypeV6(_) => DropReason::UnhandledMessageTypeV6,
        DhcpError::MalformedDuid => DropReason::MalformedDuid,
        DhcpError::UnsupportedDuidType(_) => DropReason::UnsupportedDuid,
        DhcpError::NoMacNoOption79 => DropReason::NoMacNoOption79,
        DhcpError::NestedRelayV6 => DropReason::NestedRelayV6,
        DhcpError::RelayHopCountExceededV6(_) => DropReason::RelayHopCountExceededV6,
    }
}

impl From<&DhcpError> for DropReason {
    fn from(value: &DhcpError) -> (label: Self) {
        match value {
            DhcpError::IoError(_) => DropReason::IoError,
            DhcpError::SerdeYaml(_) => DropReason::ConfigParseFailure,
            DhcpError::MissingArgument(_) => DropReason::MissingArgument,
            DhcpError::MissingOption(_) => DropReason::MissingOption,
            DhcpError::UnhandledMessageType(_) => DropReason::UnhandledMessageType,
            DhcpError::DhcpDeclineMessage(_, _) => DropReason::DhcpDeclineMessage,
            DhcpError::MissingRelayCode(_) => DropReason::MissingRelayCode,
            DhcpError::InvalidInput(_) => DropReason::InvalidInput,
            DhcpError::GenericError(_) => DropReason::GenericError,
            DhcpError::TonicStatusError(_) => DropReason::UpstreamApiError,
            DhcpError::Utf8Error(_) => DropReason::Utf8Error,
            DhcpError::PacketDecodeFailure(_) => DropReason::PacketDecodeFailure,
            DhcpError::PacketEncodeFailure(_) => DropReason::PacketEncodeFailure,
            DhcpError::AddressParseError(_) => DropReason::AddressParseError,
            DhcpError::NonRelayedPacket(_) => DropReason::NonRelayedPacket,
            DhcpError::UnknownPacket(_) => DropReason::UnknownPacket,
            DhcpError::NotMyPacket(_) => DropReason::NotMyPacket,
            DhcpError::VendorClassParseError(_) => DropReason::VendorClassParseError,
            DhcpError::MultipleInterfacesProvidedOneSupported(_) => DropReason::MultipleInterfaces,
            DhcpError::MissingOptionV6(_) => DropReason::MissingOptionV6,
            DhcpError::UnhandledMessageTypeV6(_) => DropReason::UnhandledMessageTypeV6,
            DhcpError::MalformedDuid => DropReason::MalformedDuid,
            DhcpError::UnsupportedDuidType(_) => DropReason::UnsupportedDuid,
            DhcpError::NoMacNoOption79 => DropReason::NoMacNoOption79,
            DhcpError::NestedRelayV6 => DropReason::NestedRelayV6,
            DhcpError::RelayHopCountExceededV6(_) => DropReason::RelayHopCountExceededV6,
        }
    }
}

impl vstd::std_specs::convert::FromSpecImpl<&DhcpError> for DropReason {
    open spec fn obeys_from_spec() -> bool {
        true
    }

    open spec fn from_spec(value: &DhcpError) -> Self {
        drop_reason(value)
    }
}

/// Why the DHCPv6 transport rejected a packet before a safe response was possible.
#[derive(Debug, Clone, Copy, PartialEq, Eq, Structural)]
pub enum V6DropReason {
    InvalidPacket,
    NestedRelay,
    RelayHopCountExceeded,
    NoMacNoOption79,
    MalformedDuid,
    UnsupportedDuid,
    UnsupportedMessage,
    FetchMachineError,
    RateLimited,
    SendFailed,
}

impl V6DropReason {
    /// The reason as a metric label.
    pub fn label(self) -> (label: &'static str)
        ensures
            label@ == (match self {
                V6DropReason::InvalidPacket => "invalid_packet"@,
                V6DropReason::NestedRelay => "nested_relay"@,
                V6DropReason::RelayHopCountExceeded => "relay_hop_count_exceeded"@,
                V6DropReason::NoMacNoOption79 => "no_mac_no_option79"@,
                V6DropReason::MalformedDuid => "malformed_duid"@,
                V6DropReason::UnsupportedDuid => "unsupported_duid"@,
                V6DropReason::UnsupportedMessage => "unsupported_message"@,
                V6DropReason::FetchMachineError => "fetch_machine_error"@,
                V6DropReason::RateLimited => "rate_limited"@,
                V6DropReason::SendFailed => "send_failed"@,
            }),
    {
        match self {
            V6DropReason::InvalidPacket => "invalid_packet",
            V6DropReason::NestedRelay => "nested_relay",
            V6DropReason::RelayHopCountExceeded => "relay_hop_count_exceeded",
            V6DropReason::NoMacNoOption79 => "no_mac_no_option79",
            V6DropReason::MalformedDuid => "malformed_duid",
            V6DropReason::UnsupportedDuid => "unsupported_duid",
            V6DropReason::UnsupportedMessage => "unsupported_message",
            V6DropReason::FetchMachineError => "fetch_machine_error",
            V6DropReason::RateLimited => "rate_limited",
            V6DropReason::SendFailed => "send_failed",
        }
    }
}

/// The DHCPv6 drop reason of an error.
pub open spec fn v6_drop_reason(value: &DhcpError) -> V6DropReason {
    match value {
        DhcpError::NestedRelayV6 => V6DropReason::NestedRelay,
        DhcpError::RelayHopCountExceededV6(_) => V6DropReason::RelayHopCountExceeded,
        DhcpError::NoMacNoOption79 => V6DropReason::NoMacNoOption79,
        DhcpError::MalformedDuid => V6DropReason::MalformedDuid,
        DhcpError::UnsupportedDuidType(_) => V6DropReason::UnsupportedDuid,
        DhcpError::UnhandledMessageTypeV6(_) => V6DropReason::UnsupportedMessage,
        DhcpError::TonicStatusError(_) => V6DropReason::FetchMachineError,
        DhcpError::GenericError(_) => V6DropReason::FetchMachineError,
        _ => V6DropReason::InvalidPacket,
    }
}

impl From<&DhcpError> for V6DropReason {
    fn from(value: &DhcpError) -> (label: Self) {
        match value {
            DhcpError::NestedRelayV6 => V6DropReason::NestedRelay,
            DhcpError::RelayHopCountExceededV6(_) => V6DropReason::RelayHopCountExceeded,
            DhcpError::NoMacNoOption79 => V6DropReason::NoMacNoOption79,
            DhcpError::MalformedDuid => V6DropReason::MalformedDuid,
            DhcpError::UnsupportedDuidType(_) => V6DropReason::UnsupportedDuid,
            DhcpError::UnhandledMessageTypeV6(_) => V6DropReason::UnsupportedMessage,
            DhcpError::TonicStatusError(_) => V6DropReason::FetchMachineError,
            DhcpError::GenericError(_) => V6DropReason::FetchMachineError,
            _ => V6DropReason::InvalidPacket,
        }
    }
}

impl vstd::std_specs::convert::FromSpecImpl<&DhcpError> for V6DropReason {
    open spec fn obeys_from_spec() -> bool {
        true
    }

    open spec fn from_spec(value: &DhcpError) -> Self {
        v6_drop_reason(value)
    }
}

/// What an error is dropped for is told by what it is: the reason stands for one kind of error.
pub proof fn law_drop_reason_tells_the_error(error: &DhcpError)
    ensures
        ({
            let reason = drop_reason(error);
            &&& reason is IoError <==> error is IoError
            &&& reason is ConfigParseFailure <==> error is SerdeYaml
            &&& reason is MissingArgument <==> error is MissingArgument
            &&& reason is MissingOption <==> error is MissingOption
            &&& reason is UnhandledMessageType <==> error is UnhandledMessageType
            &&& reason is DhcpDeclineMessage <==> error is DhcpDeclineMessage
            &&& reason is MissingRelayCode <==> error is MissingRelayCode
            &&& reason is InvalidInput <==> error is InvalidInput
            &&& reason is GenericError <==> error is GenericError
            &&& reason is UpstreamApiError <==> error is TonicStatusError
            &&& reason is Utf8Error <==> error is Utf8Error
            &&& reason is PacketDecodeFailure <==> error is PacketDecodeFailure
            &&& reason is PacketEncodeFailure <==> error is PacketEncodeFailure
            &&& reason is AddressParseError <==> error is AddressParseError
            &&& reason is NonRelayedPacket <==> error is NonRelayedPacket
            &&& reason is UnknownPacket <==> error is UnknownPacket
            &&& reason is NotMyPacket <==> error is NotMyPacket
            &&& reason is VendorClassParseError <==> error is VendorClassParseError
            &&& reason is MultipleInterfaces <==> error is MultipleInterfacesProvidedOneSupported
            &&& reason is MissingOptionV6 <==> error is MissingOptionV6
            &&& reason is UnhandledMessageTypeV6 <==> error is UnhandledMessageTypeV6
            &&& reason is MalformedDuid <==> error is MalformedDuid
            &&& reason is UnsupportedDuid <==> error is UnsupportedDuidType
            &&& reason is NoMacNoOption79 <==> error is NoMacNoOption79
            &&& reason is NestedRelayV6 <==> error is NestedRelayV6
            &&& reason is RelayHopCountExceededV6 <==> error is RelayHopCountExceededV6
        }),
{
}

/// What a DHCPv6 packet is dropped for is told by its error: a reason of its own for what is wrong
/// with an envelope or an identifier and for a message that is not served, one for a failure to ask,
/// and one for every other error.
pub proof fn law_v6_drop_reason_tells_the_error(error: &DhcpError)
    ensures
        ({
            let reason = v6_drop_reason(error);
            &&& reason is NestedRelay <==> error is NestedRelayV6
            &&& reason is RelayHopCountExceeded <==> error is RelayHopCountExceededV6
            &&& reason is NoMacNoOption79 <==> error is NoMacNoOption79
            &&& reason is MalformedDuid <==> error is MalformedDuid
            &&& reason is UnsupportedDuid <==> error is UnsupportedDuidType
            &&& reason is UnsupportedMessage <==> error is UnhandledMessageTypeV6
            &&& reason is FetchMachineError <==> error is TonicStatusError || error is GenericError
            &&& !(reason is RateLimited)
            &&& !(reason is SendFailed)
        }),
{
}

/// Every error has a drop reason of its own: two errors that are dropped for the same reason are of
/// the same kind. The four reasons that need no error are no error's reason.
pub proof fn law_drop_reasons_are_distinct(left: &DhcpError, right: &DhcpError)
    ensures
        drop_reason(left) == drop_reason(right) ==> same_kind(left, right),
        drop_reason(left) != DropReason::RateLimited,
        drop_reason(left) != DropReason::TooShort,
        drop_reason(left) != DropReason::NotIpv4,
        drop_reason(left) != DropReason::SendFailed,
{
}

/// Whether two errors are of the same kind, whatever they say.
pub open spec fn same_kind(left: &DhcpError, right: &DhcpError) -> bool {
    ||| left is IoError && right is IoError
    ||| left is SerdeYaml && right is SerdeYaml
    ||| left is MissingArgument && right is MissingArgument
    ||| left is MissingOption && right is MissingOption
    ||| left is UnhandledMessageType && right is UnhandledMessageType
    ||| left is DhcpDeclineMessage && right is DhcpDeclineMessage
    ||| left is MissingRelayCode && right is MissingRelayCode
    ||| left is InvalidInput && right is InvalidInput
    ||| left is GenericError && right is GenericError
    ||| left is TonicStatusError && right is TonicStatusError
    ||| left is Utf8Error && right is Utf8Error
    ||| left is PacketDecodeFailure && right is PacketDecodeFailure
    ||| left is PacketEncodeFailure && right is PacketEncodeFailure
    ||| left is AddressParseError && right is AddressParseError
    ||| left is NonRelayedPacket && right is NonRelayedPacket
    ||| left is UnknownPacket && right is UnknownPacket
    ||| left is NotMyPacket && right is NotMyPacket
    ||| left is VendorClassParseError && right is VendorClassParseError
    ||| left is MultipleInterfacesProvidedOneSupported && right is MultipleInterfacesProvidedOneSupported
    ||| left is MissingOptionV6 && right is MissingOptionV6
    ||| left is UnhandledMessageTypeV6 && right is UnhandledMessageTypeV6
    ||| left is MalformedDuid && right is MalformedDuid
    ||| left is UnsupportedDuidType && right is UnsupportedDuidType
    ||| left is NoMacNoOption79 && right is NoMacNoOption79
    ||| left is NestedRelayV6 && right is NestedRelayV6
    ||| left is RelayHopCountExceededV6 && right is RelayHopCountExceededV6
}

/// The inner DHCPv6 response type sent directly or inside a relay envelope.
#[derive(Debug, Clone, Copy, PartialEq, Eq, Structural)]
pub enum V6ReplyMessageType {
    Advertise,
    Reply,
}

impl V6ReplyMessageType {
    /// The response type as a metric label.
    pub fn label(self) -> (label: &'static str)
        ensures
            label@ == (match self {
                V6ReplyMessageType::Advertise => "advertise"@,
                V6ReplyMessageType::Reply => "reply"@,
            }),
    {
        match self {
            V6ReplyMessageType::Advertise => "advertise",
            V6ReplyMessageType::Reply => "reply",
        }
    }
}

/// Why a DHCPv6 listener became unavailable after bounded socket retries.
#[derive(Debug, Clone, Copy, PartialEq, Eq, Structural)]
pub enum V6ListenerUnavailableReason {
    InitialSocketSetup,
    SocketRecreation,
}

impl V6ListenerUnavailableReason {
    /// The reason as a metric label.
    pub fn label(self) -> (label: &'static str)
        ensures
            label@ == (match self {
                V6ListenerUnavailableReason::InitialSocketSetup => "initial_socket_setup"@,
                V6ListenerUnavailableReason::SocketRecreation => "socket_recreation"@,
            }),
    {
        match self {
            V6ListenerUnavailableReason::InitialSocketSetup => "initial_socket_setup",
            V6ListenerUnavailableReason::SocketRecreation => "socket_recreation",
        }
    }
}

/// The timestamp-file operation that failed.
#[derive(Debug, Clone, Copy, PartialEq, Eq, Structural)]
pub enum TimestampFileOperation {
    Initialize,
    Write,
    Read,
}

impl TimestampFileOperation {
    /// The operation as a metric label.
    pub fn label(self) -> (label: &'static str)
        ensures
            label@ == (match self {
                TimestampFileOperation::Initialize => "initialize"@,
                TimestampFileOperation::Write => "write"@,
                TimestampFileOperation::Read => "read"@,
            }),
    {
        match self {
            TimestampFileOperation::Initialize => "initialize",
            TimestampFileOperation::Write => "write",
            TimestampFileOperation::Read => "read",
        }
    }
}

/// The socket call that failed.
#[derive(Debug, Clone, Copy, PartialEq, Eq, Structural)]
pub enum SocketSetupOperation {
    Create,
    ReuseAddress,
    SetNonblocking,
    BindAddress,
    SetBroadcast,
    BindDevice,
}

impl SocketSetupOperation {
    /// The operation as a metric label.
    pub fn label(self) -> (label: &'static str)
        ensures
            label@ == (match self {
                SocketSetupOperation::Create => "create"@,
                SocketSetupOperation::ReuseAddress => "reuse_address"@,
                SocketSetupOperation::SetNonblocking => "set_nonblocking"@,
                SocketSetupOperation::BindAddress => "bind_address"@,
                SocketSetupOperation::SetBroadcast => "set_broadcast"@,
                SocketSetupOperation::BindDevice => "bind_device"@,
            }),
    {
        match self {
            SocketSetupOperation::Create => "create",
            SocketSetupOperation::ReuseAddress => "reuse_address",
            SocketSetupOperation::SetNonblocking => "set_nonblocking",
            SocketSetupOperation::BindAddress => "bind_address",
            SocketSetupOperation::SetBroadcast => "set_broadcast",
            SocketSetupOperation::BindDevice => "bind_device",
        }
    }
}

/// What follows a failed socket call.
#[derive(Debug, Clone, Copy, PartialEq, Eq, Structural)]
pub enum SocketSetupNextAction {
    Retry,
    Panic,
}

impl SocketSetupNextAction {
    /// The next step as a metric label.
    pub fn label(self) -> (label: &'static str)
        ensures
            label@ == (match self {
                SocketSetupNextAction::Retry => "retry"@,
                SocketSetupNextAction::Panic => "panic"@,
            }),
    {
        match self {
            SocketSetupNextAction::Retry => "retry",
            SocketSetupNextAction::Panic => "panic",
        }
    }
}

/// How loud an event is logged.
#[derive(Debug, Clone, Copy, PartialEq, Eq, Structural)]
pub enum LogLevel {
    Off,
    Info,
    Warn,
    Error,
}

/// The fixed part of an event: its names, and how it is logged.
#[derive(Debug, Clone, Copy)]
pub struct EventRecord {
    pub event_name: &'static str,
    pub metric_name: &'static str,
    pub level: LogLevel,
    pub message: &'static str,
}

impl EventRecord {
    /// Whether the record has these names, this level and this message.
    pub open spec fn says(
        self,
        event_name: Seq<char>,
        metric_name: Seq<char>,
        level: LogLevel,
        message: Seq<char>,
    ) -> bool {
        &&& self.event_name@ == event_name
        &&& self.metric_name@ == metric_name
        &&& self.level == level
        &&& self.message@ == message
    }
}

/// One socket-setup call failed. Each variant is the call that failed.
#[derive(Debug)]
pub enum DhcpSocketSetupFailed {
    Create { next_action: SocketSetupNextAction, retry: i64, error: String },
    ReuseAddress { next_action: SocketSetupNextAction, retry: i64, error: String },
    SetNonblocking { next_action: SocketSetupNextAction, retry: i64, error: String },
    BindAddress { next_action: SocketSetupNextAction, retry: i64, error: String },
    SetBroadcast { next_action: SocketSetupNextAction, retry: i64, error: String },
    BindDevice { next_action: SocketSetupNextAction, retry: i64, error: String },
}

impl DhcpSocketSetupFailed {
    /// Which call failed, with its retry count widened for the log field.
    pub fn new(
        operation: SocketSetupOperation,
        next_action: SocketSetupNextAction,
        retry: i32,
        error: String,
    ) -> (event: Self)
        ensures
            event == (match operation {
                SocketSetupOperation::Create => DhcpSocketSetupFailed::Create {
                    next_action,
                    retry: retry as i64,
                    error,
                },
                SocketSetupOperation::ReuseAddress => DhcpSocketSetupFailed::ReuseAddress {
                    next_action,
                    retry: retry as i64,
                    error,
                },
                SocketSetupOperation::SetNonblocking => DhcpSocketSetupFailed::SetNonblocking {
                    next_action,
                    retry: retry as i64,
                    error,
                },
                SocketSetupOperation::BindAddress => DhcpSocketSetupFailed::BindAddress {
                    next_action,
                    retry: retry as i64,
                    error,
                },
                SocketSetupOperation::SetBroadcast => DhcpSocketSetupFailed::SetBroadcast {
                    next_action,
                    retry: retry as i64,
                    error,
                },
                SocketSetupOperation::BindDevice => DhcpSocketSetupFailed::BindDevice {
                    next_action,
                    retry: retry as i64,
                    error,
                },
            }),
    {
        let retry: i64 = retry as i64;
        match operation {
            SocketSetupOperation::Create => DhcpSocketSetupFailed::Create {
                next_action,
                retry,
                error,
            },
            SocketSetupOperation::ReuseAddress => DhcpSocketSetupFailed::ReuseAddress {
                next_action,
                retry,
                error,
            },
            SocketSetupOperation::SetNonblocking => DhcpSocketSetupFailed::SetNonblocking {
                next_action,
                retry,
                error,
            },
            SocketSetupOperation::BindAddress => DhcpSocketSetupFailed::BindAddress {
                next_action,
                retry,
                error,
            },
            SocketSetupOperation::SetBroadcast => DhcpSocketSetupFailed::SetBroadcast {
                next_action,
                retry,
                error,
            },
            SocketSetupOperation::BindDevice => DhcpSocketSetupFailed::BindDevice {
                next_action,
                retry,
                error,
            },
        }
    }

    /// The call that failed.
    pub fn operation(&self) -> (operation: SocketSetupOperation)
        ensures
            operation == (match self {
                DhcpSocketSetupFailed::Create { .. } => SocketSetupOperation::Create,
                DhcpSocketSetupFailed::ReuseAddress { .. } => SocketSetupOperation::ReuseAddress,
                DhcpSocketSetupFailed::SetNonblocking { .. } => SocketSetupOperation::SetNonblocking,
                DhcpSocketSetupFailed::BindAddress { .. } => SocketSetupOperation::BindAddress,
                DhcpSocketSetupFailed::SetBroadcast { .. } => SocketSetupOperation::SetBroadcast,
                DhcpSocketSetupFailed::BindDevice { .. } => SocketSetupOperation::BindDevice,
            }),
    {
        match self {
            DhcpSocketSetupFailed::Create { .. } => SocketSetupOperation::Create,
            DhcpSocketSetupFailed::ReuseAddress { .. } => SocketSetupOperation::ReuseAddress,
            DhcpSocketSetupFailed::SetNonblocking { .. } => SocketSetupOperation::SetNonblocking,
            DhcpSocketSetupFailed::BindAddress { .. } => SocketSetupOperation::BindAddress,
            DhcpSocketSetupFailed::SetBroadcast { .. } => SocketSetupOperation::SetBroadcast,
            DhcpSocketSetupFailed::BindDevice { .. } => SocketSetupOperation::BindDevice,
        }
    }

    /// How the event is counted and logged.
    pub fn record(&self) -> (record: EventRecord)
        ensures
            record.says(
                "dhcp_server_socket_setup_failed"@,
                "carbide_dhcp_socket_setup_failures_total"@,
                LogLevel::Info,
                if self is Create {
                    "Socket creation failed"@
                } else {
                    "Socket set option failed"@
                },
            ),
    {
        let message = match self {
            DhcpSocketSetupFailed::Create { .. } => "Socket creation failed",
            _ => "Socket set option failed",
        };
        EventRecord {
            event_name: "dhcp_server_socket_setup_failed",
            metric_name: "carbide_dhcp_socket_setup_failures_total",
            level: LogLevel::Info,
            message,
        }
    }
}

/// A socket could not be bound to its interface.
#[derive(Debug)]
pub struct DhcpInterfaceBindFailed {
    pub operation: SocketSetupOperation,
    pub next_action: SocketSetupNextAction,
    pub interface_name: String,
    pub retries_left: i64,
    pub error: String,
}

impl DhcpInterfaceBindFailed {
    /// The failure to bind to `interface_name`, with the retry count widened for the log field.
    pub fn new(
        next_action: SocketSetupNextAction,
        interface_name: String,
        retries_left: i32,
        error: String,
    ) -> (event: Self)
        ensures
            event == (DhcpInterfaceBindFailed {
                operation: SocketSetupOperation::BindDevice,
                next_action,
                interface_name,
                retries_left: retries_left as i64,
                error,
            }),
    {
        DhcpInterfaceBindFailed {
            operation: SocketSetupOperation::BindDevice,
            next_action,
            interface_name,
            retries_left: retries_left as i64,
            error,
        }
    }

    /// How the event is counted and logged.
    pub fn record(&self) -> (record: EventRecord)
        ensures
            record.says(
                "dhcp_server_interface_bind_failed"@,
                "carbide_dhcp_socket_setup_failures_total"@,
                LogLevel::Info,
                "Interface not ready, retrying"@,
            ),
    {
        EventRecord {
            event_name: "dhcp_server_interface_bind_failed",
            metric_name: "carbide_dhcp_socket_setup_failures_total",
            level: LogLevel::Info,
            message: "Interface not ready, retrying",
        }
    }
}

/// A DHCPv4 packet with a usable header was decoded. Its header fields are only logged.
#[derive(Debug)]
pub struct DhcpRequestReceived {
    pub message_type: MessageTypeLabel,
    pub bootp_op: i64,
    pub source_address: String,
    pub xid: i64,
    pub broadcast_flag: bool,
    pub ciaddr: Ipv4Addr,
    pub yiaddr: Ipv4Addr,
    pub siaddr: Ipv4Addr,
    pub giaddr: Ipv4Addr,
    pub chaddr: String,
}

impl DhcpRequestReceived {
    /// How the event is counted and logged.
    pub fn record(&self) -> (record: EventRecord)
        ensures
            record.says(
                "dhcp_server_request_received"@,
                "carbide_dhcp_requests_total"@,
                LogLevel::Info,
                "Decoded DHCP packet"@,
            ),
    {
        EventRecord {
            event_name: "dhcp_server_request_received",
            metric_name: "carbide_dhcp_requests_total",
            level: LogLevel::Info,
            message: "Decoded DHCP packet",
        }
    }
}

/// A DHCPv4 reply was sent. An offer proposes a lease, an ack commits it, and a nak refuses it. Its
/// header fields are only logged.
#[derive(Debug)]
pub struct DhcpReplySent {
    pub message_type: MessageTypeLabel,
    pub destination_address: String,
    pub xid: i64,
    pub broadcast_flag: bool,
    pub ciaddr: Ipv4Addr,
    pub yiaddr: Ipv4Addr,
    pub siaddr: Ipv4Addr,
    pub giaddr: Ipv4Addr,
    pub chaddr: String,
}

impl DhcpReplySent {
    /// How the event is counted and logged.
    pub fn record(&self) -> (record: EventRecord)
        ensures
            record.says(
                "dhcp_server_reply_sent"@,
                "carbide_dhcp_replies_sent_total"@,
                LogLevel::Info,
                "Sent DHCP reply"@,
            ),
    {
        EventRecord {
            event_name: "dhcp_server_reply_sent",
            metric_name: "carbide_dhcp_replies_sent_total",
            level: LogLevel::Info,
            message: "Sent DHCP reply",
        }
    }
}

/// A DHCPv4 packet was dropped without a reply reaching the client.
#[derive(Debug)]
pub struct DhcpPacketDropped {
    pub reason: DropReason,
    /// The detail behind the drop. It is only logged.
    pub error: String,
}

impl DhcpPacketDropped {
    /// How the event is counted and logged.
    pub fn record(&self) -> (record: EventRecord)
        ensures
            record.says(
                "dhcp_server_packet_dropped"@,
                "carbide_dhcp_dropped_requests_total"@,
                LogLevel::Error,
                "Dropped a DHCP packet"@,
            ),
    {
        EventRecord {
            event_name: "dhcp_server_packet_dropped",
            metric_name: "carbide_dhcp_dropped_requests_total",
            level: LogLevel::Error,
            message: "Dropped a DHCP packet",
        }
    }
}

/// A decoded DHCPv6 client request reached packet processing.
#[derive(Debug)]
pub struct DhcpV6RequestReceived {
    pub message_type: MessageTypeLabel,
}

impl DhcpV6RequestReceived {
    /// How the event is counted and logged.
    pub fn record(&self) -> (record: EventRecord)
        ensures
            record.says(
                "dhcp_server_v6_request_received"@,
                "carbide_dhcp_v6_requests_total"@,
                LogLevel::Off,
                ""@,
            ),
    {
        EventRecord {
            event_name: "dhcp_server_v6_request_received",
            metric_name: "carbide_dhcp_v6_requests_total",
            level: LogLevel::Off,
            message: "",
        }
    }
}

/// A DHCPv6 request was rejected.
#[derive(Debug)]
pub struct DhcpV6RequestDropped {
    pub reason: V6DropReason,
    /// The detail behind the drop. It is only logged.
    pub error: String,
}

impl DhcpV6RequestDropped {
    /// How the event is counted and logged.
    pub fn record(&self) -> (record: EventRecord)
        ensures
            record.says(
                "dhcp_server_v6_request_dropped"@,
                "carbide_dhcp_v6_requests_dropped_total"@,
                LogLevel::Error,
                "Dropped a DHCPv6 packet"@,
            ),
    {
        EventRecord {
            event_name: "dhcp_server_v6_request_dropped",
            metric_name: "carbide_dhcp_v6_requests_dropped_total",
            level: LogLevel::Error,
            message: "Dropped a DHCPv6 packet",
        }
    }
}

/// A DHCPv6 response was sent, labelled by its inner message type.
#[derive(Debug)]
pub struct DhcpV6ReplySent {
    pub message_type: V6ReplyMessageType,
}

impl DhcpV6ReplySent {
    /// How the event is counted and logged.
    pub fn record(&self) -> (record: EventRecord)
        ensures
            record.says(
                "dhcp_server_v6_reply_sent"@,
                "carbide_dhcp_v6_replies_sent_total"@,
                LogLevel::Off,
                ""@,
            ),
    {
        EventRecord {
            event_name: "dhcp_server_v6_reply_sent",
            metric_name: "carbide_dhcp_v6_replies_sent_total",
            level: LogLevel::Off,
            message: "",
        }
    }
}

/// A DHCPv6 listener exhausted its bounded socket setup retries.
#[derive(Debug)]
pub enum DhcpV6ListenerUnavailable {
    /// Initial socket setup failed, so this interface starts without DHCPv6.
    InitialSocketSetup { interface_name: String, error: String },
    /// A receive failure was followed by unsuccessful socket recreation.
    SocketRecreation { interface_name: String, error: String },
}

impl DhcpV6ListenerUnavailable {
    /// The reason for the metric label.
    pub fn reason(&self) -> (reason: V6ListenerUnavailableReason)
        ensures
            reason == (if self is InitialSocketSetup {
                V6ListenerUnavailableReason::InitialSocketSetup
            } else {
                V6ListenerUnavailableReason::SocketRecreation
            }),
    {
        match self {
            DhcpV6ListenerUnavailable::InitialSocketSetup { .. } => {
                V6ListenerUnavailableReason::InitialSocketSetup
            },
            DhcpV6ListenerUnavailable::SocketRecreation { .. } => {
                V6ListenerUnavailableReason::SocketRecreation
            },
        }
    }

    /// How the event is counted and logged.
    pub fn record(&self) -> (record: EventRecord)
        ensures
            record.says(
                "dhcp_server_v6_listener_unavailable"@,
                "carbide_dhcp_v6_listener_unavailable_total"@,
                LogLevel::Warn,
                if self is InitialSocketSetup {
                    "DHCPv6 listener unavailable"@
                } else {
                    "DHCPv6 listener could not be recreated"@
                },
            ),
    {
        let message = match self {
            DhcpV6ListenerUnavailable::InitialSocketSetup { .. } => "DHCPv6 listener unavailable",
            DhcpV6ListenerUnavailable::SocketRecreation { .. } => {
                "DHCPv6 listener could not be recreated"
            },
        };
        EventRecord {
            event_name: "dhcp_server_v6_listener_unavailable",
            metric_name: "carbide_dhcp_v6_listener_unavailable_total",
            level: LogLevel::Warn,
            message,
        }
    }
}

/// A DHCP timestamp-file operation failed. Only a write is about one interface.
#[derive(Debug)]
pub enum DhcpTimestampFileFailed {
    /// The startup write could not initialize the file, so this server generation does not start.
    Initialization { dhcp_timestamps_path: String, error: String },
    /// The in-memory timestamp advanced but the file did not. Packet processing continues.
    Write { dhcp_timestamps_path: String, host_interface_id: String, error: String },
    /// The file could not be read, which is treated as no requests yet.
    Read { dhcp_timestamps_path: String, error: String },
}

impl DhcpTimestampFileFailed {
    /// The operation for the metric label.
    pub fn operation(&self) -> (operation: TimestampFileOperation)
        ensures
            operation == (match self {
                DhcpTimestampFileFailed::Initialization { .. } => {
                    TimestampFileOperation::Initialize
                },
                DhcpTimestampFileFailed::Write { .. } => TimestampFileOperation::Write,
                DhcpTimestampFileFailed::Read { .. } => TimestampFileOperation::Read,
            }),
    {
        match self {
            DhcpTimestampFileFailed::Initialization { .. } => TimestampFileOperation::Initialize,
            DhcpTimestampFileFailed::Write { .. } => TimestampFileOperation::Write,
            DhcpTimestampFileFailed::Read { .. } => TimestampFileOperation::Read,
        }
    }

    /// How the event is counted and logged.
    pub fn record(&self) -> (record: EventRecord)
        ensures
            record.says(
                "dhcp_timestamp_file_failed"@,
                "carbide_dhcp_timestamp_file_failures_total"@,
                if self is Read {
                    LogLevel::Warn
                } else {
                    LogLevel::Error
                },
                match self {
                    DhcpTimestampFileFailed::Initialization { .. } => {
                        "Failed to init DHCP timestamps file"@
                    },
                    DhcpTimestampFileFailed::Write { .. } => "Failed to write DHCP timestamps file"@,
                    DhcpTimestampFileFailed::Read { .. } => "Failed to read DHCP timestamps file"@,
                },
            ),
    {
        let (level, message) = match self {
            DhcpTimestampFileFailed::Initialization { .. } => {
                (LogLevel::Error, "Failed to init DHCP timestamps file")
            },
            DhcpTimestampFileFailed::Write { .. } => {
                (LogLevel::Error, "Failed to write DHCP timestamps file")
            },
            DhcpTimestampFileFailed::Read { .. } => {
                (LogLevel::Warn, "Failed to read DHCP timestamps file")
            },
        };
        EventRecord {
            event_name: "dhcp_timestamp_file_failed",
            metric_name: "carbide_dhcp_timestamp_file_failures_total",
            level,
            message,
        }
    }
}

} // verus!
