//! The registered numbers of DHCPv6 messages and options that the service knows.

#[allow(unused_imports)]
use crate::text::{decimal_text, decimal_value, law_decimal_text_reads_back};
use crate::text::push_decimal;
use vstd::prelude::*;
use vstd::string::StringExecFns;

verus! {

/// Message type of a Relay-Forward envelope.
pub const RELAY_FORWARD: u8 = 12;

/// Message type of a Relay-Reply envelope.
pub const RELAY_REPLY: u8 = 13;

/// A DHCPv6 message type.
#[derive(Debug, Clone, Copy, PartialEq, Eq, Structural)]
pub enum MessageType {
    Solicit,
    Advertise,
    Request,
    Confirm,
    Renew,
    Rebind,
    Reply,
    Release,
    Decline,
    Reconfigure,
    InformationRequest,
    RelayForw,
    RelayRepl,
    LeaseQuery,
    LeaseQueryReply,
    LeaseQueryDone,
    LeaseQueryData,
    ReconfigureRequest,
    ReconfigureReply,
    DHCPv4Query,
    DHCPv4Response,
    Unknown(u8),
}

/// The number under which a message type is registered.
pub open spec fn message_number(message_type: MessageType) -> u8 {
    match message_type {
        MessageType::Solicit => 1,
        MessageType::Advertise => 2,
        MessageType::Request => 3,
        MessageType::Confirm => 4,
        MessageType::Renew => 5,
        MessageType::Rebind => 6,
        MessageType::Reply => 7,
        MessageType::Release => 8,
        MessageType::Decline => 9,
        MessageType::Reconfigure => 10,
        MessageType::InformationRequest => 11,
        MessageType::RelayForw => 12,
        MessageType::RelayRepl => 13,
        MessageType::LeaseQuery => 14,
        MessageType::LeaseQueryReply => 15,
        MessageType::LeaseQueryDone => 16,
        MessageType::LeaseQueryData => 17,
        MessageType::ReconfigureRequest => 18,
        MessageType::ReconfigureReply => 19,
        MessageType::DHCPv4Query => 20,
        MessageType::DHCPv4Response => 21,
        MessageType::Unknown(number) => number,
    }
}

/// Whether `message_type` is the type that stands for its number: an unregistered number is
/// `Unknown`, a registered one is not.
pub open spec fn canonical_message_type(message_type: MessageType) -> bool {
    message_type is Unknown <==> !(1 <= message_number(message_type) <= 21)
}

/// Two message types with the same number are the same.
pub proof fn law_message_number_identifies_type(left: MessageType, right: MessageType)
    requires
        canonical_message_type(left),
        canonical_message_type(right),
        message_number(left) == message_number(right),
    ensures
        left == right,
{
}

impl MessageType {
    /// The message type that `number` stands for.
    pub fn from_number(number: u8) -> (message_type: Self)
        ensures
            message_number(message_type) == number,
            canonical_message_type(message_type),
    {
        match number {
            1 => MessageType::Solicit,
            2 => MessageType::Advertise,
            3 => MessageType::Request,
            4 => MessageType::Confirm,
            5 => MessageType::Renew,
            6 => MessageType::Rebind,
            7 => MessageType::Reply,
            8 => MessageType::Release,
            9 => MessageType::Decline,
            10 => MessageType::Reconfigure,
            11 => MessageType::InformationRequest,
            12 => MessageType::RelayForw,
            13 => MessageType::RelayRepl,
            14 => MessageType::LeaseQuery,
            15 => MessageType::LeaseQueryReply,
            16 => MessageType::LeaseQueryDone,
            17 => MessageType::LeaseQueryData,
            18 => MessageType::ReconfigureRequest,
            19 => MessageType::ReconfigureReply,
            20 => MessageType::DHCPv4Query,
            21 => MessageType::DHCPv4Response,
            _ => MessageType::Unknown(number),
        }
    }

    /// The number of this message type.
    pub fn number(self) -> (number: u8)
        ensures
            number == message_number(self),
    {
        match self {
            MessageType::Solicit => 1,
            MessageType::Advertise => 2,
            MessageType::Request => 3,
            MessageType::Confirm => 4,
            MessageType::Renew => 5,
            MessageType::Rebind => 6,
            MessageType::Reply => 7,
            MessageType::Release => 8,
            MessageType::Decline => 9,
            MessageType::Reconfigure => 10,
            MessageType::InformationRequest => 11,
            MessageType::RelayForw => 12,
            MessageType::RelayRepl => 13,
            MessageType::LeaseQuery => 14,
            MessageType::LeaseQueryReply => 15,
            MessageType::LeaseQueryDone => 16,
            MessageType::LeaseQueryData => 17,
            MessageType::ReconfigureRequest => 18,
            MessageType::ReconfigureReply => 19,
            MessageType::DHCPv4Query => 20,
            MessageType::DHCPv4Response => 21,
            MessageType::Unknown(number) => number,
        }
    }
}

/// The options that the service names in its decisions and its errors.
#[derive(Debug, Clone, Copy, PartialEq, Eq, Structural)]
pub enum OptionCode {
    ClientId,
    ServerId,
    IANA,
    IATA,
    IAAddr,
    RelayMsg,
    StatusCode,
    VendorClass,
    VendorOpts,
    InterfaceId,
    DomainNameServers,
    DomainSearchList,
    IAPD,
    IAPrefix,
    RemoteId,
    ClientFqdn,
    NtpServer,
    ClientLinklayerAddr,
}

/// The number under which an option is registered.
pub open spec fn option_number(option: OptionCode) -> u16 {
    match option {
        OptionCode::ClientId => 1,
        OptionCode::ServerId => 2,
        OptionCode::IANA => 3,
        OptionCode::IATA => 4,
        OptionCode::IAAddr => 5,
        OptionCode::RelayMsg => 9,
        OptionCode::StatusCode => 13,
        OptionCode::VendorClass => 16,
        OptionCode::VendorOpts => 17,
        OptionCode::InterfaceId => 18,
        OptionCode::DomainNameServers => 23,
        OptionCode::DomainSearchList => 24,
        OptionCode::IAPD => 25,
        OptionCode::IAPrefix => 26,
        OptionCode::RemoteId => 37,
        OptionCode::ClientFqdn => 39,
        OptionCode::NtpServer => 56,
        OptionCode::ClientLinklayerAddr => 79,
    }
}

/// Each option is told by its registered number, and no two by the same.
pub proof fn law_options_are_told_by_their_numbers(option: OptionCode)
    ensures
        option is ClientId <==> option_number(option) == 1,
        option is ServerId <==> option_number(option) == 2,
        option is IANA <==> option_number(option) == 3,
        option is IATA <==> option_number(option) == 4,
        option is IAAddr <==> option_number(option) == 5,
        option is RelayMsg <==> option_number(option) == 9,
        option is StatusCode <==> option_number(option) == 13,
        option is VendorClass <==> option_number(option) == 16,
        option is VendorOpts <==> option_number(option) == 17,
        option is InterfaceId <==> option_number(option) == 18,
        option is DomainNameServers <==> option_number(option) == 23,
        option is DomainSearchList <==> option_number(option) == 24,
        option is IAPD <==> option_number(option) == 25,
        option is IAPrefix <==> option_number(option) == 26,
        option is RemoteId <==> option_number(option) == 37,
        option is ClientFqdn <==> option_number(option) == 39,
        option is NtpServer <==> option_number(option) == 56,
        option is ClientLinklayerAddr <==> option_number(option) == 79,
{
}

impl OptionCode {
    /// The number of this option.
    pub fn number(self) -> (number: u16)
        ensures
            number == option_number(self),
    {
        match self {
            OptionCode::ClientId => 1,
            OptionCode::ServerId => 2,
            OptionCode::IANA => 3,
            OptionCode::IATA => 4,
            OptionCode::IAAddr => 5,
            OptionCode::RelayMsg => 9,
            OptionCode::StatusCode => 13,
            OptionCode::VendorClass => 16,
            OptionCode::VendorOpts => 17,
            OptionCode::InterfaceId => 18,
            OptionCode::DomainNameServers => 23,
            OptionCode::DomainSearchList => 24,
            OptionCode::IAPD => 25,
            OptionCode::IAPrefix => 26,
            OptionCode::RemoteId => 37,
            OptionCode::ClientFqdn => 39,
            OptionCode::NtpServer => 56,
            OptionCode::ClientLinklayerAddr => 79,
        }
    }
}

/// How a number without a name is called.
pub open spec fn unknown_name(number: u8) -> Seq<char> {
    "Unknown("@ + decimal_text(number as nat) + ")"@
}

/// How a number without a name is called.
fn unknown(number: u8) -> (name: String)
    ensures
        name@ == unknown_name(number),
{
    let mut name = "Unknown(".to_owned();
    push_decimal(&mut name, number as u64);
    name.append(")");
    name
}

/// How a message type is called.
pub open spec fn message_name(value: MessageType) -> Seq<char> {
    match value {
        MessageType::Solicit => "Solicit"@,
        MessageType::Advertise => "Advertise"@,
        MessageType::Request => "Request"@,
        MessageType::Confirm => "Confirm"@,
        MessageType::Renew => "Renew"@,
        MessageType::Rebind => "Rebind"@,
        MessageType::Reply => "Reply"@,
        MessageType::Release => "Release"@,
        MessageType::Decline => "Decline"@,
        MessageType::Reconfigure => "Reconfigure"@,
        MessageType::InformationRequest => "InformationRequest"@,
        MessageType::RelayForw => "RelayForw"@,
        MessageType::RelayRepl => "RelayRepl"@,
        MessageType::LeaseQuery => "LeaseQuery"@,
        MessageType::LeaseQueryReply => "LeaseQueryReply"@,
        MessageType::LeaseQueryDone => "LeaseQueryDone"@,
        MessageType::LeaseQueryData => "LeaseQueryData"@,
        MessageType::ReconfigureRequest => "ReconfigureRequest"@,
        MessageType::ReconfigureReply => "ReconfigureReply"@,
        MessageType::DHCPv4Query => "DHCPv4Query"@,
        MessageType::DHCPv4Response => "DHCPv4Response"@,
        MessageType::Unknown(number) => unknown_name(number),
    }
}

/// Each type of message is called by its name, and one without a name by its number.
pub proof fn law_message_types_are_called_by_their_names(value: MessageType)
    ensures
        value is Solicit ==> message_name(value) == "Solicit"@,
        value is Advertise ==> message_name(value) == "Advertise"@,
        value is Request ==> message_name(value) == "Request"@,
        value is Confirm ==> message_name(value) == "Confirm"@,
        value is Renew ==> message_name(value) == "Renew"@,
        value is Rebind ==> message_name(value) == "Rebind"@,
        value is Reply ==> message_name(value) == "Reply"@,
        value is Release ==> message_name(value) == "Release"@,
        value is Decline ==> message_name(value) == "Decline"@,
        value is Reconfigure ==> message_name(value) == "Reconfigure"@,
        value is InformationRequest ==> message_name(value) == "InformationRequest"@,
        value is RelayForw ==> message_name(value) == "RelayForw"@,
        value is RelayRepl ==> message_name(value) == "RelayRepl"@,
        value is LeaseQuery ==> message_name(value) == "LeaseQuery"@,
        value is LeaseQueryReply ==> message_name(value) == "LeaseQueryReply"@,
        value is LeaseQueryDone ==> message_name(value) == "LeaseQueryDone"@,
        value is LeaseQueryData ==> message_name(value) == "LeaseQueryData"@,
        value is ReconfigureRequest ==> message_name(value) == "ReconfigureRequest"@,
        value is ReconfigureReply ==> message_name(value) == "ReconfigureReply"@,
        value is DHCPv4Query ==> message_name(value) == "DHCPv4Query"@,
        value is DHCPv4Response ==> message_name(value) == "DHCPv4Response"@,
        value matches MessageType::Unknown(number) ==> exists|digits: Seq<char>|
            {
                &&& #[trigger] decimal_value(digits) == number
                &&& message_name(value) == "Unknown("@ + digits + ")"@
            },
{
    if let MessageType::Unknown(number) = value {
        law_decimal_text_reads_back(number as nat);
    }
}

impl MessageType {
    /// How this message type is called.
    pub fn name(self) -> (name: String)
        ensures
            name@ == message_name(self),
    {
        let name = match self {
            MessageType::Solicit => "Solicit",
            MessageType::Advertise => "Advertise",
            MessageType::Request => "Request",
            MessageType::Confirm => "Confirm",
            MessageType::Renew => "Renew",
            MessageType::Rebind => "Rebind",
            MessageType::Reply => "Reply",
            MessageType::Release => "Release",
            MessageType::Decline => "Decline",
            MessageType::Reconfigure => "Reconfigure",
            MessageType::InformationRequest => "InformationRequest",
            MessageType::RelayForw => "RelayForw",
            MessageType::RelayRepl => "RelayRepl",
            MessageType::LeaseQuery => "LeaseQuery",
            MessageType::LeaseQueryReply => "LeaseQueryReply",
            MessageType::LeaseQueryDone => "LeaseQueryDone",
            MessageType::LeaseQueryData => "LeaseQueryData",
            MessageType::ReconfigureRequest => "ReconfigureRequest",
            MessageType::ReconfigureReply => "ReconfigureReply",
            MessageType::DHCPv4Query => "DHCPv4Query",
            MessageType::DHCPv4Response => "DHCPv4Response",
            MessageType::Unknown(number) => {
                return unknown(number);
            },
        };
        name.to_owned()
    }
}

/// A DHCPv4 message type.
#[derive(Debug, Clone, Copy, PartialEq, Eq, Structural)]
pub enum MessageTypeV4 {
    Discover,
    Offer,
    Request,
    Decline,
    Ack,
    Nak,
    Release,
    Inform,
    ForceRenew,
    LeaseQuery,
    LeaseUnassigned,
    LeaseUnknown,
    LeaseActive,
    BulkLeaseQuery,
    LeaseQueryDone,
    ActiveLeaseQuery,
    LeaseQueryStatus,
    Tls,
    Unknown(u8),
}

/// How a DHCPv4 message type is called.
pub open spec fn message_name_v4(value: MessageTypeV4) -> Seq<char> {
    match value {
        MessageTypeV4::Discover => "Discover"@,
        MessageTypeV4::Offer => "Offer"@,
        MessageTypeV4::Request => "Request"@,
        MessageTypeV4::Decline => "Decline"@,
        MessageTypeV4::Ack => "Ack"@,
        MessageTypeV4::Nak => "Nak"@,
        MessageTypeV4::Release => "Release"@,
        MessageTypeV4::Inform => "Inform"@,
        MessageTypeV4::ForceRenew => "ForceRenew"@,
        MessageTypeV4::LeaseQuery => "LeaseQuery"@,
        MessageTypeV4::LeaseUnassigned => "LeaseUnassigned"@,
        MessageTypeV4::LeaseUnknown => "LeaseUnknown"@,
        MessageTypeV4::LeaseActive => "LeaseActive"@,
        MessageTypeV4::BulkLeaseQuery => "BulkLeaseQuery"@,
        MessageTypeV4::LeaseQueryDone => "LeaseQueryDone"@,
        MessageTypeV4::ActiveLeaseQuery => "ActiveLeaseQuery"@,
        MessageTypeV4::LeaseQueryStatus => "LeaseQueryStatus"@,
        MessageTypeV4::Tls => "Tls"@,
        MessageTypeV4::Unknown(number) => unknown_name(number),
    }
}

/// Each type of DHCPv4 message is called by its name, and one without a name by its number.
pub proof fn law_v4_message_types_are_called_by_their_names(value: MessageTypeV4)
    ensures
        value is Discover ==> message_name_v4(value) == "Discover"@,
        value is Offer ==> message_name_v4(value) == "Offer"@,
        value is Request ==> message_name_v4(value) == "Request"@,
        value is Decline ==> message_name_v4(value) == "Decline"@,
        value is Ack ==> message_name_v4(value) == "Ack"@,
        value is Nak ==> message_name_v4(value) == "Nak"@,
        value is Release ==> message_name_v4(value) == "Release"@,
        value is Inform ==> message_name_v4(value) == "Inform"@,
        value is ForceRenew ==> message_name_v4(value) == "ForceRenew"@,
        value is LeaseQuery ==> message_name_v4(value) == "LeaseQuery"@,
        value is LeaseUnassigned ==> message_name_v4(value) == "LeaseUnassigned"@,
        value is LeaseUnknown ==> message_name_v4(value) == "LeaseUnknown"@,
        value is LeaseActive ==> message_name_v4(value) == "LeaseActive"@,
        value is BulkLeaseQuery ==> message_name_v4(value) == "BulkLeaseQuery"@,
        value is LeaseQueryDone ==> message_name_v4(value) == "LeaseQueryDone"@,
        value is ActiveLeaseQuery ==> message_name_v4(value) == "ActiveLeaseQuery"@,
        value is LeaseQueryStatus ==> message_name_v4(value) == "LeaseQueryStatus"@,
        value is Tls ==> message_name_v4(value) == "Tls"@,
        value matches MessageTypeV4::Unknown(number) ==> exists|digits: Seq<char>|
            {
                &&& #[trigger] decimal_value(digits) == number
                &&& message_name_v4(value) == "Unknown("@ + digits + ")"@
            },
{
    if let MessageTypeV4::Unknown(number) = value {
        law_decimal_text_reads_back(number as nat);
    }
}

impl MessageTypeV4 {
    /// How this message type is called.
    pub fn name(self) -> (name: String)
        ensures
            name@ == message_name_v4(self),
    {
        let name = match self {
            MessageTypeV4::Discover => "Discover",
            MessageTypeV4::Offer => "Offer",
            MessageTypeV4::Request => "Request",
            MessageTypeV4::Decline => "Decline",
            MessageTypeV4::Ack => "Ack",
            MessageTypeV4::Nak => "Nak",
            MessageTypeV4::Release => "Release",
            MessageTypeV4::Inform => "Inform",
            MessageTypeV4::ForceRenew => "ForceRenew",
            MessageTypeV4::LeaseQuery => "LeaseQuery",
            MessageTypeV4::LeaseUnassigned => "LeaseUnassigned",
            MessageTypeV4::LeaseUnknown => "LeaseUnknown",
            MessageTypeV4::LeaseActive => "LeaseActive",
            MessageTypeV4::BulkLeaseQuery => "BulkLeaseQuery",
            MessageTypeV4::LeaseQueryDone => "LeaseQueryDone",
            MessageTypeV4::ActiveLeaseQuery => "ActiveLeaseQuery",
            MessageTypeV4::LeaseQueryStatus => "LeaseQueryStatus",
            MessageTypeV4::Tls => "Tls",
            MessageTypeV4::Unknown(number) => {
                return unknown(number);
            },
        };
        name.to_owned()
    }
}

/// How an option is called.
pub open spec fn option_name(value: OptionCode) -> Seq<char> {
    match value {
        OptionCode::ClientId => "ClientId"@,
        OptionCode::ServerId => "ServerId"@,
        OptionCode::IANA => "IANA"@,
        OptionCode::IATA => "IATA"@,
        OptionCode::IAAddr => "IAAddr"@,
        OptionCode::RelayMsg => "RelayMsg"@,
        OptionCode::StatusCode => "StatusCode"@,
        OptionCode::VendorClass => "VendorClass"@,
        OptionCode::VendorOpts => "VendorOpts"@,
        OptionCode::InterfaceId => "InterfaceId"@,
        OptionCode::DomainNameServers => "DomainNameServers"@,
        OptionCode::DomainSearchList => "DomainSearchList"@,
        OptionCode::IAPD => "IAPD"@,
        OptionCode::IAPrefix => "IAPrefix"@,
        OptionCode::RemoteId => "RemoteId"@,
        OptionCode::ClientFqdn => "ClientFqdn"@,
        OptionCode::NtpServer => "NtpServer"@,
        OptionCode::ClientLinklayerAddr => "ClientLinklayerAddr"@,
    }
}

/// Each option is called by its name.
pub proof fn law_options_are_called_by_their_names(value: OptionCode)
    ensures
        value is ClientId ==> option_name(value) == "ClientId"@,
        value is ServerId ==> option_name(value) == "ServerId"@,
        value is IANA ==> option_name(value) == "IANA"@,
        value is IATA ==> option_name(value) == "IATA"@,
        value is IAAddr ==> option_name(value) == "IAAddr"@,
        value is RelayMsg ==> option_name(value) == "RelayMsg"@,
        value is StatusCode ==> option_name(value) == "StatusCode"@,
        value is VendorClass ==> option_name(value) == "VendorClass"@,
        value is VendorOpts ==> option_name(value) == "VendorOpts"@,
        value is InterfaceId ==> option_name(value) == "InterfaceId"@,
        value is DomainNameServers ==> option_name(value) == "DomainNameServers"@,
        value is DomainSearchList ==> option_name(value) == "DomainSearchList"@,
        value is IAPD ==> option_name(value) == "IAPD"@,
        value is IAPrefix ==> option_name(value) == "IAPrefix"@,
        value is RemoteId ==> option_name(value) == "RemoteId"@,
        value is ClientFqdn ==> option_name(value) == "ClientFqdn"@,
        value is NtpServer ==> option_name(value) == "NtpServer"@,
        value is ClientLinklayerAddr ==> option_name(value) == "ClientLinklayerAddr"@,
{
}

impl OptionCode {
    /// How this option is called.
    pub fn name(self) -> (name: String)
        ensures
            name@ == option_name(self),
    {
        let name = match self {
            OptionCode::ClientId => "ClientId",
            OptionCode::ServerId => "ServerId",
            OptionCode::IANA => "IANA",
            OptionCode::IATA => "IATA",
            OptionCode::IAAddr => "IAAddr",
            OptionCode::RelayMsg => "RelayMsg",
            OptionCode::StatusCode => "StatusCode",
            OptionCode::VendorClass => "VendorClass",
            OptionCode::VendorOpts => "VendorOpts",
            OptionCode::InterfaceId => "InterfaceId",
            OptionCode::DomainNameServers => "DomainNameServers",
            OptionCode::DomainSearchList => "DomainSearchList",
            OptionCode::IAPD => "IAPD",
            OptionCode::IAPrefix => "IAPrefix",
            OptionCode::RemoteId => "RemoteId",
            OptionCode::ClientFqdn => "ClientFqdn",
            OptionCode::NtpServer => "NtpServer",
            OptionCode::ClientLinklayerAddr => "ClientLinklayerAddr",
        };
        name.to_owned()
    }
}

} // verus!
