//! Why a request is not served.

use crate::address::Ipv4Addr;
use crate::message::{MessageType, MessageTypeV4, OptionCode};
#[allow(unused_imports)]
use crate::{
    address::ipv4_text,
    message::{message_name, message_name_v4, option_name},
    text::decimal_text,
};
use crate::text::push_decimal;
use vstd::prelude::*;
use vstd::string::StringExecFns;

verus! {

/// Why a packet or a command is not served.
#[derive(Debug)]
pub enum DhcpError {
    /// Why the operating system refused.
    IoError(String),
    /// Why a configuration file cannot be read.
    SerdeYaml(String),
    MissingArgument(String),
    /// The name of a DHCPv4 option.
    MissingOption(String),
    UnhandledMessageType(MessageTypeV4),
    DhcpDeclineMessage(String, String),
    /// The name of a DHCPv4 relay suboption.
    MissingRelayCode(String),
    InvalidInput(String),
    GenericError(String),
    /// What the API answered.
    TonicStatusError(String),
    /// Why octets are not text.
    Utf8Error(String),
    /// The codec's words for why it cannot read a packet.
    PacketDecodeFailure(String),
    /// The codec's words for why it cannot write a packet.
    PacketEncodeFailure(String),
    /// Why a text is no address.
    AddressParseError(String),
    NonRelayedPacket(Ipv4Addr),
    UnknownPacket(u8),
    NotMyPacket(String),
    VendorClassParseError(String),
    MultipleInterfacesProvidedOneSupported(usize),
    MissingOptionV6(OptionCode),
    UnhandledMessageTypeV6(MessageType),
    MalformedDuid,
    UnsupportedDuidType(u16),
    NoMacNoOption79,
    NestedRelayV6,
    RelayHopCountExceededV6(u8),
}

/// What an error says.
pub enum ErrorView {
    IoError(Seq<char>),
    SerdeYaml(Seq<char>),
    MissingArgument(Seq<char>),
    MissingOption(Seq<char>),
    UnhandledMessageType(MessageTypeV4),
    DhcpDeclineMessage(Seq<char>, Seq<char>),
    MissingRelayCode(Seq<char>),
    InvalidInput(Seq<char>),
    GenericError(Seq<char>),
    TonicStatusError(Seq<char>),
    Utf8Error(Seq<char>),
    PacketDecodeFailure(Seq<char>),
    PacketEncodeFailure(Seq<char>),
    AddressParseError(Seq<char>),
    NonRelayedPacket(Seq<u8>),
    UnknownPacket(u8),
    NotMyPacket(Seq<char>),
    VendorClassParseError(Seq<char>),
    MultipleInterfacesProvidedOneSupported(usize),
    MissingOptionV6(OptionCode),
    UnhandledMessageTypeV6(MessageType),
    MalformedDuid,
    UnsupportedDuidType(u16),
    NoMacNoOption79,
    NestedRelayV6,
    RelayHopCountExceededV6(u8),
}

impl View for DhcpError {
    type V = ErrorView;

    open spec fn view(&self) -> ErrorView {
        match self {
            DhcpError::IoError(first) => ErrorView::IoError(first@),
            DhcpError::SerdeYaml(first) => ErrorView::SerdeYaml(first@),
            DhcpError::MissingArgument(first) => ErrorView::MissingArgument(first@),
            DhcpError::MissingOption(first) => ErrorView::MissingOption(first@),
            DhcpError::UnhandledMessageType(first) => ErrorView::UnhandledMessageType(*first),
            DhcpError::DhcpDeclineMessage(first, second) => ErrorView::DhcpDeclineMessage(
                first@,
                second@,
            ),
            DhcpError::MissingRelayCode(first) => ErrorView::MissingRelayCode(first@),
            DhcpError::InvalidInput(first) => ErrorView::InvalidInput(first@),
            DhcpError::GenericError(first) => ErrorView::GenericError(first@),
            DhcpError::TonicStatusError(first) => ErrorView::TonicStatusError(first@),
            DhcpError::Utf8Error(first) => ErrorView::Utf8Error(first@),
            DhcpError::PacketDecodeFailure(first) => ErrorView::PacketDecodeFailure(first@),
            DhcpError::PacketEncodeFailure(first) => ErrorView::PacketEncodeFailure(first@),
            DhcpError::AddressParseError(first) => ErrorView::AddressParseError(first@),
            DhcpError::NonRelayedPacket(first) => ErrorView::NonRelayedPacket(first@),
            DhcpError::UnknownPacket(first) => ErrorView::UnknownPacket(*first),
            DhcpError::NotMyPacket(first) => ErrorView::NotMyPacket(first@),
            DhcpError::VendorClassParseError(first) => ErrorView::VendorClassParseError(first@),
            DhcpError::MultipleInterfacesProvidedOneSupported(first) => {
                ErrorView::MultipleInterfacesProvidedOneSupported(*first)
            },
            DhcpError::MissingOptionV6(first) => ErrorView::MissingOptionV6(*first),
            DhcpError::UnhandledMessageTypeV6(first) => ErrorView::UnhandledMessageTypeV6(*first),
            DhcpError::MalformedDuid => ErrorView::MalformedDuid,
            DhcpError::UnsupportedDuidType(first) => ErrorView::UnsupportedDuidType(*first),
            DhcpError::NoMacNoOption79 => ErrorView::NoMacNoOption79,
            DhcpError::NestedRelayV6 => ErrorView::NestedRelayV6,
            DhcpError::RelayHopCountExceededV6(first) => ErrorView::RelayHopCountExceededV6(*first),
        }
    }
}

/// `std`'s way to show a text: between quotation marks, with what is special in it escaped.
pub uninterp spec fn quoted(text: Seq<char>) -> Seq<char>;

/// `std`'s `Debug` form of a `str`, which depends on the text alone.
#[verifier::external_body]
fn quote(text: &str) -> (shown: String)
    ensures
        shown@ == quoted(text@),
{
    format!("{text:?}")
}

/// How an error is told.
pub open spec fn error_text(error: ErrorView) -> Seq<char> {
    match error {
        ErrorView::IoError(first) => "IO error: "@ + first,
        ErrorView::SerdeYaml(first) => "serde_yaml: "@ + first,
        ErrorView::MissingArgument(first) => "missing argument: "@ + first,
        ErrorView::MissingOption(first) => "missing option: "@ + first,
        ErrorView::UnhandledMessageType(first) => "missing message type: "@ + message_name_v4(first),
        ErrorView::DhcpDeclineMessage(first, second) => "DhcpDecline message received for IP: "@ + first + ", mac: "@ + quoted(second),
        ErrorView::MissingRelayCode(first) => "missing relay code: "@ + first,
        ErrorView::InvalidInput(first) => "invalid input: "@ + first,
        ErrorView::GenericError(first) => "generic error: "@ + first,
        ErrorView::TonicStatusError(first) => "GRPC failure: "@ + first,
        ErrorView::Utf8Error(first) => "utf8 decoding failure: "@ + first,
        ErrorView::PacketDecodeFailure(first) => "utf8 decoding failure: "@ + first,
        ErrorView::PacketEncodeFailure(first) => "utf8 decoding failure: "@ + first,
        ErrorView::AddressParseError(first) => "utf8 decoding failure: "@ + first,
        ErrorView::NonRelayedPacket(first) => "non relayed packet received: "@ + ipv4_text(first) + ". dropping!"@,
        ErrorView::UnknownPacket(first) => "unknown packet: "@ + decimal_text(first as nat),
        ErrorView::NotMyPacket(first) => "packet received for other server: "@ + first,
        ErrorView::VendorClassParseError(first) => "vendor class parse error: "@ + quoted(first),
        ErrorView::MultipleInterfacesProvidedOneSupported(first) => "multiple interfaces are provided, but only 1 is supported: "@ + decimal_text(first as nat),
        ErrorView::MissingOptionV6(first) => "missing DHCPv6 option: "@ + option_name(first),
        ErrorView::UnhandledMessageTypeV6(first) => "unhandled DHCPv6 message type: "@ + message_name(first),
        ErrorView::MalformedDuid => "malformed DHCPv6 client DUID"@,
        ErrorView::UnsupportedDuidType(first) => "unsupported DHCPv6 DUID type: "@ + decimal_text(first as nat),
        ErrorView::NoMacNoOption79 => "DHCPv6 client identity has no MAC and relay option 79 is absent"@,
        ErrorView::NestedRelayV6 => "nested DHCPv6 relay messages are unsupported"@,
        ErrorView::RelayHopCountExceededV6(first) => "DHCPv6 relay hop count "@ + decimal_text(first as nat) + " is invalid for the supported single-envelope path"@,
    }
}

/// Whether two texts tell two details in the same words: the words, and behind them the detail.
pub open spec fn told_alike(
    left_text: Seq<char>,
    left: Seq<char>,
    right_text: Seq<char>,
    right: Seq<char>,
) -> bool {
    exists|words: Seq<char>| left_text == #[trigger] (words + left) && right_text == words + right
}

/// Words before two details tell them alike.
pub(crate) proof fn lemma_told_alike(words: Seq<char>, left: Seq<char>, right: Seq<char>)
    ensures
        told_alike(words + left, left, words + right, right),
{
}

/// An error tells its detail in full and at the end, in words that depend on its kind alone.
pub proof fn law_errors_tell_their_detail(left: Seq<char>, right: Seq<char>)
    ensures
        told_alike(error_text(ErrorView::IoError(left)), left, error_text(ErrorView::IoError(right)), right),
        told_alike(error_text(ErrorView::SerdeYaml(left)), left, error_text(ErrorView::SerdeYaml(right)), right),
        told_alike(error_text(ErrorView::MissingArgument(left)), left, error_text(ErrorView::MissingArgument(right)), right),
        told_alike(error_text(ErrorView::MissingOption(left)), left, error_text(ErrorView::MissingOption(right)), right),
        told_alike(error_text(ErrorView::MissingRelayCode(left)), left, error_text(ErrorView::MissingRelayCode(right)), right),
        told_alike(error_text(ErrorView::InvalidInput(left)), left, error_text(ErrorView::InvalidInput(right)), right),
        told_alike(error_text(ErrorView::GenericError(left)), left, error_text(ErrorView::GenericError(right)), right),
        told_alike(error_text(ErrorView::TonicStatusError(left)), left, error_text(ErrorView::TonicStatusError(right)), right),
        told_alike(error_text(ErrorView::Utf8Error(left)), left, error_text(ErrorView::Utf8Error(right)), right),
        told_alike(error_text(ErrorView::PacketDecodeFailure(left)), left, error_text(ErrorView::PacketDecodeFailure(right)), right),
        told_alike(error_text(ErrorView::PacketEncodeFailure(left)), left, error_text(ErrorView::PacketEncodeFailure(right)), right),
        told_alike(error_text(ErrorView::AddressParseError(left)), left, error_text(ErrorView::AddressParseError(right)), right),
        told_alike(error_text(ErrorView::NotMyPacket(left)), left, error_text(ErrorView::NotMyPacket(right)), right),
{
    lemma_told_alike("IO error: "@, left, right);
    lemma_told_alike("serde_yaml: "@, left, right);
    lemma_told_alike("missing argument: "@, left, right);
    lemma_told_alike("missing option: "@, left, right);
    lemma_told_alike("missing relay code: "@, left, right);
    lemma_told_alike("invalid input: "@, left, right);
    lemma_told_alike("generic error: "@, left, right);
    lemma_told_alike("GRPC failure: "@, left, right);
    lemma_told_alike("utf8 decoding failure: "@, left, right);
    lemma_told_alike("utf8 decoding failure: "@, left, right);
    lemma_told_alike("utf8 decoding failure: "@, left, right);
    lemma_told_alike("utf8 decoding failure: "@, left, right);
    lemma_told_alike("packet received for other server: "@, left, right);
}

/// An error about a message or an option tells its name, one about a packet that was not relayed tells
/// its sender, and one about a declined address tells the address and, quoted, who declined it.
pub proof fn law_errors_tell_what_they_are_about(
    left_type: MessageType,
    right_type: MessageType,
    left_option: OptionCode,
    right_option: OptionCode,
    left_kind: MessageTypeV4,
    right_kind: MessageTypeV4,
)
    ensures
        told_alike(
            error_text(ErrorView::UnhandledMessageTypeV6(left_type)),
            message_name(left_type),
            error_text(ErrorView::UnhandledMessageTypeV6(right_type)),
            message_name(right_type),
        ),
        told_alike(
            error_text(ErrorView::MissingOptionV6(left_option)),
            option_name(left_option),
            error_text(ErrorView::MissingOptionV6(right_option)),
            option_name(right_option),
        ),
        told_alike(
            error_text(ErrorView::UnhandledMessageType(left_kind)),
            message_name_v4(left_kind),
            error_text(ErrorView::UnhandledMessageType(right_kind)),
            message_name_v4(right_kind),
        ),
        forall|sender: Seq<u8>|
            #[trigger] error_text(ErrorView::NonRelayedPacket(sender))
                == "non relayed packet received: "@ + ipv4_text(sender) + ". dropping!"@,
        forall|address: Seq<char>, mac: Seq<char>|
            #[trigger] error_text(ErrorView::DhcpDeclineMessage(address, mac))
                == "DhcpDecline message received for IP: "@ + address + ", mac: "@ + quoted(mac),
        forall|class: Seq<char>|
            #[trigger] error_text(ErrorView::VendorClassParseError(class))
                == "vendor class parse error: "@ + quoted(class),
{
    lemma_told_alike(
        "unhandled DHCPv6 message type: "@,
        message_name(left_type),
        message_name(right_type),
    );
    lemma_told_alike(
        "missing DHCPv6 option: "@,
        option_name(left_option),
        option_name(right_option),
    );
    lemma_told_alike(
        "missing message type: "@,
        message_name_v4(left_kind),
        message_name_v4(right_kind),
    );
}

/// An error about a number tells the number in decimal, behind words that depend on its kind alone;
/// an invalid hop count is told before more words.
pub proof fn law_errors_tell_their_number(
    left: u16,
    right: u16,
    left_octet: u8,
    right_octet: u8,
    left_count: usize,
    right_count: usize,
)
    ensures
        told_alike(
            error_text(ErrorView::UnsupportedDuidType(left)),
            decimal_text(left as nat),
            error_text(ErrorView::UnsupportedDuidType(right)),
            decimal_text(right as nat),
        ),
        told_alike(
            error_text(ErrorView::UnknownPacket(left_octet)),
            decimal_text(left_octet as nat),
            error_text(ErrorView::UnknownPacket(right_octet)),
            decimal_text(right_octet as nat),
        ),
        told_alike(
            error_text(ErrorView::MultipleInterfacesProvidedOneSupported(left_count)),
            decimal_text(left_count as nat),
            error_text(ErrorView::MultipleInterfacesProvidedOneSupported(right_count)),
            decimal_text(right_count as nat),
        ),
        told_alike(
            error_text(ErrorView::RelayHopCountExceededV6(left_octet)),
            decimal_text(left_octet as nat)
                + " is invalid for the supported single-envelope path"@,
            error_text(ErrorView::RelayHopCountExceededV6(right_octet)),
            decimal_text(right_octet as nat)
                + " is invalid for the supported single-envelope path"@,
        ),
{
    lemma_told_alike(
        "unsupported DHCPv6 DUID type: "@,
        decimal_text(left as nat),
        decimal_text(right as nat),
    );
    lemma_told_alike(
        "unknown packet: "@,
        decimal_text(left_octet as nat),
        decimal_text(right_octet as nat),
    );
    lemma_told_alike(
        "multiple interfaces are provided, but only 1 is supported: "@,
        decimal_text(left_count as nat),
        decimal_text(right_count as nat),
    );
    let words = "DHCPv6 relay hop count "@;
    let behind = " is invalid for the supported single-envelope path"@;
    let one = decimal_text(left_octet as nat) + behind;
    let other = decimal_text(right_octet as nat) + behind;
    lemma_told_alike(words, one, other);
    assert(error_text(ErrorView::RelayHopCountExceededV6(left_octet)) =~= words + one);
    assert(error_text(ErrorView::RelayHopCountExceededV6(right_octet)) =~= words + other);
}

impl DhcpError {
    /// How this error is told.
    pub fn message(&self) -> (text: String)
        ensures
            text@ == error_text(self@),
    {
        match self {
            DhcpError::IoError(first) => {
                let mut text = "IO error: ".to_owned();
                text.append(first.as_str());
                text
            },
            DhcpError::SerdeYaml(first) => {
                let mut text = "serde_yaml: ".to_owned();
                text.append(first.as_str());
                text
            },
            DhcpError::MissingArgument(first) => {
                let mut text = "missing argument: ".to_owned();
                text.append(first.as_str());
                text
            },
            DhcpError::MissingOption(first) => {
                let mut text = "missing option: ".to_owned();
                text.append(first.as_str());
                text
            },
            DhcpError::UnhandledMessageType(first) => {
                let mut text = "missing message type: ".to_owned();
                text.append(first.name().as_str());
                text
            },
            DhcpError::DhcpDeclineMessage(first, second) => {
                let mut text = "DhcpDecline message received for IP: ".to_owned();
                text.append(first.as_str());
                text.append(", mac: ");
                text.append(quote(second.as_str()).as_str());
                text
            },
            DhcpError::MissingRelayCode(first) => {
                let mut text = "missing relay code: ".to_owned();
                text.append(first.as_str());
                text
            },
            DhcpError::InvalidInput(first) => {
                let mut text = "invalid input: ".to_owned();
                text.append(first.as_str());
                text
            },
            DhcpError::GenericError(first) => {
                let mut text = "generic error: ".to_owned();
                text.append(first.as_str());
                text
            },
            DhcpError::TonicStatusError(first) => {
                let mut text = "GRPC failure: ".to_owned();
                text.append(first.as_str());
                text
            },
            DhcpError::Utf8Error(first) => {
                let mut text = "utf8 decoding failure: ".to_owned();
                text.append(first.as_str());
                text
            },
            DhcpError::PacketDecodeFailure(first) => {
                let mut text = "utf8 decoding failure: ".to_owned();
                text.append(first.as_str());
                text
            },
            DhcpError::PacketEncodeFailure(first) => {
                let mut text = "utf8 decoding failure: ".to_owned();
                text.append(first.as_str());
                text
            },
            DhcpError::AddressParseError(first) => {
                let mut text = "utf8 decoding failure: ".to_owned();
                text.append(first.as_str());
                text
            },
            DhcpError::NonRelayedPacket(first) => {
                let mut text = "non relayed packet received: ".to_owned();
                text.append(first.text().as_str());
                text.append(". dropping!");
                text
            },
            DhcpError::UnknownPacket(first) => {
                let mut text = "unknown packet: ".to_owned();
                push_decimal(&mut text, *first as u64);
                text
            },
            DhcpError::NotMyPacket(first) => {
                let mut text = "packet received for other server: ".to_owned();
                text.append(first.as_str());
                text
            },
            DhcpError::VendorClassParseError(first) => {
                let mut text = "vendor class parse error: ".to_owned();
                text.append(quote(first.as_str()).as_str());
                text
            },
            DhcpError::MultipleInterfacesProvidedOneSupported(first) => {
                let mut text = "multiple interfaces are provided, but only 1 is supported: ".to_owned();
                push_decimal(&mut text, *first as u64);
                text
            },
            DhcpError::MissingOptionV6(first) => {
                let mut text = "missing DHCPv6 option: ".to_owned();
                text.append(first.name().as_str());
                text
            },
            DhcpError::UnhandledMessageTypeV6(first) => {
                let mut text = "unhandled DHCPv6 message type: ".to_owned();
                text.append(first.name().as_str());
                text
            },
            DhcpError::MalformedDuid => "malformed DHCPv6 client DUID".to_owned(),
            DhcpError::UnsupportedDuidType(first) => {
                let mut text = "unsupported DHCPv6 DUID type: ".to_owned();
                push_decimal(&mut text, *first as u64);
                text
            },
            DhcpError::NoMacNoOption79 => "DHCPv6 client identity has no MAC and relay option 79 is absent".to_owned(),
            DhcpError::NestedRelayV6 => "nested DHCPv6 relay messages are unsupported".to_owned(),
            DhcpError::RelayHopCountExceededV6(first) => {
                let mut text = "DHCPv6 relay hop count ".to_owned();
                push_decimal(&mut text, *first as u64);
                text.append(" is invalid for the supported single-envelope path");
                text
            },
        }
    }
}

} // verus!
