//! DHCPv6 option lists, held by the `dhcproto` crate.

use crate::address::Ipv6Addr;
use dhcproto::v6;
use dhcproto::v6::{DhcpOption, IAAddr, NtpSuboption, StatusCode, UnknownOption, IANA};

use vstd::prelude::*;

verus! {

/// `dhcproto`'s list of options.
#[verifier::external_type_specification]
#[verifier::external_body]
pub struct ExDhcpOptions(v6::DhcpOptions);

/// One time server of a list: its address, or its name as text.
pub enum NtpView {
    Address(Seq<u8>),
    Name(Seq<char>),
}

/// One option of a list. `Unknown` is an option whose payload `dhcproto` keeps as it is. `Other` is
/// one that `dhcproto` takes apart and that the service never reads; `data` are the octets of its
/// payload. A domain search list is seen as the texts of its names.
pub enum OptionView {
    ClientId(Seq<u8>),
    ServerId(Seq<u8>),
    IaNa { id: u32, t1: u32, t2: u32, options: Seq<OptionView> },
    IaTa { id: u32, options: Seq<OptionView> },
    IaAddr { address: Seq<u8>, preferred_life: u32, valid_life: u32, options: Seq<OptionView> },
    StatusCode { status: u16, text: Seq<u8> },
    VendorClass { enterprise: u32, values: Seq<Seq<u8>> },
    DomainNameServers(Seq<Seq<u8>>),
    DomainSearchList(Seq<Seq<char>>),
    IaPd { id: u32, t1: u32, t2: u32, options: Seq<OptionView> },
    IaPrefix {
        preferred_life: u32,
        valid_life: u32,
        length: u8,
        prefix: Seq<u8>,
        options: Seq<OptionView>,
    },
    NtpServer(Seq<NtpView>),
    Unknown { code: u16, data: Seq<u8> },
    Other { code: u16, data: Seq<u8> },
}

impl OptionView {
    /// The option's registered number.
    pub open spec fn number(self) -> u16 {
        match self {
            OptionView::ClientId(_) => 1,
            OptionView::ServerId(_) => 2,
            OptionView::IaNa { .. } => 3,
            OptionView::IaTa { .. } => 4,
            OptionView::IaAddr { .. } => 5,
            OptionView::StatusCode { .. } => 13,
            OptionView::VendorClass { .. } => 16,
            OptionView::DomainNameServers(_) => 23,
            OptionView::DomainSearchList(_) => 24,
            OptionView::IaPd { .. } => 25,
            OptionView::IaPrefix { .. } => 26,
            OptionView::NtpServer(_) => 56,
            OptionView::Unknown { code, .. } => code,
            OptionView::Other { code, .. } => code,
        }
    }
}

/// The options that a `dhcproto` list holds, in the list's order.
pub uninterp spec fn contents(list: v6::DhcpOptions) -> Seq<OptionView>;

/// Options in ascending order of their numbers.
pub open spec fn ordered(options: Seq<OptionView>) -> bool {
    forall|i: int, j: int|
        0 <= i <= j < options.len() ==> (#[trigger] options[i]).number() <= (
        #[trigger] options[j]).number()
}

/// How many options at the front of a list have a number below `number`.
pub open spec fn position(options: Seq<OptionView>, number: u16) -> int
    decreases options.len(),
{
    if options.len() == 0 || options[0].number() >= number {
        0
    } else {
        1 + position(options.skip(1), number)
    }
}

/// A list with one more option, put before the first that has no smaller number.
pub open spec fn with_option(options: Seq<OptionView>, option: OptionView) -> Seq<OptionView> {
    options.insert(position(options, option.number()), option)
}

/// The options of a list that have `number`, in the list's order.
pub open spec fn numbered(options: Seq<OptionView>, number: u16) -> Seq<OptionView>
    decreases options.len(),
{
    if options.len() == 0 {
        Seq::empty()
    } else if options[0].number() == number {
        seq![options[0]] + numbered(options.skip(1), number)
    } else {
        numbered(options.skip(1), number)
    }
}

/// An option that the service puts into a list.
#[derive(Debug)]
pub enum ServerOption {
    ClientId(Vec<u8>),
    ServerId(Vec<u8>),
    IaNa { id: u32, t1: u32, t2: u32, options: OptionList },
    IaAddr { address: Ipv6Addr, preferred_life: u32, valid_life: u32, options: OptionList },
    StatusCode { status: u16, text: String },
    Unknown { code: u16, data: Vec<u8> },
}

/// An option that tells a client of servers.
#[derive(Debug)]
pub enum ServersOption {
    DomainNameServers(Vec<Ipv6Addr>),
    NtpServer(Vec<Ipv6Addr>),
}

impl View for ServersOption {
    type V = OptionView;

    open spec fn view(&self) -> OptionView {
        match self {
            ServersOption::DomainNameServers(servers) => OptionView::DomainNameServers(
                address_octets(servers@),
            ),
            ServersOption::NtpServer(servers) => OptionView::NtpServer(ntp_addresses(servers@)),
        }
    }
}

/// Time servers that are told by their addresses.
pub open spec fn ntp_addresses(addresses: Seq<Ipv6Addr>) -> Seq<NtpView> {
    addresses.map_values(|address: Ipv6Addr| NtpView::Address(address@))
}

/// The octets of each address of a list.
pub open spec fn address_octets(addresses: Seq<Ipv6Addr>) -> Seq<Seq<u8>> {
    addresses.map_values(|address: Ipv6Addr| address@)
}

impl View for ServerOption {
    type V = OptionView;

    open spec fn view(&self) -> OptionView {
        match self {
            ServerOption::ClientId(duid) => OptionView::ClientId(duid@),
            ServerOption::ServerId(duid) => OptionView::ServerId(duid@),
            ServerOption::IaNa { id, t1, t2, options } => OptionView::IaNa {
                id: *id,
                t1: *t1,
                t2: *t2,
                options: options@,
            },
            ServerOption::IaAddr { address, preferred_life, valid_life, options } => {
                OptionView::IaAddr {
                    address: address@,
                    preferred_life: *preferred_life,
                    valid_life: *valid_life,
                    options: options@,
                }
            },
            ServerOption::StatusCode { status, text } => OptionView::StatusCode {
                status: *status,
                text: vstd::utf8::encode_utf8(text@),
            },
            ServerOption::Unknown { code, data } => OptionView::Unknown { code: *code, data: data@ },
        }
    }
}

/// An option that the service reads out of a list.
#[derive(Debug)]
pub enum ClientOption {
    ClientId(Vec<u8>),
    ServerId(Vec<u8>),
    IaNa { id: u32, options: OptionList },
    IaAddr(Ipv6Addr),
    VendorClass(Vec<Vec<u8>>),
    Unknown(Vec<u8>),
    Other,
}

/// The octets of each string of a list.
pub open spec fn strings(values: Seq<Vec<u8>>) -> Seq<Seq<u8>> {
    values.map_values(|value: Vec<u8>| value@)
}

impl ClientOption {
    /// Whether this is what the service reads out of `option`.
    pub open spec fn shows(self, option: OptionView) -> bool {
        match option {
            OptionView::ClientId(duid) => self matches ClientOption::ClientId(read) && read@
                == duid,
            OptionView::ServerId(duid) => self matches ClientOption::ServerId(read) && read@
                == duid,
            OptionView::IaNa { id, options, .. } => self matches ClientOption::IaNa {
                id: read,
                options: nested,
            } && read == id && nested@ == options,
            OptionView::IaAddr { address, .. } => self matches ClientOption::IaAddr(read) && read@
                == address,
            OptionView::VendorClass { values, .. } => self matches ClientOption::VendorClass(read)
                && strings(read@) == values,
            OptionView::Unknown { data, .. } => self matches ClientOption::Unknown(read) && read@
                == data,
            _ => self is Other,
        }
    }
}

/// `dhcproto::v6::DhcpOptions::new`: a list without options.
pub assume_specification[ v6::DhcpOptions::new ]() -> (list: v6::DhcpOptions)
    ensures
        contents(list) == Seq::<OptionView>::empty(),
;

/// `dhcproto::v6::DhcpOptions::insert`: the option goes before the first one of the list whose
/// number is not smaller. The list has to be in order, as every list that `dhcproto` makes is.
#[verifier::external_body]
fn insert_into(list: &mut v6::DhcpOptions, option: ServerOption)
    requires
        ordered(contents(*old(list))),
    ensures
        contents(*final(list)) == with_option(contents(*old(list)), option@),
{
    list.insert(match option {
        ServerOption::ClientId(duid) => DhcpOption::ClientId(duid),
        ServerOption::ServerId(duid) => DhcpOption::ServerId(duid),
        ServerOption::IaNa { id, t1, t2, options } => DhcpOption::IANA(IANA { id, t1, t2, opts: options.list }),
        ServerOption::IaAddr { address, preferred_life, valid_life, options } => {
            DhcpOption::IAAddr(IAAddr { addr: address.octets.into(), preferred_life, valid_life, opts: options.list })
        },
        ServerOption::StatusCode { status, text } => {
            DhcpOption::StatusCode(StatusCode { status: status.into(), msg: text })
        },
        ServerOption::Unknown { code, data } => DhcpOption::Unknown(UnknownOption::new(code.into(), data)),
    });
}

/// `dhcproto::v6::DhcpOptions::insert` for an option that tells of servers: it goes to the same
/// place.
#[verifier::external_body]
fn insert_servers_into(list: &mut v6::DhcpOptions, option: ServersOption)
    requires
        ordered(contents(*old(list))),
    ensures
        contents(*final(list)) == with_option(contents(*old(list)), option@),
{
    list.insert(match option {
        ServersOption::DomainNameServers(servers) => {
            DhcpOption::DomainNameServers(servers.iter().map(|server| server.octets.into()).collect())
        },
        ServersOption::NtpServer(servers) => {
            DhcpOption::NtpServer(servers.iter().map(|server| NtpSuboption::ServerAddress(server.octets.into())).collect())
        },
    });
}

/// `dhcproto::v6::DhcpOptions::get_all`: the options with one number, in the list's order, each
/// seen as a `ClientOption`. The list has to be in order, as every list that `dhcproto` makes is.
#[verifier::external_body]
fn get_all_from(list: &v6::DhcpOptions, number: u16) -> (found: Vec<ClientOption>)
    requires
        ordered(contents(*list)),
    ensures
        found@.len() == numbered(contents(*list), number).len(),
        forall|i: int|
            0 <= i < found@.len() ==> (#[trigger] found@[i]).shows(
                numbered(contents(*list), number)[i],
            ),
{
    let found = list.get_all(number.into()).unwrap_or_default();
    found.iter().map(|option| match option {
        DhcpOption::ClientId(duid) => ClientOption::ClientId(duid.clone()),
        DhcpOption::ServerId(duid) => ClientOption::ServerId(duid.clone()),
        DhcpOption::IANA(ia) => ClientOption::IaNa { id: ia.id, options: OptionList { list: ia.opts.clone() } },
        DhcpOption::IAAddr(ia) => ClientOption::IaAddr(Ipv6Addr { octets: ia.addr.octets() }),
        DhcpOption::VendorClass(class) => ClientOption::VendorClass(class.data.clone()),
        DhcpOption::Unknown(option) => ClientOption::Unknown(option.data().to_vec()),
        _ => ClientOption::Other,
    }).collect()
}

/// A list of options in ascending order of their numbers.
#[derive(Debug)]
pub struct OptionList {
    pub(crate) list: v6::DhcpOptions,
}

impl View for OptionList {
    type V = Seq<OptionView>;

    closed spec fn view(&self) -> Seq<OptionView> {
        contents(self.list)
    }
}

/// The front of an ordered list that is below `number` ends at `position`.
pub(crate) proof fn lemma_position(options: Seq<OptionView>, number: u16)
    ensures
        0 <= position(options, number) <= options.len(),
        forall|i: int|
            0 <= i < position(options, number) ==> (#[trigger] options[i]).number() < number,
        position(options, number) < options.len() ==> options[position(
            options,
            number,
        )].number() >= number,
    decreases options.len(),
{
    if options.len() != 0 && options[0].number() < number {
        let rest = options.skip(1);
        lemma_position(rest, number);
        assert forall|i: int| 0 <= i < position(options, number) implies (
        #[trigger] options[i]).number() < number by {
            if i > 0 {
                assert(options[i] == rest[i - 1]);
            }
        }
    }
}

/// An ordered list stays ordered when an option is put into it.
pub proof fn law_insertion_keeps_order(options: Seq<OptionView>, option: OptionView)
    requires
        ordered(options),
    ensures
        ordered(with_option(options, option)),
{
    lemma_position(options, option.number());
}

impl OptionList {
    #[verifier::type_invariant]
    spec fn in_order(self) -> bool {
        ordered(contents(self.list))
    }

    /// A list without options.
    pub fn new() -> (list: Self)
        ensures
            list@ == Seq::<OptionView>::empty(),
    {
        OptionList { list: v6::DhcpOptions::new() }
    }

    /// This list with `option` put before the first option that has no smaller number.
    pub fn insert(self, option: ServerOption) -> (list: Self)
        ensures
            list@ == with_option(self@, option@),
    {
        proof {
            use_type_invariant(&self);
            law_insertion_keeps_order(self@, option@);
        }
        let mut list = self.list;
        insert_into(&mut list, option);
        OptionList { list }
    }

    /// This list with `option` put before the first option that has no smaller number.
    pub fn insert_servers(self, option: ServersOption) -> (list: Self)
        ensures
            list@ == with_option(self@, option@),
    {
        proof {
            use_type_invariant(&self);
            law_insertion_keeps_order(self@, option@);
        }
        let mut list = self.list;
        insert_servers_into(&mut list, option);
        OptionList { list }
    }

    /// The options that have `number`, in the list's order.
    pub fn get_all(&self, number: u16) -> (found: Vec<ClientOption>)
        ensures
            found@.len() == numbered(self@, number).len(),
            forall|i: int|
                0 <= i < found@.len() ==> (#[trigger] found@[i]).shows(numbered(self@, number)[i]),
    {
        proof {
            use_type_invariant(self);
        }
        get_all_from(&self.list, number)
    }
}

} // verus!
