//! Socket retries, boot files and text.

use crate::config::Config;
use crate::errors::DhcpError;
use crate::metrics::SocketSetupNextAction;
use crate::modes::DhcpRecord;
#[allow(unused_imports)]
use crate::{
    address::{ipv4_text, law_ipv4_text_reads_back, numbers_read},
    errors::ErrorView,
    text::utf8_fault,
};
use crate::text::utf8_text;
use vstd::prelude::*;
use vstd::slice::slice_to_vec;
use vstd::string::StringExecFns;

verus! {

/// How often a socket is set up before the server gives up.
pub const SOCKET_SETUP_ATTEMPTS: i32 = 10;

/// How often a socket is bound to its interface before the server gives up.
pub const INTERFACE_BIND_ATTEMPTS: i32 = 10;

/// How often a DHCPv6 socket is set up before its listener gives up.
pub const DHCPV6_SOCKET_SETUP_ATTEMPTS: usize = 10;

/// What follows the failure of the attempt with number `retry`, counted from zero.
pub fn socket_setup_next_action(retry: i32) -> (action: SocketSetupNextAction)
    ensures
        action == (if retry + 1 == SOCKET_SETUP_ATTEMPTS {
            SocketSetupNextAction::Panic
        } else {
            SocketSetupNextAction::Retry
        }),
        action is Panic <==> retry == 9,
{
    if retry == SOCKET_SETUP_ATTEMPTS - 1 {
        SocketSetupNextAction::Panic
    } else {
        SocketSetupNextAction::Retry
    }
}

/// What follows a failure to bind to an interface when `retries_left` attempts are left.
pub fn interface_bind_next_action(retries_left: i32) -> (action: SocketSetupNextAction)
    ensures
        action == (if retries_left == 0 {
            SocketSetupNextAction::Panic
        } else {
            SocketSetupNextAction::Retry
        }),
{
    if retries_left == 0 {
        SocketSetupNextAction::Panic
    } else {
        SocketSetupNextAction::Retry
    }
}

/// How many attempts are left for a DHCPv6 socket after one failed, or `None` when the listener
/// gives up.
pub fn v6_attempts_left(attempts_remaining: usize) -> (left: Option<usize>)
    requires
        attempts_remaining > 0,
    ensures
        left == (if attempts_remaining == 1 {
            None
        } else {
            Some((attempts_remaining - 1) as usize)
        }),
{
    if attempts_remaining == 1 {
        None
    } else {
        Some(attempts_remaining - 1)
    }
}

/// Attempts are counted down one by one, and the last one leaves none.
pub proof fn law_attempts_are_counted_down(attempts_remaining: usize, left: Option<usize>)
    requires
        attempts_remaining > 0,
        call_ensures(v6_attempts_left, (attempts_remaining,), left),
    ensures
        left is None <==> attempts_remaining == 1,
        left matches Some(left) ==> left + 1 == attempts_remaining && left > 0,
{
}

/// Read octets as text.
pub fn u8_to_hex_string(data: &[u8]) -> (result: Result<String, DhcpError>)
    ensures
        match result {
            Ok(text) => {
                &&& vstd::utf8::valid_utf8(data@)
                &&& text@ == vstd::utf8::decode_utf8(data@)
            },
            Err(error) => !vstd::utf8::valid_utf8(data@) && error@ == ErrorView::Utf8Error(
                utf8_fault(data@),
            ),
        },
{
    match utf8_text(data) {
        Ok(text) => Ok(text),
        Err(reason) => Err(DhcpError::Utf8Error(reason)),
    }
}

/// The architecture of a machine that boots over the network.
#[derive(Debug, Clone, Copy, PartialEq, Eq, Structural)]
pub enum MachineArchitecture {
    EfiX64,
    Arm64,
    BiosX86,
    Unknown,
}

/// What a machine's vendor class says: whether it boots over the network, and what it is.
#[derive(Debug, Clone, Copy, PartialEq, Eq, Structural)]
pub struct VendorClass {
    pub netboot: bool,
    pub arch: MachineArchitecture,
}

/// The URL that a machine boots from: the one that the API gives, or else the one for the machine's
/// architecture, or none.
pub open spec fn boot_url(booturl: Option<Seq<char>>, vendor: VendorClass, server: Seq<u8>) -> Seq<
    char,
> {
    match booturl {
        Some(url) => url,
        None => if !vendor.netboot {
            Seq::empty()
        } else {
            match vendor.arch {
                MachineArchitecture::EfiX64 => "http://"@ + ipv4_text(server)
                    + ":8080/public/blobs/internal/x86_64/ipxe.efi"@,
                MachineArchitecture::Arm64 => "http://"@ + ipv4_text(server)
                    + ":8080/public/blobs/internal/aarch64/ipxe.efi"@,
                MachineArchitecture::BiosX86 | MachineArchitecture::Unknown => Seq::empty(),
            }
        },
    }
}

/// A machine boots from the URL that the API gives for it, whatever it is and wherever it is
/// provisioned from. Without one, a machine of a known architecture that boots over the network
/// boots from its provisioning server, from the file for its architecture; any other boots from
/// nothing.
pub proof fn law_given_boot_url_goes_first(
    booturl: Option<Seq<char>>,
    vendor: VendorClass,
    server: Seq<u8>,
)
    requires
        server.len() == 4,
    ensures
        ({
            let url = boot_url(booturl, vendor, server);
            let known = vendor.arch is EfiX64 || vendor.arch is Arm64;
            let path = if vendor.arch is EfiX64 {
                ":8080/public/blobs/internal/x86_64/ipxe.efi"@
            } else {
                ":8080/public/blobs/internal/aarch64/ipxe.efi"@
            };
            &&& booturl is Some ==> url == booturl->Some_0
            &&& booturl is None && !(vendor.netboot && known) ==> url == Seq::<char>::empty()
            &&& booturl is None && vendor.netboot && known ==> exists|host: Seq<char>|
                {
                    &&& url == "http://"@ + host + path
                    &&& #[trigger] numbers_read(host, 4) == seq![
                        server[0] as int,
                        server[1] as int,
                        server[2] as int,
                        server[3] as int,
                    ]
                }
        }),
{
    law_ipv4_text_reads_back(server);
}

/// Return the octets of the URL that a machine boots from, none where there is no such URL.
pub fn machine_get_filename(
    dhcp_response: &DhcpRecord,
    vendor_class: &VendorClass,
    config: &Config,
) -> (filename: Vec<u8>)
    ensures
        filename@ == vstd::utf8::encode_utf8(
            boot_url(
                crate::text::text_of(dhcp_response.booturl),
                *vendor_class,
                config.dhcp_config.carbide_provisioning_server_ipv4@,
            ),
        ),
        dhcp_response.booturl matches Some(url) ==> filename@ == vstd::utf8::encode_utf8(url@),
{
    let mut url = String::new();
    match &dhcp_response.booturl {
        Some(booturl) => {
            url = booturl.clone();
        },
        None => {
            if vendor_class.netboot {
                let path = match vendor_class.arch {
                    MachineArchitecture::EfiX64 => {
                        Some(":8080/public/blobs/internal/x86_64/ipxe.efi")
                    },
                    MachineArchitecture::Arm64 => {
                        Some(":8080/public/blobs/internal/aarch64/ipxe.efi")
                    },
                    _ => None,
                };
                if let Some(path) = path {
                    url = "http://".to_owned();
                    url.append(config.dhcp_config.carbide_provisioning_server_ipv4.text().as_str());
                    url.append(path);
                }
            }
        },
    }
    slice_to_vec(url.as_str().as_bytes())
}

} // verus!
