//! The configuration of one generation of the server.

use crate::address::{Ipv4Addr, Ipv6Addr};
use vstd::prelude::*;

verus! {

/// The site's part of the configuration, as far as the service reads it.
#[derive(Debug)]
pub struct DhcpConfig {
    pub carbide_nameservers_v6: Vec<Ipv6Addr>,
    pub carbide_ntpservers_v6: Vec<Ipv6Addr>,
    pub carbide_dhcp_server: Ipv4Addr,
    pub carbide_provisioning_server_ipv4: Ipv4Addr,
    pub dhcpv6_preferred_lifetime_secs: u32,
    pub dhcpv6_valid_lifetime_secs: u32,
}

/// The IPv6 part of an interface. Without an address, hosts configure themselves in `prefix`.
#[derive(Debug)]
pub struct InterfaceInfoV6 {
    pub address: Option<Ipv6Addr>,
    pub prefix: String,
}

/// What is configured for one interface.
#[derive(Debug)]
pub struct InterfaceInfo {
    pub address: Ipv4Addr,
    pub gateway: Ipv4Addr,
    pub prefix: String,
    pub fqdn: String,
    pub booturl: Option<String>,
    pub mtu: Option<u32>,
    pub ipv6: Option<InterfaceInfoV6>,
}

/// What is configured for an interface name in a list of named entries.
pub open spec fn named(entries: Seq<(String, InterfaceInfo)>, name: Seq<char>) -> Option<
    InterfaceInfo,
>
    decreases entries.len(),
{
    if entries.len() == 0 {
        None
    } else if entries[0].0@ == name {
        Some(entries[0].1)
    } else {
        named(entries.skip(1), name)
    }
}

/// Whether no name occurs twice.
pub open spec fn distinct_names(entries: Seq<(String, InterfaceInfo)>) -> bool {
    forall|i: int, j: int|
        0 <= i < j < entries.len() ==> (#[trigger] entries[i]).0@ != (#[trigger] entries[j]).0@
}

/// The entry at `at` is what is configured for its name, if no entry before it has the name.
proof fn lemma_named_at(entries: Seq<(String, InterfaceInfo)>, at: int)
    requires
        0 <= at < entries.len(),
        forall|k: int| 0 <= k < at ==> (#[trigger] entries[k]).0@ != entries[at].0@,
    ensures
        named(entries, entries[at].0@) == Some(entries[at].1),
    decreases entries.len(),
{
    if at > 0 {
        let rest = entries.skip(1);
        assert(entries[0].0@ != entries[at].0@);
        assert forall|k: int| 0 <= k < at - 1 implies (#[trigger] rest[k]).0@ != rest[at
            - 1].0@ by {
            assert(entries[k + 1].0@ != entries[at].0@);
        }
        lemma_named_at(rest, at - 1);
    }
}

/// Nothing is configured for a name that no entry has.
proof fn lemma_unnamed(entries: Seq<(String, InterfaceInfo)>, name: Seq<char>)
    requires
        forall|k: int| 0 <= k < entries.len() ==> (#[trigger] entries[k]).0@ != name,
    ensures
        named(entries, name) is None,
    decreases entries.len(),
{
    if entries.len() > 0 {
        let rest = entries.skip(1);
        assert(entries[0].0@ != name);
        assert forall|k: int| 0 <= k < rest.len() implies (#[trigger] rest[k]).0@ != name by {
            assert(entries[k + 1].0@ != name);
        }
        lemma_unnamed(rest, name);
    }
}

/// The interfaces of a host by name. No name occurs twice.
#[derive(Debug)]
pub struct HostInterfaces {
    entries: Vec<(String, InterfaceInfo)>,
}

/// Putting an entry for a new name behind the others adds that name and changes no other.
proof fn lemma_named_push(
    entries: Seq<(String, InterfaceInfo)>,
    entry: (String, InterfaceInfo),
    name: Seq<char>,
)
    ensures
        named(entries.push(entry), name) == (if named(entries, name) is Some {
            named(entries, name)
        } else if entry.0@ == name {
            Some(entry.1)
        } else {
            None
        }),
    decreases entries.len(),
{
    let more = entries.push(entry);
    if entries.len() == 0 {
        reveal_with_fuel(named, 2);
        assert(more.skip(1).len() == 0);
    } else {
        assert(more.skip(1) == entries.skip(1).push(entry));
        lemma_named_push(entries.skip(1), entry, name);
    }
}

/// Changing the first entry of a name changes that name and no other.
proof fn lemma_named_update(
    entries: Seq<(String, InterfaceInfo)>,
    at: int,
    entry: (String, InterfaceInfo),
    name: Seq<char>,
)
    requires
        0 <= at < entries.len(),
        entries[at].0@ == entry.0@,
        forall|k: int| 0 <= k < at ==> (#[trigger] entries[k]).0@ != entry.0@,
    ensures
        named(entries.update(at, entry), name) == (if entry.0@ == name {
            Some(entry.1)
        } else {
            named(entries, name)
        }),
    decreases entries.len(),
{
    let changed = entries.update(at, entry);
    if at == 0 {
        assert(changed.skip(1) == entries.skip(1));
    } else {
        assert(changed.skip(1) == entries.skip(1).update(at - 1, entry));
        assert(entries[0].0@ != entry.0@);
        assert forall|k: int| 0 <= k < at - 1 implies (#[trigger] entries.skip(1)[k]).0@
            != entry.0@ by {
            assert(entries[k + 1].0@ != entry.0@);
        }
        lemma_named_update(entries.skip(1), at - 1, entry, name);
    }
}

impl HostInterfaces {
    #[verifier::type_invariant]
    spec fn names_are_distinct(self) -> bool {
        distinct_names(self.entries@)
    }

    /// What is configured for the interface `name`.
    pub closed spec fn lookup(self, name: Seq<char>) -> Option<InterfaceInfo> {
        named(self.entries@, name)
    }

    /// A host without interfaces.
    pub fn new() -> (interfaces: Self)
        ensures
            forall|name: Seq<char>| (#[trigger] interfaces.lookup(name)) is None,
    {
        HostInterfaces { entries: Vec::new() }
    }

    /// This host with `info` configured for the interface `name`, in place of what was.
    pub fn insert(self, name: String, info: InterfaceInfo) -> (interfaces: Self)
        ensures
            forall|other: Seq<char>|
                #[trigger] interfaces.lookup(other) == (if other == name@ {
                    Some(info)
                } else {
                    self.lookup(other)
                }),
    {
        proof {
            use_type_invariant(&self);
        }
        let ghost before = self.entries@;
        let mut entries = self.entries;
        let mut i: usize = 0;
        while i < entries.len()
            invariant
                i <= entries@.len(),
                entries@ == before,
                before == self.entries@,
                distinct_names(before),
                forall|k: int| 0 <= k < i ==> (#[trigger] entries@[k]).0@ != name@,
            decreases entries@.len() - i,
        {
            if entries[i].0 == name {
                let ghost entry = (name, info);
                entries.set(i, (name, info));
                proof {
                    assert forall|other: Seq<char>| #[trigger]
                        named(entries@, other) == (if other == entry.0@ {
                        Some(entry.1)
                    } else {
                        named(before, other)
                    }) by {
                        lemma_named_update(before, i as int, entry, other);
                    }
                    assert(distinct_names(entries@));
                }
                return HostInterfaces { entries };
            }
            i += 1;
        }
        let ghost entry = (name, info);
        entries.push((name, info));
        proof {
            lemma_unnamed(before, entry.0@);
            assert forall|other: Seq<char>| #[trigger]
                named(entries@, other) == (if other == entry.0@ {
                Some(entry.1)
            } else {
                named(before, other)
            }) by {
                lemma_named_push(before, entry, other);
            }
        }
        HostInterfaces { entries }
    }

    /// Return what is configured for the interface `name`.
    pub fn get(&self, name: &str) -> (info: Option<&InterfaceInfo>)
        ensures
            match info {
                Some(info) => self.lookup(name@) == Some(*info),
                None => self.lookup(name@) is None,
            },
    {
        let key = name.to_owned();
        let mut i: usize = 0;
        while i < self.entries.len()
            invariant
                i <= self.entries@.len(),
                key@ == name@,
                forall|k: int| 0 <= k < i ==> (#[trigger] self.entries@[k]).0@ != name@,
            decreases self.entries@.len() - i,
        {
            if self.entries[i].0 == key {
                proof {
                    lemma_named_at(self.entries@, i as int);
                }
                return Some(&self.entries[i].1);
            }
            i += 1;
        }
        proof {
            lemma_unnamed(self.entries@, name@);
        }
        None
    }
}

/// The host's part of the configuration.
#[derive(Debug)]
pub struct HostConfig {
    pub host_interface_id: String,
    pub host_ip_addresses: HostInterfaces,
}

/// A client certificate and its key.
#[derive(Debug)]
pub struct ClientCert {
    pub cert_path: String,
    pub key_path: String,
}

/// How the API is reached.
#[derive(Debug)]
pub struct ForgeClientConfig {
    pub root_ca_path: String,
    pub client_cert: Option<ClientCert>,
}

/// Runtime configuration shared by the DHCPv4 and DHCPv6 packet paths.
#[derive(Debug)]
pub struct Config {
    pub dhcp_config: DhcpConfig,
    pub host_config: Option<HostConfig>,
    pub relay_response_port: u16,
    pub forge_client_config: ForgeClientConfig,
}

impl Config {
    /// Build one immutable server configuration for a listener generation.
    pub fn new(
        dhcp_config: DhcpConfig,
        host_config: Option<HostConfig>,
        relay_response_port: u16,
        forge_client_config: ForgeClientConfig,
    ) -> (config: Self)
        ensures
            config.dhcp_config == dhcp_config,
            config.host_config == host_config,
            config.relay_response_port == relay_response_port,
            config.forge_client_config == forge_client_config,
    {
        Config { dhcp_config, host_config, relay_response_port, forge_client_config }
    }

    /// Return the DPU-provided host configuration when the server runs in DPU mode.
    pub fn host_config(&self) -> (host_config: Option<&HostConfig>)
        ensures
            match host_config {
                Some(host_config) => self.host_config == Some(*host_config),
                None => self.host_config is None,
            },
    {
        match &self.host_config {
            Some(host_config) => Some(host_config),
            None => None,
        }
    }
}

} // verus!
