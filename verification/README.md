# carbide_dhcp

A DHCP server for the hosts of a site. It runs on a DPU, where it answers from the interface table
of its host, or as a controller, where relays forward packets to it and an API answers. The library
holds what is decided and computed; it is written in Verus. Its functions are proved against their
contracts, but for those marked `external_body`: these hand a call to another crate or to the
standard library, and what they say of it is believed. So is what an `assume_specification` says.

- `src/raw.rs`, `src/wire.rs`, `src/decode.rs`: from octets to a client message in at most one relay
  envelope. Options are bounded in number and depth, and each is read on its own first.
- `src/options.rs`, `src/codec.rs`: the option lists and the codec of the `dhcproto` crate, and what
  is believed of them.
- `src/duid.rs`, `src/request.rs`: who the client is, and what it asks for.
- `src/modes.rs`, `src/config.rs`: what answers, and from which configuration.
- `src/names.rs`, `src/reply.rs`, `src/packet_handler_v6.rs`: what a client is answered.
- `src/listener.rs`, `src/supervise.rs`, `src/control.rs`, `src/util.rs`: what listeners,
  supervisor and remote control decide.
- `src/metrics.rs`, `src/errors.rs`: what is counted, logged and reported.
- `src/redfish.rs`: how a client for a machine's management controller is made.
- `src/agreement.rs`: what a packet says, however the codec orders its options.
- `src/laws.rs`: what holds of the service as a whole.

`app/` is the program around the library: sockets, files, tasks and logging. It links no API client
and no DHCPv4 packet handler of its own; a deployment provides them as services.
