//! DHCPv6 service logic.

pub mod address;
pub mod agreement;
pub mod answer_laws;
pub mod bytes;
pub mod codec;
pub mod config;
pub mod control;
pub mod decode;
pub mod duid;
pub mod errors;
pub mod exchange_laws;
pub mod laws;
pub mod listener;
pub mod message;
pub mod metrics;
pub mod modes;
pub mod names;
pub mod options;
pub mod packet_handler_v6;
pub mod packet_laws;
pub mod raw;
pub mod redfish;
pub mod reply;
pub mod request;
pub mod service_laws;
pub mod supervise;
pub mod text;
pub mod util;
pub mod wire;
