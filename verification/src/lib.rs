//! Time-synchronisation core of an NTP appliance: the NTP wire codec, the
//! request/response rules, the server's bounded-staleness cache, the upstream
//! polling order, the GPS report rules and the reconciliation of the sources.

pub mod address;
pub mod client;
pub mod endian;
pub mod events;
pub mod frac_value;
pub mod gps;
pub mod monitor;
pub mod packet;
pub mod server;
pub mod server_state;
pub mod settings;
pub mod timestamp;
