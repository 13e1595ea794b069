//! Discovery of services announced over UDP multicast (SSDP style):
//! parsing of announcement datagrams, the cache of known services with
//! lazy expiration, the ready queue read by consumers, and search probes.

pub mod discovery;
pub mod error;
pub mod message;
pub mod search;
