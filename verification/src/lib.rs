//! Decision logic of a DNS and proxy testing tool: URL normalisation, proxy
//! settings, the flows that change or reset the system DNS server, and the
//! steps of a DNS check and a download test.

pub mod text;
pub mod urls;
pub mod proxy;
pub mod task_control;
pub mod commands;
pub mod system_dns;
pub mod windows_dns;
pub mod dns;
pub mod download;
