//! Where the service listens and where it sends its traces.
use vstd::prelude::*;

verus! {

/// The port that the service listens on.
pub const BIND_PORT: u16 = 8080;

/// Where the service listens and where it reports its spans.
#[derive(Debug, Clone, PartialEq, Eq)]
pub struct ServerSettings {
    /// The `host:port` of the Jaeger agent that receives the spans.
    pub agent_addr: String,
    /// The service name under which the spans are reported.
    pub service_name: String,
    /// The host that the HTTP server binds to.
    pub bind_host: String,
    /// The port that the HTTP server binds to.
    pub bind_port: u16,
}

/// The settings of the service: spans go to the local Jaeger agent on port
/// 6831 as `asynchronous`, and the server listens on local port 8080.
pub fn server_settings() -> (s: ServerSettings)
    ensures
        s.agent_addr@ == "127.0.0.1:6831"@,
        s.service_name@ == "asynchronous"@,
        s.bind_host@ == "127.0.0.1"@,
        s.bind_port == BIND_PORT,
{
    ServerSettings {
        agent_addr: String::from_str("127.0.0.1:6831"),
        service_name: String::from_str("asynchronous"),
        bind_host: String::from_str("127.0.0.1"),
        bind_port: BIND_PORT,
    }
}

} // verus!
