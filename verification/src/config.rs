//! The configuration a session is started with.

use vstd::prelude::*;
use vstd::string::StringExecFns;

verus! {

/// Protocol version announced by every session.
pub const PROTOCOL_VERSION: &'static str = "/swarmdrop/1.0.0";

/// The agent descriptor announced to peers:
/// `swarmdrop/{version}; os={os}; arch={arch}; host={host}`.
pub open spec fn agent_version_text(
    version: Seq<char>,
    os: Seq<char>,
    arch: Seq<char>,
    host: Seq<char>,
) -> Seq<char> {
    "swarmdrop/"@ + version + "; os="@ + os + "; arch="@ + arch + "; host="@ + host
}

/// Builds the agent descriptor from the process version and the host's
/// operating system type, architecture and name.
pub fn agent_version(version: &str, os: &str, arch: &str, host: &str) -> (text: String)
    ensures
        text@ == agent_version_text(version@, os@, arch@, host@),
{
    let mut text = String::from_str("swarmdrop/");
    text.append(version);
    text.append("; os=");
    text.append(os);
    text.append("; arch=");
    text.append(arch);
    text.append("; host=");
    text.append(host);
    text
}

/// What a session is started with: the protocol version, the agent
/// descriptor and the features of the engine that are switched on.
#[derive(Clone, Debug, PartialEq, Eq)]
pub struct SessionConfig {
    pub protocol_version: String,
    pub agent_version: String,
    /// Discovery of peers on the local network.
    pub mdns: bool,
    /// Use of relays to reach peers behind address translation.
    pub relay_client: bool,
    /// Hole punching towards a direct connection.
    pub dcutr: bool,
    /// Detection of the node's own reachability.
    pub autonat: bool,
}

impl SessionConfig {
    /// Whether this is the configuration of a session on a host with the
    /// given facts: the fixed protocol version, the agent descriptor made of
    /// the facts, and every feature switched on.
    pub open spec fn describes(
        self,
        version: Seq<char>,
        os: Seq<char>,
        arch: Seq<char>,
        host: Seq<char>,
    ) -> bool {
        &&& self.protocol_version@ == PROTOCOL_VERSION@
        &&& self.agent_version@ == agent_version_text(version, os, arch, host)
        &&& self.mdns
        &&& self.relay_client
        &&& self.dcutr
        &&& self.autonat
    }
}

/// Builds the configuration for a fresh session from the process version
/// and the host's operating system type, architecture and name.
pub fn session_config(version: &str, os: &str, arch: &str, host: &str) -> (config: SessionConfig)
    ensures
        config.describes(version@, os@, arch@, host@),
{
    SessionConfig {
        protocol_version: String::from_str(PROTOCOL_VERSION),
        agent_version: agent_version(version, os, arch, host),
        mdns: true,
        relay_client: true,
        dcutr: true,
        autonat: true,
    }
}

} // verus!
