//! VPN kinds, OpenVPN connection types and VPN connection details.

use std::collections::HashMap;
use vstd::prelude::*;
use crate::text::str_equals;

verus! {

/// Marker for the configuration types that this crate defines.
pub trait Sealed {}

/// Whether a VPN connection is a NetworkManager-plugin VPN or kernel
/// WireGuard.
#[derive(Debug, Clone, Copy, Eq, PartialEq, Hash, Structural)]
pub enum VpnKind {
    /// NetworkManager VPN plugin (OpenVPN, strongSwan, OpenConnect, ...).
    Plugin,
    /// Kernel-level WireGuard tunnel.
    WireGuard,
}

/// Saved VPN profile summary for applet lists.
#[derive(Debug, Clone)]
pub struct SavedVpnSummary {
    /// Connection UUID.
    pub uuid: String,
    /// Human-visible connection id.
    pub id: String,
    /// VPN implementation kind, when the saved settings tell it.
    pub kind: Option<VpnKind>,
    /// `true` when an active VPN connection has the same UUID.
    pub active: bool,
}

/// OpenVPN authentication / connection type.
#[derive(Debug, Clone, Copy, Eq, PartialEq, Hash, Structural)]
pub enum OpenVpnConnectionType {
    /// Pure TLS certificate authentication.
    Tls,
    /// Static pre-shared key.
    StaticKey,
    /// Username / password only.
    Password,
    /// Username / password and TLS certificate.
    PasswordTls,
}

/// The type that NetworkManager's `data.connection-type` string names.
pub open spec fn openvpn_type_named(s: Seq<char>) -> Option<OpenVpnConnectionType> {
    if s == "tls"@ {
        Some(OpenVpnConnectionType::Tls)
    } else if s == "static-key"@ {
        Some(OpenVpnConnectionType::StaticKey)
    } else if s == "password"@ {
        Some(OpenVpnConnectionType::Password)
    } else if s == "password-tls"@ {
        Some(OpenVpnConnectionType::PasswordTls)
    } else {
        None
    }
}

impl OpenVpnConnectionType {
    /// Parses NetworkManager's `data.connection-type` string: `tls`,
    /// `static-key`, `password` or `password-tls`; anything else is `None`.
    pub fn from_nm_str(s: &str) -> (t: Option<OpenVpnConnectionType>)
        ensures
            t == openvpn_type_named(s@),
    {
        if str_equals(s, "tls") {
            Some(OpenVpnConnectionType::Tls)
        } else if str_equals(s, "static-key") {
            Some(OpenVpnConnectionType::StaticKey)
        } else if str_equals(s, "password") {
            Some(OpenVpnConnectionType::Password)
        } else if str_equals(s, "password-tls") {
            Some(OpenVpnConnectionType::PasswordTls)
        } else {
            None
        }
    }
}

/// Protocol-specific details for an active VPN connection.
#[derive(Debug, Clone)]
pub enum VpnDetails {
    /// WireGuard-specific details.
    WireGuard {
        /// The local interface's public key.
        public_key: Option<String>,
        /// The peer endpoint.
        endpoint: Option<String>,
    },
    /// OpenVPN-specific details.
    OpenVpn {
        /// Remote server address.
        remote: String,
        /// Remote server port.
        port: u16,
        /// Transport protocol (`udp` or `tcp`).
        protocol: String,
        /// Data channel cipher.
        cipher: Option<String>,
        /// HMAC digest algorithm.
        auth: Option<String>,
        /// Compression mode, if enabled.
        compression: Option<String>,
    },
}

/// Protocol-specific VPN metadata decoded from saved NetworkManager
/// settings. Secret flags are NetworkManager's raw `NMSettingSecretFlags`.
#[derive(Debug, Clone)]
pub enum VpnType {
    /// Kernel WireGuard tunnel.
    WireGuard {
        /// Interface private key (often agent-owned and absent).
        private_key: Option<String>,
        /// First peer's public key.
        peer_public_key: Option<String>,
        /// First peer's endpoint, such as `vpn.example.com:51820`.
        endpoint: Option<String>,
        /// First peer's allowed-ips list.
        allowed_ips: Vec<String>,
        /// First peer's persistent keepalive in seconds.
        persistent_keepalive: Option<u32>,
    },
    /// OpenVPN (plugin `org.freedesktop.NetworkManager.openvpn`).
    OpenVpn {
        /// Remote server address.
        remote: Option<String>,
        /// Authentication / connection type.
        connection_type: Option<OpenVpnConnectionType>,
        /// VPN-level user name.
        user_name: Option<String>,
        /// CA certificate path.
        ca: Option<String>,
        /// Client certificate path.
        cert: Option<String>,
        /// Client key path.
        key: Option<String>,
        /// TLS-auth key path.
        ta: Option<String>,
        /// Password secret flags.
        password_flags: u32,
    },
    /// OpenConnect (AnyConnect, Juniper, GlobalProtect, Pulse).
    OpenConnect {
        /// Gateway host name.
        gateway: Option<String>,
        /// VPN-level user name.
        user_name: Option<String>,
        /// Protocol variant (`anyconnect`, `nc`, `gp`, `pulse`).
        protocol: Option<String>,
        /// Password secret flags.
        password_flags: u32,
    },
    /// strongSwan (IPSec / IKEv2).
    StrongSwan {
        /// Gateway address.
        address: Option<String>,
        /// Authentication method (`eap`, `key`, `agent`, `smartcard`).
        method: Option<String>,
        /// VPN-level user name.
        user_name: Option<String>,
        /// Certificate path.
        certificate: Option<String>,
        /// Password secret flags.
        password_flags: u32,
    },
    /// PPTP VPN.
    Pptp {
        /// Gateway host name.
        gateway: Option<String>,
        /// VPN-level user name.
        user_name: Option<String>,
        /// Password secret flags.
        password_flags: u32,
    },
    /// L2TP VPN.
    L2tp {
        /// Gateway host name.
        gateway: Option<String>,
        /// VPN-level user name.
        user_name: Option<String>,
        /// Password secret flags.
        password_flags: u32,
        /// Whether IPSec encapsulation is enabled.
        ipsec_enabled: bool,
    },
    /// Any other VPN plugin, with its raw settings.
    Generic {
        /// The plugin's D-Bus service name.
        service_type: String,
        /// Raw `vpn.data` key-value pairs.
        data: HashMap<String, String>,
        /// Raw `vpn.secrets` key-value pairs (often empty without an agent).
        secrets: HashMap<String, String>,
        /// VPN-level user name.
        user_name: Option<String>,
        /// Password secret flags.
        password_flags: u32,
    },
}

/// A saved or active VPN connection with its decoded settings.
#[derive(Debug, Clone)]
pub struct VpnConnection {
    /// Connection UUID.
    pub uuid: String,
    /// Connection display name (`connection.id`).
    pub id: String,
    /// The same as `id`.
    pub name: String,
    /// Protocol-specific decoded settings.
    pub vpn_type: VpnType,
    /// The raw `NMDeviceState` of its device or active connection.
    pub state: u32,
    /// Network interface name when active.
    pub interface: Option<String>,
    /// Whether the VPN is activated.
    pub active: bool,
    /// VPN-level user name (`vpn.user-name`).
    pub user_name: Option<String>,
    /// Password secret flags.
    pub password_flags: u32,
    /// Raw `vpn.service-type` (empty for WireGuard).
    pub service_type: String,
    /// Plugin-based or kernel WireGuard.
    pub kind: VpnKind,
}

/// Details of an active VPN connection.
#[derive(Debug, Clone)]
pub struct VpnConnectionInfo {
    /// The connection name.
    pub name: String,
    /// Plugin-based or kernel WireGuard.
    pub vpn_kind: VpnKind,
    /// The raw `NMDeviceState`.
    pub state: u32,
    /// Network interface name when active, such as `wg0`.
    pub interface: Option<String>,
    /// VPN gateway address.
    pub gateway: Option<String>,
    /// Assigned IPv4 address in CIDR notation.
    pub ip4_address: Option<String>,
    /// Assigned IPv6 address in CIDR notation.
    pub ip6_address: Option<String>,
    /// DNS servers of the VPN.
    pub dns_servers: Vec<String>,
    /// Protocol-specific details, when known.
    pub details: Option<VpnDetails>,
}

} // verus!
