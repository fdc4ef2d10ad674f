//! Access-point modes and decoded Wi-Fi security capabilities.

use vstd::prelude::*;
use crate::text::{decimal, decimal_string};

verus! {

/// Wi-Fi access point operating mode, from NetworkManager's `Mode` value.
#[derive(Debug, Clone, Copy, Eq, PartialEq, Structural)]
pub enum ApMode {
    /// Ad-hoc (IBSS) network.
    Adhoc,
    /// Infrastructure (managed) mode.
    Infrastructure,
    /// Access point (hotspot) mode.
    Ap,
    /// Mesh mode.
    Mesh,
    /// Unknown or unrecognised mode value.
    Unknown(u32),
}

/// The mode that NetworkManager's raw `Mode` value stands for.
pub open spec fn ap_mode_of(value: u32) -> ApMode {
    if value == 1 {
        ApMode::Adhoc
    } else if value == 2 {
        ApMode::Infrastructure
    } else if value == 3 {
        ApMode::Ap
    } else if value == 4 {
        ApMode::Mesh
    } else {
        ApMode::Unknown(value)
    }
}

impl From<u32> for ApMode {
    fn from(value: u32) -> (mode: ApMode) {
        match value {
            1 => ApMode::Adhoc,
            2 => ApMode::Infrastructure,
            3 => ApMode::Ap,
            4 => ApMode::Mesh,
            other => ApMode::Unknown(other),
        }
    }
}

impl vstd::std_specs::convert::FromSpecImpl<u32> for ApMode {
    open spec fn obeys_from_spec() -> bool {
        true
    }

    open spec fn from_spec(v: u32) -> ApMode {
        ap_mode_of(v)
    }
}

impl ApMode {
    /// The text under which the mode is displayed.
    pub open spec fn display_text(self) -> Seq<char> {
        match self {
            ApMode::Adhoc => "Ad-Hoc"@,
            ApMode::Infrastructure => "Infrastructure"@,
            ApMode::Ap => "AP"@,
            ApMode::Mesh => "Mesh"@,
            ApMode::Unknown(v) => "Unknown("@ + decimal(v as nat) + ")"@,
        }
    }

    /// Renders the mode: `Ad-Hoc`, `Infrastructure`, `AP`, `Mesh`, or
    /// `Unknown(<value>)`.
    pub fn to_string(self) -> (s: String)
        ensures
            s@ == self.display_text(),
    {
        match self {
            ApMode::Adhoc => String::from_str("Ad-Hoc"),
            ApMode::Infrastructure => String::from_str("Infrastructure"),
            ApMode::Ap => String::from_str("AP"),
            ApMode::Mesh => String::from_str("Mesh"),
            ApMode::Unknown(v) => {
                let mut s = String::from_str("Unknown(");
                let digits = decimal_string(v);
                s.append(digits.as_str());
                s.append(")");
                s
            },
        }
    }
}


/// Decoded security capabilities of an access point, from NetworkManager's
/// `Flags`, `WpaFlags` and `RsnFlags` properties.
#[derive(Debug, Clone, Copy, Eq, PartialEq, Structural)]
pub struct SecurityFeatures {
    /// AP advertises privacy (WEP or higher).
    pub privacy: bool,
    /// WPS is available.
    pub wps: bool,
    /// Pre-shared key authentication (WPA/WPA2-Personal).
    pub psk: bool,
    /// 802.1X / EAP authentication (Enterprise).
    pub eap: bool,
    /// Simultaneous Authentication of Equals (WPA3-Personal).
    pub sae: bool,
    /// Opportunistic Wireless Encryption.
    pub owe: bool,
    /// OWE transition mode.
    pub owe_transition_mode: bool,
    /// EAP Suite B 192-bit.
    pub eap_suite_b_192: bool,
    /// Pairwise WEP-40 cipher.
    pub wep40: bool,
    /// Pairwise WEP-104 cipher.
    pub wep104: bool,
    /// TKIP cipher.
    pub tkip: bool,
    /// CCMP (AES) cipher.
    pub ccmp: bool,
}

/// The features with no capability set.
pub open spec fn no_security() -> SecurityFeatures {
    SecurityFeatures {
        privacy: false,
        wps: false,
        psk: false,
        eap: false,
        sae: false,
        owe: false,
        owe_transition_mode: false,
        eap_suite_b_192: false,
        wep40: false,
        wep104: false,
        tkip: false,
        ccmp: false,
    }
}

impl Default for SecurityFeatures {
    fn default() -> (s: SecurityFeatures)
        ensures
            s == no_security(),
    {
        SecurityFeatures {
            privacy: false,
            wps: false,
            psk: false,
            eap: false,
            sae: false,
            owe: false,
            owe_transition_mode: false,
            eap_suite_b_192: false,
            wep40: false,
            wep104: false,
            tkip: false,
            ccmp: false,
        }
    }
}

/// Preferred connection type derived from [`SecurityFeatures`].
#[derive(Debug, Clone, Copy, Eq, PartialEq, Structural)]
pub enum ConnectType {
    /// Open (no authentication).
    Open,
    /// Pre-shared key (WPA/WPA2-Personal).
    Psk,
    /// SAE (WPA3-Personal).
    Sae,
    /// 802.1X / EAP (Enterprise).
    Eap,
    /// Opportunistic Wireless Encryption.
    Owe,
}

impl ConnectType {
    /// The text under which the type is displayed.
    pub open spec fn display_text(self) -> Seq<char> {
        match self {
            ConnectType::Open => "Open"@,
            ConnectType::Psk => "PSK"@,
            ConnectType::Sae => "SAE"@,
            ConnectType::Eap => "EAP"@,
            ConnectType::Owe => "OWE"@,
        }
    }

    /// Renders the type: `Open`, `PSK`, `SAE`, `EAP` or `OWE`.
    pub fn to_string(self) -> (s: String)
        ensures
            s@ == self.display_text(),
    {
        let text = match self {
            ConnectType::Open => "Open",
            ConnectType::Psk => "PSK",
            ConnectType::Sae => "SAE",
            ConnectType::Eap => "EAP",
            ConnectType::Owe => "OWE",
        };
        String::from_str(text)
    }
}

impl SecurityFeatures {
    /// No security mechanism is advertised (TKIP, CCMP and WPS do not count).
    pub open spec fn open_network(self) -> bool {
        !self.privacy && !self.psk && !self.eap && !self.sae && !self.owe
            && !self.owe_transition_mode && !self.eap_suite_b_192 && !self.wep40 && !self.wep104
    }

    /// Enterprise authentication is available.
    pub open spec fn enterprise(self) -> bool {
        self.eap || self.eap_suite_b_192
    }

    /// WPA3 (SAE or OWE) is available.
    pub open spec fn wpa3(self) -> bool {
        self.sae || self.owe
    }

    /// The preferred connection type: EAP over SAE over OWE over PSK over open.
    pub open spec fn preferred(self) -> ConnectType {
        if self.eap || self.eap_suite_b_192 {
            ConnectType::Eap
        } else if self.sae {
            ConnectType::Sae
        } else if self.owe || self.owe_transition_mode {
            ConnectType::Owe
        } else if self.psk {
            ConnectType::Psk
        } else {
            ConnectType::Open
        }
    }

    /// Returns `true` if no security mechanism is advertised.
    pub fn is_open(&self) -> (r: bool)
        ensures
            r == self.open_network(),
    {
        !self.privacy && !self.psk && !self.eap && !self.sae && !self.owe
            && !self.owe_transition_mode && !self.eap_suite_b_192 && !self.wep40 && !self.wep104
    }

    /// Returns `true` if enterprise authentication is available.
    pub fn is_enterprise(&self) -> (r: bool)
        ensures
            r == self.enterprise(),
    {
        self.eap || self.eap_suite_b_192
    }

    /// Returns `true` if WPA3 (SAE or OWE) is available.
    pub fn is_wpa3(&self) -> (r: bool)
        ensures
            r == self.wpa3(),
    {
        self.sae || self.owe
    }

    /// Returns the preferred connection type for this security profile.
    pub fn preferred_connect_type(&self) -> (t: ConnectType)
        ensures
            t == self.preferred(),
    {
        if self.eap || self.eap_suite_b_192 {
            ConnectType::Eap
        } else if self.sae {
            ConnectType::Sae
        } else if self.owe || self.owe_transition_mode {
            ConnectType::Owe
        } else if self.psk {
            ConnectType::Psk
        } else {
            ConnectType::Open
        }
    }
}

/// `NM80211ApFlags`: privacy.
pub const AP_FLAGS_PRIVACY: u32 = 0x1;
/// `NM80211ApFlags`: WPS.
pub const AP_FLAGS_WPS: u32 = 0x2;
/// `NM80211ApSecurityFlags`: pairwise WEP-40.
pub const SEC_PAIR_WEP40: u32 = 0x1;
/// `NM80211ApSecurityFlags`: pairwise WEP-104.
pub const SEC_PAIR_WEP104: u32 = 0x2;
/// `NM80211ApSecurityFlags`: pairwise TKIP.
pub const SEC_PAIR_TKIP: u32 = 0x4;
/// `NM80211ApSecurityFlags`: pairwise CCMP.
pub const SEC_PAIR_CCMP: u32 = 0x8;
/// `NM80211ApSecurityFlags`: PSK key management.
pub const SEC_KEY_MGMT_PSK: u32 = 0x100;
/// `NM80211ApSecurityFlags`: 802.1X key management.
pub const SEC_KEY_MGMT_802_1X: u32 = 0x200;
/// `NM80211ApSecurityFlags`: SAE key management.
pub const SEC_KEY_MGMT_SAE: u32 = 0x400;
/// `NM80211ApSecurityFlags`: OWE key management.
pub const SEC_KEY_MGMT_OWE: u32 = 0x800;
/// `NM80211ApSecurityFlags`: OWE transition mode.
pub const SEC_KEY_MGMT_OWE_TM: u32 = 0x1000;
/// `NM80211ApSecurityFlags`: EAP Suite B 192-bit.
pub const SEC_KEY_MGMT_EAP_SUITE_B_192: u32 = 0x2000;

/// The features that the flag triplet announces: `flags` gives privacy and
/// WPS, and the union of the WPA and RSN security flags gives the rest.
pub open spec fn decoded_security(flags: u32, wpa: u32, rsn: u32) -> SecurityFeatures {
    let combined = wpa | rsn;
    SecurityFeatures {
        privacy: flags & AP_FLAGS_PRIVACY != 0,
        wps: flags & AP_FLAGS_WPS != 0,
        psk: combined & SEC_KEY_MGMT_PSK != 0,
        eap: combined & SEC_KEY_MGMT_802_1X != 0,
        sae: combined & SEC_KEY_MGMT_SAE != 0,
        owe: combined & SEC_KEY_MGMT_OWE != 0,
        owe_transition_mode: combined & SEC_KEY_MGMT_OWE_TM != 0,
        eap_suite_b_192: combined & SEC_KEY_MGMT_EAP_SUITE_B_192 != 0,
        wep40: combined & SEC_PAIR_WEP40 != 0,
        wep104: combined & SEC_PAIR_WEP104 != 0,
        tkip: combined & SEC_PAIR_TKIP != 0,
        ccmp: combined & SEC_PAIR_CCMP != 0,
    }
}

/// Decodes NetworkManager's AP flag triplet: `flags` is `NM80211ApFlags`,
/// `wpa` and `rsn` are the `NM80211ApSecurityFlags` of the `WpaFlags` and
/// `RsnFlags` properties.
pub fn decode_security(flags: u32, wpa: u32, rsn: u32) -> (s: SecurityFeatures)
    ensures
        s == decoded_security(flags, wpa, rsn),
{
    let combined = wpa | rsn;
    SecurityFeatures {
        privacy: (flags & AP_FLAGS_PRIVACY) != 0,
        wps: (flags & AP_FLAGS_WPS) != 0,
        psk: (combined & SEC_KEY_MGMT_PSK) != 0,
        eap: (combined & SEC_KEY_MGMT_802_1X) != 0,
        sae: (combined & SEC_KEY_MGMT_SAE) != 0,
        owe: (combined & SEC_KEY_MGMT_OWE) != 0,
        owe_transition_mode: (combined & SEC_KEY_MGMT_OWE_TM) != 0,
        eap_suite_b_192: (combined & SEC_KEY_MGMT_EAP_SUITE_B_192) != 0,
        wep40: (combined & SEC_PAIR_WEP40) != 0,
        wep104: (combined & SEC_PAIR_WEP104) != 0,
        tkip: (combined & SEC_PAIR_TKIP) != 0,
        ccmp: (combined & SEC_PAIR_CCMP) != 0,
    }
}

/// Law: the preferred type is EAP exactly when enterprise authentication is
/// available; an open network prefers `Open`; a WPA3 network never prefers
/// PSK or open.
pub proof fn law_preferred_connect_type(s: SecurityFeatures)
    ensures
        (s.preferred() == ConnectType::Eap) == s.enterprise(),
        s.open_network() ==> s.preferred() == ConnectType::Open,
        s.wpa3() ==> s.preferred() != ConnectType::Psk && s.preferred() != ConnectType::Open,
        s.preferred() == ConnectType::Psk ==> s.psk,
{
}

/// Law: the WPA and RSN flags are combined, so their order does not matter,
/// and handing all of them in one argument decodes the same features.
pub proof fn law_decode_combines_wpa_and_rsn(flags: u32, wpa: u32, rsn: u32)
    ensures
        decoded_security(flags, wpa, rsn) == decoded_security(flags, rsn, wpa),
        decoded_security(flags, wpa, rsn) == decoded_security(flags, wpa | rsn, 0),
{
    assert(wpa | rsn == rsn | wpa) by (bit_vector);
    assert((wpa | rsn) | 0 == wpa | rsn) by (bit_vector);
}

/// Law: each decoded feature reads exactly its own bit of the combined WPA
/// and RSN flags (or of the AP flags, for privacy and WPS); SAE, OWE or any
/// other bit never gives PSK.
pub proof fn law_each_feature_reads_its_own_bit(flags: u32, wpa: u32, rsn: u32)
    ensures
        decoded_security(flags, wpa, rsn).privacy == (flags & 0x1 != 0),
        decoded_security(flags, wpa, rsn).wps == (flags & 0x2 != 0),
        decoded_security(flags, wpa, rsn).wep40 == ((wpa | rsn) & 0x1 != 0),
        decoded_security(flags, wpa, rsn).wep104 == ((wpa | rsn) & 0x2 != 0),
        decoded_security(flags, wpa, rsn).tkip == ((wpa | rsn) & 0x4 != 0),
        decoded_security(flags, wpa, rsn).ccmp == ((wpa | rsn) & 0x8 != 0),
        decoded_security(flags, wpa, rsn).psk == ((wpa | rsn) & 0x100 != 0),
        decoded_security(flags, wpa, rsn).eap == ((wpa | rsn) & 0x200 != 0),
        decoded_security(flags, wpa, rsn).sae == ((wpa | rsn) & 0x400 != 0),
        decoded_security(flags, wpa, rsn).owe == ((wpa | rsn) & 0x800 != 0),
        decoded_security(flags, wpa, rsn).owe_transition_mode == ((wpa | rsn) & 0x1000 != 0),
        decoded_security(flags, wpa, rsn).eap_suite_b_192 == ((wpa | rsn) & 0x2000 != 0),
{
}

/// Law: announcing further key-management or cipher bits other than PSK
/// (such as SAE) never changes whether PSK is reported.
pub proof fn law_psk_ignores_other_bits(flags: u32, wpa: u32, rsn: u32, extra: u32)
    requires
        extra & 0x100 == 0,
    ensures
        decoded_security(flags, wpa, rsn | extra).psk == decoded_security(flags, wpa, rsn).psk,
        decoded_security(flags, 0, extra).psk == false,
{
    assert((wpa | (rsn | extra)) & 0x100 == (wpa | rsn) & 0x100) by (bit_vector)
        requires
            extra & 0x100 == 0,
    ;
    assert((0u32 | extra) & 0x100 == 0) by (bit_vector)
        requires
            extra & 0x100 == 0,
    ;
}

/// Law: no flag set decodes to the default features, which are open.
pub proof fn law_decode_nothing_is_open()
    ensures
        decoded_security(0, 0, 0) == no_security(),
        no_security().open_network(),
        no_security().preferred() == ConnectType::Open,
{
    assert((0u32 | 0u32) == 0u32) by (bit_vector);
    assert(forall|m: u32| #![auto] (0u32 & m) == 0u32) by (bit_vector);
}

/// One Wi-Fi access point seen by one wireless device, with the properties
/// NetworkManager reports for it.
#[derive(Debug, Clone, PartialEq)]
pub struct AccessPoint {
    /// D-Bus path of the access point object.
    pub path: zvariant::OwnedObjectPath,
    /// D-Bus path of the wireless device that sees it.
    pub device_path: zvariant::OwnedObjectPath,
    /// Interface name of the device, such as `wlan0`.
    pub interface: String,
    /// The SSID decoded as text.
    pub ssid: String,
    /// The raw SSID bytes.
    pub ssid_bytes: Vec<u8>,
    /// BSSID in `XX:XX:XX:XX:XX:XX` form.
    pub bssid: String,
    /// Operating frequency in MHz.
    pub frequency_mhz: u32,
    /// Maximum bitrate in Kbit/s.
    pub max_bitrate_kbps: u32,
    /// Signal strength in percent.
    pub strength: u8,
    /// Operating mode.
    pub mode: ApMode,
    /// Decoded security capabilities.
    pub security: SecurityFeatures,
    /// Monotonic seconds since boot when last seen, or `None` if never.
    pub last_seen_secs: Option<i64>,
    /// Whether this is the active access point of `device_path`.
    pub is_active: bool,
    /// The raw `NMDeviceState` of the device when listed.
    pub device_state: u32,
}

impl AccessPoint {
    /// Whether NetworkManager reported no SSID for this access point.
    pub fn is_hidden(&self) -> (r: bool)
        ensures
            r == (self.ssid_bytes@.len() == 0),
    {
        self.ssid_bytes.len() == 0
    }
}

} // verus!
