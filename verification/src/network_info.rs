//! Labels shown in the details of a Wi-Fi network, and the choice of a
//! captive-portal address.

use vstd::prelude::*;
use crate::access_point::{ApMode, ap_mode_of};
use crate::text::{join, lemma_join_push, str_equals};

verus! {

/// Privacy flag of `NM80211ApFlags`, which marks WEP when neither WPA nor
/// RSN flags are set.
pub const SECURITY_FLAG_WEP: u32 = 0x1;
/// PSK key management in `NM80211ApSecurityFlags`.
pub const SECURITY_FLAG_PSK: u32 = 0x100;
/// 802.1X key management in `NM80211ApSecurityFlags`.
pub const SECURITY_FLAG_EAP: u32 = 0x200;
/// Kbit/s in one Mbit/s.
pub const KBIT_TO_MBPS: u32 = 1000;

/// The security mechanisms that an access point's flags announce, in
/// display order: `WEP` (privacy without WPA or RSN flags), `WPA` (some WPA
/// flag), `WPA2/WPA3` (some RSN flag), `PSK`, `802.1X`.
pub open spec fn security_parts(flags: u32, wpa: u32, rsn: u32) -> Seq<Seq<char>> {
    let wep = flags & SECURITY_FLAG_WEP != 0 && wpa == 0 && rsn == 0;
    let p0 = if wep { seq!["WEP"@] } else { Seq::empty() };
    let p1 = if wpa != 0 { p0.push("WPA"@) } else { p0 };
    let p2 = if rsn != 0 { p1.push("WPA2/WPA3"@) } else { p1 };
    let p3 = if (wpa | rsn) & SECURITY_FLAG_PSK != 0 { p2.push("PSK"@) } else { p2 };
    if (wpa | rsn) & SECURITY_FLAG_EAP != 0 { p3.push("802.1X"@) } else { p3 }
}

/// The security label: `Open` when nothing is announced, else the parts
/// joined by ` + `.
pub open spec fn security_text(flags: u32, wpa: u32, rsn: u32) -> Seq<char> {
    let parts = security_parts(flags, wpa, rsn);
    if parts.len() == 0 {
        "Open"@
    } else {
        join(parts, " + "@)
    }
}

fn push_part(out: &mut String, first: bool, parts: Ghost<Seq<Seq<char>>>, part: &str)
    requires
        old(out)@ == join(parts@, " + "@),
        first == (parts@.len() == 0),
    ensures
        final(out)@ == join(parts@.push(part@), " + "@),
{
    proof {
        lemma_join_push(parts@, " + "@, part@);
    }
    if !first {
        out.append(" + ");
    } else {
        assert(old(out)@ =~= Seq::<char>::empty());
    }
    out.append(part);
}

/// The security label of an access point from its `Flags`, `WpaFlags` and
/// `RsnFlags`, such as `WPA2/WPA3 + PSK`, or `Open`.
pub fn security_label(flags: u32, wpa: u32, rsn: u32) -> (s: String)
    ensures
        s@ == security_text(flags, wpa, rsn),
{
    let wep = (flags & SECURITY_FLAG_WEP) != 0 && wpa == 0 && rsn == 0;
    let mut out = String::new();
    let ghost mut parts: Seq<Seq<char>> = Seq::empty();
    let mut first = true;
    assert(out@ =~= join(parts, " + "@));
    let any = wep || wpa != 0 || rsn != 0 || ((wpa | rsn) & SECURITY_FLAG_PSK) != 0 || ((wpa
        | rsn) & SECURITY_FLAG_EAP) != 0;
    if wep {
        push_part(&mut out, first, Ghost(parts), "WEP");
        proof { parts = parts.push("WEP"@); }
        first = false;
    }
    if wpa != 0 {
        push_part(&mut out, first, Ghost(parts), "WPA");
        proof { parts = parts.push("WPA"@); }
        first = false;
    }
    if rsn != 0 {
        push_part(&mut out, first, Ghost(parts), "WPA2/WPA3");
        proof { parts = parts.push("WPA2/WPA3"@); }
        first = false;
    }
    if ((wpa | rsn) & SECURITY_FLAG_PSK) != 0 {
        push_part(&mut out, first, Ghost(parts), "PSK");
        proof { parts = parts.push("PSK"@); }
        first = false;
    }
    if ((wpa | rsn) & SECURITY_FLAG_EAP) != 0 {
        push_part(&mut out, first, Ghost(parts), "802.1X");
        proof { parts = parts.push("802.1X"@); }
        first = false;
    }
    assert(parts =~= security_parts(flags, wpa, rsn));
    if !any {
        assert(parts.len() == 0);
        return String::from_str("Open");
    }
    out
}

/// The connection status shown for a network: `Connected` when it is the
/// active one, else `Disconnected`.
pub fn status_label(connected: bool) -> (s: String)
    ensures
        s@ == (if connected { "Connected"@ } else { "Disconnected"@ }),
{
    if connected {
        String::from_str("Connected")
    } else {
        String::from_str("Disconnected")
    }
}

/// The rate in Mbit/s of a maximum bitrate in Kbit/s, rounded down.
pub fn rate_mbps(max_bitrate_kbps: Option<u32>) -> (r: Option<u32>)
    ensures
        r == (match max_bitrate_kbps {
            Some(k) => Some((k / KBIT_TO_MBPS) as u32),
            None => None,
        }),
{
    match max_bitrate_kbps {
        Some(k) => Some(k / KBIT_TO_MBPS),
        None => None,
    }
}

/// A reported text counts only when it is not empty.
pub open spec fn non_empty(s: Option<Seq<char>>) -> Option<Seq<char>> {
    match s {
        Some(t) => if t.len() > 0 {
            Some(t)
        } else {
            None
        },
        None => None,
    }
}

/// The text of an optional string.
pub open spec fn text_of(s: Option<String>) -> Option<Seq<char>> {
    match s {
        Some(t) => Some(t@),
        None => None,
    }
}

/// Keeps a reported address (such as `ConnectivityCheckUri`) only when it
/// is not empty.
pub fn non_empty_text(s: Option<String>) -> (r: Option<String>)
    ensures
        text_of(r) == non_empty(text_of(s)),
{
    match s {
        Some(t) => if t.as_str().unicode_len() > 0 {
            Some(t)
        } else {
            None
        },
        None => None,
    }
}

/// The first reported text that is not empty.
pub open spec fn first_non_empty(candidates: Seq<Option<Seq<char>>>) -> Option<Seq<char>>
    decreases candidates.len(),
{
    if candidates.len() == 0 {
        None
    } else if non_empty(candidates[0]) is Some {
        non_empty(candidates[0])
    } else {
        first_non_empty(candidates.drop_first())
    }
}

/// The captive-portal address among the `IP4Config` properties read in
/// order (`CaptivePortal`, then `WebPortalUrl`): the first that was read
/// and is not empty.
pub fn portal_url(candidates: Vec<Option<String>>) -> (r: Option<String>)
    ensures
        text_of(r) == first_non_empty(candidates@.map_values(|c: Option<String>| text_of(c))),
{
    let ghost all = candidates@.map_values(|c: Option<String>| text_of(c));
    let mut rest = candidates;
    let mut i: usize = 0;
    let _total = rest.len();
    let ghost n = rest@.len();
    assert(all.skip(0) =~= all);
    while rest.len() > 0
        invariant
            all == candidates@.map_values(|c: Option<String>| text_of(c)),
            all.len() == n,
            n <= usize::MAX,
            i + rest@.len() == n,
            rest@.map_values(|c: Option<String>| text_of(c)) == all.skip(i as int),
            first_non_empty(all) == first_non_empty(all.skip(i as int)),
        decreases rest@.len(),
    {
        let ghost before = rest@;
        let c = rest.remove(0);
        assert(all.skip(i as int)[0] == text_of(c));
        assert(all.skip(i as int).drop_first() =~= all.skip(i + 1));
        assert(rest@.map_values(|c: Option<String>| text_of(c)) =~= all.skip(i + 1));
        let kept = non_empty_text(c);
        if kept.is_some() {
            return kept;
        }
        i = i + 1;
    }
    None
}

/// `NM_CONNECTIVITY_PORTAL`: the host sits behind a captive portal.
pub const CONNECTIVITY_PORTAL: u32 = 2;

/// Whether a `Connectivity` value reports a captive portal, the one state in
/// which a portal address is looked for.
pub fn is_captive(connectivity: u32) -> (r: bool)
    ensures
        r == (connectivity == CONNECTIVITY_PORTAL),
{
    connectivity == CONNECTIVITY_PORTAL
}

/// The captive-portal address, from what was read in order:
/// `PrimaryConnection` (`None` when unreadable: no address); when it is `/`,
/// the fallback `ConnectivityCheckUri`; else the primary connection's
/// `Ip4Config` (`active` is `None` when the active connection could not be
/// reached: no address), whose portal address wins when the path was read,
/// is not `/` and an address was found there; otherwise the fallback. The
/// fallback counts only when read and not empty.
pub open spec fn portal_decision(
    primary: Option<Seq<char>>,
    active: Option<Option<Seq<char>>>,
    ip4_url: Option<Seq<char>>,
    fallback: Option<Seq<char>>,
) -> Option<Seq<char>> {
    match primary {
        None => None,
        Some(p) => if p == "/"@ {
            non_empty(fallback)
        } else {
            match active {
                None => None,
                Some(ip4) => if (ip4 matches Some(q) && q != "/"@) && ip4_url is Some {
                    ip4_url
                } else {
                    non_empty(fallback)
                },
            }
        },
    }
}

/// The text of an optional object path read over D-Bus, nested in the
/// outcome of reaching the active connection.
pub open spec fn nested_text_of(s: Option<Option<String>>) -> Option<Option<Seq<char>>> {
    match s {
        Some(inner) => Some(text_of(inner)),
        None => None,
    }
}

/// Chooses the captive-portal address as [`portal_decision`] describes:
/// `primary` is the `PrimaryConnection` path, `active` the outcome of
/// reaching that connection with its `Ip4Config` path, `ip4_url` the
/// address found on that `IP4Config` (see [`portal_url`]), and `fallback`
/// the `ConnectivityCheckUri`.
pub fn captive_portal_url(
    primary: Option<String>,
    active: Option<Option<String>>,
    ip4_url: Option<String>,
    fallback: Option<String>,
) -> (r: Option<String>)
    ensures
        text_of(r) == portal_decision(
            text_of(primary),
            nested_text_of(active),
            text_of(ip4_url),
            text_of(fallback),
        ),
{
    proof {
        reveal_strlit("/");
    }
    match primary {
        None => None,
        Some(p) => if str_equals(p.as_str(), "/") {
            non_empty_text(fallback)
        } else {
            match active {
                None => None,
                Some(ip4) => {
                    let ip4_usable = match &ip4 {
                        Some(q) => !str_equals(q.as_str(), "/"),
                        None => false,
                    };
                    if ip4_usable && ip4_url.is_some() {
                        ip4_url
                    } else {
                        non_empty_text(fallback)
                    }
                },
            }
        },
    }
}

/// What was read of one access point while looking for a network's
/// details: its SSID as text, its BSSID, the three security flag words,
/// and `Frequency`, `MaxBitrate` and `Mode`, each `None` where its read
/// failed.
#[derive(Debug, Clone)]
pub struct ApReading {
    /// The SSID, decoded as text.
    pub ssid: String,
    /// The BSSID (`HwAddress`).
    pub bssid: String,
    /// `Flags` (`NM80211ApFlags`).
    pub flags: u32,
    /// `WpaFlags` (`NM80211ApSecurityFlags`).
    pub wpa_flags: u32,
    /// `RsnFlags` (`NM80211ApSecurityFlags`).
    pub rsn_flags: u32,
    /// `Frequency` in MHz.
    pub frequency: Option<u32>,
    /// `MaxBitrate` in Kbit/s.
    pub max_bitrate: Option<u32>,
    /// `Mode` (`NM80211Mode`).
    pub mode: Option<u32>,
}

/// The details of one Wi-Fi network, as shown to a user.
#[derive(Debug, Clone)]
pub struct NetworkDetails {
    /// The network's SSID.
    pub ssid: String,
    /// The BSSID of the access point the details were read from.
    pub bssid: String,
    /// The signal strength in percent; 0 when unknown.
    pub strength: u8,
    /// The frequency in MHz, when read.
    pub freq: Option<u32>,
    /// The operating mode, when read.
    pub mode: Option<ApMode>,
    /// The maximum rate in Mbit/s, when read.
    pub rate_mbps: Option<u32>,
    /// The security label, such as `WPA2/WPA3 + PSK` or `Open`.
    pub security: String,
    /// `Connected` or `Disconnected`.
    pub status: String,
    /// The IPv4 address, when connected to this network.
    pub ip4_address: Option<String>,
    /// The IPv6 address, when connected to this network.
    pub ip6_address: Option<String>,
}

/// A network is the connected one when the active SSID was read and equals
/// its SSID.
pub open spec fn is_connected_to(active_ssid: Option<String>, ssid: Seq<char>) -> bool {
    active_ssid matches Some(a) && a@ == ssid
}

/// Tests whether the network `ssid` is the one the Wi-Fi is connected to,
/// given the SSID of the active access point, when one was read.
pub fn is_active_network(active_ssid: &Option<String>, ssid: &str) -> (r: bool)
    ensures
        r == is_connected_to(*active_ssid, ssid@),
{
    match active_ssid {
        Some(a) => str_equals(a.as_str(), ssid),
        None => false,
    }
}

/// Law: a network is the connected one exactly when the active SSID was read
/// and is the network's SSID as a whole text; any other active SSID (one
/// that merely begins or ends with it too) is another network.
pub proof fn law_connected_only_to_the_same_ssid(active_ssid: Option<String>, ssid: Seq<char>)
    ensures
        is_connected_to(active_ssid, ssid) <==> (active_ssid is Some && active_ssid->0@ == ssid),
        active_ssid is None ==> !is_connected_to(active_ssid, ssid),
{
}

/// Law: the details of a network other than the connected one say
/// `Disconnected` and carry no addresses, whatever addresses were read for
/// the connected network.
pub proof fn law_other_network_has_no_addresses(
    d: NetworkDetails,
    ap: ApReading,
    target: Seq<char>,
    strength: Option<u8>,
    active_ssid: Option<String>,
    ip4: Option<String>,
    ip6: Option<String>,
)
    requires
        !(active_ssid matches Some(a) && a@ == target),
        details_from(d, ap, target, strength, is_connected_to(active_ssid, target), ip4, ip6),
    ensures
        d.status@ == "Disconnected"@,
        d.ip4_address is None,
        d.ip6_address is None,
{
}

/// Law: the details of the connected network say `Connected` and carry the
/// addresses read for it.
pub proof fn law_connected_network_has_its_addresses(
    d: NetworkDetails,
    ap: ApReading,
    target: Seq<char>,
    strength: Option<u8>,
    active: String,
    ip4: Option<String>,
    ip6: Option<String>,
)
    requires
        active@ == target,
        details_from(d, ap, target, strength, is_connected_to(Some(active), target), ip4, ip6),
    ensures
        d.status@ == "Connected"@,
        d.ip4_address == ip4,
        d.ip6_address == ip6,
{
}

/// `i` is the first reading whose SSID is `target`.
pub open spec fn is_first_match(readings: Seq<ApReading>, target: Seq<char>, i: int) -> bool {
    &&& 0 <= i < readings.len()
    &&& readings[i].ssid@ == target
    &&& forall|j: int| 0 <= j < i ==> readings[j].ssid@ != target
}

/// Some reading has the SSID `target`.
pub open spec fn has_match(readings: Seq<ApReading>, target: Seq<char>) -> bool {
    exists|i: int| 0 <= i < readings.len() && #[trigger] readings[i].ssid@ == target
}

/// The details of network `target` drawn from access point `ap`: the
/// strength given for the network (0 when unknown), the access point's
/// BSSID, frequency and mode, its rate in Mbit/s and security label, the
/// status, and the addresses only when connected.
pub open spec fn details_from(
    d: NetworkDetails,
    ap: ApReading,
    target: Seq<char>,
    strength: Option<u8>,
    connected: bool,
    ip4: Option<String>,
    ip6: Option<String>,
) -> bool {
    &&& d.ssid@ == target
    &&& d.bssid == ap.bssid
    &&& d.strength == (match strength {
        Some(s) => s,
        None => 0u8,
    })
    &&& d.freq == ap.frequency
    &&& d.mode == (match ap.mode {
        Some(m) => Some(ap_mode_of(m)),
        None => None,
    })
    &&& d.rate_mbps == (match ap.max_bitrate {
        Some(k) => Some((k / KBIT_TO_MBPS) as u32),
        None => None,
    })
    &&& d.security@ == security_text(ap.flags, ap.wpa_flags, ap.rsn_flags)
    &&& d.status@ == (if connected { "Connected"@ } else { "Disconnected"@ })
    &&& d.ip4_address == (if connected { ip4 } else { None })
    &&& d.ip6_address == (if connected { ip6 } else { None })
}

/// The details of the network `target_ssid`, drawn from the first access
/// point whose SSID matches among `readings`, in the order they were read;
/// `None` when none matches. `target_strength` is the strength listed for
/// the network; `active_ssid` is the SSID the Wi-Fi is connected to, when
/// read. The addresses `ip4` and `ip6` are kept only when the network is
/// the connected one.
pub fn network_details(
    target_ssid: &str,
    target_strength: Option<u8>,
    active_ssid: &Option<String>,
    ip4: Option<String>,
    ip6: Option<String>,
    readings: &Vec<ApReading>,
) -> (r: Option<NetworkDetails>)
    ensures
        r is None <==> !has_match(readings@, target_ssid@),
        r matches Some(d) ==> exists|i: int|
            is_first_match(readings@, target_ssid@, i) && details_from(
                d,
                #[trigger] readings@[i],
                target_ssid@,
                target_strength,
                is_connected_to(*active_ssid, target_ssid@),
                ip4,
                ip6,
            ),
{
    let connected = is_active_network(active_ssid, target_ssid);
    let mut i: usize = 0;
    while i < readings.len()
        invariant
            i <= readings@.len(),
            connected == is_connected_to(*active_ssid, target_ssid@),
            forall|j: int| 0 <= j < i ==> readings@[j].ssid@ != target_ssid@,
        decreases readings@.len() - i,
    {
        let ap = &readings[i];
        if str_equals(ap.ssid.as_str(), target_ssid) {
            let strength = match target_strength {
                Some(s) => s,
                None => 0u8,
            };
            let mode = match ap.mode {
                Some(m) => Some(ApMode::from(m)),
                None => None,
            };
            let d = NetworkDetails {
                ssid: String::from_str(target_ssid),
                bssid: ap.bssid.clone(),
                strength,
                freq: ap.frequency,
                mode,
                rate_mbps: rate_mbps(ap.max_bitrate),
                security: security_label(ap.flags, ap.wpa_flags, ap.rsn_flags),
                status: status_label(connected),
                ip4_address: if connected { ip4 } else { None },
                ip6_address: if connected { ip6 } else { None },
            };
            assert(is_first_match(readings@, target_ssid@, i as int));
            assert(details_from(
                d,
                readings@[i as int],
                target_ssid@,
                target_strength,
                is_connected_to(*active_ssid, target_ssid@),
                ip4,
                ip6,
            ));
            return Some(d);
        }
        i = i + 1;
    }
    None
}

} // verus!
