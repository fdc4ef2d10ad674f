//! The Wi-Fi devices that NetworkManager manages, as listed for a user.

use vstd::prelude::*;
use crate::text::str_equals;

verus! {

/// `NM_DEVICE_TYPE_WIFI`: the `DeviceType` of an 802.11 Wi-Fi device.
pub const DEVICE_TYPE_WIFI: u32 = 2;

/// The hardware address shown when a device's `HwAddress` cannot be read.
pub open spec fn unknown_hw_address() -> Seq<char> {
    "00:00:00:00:00:00"@
}

/// One Wi-Fi device with its addresses, state and active access point.
#[derive(Debug, Clone)]
pub struct WifiDevice {
    /// The device's D-Bus object path.
    pub path: String,
    /// The kernel interface name, such as `wlan0`; empty when unreadable.
    pub interface: String,
    /// The current MAC address; `00:00:00:00:00:00` when unreadable.
    pub hw_address: String,
    /// The permanent MAC address, when readable.
    pub permanent_hw_address: Option<String>,
    /// The kernel driver, when readable.
    pub driver: Option<String>,
    /// NetworkManager's `NMDeviceState` value.
    pub state: u32,
    /// Whether NetworkManager manages the device; `false` when unreadable.
    pub managed: bool,
    /// Whether the device may connect on its own; `true` when unreadable.
    pub autoconnect: bool,
    /// Whether the device has an active access point.
    pub is_active: bool,
    /// The SSID of the active access point, when there is one and it was read.
    pub active_ssid: Option<String>,
    /// The frequency in MHz of the active access point, when read.
    pub active_frequency_mhz: Option<u32>,
}

/// The text of an optional string, or `fallback` when it is absent.
pub open spec fn text_or(s: Option<String>, fallback: Seq<char>) -> Seq<char> {
    match s {
        Some(t) => t@,
        None => fallback,
    }
}

/// A device has an active access point when `ActiveAccessPoint` was read
/// and is not the null path `/`.
pub open spec fn names_active_ap(active_ap_path: Option<String>) -> bool {
    active_ap_path matches Some(p) && p@ != "/"@
}

/// Whether a device of the given `DeviceType` is a Wi-Fi device.
pub fn is_wifi_device(device_type: u32) -> (r: bool)
    ensures
        r == (device_type == DEVICE_TYPE_WIFI),
{
    device_type == DEVICE_TYPE_WIFI
}

/// Assembles a [`WifiDevice`] from the properties read over D-Bus, each
/// `None` where its read failed. An unreadable interface name becomes empty,
/// an unreadable MAC `00:00:00:00:00:00`, `Managed` defaults to `false` and
/// `Autoconnect` to `true`. The device is active when its active access
/// point was read and is not `/`; only then are the access point's SSID
/// and frequency kept.
pub fn wifi_device_snapshot(
    path: String,
    interface: Option<String>,
    hw_address: Option<String>,
    permanent_hw_address: Option<String>,
    driver: Option<String>,
    state: u32,
    managed: Option<bool>,
    autoconnect: Option<bool>,
    active_ap_path: Option<String>,
    active_ssid: Option<String>,
    active_frequency_mhz: Option<u32>,
) -> (d: WifiDevice)
    ensures
        d.path == path,
        d.interface@ == text_or(interface, Seq::empty()),
        d.hw_address@ == text_or(hw_address, unknown_hw_address()),
        d.permanent_hw_address == permanent_hw_address,
        d.driver == driver,
        d.state == state,
        d.managed == (managed == Some(true)),
        d.autoconnect == (autoconnect != Some(false)),
        d.is_active == names_active_ap(active_ap_path),
        d.is_active ==> d.active_ssid == active_ssid && d.active_frequency_mhz
            == active_frequency_mhz,
        !d.is_active ==> d.active_ssid is None && d.active_frequency_mhz is None,
{
    let interface = match interface {
        Some(i) => i,
        None => String::new(),
    };
    let hw_address = match hw_address {
        Some(h) => h,
        None => {
            proof {
                reveal_strlit("00:00:00:00:00:00");
            }
            String::from_str("00:00:00:00:00:00")
        },
    };
    let managed = match managed {
        Some(m) => m,
        None => false,
    };
    let autoconnect = match autoconnect {
        Some(a) => a,
        None => true,
    };
    let is_active = match &active_ap_path {
        Some(p) => !str_equals(p.as_str(), "/"),
        None => false,
    };
    proof {
        reveal_strlit("/");
    }
    let (active_ssid, active_frequency_mhz) = if is_active {
        (active_ssid, active_frequency_mhz)
    } else {
        (None, None)
    };
    WifiDevice {
        path,
        interface,
        hw_address,
        permanent_hw_address,
        driver,
        state,
        managed,
        autoconnect,
        is_active,
        active_ssid,
        active_frequency_mhz,
    }
}

/// The object paths of the Wi-Fi devices among `(path, DeviceType)` pairs,
/// in the order given.
pub open spec fn wifi_paths(devices: Seq<(String, u32)>) -> Seq<String>
    decreases devices.len(),
{
    if devices.len() == 0 {
        Seq::empty()
    } else {
        let rest = wifi_paths(devices.drop_first());
        if devices[0].1 == DEVICE_TYPE_WIFI {
            seq![devices[0].0] + rest
        } else {
            rest
        }
    }
}

/// Law: every listed path is the path of a device whose `DeviceType` is
/// Wi-Fi (2); devices of any other type, Wi-Fi P2P among them, are left out.
pub proof fn law_listed_paths_are_wifi_devices(devices: Seq<(String, u32)>, i: int)
    requires
        0 <= i < wifi_paths(devices).len(),
    ensures
        exists|j: int|
            0 <= j < devices.len() && #[trigger] devices[j].0 == wifi_paths(devices)[i]
                && devices[j].1 == 2,
    decreases devices.len(),
{
    let rest = wifi_paths(devices.drop_first());
    if devices[0].1 == DEVICE_TYPE_WIFI && i == 0 {
        assert(devices[0].0 == wifi_paths(devices)[0]);
    } else {
        let i2 = if devices[0].1 == DEVICE_TYPE_WIFI { i - 1 } else { i };
        assert(wifi_paths(devices)[i] == rest[i2]);
        law_listed_paths_are_wifi_devices(devices.drop_first(), i2);
        let j = choose|j: int|
            0 <= j < devices.drop_first().len() && #[trigger] devices.drop_first()[j].0 == rest[i2]
                && devices.drop_first()[j].1 == 2;
        assert(devices[j + 1] == devices.drop_first()[j]);
    }
}

/// Law: every Wi-Fi device (`DeviceType` 2) is listed.
pub proof fn law_every_wifi_device_is_listed(devices: Seq<(String, u32)>, j: int)
    requires
        0 <= j < devices.len(),
        devices[j].1 == 2,
    ensures
        wifi_paths(devices).contains(devices[j].0),
    decreases devices.len(),
{
    let rest = wifi_paths(devices.drop_first());
    if j == 0 {
        assert(wifi_paths(devices)[0] == devices[0].0);
    } else {
        assert(devices.drop_first()[j - 1] == devices[j]);
        law_every_wifi_device_is_listed(devices.drop_first(), j - 1);
        let x = choose|x: int| 0 <= x < rest.len() && rest[x] == devices[j].0;
        if devices[0].1 == DEVICE_TYPE_WIFI {
            assert(wifi_paths(devices)[x + 1] == devices[j].0);
        } else {
            assert(wifi_paths(devices)[x] == devices[j].0);
        }
    }
}

/// Keeps the paths of the Wi-Fi devices among the devices that
/// `GetDevices` listed, each with its `DeviceType`, in their order.
pub fn wifi_device_paths(devices: Vec<(String, u32)>) -> (r: Vec<String>)
    ensures
        r@ == wifi_paths(devices@),
{
    let ghost all = devices@;
    let mut rest = devices;
    let mut out: Vec<String> = Vec::new();
    while rest.len() > 0
        invariant
            out@ + wifi_paths(rest@) == wifi_paths(all),
        decreases rest@.len(),
    {
        let ghost before = rest@;
        let (path, kind) = rest.remove(0);
        assert(before.drop_first() =~= rest@);
        if is_wifi_device(kind) {
            let ghost prefix = out@;
            out.push(path);
            assert(prefix + (seq![before[0].0] + wifi_paths(rest@)) =~= out@ + wifi_paths(rest@));
        }
    }
    assert(wifi_paths(rest@) =~= Seq::<String>::empty());
    assert(out@ + Seq::<String>::empty() =~= out@);
    out
}

} // verus!
