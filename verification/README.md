# nmrs

Verified models and decisions for NetworkManager and ModemManager clients.

`src/` is the Verus-verified library:

- `modem` — modem lifecycle states, the access-technology bitmask, modem
  snapshots and connection status.
- `modem_error` — ModemManager errors and their messages.
- `manager` — the decisions around ModemManager's D-Bus calls: which managed
  objects are modems and in which order, the primary modem, lookup by IMEI,
  status assembly, object-path checks and error classification.
- `access_point` — access-point modes and decoded Wi-Fi security.
- `network_info` — the details of a Wi-Fi network (first matching access
  point, labels, addresses only when connected) and the captive-portal
  address.
- `wifi_device` — which devices are Wi-Fi devices, and the snapshot of one
  with its fallbacks.
- `bearer` — a bearer's traffic statistics.
- `state_wait` — the decisions of the waits on device and connection state.
- `monitor` — which access points the network monitor watches, and how it
  answers each change signal.
- `connection_settings` — the lookup of saved profiles by name.
- `config`, `agent`, `vpn` — configuration types and small decisions.
- `text` — text helpers (joining, blank test, decimal, ordering, search).

`app/` performs the D-Bus calls (zbus, tokio) around these decisions.
