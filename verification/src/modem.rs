//! Modem-level types: the lifecycle state of a modem, the access-technology
//! bitmask, and the snapshots returned by enumeration.

use vstd::prelude::*;
use crate::text::{join, lemma_join_push};

verus! {

/// Lifecycle state of a managed modem, as the `MM_MODEM_STATE_*` constants
/// of ModemManager's `Modem.State` property.
#[derive(Debug, Clone, Copy, PartialEq, Eq, Hash, Structural)]
pub enum ModemState {
    Failed,
    Unknown,
    Initializing,
    Locked,
    Disabled,
    Disabling,
    Enabling,
    Enabled,
    Searching,
    Registered,
    Disconnecting,
    Connecting,
    Connected,
}

impl ModemState {
    /// The ModemManager constant that stands for this state.
    pub open spec fn raw_value(self) -> int {
        match self {
            ModemState::Failed => -1,
            ModemState::Unknown => 0,
            ModemState::Initializing => 1,
            ModemState::Locked => 2,
            ModemState::Disabled => 3,
            ModemState::Disabling => 4,
            ModemState::Enabling => 5,
            ModemState::Enabled => 6,
            ModemState::Searching => 7,
            ModemState::Registered => 8,
            ModemState::Disconnecting => 9,
            ModemState::Connecting => 10,
            ModemState::Connected => 11,
        }
    }

    /// The state that a raw `State` value stands for: the state with that
    /// raw value, or `Unknown` for values outside `-1..=11`.
    pub open spec fn decoded(value: int) -> ModemState {
        if value == -1 { ModemState::Failed }
        else if value == 1 { ModemState::Initializing }
        else if value == 2 { ModemState::Locked }
        else if value == 3 { ModemState::Disabled }
        else if value == 4 { ModemState::Disabling }
        else if value == 5 { ModemState::Enabling }
        else if value == 6 { ModemState::Enabled }
        else if value == 7 { ModemState::Searching }
        else if value == 8 { ModemState::Registered }
        else if value == 9 { ModemState::Disconnecting }
        else if value == 10 { ModemState::Connecting }
        else if value == 11 { ModemState::Connected }
        else { ModemState::Unknown }
    }

    /// Decodes a raw `State` value; values outside the known range decode to
    /// `Unknown`, so the conversion is total.
    pub fn from_raw(value: i32) -> (state: ModemState)
        ensures
            state == ModemState::decoded(value as int),
    {
        match value {
            -1 => ModemState::Failed,
            1 => ModemState::Initializing,
            2 => ModemState::Locked,
            3 => ModemState::Disabled,
            4 => ModemState::Disabling,
            5 => ModemState::Enabling,
            6 => ModemState::Enabled,
            7 => ModemState::Searching,
            8 => ModemState::Registered,
            9 => ModemState::Disconnecting,
            10 => ModemState::Connecting,
            11 => ModemState::Connected,
            _ => ModemState::Unknown,
        }
    }

    /// Returns the raw ModemManager constant for this state.
    pub fn as_raw(self) -> (raw: i32)
        ensures
            raw == self.raw_value(),
    {
        match self {
            ModemState::Failed => -1,
            ModemState::Unknown => 0,
            ModemState::Initializing => 1,
            ModemState::Locked => 2,
            ModemState::Disabled => 3,
            ModemState::Disabling => 4,
            ModemState::Enabling => 5,
            ModemState::Enabled => 6,
            ModemState::Searching => 7,
            ModemState::Registered => 8,
            ModemState::Disconnecting => 9,
            ModemState::Connecting => 10,
            ModemState::Connected => 11,
        }
    }
}


impl ModemState {
    /// Returns `true` when the modem has an active data bearer.
    pub fn is_connected(self) -> (r: bool)
        ensures
            r == (self == ModemState::Connected),
    {
        matches!(self, ModemState::Connected)
    }

    /// Returns `true` when the modem is registered on a network: `Registered`,
    /// `Disconnecting` (tearing down while still attached), `Connecting` and
    /// `Connected`.
    pub fn is_registered(self) -> (r: bool)
        ensures
            r == (self == ModemState::Registered || self == ModemState::Disconnecting
                || self == ModemState::Connecting || self == ModemState::Connected),
    {
        matches!(
            self,
            ModemState::Registered | ModemState::Disconnecting | ModemState::Connecting
                | ModemState::Connected
        )
    }

    /// Returns `true` while the modem is searching for a network.
    pub fn is_searching(self) -> (r: bool)
        ensures
            r == (self == ModemState::Searching),
    {
        matches!(self, ModemState::Searching)
    }

    /// Returns `true` for the terminal failure state.
    pub fn is_failed(self) -> (r: bool)
        ensures
            r == (self == ModemState::Failed),
    {
        matches!(self, ModemState::Failed)
    }
}

/// Access-technology bits from ModemManager's `MM_MODEM_ACCESS_TECHNOLOGY_*`.
pub const AT_POTS: u32 = 0x1;
pub const AT_GSM: u32 = 0x2;
pub const AT_GSM_COMPACT: u32 = 0x4;
pub const AT_GPRS: u32 = 0x8;
pub const AT_EDGE: u32 = 0x10;
pub const AT_UMTS: u32 = 0x20;
pub const AT_HSDPA: u32 = 0x40;
pub const AT_HSUPA: u32 = 0x80;
pub const AT_HSPA: u32 = 0x100;
pub const AT_HSPA_PLUS: u32 = 0x200;
pub const AT_1XRTT: u32 = 0x400;
pub const AT_EVDO0: u32 = 0x800;
pub const AT_EVDOA: u32 = 0x1000;
pub const AT_EVDOB: u32 = 0x2000;
pub const AT_LTE: u32 = 0x4000;
pub const AT_5GNR: u32 = 0x8000;
pub const AT_LTE_CAT_M: u32 = 0x10000;
pub const AT_LTE_NB_IOT: u32 = 0x20000;

/// GSM, GSM compact, GPRS and EDGE.
pub const AT_2G: u32 = AT_GSM | AT_GSM_COMPACT | AT_GPRS | AT_EDGE;
/// UMTS and the HSPA family.
pub const AT_3G: u32 = AT_UMTS | AT_HSDPA | AT_HSUPA | AT_HSPA | AT_HSPA_PLUS;
/// LTE, LTE-M and NB-IoT.
pub const AT_4G: u32 = AT_LTE | AT_LTE_CAT_M | AT_LTE_NB_IOT;
/// 5G NR.
pub const AT_5G: u32 = AT_5GNR;
/// 1xRTT and the EV-DO family.
pub const AT_CDMA: u32 = AT_1XRTT | AT_EVDO0 | AT_EVDOA | AT_EVDOB;
/// Every 3GPP technology: 2G, 3G, 4G and 5G.
pub const AT_3GPP: u32 = AT_2G | AT_3G | AT_4G | AT_5G;

/// Bitmask of radio access technologies currently in use by a modem, as the
/// `AccessTechnologies` property reports it.
#[derive(Debug, Clone, Copy, PartialEq, Eq, Hash, Structural)]
pub struct AccessTechnology(pub u32);

impl View for AccessTechnology {
    type V = u32;

    open spec fn view(&self) -> u32 {
        self.0
    }
}

impl AccessTechnology {
    /// Empty bitmask.
    #[allow(non_snake_case)]
    pub fn NONE() -> (t: AccessTechnology)
        ensures
            t@ == 0,
    {
        AccessTechnology(0)
    }
    /// Plain Old Telephone Service.
    #[allow(non_snake_case)]
    pub fn POTS() -> (t: AccessTechnology)
        ensures
            t@ == AT_POTS,
    {
        AccessTechnology(AT_POTS)
    }
    /// GSM (2G).
    #[allow(non_snake_case)]
    pub fn GSM() -> (t: AccessTechnology)
        ensures
            t@ == AT_GSM,
    {
        AccessTechnology(AT_GSM)
    }
    /// GSM Compact (2G).
    #[allow(non_snake_case)]
    pub fn GSM_COMPACT() -> (t: AccessTechnology)
        ensures
            t@ == AT_GSM_COMPACT,
    {
        AccessTechnology(AT_GSM_COMPACT)
    }
    /// GPRS (2.5G).
    #[allow(non_snake_case)]
    pub fn GPRS() -> (t: AccessTechnology)
        ensures
            t@ == AT_GPRS,
    {
        AccessTechnology(AT_GPRS)
    }
    /// EDGE (2.75G).
    #[allow(non_snake_case)]
    pub fn EDGE() -> (t: AccessTechnology)
        ensures
            t@ == AT_EDGE,
    {
        AccessTechnology(AT_EDGE)
    }
    /// UMTS (3G).
    #[allow(non_snake_case)]
    pub fn UMTS() -> (t: AccessTechnology)
        ensures
            t@ == AT_UMTS,
    {
        AccessTechnology(AT_UMTS)
    }
    /// HSDPA (3.5G).
    #[allow(non_snake_case)]
    pub fn HSDPA() -> (t: AccessTechnology)
        ensures
            t@ == AT_HSDPA,
    {
        AccessTechnology(AT_HSDPA)
    }
    /// HSUPA (3.5G).
    #[allow(non_snake_case)]
    pub fn HSUPA() -> (t: AccessTechnology)
        ensures
            t@ == AT_HSUPA,
    {
        AccessTechnology(AT_HSUPA)
    }
    /// HSPA (3.5G).
    #[allow(non_snake_case)]
    pub fn HSPA() -> (t: AccessTechnology)
        ensures
            t@ == AT_HSPA,
    {
        AccessTechnology(AT_HSPA)
    }
    /// HSPA+ (3.75G).
    #[allow(non_snake_case)]
    pub fn HSPA_PLUS() -> (t: AccessTechnology)
        ensures
            t@ == AT_HSPA_PLUS,
    {
        AccessTechnology(AT_HSPA_PLUS)
    }
    /// CDMA 1xRTT.
    #[allow(non_snake_case)]
    pub fn ONE_X_RTT() -> (t: AccessTechnology)
        ensures
            t@ == AT_1XRTT,
    {
        AccessTechnology(AT_1XRTT)
    }
    /// CDMA EV-DO release 0.
    #[allow(non_snake_case)]
    pub fn EVDO0() -> (t: AccessTechnology)
        ensures
            t@ == AT_EVDO0,
    {
        AccessTechnology(AT_EVDO0)
    }
    /// CDMA EV-DO revision A.
    #[allow(non_snake_case)]
    pub fn EVDOA() -> (t: AccessTechnology)
        ensures
            t@ == AT_EVDOA,
    {
        AccessTechnology(AT_EVDOA)
    }
    /// CDMA EV-DO revision B.
    #[allow(non_snake_case)]
    pub fn EVDOB() -> (t: AccessTechnology)
        ensures
            t@ == AT_EVDOB,
    {
        AccessTechnology(AT_EVDOB)
    }
    /// LTE (4G).
    #[allow(non_snake_case)]
    pub fn LTE() -> (t: AccessTechnology)
        ensures
            t@ == AT_LTE,
    {
        AccessTechnology(AT_LTE)
    }
    /// 5G New Radio.
    #[allow(non_snake_case)]
    pub fn FIVE_G_NR() -> (t: AccessTechnology)
        ensures
            t@ == AT_5GNR,
    {
        AccessTechnology(AT_5GNR)
    }
    /// LTE Category M.
    #[allow(non_snake_case)]
    pub fn LTE_CAT_M() -> (t: AccessTechnology)
        ensures
            t@ == AT_LTE_CAT_M,
    {
        AccessTechnology(AT_LTE_CAT_M)
    }
    /// LTE Narrowband IoT.
    #[allow(non_snake_case)]
    pub fn LTE_NB_IOT() -> (t: AccessTechnology)
        ensures
            t@ == AT_LTE_NB_IOT,
    {
        AccessTechnology(AT_LTE_NB_IOT)
    }
}


impl AccessTechnology {
    /// Wraps the raw bitmask reported by ModemManager.
    pub fn from_bits(bits: u32) -> (t: AccessTechnology)
        ensures
            t@ == bits,
    {
        AccessTechnology(bits)
    }

    /// Returns the raw bitmask.
    pub fn bits(self) -> (bits: u32)
        ensures
            bits == self@,
    {
        self.0
    }

    /// Returns `true` when no bit is set.
    pub fn is_empty(self) -> (r: bool)
        ensures
            r == (self@ == 0),
    {
        self.0 == 0
    }

    /// Returns `true` if every bit of `other` is also set in `self`.
    pub fn contains(self, other: AccessTechnology) -> (r: bool)
        ensures
            r == (self@ & other@ == other@),
    {
        (self.0 & other.0) == other.0
    }

    /// Returns `true` if some bit of `other` is set in `self`.
    pub fn intersects(self, other: AccessTechnology) -> (r: bool)
        ensures
            r == (self@ & other@ != 0),
    {
        (self.0 & other.0) != 0
    }

    /// Returns the union of the two masks.
    pub fn union(self, other: AccessTechnology) -> (t: AccessTechnology)
        ensures
            t@ == self@ | other@,
    {
        AccessTechnology(self.0 | other.0)
    }

    /// Returns `true` if some 2G technology (GSM, GPRS, EDGE) is reported.
    pub fn is_2g(self) -> (r: bool)
        ensures
            r == (self@ & AT_2G != 0),
    {
        (self.0 & AT_2G) != 0
    }

    /// Returns `true` if some 3G technology (UMTS, HSPA family) is reported.
    pub fn is_3g(self) -> (r: bool)
        ensures
            r == (self@ & AT_3G != 0),
    {
        (self.0 & AT_3G) != 0
    }

    /// Returns `true` if some LTE variant is reported.
    pub fn is_4g(self) -> (r: bool)
        ensures
            r == (self@ & AT_4G != 0),
    {
        (self.0 & AT_4G) != 0
    }

    /// Returns `true` if 5G NR is reported.
    pub fn is_5g(self) -> (r: bool)
        ensures
            r == (self@ & AT_5G != 0),
    {
        (self.0 & AT_5G) != 0
    }

    /// Returns `true` if the mask holds an LTE variant; the same as `is_4g`.
    pub fn has_lte(self) -> (r: bool)
        ensures
            r == (self@ & AT_4G != 0),
    {
        self.is_4g()
    }

    /// Returns `true` if the mask holds 5G NR; the same as `is_5g`.
    pub fn has_5g(self) -> (r: bool)
        ensures
            r == (self@ & AT_5G != 0),
    {
        self.is_5g()
    }

    /// Returns `true` if the mask reports some 3GPP technology (2G to 5G).
    pub fn is_3gpp(self) -> (r: bool)
        ensures
            r == (self@ & AT_3GPP != 0),
    {
        (self.0 & AT_3GPP) != 0
    }

    /// Returns `true` if the mask reports a CDMA or EV-DO technology.
    pub fn is_cdma(self) -> (r: bool)
        ensures
            r == (self@ & AT_CDMA != 0),
    {
        (self.0 & AT_CDMA) != 0
    }
}

impl Default for AccessTechnology {
    fn default() -> (t: AccessTechnology)
        ensures
            t@ == 0,
    {
        AccessTechnology(0)
    }
}

impl From<i32> for ModemState {
    fn from(value: i32) -> (state: ModemState) {
        ModemState::from_raw(value)
    }
}

impl vstd::std_specs::convert::FromSpecImpl<i32> for ModemState {
    open spec fn obeys_from_spec() -> bool {
        true
    }

    open spec fn from_spec(v: i32) -> ModemState {
        ModemState::decoded(v as int)
    }
}

impl From<u32> for AccessTechnology {
    fn from(value: u32) -> (t: AccessTechnology) {
        AccessTechnology(value)
    }
}

impl vstd::std_specs::convert::FromSpecImpl<u32> for AccessTechnology {
    open spec fn obeys_from_spec() -> bool {
        true
    }

    open spec fn from_spec(v: u32) -> AccessTechnology {
        AccessTechnology(v)
    }
}

impl From<AccessTechnology> for u32 {
    fn from(value: AccessTechnology) -> (bits: u32) {
        value.0
    }
}

impl vstd::std_specs::convert::FromSpecImpl<AccessTechnology> for u32 {
    open spec fn obeys_from_spec() -> bool {
        true
    }

    open spec fn from_spec(v: AccessTechnology) -> u32 {
        v@
    }
}

impl std::ops::BitOr for AccessTechnology {
    type Output = AccessTechnology;

    fn bitor(self, rhs: AccessTechnology) -> (t: AccessTechnology) {
        AccessTechnology(self.0 | rhs.0)
    }
}

impl vstd::std_specs::ops::BitOrSpecImpl for AccessTechnology {
    open spec fn obeys_bitor_spec() -> bool {
        true
    }

    open spec fn bitor_req(self, rhs: AccessTechnology) -> bool {
        true
    }

    open spec fn bitor_spec(self, rhs: AccessTechnology) -> AccessTechnology {
        AccessTechnology(self@ | rhs@)
    }
}

impl std::ops::BitAnd for AccessTechnology {
    type Output = AccessTechnology;

    fn bitand(self, rhs: AccessTechnology) -> (t: AccessTechnology) {
        AccessTechnology(self.0 & rhs.0)
    }
}

impl vstd::std_specs::ops::BitAndSpecImpl for AccessTechnology {
    open spec fn obeys_bitand_spec() -> bool {
        true
    }

    open spec fn bitand_req(self, rhs: AccessTechnology) -> bool {
        true
    }

    open spec fn bitand_spec(self, rhs: AccessTechnology) -> AccessTechnology {
        AccessTechnology(self@ & rhs@)
    }
}


impl ModemState {
    /// The lower-case name under which the state is displayed.
    pub open spec fn display_text(self) -> Seq<char> {
        match self {
            ModemState::Failed => "failed"@,
            ModemState::Unknown => "unknown"@,
            ModemState::Initializing => "initializing"@,
            ModemState::Locked => "locked"@,
            ModemState::Disabled => "disabled"@,
            ModemState::Disabling => "disabling"@,
            ModemState::Enabling => "enabling"@,
            ModemState::Enabled => "enabled"@,
            ModemState::Searching => "searching"@,
            ModemState::Registered => "registered"@,
            ModemState::Disconnecting => "disconnecting"@,
            ModemState::Connecting => "connecting"@,
            ModemState::Connected => "connected"@,
        }
    }

    /// Renders the state as its lower-case name.
    pub fn to_string(self) -> (s: String)
        ensures
            s@ == self.display_text(),
    {
        let text = match self {
            ModemState::Failed => "failed",
            ModemState::Unknown => "unknown",
            ModemState::Initializing => "initializing",
            ModemState::Locked => "locked",
            ModemState::Disabled => "disabled",
            ModemState::Disabling => "disabling",
            ModemState::Enabling => "enabling",
            ModemState::Enabled => "enabled",
            ModemState::Searching => "searching",
            ModemState::Registered => "registered",
            ModemState::Disconnecting => "disconnecting",
            ModemState::Connecting => "connecting",
            ModemState::Connected => "connected",
        };
        String::from_str(text)
    }
}

/// Number of named access-technology bits.
pub const AT_NAMED_BITS: usize = 18;

/// The `i`-th named access-technology bit, in display order.
pub open spec fn at_mask(i: int) -> u32 {
    if i == 0 { AT_POTS }
    else if i == 1 { AT_GSM }
    else if i == 2 { AT_GSM_COMPACT }
    else if i == 3 { AT_GPRS }
    else if i == 4 { AT_EDGE }
    else if i == 5 { AT_UMTS }
    else if i == 6 { AT_HSDPA }
    else if i == 7 { AT_HSUPA }
    else if i == 8 { AT_HSPA }
    else if i == 9 { AT_HSPA_PLUS }
    else if i == 10 { AT_1XRTT }
    else if i == 11 { AT_EVDO0 }
    else if i == 12 { AT_EVDOA }
    else if i == 13 { AT_EVDOB }
    else if i == 14 { AT_LTE }
    else if i == 15 { AT_5GNR }
    else if i == 16 { AT_LTE_CAT_M }
    else { AT_LTE_NB_IOT }
}

/// The label of the `i`-th named access-technology bit.
pub open spec fn at_label(i: int) -> Seq<char> {
    if i == 0 { "POTS"@ }
    else if i == 1 { "GSM"@ }
    else if i == 2 { "GSM-Compact"@ }
    else if i == 3 { "GPRS"@ }
    else if i == 4 { "EDGE"@ }
    else if i == 5 { "UMTS"@ }
    else if i == 6 { "HSDPA"@ }
    else if i == 7 { "HSUPA"@ }
    else if i == 8 { "HSPA"@ }
    else if i == 9 { "HSPA+"@ }
    else if i == 10 { "1xRTT"@ }
    else if i == 11 { "EVDO0"@ }
    else if i == 12 { "EVDOA"@ }
    else if i == 13 { "EVDOB"@ }
    else if i == 14 { "LTE"@ }
    else if i == 15 { "5G-NR"@ }
    else if i == 16 { "LTE-M"@ }
    else { "NB-IoT"@ }
}

/// Labels of the bits of `bits` among the first `n` named bits, in order.
pub open spec fn at_labels(bits: u32, n: nat) -> Seq<Seq<char>>
    decreases n,
{
    if n == 0 {
        Seq::empty()
    } else {
        let prev = at_labels(bits, (n - 1) as nat);
        if bits & at_mask(n - 1) != 0 {
            prev.push(at_label(n - 1))
        } else {
            prev
        }
    }
}

fn at_mask_exec(i: usize) -> (m: u32)
    requires
        i < AT_NAMED_BITS,
    ensures
        m == at_mask(i as int),
{
    match i {
        0 => AT_POTS,
        1 => AT_GSM,
        2 => AT_GSM_COMPACT,
        3 => AT_GPRS,
        4 => AT_EDGE,
        5 => AT_UMTS,
        6 => AT_HSDPA,
        7 => AT_HSUPA,
        8 => AT_HSPA,
        9 => AT_HSPA_PLUS,
        10 => AT_1XRTT,
        11 => AT_EVDO0,
        12 => AT_EVDOA,
        13 => AT_EVDOB,
        14 => AT_LTE,
        15 => AT_5GNR,
        16 => AT_LTE_CAT_M,
        _ => AT_LTE_NB_IOT,
    }
}

fn at_label_exec(i: usize) -> (l: &'static str)
    requires
        i < AT_NAMED_BITS,
    ensures
        l@ == at_label(i as int),
{
    match i {
        0 => "POTS",
        1 => "GSM",
        2 => "GSM-Compact",
        3 => "GPRS",
        4 => "EDGE",
        5 => "UMTS",
        6 => "HSDPA",
        7 => "HSUPA",
        8 => "HSPA",
        9 => "HSPA+",
        10 => "1xRTT",
        11 => "EVDO0",
        12 => "EVDOA",
        13 => "EVDOB",
        14 => "LTE",
        15 => "5G-NR",
        16 => "LTE-M",
        _ => "NB-IoT",
    }
}

impl AccessTechnology {
    /// `none` for the empty mask, else the labels of the set bits joined
    /// by `|`.
    pub open spec fn display_text(self) -> Seq<char> {
        if self@ == 0 {
            "none"@
        } else {
            join(at_labels(self@, AT_NAMED_BITS as nat), "|"@)
        }
    }

    /// Renders the mask: `none` when empty, else the label of each set bit
    /// (POTS, GSM, ..., NB-IoT) joined by `|`.
    pub fn to_string(self) -> (s: String)
        ensures
            s@ == self.display_text(),
    {
        if self.0 == 0 {
            return String::from_str("none");
        }
        let mut out = String::new();
        let mut first = true;
        let mut i: usize = 0;
        while i < AT_NAMED_BITS
            invariant
                i <= AT_NAMED_BITS,
                out@ == join(at_labels(self@, i as nat), "|"@),
                first == (at_labels(self@, i as nat).len() == 0),
            decreases AT_NAMED_BITS - i,
        {
            let mask = at_mask_exec(i);
            proof {
                lemma_join_push(at_labels(self@, i as nat), "|"@, at_label(i as int));
            }
            if self.0 & mask != 0 {
                if !first {
                    out.append("|");
                }
                out.append(at_label_exec(i));
                first = false;
            }
            i = i + 1;
        }
        out
    }
}

/// High-level snapshot of a managed modem.
#[derive(Debug, Clone, PartialEq, Eq)]
pub struct Modem {
    /// D-Bus object path of the modem.
    pub path: String,
    /// Current modem state.
    pub state: ModemState,
    /// Modem manufacturer.
    pub manufacturer: String,
    /// Modem model.
    pub model: String,
    /// Equipment identifier: IMEI for 3GPP modems, ESN/MEID for CDMA.
    pub equipment_identifier: String,
    /// Access technologies currently in use.
    pub access_technologies: AccessTechnology,
    /// Signal quality as a percentage.
    pub signal_quality: u32,
    /// D-Bus object path of the active SIM, if any.
    pub primary_sim_path: Option<String>,
    /// D-Bus object paths of the modem's bearers.
    pub bearer_paths: Vec<String>,
}

/// Snapshot of a modem's packet-data connection status.
#[derive(Debug, Clone, PartialEq, Eq)]
pub struct ConnectionStatus {
    /// D-Bus object path of the modem this status belongs to.
    pub modem_path: String,
    /// Current modem state.
    pub state: ModemState,
    /// Whether the modem has an active packet-data bearer.
    pub connected: bool,
    /// Current radio access technology bitmask.
    pub access_technology: AccessTechnology,
    /// Signal quality percentage, when reported.
    pub signal_quality: Option<u32>,
    /// D-Bus object paths of the modem's bearers.
    pub bearer_paths: Vec<String>,
}


/// Law: decoding a state's raw value gives the state back, and decoding a
/// value in `-1..=11` gives a state whose raw value it is; every other value
/// decodes to `Unknown`.
pub proof fn law_modem_state_raw_round_trip(s: ModemState, v: int)
    ensures
        ModemState::decoded(s.raw_value()) == s,
        -1 <= v <= 11 ==> ModemState::decoded(v).raw_value() == v,
        !(-1 <= v <= 11) ==> ModemState::decoded(v) == ModemState::Unknown,
{
}

/// Law: a connected modem is registered; a searching or failed modem is not.
pub proof fn law_modem_state_predicates(s: ModemState)
    ensures
        s == ModemState::Connected ==> (s == ModemState::Registered || s
            == ModemState::Disconnecting || s == ModemState::Connecting || s
            == ModemState::Connected),
        s == ModemState::Searching ==> !(s == ModemState::Registered || s
            == ModemState::Disconnecting || s == ModemState::Connecting || s
            == ModemState::Connected),
{
}

/// The values of the grouped access-technology masks.
pub proof fn lemma_at_group_values()
    ensures
        AT_2G == 0x1e,
        AT_3G == 0x3e0,
        AT_4G == 0x34000,
        AT_5G == 0x8000,
        AT_CDMA == 0x3c00,
        AT_3GPP == 0x3c3fe,
{
    assert((0x2u32 | 0x4u32 | 0x8u32 | 0x10u32) == 0x1eu32) by (bit_vector);
    assert((0x20u32 | 0x40u32 | 0x80u32 | 0x100u32 | 0x200u32) == 0x3e0u32) by (bit_vector);
    assert((0x4000u32 | 0x10000u32 | 0x20000u32) == 0x34000u32) by (bit_vector);
    assert((0x400u32 | 0x800u32 | 0x1000u32 | 0x2000u32) == 0x3c00u32) by (bit_vector);
    assert((0x1eu32 | 0x3e0u32 | 0x34000u32 | 0x8000u32) == 0x3c3feu32) by (bit_vector);
}

/// Law: a mask reports a 3GPP technology exactly when it reports a 2G, 3G,
/// 4G or 5G one.
pub proof fn law_3gpp_is_2g_to_5g(t: AccessTechnology)
    ensures
        (t@ & AT_3GPP != 0) == ((t@ & AT_2G != 0) || (t@ & AT_3G != 0) || (t@ & AT_4G != 0) || (
        t@ & AT_5G != 0)),
{
    lemma_at_group_values();
    let b = t@;
    assert((b & 0x3c3fe != 0) == ((b & 0x1e != 0) || (b & 0x3e0 != 0) || (b & 0x34000 != 0) || (b
        & 0x8000 != 0))) by (bit_vector);
}

/// Law: a mask made only of CDMA / EV-DO bits reports no 3GPP technology, and
/// a mask made only of 3GPP bits reports no CDMA technology.
pub proof fn law_cdma_and_3gpp_disjoint(t: AccessTechnology)
    ensures
        t@ & AT_CDMA == t@ && t@ != 0 ==> (t@ & AT_CDMA != 0) && !(t@ & AT_3GPP != 0),
        t@ & AT_3GPP == t@ ==> !(t@ & AT_CDMA != 0),
{
    lemma_at_group_values();
    let b = t@;
    assert(b & 0x3c00 == b && b != 0 ==> (b & 0x3c00 != 0) && !(b & 0x3c3fe != 0)) by (bit_vector);
    assert(b & 0x3c3fe == b ==> !(b & 0x3c00 != 0)) by (bit_vector);
}

/// Law: the union of two masks contains both, and a mask contains another
/// exactly when their union is the first mask.
pub proof fn law_union_contains(a: AccessTechnology, b: AccessTechnology)
    ensures
        (a@ | b@) & a@ == a@,
        (a@ | b@) & b@ == b@,
        (a@ & b@ == b@) == ((a@ | b@) == a@),
        a@ | b@ == b@ | a@,
{
    let x = a@;
    let y = b@;
    assert((x | y) & x == x) by (bit_vector);
    assert((x | y) & y == y) by (bit_vector);
    assert((x & y == y) == ((x | y) == x)) by (bit_vector);
    assert(x | y == y | x) by (bit_vector);
}

/// Law: containment is reflexive and transitive, and two masks that contain
/// each other are equal.
pub proof fn law_contains_order(a: AccessTechnology, b: AccessTechnology, c: AccessTechnology)
    ensures
        a@ & a@ == a@,
        (a@ & b@ == b@ && b@ & c@ == c@) ==> a@ & c@ == c@,
        (a@ & b@ == b@ && b@ & a@ == a@) ==> a == b,
{
    let x = a@;
    let y = b@;
    let z = c@;
    assert(x & x == x) by (bit_vector);
    assert((x & y == y && y & z == z) ==> x & z == z) by (bit_vector);
    assert((x & y == y && y & x == x) ==> x == y) by (bit_vector);
}

/// Law: overlap is symmetric, and a non-empty mask always overlaps itself.
pub proof fn law_intersects_symmetric(a: AccessTechnology, b: AccessTechnology)
    ensures
        (a@ & b@ != 0) == (b@ & a@ != 0),
        a@ != 0 ==> a@ & a@ != 0,
{
    let x = a@;
    let y = b@;
    assert((x & y != 0) == (y & x != 0)) by (bit_vector);
    assert(x != 0 ==> x & x != 0) by (bit_vector);
}

} // verus!
