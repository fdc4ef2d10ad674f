//! Errors of ModemManager operations.

use vstd::prelude::*;
use std::num::ParseIntError;
use std::str::Utf8Error;

verus! {

/// `zbus::Error`, carried through as the source of D-Bus failures.
#[verifier::external_type_specification]
#[verifier::external_body]
pub struct ExZbusError(zbus::Error);

/// `zbus::fdo::Error`, carried through as the source of D-Bus failures.
#[verifier::external_type_specification]
#[verifier::external_body]
pub struct ExZbusFdoError(zbus::fdo::Error);

/// `std::str::Utf8Error`.
#[verifier::external_type_specification]
#[verifier::external_body]
pub struct ExUtf8Error(Utf8Error);

/// `std::num::ParseIntError`.
#[verifier::external_type_specification]
#[verifier::external_body]
pub struct ExParseIntError(ParseIntError);

/// Lock state of a SIM, after ModemManager's `MMModemLock`.
#[derive(Debug, Clone, Copy, PartialEq, Eq, Hash, Structural)]
pub enum SimLockState {
    Unknown,
    Unlocked,
    SimPin,
    SimPin2,
    SimPuk,
    SimPuk2,
    PhSpPin,
    PhSpPuk,
    PhNetPin,
    PhNetPuk,
    PhSimPin,
    PhCorpPin,
    PhCorpPuk,
    PhFsimPin,
    PhFsimPuk,
    PhNetsubPin,
    PhNetsubPuk,
}

impl SimLockState {
    /// The variant's name, as its debug rendering shows it.
    pub open spec fn name_text(self) -> Seq<char> {
        match self {
            SimLockState::Unknown => "Unknown"@,
            SimLockState::Unlocked => "Unlocked"@,
            SimLockState::SimPin => "SimPin"@,
            SimLockState::SimPin2 => "SimPin2"@,
            SimLockState::SimPuk => "SimPuk"@,
            SimLockState::SimPuk2 => "SimPuk2"@,
            SimLockState::PhSpPin => "PhSpPin"@,
            SimLockState::PhSpPuk => "PhSpPuk"@,
            SimLockState::PhNetPin => "PhNetPin"@,
            SimLockState::PhNetPuk => "PhNetPuk"@,
            SimLockState::PhSimPin => "PhSimPin"@,
            SimLockState::PhCorpPin => "PhCorpPin"@,
            SimLockState::PhCorpPuk => "PhCorpPuk"@,
            SimLockState::PhFsimPin => "PhFsimPin"@,
            SimLockState::PhFsimPuk => "PhFsimPuk"@,
            SimLockState::PhNetsubPin => "PhNetsubPin"@,
            SimLockState::PhNetsubPuk => "PhNetsubPuk"@,
        }
    }

    /// The variant's name.
    pub fn name(self) -> (s: &'static str)
        ensures
            s@ == self.name_text(),
    {
        match self {
            SimLockState::Unknown => "Unknown",
            SimLockState::Unlocked => "Unlocked",
            SimLockState::SimPin => "SimPin",
            SimLockState::SimPin2 => "SimPin2",
            SimLockState::SimPuk => "SimPuk",
            SimLockState::SimPuk2 => "SimPuk2",
            SimLockState::PhSpPin => "PhSpPin",
            SimLockState::PhSpPuk => "PhSpPuk",
            SimLockState::PhNetPin => "PhNetPin",
            SimLockState::PhNetPuk => "PhNetPuk",
            SimLockState::PhSimPin => "PhSimPin",
            SimLockState::PhCorpPin => "PhCorpPin",
            SimLockState::PhCorpPuk => "PhCorpPuk",
            SimLockState::PhFsimPin => "PhFsimPin",
            SimLockState::PhFsimPuk => "PhFsimPuk",
            SimLockState::PhNetsubPin => "PhNetsubPin",
            SimLockState::PhNetsubPuk => "PhNetsubPuk",
        }
    }
}

/// Errors that can occur during ModemManager operations.
#[derive(Debug)]
pub enum ModemError {
    /// A D-Bus communication error occurred.
    Dbus(zbus::Error),
    /// A standard freedesktop.org D-Bus interface operation failed.
    DbusFdo(zbus::fdo::Error),
    /// A D-Bus operation failed, with context about what was attempted.
    DbusOperation {
        /// What was being attempted.
        context: String,
        /// The underlying error.
        source: zbus::Error,
    },
    /// ModemManager reported no managed modems.
    NoModems,
    /// No modem was found at the requested path.
    ModemNotFound(String),
    /// The modem is in the failed state.
    ModemFailed(String),
    /// The modem is disabled.
    ModemDisabled,
    /// No SIM is inserted.
    NoSim,
    /// The SIM is locked.
    SimLocked(SimLockState),
    /// The supplied PIN was incorrect.
    WrongPin,
    /// The supplied PUK was incorrect.
    WrongPuk,
    /// The PIN format was invalid.
    InvalidPin(String),
    /// Bearer creation failed.
    BearerCreationFailed(String),
    /// No bearer was found at the requested path.
    BearerNotFound(String),
    /// Activating the bearer failed.
    BearerConnectFailed(String),
    /// Deactivating the bearer failed.
    BearerDisconnectFailed(String),
    /// The APN was rejected or invalid.
    InvalidApn(String),
    /// The operation timed out.
    Timeout,
    /// The operation is not supported.
    Unsupported(String),
    /// A string property was not valid UTF-8.
    InvalidUtf8(Utf8Error),
    /// An integer property could not be parsed.
    InvalidInt(ParseIntError),
}

impl ModemError {
    /// The error carries an outside error whose rendering ends its message.
    pub open spec fn has_outside_source(&self) -> bool {
        match self {
            ModemError::Dbus(_) | ModemError::DbusFdo(_) | ModemError::DbusOperation { .. }
            | ModemError::InvalidUtf8(_) | ModemError::InvalidInt(_) => true,
            _ => false,
        }
    }

    /// The message's text, complete for errors without an outside source; for
    /// the others, the part before the outside error's rendering.
    pub open spec fn message_head(&self) -> Seq<char> {
        match self {
            ModemError::Dbus(_) => "d-bus error: "@,
            ModemError::DbusFdo(_) => "d-bus fdo error: "@,
            ModemError::DbusOperation { context, .. } => context@ + ": "@,
            ModemError::NoModems => "no modems found"@,
            ModemError::ModemNotFound(p) => "modem not found: "@ + p@,
            ModemError::ModemFailed(p) => "modem in failed state: "@ + p@,
            ModemError::ModemDisabled => "modem is disabled"@,
            ModemError::NoSim => "no SIM present"@,
            ModemError::SimLocked(lock) => "sim locked: "@ + lock.name_text(),
            ModemError::WrongPin => "wrong pin"@,
            ModemError::WrongPuk => "wrong puk"@,
            ModemError::InvalidPin(p) => "invalid pin format: "@ + p@,
            ModemError::BearerCreationFailed(p) => "bearer creation failed: "@ + p@,
            ModemError::BearerNotFound(p) => "bearer not found: "@ + p@,
            ModemError::BearerConnectFailed(p) => "bearer connect failed: "@ + p@,
            ModemError::BearerDisconnectFailed(p) => "bearer disconnect failed: "@ + p@,
            ModemError::InvalidApn(p) => "invalid apn: "@ + p@,
            ModemError::Timeout => "modem operation timed out"@,
            ModemError::Unsupported(p) => "operation not supported: "@ + p@,
            ModemError::InvalidUtf8(_) => "invalid utf-8 in modem property: "@,
            ModemError::InvalidInt(_) => "invalid integer in modem property: "@,
        }
    }

    /// `t` is a rendering, by its `Display`, of the outside error that this
    /// error carries.
    pub open spec fn renders_source(&self, t: String) -> bool {
        match self {
            ModemError::Dbus(e) => vstd::string::to_string_from_display_ensures::<zbus::Error>(e, t),
            ModemError::DbusFdo(e) => vstd::string::to_string_from_display_ensures::<
                zbus::fdo::Error,
            >(e, t),
            ModemError::DbusOperation { source, .. } =>
                vstd::string::to_string_from_display_ensures::<zbus::Error>(source, t),
            ModemError::InvalidUtf8(e) => vstd::string::to_string_from_display_ensures::<Utf8Error>(
                e,
                t,
            ),
            ModemError::InvalidInt(e) => vstd::string::to_string_from_display_ensures::<
                ParseIntError,
            >(e, t),
            _ => false,
        }
    }

    /// Renders the error's message. For errors with an outside source the
    /// message is the head followed by that error's own rendering.
    pub fn to_string(&self) -> (s: String)
        ensures
            !self.has_outside_source() ==> s@ == self.message_head(),
            self.has_outside_source() ==> exists|t: String|
                #[trigger] self.renders_source(t) && s@ == self.message_head() + t@,
    {
        let (head, tail): (String, Option<String>) = match self {
            ModemError::Dbus(e) => (String::from_str("d-bus error: "), Some(e.to_string())),
            ModemError::DbusFdo(e) => (String::from_str("d-bus fdo error: "), Some(e.to_string())),
            ModemError::DbusOperation { context, source } => {
                let h = context.clone().concat(": ");
                (h, Some(source.to_string()))
            },
            ModemError::NoModems => (String::from_str("no modems found"), None),
            ModemError::ModemNotFound(p) => (String::from_str("modem not found: ").concat(p.as_str()), None),
            ModemError::ModemFailed(p) => (String::from_str("modem in failed state: ").concat(p.as_str()), None),
            ModemError::ModemDisabled => (String::from_str("modem is disabled"), None),
            ModemError::NoSim => (String::from_str("no SIM present"), None),
            ModemError::SimLocked(lock) => (String::from_str("sim locked: ").concat(lock.name()), None),
            ModemError::WrongPin => (String::from_str("wrong pin"), None),
            ModemError::WrongPuk => (String::from_str("wrong puk"), None),
            ModemError::InvalidPin(p) => (String::from_str("invalid pin format: ").concat(p.as_str()), None),
            ModemError::BearerCreationFailed(p) => (String::from_str("bearer creation failed: ").concat(p.as_str()), None),
            ModemError::BearerNotFound(p) => (String::from_str("bearer not found: ").concat(p.as_str()), None),
            ModemError::BearerConnectFailed(p) => (String::from_str("bearer connect failed: ").concat(p.as_str()), None),
            ModemError::BearerDisconnectFailed(p) => (String::from_str("bearer disconnect failed: ").concat(p.as_str()), None),
            ModemError::InvalidApn(p) => (String::from_str("invalid apn: ").concat(p.as_str()), None),
            ModemError::Timeout => (String::from_str("modem operation timed out"), None),
            ModemError::Unsupported(p) => (String::from_str("operation not supported: ").concat(p.as_str()), None),
            ModemError::InvalidUtf8(e) => (String::from_str("invalid utf-8 in modem property: "), Some(e.to_string())),
            ModemError::InvalidInt(e) => (String::from_str("invalid integer in modem property: "), Some(e.to_string())),
        };
        assert(head@ == self.message_head());
        assert(tail is Some <==> self.has_outside_source());
        assert(tail matches Some(t) ==> self.renders_source(t));
        match tail {
            Some(t) => head.concat(t.as_str()),
            None => head,
        }
    }
}

/// The outside error that a [`ModemError`] carries as its cause.
#[derive(Debug)]
pub enum ErrorSource<'a> {
    /// A `zbus` error.
    Dbus(&'a zbus::Error),
    /// A `zbus` freedesktop.org interface error.
    DbusFdo(&'a zbus::fdo::Error),
    /// A UTF-8 decoding error.
    Utf8(&'a Utf8Error),
    /// An integer parsing error.
    ParseInt(&'a ParseIntError),
}

impl ModemError {
    /// The underlying cause: the carried D-Bus, UTF-8 or integer-parsing
    /// error, for the variants that carry one.
    pub fn source(&self) -> (r: Option<ErrorSource<'_>>)
        ensures
            r is Some == self.has_outside_source(),
            self matches ModemError::Dbus(e) ==> r == Some(ErrorSource::Dbus(e)),
            self matches ModemError::DbusFdo(e) ==> r == Some(ErrorSource::DbusFdo(e)),
            self matches ModemError::DbusOperation { source, .. } ==> r == Some(
                ErrorSource::Dbus(source),
            ),
            self matches ModemError::InvalidUtf8(e) ==> r == Some(ErrorSource::Utf8(e)),
            self matches ModemError::InvalidInt(e) ==> r == Some(ErrorSource::ParseInt(e)),
    {
        match self {
            ModemError::Dbus(e) => Some(ErrorSource::Dbus(e)),
            ModemError::DbusFdo(e) => Some(ErrorSource::DbusFdo(e)),
            ModemError::DbusOperation { source, .. } => Some(ErrorSource::Dbus(source)),
            ModemError::InvalidUtf8(e) => Some(ErrorSource::Utf8(e)),
            ModemError::InvalidInt(e) => Some(ErrorSource::ParseInt(e)),
            _ => None,
        }
    }
}

impl From<zbus::Error> for ModemError {
    fn from(e: zbus::Error) -> (r: ModemError) {
        ModemError::Dbus(e)
    }
}

impl vstd::std_specs::convert::FromSpecImpl<zbus::Error> for ModemError {
    open spec fn obeys_from_spec() -> bool {
        true
    }

    open spec fn from_spec(e: zbus::Error) -> ModemError {
        ModemError::Dbus(e)
    }
}

impl From<zbus::fdo::Error> for ModemError {
    fn from(e: zbus::fdo::Error) -> (r: ModemError) {
        ModemError::DbusFdo(e)
    }
}

impl vstd::std_specs::convert::FromSpecImpl<zbus::fdo::Error> for ModemError {
    open spec fn obeys_from_spec() -> bool {
        true
    }

    open spec fn from_spec(e: zbus::fdo::Error) -> ModemError {
        ModemError::DbusFdo(e)
    }
}

impl From<Utf8Error> for ModemError {
    fn from(e: Utf8Error) -> (r: ModemError) {
        ModemError::InvalidUtf8(e)
    }
}

impl vstd::std_specs::convert::FromSpecImpl<Utf8Error> for ModemError {
    open spec fn obeys_from_spec() -> bool {
        true
    }

    open spec fn from_spec(e: Utf8Error) -> ModemError {
        ModemError::InvalidUtf8(e)
    }
}

impl From<ParseIntError> for ModemError {
    fn from(e: ParseIntError) -> (r: ModemError) {
        ModemError::InvalidInt(e)
    }
}

impl vstd::std_specs::convert::FromSpecImpl<ParseIntError> for ModemError {
    open spec fn obeys_from_spec() -> bool {
        true
    }

    open spec fn from_spec(e: ParseIntError) -> ModemError {
        ModemError::InvalidInt(e)
    }
}

} // verus!
