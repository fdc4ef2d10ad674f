//! Configuration of a NetworkManager secret agent before it registers.

use vstd::prelude::*;

verus! {

/// The identifier passed to NetworkManager unless another is set.
pub const DEFAULT_IDENTIFIER: &'static str = "com.system76.CosmicApplets.nmrs.secret_agent";
/// The object path at which NetworkManager calls secret agents.
pub const DEFAULT_OBJECT_PATH: &'static str = "/org/freedesktop/NetworkManager/SecretAgent";
/// The number of `GetSecrets` requests buffered before back-pressure.
pub const DEFAULT_QUEUE_DEPTH: usize = 32;

/// Capabilities a secret agent advertises to NetworkManager
/// (`NMSecretAgentCapabilities`).
#[derive(Debug, Clone, Copy, PartialEq, Eq, Structural)]
pub struct SecretAgentCapabilities(pub u32);

impl View for SecretAgentCapabilities {
    type V = u32;

    open spec fn view(&self) -> u32 {
        self.0
    }
}

impl SecretAgentCapabilities {
    /// No capability.
    #[allow(non_snake_case)]
    pub fn NONE() -> (c: SecretAgentCapabilities)
        ensures
            c@ == 0,
    {
        SecretAgentCapabilities(0)
    }

    /// The agent understands VPN hints.
    #[allow(non_snake_case)]
    pub fn VPN_HINTS() -> (c: SecretAgentCapabilities)
        ensures
            c@ == 1,
    {
        SecretAgentCapabilities(1)
    }

    /// The raw capability bits.
    pub fn bits(self) -> (b: u32)
        ensures
            b == self@,
    {
        self.0
    }
}

/// Entry point for creating a NetworkManager secret agent.
pub struct SecretAgent;

/// Builder for configuring a secret agent before it registers.
#[derive(Debug)]
pub struct SecretAgentBuilder {
    identifier: String,
    capabilities: SecretAgentCapabilities,
    object_path: String,
    queue_depth: usize,
}

impl SecretAgentBuilder {
    /// The identifier passed to NetworkManager.
    pub closed spec fn identifier_view(&self) -> Seq<char> {
        self.identifier@
    }

    /// The capabilities advertised to NetworkManager.
    pub closed spec fn capabilities_view(&self) -> SecretAgentCapabilities {
        self.capabilities
    }

    /// The object path where the agent interface is served.
    pub closed spec fn object_path_view(&self) -> Seq<char> {
        self.object_path@
    }

    /// The request queue depth.
    pub closed spec fn queue_depth_view(&self) -> usize {
        self.queue_depth
    }

    /// The builder holds the defaults: the default identifier and object
    /// path, VPN hints, and a queue depth of 32.
    pub open spec fn has_defaults(&self) -> bool {
        &&& self.identifier_view() == DEFAULT_IDENTIFIER@
        &&& self.capabilities_view()@ == 1
        &&& self.object_path_view() == DEFAULT_OBJECT_PATH@
        &&& self.queue_depth_view() == DEFAULT_QUEUE_DEPTH
    }
}

impl Default for SecretAgentBuilder {
    fn default() -> (b: SecretAgentBuilder)
        ensures
            b.has_defaults(),
    {
        SecretAgentBuilder {
            identifier: String::from_str(DEFAULT_IDENTIFIER),
            capabilities: SecretAgentCapabilities::VPN_HINTS(),
            object_path: String::from_str(DEFAULT_OBJECT_PATH),
            queue_depth: DEFAULT_QUEUE_DEPTH,
        }
    }
}

impl SecretAgent {
    /// Returns a builder holding the defaults.
    pub fn builder() -> (b: SecretAgentBuilder)
        ensures
            b.has_defaults(),
    {
        SecretAgentBuilder::default()
    }
}

impl SecretAgentBuilder {
    /// Sets the identifier passed to NetworkManager, keeping the rest.
    pub fn with_identifier(self, identifier: &str) -> (b: SecretAgentBuilder)
        ensures
            b.identifier_view() == identifier@,
            b.capabilities_view() == self.capabilities_view(),
            b.object_path_view() == self.object_path_view(),
            b.queue_depth_view() == self.queue_depth_view(),
    {
        SecretAgentBuilder { identifier: String::from_str(identifier), ..self }
    }

    /// Sets the advertised capabilities, keeping the rest.
    pub fn with_capabilities(self, capabilities: SecretAgentCapabilities) -> (b:
        SecretAgentBuilder)
        ensures
            b.capabilities_view() == capabilities,
            b.identifier_view() == self.identifier_view(),
            b.object_path_view() == self.object_path_view(),
            b.queue_depth_view() == self.queue_depth_view(),
    {
        SecretAgentBuilder { capabilities, ..self }
    }

    /// Sets the object path where the agent interface is served, keeping the
    /// rest.
    pub fn with_object_path(self, path: &str) -> (b: SecretAgentBuilder)
        ensures
            b.object_path_view() == path@,
            b.identifier_view() == self.identifier_view(),
            b.capabilities_view() == self.capabilities_view(),
            b.queue_depth_view() == self.queue_depth_view(),
    {
        SecretAgentBuilder { object_path: String::from_str(path), ..self }
    }

    /// Sets how many `GetSecrets` requests are buffered, keeping the rest.
    pub fn with_queue_depth(self, depth: usize) -> (b: SecretAgentBuilder)
        ensures
            b.queue_depth_view() == depth,
            b.identifier_view() == self.identifier_view(),
            b.capabilities_view() == self.capabilities_view(),
            b.object_path_view() == self.object_path_view(),
    {
        SecretAgentBuilder { queue_depth: depth, ..self }
    }

    /// The identifier passed to NetworkManager.
    pub fn identifier(&self) -> (s: &str)
        ensures
            s@ == self.identifier_view(),
    {
        self.identifier.as_str()
    }

    /// The capabilities advertised to NetworkManager.
    pub fn capabilities(&self) -> (c: SecretAgentCapabilities)
        ensures
            c == self.capabilities_view(),
    {
        self.capabilities
    }

    /// The object path where the agent interface is served.
    pub fn object_path(&self) -> (s: &str)
        ensures
            s@ == self.object_path_view(),
    {
        self.object_path.as_str()
    }

    /// The request queue depth.
    pub fn queue_depth(&self) -> (d: usize)
        ensures
            d == self.queue_depth_view(),
    {
        self.queue_depth
    }
}

} // verus!
