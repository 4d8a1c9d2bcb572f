use vstd::prelude::*;

verus! {

/// What the remote service is configured with: the address to listen on.
#[derive(Debug)]
pub struct ArchetectServiceCore {
    host: String,
    port: u16,
}

impl ArchetectServiceCore {
    pub closed spec fn host_view(&self) -> Seq<char> {
        self.host@
    }

    pub closed spec fn port_view(&self) -> u16 {
        self.port
    }

    /// A service that listens on `host` at `port`; port 0 lets the system pick.
    pub fn new(host: &str, port: u16) -> (r: ArchetectServiceCore)
        ensures
            r.host_view() == host@,
            r.port_view() == port,
    {
        ArchetectServiceCore { host: host.to_owned(), port }
    }

    pub fn host(&self) -> (r: &str)
        ensures
            r@ == self.host_view(),
    {
        self.host.as_str()
    }

    pub fn port(&self) -> (r: u16)
        ensures
            r == self.port_view(),
    {
        self.port
    }
}

/// Builds a server: it says where to listen, and takes the port it was given.
#[derive(Debug)]
pub struct ArchetectServerBuilder {
    core: ArchetectServiceCore,
}

/// A server bound to its port.
#[derive(Debug)]
pub struct ArchetectServer {
    core: ArchetectServiceCore,
    service_port: u16,
}

impl ArchetectServerBuilder {
    pub closed spec fn core_view(&self) -> ArchetectServiceCore {
        self.core
    }

    pub fn new(core: ArchetectServiceCore) -> (r: ArchetectServerBuilder)
        ensures
            r.core_view() == core,
    {
        ArchetectServerBuilder { core }
    }

    /// The host and port to bind, from the service's configuration.
    pub fn bind_address(&self) -> (r: (&str, u16))
        ensures
            r.0@ == self.core_view().host_view(),
            r.1 == self.core_view().port_view(),
    {
        (self.core.host(), self.core.port())
    }

    /// The server, once its listener is bound to `port`.
    pub fn bound(self, port: u16) -> (r: ArchetectServer)
        ensures
            r.core_view() == self.core_view(),
            r.port_view() == port,
    {
        ArchetectServer { core: self.core, service_port: port }
    }
}

impl ArchetectServer {
    pub closed spec fn core_view(&self) -> ArchetectServiceCore {
        self.core
    }

    pub closed spec fn port_view(&self) -> u16 {
        self.service_port
    }

    pub fn builder(core: ArchetectServiceCore) -> (r: ArchetectServerBuilder)
        ensures
            r.core_view() == core,
    {
        ArchetectServerBuilder::new(core)
    }

    /// The port the server listens on.
    pub fn service_port(&self) -> (r: u16)
        ensures
            r == self.port_view(),
    {
        self.service_port
    }

    pub fn service_core(&self) -> (r: &ArchetectServiceCore)
        ensures
            *r == self.core_view(),
    {
        &self.core
    }
}

} // verus!
