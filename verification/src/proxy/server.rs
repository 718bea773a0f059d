use vstd::prelude::*;
use vstd::string::*;
use crate::intercept::request::RequestInterceptor;
use crate::intercept::response::ResponseInterceptor;
use crate::utils::error::{ErrorKind, FerrumError};

verus! {

/// An IP address as a number: four bytes of version 4, or sixteen of version 6.
#[derive(Clone, Copy, Debug, PartialEq, Eq, Structural)]
pub enum IpAddress {
    V4(u32),
    V6(u128),
}

/// An address to listen on or to connect to. Port 0 asks the system for a
/// free port.
#[derive(Clone, Copy, Debug, PartialEq, Eq, Structural)]
pub struct Endpoint {
    pub ip: IpAddress,
    pub port: u16,
}

/// What the acceptor saw on the listening socket.
#[derive(Clone, Copy, Debug, PartialEq, Eq, Structural)]
pub enum AcceptEvent {
    /// A client connected.
    Accepted,
    /// Accepting failed for now.
    Failed,
    /// The server was told to stop.
    Shutdown,
}

/// What the acceptor does next.
#[derive(Clone, Copy, Debug, PartialEq, Eq, Structural)]
pub enum AcceptAction {
    /// Give the connection a task of its own, and go on accepting.
    Spawn,
    /// Log the error, and go on accepting.
    LogAndContinue,
    /// Leave the loop.
    Stop,
}

/// What the acceptor does on an event: only a shutdown ends the loop.
pub open spec fn accept_action(event: AcceptEvent) -> AcceptAction {
    match event {
        AcceptEvent::Accepted => AcceptAction::Spawn,
        AcceptEvent::Failed => AcceptAction::LogAndContinue,
        AcceptEvent::Shutdown => AcceptAction::Stop,
    }
}

/// The proxy server: the address it was asked to listen on, the address it
/// is bound to once it has started, and the two interceptors.
pub struct ProxyServer {
    addr: Endpoint,
    bound_addr: Option<Endpoint>,
    req_interceptor: RequestInterceptor,
    res_interceptor: ResponseInterceptor,
}

impl ProxyServer {
    /// The address that the server was made with.
    pub closed spec fn configured(&self) -> Endpoint {
        self.addr
    }

    /// The address that the server is bound to, once it has started.
    pub closed spec fn bound(&self) -> Option<Endpoint> {
        self.bound_addr
    }

    pub closed spec fn requests(&self) -> RequestInterceptor {
        self.req_interceptor
    }

    pub closed spec fn responses(&self) -> ResponseInterceptor {
        self.res_interceptor
    }

    /// The address that callers are given: the bound one once there is one,
    /// the configured one before.
    pub open spec fn spec_address(&self) -> Endpoint {
        match self.bound() {
            Some(bound) => bound,
            None => self.configured(),
        }
    }

    /// A server for the given address, not yet bound, with both interceptors
    /// enabled.
    pub fn new(addr: Endpoint) -> (server: Self)
        ensures
            server.configured() == addr,
            server.bound() is None,
            server.requests() == RequestInterceptor::spec_new(),
            server.responses() == ResponseInterceptor::spec_new(),
    {
        ProxyServer {
            addr,
            bound_addr: None,
            req_interceptor: RequestInterceptor::new(),
            res_interceptor: ResponseInterceptor::new(),
        }
    }

    #[verifier::when_used_as_spec(spec_address)]
    pub fn address(&self) -> (addr: Endpoint)
        ensures
            addr == self.spec_address(),
    {
        match self.bound_addr {
            Some(bound) => bound,
            None => self.addr,
        }
    }

    /// Starts the server on the outcome of binding its address. A socket that
    /// was bound gives the address that `address` returns from now on. A bind
    /// that failed is fatal: the server stays as it was, and the caller gets a
    /// `NetworkError`.
    pub fn start(&mut self, bind: Option<Endpoint>) -> (started: Result<(), FerrumError>)
        ensures
            final(self).configured() == old(self).configured(),
            final(self).requests() == old(self).requests(),
            final(self).responses() == old(self).responses(),
            match bind {
                Some(local) => started is Ok && final(self).bound() == Some(local),
                None => started matches Err(e) && e.kind() == ErrorKind::Network
                    && final(self).bound() == old(self).bound(),
            },
    {
        match bind {
            Some(local) => {
                self.bound_addr = Some(local);
                Ok(())
            },
            None => Err(FerrumError::NetworkError(String::from_str("Failed to bind to address"))),
        }
    }

    /// Decides what the accept loop does on an event. An error of `accept`
    /// never ends the loop.
    pub fn on_accept(&self, event: AcceptEvent) -> (action: AcceptAction)
        ensures
            action == accept_action(event),
    {
        match event {
            AcceptEvent::Accepted => AcceptAction::Spawn,
            AcceptEvent::Failed => AcceptAction::LogAndContinue,
            AcceptEvent::Shutdown => AcceptAction::Stop,
        }
    }

    pub fn request_interceptor(&self) -> (interceptor: &RequestInterceptor)
        ensures
            *interceptor == self.requests(),
    {
        &self.req_interceptor
    }

    pub fn response_interceptor(&self) -> (interceptor: &ResponseInterceptor)
        ensures
            *interceptor == self.responses(),
    {
        &self.res_interceptor
    }

    /// Switches the interception of requests on or off.
    pub fn set_request_interception(&mut self, enabled: bool)
        ensures
            final(self).configured() == old(self).configured(),
            final(self).bound() == old(self).bound(),
            final(self).responses() == old(self).responses(),
            final(self).requests().is_enabled() == enabled,
    {
        if enabled {
            self.req_interceptor.enable();
        } else {
            self.req_interceptor.disable();
        }
    }

    /// Switches the interception of responses on or off.
    pub fn set_response_interception(&mut self, enabled: bool)
        ensures
            final(self).configured() == old(self).configured(),
            final(self).bound() == old(self).bound(),
            final(self).requests() == old(self).requests(),
            final(self).responses().is_enabled() == enabled,
    {
        if enabled {
            self.res_interceptor.enable();
        } else {
            self.res_interceptor.disable();
        }
    }
}

} // verus!
