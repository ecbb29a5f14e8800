//! Configuration of the two-listener revision: a public address, an
//! administrative address and the browser auth file.

use vstd::prelude::*;

use crate::config::PathProbe;
use crate::error::ServiceError;

verus! {

/// Environment variable naming the public listener address.
pub const PUBLIC_ADDR_ENV: &'static str = "YTMUSIC_SERVICE_PUBLIC_ADDR";

/// Environment variable naming the administrative listener address.
pub const ADMIN_ADDR_ENV: &'static str = "YTMUSIC_SERVICE_ADMIN_ADDR";

/// A validated two-listener configuration.
#[derive(Debug)]
pub struct ServiceConfig {
    public_addr: String,
    admin_addr: String,
    browser_auth_path: String,
}

/// The content of a `ServiceConfig`.
pub struct ServiceConfigView {
    pub public_addr: Seq<char>,
    pub admin_addr: Seq<char>,
    pub browser_auth_path: Seq<char>,
}

impl View for ServiceConfig {
    type V = ServiceConfigView;

    closed spec fn view(&self) -> ServiceConfigView {
        ServiceConfigView {
            public_addr: self.public_addr@,
            admin_addr: self.admin_addr@,
            browser_auth_path: self.browser_auth_path@,
        }
    }
}

impl ServiceConfig {
    /// Checks, in this order: that something exists at the browser auth
    /// path, that it is a regular file, that the public address parsed and
    /// that the administrative address parsed. Each address is its text, or
    /// the parser's complaint.
    pub fn from_parts(
        public_addr: Result<String, String>,
        admin_addr: Result<String, String>,
        browser_auth_path: String,
        probe: PathProbe,
    ) -> (r: Result<ServiceConfig, ServiceError>)
        ensures
            !probe.exists ==> (r matches Err(ServiceError::BrowserAuthPathMissing(p)) && p
                == browser_auth_path),
            probe.exists && !probe.is_file ==> (r matches Err(
                ServiceError::BrowserAuthPathNotFile(p),
            ) && p == browser_auth_path),
            probe.exists && probe.is_file ==> match (public_addr, admin_addr) {
                (Err(m), _) => r matches Err(ServiceError::InvalidSocketAddress(e)) && e == m,
                (Ok(_), Err(m)) => r matches Err(ServiceError::InvalidSocketAddress(e)) && e == m,
                (Ok(p), Ok(a)) => r matches Ok(c) && c@ == (ServiceConfigView {
                    public_addr: p@,
                    admin_addr: a@,
                    browser_auth_path: browser_auth_path@,
                }),
            },
    {
        if !probe.exists {
            return Err(ServiceError::BrowserAuthPathMissing(browser_auth_path));
        }
        if !probe.is_file {
            return Err(ServiceError::BrowserAuthPathNotFile(browser_auth_path));
        }
        let public_addr = match public_addr {
            Ok(a) => a,
            Err(m) => {
                return Err(ServiceError::InvalidSocketAddress(m));
            },
        };
        let admin_addr = match admin_addr {
            Ok(a) => a,
            Err(m) => {
                return Err(ServiceError::InvalidSocketAddress(m));
            },
        };
        Ok(ServiceConfig { public_addr, admin_addr, browser_auth_path })
    }

    /// The public listener address.
    pub fn public_addr(&self) -> (r: &str)
        ensures
            r@ == self@.public_addr,
    {
        self.public_addr.as_str()
    }

    /// The administrative listener address.
    pub fn admin_addr(&self) -> (r: &str)
        ensures
            r@ == self@.admin_addr,
    {
        self.admin_addr.as_str()
    }

    /// The browser auth path.
    pub fn browser_auth_path(&self) -> (r: &str)
        ensures
            r@ == self@.browser_auth_path,
    {
        self.browser_auth_path.as_str()
    }
}

} // verus!
