//! Service configuration: which listener address, which browser auth file,
//! and which per-RPC timeout, and the order in which bad settings are
//! reported.

use vstd::prelude::*;

use crate::error::ServiceError;
use crate::text::{all_digits, decimal_value, digits_of, lemma_digits_round_trip, parse_decimal_u64};

verus! {

/// Environment variable naming the listener address.
pub const LISTEN_ADDR_ENV: &'static str = "YTMUSIC_SERVICE_ADDR";

/// Environment variable naming the browser auth file.
pub const BROWSER_JSON_ENV: &'static str = "YTMUSIC_SERVICE_BROWSER_JSON";

/// Environment variable holding the optional per-RPC timeout in milliseconds.
pub const RPC_TIMEOUT_ENV: &'static str = "YTMUSIC_SERVICE_RPC_TIMEOUT_MS";

/// The per-RPC timeout used when none is configured: thirty seconds.
pub const DEFAULT_RPC_TIMEOUT_MS: u64 = 30000;

/// What the file system reports about the configured browser auth path:
/// whether anything exists there (following links), and whether that is a
/// regular file.
#[derive(Clone, Copy, Debug)]
pub struct PathProbe {
    pub exists: bool,
    pub is_file: bool,
}

/// A validated service configuration.
#[derive(Debug)]
pub struct ServiceConfig {
    listen_addr: String,
    browser_auth_path: String,
    rpc_timeout_ms: u64,
}

/// The content of a `ServiceConfig`.
pub struct ServiceConfigView {
    pub listen_addr: Seq<char>,
    pub browser_auth_path: Seq<char>,
    pub rpc_timeout_ms: u64,
}

impl View for ServiceConfig {
    type V = ServiceConfigView;

    closed spec fn view(&self) -> ServiceConfigView {
        ServiceConfigView {
            listen_addr: self.listen_addr@,
            browser_auth_path: self.browser_auth_path@,
            rpc_timeout_ms: self.rpc_timeout_ms,
        }
    }
}

impl ServiceConfig {
    #[verifier::type_invariant]
    spec fn positive_timeout(self) -> bool {
        self.rpc_timeout_ms > 0
    }

    /// Checks the browser auth path and the listener address, in that order:
    /// a missing path is reported first, then a path that is not a regular
    /// file, then an address that did not parse (`listen_addr` carries the
    /// address text, or the parser's complaint). The timeout is the default.
    pub fn from_parts(
        listen_addr: Result<String, String>,
        browser_auth_path: String,
        probe: PathProbe,
    ) -> (r: Result<ServiceConfig, ServiceError>)
        ensures
            !probe.exists ==> (r matches Err(ServiceError::BrowserAuthPathMissing(p)) && p
                == browser_auth_path),
            probe.exists && !probe.is_file ==> (r matches Err(
                ServiceError::BrowserAuthPathNotFile(p),
            ) && p == browser_auth_path),
            probe.exists && probe.is_file ==> match listen_addr {
                Err(m) => r matches Err(ServiceError::InvalidSocketAddress(e)) && e == m,
                Ok(a) => r matches Ok(c) && c@ == (ServiceConfigView {
                    listen_addr: a@,
                    browser_auth_path: browser_auth_path@,
                    rpc_timeout_ms: DEFAULT_RPC_TIMEOUT_MS,
                }),
            },
    {
        if !probe.exists {
            return Err(ServiceError::BrowserAuthPathMissing(browser_auth_path));
        }
        if !probe.is_file {
            return Err(ServiceError::BrowserAuthPathNotFile(browser_auth_path));
        }
        match listen_addr {
            Ok(listen_addr) => Ok(
                ServiceConfig {
                    listen_addr,
                    browser_auth_path,
                    rpc_timeout_ms: DEFAULT_RPC_TIMEOUT_MS,
                },
            ),
            Err(message) => Err(ServiceError::InvalidSocketAddress(message)),
        }
    }

    /// The listener address.
    pub fn listen_addr(&self) -> (r: &str)
        ensures
            r@ == self@.listen_addr,
    {
        self.listen_addr.as_str()
    }

    /// The browser auth path.
    pub fn browser_auth_path(&self) -> (r: &str)
        ensures
            r@ == self@.browser_auth_path,
    {
        self.browser_auth_path.as_str()
    }

    /// The per-RPC timeout in milliseconds; never zero.
    pub fn rpc_timeout_ms(&self) -> (r: u64)
        ensures
            r == self@.rpc_timeout_ms,
            r > 0,
    {
        proof {
            use_type_invariant(self);
        }
        self.rpc_timeout_ms
    }

    /// The same configuration with another listener address.
    pub fn with_listen_addr(&self, listen_addr: String) -> (r: ServiceConfig)
        ensures
            r@ == (ServiceConfigView { listen_addr: listen_addr@, ..self@ }),
    {
        proof {
            use_type_invariant(self);
        }
        ServiceConfig {
            listen_addr,
            browser_auth_path: self.browser_auth_path.clone(),
            rpc_timeout_ms: self.rpc_timeout_ms,
        }
    }

    /// The same configuration with another, positive, per-RPC timeout.
    pub fn with_rpc_timeout_ms(self, rpc_timeout_ms: u64) -> (r: ServiceConfig)
        requires
            rpc_timeout_ms > 0,
        ensures
            r@ == (ServiceConfigView { rpc_timeout_ms, ..self@ }),
    {
        ServiceConfig {
            listen_addr: self.listen_addr,
            browser_auth_path: self.browser_auth_path,
            rpc_timeout_ms,
        }
    }
}

/// Why a configured timeout is refused when it is not a number.
pub open spec fn timeout_not_a_number_reason() -> Seq<char> {
    "must be a positive integer number of milliseconds"@
}

/// Why a configured timeout of zero is refused.
pub open spec fn timeout_zero_reason() -> Seq<char> {
    "must be greater than 0"@
}

/// The outcome of reading a configured timeout: the milliseconds, or the
/// reason for refusing it.
pub open spec fn rpc_timeout_outcome(value: Seq<char>) -> Result<nat, Seq<char>> {
    if value.len() == 0 || !all_digits(value) || decimal_value(value) > u64::MAX {
        Err(timeout_not_a_number_reason())
    } else if decimal_value(value) == 0 {
        Err(timeout_zero_reason())
    } else {
        Ok(decimal_value(value))
    }
}

/// Reads the optional per-RPC timeout setting: when unset, the default;
/// when set, it must be a decimal number of milliseconds above zero that
/// fits in 64 bits, else it is refused with the text and the reason.
pub fn parse_rpc_timeout_ms(value: Option<&str>) -> (r: Result<u64, ServiceError>)
    ensures
        value is None ==> r == Ok::<u64, ServiceError>(DEFAULT_RPC_TIMEOUT_MS),
        value matches Some(text) ==> match rpc_timeout_outcome(text@) {
            Ok(ms) => r matches Ok(v) && v == ms,
            Err(reason) => r matches Err(ServiceError::InvalidRpcTimeoutMs { value: shown, reason: why })
                && shown@ == text@ && why@ == reason,
        },
        r matches Ok(v) ==> v > 0,
{
    match value {
        None => Ok(DEFAULT_RPC_TIMEOUT_MS),
        Some(text) => match parse_decimal_u64(text) {
            Some(ms) => {
                if ms == 0 {
                    Err(
                        ServiceError::InvalidRpcTimeoutMs {
                            value: String::from_str(text),
                            reason: String::from_str("must be greater than 0"),
                        },
                    )
                } else {
                    Ok(ms)
                }
            },
            None => Err(
                ServiceError::InvalidRpcTimeoutMs {
                    value: String::from_str(text),
                    reason: String::from_str("must be a positive integer number of milliseconds"),
                },
            ),
        },
    }
}

/// Writing a positive timeout in decimal and reading it back as the
/// timeout setting gives the same number of milliseconds.
pub proof fn lemma_rpc_timeout_round_trip(ms: u64)
    requires
        ms > 0,
    ensures
        rpc_timeout_outcome(digits_of(ms as nat)) == Ok::<nat, Seq<char>>(ms as nat),
{
    lemma_digits_round_trip(ms as nat);
}

} // verus!
