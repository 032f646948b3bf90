//! Startup configuration: the listen address and store connection string
//! fall back to defaults when unset, the write token is required, and
//! startup must fail when it is absent. Reading the environment is the
//! caller's business; the resolution rules are decided and verified here.

use vstd::prelude::*;

verus! {

/// Everything the process needs, fixed once at startup and read-only
/// afterwards: where to listen, where the store lives, and the shared
/// secret that authorizes writes.
pub struct Config {
    pub listen_addr: String,
    pub store_uri: String,
    pub write_token: String,
}

/// The one non-recoverable startup error: no write token was provided.
#[derive(Debug)]
pub enum ConfigError {
    MissingWriteToken,
}

/// Resolve the configuration from environment-like input. Each argument is
/// the raw setting if it was present. The listen address and store URI get
/// defaults; a missing write token is an error, and the caller must abort
/// startup on it.
pub fn resolve_config(
    listen_addr: Option<String>,
    store_uri: Option<String>,
    write_token: Option<String>,
) -> (r: Result<Config, ConfigError>)
    ensures
        r is Ok <==> write_token is Some,
        r matches Ok(c) ==> {
            &&& write_token matches Some(t) && c.write_token@ == t@
            &&& c.listen_addr@ == match listen_addr {
                Some(a) => a@,
                None => "[::1]:3000"@,
            }
            &&& c.store_uri@ == match store_uri {
                Some(u) => u@,
                None => "postgresql://localhost:5432"@,
            }
        },
        r matches Err(e) ==> e is MissingWriteToken,
{
    let token = match write_token {
        Some(t) => t,
        None => {
            return Err(ConfigError::MissingWriteToken);
        },
    };
    let listen = match listen_addr {
        Some(a) => a,
        None => "[::1]:3000".to_owned(),
    };
    let uri = match store_uri {
        Some(u) => u,
        None => "postgresql://localhost:5432".to_owned(),
    };
    Ok(Config { listen_addr: listen, store_uri: uri, write_token: token })
}

} // verus!
