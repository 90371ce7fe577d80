//! Startup configuration: the three required values read once from the
//! process environment. A missing value is a fatal startup error; the
//! decision of which value is missing, and the diagnostic for it, are
//! made here from the plain values handed in, so that the caller only
//! has to read the environment and exit on `Err`.

use vstd::prelude::*;

verus! {

/// Which required configuration value is missing. The values are
/// checked in a fixed order, so the error names the first one absent.
#[derive(PartialEq, Eq, Structural, Clone, Copy, Debug)]
pub enum ConfigError {
    MissingServiceAddr,
    MissingBackendUrl,
    MissingFrontendUrl,
}

/// Model of the diagnostic for each missing value.
pub open spec fn config_error_message_model(e: ConfigError) -> Seq<char> {
    match e {
        ConfigError::MissingServiceAddr => "SERVICE_ADDR must be set."@,
        ConfigError::MissingBackendUrl => "BACKEND_URL must be set."@,
        ConfigError::MissingFrontendUrl => "FRONTEND_URL must be set."@,
    }
}

impl ConfigError {
    /// The diagnostic the process prints before exiting.
    pub fn message(&self) -> (m: String)
        ensures
            m@ == config_error_message_model(*self),
    {
        match self {
            ConfigError::MissingServiceAddr => "SERVICE_ADDR must be set.".to_owned(),
            ConfigError::MissingBackendUrl => "BACKEND_URL must be set.".to_owned(),
            ConfigError::MissingFrontendUrl => "FRONTEND_URL must be set.".to_owned(),
        }
    }
}

/// The configuration, immutable for the process lifetime: the address
/// the listener binds to and the two allowed CORS origins.
#[derive(Debug)]
pub struct Config {
    pub service_addr: String,
    pub backend_origin: String,
    pub frontend_origin: String,
}

/// Builds the configuration from the optional environment values, in
/// the order they are required: succeeds exactly when all three are
/// present, and otherwise names the first missing one.
pub fn build_config(
    service_addr: Option<String>,
    backend_url: Option<String>,
    frontend_url: Option<String>,
) -> (r: Result<Config, ConfigError>)
    ensures
        service_addr is None ==> r == Err::<Config, ConfigError>(ConfigError::MissingServiceAddr),
        service_addr is Some && backend_url is None ==> r == Err::<Config, ConfigError>(
            ConfigError::MissingBackendUrl,
        ),
        service_addr is Some && backend_url is Some && frontend_url is None ==> r == Err::<
            Config,
            ConfigError,
        >(ConfigError::MissingFrontendUrl),
        service_addr is Some && backend_url is Some && frontend_url is Some ==> r is Ok
            && r->Ok_0.service_addr == service_addr->0 && r->Ok_0.backend_origin == backend_url->0
            && r->Ok_0.frontend_origin == frontend_url->0,
{
    let service_addr = match service_addr {
        Some(v) => v,
        None => {
            return Err(ConfigError::MissingServiceAddr);
        },
    };
    let backend_origin = match backend_url {
        Some(v) => v,
        None => {
            return Err(ConfigError::MissingBackendUrl);
        },
    };
    let frontend_origin = match frontend_url {
        Some(v) => v,
        None => {
            return Err(ConfigError::MissingFrontendUrl);
        },
    };
    Ok(Config { service_addr, backend_origin, frontend_origin })
}

} // verus!
