//! Configuration of the identity layer, built once at startup from values
//! the caller read from its environment.

use vstd::prelude::*;
use vstd::string::*;
use crate::error::ConfigError;
use crate::text::{is_plain_identifier, plain_identifier};

verus! {

/// What every component is configured with.
#[derive(Debug)]
pub struct AuthConfig {
    pub tenant_id: String,
    pub client_id: String,
    pub client_secret: String,
    pub audience: String,
    pub redirect_url: String,
}

/// Where the identity provider sends the browser back to, unless
/// configured otherwise.
pub open spec fn default_redirect_text() -> Seq<char> {
    "http://localhost:3000/auth/authorized"@
}

/// The scopes a login asks for, as the one text a provider is asked with.
pub fn required_scope() -> (scope: &'static str)
    ensures
        scope@ == "openid profile email"@,
{
    "openid profile email"
}

/// The first required value that is absent, in the order client id, client
/// secret, tenant id, audience; then a tenant id that is no plain
/// identifier.
pub open spec fn config_fault(
    tenant_id: Option<String>,
    client_id: Option<String>,
    client_secret: Option<String>,
    audience: Option<String>,
) -> Option<ConfigError> {
    if client_id.is_none() {
        Some(ConfigError::MissingClientId)
    } else if client_secret.is_none() {
        Some(ConfigError::MissingClientSecret)
    } else if tenant_id.is_none() {
        Some(ConfigError::MissingTenantId)
    } else if audience.is_none() {
        Some(ConfigError::MissingAudience)
    } else if !plain_identifier(tenant_id.unwrap()@) {
        Some(ConfigError::InvalidTenantId)
    } else {
        None
    }
}

impl AuthConfig {
    /// Builds the configuration from values that may be absent.
    ///
    /// Tenant id, client id, client secret and audience are required; the
    /// redirect address has a default. The tenant id becomes part of the
    /// provider's addresses and has to be a plain identifier.
    pub fn from_values(
        tenant_id: Option<String>,
        client_id: Option<String>,
        client_secret: Option<String>,
        audience: Option<String>,
        redirect_url: Option<String>,
    ) -> (config: Result<AuthConfig, ConfigError>)
        ensures
            match config {
                Ok(c) => {
                    &&& config_fault(tenant_id, client_id, client_secret, audience).is_none()
                    &&& Some(c.tenant_id) == tenant_id
                    &&& Some(c.client_id) == client_id
                    &&& Some(c.client_secret) == client_secret
                    &&& Some(c.audience) == audience
                    &&& c.redirect_url@ == match redirect_url {
                        Some(url) => url@,
                        None => default_redirect_text(),
                    }
                },
                Err(e) => config_fault(tenant_id, client_id, client_secret, audience) == Some(e),
            },
    {
        let client_id = match client_id {
            Some(v) => v,
            None => { return Err(ConfigError::MissingClientId); },
        };
        let client_secret = match client_secret {
            Some(v) => v,
            None => { return Err(ConfigError::MissingClientSecret); },
        };
        let tenant_id = match tenant_id {
            Some(v) => v,
            None => { return Err(ConfigError::MissingTenantId); },
        };
        let audience = match audience {
            Some(v) => v,
            None => { return Err(ConfigError::MissingAudience); },
        };
        if !is_plain_identifier(tenant_id.as_str()) {
            return Err(ConfigError::InvalidTenantId);
        }
        let redirect_url = match redirect_url {
            Some(v) => v,
            None => String::from_str("http://localhost:3000/auth/authorized"),
        };
        Ok(AuthConfig { tenant_id, client_id, client_secret, audience, redirect_url })
    }
}

} // verus!
