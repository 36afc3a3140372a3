//! Values exchanged with the secret service, and the resolution of the
//! client configuration from environment values.

use vstd::prelude::*;

use crate::error::Error;

verus! {

/// A lease granted by the secret service: a credential payload with a
/// bounded lifetime. Yielded by a successful read or write.
pub struct LeaseResponse {
    pub request_id: String,
    pub lease_id: String,
    /// Granted lifetime in seconds.
    pub lease_duration: u32,
    pub renewable: bool,
    /// The credential payload the templates are expanded over.
    pub data: Vec<(String, String)>,
    pub warnings: Option<Vec<String>>,
}

/// The answer to a lease renewal: the same lease, with a fresh lifetime.
pub struct RenewResponse {
    pub request_id: String,
    pub lease_id: String,
    /// Renewed lifetime in seconds; strictly less than the previous grant
    /// when the server capped it against its maximum.
    pub lease_duration: u32,
    pub renewable: bool,
    pub warnings: Option<Vec<String>>,
}

/// How the client authenticates against the secret service.
#[derive(Debug)]
pub enum VaultAuth {
    /// A static token was supplied.
    Token(String),
    /// Exchange an in-cluster service-account token at `<path>/login` with
    /// the given role.
    Kubernetes { path: String, role: String },
}

/// The resolved client configuration.
#[derive(Debug)]
pub struct VaultConfig {
    /// Base URL of the service.
    pub addr: String,
    /// Tenant namespace header value, when set.
    pub namespace: Option<String>,
    /// Filesystem path of a PEM bundle to trust, when set.
    pub cacert_path: Option<String>,
    pub auth: VaultAuth,
}

impl VaultConfig {
    /// Decides the client configuration from the environment values: the
    /// address is required; a static token wins when present; otherwise both
    /// the login path and the role must be present. A missing requirement is
    /// a fatal configuration error.
    pub fn resolve(
        addr: Option<String>,
        namespace: Option<String>,
        cacert_path: Option<String>,
        token: Option<String>,
        k8s_path: Option<String>,
        k8s_role: Option<String>,
    ) -> (r: Result<VaultConfig, Error>)
        ensures
            r is Err <==> (addr is None || (token is None && (k8s_path is None
                || k8s_role is None))),
            r matches Err(e) ==> (e == Error::ConfigMissingVaultAddr <==> addr is None),
            r matches Err(e) ==> (e == Error::ConfigMissingKubernetesAuth <==> addr is Some),
            r matches Ok(c) ==> {
                &&& addr == Some(c.addr)
                &&& c.namespace == namespace
                &&& c.cacert_path == cacert_path
                &&& match token {
                    Some(t) => c.auth == VaultAuth::Token(t),
                    None => k8s_path matches Some(p) && k8s_role matches Some(ro) && c.auth
                        == (VaultAuth::Kubernetes { path: p, role: ro }),
                }
            },
    {
        let a = match addr {
            Some(a) => a,
            None => {
                return Err(Error::ConfigMissingVaultAddr);
            },
        };
        let auth = match token {
            Some(t) => VaultAuth::Token(t),
            None => match (k8s_path, k8s_role) {
                (Some(p), Some(ro)) => VaultAuth::Kubernetes { path: p, role: ro },
                _ => {
                    return Err(Error::ConfigMissingKubernetesAuth);
                },
            },
        };
        Ok(VaultConfig { addr: a, namespace, cacert_path, auth })
    }
}

} // verus!
