//! The connection to the TiKV cluster: one client, made on first use from the
//! caller's connection parameters and reused afterwards.

use vstd::prelude::*;

use crate::error::{napi_error_text, result_view, ReturnError};

verus! {

/// How to reach the cluster.
#[derive(Clone, Debug)]
pub struct TikvConnParams {
    pub tlsclusterenabled: bool,
    pub sslcacerti: String,
    pub sslclientcerti: String,
    pub sslclientkeycerti: String,
    pub host: String,
}

/// Whether the connection uses TLS. It is fixed to off; the parameter
/// `tlsclusterenabled` is not consulted.
pub const TLS_CLUSTER_ENABLED: bool = false;

/// The certificate and key files of a TLS connection.
#[derive(Debug)]
pub struct TlsFiles {
    pub ca_path: String,
    pub cert_path: String,
    pub key_path: String,
}

/// What to do to get a client.
#[derive(Debug)]
pub enum ConnectPlan {
    /// A client was made before: use it.
    ReuseCached,
    /// Connect to these endpoints, over TLS with these files when given.
    Connect { endpoints: Vec<String>, tls: Option<TlsFiles> },
}

/// How to get a client. With none made before, the parameters must be given:
/// the one endpoint is their host, and with TLS on the files are theirs.
pub fn plan_connection(
    client_cached: bool,
    params: &Option<TikvConnParams>,
    tls_cluster_enabled: bool,
) -> (r: ConnectPlan)
    requires
        client_cached || params is Some,
    ensures
        client_cached ==> r is ReuseCached,
        !client_cached ==> {
            let p = params->0;
            &&& r matches ConnectPlan::Connect { endpoints, tls } && {
                &&& endpoints@.len() == 1
                &&& endpoints@[0]@ == p.host@
                &&& tls_cluster_enabled ==> (tls matches Some(f) && f.ca_path@ == p.sslcacerti@
                    && f.cert_path@ == p.sslclientcerti@ && f.key_path@ == p.sslclientkeycerti@)
                &&& !tls_cluster_enabled ==> tls is None
            }
        },
{
    if client_cached {
        return ConnectPlan::ReuseCached;
    }
    let p = params.as_ref().unwrap();
    let mut endpoints: Vec<String> = Vec::new();
    endpoints.push(p.host.clone());
    let tls = if tls_cluster_enabled {
        Some(
            TlsFiles {
                ca_path: p.sslcacerti.clone(),
                cert_path: p.sslclientcerti.clone(),
                key_path: p.sslclientkeycerti.clone(),
            },
        )
    } else {
        None
    };
    ConnectPlan::Connect { endpoints, tls }
}

/// The answer to a request to set up the client: `Client Created`, or the
/// failure shown as `Error in Client Creation- ` and the error's N-API text.
pub fn init_client_outcome(created: Result<(), ReturnError>) -> (r: Result<String, ReturnError>)
    ensures
        result_view(r) == (match created {
            Ok(_) => Ok("Client Created"@),
            Err(e) => Err("Error in Client Creation- "@ + napi_error_text(e.error@)),
        }),
{
    match created {
        Ok(()) => Ok(String::from_str("Client Created")),
        Err(e) => {
            let mut msg = String::from_str("Error in Client Creation- ");
            msg.append(e.rewrapped().error.as_str());
            Err(ReturnError { error: msg })
        },
    }
}

} // verus!
