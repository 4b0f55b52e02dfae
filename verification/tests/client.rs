use tikv_doc_store::client::{
    init_client_outcome, plan_connection, ConnectPlan, TikvConnParams, TLS_CLUSTER_ENABLED,
};
use tikv_doc_store::error::ReturnError;
use tikv_doc_store::ids::get_next_key;

fn params() -> TikvConnParams {
    TikvConnParams {
        tlsclusterenabled: true,
        sslcacerti: "ca.pem".to_string(),
        sslclientcerti: "cert.pem".to_string(),
        sslclientkeycerti: "key.pem".to_string(),
        host: "127.0.0.1:2379".to_string(),
    }
}

#[test]
fn cached_client_is_reused() {
    assert!(matches!(plan_connection(true, &None, false), ConnectPlan::ReuseCached));
    assert!(matches!(plan_connection(true, &Some(params()), true), ConnectPlan::ReuseCached));
}

#[test]
fn first_connection_uses_host() {
    match plan_connection(false, &Some(params()), TLS_CLUSTER_ENABLED) {
        ConnectPlan::Connect { endpoints, tls } => {
            assert_eq!(endpoints, vec!["127.0.0.1:2379".to_string()]);
            assert!(tls.is_none());
        }
        ConnectPlan::ReuseCached => panic!("expected a connection"),
    }
}

#[test]
fn tls_connection_uses_files() {
    match plan_connection(false, &Some(params()), true) {
        ConnectPlan::Connect { endpoints, tls } => {
            assert_eq!(endpoints.len(), 1);
            let f = tls.unwrap();
            assert_eq!((f.ca_path.as_str(), f.cert_path.as_str(), f.key_path.as_str()), ("ca.pem", "cert.pem", "key.pem"));
        }
        ConnectPlan::ReuseCached => panic!("expected a connection"),
    }
}

#[test]
fn init_answers() {
    assert_eq!(init_client_outcome(Ok(())).unwrap(), "Client Created");
    let e = init_client_outcome(Err(ReturnError { error: "no route".to_string() })).unwrap_err();
    assert_eq!(e.error, "Error in Client Creation- GenericFailure, no route");
    let e = init_client_outcome(Err(ReturnError { error: String::new() })).unwrap_err();
    assert_eq!(e.error, "Error in Client Creation- GenericFailure");
}

#[test]
fn rewrapping_errors() {
    let e = ReturnError { error: "x".to_string() };
    assert_eq!(e.rewrapped().error, "GenericFailure, x");
    assert_eq!(e.rewrapped_times(0).error, "x");
    assert_eq!(e.rewrapped_times(2).error, "GenericFailure, GenericFailure, x");
    assert_eq!(ReturnError { error: String::new() }.rewrapped().error, "GenericFailure");
}

#[test]
fn next_key_is_v4_uuid() {
    let k = get_next_key();
    let c: Vec<char> = k.chars().collect();
    assert_eq!(c.len(), 36);
    for (i, ch) in c.iter().enumerate() {
        if i == 8 || i == 13 || i == 18 || i == 23 {
            assert_eq!(*ch, '-');
        } else {
            assert!(ch.is_ascii_hexdigit() && !ch.is_ascii_uppercase());
        }
    }
    assert_eq!(c[14], '4');
    assert!("89ab".contains(c[19]));
    assert_ne!(get_next_key(), get_next_key());
}
