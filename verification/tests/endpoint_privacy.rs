use rubrika_models::domain::PrivacyMode;
use rubrika_models::endpoint_privacy::{
    check_endpoint_privacy, check_localhost_resolution, EndpointAdmission,
};
use rubrika_models::errors::AppErrorCode;

#[test]
fn strict_local_rejects_public_endpoints_but_accepts_ipv4_and_ipv6_loopback() {
    assert!(check_endpoint_privacy("http://127.0.0.1:8080", PrivacyMode::StrictLocal).is_ok());
    assert!(check_endpoint_privacy("http://[::1]:8080", PrivacyMode::StrictLocal).is_ok());
    assert!(check_endpoint_privacy("https://model.example.test:443", PrivacyMode::StrictLocal).is_err());
    assert!(
        check_endpoint_privacy("https://model.example.test:443", PrivacyMode::ExplicitExternal).is_ok()
    );
}

#[test]
fn loopback_literals_are_allowed_outright() {
    assert!(matches!(
        check_endpoint_privacy("http://127.0.0.1:8080", PrivacyMode::StrictLocal),
        Ok(EndpointAdmission::Allowed)
    ));
    assert!(matches!(
        check_endpoint_privacy("http://127.8.9.10:8080", PrivacyMode::StrictLocal),
        Ok(EndpointAdmission::Allowed)
    ));
    assert!(matches!(
        check_endpoint_privacy("http://[::1]/", PrivacyMode::StrictLocal),
        Ok(EndpointAdmission::Allowed)
    ));
}

#[test]
fn other_addresses_are_refused_in_strict_local_mode() {
    for url in ["http://10.0.0.5:8080", "http://[::2]:8080", "http://192.168.1.1", "http://[::ffff:127.0.0.1]"] {
        let error = check_endpoint_privacy(url, PrivacyMode::StrictLocal).expect_err(url);
        assert_eq!(error.code, AppErrorCode::ModelPrivacyBlocked);
        assert_eq!(
            error.technical_details.as_deref(),
            Some("non_loopback_model_endpoint_rejected")
        );
    }
}

#[test]
fn localhost_must_be_resolved_at_its_port() {
    match check_endpoint_privacy("http://LocalHost:8081/v1", PrivacyMode::StrictLocal) {
        Ok(EndpointAdmission::ResolveLocalhost { host, port }) => {
            assert_eq!(host, "localhost");
            assert_eq!(port, 8081);
        }
        other => panic!("localhost must be resolved first, got {other:?}"),
    }
    match check_endpoint_privacy("https://localhost", PrivacyMode::StrictLocal) {
        Ok(EndpointAdmission::ResolveLocalhost { port, .. }) => assert_eq!(port, 443),
        other => panic!("localhost must be resolved first, got {other:?}"),
    }
}

#[test]
fn unsafe_url_shapes_are_refused_in_every_mode() {
    for mode in [PrivacyMode::StrictLocal, PrivacyMode::ExplicitExternal] {
        for url in [
            "ftp://127.0.0.1/",
            "http://user:pw@127.0.0.1:8080",
            "http://127.0.0.1:8080/?q=1",
            "http://127.0.0.1:8080/#frag",
            "not a url",
        ] {
            let error = check_endpoint_privacy(url, mode).expect_err(url);
            assert_eq!(error.code, AppErrorCode::ModelPrivacyBlocked);
        }
    }
}

#[test]
fn malformed_url_reports_the_parse_failure() {
    let error = check_endpoint_privacy("http://[::1", PrivacyMode::StrictLocal).expect_err("malformed");
    assert!(error
        .technical_details
        .as_deref()
        .unwrap_or_default()
        .starts_with("model URL parse failed: "));
}

#[test]
fn localhost_resolution_must_be_all_loopback() {
    assert!(check_localhost_resolution(Some(vec![true, true])).is_ok());
    assert!(check_localhost_resolution(Some(vec![true, false])).is_err());
    assert!(check_localhost_resolution(Some(vec![])).is_err());
    assert_eq!(
        check_localhost_resolution(None).unwrap_err().code,
        AppErrorCode::ModelPrivacyBlocked
    );
}
