use helm_bridge::bridge::{InstallResponse, LoginResponse};
use helm_bridge::env::Env;
use helm_bridge::install::{Install, InstallError, classify_install};
use helm_bridge::registry_login::{RegistryLogin, classify_registry_login};
use helm_bridge::repo_search::RepoSearch;

fn demo_install() -> Install {
    Install {
        release_name: "demo".to_string(),
        chart: "oci://example/chart".to_string(),
        wait: true,
        ..Install::default()
    }
}

#[test]
fn install_success_scenario() {
    let wire = demo_install().into_request();
    assert_eq!(wire.release_name, "demo");
    assert_eq!(wire.chart, "oci://example/chart");
    assert!(wire.wait);
    assert_eq!(wire.timeout, vec![300]);

    let res = InstallResponse { err: vec![], data: "STATUS: deployed".to_string() };
    assert_eq!(classify_install(res), Ok("STATUS: deployed".to_string()));
}

#[test]
fn install_failure_with_diagnostic_scenario() {
    let wire = demo_install().into_request();
    assert_eq!(wire.timeout, vec![300]);

    let res = InstallResponse {
        err: vec!["chart not found".to_string()],
        data: "partial render".to_string(),
    };
    let e = classify_install(res).unwrap_err();
    assert_eq!(
        e,
        InstallError::Install {
            response: Some("partial render".to_string()),
            err: "chart not found".to_string(),
        }
    );
}

#[test]
fn effect_only_success_scenario() {
    let req = RegistryLogin {
        hostname: "registry.example.invalid".to_string(),
        username: "user".to_string(),
        password: "pw".to_string(),
        ..RegistryLogin::default()
    };
    let _wire = req.into_request();

    let res = LoginResponse { err: vec![] };
    assert_eq!(classify_registry_login(res), Ok(()));
}

#[test]
fn empty_terms_search_scenario() {
    let req = RepoSearch { terms: vec![], ..RepoSearch::default() };
    let wire = req.into_request();
    assert!(wire.terms.is_empty());
}

#[test]
fn env_survives_flattening_and_reading_back() {
    let env = Env {
        kube_config: Some("/home/user/.kube/config".to_string()),
        kube_token: Some("t0k".to_string()),
        ..Env::default()
    };
    let wire = env.clone().into_bridge();
    assert_eq!(
        helm_bridge::flatten::unflatten_opt_string(wire.kube_config),
        Some(env.kube_config)
    );
    assert_eq!(
        helm_bridge::flatten::unflatten_opt_string(wire.kube_context),
        Some(env.kube_context)
    );
    assert_eq!(
        helm_bridge::flatten::unflatten_opt_string(wire.kube_token),
        Some(env.kube_token)
    );
    assert_eq!(
        helm_bridge::flatten::unflatten_opt_string(wire.kube_ca_file),
        Some(env.kube_ca_file)
    );
}
