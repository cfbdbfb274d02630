use helm_bridge::env::Env;
use helm_bridge::flatten::{DEFAULT_TIMEOUT_SECS, flatten_opt_string, flatten_timeout,
    unflatten_opt_string};
use helm_bridge::install::Install;
use helm_bridge::list::List;
use helm_bridge::registry_login::RegistryLogin;
use helm_bridge::repo_add::RepoAdd;
use helm_bridge::repo_search::RepoSearch;
use helm_bridge::uninstall::Uninstall;
use helm_bridge::upgrade::Upgrade;

#[test]
fn flatten_absent_gives_empty_sequence() {
    let v = flatten_opt_string(None);
    assert!(v.is_empty());
}

#[test]
fn flatten_present_gives_singleton_sequence() {
    let v = flatten_opt_string(Some("x".to_string()));
    assert_eq!(v, vec!["x".to_string()]);
}

#[test]
fn flatten_round_trip_absent() {
    let v = flatten_opt_string(None);
    assert_eq!(unflatten_opt_string(v), Some(None));
}

#[test]
fn flatten_round_trip_present() {
    let v = flatten_opt_string(Some("ctx".to_string()));
    assert_eq!(unflatten_opt_string(v), Some(Some("ctx".to_string())));
}

#[test]
fn unflatten_rejects_sequences_longer_than_one() {
    let v = vec!["a".to_string(), "b".to_string()];
    assert_eq!(unflatten_opt_string(v), None);
}

#[test]
fn timeout_unset_materializes_default() {
    assert_eq!(flatten_timeout(None), vec![DEFAULT_TIMEOUT_SECS]);
    assert_eq!(flatten_timeout(None), vec![300]);
}

#[test]
fn timeout_set_is_kept_exactly() {
    assert_eq!(flatten_timeout(Some(42)), vec![42]);
    assert_eq!(flatten_timeout(Some(0)), vec![0]);
}

#[test]
fn env_flattening_all_present() {
    let env = Env {
        kube_config: Some("/tmp/conf".to_string()),
        kube_context: Some("ctx".to_string()),
        kube_token: Some("tok".to_string()),
        kube_ca_file: Some("/tmp/ca".to_string()),
        kube_insecure_skip_tls_verify: true,
    };
    let wire = env.into_bridge();
    assert_eq!(wire.kube_config, vec!["/tmp/conf".to_string()]);
    assert_eq!(wire.kube_context, vec!["ctx".to_string()]);
    assert_eq!(wire.kube_token, vec!["tok".to_string()]);
    assert_eq!(wire.kube_ca_file, vec!["/tmp/ca".to_string()]);
    assert!(wire.kube_insecure_skip_tls_verify);
}

#[test]
fn env_flattening_all_absent() {
    let wire = Env::default().into_bridge();
    assert!(wire.kube_config.is_empty());
    assert!(wire.kube_context.is_empty());
    assert!(wire.kube_token.is_empty());
    assert!(wire.kube_ca_file.is_empty());
    assert!(!wire.kube_insecure_skip_tls_verify);
}

#[test]
fn install_default_timeout_is_unset() {
    let req = Install::default();
    assert_eq!(req.timeout, None);
    assert_eq!(req.release_name, "");
    assert!(req.values.is_empty());
    assert_eq!(req.dry_run, None);
}

#[test]
fn install_translation_materializes_default_timeout() {
    let wire = Install::default().into_request();
    assert_eq!(wire.timeout, vec![300]);
}

#[test]
fn install_translation_keeps_explicit_timeout() {
    let req = Install { timeout: Some(42), ..Install::default() };
    let wire = req.into_request();
    assert_eq!(wire.timeout, vec![42]);
}

#[test]
fn install_translation_passes_fields_through() {
    let req = Install {
        release_name: "rel".to_string(),
        chart: "ch".to_string(),
        version: "1.2.3".to_string(),
        ns: "ns1".to_string(),
        wait: true,
        timeout: Some(7),
        create_namespace: true,
        values: vec![1, 2, 3],
        dry_run: Some("client".to_string()),
        env: Env::default(),
    };
    let wire = req.into_request();
    assert_eq!(wire.release_name, "rel");
    assert_eq!(wire.chart, "ch");
    assert_eq!(wire.version, "1.2.3");
    assert_eq!(wire.ns, "ns1");
    assert!(wire.wait);
    assert_eq!(wire.timeout, vec![7]);
    assert!(wire.create_namespace);
    assert_eq!(wire.values, vec![1, 2, 3]);
    assert_eq!(wire.dry_run, vec!["client".to_string()]);
}

#[test]
fn upgrade_default_timeout_is_unset() {
    let req = Upgrade::default();
    assert_eq!(req.timeout, None);
    assert!(!req.reuse_values);
    assert!(!req.reset_values);
}

#[test]
fn upgrade_translation_materializes_default_timeout() {
    let wire = Upgrade::default().into_request();
    assert_eq!(wire.timeout, vec![300]);
    assert!(wire.dry_run.is_empty());
}

#[test]
fn upgrade_translation_keeps_explicit_timeout_and_dry_run() {
    let req = Upgrade {
        timeout: Some(600),
        dry_run: Some("server".to_string()),
        reuse_values: true,
        ..Upgrade::default()
    };
    let wire = req.into_request();
    assert_eq!(wire.timeout, vec![600]);
    assert_eq!(wire.dry_run, vec!["server".to_string()]);
    assert!(wire.reuse_values);
    assert!(!wire.reset_values);
}

#[test]
fn uninstall_translation_materializes_default_timeout() {
    let wire = Uninstall::default().into_request();
    assert_eq!(wire.timeout, vec![300]);
}

#[test]
fn uninstall_translation_passes_fields_through() {
    let req = Uninstall {
        release_name: "rel".to_string(),
        ns: "ns1".to_string(),
        disable_hooks: true,
        dry_run: true,
        ignore_not_found: true,
        keep_history: true,
        wait: true,
        deletion_propagation: "foreground".to_string(),
        timeout: Some(9),
        description: "bye".to_string(),
        env: Env::default(),
    };
    let wire = req.into_request();
    assert_eq!(wire.release_name, "rel");
    assert_eq!(wire.ns, "ns1");
    assert!(wire.disable_hooks);
    assert!(wire.dry_run);
    assert!(wire.ignore_not_found);
    assert!(wire.keep_history);
    assert!(wire.wait);
    assert_eq!(wire.deletion_propagation, "foreground");
    assert_eq!(wire.timeout, vec![9]);
    assert_eq!(wire.description, "bye");
}

#[test]
fn list_translation_passes_fields_through() {
    let req = List {
        all: true,
        all_namespaces: true,
        sort: 2,
        by_date: true,
        sort_reverse: true,
        state_mask: 5,
        limit: 10,
        offset: 3,
        filter: "f".to_string(),
        no_headers: true,
        time_format: "rfc3339".to_string(),
        uninstalled: true,
        superseded: true,
        uninstalling: true,
        deployed: true,
        failed: true,
        pending: true,
        selector: "sel".to_string(),
        ns: "ns1".to_string(),
        env: Env::default(),
    };
    let wire = req.into_request();
    assert!(wire.all);
    assert!(wire.all_namespaces);
    assert_eq!(wire.sort, 2);
    assert!(wire.by_date);
    assert!(wire.sort_reverse);
    assert_eq!(wire.state_mask, 5);
    assert_eq!(wire.limit, 10);
    assert_eq!(wire.offset, 3);
    assert_eq!(wire.filter, "f");
    assert!(wire.no_headers);
    assert_eq!(wire.time_format, "rfc3339");
    assert!(wire.uninstalled);
    assert!(wire.superseded);
    assert!(wire.uninstalling);
    assert!(wire.deployed);
    assert!(wire.failed);
    assert!(wire.pending);
    assert_eq!(wire.selector, "sel");
    assert_eq!(wire.ns, "ns1");
}

#[test]
fn list_default_is_all_zero() {
    let req = List::default();
    assert!(!req.all);
    assert_eq!(req.sort, 0);
    assert_eq!(req.state_mask, 0);
    assert_eq!(req.limit, 0);
    assert_eq!(req.offset, 0);
    assert_eq!(req.filter, "");
    assert_eq!(req.selector, "");
}

#[test]
fn repo_add_translation_passes_fields_through() {
    let req = RepoAdd {
        name: "stable".to_string(),
        url: "https://example.invalid/charts".to_string(),
        username: "u".to_string(),
        password: "p".to_string(),
        password_from_stdin_opt: true,
        pass_credentials_all: true,
        force_update: true,
        allow_deprecated_repos: true,
        cert_file: "c".to_string(),
        key_file: "k".to_string(),
        ca_file: "a".to_string(),
        insecure_skip_tls_sverify: true,
        env: Env::default(),
    };
    let wire = req.into_request();
    assert_eq!(wire.name, "stable");
    assert_eq!(wire.url, "https://example.invalid/charts");
    assert_eq!(wire.username, "u");
    assert_eq!(wire.password, "p");
    assert!(wire.password_from_stdin_opt);
    assert!(wire.pass_credentials_all);
    assert!(wire.force_update);
    assert!(wire.allow_deprecated_repos);
    assert_eq!(wire.cert_file, "c");
    assert_eq!(wire.key_file, "k");
    assert_eq!(wire.ca_file, "a");
    assert!(wire.insecure_skip_tls_sverify);
}

#[test]
fn registry_login_translation_passes_fields_through() {
    let req = RegistryLogin {
        hostname: "registry.example.invalid".to_string(),
        username: "u".to_string(),
        password: "p".to_string(),
        cert_file: "c".to_string(),
        key_file: "k".to_string(),
        ca_file: "a".to_string(),
        insecure: true,
        plain_http: true,
        env: Env::default(),
    };
    let wire = req.into_request();
    assert_eq!(wire.hostname, "registry.example.invalid");
    assert_eq!(wire.username, "u");
    assert_eq!(wire.password, "p");
    assert_eq!(wire.cert_file, "c");
    assert_eq!(wire.key_file, "k");
    assert_eq!(wire.ca_file, "a");
    assert!(wire.insecure);
    assert!(wire.plain_http);
}

#[test]
fn repo_search_translation_keeps_terms() {
    let req = RepoSearch {
        versions: true,
        regexp: "ng.*".to_string(),
        devel: true,
        version: ">=1.0".to_string(),
        terms: vec!["nginx".to_string(), "ingress".to_string()],
        env: Env::default(),
    };
    let wire = req.into_request();
    assert!(wire.versions);
    assert_eq!(wire.regexp, "ng.*");
    assert!(wire.devel);
    assert_eq!(wire.version, ">=1.0");
    assert_eq!(wire.terms, vec!["nginx".to_string(), "ingress".to_string()]);
}

#[test]
fn embedded_env_is_flattened_inside_requests() {
    let req = Install {
        env: Env {
            kube_context: Some("prod".to_string()),
            ..Env::default()
        },
        ..Install::default()
    };
    let wire = req.into_request();
    assert!(wire.env.kube_config.is_empty());
    assert_eq!(wire.env.kube_context, vec!["prod".to_string()]);
    assert!(wire.env.kube_token.is_empty());
    assert!(wire.env.kube_ca_file.is_empty());
    assert!(!wire.env.kube_insecure_skip_tls_verify);
}
