use api_access::{ApiAccessConfig, ApiAccessPolicy, ApiKey, ApiPermissions};

#[test]
fn named_permission_sets() {
    assert_eq!(ApiPermissions::none(), ApiPermissions { connect: false, host: false });
    assert_eq!(ApiPermissions::connect(), ApiPermissions { connect: true, host: false });
    assert_eq!(ApiPermissions::host(), ApiPermissions { connect: false, host: true });
    assert_eq!(ApiPermissions::all(), ApiPermissions { connect: true, host: true });
    assert_eq!(ApiPermissions::default(), ApiPermissions::none());
}

#[test]
fn policy_closed_by_default() {
    let p = ApiAccessPolicy::default();
    assert!(p.restrict_connect);
    assert!(p.restrict_host);
}

#[test]
fn config_default_has_no_keys() {
    let c = ApiAccessConfig::default();
    assert!(c.keys.is_empty());
    assert_eq!(c.policy, ApiAccessPolicy { restrict_connect: true, restrict_host: true });
}

#[test]
fn key_accessors_return_what_was_given() {
    let k = ApiKey::new("secret".to_string(), ApiPermissions::host());
    assert_eq!(k.key(), "secret");
    assert_eq!(k.permissions(), ApiPermissions::host());
    let d = ApiKey::with_default_grant("other".to_string());
    assert_eq!(d.key(), "other");
    assert_eq!(d.permissions(), ApiPermissions::connect());
}

#[test]
fn declared_grant_defaults() {
    let g = |c, h| ApiKey::from_declared("k".to_string(), c, h).permissions();
    assert_eq!(g(None, None), ApiPermissions::connect());
    assert_eq!(g(Some(true), None), ApiPermissions::connect());
    assert_eq!(g(None, Some(true)), ApiPermissions::host());
    assert_eq!(g(None, Some(false)), ApiPermissions::none());
    assert_eq!(g(Some(false), None), ApiPermissions::none());
    assert_eq!(g(Some(true), Some(true)), ApiPermissions::all());
    assert_eq!(g(Some(false), Some(true)), ApiPermissions::host());
    assert_eq!(ApiKey::from_declared("tok".to_string(), None, None).key(), "tok");
}
