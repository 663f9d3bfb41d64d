use nacos_rust_client::bootstrap::{plan_fetch, Fault};
use nacos_rust_client::profile::{
    active_profile_path, default_group, get_application_profile, get_application_profile_active,
    profile_path, resolve_data_id, resolve_group, resolve_key,
};

#[test]
fn resolve_key_substitutes_the_token() {
    assert_eq!(resolve_key("app-{}.yaml", "prod"), "app-prod.yaml");
}

#[test]
fn resolve_key_without_token_is_identity() {
    assert_eq!(resolve_key("app-prod.yaml", "prod"), "app-prod.yaml");
}

#[test]
fn resolve_key_is_idempotent() {
    let once = resolve_key("app-{}.yaml", "dev");
    let twice = resolve_key(&once, "dev");
    assert_eq!(once, "app-dev.yaml");
    assert_eq!(twice, once);
}

#[test]
fn resolve_key_substitutes_every_token() {
    assert_eq!(resolve_key("{}-config-{}", "prod"), "prod-config-prod");
}

#[test]
fn resolve_key_with_empty_name_drops_the_token() {
    assert_eq!(resolve_key("app-{}.yaml", ""), "app-.yaml");
}

#[test]
fn profile_paths() {
    assert_eq!(profile_path(), "application.yaml");
    assert_eq!(active_profile_path("dev"), "application-dev.yaml");
    assert_eq!(active_profile_path("production"), "application-production.yaml");
}

#[test]
fn group_falls_back_to_the_registry_default() {
    assert_eq!(default_group(), "DEFAULT_GROUP");
    assert_eq!(resolve_group(None), "DEFAULT_GROUP");
    assert_eq!(resolve_group(Some("custom".to_string())), "custom");
}

#[test]
fn profile_descriptor_decodes() {
    let env = get_application_profile("profiles:\n  active: prod\n").unwrap();
    assert_eq!(env.profiles.active, "prod");
}

#[test]
fn malformed_profile_descriptor_is_a_load_fault() {
    let r = get_application_profile("profiles: [unclosed\n");
    assert!(matches!(r, Err(Fault::ConfigLoad)));
    let r = get_application_profile("unrelated: 1\n");
    assert!(matches!(r, Err(Fault::ConfigLoad)));
    let r = get_application_profile("profiles:\n  active: 1\n");
    assert!(matches!(r, Err(Fault::ConfigLoad)));
}

#[test]
fn registry_config_decodes_with_and_without_group() {
    let text = "nacos:\n  server-addr: 127.0.0.1:8848\n  namespace: ns\n  data-id: app-{}.yaml\n";
    let conf = get_application_profile_active(text).unwrap();
    assert_eq!(conf.nacos.server_addr, "127.0.0.1:8848");
    assert_eq!(conf.nacos.namespace, "ns");
    assert_eq!(conf.nacos.group, None);
    assert_eq!(conf.nacos.data_id, "app-{}.yaml");

    let text = "nacos:\n  server-addr: 127.0.0.1:8848\n  namespace: ns\n  group: G\n  data-id: d\n";
    let conf = get_application_profile_active(text).unwrap();
    assert_eq!(conf.nacos.group, Some("G".to_string()));
}

#[test]
fn missing_registry_field_is_a_load_fault() {
    let text = "nacos:\n  server-addr: 127.0.0.1:8848\n  namespace: ns\n";
    assert!(matches!(get_application_profile_active(text), Err(Fault::ConfigLoad)));
}

#[test]
fn present_non_string_group_is_a_load_fault() {
    let text = "nacos:\n  server-addr: a\n  namespace: n\n  group: 3\n  data-id: d\n";
    assert!(matches!(get_application_profile_active(text), Err(Fault::ConfigLoad)));
}

#[test]
fn resolve_data_id_rewrites_only_the_key() {
    let text = "nacos:\n  server-addr: addr\n  namespace: ns\n  data-id: app-{}.yaml\n";
    let mut conf = get_application_profile_active(text).unwrap().nacos;
    resolve_data_id(&mut conf, "staging");
    assert_eq!(conf.data_id, "app-staging.yaml");
    assert_eq!(conf.server_addr, "addr");
    assert_eq!(conf.namespace, "ns");
    assert_eq!(conf.group, None);
}

#[test]
fn profile_descriptor_renders_as_json() {
    let env = get_application_profile("profiles:\n  active: prod\n").unwrap();
    assert_eq!(env.to_json_string(), "{\"profiles\":{\"active\":\"prod\"}}");
}

#[test]
fn json_descriptor_escapes_special_characters() {
    let env = get_application_profile("profiles:\n  active: \"a\\\"b\\\\c\"\n").unwrap();
    assert_eq!(env.profiles.active, "a\"b\\c");
    assert_eq!(env.to_json_string(), "{\"profiles\":{\"active\":\"a\\\"b\\\\c\"}}");
}

#[test]
fn json_descriptor_escapes_control_characters() {
    let env = get_application_profile("profiles:\n  active: \"a\\tb\\nc\"\n").unwrap();
    assert_eq!(env.to_json_string(), "{\"profiles\":{\"active\":\"a\\tb\\nc\"}}");
    let env = get_application_profile("profiles:\n  active: \"a\\bb\\fc\"\n").unwrap();
    assert_eq!(env.profiles.active, "a\u{8}b\u{c}c");
    assert_eq!(env.to_json_string(), "{\"profiles\":{\"active\":\"a\\bb\\fc\"}}");
    let env = get_application_profile("profiles:\n  active: \"a\\x01b\\x1fc\"\n").unwrap();
    assert_eq!(env.profiles.active, "a\u{1}b\u{1f}c");
    assert_eq!(env.to_json_string(), "{\"profiles\":{\"active\":\"a\\u0001b\\u001fc\"}}");
}

#[test]
fn prod_profile_resolves_end_to_end() {
    let env = get_application_profile("profiles:\n  active: prod\n").unwrap();
    let text = "nacos:\n  server-addr: 127.0.0.1:8848\n  namespace: ns\n  data-id: app-{}.yaml\n";
    let conf = get_application_profile_active(text).unwrap();
    let plan = plan_fetch(&env, conf.nacos);
    assert_eq!(plan.key, "app-prod.yaml");
    assert_eq!(plan.group, "DEFAULT_GROUP");
    assert_eq!(plan.server_addr, "127.0.0.1:8848");
    assert_eq!(plan.namespace, "ns");
}
