use lunatic_process::process::config::EnvConfig;

#[test]
fn config_new_and_getters() {
    let mut c = EnvConfig::new(1024, Some(7));
    assert_eq!(c.max_memory(), 1024);
    assert_eq!(c.max_fuel(), Some(7));
    assert!(c.allowed_namespace().is_empty());
    c.allow_namespace(String::from("lunatic::networking::"));
    assert_eq!(c.allowed_namespace().len(), 1);
    assert_eq!(c.allowed_namespace()[0], "lunatic::networking::");
}

#[test]
fn config_default_values() {
    let c = EnvConfig::default();
    assert_eq!(c.max_memory(), 0x40000000);
    assert_eq!(c.max_fuel(), None);
    assert_eq!(c.allowed_namespace().len(), 2);
    assert_eq!(c.allowed_namespace()[0], "lunatic::");
    assert_eq!(c.allowed_namespace()[1], "wasi_snapshot_preview1::");
}
