use gnrt_config::config::{BuildConfig, ConfigField, CrateConfig, ResolveConfig};
use gnrt_config::merge::{do_concat_field, resolve, resolve_first};

fn strings(v: &[&str]) -> Vec<String> {
    v.iter().map(|s| s.to_string()).collect()
}

fn name(s: &str) -> String {
    s.to_string()
}

fn config_with(all_config: CrateConfig, entries: Vec<(&str, CrateConfig)>) -> BuildConfig {
    let mut config = BuildConfig::default();
    config.all_config = all_config;
    for (n, c) in entries {
        config.insert_crate_config(name(n), c);
    }
    config
}

#[test]
fn list_field_crate_values_precede_global_values() {
    let mut all = CrateConfig::default();
    all.cfg = strings(&["a"]);
    let mut foo = CrateConfig::default();
    foo.cfg = strings(&["b", "c"]);
    let config = config_with(all, vec![("foo", foo)]);
    let empty = CrateConfig::default();
    assert_eq!(resolve(&config, &name("foo"), ConfigField::Cfg, &empty), strings(&["b", "c", "a"]));
    assert_eq!(resolve(&config, &name("bar"), ConfigField::Cfg, &empty), strings(&["a"]));
}

#[test]
fn scalar_field_crate_value_overrides_global_value() {
    let mut all = CrateConfig::default();
    all.output_dir = Some(name("out"));
    let foo = CrateConfig::default();
    let config = config_with(all.clone(), vec![("foo", foo)]);
    let empty = CrateConfig::default();
    assert_eq!(
        resolve_first(&config, &name("foo"), ConfigField::OutputDir, &empty),
        Some(name("out"))
    );

    let mut foo = CrateConfig::default();
    foo.output_dir = Some(name("custom"));
    let config = config_with(all, vec![("foo", foo)]);
    assert_eq!(
        resolve_first(&config, &name("foo"), ConfigField::OutputDir, &empty),
        Some(name("custom"))
    );
}

#[test]
fn absent_crate_gets_global_values_unchanged() {
    let mut all = CrateConfig::default();
    all.features = strings(&["z", "a", "z", "m"]);
    let mut foo = CrateConfig::default();
    foo.features = strings(&["f"]);
    let config = config_with(all, vec![("foo", foo)]);
    let empty = CrateConfig::default();
    assert_eq!(
        resolve(&config, &name("other"), ConfigField::Features, &empty),
        strings(&["z", "a", "z", "m"])
    );
}

#[test]
fn present_crate_keeps_duplicates_and_order() {
    let mut all = CrateConfig::default();
    all.rustflags = strings(&["-x", "-y"]);
    let mut foo = CrateConfig::default();
    foo.rustflags = strings(&["-y", "-x", "-y"]);
    let config = config_with(all, vec![("foo", foo)]);
    let empty = CrateConfig::default();
    assert_eq!(
        resolve(&config, &name("foo"), ConfigField::Rustflags, &empty),
        strings(&["-y", "-x", "-y", "-x", "-y"])
    );
}

#[test]
fn scalar_field_all_four_combinations() {
    let empty = CrateConfig::default();
    let cases: Vec<(Option<&str>, Option<&str>, Option<&str>)> = vec![
        (Some("crate"), Some("global"), Some("crate")),
        (Some("crate"), None, Some("crate")),
        (None, Some("global"), Some("global")),
        (None, None, None),
    ];
    for (crate_value, global_value, expected) in cases {
        let mut all = CrateConfig::default();
        all.rustc_metadata = global_value.map(name);
        let mut foo = CrateConfig::default();
        foo.rustc_metadata = crate_value.map(name);
        let config = config_with(all, vec![("foo", foo)]);
        assert_eq!(
            resolve_first(&config, &name("foo"), ConfigField::RustcMetadata, &empty),
            expected.map(name)
        );
    }
}

#[test]
fn resolving_twice_gives_identical_values() {
    let mut all = CrateConfig::default();
    all.env = strings(&["A=1"]);
    let mut foo = CrateConfig::default();
    foo.env = strings(&["B=2", "C=3"]);
    let config = config_with(all, vec![("foo", foo)]);
    let empty = CrateConfig::default();
    let first = resolve(&config, &name("foo"), ConfigField::Env, &empty);
    let second = resolve(&config, &name("foo"), ConfigField::Env, &empty);
    assert_eq!(first, second);
    assert_eq!(first, strings(&["B=2", "C=3", "A=1"]));
}

#[test]
fn absent_crate_uses_given_default_config() {
    let mut all = CrateConfig::default();
    all.extra_gn_deps = strings(&["//g"]);
    let config = config_with(all, vec![]);
    let mut default_config = CrateConfig::default();
    default_config.extra_gn_deps = strings(&["//d"]);
    assert_eq!(
        resolve(&config, &name("foo"), ConfigField::ExtraGnDeps, &default_config),
        strings(&["//d", "//g"])
    );
}

#[test]
fn do_concat_field_concatenates_each_list_field() {
    let mut c = CrateConfig::default();
    let mut a = CrateConfig::default();
    c.remove_deps = strings(&["r1"]);
    a.remove_deps = strings(&["r2"]);
    c.add_library_configs = strings(&["al1"]);
    a.add_library_configs = strings(&["al2"]);
    c.remove_library_configs = strings(&["rl1"]);
    a.remove_library_configs = strings(&["rl2"]);
    c.extra_gn_deps_to_ignore = strings(&["i1"]);
    a.extra_gn_deps_to_ignore = strings(&["i2"]);
    c.exclude_deps_in_gn = strings(&["e1"]);
    a.exclude_deps_in_gn = strings(&["e2"]);
    c.extra_src_roots = strings(&["src1"]);
    a.extra_src_roots = strings(&["src2"]);
    c.extra_input_roots = strings(&["in1"]);
    a.extra_input_roots = strings(&["in2"]);
    assert_eq!(do_concat_field(ConfigField::RemoveDeps, &c, &a), strings(&["r1", "r2"]));
    assert_eq!(do_concat_field(ConfigField::AddLibraryConfigs, &c, &a), strings(&["al1", "al2"]));
    assert_eq!(do_concat_field(ConfigField::RemoveLibraryConfigs, &c, &a), strings(&["rl1", "rl2"]));
    assert_eq!(do_concat_field(ConfigField::ExtraGnDepsToIgnore, &c, &a), strings(&["i1", "i2"]));
    assert_eq!(do_concat_field(ConfigField::ExcludeDepsInGn, &c, &a), strings(&["e1", "e2"]));
    assert_eq!(do_concat_field(ConfigField::ExtraSrcRoots, &c, &a), strings(&["src1", "src2"]));
    assert_eq!(do_concat_field(ConfigField::ExtraInputRoots, &c, &a), strings(&["in1", "in2"]));
    assert_eq!(do_concat_field(ConfigField::Cfg, &c, &a), Vec::<String>::new());
}

#[test]
fn do_concat_field_on_scalars_yields_set_values_in_order() {
    let mut c = CrateConfig::default();
    let mut a = CrateConfig::default();
    a.output_dir = Some(name("global"));
    assert_eq!(do_concat_field(ConfigField::OutputDir, &c, &a), strings(&["global"]));
    c.output_dir = Some(name("local"));
    assert_eq!(do_concat_field(ConfigField::OutputDir, &c, &a), strings(&["local", "global"]));
    assert_eq!(do_concat_field(ConfigField::RustcMetadata, &c, &a), Vec::<String>::new());
}

#[test]
fn defaults_are_empty() {
    let c = CrateConfig::default();
    assert!(c.cfg.is_empty() && c.features.is_empty() && c.extra_input_roots.is_empty());
    assert_eq!(c.rustc_metadata, None);
    assert_eq!(c.output_dir, None);
    assert!(!c.skip_build_rs);
    let r = ResolveConfig::default();
    assert!(r.root.is_empty() && r.remove_crates.is_empty());
    let b = BuildConfig::default();
    assert!(b.per_crate_config.is_empty());
    assert!(b.all_config.cfg.is_empty());
}

#[test]
fn insert_replaces_existing_entry() {
    let mut first = CrateConfig::default();
    first.cfg = strings(&["old"]);
    let mut second = CrateConfig::default();
    second.cfg = strings(&["new"]);
    let mut bar = CrateConfig::default();
    bar.cfg = strings(&["bar"]);
    let config = config_with(CrateConfig::default(), vec![("foo", first), ("bar", bar), ("foo", second)]);
    assert_eq!(config.per_crate_config.len(), 2);
    let empty = CrateConfig::default();
    assert_eq!(resolve(&config, &name("foo"), ConfigField::Cfg, &empty), strings(&["new"]));
    assert_eq!(resolve(&config, &name("bar"), ConfigField::Cfg, &empty), strings(&["bar"]));
    assert!(config.crate_config(&name("baz")).is_none());
}
