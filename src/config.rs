//! The configuration schema: a global `CrateConfig`, per-crate overrides and
//! the dependency-resolution settings, together with field selectors that
//! view every mergeable field as a sequence of strings.

use vstd::prelude::*;

verus! {

/// Selects one mergeable field of a `CrateConfig`.
///
/// List-valued fields are viewed as their sequence of entries; the optional
/// scalar fields (`RustcMetadata`, `OutputDir`) are viewed as a sequence of
/// zero elements (unset) or one element (set).
#[derive(Clone, Copy, Debug, PartialEq, Eq, Structural)]
pub enum ConfigField {
    Cfg,
    Features,
    RemoveDeps,
    Env,
    Rustflags,
    AddLibraryConfigs,
    RemoveLibraryConfigs,
    ExtraGnDeps,
    ExtraGnDepsToIgnore,
    ExcludeDepsInGn,
    ExtraSrcRoots,
    ExtraInputRoots,
    RustcMetadata,
    OutputDir,
}

impl ConfigField {
    /// Whether the field holds at most one value.
    pub open spec fn is_scalar(self) -> bool {
        self is RustcMetadata || self is OutputDir
    }
}

/// An unset optional value as the empty sequence, a set one as a singleton.
pub open spec fn option_seq(o: Option<String>) -> Seq<String> {
    match o {
        Some(s) => seq![s],
        None => Seq::empty(),
    }
}

/// Influences dependency resolution for a session.
#[derive(Clone, Debug)]
pub struct ResolveConfig {
    /// The package to use as the root of the dependency graph.
    pub root: String,
    /// Crates removed from the set of resolved dependencies. This does not
    /// take part in the merge of crate settings; consumers apply it after
    /// resolution.
    pub remove_crates: Vec<String>,
}

impl ResolveConfig {
    /// Whether every field holds its zero value.
    pub open spec fn is_empty(&self) -> bool {
        &&& self.root@.len() == 0
        &&& self.remove_crates@.len() == 0
    }
}

impl Default for ResolveConfig {
    fn default() -> (r: ResolveConfig)
        ensures
            r.is_empty(),
    {
        ResolveConfig { root: String::new(), remove_crates: Vec::new() }
    }
}

/// Customizes the generated build target of a crate.
#[derive(Clone, Debug)]
pub struct CrateConfig {
    /// `cfg(...)` options for building this crate.
    pub cfg: Vec<String>,
    /// Features to enable when building this crate.
    pub features: Vec<String>,
    /// Dependencies to remove from this crate. This happens after dependency
    /// and feature resolution, so a removed optional dependency whose feature
    /// is enabled is still referenced.
    pub remove_deps: Vec<String>,
    /// Compile-time environment variables for this crate.
    pub env: Vec<String>,
    /// Rustc metadata applied to this target.
    pub rustc_metadata: Option<String>,
    /// Extra rustc flags.
    pub rustflags: Vec<String>,
    /// The target's output directory.
    pub output_dir: Option<String>,
    /// Default library configs added to the target.
    pub add_library_configs: Vec<String>,
    /// Default library configs removed from the target.
    pub remove_library_configs: Vec<String>,
    /// Skip building and running the build script. Not merged.
    pub skip_build_rs: bool,
    /// Build-system deps added to the generated target.
    pub extra_gn_deps: Vec<String>,
    /// Build-system deps of the overall config that this target drops.
    pub extra_gn_deps_to_ignore: Vec<String>,
    /// Deps on generated targets to exclude from this target's deps.
    pub exclude_deps_in_gn: Vec<String>,
    /// Relative paths whose source and input files belong to the crate.
    pub extra_src_roots: Vec<String>,
    /// Relative paths whose input files belong to the crate.
    pub extra_input_roots: Vec<String>,
}

impl CrateConfig {
    /// The values of a field, in declared order.
    pub open spec fn field_spec(&self, f: ConfigField) -> Seq<String> {
        match f {
            ConfigField::Cfg => self.cfg@,
            ConfigField::Features => self.features@,
            ConfigField::RemoveDeps => self.remove_deps@,
            ConfigField::Env => self.env@,
            ConfigField::Rustflags => self.rustflags@,
            ConfigField::AddLibraryConfigs => self.add_library_configs@,
            ConfigField::RemoveLibraryConfigs => self.remove_library_configs@,
            ConfigField::ExtraGnDeps => self.extra_gn_deps@,
            ConfigField::ExtraGnDepsToIgnore => self.extra_gn_deps_to_ignore@,
            ConfigField::ExcludeDepsInGn => self.exclude_deps_in_gn@,
            ConfigField::ExtraSrcRoots => self.extra_src_roots@,
            ConfigField::ExtraInputRoots => self.extra_input_roots@,
            ConfigField::RustcMetadata => option_seq(self.rustc_metadata),
            ConfigField::OutputDir => option_seq(self.output_dir),
        }
    }

    /// The value of an optional scalar field.
    pub open spec fn scalar_spec(&self, f: ConfigField) -> Option<String> {
        match f {
            ConfigField::RustcMetadata => self.rustc_metadata,
            ConfigField::OutputDir => self.output_dir,
            _ => None,
        }
    }

    /// Whether every field holds its zero value: empty lists, unset
    /// scalars and `skip_build_rs == false`.
    pub open spec fn is_empty(&self) -> bool {
        &&& forall|f: ConfigField| #[trigger] self.field_spec(f).len() == 0
        &&& !self.skip_build_rs
    }

    /// Appends the values of field `f` to `out`, in declared order.
    pub fn append_field(&self, f: ConfigField, out: &mut Vec<String>)
        ensures
            final(out)@ == old(out)@ + self.field_spec(f),
    {
        match f {
            ConfigField::Cfg => append_all(&self.cfg, out),
            ConfigField::Features => append_all(&self.features, out),
            ConfigField::RemoveDeps => append_all(&self.remove_deps, out),
            ConfigField::Env => append_all(&self.env, out),
            ConfigField::Rustflags => append_all(&self.rustflags, out),
            ConfigField::AddLibraryConfigs => append_all(&self.add_library_configs, out),
            ConfigField::RemoveLibraryConfigs => append_all(&self.remove_library_configs, out),
            ConfigField::ExtraGnDeps => append_all(&self.extra_gn_deps, out),
            ConfigField::ExtraGnDepsToIgnore => append_all(&self.extra_gn_deps_to_ignore, out),
            ConfigField::ExcludeDepsInGn => append_all(&self.exclude_deps_in_gn, out),
            ConfigField::ExtraSrcRoots => append_all(&self.extra_src_roots, out),
            ConfigField::ExtraInputRoots => append_all(&self.extra_input_roots, out),
            ConfigField::RustcMetadata => append_option(&self.rustc_metadata, out),
            ConfigField::OutputDir => append_option(&self.output_dir, out),
        }
    }
}

impl Default for CrateConfig {
    fn default() -> (r: CrateConfig)
        ensures
            r.is_empty(),
    {
        let r = CrateConfig {
            cfg: Vec::new(),
            features: Vec::new(),
            remove_deps: Vec::new(),
            env: Vec::new(),
            rustc_metadata: None,
            rustflags: Vec::new(),
            output_dir: None,
            add_library_configs: Vec::new(),
            remove_library_configs: Vec::new(),
            skip_build_rs: false,
            extra_gn_deps: Vec::new(),
            extra_gn_deps_to_ignore: Vec::new(),
            exclude_deps_in_gn: Vec::new(),
            extra_src_roots: Vec::new(),
            extra_input_roots: Vec::new(),
        };
        assert forall|f: ConfigField| #[trigger] r.field_spec(f).len() == 0 by {
            match f {
                ConfigField::RustcMetadata => {},
                ConfigField::OutputDir => {},
                _ => {},
            }
        }
        r
    }
}

/// The whole configuration: dependency-resolution settings, settings that
/// apply to every crate, and settings for particular crates.
#[derive(Clone, Debug)]
pub struct BuildConfig {
    pub resolve: ResolveConfig,
    /// Configuration that applies to all crates.
    pub all_config: CrateConfig,
    /// Additional configuration for specific crates, as (crate name, config)
    /// entries. Config is additive with `all_config`.
    pub per_crate_config: Vec<(String, CrateConfig)>,
}

/// Whether `i` is the first entry of `entries` named `name`.
pub open spec fn is_first_entry(entries: Seq<(String, CrateConfig)>, name: Seq<char>, i: int) -> bool {
    &&& 0 <= i < entries.len()
    &&& entries[i].0@ == name
    &&& forall|j: int| 0 <= j < i ==> #[trigger] entries[j].0@ != name
}

impl BuildConfig {
    /// No two entries of `per_crate_config` share a crate name.
    pub open spec fn wf(&self) -> bool {
        forall|i: int, j: int|
            0 <= i < j < self.per_crate_config@.len() ==> #[trigger] self.per_crate_config@[i].0@
                != #[trigger] self.per_crate_config@[j].0@
    }

    /// The dedicated configuration of crate `name`, if it has one.
    pub open spec fn crate_config_spec(&self, name: Seq<char>) -> Option<CrateConfig> {
        let entries = self.per_crate_config@;
        if exists|i: int| is_first_entry(entries, name, i) {
            Some(entries[choose|i: int| is_first_entry(entries, name, i)].1)
        } else {
            None
        }
    }

    /// Looks up the dedicated configuration of crate `name`.
    pub fn crate_config(&self, name: &String) -> (r: Option<&CrateConfig>)
        ensures
            match self.crate_config_spec(name@) {
                Some(c) => r == Some(&c),
                None => r is None,
            },
    {
        let ghost entries = self.per_crate_config@;
        let mut i: usize = 0;
        while i < self.per_crate_config.len()
            invariant
                i <= entries.len(),
                entries == self.per_crate_config@,
                forall|j: int| 0 <= j < i ==> #[trigger] entries[j].0@ != name@,
            decreases entries.len() - i,
        {
            if self.per_crate_config[i].0 == *name {
                assert(is_first_entry(entries, name@, i as int));
                proof {
                    let k = choose|k: int| is_first_entry(entries, name@, k);
                    assert(k == i) by {
                        if k < i {
                            assert(entries[k].0@ != name@);
                        } else if k > i {
                            assert(entries[i as int].0@ != name@);
                        }
                    }
                }
                return Some(&self.per_crate_config[i].1);
            }
            i = i + 1;
        }
        assert(!exists|k: int| is_first_entry(entries, name@, k));
        None
    }
}

impl Default for BuildConfig {
    fn default() -> (r: BuildConfig)
        ensures
            r.resolve.is_empty(),
            r.all_config.is_empty(),
            r.per_crate_config@.len() == 0,
            r.wf(),
    {
        BuildConfig {
            resolve: ResolveConfig::default(),
            all_config: CrateConfig::default(),
            per_crate_config: Vec::new(),
        }
    }
}

impl BuildConfig {
    /// Under `wf`, an entry named `name` is the dedicated configuration of
    /// that crate.
    pub proof fn lemma_entry_is_crate_config(&self, name: Seq<char>, i: int)
        requires
            self.wf(),
            0 <= i < self.per_crate_config@.len(),
            self.per_crate_config@[i].0@ == name,
        ensures
            self.crate_config_spec(name) == Some(self.per_crate_config@[i].1),
    {
        let entries = self.per_crate_config@;
        assert(is_first_entry(entries, name, i));
        let k = choose|k: int| is_first_entry(entries, name, k);
        if k != i {
            assert(entries[k].0@ != entries[i].0@);
        }
    }

    /// Sets the dedicated configuration of crate `name` to `c`, replacing
    /// the one it had; the other crates keep theirs.
    pub fn insert_crate_config(&mut self, name: String, c: CrateConfig)
        requires
            old(self).wf(),
        ensures
            final(self).wf(),
            final(self).crate_config_spec(name@) == Some(c),
            forall|n: Seq<char>|
                n != name@ ==> #[trigger] final(self).crate_config_spec(n) == old(
                    self,
                ).crate_config_spec(n),
            final(self).resolve == old(self).resolve,
            final(self).all_config == old(self).all_config,
    {
        let ghost entries = self.per_crate_config@;
        let mut i: usize = 0;
        while i < self.per_crate_config.len()
            invariant
                i <= entries.len(),
                entries == self.per_crate_config@,
                forall|j: int| 0 <= j < i ==> #[trigger] entries[j].0@ != name@,
            ensures
                i <= entries.len(),
                forall|j: int| 0 <= j < i ==> #[trigger] entries[j].0@ != name@,
                i < entries.len() ==> entries[i as int].0@ == name@,
            decreases entries.len() - i,
        {
            if self.per_crate_config[i].0 == name {
                break;
            }
            i = i + 1;
        }
        let ghost old_self = *self;
        if i < self.per_crate_config.len() {
            self.per_crate_config.set(i, (name, c));
        } else {
            self.per_crate_config.push((name, c));
        }
        proof {
            let ne = self.per_crate_config@;
            assert forall|a: int, b: int| 0 <= a < b < ne.len() implies #[trigger] ne[a].0@
                != #[trigger] ne[b].0@ by {
                if a == i {
                    if b < entries.len() {
                        assert(entries[a].0@ != entries[b].0@);
                    }
                } else if b == i {
                    assert(entries[a].0@ != name@);
                } else {
                    assert(entries[a].0@ != entries[b].0@);
                }
            }
            self.lemma_entry_is_crate_config(name@, i as int);
            assert forall|n: Seq<char>| n != name@ implies #[trigger] self.crate_config_spec(n)
                == old_self.crate_config_spec(n) by {
                if exists|k: int| 0 <= k < entries.len() && entries[k].0@ == n {
                    let k = choose|k: int| 0 <= k < entries.len() && entries[k].0@ == n;
                    if k == i {
                        assert(entries[k].0@ == name@);
                    }
                    old_self.lemma_entry_is_crate_config(n, k);
                    self.lemma_entry_is_crate_config(n, k);
                } else {
                    assert(!exists|k: int| is_first_entry(ne, n, k)) by {
                        if exists|k: int| is_first_entry(ne, n, k) {
                            let k = choose|k: int| is_first_entry(ne, n, k);
                            assert(k != i);
                            assert(entries[k].0@ == n);
                        }
                    }
                    assert(!exists|k: int| is_first_entry(entries, n, k)) by {
                        if exists|k: int| is_first_entry(entries, n, k) {
                            let k = choose|k: int| is_first_entry(entries, n, k);
                            assert(entries[k].0@ == n);
                        }
                    }
                }
            }
        }
    }
}

/// Appends a copy of every element of `src` to `out`, in order.
fn append_all(src: &Vec<String>, out: &mut Vec<String>)
    ensures
        final(out)@ == old(out)@ + src@,
{
    let ghost start = out@;
    let mut i: usize = 0;
    while i < src.len()
        invariant
            i <= src@.len(),
            out@ == start + src@.subrange(0, i as int),
        decreases src@.len() - i,
    {
        out.push(src[i].clone());
        assert(src@.subrange(0, i + 1 as int) == src@.subrange(0, i as int).push(src@[i as int]));
        i = i + 1;
    }
    assert(src@.subrange(0, src@.len() as int) == src@);
}

/// Appends the value of `o` to `out` when it is set.
fn append_option(o: &Option<String>, out: &mut Vec<String>)
    ensures
        final(out)@ == old(out)@ + option_seq(*o),
{
    let ghost start = out@;
    match o {
        Some(s) => {
            out.push(s.clone());
        },
        None => {},
    }
    assert(out@ =~= start + option_seq(*o));
}

} // verus!
