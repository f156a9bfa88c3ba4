//! The layered merge: a crate's own settings come first, the global
//! settings after them.

use vstd::prelude::*;
use crate::config::{BuildConfig, ConfigField, CrateConfig};

verus! {

/// The first element of `s`, if any.
pub open spec fn first_of(s: Seq<String>) -> Option<String> {
    if s.len() > 0 {
        Some(s[0])
    } else {
        None
    }
}

/// `a` when it is set, else `b`.
pub open spec fn first_set(a: Option<String>, b: Option<String>) -> Option<String> {
    match a {
        Some(x) => Some(x),
        None => b,
    }
}

/// The settings of crate `name` on the crate-specific side of the merge:
/// its dedicated entry, or `default_config` where it has none.
pub open spec fn entity_config(
    config: BuildConfig,
    name: Seq<char>,
    default_config: CrateConfig,
) -> CrateConfig {
    match config.crate_config_spec(name) {
        Some(c) => c,
        None => default_config,
    }
}

/// The resolved values of field `f` for crate `name`.
pub open spec fn resolved(
    config: BuildConfig,
    name: Seq<char>,
    f: ConfigField,
    default_config: CrateConfig,
) -> Seq<String> {
    entity_config(config, name, default_config).field_spec(f) + config.all_config.field_spec(f)
}

/// Combines field `field` of `crate_config` and of `all_config`, in that
/// order. On a list field this concatenates the two lists; on an optional
/// scalar field the first element, if any, is the first set value of the two.
pub fn do_concat_field(
    field: ConfigField,
    crate_config: &CrateConfig,
    all_config: &CrateConfig,
) -> (r: Vec<String>)
    ensures
        r@ == crate_config.field_spec(field) + all_config.field_spec(field),
{
    let mut r: Vec<String> = Vec::new();
    crate_config.append_field(field, &mut r);
    all_config.append_field(field, &mut r);
    assert(r@ =~= crate_config.field_spec(field) + all_config.field_spec(field));
    r
}

/// The values of field `field` for crate `name`: those of its dedicated
/// configuration (or of `default_config` where it has none), followed by
/// those of the global configuration.
pub fn resolve(
    config: &BuildConfig,
    name: &String,
    field: ConfigField,
    default_config: &CrateConfig,
) -> (r: Vec<String>)
    ensures
        r@ == resolved(*config, name@, field, *default_config),
{
    let crate_config = match config.crate_config(name) {
        Some(c) => c,
        None => default_config,
    };
    do_concat_field(field, crate_config, &config.all_config)
}

/// The first resolved value of field `field` for crate `name`. On an
/// optional scalar field this is the crate's value if set, else the global
/// value if set, else unset.
pub fn resolve_first(
    config: &BuildConfig,
    name: &String,
    field: ConfigField,
    default_config: &CrateConfig,
) -> (r: Option<String>)
    ensures
        r == first_of(resolved(*config, name@, field, *default_config)),
        field.is_scalar() ==> r == first_set(
            entity_config(*config, name@, *default_config).scalar_spec(field),
            config.all_config.scalar_spec(field),
        ),
{
    let values = resolve(config, name, field, default_config);
    proof {
        if field.is_scalar() {
            lemma_scalar_first_set(*config, name@, field, *default_config);
        }
    }
    if values.len() > 0 {
        Some(values[0].clone())
    } else {
        None
    }
}

/// A crate with no dedicated entry resolves, with the empty configuration
/// as default, to exactly the global values of the field, in their order.
pub proof fn lemma_absent_crate_gets_global(
    config: BuildConfig,
    name: Seq<char>,
    f: ConfigField,
    default_config: CrateConfig,
)
    requires
        config.crate_config_spec(name) is None,
        default_config.is_empty(),
    ensures
        resolved(config, name, f, default_config) == config.all_config.field_spec(f),
{
    assert(default_config.field_spec(f).len() == 0);
    assert(resolved(config, name, f, default_config) =~= config.all_config.field_spec(f));
}

/// A crate with a dedicated entry resolves to its own values followed by
/// the global values: each side keeps its order and its duplicates, and the
/// two are not interleaved.
pub proof fn lemma_present_crate_precedes_global(
    config: BuildConfig,
    name: Seq<char>,
    f: ConfigField,
    default_config: CrateConfig,
    c: CrateConfig,
)
    requires
        config.crate_config_spec(name) == Some(c),
    ensures
        resolved(config, name, f, default_config).len() == c.field_spec(f).len()
            + config.all_config.field_spec(f).len(),
        forall|i: int|
            0 <= i < c.field_spec(f).len() ==> #[trigger] resolved(
                config,
                name,
                f,
                default_config,
            )[i] == c.field_spec(f)[i],
        forall|i: int|
            0 <= i < config.all_config.field_spec(f).len() ==> #[trigger] resolved(
                config,
                name,
                f,
                default_config,
            )[c.field_spec(f).len() + i] == config.all_config.field_spec(f)[i],
{
}

/// On an optional scalar field the first resolved value is the crate's
/// value if set, else the global value if set, else unset.
pub proof fn lemma_scalar_first_set(
    config: BuildConfig,
    name: Seq<char>,
    f: ConfigField,
    default_config: CrateConfig,
)
    requires
        f.is_scalar(),
    ensures
        first_of(resolved(config, name, f, default_config)) == first_set(
            entity_config(config, name, default_config).scalar_spec(f),
            config.all_config.scalar_spec(f),
        ),
{
    let e = entity_config(config, name, default_config);
    let s = resolved(config, name, f, default_config);
    assert(s == e.field_spec(f) + config.all_config.field_spec(f));
    match e.scalar_spec(f) {
        Some(x) => {
            assert(e.field_spec(f) == seq![x]);
            assert(s[0] == x);
        },
        None => {
            assert(e.field_spec(f) =~= Seq::<String>::empty());
            assert(s =~= config.all_config.field_spec(f));
        },
    }
}

/// Resolving the same field of the same crate twice, with the same
/// configuration, gives the same values.
pub proof fn lemma_resolve_deterministic(
    config: BuildConfig,
    name: String,
    f: ConfigField,
    default_config: CrateConfig,
    r1: Vec<String>,
    r2: Vec<String>,
)
    requires
        call_ensures(resolve, (&config, &name, f, &default_config), r1),
        call_ensures(resolve, (&config, &name, f, &default_config), r2),
    ensures
        r1@ == r2@,
{
}

} // verus!
