//! What holds of the resolver as a whole, proved from the contracts of its
//! parts.

use vstd::prelude::*;
use crate::adapter::{
    env_source_spec, env_source_upto, file_entries, load_and_validate_spec, load_spec,
    FileReadView,
};
use crate::bootstrap::{bootstrap_write_spec, bootstrapped, contents_after, default_text_spec};
use crate::error::ResolveErrorView;
use crate::machine::{step_spec, ActionView, EventView, ResolverView, Stage};
use crate::options::{
    all_options_spec, lemma_all_options_complete, lemma_keys_distinct, ConfigOption,
};
use crate::resolver::{defaults_spec, resolve_spec, ConfigValues};
use crate::sources::{entries_map, lookup, lookup_layered, table_get, RawEntries, RawTable};
use crate::text::{flag_text, lemma_flag_text_parses_back, parse_flag_spec};

verus! {

/// An entry added at the end of a list decides a key only where no entry
/// before it does.
pub proof fn lemma_lookup_push(entries: RawEntries, key: Seq<char>, value: Seq<char>, k: Seq<char>)
    ensures
        lookup(entries.push((key, value)), k) == match lookup(entries, k) {
            Some(v) => Some(v),
            None => if key == k {
                Some(value)
            } else {
                None
            },
        },
    decreases entries.len(),
{
    let pushed = entries.push((key, value));
    if entries.len() == 0 {
        assert(pushed.skip(1) =~= Seq::<(Seq<char>, Seq<char>)>::empty());
        assert(lookup(pushed.skip(1), k) is None);
    } else {
        assert(pushed[0] == entries[0]);
        assert(pushed.skip(1) =~= entries.skip(1).push((key, value)));
        lemma_lookup_push(entries.skip(1), key, value, k);
    }
}

/// A source put on top of a stack decides every key that it knows, and
/// leaves the others to the stack below: a further source of higher
/// priority needs no change to the ones there.
pub proof fn lemma_top_source_decides(layers: Seq<RawTable>, top: RawTable, key: Seq<char>)
    ensures
        lookup_layered(layers.push(top), key) == match table_get(top, key) {
            Some(v) => Some(v),
            None => lookup_layered(layers, key),
        },
{
    assert(layers.push(top).last() == top);
    assert(layers.push(top).drop_last() =~= layers);
}

/// Among the entries that the environment gives the first `n` options, an
/// option's key has the value of the option's variable, if the option is
/// among them and the variable is set.
pub proof fn lemma_env_source_upto(env: RawEntries, n: nat, option: ConfigOption)
    requires
        n <= all_options_spec().len(),
    ensures
        lookup(env_source_upto(env, n), option.key_spec()) == if option.index_spec() < n {
            lookup(env, option.env_name_spec())
        } else {
            None
        },
    decreases n,
{
    if n > 0 {
        let last = all_options_spec()[n - 1];
        let before = env_source_upto(env, (n - 1) as nat);
        lemma_env_source_upto(env, (n - 1) as nat, option);
        lemma_all_options_complete(option);
        lemma_all_options_complete(last);
        if last != option {
            lemma_keys_distinct(last, option);
        }
        match lookup(env, last.env_name_spec()) {
            Some(value) => {
                lemma_lookup_push(before, last.key_spec(), value, option.key_spec());
            },
            None => {},
        }
    }
}

/// The environment source gives an option's key exactly the value of the
/// option's variable.
pub proof fn lemma_env_source_lookup(env: RawEntries, option: ConfigOption)
    ensures
        lookup(env_source_spec(env), option.key_spec()) == lookup(env, option.env_name_spec()),
{
    lemma_all_options_complete(option);
    lemma_env_source_upto(env, all_options_spec().len(), option);
}

/// The raw text that the stacked file and environment give an option: the
/// value of its variable where that is set, else the file's entry.
pub proof fn lemma_loaded_value(
    path: Seq<char>,
    text: Seq<char>,
    env: RawEntries,
    option: ConfigOption,
)
    requires
        file_entries(text) is Some,
    ensures
        load_spec(path, FileReadView::Text(text), env) is Ok,
        lookup_layered(load_spec(path, FileReadView::Text(text), env)->Ok_0, option.key_spec())
            == match lookup(env, option.env_name_spec()) {
            Some(v) => Some(v),
            None => table_get(file_entries(text).unwrap(), option.key_spec()),
        },
{
    let file = file_entries(text).unwrap();
    let top = entries_map(env_source_spec(env));
    let layers = load_spec(path, FileReadView::Text(text), env)->Ok_0;
    lemma_env_source_lookup(env, option);
    assert(layers =~= seq![file].push(top));
    lemma_top_source_decides(seq![file], top, option.key_spec());
    assert(seq![file] =~= Seq::<RawTable>::empty().push(file));
    lemma_top_source_decides(Seq::<RawTable>::empty(), file, option.key_spec());
}

/// An option that neither the file nor the environment supplies resolves
/// to its compiled-in default, and is not what a resolution fails on.
pub proof fn law_unsupplied_option_keeps_default(
    path: Seq<char>,
    file: FileReadView,
    env: RawEntries,
    option: ConfigOption,
)
    requires
        file matches FileReadView::Text(text) && file_entries(text) matches Some(table)
            ==> !table.contains_key(option.key_spec()),
        lookup(env, option.env_name_spec()) is None,
    ensures
        !(load_and_validate_spec(path, file, env) matches Err(
            ResolveErrorView::Coercion { option: o, .. },
        ) && o == option),
        load_and_validate_spec(path, file, env) matches Ok(c) ==> c.raw_of(option) == defaults_spec(
            path,
        ).raw_of(option),
{
    if file matches FileReadView::Text(text) && file_entries(text) is Some {
        lemma_loaded_value(path, file->Text_0, env, option);
    }
}

/// A value that the environment supplies for an option is the one that
/// is resolved, whatever the file holds for that option: a string as it
/// stands, a boolean as the literal stands for it; and where it stands
/// for no boolean, the resolution fails.
pub proof fn law_environment_overrides_file(
    path: Seq<char>,
    file: FileReadView,
    env: RawEntries,
    option: ConfigOption,
    value: Seq<char>,
)
    requires
        lookup(env, option.env_name_spec()) == Some(value),
    ensures
        load_spec(path, file, env) matches Ok(layers) ==> lookup_layered(layers, option.key_spec())
            == Some(value),
        load_and_validate_spec(path, file, env) matches Ok(c) ==> if option.is_flag_spec() {
            parse_flag_spec(value) == Some(c.flag_of(option))
        } else {
            c.text_of(option) == value
        },
        option.is_flag_spec() && parse_flag_spec(value) is None ==> load_and_validate_spec(
            path,
            file,
            env,
        ) is Err,
{
    if file matches FileReadView::Text(text) && file_entries(text) is Some {
        lemma_loaded_value(path, file->Text_0, env, option);
    }
}

/// A file that is not there, and one that cannot be read, end the
/// resolution with their own error and the path, whatever the environment
/// holds.
pub proof fn law_file_that_cannot_be_had_fails(path: Seq<char>, env: RawEntries)
    ensures
        load_and_validate_spec(path, FileReadView::NotFound, env) == Err::<
            ConfigValues,
            ResolveErrorView,
        >(ResolveErrorView::FileNotFound { path }),
        load_and_validate_spec(path, FileReadView::Unreadable, env) == Err::<
            ConfigValues,
            ResolveErrorView,
        >(ResolveErrorView::FileAccess { path }),
{
}

/// The bootstrap is idempotent: run on a path without a file it leaves
/// the default text there; run again it writes nothing and the contents
/// stay as they are. A file that is there is never replaced.
pub proof fn law_bootstrap_idempotent(before: Option<Seq<char>>)
    ensures
        before is None ==> bootstrapped(before) == Some(default_text_spec()),
        before is Some ==> bootstrapped(before) == before,
        bootstrap_write_spec(bootstrapped(before) is Some) is None,
        bootstrapped(bootstrapped(before)) == bootstrapped(before),
{
}

/// The entries that hold, for every option, its key and its value as the
/// file format writes it (a string without its quotes).
pub open spec fn written_entries(c: ConfigValues) -> RawEntries {
    Seq::new(8, |i: int| (all_options_spec()[i].key_spec(), c.raw_of(all_options_spec()[i])))
}

/// In the written entries every option's key has the option's written
/// value.
pub proof fn lemma_written_entries_lookup(c: ConfigValues, option: ConfigOption)
    ensures
        lookup(written_entries(c), option.key_spec()) == Some(c.raw_of(option)),
{
    let entries = written_entries(c);
    let key = option.key_spec();
    lemma_all_options_complete(option);
    let i = option.index_spec();
    assert forall|j: int| 0 <= j < i implies entries[j].0 != key by {
        lemma_keys_distinct(all_options_spec()[j], option);
    }
    lemma_lookup_first_match(entries, key, i);
}

/// The first entry with a key decides the key.
pub proof fn lemma_lookup_first_match(entries: RawEntries, key: Seq<char>, i: int)
    requires
        0 <= i < entries.len(),
        entries[i].0 == key,
        forall|j: int| 0 <= j < i ==> entries[j].0 != key,
    ensures
        lookup(entries, key) == Some(entries[i].1),
    decreases i,
{
    if i > 0 {
        let rest = entries.skip(1);
        assert(rest[i - 1] == entries[i]);
        assert forall|j: int| 0 <= j < i - 1 implies rest[j].0 != key by {
            assert(rest[j] == entries[j + 1]);
        }
        lemma_lookup_first_match(rest, key, i - 1);
    }
}

/// Round trip of the values: a source that holds every option's value as
/// the file format writes it resolves, over any defaults, to the
/// configuration that was written, beside the path, which the defaults give.
pub proof fn law_written_values_resolve_back(c: ConfigValues, base: ConfigValues)
    ensures
        resolve_spec(base, seq![entries_map(written_entries(c))]) == Ok::<
            ConfigValues,
            ResolveErrorView,
        >(ConfigValues { config_file: base.config_file, ..c }),
{
    let table = entries_map(written_entries(c));
    let layers = seq![table];
    assert(layers =~= Seq::<RawTable>::empty().push(table));
    assert forall|option: ConfigOption|
        #[trigger] lookup_layered(layers, option.key_spec()) == Some(c.raw_of(option)) by {
        lemma_written_entries_lookup(c, option);
        lemma_top_source_decides(Seq::<RawTable>::empty(), table, option.key_spec());
    }
    lemma_flag_text_parses_back(true);
    lemma_flag_text_parses_back(false);
    assert(lookup_layered(layers, ConfigOption::DatabaseUrl.key_spec()) == Some(c.database_url));
    assert(lookup_layered(layers, ConfigOption::EnableAcars.key_spec()) == Some(
        flag_text(c.enable_acars),
    ));
    assert(lookup_layered(layers, ConfigOption::EnableVdlm2.key_spec()) == Some(
        flag_text(c.enable_vdlm2),
    ));
    assert(lookup_layered(layers, ConfigOption::EnableHfdl.key_spec()) == Some(
        flag_text(c.enable_hfdl),
    ));
    assert(lookup_layered(layers, ConfigOption::EnableIridium.key_spec()) == Some(
        flag_text(c.enable_iridium),
    ));
    assert(lookup_layered(layers, ConfigOption::EnableInmarsat.key_spec()) == Some(
        flag_text(c.enable_inmarsat),
    ));
    assert(lookup_layered(layers, ConfigOption::EnableAdsb.key_spec()) == Some(
        flag_text(c.enable_adsb),
    ));
    assert(lookup_layered(layers, ConfigOption::LogLevel.key_spec()) == Some(c.log_level));
}

/// How far a stage is along the course of a resolution.
pub open spec fn stage_rank(stage: Stage) -> int {
    match stage {
        Stage::Uninitialized => 0,
        Stage::Probing => 1,
        Stage::Bootstrapping => 2,
        Stage::Loading => 3,
        Stage::Resolved => 4,
        Stage::Failed => 4,
    }
}

/// Once a resolution is over, no event changes its state or asks anything
/// of the host: resolving is not entered a second time.
pub proof fn law_final_stages_absorb(s: ResolverView, e: EventView)
    requires
        s.stage == Stage::Resolved || s.stage == Stage::Failed,
    ensures
        step_spec(s, e) == (s, ActionView::Nothing),
{
}

/// A step never goes back: the stage stays or advances, it stays exactly
/// where the event is not the one that the stage waits for, and the path,
/// once the start has fixed it, stays the same.
pub proof fn law_stages_only_advance(s: ResolverView, e: EventView)
    ensures
        stage_rank(step_spec(s, e).0.stage) >= stage_rank(s.stage),
        step_spec(s, e).1 == ActionView::Nothing <==> step_spec(s, e).0 == s,
        s.stage != Stage::Uninitialized ==> step_spec(s, e).0.path == s.path,
{
}

/// The configuration is handed out only by the step that ends in
/// `Resolved`, and an error only by a step that ends in `Failed`.
pub proof fn law_outcome_matches_stage(s: ResolverView, e: EventView)
    ensures
        step_spec(s, e).1 is Finish <==> s.stage != Stage::Resolved && step_spec(s, e).0.stage
            == Stage::Resolved,
        step_spec(s, e).1 is Fail <==> s.stage != Stage::Failed && step_spec(s, e).0.stage
            == Stage::Failed,
{
}

/// A resolution never writes a file that is there: the machine asks for
/// a write only on the report that no file exists at the path, and what it
/// then writes, at that path, is the default text.
pub proof fn law_existing_file_is_never_written(s: ResolverView, e: EventView)
    ensures
        step_spec(s, e).1 is Write <==> s.stage == Stage::Probing && e == (EventView::Probed {
            exists: false,
        }),
        step_spec(s, e).1 is Write ==> step_spec(s, e).1 == (ActionView::Write {
            path: s.path,
            contents: default_text_spec(),
        }),
{
}

/// What an action writes into the configuration file, if anything.
pub open spec fn written_by(action: ActionView) -> Option<Seq<char>> {
    match action {
        ActionView::Write { contents, .. } => Some(contents),
        _ => None,
    }
}

/// Where the host reports truly whether a file is there, no step of a
/// resolution changes the contents of a file that is there, whether the
/// resolution goes on, is done or fails.
pub proof fn law_resolution_keeps_existing_file(
    s: ResolverView,
    e: EventView,
    contents: Option<Seq<char>>,
)
    requires
        contents is Some,
        e matches EventView::Probed { exists } ==> exists == (contents is Some),
    ensures
        contents_after(contents, written_by(step_spec(s, e).1)) == contents,
{
}

} // verus!
