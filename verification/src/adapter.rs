//! The configuration store adapter: turns what was read of a configuration
//! file and the process environment into a stack of raw sources.

use vstd::prelude::*;
use crate::error::{ResolveError, ResolveErrorView};
use crate::options::{all_options, all_options_spec};
use crate::resolver::{defaults_spec, resolve_spec, AhConfig, ConfigValues};
use crate::sources::{
    entries_map, entries_view, find_entry, lookup, RawEntries, RawOverrideMap, RawTable,
};

verus! {

#[verifier::external_type_specification]
#[verifier::external_body]
pub struct ExConfigError(config::ConfigError);

/// What the host found when it read the configuration file.
#[derive(Clone, Debug, PartialEq, Eq)]
pub enum FileRead {
    /// The file's text.
    Text(String),
    /// No file is at the path.
    NotFound,
    /// A file is there, but it cannot be read.
    Unreadable,
}

/// A `FileRead` with its text as a sequence of characters.
pub enum FileReadView {
    Text(Seq<char>),
    NotFound,
    Unreadable,
}

impl View for FileRead {
    type V = FileReadView;

    open spec fn view(&self) -> FileReadView {
        match self {
            FileRead::Text(text) => FileReadView::Text(text@),
            FileRead::NotFound => FileReadView::NotFound,
            FileRead::Unreadable => FileReadView::Unreadable,
        }
    }
}

/// The table that the `config` crate reads out of a TOML text: the
/// top-level keys, each with its value as a text; `None` where the crate
/// rejects the text or cannot turn a value into a text.
pub uninterp spec fn file_entries(text: Seq<char>) -> Option<RawTable>;

/// Parses a TOML text with the `config` crate: `Format::parse` of
/// `FileFormat::Toml` gives the top-level table, and `Value::into_string`
/// turns each of its values into a text. No key is taken as a path, so
/// each key of the text stands for itself. The entries come in the order
/// in which the crate's map is walked; the contract speaks of the table
/// that they stand for, in which that order leaves no trace, and names it
/// as a function of the text. An error of either call stands for `None`.
#[verifier::external_body]
fn parse_toml_entries(text: &str) -> (r: Result<Vec<(String, String)>, config::ConfigError>)
    ensures
        file_entries(text@) == match r {
            Ok(entries) => Some(entries_map(entries_view(entries@))),
            Err(_) => None,
        },
{
    let table = config::Format::parse(&config::FileFormat::Toml, None, text)
        .map_err(|cause| config::ConfigError::FileParse { uri: None, cause })?;
    table.into_iter().map(|(key, value)| value.into_string().map(|raw| (key, raw))).collect()
}

/// The source that a file's text makes, or the parse error that carries
/// the file's path.
pub open spec fn file_source_spec(path: Seq<char>, text: Seq<char>) -> Result<
    RawTable,
    ResolveErrorView,
> {
    match file_entries(text) {
        Some(table) => Ok(table),
        None => Err(ResolveErrorView::Parse { path }),
    }
}

/// Reads the raw entries out of the text of the file at `path`.
pub fn file_source(path: &str, text: &str) -> (r: Result<Vec<(String, String)>, ResolveError>)
    ensures
        match r {
            Ok(entries) => file_source_spec(path@, text@) == Ok::<RawTable, ResolveErrorView>(
                entries_map(entries_view(entries@)),
            ),
            Err(e) => file_source_spec(path@, text@) == Err::<RawTable, ResolveErrorView>(e@),
        },
{
    match parse_toml_entries(text) {
        Ok(entries) => Ok(entries),
        Err(_) => Err(ResolveError::Parse { path: path.to_owned() }),
    }
}

/// The entries that the environment gives the first `n` options: for each
/// option whose variable is set, the option's key with the variable's
/// value. Variables that belong to no option leave no trace.
pub open spec fn env_source_upto(env: RawEntries, n: nat) -> RawEntries
    decreases n,
{
    if n == 0 || n > all_options_spec().len() {
        Seq::empty()
    } else {
        let option = all_options_spec()[n - 1];
        let before = env_source_upto(env, (n - 1) as nat);
        match lookup(env, option.env_name_spec()) {
            Some(value) => before.push((option.key_spec(), value)),
            None => before,
        }
    }
}

/// The source that the environment makes.
pub open spec fn env_source_spec(env: RawEntries) -> RawEntries {
    env_source_upto(env, all_options_spec().len())
}

/// Picks the overriding variables out of the environment, given as pairs
/// of name and value.
pub fn env_source(env: &Vec<(String, String)>) -> (entries: Vec<(String, String)>)
    ensures
        entries_view(entries@) == env_source_spec(entries_view(env@)),
{
    let options = all_options();
    let mut entries: Vec<(String, String)> = Vec::new();
    let mut n: usize = 0;
    assert(entries_view(entries@) =~= env_source_upto(entries_view(env@), 0));
    while n < options.len()
        invariant
            n <= options.len(),
            options@ == all_options_spec(),
            entries_view(entries@) == env_source_upto(entries_view(env@), n as nat),
        decreases options.len() - n,
    {
        let option = options[n];
        let ghost before = entries_view(entries@);
        match find_entry(env, option.env_name()) {
            Some(value) => {
                let key = option.key().to_owned();
                let held = value.clone();
                entries.push((key, held));
                assert(entries_view(entries@) =~= before.push((option.key_spec(), value@)));
            },
            None => {},
        }
        n += 1;
    }
    entries
}

/// The stack of sources that what was read of the file at `path` and
/// the environment make: the file below, the environment above it. A file
/// that is not there, one that cannot be read and a text that is not in
/// the format each give their own error, with the path.
pub open spec fn load_spec(path: Seq<char>, file: FileReadView, env: RawEntries) -> Result<
    Seq<RawTable>,
    ResolveErrorView,
> {
    match file {
        FileReadView::NotFound => Err(ResolveErrorView::FileNotFound { path }),
        FileReadView::Unreadable => Err(ResolveErrorView::FileAccess { path }),
        FileReadView::Text(text) => match file_source_spec(path, text) {
            Ok(table) => Ok(seq![table, entries_map(env_source_spec(env))]),
            Err(e) => Err(e),
        },
    }
}

/// What resolving comes to, from what was read of the file at `path` and
/// the environment: the sources are stacked, then overlaid on the defaults.
pub open spec fn load_and_validate_spec(path: Seq<char>, file: FileReadView, env: RawEntries) -> Result<
    ConfigValues,
    ResolveErrorView,
> {
    match load_spec(path, file, env) {
        Ok(layers) => resolve_spec(defaults_spec(path), layers),
        Err(e) => Err(e),
    }
}

impl AhConfig {
    /// Builds the stack of raw sources from what was read of the file at
    /// `file_path` and from the environment, given as pairs of name and
    /// value. Fails where the file is not there, where it cannot be read
    /// and where its text is not in the format, each time with the path;
    /// asks for no write.
    pub fn get_config(file_path: &str, file: &FileRead, env: &Vec<(String, String)>) -> (r: Result<
        RawOverrideMap,
        ResolveError,
    >)
        ensures
            match r {
                Ok(m) => load_spec(file_path@, file@, entries_view(env@)) == Ok::<
                    Seq<RawTable>,
                    ResolveErrorView,
                >(m@),
                Err(e) => load_spec(file_path@, file@, entries_view(env@)) == Err::<
                    Seq<RawTable>,
                    ResolveErrorView,
                >(e@),
            },
    {
        match file {
            FileRead::NotFound => Err(ResolveError::FileNotFound { path: file_path.to_owned() }),
            FileRead::Unreadable => Err(ResolveError::FileAccess { path: file_path.to_owned() }),
            FileRead::Text(text) => {
                let from_file = file_source(file_path, text.as_str())?;
                let from_env = env_source(env);
                let ghost file_table = entries_map(entries_view(from_file@));
                let mut overrides = RawOverrideMap::new();
                overrides.push_source(from_file);
                overrides.push_source(from_env);
                assert(overrides@ =~= seq![
                    file_table,
                    entries_map(env_source_spec(entries_view(env@))),
                ]);
                Ok(overrides)
            },
        }
    }

    /// Resolves the configuration from what was read of the file at
    /// `config_file` and from the environment: defaults first, the file
    /// over them, the environment over the file.
    pub fn get_and_validate_config(
        config_file: String,
        file: &FileRead,
        env: &Vec<(String, String)>,
    ) -> (r: Result<AhConfig, ResolveError>)
        ensures
            match r {
                Ok(c) => load_and_validate_spec(config_file@, file@, entries_view(env@)) == Ok::<
                    ConfigValues,
                    ResolveErrorView,
                >(c@),
                Err(e) => load_and_validate_spec(config_file@, file@, entries_view(env@)) == Err::<
                    ConfigValues,
                    ResolveErrorView,
                >(e@),
            },
    {
        let overrides = AhConfig::get_config(config_file.as_str(), file, env)?;
        AhConfig::resolve(config_file, &overrides)
    }

    /// The resolved configuration of the process: see
    /// `get_and_validate_config`.
    pub fn new(config_file: String, file: &FileRead, env: &Vec<(String, String)>) -> (r: Result<
        AhConfig,
        ResolveError,
    >)
        ensures
            match r {
                Ok(c) => load_and_validate_spec(config_file@, file@, entries_view(env@)) == Ok::<
                    ConfigValues,
                    ResolveErrorView,
                >(c@),
                Err(e) => load_and_validate_spec(config_file@, file@, entries_view(env@)) == Err::<
                    ConfigValues,
                    ResolveErrorView,
                >(e@),
            },
    {
        AhConfig::get_and_validate_config(config_file, file, env)
    }
}

} // verus!
