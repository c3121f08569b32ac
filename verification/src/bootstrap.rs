//! Where the configuration file lives, and what is written to it.

use vstd::prelude::*;
use crate::error::{ResolveError, ResolveErrorView};
use crate::resolver::{default_path_spec, defaults_spec, render_spec, AhConfig};

verus! {

/// A file to be written: the whole of `contents` replaces what is at
/// `path`.
#[derive(Clone, Debug, PartialEq, Eq)]
pub struct FileWrite {
    pub path: String,
    pub contents: String,
}

/// Whether an override names a path: it is set, and not to the empty
/// text, which names no file.
pub open spec fn names_path(value: Option<Seq<char>>) -> bool {
    value matches Some(path) && path.len() > 0
}

/// The path of the configuration file: the test override where it names
/// a path, else the deployment override where it names one, else the
/// default path.
pub open spec fn file_path_spec(
    test_override: Option<Seq<char>>,
    deploy_override: Option<Seq<char>>,
) -> Seq<char> {
    if names_path(test_override) {
        test_override.unwrap()
    } else if names_path(deploy_override) {
        deploy_override.unwrap()
    } else {
        default_path_spec()
    }
}

/// The texts of an optional string.
pub open spec fn text_view(s: Option<String>) -> Option<Seq<char>> {
    match s {
        Some(t) => Some(t@),
        None => None,
    }
}

/// The text of the file that holds the defaults of every option.
pub open spec fn default_text_spec() -> Seq<char> {
    render_spec(defaults_spec(default_path_spec()))
}

/// What the bootstrap writes, given whether a file is there: the defaults
/// where none is, nothing where one is.
pub open spec fn bootstrap_write_spec(exists: bool) -> Option<Seq<char>> {
    if exists {
        None
    } else {
        Some(default_text_spec())
    }
}

/// The contents of a file after an optional write; `None` is no file.
pub open spec fn contents_after(before: Option<Seq<char>>, write: Option<Seq<char>>) -> Option<
    Seq<char>,
> {
    match write {
        Some(text) => Some(text),
        None => before,
    }
}

/// The contents of the configuration file after the bootstrap has run on
/// it once.
pub open spec fn bootstrapped(before: Option<Seq<char>>) -> Option<Seq<char>> {
    contents_after(before, bootstrap_write_spec(before is Some))
}

/// What a write comes to, given whether the host could carry it out:
/// nothing more where it could, else a file access error with the path.
pub open spec fn write_outcome_spec(path: Seq<char>, written: bool) -> Result<(), ResolveErrorView> {
    if written {
        Ok(())
    } else {
        Err(ResolveErrorView::FileAccess { path })
    }
}

impl FileWrite {
    /// The result of this write, once the host has tried it: a write that
    /// failed is a file access error that names the path.
    pub fn outcome(&self, written: bool) -> (r: Result<(), ResolveError>)
        ensures
            match r {
                Ok(_) => write_outcome_spec(self.path@, written) is Ok,
                Err(e) => write_outcome_spec(self.path@, written) == Err::<(), ResolveErrorView>(e@),
            },
    {
        if written {
            Ok(())
        } else {
            Err(ResolveError::FileAccess { path: self.path.clone() })
        }
    }
}

impl AhConfig {
    /// The path of the configuration file, from the values of the
    /// variables `AH_TEST_ENV_PATH` and `AH_CONFIG_PATH` where they are set.
    /// A variable set to the empty text counts as not set, so the path is
    /// never empty.
    pub fn get_file_path(test_override: Option<String>, deploy_override: Option<String>) -> (path:
        String)
        ensures
            path@ == file_path_spec(text_view(test_override), text_view(deploy_override)),
            path@.len() > 0,
    {
        proof {
            reveal_strlit("./ah_config.toml");
        }
        if let Some(path) = test_override {
            if !path.as_str().is_empty() {
                return path;
            }
        }
        if let Some(path) = deploy_override {
            if !path.as_str().is_empty() {
                return path;
            }
        }
        "./ah_config.toml".to_owned()
    }

    /// The compiled-in defaults of every option, with the path that the
    /// two overrides give.
    pub fn default_config(test_override: Option<String>, deploy_override: Option<String>) -> (c:
        AhConfig)
        ensures
            c@ == defaults_spec(
                file_path_spec(text_view(test_override), text_view(deploy_override)),
            ),
    {
        AhConfig::with_defaults(AhConfig::get_file_path(test_override, deploy_override))
    }

    /// The bootstrap step: where no file exists at `file_path`, the write
    /// that creates it with the defaults of every option; where one exists,
    /// whatever it holds, nothing.
    pub fn write_default_config(file_path: &str, exists: bool) -> (w: Option<FileWrite>)
        ensures
            match w {
                Some(write) => write.path@ == file_path@ && bootstrap_write_spec(exists) == Some(
                    write.contents@,
                ),
                None => bootstrap_write_spec(exists) is None,
            },
    {
        if exists {
            None
        } else {
            let defaults = AhConfig::with_defaults("./ah_config.toml".to_owned());
            Some(
                FileWrite {
                    path: file_path.to_owned(),
                    contents: defaults.get_config_as_toml_string(),
                },
            )
        }
    }

    /// The write that commits this configuration to the configuration
    /// file: its whole text, at the path that the two overrides give.
    pub fn write_config(
        &self,
        test_override: Option<String>,
        deploy_override: Option<String>,
    ) -> (w: FileWrite)
        ensures
            w.path@ == file_path_spec(text_view(test_override), text_view(deploy_override)),
            w.contents@ == render_spec(self@),
    {
        FileWrite {
            path: AhConfig::get_file_path(test_override, deploy_override),
            contents: self.get_config_as_toml_string(),
        }
    }
}

} // verus!
