//! The course of one resolution, as a machine that the host drives: the
//! machine decides, the host does what touches the disk and the
//! environment and reports back.

use vstd::prelude::*;
use crate::adapter::{load_and_validate_spec, FileRead, FileReadView};
use crate::bootstrap::{bootstrap_write_spec, file_path_spec, text_view, FileWrite};
use crate::error::{ResolveError, ResolveErrorView};
use crate::resolver::{AhConfig, ConfigValues};
use crate::sources::{entries_view, RawEntries};

verus! {

/// Where a resolution stands. `Probing`, `Bootstrapping` and `Loading` are
/// the steps of resolving; `Resolved` and `Failed` are final.
#[derive(Clone, Copy, Debug, PartialEq, Eq, Structural)]
pub enum Stage {
    Uninitialized,
    Probing,
    Bootstrapping,
    Loading,
    Resolved,
    Failed,
}

/// The state of a resolution: its stage, and the path of the
/// configuration file once that is known.
#[derive(Clone, Debug, PartialEq, Eq)]
pub struct Resolver {
    pub stage: Stage,
    pub path: String,
}

/// A `Resolver` with its path as a sequence of characters.
pub struct ResolverView {
    pub stage: Stage,
    pub path: Seq<char>,
}

impl View for Resolver {
    type V = ResolverView;

    open spec fn view(&self) -> ResolverView {
        ResolverView { stage: self.stage, path: self.path@ }
    }
}

/// What the host reports to the machine.
#[derive(Clone, Debug, PartialEq, Eq)]
pub enum Event {
    /// The resolution starts, with the values of the two variables that
    /// override the path, where they are set.
    Start { test_override: Option<String>, deploy_override: Option<String> },
    /// Whether a file exists at the path.
    Probed { exists: bool },
    /// Whether the default file could be written.
    Written { ok: bool },
    /// What was read of the file, and the environment as pairs of name and
    /// value.
    Loaded { file: FileRead, env: Vec<(String, String)> },
}

/// An `Event` with its texts as sequences of characters.
pub enum EventView {
    Start { test_override: Option<Seq<char>>, deploy_override: Option<Seq<char>> },
    Probed { exists: bool },
    Written { ok: bool },
    Loaded { file: FileReadView, env: RawEntries },
}

impl View for Event {
    type V = EventView;

    open spec fn view(&self) -> EventView {
        match self {
            Event::Start { test_override, deploy_override } => EventView::Start {
                test_override: text_view(*test_override),
                deploy_override: text_view(*deploy_override),
            },
            Event::Probed { exists } => EventView::Probed { exists: *exists },
            Event::Written { ok } => EventView::Written { ok: *ok },
            Event::Loaded { file, env } => EventView::Loaded {
                file: file@,
                env: entries_view(env@),
            },
        }
    }
}

/// What the machine asks of the host, or hands to it.
#[derive(Clone, Debug, PartialEq, Eq)]
pub enum Action {
    /// Find out whether a file exists at the path, and report `Probed`.
    Probe { path: String },
    /// Write the file, and report `Written`.
    Write(FileWrite),
    /// Read the file and the environment, and report `Loaded`.
    Load { path: String },
    /// The resolution is done: this is the configuration.
    Finish(AhConfig),
    /// The resolution has failed: start-up is to be given up.
    Fail(ResolveError),
    /// The event does not belong to the stage: nothing changes.
    Nothing,
}

/// An `Action` with its texts as sequences of characters.
pub enum ActionView {
    Probe { path: Seq<char> },
    Write { path: Seq<char>, contents: Seq<char> },
    Load { path: Seq<char> },
    Finish(ConfigValues),
    Fail(ResolveErrorView),
    Nothing,
}

impl View for Action {
    type V = ActionView;

    open spec fn view(&self) -> ActionView {
        match self {
            Action::Probe { path } => ActionView::Probe { path: path@ },
            Action::Write(w) => ActionView::Write { path: w.path@, contents: w.contents@ },
            Action::Load { path } => ActionView::Load { path: path@ },
            Action::Finish(c) => ActionView::Finish(c@),
            Action::Fail(e) => ActionView::Fail(e@),
            Action::Nothing => ActionView::Nothing,
        }
    }
}

/// The machine's step: the next state and the action, from a state and
/// an event.
///
/// A start fixes the path and asks whether a file is there. Where none
/// is, the defaults are written first; a write that fails ends the
/// resolution. Then the file is read: a file that is not there, one that
/// cannot be read, a text that is not in the format and a value that
/// cannot be converted each end the resolution; else the configuration is
/// handed out. An event
/// that does not belong to the stage changes nothing; so does every event
/// once the resolution is over.
pub open spec fn step_spec(s: ResolverView, e: EventView) -> (ResolverView, ActionView) {
    match (s.stage, e) {
        (Stage::Uninitialized, EventView::Start { test_override, deploy_override }) => {
            let path = file_path_spec(test_override, deploy_override);
            (ResolverView { stage: Stage::Probing, path }, ActionView::Probe { path })
        },
        (Stage::Probing, EventView::Probed { exists }) => match bootstrap_write_spec(exists) {
            Some(contents) => (
                ResolverView { stage: Stage::Bootstrapping, path: s.path },
                ActionView::Write { path: s.path, contents },
            ),
            None => (
                ResolverView { stage: Stage::Loading, path: s.path },
                ActionView::Load { path: s.path },
            ),
        },
        (Stage::Bootstrapping, EventView::Written { ok }) => if ok {
            (ResolverView { stage: Stage::Loading, path: s.path }, ActionView::Load { path: s.path })
        } else {
            (
                ResolverView { stage: Stage::Failed, path: s.path },
                ActionView::Fail(ResolveErrorView::BootstrapWrite { path: s.path }),
            )
        },
        (Stage::Loading, EventView::Loaded { file, env }) => match load_and_validate_spec(
            s.path,
            file,
            env,
        ) {
            Ok(c) => (ResolverView { stage: Stage::Resolved, path: s.path }, ActionView::Finish(c)),
            Err(err) => (ResolverView { stage: Stage::Failed, path: s.path }, ActionView::Fail(err)),
        },
        _ => (s, ActionView::Nothing),
    }
}

impl Resolver {
    /// A resolution that has not started.
    pub fn new() -> (r: Resolver)
        ensures
            r@ == (ResolverView { stage: Stage::Uninitialized, path: Seq::<char>::empty() }),
    {
        Resolver { stage: Stage::Uninitialized, path: String::new() }
    }

    fn stay(self) -> (r: (Resolver, Action))
        ensures
            r.0@ == self@,
            r.1@ == ActionView::Nothing,
    {
        (self, Action::Nothing)
    }

    fn fail(self, error: ResolveError) -> (r: (Resolver, Action))
        ensures
            r.0@ == (ResolverView { stage: Stage::Failed, path: self.path@ }),
            r.1@ == ActionView::Fail(error@),
    {
        (Resolver { stage: Stage::Failed, path: self.path }, Action::Fail(error))
    }

    fn load(self) -> (r: (Resolver, Action))
        ensures
            r.0@ == (ResolverView { stage: Stage::Loading, path: self.path@ }),
            r.1@ == (ActionView::Load { path: self.path@ }),
    {
        let path = self.path.clone();
        (Resolver { stage: Stage::Loading, path: self.path }, Action::Load { path })
    }

    /// Takes one event: gives the next state and what the host is to do.
    pub fn step(self, event: Event) -> (r: (Resolver, Action))
        ensures
            (r.0@, r.1@) == step_spec(self@, event@),
    {
        match self.stage {
            Stage::Uninitialized => match event {
                Event::Start { test_override, deploy_override } => {
                    let path = AhConfig::get_file_path(test_override, deploy_override);
                    let probe = path.clone();
                    (Resolver { stage: Stage::Probing, path }, Action::Probe { path: probe })
                },
                _ => self.stay(),
            },
            Stage::Probing => match event {
                Event::Probed { exists } => match AhConfig::write_default_config(
                    self.path.as_str(),
                    exists,
                ) {
                    Some(write) => (
                        Resolver { stage: Stage::Bootstrapping, path: self.path },
                        Action::Write(write),
                    ),
                    None => self.load(),
                },
                _ => self.stay(),
            },
            Stage::Bootstrapping => match event {
                Event::Written { ok } => if ok {
                    self.load()
                } else {
                    let path = self.path.clone();
                    self.fail(ResolveError::BootstrapWrite { path })
                },
                _ => self.stay(),
            },
            Stage::Loading => match event {
                Event::Loaded { file, env } => match AhConfig::new(self.path.clone(), &file, &env) {
                    Ok(c) => (
                        Resolver { stage: Stage::Resolved, path: self.path },
                        Action::Finish(c),
                    ),
                    Err(e) => self.fail(e),
                },
                _ => self.stay(),
            },
            _ => self.stay(),
        }
    }
}

} // verus!
