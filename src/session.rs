//! One install, as a session that turns each outcome reported by the caller
//! into the next step to perform. The caller does the filesystem work, the
//! archive reading and the wait for the user's decision.
use vstd::prelude::*;
use crate::mod_string::{PackageIdentifier, ParseError, splits_as, is_identifier, joined};
use crate::entries::{
    plugin_files,
    conflicting_dirs,
    views,
    select,
    plugin_pred,
    conflict_pred,
};

verus! {

/// Why an install failed.
pub enum InstallError {
    Parse(String),
    Archive(String),
    MissingFile,
    PluginsDisabled,
    UserDenied,
    Io(String),
    Channel(String),
}

/// Where a session stands.
pub enum Phase {
    /// Waiting for the staging folder to be created.
    Start,
    /// Waiting for the archive to be extracted into staging.
    Extracting,
    /// Waiting for the user's decision on the plugins found.
    Consent,
    /// Waiting for the list of installed folders.
    Resolving,
    /// Waiting for conflicting installs to be removed.
    Removing,
    /// Waiting for the new install folder to be filled.
    Committing,
    /// Waiting for the staging folder to be removed.
    Cleanup,
    Done,
}

/// What the caller reports about the step it was last asked to perform.
pub enum Event {
    /// The step succeeded.
    Done,
    /// The step failed.
    Failed(InstallError),
    /// The archive was extracted; whether anything was written, and the file
    /// names directly under the staged `plugins` folder if it exists.
    Extracted { any_content: bool, plugin_dir: Option<Vec<String>> },
    /// The user's decision; absent when the channel closed without one.
    Decision(Option<bool>),
    /// The names of the folders in the live plugins folder.
    Installed(Vec<String>),
}

/// The next step the caller performs.
pub enum Action {
    CreateStaging,
    Extract,
    /// Notify the front end and wait for a decision.
    AskConsent,
    ListInstalled,
    /// Remove each of these folders of the live plugins folder.
    RemoveDirs(Vec<String>),
    /// Create `folder` in the live plugins folder if absent and copy each of
    /// `files` into it: the package's metadata file from the staging folder,
    /// then the plugins from its `plugins` folder.
    Commit { folder: String, files: Vec<String> },
    /// Remove the staging folder.
    Teardown,
    /// The install is over with this result.
    Finish(Result<(), InstallError>),
}

pub struct Session {
    pub phase: Phase,
    pub id: PackageIdentifier,
    pub plugins_allowed: bool,
    /// Name of the package's metadata file at the top of the archive.
    pub metadata_file: String,
    pub plugins: Vec<String>,
    pub staged: bool,
    pub torn_down: bool,
    pub outcome: Result<(), InstallError>,
}

/// The events a session in phase `ph` accepts.
pub open spec fn fits(ph: Phase, e: Event) -> bool {
    match e {
        Event::Failed(_) => !(ph is Done),
        Event::Done => ph is Start || ph is Removing || ph is Committing || ph is Cleanup,
        Event::Extracted { .. } => ph is Extracting,
        Event::Decision(_) => ph is Consent,
        Event::Installed(_) => ph is Resolving,
    }
}

/// Staging bookkeeping of one step: the staging folder, once created, stays
/// owned until torn down; it is torn down only while owned and not yet torn
/// down; a session finishes only after tearing down what it staged.
pub open spec fn step_post(s: Session, a: Action, t: Session) -> bool {
    &&& s.staged ==> t.staged
    &&& t.torn_down == (s.torn_down || a is Teardown)
    &&& a is Teardown ==> s.staged && !s.torn_down
    &&& a is Finish ==> (t.staged ==> t.torn_down)
}

pub open spec fn cleans_up(out: Result<(), InstallError>, a: Action, t: Session) -> bool {
    &&& a is Teardown
    &&& t.phase is Cleanup
    &&& t.outcome == out
}

pub open spec fn resolves(a: Action, t: Session) -> bool {
    a is ListInstalled && t.phase is Resolving
}

/// What a step does on event `e` from session `s`: its action `a` and the
/// session `t` after it.
pub open spec fn transition(s: Session, e: Event, a: Action, t: Session) -> bool {
    match s.phase {
        Phase::Start => match e {
            Event::Done => a is Extract && t.phase is Extracting,
            Event::Failed(err) => a == Action::Finish(Err(err)) && t.phase is Done,
            _ => false,
        },
        Phase::Extracting => match e {
            Event::Failed(err) => cleans_up(Err(err), a, t),
            Event::Extracted { any_content, plugin_dir } => match plugin_dir {
                None => if any_content {
                    resolves(a, t) && t.plugins@.len() == 0
                } else {
                    cleans_up(Err(InstallError::MissingFile), a, t)
                },
                Some(listing) => {
                    let found = select(views(listing@), plugin_pred());
                    &&& views(t.plugins@) == found
                    &&& if found.len() == 0 {
                        resolves(a, t)
                    } else if !s.plugins_allowed {
                        cleans_up(Err(InstallError::PluginsDisabled), a, t)
                    } else {
                        a is AskConsent && t.phase is Consent
                    }
                },
            },
            _ => false,
        },
        Phase::Consent => match e {
            Event::Decision(Some(true)) => resolves(a, t),
            Event::Decision(_) => cleans_up(Err(InstallError::UserDenied), a, t),
            Event::Failed(err) => cleans_up(Err(err), a, t),
            _ => false,
        },
        Phase::Resolving => match e {
            Event::Installed(dirs) => t.phase is Removing && match a {
                Action::RemoveDirs(v) => views(v@) == select(views(dirs@), conflict_pred(s.id.name@)),
                _ => false,
            },
            Event::Failed(err) => cleans_up(Err(err), a, t),
            _ => false,
        },
        Phase::Removing => match e {
            Event::Done => t.phase is Committing && match a {
                Action::Commit { folder, files } => {
                    &&& folder@ == joined(s.id.author@, s.id.name@, s.id.version@)
                    &&& views(files@) == seq![s.metadata_file@] + views(s.plugins@)
                },
                _ => false,
            },
            Event::Failed(err) => cleans_up(Err(err), a, t),
            _ => false,
        },
        Phase::Committing => match e {
            Event::Done => cleans_up(Ok(()), a, t),
            Event::Failed(err) => cleans_up(Err(err), a, t),
            _ => false,
        },
        Phase::Cleanup => a == Action::Finish(s.outcome) && t.phase is Done,
        Phase::Done => false,
    }
}

impl Session {
    /// The staging flags agree with the phase.
    pub open spec fn wf(&self) -> bool {
        match self.phase {
            Phase::Start => !self.staged && !self.torn_down,
            Phase::Cleanup => self.staged && self.torn_down,
            Phase::Done => self.torn_down == self.staged,
            _ => self.staged && !self.torn_down,
        }
    }

    /// Starts an install of the package named by `mod_string`; the first step
    /// creates the staging folder. A malformed identifier fails at once,
    /// before anything is staged.
    pub fn new(mod_string: &str, plugins_allowed: bool, metadata_file: &str) -> (r: Result<
        (Session, Action),
        InstallError,
    >)
        ensures
            match r {
                Ok((s, a)) => {
                    &&& splits_as(mod_string@, s.id.author@, s.id.name@, s.id.version@)
                    &&& s.phase is Start
                    &&& s.wf()
                    &&& s.plugins_allowed == plugins_allowed
                    &&& s.metadata_file@ == metadata_file@
                    &&& a is CreateStaging
                },
                Err(e) => match e {
                    InstallError::Parse(m) => m@ == mod_string@,
                    _ => false,
                },
            },
            r is Ok <==> is_identifier(mod_string@),
    {
        match PackageIdentifier::parse(mod_string) {
            Ok(id) => Ok(
                (
                    Session {
                        phase: Phase::Start,
                        id,
                        plugins_allowed,
                        metadata_file: String::from_str(metadata_file),
                        plugins: Vec::new(),
                        staged: false,
                        torn_down: false,
                        outcome: Ok(()),
                    },
                    Action::CreateStaging,
                ),
            ),
            Err(ParseError::Malformed(m)) => Err(InstallError::Parse(m)),
        }
    }

    /// Whether the session in its present phase takes event `e`.
    pub fn accepts(&self, e: &Event) -> (r: bool)
        ensures
            r == fits(self.phase, *e),
    {
        match e {
            Event::Failed(_) => !matches!(self.phase, Phase::Done),
            Event::Done => matches!(self.phase, Phase::Start | Phase::Removing | Phase::Committing | Phase::Cleanup),
            Event::Extracted { .. } => matches!(self.phase, Phase::Extracting),
            Event::Decision(_) => matches!(self.phase, Phase::Consent),
            Event::Installed(_) => matches!(self.phase, Phase::Resolving),
        }
    }

    fn clean_up(&mut self, out: Result<(), InstallError>) -> (a: Action)
        requires
            old(self).staged,
            !old(self).torn_down,
        ensures
            cleans_up(out, a, *final(self)),
            final(self).staged && final(self).torn_down,
            final(self).id == old(self).id,
            final(self).plugins == old(self).plugins,
            final(self).plugins_allowed == old(self).plugins_allowed,
            final(self).metadata_file == old(self).metadata_file,
    {
        self.outcome = out;
        self.phase = Phase::Cleanup;
        self.torn_down = true;
        Action::Teardown
    }

    /// Takes the next step on event `e`, reported for the last action.
    pub fn step(&mut self, e: Event) -> (a: Action)
        requires
            old(self).wf(),
            fits(old(self).phase, e),
        ensures
            final(self).wf(),
            step_post(*old(self), a, *final(self)),
            transition(*old(self), e, a, *final(self)),
            final(self).id == old(self).id,
            final(self).plugins_allowed == old(self).plugins_allowed,
            final(self).metadata_file == old(self).metadata_file,
            !(old(self).phase is Extracting) ==> final(self).plugins == old(self).plugins,
    {
        if matches!(self.phase, Phase::Cleanup) {
            let mut out: Result<(), InstallError> = Ok(());
            std::mem::swap(&mut out, &mut self.outcome);
            self.phase = Phase::Done;
            return Action::Finish(out);
        }
        match e {
            Event::Failed(err) => {
                if matches!(self.phase, Phase::Start) {
                    self.phase = Phase::Done;
                    Action::Finish(Err(err))
                } else {
                    self.clean_up(Err(err))
                }
            },
            Event::Done => {
                match self.phase {
                    Phase::Start => {
                        self.staged = true;
                        self.phase = Phase::Extracting;
                        Action::Extract
                    },
                    Phase::Removing => {
                        let folder = self.id.folder_name();
                        let mut files: Vec<String> = Vec::new();
                        files.push(self.metadata_file.clone());
                        let mut i: usize = 0;
                        while i < self.plugins.len()
                            invariant
                                i <= self.plugins.len(),
                                views(files@) == seq![self.metadata_file@] + views(self.plugins@).take(i as int),
                            decreases self.plugins.len() - i,
                        {
                            let p = self.plugins[i].clone();
                            let ghost before = files@;
                            files.push(p);
                            assert(files@ == before.push(p));
                            assert(views(files@) =~= views(before).push(p@));
                            assert(views(self.plugins@).take(i as int + 1) =~= views(self.plugins@).take(i as int).push(p@));
                            assert(views(files@) =~= seq![self.metadata_file@] + views(self.plugins@).take(i as int + 1));
                            i = i + 1;
                        }
                        assert(views(self.plugins@).take(self.plugins.len() as int) =~= views(self.plugins@));
                        self.phase = Phase::Committing;
                        Action::Commit { folder, files }
                    },
                    _ => self.clean_up(Ok(())),
                }
            },
            Event::Extracted { any_content, plugin_dir } => {
                match plugin_dir {
                    None => {
                        if any_content {
                            self.plugins = Vec::new();
                            self.phase = Phase::Resolving;
                            Action::ListInstalled
                        } else {
                            self.clean_up(Err(InstallError::MissingFile))
                        }
                    },
                    Some(listing) => {
                        self.plugins = plugin_files(&listing);
                        if self.plugins.len() == 0 {
                            self.phase = Phase::Resolving;
                            Action::ListInstalled
                        } else if !self.plugins_allowed {
                            self.clean_up(Err(InstallError::PluginsDisabled))
                        } else {
                            self.phase = Phase::Consent;
                            Action::AskConsent
                        }
                    },
                }
            },
            Event::Decision(d) => {
                if matches!(d, Some(true)) {
                    self.phase = Phase::Resolving;
                    Action::ListInstalled
                } else {
                    self.clean_up(Err(InstallError::UserDenied))
                }
            },
            Event::Installed(dirs) => {
                let v = conflicting_dirs(&self.id, &dirs);
                self.phase = Phase::Removing;
                Action::RemoveDirs(v)
            },
        }
    }
}

} // verus!
