//! Portable logical packages: what they hold, and how one is imported.

use vstd::prelude::*;

use crate::catalog::{is_hyphenated_uuid, random_identity};
use crate::client::ErrorCode;
use crate::failure::{internal, internal_view, permanent, FailureView, ProtocolFailure};
use crate::path::{is_module_path, join, joined, module_path_view, valid_module_path};
use crate::text::{join2, join3, text_eq};

verus! {

/// One source module of a package.
#[derive(Debug, PartialEq, Eq)]
pub struct LogicalModuleDocument {
    /// Its path below the package.
    pub path: String,
    /// Its stable identity.
    pub stable_module_id: String,
    /// Its source text.
    pub source: String,
}

/// A versioned logical package.
#[derive(Debug, PartialEq, Eq)]
pub struct LogicalPackageDocument {
    /// Package format version.
    pub package_version: u32,
    /// Source language version.
    pub language_version: u32,
    /// The project configuration.
    pub config: String,
    /// The source modules.
    pub modules: Vec<LogicalModuleDocument>,
}

/// The document of an exported package: its language version is 1.
pub fn export_document(
    package_version: u32,
    config: String,
    modules: Vec<LogicalModuleDocument>,
) -> (document: LogicalPackageDocument)
    ensures
        document == (LogicalPackageDocument {
            package_version,
            language_version: 1,
            config,
            modules,
        }),
{
    LogicalPackageDocument { package_version, language_version: 1, config, modules }
}

/// The failure for a package of another version.
pub open spec fn package_version_view() -> FailureView {
    permanent(ErrorCode::QueryError, "logical package and language versions must both be 1"@)
}

/// Admits a package of the known versions.
pub fn admit_package(document: &LogicalPackageDocument) -> (result: Result<(), ProtocolFailure>)
    ensures
        result is Ok <==> document.package_version == 1 && document.language_version == 1,
        result is Err ==> result->Err_0@ == package_version_view(),
        result matches Err(failure) ==> failure.code is QueryError && !failure.retryable
            && failure.message@ == "logical package and language versions must both be 1"@,
{
    if document.package_version != 1 || document.language_version != 1 {
        return Err(
            ProtocolFailure::new(
                ErrorCode::QueryError,
                "logical package and language versions must both be 1",
            ),
        );
    }
    Ok(())
}

/// The directory in which a package is compiled: below `parent`, under a fresh random name.
pub fn import_directory(parent: &str, prefix: &str) -> (path: String)
    ensures
        exists|id: Seq<char>| #[trigger]
            is_hyphenated_uuid(id) && path@ == joined(parent@, prefix@ + id),
{
    let id = random_identity();
    let name = join2(prefix, id.as_str());
    assert(is_hyphenated_uuid(id@));
    join(parent, name.as_str())
}

/// How a module's identity relates to the project configuration.
#[derive(Clone, Copy, Debug, PartialEq, Eq, Structural)]
pub enum ModuleIdentity {
    /// The platform does not read the module's path as one below the package.
    Outside,
    /// It is no module identity.
    Malformed,
    /// The configuration gives the module's path another identity, or none.
    Different,
    /// The configuration gives the module's path this identity.
    Same,
}

/// What is wrong with a module.
#[derive(Clone, Copy, Debug, PartialEq, Eq, Structural)]
pub enum ModuleFault {
    /// Its path is no module path.
    Path,
    /// An earlier module has its path.
    Repeated,
    /// Its identity is none.
    Malformed,
    /// Its identity is not the configured one.
    Different,
}

/// Whether an earlier module has the path of the module at position `i`.
pub open spec fn path_repeats(modules: Seq<LogicalModuleDocument>, i: int) -> bool {
    exists|j: int| 0 <= j < i && (#[trigger] modules[j]).path@ == modules[i].path@
}

/// What is wrong with the module at position `i`, if anything.
pub open spec fn module_fault(
    modules: Seq<LogicalModuleDocument>,
    i: int,
    identity: ModuleIdentity,
) -> Option<ModuleFault> {
    if !is_module_path(modules[i].path@) || identity is Outside {
        Some(ModuleFault::Path)
    } else if path_repeats(modules, i) {
        Some(ModuleFault::Repeated)
    } else {
        match identity {
            ModuleIdentity::Outside => Some(ModuleFault::Path),
            ModuleIdentity::Malformed => Some(ModuleFault::Malformed),
            ModuleIdentity::Different => Some(ModuleFault::Different),
            ModuleIdentity::Same => None,
        }
    }
}

/// Judges the module at position `i`.
pub fn judge_module(
    modules: &Vec<LogicalModuleDocument>,
    i: usize,
    identity: ModuleIdentity,
) -> (fault: Option<ModuleFault>)
    requires
        i < modules@.len(),
    ensures
        fault == module_fault(modules@, i as int, identity),
{
    if !valid_module_path(modules[i].path.as_str()) || identity == ModuleIdentity::Outside {
        return Some(ModuleFault::Path);
    }
    let mut j: usize = 0;
    while j < i
        invariant
            j <= i < modules@.len(),
            is_module_path(modules@[i as int].path@),
            identity !is Outside,
            forall|k: int| 0 <= k < j ==> (#[trigger] modules@[k]).path@ != modules@[i as int].path@,
        decreases i - j,
    {
        if text_eq(modules[j].path.as_str(), modules[i].path.as_str()) {
            assert(path_repeats(modules@, i as int)) by {
                assert(modules@[j as int].path@ == modules@[i as int].path@);
            }
            return Some(ModuleFault::Repeated);
        }
        j = j + 1;
    }
    match identity {
        ModuleIdentity::Outside => Some(ModuleFault::Path),
        ModuleIdentity::Malformed => Some(ModuleFault::Malformed),
        ModuleIdentity::Different => Some(ModuleFault::Different),
        ModuleIdentity::Same => None,
    }
}

/// Where an import stands.
#[derive(Clone, Copy, Debug, PartialEq, Eq, Structural)]
pub enum ImportStep {
    /// Make the directory in which the package is compiled.
    MakeDirectory,
    /// Write the project configuration.
    WriteConfig,
    /// Load it with the storage engine.
    LoadConfig,
    /// Relate the next module's identity to it.
    IdentifyModule,
    /// Write the module.
    WriteModule,
    /// Compile the package into a candidate.
    Compile,
    /// Open the candidate.
    OpenCandidate,
    /// Give it server authority.
    AdoptCandidate,
    /// Checkpoint it and close it.
    CheckpointCandidate,
    /// Read its bytes.
    ReadCandidate,
    /// Replace the live Database by them.
    Install,
    /// Remove the directory.
    CleanUp,
    /// The import is over.
    Finished,
}

/// Why an import failed.
#[derive(Debug, PartialEq, Eq)]
pub enum ImportFailure<E> {
    /// The file system failed.
    Internal(String),
    /// The package does not load or compile.
    Rejected(String),
    /// A module is faulty.
    Module {
        /// Its fault.
        fault: ModuleFault,
        /// Its path.
        path: String,
    },
    /// The candidate cannot be used.
    Incompatible(String),
    /// The replacement failed.
    Install(E),
}

/// What came of a step of an import.
#[derive(Debug, PartialEq, Eq)]
pub enum ImportEvent<E> {
    /// It succeeded.
    Done,
    /// It failed.
    Failed(String),
    /// How the module's identity relates to the configuration.
    Identity(ModuleIdentity),
    /// The replacement failed.
    NotInstalled(E),
}

/// The reports that a step can have.
pub open spec fn import_event_fits<E>(step: ImportStep, event: ImportEvent<E>) -> bool {
    match step {
        ImportStep::IdentifyModule => event is Identity,
        ImportStep::Install => event is Done || event is NotInstalled,
        ImportStep::Finished => false,
        _ => event is Done || event is Failed,
    }
}

/// An import in progress.
pub struct ImportMachine<E> {
    /// The modules.
    pub modules: Vec<LogicalModuleDocument>,
    /// The position of the next module.
    pub index: usize,
    /// Whether the candidate is opened and given server authority before it is installed.
    pub adopt: bool,
    /// Where the import stands.
    pub step: ImportStep,
    /// The failure that it reports in the end, if any.
    pub failure: Option<ImportFailure<E>>,
}

/// The step before the module at position `index`, or behind the last one.
pub open spec fn module_step(modules: Seq<LogicalModuleDocument>, index: int) -> ImportStep {
    if index < modules.len() {
        ImportStep::IdentifyModule
    } else {
        ImportStep::Compile
    }
}

/// The step that follows after `event`.
pub open spec fn import_next<E>(
    step: ImportStep,
    event: ImportEvent<E>,
    modules: Seq<LogicalModuleDocument>,
    index: int,
    adopt: bool,
) -> ImportStep {
    match step {
        ImportStep::MakeDirectory => if event is Done {
            ImportStep::WriteConfig
        } else {
            ImportStep::Finished
        },
        ImportStep::WriteConfig => if event is Done {
            ImportStep::LoadConfig
        } else {
            ImportStep::CleanUp
        },
        ImportStep::LoadConfig => if event is Done {
            module_step(modules, index)
        } else {
            ImportStep::CleanUp
        },
        ImportStep::IdentifyModule => match event {
            ImportEvent::Identity(identity) => if module_fault(modules, index, identity) is None {
                ImportStep::WriteModule
            } else {
                ImportStep::CleanUp
            },
            _ => ImportStep::CleanUp,
        },
        ImportStep::WriteModule => if event is Done {
            module_step(modules, index + 1)
        } else {
            ImportStep::CleanUp
        },
        ImportStep::Compile => if !(event is Done) {
            ImportStep::CleanUp
        } else if adopt {
            ImportStep::OpenCandidate
        } else {
            ImportStep::ReadCandidate
        },
        ImportStep::OpenCandidate => if event is Done {
            ImportStep::AdoptCandidate
        } else {
            ImportStep::CleanUp
        },
        ImportStep::AdoptCandidate => if event is Done {
            ImportStep::CheckpointCandidate
        } else {
            ImportStep::CleanUp
        },
        ImportStep::CheckpointCandidate => if event is Done {
            ImportStep::ReadCandidate
        } else {
            ImportStep::CleanUp
        },
        ImportStep::ReadCandidate => if event is Done {
            ImportStep::Install
        } else {
            ImportStep::CleanUp
        },
        ImportStep::Install => ImportStep::CleanUp,
        _ => ImportStep::Finished,
    }
}

/// Whether an import holds the right failure after `event` at `step`. A directory that could not
/// be removed in the end is none.
pub open spec fn import_noted<E>(
    step: ImportStep,
    event: ImportEvent<E>,
    modules: Seq<LogicalModuleDocument>,
    index: int,
    before: Option<ImportFailure<E>>,
    after: Option<ImportFailure<E>>,
) -> bool {
    match event {
        ImportEvent::Done => after == before,
        ImportEvent::Failed(message) => match step {
            ImportStep::CleanUp => after == before,
            ImportStep::LoadConfig | ImportStep::Compile => after == Some(
                ImportFailure::<E>::Rejected(message),
            ),
            ImportStep::OpenCandidate
            | ImportStep::AdoptCandidate
            | ImportStep::CheckpointCandidate => after == Some(
                ImportFailure::<E>::Incompatible(message),
            ),
            _ => after == Some(ImportFailure::<E>::Internal(message)),
        },
        ImportEvent::Identity(identity) => match module_fault(modules, index, identity) {
            None => after == before,
            Some(fault) => after matches Some(ImportFailure::Module { fault: noted, path }) && noted
                == fault && path@ == modules[index].path@,
        },
        ImportEvent::NotInstalled(error) => after == Some(ImportFailure::<E>::Install(error)),
    }
}

impl<E> ImportMachine<E> {
    /// Where a module is at hand, there is one.
    pub open spec fn well_formed(self) -> bool {
        &&& self.index <= self.modules@.len()
        &&& self.step is IdentifyModule || self.step is WriteModule ==> self.index
            < self.modules@.len()
    }

    /// Starts an import of `modules`.
    pub fn start(modules: Vec<LogicalModuleDocument>, adopt: bool) -> (machine: Self)
        ensures
            machine.modules == modules,
            machine.index == 0,
            machine.adopt == adopt,
            machine.step is MakeDirectory,
            machine.failure is None,
            machine.well_formed(),
    {
        ImportMachine { modules, index: 0, adopt, step: ImportStep::MakeDirectory, failure: None }
    }

    fn next_module(&mut self)
        requires
            old(self).index <= old(self).modules@.len(),
        ensures
            *final(self) == (ImportMachine {
                step: module_step(old(self).modules@, old(self).index as int),
                ..*old(self)
            }),
    {
        if self.index < self.modules.len() {
            self.step = ImportStep::IdentifyModule;
        } else {
            self.step = ImportStep::Compile;
        }
    }

    fn succeed(&mut self)
        requires
            old(self).well_formed(),
            old(self).step !is IdentifyModule,
            old(self).step !is Finished,
        ensures
            final(self).well_formed(),
            final(self).modules == old(self).modules,
            final(self).adopt == old(self).adopt,
            final(self).failure == old(self).failure,
            final(self).index == old(self).index + (if old(self).step is WriteModule {
                1int
            } else {
                0
            }),
            final(self).step == import_next(
                old(self).step,
                ImportEvent::<E>::Done,
                old(self).modules@,
                old(self).index as int,
                old(self).adopt,
            ),
    {
        match self.step {
            ImportStep::MakeDirectory => {
                self.step = ImportStep::WriteConfig;
            },
            ImportStep::WriteConfig => {
                self.step = ImportStep::LoadConfig;
            },
            ImportStep::LoadConfig => self.next_module(),
            ImportStep::WriteModule => {
                let count: usize = self.modules.len();
                assert(self.index < count);
                self.index = self.index + 1;
                self.next_module();
            },
            ImportStep::Compile => {
                self.step = if self.adopt {
                    ImportStep::OpenCandidate
                } else {
                    ImportStep::ReadCandidate
                };
            },
            ImportStep::OpenCandidate => {
                self.step = ImportStep::AdoptCandidate;
            },
            ImportStep::AdoptCandidate => {
                self.step = ImportStep::CheckpointCandidate;
            },
            ImportStep::CheckpointCandidate => {
                self.step = ImportStep::ReadCandidate;
            },
            ImportStep::ReadCandidate => {
                self.step = ImportStep::Install;
            },
            ImportStep::Install => {
                self.step = ImportStep::CleanUp;
            },
            _ => {
                self.step = ImportStep::Finished;
            },
        }
    }

    /// Takes in what came of the step.
    pub fn advance(&mut self, event: ImportEvent<E>)
        requires
            old(self).well_formed(),
            import_event_fits(old(self).step, event),
        ensures
            final(self).well_formed(),
            final(self).modules == old(self).modules,
            final(self).adopt == old(self).adopt,
            final(self).index == old(self).index + (if old(self).step is WriteModule
                && event is Done {
                1int
            } else {
                0
            }),
            final(self).step == import_next(
                old(self).step,
                event,
                old(self).modules@,
                old(self).index as int,
                old(self).adopt,
            ),
            import_noted(
                old(self).step,
                event,
                old(self).modules@,
                old(self).index as int,
                old(self).failure,
                final(self).failure,
            ),
    {
        match event {
            ImportEvent::Done => self.succeed(),
            ImportEvent::Failed(message) => match self.step {
                ImportStep::MakeDirectory => {
                    self.failure = Some(ImportFailure::Internal(message));
                    self.step = ImportStep::Finished;
                },
                ImportStep::CleanUp => {
                    self.step = ImportStep::Finished;
                },
                ImportStep::LoadConfig | ImportStep::Compile => {
                    self.failure = Some(ImportFailure::Rejected(message));
                    self.step = ImportStep::CleanUp;
                },
                ImportStep::OpenCandidate
                | ImportStep::AdoptCandidate
                | ImportStep::CheckpointCandidate => {
                    self.failure = Some(ImportFailure::Incompatible(message));
                    self.step = ImportStep::CleanUp;
                },
                _ => {
                    self.failure = Some(ImportFailure::Internal(message));
                    self.step = ImportStep::CleanUp;
                },
            },
            ImportEvent::Identity(identity) => match judge_module(
                &self.modules,
                self.index,
                identity,
            ) {
                None => {
                    self.step = ImportStep::WriteModule;
                },
                Some(fault) => {
                    let path = self.modules[self.index].path.clone();
                    self.failure = Some(ImportFailure::Module { fault, path });
                    self.step = ImportStep::CleanUp;
                },
            },
            ImportEvent::NotInstalled(error) => {
                self.failure = Some(ImportFailure::Install(error));
                self.step = ImportStep::CleanUp;
            },
        }
    }

    /// Why the import failed, once it is over, or how many modules it imported.
    pub fn result(self) -> (result: Result<u64, ImportFailure<E>>)
        requires
            self.step is Finished,
        ensures
            result == (match self.failure {
                Some(failure) => Err::<u64, ImportFailure<E>>(failure),
                None => Ok::<u64, ImportFailure<E>>(self.modules@.len() as u64),
            }),
    {
        match self.failure {
            Some(failure) => Err(failure),
            None => Ok(self.modules.len() as u64),
        }
    }
}

/// The protocol failure of an import.
pub open spec fn import_failure_view(failure: ImportFailure<ProtocolFailure>) -> FailureView {
    match failure {
        ImportFailure::Internal(message) => internal_view(message@),
        ImportFailure::Rejected(message) => permanent(ErrorCode::QueryError, message@),
        ImportFailure::Incompatible(message) => permanent(
            ErrorCode::SnapshotIncompatible,
            message@,
        ),
        ImportFailure::Install(failure) => failure@,
        ImportFailure::Module { fault, path } => match fault {
            ModuleFault::Path => module_path_view(path@),
            ModuleFault::Repeated => permanent(
                ErrorCode::QueryError,
                "logical package repeats a module path"@,
            ),
            ModuleFault::Malformed => permanent(
                ErrorCode::QueryError,
                "invalid stable Module ID"@,
            ),
            ModuleFault::Different => permanent(
                ErrorCode::QueryError,
                "stable Module ID does not match nostdb.toml for "@ + path@,
            ),
        },
    }
}

/// The protocol failure of an import.
pub fn import_failure(failure: ImportFailure<ProtocolFailure>) -> (result: ProtocolFailure)
    ensures
        result@ == import_failure_view(failure),
{
    match failure {
        ImportFailure::Internal(message) => internal(message.as_str()),
        ImportFailure::Rejected(message) => ProtocolFailure::new(
            ErrorCode::QueryError,
            message.as_str(),
        ),
        ImportFailure::Incompatible(message) => ProtocolFailure::new(
            ErrorCode::SnapshotIncompatible,
            message.as_str(),
        ),
        ImportFailure::Install(failure) => failure,
        ImportFailure::Module { fault, path } => match fault {
            ModuleFault::Path => ProtocolFailure::new(
                ErrorCode::QueryError,
                join3("invalid logical module path `", path.as_str(), "`").as_str(),
            ),
            ModuleFault::Repeated => ProtocolFailure::new(
                ErrorCode::QueryError,
                "logical package repeats a module path",
            ),
            ModuleFault::Malformed => ProtocolFailure::new(
                ErrorCode::QueryError,
                "invalid stable Module ID",
            ),
            ModuleFault::Different => ProtocolFailure::new(
                ErrorCode::QueryError,
                join2(
                    "stable Module ID does not match nostdb.toml for ",
                    path.as_str(),
                ).as_str(),
            ),
        },
    }
}

/// How many steps an import can still take.
pub open spec fn import_rank(step: ImportStep, remaining: int) -> int {
    match step {
        ImportStep::MakeDirectory => 2 * remaining + 11,
        ImportStep::WriteConfig => 2 * remaining + 10,
        ImportStep::LoadConfig => 2 * remaining + 9,
        ImportStep::IdentifyModule => 2 * remaining + 8,
        ImportStep::WriteModule => 2 * remaining + 7,
        ImportStep::Compile => 8,
        ImportStep::OpenCandidate => 6,
        ImportStep::AdoptCandidate => 5,
        ImportStep::CheckpointCandidate => 4,
        ImportStep::ReadCandidate => 3,
        ImportStep::Install => 2,
        ImportStep::CleanUp => 1,
        ImportStep::Finished => 0,
    }
}

/// Whether an import has not touched the live Database.
pub open spec fn before_install(step: ImportStep) -> bool {
    !(step is Install) && !(step is CleanUp) && !(step is Finished)
}

/// An import only gets to the replacement of the live Database when nothing was wrong: a failure
/// before it leads to the removal of the import's directory, or to the end where there is none.
pub proof fn law_faulty_packages_leave_the_database_alone<E>(
    step: ImportStep,
    event: ImportEvent<E>,
    modules: Seq<LogicalModuleDocument>,
    index: int,
    adopt: bool,
)
    requires
        before_install(step),
        import_event_fits(step, event),
        event is Failed || (event matches ImportEvent::Identity(identity) && module_fault(
            modules,
            index,
            identity,
        ) is Some),
    ensures
        import_next(step, event, modules, index, adopt) == (if step is MakeDirectory {
            ImportStep::Finished
        } else {
            ImportStep::CleanUp
        }),
{
}

/// One moment of an import.
pub struct ImportMoment<E> {
    /// The step that the import stands at.
    pub step: ImportStep,
    /// The position of the next module.
    pub index: int,
    /// The failure that it holds, if any.
    pub failure: Option<ImportFailure<E>>,
    /// Whether the live Database was replaced.
    pub installed: bool,
    /// The modules that lie in the import's directory, path and source, in the order of writing.
    pub written: Seq<(Seq<char>, Seq<char>)>,
    /// The modules that the candidate was compiled from, once there is one.
    pub candidate: Option<Seq<(Seq<char>, Seq<char>)>>,
    /// Whether the candidate has server authority.
    pub authority: bool,
    /// Whether it was checkpointed with that authority.
    pub checkpointed: bool,
    /// The modules behind the bytes that were read from the candidate, once they were.
    pub read: Option<Seq<(Seq<char>, Seq<char>)>>,
    /// The modules behind the bytes that the live Database was replaced by, if it was.
    pub live: Option<Seq<(Seq<char>, Seq<char>)>>,
}

/// Whether `event` leads from one moment of an import to the next.
pub open spec fn import_moves<E>(
    modules: Seq<LogicalModuleDocument>,
    adopt: bool,
    event: ImportEvent<E>,
    before: ImportMoment<E>,
    after: ImportMoment<E>,
) -> bool {
    &&& import_event_fits(before.step, event)
    &&& after.step == import_next(before.step, event, modules, before.index, adopt)
    &&& after.index == before.index + (if before.step is WriteModule && event is Done {
        1int
    } else {
        0
    })
    &&& import_noted(before.step, event, modules, before.index, before.failure, after.failure)
    &&& after.installed == (before.installed || (before.step is Install && event is Done))
    &&& after.written == (if before.step is WriteModule && event is Done {
        before.written.push((modules[before.index].path@, modules[before.index].source@))
    } else {
        before.written
    })
    &&& after.candidate == (if before.step is Compile && event is Done {
        Some(before.written)
    } else {
        before.candidate
    })
    &&& after.authority == (before.authority || (before.step is AdoptCandidate && event is Done))
    &&& after.checkpointed == (before.checkpointed || (before.step is CheckpointCandidate
        && event is Done && before.authority))
    &&& after.read == (if before.step is ReadCandidate && event is Done {
        before.candidate
    } else {
        before.read
    })
    &&& after.live == (if before.step is Install && event is Done {
        before.read
    } else {
        before.live
    })
}

/// Whether `moments` is an import of `modules` that meets these events.
pub open spec fn is_import_run<E>(
    modules: Seq<LogicalModuleDocument>,
    adopt: bool,
    events: Seq<ImportEvent<E>>,
    moments: Seq<ImportMoment<E>>,
) -> bool {
    &&& moments.len() == events.len() + 1
    &&& moments[0] == ImportMoment::<E> {
        step: ImportStep::MakeDirectory,
        index: 0,
        failure: None,
        installed: false,
        written: Seq::empty(),
        candidate: None,
        authority: false,
        checkpointed: false,
        read: None,
        live: None,
    }
    &&& forall|i: int|
        0 <= i < events.len() ==> import_moves(
            modules,
            adopt,
            #[trigger] events[i],
            moments[i],
            moments[i + 1],
        )
}

/// Whether the path of the module at position `i` is a module path that no earlier module has.
pub open spec fn has_own_path(modules: Seq<LogicalModuleDocument>, i: int) -> bool {
    is_module_path(modules[i].path@) && !path_repeats(modules, i)
}

spec fn import_invariant<E>(
    modules: Seq<LogicalModuleDocument>,
    moment: ImportMoment<E>,
) -> bool {
    let over = moment.step is CleanUp || moment.step is Finished;
    let judged = moment.index + (if moment.step is WriteModule {
        1int
    } else {
        0
    });
    &&& 0 <= moment.index <= modules.len()
    &&& moment.step is IdentifyModule || moment.step is WriteModule ==> moment.index
        < modules.len()
    &&& moment.failure is Some ==> over
    &&& moment.installed == (over && moment.failure is None)
    &&& forall|j: int| 0 <= j < judged ==> #[trigger] has_own_path(modules, j)
    &&& match moment.step {
        ImportStep::MakeDirectory | ImportStep::WriteConfig | ImportStep::LoadConfig => moment.index
            == 0,
        ImportStep::IdentifyModule | ImportStep::WriteModule => true,
        ImportStep::CleanUp | ImportStep::Finished => moment.failure is None ==> moment.index
            == modules.len(),
        _ => moment.index == modules.len(),
    }
}

proof fn lemma_import_run<E>(
    modules: Seq<LogicalModuleDocument>,
    adopt: bool,
    events: Seq<ImportEvent<E>>,
    moments: Seq<ImportMoment<E>>,
    i: int,
)
    requires
        is_import_run(modules, adopt, events, moments),
        0 <= i < moments.len(),
    ensures
        import_invariant(modules, moments[i]),
    decreases i,
{
    if i > 0 {
        lemma_import_run(modules, adopt, events, moments, i - 1);
        let event = events[i - 1];
        let before = moments[i - 1];
        assert(import_moves(modules, adopt, event, before, moments[i]));
        if before.step is IdentifyModule && moments[i].step is WriteModule {
            assert(has_own_path(modules, before.index));
        }
    }
}

/// Whatever the events of an import are: the live Database is replaced exactly where the import
/// ends without a failure, and then every module was judged and has a module path of its own.
pub proof fn law_only_clean_imports_are_installed<E>(
    modules: Seq<LogicalModuleDocument>,
    adopt: bool,
    events: Seq<ImportEvent<E>>,
    moments: Seq<ImportMoment<E>>,
    i: int,
)
    requires
        is_import_run(modules, adopt, events, moments),
        0 <= i < moments.len(),
    ensures
        moments[i].failure is Some ==> !moments[i].installed,
        moments[i].step is Finished && moments[i].failure is None ==> moments[i].installed,
        moments[i].installed ==> moments[i].index == modules.len() && forall|j: int|
            0 <= j < modules.len() ==> #[trigger] has_own_path(modules, j),
{
    lemma_import_run(modules, adopt, events, moments, i);
}

/// The modules of a package, path and source, in order.
pub open spec fn package_contents(modules: Seq<LogicalModuleDocument>) -> Seq<
    (Seq<char>, Seq<char>),
> {
    Seq::new(modules.len(), |j: int| (modules[j].path@, modules[j].source@))
}

/// The position in a run at which an import comes to a step before its clean-up.
spec fn import_position(step: ImportStep, index: int, count: int, adopt: bool) -> int {
    let adopting = if adopt {
        3int
    } else {
        0
    };
    match step {
        ImportStep::MakeDirectory => 0,
        ImportStep::WriteConfig => 1,
        ImportStep::LoadConfig => 2,
        ImportStep::IdentifyModule => 3 + 2 * index,
        ImportStep::WriteModule => 4 + 2 * index,
        ImportStep::Compile => 3 + 2 * count,
        ImportStep::OpenCandidate => 4 + 2 * count,
        ImportStep::AdoptCandidate => 5 + 2 * count,
        ImportStep::CheckpointCandidate => 6 + 2 * count,
        ImportStep::ReadCandidate => 4 + 2 * count + adopting,
        _ => 5 + 2 * count + adopting,
    }
}

spec fn import_contents<E>(
    modules: Seq<LogicalModuleDocument>,
    adopt: bool,
    moment: ImportMoment<E>,
    i: int,
) -> bool {
    let all = package_contents(modules);
    &&& 0 <= moment.index <= modules.len()
    &&& moment.written == all.take(moment.index)
    &&& moment.installed ==> moment.live == Some(all) && moment.read == Some(all)
        && moment.candidate == Some(all) && moment.authority == adopt && moment.checkpointed
        == adopt
    &&& !moment.installed ==> moment.live is None
    &&& match moment.step {
        ImportStep::CleanUp | ImportStep::Finished => true,
        _ => {
            &&& !moment.installed
            &&& i == import_position(moment.step, moment.index, modules.len() as int, adopt)
        },
    }
    &&& match moment.step {
        ImportStep::MakeDirectory | ImportStep::WriteConfig | ImportStep::LoadConfig => moment.index
            == 0 && !moment.authority && !moment.checkpointed,
        ImportStep::IdentifyModule | ImportStep::WriteModule => moment.index < modules.len()
            && !moment.authority && !moment.checkpointed,
        ImportStep::Compile => moment.index == modules.len() && !moment.authority
            && !moment.checkpointed,
        ImportStep::OpenCandidate | ImportStep::AdoptCandidate => adopt && moment.index
            == modules.len() && moment.candidate == Some(all) && !moment.authority
            && !moment.checkpointed,
        ImportStep::CheckpointCandidate => adopt && moment.index == modules.len()
            && moment.candidate == Some(all) && moment.authority && !moment.checkpointed,
        ImportStep::ReadCandidate => moment.index == modules.len() && moment.candidate == Some(all)
            && moment.authority == adopt && moment.checkpointed == adopt,
        ImportStep::Install => moment.index == modules.len() && moment.candidate == Some(all)
            && moment.read == Some(all) && moment.authority == adopt && moment.checkpointed
            == adopt,
        _ => true,
    }
}

proof fn lemma_import_contents<E>(
    modules: Seq<LogicalModuleDocument>,
    adopt: bool,
    events: Seq<ImportEvent<E>>,
    moments: Seq<ImportMoment<E>>,
    i: int,
)
    requires
        is_import_run(modules, adopt, events, moments),
        0 <= i < moments.len(),
    ensures
        import_contents(modules, adopt, moments[i], i),
    decreases i,
{
    let all = package_contents(modules);
    if i > 0 {
        lemma_import_contents(modules, adopt, events, moments, i - 1);
        let event = events[i - 1];
        let before = moments[i - 1];
        assert(import_moves(modules, adopt, event, before, moments[i]));
        if before.step is WriteModule && event is Done {
            assert(moments[i].written =~= all.take(moments[i].index));
        }
        assert(all.take(modules.len() as int) =~= all);
    } else {
        assert(moments[0].written =~= all.take(0));
    }
}

/// What an import installs is the package: where the live Database was replaced, then by bytes that
/// were read from a candidate compiled from all the modules, each with its own path and source in
/// the package's order. The candidate had server authority, and was checkpointed with it, exactly
/// where the import adopts. Without a replacement nothing of the package is live.
pub proof fn law_imports_install_the_package<E>(
    modules: Seq<LogicalModuleDocument>,
    adopt: bool,
    events: Seq<ImportEvent<E>>,
    moments: Seq<ImportMoment<E>>,
    i: int,
)
    requires
        is_import_run(modules, adopt, events, moments),
        0 <= i < moments.len(),
    ensures
        moments[i].installed <==> moments[i].live is Some,
        moments[i].live matches Some(live) ==> {
            &&& moments[i].read == Some(live)
            &&& moments[i].candidate == Some(live)
            &&& live.len() == modules.len()
            &&& forall|j: int|
                0 <= j < live.len() ==> #[trigger] live[j] == (modules[j].path@, modules[j].source@)
            &&& moments[i].authority == adopt
            &&& moments[i].checkpointed == adopt
        },
{
    lemma_import_contents(modules, adopt, events, moments, i);
}

/// Whatever the events of an import are: it comes to the replacement of the live Database only
/// from a candidate that was just read, which was compiled before. Where the import adopts, the
/// candidate was opened, adopted and checkpointed in between, and nothing else happened there.
pub proof fn law_installs_follow_the_read_candidate<E>(
    modules: Seq<LogicalModuleDocument>,
    adopt: bool,
    events: Seq<ImportEvent<E>>,
    moments: Seq<ImportMoment<E>>,
    i: int,
)
    requires
        is_import_run(modules, adopt, events, moments),
        0 <= i < moments.len(),
        moments[i].step is Install,
    ensures
        i >= 5 + (if adopt {
            3int
        } else {
            0
        }),
        moments[i - 1].step is ReadCandidate && events[i - 1] is Done,
        !adopt ==> moments[i - 2].step is Compile && events[i - 2] is Done,
        adopt ==> {
            &&& moments[i - 2].step is CheckpointCandidate && events[i - 2] is Done
            &&& moments[i - 3].step is AdoptCandidate && events[i - 3] is Done
            &&& moments[i - 4].step is OpenCandidate && events[i - 4] is Done
            &&& moments[i - 5].step is Compile && events[i - 5] is Done
        },
{
    lemma_import_contents(modules, adopt, events, moments, i);
    assert(import_moves(modules, adopt, events[i - 1], moments[i - 1], moments[i]));
    lemma_import_contents(modules, adopt, events, moments, i - 1);
    assert(import_moves(modules, adopt, events[i - 2], moments[i - 2], moments[i - 1]));
    lemma_import_contents(modules, adopt, events, moments, i - 2);
    if adopt {
        assert(import_moves(modules, adopt, events[i - 3], moments[i - 3], moments[i - 2]));
        lemma_import_contents(modules, adopt, events, moments, i - 3);
        assert(import_moves(modules, adopt, events[i - 4], moments[i - 4], moments[i - 3]));
        lemma_import_contents(modules, adopt, events, moments, i - 4);
        assert(import_moves(modules, adopt, events[i - 5], moments[i - 5], moments[i - 4]));
        lemma_import_contents(modules, adopt, events, moments, i - 5);
    }
}

/// Whatever the events of an import are: it comes to compiling the package only after the
/// directory was made, the configuration was written and loaded, and every module was identified
/// without a fault and then written, in the package's order.
pub proof fn law_packages_are_compiled_whole<E>(
    modules: Seq<LogicalModuleDocument>,
    adopt: bool,
    events: Seq<ImportEvent<E>>,
    moments: Seq<ImportMoment<E>>,
    i: int,
)
    requires
        is_import_run(modules, adopt, events, moments),
        0 <= i < moments.len(),
        moments[i].step is Compile,
    ensures
        i == 3 + 2 * modules.len(),
        moments[0].step is MakeDirectory && events[0] is Done,
        moments[1].step is WriteConfig && events[1] is Done,
        moments[2].step is LoadConfig && events[2] is Done,
        forall|j: int|
            #![trigger moments[3 + 2 * j]]
            0 <= j < modules.len() ==> {
                &&& moments[3 + 2 * j].step is IdentifyModule && moments[3 + 2 * j].index == j
                &&& events[3 + 2 * j] == ImportEvent::<E>::Identity(ModuleIdentity::Same)
                &&& moments[4 + 2 * j].step is WriteModule && moments[4 + 2 * j].index == j
                &&& events[4 + 2 * j] is Done
            },
{
    lemma_import_contents(modules, adopt, events, moments, i);
    lemma_import_schedule(modules, adopt, events, moments, i, 0);
    lemma_import_schedule(modules, adopt, events, moments, i, 1);
    lemma_import_schedule(modules, adopt, events, moments, i, 2);
    assert forall|j: int| #![trigger moments[3 + 2 * j]] 0 <= j < modules.len() implies {
        &&& moments[3 + 2 * j].step is IdentifyModule && moments[3 + 2 * j].index == j
        &&& events[3 + 2 * j] == ImportEvent::<E>::Identity(ModuleIdentity::Same)
        &&& moments[4 + 2 * j].step is WriteModule && moments[4 + 2 * j].index == j
        &&& events[4 + 2 * j] is Done
    } by {
        lemma_import_schedule(modules, adopt, events, moments, i, 3 + 2 * j);
        lemma_import_schedule(modules, adopt, events, moments, i, 4 + 2 * j);
    }
}

proof fn lemma_import_schedule<E>(
    modules: Seq<LogicalModuleDocument>,
    adopt: bool,
    events: Seq<ImportEvent<E>>,
    moments: Seq<ImportMoment<E>>,
    i: int,
    k: int,
)
    requires
        is_import_run(modules, adopt, events, moments),
        0 <= k < i < moments.len(),
        moments[i].step is Compile,
    ensures
        !(moments[k].step is CleanUp) && !(moments[k].step is Finished),
        import_contents(modules, adopt, moments[k], k),
        import_moves(modules, adopt, events[k], moments[k], moments[k + 1]),
        !(moments[k + 1].step is CleanUp) && !(moments[k + 1].step is Finished),
    decreases i - k,
{
    if k + 1 < i {
        lemma_import_schedule(modules, adopt, events, moments, i, k + 1);
    }
    lemma_import_contents(modules, adopt, events, moments, k);
    assert(import_moves(modules, adopt, events[k], moments[k], moments[k + 1]));
}

/// Each step of an import is reached only in one way, and every import that made its directory ends
/// with its clean-up.
pub proof fn law_import_steps_follow_their_cause<E>(
    step: ImportStep,
    event: ImportEvent<E>,
    modules: Seq<LogicalModuleDocument>,
    index: int,
    adopt: bool,
)
    requires
        import_event_fits(step, event),
    ensures
        match import_next(step, event, modules, index, adopt) {
            ImportStep::MakeDirectory => false,
            ImportStep::WriteConfig => step is MakeDirectory && event is Done,
            ImportStep::LoadConfig => step is WriteConfig && event is Done,
            ImportStep::IdentifyModule => {
                ||| step is LoadConfig && event is Done && index < modules.len()
                ||| step is WriteModule && event is Done && index + 1 < modules.len()
            },
            ImportStep::WriteModule => step is IdentifyModule && module_fault(modules, index, event->Identity_0) is None,
            ImportStep::Compile => {
                ||| step is LoadConfig && event is Done && index >= modules.len()
                ||| step is WriteModule && event is Done && index + 1 >= modules.len()
            },
            ImportStep::OpenCandidate => step is Compile && event is Done && adopt,
            ImportStep::AdoptCandidate => step is OpenCandidate && event is Done,
            ImportStep::CheckpointCandidate => step is AdoptCandidate && event is Done,
            ImportStep::ReadCandidate => {
                ||| step is Compile && event is Done && !adopt
                ||| step is CheckpointCandidate && event is Done
            },
            ImportStep::Install => step is ReadCandidate && event is Done,
            ImportStep::CleanUp => {
                ||| (step is WriteConfig || step is LoadConfig || step is WriteModule || step is Compile || step is OpenCandidate || step is AdoptCandidate || step is CheckpointCandidate || step is ReadCandidate) && event !is Done
                ||| step is IdentifyModule && module_fault(modules, index, event->Identity_0) is Some
                ||| step is Install
            },
            ImportStep::Finished => {
                ||| step is MakeDirectory && event !is Done
                ||| step is CleanUp
            },
        },
{
}

/// A module is admitted exactly where its path is a module path that the platform reads as one
/// below the package, no earlier module has the path, and the configuration gives it the module's
/// identity. A bad path is told before a repeated one, and both before a bad identity.
pub proof fn law_modules_are_judged_by_path_and_identity(
    modules: Seq<LogicalModuleDocument>,
    i: int,
    identity: ModuleIdentity,
)
    ensures
        ({
            let bad_path = !is_module_path(modules[i].path@) || identity is Outside;
            let repeated = exists|j: int|
                0 <= j < i && (#[trigger] modules[j]).path@ == modules[i].path@;
            &&& module_fault(modules, i, identity) is None <==> !bad_path && !repeated && identity
                is Same
            &&& module_fault(modules, i, identity) == Some(ModuleFault::Path) <==> bad_path
            &&& module_fault(modules, i, identity) == Some(ModuleFault::Repeated) <==> !bad_path
                && repeated
            &&& module_fault(modules, i, identity) == Some(ModuleFault::Malformed) <==> !bad_path
                && !repeated && identity is Malformed
            &&& module_fault(modules, i, identity) == Some(ModuleFault::Different) <==> !bad_path
                && !repeated && identity is Different
        }),
{
}

/// An import that fails tells why in the words of what failed: the file system's failures are
/// internal, a package that does not load or compile is a bad query, a candidate that cannot be
/// used is an incompatible snapshot, and a failed replacement is told as it is. A clean-up that
/// fails changes nothing.
pub proof fn law_imports_tell_what_failed(
    step: ImportStep,
    event: ImportEvent<ProtocolFailure>,
    modules: Seq<LogicalModuleDocument>,
    index: int,
    before: Option<ImportFailure<ProtocolFailure>>,
    after: Option<ImportFailure<ProtocolFailure>>,
)
    requires
        import_event_fits(step, event),
        import_noted(step, event, modules, index, before, after),
    ensures
        event is Done ==> after == before,
        step is CleanUp ==> after == before,
        event matches ImportEvent::Failed(message) ==> step !is CleanUp ==> after is Some && {
            let told = import_failure_view(after->0);
            &&& told.message == message@
            &&& !told.retryable
            &&& told.code is QueryError <==> step is LoadConfig || step is Compile
            &&& told.code is SnapshotIncompatible <==> step is OpenCandidate || step
                is AdoptCandidate || step is CheckpointCandidate
            &&& told.code is InternalError <==> step is MakeDirectory || step is WriteConfig || step
                is WriteModule || step is ReadCandidate
        },
        event matches ImportEvent::NotInstalled(failure) ==> after is Some && import_failure_view(
            after->0,
        ) == failure@,
        event matches ImportEvent::Identity(identity) ==> (match module_fault(
            modules,
            index,
            identity,
        ) {
            None => after == before,
            Some(fault) => after is Some && {
                let told = import_failure_view(after->0);
                let path = modules[index].path@;
                &&& told.code is QueryError
                &&& !told.retryable
                &&& told.message == (match fault {
                    ModuleFault::Path => "invalid logical module path `"@ + path + "`"@,
                    ModuleFault::Repeated => "logical package repeats a module path"@,
                    ModuleFault::Malformed => "invalid stable Module ID"@,
                    ModuleFault::Different => "stable Module ID does not match nostdb.toml for "@
                        + path,
                })
            },
        }),
{
}

/// An import ends: each step leads to one of lower rank.
pub proof fn law_import_ends<E>(
    step: ImportStep,
    event: ImportEvent<E>,
    modules: Seq<LogicalModuleDocument>,
    index: int,
    adopt: bool,
)
    requires
        0 <= index <= modules.len(),
        step is IdentifyModule || step is WriteModule ==> index < modules.len(),
        import_event_fits(step, event),
    ensures
        ({
            let after = if step is WriteModule && event is Done {
                index + 1
            } else {
                index
            };
            import_rank(import_next(step, event, modules, index, adopt), modules.len() - after)
                < import_rank(step, modules.len() - index)
        }),
{
}

/// Each step of an import reports that it was done or what stopped it; looking at a module reports
/// its identity, an installation that was not made says so, and a finished import takes no report.
pub proof fn law_import_steps_report_their_outcome<E>(step: ImportStep, event: ImportEvent<E>)
    ensures
        import_event_fits(step, event) <==> match event {
            ImportEvent::Done => step !is IdentifyModule && step !is Finished,
            ImportEvent::Identity(_) => step is IdentifyModule,
            ImportEvent::NotInstalled(_) => step is Install,
            ImportEvent::Failed(_) => step !is IdentifyModule && step !is Install && step
                !is Finished,
        },
{
}

} // verus!
