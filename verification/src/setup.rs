//! Setting up a fresh data directory, and taking back what a failed set-up made.

use vstd::prelude::*;

use crate::config::{generate_credential, is_credential, DaemonConfig};
use crate::failure::ServerError;
use crate::path::{absolute_on, is_absolute_on, join, joined, place, placed, NativePath};
use crate::storage::{
    server_error_view, OPERATION_FILE, PENDING_FILE, PREVIOUS_FILE, STATE_FILE,
};
use crate::text::{join2, join3};

verus! {

/// Non-secret paths created by `nostd init`.
#[derive(Debug, PartialEq, Eq)]
pub struct InitializationReport {
    /// Newly written configuration file.
    pub config_path: String,
    /// Initialized daemon-owned data directory.
    pub data_directory: String,
    /// Ordinary client credential file. Its value is never returned here.
    pub query_credential_file: String,
    /// Administrative credential file. Its value is never returned here.
    pub admin_credential_file: String,
}

/// The directories of a data directory, in the order in which they are made.
pub open spec fn layout() -> Seq<Seq<char>> {
    seq!["databases"@, "snapshots"@, "locks"@, "recovery"@, "trash"@]
}

/// The directory at position `i` of the layout.
pub fn layout_directory(i: usize) -> (name: &'static str)
    requires
        i < 5,
    ensures
        name@ == layout()[i as int],
{
    match i {
        0 => "databases",
        1 => "snapshots",
        2 => "locks",
        3 => "recovery",
        _ => "trash",
    }
}

/// A file or an empty directory to remove.
#[derive(Debug, PartialEq, Eq)]
pub struct Removal {
    /// Its path.
    pub path: String,
    /// Whether it is a directory.
    pub directory: bool,
}

/// What is to be removed.
#[verifier::ext_equal]
pub struct RemovalView {
    /// Its path.
    pub path: Seq<char>,
    /// Whether it is a directory.
    pub directory: bool,
}

impl View for Removal {
    type V = RemovalView;

    open spec fn view(&self) -> RemovalView {
        RemovalView { path: self.path@, directory: self.directory }
    }
}

/// The views of removals.
pub open spec fn removals_view(removals: Seq<Removal>) -> Seq<RemovalView> {
    Seq::new(removals.len(), |i: int| removals[i]@)
}

/// A file below the data directory, to be removed.
pub open spec fn file_below(root: Seq<char>, name: Seq<char>) -> RemovalView {
    RemovalView { path: joined(root, name), directory: false }
}

/// A directory below the data directory, to be removed.
pub open spec fn directory_below(root: Seq<char>, name: Seq<char>) -> RemovalView {
    RemovalView { path: joined(root, name), directory: true }
}

/// The data directory itself, where the set-up made it.
pub open spec fn root_removal(root: Seq<char>, root_existed: bool) -> Seq<RemovalView> {
    if root_existed {
        Seq::empty()
    } else {
        seq![RemovalView { path: root, directory: true }]
    }
}

/// The first `created` directories of the layout, the last one first.
pub open spec fn created_removals(root: Seq<char>, created: nat) -> Seq<RemovalView>
    decreases created,
{
    if created == 0 {
        Seq::empty()
    } else {
        seq![directory_below(root, layout()[created - 1])] + created_removals(
            root,
            (created - 1) as nat,
        )
    }
}

/// What a set-up that made the first `created` directories takes back.
pub open spec fn setup_rollback(root: Seq<char>, root_existed: bool, created: nat) -> Seq<
    RemovalView,
> {
    created_removals(root, created) + root_removal(root, root_existed)
}

/// What a finished set-up of the data directory takes back when a later step fails.
pub open spec fn catalog_rollback(root: Seq<char>, root_existed: bool) -> Seq<RemovalView> {
    seq![
        file_below(root, PENDING_FILE@),
        file_below(root, PREVIOUS_FILE@),
        file_below(root, OPERATION_FILE@),
        file_below(root, STATE_FILE@),
    ] + created_removals(root, 5) + root_removal(root, root_existed)
}

fn push_removal(removals: &mut Vec<Removal>, path: String, directory: bool)
    ensures
        removals_view(final(removals)@) == removals_view(old(removals)@).push(
            RemovalView { path: path@, directory },
        ),
{
    let ghost before = removals@;
    let ghost view = path@;
    removals.push(Removal { path, directory });
    proof {
        assert(removals_view(removals@) =~= removals_view(before).push(
            RemovalView { path: view, directory },
        ));
    }
}

fn push_created(removals: &mut Vec<Removal>, root: &str, created: usize)
    requires
        created <= 5,
    ensures
        removals_view(final(removals)@) == removals_view(old(removals)@) + created_removals(
            root@,
            created as nat,
        ),
{
    let ghost start = removals_view(removals@);
    let mut left: usize = created;
    proof {
        assert(start =~= start + Seq::empty());
    }
    while left > 0
        invariant
            left <= created <= 5,
            start + created_removals(root@, created as nat) == removals_view(removals@)
                + created_removals(root@, left as nat),
        decreases left,
    {
        let ghost before = removals_view(removals@);
        push_removal(removals, join(root, layout_directory(left - 1)), true);
        proof {
            let item = directory_below(root@, layout()[left - 1]);
            assert(before + (seq![item] + created_removals(root@, (left - 1) as nat))
                =~= before.push(item) + created_removals(root@, (left - 1) as nat));
        }
        left = left - 1;
    }
    proof {
        assert(removals_view(removals@) + created_removals(root@, 0) =~= removals_view(removals@));
    }
}

fn push_root(removals: &mut Vec<Removal>, root: &str, root_existed: bool)
    ensures
        removals_view(final(removals)@) == removals_view(old(removals)@) + root_removal(
            root@,
            root_existed,
        ),
{
    let ghost before = removals_view(removals@);
    if !root_existed {
        push_removal(removals, root.to_owned(), true);
    }
    proof {
        assert(removals_view(removals@) =~= before + root_removal(root@, root_existed));
    }
}

/// What a set-up that made the first `created` directories takes back.
pub fn rollback_created_directories(root: &str, root_existed: bool, created: usize) -> (removals:
    Vec<Removal>)
    requires
        created <= 5,
    ensures
        removals_view(removals@) == setup_rollback(root@, root_existed, created as nat),
{
    let mut removals: Vec<Removal> = Vec::new();
    push_created(&mut removals, root, created);
    push_root(&mut removals, root, root_existed);
    proof {
        assert(removals_view(removals@) =~= setup_rollback(root@, root_existed, created as nat));
    }
    removals
}

fn push_catalog(removals: &mut Vec<Removal>, root: &str, root_existed: bool)
    ensures
        removals_view(final(removals)@) == removals_view(old(removals)@) + catalog_rollback(
            root@,
            root_existed,
        ),
{
    let ghost before = removals_view(removals@);
    push_removal(removals, join(root, PENDING_FILE), false);
    push_removal(removals, join(root, PREVIOUS_FILE), false);
    push_removal(removals, join(root, OPERATION_FILE), false);
    push_removal(removals, join(root, STATE_FILE), false);
    push_created(removals, root, 5);
    push_root(removals, root, root_existed);
    proof {
        assert(removals_view(removals@) =~= before + catalog_rollback(root@, root_existed));
    }
}

/// The credential files that were made, the last one first.
pub open spec fn credential_removals(
    config: DaemonConfig,
    query_created: bool,
    admin_created: bool,
) -> Seq<RemovalView> {
    (if admin_created {
        seq![
            RemovalView {
                path: config.authentication.admin_credential_file@,
                directory: false,
            },
        ]
    } else {
        Seq::empty()
    }) + (if query_created {
        seq![
            RemovalView {
                path: config.authentication.query_credential_file@,
                directory: false,
            },
        ]
    } else {
        Seq::empty()
    })
}

/// What an initialization takes back when its credentials or its configuration cannot be written.
pub open spec fn initialization_rollback(
    config: DaemonConfig,
    root_existed: bool,
    query_created: bool,
    admin_created: bool,
) -> Seq<RemovalView> {
    credential_removals(config, query_created, admin_created).push(
        directory_below(config.data_directory@, "credentials"@),
    ) + catalog_rollback(config.data_directory@, root_existed)
}

/// What an initialization takes back when its credentials or its configuration cannot be written.
pub fn rollback_initialization(
    config: &DaemonConfig,
    root_existed: bool,
    query_created: bool,
    admin_created: bool,
) -> (removals: Vec<Removal>)
    ensures
        removals_view(removals@) == initialization_rollback(
            *config,
            root_existed,
            query_created,
            admin_created,
        ),
{
    let mut removals: Vec<Removal> = Vec::new();
    if admin_created {
        push_removal(&mut removals, config.authentication.admin_credential_file.clone(), false);
    }
    if query_created {
        push_removal(&mut removals, config.authentication.query_credential_file.clone(), false);
    }
    proof {
        assert(removals_view(removals@) =~= credential_removals(
            *config,
            query_created,
            admin_created,
        ));
    }
    push_removal(&mut removals, join(config.data_directory.as_str(), "credentials"), true);
    push_catalog(&mut removals, config.data_directory.as_str(), root_existed);
    removals
}

/// What came of a removal: gone, or still there for this reason.
#[derive(Debug, PartialEq, Eq)]
pub enum RemovalOutcome {
    /// It is gone, or never was there.
    Gone,
    /// It could not be removed.
    Left(String),
}

/// The texts of the removals that failed.
pub open spec fn removal_failures(
    removals: Seq<RemovalView>,
    outcomes: Seq<RemovalOutcome>,
    count: nat,
) -> Seq<Seq<char>>
    decreases count,
{
    if count == 0 {
        Seq::empty()
    } else {
        let front = removal_failures(removals, outcomes, (count - 1) as nat);
        match outcomes[count - 1] {
            RemovalOutcome::Gone => front,
            RemovalOutcome::Left(error) => front.push(
                "cannot remove "@ + removals[count - 1].path + ": "@ + error@,
            ),
        }
    }
}

/// Texts one after the other with `; ` between them.
pub open spec fn listed(texts: Seq<Seq<char>>) -> Seq<char>
    decreases texts.len(),
{
    if texts.len() == 0 {
        Seq::empty()
    } else if texts.len() == 1 {
        texts[0]
    } else {
        listed(texts.drop_last()) + "; "@ + texts.last()
    }
}

/// Whether all removals succeeded, or the texts of those that failed.
pub fn removal_report(removals: &Vec<Removal>, outcomes: &Vec<RemovalOutcome>) -> (result: Result<
    (),
    ServerError,
>)
    requires
        outcomes@.len() == removals@.len(),
    ensures
        ({
            let failures = removal_failures(
                removals_view(removals@),
                outcomes@,
                removals@.len(),
            );
            match result {
                Ok(()) => failures.len() == 0,
                Err(error) => failures.len() > 0 && error@ == listed(failures),
            }
        }),
{
    let ghost views = removals_view(removals@);
    let mut text: Option<String> = None;
    let mut i: usize = 0;
    while i < removals.len()
        invariant
            i <= removals@.len(),
            outcomes@.len() == removals@.len(),
            views == removals_view(removals@),
            match text {
                None => removal_failures(views, outcomes@, i as nat).len() == 0,
                Some(text) => removal_failures(views, outcomes@, i as nat).len() > 0 && text@
                    == listed(removal_failures(views, outcomes@, i as nat)),
            },
        decreases removals.len() - i,
    {
        let ghost front = removal_failures(views, outcomes@, i as nat);
        match &outcomes[i] {
            RemovalOutcome::Gone => {},
            RemovalOutcome::Left(error) => {
                let prefix = join3("cannot remove ", removals[i].path.as_str(), ": ");
                let failure = join2(prefix.as_str(), error.as_str());
                proof {
                    assert(views[i as int].path == removals@[i as int].path@);
                    let after = front.push(failure@);
                    assert(after.drop_last() =~= front);
                    assert(removal_failures(views, outcomes@, (i + 1) as nat) == after);
                }
                text = match text {
                    None => Some(failure),
                    Some(earlier) => Some(join3(earlier.as_str(), "; ", failure.as_str())),
                };
            },
        }
        i = i + 1;
    }
    match text {
        None => Ok(()),
        Some(text) => Err(ServerError(text)),
    }
}

/// The failure of a set-up, with what its roll-back left undone.
pub open spec fn rolled_back_text(
    error: Seq<char>,
    scope: Seq<char>,
    report: Result<(), ServerError>,
) -> Seq<char> {
    match report {
        Ok(()) => error,
        Err(rest) => error + "; "@ + scope + " rollback was incomplete: "@ + rest@,
    }
}

/// The failure of a set-up, with what its roll-back left undone.
pub fn rolled_back(error: ServerError, scope: &str, report: Result<(), ServerError>) -> (failure:
    ServerError)
    ensures
        failure@ == rolled_back_text(error@, scope@, report),
{
    match report {
        Ok(()) => error,
        Err(rest) => {
            let prefix = join3(error.text(), "; ", scope);
            ServerError(join3(prefix.as_str(), " rollback was incomplete: ", rest.text()))
        },
    }
}

/// What a look at the data directory's place finds.
#[derive(Debug, PartialEq, Eq)]
pub enum RootLook {
    /// Nothing is there.
    Missing,
    /// An empty directory.
    Empty,
    /// A directory that holds something.
    Occupied,
    /// It could not be read.
    Unreadable(String),
}

/// Where the set-up of a data directory stands.
#[derive(Clone, Copy, Debug, PartialEq, Eq, Structural)]
pub enum SetupStep {
    /// Look at the data directory's place.
    Look,
    /// Make the data directory.
    MakeRoot,
    /// Make the next directory of the layout.
    MakeDirectory,
    /// Write the first catalog.
    WriteCatalog,
    /// Take back what was made.
    RollBack,
    /// The set-up is over.
    Finished,
}

/// What came of a step of a set-up.
#[derive(Debug, PartialEq, Eq)]
pub enum SetupEvent {
    /// What the look found.
    Found(RootLook),
    /// The step succeeded.
    Done,
    /// The step failed.
    Failed(String),
    /// What the roll-back left.
    RolledBack(Result<(), ServerError>),
}

/// The set-up of a data directory.
pub struct CatalogSetup {
    /// The data directory.
    pub root: String,
    /// Whether it was there before.
    pub root_existed: bool,
    /// How many directories of the layout were made.
    pub created: usize,
    /// Where the set-up stands.
    pub step: SetupStep,
    /// The failure that it reports in the end, if any.
    pub error: Option<ServerError>,
}

/// The reports that a step can have.
pub open spec fn setup_event_fits(step: SetupStep, event: SetupEvent) -> bool {
    match step {
        SetupStep::Look => event is Found,
        SetupStep::RollBack => event is RolledBack,
        SetupStep::Finished => false,
        _ => event is Done || event is Failed,
    }
}

/// The step that follows `step` after `event` when `created` directories were made before.
pub open spec fn setup_next(step: SetupStep, event: SetupEvent, created: nat) -> SetupStep {
    match step {
        SetupStep::Look => match event {
            SetupEvent::Found(RootLook::Missing) => SetupStep::MakeRoot,
            SetupEvent::Found(RootLook::Empty) => SetupStep::MakeDirectory,
            _ => SetupStep::Finished,
        },
        SetupStep::MakeRoot => if event is Done {
            SetupStep::MakeDirectory
        } else {
            SetupStep::RollBack
        },
        SetupStep::MakeDirectory => if event is Done {
            if created + 1 < 5 {
                SetupStep::MakeDirectory
            } else {
                SetupStep::WriteCatalog
            }
        } else {
            SetupStep::RollBack
        },
        SetupStep::WriteCatalog => if event is Done {
            SetupStep::Finished
        } else {
            SetupStep::RollBack
        },
        _ => SetupStep::Finished,
    }
}

/// What a set-up reports after `event` at `step`.
pub open spec fn setup_error(
    root: Seq<char>,
    step: SetupStep,
    event: SetupEvent,
    error: Option<Seq<char>>,
) -> Option<Seq<char>> {
    match event {
        SetupEvent::Found(RootLook::Occupied) => Some(
            "data directory "@ + root + " is not empty; init never adopts existing files"@,
        ),
        SetupEvent::Found(RootLook::Unreadable(message)) => Some(
            "cannot inspect data directory "@ + root + ": "@ + message@,
        ),
        SetupEvent::Failed(message) => match step {
            SetupStep::MakeRoot => Some("cannot create data directory "@ + root + ": "@ + message@),
            SetupStep::MakeDirectory => Some("cannot create data layout: "@ + message@),
            _ => Some(message@),
        },
        SetupEvent::RolledBack(report) => match error {
            Some(text) => Some(rolled_back_text(text, "catalog initialization"@, report)),
            None => None,
        },
        _ => error,
    }
}

impl CatalogSetup {
    /// The set-up never counts more directories than the layout has.
    pub open spec fn well_formed(self) -> bool {
        &&& self.created <= 5
        &&& self.step is Look || self.step is MakeRoot ==> self.created == 0
        &&& self.step is MakeDirectory ==> self.created < 5
        &&& self.step is RollBack ==> self.error is Some
    }

    /// Starts setting up a data directory.
    pub fn start(root: &str) -> (setup: Self)
        ensures
            setup.root@ == root@,
            setup.created == 0,
            setup.step is Look,
            setup.error is None,
            setup.well_formed(),
    {
        CatalogSetup {
            root: root.to_owned(),
            root_existed: true,
            created: 0,
            step: SetupStep::Look,
            error: None,
        }
    }

    /// Takes in what came of the step.
    pub fn advance(&mut self, event: SetupEvent)
        requires
            old(self).well_formed(),
            setup_event_fits(old(self).step, event),
        ensures
            final(self).well_formed(),
            final(self).root == old(self).root,
            final(self).root_existed == (if event is Found {
                event->Found_0 !is Missing
            } else {
                old(self).root_existed
            }),
            final(self).created == old(self).created + (if old(self).step is MakeDirectory
                && event is Done {
                1int
            } else {
                0
            }),
            final(self).step == setup_next(old(self).step, event, old(self).created as nat),
            server_error_view(final(self).error) == setup_error(
                old(self).root@,
                old(self).step,
                event,
                server_error_view(old(self).error),
            ),
    {
        match event {
            SetupEvent::Found(look) => match look {
                RootLook::Missing => {
                    self.root_existed = false;
                    self.step = SetupStep::MakeRoot;
                },
                RootLook::Empty => {
                    self.root_existed = true;
                    self.step = SetupStep::MakeDirectory;
                },
                RootLook::Occupied => {
                    self.root_existed = true;
                    self.step = SetupStep::Finished;
                    self.error = Some(
                        ServerError(
                            join3(
                                "data directory ",
                                self.root.as_str(),
                                " is not empty; init never adopts existing files",
                            ),
                        ),
                    );
                },
                RootLook::Unreadable(message) => {
                    self.root_existed = true;
                    self.step = SetupStep::Finished;
                    let prefix = join3("cannot inspect data directory ", self.root.as_str(), ": ");
                    self.error = Some(ServerError(join2(prefix.as_str(), message.as_str())));
                },
            },
            SetupEvent::Done => match self.step {
                SetupStep::MakeRoot => {
                    self.step = SetupStep::MakeDirectory;
                },
                SetupStep::MakeDirectory => {
                    self.created = self.created + 1;
                    if self.created == 5 {
                        self.step = SetupStep::WriteCatalog;
                    }
                },
                _ => {
                    self.step = SetupStep::Finished;
                },
            },
            SetupEvent::Failed(message) => {
                self.error = Some(
                    match self.step {
                        SetupStep::MakeRoot => {
                            let prefix = join3(
                                "cannot create data directory ",
                                self.root.as_str(),
                                ": ",
                            );
                            ServerError(join2(prefix.as_str(), message.as_str()))
                        },
                        SetupStep::MakeDirectory => ServerError(
                            join2("cannot create data layout: ", message.as_str()),
                        ),
                        _ => ServerError(message),
                    },
                );
                self.step = SetupStep::RollBack;
            },
            SetupEvent::RolledBack(report) => {
                self.error = match self.error.take() {
                    Some(error) => Some(rolled_back(error, "catalog initialization", report)),
                    None => None,
                };
                self.step = SetupStep::Finished;
            },
        }
    }

    /// What the roll-back removes.
    pub fn removals(&self) -> (removals: Vec<Removal>)
        requires
            self.well_formed(),
        ensures
            removals_view(removals@) == setup_rollback(
                self.root@,
                self.root_existed,
                self.created as nat,
            ),
    {
        rollback_created_directories(self.root.as_str(), self.root_existed, self.created)
    }

    /// What the set-up reports once it is over.
    pub fn result(self) -> (result: Result<(), ServerError>)
        requires
            self.step is Finished,
        ensures
            result == (match self.error {
                Some(error) => Err::<(), ServerError>(error),
                None => Ok::<(), ServerError>(()),
            }),
    {
        match self.error {
            Some(error) => Err(error),
            None => Ok(()),
        }
    }
}

/// Whether a list of removals names a path.
pub open spec fn removes(removals: Seq<RemovalView>, path: Seq<char>) -> bool {
    exists|i: int| 0 <= i < removals.len() && (#[trigger] removals[i]).path == path
}

/// What is left of the paths in `world` once the removals are carried out.
pub open spec fn removed(world: Set<Seq<char>>, removals: Seq<RemovalView>) -> Set<Seq<char>> {
    Set::new(|path: Seq<char>| world.contains(path) && !removes(removals, path))
}

/// The paths of the first `created` directories of the layout.
pub open spec fn layout_paths(root: Seq<char>, created: nat) -> Set<Seq<char>> {
    Set::new(
        |path: Seq<char>|
            exists|i: int| 0 <= i < created && path == joined(root, #[trigger] layout()[i]),
    )
}

/// The paths that are there once the data directory and the first `created` directories of its
/// layout are made.
pub open spec fn with_layout(world: Set<Seq<char>>, root: Seq<char>, created: nat) -> Set<
    Seq<char>,
> {
    world.insert(root).union(layout_paths(root, created))
}

/// The paths that are there once a data directory is set up.
pub open spec fn with_data(world: Set<Seq<char>>, root: Seq<char>) -> Set<Seq<char>> {
    with_layout(world, root, 5).insert(joined(root, STATE_FILE@))
}

proof fn lemma_removes_either(a: Seq<RemovalView>, b: Seq<RemovalView>, path: Seq<char>)
    ensures
        removes(a + b, path) <==> removes(a, path) || removes(b, path),
{
    let both = a + b;
    if removes(both, path) {
        let i = choose|i: int| 0 <= i < both.len() && (#[trigger] both[i]).path == path;
        if i < a.len() {
            assert(a[i].path == path);
        } else {
            assert(b[i - a.len()].path == path);
        }
    }
    if removes(a, path) {
        let i = choose|i: int| 0 <= i < a.len() && (#[trigger] a[i]).path == path;
        assert(both[i].path == path);
    }
    if removes(b, path) {
        let i = choose|i: int| 0 <= i < b.len() && (#[trigger] b[i]).path == path;
        assert(both[i + a.len()].path == path);
    }
}

proof fn lemma_removes_one(item: RemovalView, path: Seq<char>)
    ensures
        removes(seq![item], path) <==> item.path == path,
        !removes(Seq::empty(), path),
{
    assert(seq![item][0] == item);
}

proof fn lemma_removes_created(root: Seq<char>, created: nat, path: Seq<char>)
    requires
        created <= 5,
    ensures
        removes(created_removals(root, created), path) <==> layout_paths(root, created).contains(
            path,
        ),
    decreases created,
{
    if created > 0 {
        let item = directory_below(root, layout()[created - 1]);
        let rest = created_removals(root, (created - 1) as nat);
        lemma_removes_either(seq![item], rest, path);
        lemma_removes_one(item, path);
        lemma_removes_created(root, (created - 1) as nat, path);
        let all = layout_paths(root, created);
        let fewer = layout_paths(root, (created - 1) as nat);
        if all.contains(path) && item.path != path {
            let i = choose|i: int|
                0 <= i < created && path == joined(root, #[trigger] layout()[i]);
            assert(i != created - 1);
            assert(fewer.contains(path));
        }
        if fewer.contains(path) {
            let i = choose|i: int|
                0 <= i < created - 1 && path == joined(root, #[trigger] layout()[i]);
            assert(0 <= i < created && path == joined(root, layout()[i]));
        }
        if item.path == path {
            assert(path == joined(root, layout()[created - 1]));
        }
    }
}

proof fn lemma_removes_root(root: Seq<char>, root_existed: bool, path: Seq<char>)
    ensures
        removes(root_removal(root, root_existed), path) <==> !root_existed && path == root,
{
    lemma_removes_one(RemovalView { path: root, directory: true }, path);
}

proof fn lemma_removes_setup(root: Seq<char>, root_existed: bool, created: nat, path: Seq<char>)
    requires
        created <= 5,
    ensures
        removes(setup_rollback(root, root_existed, created), path) <==> layout_paths(
            root,
            created,
        ).contains(path) || (!root_existed && path == root),
{
    lemma_removes_either(
        created_removals(root, created),
        root_removal(root, root_existed),
        path,
    );
    lemma_removes_created(root, created, path);
    lemma_removes_root(root, root_existed, path);
}

/// Whether `path` is directly below the data directory and belongs to a daemon.
pub open spec fn is_data_path(root: Seq<char>, path: Seq<char>) -> bool {
    ||| layout_paths(root, 5).contains(path)
    ||| path == joined(root, PENDING_FILE@)
    ||| path == joined(root, PREVIOUS_FILE@)
    ||| path == joined(root, OPERATION_FILE@)
    ||| path == joined(root, STATE_FILE@)
    ||| path == joined(root, "credentials"@)
}

/// Whether nothing that belongs to a daemon is below the data directory.
pub open spec fn data_is_free(world: Set<Seq<char>>, root: Seq<char>) -> bool {
    forall|path: Seq<char>| #[trigger] is_data_path(root, path) ==> !world.contains(path)
}

/// Whether these are files that a catalog write can leave where it fails and cannot remove them.
pub open spec fn are_catalog_strays(root: Seq<char>, strays: Set<Seq<char>>) -> bool {
    forall|path: Seq<char>| #[trigger]
        strays.contains(path) ==> path == joined(root, STATE_FILE@) || path == joined(
            root,
            PENDING_FILE@,
        )
}

/// One moment of a set-up.
pub struct SetupMoment {
    /// The step that the set-up stands at.
    pub step: SetupStep,
    /// Whether the data directory was there before.
    pub root_existed: bool,
    /// How many directories of the layout were made.
    pub created: nat,
    /// The failure that the set-up holds, if any.
    pub error: Option<Seq<char>>,
    /// Whether a roll-back reported that something is left.
    pub left: bool,
    /// The files that a failed catalog write left.
    pub strays: Set<Seq<char>>,
    /// The data directory's path and the paths below it that are there.
    pub world: Set<Seq<char>>,
}

/// Whether `event`, the paths in `after` and the files in `strays` can come of the step's work at
/// `before`. A catalog write that fails may leave files; a directory is only removed when it is
/// empty.
pub open spec fn setup_outcome(
    root: Seq<char>,
    event: SetupEvent,
    before: SetupMoment,
    after: Set<Seq<char>>,
    strays: Set<Seq<char>>,
) -> bool {
    let world = before.world;
    match before.step {
        SetupStep::Look => {
            &&& after == world
            &&& event == SetupEvent::Found(RootLook::Missing) ==> !world.contains(root)
                && data_is_free(world, root)
            &&& event == SetupEvent::Found(RootLook::Empty) ==> world.contains(root)
                && data_is_free(world, root)
        },
        SetupStep::MakeRoot => after == (if event is Done {
            world.insert(root)
        } else {
            world
        }),
        SetupStep::MakeDirectory => after == (if event is Done {
            world.insert(joined(root, layout()[before.created as int]))
        } else {
            world
        }),
        SetupStep::WriteCatalog => if event is Done {
            after == world.insert(joined(root, STATE_FILE@))
        } else {
            are_catalog_strays(root, strays) && after == world.union(strays)
        },
        SetupStep::RollBack => {
            let rest = removed(world, setup_rollback(root, before.root_existed, before.created));
            if event->RolledBack_0 is Ok {
                &&& after == rest
                &&& !before.root_existed ==> data_is_free(rest, root)
            } else {
                rest.subset_of(after) && after.subset_of(world)
            }
        },
        SetupStep::Finished => false,
    }
}

/// Whether `event` leads from one moment of a set-up to the next.
pub open spec fn setup_moves(
    root: Seq<char>,
    event: SetupEvent,
    before: SetupMoment,
    after: SetupMoment,
) -> bool {
    &&& setup_event_fits(before.step, event)
    &&& setup_outcome(root, event, before, after.world, after.strays)
    &&& before.step is WriteCatalog && event is Failed || after.strays == before.strays
    &&& after.step == setup_next(before.step, event, before.created)
    &&& after.root_existed == (if event is Found {
        event->Found_0 !is Missing
    } else {
        before.root_existed
    })
    &&& after.created == before.created + (if before.step is MakeDirectory && event is Done {
        1int
    } else {
        0
    })
    &&& after.error == setup_error(root, before.step, event, before.error)
    &&& after.left == (before.left || (event is RolledBack && event->RolledBack_0 is Err))
}

/// Whether `moments` is a set-up of `root` that starts among the paths in `start` and meets these
/// events.
pub open spec fn is_setup_run(
    root: Seq<char>,
    start: Set<Seq<char>>,
    events: Seq<SetupEvent>,
    moments: Seq<SetupMoment>,
) -> bool {
    &&& moments.len() == events.len() + 1
    &&& moments[0].step is Look
    &&& moments[0].created == 0
    &&& moments[0].error is None
    &&& !moments[0].left
    &&& moments[0].strays == Set::<Seq<char>>::empty()
    &&& moments[0].world == start
    &&& forall|i: int|
        0 <= i < events.len() ==> setup_moves(root, #[trigger] events[i], moments[i], moments[i + 1])
}

spec fn setup_rollback_restores(
    root: Seq<char>,
    start: Set<Seq<char>>,
    moment: SetupMoment,
) -> bool {
    let rest = removed(
        moment.world,
        setup_rollback(root, moment.root_existed, moment.created),
    );
    start.subset_of(rest) && rest.subset_of(start.union(moment.strays))
}

spec fn setup_invariant(root: Seq<char>, start: Set<Seq<char>>, moment: SetupMoment) -> bool {
    let known = moment.root_existed == start.contains(root) && data_is_free(start, root);
    let clean = moment.strays == Set::<Seq<char>>::empty();
    &&& start.subset_of(moment.world)
    &&& are_catalog_strays(root, moment.strays)
    &&& moment.step !is RollBack && moment.step !is Finished ==> clean
    &&& match moment.step {
        SetupStep::Look => moment.world == start && moment.created == 0 && moment.error is None
            && !moment.left,
        SetupStep::MakeRoot => known && moment.world == start && moment.created == 0
            && moment.error is None && !moment.left && !moment.root_existed,
        SetupStep::MakeDirectory => known && moment.created < 5 && moment.error is None
            && !moment.left && moment.world == with_layout(start, root, moment.created),
        SetupStep::WriteCatalog => known && moment.created == 5 && moment.error is None
            && !moment.left && moment.world == with_layout(start, root, 5),
        SetupStep::RollBack => known && moment.created <= 5 && moment.error is Some && !moment.left
            && setup_rollback_restores(root, start, moment),
        SetupStep::Finished => {
            &&& moment.error is None ==> {
                &&& clean
                &&& !moment.left
                &&& data_is_free(start, root)
                &&& moment.world == with_data(start, root)
            }
            &&& moment.error is Some && !moment.left ==> {
                &&& moment.world.subset_of(start.union(moment.strays))
                &&& !start.contains(root) ==> moment.world == start
            }
        },
    }
}

proof fn lemma_layout_grows(world: Set<Seq<char>>, root: Seq<char>, created: nat)
    requires
        created < 5,
    ensures
        with_layout(world, root, created).insert(joined(root, layout()[created as int]))
            == with_layout(world, root, created + 1),
        with_layout(world, root, 0) == world.insert(root),
{
    let fewer = layout_paths(root, created);
    let all = layout_paths(root, created + 1);
    let next = joined(root, layout()[created as int]);
    assert forall|path: Seq<char>| all.contains(path) == (fewer.contains(path) || path == next) by {
        if all.contains(path) && path != next {
            let i = choose|i: int|
                0 <= i < created + 1 && path == joined(root, #[trigger] layout()[i]);
            assert(0 <= i < created && path == joined(root, layout()[i]));
        }
        if fewer.contains(path) {
            let i = choose|i: int|
                0 <= i < created && path == joined(root, #[trigger] layout()[i]);
            assert(0 <= i < created + 1 && path == joined(root, layout()[i]));
        }
    }
    assert(with_layout(world, root, created).insert(next) =~= with_layout(world, root, created + 1));
    assert(with_layout(world, root, 0) =~= world.insert(root));
}

proof fn lemma_layout_part(root: Seq<char>, created: nat, path: Seq<char>)
    requires
        created <= 5,
        layout_paths(root, created).contains(path),
    ensures
        is_data_path(root, path),
{
    let i = choose|i: int| 0 <= i < created && path == joined(root, #[trigger] layout()[i]);
    assert(0 <= i < 5 && path == joined(root, layout()[i]));
    assert(layout_paths(root, 5).contains(path));
}

proof fn lemma_setup_is_taken_back(
    root: Seq<char>,
    root_existed: bool,
    created: nat,
    start: Set<Seq<char>>,
    strays: Set<Seq<char>>,
    world: Set<Seq<char>>,
)
    requires
        created <= 5,
        root_existed == start.contains(root),
        data_is_free(start, root),
        start.subset_of(world),
        world.subset_of(with_layout(start, root, created).union(strays)),
    ensures
        start.subset_of(removed(world, setup_rollback(root, root_existed, created))),
        removed(world, setup_rollback(root, root_existed, created)).subset_of(
            start.union(strays),
        ),
{
    let removals = setup_rollback(root, root_existed, created);
    assert forall|path: Seq<char>|
        (start.contains(path) ==> removed(world, removals).contains(path)) && (removed(
            world,
            removals,
        ).contains(path) ==> start.union(strays).contains(path)) by {
        lemma_removes_setup(root, root_existed, created, path);
        if layout_paths(root, created).contains(path) {
            lemma_layout_part(root, created, path);
        }
    }
}

proof fn lemma_setup_run(
    root: Seq<char>,
    start: Set<Seq<char>>,
    events: Seq<SetupEvent>,
    moments: Seq<SetupMoment>,
    i: int,
)
    requires
        is_setup_run(root, start, events, moments),
        0 <= i < moments.len(),
    ensures
        setup_invariant(root, start, moments[i]),
    decreases i,
{
    if i > 0 {
        lemma_setup_run(root, start, events, moments, i - 1);
        let event = events[i - 1];
        let before = moments[i - 1];
        let after = moments[i];
        assert(setup_moves(root, event, before, after));
        match before.step {
            SetupStep::MakeRoot => {
                lemma_layout_grows(start, root, 0);
                if event is Failed {
                    lemma_setup_is_taken_back(root, false, 0, start, after.strays, after.world);
                }
            },
            SetupStep::Look => {
                lemma_layout_grows(start, root, 0);
                if event == SetupEvent::Found(RootLook::Empty) {
                    assert(start.insert(root) =~= start);
                }
            },
            SetupStep::MakeDirectory => {
                lemma_layout_grows(start, root, before.created);
                if event is Failed {
                    lemma_setup_is_taken_back(
                        root,
                        before.root_existed,
                        before.created,
                        start,
                        after.strays,
                        after.world,
                    );
                }
            },
            SetupStep::WriteCatalog => {
                if event is Failed {
                    lemma_setup_is_taken_back(
                        root,
                        before.root_existed,
                        5,
                        start,
                        after.strays,
                        after.world,
                    );
                }
            },
            SetupStep::RollBack => {
                if event->RolledBack_0 is Ok && !before.root_existed {
                    assert forall|path: Seq<char>| after.world.contains(path) implies start.contains(
                        path,
                    ) by {
                        if before.strays.contains(path) {
                            assert(is_data_path(root, path));
                        }
                    }
                    assert(after.world =~= start);
                }
            },
            _ => {},
        }
    }
}

/// Whatever the events of a set-up are: nothing that was there goes; a set-up that ends with
/// success has made the data directory, its layout and its catalog, where none of it was before;
/// and one that fails, and whose roll-back reports nothing left, has taken back the data directory
/// where it was not there before, and else everything below it but the files of a catalog write
/// that failed and could not remove them.
pub proof fn law_failed_setup_is_taken_back(
    root: Seq<char>,
    start: Set<Seq<char>>,
    events: Seq<SetupEvent>,
    moments: Seq<SetupMoment>,
    i: int,
)
    requires
        is_setup_run(root, start, events, moments),
        0 <= i < moments.len(),
    ensures
        start.subset_of(moments[i].world),
        are_catalog_strays(root, moments[i].strays),
        moments[i].step is Finished && moments[i].error is None ==> data_is_free(start, root)
            && moments[i].world == with_data(start, root),
        moments[i].step is Finished && moments[i].error is Some && !moments[i].left ==> {
            &&& moments[i].world.subset_of(start.union(moments[i].strays))
            &&& !start.contains(root) ==> moments[i].world == start
        },
{
    lemma_setup_run(root, start, events, moments, i);
}

/// What a look at the configuration's place finds.
#[derive(Debug, PartialEq, Eq)]
pub enum PathLook {
    /// Nothing is there.
    Free,
    /// Something is there.
    Taken,
    /// It could not be looked at.
    Unreadable(String),
}

/// What is wrong with a place where something new is to be written.
pub open spec fn new_path_error(path: Seq<char>, description: Seq<char>, look: PathLook) -> Option<
    Seq<char>,
> {
    match look {
        PathLook::Free => None,
        PathLook::Taken => Some(description + " path "@ + path + " already exists"@),
        PathLook::Unreadable(error) => Some(
            "cannot inspect "@ + description + " path "@ + path + ": "@ + error@,
        ),
    }
}

/// Checks that nothing is at a place where something new is to be written.
pub fn ensure_new_path(path: &str, description: &str, look: PathLook) -> (result: Result<
    (),
    ServerError,
>)
    ensures
        new_path_error(path@, description@, look) == (match result {
            Ok(()) => None,
            Err(error) => Some(error@),
        }),
{
    match look {
        PathLook::Free => Ok(()),
        PathLook::Taken => {
            let prefix = join3(description, " path ", path);
            Err(ServerError(join2(prefix.as_str(), " already exists")))
        },
        PathLook::Unreadable(error) => {
            let prefix = join3("cannot inspect ", description, " path ");
            let middle = join3(prefix.as_str(), path, ": ");
            Err(ServerError(join2(middle.as_str(), error.as_str())))
        },
    }
}

/// Makes a path absolute; `current` is what came of asking for the current directory, which is
/// only asked for where the path needs it, and `native` how the platform reads the path below it,
/// where it has to be asked.
pub fn absolute(
    path: &str,
    current: Result<String, String>,
    native: &Option<NativePath>,
) -> (result: Result<String, ServerError>)
    ensures
        match (is_absolute_on(path@, *native), current) {
            (true, _) => result is Ok && result->Ok_0@ == path@,
            (false, Ok(current)) => result is Ok && result->Ok_0@ == placed(
                current@,
                path@,
                *native,
            ),
            (false, Err(error)) => result is Err && result->Err_0@
                == "cannot resolve current directory: "@ + error@,
        },
{
    if absolute_on(path, native) {
        return Ok(path.to_owned());
    }
    match current {
        Ok(current) => Ok(place(current.as_str(), path, native)),
        Err(error) => Err(
            ServerError(join2("cannot resolve current directory: ", error.as_str())),
        ),
    }
}

/// Where an initialization stands.
#[derive(Clone, Copy, Debug, PartialEq, Eq, Structural)]
pub enum InitStep {
    /// Look at the configuration's place.
    LookAtConfig,
    /// Set up the data directory.
    SetUpData,
    /// Write the ordinary credential.
    WriteQueryCredential,
    /// Write the administrative credential.
    WriteAdminCredential,
    /// Write the configuration.
    WriteConfig,
    /// Take back what was made.
    RollBack,
    /// The initialization is over.
    Finished,
}

/// What came of a step of an initialization.
#[derive(Debug, PartialEq, Eq)]
pub enum InitEvent {
    /// What the look found.
    Found(PathLook),
    /// The step succeeded.
    Done,
    /// The step failed.
    Failed(ServerError),
    /// What the roll-back left.
    RolledBack(Result<(), ServerError>),
}

/// The reports that a step can have.
pub open spec fn init_event_fits(step: InitStep, event: InitEvent) -> bool {
    match step {
        InitStep::LookAtConfig => event is Found,
        InitStep::RollBack => event is RolledBack,
        InitStep::Finished => false,
        _ => event is Done || event is Failed,
    }
}

/// The step that follows `step` after `event`.
pub open spec fn init_next(step: InitStep, event: InitEvent) -> InitStep {
    match step {
        InitStep::LookAtConfig => if event == InitEvent::Found(PathLook::Free) {
            InitStep::SetUpData
        } else {
            InitStep::Finished
        },
        InitStep::SetUpData => if event is Done {
            InitStep::WriteQueryCredential
        } else {
            InitStep::Finished
        },
        InitStep::WriteQueryCredential => if event is Done {
            InitStep::WriteAdminCredential
        } else {
            InitStep::RollBack
        },
        InitStep::WriteAdminCredential => if event is Done {
            InitStep::WriteConfig
        } else {
            InitStep::RollBack
        },
        InitStep::WriteConfig => if event is Done {
            InitStep::Finished
        } else {
            InitStep::RollBack
        },
        _ => InitStep::Finished,
    }
}

/// What an initialization reports after `event` at `step`.
pub open spec fn init_error(
    config_path: Seq<char>,
    step: InitStep,
    event: InitEvent,
    error: Option<Seq<char>>,
) -> Option<Seq<char>> {
    match event {
        InitEvent::Found(look) => new_path_error(config_path, "configuration"@, look),
        InitEvent::Done => error,
        InitEvent::Failed(failure) => Some(failure@),
        InitEvent::RolledBack(report) => match error {
            Some(text) => Some(rolled_back_text(text, "initialization"@, report)),
            None => None,
        },
    }
}

/// The initialization of a daemon.
pub struct Initialization {
    /// Where the configuration is written.
    pub config_path: String,
    /// The configuration.
    pub config: DaemonConfig,
    /// The ordinary credential.
    pub query_credential: String,
    /// The administrative credential.
    pub admin_credential: String,
    /// Where the initialization stands.
    pub step: InitStep,
    /// Whether the ordinary credential was written.
    pub query_created: bool,
    /// Whether the administrative credential was written.
    pub admin_created: bool,
    /// The failure that it reports in the end, if any.
    pub error: Option<ServerError>,
}

impl Initialization {
    /// Starts an initialization with two fresh random credentials. `parsed` is what came of
    /// parsing `listen`.
    pub fn start(
        config_path: String,
        data_directory: String,
        listen: &str,
        parsed: &Result<String, String>,
    ) -> (result: Result<Self, ServerError>)
        ensures
            match (*parsed, result) {
                (Ok(_), Ok(init)) => {
                    &&& init.config_path == config_path
                    &&& init.config.data_directory == data_directory
                    &&& init.config.authentication.query_credential_file@ == joined(
                        joined(data_directory@, "credentials"@),
                        "client.token"@,
                    )
                    &&& init.config.authentication.admin_credential_file@ == joined(
                        joined(data_directory@, "credentials"@),
                        "admin.token"@,
                    )
                    &&& init.config.network.listen@ == listen@
                    &&& init.config.limits == crate::config::default_limits()
                    &&& init.config.config_version == crate::config::CONFIG_VERSION
                    &&& is_credential(init.query_credential@)
                    &&& is_credential(init.admin_credential@)
                    &&& init.step is LookAtConfig
                    &&& !init.query_created
                    &&& !init.admin_created
                    &&& init.error is None
                },
                (Err(error), Err(failure)) => failure@ == crate::config::listen_error_text(
                    listen@,
                    error@,
                ),
                _ => false,
            },
    {
        let config = DaemonConfig::new(data_directory, listen.to_owned());
        match config.listen_address(parsed) {
            Err(error) => Err(error),
            Ok(_) => Ok(
                Initialization {
                    config_path,
                    config,
                    query_credential: generate_credential(),
                    admin_credential: generate_credential(),
                    step: InitStep::LookAtConfig,
                    query_created: false,
                    admin_created: false,
                    error: None,
                },
            ),
        }
    }

    /// Takes in what came of the step.
    pub fn advance(&mut self, event: InitEvent)
        requires
            init_event_fits(old(self).step, event),
        ensures
            final(self).config_path == old(self).config_path,
            final(self).config == old(self).config,
            final(self).query_credential == old(self).query_credential,
            final(self).admin_credential == old(self).admin_credential,
            final(self).query_created == (old(self).query_created || (old(
                self,
            ).step is WriteQueryCredential && event is Done)),
            final(self).admin_created == (old(self).admin_created || (old(
                self,
            ).step is WriteAdminCredential && event is Done)),
            final(self).step == init_next(old(self).step, event),
            server_error_view(final(self).error) == init_error(
                old(self).config_path@,
                old(self).step,
                event,
                server_error_view(old(self).error),
            ),
    {
        match event {
            InitEvent::Found(look) => {
                let free: bool = matches!(look, PathLook::Free);
                self.error = match ensure_new_path(
                    self.config_path.as_str(),
                    "configuration",
                    look,
                ) {
                    Ok(()) => None,
                    Err(error) => Some(error),
                };
                self.step = if free {
                    InitStep::SetUpData
                } else {
                    InitStep::Finished
                };
            },
            InitEvent::Done => match self.step {
                InitStep::SetUpData => {
                    self.step = InitStep::WriteQueryCredential;
                },
                InitStep::WriteQueryCredential => {
                    self.query_created = true;
                    self.step = InitStep::WriteAdminCredential;
                },
                InitStep::WriteAdminCredential => {
                    self.admin_created = true;
                    self.step = InitStep::WriteConfig;
                },
                _ => {
                    self.step = InitStep::Finished;
                },
            },
            InitEvent::Failed(error) => {
                self.error = Some(error);
                self.step = match self.step {
                    InitStep::SetUpData => InitStep::Finished,
                    _ => InitStep::RollBack,
                };
            },
            InitEvent::RolledBack(report) => {
                self.error = match self.error.take() {
                    Some(error) => Some(rolled_back(error, "initialization", report)),
                    None => None,
                };
                self.step = InitStep::Finished;
            },
        }
    }

    /// What the initialization reports once it is over: paths, and no credential.
    pub fn result(self) -> (result: Result<InitializationReport, ServerError>)
        requires
            self.step is Finished,
        ensures
            match self.error {
                Some(error) => result == Err::<InitializationReport, ServerError>(error),
                None => result == Ok::<InitializationReport, ServerError>(
                    InitializationReport {
                        config_path: self.config_path,
                        data_directory: self.config.data_directory,
                        query_credential_file: self.config.authentication.query_credential_file,
                        admin_credential_file: self.config.authentication.admin_credential_file,
                    },
                ),
            },
    {
        match self.error {
            Some(error) => Err(error),
            None => Ok(
                InitializationReport {
                    config_path: self.config_path,
                    data_directory: self.config.data_directory,
                    query_credential_file: self.config.authentication.query_credential_file,
                    admin_credential_file: self.config.authentication.admin_credential_file,
                },
            ),
        }
    }
}

/// A configuration that is in the way is found before anything is made.
pub proof fn law_taken_configuration_stops_initialization(
    config_path: Seq<char>,
    look: PathLook,
)
    requires
        !(look is Free),
    ensures
        init_next(InitStep::LookAtConfig, InitEvent::Found(look)) is Finished,
        init_error(config_path, InitStep::LookAtConfig, InitEvent::Found(look), None) is Some,
{
}

/// The directory of the credentials.
pub open spec fn credential_directory(config: DaemonConfig) -> Seq<char> {
    joined(config.data_directory@, "credentials"@)
}

/// The paths that are there once the credential in `file` is written.
pub open spec fn with_credential(
    world: Set<Seq<char>>,
    config: DaemonConfig,
    file: Seq<char>,
) -> Set<Seq<char>> {
    world.insert(credential_directory(config)).insert(file)
}

/// The paths that are there once a daemon is initialized.
pub open spec fn with_daemon(
    world: Set<Seq<char>>,
    config: DaemonConfig,
    config_path: Seq<char>,
) -> Set<Seq<char>> {
    let data = with_data(world, config.data_directory@);
    let query = with_credential(data, config, config.authentication.query_credential_file@);
    with_credential(query, config, config.authentication.admin_credential_file@).insert(config_path)
}

/// One moment of an initialization.
pub struct InitMoment {
    /// The step that the initialization stands at.
    pub step: InitStep,
    /// Whether the ordinary credential was written.
    pub query_created: bool,
    /// Whether the administrative credential was written.
    pub admin_created: bool,
    /// The failure that the initialization holds, if any.
    pub error: Option<Seq<char>>,
    /// Whether a roll-back reported that something is left.
    pub left: bool,
    /// The files that failed writes left.
    pub strays: Set<Seq<char>>,
    /// The paths that are there: the configuration's, the data directory's and those below it.
    pub world: Set<Seq<char>>,
}

/// Whether the paths in `after` and the files in `strays` can come of writing the credential in
/// `file`. The directory is made first; a write that fails may leave its file.
pub open spec fn credential_outcome(
    config: DaemonConfig,
    file: Seq<char>,
    done: bool,
    before: Set<Seq<char>>,
    after: Set<Seq<char>>,
    strays: Set<Seq<char>>,
) -> bool {
    if done {
        !before.contains(file) && after == with_credential(before, config, file)
    } else {
        ||| strays == Set::<Seq<char>>::empty() && after == before
        ||| strays == Set::<Seq<char>>::empty() && after == before.insert(
            credential_directory(config),
        )
        ||| strays == Set::<Seq<char>>::empty().insert(file) && !before.contains(file) && after
            == with_credential(before, config, file)
    }
}

/// Whether the set-up of the data directory, begun among the paths of `before`, can end as `event`
/// and `after` say.
pub open spec fn set_up_ends(
    config: DaemonConfig,
    event: InitEvent,
    before: InitMoment,
    after: InitMoment,
) -> bool {
    exists|events: Seq<SetupEvent>, moments: Seq<SetupMoment>|
        #![trigger is_setup_run(config.data_directory@, before.world, events, moments)]
        {
            &&& is_setup_run(config.data_directory@, before.world, events, moments)
            &&& moments.last().step is Finished
            &&& event is Done <==> moments.last().error is None
            &&& after.world == moments.last().world
            &&& after.strays == moments.last().strays
            &&& after.left == moments.last().left
        }
}

/// Whether `event` and `after` can come of the step's work at `before`. `root_existed` says whether
/// the data directory was there before. A write that fails may leave its file; a directory is only
/// removed when it is empty, and the credentials are below theirs.
pub open spec fn init_outcome(
    config: DaemonConfig,
    config_path: Seq<char>,
    root_existed: bool,
    event: InitEvent,
    before: InitMoment,
    after: InitMoment,
) -> bool {
    let world = before.world;
    match before.step {
        InitStep::LookAtConfig => after.world == world && after.strays == before.strays && !after.left,
        InitStep::SetUpData => root_existed == world.contains(config.data_directory@)
            && set_up_ends(config, event, before, after),
        InitStep::WriteQueryCredential => !after.left && credential_outcome(
            config,
            config.authentication.query_credential_file@,
            event is Done,
            world,
            after.world,
            after.strays,
        ) && (event is Done ==> after.strays == before.strays),
        InitStep::WriteAdminCredential => !after.left && credential_outcome(
            config,
            config.authentication.admin_credential_file@,
            event is Done,
            world,
            after.world,
            after.strays,
        ) && (event is Done ==> after.strays == before.strays),
        InitStep::WriteConfig => !after.left && if event is Done {
            after.world == world.insert(config_path) && after.strays == before.strays
        } else {
            ||| after.world == world && after.strays == Set::<Seq<char>>::empty()
            ||| after.world == world.insert(config_path) && after.strays
                == Set::<Seq<char>>::empty().insert(config_path)
        },
        InitStep::RollBack => {
            let rest = removed(
                world,
                initialization_rollback(
                    config,
                    root_existed,
                    before.query_created,
                    before.admin_created,
                ),
            );
            &&& after.strays == before.strays
            &&& after.left == event->RolledBack_0 is Err
            &&& if event->RolledBack_0 is Ok {
                &&& after.world == rest
                &&& !rest.contains(config.authentication.query_credential_file@)
                &&& !rest.contains(config.authentication.admin_credential_file@)
            } else {
                rest.subset_of(after.world) && after.world.subset_of(world)
            }
        },
        InitStep::Finished => false,
    }
}

/// Whether `event` leads from one moment of an initialization to the next.
pub open spec fn init_moves(
    config: DaemonConfig,
    config_path: Seq<char>,
    root_existed: bool,
    event: InitEvent,
    before: InitMoment,
    after: InitMoment,
) -> bool {
    &&& init_event_fits(before.step, event)
    &&& init_outcome(config, config_path, root_existed, event, before, after)
    &&& after.step == init_next(before.step, event)
    &&& after.query_created == (before.query_created || (before.step is WriteQueryCredential
        && event is Done))
    &&& after.admin_created == (before.admin_created || (before.step is WriteAdminCredential
        && event is Done))
    &&& after.error == init_error(config_path, before.step, event, before.error)
}

/// Whether `moments` is an initialization that starts among the paths in `start` and meets these
/// events.
pub open spec fn is_init_run(
    config: DaemonConfig,
    config_path: Seq<char>,
    root_existed: bool,
    start: Set<Seq<char>>,
    events: Seq<InitEvent>,
    moments: Seq<InitMoment>,
) -> bool {
    &&& moments.len() == events.len() + 1
    &&& moments[0] == InitMoment {
        step: InitStep::LookAtConfig,
        query_created: false,
        admin_created: false,
        error: None,
        left: false,
        strays: Set::empty(),
        world: start,
    }
    &&& forall|i: int|
        0 <= i < events.len() ==> init_moves(
            config,
            config_path,
            root_existed,
            #[trigger] events[i],
            moments[i],
            moments[i + 1],
        )
}

proof fn lemma_removes_catalog(config: DaemonConfig, root_existed: bool, path: Seq<char>)
    ensures
        removes(catalog_rollback(config.data_directory@, root_existed), path) || path
            == credential_directory(config) <==> is_data_path(config.data_directory@, path) || (!root_existed
            && path == config.data_directory@),
{
    let root = config.data_directory@;
    let files = seq![
        file_below(root, PENDING_FILE@),
        file_below(root, PREVIOUS_FILE@),
        file_below(root, OPERATION_FILE@),
        file_below(root, STATE_FILE@),
    ];
    lemma_removes_either(
        files + created_removals(root, 5),
        root_removal(root, root_existed),
        path,
    );
    lemma_removes_either(files, created_removals(root, 5), path);
    lemma_removes_created(root, 5, path);
    lemma_removes_root(root, root_existed, path);
    assert(files[0].path == joined(root, PENDING_FILE@));
    assert(files[1].path == joined(root, PREVIOUS_FILE@));
    assert(files[2].path == joined(root, OPERATION_FILE@));
    assert(files[3].path == joined(root, STATE_FILE@));
}

proof fn lemma_removes_initialization(
    config: DaemonConfig,
    root_existed: bool,
    query_created: bool,
    admin_created: bool,
    path: Seq<char>,
)
    ensures
        removes(
            initialization_rollback(config, root_existed, query_created, admin_created),
            path,
        ) <==> is_data_path(config.data_directory@, path) || (!root_existed && path == config.data_directory@)
            || (query_created && path == config.authentication.query_credential_file@) || (
        admin_created && path == config.authentication.admin_credential_file@),
{
    let admin = RemovalView {
        path: config.authentication.admin_credential_file@,
        directory: false,
    };
    let query = RemovalView {
        path: config.authentication.query_credential_file@,
        directory: false,
    };
    let directory = directory_below(config.data_directory@, "credentials"@);
    let files = credential_removals(config, query_created, admin_created);
    let first = if admin_created { seq![admin] } else { Seq::empty() };
    let second = if query_created { seq![query] } else { Seq::empty() };
    assert(files =~= first + second);
    lemma_removes_either(first, second, path);
    lemma_removes_one(admin, path);
    lemma_removes_one(query, path);
    lemma_removes_one(directory, path);
    assert(files.push(directory) =~= files + seq![directory]);
    lemma_removes_either(files, seq![directory], path);
    lemma_removes_either(
        files.push(directory),
        catalog_rollback(config.data_directory@, root_existed),
        path,
    );
    lemma_removes_catalog(config, root_existed, path);
}

spec fn init_rollback_restores(
    config: DaemonConfig,
    root_existed: bool,
    start: Set<Seq<char>>,
    moment: InitMoment,
) -> bool {
    let rest = removed(
        moment.world,
        initialization_rollback(
            config,
            root_existed,
            moment.query_created,
            moment.admin_created,
        ),
    );
    start.subset_of(rest) && rest.subset_of(start.union(moment.strays))
}

spec fn init_invariant(
    config: DaemonConfig,
    config_path: Seq<char>,
    root_existed: bool,
    start: Set<Seq<char>>,
    moment: InitMoment,
) -> bool {
    let root = config.data_directory@;
    let data = with_data(start, root);
    let query_file = config.authentication.query_credential_file@;
    let admin_file = config.authentication.admin_credential_file@;
    let query = with_credential(data, config, query_file);
    let admin = with_credential(query, config, admin_file);
    let fresh = moment.error is None && !moment.left && moment.strays
        == Set::<Seq<char>>::empty();
    let working = {
        &&& fresh
        &&& root_existed == start.contains(root)
        &&& data_is_free(start, root)
        &&& moment.query_created ==> !start.contains(query_file)
        &&& moment.admin_created ==> !start.contains(admin_file)
    };
    &&& start.subset_of(moment.world)
    &&& match moment.step {
        InitStep::LookAtConfig | InitStep::SetUpData => fresh && moment.world == start
            && !moment.query_created && !moment.admin_created,
        InitStep::WriteQueryCredential => working && moment.world == data && !moment.query_created
            && !moment.admin_created,
        InitStep::WriteAdminCredential => working && moment.world == query && moment.query_created
            && !moment.admin_created,
        InitStep::WriteConfig => working && moment.world == admin && moment.query_created
            && moment.admin_created,
        InitStep::RollBack => moment.error is Some && !moment.left && init_rollback_restores(
            config,
            root_existed,
            start,
            moment,
        ) && forall|path: Seq<char>| #[trigger]
            moment.strays.contains(path) ==> path == query_file || path == admin_file || path
                == config_path,
        InitStep::Finished => {
            &&& moment.error is None ==> moment.world == with_daemon(start, config, config_path)
            &&& moment.error is Some && !moment.left ==> forall|path: Seq<char>| #[trigger]
                moment.world.contains(path) ==> start.contains(path) || is_init_stray(
                    config,
                    config_path,
                    start,
                    moment,
                    path,
                )
        },
    }
}

/// Whether `path` is a file that a failed write left and no roll-back takes back: the
/// configuration's, or, where the data directory was there before, the catalog's.
pub open spec fn is_init_stray(
    config: DaemonConfig,
    config_path: Seq<char>,
    start: Set<Seq<char>>,
    moment: InitMoment,
    path: Seq<char>,
) -> bool {
    let root = config.data_directory@;
    &&& moment.strays.contains(path)
    &&& path == config_path || (start.contains(root) && (path == joined(root, STATE_FILE@) || path
        == joined(root, PENDING_FILE@)))
}

proof fn lemma_initialization_is_taken_back(
    config: DaemonConfig,
    root_existed: bool,
    start: Set<Seq<char>>,
    moment: InitMoment,
)
    requires
        root_existed == start.contains(config.data_directory@),
        data_is_free(start, config.data_directory@),
        moment.query_created ==> !start.contains(
            config.authentication.query_credential_file@,
        ),
        moment.admin_created ==> !start.contains(
            config.authentication.admin_credential_file@,
        ),
        start.subset_of(moment.world),
        forall|path: Seq<char>| #[trigger]
            moment.world.contains(path) ==> start.contains(path) || moment.strays.contains(path)
                || is_data_path(config.data_directory@, path) || path == config.data_directory@ || (
            moment.query_created && path == config.authentication.query_credential_file@) || (
            moment.admin_created && path == config.authentication.admin_credential_file@),
    ensures
        init_rollback_restores(config, root_existed, start, moment),
{
    let removals = initialization_rollback(
        config,
        root_existed,
        moment.query_created,
        moment.admin_created,
    );
    let rest = removed(moment.world, removals);
    assert forall|path: Seq<char>|
        (start.contains(path) ==> rest.contains(path)) && (rest.contains(path) ==> start.union(
            moment.strays,
        ).contains(path)) by {
        lemma_removes_initialization(
            config,
            root_existed,
            moment.query_created,
            moment.admin_created,
            path,
        );
    }
}

proof fn lemma_set_up_ends(
    config: DaemonConfig,
    event: InitEvent,
    before: InitMoment,
    after: InitMoment,
)
    requires
        set_up_ends(config, event, before, after),
    ensures
        before.world.subset_of(after.world),
        are_catalog_strays(config.data_directory@, after.strays),
        event is Done ==> {
            &&& data_is_free(before.world, config.data_directory@)
            &&& after.world == with_data(before.world, config.data_directory@)
            &&& after.strays == Set::<Seq<char>>::empty()
            &&& !after.left
        },
        !(event is Done) && !after.left ==> {
            &&& after.world.subset_of(before.world.union(after.strays))
            &&& !before.world.contains(config.data_directory@) ==> after.world == before.world
        },
{
    let root = config.data_directory@;
    let (events, moments) = choose|events: Seq<SetupEvent>, moments: Seq<SetupMoment>|
        #![trigger is_setup_run(root, before.world, events, moments)]
        {
            &&& is_setup_run(root, before.world, events, moments)
            &&& moments.last().step is Finished
            &&& event is Done <==> moments.last().error is None
            &&& after.world == moments.last().world
            &&& after.strays == moments.last().strays
            &&& after.left == moments.last().left
        };
    lemma_setup_run(root, before.world, events, moments, moments.len() - 1);
}

proof fn lemma_init_run(
    config: DaemonConfig,
    config_path: Seq<char>,
    root_existed: bool,
    start: Set<Seq<char>>,
    events: Seq<InitEvent>,
    moments: Seq<InitMoment>,
    i: int,
)
    requires
        is_init_run(config, config_path, root_existed, start, events, moments),
        0 <= i < moments.len(),
    ensures
        init_invariant(config, config_path, root_existed, start, moments[i]),
    decreases i,
{
    if i > 0 {
        lemma_init_run(config, config_path, root_existed, start, events, moments, i - 1);
        let event = events[i - 1];
        let before = moments[i - 1];
        let after = moments[i];
        assert(init_moves(config, config_path, root_existed, event, before, after));
        if before.step is SetUpData {
            lemma_set_up_ends(config, event, before, after);
        }
        if after.step is RollBack {
            assert(is_data_path(config.data_directory@, credential_directory(config)));
            lemma_initialization_is_taken_back(config, root_existed, start, after);
        }
    }
}

/// Whatever the events of an initialization are: nothing that was there goes; one that ends with
/// success has made the data directory, both credentials and the configuration; and one that
/// fails, and whose roll-back reports nothing left, leaves none of them but what a failed write
/// left and could not remove: the configuration's file, or, in a data directory that was there
/// before, the catalog's files. No credential is left.
pub proof fn law_failed_initialization_is_taken_back(
    config: DaemonConfig,
    config_path: Seq<char>,
    root_existed: bool,
    start: Set<Seq<char>>,
    events: Seq<InitEvent>,
    moments: Seq<InitMoment>,
    i: int,
)
    requires
        is_init_run(config, config_path, root_existed, start, events, moments),
        0 <= i < moments.len(),
    ensures
        start.subset_of(moments[i].world),
        moments[i].step is Finished && moments[i].error is None ==> moments[i].world
            == with_daemon(start, config, config_path),
        moments[i].step is Finished && moments[i].error is Some && !moments[i].left
            ==> forall|path: Seq<char>| #[trigger]
            moments[i].world.contains(path) ==> start.contains(path) || is_init_stray(
                config,
                config_path,
                start,
                moments[i],
                path,
            ),
{
    lemma_init_run(config, config_path, root_existed, start, events, moments, i);
}

/// Each step of a set-up is reached only in one way: nothing is made in a directory that is not
/// empty or cannot be read, the catalog is written only once every directory of the layout was made,
/// and whatever fails after the first look is taken back.
pub proof fn law_setup_steps_follow_their_cause(step: SetupStep, event: SetupEvent, created: nat)
    requires
        setup_event_fits(step, event),
    ensures
        match setup_next(step, event, created) {
            SetupStep::Look => false,
            SetupStep::MakeRoot => step is Look && event->Found_0 is Missing,
            SetupStep::MakeDirectory => {
                ||| step is Look && event->Found_0 is Empty
                ||| step is MakeRoot && event is Done
                ||| step is MakeDirectory && event is Done && created < 4
            },
            SetupStep::WriteCatalog => step is MakeDirectory && event is Done && created >= 4,
            SetupStep::RollBack => (step is MakeRoot || step is MakeDirectory || step is WriteCatalog) && event !is Done,
            SetupStep::Finished => {
                ||| step is Look && (event->Found_0 is Occupied || event->Found_0 is Unreadable)
                ||| step is WriteCatalog && event is Done
                ||| step is RollBack
            },
        },
{
}

/// Each step of an initialization is reached only in one way: nothing is made where there is a
/// configuration already, the credentials are written once the data directory is set up, the
/// configuration comes last, and whatever fails after the set-up is taken back.
pub proof fn law_init_steps_follow_their_cause(step: InitStep, event: InitEvent)
    requires
        init_event_fits(step, event),
    ensures
        match init_next(step, event) {
            InitStep::LookAtConfig => false,
            InitStep::SetUpData => step is LookAtConfig && event->Found_0 is Free,
            InitStep::WriteQueryCredential => step is SetUpData && event is Done,
            InitStep::WriteAdminCredential => step is WriteQueryCredential && event is Done,
            InitStep::WriteConfig => step is WriteAdminCredential && event is Done,
            InitStep::RollBack => (step is WriteQueryCredential || step is WriteAdminCredential || step is WriteConfig) && event !is Done,
            InitStep::Finished => {
                ||| step is LookAtConfig && event->Found_0 !is Free
                ||| step is SetUpData && event !is Done
                ||| step is WriteConfig && event is Done
                ||| step is RollBack
            },
        },
{
}

/// A failed set-up says what could not be done and where, in the words of what failed; what could
/// not be taken back is told behind it. What succeeds changes nothing of it.
pub proof fn law_setup_failures_tell_their_cause(
    root: Seq<char>,
    step: SetupStep,
    event: SetupEvent,
    error: Option<Seq<char>>,
)
    requires
        setup_event_fits(step, event),
    ensures
        ({
            let told = setup_error(root, step, event, error);
            &&& event is Done ==> told == error
            &&& event matches SetupEvent::Found(look) ==> (match look {
                RootLook::Missing | RootLook::Empty => told == error,
                RootLook::Occupied => told == Some(
                    "data directory "@ + root + " is not empty; init never adopts existing files"@,
                ),
                RootLook::Unreadable(message) => told == Some(
                    "cannot inspect data directory "@ + root + ": "@ + message@,
                ),
            })
            &&& event matches SetupEvent::Failed(message) ==> told == Some(
                if step is MakeRoot {
                    "cannot create data directory "@ + root + ": "@ + message@
                } else if step is MakeDirectory {
                    "cannot create data layout: "@ + message@
                } else {
                    message@
                },
            )
            &&& event matches SetupEvent::RolledBack(report) ==> told == (match (error, report) {
                (None, _) => None,
                (Some(text), Ok(())) => Some(text),
                (Some(text), Err(rest)) => Some(
                    text + "; "@ + "catalog initialization"@ + " rollback was incomplete: "@
                        + rest@,
                ),
            })
        }),
{
}

/// A failed initialization says what failed; a configuration that is there already, or whose place
/// cannot be looked at, is told with its path, and what could not be taken back is told behind the
/// cause.
pub proof fn law_init_failures_tell_their_cause(
    config_path: Seq<char>,
    step: InitStep,
    event: InitEvent,
    error: Option<Seq<char>>,
)
    requires
        init_event_fits(step, event),
    ensures
        ({
            let told = init_error(config_path, step, event, error);
            &&& event is Done ==> told == error
            &&& event matches InitEvent::Found(look) ==> (match look {
                PathLook::Free => told is None,
                PathLook::Taken => told == Some(
                    "configuration"@ + " path "@ + config_path + " already exists"@,
                ),
                PathLook::Unreadable(message) => told == Some(
                    "cannot inspect "@ + "configuration"@ + " path "@ + config_path + ": "@
                        + message@,
                ),
            })
            &&& event matches InitEvent::Failed(failure) ==> told == Some(failure@)
            &&& event matches InitEvent::RolledBack(report) ==> told == (match (error, report) {
                (None, _) => None,
                (Some(text), Ok(())) => Some(text),
                (Some(text), Err(rest)) => Some(
                    text + "; "@ + "initialization"@ + " rollback was incomplete: "@ + rest@,
                ),
            })
        }),
{
}

/// A path may be made only where nothing is there; what is there, or cannot be looked at, is told
/// with what it was wanted for.
pub proof fn law_only_free_paths_are_new(path: Seq<char>, description: Seq<char>, look: PathLook)
    ensures
        new_path_error(path, description, look) is None <==> look is Free,
        look is Taken ==> new_path_error(path, description, look) == Some(
            description + " path "@ + path + " already exists"@,
        ),
        look matches PathLook::Unreadable(error) ==> new_path_error(path, description, look)
            == Some("cannot inspect "@ + description + " path "@ + path + ": "@ + error@),
{
}

/// A data directory holds the directories of the databases, the snapshots, the locks, the recovery
/// and the trash.
pub proof fn law_the_layout_is_fixed()
    ensures
        layout().len() == 5,
        layout()[0] == "databases"@,
        layout()[1] == "snapshots"@,
        layout()[2] == "locks"@,
        layout()[3] == "recovery"@,
        layout()[4] == "trash"@,
{
}

/// The directories that a set-up made are removed in the reverse of their order, and after them the
/// data directory itself, where the set-up made that too.
pub proof fn law_set_ups_are_taken_back_from_inside(
    root: Seq<char>,
    root_existed: bool,
    created: nat,
)
    requires
        created <= 5,
    ensures
        setup_rollback(root, root_existed, created).len() == created + (if root_existed {
            0nat
        } else {
            1
        }),
        forall|k: int|
            0 <= k < created ==> #[trigger] setup_rollback(root, root_existed, created)[k] == (
            RemovalView { path: joined(root, layout()[created - 1 - k]), directory: true }),
        !root_existed ==> setup_rollback(root, root_existed, created)[created as int] == (
        RemovalView { path: root, directory: true }),
{
    lemma_created_removals(root, created);
    assert forall|k: int| 0 <= k < created implies #[trigger] setup_rollback(
        root,
        root_existed,
        created,
    )[k] == (RemovalView { path: joined(root, layout()[created - 1 - k]), directory: true }) by {
        assert(setup_rollback(root, root_existed, created)[k] == created_removals(root, created)[k]);
    }
}

proof fn lemma_created_removals(root: Seq<char>, created: nat)
    requires
        created <= 5,
    ensures
        created_removals(root, created).len() == created,
        forall|k: int|
            0 <= k < created ==> #[trigger] created_removals(root, created)[k] == (RemovalView {
                path: joined(root, layout()[created - 1 - k]),
                directory: true,
            }),
    decreases created,
{
    if created > 0 {
        let rest = created_removals(root, (created - 1) as nat);
        lemma_created_removals(root, (created - 1) as nat);
        assert forall|k: int| 0 <= k < created implies #[trigger] created_removals(root, created)[k]
            == (RemovalView {
            path: joined(root, layout()[created - 1 - k]),
            directory: true,
        }) by {
            if k > 0 {
                assert(created_removals(root, created)[k] == rest[k - 1]);
            }
        }
    }
}

/// A failed initialization is taken back from inside: first the credential files that it wrote, then
/// their directory, then the catalog's files, then the layout in the reverse of its order, and last
/// the data directory itself, where the initialization made it. No other file is named.
pub proof fn law_initializations_are_taken_back_from_inside(
    config: DaemonConfig,
    root_existed: bool,
    query_created: bool,
    admin_created: bool,
)
    ensures
        ({
            let root = config.data_directory@;
            let removals = initialization_rollback(
                config,
                root_existed,
                query_created,
                admin_created,
            );
            let files = (if admin_created {
                1int
            } else {
                0
            }) + (if query_created {
                1int
            } else {
                0
            });
            &&& removals.len() == files + 10 + (if root_existed {
                0int
            } else {
                1
            })
            &&& admin_created ==> removals[0] == (RemovalView {
                path: config.authentication.admin_credential_file@,
                directory: false,
            })
            &&& query_created ==> removals[files - 1] == (RemovalView {
                path: config.authentication.query_credential_file@,
                directory: false,
            })
            &&& removals[files] == (RemovalView {
                path: joined(root, "credentials"@),
                directory: true,
            })
            &&& removals[files + 1] == (RemovalView {
                path: joined(root, "server-state.pending"@),
                directory: false,
            })
            &&& removals[files + 2] == (RemovalView {
                path: joined(root, "server-state.previous"@),
                directory: false,
            })
            &&& removals[files + 3] == (RemovalView {
                path: joined(root, "server-operation"@),
                directory: false,
            })
            &&& removals[files + 4] == (RemovalView {
                path: joined(root, "server-state"@),
                directory: false,
            })
            &&& forall|k: int|
                #![trigger layout()[k]]
                0 <= k < 5 ==> removals[files + 9 - k] == (RemovalView {
                    path: joined(root, layout()[k]),
                    directory: true,
                })
            &&& !root_existed ==> removals[files + 10] == (RemovalView {
                path: root,
                directory: true,
            })
        }),
{
    let root = config.data_directory@;
    let removals = initialization_rollback(config, root_existed, query_created, admin_created);
    let written = credential_removals(config, query_created, admin_created);
    let directory = written.push(directory_below(root, "credentials"@));
    let catalog = catalog_rollback(root, root_existed);
    let dirs = created_removals(root, 5);
    lemma_created_removals(root, 5);
    let files = written.len() as int;
    assert forall|k: int| 0 <= k < catalog.len() implies #[trigger] catalog[k] == removals[files + 1
        + k] by {}
    assert(catalog[0] == file_below(root, PENDING_FILE@));
    assert(catalog[1] == file_below(root, PREVIOUS_FILE@));
    assert(catalog[2] == file_below(root, OPERATION_FILE@));
    assert(catalog[3] == file_below(root, STATE_FILE@));
    assert(catalog.len() == 9 + root_removal(root, root_existed).len());
    assert forall|k: int| #![trigger layout()[k]] 0 <= k < 5 implies removals[files + 9 - k] == (
    RemovalView { path: joined(root, layout()[k]), directory: true }) by {
        assert(catalog[8 - k] == dirs[4 - k]);
    }
    if !root_existed {
        assert(catalog[9] == root_removal(root, root_existed)[0]);
    }
}

/// What is told of removals is exactly what could not be removed, in order, each with its path and
/// its reason; nothing is told only where everything is gone.
pub proof fn law_everything_left_is_told(
    removals: Seq<RemovalView>,
    outcomes: Seq<RemovalOutcome>,
    count: nat,
)
    requires
        count <= outcomes.len(),
        outcomes.len() == removals.len(),
    ensures
        removal_failures(removals, outcomes, count).len() == 0 <==> forall|i: int|
            0 <= i < count ==> #[trigger] outcomes[i] is Gone,
        forall|i: int|
            0 <= i < count && (#[trigger] outcomes[i]) is Left ==> removal_failures(
                removals,
                outcomes,
                count,
            ).contains(
                "cannot remove "@ + removals[i].path + ": "@ + outcomes[i]->Left_0@,
            ),
        removal_failures(removals, outcomes, count).len() <= count,
        count > 0 ==> removal_failures(removals, outcomes, (count - 1) as nat).is_prefix_of(
            removal_failures(removals, outcomes, count),
        ) && removal_failures(removals, outcomes, count).len() == removal_failures(
            removals,
            outcomes,
            (count - 1) as nat,
        ).len() + (if outcomes[count - 1] is Left {
            1nat
        } else {
            0
        }),
    decreases count,
{
    if count > 0 {
        let before = (count - 1) as nat;
        law_everything_left_is_told(removals, outcomes, before);
        let front = removal_failures(removals, outcomes, before);
        let all = removal_failures(removals, outcomes, count);
        assert forall|i: int| 0 <= i < count && (#[trigger] outcomes[i]) is Left implies all.contains(
            "cannot remove "@ + removals[i].path + ": "@ + outcomes[i]->Left_0@,
        ) by {
            let text = "cannot remove "@ + removals[i].path + ": "@ + outcomes[i]->Left_0@;
            if i < before {
                assert(front.contains(text));
                let k = choose|k: int| 0 <= k < front.len() && front[k] == text;
                assert(all[k] == text);
            } else {
                assert(all[all.len() - 1] == text);
            }
        }
        if outcomes[count - 1] is Left {
            assert(all.len() > 0);
        }
        assert(all.take(front.len() as int) =~= front);
    }
}

/// Texts are listed in order, with a semicolon and a space between them.
pub proof fn law_lists_separate_their_texts(texts: Seq<Seq<char>>, text: Seq<char>)
    ensures
        listed(Seq::empty()) == Seq::<char>::empty(),
        texts.len() == 0 ==> listed(texts.push(text)) == text,
        texts.len() > 0 ==> listed(texts.push(text)) == listed(texts) + "; "@ + text,
{
    assert(texts.push(text).drop_last() =~= texts);
}

/// A removal is seen with its path and its kind, and a list of removals one by one in its order.
pub proof fn law_removals_are_seen_in_order(removals: Seq<Removal>)
    ensures
        removals_view(removals).len() == removals.len(),
        forall|i: int|
            0 <= i < removals.len() ==> (#[trigger] removals_view(removals)[i]).path
                == removals[i].path@ && removals_view(removals)[i].directory
                == removals[i].directory,
{
}

/// A look reports what it found, a rollback what came of it, every other step of a setup that it was
/// done or why not, and a finished setup takes no report.
pub proof fn law_setup_steps_report_their_outcome(step: SetupStep, event: SetupEvent)
    ensures
        setup_event_fits(step, event) <==> match event {
            SetupEvent::Found(_) => step is Look,
            SetupEvent::RolledBack(_) => step is RollBack,
            SetupEvent::Done => step !is Look && step !is RollBack && step !is Finished,
            SetupEvent::Failed(_) => step !is Look && step !is RollBack && step !is Finished,
        },
{
}

/// A look reports what it found, a rollback what came of it, every other step of an initialization
/// that it was done or why not, and a finished initialization takes no report.
pub proof fn law_init_steps_report_their_outcome(step: InitStep, event: InitEvent)
    ensures
        init_event_fits(step, event) <==> match event {
            InitEvent::Found(_) => step is LookAtConfig,
            InitEvent::RolledBack(_) => step is RollBack,
            InitEvent::Done => step !is LookAtConfig && step !is RollBack && step !is Finished,
            InitEvent::Failed(_) => step !is LookAtConfig && step !is RollBack && step !is Finished,
        },
{
}

} // verus!
