//! Changes of the catalog: finding, creating, renaming and dropping managed Databases.

use vstd::prelude::*;

use crate::catalog::{
    is_database_name, is_summary_of, names_sorted, valid_catalog, valid_database_name, valid_entry,
    Catalog, CatalogDatabase, CatalogView, EntryView,
};
use crate::client::{DatabaseSummary, ErrorCode};
use crate::failure::{not_found, not_found_view, permanent, FailureView, ProtocolFailure};
use crate::text::{join3, lemma_text_less_order, text_before, text_eq, text_less};

verus! {

/// Whether an entry has this name.
pub open spec fn has_name(databases: Seq<EntryView>, name: Seq<char>) -> bool {
    exists|i: int|
        #![trigger databases[i]]
        0 <= i < databases.len() && databases[i].name == name
}

/// Whether an entry has this identity.
pub open spec fn has_id(databases: Seq<EntryView>, id: Seq<char>) -> bool {
    exists|i: int| #![trigger databases[i]] 0 <= i < databases.len() && databases[i].id == id
}

/// Whether position `i` is the first with this name.
pub open spec fn first_named(databases: Seq<EntryView>, name: Seq<char>, i: int) -> bool {
    &&& 0 <= i < databases.len()
    &&& databases[i].name == name
    &&& forall|j: int| #![trigger databases[j]] 0 <= j < i ==> databases[j].name != name
}

/// The failure for a name outside the naming contract.
pub open spec fn invalid_name_view() -> FailureView {
    permanent(
        ErrorCode::InvalidDatabaseName,
        "Database names must match [a-z][a-z0-9_-]{0,62}"@,
    )
}

/// The failure for a name that is taken.
pub open spec fn name_taken_view(name: Seq<char>) -> FailureView {
    permanent(ErrorCode::DatabaseAlreadyExists, "Database `"@ + name + "` already exists"@)
}

impl Catalog {
    /// A copy of the catalog.
    pub fn copy(&self) -> (catalog: Catalog)
        ensures
            catalog@ == self@,
            catalog.databases@ == self.databases@,
    {
        let mut databases: Vec<CatalogDatabase> = Vec::new();
        let mut i: usize = 0;
        while i < self.databases.len()
            invariant
                i <= self.databases@.len(),
                databases@ == self.databases@.take(i as int),
            decreases self.databases.len() - i,
        {
            databases.push(self.databases[i].copy());
            proof {
                assert(self.databases@.take(i + 1) =~= self.databases@.take(i as int).push(
                    self.databases@[i as int],
                ));
            }
            i = i + 1;
        }
        proof {
            assert(self.databases@.take(i as int) =~= self.databases@);
        }
        Catalog { catalog_version: self.catalog_version, databases }
    }

    /// Tests whether two catalogs say the same.
    pub fn same(&self, other: &Catalog) -> (same: bool)
        ensures
            same == (self@ == other@),
    {
        if self.catalog_version != other.catalog_version || self.databases.len()
            != other.databases.len() {
            proof {
                assert(self@.databases.len() == self.databases@.len());
                assert(other@.databases.len() == other.databases@.len());
            }
            return false;
        }
        let mut i: usize = 0;
        while i < self.databases.len()
            invariant
                self.catalog_version == other.catalog_version,
                self.databases@.len() == other.databases@.len(),
                i <= self.databases@.len(),
                forall|k: int|
                    #![trigger self@.databases[k]]
                    0 <= k < i ==> self@.databases[k] == other@.databases[k],
            decreases self.databases.len() - i,
        {
            let left = &self.databases[i];
            let right = &other.databases[i];
            assert(self@.databases[i as int] == left@);
            assert(other@.databases[i as int] == right@);
            if !text_eq(left.id.as_str(), right.id.as_str()) || !text_eq(
                left.name.as_str(),
                right.name.as_str(),
            ) || !text_eq(left.state.as_str(), right.state.as_str()) {
                return false;
            }
            assert(left@ == right@);
            i = i + 1;
        }
        assert(self@.databases =~= other@.databases);
        true
    }
}

/// The position of the first entry with this name.
pub fn find_database(catalog: &Catalog, name: &str) -> (position: Option<usize>)
    ensures
        match position {
            Some(i) => first_named(catalog@.databases, name@, i as int),
            None => !has_name(catalog@.databases, name@),
        },
{
    let mut i: usize = 0;
    while i < catalog.databases.len()
        invariant
            i <= catalog.databases@.len(),
            forall|j: int|
                #![trigger catalog@.databases[j]]
                0 <= j < i ==> catalog@.databases[j].name != name@,
        decreases catalog.databases.len() - i,
    {
        assert(catalog@.databases[i as int] == catalog.databases@[i as int]@);
        if text_eq(catalog.databases[i].name.as_str(), name) {
            return Some(i);
        }
        i = i + 1;
    }
    None
}

/// The Databases as clients see them, in the catalog's order.
pub fn list_databases(catalog: &Catalog) -> (summaries: Vec<DatabaseSummary>)
    ensures
        summaries@.len() == catalog@.databases.len(),
        forall|i: int|
            0 <= i < summaries@.len() ==> is_summary_of(
                #[trigger] summaries@[i],
                catalog@.databases[i],
            ),
{
    let mut summaries: Vec<DatabaseSummary> = Vec::new();
    let mut i: usize = 0;
    while i < catalog.databases.len()
        invariant
            i <= catalog.databases@.len(),
            summaries@.len() == i,
            forall|k: int|
                0 <= k < i ==> is_summary_of(#[trigger] summaries@[k], catalog@.databases[k]),
        decreases catalog.databases.len() - i,
    {
        assert(catalog@.databases[i as int] == catalog.databases@[i as int]@);
        summaries.push(catalog.databases[i].summary());
        i = i + 1;
    }
    summaries
}

/// The Database with this name, as clients see it.
pub fn select_database(catalog: &Catalog, name: &str) -> (selected: Result<
    DatabaseSummary,
    ProtocolFailure,
>)
    ensures
        selected is Ok <==> has_name(catalog@.databases, name@),
        match selected {
            Ok(summary) => exists|i: int|
                #![trigger catalog@.databases[i]]
                first_named(catalog@.databases, name@, i) && is_summary_of(
                    summary,
                    catalog@.databases[i],
                ),
            Err(failure) => failure@ == not_found_view(name@),
        },
{
    match find_database(catalog, name) {
        Some(i) => {
            assert(catalog@.databases[i as int] == catalog.databases@[i as int]@);
            Ok(catalog.databases[i].summary())
        },
        None => Err(not_found(name)),
    }
}

/// The failure of a query whose selected Database was dropped.
pub open spec fn selection_gone_view() -> FailureView {
    permanent(
        ErrorCode::DatabaseNotFound,
        "the selected Database no longer exists; select a Database again"@,
    )
}

/// Checks that the selected identity still is in the catalog.
pub fn check_selected(catalog: &Catalog, database_id: &str) -> (result: Result<(), ProtocolFailure>)
    ensures
        result is Ok <==> has_id(catalog@.databases, database_id@),
        result is Ok <==> exists|i: int|
            0 <= i < catalog.databases@.len() && (#[trigger] catalog.databases@[i]).id@
                == database_id@,
        result is Err ==> result->Err_0@ == selection_gone_view(),
{
    let mut i: usize = 0;
    while i < catalog.databases.len()
        invariant
            i <= catalog.databases@.len(),
            forall|j: int|
                #![trigger catalog@.databases[j]]
                0 <= j < i ==> catalog@.databases[j].id != database_id@,
        decreases catalog.databases.len() - i,
    {
        assert(catalog@.databases[i as int] == catalog.databases@[i as int]@);
        if text_eq(catalog.databases[i].id.as_str(), database_id) {
            return Ok(());
        }
        i = i + 1;
    }
    proof {
        assert forall|k: int| 0 <= k < catalog.databases@.len() implies (
        #[trigger] catalog.databases@[k]).id@ != database_id@ by {
            assert(catalog@.databases[k] == catalog.databases@[k]@);
        }
    }
    Err(
        ProtocolFailure::new(
            ErrorCode::DatabaseNotFound,
            "the selected Database no longer exists; select a Database again",
        ),
    )
}

/// A catalog with one entry more, at the place its name gives it.
pub open spec fn is_creation(before: CatalogView, after: CatalogView, entry: EntryView) -> bool {
    &&& after.version == before.version
    &&& names_sorted(after.databases)
    &&& exists|k: int|
        0 <= k <= before.databases.len() && after.databases == #[trigger] before.databases.insert(
            k,
            entry,
        )
}

/// A catalog without the entry at position `i`.
pub open spec fn is_removal(before: CatalogView, after: CatalogView, i: int) -> bool {
    &&& after.version == before.version
    &&& 0 <= i < before.databases.len()
    &&& after.databases == before.databases.remove(i)
}

/// An entry under another name.
pub open spec fn renamed(entry: EntryView, name: Seq<char>) -> EntryView {
    EntryView { id: entry.id, name, state: entry.state }
}

/// A catalog whose entry at position `i` has a new name and the place that it gives.
pub open spec fn is_rename(
    before: CatalogView,
    after: CatalogView,
    i: int,
    name: Seq<char>,
) -> bool {
    &&& 0 <= i < before.databases.len()
    &&& is_creation(
        CatalogView { version: before.version, databases: before.databases.remove(i) },
        after,
        renamed(before.databases[i], name),
    )
}

proof fn lemma_insert_sorted(databases: Seq<EntryView>, entry: EntryView, k: int)
    requires
        names_sorted(databases),
        0 <= k <= databases.len(),
        forall|i: int|
            #![trigger databases[i]]
            0 <= i < k ==> text_less(databases[i].name, entry.name),
        forall|i: int|
            #![trigger databases[i]]
            k <= i < databases.len() ==> text_less(entry.name, databases[i].name),
    ensures
        names_sorted(databases.insert(k, entry)),
{
    let after = databases.insert(k, entry);
    assert forall|a: int, b: int|
        #![trigger after[a], after[b]]
        0 <= a < b < after.len() implies text_less(after[a].name, after[b].name) by {
        let x = if a < k { a } else { a - 1 };
        let y = if b < k { b } else { b - 1 };
        if a != k && b != k {
            assert(after[a] == databases[x] && after[b] == databases[y]);
        } else if a == k {
            assert(after[b] == databases[y]);
        } else {
            assert(after[a] == databases[x]);
        }
    }
}

proof fn lemma_remove_sorted(databases: Seq<EntryView>, i: int)
    requires
        names_sorted(databases),
        0 <= i < databases.len(),
    ensures
        names_sorted(databases.remove(i)),
{
    let after = databases.remove(i);
    assert forall|a: int, b: int|
        #![trigger after[a], after[b]]
        0 <= a < b < after.len() implies text_less(after[a].name, after[b].name) by {
        let x = if a < i { a } else { a + 1 };
        let y = if b < i { b } else { b + 1 };
        assert(after[a] == databases[x] && after[b] == databases[y]);
    }
}

/// Puts `entry` at the place its name gives it.
fn insert_by_name(catalog: &mut Catalog, entry: CatalogDatabase)
    requires
        names_sorted(old(catalog)@.databases),
        !has_name(old(catalog)@.databases, entry.name@),
    ensures
        is_creation(old(catalog)@, final(catalog)@, entry@),
{
    let ghost before = catalog@;
    let ghost items = catalog.databases@;
    let mut k: usize = 0;
    while k < catalog.databases.len() && text_before(
        catalog.databases[k].name.as_str(),
        entry.name.as_str(),
    )
        invariant
            catalog@ == before,
            catalog.databases@ == items,
            k <= catalog.databases@.len(),
            names_sorted(before.databases),
            forall|i: int|
                #![trigger before.databases[i]]
                0 <= i < k ==> text_less(before.databases[i].name, entry.name@),
        decreases catalog.databases.len() - k,
    {
        assert(before.databases[k as int] == items[k as int]@);
        k = k + 1;
    }
    proof {
        assert forall|i: int|
            #![trigger before.databases[i]]
            k <= i < before.databases.len() implies text_less(
            entry.name@,
            before.databases[i].name,
        ) by {
            assert(before.databases[k as int] == items[k as int]@);
            lemma_text_less_order(entry.name@, before.databases[k as int].name, before.databases[i].name);
            assert(before.databases[k as int].name != entry.name@);
        }
        lemma_insert_sorted(before.databases, entry@, k as int);
    }
    let ghost view = entry@;
    catalog.databases.insert(k, entry);
    proof {
        assert(catalog@.databases =~= before.databases.insert(k as int, view));
    }
}

/// What creating a Database under `name` is refused with, if it is.
pub open spec fn create_refusal(databases: Seq<EntryView>, name: Seq<char>) -> Option<FailureView> {
    if !is_database_name(name) {
        Some(invalid_name_view())
    } else if has_name(databases, name) {
        Some(name_taken_view(name))
    } else {
        None
    }
}

/// Checks that a Database may be created under `name`.
pub fn admit_create(catalog: &Catalog, name: &str) -> (result: Result<(), ProtocolFailure>)
    ensures
        create_refusal(catalog@.databases, name@) == (match result {
            Ok(()) => None,
            Err(failure) => Some(failure@),
        }),
{
    if !valid_database_name(name) {
        return Err(
            ProtocolFailure::new(
                ErrorCode::InvalidDatabaseName,
                "Database names must match [a-z][a-z0-9_-]{0,62}",
            ),
        );
    }
    match find_database(catalog, name) {
        Some(i) => {
            assert(has_name(catalog@.databases, name@)) by {
                assert(catalog@.databases[i as int].name == name@);
            }
            Err(
                ProtocolFailure::new(
                    ErrorCode::DatabaseAlreadyExists,
                    join3("Database `", name, "` already exists").as_str(),
                ),
            )
        },
        None => Ok(()),
    }
}

/// A changed catalog and the entry that the change is about.
pub struct CatalogChange {
    /// The catalog after the change.
    pub catalog: Catalog,
    /// The entry: as created, as renamed, or as it was before the drop.
    pub entry: CatalogDatabase,
}

/// The catalog with a new Database. Its state is `ready`.
pub fn plan_create(catalog: &Catalog, id: &str, name: &str) -> (change: CatalogChange)
    requires
        names_sorted(catalog@.databases),
        create_refusal(catalog@.databases, name@) is None,
    ensures
        change.entry@ == (EntryView { id: id@, name: name@, state: "ready"@ }),
        is_creation(catalog@, change.catalog@, change.entry@),
{
    let entry = CatalogDatabase {
        id: id.to_owned(),
        name: name.to_owned(),
        state: "ready".to_owned(),
    };
    let mut next = catalog.copy();
    insert_by_name(&mut next, entry.copy());
    CatalogChange { catalog: next, entry }
}

/// What renaming a Database is refused with, if it is.
pub open spec fn rename_refusal(
    databases: Seq<EntryView>,
    name: Seq<char>,
    new_name: Seq<char>,
) -> Option<FailureView> {
    if !is_database_name(new_name) {
        Some(invalid_name_view())
    } else if has_name(databases, new_name) {
        Some(name_taken_view(new_name))
    } else if !has_name(databases, name) {
        Some(not_found_view(name))
    } else {
        None
    }
}

/// The catalog with a Database under a new name.
pub fn plan_rename(catalog: &Catalog, name: &str, new_name: &str) -> (change: Result<
    CatalogChange,
    ProtocolFailure,
>)
    requires
        names_sorted(catalog@.databases),
    ensures
        match change {
            Ok(change) => {
                &&& rename_refusal(catalog@.databases, name@, new_name@) is None
                &&& exists|i: int|
                    #![trigger catalog@.databases[i]]
                    first_named(catalog@.databases, name@, i) && change.entry@ == renamed(
                        catalog@.databases[i],
                        new_name@,
                    ) && is_rename(catalog@, change.catalog@, i, new_name@)
            },
            Err(failure) => rename_refusal(catalog@.databases, name@, new_name@) == Some(failure@),
        },
{
    match admit_create(catalog, new_name) {
        Err(failure) => {
            return Err(failure);
        },
        Ok(()) => {},
    }
    let position = find_database(catalog, name);
    match position {
        None => Err(not_found(name)),
        Some(i) => {
            let mut next = catalog.copy();
            let ghost before = catalog@;
            assert(before.databases[i as int] == catalog.databases@[i as int]@);
            let existing = next.databases.remove(i);
            let updated = CatalogDatabase {
                id: existing.id,
                name: new_name.to_owned(),
                state: existing.state,
            };
            proof {
                assert(next@.databases =~= before.databases.remove(i as int));
                lemma_remove_sorted(before.databases, i as int);
                assert(!has_name(next@.databases, new_name@)) by {
                    if has_name(next@.databases, new_name@) {
                        let j = choose|j: int|
                            #![trigger next@.databases[j]]
                            0 <= j < next@.databases.len() && next@.databases[j].name == new_name@;
                        let x = if j < i { j } else { j + 1 };
                        assert(next@.databases[j] == before.databases[x]);
                    }
                }
            }
            let entry = updated.copy();
            insert_by_name(&mut next, updated);
            Ok(CatalogChange { catalog: next, entry })
        },
    }
}

/// What dropping a Database is refused with, if it is.
pub open spec fn drop_refusal(
    databases: Seq<EntryView>,
    name: Seq<char>,
    confirm_name: Seq<char>,
) -> Option<FailureView> {
    if name != confirm_name {
        Some(
            permanent(
                ErrorCode::ProtocolViolation,
                "confirm_name must exactly equal the Database name"@,
            ),
        )
    } else if !has_name(databases, name) {
        Some(not_found_view(name))
    } else {
        None
    }
}

/// The catalog without a Database.
pub fn plan_drop(catalog: &Catalog, name: &str, confirm_name: &str) -> (change: Result<
    CatalogChange,
    ProtocolFailure,
>)
    ensures
        match change {
            Ok(change) => {
                &&& drop_refusal(catalog@.databases, name@, confirm_name@) is None
                &&& exists|i: int|
                    #![trigger catalog@.databases[i]]
                    first_named(catalog@.databases, name@, i) && change.entry@
                        == catalog@.databases[i] && is_removal(catalog@, change.catalog@, i)
            },
            Err(failure) => drop_refusal(catalog@.databases, name@, confirm_name@) == Some(
                failure@,
            ),
        },
{
    if !text_eq(name, confirm_name) {
        return Err(
            ProtocolFailure::new(
                ErrorCode::ProtocolViolation,
                "confirm_name must exactly equal the Database name",
            ),
        );
    }
    match find_database(catalog, name) {
        None => Err(not_found(name)),
        Some(i) => {
            let mut next = catalog.copy();
            let ghost before = catalog@;
            assert(before.databases[i as int] == catalog.databases@[i as int]@);
            let entry = next.databases.remove(i);
            proof {
                assert(next@.databases =~= before.databases.remove(i as int));
            }
            Ok(CatalogChange { catalog: next, entry })
        },
    }
}

/// Creating a Database under a free name and a fresh identity keeps the catalog valid.
pub proof fn law_create_keeps_the_catalog_valid(
    before: CatalogView,
    after: CatalogView,
    entry: EntryView,
)
    requires
        valid_catalog(before),
        valid_entry(entry),
        !has_id(before.databases, entry.id),
        is_creation(before, after, entry),
    ensures
        valid_catalog(after),
{
    let k = choose|k: int|
        0 <= k <= before.databases.len() && after.databases == #[trigger] before.databases.insert(
            k,
            entry,
        );
    assert forall|a: int| 0 <= a < after.databases.len() implies valid_entry(
        #[trigger] after.databases[a],
    ) by {
        let x = if a < k { a } else { a - 1 };
        if a != k {
            assert(after.databases[a] == before.databases[x]);
        }
    }
    assert forall|a: int, b: int|
        #![trigger after.databases[a], after.databases[b]]
        0 <= a < b < after.databases.len() implies after.databases[a].id
        != after.databases[b].id by {
        let x = if a < k { a } else { a - 1 };
        let y = if b < k { b } else { b - 1 };
        if a != k {
            assert(after.databases[a] == before.databases[x]);
        }
        if b != k {
            assert(after.databases[b] == before.databases[y]);
        }
    }
}

/// Dropping a Database keeps the catalog valid.
pub proof fn law_drop_keeps_the_catalog_valid(before: CatalogView, after: CatalogView, i: int)
    requires
        valid_catalog(before),
        is_removal(before, after, i),
    ensures
        valid_catalog(after),
        !has_name(after.databases, before.databases[i].name),
        !has_id(after.databases, before.databases[i].id),
{
    lemma_remove_sorted(before.databases, i);
    assert forall|a: int| 0 <= a < after.databases.len() implies valid_entry(
        #[trigger] after.databases[a],
    ) && after.databases[a].id != before.databases[i].id && after.databases[a].name
        != before.databases[i].name by {
        let x = if a < i { a } else { a + 1 };
        assert(after.databases[a] == before.databases[x]);
        lemma_text_less_order(before.databases[x].name, before.databases[x].name, Seq::empty());
        if x < i {
            assert(text_less(before.databases[x].name, before.databases[i].name));
        } else {
            assert(text_less(before.databases[i].name, before.databases[x].name));
        }
    }
    assert forall|a: int, b: int|
        #![trigger after.databases[a], after.databases[b]]
        0 <= a < b < after.databases.len() implies after.databases[a].id
        != after.databases[b].id by {
        let x = if a < i { a } else { a + 1 };
        let y = if b < i { b } else { b + 1 };
        assert(after.databases[a] == before.databases[x]);
        assert(after.databases[b] == before.databases[y]);
    }
}

/// Renaming a Database to a valid free name keeps the catalog valid.
pub proof fn law_rename_keeps_the_catalog_valid(
    before: CatalogView,
    after: CatalogView,
    i: int,
    name: Seq<char>,
)
    requires
        valid_catalog(before),
        is_database_name(name),
        is_rename(before, after, i, name),
    ensures
        valid_catalog(after),
{
    let without = CatalogView { version: before.version, databases: before.databases.remove(i) };
    law_drop_keeps_the_catalog_valid(before, without, i);
    law_create_keeps_the_catalog_valid(without, after, renamed(before.databases[i], name));
}

/// Renaming changes no identity and no other entry.
pub proof fn law_rename_changes_only_the_name(
    before: CatalogView,
    after: CatalogView,
    i: int,
    name: Seq<char>,
)
    requires
        is_rename(before, after, i, name),
    ensures
        after.databases.len() == before.databases.len(),
        after.databases.contains(renamed(before.databases[i], name)),
        forall|j: int|
            0 <= j < before.databases.len() && j != i ==> after.databases.contains(
                #[trigger] before.databases[j],
            ),
{
    let without = before.databases.remove(i);
    let entry = renamed(before.databases[i], name);
    let k = choose|k: int|
        0 <= k <= without.len() && after.databases == #[trigger] without.insert(k, entry);
    assert(after.databases[k] == entry);
    assert forall|j: int| 0 <= j < before.databases.len() && j != i implies after.databases.contains(
        #[trigger] before.databases[j],
    ) by {
        let x = if j < i { j } else { j - 1 };
        assert(without[x] == before.databases[j]);
        let y = if x < k { x } else { x + 1 };
        assert(after.databases[y] == before.databases[j]);
    }
}

proof fn lemma_insertion_unique(databases: Seq<EntryView>, entry: EntryView, a: int, b: int)
    requires
        0 <= a <= databases.len(),
        0 <= b <= databases.len(),
        names_sorted(databases.insert(a, entry)),
        names_sorted(databases.insert(b, entry)),
    ensures
        a == b,
{
    let x = databases.insert(a, entry);
    let y = databases.insert(b, entry);
    if a < b {
        assert(x[a] == entry && x[a + 1] == databases[a]);
        assert(y[a] == databases[a] && y[b] == entry);
        lemma_text_less_order(entry.name, databases[a].name, entry.name);
        assert(text_less(x[a].name, x[a + 1].name));
        assert(text_less(y[a].name, y[b].name));
    } else if b < a {
        assert(y[b] == entry && y[b + 1] == databases[b]);
        assert(x[b] == databases[b] && x[a] == entry);
        lemma_text_less_order(entry.name, databases[b].name, entry.name);
        assert(text_less(y[b].name, y[b + 1].name));
        assert(text_less(x[b].name, x[a].name));
    }
}

proof fn lemma_name_at_insertion(
    databases: Seq<EntryView>,
    entry: EntryView,
    k: int,
    j: int,
)
    requires
        0 <= k <= databases.len(),
        names_sorted(databases.insert(k, entry)),
        0 <= j < databases.insert(k, entry).len(),
        databases.insert(k, entry)[j].name == entry.name,
    ensures
        j == k,
{
    let x = databases.insert(k, entry);
    assert(x[k] == entry);
    lemma_text_less_order(entry.name, entry.name, entry.name);
    if j < k {
        assert(text_less(x[j].name, x[k].name));
    } else if k < j {
        assert(text_less(x[k].name, x[j].name));
    }
}

/// Dropping what was just created gives the catalog back.
pub proof fn law_drop_undoes_create(
    before: CatalogView,
    between: CatalogView,
    after: CatalogView,
    entry: EntryView,
    i: int,
)
    requires
        is_creation(before, between, entry),
        first_named(between.databases, entry.name, i),
        is_removal(between, after, i),
    ensures
        after == before,
{
    let k = choose|k: int|
        0 <= k <= before.databases.len() && between.databases
            == #[trigger] before.databases.insert(k, entry);
    lemma_name_at_insertion(before.databases, entry, k, i);
    assert(after.databases =~= before.databases);
}

/// Renaming a Database and renaming it back gives the catalog back.
pub proof fn law_rename_back_undoes_rename(
    before: CatalogView,
    between: CatalogView,
    after: CatalogView,
    i: int,
    j: int,
    name: Seq<char>,
)
    requires
        names_sorted(before.databases),
        is_rename(before, between, i, name),
        first_named(between.databases, name, j),
        is_rename(between, after, j, before.databases[i].name),
    ensures
        after == before,
{
    let without = before.databases.remove(i);
    let entry = renamed(before.databases[i], name);
    let k = choose|k: int|
        0 <= k <= without.len() && between.databases == #[trigger] without.insert(k, entry);
    lemma_name_at_insertion(without, entry, k, j);
    assert(between.databases.remove(j) =~= without);
    let original = renamed(between.databases[j], before.databases[i].name);
    assert(original == before.databases[i]);
    let m = choose|m: int|
        0 <= m <= without.len() && after.databases == #[trigger] without.insert(m, original);
    assert(before.databases =~= without.insert(i, original));
    lemma_insertion_unique(without, original, i, m);
}

/// A selection stands for a stable identity: renaming the Database leaves it selected, whatever
/// then takes its old name, and renaming adds no identity.
pub proof fn law_selection_survives_rename(
    before: CatalogView,
    after: CatalogView,
    i: int,
    name: Seq<char>,
    id: Seq<char>,
)
    requires
        is_rename(before, after, i, name),
    ensures
        has_id(after.databases, id) == has_id(before.databases, id),
{
    let without = before.databases.remove(i);
    let entry = renamed(before.databases[i], name);
    let k = choose|k: int|
        0 <= k <= without.len() && after.databases == #[trigger] without.insert(k, entry);
    assert(after.databases[k] == entry);
    if has_id(before.databases, id) {
        let j = choose|j: int|
            #![trigger before.databases[j]]
            0 <= j < before.databases.len() && before.databases[j].id == id;
        if j == i {
            assert(after.databases[k].id == id);
        } else {
            let x = if j < i { j } else { j - 1 };
            assert(without[x] == before.databases[j]);
            let y = if x < k { x } else { x + 1 };
            assert(after.databases[y] == before.databases[j]);
        }
    }
    if has_id(after.databases, id) {
        let y = choose|y: int|
            #![trigger after.databases[y]]
            0 <= y < after.databases.len() && after.databases[y].id == id;
        if y == k {
            assert(before.databases[i].id == id);
        } else {
            let x = if y < k { y } else { y - 1 };
            assert(without[x] == after.databases[y]);
            let j = if x < i { x } else { x + 1 };
            assert(before.databases[j] == without[x]);
        }
    }
}

/// Creating a Database, under a reused name or not, adds its own identity to the catalog and
/// nothing else: every selection stays what it was.
pub proof fn law_selection_survives_create(
    before: CatalogView,
    after: CatalogView,
    entry: EntryView,
    id: Seq<char>,
)
    requires
        is_creation(before, after, entry),
    ensures
        has_id(after.databases, id) == (has_id(before.databases, id) || id == entry.id),
{
    let k = choose|k: int|
        0 <= k <= before.databases.len() && after.databases == #[trigger] before.databases.insert(
            k,
            entry,
        );
    assert(after.databases[k] == entry);
    if has_id(before.databases, id) {
        let j = choose|j: int|
            #![trigger before.databases[j]]
            0 <= j < before.databases.len() && before.databases[j].id == id;
        let y = if j < k { j } else { j + 1 };
        assert(after.databases[y] == before.databases[j]);
    }
    if has_id(after.databases, id) {
        let y = choose|y: int|
            #![trigger after.databases[y]]
            0 <= y < after.databases.len() && after.databases[y].id == id;
        if y != k {
            let j = if y < k { y } else { y - 1 };
            assert(before.databases[j] == after.databases[y]);
        }
    }
}

/// A Database may be created exactly under a valid name that no entry has; a bad name is told before
/// a taken one.
pub proof fn law_names_are_given_once(databases: Seq<EntryView>, name: Seq<char>)
    ensures
        ({
            let taken = exists|i: int|
                0 <= i < databases.len() && (#[trigger] databases[i]).name == name;
            let refused = create_refusal(databases, name);
            &&& refused is None <==> is_database_name(name) && !taken
            &&& refused matches Some(failure) ==> !failure.retryable && if is_database_name(name) {
                failure.code is DatabaseAlreadyExists && failure.message == "Database `"@ + name
                    + "` already exists"@
            } else {
                failure.code is InvalidDatabaseName && failure.message
                    == "Database names must match [a-z][a-z0-9_-]{0,62}"@
            }
        }),
{
    if exists|i: int| 0 <= i < databases.len() && (#[trigger] databases[i]).name == name {
        assert(has_name(databases, name));
    }
}

/// A Database may be renamed exactly where it is there and the new name is valid and free; the new
/// name is judged first.
pub proof fn law_renames_need_a_free_name(
    databases: Seq<EntryView>,
    name: Seq<char>,
    new_name: Seq<char>,
)
    ensures
        ({
            let there = exists|i: int|
                0 <= i < databases.len() && (#[trigger] databases[i]).name == name;
            let taken = exists|i: int|
                0 <= i < databases.len() && (#[trigger] databases[i]).name == new_name;
            let refused = rename_refusal(databases, name, new_name);
            &&& refused is None <==> is_database_name(new_name) && !taken && there
            &&& refused matches Some(failure) ==> !failure.retryable && (failure.code
                is InvalidDatabaseName <==> !is_database_name(new_name)) && (failure.code
                is DatabaseAlreadyExists <==> is_database_name(new_name) && taken) && (failure.code
                is DatabaseNotFound <==> is_database_name(new_name) && !taken)
        }),
{
    if exists|i: int| 0 <= i < databases.len() && (#[trigger] databases[i]).name == name {
        assert(has_name(databases, name));
    }
    if exists|i: int| 0 <= i < databases.len() && (#[trigger] databases[i]).name == new_name {
        assert(has_name(databases, new_name));
    }
}

/// A Database may be dropped exactly where it is there and its whole name is repeated as the
/// confirmation, which is judged first.
pub proof fn law_drops_are_confirmed(
    databases: Seq<EntryView>,
    name: Seq<char>,
    confirm_name: Seq<char>,
)
    ensures
        ({
            let there = exists|i: int|
                0 <= i < databases.len() && (#[trigger] databases[i]).name == name;
            let refused = drop_refusal(databases, name, confirm_name);
            &&& refused is None <==> confirm_name == name && there
            &&& refused matches Some(failure) ==> !failure.retryable && if confirm_name == name {
                failure.code is DatabaseNotFound && failure.message == "Database `"@ + name
                    + "` does not exist"@
            } else {
                failure.code is ProtocolViolation && failure.message
                    == "confirm_name must exactly equal the Database name"@
            }
        }),
{
    if exists|i: int| 0 <= i < databases.len() && (#[trigger] databases[i]).name == name {
        assert(has_name(databases, name));
    }
}

/// A creation adds its entry and keeps every other, each as it was and in its order.
pub proof fn law_creations_add_one_entry(
    before: CatalogView,
    after: CatalogView,
    entry: EntryView,
    e: EntryView,
)
    requires
        is_creation(before, after, entry),
    ensures
        after.version == before.version,
        after.databases.len() == before.databases.len() + 1,
        after.databases.contains(e) <==> before.databases.contains(e) || e == entry,
        exists|k: int|
            0 <= k < after.databases.len() && after.databases[k] == entry && #[trigger]
                after.databases.remove(k) == before.databases,
        forall|i: int, j: int|
            #![trigger after.databases[i], after.databases[j]]
            0 <= i < j < after.databases.len() ==> text_less(
                after.databases[i].name,
                after.databases[j].name,
            ),
{
    let k = choose|k: int|
        0 <= k <= before.databases.len() && after.databases == #[trigger] before.databases.insert(
            k,
            entry,
        );
    assert(after.databases.remove(k) =~= before.databases);
    if before.databases.contains(e) {
        let i = choose|i: int| 0 <= i < before.databases.len() && before.databases[i] == e;
        let x = if i < k { i } else { i + 1 };
        assert(after.databases[x] == e);
    }
    if e == entry {
        assert(after.databases[k] == e);
    }
    if after.databases.contains(e) && e != entry {
        let i = choose|i: int| 0 <= i < after.databases.len() && after.databases[i] == e;
        let x = if i < k { i } else { i - 1 };
        assert(before.databases[x] == e);
    }
}

/// A removal takes the entry at its position away and keeps every other, each as it was and in its
/// order.
pub proof fn law_removals_take_one_entry(before: CatalogView, after: CatalogView, i: int, j: int)
    requires
        is_removal(before, after, i),
    ensures
        after.version == before.version,
        after.databases.len() + 1 == before.databases.len(),
        0 <= j < i ==> after.databases[j] == before.databases[j],
        i <= j < after.databases.len() ==> after.databases[j] == before.databases[j + 1],
{
}

/// A rename gives the entry its new name and its new place and changes nothing else of it or of any
/// other.
pub proof fn law_renames_move_one_entry(
    before: CatalogView,
    after: CatalogView,
    i: int,
    name: Seq<char>,
)
    requires
        is_rename(before, after, i, name),
    ensures
        0 <= i < before.databases.len(),
        after.version == before.version,
        exists|k: int|
            0 <= k < after.databases.len() && after.databases[k].id == before.databases[i].id
                && after.databases[k].state == before.databases[i].state && after.databases[k].name
                == name && #[trigger] after.databases.remove(k) == before.databases.remove(i),
{
    let rest = CatalogView { version: before.version, databases: before.databases.remove(i) };
    let entry = renamed(before.databases[i], name);
    law_creations_add_one_entry(rest, after, entry, entry);
}

/// A selected Database that is gone is told so, and a retry does not mend it.
pub proof fn law_gone_selections_are_told()
    ensures
        selection_gone_view().code is DatabaseNotFound,
        selection_gone_view().message
            == "the selected Database no longer exists; select a Database again"@,
        !selection_gone_view().retryable,
{
}

/// A name means the first entry that has it: an entry at that place, with that name, and none before
/// it; so a name means one entry at most.
pub proof fn law_names_mean_their_first_entry(
    databases: Seq<EntryView>,
    name: Seq<char>,
    i: int,
    j: int,
)
    ensures
        first_named(databases, name, i) <==> 0 <= i < databases.len() && databases[i].name == name
            && !exists|k: int| 0 <= k < i && (#[trigger] databases[k]).name == name,
        first_named(databases, name, i) && first_named(databases, name, j) ==> i == j,
{
    if first_named(databases, name, i) && first_named(databases, name, j) {
        assert(databases[i].name == name && databases[j].name == name);
    }
}

} // verus!
