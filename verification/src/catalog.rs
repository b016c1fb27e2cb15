//! The managed catalog: its entries, its validity, and the changes that keep it valid.

use vstd::prelude::*;
use vstd::string::*;

use crate::client::DatabaseSummary;
use crate::failure::ServerError;
use crate::text::{
    decimal, decimal_text, join2, join3, lemma_text_less_order, text_before, text_eq, text_less,
};

verus! {

/// The catalog format version.
pub const CATALOG_VERSION: u32 = 1;

/// The lifecycle journal's format version.
pub const OPERATION_VERSION: u32 = 1;

/// One managed Database.
#[derive(Debug, PartialEq, Eq)]
pub struct CatalogDatabase {
    /// Immutable stable identity.
    pub id: String,
    /// Unique user-facing name.
    pub name: String,
    /// Durable lifecycle state.
    pub state: String,
}

/// The durable list of managed Databases.
#[derive(Debug, PartialEq, Eq)]
pub struct Catalog {
    /// Catalog format version.
    pub catalog_version: u32,
    /// The Databases, ordered by name.
    pub databases: Vec<CatalogDatabase>,
}

/// What a catalog entry says.
#[verifier::ext_equal]
pub struct EntryView {
    /// Immutable stable identity.
    pub id: Seq<char>,
    /// Unique user-facing name.
    pub name: Seq<char>,
    /// Durable lifecycle state.
    pub state: Seq<char>,
}

/// What a catalog says.
#[verifier::ext_equal]
pub struct CatalogView {
    /// Catalog format version.
    pub version: u32,
    /// The entries in order.
    pub databases: Seq<EntryView>,
}

impl View for CatalogDatabase {
    type V = EntryView;

    open spec fn view(&self) -> EntryView {
        EntryView { id: self.id@, name: self.name@, state: self.state@ }
    }
}

/// The views of catalog entries.
pub open spec fn entries_view(databases: Seq<CatalogDatabase>) -> Seq<EntryView> {
    Seq::new(databases.len(), |i: int| databases[i]@)
}

impl View for Catalog {
    type V = CatalogView;

    open spec fn view(&self) -> CatalogView {
        CatalogView { version: self.catalog_version, databases: entries_view(self.databases@) }
    }
}

/// Whether a summary shows this entry.
pub open spec fn is_summary_of(summary: DatabaseSummary, entry: EntryView) -> bool {
    summary.id@ == entry.id && summary.name@ == entry.name && summary.state@ == entry.state
}

impl CatalogDatabase {
    /// The entry as clients see it.
    pub fn summary(&self) -> (summary: DatabaseSummary)
        ensures
            is_summary_of(summary, self@),
            summary.id == self.id,
            summary.name == self.name,
            summary.state == self.state,
    {
        DatabaseSummary {
            id: self.id.clone(),
            name: self.name.clone(),
            state: self.state.clone(),
        }
    }

    /// A copy of the entry.
    pub fn copy(&self) -> (entry: CatalogDatabase)
        ensures
            entry == *self,
    {
        CatalogDatabase {
            id: self.id.clone(),
            name: self.name.clone(),
            state: self.state.clone(),
        }
    }
}

/// The characters of a Database name's first position.
pub open spec fn is_name_start(c: char) -> bool {
    'a' <= c && c <= 'z'
}

/// The characters of a Database name.
pub open spec fn is_name_char(c: char) -> bool {
    ('a' <= c && c <= 'z') || ('0' <= c && c <= '9') || c == '_' || c == '-'
}

/// Database names match `[a-z][a-z0-9_-]{0,62}`.
pub open spec fn is_database_name(name: Seq<char>) -> bool {
    &&& 1 <= name.len() <= 63
    &&& is_name_start(name[0])
    &&& forall|i: int| 0 <= i < name.len() ==> is_name_char(#[trigger] name[i])
}

/// Tests whether `value` is a Database name.
pub fn valid_database_name(value: &str) -> (valid: bool)
    ensures
        valid == is_database_name(value@),
{
    let length: usize = value.unicode_len();
    if length == 0 || length > 63 {
        return false;
    }
    let first: char = value.get_char(0);
    if !('a' <= first && first <= 'z') {
        return false;
    }
    let mut i: usize = 0;
    while i < length
        invariant
            length == value@.len(),
            i <= length,
            forall|k: int| 0 <= k < i ==> is_name_char(#[trigger] value@[k]),
        decreases length - i,
    {
        let c: char = value.get_char(i);
        if !(('a' <= c && c <= 'z') || ('0' <= c && c <= '9') || c == '_' || c == '-') {
            assert(!is_name_char(value@[i as int]));
            return false;
        }
        i = i + 1;
    }
    true
}

/// A hexadecimal digit in either case.
pub open spec fn is_any_hex_digit(c: char) -> bool {
    ('0' <= c && c <= '9') || ('a' <= c && c <= 'f') || ('A' <= c && c <= 'F')
}

/// Hexadecimal digits in groups of 8, 4, 4, 4 and 12 with hyphens between them.
pub open spec fn has_uuid_groups(text: Seq<char>) -> bool {
    &&& text.len() == 36
    &&& forall|i: int|
        0 <= i < 36 ==> if i == 8 || i == 13 || i == 18 || i == 23 {
            #[trigger] text[i] == '-'
        } else {
            is_any_hex_digit(text[i])
        }
}

/// Whether a text is a UUID: 32 hexadecimal digits, or the hyphenated form, bare, in braces, or
/// behind `urn:uuid:` in any case.
pub open spec fn uuid_parses(text: Seq<char>) -> bool {
    ||| text.len() == 32 && forall|i: int| 0 <= i < 32 ==> is_any_hex_digit(#[trigger] text[i])
    ||| has_uuid_groups(text)
    ||| text.len() == 38 && text[0] == '{' && text[37] == '}' && has_uuid_groups(
        text.subrange(1, 37),
    )
    ||| text.len() == 45 && has_uuid_groups(text.skip(9)) && forall|i: int|
        0 <= i < 9 ==> (#[trigger] text[i] == "urn:uuid:"@[i] || text[i] == "URN:UUID:"@[i])
}

/// Calls `uuid::Uuid::parse_str`, which succeeds on the simple, the hyphenated, the braced and the
/// URN form, with digits and prefix in either case, and on nothing else.
#[verifier::external_body]
fn parses_as_uuid(text: &str) -> (parses: bool)
    ensures
        parses == uuid_parses(text@),
{
    uuid::Uuid::parse_str(text).is_ok()
}

/// A lowercase hexadecimal digit.
pub open spec fn is_hex_digit(c: char) -> bool {
    ('0' <= c && c <= '9') || ('a' <= c && c <= 'f')
}

/// The hyphenated form: 8, 4, 4, 4 and 12 lowercase hexadecimal digits.
pub open spec fn is_hyphenated_uuid(text: Seq<char>) -> bool {
    &&& text.len() == 36
    &&& forall|i: int|
        0 <= i < 36 ==> if i == 8 || i == 13 || i == 18 || i == 23 {
            #[trigger] text[i] == '-'
        } else {
            is_hex_digit(text[i])
        }
}

/// Calls `uuid::Uuid::new_v4` and renders the result with its `Display`: 36 characters in the
/// hyphenated lowercase form. The digits are random: nothing else is said of them.
#[verifier::external_body]
pub(crate) fn random_identity() -> (id: String)
    ensures
        is_hyphenated_uuid(id@),
{
    uuid::Uuid::new_v4().to_string()
}

/// Whether an entry's identity or name occurs before position `i`.
pub open spec fn repeats(databases: Seq<EntryView>, i: int) -> bool {
    exists|j: int|
        #![trigger databases[j]]
        0 <= j < i && (databases[j].id == databases[i].id || databases[j].name
            == databases[i].name)
}

/// What is wrong with the entry at position `i`, whose identity `identified` says is a UUID.
pub open spec fn entry_error(databases: Seq<EntryView>, i: int, identified: bool) -> Option<
    Seq<char>,
> {
    let entry = databases[i];
    if !identified {
        Some("catalog contains invalid stable Database ID `"@ + entry.id + "`"@)
    } else if !is_database_name(entry.name) {
        Some("catalog contains invalid Database name `"@ + entry.name + "`"@)
    } else if entry.state != "ready"@ {
        Some(
            "catalog Database `"@ + entry.name + "` has unsupported state `"@ + (entry.state
                + "`"@),
        )
    } else if repeats(databases, i) {
        Some("catalog contains duplicate Database identity or name"@)
    } else {
        None
    }
}

/// What is wrong with the first faulty entry at or after position `i`.
pub open spec fn entries_error(
    databases: Seq<EntryView>,
    identified: Seq<bool>,
    i: int,
) -> Option<Seq<char>>
    decreases databases.len() - i,
{
    if i < 0 || i >= databases.len() {
        None
    } else {
        match entry_error(databases, i, identified[i]) {
            Some(error) => Some(error),
            None => entries_error(databases, identified, i + 1),
        }
    }
}

/// Whether the names stand in strictly increasing order.
pub open spec fn names_sorted(databases: Seq<EntryView>) -> bool {
    forall|i: int, j: int|
        #![trigger databases[i], databases[j]]
        0 <= i < j < databases.len() ==> text_less(databases[i].name, databases[j].name)
}

/// What is wrong with a catalog, where `identified` says which identities are UUIDs.
pub open spec fn catalog_error(catalog: CatalogView, identified: Seq<bool>) -> Option<Seq<char>> {
    if catalog.version != CATALOG_VERSION {
        Some(
            "unsupported catalog_version "@ + decimal_text(catalog.version as nat)
                + "; this binary supports exactly 1"@,
        )
    } else if entries_error(catalog.databases, identified, 0) is Some {
        entries_error(catalog.databases, identified, 0)
    } else if !names_sorted(catalog.databases) {
        Some("catalog Databases must be sorted by unique name"@)
    } else {
        None
    }
}

/// Which identities the `uuid` crate reads.
pub open spec fn identified_by_uuid(databases: Seq<EntryView>) -> Seq<bool> {
    Seq::new(databases.len(), |i: int| uuid_parses(databases[i].id))
}

/// A valid entry taken by itself.
pub open spec fn valid_entry(entry: EntryView) -> bool {
    uuid_parses(entry.id) && is_database_name(entry.name) && entry.state == "ready"@
}

/// A valid catalog: the known version, valid entries, no identity twice, names in increasing
/// order.
pub open spec fn valid_catalog(catalog: CatalogView) -> bool {
    &&& catalog.version == CATALOG_VERSION
    &&& forall|i: int|
        0 <= i < catalog.databases.len() ==> valid_entry(#[trigger] catalog.databases[i])
    &&& forall|i: int, j: int|
        #![trigger catalog.databases[i], catalog.databases[j]]
        0 <= i < j < catalog.databases.len() ==> catalog.databases[i].id
            != catalog.databases[j].id
    &&& names_sorted(catalog.databases)
}

proof fn lemma_entries_error_none(databases: Seq<EntryView>, identified: Seq<bool>, i: int)
    requires
        0 <= i <= databases.len(),
        entries_error(databases, identified, i) is None,
    ensures
        forall|k: int|
            i <= k < databases.len() ==> entry_error(databases, k, #[trigger] identified[k])
                is None,
    decreases databases.len() - i,
{
    if i < databases.len() {
        lemma_entries_error_none(databases, identified, i + 1);
    }
}

proof fn lemma_entries_error_some(
    databases: Seq<EntryView>,
    identified: Seq<bool>,
    i: int,
    stop: int,
)
    requires
        0 <= i <= stop <= databases.len(),
        forall|k: int|
            i <= k < stop ==> entry_error(databases, k, #[trigger] identified[k]) is None,
    ensures
        entries_error(databases, identified, i) == entries_error(databases, identified, stop),
    decreases stop - i,
{
    if i < stop {
        assert(entry_error(databases, i, identified[i]) is None);
        lemma_entries_error_some(databases, identified, i + 1, stop);
    }
}

/// A catalog has no error exactly when it is valid.
pub proof fn law_valid_catalogs_have_no_error(catalog: CatalogView)
    ensures
        catalog_error(catalog, identified_by_uuid(catalog.databases)) is None <==> valid_catalog(
            catalog,
        ),
{
    let databases = catalog.databases;
    let identified = identified_by_uuid(databases);
    if catalog_error(catalog, identified) is None {
        lemma_entries_error_none(databases, identified, 0);
        assert forall|i: int| 0 <= i < databases.len() implies valid_entry(
            #[trigger] databases[i],
        ) by {
            assert(entry_error(databases, i, identified[i]) is None);
        }
        assert forall|i: int, j: int|
            #![trigger databases[i], databases[j]]
            0 <= i < j < databases.len() implies databases[i].id != databases[j].id by {
            assert(entry_error(databases, j, identified[j]) is None);
            assert(!repeats(databases, j));
        }
    }
    if valid_catalog(catalog) {
        assert forall|k: int| 0 <= k < databases.len() implies entry_error(
            databases,
            k,
            #[trigger] identified[k],
        ) is None by {
            assert(valid_entry(databases[k]));
            if repeats(databases, k) {
                let j = choose|j: int|
                    #![trigger databases[j]]
                    0 <= j < k && (databases[j].id == databases[k].id || databases[j].name
                        == databases[k].name);
                lemma_text_less_order(databases[j].name, databases[k].name, databases[k].name);
                assert(text_less(databases[j].name, databases[k].name));
            }
        }
        lemma_entries_error_some(databases, identified, 0, databases.len() as int);
    }
}

fn entry_failure(catalog: &Catalog, i: usize, identified: bool) -> (error: Option<ServerError>)
    requires
        i < catalog.databases@.len(),
    ensures
        entry_error(catalog@.databases, i as int, identified) == (match error {
            Some(error) => Some(error@),
            None => None,
        }),
{
    let entry = &catalog.databases[i];
    assert(entry@ == catalog@.databases[i as int]);
    if !identified {
        return Some(
            ServerError(
                join3("catalog contains invalid stable Database ID `", entry.id.as_str(), "`"),
            ),
        );
    }
    if !valid_database_name(entry.name.as_str()) {
        return Some(
            ServerError(
                join3("catalog contains invalid Database name `", entry.name.as_str(), "`"),
            ),
        );
    }
    if !text_eq(entry.state.as_str(), "ready") {
        let prefix = join3(
            "catalog Database `",
            entry.name.as_str(),
            "` has unsupported state `",
        );
        let state = join2(entry.state.as_str(), "`");
        return Some(ServerError(join2(prefix.as_str(), state.as_str())));
    }
    let mut j: usize = 0;
    while j < i
        invariant
            j <= i,
            i < catalog.databases@.len(),
            *entry == catalog.databases@[i as int],
            identified,
            is_database_name(entry.name@),
            entry.state@ == "ready"@,
            forall|k: int|
                #![trigger catalog@.databases[k]]
                0 <= k < j ==> catalog@.databases[k].id != entry.id@
                    && catalog@.databases[k].name != entry.name@,
        decreases i - j,
    {
        let other = &catalog.databases[j];
        assert(other@ == catalog@.databases[j as int]);
        if text_eq(other.id.as_str(), entry.id.as_str()) || text_eq(
            other.name.as_str(),
            entry.name.as_str(),
        ) {
            assert(repeats(catalog@.databases, i as int));
            return Some(
                ServerError::new("catalog contains duplicate Database identity or name"),
            );
        }
        j = j + 1;
    }
    assert(!repeats(catalog@.databases, i as int));
    None
}

fn sorted_by_name(catalog: &Catalog) -> (sorted: bool)
    ensures
        sorted == names_sorted(catalog@.databases),
{
    let ghost databases = catalog@.databases;
    if catalog.databases.len() == 0 {
        return true;
    }
    let mut i: usize = 1;
    while i < catalog.databases.len()
        invariant
            1 <= i <= catalog.databases@.len(),
            databases == catalog@.databases,
            names_sorted(databases.take(i as int)),
        decreases catalog.databases.len() - i,
    {
        let left = &catalog.databases[i - 1];
        let right = &catalog.databases[i];
        assert(left@ == databases[i - 1]);
        assert(right@ == databases[i as int]);
        if !text_before(left.name.as_str(), right.name.as_str()) {
            return false;
        }
        proof {
            let prefix = databases.take(i + 1);
            assert forall|a: int, b: int|
                #![trigger prefix[a], prefix[b]]
                0 <= a < b < prefix.len() implies text_less(prefix[a].name, prefix[b].name) by {
                let before = databases.take(i as int);
                if b < i {
                    assert(before[a] == prefix[a] && before[b] == prefix[b]);
                } else if a < i - 1 {
                    assert(before[a] == prefix[a] && before[i - 1] == prefix[i - 1]);
                    lemma_text_less_order(prefix[a].name, prefix[i - 1].name, prefix[b].name);
                }
            }
        }
        i = i + 1;
    }
    proof {
        assert(databases.take(i as int) =~= databases);
    }
    true
}

/// Validates a catalog whose entries' identities were read before: `identified` says of each
/// whether it is a UUID.
pub fn validate_identified_catalog(catalog: &Catalog, identified: &Vec<bool>) -> (result: Result<
    (),
    ServerError,
>)
    requires
        identified@.len() == catalog.databases@.len(),
    ensures
        catalog_error(catalog@, identified@) == (match result {
            Ok(()) => None,
            Err(error) => Some(error@),
        }),
{
    if catalog.catalog_version != CATALOG_VERSION {
        return Err(
            ServerError(
                join3(
                    "unsupported catalog_version ",
                    decimal(catalog.catalog_version as u64).as_str(),
                    "; this binary supports exactly 1",
                ),
            ),
        );
    }
    let ghost databases = catalog@.databases;
    let mut i: usize = 0;
    while i < catalog.databases.len()
        invariant
            i <= catalog.databases@.len(),
            identified@.len() == catalog.databases@.len(),
            databases == catalog@.databases,
            entries_error(databases, identified@, 0) == entries_error(
                databases,
                identified@,
                i as int,
            ),
            catalog.catalog_version == CATALOG_VERSION,
        decreases catalog.databases.len() - i,
    {
        match entry_failure(catalog, i, identified[i]) {
            Some(error) => {
                return Err(error);
            },
            None => {},
        }
        i = i + 1;
    }
    if !sorted_by_name(catalog) {
        return Err(ServerError::new("catalog Databases must be sorted by unique name"));
    }
    Ok(())
}

/// Validates a catalog.
pub fn validate_catalog(catalog: &Catalog) -> (result: Result<(), ServerError>)
    ensures
        catalog_error(catalog@, identified_by_uuid(catalog@.databases)) == (match result {
            Ok(()) => None,
            Err(error) => Some(error@),
        }),
        result is Ok <==> valid_catalog(catalog@),
{
    let mut identified: Vec<bool> = Vec::new();
    let mut i: usize = 0;
    while i < catalog.databases.len()
        invariant
            i <= catalog.databases@.len(),
            identified@.len() == i,
            forall|k: int|
                0 <= k < i ==> identified@[k] == uuid_parses(catalog@.databases[k].id),
        decreases catalog.databases.len() - i,
    {
        assert(catalog@.databases[i as int].id == catalog.databases@[i as int].id@);
        identified.push(parses_as_uuid(catalog.databases[i].id.as_str()));
        i = i + 1;
    }
    proof {
        assert(identified@ =~= identified_by_uuid(catalog@.databases));
        law_valid_catalogs_have_no_error(catalog@);
    }
    validate_identified_catalog(catalog, &identified)
}

/// Database names are portable and stand for no path: lowercase ASCII letters, digits, `_` and `-`
/// alone, so neither a separator nor a dot occurs in one.
pub proof fn law_names_are_path_independent(name: Seq<char>, i: int)
    requires
        is_database_name(name),
        0 <= i < name.len(),
    ensures
        name[i] != '/',
        name[i] != '\\',
        name[i] != '.',
        name[i] != ':',
        (name[i] as u32) < 0x80,
        !('A' <= name[i] && name[i] <= 'Z'),
{
    assert(is_name_char(name[i]));
}

/// A Database name is one to 63 characters long, begins with a lowercase letter and goes on with
/// lowercase letters, digits, hyphens and underscores.
pub proof fn law_database_names_are_portable(name: Seq<char>)
    ensures
        is_database_name(name) <==> {
            &&& 1 <= name.len() < 64
            &&& 'a' <= name[0] <= 'z'
            &&& forall|i: int|
                0 < i < name.len() ==> {
                    ||| 'a' <= #[trigger] name[i] <= 'z'
                    ||| '0' <= name[i] <= '9'
                    ||| name[i] == '-'
                    ||| name[i] == '_'
                }
        },
{
    if 1 <= name.len() < 64 && 'a' <= name[0] <= 'z' && forall|i: int|
        0 < i < name.len() ==> {
            ||| 'a' <= #[trigger] name[i] <= 'z'
            ||| '0' <= name[i] <= '9'
            ||| name[i] == '-'
            ||| name[i] == '_'
        } {
        assert forall|i: int| 0 <= i < name.len() implies is_name_char(#[trigger] name[i]) by {}
    }
    if is_database_name(name) {
        assert forall|i: int| 0 < i < name.len() implies {
            ||| 'a' <= #[trigger] name[i] <= 'z'
            ||| '0' <= name[i] <= '9'
            ||| name[i] == '-'
            ||| name[i] == '_'
        } by {
            assert(is_name_char(name[i]));
        }
    }
}

/// A catalog has no error exactly where it is of version 1, every entry has a UUID, a Database name
/// and the state `ready`, no two entries share an identity, and the names increase.
pub proof fn law_catalogs_are_accepted_on_these_terms(catalog: CatalogView)
    ensures
        catalog_error(catalog, identified_by_uuid(catalog.databases)) is None <==> {
            &&& catalog.version == 1
            &&& forall|i: int|
                0 <= i < catalog.databases.len() ==> uuid_parses(
                    (#[trigger] catalog.databases[i]).id,
                ) && is_database_name(catalog.databases[i].name) && catalog.databases[i].state
                    == "ready"@
            &&& forall|i: int, j: int|
                #![trigger catalog.databases[i], catalog.databases[j]]
                0 <= i < j < catalog.databases.len() ==> catalog.databases[i].id
                    != catalog.databases[j].id && text_less(
                    catalog.databases[i].name,
                    catalog.databases[j].name,
                )
        },
{
    law_valid_catalogs_have_no_error(catalog);
    if valid_catalog(catalog) {
        assert forall|i: int| 0 <= i < catalog.databases.len() implies uuid_parses(
            (#[trigger] catalog.databases[i]).id,
        ) && is_database_name(catalog.databases[i].name) && catalog.databases[i].state
            == "ready"@ by {
            assert(valid_entry(catalog.databases[i]));
        }
    }
}

proof fn lemma_first_fault(databases: Seq<EntryView>, identified: Seq<bool>, i: int) -> (k: int)
    requires
        0 <= i <= databases.len(),
        entries_error(databases, identified, i) is Some,
    ensures
        i <= k < databases.len(),
        entry_error(databases, k, identified[k]) == entries_error(databases, identified, i),
        forall|j: int|
            i <= j < k ==> entry_error(databases, j, #[trigger] identified[j]) is None,
    decreases databases.len() - i,
{
    if entry_error(databases, i, identified[i]) is Some {
        i
    } else {
        lemma_first_fault(databases, identified, i + 1)
    }
}

/// A faulty catalog is told by its version, else by its first faulty entry, and only where every
/// entry is good by the order of the names.
pub proof fn law_the_first_fault_is_told(catalog: CatalogView, identified: Seq<bool>)
    ensures
        catalog.version != 1 ==> catalog_error(catalog, identified) == Some(
            "unsupported catalog_version "@ + decimal_text(catalog.version as nat)
                + "; this binary supports exactly 1"@,
        ),
        catalog.version == 1 && catalog_error(catalog, identified) is Some ==> {
            ||| exists|i: int|
                0 <= i < catalog.databases.len() && entry_error(
                    catalog.databases,
                    i,
                    #[trigger] identified[i],
                ) == catalog_error(catalog, identified) && (forall|j: int|
                    0 <= j < i ==> entry_error(catalog.databases, j, #[trigger] identified[j])
                        is None)
            ||| catalog_error(catalog, identified) == Some(
                "catalog Databases must be sorted by unique name"@,
            ) && forall|j: int|
                0 <= j < catalog.databases.len() ==> entry_error(
                    catalog.databases,
                    j,
                    #[trigger] identified[j],
                ) is None
        },
{
    if catalog.version == 1 && catalog_error(catalog, identified) is Some {
        if entries_error(catalog.databases, identified, 0) is Some {
            let i = lemma_first_fault(catalog.databases, identified, 0);
            assert(entry_error(catalog.databases, i, identified[i]) == catalog_error(
                catalog,
                identified,
            ));
        } else {
            lemma_entries_error_none(catalog.databases, identified, 0);
        }
    }
}

/// An entry is good exactly where its identity is one, its name and its state are good, and no
/// earlier entry has its identity or its name. What is wrong is told in this order, and names the
/// entry.
pub proof fn law_entries_are_judged_in_order(databases: Seq<EntryView>, i: int, identified: bool)
    ensures
        ({
            let entry = databases[i];
            let again = exists|j: int|
                #![trigger databases[j]]
                0 <= j < i && (databases[j].id == entry.id || databases[j].name == entry.name);
            let error = entry_error(databases, i, identified);
            &&& error is None <==> identified && is_database_name(entry.name) && entry.state
                == "ready"@ && !again
            &&& error matches Some(text) ==> text == (if !identified {
                "catalog contains invalid stable Database ID `"@ + entry.id + "`"@
            } else if !is_database_name(entry.name) {
                "catalog contains invalid Database name `"@ + entry.name + "`"@
            } else if entry.state != "ready"@ {
                "catalog Database `"@ + entry.name + "` has unsupported state `"@ + (entry.state
                    + "`"@)
            } else {
                "catalog contains duplicate Database identity or name"@
            })
        }),
{
}

/// A summary shows an entry exactly where it has the entry's identity, name and state; so two
/// entries with the same summary agree in all three.
pub proof fn law_summaries_show_the_entry(
    summary: DatabaseSummary,
    entry: EntryView,
    other: EntryView,
)
    ensures
        is_summary_of(summary, entry) <==> summary.id@ == entry.id && summary.name@ == entry.name
            && summary.state@ == entry.state,
        is_summary_of(summary, entry) && is_summary_of(summary, other) ==> entry.id == other.id
            && entry.name == other.name && entry.state == other.state,
{
}

/// An entry is seen with its identity, name and state, and a catalog with its version and every
/// entry in its order.
pub proof fn law_catalogs_are_seen_whole(database: CatalogDatabase, catalog: Catalog)
    ensures
        database@.id == database.id@,
        database@.name == database.name@,
        database@.state == database.state@,
        catalog@.version == catalog.catalog_version,
        catalog@.databases.len() == catalog.databases@.len(),
        forall|i: int|
            0 <= i < catalog.databases@.len() ==> #[trigger] catalog@.databases[i]
                == catalog.databases@[i]@,
{
}

/// A hyphenated identity has thirty-two lower-case hexadecimal digits in five groups that hyphens
/// part, and nothing else.
pub proof fn law_identities_are_hexadecimal(text: Seq<char>)
    requires
        is_hyphenated_uuid(text),
    ensures
        text.len() == 36,
        forall|i: int|
            0 <= i < 36 ==> (#[trigger] text[i] == '-' <==> i == 8 || i == 13 || i == 18 || i
                == 23),
        forall|i: int|
            0 <= i < 36 && #[trigger] text[i] != '-' ==> ('0' <= text[i] <= '9') || ('a' <= text[i]
                <= 'f'),
{
}

/// Entries are sorted exactly where each name stands before the next; so no name occurs twice.
pub proof fn law_sorted_names_increase(databases: Seq<EntryView>)
    ensures
        names_sorted(databases) <==> forall|i: int, j: int|
            #![trigger databases[i], databases[j]]
            0 <= i < j < databases.len() ==> text_less(databases[i].name, databases[j].name),
        names_sorted(databases) ==> forall|i: int, j: int|
            #![trigger databases[i], databases[j]]
            0 <= i < j < databases.len() ==> databases[i].name != databases[j].name,
{
    if names_sorted(databases) {
        assert forall|i: int, j: int|
            #![trigger databases[i], databases[j]]
            0 <= i < j < databases.len() implies databases[i].name != databases[j].name by {
            lemma_text_less_order(databases[i].name, databases[j].name, databases[j].name);
            lemma_text_less_order(databases[j].name, databases[j].name, databases[j].name);
        }
    }
}

} // verus!
