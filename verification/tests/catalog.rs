//! Database names, catalog validity and the changes of a catalog.

use nostdb_server::catalog::{
    valid_database_name, validate_catalog, validate_identified_catalog, Catalog, CatalogDatabase,
};
use nostdb_server::client::ErrorCode;
use nostdb_server::lifecycle::{
    admit_create, check_selected, find_database, list_databases, plan_create, plan_drop,
    plan_rename, select_database,
};

const FIRST: &str = "0f3b1c6e-9f0a-4a7e-8f25-3d2a60b3a111";
const SECOND: &str = "1c9d7f52-6f0c-4d1b-9a57-0c8e7d10b222";
const THIRD: &str = "2ab8e4d3-1b2c-4f3d-8e4f-5a6b7c8d9333";

fn entry(id: &str, name: &str) -> CatalogDatabase {
    CatalogDatabase {
        id: id.to_owned(),
        name: name.to_owned(),
        state: "ready".to_owned(),
    }
}

fn catalog(entries: &[(&str, &str)]) -> Catalog {
    Catalog {
        catalog_version: 1,
        databases: entries.iter().map(|(id, name)| entry(id, name)).collect(),
    }
}

fn refusal(catalog: &Catalog) -> String {
    validate_catalog(catalog)
        .expect_err("the catalog is invalid")
        .text()
        .to_owned()
}

#[test]
fn names_are_portable_and_path_independent() {
    for valid in ["a", "knowledge", "team_graph-2"] {
        assert!(valid_database_name(valid), "{valid}");
    }
    for invalid in ["", "Upper", "2first", "../escape", "a.b", "한글"] {
        assert!(!valid_database_name(invalid), "{invalid}");
    }
}

#[test]
fn names_hold_at_most_sixty_three_characters() {
    assert!(valid_database_name(&"a".repeat(63)));
    assert!(!valid_database_name(&"a".repeat(64)));
    assert!(!valid_database_name("_a"));
    assert!(!valid_database_name("-a"));
    assert!(!valid_database_name("a b"));
}

#[test]
fn a_valid_catalog_is_accepted() {
    assert_eq!(validate_catalog(&catalog(&[])), Ok(()));
    assert_eq!(
        validate_catalog(&catalog(&[(FIRST, "alpha"), (SECOND, "beta")])),
        Ok(())
    );
    let simple = FIRST.replace('-', "");
    assert_eq!(validate_catalog(&catalog(&[(&simple, "alpha")])), Ok(()));
}

#[test]
fn each_fault_of_a_catalog_is_named() {
    let mut unsupported = catalog(&[]);
    unsupported.catalog_version = 12;
    assert_eq!(
        refusal(&unsupported),
        "unsupported catalog_version 12; this binary supports exactly 1"
    );
    assert_eq!(
        refusal(&catalog(&[("alpha", "alpha")])),
        "catalog contains invalid stable Database ID `alpha`"
    );
    assert_eq!(
        refusal(&catalog(&[(FIRST, "Alpha")])),
        "catalog contains invalid Database name `Alpha`"
    );
    let mut dropped = catalog(&[(FIRST, "alpha")]);
    dropped.databases[0].state = "dropped".to_owned();
    assert_eq!(
        refusal(&dropped),
        "catalog Database `alpha` has unsupported state `dropped`"
    );
    assert_eq!(
        refusal(&catalog(&[(FIRST, "alpha"), (FIRST, "beta")])),
        "catalog contains duplicate Database identity or name"
    );
    assert_eq!(
        refusal(&catalog(&[(FIRST, "alpha"), (SECOND, "alpha")])),
        "catalog contains duplicate Database identity or name"
    );
    assert_eq!(
        refusal(&catalog(&[(FIRST, "beta"), (SECOND, "alpha")])),
        "catalog Databases must be sorted by unique name"
    );
}

#[test]
fn the_first_faulty_entry_is_reported() {
    let faulty = catalog(&[(FIRST, "beta"), (SECOND, "Alpha")]);
    assert_eq!(
        validate_identified_catalog(&faulty, &vec![true, true])
            .expect_err("a name is invalid")
            .text(),
        "catalog contains invalid Database name `Alpha`"
    );
    assert_eq!(
        validate_identified_catalog(&faulty, &vec![false, true])
            .expect_err("an identity is invalid")
            .text(),
        format!("catalog contains invalid stable Database ID `{FIRST}`")
    );
}

#[test]
fn names_are_ordered_by_their_bytes() {
    assert_eq!(
        validate_catalog(&catalog(&[(FIRST, "a-b"), (SECOND, "a0"), (THIRD, "a_b")])),
        Ok(())
    );
    assert!(validate_catalog(&catalog(&[(FIRST, "ab"), (SECOND, "a")])).is_err());
}

#[test]
fn databases_are_found_by_name_and_by_identity() {
    let catalog = catalog(&[(FIRST, "alpha"), (SECOND, "beta")]);
    assert_eq!(find_database(&catalog, "beta"), Some(1));
    assert_eq!(find_database(&catalog, SECOND), None);
    let listed = list_databases(&catalog);
    assert_eq!(listed.len(), 2);
    assert_eq!(listed[0].name, "alpha");
    assert_eq!(listed[1].id, SECOND);
    let selected = select_database(&catalog, "alpha").expect("alpha exists");
    assert_eq!((selected.id.as_str(), selected.state.as_str()), (FIRST, "ready"));
    let missing = select_database(&catalog, "gamma").expect_err("gamma does not exist");
    assert_eq!(missing.code, ErrorCode::DatabaseNotFound);
    assert!(!missing.retryable);
    assert_eq!(check_selected(&catalog, SECOND), Ok(()));
    assert_eq!(
        check_selected(&catalog, THIRD).expect_err("the identity is gone").code,
        ErrorCode::DatabaseNotFound
    );
}

#[test]
fn creation_keeps_the_order_and_refuses_taken_names() {
    let before = catalog(&[(FIRST, "alpha"), (SECOND, "gamma")]);
    assert_eq!(admit_create(&before, "beta"), Ok(()));
    let change = plan_create(&before, THIRD, "beta");
    assert_eq!(change.entry, entry(THIRD, "beta"));
    assert_eq!(
        change.catalog,
        catalog(&[(FIRST, "alpha"), (THIRD, "beta"), (SECOND, "gamma")])
    );
    assert_eq!(
        admit_create(&before, "Beta").expect_err("the name is invalid").code,
        ErrorCode::InvalidDatabaseName
    );
    assert_eq!(
        admit_create(&before, "gamma").expect_err("the name is taken").code,
        ErrorCode::DatabaseAlreadyExists
    );
}

#[test]
fn renaming_moves_an_entry_and_keeps_its_identity() {
    let before = catalog(&[(FIRST, "alpha"), (SECOND, "beta")]);
    let change = plan_rename(&before, "alpha", "omega").expect("alpha is renamed");
    assert_eq!(change.entry, entry(FIRST, "omega"));
    assert_eq!(change.catalog, catalog(&[(SECOND, "beta"), (FIRST, "omega")]));
    let back = plan_rename(&change.catalog, "omega", "alpha").expect("the name is given back");
    assert!(back.catalog.same(&before));
    assert_eq!(check_selected(&change.catalog, FIRST), Ok(()));

    let refusal = |from: &str, to: &str| {
        plan_rename(&before, from, to).err().expect("the renaming is refused").code
    };
    assert_eq!(refusal("alpha", "Omega"), ErrorCode::InvalidDatabaseName);
    assert_eq!(refusal("alpha", "beta"), ErrorCode::DatabaseAlreadyExists);
    assert_eq!(refusal("gamma", "omega"), ErrorCode::DatabaseNotFound);
}

#[test]
fn dropping_undoes_creation_and_asks_for_the_name() {
    let before = catalog(&[(FIRST, "alpha"), (SECOND, "gamma")]);
    let created = plan_create(&before, THIRD, "beta");
    let dropped = plan_drop(&created.catalog, "beta", "beta").expect("beta is dropped");
    assert_eq!(dropped.entry, entry(THIRD, "beta"));
    assert!(dropped.catalog.same(&before));
    let unconfirmed = plan_drop(&before, "alpha", "gamma").err().expect("the names differ");
    assert_eq!(unconfirmed.code, ErrorCode::ProtocolViolation);
    assert_eq!(
        plan_drop(&before, "beta", "beta").err().expect("beta is missing").code,
        ErrorCode::DatabaseNotFound
    );
}

#[test]
fn a_selection_outlives_a_rename_and_a_reused_name() {
    let before = catalog(&[(FIRST, "alpha")]);
    let renamed = plan_rename(&before, "alpha", "beta").expect("alpha is renamed");
    let reused = plan_create(&renamed.catalog, SECOND, "alpha");
    assert_eq!(check_selected(&reused.catalog, FIRST), Ok(()));
    assert_eq!(select_database(&reused.catalog, "alpha").expect("alpha exists").id, SECOND);
    let dropped = plan_drop(&reused.catalog, "beta", "beta").expect("beta is dropped");
    assert!(check_selected(&dropped.catalog, FIRST).is_err());
    assert_eq!(check_selected(&dropped.catalog, SECOND), Ok(()));
}

#[test]
fn identities_are_uuids_in_any_of_their_forms() {
    let simple = FIRST.replace('-', "");
    for valid in [
        FIRST.to_owned(),
        FIRST.to_uppercase(),
        simple.clone(),
        format!("{{{FIRST}}}"),
        format!("urn:uuid:{FIRST}"),
        format!("Urn:UUID:{FIRST}"),
    ] {
        assert!(validate_catalog(&catalog(&[(&valid, "a")])).is_ok(), "{valid}");
        assert!(uuid::Uuid::parse_str(&valid).is_ok());
    }
    for invalid in [
        String::new(),
        format!("{{{simple}}}"),
        format!("{{{FIRST}"),
        format!("urn-uuid:{FIRST}"),
        format!("g{}", &FIRST[1..]),
        format!("{simple}0"),
        FIRST.replace('-', "_"),
        format!("é{}", &simple[2..]),
    ] {
        assert_eq!(
            refusal(&catalog(&[(&invalid, "a")])),
            format!("catalog contains invalid stable Database ID `{invalid}`")
        );
        assert!(uuid::Uuid::parse_str(&invalid).is_err());
    }
}
