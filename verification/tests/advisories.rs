use rustsec::error::{Field, Reason};
use rustsec::metadata::{Category, Collection, Informational};
use rustsec::{AdvisoryDatabase, Error};

fn single_entry_doc() -> String {
    let mut doc = String::new();
    doc.push_str("[[advisory]]\n");
    doc.push_str("id = \"RUSTSEC-2017-0001\"\n");
    doc.push_str("package = \"sodiumoxide\"\n");
    doc.push_str("date = \"2017-01-26\"\n");
    doc.push_str("patched_versions = [\">= 0.0.14\"]\n");
    doc.push_str("url = \"https://github.com/dnaq/sodiumoxide/issues/154\"\n");
    doc.push_str("title = \"scalarmult() vulnerable to degenerate public keys\"\n");
    doc.push_str("description = \"The `scalarmult()` function in curve25519 mishandles degenerate keys.\"\n");
    doc
}

#[test]
fn single_entry_round_trip() {
    let doc = single_entry_doc();
    let db = AdvisoryDatabase::from_toml(&doc).unwrap();
    let advisory = db.find("RUSTSEC-2017-0001").unwrap();
    assert_eq!(advisory.id, "RUSTSEC-2017-0001");
    assert_eq!(advisory.package, "sodiumoxide");
    assert_eq!(advisory.patched_versions.len(), 1);
    assert_eq!(advisory.patched_versions[0], ">= 0.0.14");
    assert_eq!(advisory.date, "2017-01-26");
    assert_eq!(
        advisory.url,
        Some(String::from("https://github.com/dnaq/sodiumoxide/issues/154"))
    );
    assert_eq!(
        advisory.title,
        "scalarmult() vulnerable to degenerate public keys"
    );
    assert_eq!(&advisory.description[0..30], "The `scalarmult()` function in");

    let crate_advisories = db.find_by_crate("sodiumoxide");
    assert_eq!(crate_advisories.len(), 1);
    assert_eq!(*advisory, *crate_advisories[0]);
}

#[test]
fn two_entries_same_package_keep_document_order() {
    let mut doc = String::new();
    doc.push_str("[[advisory]]\n");
    doc.push_str("id = \"RUSTSEC-2020-0001\"\n");
    doc.push_str("package = \"foo\"\n");
    doc.push_str("date = \"2020-01-01\"\n");
    doc.push_str("[[advisory]]\n");
    doc.push_str("id = \"RUSTSEC-2020-0002\"\n");
    doc.push_str("package = \"foo\"\n");
    doc.push_str("date = \"2020-02-02\"\n");
    let db = AdvisoryDatabase::from_toml(&doc).unwrap();
    let list = db.find_by_crate("foo");
    assert_eq!(list.len(), 2);
    assert_eq!(list[0].id, "RUSTSEC-2020-0001");
    assert_eq!(list[1].id, "RUSTSEC-2020-0002");
}

#[test]
fn find_absent_id_is_not_found() {
    let doc = single_entry_doc();
    let db = AdvisoryDatabase::from_toml(&doc).unwrap();
    assert!(db.find("RUSTSEC-2017-0002").is_none());
    assert!(db.find("no-advisory-id").is_none());
}

#[test]
fn find_by_absent_package_is_empty() {
    let doc = single_entry_doc();
    let db = AdvisoryDatabase::from_toml(&doc).unwrap();
    assert_eq!(db.find_by_crate("libsodium").len(), 0);
}

#[test]
fn empty_advisory_list_builds_empty_database() {
    let db = AdvisoryDatabase::from_toml("advisory = []\n").unwrap();
    assert!(db.find("RUSTSEC-2017-0001").is_none());
    assert_eq!(db.find_by_crate("sodiumoxide").len(), 0);
}

#[test]
fn missing_id_fails_whole_build() {
    let mut doc = String::new();
    doc.push_str("[[advisory]]\n");
    doc.push_str("package = \"foo\"\n");
    doc.push_str("date = \"2020-01-01\"\n");
    let err = AdvisoryDatabase::from_toml(&doc).unwrap_err();
    assert_eq!(
        err,
        Error::EntryInvalid { index: 0, field: Field::Id, reason: Reason::Missing }
    );
}

#[test]
fn one_bad_entry_denies_the_whole_database() {
    let mut doc = String::new();
    doc.push_str("[[advisory]]\n");
    doc.push_str("id = \"RUSTSEC-2020-0001\"\n");
    doc.push_str("package = \"foo\"\n");
    doc.push_str("date = \"2020-01-01\"\n");
    doc.push_str("[[advisory]]\n");
    doc.push_str("id = \"RUSTSEC-2020-0002\"\n");
    doc.push_str("package = \"bar\"\n");
    let err = AdvisoryDatabase::from_toml(&doc).unwrap_err();
    assert_eq!(
        err,
        Error::EntryInvalid { index: 1, field: Field::Date, reason: Reason::Missing }
    );
}

#[test]
fn absent_advisory_key_is_structure_invalid() {
    let err = AdvisoryDatabase::from_toml("something = 1\n").unwrap_err();
    assert_eq!(err, Error::StructureInvalid);
}

#[test]
fn non_array_advisory_key_is_structure_invalid() {
    let err = AdvisoryDatabase::from_toml("advisory = \"not-a-list\"\n").unwrap_err();
    assert_eq!(err, Error::StructureInvalid);
    let err = AdvisoryDatabase::from_toml("[advisory]\nid = \"x\"\n").unwrap_err();
    assert_eq!(err, Error::StructureInvalid);
}

#[test]
fn unparsable_text_is_structure_invalid() {
    let err = AdvisoryDatabase::from_toml("= ] [ not toml").unwrap_err();
    assert_eq!(err, Error::StructureInvalid);
}

#[test]
fn absent_optional_fields_decode_to_defaults() {
    let mut doc = String::new();
    doc.push_str("[[advisory]]\n");
    doc.push_str("id = \"RUSTSEC-2019-0007\"\n");
    doc.push_str("package = \"some_package\"\n");
    doc.push_str("date = \"2019-07-31\"\n");
    let db = AdvisoryDatabase::from_toml(&doc).unwrap();
    let advisory = db.find("RUSTSEC-2019-0007").unwrap();
    assert_eq!(advisory.title, "");
    assert_eq!(advisory.description, "");
    assert_eq!(advisory.aliases.len(), 0);
    assert_eq!(advisory.references.len(), 0);
    assert_eq!(advisory.collection, None);
    assert_eq!(advisory.categories.len(), 0);
    assert_eq!(advisory.keywords.len(), 0);
    assert_eq!(advisory.cvss, None);
    assert_eq!(advisory.informational, None);
    assert!(!advisory.obsolete);
    assert_eq!(advisory.url, None);
    assert_eq!(advisory.patched_versions.len(), 0);
    assert_eq!(advisory.unaffected_versions.len(), 0);
}

#[test]
fn invalid_cvss_vector_fails_naming_the_field() {
    let mut doc = String::new();
    doc.push_str("[[advisory]]\n");
    doc.push_str("id = \"RUSTSEC-2021-0003\"\n");
    doc.push_str("package = \"baz\"\n");
    doc.push_str("date = \"2021-03-03\"\n");
    doc.push_str("cvss = \"CVSS:3.1/bogus\"\n");
    let err = AdvisoryDatabase::from_toml(&doc).unwrap_err();
    assert_eq!(
        err,
        Error::EntryInvalid { index: 0, field: Field::Cvss, reason: Reason::Malformed }
    );
}

#[test]
fn valid_cvss_vector_is_kept_verbatim() {
    let mut doc = String::new();
    doc.push_str("[[advisory]]\n");
    doc.push_str("id = \"RUSTSEC-2021-0004\"\n");
    doc.push_str("package = \"baz\"\n");
    doc.push_str("date = \"2021-03-03\"\n");
    doc.push_str("cvss = \"CVSS:3.1/AV:N/AC:L/PR:N/UI:R/S:C/C:L/I:L/A:N\"\n");
    let db = AdvisoryDatabase::from_toml(&doc).unwrap();
    let advisory = db.find("RUSTSEC-2021-0004").unwrap();
    assert_eq!(
        advisory.cvss,
        Some(String::from("CVSS:3.1/AV:N/AC:L/PR:N/UI:R/S:C/C:L/I:L/A:N"))
    );
}

#[test]
fn malformed_id_shape_is_refused() {
    let mut doc = String::new();
    doc.push_str("[[advisory]]\n");
    doc.push_str("id = \"RUSTSEC-17-0001\"\n");
    doc.push_str("package = \"foo\"\n");
    doc.push_str("date = \"2017-01-26\"\n");
    let err = AdvisoryDatabase::from_toml(&doc).unwrap_err();
    assert_eq!(
        err,
        Error::EntryInvalid { index: 0, field: Field::Id, reason: Reason::Malformed }
    );
}

#[test]
fn malformed_date_is_refused() {
    let mut doc = String::new();
    doc.push_str("[[advisory]]\n");
    doc.push_str("id = \"RUSTSEC-2017-0001\"\n");
    doc.push_str("package = \"foo\"\n");
    doc.push_str("date = \"2017-13-01\"\n");
    let err = AdvisoryDatabase::from_toml(&doc).unwrap_err();
    assert_eq!(
        err,
        Error::EntryInvalid { index: 0, field: Field::Date, reason: Reason::Malformed }
    );
}

#[test]
fn empty_package_name_is_refused() {
    let mut doc = String::new();
    doc.push_str("[[advisory]]\n");
    doc.push_str("id = \"RUSTSEC-2017-0001\"\n");
    doc.push_str("package = \"\"\n");
    doc.push_str("date = \"2017-01-26\"\n");
    let err = AdvisoryDatabase::from_toml(&doc).unwrap_err();
    assert_eq!(
        err,
        Error::EntryInvalid { index: 0, field: Field::Package, reason: Reason::Malformed }
    );
}

#[test]
fn duplicate_identifier_is_refused() {
    let mut doc = String::new();
    doc.push_str("[[advisory]]\n");
    doc.push_str("id = \"RUSTSEC-2020-0001\"\n");
    doc.push_str("package = \"foo\"\n");
    doc.push_str("date = \"2020-01-01\"\n");
    doc.push_str("[[advisory]]\n");
    doc.push_str("id = \"RUSTSEC-2020-0001\"\n");
    doc.push_str("package = \"bar\"\n");
    doc.push_str("date = \"2020-02-02\"\n");
    let err = AdvisoryDatabase::from_toml(&doc).unwrap_err();
    assert_eq!(
        err,
        Error::EntryInvalid { index: 1, field: Field::Id, reason: Reason::Duplicate }
    );
}

#[test]
fn categories_and_keywords_are_decoded_in_order() {
    let mut doc = String::new();
    doc.push_str("[[advisory]]\n");
    doc.push_str("id = \"RUSTSEC-2018-0005\"\n");
    doc.push_str("package = \"qux\"\n");
    doc.push_str("date = \"2018-05-05\"\n");
    doc.push_str("categories = [\"memory-corruption\", \"code-execution\"]\n");
    doc.push_str("keywords = [\"ssl\", \"rce\"]\n");
    doc.push_str("aliases = [\"CVE-2018-1000810\"]\n");
    doc.push_str("references = [\"RUSTSEC-2018-0003\"]\n");
    let db = AdvisoryDatabase::from_toml(&doc).unwrap();
    let advisory = db.find("RUSTSEC-2018-0005").unwrap();
    assert_eq!(
        advisory.categories,
        vec![Category::MemoryCorruption, Category::CodeExecution]
    );
    assert_eq!(advisory.keywords, vec!["ssl".to_string(), "rce".to_string()]);
    assert_eq!(advisory.aliases, vec!["CVE-2018-1000810".to_string()]);
    assert_eq!(advisory.references, vec!["RUSTSEC-2018-0003".to_string()]);
}

#[test]
fn unknown_category_is_refused() {
    let mut doc = String::new();
    doc.push_str("[[advisory]]\n");
    doc.push_str("id = \"RUSTSEC-2018-0005\"\n");
    doc.push_str("package = \"qux\"\n");
    doc.push_str("date = \"2018-05-05\"\n");
    doc.push_str("categories = [\"super-bad\"]\n");
    let err = AdvisoryDatabase::from_toml(&doc).unwrap_err();
    assert_eq!(
        err,
        Error::EntryInvalid { index: 0, field: Field::Categories, reason: Reason::Malformed }
    );
}

#[test]
fn markers_and_flags_are_decoded() {
    let mut doc = String::new();
    doc.push_str("[[advisory]]\n");
    doc.push_str("id = \"RUSTSEC-2019-0009\"\n");
    doc.push_str("package = \"quux\"\n");
    doc.push_str("date = \"2019-09-09\"\n");
    doc.push_str("collection = \"crates\"\n");
    doc.push_str("informational = \"unmaintained\"\n");
    doc.push_str("obsolete = true\n");
    let db = AdvisoryDatabase::from_toml(&doc).unwrap();
    let advisory = db.find("RUSTSEC-2019-0009").unwrap();
    assert_eq!(advisory.collection, Some(Collection::Crates));
    assert_eq!(advisory.informational, Some(Informational::Unmaintained));
    assert!(advisory.obsolete);
}

#[test]
fn wrongly_typed_optional_field_is_refused() {
    let mut doc = String::new();
    doc.push_str("[[advisory]]\n");
    doc.push_str("id = \"RUSTSEC-2019-0009\"\n");
    doc.push_str("package = \"quux\"\n");
    doc.push_str("date = \"2019-09-09\"\n");
    doc.push_str("obsolete = \"yes\"\n");
    let err = AdvisoryDatabase::from_toml(&doc).unwrap_err();
    assert_eq!(
        err,
        Error::EntryInvalid { index: 0, field: Field::Obsolete, reason: Reason::Malformed }
    );
}

#[test]
fn unknown_informational_marker_is_refused() {
    let mut doc = String::new();
    doc.push_str("[[advisory]]\n");
    doc.push_str("id = \"RUSTSEC-2019-0009\"\n");
    doc.push_str("package = \"quux\"\n");
    doc.push_str("date = \"2019-09-09\"\n");
    doc.push_str("informational = \"whatever\"\n");
    let err = AdvisoryDatabase::from_toml(&doc).unwrap_err();
    assert_eq!(
        err,
        Error::EntryInvalid { index: 0, field: Field::Informational, reason: Reason::Malformed }
    );
}
