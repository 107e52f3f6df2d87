//! Typed decoding of one advisory entry from a parsed document value.
//!
//! [`decode_spec`] states, over the spec-level value tree, exactly which
//! entries decode and to what; [`decode_entry`] is the verified decoder.
//! Decoding is total and side-effect-free: required fields (`id`,
//! `package`, `date`) are extracted first, fail-fast, then optional fields
//! with their documented defaults.

use crate::doc::{toml_model, tv_as_array, tv_as_bool, tv_as_str, tv_get};
use crate::error::{Field, Reason};
use crate::metadata::{
    category_of, category_from, check_date, check_id, check_package, collection_of,
    collection_from, date_wf, id_wf, informational_of, informational_from, package_wf, Category,
    Collection, Informational, Metadata, MetadataModel,
};
use crate::model::{field_of, ValModel};
use crate::severity::{cvss_ok, cvss_valid};
use vstd::prelude::*;

verus! {

/// A required text field: missing when absent, malformed when not text.
pub open spec fn req_text_spec(v: ValModel, key: Seq<char>) -> Result<Seq<char>, Reason> {
    match field_of(v, key) {
        Option::None => Err(Reason::Missing),
        Option::Some(f) => match f {
            ValModel::Text(s) => Ok(s),
            _ => Err(Reason::Malformed),
        },
    }
}

/// An optional text field: absent is allowed, a non-text value is not.
pub open spec fn opt_text_spec(v: ValModel, key: Seq<char>) -> Result<Option<Seq<char>>, Reason> {
    match field_of(v, key) {
        Option::None => Ok(None),
        Option::Some(f) => match f {
            ValModel::Text(s) => Ok(Some(s)),
            _ => Err(Reason::Malformed),
        },
    }
}

/// A defaulted text field: the empty string when absent.
pub open spec fn text_or_empty_spec(v: ValModel, key: Seq<char>) -> Result<Seq<char>, Reason> {
    match opt_text_spec(v, key) {
        Ok(Option::None) => Ok(Seq::empty()),
        Ok(Option::Some(s)) => Ok(s),
        Err(w) => Err(w),
    }
}

/// A defaulted boolean field: `false` when absent.
pub open spec fn flag_or_false_spec(v: ValModel, key: Seq<char>) -> Result<bool, Reason> {
    match field_of(v, key) {
        Option::None => Ok(false),
        Option::Some(f) => match f {
            ValModel::Flag(b) => Ok(b),
            _ => Err(Reason::Malformed),
        },
    }
}

/// The texts of a list of nodes; malformed when any node is not text.
pub open spec fn texts_of(items: Seq<ValModel>) -> Result<Seq<Seq<char>>, Reason>
    decreases items.len(),
{
    if items.len() == 0 {
        Ok(Seq::empty())
    } else {
        match texts_of(items.drop_last()) {
            Err(w) => Err(w),
            Ok(rest) => match items.last() {
                ValModel::Text(s) => Ok(rest.push(s)),
                _ => Err(Reason::Malformed),
            },
        }
    }
}

/// A defaulted list-of-texts field: the empty sequence when absent.
pub open spec fn list_texts_spec(v: ValModel, key: Seq<char>) -> Result<Seq<Seq<char>>, Reason> {
    match field_of(v, key) {
        Option::None => Ok(Seq::empty()),
        Option::Some(f) => match f {
            ValModel::List(items) => texts_of(items),
            _ => Err(Reason::Malformed),
        },
    }
}

/// The category tags of a list of nodes; each node must be a text holding
/// a token of the closed vocabulary.
pub open spec fn cats_of(items: Seq<ValModel>) -> Result<Seq<Category>, Reason>
    decreases items.len(),
{
    if items.len() == 0 {
        Ok(Seq::empty())
    } else {
        match cats_of(items.drop_last()) {
            Err(w) => Err(w),
            Ok(rest) => match items.last() {
                ValModel::Text(s) => match category_of(s) {
                    Option::Some(c) => Ok(rest.push(c)),
                    Option::None => Err(Reason::Malformed),
                },
                _ => Err(Reason::Malformed),
            },
        }
    }
}

/// The defaulted `categories` field: the empty sequence when absent.
pub open spec fn cats_spec(v: ValModel) -> Result<Seq<Category>, Reason> {
    match field_of(v, "categories"@) {
        Option::None => Ok(Seq::empty()),
        Option::Some(f) => match f {
            ValModel::List(items) => cats_of(items),
            _ => Err(Reason::Malformed),
        },
    }
}

/// The optional `collection` field, drawn from its vocabulary.
pub open spec fn collection_spec(v: ValModel) -> Result<Option<Collection>, Reason> {
    match opt_text_spec(v, "collection"@) {
        Err(w) => Err(w),
        Ok(Option::None) => Ok(None),
        Ok(Option::Some(s)) => match collection_of(s) {
            Option::Some(c) => Ok(Some(c)),
            Option::None => Err(Reason::Malformed),
        },
    }
}

/// The optional `informational` field, drawn from its vocabulary.
pub open spec fn informational_spec(v: ValModel) -> Result<Option<Informational>, Reason> {
    match opt_text_spec(v, "informational"@) {
        Err(w) => Err(w),
        Ok(Option::None) => Ok(None),
        Ok(Option::Some(s)) => match informational_of(s) {
            Option::Some(c) => Ok(Some(c)),
            Option::None => Err(Reason::Malformed),
        },
    }
}

/// The optional `cvss` field: kept verbatim, but only with valid syntax.
pub open spec fn cvss_spec(v: ValModel) -> Result<Option<Seq<char>>, Reason> {
    match opt_text_spec(v, "cvss"@) {
        Err(w) => Err(w),
        Ok(Option::None) => Ok(None),
        Ok(Option::Some(s)) => if cvss_ok(s) {
            Ok(Some(s))
        } else {
            Err(Reason::Malformed)
        },
    }
}

/// The first failure an entry exhibits, checked in schema order: the
/// required fields `id`, `package`, `date` first, then the optional ones.
pub open spec fn entry_err(v: ValModel) -> Option<(Field, Reason)> {
    if req_text_spec(v, "id"@) is Err {
        Some((Field::Id, req_text_spec(v, "id"@)->Err_0))
    } else if !id_wf(req_text_spec(v, "id"@)->Ok_0) {
        Some((Field::Id, Reason::Malformed))
    } else if req_text_spec(v, "package"@) is Err {
        Some((Field::Package, req_text_spec(v, "package"@)->Err_0))
    } else if !package_wf(req_text_spec(v, "package"@)->Ok_0) {
        Some((Field::Package, Reason::Malformed))
    } else if req_text_spec(v, "date"@) is Err {
        Some((Field::Date, req_text_spec(v, "date"@)->Err_0))
    } else if !date_wf(req_text_spec(v, "date"@)->Ok_0) {
        Some((Field::Date, Reason::Malformed))
    } else if text_or_empty_spec(v, "title"@) is Err {
        Some((Field::Title, text_or_empty_spec(v, "title"@)->Err_0))
    } else if text_or_empty_spec(v, "description"@) is Err {
        Some((Field::Description, text_or_empty_spec(v, "description"@)->Err_0))
    } else if list_texts_spec(v, "aliases"@) is Err {
        Some((Field::Aliases, list_texts_spec(v, "aliases"@)->Err_0))
    } else if list_texts_spec(v, "references"@) is Err {
        Some((Field::References, list_texts_spec(v, "references"@)->Err_0))
    } else if collection_spec(v) is Err {
        Some((Field::Collection, collection_spec(v)->Err_0))
    } else if cats_spec(v) is Err {
        Some((Field::Categories, cats_spec(v)->Err_0))
    } else if list_texts_spec(v, "keywords"@) is Err {
        Some((Field::Keywords, list_texts_spec(v, "keywords"@)->Err_0))
    } else if cvss_spec(v) is Err {
        Some((Field::Cvss, cvss_spec(v)->Err_0))
    } else if informational_spec(v) is Err {
        Some((Field::Informational, informational_spec(v)->Err_0))
    } else if flag_or_false_spec(v, "obsolete"@) is Err {
        Some((Field::Obsolete, flag_or_false_spec(v, "obsolete"@)->Err_0))
    } else if opt_text_spec(v, "url"@) is Err {
        Some((Field::Url, opt_text_spec(v, "url"@)->Err_0))
    } else if list_texts_spec(v, "patched_versions"@) is Err {
        Some((Field::PatchedVersions, list_texts_spec(v, "patched_versions"@)->Err_0))
    } else if list_texts_spec(v, "unaffected_versions"@) is Err {
        Some((Field::UnaffectedVersions, list_texts_spec(v, "unaffected_versions"@)->Err_0))
    } else {
        None
    }
}

/// The record an entry without failures decodes to.
pub open spec fn decode_ok(v: ValModel) -> MetadataModel {
    MetadataModel {
        id: req_text_spec(v, "id"@)->Ok_0,
        package: req_text_spec(v, "package"@)->Ok_0,
        title: text_or_empty_spec(v, "title"@)->Ok_0,
        description: text_or_empty_spec(v, "description"@)->Ok_0,
        date: req_text_spec(v, "date"@)->Ok_0,
        aliases: list_texts_spec(v, "aliases"@)->Ok_0,
        references: list_texts_spec(v, "references"@)->Ok_0,
        collection: collection_spec(v)->Ok_0,
        categories: cats_spec(v)->Ok_0,
        keywords: list_texts_spec(v, "keywords"@)->Ok_0,
        cvss: cvss_spec(v)->Ok_0,
        informational: informational_spec(v)->Ok_0,
        obsolete: flag_or_false_spec(v, "obsolete"@)->Ok_0,
        url: opt_text_spec(v, "url"@)->Ok_0,
        patched_versions: list_texts_spec(v, "patched_versions"@)->Ok_0,
        unaffected_versions: list_texts_spec(v, "unaffected_versions"@)->Ok_0,
    }
}

/// What one entry decodes to: a fully populated record, or the first
/// failure in schema order.
pub open spec fn decode_spec(v: ValModel) -> Result<MetadataModel, (Field, Reason)> {
    match entry_err(v) {
        Option::Some(e) => Err(e),
        Option::None => Ok(decode_ok(v)),
    }
}

/// Optional fields absent from an entry decode to their documented
/// defaults: empty strings and sequences, `false` for the obsolete flag,
/// and absent optional markers.
pub proof fn lemma_absent_defaults(v: ValModel)
    requires
        decode_spec(v) is Ok,
        field_of(v, "title"@) is None,
        field_of(v, "description"@) is None,
        field_of(v, "aliases"@) is None,
        field_of(v, "references"@) is None,
        field_of(v, "collection"@) is None,
        field_of(v, "categories"@) is None,
        field_of(v, "keywords"@) is None,
        field_of(v, "cvss"@) is None,
        field_of(v, "informational"@) is None,
        field_of(v, "obsolete"@) is None,
        field_of(v, "url"@) is None,
        field_of(v, "patched_versions"@) is None,
        field_of(v, "unaffected_versions"@) is None,
    ensures
        decode_spec(v)->Ok_0.title == Seq::<char>::empty(),
        decode_spec(v)->Ok_0.description == Seq::<char>::empty(),
        decode_spec(v)->Ok_0.aliases == Seq::<Seq<char>>::empty(),
        decode_spec(v)->Ok_0.references == Seq::<Seq<char>>::empty(),
        decode_spec(v)->Ok_0.collection is None,
        decode_spec(v)->Ok_0.categories == Seq::<Category>::empty(),
        decode_spec(v)->Ok_0.keywords == Seq::<Seq<char>>::empty(),
        decode_spec(v)->Ok_0.cvss is None,
        decode_spec(v)->Ok_0.informational is None,
        decode_spec(v)->Ok_0.obsolete == false,
        decode_spec(v)->Ok_0.url is None,
        decode_spec(v)->Ok_0.patched_versions == Seq::<Seq<char>>::empty(),
        decode_spec(v)->Ok_0.unaffected_versions == Seq::<Seq<char>>::empty(),
{
}

/// Extracts a required text field of an entry.
fn get_req_text(v: &toml::Value, key: &str) -> (r: Result<String, Reason>)
    ensures
        match r {
            Ok(s) => req_text_spec(toml_model(*v), key@) == Ok::<Seq<char>, Reason>(s@),
            Err(w) => req_text_spec(toml_model(*v), key@) == Err::<Seq<char>, Reason>(w),
        },
{
    match tv_get(v, key) {
        None => Err(Reason::Missing),
        Some(f) => match tv_as_str(f) {
            Some(s) => Ok(s.to_owned()),
            None => Err(Reason::Malformed),
        },
    }
}

/// Extracts an optional text field of an entry.
fn get_opt_text(v: &toml::Value, key: &str) -> (r: Result<Option<String>, Reason>)
    ensures
        match r {
            Ok(s) => opt_text_spec(toml_model(*v), key@) == Ok::<Option<Seq<char>>, Reason>(
                s.deep_view(),
            ),
            Err(w) => opt_text_spec(toml_model(*v), key@) == Err::<Option<Seq<char>>, Reason>(w),
        },
{
    match tv_get(v, key) {
        None => Ok(None),
        Some(f) => match tv_as_str(f) {
            Some(s) => Ok(Some(s.to_owned())),
            None => Err(Reason::Malformed),
        },
    }
}

/// Extracts a defaulted text field of an entry.
fn get_text_or_empty(v: &toml::Value, key: &str) -> (r: Result<String, Reason>)
    ensures
        match r {
            Ok(s) => text_or_empty_spec(toml_model(*v), key@) == Ok::<Seq<char>, Reason>(s@),
            Err(w) => text_or_empty_spec(toml_model(*v), key@) == Err::<Seq<char>, Reason>(w),
        },
{
    match get_opt_text(v, key) {
        Ok(None) => Ok(String::new()),
        Ok(Some(s)) => Ok(s),
        Err(w) => Err(w),
    }
}

/// Extracts a defaulted boolean field of an entry.
fn get_flag_or_false(v: &toml::Value, key: &str) -> (r: Result<bool, Reason>)
    ensures
        match r {
            Ok(b) => flag_or_false_spec(toml_model(*v), key@) == Ok::<bool, Reason>(b),
            Err(w) => flag_or_false_spec(toml_model(*v), key@) == Err::<bool, Reason>(w),
        },
{
    match tv_get(v, key) {
        None => Ok(false),
        Some(f) => match tv_as_bool(f) {
            Some(b) => Ok(b),
            None => Err(Reason::Malformed),
        },
    }
}

/// An error of a prefix of a list is the error of the whole list.
proof fn lemma_texts_of_prefix_err(items: Seq<ValModel>, k: int)
    requires
        0 <= k <= items.len(),
        texts_of(items.take(k)) is Err,
    ensures
        texts_of(items) == texts_of(items.take(k)),
    decreases items.len(),
{
    if k == items.len() {
        assert(items.take(k) =~= items);
    } else {
        assert(items.drop_last().take(k) =~= items.take(k));
        lemma_texts_of_prefix_err(items.drop_last(), k);
    }
}

/// An error of a prefix of a category list is the error of the whole list.
proof fn lemma_cats_of_prefix_err(items: Seq<ValModel>, k: int)
    requires
        0 <= k <= items.len(),
        cats_of(items.take(k)) is Err,
    ensures
        cats_of(items) == cats_of(items.take(k)),
    decreases items.len(),
{
    if k == items.len() {
        assert(items.take(k) =~= items);
    } else {
        assert(items.drop_last().take(k) =~= items.take(k));
        lemma_cats_of_prefix_err(items.drop_last(), k);
    }
}

/// Extracts a defaulted list-of-texts field of an entry.
fn get_texts(v: &toml::Value, key: &str) -> (r: Result<Vec<String>, Reason>)
    ensures
        match r {
            Ok(out) => list_texts_spec(toml_model(*v), key@) == Ok::<Seq<Seq<char>>, Reason>(
                out.deep_view(),
            ),
            Err(w) => list_texts_spec(toml_model(*v), key@) == Err::<Seq<Seq<char>>, Reason>(w),
        },
{
    match tv_get(v, key) {
        None => {
            let out: Vec<String> = Vec::new();
            assert(out.deep_view() =~= Seq::<Seq<char>>::empty());
            Ok(out)
        },
        Some(f) => match tv_as_array(f) {
            None => Err(Reason::Malformed),
            Some(items) => {
                let ghost ms = items@.map_values(|x: toml::Value| toml_model(x));
                let mut out: Vec<String> = Vec::new();
                assert(out.deep_view() =~= Seq::<Seq<char>>::empty());
                assert(ms.take(0) =~= Seq::<ValModel>::empty());
                let n: usize = items.len();
                let mut i: usize = 0;
                while i < n
                    invariant
                        n == items.len(),
                        i <= n,
                        ms == items@.map_values(|x: toml::Value| toml_model(x)),
                        field_of(toml_model(*v), key@) == Some(ValModel::List(ms)),
                        texts_of(ms.take(i as int)) == Ok::<Seq<Seq<char>>, Reason>(
                            out.deep_view(),
                        ),
                    decreases n - i,
                {
                    assert(ms.take(i + 1).drop_last() =~= ms.take(i as int));
                    assert(ms.take(i + 1).last() == ms[i as int]);
                    match tv_as_str(&items[i]) {
                        None => {
                            proof {
                                assert(texts_of(ms.take(i + 1)) is Err);
                                lemma_texts_of_prefix_err(ms, i + 1);
                            }
                            return Err(Reason::Malformed);
                        },
                        Some(s) => {
                            let owned: String = s.to_owned();
                            let ghost prev = out.deep_view();
                            out.push(owned);
                            assert(out.deep_view() =~= prev.push(s@));
                        },
                    }
                    i = i + 1;
                }
                assert(ms.take(n as int) =~= ms);
                Ok(out)
            },
        },
    }
}

/// Extracts the defaulted `categories` field of an entry.
fn get_cats(v: &toml::Value) -> (r: Result<Vec<Category>, Reason>)
    ensures
        match r {
            Ok(out) => cats_spec(toml_model(*v)) == Ok::<Seq<Category>, Reason>(out@),
            Err(w) => cats_spec(toml_model(*v)) == Err::<Seq<Category>, Reason>(w),
        },
{
    match tv_get(v, "categories") {
        None => {
            let out: Vec<Category> = Vec::new();
            assert(out@ =~= Seq::<Category>::empty());
            Ok(out)
        },
        Some(f) => match tv_as_array(f) {
            None => Err(Reason::Malformed),
            Some(items) => {
                let ghost ms = items@.map_values(|x: toml::Value| toml_model(x));
                let mut out: Vec<Category> = Vec::new();
                assert(out@ =~= Seq::<Category>::empty());
                assert(ms.take(0) =~= Seq::<ValModel>::empty());
                let n: usize = items.len();
                let mut i: usize = 0;
                while i < n
                    invariant
                        n == items.len(),
                        i <= n,
                        ms == items@.map_values(|x: toml::Value| toml_model(x)),
                        field_of(toml_model(*v), "categories"@) == Some(ValModel::List(ms)),
                        cats_of(ms.take(i as int)) == Ok::<Seq<Category>, Reason>(out@),
                    decreases n - i,
                {
                    assert(ms.take(i + 1).drop_last() =~= ms.take(i as int));
                    assert(ms.take(i + 1).last() == ms[i as int]);
                    match tv_as_str(&items[i]) {
                        None => {
                            proof {
                                assert(cats_of(ms.take(i + 1)) is Err);
                                lemma_cats_of_prefix_err(ms, i + 1);
                            }
                            return Err(Reason::Malformed);
                        },
                        Some(s) => match category_from(s) {
                            None => {
                                proof {
                                    assert(cats_of(ms.take(i + 1)) is Err);
                                    lemma_cats_of_prefix_err(ms, i + 1);
                                }
                                return Err(Reason::Malformed);
                            },
                            Some(c) => {
                                let ghost prev = out@;
                                out.push(c);
                                assert(out@ =~= prev.push(c));
                            },
                        },
                    }
                    i = i + 1;
                }
                assert(ms.take(n as int) =~= ms);
                Ok(out)
            },
        },
    }
}

/// Decodes one advisory entry: either a fully populated record or the
/// first failure, exactly as [`decode_spec`] states.
pub fn decode_entry(v: &toml::Value) -> (r: Result<Metadata, (Field, Reason)>)
    ensures
        match r {
            Ok(m) => decode_spec(toml_model(*v)) == Ok::<MetadataModel, (Field, Reason)>(m@),
            Err(e) => decode_spec(toml_model(*v)) == Err::<MetadataModel, (Field, Reason)>(e),
        },
{
    let id: String = match get_req_text(v, "id") {
        Ok(s) => s,
        Err(w) => {
            return Err((Field::Id, w));
        },
    };
    if !check_id(id.as_str()) {
        return Err((Field::Id, Reason::Malformed));
    }
    let package: String = match get_req_text(v, "package") {
        Ok(s) => s,
        Err(w) => {
            return Err((Field::Package, w));
        },
    };
    if !check_package(package.as_str()) {
        return Err((Field::Package, Reason::Malformed));
    }
    let date: String = match get_req_text(v, "date") {
        Ok(s) => s,
        Err(w) => {
            return Err((Field::Date, w));
        },
    };
    if !check_date(date.as_str()) {
        return Err((Field::Date, Reason::Malformed));
    }
    let title: String = match get_text_or_empty(v, "title") {
        Ok(s) => s,
        Err(w) => {
            return Err((Field::Title, w));
        },
    };
    let description: String = match get_text_or_empty(v, "description") {
        Ok(s) => s,
        Err(w) => {
            return Err((Field::Description, w));
        },
    };
    let aliases: Vec<String> = match get_texts(v, "aliases") {
        Ok(s) => s,
        Err(w) => {
            return Err((Field::Aliases, w));
        },
    };
    let references: Vec<String> = match get_texts(v, "references") {
        Ok(s) => s,
        Err(w) => {
            return Err((Field::References, w));
        },
    };
    let collection: Option<Collection> = match get_opt_text(v, "collection") {
        Ok(None) => None,
        Ok(Some(s)) => match collection_from(s.as_str()) {
            Some(c) => Some(c),
            None => {
                return Err((Field::Collection, Reason::Malformed));
            },
        },
        Err(w) => {
            return Err((Field::Collection, w));
        },
    };
    let categories: Vec<Category> = match get_cats(v) {
        Ok(s) => s,
        Err(w) => {
            return Err((Field::Categories, w));
        },
    };
    let keywords: Vec<String> = match get_texts(v, "keywords") {
        Ok(s) => s,
        Err(w) => {
            return Err((Field::Keywords, w));
        },
    };
    let cvss: Option<String> = match get_opt_text(v, "cvss") {
        Ok(None) => None,
        Ok(Some(s)) => {
            if cvss_valid(s.as_str()) {
                Some(s)
            } else {
                return Err((Field::Cvss, Reason::Malformed));
            }
        },
        Err(w) => {
            return Err((Field::Cvss, w));
        },
    };
    let informational: Option<Informational> = match get_opt_text(v, "informational") {
        Ok(None) => None,
        Ok(Some(s)) => match informational_from(s.as_str()) {
            Some(c) => Some(c),
            None => {
                return Err((Field::Informational, Reason::Malformed));
            },
        },
        Err(w) => {
            return Err((Field::Informational, w));
        },
    };
    let obsolete: bool = match get_flag_or_false(v, "obsolete") {
        Ok(b) => b,
        Err(w) => {
            return Err((Field::Obsolete, w));
        },
    };
    let url: Option<String> = match get_opt_text(v, "url") {
        Ok(s) => s,
        Err(w) => {
            return Err((Field::Url, w));
        },
    };
    let patched_versions: Vec<String> = match get_texts(v, "patched_versions") {
        Ok(s) => s,
        Err(w) => {
            return Err((Field::PatchedVersions, w));
        },
    };
    let unaffected_versions: Vec<String> = match get_texts(v, "unaffected_versions") {
        Ok(s) => s,
        Err(w) => {
            return Err((Field::UnaffectedVersions, w));
        },
    };
    Ok(
        Metadata {
            id,
            package,
            title,
            description,
            date,
            aliases,
            references,
            collection,
            categories,
            keywords,
            cvss,
            informational,
            obsolete,
            url,
            patched_versions,
            unaffected_versions,
        },
    )
}

} // verus!
