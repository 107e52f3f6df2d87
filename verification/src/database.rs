//! The advisory database: an immutable snapshot built from one document.
//!
//! [`from_toml_model`] states exactly which texts build a database and what
//! it holds; the build is all-or-nothing, so a caller either gets every
//! advisory of the document or none.  Lookups are pure reads whose results
//! are pinned by [`find_model`] and [`by_package_model`].

use crate::decode::{decode_entry, decode_spec};
use crate::doc::{doc_of, parse_toml, toml_model, tv_as_array, tv_get};
use crate::error::{Error, Field, Reason};
use crate::metadata::{str_eq, Metadata, MetadataModel};
use crate::model::{field_of, ValModel};
use vstd::prelude::*;

verus! {

/// Some record of `ms` carries the identifier `id`.
pub open spec fn has_id(ms: Seq<MetadataModel>, id: Seq<char>) -> bool {
    exists|j: int| 0 <= j < ms.len() && ms[j].id == id
}

/// All records of `ms` carry distinct identifiers.
pub open spec fn ids_unique(ms: Seq<MetadataModel>) -> bool {
    forall|i: int, j: int| 0 <= i < j < ms.len() ==> ms[i].id != ms[j].id
}

/// The first record of `ms` carrying the identifier `id`, if any.
pub open spec fn find_model(ms: Seq<MetadataModel>, id: Seq<char>) -> Option<MetadataModel>
    decreases ms.len(),
{
    if ms.len() == 0 {
        None
    } else if ms.first().id == id {
        Some(ms.first())
    } else {
        find_model(ms.drop_first(), id)
    }
}

/// The records of `ms` whose package is `p`, in document order.
pub open spec fn by_package_model(ms: Seq<MetadataModel>, p: Seq<char>) -> Seq<MetadataModel>
    decreases ms.len(),
{
    if ms.len() == 0 {
        Seq::empty()
    } else if ms.last().package == p {
        by_package_model(ms.drop_last(), p).push(ms.last())
    } else {
        by_package_model(ms.drop_last(), p)
    }
}

/// Spec-level contents of the by-package index.
pub open spec fn index_model(iv: Seq<(String, Vec<String>)>) -> Seq<(Seq<char>, Seq<Seq<char>>)> {
    iv.map_values(|p: (String, Vec<String>)| (p.0@, p.1.deep_view()))
}

/// The identifiers of one package's advisories, in document order.
pub open spec fn ids_of(ms: Seq<MetadataModel>, p: Seq<char>) -> Seq<Seq<char>> {
    by_package_model(ms, p).map_values(|m: MetadataModel| m.id)
}

/// Some index entry lists the package `p`.
pub open spec fn has_package(im: Seq<(Seq<char>, Seq<Seq<char>>)>, p: Seq<char>) -> bool {
    exists|j: int| 0 <= j < im.len() && im[j].0 == p
}

/// The by-package index is exact for the records `ms`: every listed
/// package maps to exactly the identifiers of its advisories in document
/// order, no package is listed twice, and every package of `ms` is
/// listed.
pub open spec fn index_wf(ms: Seq<MetadataModel>, im: Seq<(Seq<char>, Seq<Seq<char>>)>) -> bool {
    &&& forall|j: int| 0 <= j < im.len() ==> #[trigger] im[j].1 == ids_of(ms, im[j].0)
    &&& forall|j1: int, j2: int| 0 <= j1 < j2 < im.len() ==> im[j1].0 != im[j2].0
    &&& forall|i: int| 0 <= i < ms.len() ==> has_package(im, #[trigger] ms[i].package)
}

/// Appending a record extends its own package's advisory sequence and
/// leaves every other package's sequence unchanged.
proof fn lemma_by_package_push(ms: Seq<MetadataModel>, m: MetadataModel, p: Seq<char>)
    ensures
        by_package_model(ms.push(m), p) == (if m.package == p {
            by_package_model(ms, p).push(m)
        } else {
            by_package_model(ms, p)
        }),
        ids_of(ms.push(m), p) == (if m.package == p {
            ids_of(ms, p).push(m.id)
        } else {
            ids_of(ms, p)
        }),
{
    assert(ms.push(m).drop_last() =~= ms);
    assert(ms.push(m).last() == m);
    if m.package == p {
        assert(by_package_model(ms, p).push(m).map_values(|x: MetadataModel| x.id) =~= ids_of(
            ms,
            p,
        ).push(m.id));
    }
}

/// What a sequence of entries builds: the decoded records in document
/// order, or the first failure.  A repeated identifier is refused, so a
/// built database never carries two records with the same identifier.
pub open spec fn entries_model(es: Seq<ValModel>) -> Result<Seq<MetadataModel>, Error>
    decreases es.len(),
{
    if es.len() == 0 {
        Ok(Seq::empty())
    } else {
        match entries_model(es.drop_last()) {
            Err(e) => Err(e),
            Ok(ms) => match decode_spec(es.last()) {
                Err((f, why)) => Err(
                    Error::EntryInvalid { index: (es.len() - 1) as usize, field: f, reason: why },
                ),
                Ok(m) => if has_id(ms, m.id) {
                    Err(
                        Error::EntryInvalid {
                            index: (es.len() - 1) as usize,
                            field: Field::Id,
                            reason: Reason::Duplicate,
                        },
                    )
                } else {
                    Ok(ms.push(m))
                },
            },
        }
    }
}

/// What a parsed document builds: the advisory-entry collection must be
/// present under the `advisory` key and be array-shaped, else the whole
/// build fails with a structural error.
pub open spec fn build_model(doc: ValModel) -> Result<Seq<MetadataModel>, Error> {
    match field_of(doc, "advisory"@) {
        Option::None => Err(Error::StructureInvalid),
        Option::Some(f) => match f {
            ValModel::List(es) => entries_model(es),
            _ => Err(Error::StructureInvalid),
        },
    }
}

/// What a document text builds: a text the parser refuses is a structural
/// error; otherwise the build of the parsed tree.
pub open spec fn from_toml_model(text: Seq<char>) -> Result<Seq<MetadataModel>, Error> {
    match doc_of(text) {
        Option::None => Err(Error::StructureInvalid),
        Option::Some(d) => build_model(d),
    }
}

/// A collection of security advisories, indexed both by identifier and
/// by affected package.  Immutable once built.
#[derive(Debug)]
pub struct AdvisoryDatabase {
    advisories: Vec<Metadata>,
    by_package: Vec<(String, Vec<String>)>,
}

impl View for AdvisoryDatabase {
    type V = Seq<MetadataModel>;

    closed spec fn view(&self) -> Seq<MetadataModel> {
        self.advisories.deep_view()
    }
}

/// Record one freshly decoded advisory in the by-package index: its
/// identifier is appended to its package's sequence, created on first
/// sight of that package.
fn index_insert(
    by_package: &mut Vec<(String, Vec<String>)>,
    package: &String,
    id: &String,
    Ghost(ms): Ghost<Seq<MetadataModel>>,
    Ghost(m): Ghost<MetadataModel>,
)
    requires
        index_wf(ms, index_model(old(by_package)@)),
        m.package == package@,
        m.id == id@,
    ensures
        index_wf(ms.push(m), index_model(final(by_package)@)),
{
    proof {
        assert forall|p: Seq<char>| #[trigger] ids_of(ms.push(m), p) == (if m.package == p {
            ids_of(ms, p).push(m.id)
        } else {
            ids_of(ms, p)
        }) by {
            lemma_by_package_push(ms, m, p);
        };
    }
    let n: usize = by_package.len();
    let mut j: usize = 0;
    while j < n
        invariant
            n == by_package.len(),
            j <= n,
            by_package@ == old(by_package)@,
            index_wf(ms, index_model(by_package@)),
            m.package == package@,
            m.id == id@,
            forall|k: int| 0 <= k < j ==> index_model(by_package@)[k].0 != package@,
        decreases n - j,
    {
        let hit: bool = str_eq(by_package[j].0.as_str(), package.as_str());
        if hit {
            let ghost old_im = index_model(by_package@);
            assert(old_im[j as int].0 == package@);
            by_package[j].1.push(id.clone());
            let ghost new_im = index_model(by_package@);
            proof {
                assert(new_im =~~= old_im.update(
                    j as int,
                    (old_im[j as int].0, old_im[j as int].1.push(id@)),
                ));
                assert forall|p: Seq<char>| #[trigger] ids_of(ms.push(m), p) == (if m.package
                    == p {
                    ids_of(ms, p).push(m.id)
                } else {
                    ids_of(ms, p)
                }) by {
                    lemma_by_package_push(ms, m, p);
                };
                assert forall|k: int| 0 <= k < new_im.len() implies #[trigger] new_im[k].1
                    == ids_of(ms.push(m), new_im[k].0) by {
                    if k == j {
                        assert(old_im[k].0 == package@);
                        assert(old_im[k].1 == ids_of(ms, package@));
                    } else {
                        assert(old_im[k].0 != old_im[j as int].0);
                    }
                };
                assert forall|i: int| 0 <= i < ms.push(m).len() implies has_package(
                    new_im,
                    #[trigger] ms.push(m)[i].package,
                ) by {
                    if i < ms.len() {
                        let jj = choose|jj: int|
                            0 <= jj < old_im.len() && old_im[jj].0 == ms[i].package;
                        assert(new_im[jj].0 == ms[i].package);
                    } else {
                        assert(new_im[j as int].0 == m.package);
                    }
                };
            }
            return;
        }
        j = j + 1;
    }
    let ghost old_im = index_model(by_package@);
    let mut ids: Vec<String> = Vec::new();
    ids.push(id.clone());
    assert(ids.deep_view() =~= Seq::<Seq<char>>::empty().push(id@));
    by_package.push((package.clone(), ids));
    let ghost new_im = index_model(by_package@);
    proof {
        assert(new_im =~~= old_im.push((package@, Seq::<Seq<char>>::empty().push(id@))));
        assert forall|i: int| 0 <= i < ms.len() implies ms[i].package != package@ by {
            if ms[i].package == package@ {
                let jj = choose|jj: int| 0 <= jj < old_im.len() && old_im[jj].0 == ms[i].package;
            }
        };
        lemma_by_package_absent(ms, package@);
        assert(ids_of(ms, package@) =~= Seq::<Seq<char>>::empty());
        assert forall|k: int| 0 <= k < new_im.len() implies #[trigger] new_im[k].1 == ids_of(
            ms.push(m),
            new_im[k].0,
        ) by {
            if k < old_im.len() {
                assert(new_im[k] == old_im[k]);
                assert(old_im[k].0 != package@);
            } else {
                assert(new_im[k].0 == package@);
            }
        };
        assert forall|i: int| 0 <= i < ms.push(m).len() implies has_package(
            new_im,
            #[trigger] ms.push(m)[i].package,
        ) by {
            if i < ms.len() {
                let jj = choose|jj: int| 0 <= jj < old_im.len() && old_im[jj].0 == ms[i].package;
                assert(new_im[jj].0 == ms[i].package);
            } else {
                assert(new_im[old_im.len() as int].0 == m.package);
            }
        };
    }
}

/// Whether some record of `advisories` carries the identifier `id`.
fn contains_id(advisories: &Vec<Metadata>, id: &String) -> (r: bool)
    ensures
        r == has_id(advisories.deep_view(), id@),
{
    let n: usize = advisories.len();
    let mut k: usize = 0;
    while k < n
        invariant
            n == advisories.len(),
            k <= n,
            forall|j: int| 0 <= j < k ==> advisories.deep_view()[j].id != id@,
        decreases n - k,
    {
        let m: &Metadata = &advisories[k];
        if str_eq(m.id.as_str(), id.as_str()) {
            assert(advisories.deep_view()[k as int].id == id@);
            return true;
        }
        k = k + 1;
    }
    false
}

/// A failing prefix of the entries makes the whole document fail the same
/// way.
proof fn lemma_entries_model_prefix_err(es: Seq<ValModel>, k: int)
    requires
        0 <= k <= es.len(),
        entries_model(es.take(k)) is Err,
    ensures
        entries_model(es) == entries_model(es.take(k)),
    decreases es.len(),
{
    if k == es.len() {
        assert(es.take(k) =~= es);
    } else {
        assert(es.drop_last().take(k) =~= es.take(k));
        lemma_entries_model_prefix_err(es.drop_last(), k);
    }
}

impl AdvisoryDatabase {
    /// All identifiers in the database are distinct.
    pub open spec fn wf(&self) -> bool {
        ids_unique(self@)
    }

    /// Construction discipline of the two indices: identifiers are
    /// distinct and the by-package index mirrors the records exactly.
    #[verifier::type_invariant]
    closed spec fn inv(self) -> bool {
        ids_unique(self@) && index_wf(self@, index_model(self.by_package@))
    }

    /// Parse the advisory database from a serialized document.
    ///
    /// Builds exactly what [`from_toml_model`] states: every entry of the
    /// document decodes into the database, or the first failure is
    /// returned and no database at all.
    pub fn from_toml(data: &str) -> (r: Result<AdvisoryDatabase, Error>)
        ensures
            match r {
                Ok(db) => db.wf() && from_toml_model(data@) == Ok::<Seq<MetadataModel>, Error>(
                    db@,
                ),
                Err(e) => from_toml_model(data@) == Err::<Seq<MetadataModel>, Error>(e),
            },
    {
        let root: toml::Value = match parse_toml(data) {
            Some(v) => v,
            None => {
                return Err(Error::StructureInvalid);
            },
        };
        let entries_val: &toml::Value = match tv_get(&root, "advisory") {
            Some(x) => x,
            None => {
                return Err(Error::StructureInvalid);
            },
        };
        let entries: &Vec<toml::Value> = match tv_as_array(entries_val) {
            Some(a) => a,
            None => {
                return Err(Error::StructureInvalid);
            },
        };
        let ghost es = entries@.map_values(|x: toml::Value| toml_model(x));
        let mut advisories: Vec<Metadata> = Vec::new();
        let mut by_package: Vec<(String, Vec<String>)> = Vec::new();
        assert(advisories.deep_view() =~= Seq::<MetadataModel>::empty());
        assert(index_model(by_package@) =~= Seq::<(Seq<char>, Seq<Seq<char>>)>::empty());
        assert(es.take(0) =~= Seq::<ValModel>::empty());
        let n: usize = entries.len();
        let mut i: usize = 0;
        while i < n
            invariant
                n == entries.len(),
                i <= n,
                es == entries@.map_values(|x: toml::Value| toml_model(x)),
                es.len() == n,
                doc_of(data@) is Some,
                field_of(doc_of(data@)->Some_0, "advisory"@) == Some(ValModel::List(es)),
                entries_model(es.take(i as int)) == Ok::<Seq<MetadataModel>, Error>(
                    advisories.deep_view(),
                ),
                ids_unique(advisories.deep_view()),
                index_wf(advisories.deep_view(), index_model(by_package@)),
            decreases n - i,
        {
            assert(es.take(i + 1).drop_last() =~= es.take(i as int));
            assert(es.take(i + 1).last() == es[i as int]);
            let entry: &toml::Value = &entries[i];
            match decode_entry(entry) {
                Err((f, why)) => {
                    proof {
                        lemma_entries_model_prefix_err(es, i + 1);
                    }
                    return Err(Error::EntryInvalid { index: i, field: f, reason: why });
                },
                Ok(m) => {
                    if contains_id(&advisories, &m.id) {
                        proof {
                            lemma_entries_model_prefix_err(es, i + 1);
                        }
                        return Err(
                            Error::EntryInvalid {
                                index: i,
                                field: Field::Id,
                                reason: Reason::Duplicate,
                            },
                        );
                    }
                    let ghost prev = advisories.deep_view();
                    let ghost mv = m@;
                    index_insert(&mut by_package, &m.package, &m.id, Ghost(prev), Ghost(mv));
                    advisories.push(m);
                    assert(advisories.deep_view() =~= prev.push(mv));
                    assert(ids_unique(advisories.deep_view())) by {
                        assert(forall|a: int| 0 <= a < prev.len()
                            ==> advisories.deep_view()[a] == prev[a]);
                        assert(!has_id(prev, mv.id));
                    };
                },
            }
            i = i + 1;
        }
        assert(es.take(n as int) =~= es);
        Ok(AdvisoryDatabase { advisories, by_package })
    }

    /// Look up an advisory by its identifier; `None` when no advisory of
    /// the database carries it.
    pub fn find<'a>(&'a self, id: &str) -> (r: Option<&'a Metadata>)
        ensures
            match r {
                Some(m) => find_model(self@, id@) == Some(m@),
                None => find_model(self@, id@) is None,
            },
    {
        let n: usize = self.advisories.len();
        let mut k: usize = 0;
        assert(self@.skip(0) =~= self@);
        while k < n
            invariant
                n == self.advisories.len(),
                k <= n,
                find_model(self@, id@) == find_model(self@.skip(k as int), id@),
            decreases n - k,
        {
            assert(self@.skip(k as int).first() == self@[k as int]);
            assert(self@.skip(k as int).drop_first() =~= self@.skip(k + 1));
            let m: &Metadata = &self.advisories[k];
            if str_eq(m.id.as_str(), id) {
                return Some(m);
            }
            k = k + 1;
        }
        assert(self@.skip(n as int) =~= Seq::<MetadataModel>::empty());
        None
    }

    /// Look up the advisories of one package, in document order; empty
    /// when the package is unknown.  Each identifier the index lists is
    /// resolved through [`AdvisoryDatabase::find`]; the construction
    /// discipline guarantees every resolution succeeds.
    pub fn find_by_crate<'a>(&'a self, crate_name: &str) -> (r: Vec<&'a Metadata>)
        ensures
            r.deep_view() == by_package_model(self@, crate_name@),
    {
        proof {
            use_type_invariant(self);
        }
        let np: usize = self.by_package.len();
        let mut j: usize = 0;
        while j < np
            invariant
                np == self.by_package.len(),
                j <= np,
                ids_unique(self@),
                index_wf(self@, index_model(self.by_package@)),
                forall|k: int| 0 <= k < j ==> index_model(self.by_package@)[k].0 != crate_name@,
            decreases np - j,
        {
            if str_eq(self.by_package[j].0.as_str(), crate_name) {
                let ghost im = index_model(self.by_package@);
                let ghost target = by_package_model(self@, crate_name@);
                let ids: &Vec<String> = &self.by_package[j].1;
                assert(im[j as int].0 == crate_name@);
                assert(im[j as int].1 == ids_of(self@, im[j as int].0));
                assert(ids.deep_view() == ids_of(self@, crate_name@));
                proof {
                    lemma_by_package_contained(self@, crate_name@);
                }
                let mut result: Vec<&Metadata> = Vec::new();
                assert(result.deep_view() =~= target.take(0));
                let nk: usize = ids.len();
                let mut k: usize = 0;
                while k < nk
                    invariant
                        nk == ids.len(),
                        k <= nk,
                        ids_unique(self@),
                        ids.deep_view() == ids_of(self@, crate_name@),
                        nk == by_package_model(self@, crate_name@).len(),
                        forall|t: int| 0 <= t < by_package_model(self@, crate_name@).len()
                            ==> self@.contains(
                            #[trigger] by_package_model(self@, crate_name@)[t],
                        ),
                        result.deep_view() == by_package_model(self@, crate_name@).take(
                            k as int,
                        ),
                    decreases nk - k,
                {
                    let ghost goal = by_package_model(self@, crate_name@);
                    let ghost want = goal[k as int];
                    proof {
                        assert(self@.contains(want));
                        let wi = choose|wi: int| 0 <= wi < self@.len() && self@[wi] == want;
                        lemma_find_roundtrip(self@, wi);
                        assert(ids.deep_view()[k as int] == want.id);
                    }
                    let idk: &String = &ids[k];
                    match self.find(idk.as_str()) {
                        Some(m) => {
                            let ghost prev = result.deep_view();
                            result.push(m);
                            assert(result.deep_view() =~= prev.push(want));
                            assert(goal.take(k + 1) =~= goal.take(k as int).push(want));
                        },
                        None => {
                            // every identifier the index lists resolves:
                            // the type invariant rules this branch out
                            proof {
                                assert(false);
                            }
                            return Vec::new();
                        },
                    }
                    k = k + 1;
                }
                assert(by_package_model(self@, crate_name@).take(nk as int) =~= by_package_model(
                    self@,
                    crate_name@,
                ));
                return result;
            }
            j = j + 1;
        }
        proof {
            let im = index_model(self.by_package@);
            assert forall|i: int| 0 <= i < self@.len() implies self@[i].package != crate_name@ by {
                if self@[i].package == crate_name@ {
                    let jj = choose|jj: int| 0 <= jj < im.len() && im[jj].0 == self@[i].package;
                }
            };
            lemma_by_package_absent(self@, crate_name@);
        }
        let empty: Vec<&Metadata> = Vec::new();
        assert(empty.deep_view() =~= Seq::<MetadataModel>::empty());
        assert(by_package_model(self@, crate_name@) =~= Seq::<MetadataModel>::empty());
        empty
    }
}

/// A successful build leaves all identifiers distinct.
pub proof fn lemma_entries_model_unique(es: Seq<ValModel>, ms: Seq<MetadataModel>)
    requires
        entries_model(es) == Ok::<Seq<MetadataModel>, Error>(ms),
    ensures
        ids_unique(ms),
    decreases es.len(),
{
    if es.len() == 0 {
    } else {
        match entries_model(es.drop_last()) {
            Ok(prev) => {
                lemma_entries_model_unique(es.drop_last(), prev);
                let m = decode_spec(es.last())->Ok_0;
                assert(ms == prev.push(m));
                assert(forall|a: int| 0 <= a < prev.len() ==> ms[a] == prev[a]);
                assert(!has_id(prev, m.id));
            },
            Err(_) => {
                assert(false);
            },
        }
    }
}

/// Round trip of identity through the by-identifier index: when all
/// identifiers are distinct, looking up the identifier of any record
/// yields exactly that record.
pub proof fn lemma_find_roundtrip(ms: Seq<MetadataModel>, i: int)
    requires
        ids_unique(ms),
        0 <= i < ms.len(),
    ensures
        find_model(ms, ms[i].id) == Some(ms[i]),
    decreases ms.len(),
{
    if i == 0 {
    } else {
        assert(ms.first().id != ms[i].id);
        assert(ids_unique(ms.drop_first())) by {
            assert(forall|a: int| 0 <= a < ms.drop_first().len()
                ==> ms.drop_first()[a] == ms[a + 1]);
        };
        lemma_find_roundtrip(ms.drop_first(), i - 1);
        assert(ms.drop_first()[i - 1] == ms[i]);
    }
}

/// Every entry of a successfully built document is returned by a lookup
/// of its identifier.
pub proof fn lemma_build_find(text: Seq<char>, ms: Seq<MetadataModel>, i: int)
    requires
        from_toml_model(text) == Ok::<Seq<MetadataModel>, Error>(ms),
        0 <= i < ms.len(),
    ensures
        find_model(ms, ms[i].id) == Some(ms[i]),
{
    match doc_of(text) {
        Option::Some(d) => {
            match field_of(d, "advisory"@) {
                Option::Some(f) => {
                    match f {
                        ValModel::List(es) => {
                            lemma_entries_model_unique(es, ms);
                            lemma_find_roundtrip(ms, i);
                        },
                        _ => {
                            assert(false);
                        },
                    }
                },
                Option::None => {
                    assert(false);
                },
            }
        },
        Option::None => {
            assert(false);
        },
    }
}

/// A lookup of an identifier that no record carries returns nothing,
/// never an error.
pub proof fn lemma_find_absent(ms: Seq<MetadataModel>, id: Seq<char>)
    requires
        !has_id(ms, id),
    ensures
        find_model(ms, id) is None,
    decreases ms.len(),
{
    if ms.len() == 0 {
    } else {
        assert(ms.first().id != id);
        assert(!has_id(ms.drop_first(), id)) by {
            assert(forall|a: int| 0 <= a < ms.drop_first().len()
                ==> ms.drop_first()[a] == ms[a + 1]);
        };
        lemma_find_absent(ms.drop_first(), id);
    }
}

/// A package no record mentions has no advisories.
pub proof fn lemma_by_package_absent(ms: Seq<MetadataModel>, p: Seq<char>)
    requires
        forall|i: int| 0 <= i < ms.len() ==> ms[i].package != p,
    ensures
        by_package_model(ms, p).len() == 0,
    decreases ms.len(),
{
    if ms.len() == 0 {
    } else {
        assert(forall|a: int| 0 <= a < ms.drop_last().len() ==> ms.drop_last()[a] == ms[a]);
        lemma_by_package_absent(ms.drop_last(), p);
    }
}

/// Every failure of the entry sequence is an entry-level failure.
proof fn lemma_entries_model_err_shape(es: Seq<ValModel>)
    ensures
        entries_model(es) is Err ==> entries_model(es)->Err_0 is EntryInvalid,
    decreases es.len(),
{
    if es.len() == 0 {
    } else {
        lemma_entries_model_err_shape(es.drop_last());
    }
}

/// One invalid entry anywhere in the document fails the whole build with
/// an entry-level failure: no partial database can be observed.
pub proof fn lemma_entry_failure_fails_build(es: Seq<ValModel>, i: int)
    requires
        0 <= i < es.len(),
        decode_spec(es[i]) is Err,
    ensures
        entries_model(es) is Err,
        entries_model(es)->Err_0 is EntryInvalid,
    decreases es.len(),
{
    lemma_entries_model_err_shape(es);
    if i == es.len() - 1 {
        assert(es.last() == es[i]);
    } else {
        assert(es.drop_last()[i] == es[i]);
        lemma_entry_failure_fails_build(es.drop_last(), i);
    }
}

/// Every record the by-package view lists is a record of the database.
pub proof fn lemma_by_package_contained(ms: Seq<MetadataModel>, p: Seq<char>)
    ensures
        forall|k: int| 0 <= k < by_package_model(ms, p).len() ==> ms.contains(
            #[trigger] by_package_model(ms, p)[k],
        ),
    decreases ms.len(),
{
    if ms.len() == 0 {
    } else {
        lemma_by_package_contained(ms.drop_last(), p);
        let bp = by_package_model(ms, p);
        let bd = by_package_model(ms.drop_last(), p);
        assert forall|k: int| 0 <= k < bp.len() implies ms.contains(#[trigger] bp[k]) by {
            if k < bd.len() {
                assert(bd[k] == bp[k]);
                let j = choose|j: int| 0 <= j < ms.drop_last().len() && ms.drop_last()[j] == bd[k];
                assert(ms[j] == bp[k]);
            } else {
                assert(bp[k] == ms.last());
                assert(ms[ms.len() - 1] == ms.last());
            }
        };
    }
}

/// With distinct identifiers in the database, the by-package view lists
/// no record twice.
pub proof fn lemma_by_package_unique(ms: Seq<MetadataModel>, p: Seq<char>)
    requires
        ids_unique(ms),
    ensures
        ids_unique(by_package_model(ms, p)),
    decreases ms.len(),
{
    if ms.len() == 0 {
    } else {
        assert(forall|a: int| 0 <= a < ms.drop_last().len() ==> ms.drop_last()[a] == ms[a]);
        lemma_by_package_unique(ms.drop_last(), p);
        lemma_by_package_contained(ms.drop_last(), p);
        let bp = by_package_model(ms, p);
        let bd = by_package_model(ms.drop_last(), p);
        if ms.last().package == p {
            assert forall|a: int, b: int| 0 <= a < b < bp.len() implies bp[a].id != bp[b].id by {
                if b < bd.len() {
                    assert(bp[a] == bd[a] && bp[b] == bd[b]);
                } else {
                    assert(bp[b] == ms.last());
                    assert(bp[a] == bd[a]);
                    assert(ms.drop_last().contains(bd[a]));
                    let j = choose|j: int|
                        0 <= j < ms.drop_last().len() && ms.drop_last()[j] == bd[a];
                    assert(ms[j].id != ms[ms.len() - 1].id);
                }
            };
        }
    }
}

/// The by-package view is exact: it lists only records of the package,
/// and every record of the package appears in it.
pub proof fn lemma_by_package_complete(ms: Seq<MetadataModel>, p: Seq<char>)
    ensures
        forall|k: int| 0 <= k < by_package_model(ms, p).len()
            ==> #[trigger] by_package_model(ms, p)[k].package == p,
        forall|i: int| 0 <= i < ms.len() && ms[i].package == p
            ==> by_package_model(ms, p).contains(#[trigger] ms[i]),
    decreases ms.len(),
{
    if ms.len() == 0 {
    } else {
        lemma_by_package_complete(ms.drop_last(), p);
        let bp = by_package_model(ms, p);
        let bd = by_package_model(ms.drop_last(), p);
        assert(forall|a: int| 0 <= a < ms.drop_last().len() ==> ms.drop_last()[a] == ms[a]);
        if ms.last().package == p {
            assert(bp == bd.push(ms.last()));
            assert(forall|a: int| 0 <= a < bd.len() ==> bp[a] == bd[a]);
            assert(bp[bd.len() as int] == ms.last());
            assert forall|i: int|
                0 <= i < ms.len() && ms[i].package == p implies bp.contains(#[trigger] ms[i]) by {
                if i < ms.len() - 1 {
                    assert(ms.drop_last()[i] == ms[i]);
                    assert(bd.contains(ms[i]));
                    let j = choose|j: int| 0 <= j < bd.len() && bd[j] == ms[i];
                    assert(bp[j] == ms[i]);
                    assert(0 <= j < bp.len());
                } else {
                    assert(bp[bd.len() as int] == ms[i]);
                    assert(0 <= bd.len() < bp.len());
                }
            };
        } else {
            assert(bp == bd);
        }
    }
}

} // verus!
