//! The advisory record: one vulnerability disclosure for one package,
//! together with the per-field validation rules of the schema.

use vstd::prelude::*;
use vstd::string::StrSliceExecFns;

verus! {

/// Vulnerability category tags: a closed vocabulary.
#[derive(Clone, Copy, Debug, PartialEq, Eq, Structural)]
pub enum Category {
    CodeExecution,
    CryptoFailure,
    DenialOfService,
    FileDisclosure,
    FormatInjection,
    MemoryCorruption,
    MemoryExposure,
    PrivilegeEscalation,
}

/// The logical advisory collection a record belongs to; assigned by the
/// build process rather than authored.
#[derive(Clone, Copy, Debug, PartialEq, Eq, Structural)]
pub enum Collection {
    Crates,
    Rust,
}

/// Marker distinguishing informational-only advisories from actionable
/// vulnerabilities.
#[derive(Clone, Copy, Debug, PartialEq, Eq, Structural)]
pub enum Informational {
    Notice,
    Unmaintained,
    Unsound,
}

/// One decoded, validated advisory.
///
/// `id`, `package` and `date` satisfy [`id_wf`], [`package_wf`] and
/// [`date_wf`]; a present `cvss` vector satisfies the syntax check of the
/// severity collaborator.  Version requirements are stored verbatim:
/// evaluating them is delegated to an outside version-matching collaborator.
#[derive(Clone, Debug, PartialEq, Eq)]
pub struct Metadata {
    /// Advisory identifier, of the fixed shape `RUSTSEC-YYYY-NNNN`.
    pub id: String,
    /// Name of the affected package.
    pub package: String,
    /// One-line summary; empty when absent.
    pub title: String,
    /// Extended description; empty when absent.
    pub description: String,
    /// Issuance date, of the fixed shape `YYYY-MM-DD`.
    pub date: String,
    /// Identifiers of the same vulnerability in other databases.
    pub aliases: Vec<String>,
    /// Identifiers of related but distinct advisories.
    pub references: Vec<String>,
    /// Collection the advisory belongs to.
    pub collection: Option<Collection>,
    /// Category tags, drawn from the closed vocabulary.
    pub categories: Vec<Category>,
    /// Free-form descriptive tokens.
    pub keywords: Vec<String>,
    /// Severity vector string, kept verbatim once its syntax is validated.
    pub cvss: Option<String>,
    /// Informational marker, absent for actionable advisories.
    pub informational: Option<Informational>,
    /// Obsolete records are excluded from active evaluation by consumers
    /// but remain retrievable by identifier.
    pub obsolete: bool,
    /// Reference URL of the disclosure.
    pub url: Option<String>,
    /// Version requirements describing patched versions, kept verbatim.
    pub patched_versions: Vec<String>,
    /// Version requirements describing never-affected versions, verbatim.
    pub unaffected_versions: Vec<String>,
}

/// Spec-level contents of one advisory record.
pub struct MetadataModel {
    pub id: Seq<char>,
    pub package: Seq<char>,
    pub title: Seq<char>,
    pub description: Seq<char>,
    pub date: Seq<char>,
    pub aliases: Seq<Seq<char>>,
    pub references: Seq<Seq<char>>,
    pub collection: Option<Collection>,
    pub categories: Seq<Category>,
    pub keywords: Seq<Seq<char>>,
    pub cvss: Option<Seq<char>>,
    pub informational: Option<Informational>,
    pub obsolete: bool,
    pub url: Option<Seq<char>>,
    pub patched_versions: Seq<Seq<char>>,
    pub unaffected_versions: Seq<Seq<char>>,
}

impl View for Metadata {
    type V = MetadataModel;

    open spec fn view(&self) -> MetadataModel {
        MetadataModel {
            id: self.id@,
            package: self.package@,
            title: self.title@,
            description: self.description@,
            date: self.date@,
            aliases: self.aliases.deep_view(),
            references: self.references.deep_view(),
            collection: self.collection,
            categories: self.categories@,
            keywords: self.keywords.deep_view(),
            cvss: self.cvss.deep_view(),
            informational: self.informational,
            obsolete: self.obsolete,
            url: self.url.deep_view(),
            patched_versions: self.patched_versions.deep_view(),
            unaffected_versions: self.unaffected_versions.deep_view(),
        }
    }
}

impl DeepView for Metadata {
    type V = MetadataModel;

    open spec fn deep_view(&self) -> MetadataModel {
        self.view()
    }
}

/// A decimal digit.
pub open spec fn is_digit(c: char) -> bool {
    48 <= (c as u32) && (c as u32) <= 57
}

/// The numeric value of a decimal digit.
pub open spec fn digit_val(c: char) -> int {
    (c as u32) - 48
}

/// The fixed lexical shape of an advisory identifier:
/// `RUSTSEC-`, a four-digit year, `-`, a four-digit sequence number.
pub open spec fn id_wf(s: Seq<char>) -> bool {
    &&& s.len() == 17
    &&& s[0] == 'R' && s[1] == 'U' && s[2] == 'S' && s[3] == 'T'
    &&& s[4] == 'S' && s[5] == 'E' && s[6] == 'C' && s[7] == '-'
    &&& is_digit(s[8]) && is_digit(s[9]) && is_digit(s[10]) && is_digit(s[11])
    &&& s[12] == '-'
    &&& is_digit(s[13]) && is_digit(s[14]) && is_digit(s[15]) && is_digit(s[16])
}

/// The month encoded by a well-shaped `YYYY-MM-DD` date.
pub open spec fn month_of(s: Seq<char>) -> int {
    10 * digit_val(s[5]) + digit_val(s[6])
}

/// The day encoded by a well-shaped `YYYY-MM-DD` date.
pub open spec fn day_of(s: Seq<char>) -> int {
    10 * digit_val(s[8]) + digit_val(s[9])
}

/// The fixed calendar shape of an issuance date: `YYYY-MM-DD` with a
/// plausible month and day.
pub open spec fn date_wf(s: Seq<char>) -> bool {
    &&& s.len() == 10
    &&& is_digit(s[0]) && is_digit(s[1]) && is_digit(s[2]) && is_digit(s[3])
    &&& s[4] == '-'
    &&& is_digit(s[5]) && is_digit(s[6])
    &&& s[7] == '-'
    &&& is_digit(s[8]) && is_digit(s[9])
    &&& 1 <= month_of(s) && month_of(s) <= 12
    &&& 1 <= day_of(s) && day_of(s) <= 31
}

/// A character allowed in a package name.
pub open spec fn package_char(c: char) -> bool {
    ||| 97 <= (c as u32) && (c as u32) <= 122
    ||| 65 <= (c as u32) && (c as u32) <= 90
    ||| is_digit(c)
    ||| c == '-'
    ||| c == '_'
}

/// A package name: non-empty, made of letters, digits, `-` and `_`.
pub open spec fn package_wf(s: Seq<char>) -> bool {
    &&& s.len() > 0
    &&& forall|i: int| 0 <= i < s.len() ==> package_char(s[i])
}

/// String equality on views, decided executably.
pub fn str_eq(a: &str, b: &str) -> (r: bool)
    ensures
        r == (a@ == b@),
{
    let x: String = a.to_owned();
    let y: String = b.to_owned();
    x == y
}

/// Decides [`id_wf`].
pub fn check_id(s: &str) -> (r: bool)
    ensures
        r == id_wf(s@),
{
    let n: usize = s.unicode_len();
    if n != 17 {
        return false;
    }
    s.get_char(0) == 'R' && s.get_char(1) == 'U' && s.get_char(2) == 'S'
        && s.get_char(3) == 'T' && s.get_char(4) == 'S' && s.get_char(5) == 'E'
        && s.get_char(6) == 'C' && s.get_char(7) == '-' && check_digit(s.get_char(8))
        && check_digit(s.get_char(9)) && check_digit(s.get_char(10))
        && check_digit(s.get_char(11)) && s.get_char(12) == '-'
        && check_digit(s.get_char(13)) && check_digit(s.get_char(14))
        && check_digit(s.get_char(15)) && check_digit(s.get_char(16))
}

/// Decides [`is_digit`].
pub fn check_digit(c: char) -> (r: bool)
    ensures
        r == is_digit(c),
{
    48 <= (c as u32) && (c as u32) <= 57
}

/// Decides [`date_wf`].
pub fn check_date(s: &str) -> (r: bool)
    ensures
        r == date_wf(s@),
{
    let n: usize = s.unicode_len();
    if n != 10 {
        return false;
    }
    let shape: bool = check_digit(s.get_char(0)) && check_digit(s.get_char(1))
        && check_digit(s.get_char(2)) && check_digit(s.get_char(3)) && s.get_char(4) == '-'
        && check_digit(s.get_char(5)) && check_digit(s.get_char(6)) && s.get_char(7) == '-'
        && check_digit(s.get_char(8)) && check_digit(s.get_char(9));
    if !shape {
        return false;
    }
    let month: u32 = 10 * (s.get_char(5) as u32 - 48) + (s.get_char(6) as u32 - 48);
    let day: u32 = 10 * (s.get_char(8) as u32 - 48) + (s.get_char(9) as u32 - 48);
    1 <= month && month <= 12 && 1 <= day && day <= 31
}

/// Decides [`package_wf`].
pub fn check_package(s: &str) -> (r: bool)
    ensures
        r == package_wf(s@),
{
    let n: usize = s.unicode_len();
    if n == 0 {
        return false;
    }
    let mut i: usize = 0;
    while i < n
        invariant
            n == s@.len(),
            i <= n,
            forall|k: int| 0 <= k < i ==> package_char(s@[k]),
        decreases n - i,
    {
        let c: char = s.get_char(i);
        let ok: bool = (97 <= (c as u32) && (c as u32) <= 122)
            || (65 <= (c as u32) && (c as u32) <= 90) || check_digit(c) || c == '-' || c == '_';
        if !ok {
            return false;
        }
        i = i + 1;
    }
    true
}

/// The category tag a token denotes, if any.
pub open spec fn category_of(s: Seq<char>) -> Option<Category> {
    if s == "code-execution"@ {
        Some(Category::CodeExecution)
    } else if s == "crypto-failure"@ {
        Some(Category::CryptoFailure)
    } else if s == "denial-of-service"@ {
        Some(Category::DenialOfService)
    } else if s == "file-disclosure"@ {
        Some(Category::FileDisclosure)
    } else if s == "format-injection"@ {
        Some(Category::FormatInjection)
    } else if s == "memory-corruption"@ {
        Some(Category::MemoryCorruption)
    } else if s == "memory-exposure"@ {
        Some(Category::MemoryExposure)
    } else if s == "privilege-escalation"@ {
        Some(Category::PrivilegeEscalation)
    } else {
        None
    }
}

/// Decides [`category_of`].
pub fn category_from(s: &str) -> (r: Option<Category>)
    ensures
        r == category_of(s@),
{
    if str_eq(s, "code-execution") {
        Some(Category::CodeExecution)
    } else if str_eq(s, "crypto-failure") {
        Some(Category::CryptoFailure)
    } else if str_eq(s, "denial-of-service") {
        Some(Category::DenialOfService)
    } else if str_eq(s, "file-disclosure") {
        Some(Category::FileDisclosure)
    } else if str_eq(s, "format-injection") {
        Some(Category::FormatInjection)
    } else if str_eq(s, "memory-corruption") {
        Some(Category::MemoryCorruption)
    } else if str_eq(s, "memory-exposure") {
        Some(Category::MemoryExposure)
    } else if str_eq(s, "privilege-escalation") {
        Some(Category::PrivilegeEscalation)
    } else {
        None
    }
}

/// The collection a token denotes, if any.
pub open spec fn collection_of(s: Seq<char>) -> Option<Collection> {
    if s == "crates"@ {
        Some(Collection::Crates)
    } else if s == "rust"@ {
        Some(Collection::Rust)
    } else {
        None
    }
}

/// Decides [`collection_of`].
pub fn collection_from(s: &str) -> (r: Option<Collection>)
    ensures
        r == collection_of(s@),
{
    if str_eq(s, "crates") {
        Some(Collection::Crates)
    } else if str_eq(s, "rust") {
        Some(Collection::Rust)
    } else {
        None
    }
}

/// The informational marker a token denotes, if any.
pub open spec fn informational_of(s: Seq<char>) -> Option<Informational> {
    if s == "notice"@ {
        Some(Informational::Notice)
    } else if s == "unmaintained"@ {
        Some(Informational::Unmaintained)
    } else if s == "unsound"@ {
        Some(Informational::Unsound)
    } else {
        None
    }
}

/// Decides [`informational_of`].
pub fn informational_from(s: &str) -> (r: Option<Informational>)
    ensures
        r == informational_of(s@),
{
    if str_eq(s, "notice") {
        Some(Informational::Notice)
    } else if str_eq(s, "unmaintained") {
        Some(Informational::Unmaintained)
    } else if str_eq(s, "unsound") {
        Some(Informational::Unsound)
    } else {
        None
    }
}

} // verus!
