//! Semantic versions and their precedence.

use vstd::prelude::*;
use crate::precedence::{
    Precedence, chains, is_total_order, lemma_lex_chains, lemma_lex_flip, lemma_lex_reflexive, lex,
    lex_from, number_precedence,
};
use crate::text::followed_by;

verus! {

/// One dot-separated part of a pre-release or build tag.
#[derive(Debug)]
pub enum Identifier {
    /// A part made of digits only.
    Numeric(u64),
    /// A part with letters, digits or hyphens.
    AlphaNumeric(String),
}

/// A semantic version.
#[derive(Debug)]
pub struct Version {
    pub major: u64,
    pub minor: u64,
    pub patch: u64,
    /// Pre-release parts, empty for a release.
    pub pre: Vec<Identifier>,
    /// Build metadata, which never takes part in precedence.
    pub build: Vec<Identifier>,
}

/// Mathematical value of an [`Identifier`].
pub enum IdentifierModel {
    Numeric(nat),
    AlphaNumeric(Seq<char>),
}

/// Mathematical value of a [`Version`].
pub struct VersionModel {
    pub major: nat,
    pub minor: nat,
    pub patch: nat,
    pub pre: Seq<IdentifierModel>,
    pub build: Seq<IdentifierModel>,
}

impl View for Identifier {
    type V = IdentifierModel;

    open spec fn view(&self) -> IdentifierModel {
        match self {
            Identifier::Numeric(n) => IdentifierModel::Numeric(*n as nat),
            Identifier::AlphaNumeric(s) => IdentifierModel::AlphaNumeric(s@),
        }
    }
}

/// The models of a run of identifiers, in order.
pub open spec fn identifier_models(parts: Seq<Identifier>) -> Seq<IdentifierModel> {
    Seq::new(parts.len(), |i: int| parts[i]@)
}

impl View for Version {
    type V = VersionModel;

    open spec fn view(&self) -> VersionModel {
        VersionModel {
            major: self.major as nat,
            minor: self.minor as nat,
            patch: self.patch as nat,
            pre: identifier_models(self.pre@),
            build: identifier_models(self.build@),
        }
    }
}

/// Rank of two characters by code point.
pub open spec fn char_order() -> spec_fn(char, char) -> Precedence {
    |a: char, b: char| number_precedence(a as u32 as int, b as u32 as int)
}

/// Rank of two texts: lexicographic by code point.
pub open spec fn text_precedence(a: Seq<char>, b: Seq<char>) -> Precedence {
    lex(a, b, char_order())
}

/// Rank of two identifiers: a numeric one ranks below an alphanumeric one,
/// two numeric ones rank as numbers, two alphanumeric ones as texts.
pub open spec fn identifier_precedence(a: IdentifierModel, b: IdentifierModel) -> Precedence {
    match (a, b) {
        (IdentifierModel::Numeric(x), IdentifierModel::Numeric(y)) => number_precedence(
            x as int,
            y as int,
        ),
        (IdentifierModel::Numeric(_), IdentifierModel::AlphaNumeric(_)) => Precedence::Lower,
        (IdentifierModel::AlphaNumeric(_), IdentifierModel::Numeric(_)) => Precedence::Higher,
        (IdentifierModel::AlphaNumeric(x), IdentifierModel::AlphaNumeric(y)) => text_precedence(
            x,
            y,
        ),
    }
}

/// [`identifier_precedence`] as a rank function.
pub open spec fn identifier_order() -> spec_fn(IdentifierModel, IdentifierModel) -> Precedence {
    |a: IdentifierModel, b: IdentifierModel| identifier_precedence(a, b)
}

/// Rank of two pre-release tags: a version without one ranks above a version
/// with one; two tags rank lexicographically by their identifiers.
pub open spec fn pre_release_precedence(
    a: Seq<IdentifierModel>,
    b: Seq<IdentifierModel>,
) -> Precedence {
    if a.len() == 0 && b.len() == 0 {
        Precedence::Same
    } else if a.len() == 0 {
        Precedence::Higher
    } else if b.len() == 0 {
        Precedence::Lower
    } else {
        lex(a, b, identifier_order())
    }
}

/// Precedence of version `a` against version `b`: major, minor and patch
/// decide in that order, then the pre-release tags. Build metadata is ignored.
pub open spec fn version_precedence(a: VersionModel, b: VersionModel) -> Precedence {
    number_precedence(a.major as int, b.major as int).or_else(
        number_precedence(a.minor as int, b.minor as int).or_else(
            number_precedence(a.patch as int, b.patch as int).or_else(
                pre_release_precedence(a.pre, b.pre),
            ),
        ),
    )
}

/// Code points are totally ordered.
pub proof fn lemma_char_order()
    ensures
        is_total_order(char_order()),
{
}

/// Identifiers are totally ordered by [`identifier_precedence`].
pub proof fn lemma_identifier_order()
    ensures
        is_total_order(identifier_order()),
{
    let f = identifier_order();
    lemma_char_order();
    assert forall|x: IdentifierModel| #[trigger] f(x, x) is Same by {
        if let IdentifierModel::AlphaNumeric(s) = x {
            lemma_lex_reflexive(s, 0, char_order());
        }
    }
    assert forall|x: IdentifierModel, y: IdentifierModel| #[trigger]
        f(y, x) == f(x, y).flip() by {
        if let (IdentifierModel::AlphaNumeric(s), IdentifierModel::AlphaNumeric(t)) = (x, y) {
            lemma_lex_flip(s, t, 0, char_order());
        }
    }
    assert forall|x: IdentifierModel, y: IdentifierModel, z: IdentifierModel|
        chains(#[trigger] f(x, y), #[trigger] f(y, z), f(x, z)) by {
        if let (
            IdentifierModel::AlphaNumeric(s),
            IdentifierModel::AlphaNumeric(t),
            IdentifierModel::AlphaNumeric(u),
        ) = (x, y, z) {
            lemma_lex_chains(s, t, u, 0, char_order());
        }
    }
}

/// A version has the same precedence as itself.
pub proof fn lemma_precedence_reflexive(x: VersionModel)
    ensures
        version_precedence(x, x) is Same,
{
    lemma_identifier_order();
    lemma_lex_reflexive(x.pre, 0, identifier_order());
}

/// Swapping two versions flips their precedence.
pub proof fn lemma_precedence_flip(x: VersionModel, y: VersionModel)
    ensures
        version_precedence(y, x) == version_precedence(x, y).flip(),
{
    lemma_identifier_order();
    lemma_lex_flip(x.pre, y.pre, 0, identifier_order());
}

/// Precedence is transitive: the precedence of `x` against `z` follows from
/// those of `x` against `y` and of `y` against `z` wherever the two agree or
/// one of them is `Same`.
pub proof fn lemma_precedence_chains(x: VersionModel, y: VersionModel, z: VersionModel)
    ensures
        chains(version_precedence(x, y), version_precedence(y, z), version_precedence(x, z)),
{
    lemma_identifier_order();
    lemma_lex_chains(x.pre, y.pre, z.pre, 0, identifier_order());
}

/// Ranks two unsigned numbers.
pub fn compare_numbers(a: u64, b: u64) -> (r: Precedence)
    ensures
        r == number_precedence(a as int, b as int),
{
    if a < b {
        Precedence::Lower
    } else if a == b {
        Precedence::Same
    } else {
        Precedence::Higher
    }
}

/// Ranks two texts lexicographically by code point.
pub fn compare_text(a: &str, b: &str) -> (r: Precedence)
    ensures
        r == text_precedence(a@, b@),
{
    let n = a.unicode_len();
    let m = b.unicode_len();
    let mut i: usize = 0;
    while i < n && i < m
        invariant
            n == a@.len(),
            m == b@.len(),
            i <= n,
            i <= m,
            text_precedence(a@, b@) == lex_from(a@, b@, i as int, char_order()),
        decreases n - i,
    {
        let x = a.get_char(i);
        let y = b.get_char(i);
        if x < y {
            return Precedence::Lower;
        }
        if x > y {
            return Precedence::Higher;
        }
        i = i + 1;
    }
    if i < m {
        Precedence::Lower
    } else if i < n {
        Precedence::Higher
    } else {
        Precedence::Same
    }
}

impl Identifier {
    /// Ranks this identifier against another.
    pub fn compare(&self, other: &Identifier) -> (r: Precedence)
        ensures
            r == identifier_precedence(self@, other@),
    {
        match (self, other) {
            (Identifier::Numeric(x), Identifier::Numeric(y)) => compare_numbers(*x, *y),
            (Identifier::Numeric(_), Identifier::AlphaNumeric(_)) => Precedence::Lower,
            (Identifier::AlphaNumeric(_), Identifier::Numeric(_)) => Precedence::Higher,
            (Identifier::AlphaNumeric(x), Identifier::AlphaNumeric(y)) => compare_text(
                x.as_str(),
                y.as_str(),
            ),
        }
    }
}

/// Ranks two pre-release tags.
pub fn compare_pre_release(a: &Vec<Identifier>, b: &Vec<Identifier>) -> (r: Precedence)
    ensures
        r == pre_release_precedence(identifier_models(a@), identifier_models(b@)),
{
    let n = a.len();
    let m = b.len();
    if n == 0 && m == 0 {
        return Precedence::Same;
    }
    if n == 0 {
        return Precedence::Higher;
    }
    if m == 0 {
        return Precedence::Lower;
    }
    let ghost x = identifier_models(a@);
    let ghost y = identifier_models(b@);
    let mut i: usize = 0;
    while i < n && i < m
        invariant
            n == a@.len(),
            m == b@.len(),
            i <= n,
            i <= m,
            x == identifier_models(a@),
            y == identifier_models(b@),
            lex(x, y, identifier_order()) == lex_from(x, y, i as int, identifier_order()),
        decreases n - i,
    {
        let step = a[i].compare(&b[i]);
        match step {
            Precedence::Same => {},
            _ => {
                return step;
            },
        }
        i = i + 1;
    }
    if i < m {
        Precedence::Lower
    } else if i < n {
        Precedence::Higher
    } else {
        Precedence::Same
    }
}

impl Version {
    /// Ranks this version against another by semantic-version precedence.
    pub fn compare(&self, other: &Version) -> (r: Precedence)
        ensures
            r == version_precedence(self@, other@),
    {
        let major = compare_numbers(self.major, other.major);
        match major {
            Precedence::Same => {},
            _ => {
                return major;
            },
        }
        let minor = compare_numbers(self.minor, other.minor);
        match minor {
            Precedence::Same => {},
            _ => {
                return minor;
            },
        }
        let patch = compare_numbers(self.patch, other.patch);
        match patch {
            Precedence::Same => {},
            _ => {
                return patch;
            },
        }
        compare_pre_release(&self.pre, &other.pre)
    }
}

/// Whether `candidate` is an update over `current`: strictly higher
/// precedence. A version of the same precedence is never an update.
pub fn is_newer(candidate: &Version, current: &Version) -> (r: bool)
    ensures
        r == (version_precedence(candidate@, current@) is Higher),
{
    match candidate.compare(current) {
        Precedence::Higher => true,
        _ => false,
    }
}

/// The error of the `semver` crate, carried through unread.
#[verifier::external_type_specification]
#[verifier::external_body]
pub struct ExSemVerError(semver::SemVerError);

/// What `semver::Version::parse` reads from a text: the version, or nothing
/// where it rejects the text.
pub uninterp spec fn parsed_version(text: Seq<char>) -> Option<VersionModel>;

/// Calls `semver::Version::parse` and moves the fields of what it returns,
/// one for one, into a [`Version`]. Trusted: the outcome depends on the text
/// alone, which [`parsed_version`] names.
#[verifier::external_body]
fn semver_parse(text: &str) -> (r: Result<Version, semver::SemVerError>)
    ensures
        match r {
            Ok(v) => parsed_version(text@) == Some(v@),
            Err(_) => parsed_version(text@) is None,
        },
{
    let v = semver::Version::parse(text)?;
    let own = |i: semver::Identifier| match i {
        semver::Identifier::Numeric(n) => Identifier::Numeric(n),
        semver::Identifier::AlphaNumeric(s) => Identifier::AlphaNumeric(s),
    };
    Ok(Version {
        major: v.major,
        minor: v.minor,
        patch: v.patch,
        pre: v.pre.into_iter().map(own).collect(),
        build: v.build.into_iter().map(own).collect(),
    })
}

impl Version {
    /// Reads a semantic version from `text`, or returns nothing where the
    /// text is not one.
    pub fn parse(text: &str) -> (r: Option<Version>)
        ensures
            match r {
                Some(v) => parsed_version(text@) == Some(v@),
                None => parsed_version(text@) is None,
            },
    {
        match semver_parse(text) {
            Ok(v) => Some(v),
            Err(_) => None,
        }
    }
}

impl Clone for Identifier {
    fn clone(&self) -> (r: Self)
        ensures
            r@ == self@,
    {
        match self {
            Identifier::Numeric(n) => Identifier::Numeric(*n),
            Identifier::AlphaNumeric(s) => Identifier::AlphaNumeric(s.clone()),
        }
    }
}

/// Copies a run of identifiers.
fn clone_identifiers(parts: &Vec<Identifier>) -> (r: Vec<Identifier>)
    ensures
        identifier_models(r@) == identifier_models(parts@),
{
    let mut out: Vec<Identifier> = Vec::new();
    let mut i: usize = 0;
    while i < parts.len()
        invariant
            i <= parts.len(),
            out@.len() == i,
            forall|j: int| 0 <= j < i ==> out@[j]@ == parts@[j]@,
        decreases parts.len() - i,
    {
        out.push(parts[i].clone());
        i = i + 1;
    }
    out
}

impl Clone for Version {
    fn clone(&self) -> (r: Self)
        ensures
            r@ == self@,
    {
        Version {
            major: self.major,
            minor: self.minor,
            patch: self.patch,
            pre: clone_identifiers(&self.pre),
            build: clone_identifiers(&self.build),
        }
    }
}

/// The character of a decimal digit.
pub open spec fn digit_text(d: nat) -> Seq<char> {
    if d == 0 {
        "0"@
    } else if d == 1 {
        "1"@
    } else if d == 2 {
        "2"@
    } else if d == 3 {
        "3"@
    } else if d == 4 {
        "4"@
    } else if d == 5 {
        "5"@
    } else if d == 6 {
        "6"@
    } else if d == 7 {
        "7"@
    } else if d == 8 {
        "8"@
    } else {
        "9"@
    }
}

/// A number written in decimal, without leading zeros.
pub open spec fn decimal(n: nat) -> Seq<char>
    decreases n,
{
    if n < 10 {
        digit_text(n)
    } else {
        decimal(n / 10) + digit_text(n % 10)
    }
}

/// The character of a decimal digit.
fn digit(d: u64) -> (r: &'static str)
    requires
        d < 10,
    ensures
        r@ == digit_text(d as nat),
{
    if d == 0 {
        "0"
    } else if d == 1 {
        "1"
    } else if d == 2 {
        "2"
    } else if d == 3 {
        "3"
    } else if d == 4 {
        "4"
    } else if d == 5 {
        "5"
    } else if d == 6 {
        "6"
    } else if d == 7 {
        "7"
    } else if d == 8 {
        "8"
    } else {
        "9"
    }
}

/// Writes a number in decimal.
pub fn number_text(n: u64) -> (r: String)
    ensures
        r@ == decimal(n as nat),
{
    let mut rest = n / 10;
    let mut out = digit(n % 10).to_owned();
    while rest > 0
        invariant
            decimal(n as nat) == if rest == 0 {
                out@
            } else {
                decimal(rest as nat) + out@
            },
        decreases rest,
    {
        let ghost tail = out@;
        out = followed_by(digit(rest % 10), out.as_str());
        proof {
            if rest >= 10 {
                assert(decimal(rest as nat) + tail == decimal((rest / 10) as nat) + (digit_text(
                    (rest % 10) as nat,
                ) + tail));
            }
        }
        rest = rest / 10;
    }
    out
}

/// How an identifier is written.
pub open spec fn identifier_text(part: IdentifierModel) -> Seq<char> {
    match part {
        IdentifierModel::Numeric(n) => decimal(n),
        IdentifierModel::AlphaNumeric(s) => s,
    }
}

/// The identifiers of a tag, written with a dot between each two.
pub open spec fn tag_text(parts: Seq<IdentifierModel>) -> Seq<char>
    decreases parts.len(),
{
    if parts.len() == 0 {
        Seq::empty()
    } else if parts.len() == 1 {
        identifier_text(parts[0])
    } else {
        tag_text(parts.drop_last()) + "."@ + identifier_text(parts.last())
    }
}

/// How a version is written: the three numbers with dots between them, then
/// the pre-release tag after a hyphen and the build metadata after a plus
/// sign, each only where there is one.
pub open spec fn version_text(v: VersionModel) -> Seq<char> {
    let core = decimal(v.major) + "."@ + decimal(v.minor) + "."@ + decimal(v.patch);
    let pre = if v.pre.len() == 0 {
        Seq::empty()
    } else {
        "-"@ + tag_text(v.pre)
    };
    let build = if v.build.len() == 0 {
        Seq::empty()
    } else {
        "+"@ + tag_text(v.build)
    };
    core + pre + build
}

impl Identifier {
    /// Writes this identifier.
    pub fn to_string(&self) -> (r: String)
        ensures
            r@ == identifier_text(self@),
    {
        match self {
            Identifier::Numeric(n) => number_text(*n),
            Identifier::AlphaNumeric(s) => s.clone(),
        }
    }
}

/// Writes the identifiers of a tag with a dot between each two.
fn write_tag(parts: &Vec<Identifier>) -> (r: String)
    ensures
        r@ == tag_text(identifier_models(parts@)),
{
    let ghost models = identifier_models(parts@);
    let mut out = String::new();
    let mut i: usize = 0;
    while i < parts.len()
        invariant
            i <= parts.len(),
            models == identifier_models(parts@),
            out@ == tag_text(models.take(i as int)),
        decreases parts.len() - i,
    {
        if i > 0 {
            out.append(".");
        }
        out.append(parts[i].to_string().as_str());
        assert(models.take(i + 1).drop_last() == models.take(i as int));
        i = i + 1;
    }
    assert(models.take(models.len() as int) == models);
    out
}

impl Version {
    /// Writes this version.
    pub fn to_string(&self) -> (r: String)
        ensures
            r@ == version_text(self@),
    {
        let mut out = number_text(self.major);
        out.append(".");
        out.append(number_text(self.minor).as_str());
        out.append(".");
        out.append(number_text(self.patch).as_str());
        if self.pre.len() > 0 {
            out.append("-");
            out.append(write_tag(&self.pre).as_str());
        }
        if self.build.len() > 0 {
            out.append("+");
            out.append(write_tag(&self.build).as_str());
        }
        out
    }
}

} // verus!
