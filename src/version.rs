use std::cmp::Ordering;
use vstd::prelude::*;
use vstd::std_specs::cmp::PartialEqSpec;

use crate::span::Span;
use crate::text::{decimal, join, lemma_join_take, push_char, push_u32};

verus! {

/// A version number: a plain number, or the wildcard `*` (also written `x` or `X`).
///
/// The wildcard is equal to, and orders equal against, every number. Two numbers
/// compare as integers. Equality is therefore not transitive (`* == 1`, `* == 2`,
/// `1 != 2`), and the order is no total order.
#[derive(Clone, Copy, Debug)]
pub enum SemverVersionNumber {
    /// A number.
    Number(u32),
    /// `*`, `X`, or `x`.
    Wildcard,
}

/// The order of two version numbers, where the wildcard absorbs.
pub open spec fn number_cmp(a: SemverVersionNumber, b: SemverVersionNumber) -> Ordering {
    match (a, b) {
        (SemverVersionNumber::Number(x), SemverVersionNumber::Number(y)) => {
            if x < y {
                Ordering::Less
            } else if x == y {
                Ordering::Equal
            } else {
                Ordering::Greater
            }
        },
        _ => Ordering::Equal,
    }
}

/// The order of two optional components: an absent side compares equal to anything.
pub open spec fn opt_number_cmp(
    a: Option<SemverVersionNumber>,
    b: Option<SemverVersionNumber>,
) -> Ordering {
    match (a, b) {
        (Some(x), Some(y)) => number_cmp(x, y),
        _ => Ordering::Equal,
    }
}

/// The value a version number stands for as a `u64`: the wildcard is `u64::MAX`.
pub open spec fn number_to_u64(n: SemverVersionNumber) -> u64 {
    match n {
        SemverVersionNumber::Number(x) => x as u64,
        SemverVersionNumber::Wildcard => u64::MAX,
    }
}

impl SemverVersionNumber {
    /// Compares two version numbers; the wildcard is equal to everything.
    pub fn cmp(&self, other: &Self) -> (r: Ordering)
        ensures
            r == number_cmp(*self, *other),
    {
        match (self, other) {
            (SemverVersionNumber::Number(a), SemverVersionNumber::Number(b)) => {
                if *a < *b {
                    Ordering::Less
                } else if *a == *b {
                    Ordering::Equal
                } else {
                    Ordering::Greater
                }
            },
            _ => Ordering::Equal,
        }
    }
}

/// The text of a version number: its decimal digits, or `*`.
pub open spec fn number_text(n: SemverVersionNumber) -> Seq<char> {
    match n {
        SemverVersionNumber::Number(x) => decimal(x as nat),
        SemverVersionNumber::Wildcard => seq!['*'],
    }
}

impl SemverVersionNumber {
    fn write_to(&self, out: &mut String)
        ensures
            final(out)@ == old(out)@ + number_text(*self),
    {
        match self {
            SemverVersionNumber::Number(n) => push_u32(out, *n),
            SemverVersionNumber::Wildcard => push_char(out, '*'),
        }
    }

    /// Renders the number in decimal, or the wildcard as `*`.
    pub fn to_string(&self) -> (r: String)
        ensures
            r@ == number_text(*self),
    {
        let mut out = String::new();
        self.write_to(&mut out);
        out
    }
}

impl From<u64> for SemverVersionNumber {
    /// A number that does not fit in `u32` becomes the wildcard.
    fn from(n: u64) -> (r: Self) {
        if n <= u32::MAX as u64 {
            SemverVersionNumber::Number(n as u32)
        } else {
            SemverVersionNumber::Wildcard
        }
    }
}

impl vstd::std_specs::convert::FromSpecImpl<u64> for SemverVersionNumber {
    open spec fn obeys_from_spec() -> bool {
        true
    }

    open spec fn from_spec(n: u64) -> Self {
        if n <= u32::MAX as u64 {
            SemverVersionNumber::Number(n as u32)
        } else {
            SemverVersionNumber::Wildcard
        }
    }
}

impl From<SemverVersionNumber> for u64 {
    /// The wildcard becomes `u64::MAX`.
    fn from(value: SemverVersionNumber) -> (r: u64) {
        match value {
            SemverVersionNumber::Number(n) => n as u64,
            SemverVersionNumber::Wildcard => u64::MAX,
        }
    }
}

impl vstd::std_specs::convert::FromSpecImpl<SemverVersionNumber> for u64 {
    open spec fn obeys_from_spec() -> bool {
        true
    }

    open spec fn from_spec(value: SemverVersionNumber) -> u64 {
        number_to_u64(value)
    }
}

impl PartialEq for SemverVersionNumber {
    fn eq(&self, other: &Self) -> (r: bool) {
        match (self, other) {
            (SemverVersionNumber::Number(a), SemverVersionNumber::Number(b)) => *a == *b,
            _ => true,
        }
    }
}

impl vstd::std_specs::cmp::PartialEqSpecImpl for SemverVersionNumber {
    open spec fn obeys_eq_spec() -> bool {
        true
    }

    open spec fn eq_spec(&self, other: &Self) -> bool {
        number_cmp(*self, *other) == Ordering::Equal
    }
}

impl PartialOrd for SemverVersionNumber {
    fn partial_cmp(&self, other: &Self) -> (r: Option<Ordering>) {
        Some(self.cmp(other))
    }
}

impl vstd::std_specs::cmp::PartialOrdSpecImpl for SemverVersionNumber {
    open spec fn obeys_partial_cmp_spec() -> bool {
        true
    }

    open spec fn partial_cmp_spec(&self, other: &Self) -> Option<Ordering> {
        Some(number_cmp(*self, *other))
    }
}

/// A version: a major number, with an optional minor and patch number.
///
/// Versions compare by major, then minor, then patch number. A component that is
/// absent on either side compares equal to anything at that position.
#[derive(Clone, Copy, Debug)]
pub struct SemverVersion {
    pub span: Span,
    /// Major version.
    pub major: SemverVersionNumber,
    /// Minor version. Optional.
    pub minor: Option<SemverVersionNumber>,
    /// Patch version. Optional.
    pub patch: Option<SemverVersionNumber>,
}

/// The order of two versions: major, then minor, then patch number. A minor
/// number absent on either side compares equal to anything, and so do both
/// patch numbers then; a patch number absent on either side compares equal.
pub open spec fn version_cmp(a: SemverVersion, b: SemverVersion) -> Ordering {
    let major = number_cmp(a.major, b.major);
    if major != Ordering::Equal {
        major
    } else {
        match (a.minor, b.minor) {
            (Some(x), Some(y)) => {
                let minor = number_cmp(x, y);
                if minor != Ordering::Equal {
                    minor
                } else {
                    opt_number_cmp(a.patch, b.patch)
                }
            },
            _ => Ordering::Equal,
        }
    }
}

fn opt_cmp(a: &Option<SemverVersionNumber>, b: &Option<SemverVersionNumber>) -> (r: Ordering)
    ensures
        r == opt_number_cmp(*a, *b),
{
    match (a, b) {
        (Some(a), Some(b)) => a.cmp(b),
        _ => Ordering::Equal,
    }
}

impl SemverVersion {
    /// Compares two versions; absent components and wildcards compare equal.
    pub fn cmp(&self, other: &Self) -> (r: Ordering)
        ensures
            r == version_cmp(*self, *other),
    {
        let major = self.major.cmp(&other.major);
        match major {
            Ordering::Equal => {},
            _ => {
                return major;
            },
        }
        let minor = opt_cmp(&self.minor, &other.minor);
        match minor {
            Ordering::Equal => {},
            _ => {
                return minor;
            },
        }
        if self.minor.is_none() || other.minor.is_none() {
            return Ordering::Equal;
        }
        opt_cmp(&self.patch, &other.patch)
    }
}

impl PartialEq for SemverVersion {
    fn eq(&self, other: &Self) -> (r: bool) {
        match self.cmp(other) {
            Ordering::Equal => true,
            _ => false,
        }
    }
}

impl vstd::std_specs::cmp::PartialEqSpecImpl for SemverVersion {
    open spec fn obeys_eq_spec() -> bool {
        true
    }

    open spec fn eq_spec(&self, other: &Self) -> bool {
        version_cmp(*self, *other) == Ordering::Equal
    }
}

impl PartialOrd for SemverVersion {
    fn partial_cmp(&self, other: &Self) -> (r: Option<Ordering>) {
        Some(self.cmp(other))
    }
}

impl vstd::std_specs::cmp::PartialOrdSpecImpl for SemverVersion {
    open spec fn obeys_partial_cmp_spec() -> bool {
        true
    }

    open spec fn partial_cmp_spec(&self, other: &Self) -> Option<Ordering> {
        Some(version_cmp(*self, *other))
    }
}

/// The text of a version: `major[.minor[.patch]]`, with `*` for an absent
/// minor number that stands before a present patch number (`1.*.3`).
pub open spec fn version_text(v: SemverVersion) -> Seq<char> {
    let minor = match v.minor {
        Some(m) => seq!['.'] + number_text(m),
        None => seq![],
    };
    let patch = match v.patch {
        Some(p) => if v.minor is None {
            seq!['.', '*', '.'] + number_text(p)
        } else {
            seq!['.'] + number_text(p)
        },
        None => seq![],
    };
    number_text(v.major) + minor + patch
}

impl SemverVersion {
    fn write_to(&self, out: &mut String)
        ensures
            final(out)@ == old(out)@ + version_text(*self),
    {
        let ghost start = out@;
        self.major.write_to(out);
        if let Some(minor) = self.minor {
            push_char(out, '.');
            minor.write_to(out);
        }
        if let Some(patch) = self.patch {
            if self.minor.is_none() {
                push_char(out, '.');
                push_char(out, '*');
            }
            push_char(out, '.');
            patch.write_to(out);
        }
        assert(out@ =~= start + version_text(*self));
    }

    /// Renders the version as `major[.minor[.patch]]` (`1.*.3` where only the
    /// minor number is absent).
    pub fn to_string(&self) -> (r: String)
        ensures
            r@ == version_text(*self),
    {
        let mut out = String::new();
        self.write_to(&mut out);
        out
    }
}

/// The wildcard is equal to every number, and orders equal against it, on
/// either side.
pub proof fn lemma_wildcard_absorbs(n: u32)
    ensures
        number_cmp(SemverVersionNumber::Wildcard, SemverVersionNumber::Number(n))
            == Ordering::Equal,
        number_cmp(SemverVersionNumber::Number(n), SemverVersionNumber::Wildcard)
            == Ordering::Equal,
        SemverVersionNumber::Wildcard.eq_spec(&SemverVersionNumber::Number(n)),
        SemverVersionNumber::Number(n).eq_spec(&SemverVersionNumber::Wildcard),
{
}

/// Where one side has no minor number, neither the other side's minor number
/// nor either side's patch number takes part in the order, in either order of
/// the operands.
pub proof fn lemma_absent_minor_ignored(
    a: SemverVersion,
    b: SemverVersion,
    m: Option<SemverVersionNumber>,
    p: Option<SemverVersionNumber>,
    q: Option<SemverVersionNumber>,
)
    requires
        a.minor is None,
    ensures
        version_cmp(a, b) == version_cmp(a, SemverVersion { minor: m, ..b }),
        version_cmp(b, a) == version_cmp(SemverVersion { minor: m, ..b }, a),
        version_cmp(a, b) == version_cmp(
            SemverVersion { patch: q, ..a },
            SemverVersion { patch: p, ..b },
        ),
        version_cmp(b, a) == version_cmp(
            SemverVersion { patch: p, ..b },
            SemverVersion { patch: q, ..a },
        ),
{
}

/// Where one side has no patch number, the other side's patch number takes no
/// part in the order, in either order of the operands.
pub proof fn lemma_absent_patch_ignored(a: SemverVersion, b: SemverVersion, p: Option<
    SemverVersionNumber,
>)
    requires
        a.patch is None,
    ensures
        version_cmp(a, b) == version_cmp(a, SemverVersion { patch: p, ..b }),
        version_cmp(b, a) == version_cmp(SemverVersion { patch: p, ..b }, a),
{
}

/// A version and the same version without its minor or its patch number
/// compare equal, in either order.
pub proof fn lemma_absent_component_equal(v: SemverVersion)
    ensures
        version_cmp(SemverVersion { minor: None, ..v }, v) == Ordering::Equal,
        version_cmp(v, SemverVersion { minor: None, ..v }) == Ordering::Equal,
        version_cmp(SemverVersion { patch: None, ..v }, v) == Ordering::Equal,
        version_cmp(v, SemverVersion { patch: None, ..v }) == Ordering::Equal,
{
}

#[verifier::external_type_specification]
#[verifier::external_body]
pub struct ExVersion(semver::Version);

/// The version that `semver::Version::new` builds from its three numbers.
pub uninterp spec fn semver_version(major: u64, minor: u64, patch: u64) -> semver::Version;

/// Relies on `semver::Version::new`: the version with these three numbers and
/// no pre-release or build metadata, which depends on the numbers alone.
pub assume_specification[ semver::Version::new ](major: u64, minor: u64, patch: u64) -> (r:
    semver::Version)
    ensures
        r == semver_version(major, minor, patch),
;

/// The `u64` value of an optional number: absent is `0`.
pub open spec fn opt_number_to_u64(n: Option<SemverVersionNumber>) -> u64 {
    match n {
        Some(x) => number_to_u64(x),
        None => 0,
    }
}

impl From<SemverVersion> for semver::Version {
    /// Absent minor and patch numbers become `0`; the wildcard becomes `u64::MAX`.
    fn from(version: SemverVersion) -> (r: semver::Version) {
        let minor = match version.minor {
            Some(m) => u64::from(m),
            None => 0,
        };
        let patch = match version.patch {
            Some(p) => u64::from(p),
            None => 0,
        };
        semver::Version::new(u64::from(version.major), minor, patch)
    }
}

impl vstd::std_specs::convert::FromSpecImpl<SemverVersion> for semver::Version {
    open spec fn obeys_from_spec() -> bool {
        true
    }

    open spec fn from_spec(version: SemverVersion) -> semver::Version {
        semver_version(
            number_to_u64(version.major),
            opt_number_to_u64(version.minor),
            opt_number_to_u64(version.patch),
        )
    }
}

impl SemverVersion {
    /// Creates a version of the `semver` crate from this version.
    pub fn into_semver(self) -> (r: semver::Version)
        ensures
            r == semver_version(
                number_to_u64(self.major),
                opt_number_to_u64(self.minor),
                opt_number_to_u64(self.patch),
            ),
    {
        semver::Version::from(self)
    }
}

/// A requirement operator.
#[derive(Clone, Copy, Debug, PartialEq, Eq, Structural)]
pub enum SemverOp {
    /// `=v`
    Exact,
    /// `>v`
    Greater,
    /// `>=v`
    GreaterEq,
    /// `<v`
    Less,
    /// `<=v`
    LessEq,
    /// `~v`
    Tilde,
    /// `^v`
    Caret,
    /// `*`
    Wildcard,
}

/// The text of an operator.
pub open spec fn op_text(op: SemverOp) -> Seq<char> {
    match op {
        SemverOp::Exact => seq!['='],
        SemverOp::Greater => seq!['>'],
        SemverOp::GreaterEq => seq!['>', '='],
        SemverOp::Less => seq!['<'],
        SemverOp::LessEq => seq!['<', '='],
        SemverOp::Tilde => seq!['~'],
        SemverOp::Caret => seq!['^'],
        SemverOp::Wildcard => seq!['*'],
    }
}

impl SemverOp {
    fn write_to(&self, out: &mut String)
        ensures
            final(out)@ == old(out)@ + op_text(*self),
    {
        let ghost start = out@;
        match self {
            SemverOp::Exact => push_char(out, '='),
            SemverOp::Greater => push_char(out, '>'),
            SemverOp::GreaterEq => {
                push_char(out, '>');
                push_char(out, '=');
            },
            SemverOp::Less => push_char(out, '<'),
            SemverOp::LessEq => {
                push_char(out, '<');
                push_char(out, '=');
            },
            SemverOp::Tilde => push_char(out, '~'),
            SemverOp::Caret => push_char(out, '^'),
            SemverOp::Wildcard => push_char(out, '*'),
        }
        assert(out@ =~= start + op_text(*self));
    }
}

/// `a` with its patch number cleared: the version that tilde compares against.
pub open spec fn tilde_floor(a: SemverVersion) -> SemverVersion {
    SemverVersion { patch: None, ..a }
}

/// `a` with its patch number cleared, and its minor number cleared too when
/// `a`'s own major number is greater than zero.
pub open spec fn caret_floor(a: SemverVersion) -> SemverVersion {
    if number_cmp(a.major, SemverVersionNumber::Number(0)) == Ordering::Greater {
        SemverVersion { minor: None, patch: None, ..a }
    } else {
        SemverVersion { patch: None, ..a }
    }
}

/// Whether the tested version `a` meets `op b`.
pub open spec fn op_matches(op: SemverOp, a: SemverVersion, b: SemverVersion) -> bool {
    let c = version_cmp(a, b);
    match op {
        SemverOp::Exact => c == Ordering::Equal,
        SemverOp::Greater => c == Ordering::Greater,
        SemverOp::GreaterEq => c != Ordering::Less,
        SemverOp::Less => c == Ordering::Less,
        SemverOp::LessEq => c != Ordering::Greater,
        SemverOp::Tilde => c != Ordering::Less && version_cmp(tilde_floor(a), b)
            != Ordering::Greater,
        SemverOp::Caret => c != Ordering::Less && version_cmp(caret_floor(a), b)
            != Ordering::Greater,
        SemverOp::Wildcard => true,
    }
}

fn matches_op(op: SemverOp, a: &SemverVersion, b: &SemverVersion) -> (r: bool)
    ensures
        r == op_matches(op, *a, *b),
{
    match op {
        SemverOp::Exact => a == b,
        SemverOp::Greater => a > b,
        SemverOp::GreaterEq => a >= b,
        SemverOp::Less => a < b,
        SemverOp::LessEq => a <= b,
        SemverOp::Tilde => matches_tilde(a, b),
        SemverOp::Caret => matches_caret(a, b),
        SemverOp::Wildcard => true,
    }
}

fn matches_tilde(a: &SemverVersion, b: &SemverVersion) -> (r: bool)
    ensures
        r == op_matches(SemverOp::Tilde, *a, *b),
{
    if !(a >= b) {
        return false;
    }
    let mut a = *a;
    a.patch = None;
    a <= *b
}

fn matches_caret(a: &SemverVersion, b: &SemverVersion) -> (r: bool)
    ensures
        r == op_matches(SemverOp::Caret, *a, *b),
{
    if !(a >= b) {
        return false;
    }
    let mut a = *a;
    if a.major > SemverVersionNumber::Number(0) {
        a.minor = None;
    }
    a.patch = None;
    a <= *b
}

/// A single requirement component.
#[derive(Clone, Copy, Debug)]
pub enum SemverReqComponentKind {
    /// `v`, `=v`, or another operator before `v`; no operator means `=`.
    Op(Option<SemverOp>, SemverVersion),
    /// `l - r`
    Range(SemverVersion, SemverVersion),
}

/// Whether `v` meets the component `k`.
pub open spec fn kind_matches(k: SemverReqComponentKind, v: SemverVersion) -> bool {
    match k {
        SemverReqComponentKind::Op(op, other) => op_matches(
            match op {
                Some(o) => o,
                None => SemverOp::Exact,
            },
            v,
            other,
        ),
        SemverReqComponentKind::Range(start, end) => op_matches(SemverOp::GreaterEq, v, start)
            && op_matches(SemverOp::LessEq, v, end),
    }
}

/// The text of a component: the operator, if any, before the version, or
/// `l - r` for a range.
pub open spec fn kind_text(k: SemverReqComponentKind) -> Seq<char> {
    match k {
        SemverReqComponentKind::Op(Some(op), v) => op_text(op) + version_text(v),
        SemverReqComponentKind::Op(None, v) => version_text(v),
        SemverReqComponentKind::Range(l, r) => version_text(l) + seq![' ', '-', ' ']
            + version_text(r),
    }
}

impl SemverReqComponentKind {
    fn write_to(&self, out: &mut String)
        ensures
            final(out)@ == old(out)@ + kind_text(*self),
    {
        let ghost start = out@;
        match self {
            SemverReqComponentKind::Op(op, version) => {
                if let Some(op) = op {
                    op.write_to(out);
                }
                version.write_to(out);
            },
            SemverReqComponentKind::Range(left, right) => {
                left.write_to(out);
                push_char(out, ' ');
                push_char(out, '-');
                push_char(out, ' ');
                right.write_to(out);
            },
        }
        assert(out@ =~= start + kind_text(*self));
    }

    /// Renders the component, e.g. `^1.2.3` or `1.0.0 - 2.0.0`.
    pub fn to_string(&self) -> (r: String)
        ensures
            r@ == kind_text(*self),
    {
        let mut out = String::new();
        self.write_to(&mut out);
        out
    }

    /// Returns `true` if the given version satisfies this requirement component.
    pub fn matches(&self, version: &SemverVersion) -> (r: bool)
        ensures
            r == kind_matches(*self, *version),
    {
        match self {
            SemverReqComponentKind::Op(op, other) => {
                let op = match op {
                    Some(o) => *o,
                    None => SemverOp::Exact,
                };
                matches_op(op, version, other)
            },
            SemverReqComponentKind::Range(start, end) => {
                matches_op(SemverOp::GreaterEq, version, start) && matches_op(
                    SemverOp::LessEq,
                    version,
                    end,
                )
            },
        }
    }
}

/// A requirement component with its location.
#[derive(Clone, Copy, Debug)]
pub struct SemverReqComponent {
    pub span: Span,
    pub kind: SemverReqComponentKind,
}

impl SemverReqComponent {
    /// Renders the component, e.g. `^1.2.3` or `1.0.0 - 2.0.0`.
    pub fn to_string(&self) -> (r: String)
        ensures
            r@ == kind_text(self.kind),
    {
        self.kind.to_string()
    }

    /// Returns `true` if the given version satisfies this requirement component.
    pub fn matches(&self, version: &SemverVersion) -> (r: bool)
        ensures
            r == kind_matches(self.kind, *version),
    {
        self.kind.matches(version)
    }
}

/// A list of components that must all match. Never empty.
#[derive(Clone, Debug)]
pub struct SemverReqCon {
    pub span: Span,
    /// The components, and-ed together.
    pub components: Vec<SemverReqComponent>,
}

impl SemverReqCon {
    /// The conjunction has at least one component.
    pub open spec fn wf(self) -> bool {
        self.components@.len() > 0
    }
}

/// Whether `v` meets every component of `c`.
pub open spec fn con_matches(c: SemverReqCon, v: SemverVersion) -> bool {
    forall|j: int| 0 <= j < c.components@.len() ==> kind_matches(#[trigger] c.components@[j].kind, v)
}

/// The texts of the components of `c`.
pub open spec fn con_parts(c: SemverReqCon) -> Seq<Seq<char>> {
    c.components@.map_values(|x: SemverReqComponent| kind_text(x.kind))
}

/// The text of a conjunction: its components, separated by spaces.
pub open spec fn con_text(c: SemverReqCon) -> Seq<char> {
    join(con_parts(c), seq![' '])
}

impl SemverReqCon {
    fn write_to(&self, out: &mut String)
        ensures
            final(out)@ == old(out)@ + con_text(*self),
    {
        let ghost start = out@;
        let ghost parts = con_parts(*self);
        let n = self.components.len();
        let mut j: usize = 0;
        while j < n
            invariant
                n == self.components@.len(),
                parts == con_parts(*self),
                j <= n,
                out@ == start + join(parts.take(j as int), seq![' ']),
            decreases n - j,
        {
            proof {
                lemma_join_take(parts, seq![' '], j as int);
            }
            if j > 0 {
                push_char(out, ' ');
            }
            self.components[j].kind.write_to(out);
            j = j + 1;
        }
        assert(parts.take(n as int) =~= parts);
    }

    /// Renders the components, separated by spaces.
    pub fn to_string(&self) -> (r: String)
        ensures
            r@ == con_text(*self),
    {
        let mut out = String::new();
        self.write_to(&mut out);
        out
    }

    /// Returns `true` if the given version satisfies every component.
    pub fn matches(&self, version: &SemverVersion) -> (r: bool)
        ensures
            r == con_matches(*self, *version),
    {
        let n = self.components.len();
        let mut j: usize = 0;
        while j < n
            invariant
                n == self.components@.len(),
                j <= n,
                forall|k: int| 0 <= k < j ==> kind_matches(#[trigger] self.components@[k].kind, *version),
            decreases n - j,
        {
            if !self.components[j].matches(version) {
                return false;
            }
            j = j + 1;
        }
        true
    }
}

/// A version requirement: a list of conjunctions, of which one must match.
/// Never empty.
///
/// E.g.: `^0 <=1 || 0.5.0 - 0.6.0` is `[[^0, <=1], [0.5.0 - 0.6.0]]`.
#[derive(Clone, Debug)]
pub struct SemverReq {
    /// The conjunctions, or-ed together.
    pub dis: Vec<SemverReqCon>,
}

impl SemverReq {
    /// The requirement has at least one conjunction, and each has a component.
    pub open spec fn wf(self) -> bool {
        &&& self.dis@.len() > 0
        &&& forall|i: int| 0 <= i < self.dis@.len() ==> (#[trigger] self.dis@[i]).wf()
    }
}

/// Whether `v` meets some conjunction of `r`.
pub open spec fn req_matches(r: SemverReq, v: SemverVersion) -> bool {
    exists|i: int| 0 <= i < r.dis@.len() && con_matches(#[trigger] r.dis@[i], v)
}

/// The texts of the conjunctions of `r`.
pub open spec fn req_parts(r: SemverReq) -> Seq<Seq<char>> {
    r.dis@.map_values(|c: SemverReqCon| con_text(c))
}

/// The text of a requirement: its conjunctions, separated by ` || `.
pub open spec fn req_text(r: SemverReq) -> Seq<char> {
    join(req_parts(r), seq![' ', '|', '|', ' '])
}

impl SemverReq {
    /// Renders the requirement, its conjunctions separated by ` || `.
    pub fn to_string(&self) -> (r: String)
        ensures
            r@ == req_text(*self),
    {
        let mut out = String::new();
        let ghost parts = req_parts(*self);
        let ghost sep = seq![' ', '|', '|', ' '];
        let n = self.dis.len();
        let mut i: usize = 0;
        while i < n
            invariant
                n == self.dis@.len(),
                parts == req_parts(*self),
                sep == seq![' ', '|', '|', ' '],
                i <= n,
                out@ == join(parts.take(i as int), sep),
            decreases n - i,
        {
            proof {
                lemma_join_take(parts, sep, i as int);
            }
            if i > 0 {
                push_char(&mut out, ' ');
                push_char(&mut out, '|');
                push_char(&mut out, '|');
                push_char(&mut out, ' ');
            }
            self.dis[i].write_to(&mut out);
            i = i + 1;
        }
        assert(parts.take(n as int) =~= parts);
        out
    }

    /// Returns `true` if the given version satisfies this requirement.
    pub fn matches(&self, version: &SemverVersion) -> (r: bool)
        ensures
            r == req_matches(*self, *version),
    {
        let n = self.dis.len();
        let mut i: usize = 0;
        while i < n
            invariant
                n == self.dis@.len(),
                i <= n,
                forall|k: int| 0 <= k < i ==> !con_matches(#[trigger] self.dis@[k], *version),
            decreases n - i,
        {
            if self.dis[i].matches(version) {
                return true;
            }
            i = i + 1;
        }
        false
    }
}

} // verus!
