//! Signatures: what version of a computation produced some data.
//!
//! A signature exposes a checksum, and two signatures are compatible exactly
//! when their checksums agree. [`VersionedSignature`] follows semantic
//! versioning: its checksum is made of the stage's name and its major version,
//! so that a minor or patch release keeps earlier results usable while a major
//! release, or another stage, does not.

use vstd::prelude::*;
use vstd::std_specs::cmp::PartialEqSpecImpl;
use vstd::string::*;

verus! {

/// The character that stands for the decimal digit `d`.
pub open spec fn digit_char(d: nat) -> char
    recommends
        d < 10,
{
    if d == 0 {
        '0'
    } else if d == 1 {
        '1'
    } else if d == 2 {
        '2'
    } else if d == 3 {
        '3'
    } else if d == 4 {
        '4'
    } else if d == 5 {
        '5'
    } else if d == 6 {
        '6'
    } else if d == 7 {
        '7'
    } else if d == 8 {
        '8'
    } else {
        '9'
    }
}

/// Whether `c` is one of the ten decimal digits.
pub open spec fn is_digit(c: char) -> bool {
    c == '0' || c == '1' || c == '2' || c == '3' || c == '4' || c == '5' || c == '6' || c == '7'
        || c == '8' || c == '9'
}

/// The decimal notation of `n`, most significant digit first, without
/// leading zeros.
pub open spec fn decimal(n: nat) -> Seq<char>
    decreases n,
{
    if n < 10 {
        seq![digit_char(n)]
    } else {
        decimal(n / 10).push(digit_char(n % 10))
    }
}

/// The one-character string for the digit `d`.
fn digit_str(d: usize) -> (s: &'static str)
    requires
        d < 10,
    ensures
        s@ == seq![digit_char(d as nat)],
{
    proof {
        reveal_strlit("0");
        reveal_strlit("1");
        reveal_strlit("2");
        reveal_strlit("3");
        reveal_strlit("4");
        reveal_strlit("5");
        reveal_strlit("6");
        reveal_strlit("7");
        reveal_strlit("8");
        reveal_strlit("9");
    }
    let s = if d == 0 {
        "0"
    } else if d == 1 {
        "1"
    } else if d == 2 {
        "2"
    } else if d == 3 {
        "3"
    } else if d == 4 {
        "4"
    } else if d == 5 {
        "5"
    } else if d == 6 {
        "6"
    } else if d == 7 {
        "7"
    } else if d == 8 {
        "8"
    } else {
        "9"
    };
    s
}

/// Writes `n` in decimal notation.
pub fn decimal_string(n: usize) -> (s: String)
    ensures
        s@ == decimal(n as nat),
    decreases n,
{
    if n < 10 {
        String::from_str(digit_str(n))
    } else {
        let mut s = decimal_string(n / 10);
        s.append(digit_str(n % 10));
        s
    }
}

/// The decimal notation of a number is never empty and holds digits only.
pub proof fn decimal_holds_digits(n: nat)
    ensures
        decimal(n).len() >= 1,
        forall|i: int| 0 <= i < decimal(n).len() ==> is_digit(#[trigger] decimal(n)[i]),
    decreases n,
{
    if n >= 10 {
        decimal_holds_digits(n / 10);
    }
}

/// Two numbers with the same decimal notation are the same number.
pub proof fn decimal_is_injective(a: nat, b: nat)
    requires
        decimal(a) == decimal(b),
    ensures
        a == b,
    decreases a,
{
    decimal_holds_digits(a / 10);
    decimal_holds_digits(b / 10);
    if a >= 10 && b >= 10 {
        // The last digits agree, and so do the digits before them.
        assert(decimal(a / 10) == decimal(a).drop_last());
        assert(decimal(b / 10) == decimal(b).drop_last());
        assert(digit_char(a % 10) == decimal(a).last());
        assert(digit_char(b % 10) == decimal(b).last());
        decimal_is_injective(a / 10, b / 10);
    } else if a < 10 && b < 10 {
        assert(decimal(a)[0] == digit_char(a));
        assert(decimal(b)[0] == digit_char(b));
    } else if a < 10 {
        // One digit against two or more.
        assert(decimal(b).len() == decimal(b / 10).len() + 1);
    } else {
        assert(decimal(a).len() == decimal(a / 10).len() + 1);
    }
}

/// The signature associated with a stage or with a piece of data.
pub trait Signature {
    /// Generates the checksum that tells whether two versions are compatible.
    /// It must depend on the signature alone, so that it is the same whenever
    /// and wherever it is computed.
    fn checksum(&self) -> String;
}

/// `sum` is a checksum that `signature` may give.
pub open spec fn is_checksum_of<S: Signature>(signature: &S, sum: Seq<char>) -> bool {
    exists|out: String| #[trigger] call_ensures(S::checksum, (signature,), out) && out@ == sum
}

/// `signature` gives one checksum and never another.
pub open spec fn has_one_checksum<S: Signature>(signature: &S) -> bool {
    forall|first: Seq<char>, second: Seq<char>|
        is_checksum_of(signature, first) && is_checksum_of(signature, second) ==> first == second
}

/// `answer` says whether a checksum of `first` equals a checksum of `second`.
pub open spec fn answers_compatibility<A: Signature, B: Signature>(
    first: &A,
    second: &B,
    answer: bool,
) -> bool {
    exists|mine: Seq<char>, theirs: Seq<char>|
        #![trigger is_checksum_of(first, mine), is_checksum_of(second, theirs)]
        is_checksum_of(first, mine) && is_checksum_of(second, theirs) && answer == (mine == theirs)
}

/// The compatibility test, which every signature has.
pub trait Compatibility: Signature + Sized {
    /// Whether `self` and `other` are compatible: whether their checksums are
    /// equal. A signature of another kind is compatible only if the two
    /// checksums happen to coincide.
    fn is_compatible<Other: Signature>(&self, other: &Other) -> (answer: bool)
        ensures
            answers_compatibility(self, other, answer),
    ;
}

impl<S: Signature> Compatibility for S {
    fn is_compatible<Other: Signature>(&self, other: &Other) -> (answer: bool) {
        let mine = self.checksum();
        let theirs = other.checksum();
        assert(is_checksum_of(self, mine@));
        assert(is_checksum_of(other, theirs@));
        mine == theirs
    }
}

/// A signature of a piece of data, which knows where the data stands.
pub trait DataSignature {
    /// Index of the data, by which it is found again.
    fn index(&self) -> usize;
}

/// Semantic versioning: a major, a minor and a patch number.
pub trait Versioned {
    /// A change of the major version is a breaking change: what was computed
    /// before it cannot be used any more.
    fn major_version(&self) -> usize;

    /// A change of the minor version means that the stage has gained a
    /// feature, and that earlier results are still usable.
    fn minor_version(&self) -> usize;

    /// A change of the patch version means that unwanted behaviour was mended:
    /// for all intents and purposes the stage is the same.
    fn patch_version(&self) -> usize;
}

/// What a [`VersionedSignature`] holds, as mathematical values.
pub struct VersionedView {
    pub name: Option<Seq<char>>,
    pub major: nat,
    pub minor: nat,
    pub patch: nat,
}

/// The character between the name and the major version in a checksum. It is
/// no digit, so the two parts of a checksum can be told apart.
pub open spec fn separator() -> char {
    '@'
}

/// The checksum of a versioned signature: the major version in decimal
/// notation, after the name and the separator where the signature has a name.
pub open spec fn versioned_checksum(name: Option<Seq<char>>, major: nat) -> Seq<char> {
    match name {
        None => decimal(major),
        Some(n) => n.push(separator()) + decimal(major),
    }
}

/// A signature that implements semantic versioning, with the name of the stage
/// it belongs to where it was given one.
#[derive(Debug)]
pub struct VersionedSignature {
    name: Option<String>,
    major_version: usize,
    minor_version: usize,
    patch_version: usize,
}

impl View for VersionedSignature {
    type V = VersionedView;

    closed spec fn view(&self) -> VersionedView {
        VersionedView {
            name: match self.name {
                None => None,
                Some(n) => Some(n@),
            },
            major: self.major_version as nat,
            minor: self.minor_version as nat,
            patch: self.patch_version as nat,
        }
    }
}

impl VersionedSignature {
    /// A signature without a name.
    pub fn new(major: usize, minor: usize, patch: usize) -> (signature: VersionedSignature)
        ensures
            signature@ == (VersionedView {
                name: None,
                major: major as nat,
                minor: minor as nat,
                patch: patch as nat,
            }),
    {
        VersionedSignature {
            name: None,
            major_version: major,
            minor_version: minor,
            patch_version: patch,
        }
    }

    /// A signature that carries the name of its stage, which tells it apart
    /// from the signatures of other stages with equal versions.
    pub fn named(name: String, major: usize, minor: usize, patch: usize) -> (signature:
        VersionedSignature)
        ensures
            signature@ == (VersionedView {
                name: Some(name@),
                major: major as nat,
                minor: minor as nat,
                patch: patch as nat,
            }),
    {
        VersionedSignature {
            name: Some(name),
            major_version: major,
            minor_version: minor,
            patch_version: patch,
        }
    }

    /// The name of the stage, where the signature has one.
    pub fn name(&self) -> (name: Option<&String>)
        ensures
            match name {
                None => self@.name is None,
                Some(n) => self@.name == Some(n@),
            },
    {
        self.name.as_ref()
    }
}

impl Clone for VersionedSignature {
    fn clone(&self) -> (copy: VersionedSignature)
        ensures
            copy@ == self@,
    {
        VersionedSignature {
            name: match &self.name {
                None => None,
                Some(n) => Some(n.clone()),
            },
            major_version: self.major_version,
            minor_version: self.minor_version,
            patch_version: self.patch_version,
        }
    }
}

impl PartialEq for VersionedSignature {
    fn eq(&self, other: &VersionedSignature) -> (equal: bool) {
        let same_name = match (&self.name, &other.name) {
            (None, None) => true,
            (Some(a), Some(b)) => *a == *b,
            _ => false,
        };
        same_name && self.major_version == other.major_version && self.minor_version
            == other.minor_version && self.patch_version == other.patch_version
    }
}

impl PartialEqSpecImpl for VersionedSignature {
    open spec fn obeys_eq_spec() -> bool {
        true
    }

    open spec fn eq_spec(&self, other: &VersionedSignature) -> bool {
        self@ == other@
    }
}

impl Versioned for VersionedSignature {
    fn major_version(&self) -> (major: usize)
        ensures
            major == self@.major,
    {
        self.major_version
    }

    fn minor_version(&self) -> (minor: usize)
        ensures
            minor == self@.minor,
    {
        self.minor_version
    }

    fn patch_version(&self) -> (patch: usize)
        ensures
            patch == self@.patch,
    {
        self.patch_version
    }
}

impl Signature for VersionedSignature {
    /// The major version in decimal notation, after the name and the
    /// separator where the signature has a name.
    fn checksum(&self) -> (sum: String)
        ensures
            sum@ == versioned_checksum(self@.name, self@.major),
    {
        let digits = decimal_string(self.major_version());
        match &self.name {
            None => digits,
            Some(n) => {
                proof {
                    reveal_strlit("@");
                }
                let mut sum = n.clone();
                sum.append("@");
                sum.append(digits.as_str());
                sum
            },
        }
    }
}

/// The checksum of a versioned signature determines the name and the major
/// version, and nothing else: two checksums are equal exactly when both the
/// names and the major versions are.
pub proof fn versioned_checksum_is_injective(
    name_a: Option<Seq<char>>,
    major_a: nat,
    name_b: Option<Seq<char>>,
    major_b: nat,
)
    ensures
        versioned_checksum(name_a, major_a) == versioned_checksum(name_b, major_b) <==> (name_a
            == name_b && major_a == major_b),
{
    let sum_a = versioned_checksum(name_a, major_a);
    let sum_b = versioned_checksum(name_b, major_b);
    decimal_holds_digits(major_a);
    decimal_holds_digits(major_b);
    if sum_a == sum_b {
        match (name_a, name_b) {
            (None, None) => {
                decimal_is_injective(major_a, major_b);
            },
            (Some(n), None) => {
                // A separator in the one stands where a digit stands in the other.
                assert(sum_a[n.len() as int] == separator());
                assert(is_digit(sum_b[n.len() as int]));
            },
            (None, Some(n)) => {
                assert(sum_b[n.len() as int] == separator());
                assert(is_digit(sum_a[n.len() as int]));
            },
            (Some(n), Some(m)) => {
                assert(sum_a.len() == n.len() + 1 + decimal(major_a).len());
                assert(sum_b.len() == m.len() + 1 + decimal(major_b).len());
                if n.len() < m.len() {
                    // The separator of the longer name falls among the
                    // digits behind the shorter one.
                    assert(sum_b[m.len() as int] == separator());
                    assert(is_digit(sum_a[m.len() as int]));
                } else if m.len() < n.len() {
                    assert(sum_a[n.len() as int] == separator());
                    assert(is_digit(sum_b[n.len() as int]));
                } else {
                    assert(n =~= sum_a.subrange(0, n.len() as int));
                    assert(m =~= sum_b.subrange(0, m.len() as int));
                    assert(decimal(major_a) =~= sum_a.subrange(
                        n.len() as int + 1,
                        sum_a.len() as int,
                    ));
                    assert(decimal(major_b) =~= sum_b.subrange(
                        m.len() as int + 1,
                        sum_b.len() as int,
                    ));
                    decimal_is_injective(major_a, major_b);
                }
            },
        }
    }
}

/// A versioned signature gives one checksum and never another.
pub proof fn versioned_checksum_is_stable(signature: &VersionedSignature)
    ensures
        has_one_checksum(signature),
        forall|sum: Seq<char>|
            is_checksum_of(signature, sum) ==> sum == versioned_checksum(
                signature@.name,
                signature@.major,
            ),
{
}

/// Compatibility is symmetric: where each of two signatures, of one kind or
/// of two, gives one checksum and never another, asking the first about the
/// second and the second about the first gives the same answer.
pub proof fn compatibility_is_symmetric<A: Signature, B: Signature>(
    a: &A,
    b: &B,
    forth: bool,
    back: bool,
)
    requires
        has_one_checksum(a),
        has_one_checksum(b),
        answers_compatibility(a, b, forth),
        answers_compatibility(b, a, back),
    ensures
        forth == back,
{
}

/// Compatibility is reflexive: a signature that gives one checksum and never
/// another is compatible with itself.
pub proof fn compatibility_is_reflexive<A: Signature>(a: &A, answer: bool)
    requires
        has_one_checksum(a),
        answers_compatibility(a, a, answer),
    ensures
        answer,
{
}

/// Compatibility is transitive over signatures that give one checksum each.
pub proof fn compatibility_is_transitive<A: Signature, B: Signature, C: Signature>(
    a: &A,
    b: &B,
    c: &C,
    a_with_c: bool,
)
    requires
        has_one_checksum(a),
        has_one_checksum(b),
        has_one_checksum(c),
        answers_compatibility(a, b, true),
        answers_compatibility(b, c, true),
        answers_compatibility(a, c, a_with_c),
    ensures
        a_with_c,
{
}

/// Two versioned signatures are compatible exactly when they have the same
/// name, or both none, and the same major version. The minor and the patch
/// version play no part.
pub proof fn versioned_compatibility(
    a: &VersionedSignature,
    b: &VersionedSignature,
    answer: bool,
)
    requires
        answers_compatibility(a, b, answer),
    ensures
        answer == (a@.name == b@.name && a@.major == b@.major),
{
    versioned_checksum_is_stable(a);
    versioned_checksum_is_stable(b);
    versioned_checksum_is_injective(a@.name, a@.major, b@.name, b@.major);
}

} // verus!
