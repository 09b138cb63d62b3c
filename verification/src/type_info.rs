//! `TypeInfo`, the metadata kept about a type in the vtable of a `DynTrait`,
//! with the small types it is made of.

use vstd::prelude::*;
use vstd::string::*;
use vstd::std_specs::cmp::{PartialEqSpec, PartialEqSpecImpl};

use crate::text::{decimal, push_decimal};

verus! {

/// A `&'static str` kept in a field of a metadata record.
#[derive(Debug, Clone, Copy, PartialEq, Eq)]
pub struct StaticStr {
    inner: &'static str,
}

impl View for StaticStr {
    type V = Seq<char>;

    closed spec fn view(&self) -> Seq<char> {
        self.inner@
    }
}

impl StaticStr {
    /// Wraps a string slice that lives for the whole program.
    pub fn new(s: &'static str) -> (r: Self)
        ensures
            r@ == s@,
    {
        StaticStr { inner: s }
    }

    /// The wrapped string slice.
    pub fn as_str(&self) -> (r: &'static str)
        ensures
            r@ == self@,
    {
        self.inner
    }
}

/// The text of a value built by a constructor that takes no argument.
///
/// The constructor is a pure function of no argument, so what it builds is
/// the same at every call: this record holds that value.
#[derive(Debug, Clone, Copy, PartialEq, Eq)]
pub struct Constructor<T>(pub T);

/// The three parts of a package version, each as written in its manifest.
#[derive(Debug, Clone, Copy, PartialEq, Eq)]
pub struct VersionStrings {
    pub major: StaticStr,
    pub minor: StaticStr,
    pub patch: StaticStr,
}

/// `major.minor.patch`.
pub open spec fn version_text(v: VersionStrings) -> Seq<char> {
    v.major@ + "."@ + v.minor@ + "."@ + v.patch@
}

impl VersionStrings {
    /// The version written as `major.minor.patch`.
    pub fn to_string(&self) -> (s: String)
        ensures
            s@ == version_text(*self),
    {
        let mut s = String::new();
        s.append(self.major.as_str());
        s.append(".");
        s.append(self.minor.as_str());
        s.append(".");
        s.append(self.patch.as_str());
        assert(s@ =~= version_text(*self));
        s
    }
}

/// An identifier of a type that stays the same across compilations: the bits
/// of the type's `TypeId`.
#[derive(Debug, Clone, Copy)]
pub struct UTypeId {
    pub bits: u128,
}

impl PartialEq for UTypeId {
    fn eq(&self, other: &Self) -> (r: bool) {
        self.bits == other.bits
    }
}

impl PartialEqSpecImpl for UTypeId {
    open spec fn obeys_eq_spec() -> bool {
        true
    }

    open spec fn eq_spec(&self, other: &UTypeId) -> bool {
        self.bits == other.bits
    }
}

/// An optional value that only compares equal to another when both hold a
/// value and those values are equal: `Nothing` equals nothing, not even
/// `Nothing`.
#[derive(Debug, Clone, Copy)]
pub enum MaybeCmp<T> {
    Just(T),
    Nothing,
}

impl<T: PartialEq> PartialEq for MaybeCmp<T> {
    fn eq(&self, other: &Self) -> (r: bool) {
        match (self, other) {
            (MaybeCmp::Just(l), MaybeCmp::Just(r)) => l == r,
            _ => false,
        }
    }
}

impl<T: PartialEq> PartialEqSpecImpl for MaybeCmp<T> {
    open spec fn obeys_eq_spec() -> bool {
        T::obeys_eq_spec()
    }

    open spec fn eq_spec(&self, other: &MaybeCmp<T>) -> bool {
        match (self, other) {
            (MaybeCmp::Just(l), MaybeCmp::Just(r)) => l.eq_spec(r),
            _ => false,
        }
    }
}

/// Compares two records by the values that their functions return.
///
/// The function is a pure function of no argument, so what it returns is the
/// same at every call: this record holds that value.
#[derive(Debug, Clone, Copy)]
pub struct ReturnValueEquality<T> {
    pub returned: T,
}

impl<T: PartialEq> PartialEq for ReturnValueEquality<T> {
    fn eq(&self, other: &Self) -> (r: bool) {
        self.returned == other.returned
    }
}

impl<T: PartialEq> PartialEqSpecImpl for ReturnValueEquality<T> {
    open spec fn obeys_eq_spec() -> bool {
        T::obeys_eq_spec()
    }

    open spec fn eq_spec(&self, other: &ReturnValueEquality<T>) -> bool {
        self.returned.eq_spec(&other.returned)
    }
}

/// Metadata stored in the vtable of `DynTrait<_>`.
#[derive(Debug, PartialEq)]
pub struct TypeInfo {
    pub size: usize,
    pub alignment: usize,
    pub _uid: ReturnValueEquality<MaybeCmp<UTypeId>>,
    pub name: Constructor<StaticStr>,
    pub module: StaticStr,
    pub package: StaticStr,
    pub package_version: VersionStrings,
    pub _private_field: (),
}

/// Whether two type identifiers, each of which may be missing, name the same
/// type: both are present and equal.
pub open spec fn same_type_id(a: MaybeCmp<UTypeId>, b: MaybeCmp<UTypeId>) -> bool {
    match (a, b) {
        (MaybeCmp::Just(x), MaybeCmp::Just(y)) => x.bits == y.bits,
        _ => false,
    }
}

/// Whether `a` and `b` describe the same type.
pub open spec fn compatible(a: TypeInfo, b: TypeInfo) -> bool {
    same_type_id(a._uid.returned, b._uid.returned)
}

/// The text that `TypeInfo::to_string` gives.
pub open spec fn type_info_text(t: TypeInfo) -> Seq<char> {
    "type:"@ + t.name.0@ + "\nsize:"@ + decimal(t.size as nat) + " alignment:"@ + decimal(
        t.alignment as nat,
    ) + "\nmodule:'"@ + t.module@ + "'\npackage:'"@ + t.package@ + "'\npackage_version:"@
        + version_text(t.package_version) + "\n\n"@
}

impl TypeInfo {
    /// Whether the `self` is the TypeInfo for the same type as `other`.
    pub fn is_compatible(&self, other: &Self) -> (r: bool)
        ensures
            r == compatible(*self, *other),
            r <==> (self._uid.returned is Just && other._uid.returned is Just
                && self._uid.returned->Just_0.bits == other._uid.returned->Just_0.bits),
    {
        self._uid == other._uid
    }

    /// The metadata as text: the type's name, its size and alignment, its
    /// module, its package and the package's version, one per line.
    pub fn to_string(&self) -> (s: String)
        ensures
            s@ == type_info_text(*self),
            ("type:"@ + self.name.0@ + "\nsize:"@ + decimal(self.size as nat) + " alignment:"@
                + decimal(self.alignment as nat) + "\nmodule:'"@).is_prefix_of(s@),
    {
        let mut s = String::new();
        s.append("type:");
        s.append(self.name.0.as_str());
        s.append("\nsize:");
        push_decimal(&mut s, self.size);
        s.append(" alignment:");
        push_decimal(&mut s, self.alignment);
        s.append("\nmodule:'");
        s.append(self.module.as_str());
        s.append("'\npackage:'");
        s.append(self.package.as_str());
        s.append("'\npackage_version:");
        let version = self.package_version.to_string();
        s.append(version.as_str());
        s.append("\n\n");
        assert(s@ =~= type_info_text(*self));
        s
    }
}

/// Describing the same type is symmetric.
pub proof fn lemma_compatible_symmetric(a: TypeInfo, b: TypeInfo)
    ensures
        compatible(a, b) == compatible(b, a),
{
}

/// Describing the same type is transitive.
pub proof fn lemma_compatible_transitive(a: TypeInfo, b: TypeInfo, c: TypeInfo)
    requires
        compatible(a, b),
        compatible(b, c),
    ensures
        compatible(a, c),
{
}

/// Two `TypeInfo`s describe the same type exactly when both hold a type
/// identifier and the identifiers are equal, bit for bit.
pub proof fn lemma_compatible_is_id_equality(a: TypeInfo, b: TypeInfo)
    ensures
        compatible(a, b) <==> (a._uid.returned is Just && b._uid.returned is Just
            && a._uid.returned->Just_0.bits == b._uid.returned->Just_0.bits),
        a._uid.returned is Just && b._uid.returned is Just && a._uid.returned->Just_0.bits
            != b._uid.returned->Just_0.bits ==> !compatible(a, b),
{
}

/// The text names the whole type, gives its size and alignment in base ten,
/// and ends with the package's version and an empty line, whatever the
/// lengths of its parts.
pub proof fn lemma_type_info_text_parts(t: TypeInfo)
    ensures
        ("type:"@ + t.name.0@ + "\nsize:"@ + decimal(t.size as nat) + " alignment:"@ + decimal(
            t.alignment as nat,
        ) + "\nmodule:'"@ + t.module@ + "'\npackage:'"@ + t.package@
            + "'\npackage_version:"@).is_prefix_of(type_info_text(t)),
        ((t.package_version.major@ + "."@ + t.package_version.minor@ + "."@ + t.package_version.patch@) + "\n\n"@).len() <= type_info_text(t).len(),
        type_info_text(t).subrange(
            type_info_text(t).len() - ((t.package_version.major@ + "."@ + t.package_version.minor@ + "."@ + t.package_version.patch@) + "\n\n"@).len(),
            type_info_text(t).len() as int,
        ) == (t.package_version.major@ + "."@ + t.package_version.minor@ + "."@ + t.package_version.patch@) + "\n\n"@,
{
    let head = "type:"@ + t.name.0@ + "\nsize:"@ + decimal(t.size as nat) + " alignment:"@
        + decimal(t.alignment as nat) + "\nmodule:'"@ + t.module@ + "'\npackage:'"@ + t.package@
        + "'\npackage_version:"@;
    let tail = (t.package_version.major@ + "."@ + t.package_version.minor@ + "."@ + t.package_version.patch@) + "\n\n"@;
    assert(type_info_text(t) =~= head + tail);
    assert(type_info_text(t).subrange(0, head.len() as int) =~= head);
    assert(type_info_text(t).subrange(head.len() as int, type_info_text(t).len() as int) =~= tail);
}

/// A `TypeInfo` describes the same type as itself exactly when it holds a type
/// identifier.
pub proof fn lemma_compatible_with_itself(a: TypeInfo)
    ensures
        compatible(a, a) <==> a._uid.returned is Just,
{
}

} // verus!
