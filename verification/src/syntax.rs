//! The parts of a type definition that a derive macro reads: the item that
//! `#[derive(..)]` is put on, as plain values.
//!
//! Names, types, expressions and attributes are held as the text of their
//! tokens.

use vstd::prelude::*;

verus! {

/// An identifier.
pub type Ident = String;

/// The tokens of a type.
pub type Type = String;

/// The tokens of an expression.
pub type Expr = String;

/// The tokens of an outer attribute, such as `#[sabi(unsafe_opaque_field)]`.
pub type Attribute = String;

/// The visibility of an item or a field.
#[derive(Clone, Debug, PartialEq, Eq, Hash)]
pub enum Visibility {
    /// `pub`
    Public,
    /// `crate`
    Crate,
    /// `pub(crate)`, `pub(super)`, `pub(in some::path)`, with the tokens
    /// between the brackets.
    Restricted(String),
    /// No visibility written.
    Inherited,
}

/// Whether a visibility is plain `pub`.
pub open spec fn is_public_vis(v: Visibility) -> bool {
    v is Public
}

/// Only plain `pub` counts as public: `crate`, `pub(crate)`, `pub(super)`,
/// `pub(in path)` and no visibility at all do not.
pub proof fn lemma_only_plain_pub_is_public(v: Visibility)
    ensures
        is_public_vis(v) <==> v == Visibility::Public,
        v is Crate ==> !is_public_vis(v),
        v is Restricted ==> !is_public_vis(v),
        v is Inherited ==> !is_public_vis(v),
{
}

/// A generic parameter of a type definition, by its name.
#[derive(Clone, Debug, PartialEq, Eq, Hash)]
pub enum GenericParam {
    /// A lifetime parameter such as `'a`.
    Lifetime(Ident),
    /// A type parameter such as `T`.
    Type(Ident),
    /// A const parameter such as `N`.
    Const(Ident),
}

/// The generic parameters of a type definition, in order.
#[derive(Clone, Debug, PartialEq, Eq, Hash)]
pub struct Generics {
    pub params: Vec<GenericParam>,
}

/// How many of `params` are lifetimes.
pub open spec fn count_lifetimes(params: Seq<GenericParam>) -> nat
    decreases params.len(),
{
    if params.len() == 0 {
        0
    } else {
        count_lifetimes(params.drop_last()) + if params.last() is Lifetime {
            1nat
        } else {
            0nat
        }
    }
}

impl Generics {
    /// The number of lifetime parameters.
    pub fn lifetime_count(&self) -> (n: usize)
        ensures
            n == count_lifetimes(self.params@),
    {
        let mut n: usize = 0;
        let mut i: usize = 0;
        while i < self.params.len()
            invariant
                i <= self.params@.len(),
                n == count_lifetimes(self.params@.take(i as int)),
                n <= i,
            decreases self.params@.len() - i,
        {
            assert(self.params@.take(i + 1).drop_last() =~= self.params@.take(i as int));
            if let GenericParam::Lifetime(_) = &self.params[i] {
                n = n + 1;
            }
            i = i + 1;
        }
        assert(self.params@.take(i as int) =~= self.params@);
        n
    }
}

/// A field as written in a struct, a union or an enum variant.
#[derive(Clone, Debug, PartialEq, Eq, Hash)]
pub struct Field {
    pub attrs: Vec<Attribute>,
    pub vis: Visibility,
    /// The name of the field; none for the fields of a tuple struct.
    pub ident: Option<Ident>,
    pub ty: Type,
}

/// The fields of a struct or of an enum variant.
#[derive(Clone, Debug, PartialEq, Eq, Hash)]
pub enum Fields {
    /// `{ a: A, b: B }`
    Named(Vec<Field>),
    /// `(A, B)`
    Unnamed(Vec<Field>),
    /// No fields at all.
    Unit,
}

/// The fields, in order, whatever their form.
pub open spec fn fields_list(fields: Fields) -> Seq<Field> {
    match fields {
        Fields::Named(v) => v@,
        Fields::Unnamed(v) => v@,
        Fields::Unit => Seq::empty(),
    }
}

/// The shape that a parsed definition always has: named fields carry a name
/// and unnamed fields carry none.
pub open spec fn fields_valid(fields: Fields) -> bool {
    match fields {
        Fields::Named(v) => forall|j: int| 0 <= j < v@.len() ==> (#[trigger] v@[j]).ident is Some,
        Fields::Unnamed(v) => forall|j: int| 0 <= j < v@.len() ==> (#[trigger] v@[j]).ident is None,
        Fields::Unit => true,
    }
}

/// Whether every field of `fs` carries a name (`named`) or none carries one.
fn all_named_as(fs: &Vec<Field>, named: bool) -> (r: bool)
    ensures
        r == forall|j: int| 0 <= j < fs@.len() ==> ((#[trigger] fs@[j]).ident is Some) == named,
{
    let mut i: usize = 0;
    while i < fs.len()
        invariant
            i <= fs@.len(),
            forall|j: int| 0 <= j < i ==> ((#[trigger] fs@[j]).ident is Some) == named,
        decreases fs@.len() - i,
    {
        if fs[i].ident.is_some() != named {
            return false;
        }
        i = i + 1;
    }
    true
}

impl Fields {
    /// Whether the fields have the shape a parsed definition always has.
    pub fn is_valid(&self) -> (r: bool)
        ensures
            r == fields_valid(*self),
    {
        match self {
            Fields::Named(v) => all_named_as(v, true),
            Fields::Unnamed(v) => all_named_as(v, false),
            Fields::Unit => true,
        }
    }
}

/// A variant of an enum.
#[derive(Clone, Debug, PartialEq, Eq, Hash)]
pub struct Variant {
    pub attrs: Vec<Attribute>,
    pub ident: Ident,
    pub fields: Fields,
    /// The expression after `=`, where the variant has one.
    pub discriminant: Option<Expr>,
}

/// The body of a type definition.
#[derive(Clone, Debug, PartialEq, Eq, Hash)]
pub enum Data {
    Struct(Fields),
    Enum(Vec<Variant>),
    /// The (named) fields of a union.
    Union(Vec<Field>),
}

/// A type definition that a derive macro is applied to.
#[derive(Clone, Debug, PartialEq, Eq, Hash)]
pub struct DeriveInput {
    pub attrs: Vec<Attribute>,
    pub vis: Visibility,
    pub ident: Ident,
    pub generics: Generics,
    pub data: Data,
}

/// The shape that a parsed definition always has: the fields of every struct
/// and variant are valid, and the fields of a union are named.
pub open spec fn derive_input_valid(ast: DeriveInput) -> bool {
    match ast.data {
        Data::Struct(f) => fields_valid(f),
        Data::Enum(vs) => forall|i: int| 0 <= i < vs@.len() ==> fields_valid(#[trigger] vs@[i].fields),
        Data::Union(fs) => forall|j: int| 0 <= j < fs@.len() ==> (#[trigger] fs@[j]).ident is Some,
    }
}

impl DeriveInput {
    /// Whether the definition has the shape a parsed definition always has.
    pub fn is_valid(&self) -> (r: bool)
        ensures
            r == derive_input_valid(*self),
    {
        match &self.data {
            Data::Struct(f) => f.is_valid(),
            Data::Enum(vs) => {
                let mut i: usize = 0;
                while i < vs.len()
                    invariant
                        i <= vs@.len(),
                        self.data == Data::Enum(*vs),
                        forall|k: int| 0 <= k < i ==> fields_valid(#[trigger] vs@[k].fields),
                    decreases vs@.len() - i,
                {
                    if !vs[i].fields.is_valid() {
                        return false;
                    }
                    i = i + 1;
                }
                true
            },
            Data::Union(fs) => all_named_as(fs, true),
        }
    }
}

} // verus!
