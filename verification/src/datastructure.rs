//! A type definition (enum, struct or union) as the derive macros see it: its
//! variants, and for each variant its fields, with where each field stands,
//! how visible it is and how it is named.

use vstd::prelude::*;
use vstd::string::*;

use crate::syntax::{
    count_lifetimes, derive_input_valid, fields_list, fields_valid, is_public_vis, Attribute, Data, DeriveInput, Expr,
    Field as SynField, Fields as SynFields, Generics, Ident, Type, Visibility,
};
use crate::text::{decimal, lemma_decimal_injective, push_decimal};

verus! {

/// A type definition (enum, struct, union).
#[derive(Clone, Debug, PartialEq, Hash)]
pub struct DataStructure<'a> {
    pub vis: &'a Visibility,
    pub name: &'a Ident,
    pub generics: &'a Generics,
    pub lifetime_count: usize,
    pub field_count: usize,
    pub pub_field_count: usize,
    pub attrs: &'a [Attribute],
    /// Whether this is a struct/union/enum.
    pub data_variant: DataVariant,
    /// The variants in the type definition.
    ///
    /// If it is a struct or a union this only has 1 element.
    pub variants: Vec<Struct<'a>>,
}

/// Whether the struct is tupled or not.
#[derive(Debug, Copy, Clone, PartialEq, PartialOrd, Ord, Eq, Hash, Structural)]
pub enum StructKind {
    /// structs declared using the `struct Name( ... ) syntax.
    Tuple,
    /// structs declared using the `struct Name{ ... }` or `struct name;` syntaxes
    Braced,
}

#[derive(Debug, Copy, Clone, PartialEq, PartialOrd, Ord, Eq, Hash, Structural)]
pub enum DataVariant {
    Struct,
    Enum,
    Union,
}

/// Where a field stands: the index of its variant, and its position there.
#[derive(Copy, Clone, Debug, PartialEq, Eq, Hash, Structural)]
pub struct FieldIndex {
    pub variant: usize,
    pub pos: usize,
}

#[derive(Copy, Clone)]
struct StructParams<'a> {
    discriminant: Option<&'a Expr>,
    variant: usize,
    attrs: &'a [Attribute],
    name: &'a Ident,
    override_vis: Option<&'a Visibility>,
}

/// A struct/union or a variant of an enum.
#[derive(Clone, Debug, PartialEq, Hash)]
pub struct Struct<'a> {
    /// The attributes of this `Struct`.
    ///
    /// If this is a struct/union:these is the same as DataStructure.attrs.
    ///
    /// If this is an enum:these are the attributes on the variant.
    pub attrs: &'a [Attribute],
    /// The name of this `Struct`.
    ///
    /// If this is a struct/union:these is the same as DataStructure.name.
    ///
    /// If this is an enum:this is the name of the variant.
    pub name: &'a Ident,
    pub kind: StructKind,
    pub fields: Vec<Field<'a>>,
    pub pub_field_count: usize,
    /// The value of this discriminant.
    ///
    /// If this is a Some(_):This is an enum with an explicit discriminant value.
    ///
    /// If this is an None:
    ///     This is either a struct/union or an enum variant without an explicit discriminant.
    pub discriminant: Option<&'a Expr>,
}

/// Represent a struct field
#[derive(Clone, Debug, PartialEq, Hash)]
pub struct Field<'a> {
    pub index: FieldIndex,
    pub attrs: &'a [Attribute],
    pub vis: &'a Visibility,
    /// identifier for the field,which is either an index(in a tuple struct) or a name.
    pub ident: FieldIdent<'a>,
    pub ty: &'a Type,
}

/// The identifier of a field: its position, with the name `field_<position>`,
/// for a field of a tuple struct; its own name otherwise.
#[derive(Debug, Clone, PartialEq, Eq, Ord, PartialOrd, Hash)]
pub enum FieldIdent<'a> {
    Index(usize, Ident),
    Named(&'a Ident),
}

// ---------------------------------------------------------------------------
// What each value is built from.

/// The value an optional reference points to.
pub open spec fn opt_deref<T>(o: Option<&T>) -> Option<T> {
    match o {
        Some(v) => Some(*v),
        None => None,
    }
}

/// The name given to the field at position `pos` of a tuple struct.
pub open spec fn index_field_name(pos: nat) -> Seq<char> {
    "field_"@ + decimal(pos)
}

/// The identifier a `FieldIdent` stands for.
pub open spec fn ident_name(fi: FieldIdent) -> Ident {
    match fi {
        FieldIdent::Index(_, n) => n,
        FieldIdent::Named(n) => *n,
    }
}

/// The kind of a struct with these fields.
pub open spec fn kind_of(fields: SynFields) -> StructKind {
    match fields {
        SynFields::Unnamed(_) => StructKind::Tuple,
        _ => StructKind::Braced,
    }
}

/// `f` describes the field `src` standing at `index`, seen with the
/// visibility `override_vis` where there is one (the fields of an enum have
/// the visibility of the enum).
pub open spec fn field_built_from(
    f: Field,
    index: FieldIndex,
    src: SynField,
    override_vis: Option<Visibility>,
) -> bool {
    &&& f.index == index
    &&& f.attrs@ == src.attrs@
    &&& *f.vis == match override_vis {
        Some(v) => v,
        None => src.vis,
    }
    &&& *f.ty == src.ty
    &&& match f.ident {
        FieldIdent::Named(n) => src.ident == Some(*n),
        FieldIdent::Index(i, n) => src.ident is None && i == index.pos && n@ == index_field_name(
            i as nat,
        ),
    }
}

/// How many of `fs` are public.
pub open spec fn count_public(fs: Seq<Field>) -> nat
    decreases fs.len(),
{
    if fs.len() == 0 {
        0
    } else {
        count_public(fs.drop_last()) + if is_public_vis(*fs.last().vis) {
            1nat
        } else {
            0nat
        }
    }
}

/// `s` is the variant numbered `variant`, with these attributes, name,
/// discriminant and kind, whose fields are `src` seen with `override_vis`.
pub open spec fn struct_built_from(
    s: Struct,
    variant: usize,
    attrs: Seq<Attribute>,
    name: Ident,
    discriminant: Option<Expr>,
    kind: StructKind,
    src: Seq<SynField>,
    override_vis: Option<Visibility>,
) -> bool {
    &&& s.attrs@ == attrs
    &&& *s.name == name
    &&& opt_deref(s.discriminant) == discriminant
    &&& s.kind == kind
    &&& s.fields@.len() == src.len()
    &&& forall|j: int|
        0 <= j < src.len() ==> #[trigger] field_built_from(
            s.fields@[j],
            FieldIndex { variant, pos: j as usize },
            src[j],
            override_vis,
        )
    &&& s.pub_field_count == count_public(s.fields@)
}

/// The data variant of a type definition's body.
pub open spec fn data_variant_of(data: Data) -> DataVariant {
    match data {
        Data::Struct(_) => DataVariant::Struct,
        Data::Enum(_) => DataVariant::Enum,
        Data::Union(_) => DataVariant::Union,
    }
}

/// `vs` are the variants of `ast`: one per variant of an enum, and the one
/// variant of a struct or a union.
pub open spec fn variants_built_from(vs: Seq<Struct>, ast: DeriveInput) -> bool {
    match ast.data {
        Data::Enum(evs) => {
            &&& vs.len() == evs@.len()
            &&& forall|i: int|
                0 <= i < vs.len() ==> #[trigger] struct_built_from(
                    vs[i],
                    i as usize,
                    evs@[i].attrs@,
                    evs@[i].ident,
                    evs@[i].discriminant,
                    kind_of(evs@[i].fields),
                    fields_list(evs@[i].fields),
                    Some(ast.vis),
                )
        },
        Data::Struct(f) => {
            &&& vs.len() == 1
            &&& struct_built_from(
                vs[0],
                0,
                ast.attrs@,
                ast.ident,
                None,
                kind_of(f),
                fields_list(f),
                None,
            )
        },
        Data::Union(fs) => {
            &&& vs.len() == 1
            &&& struct_built_from(
                vs[0],
                0,
                ast.attrs@,
                ast.ident,
                None,
                StructKind::Braced,
                fs@,
                None,
            )
        },
    }
}

/// The number of fields of all of `vs`.
pub open spec fn total_fields(vs: Seq<Struct>) -> nat
    decreases vs.len(),
{
    if vs.len() == 0 {
        0
    } else {
        total_fields(vs.drop_last()) + vs.last().fields@.len()
    }
}

/// The number of public fields of all of `vs`.
pub open spec fn total_pub(vs: Seq<Struct>) -> nat
    decreases vs.len(),
{
    if vs.len() == 0 {
        0
    } else {
        total_pub(vs.drop_last()) + vs.last().pub_field_count as nat
    }
}

/// The number of fields of all of the variants of an enum.
pub open spec fn variant_field_total(vs: Seq<crate::syntax::Variant>) -> nat
    decreases vs.len(),
{
    if vs.len() == 0 {
        0
    } else {
        variant_field_total(vs.drop_last()) + fields_list(vs.last().fields).len()
    }
}

/// The number of fields that a type definition's body declares.
pub open spec fn data_field_total(data: Data) -> nat {
    match data {
        Data::Struct(f) => fields_list(f).len(),
        Data::Enum(vs) => variant_field_total(vs@),
        Data::Union(fs) => fs@.len(),
    }
}

/// `ds` is what `DataStructure::new` makes of `ast`.
pub open spec fn built_from(ds: DataStructure, ast: DeriveInput) -> bool {
    &&& *ds.vis == ast.vis
    &&& *ds.name == ast.ident
    &&& *ds.generics == ast.generics
    &&& ds.attrs@ == ast.attrs@
    &&& ds.lifetime_count == count_lifetimes(ast.generics.params@)
    &&& ds.data_variant == data_variant_of(ast.data)
    &&& variants_built_from(ds.variants@, ast)
    &&& ds.field_count == total_fields(ds.variants@)
    &&& ds.pub_field_count == total_pub(ds.variants@)
}

// ---------------------------------------------------------------------------
// Building the values.

impl<'a> DataStructure<'a> {
    /// Reads the variants and fields of a type definition, counting its
    /// fields and its public fields.
    pub fn new(ast: &'a DeriveInput) -> (r: Self)
        requires
            data_field_total(ast.data) <= usize::MAX,
        ensures
            built_from(r, *ast),
    {
        let name = &ast.ident;

        let data_variant: DataVariant;

        let mut variants: Vec<Struct<'a>> = Vec::new();

        match &ast.data {
            Data::Enum(enum_) => {
                let override_vis = Some(&ast.vis);

                let mut variant: usize = 0;
                while variant < enum_.len()
                    invariant
                        variant <= enum_@.len(),
                        ast.data == Data::Enum(*enum_),
                        override_vis == Some(&ast.vis),
                        variants@.len() == variant,
                        forall|i: int|
                            0 <= i < variant ==> #[trigger] struct_built_from(
                                variants@[i],
                                i as usize,
                                enum_@[i].attrs@,
                                enum_@[i].ident,
                                enum_@[i].discriminant,
                                kind_of(enum_@[i].fields),
                                fields_list(enum_@[i].fields),
                                Some(ast.vis),
                            ),
                    decreases enum_@.len() - variant,
                {
                    let var = &enum_[variant];
                    variants.push(
                        Struct::new(
                            StructParams {
                                discriminant: var.discriminant.as_ref(),
                                variant: variant,
                                attrs: var.attrs.as_slice(),
                                name: &var.ident,
                                override_vis: override_vis,
                            },
                            &var.fields,
                        ),
                    );
                    variant = variant + 1;
                }
                data_variant = DataVariant::Enum;
            },
            Data::Struct(struct_) => {
                let override_vis = None;

                variants.push(
                    Struct::new(
                        StructParams {
                            discriminant: None,
                            variant: 0,
                            attrs: ast.attrs.as_slice(),
                            name: name,
                            override_vis: override_vis,
                        },
                        struct_,
                    ),
                );
                data_variant = DataVariant::Struct;
            },
            Data::Union(union_) => {
                let override_vis = None;

                let fields = Some(union_);
                let sk = StructKind::Braced;
                let vari = Struct::with_fields(
                    StructParams {
                        discriminant: None,
                        variant: 0,
                        attrs: ast.attrs.as_slice(),
                        name: name,
                        override_vis: override_vis,
                    },
                    sk,
                    fields,
                );
                variants.push(vari);
                data_variant = DataVariant::Union;
            },
        }

        proof {
            lemma_total_fields_of_input(variants@, *ast);
        }

        let mut field_count: usize = 0;
        let mut pub_field_count: usize = 0;

        let mut k: usize = 0;
        while k < variants.len()
            invariant
                k <= variants@.len(),
                total_fields(variants@) <= usize::MAX,
                forall|i: int|
                    0 <= i < variants@.len() ==> #[trigger] variants@[i].pub_field_count
                        <= variants@[i].fields@.len(),
                field_count == total_fields(variants@.take(k as int)),
                pub_field_count == total_pub(variants@.take(k as int)),
                pub_field_count <= field_count,
            decreases variants@.len() - k,
        {
            let vari = &variants[k];
            proof {
                lemma_total_fields_prefix(variants@, k as int + 1);
                assert(variants@.take(k + 1).drop_last() =~= variants@.take(k as int));
            }
            field_count = field_count + vari.fields.len();
            pub_field_count = pub_field_count + vari.pub_field_count;
            k = k + 1;
        }
        assert(variants@.take(k as int) =~= variants@);

        Self {
            vis: &ast.vis,
            name,
            attrs: ast.attrs.as_slice(),
            generics: &ast.generics,
            lifetime_count: ast.generics.lifetime_count(),
            data_variant,
            variants,
            field_count,
            pub_field_count,
        }
    }

    /// Whether any field of any variant is public.
    pub fn has_public_fields(&self) -> (r: bool)
        ensures
            r == (self.pub_field_count != 0),
    {
        self.pub_field_count != 0
    }
}

impl<'a> Struct<'a> {
    fn new(p: StructParams<'a>, fields: &'a SynFields) -> (r: Self)
        ensures
            struct_built_from(
                r,
                p.variant,
                p.attrs@,
                *p.name,
                opt_deref(p.discriminant),
                kind_of(*fields),
                fields_list(*fields),
                opt_deref(p.override_vis),
            ),
    {
        let kind = match *fields {
            SynFields::Named { .. } => StructKind::Braced,
            SynFields::Unnamed { .. } => StructKind::Tuple,
            SynFields::Unit { .. } => StructKind::Braced,
        };
        let fields = match fields {
            SynFields::Named(f) => Some(f),
            SynFields::Unnamed(f) => Some(f),
            SynFields::Unit => None,
        };

        Self::with_fields(p, kind, fields)
    }

    fn with_fields(p: StructParams<'a>, kind: StructKind, fields: Option<&'a Vec<SynField>>) -> (r:
        Self)
        ensures
            struct_built_from(
                r,
                p.variant,
                p.attrs@,
                *p.name,
                opt_deref(p.discriminant),
                kind,
                match fields {
                    Some(f) => f@,
                    None => Seq::empty(),
                },
                opt_deref(p.override_vis),
            ),
    {
        let fields = match fields {
            Some(x) => Field::from_iter(p, x),
            None => Vec::new(),
        };

        let mut pub_field_count = 0usize;

        let mut i: usize = 0;
        while i < fields.len()
            invariant
                i <= fields@.len(),
                pub_field_count == count_public(fields@.take(i as int)),
                pub_field_count <= i,
            decreases fields@.len() - i,
        {
            assert(fields@.take(i + 1).drop_last() =~= fields@.take(i as int));
            if fields[i].is_public() {
                pub_field_count = pub_field_count + 1;
            }
            i = i + 1;
        }
        assert(fields@.take(i as int) =~= fields@);

        Self {
            discriminant: p.discriminant,
            attrs: p.attrs,
            name: p.name,
            kind,
            pub_field_count,
            fields,
        }
    }
}

impl<'a> Field<'a> {
    fn new(index: FieldIndex, field: &'a SynField, override_vis: Option<&'a Visibility>) -> (r:
        Self)
        ensures
            field_built_from(r, index, *field, opt_deref(override_vis)),
    {
        let ident = match field.ident.as_ref() {
            Some(ident) => FieldIdent::Named(ident),
            None => FieldIdent::new_index(index.pos),
        };

        Self {
            index,
            attrs: field.attrs.as_slice(),
            vis: override_vis.unwrap_or(&field.vis),
            ident,
            ty: &field.ty,
        }
    }

    /// Whether the field is declared `pub`.
    pub fn is_public(&self) -> (r: bool)
        ensures
            r == is_public_vis(*self.vis),
            r <==> *self.vis == Visibility::Public,
    {
        match self.vis {
            Visibility::Public => true,
            _ => false,
        }
    }

    /// Gets the identifier of this field as an `&Ident`.
    pub fn ident(&self) -> (r: &Ident)
        ensures
            *r == ident_name(self.ident),
    {
        match &self.ident {
            FieldIdent::Index(_, ident) => ident,
            FieldIdent::Named(ident) => ident,
        }
    }

    fn from_iter(p: StructParams<'a>, fields: &'a Vec<SynField>) -> (r: Vec<Self>)
        ensures
            r@.len() == fields@.len(),
            forall|j: int|
                0 <= j < fields@.len() ==> #[trigger] field_built_from(
                    r@[j],
                    FieldIndex { variant: p.variant, pos: j as usize },
                    fields@[j],
                    opt_deref(p.override_vis),
                ),
    {
        let mut out: Vec<Self> = Vec::new();
        let mut pos: usize = 0;
        while pos < fields.len()
            invariant
                pos <= fields@.len(),
                out@.len() == pos,
                forall|j: int|
                    0 <= j < pos ==> #[trigger] field_built_from(
                        out@[j],
                        FieldIndex { variant: p.variant, pos: j as usize },
                        fields@[j],
                        opt_deref(p.override_vis),
                    ),
            decreases fields@.len() - pos,
        {
            let fi = FieldIndex { variant: p.variant, pos };
            out.push(Field::new(fi, &fields[pos], p.override_vis));
            pos = pos + 1;
        }
        out
    }
}

impl<'a> FieldIdent<'a> {
    /// The identifier of the field at position `index` of a tuple struct,
    /// named `field_<index>`.
    pub fn new_index(index: usize) -> (r: Self)
        ensures
            r matches FieldIdent::Index(i, name) && i == index && name@ == index_field_name(
                index as nat,
            ),
    {
        let mut name = String::new();
        name.append("field_");
        push_decimal(&mut name, index);
        FieldIdent::Index(index, name)
    }
}

// ---------------------------------------------------------------------------
// Lemmas about the counts.

proof fn lemma_total_fields_prefix(vs: Seq<Struct>, k: int)
    requires
        0 <= k <= vs.len(),
    ensures
        total_fields(vs.take(k)) <= total_fields(vs),
    decreases vs.len(),
{
    if k < vs.len() {
        assert(vs.drop_last().take(k) =~= vs.take(k));
        lemma_total_fields_prefix(vs.drop_last(), k);
    } else {
        assert(vs.take(k) =~= vs);
    }
}

proof fn lemma_total_fields_of_variants(vs: Seq<Struct>, evs: Seq<crate::syntax::Variant>)
    requires
        vs.len() == evs.len(),
        forall|i: int|
            0 <= i < vs.len() ==> (#[trigger] vs[i]).fields@.len() == fields_list(
                evs[i].fields,
            ).len(),
    ensures
        total_fields(vs) == variant_field_total(evs),
    decreases vs.len(),
{
    if vs.len() > 0 {
        lemma_total_fields_of_variants(vs.drop_last(), evs.drop_last());
        assert(vs[vs.len() - 1].fields@.len() == fields_list(evs[evs.len() - 1].fields).len());
    }
}

proof fn lemma_total_fields_of_input(vs: Seq<Struct>, ast: DeriveInput)
    requires
        variants_built_from(vs, ast),
    ensures
        total_fields(vs) == data_field_total(ast.data),
        forall|i: int|
            0 <= i < vs.len() ==> #[trigger] vs[i].pub_field_count <= vs[i].fields@.len(),
{
    match ast.data {
        Data::Enum(evs) => {
            assert forall|i: int| 0 <= i < vs.len() implies (#[trigger] vs[i]).fields@.len()
                == fields_list(evs@[i].fields).len() by {
                assert(struct_built_from(
                    vs[i],
                    i as usize,
                    evs@[i].attrs@,
                    evs@[i].ident,
                    evs@[i].discriminant,
                    kind_of(evs@[i].fields),
                    fields_list(evs@[i].fields),
                    Some(ast.vis),
                ));
            }
            lemma_total_fields_of_variants(vs, evs@);
        },
        _ => {
            assert(vs.drop_last() =~= Seq::<Struct>::empty());
            assert(total_fields(vs.drop_last()) == 0);
            assert(vs.last() == vs[0]);
        },
    }
    assert forall|i: int| 0 <= i < vs.len() implies #[trigger] vs[i].pub_field_count
        <= vs[i].fields@.len() by {
        lemma_count_public_at_most(vs[i].fields@);
        match ast.data {
            Data::Enum(evs) => {
                assert(struct_built_from(
                    vs[i],
                    i as usize,
                    evs@[i].attrs@,
                    evs@[i].ident,
                    evs@[i].discriminant,
                    kind_of(evs@[i].fields),
                    fields_list(evs@[i].fields),
                    Some(ast.vis),
                ));
            },
            _ => {},
        }
    }
}

proof fn lemma_total_pub_at_most(vs: Seq<Struct>)
    requires
        forall|i: int|
            0 <= i < vs.len() ==> #[trigger] vs[i].pub_field_count <= vs[i].fields@.len(),
    ensures
        total_pub(vs) <= total_fields(vs),
    decreases vs.len(),
{
    if vs.len() > 0 {
        assert(vs[vs.len() - 1].pub_field_count <= vs[vs.len() - 1].fields@.len());
        lemma_total_pub_at_most(vs.drop_last());
    }
}

proof fn lemma_count_public_some(fs: Seq<Field>)
    ensures
        count_public(fs) > 0 <==> exists|j: int|
            0 <= j < fs.len() && is_public_vis(*(#[trigger] fs[j]).vis),
    decreases fs.len(),
{
    if fs.len() > 0 {
        let init = fs.drop_last();
        lemma_count_public_some(init);
        if count_public(init) > 0 {
            let j = choose|j: int| 0 <= j < init.len() && is_public_vis(*(#[trigger] init[j]).vis);
            assert(fs[j] == init[j]);
        }
        if exists|j: int| 0 <= j < fs.len() && is_public_vis(*(#[trigger] fs[j]).vis) {
            let j = choose|j: int| 0 <= j < fs.len() && is_public_vis(*(#[trigger] fs[j]).vis);
            if j < fs.len() - 1 {
                assert(init[j] == fs[j]);
            }
        }
    }
}

proof fn lemma_count_public_uniform(fs: Seq<Field>, vis: Visibility)
    requires
        forall|j: int| 0 <= j < fs.len() ==> *(#[trigger] fs[j]).vis == vis,
    ensures
        count_public(fs) == if is_public_vis(vis) {
            fs.len()
        } else {
            0
        },
    decreases fs.len(),
{
    if fs.len() > 0 {
        let init = fs.drop_last();
        assert forall|j: int| 0 <= j < init.len() implies *(#[trigger] init[j]).vis == vis by {
            assert(init[j] == fs[j]);
        }
        lemma_count_public_uniform(init, vis);
        assert(*fs[fs.len() - 1].vis == vis);
    }
}

proof fn lemma_total_pub_some(vs: Seq<Struct>)
    requires
        forall|i: int|
            0 <= i < vs.len() ==> (#[trigger] vs[i]).pub_field_count == count_public(
                vs[i].fields@,
            ),
    ensures
        total_pub(vs) > 0 <==> some_field_public(vs),
    decreases vs.len(),
{
    if vs.len() > 0 {
        let init = vs.drop_last();
        assert forall|i: int| 0 <= i < init.len() implies (#[trigger] init[i]).pub_field_count
            == count_public(init[i].fields@) by {
            assert(init[i] == vs[i]);
        }
        lemma_total_pub_some(init);
        let last = vs[vs.len() - 1];
        assert(last.pub_field_count == count_public(last.fields@));
        lemma_count_public_some(last.fields@);
        if some_field_public(init) {
            let (i, j) = choose|i: int, j: int|
                0 <= i < init.len() && 0 <= j < init[i].fields@.len() && is_public_vis(
                    *(#[trigger] init[i].fields@[j]).vis,
                );
            assert(vs[i] == init[i]);
            assert(is_public_vis(*vs[i].fields@[j].vis));
        }
        if count_public(last.fields@) > 0 {
            let j = choose|j: int|
                0 <= j < last.fields@.len() && is_public_vis(*(#[trigger] last.fields@[j]).vis);
            assert(is_public_vis(*vs[vs.len() - 1].fields@[j].vis));
        }
        if some_field_public(vs) {
            let (i, j) = choose|i: int, j: int|
                0 <= i < vs.len() && 0 <= j < vs[i].fields@.len() && is_public_vis(
                    *(#[trigger] vs[i].fields@[j]).vis,
                );
            if i < vs.len() - 1 {
                assert(init[i] == vs[i]);
                assert(is_public_vis(*init[i].fields@[j].vis));
            } else {
                assert(is_public_vis(*last.fields@[j].vis));
            }
        }
    }
}

proof fn lemma_total_pub_uniform(vs: Seq<Struct>, vis: Visibility)
    requires
        forall|i: int|
            0 <= i < vs.len() ==> (#[trigger] vs[i]).pub_field_count == count_public(
                vs[i].fields@,
            ),
        forall|i: int, j: int|
            0 <= i < vs.len() && 0 <= j < vs[i].fields@.len() ==> *(#[trigger] vs[i].fields@[j]).vis
                == vis,
    ensures
        total_pub(vs) == if is_public_vis(vis) {
            total_fields(vs)
        } else {
            0
        },
    decreases vs.len(),
{
    if vs.len() > 0 {
        let init = vs.drop_last();
        assert forall|i: int| 0 <= i < init.len() implies (#[trigger] init[i]).pub_field_count
            == count_public(init[i].fields@) by {
            assert(init[i] == vs[i]);
        }
        assert forall|i: int, j: int|
            0 <= i < init.len() && 0 <= j < init[i].fields@.len() implies *(#[trigger] init[i].fields@[j]).vis
            == vis by {
            assert(init[i] == vs[i]);
        }
        lemma_total_pub_uniform(init, vis);
        let last = vs[vs.len() - 1];
        assert forall|j: int| 0 <= j < last.fields@.len() implies *(#[trigger] last.fields@[j]).vis
            == vis by {
            assert(*vs[vs.len() - 1].fields@[j].vis == vis);
        }
        lemma_count_public_uniform(last.fields@, vis);
    }
}

proof fn lemma_variants_count_public(vs: Seq<Struct>, ast: DeriveInput)
    requires
        variants_built_from(vs, ast),
    ensures
        forall|i: int|
            0 <= i < vs.len() ==> (#[trigger] vs[i]).pub_field_count == count_public(
                vs[i].fields@,
            ),
{
    assert forall|i: int| 0 <= i < vs.len() implies (#[trigger] vs[i]).pub_field_count
        == count_public(vs[i].fields@) by {
        match ast.data {
            Data::Enum(evs) => {
                assert(struct_built_from(
                    vs[i],
                    i as usize,
                    evs@[i].attrs@,
                    evs@[i].ident,
                    evs@[i].discriminant,
                    kind_of(evs@[i].fields),
                    fields_list(evs@[i].fields),
                    Some(ast.vis),
                ));
            },
            _ => {},
        }
    }
}

// ---------------------------------------------------------------------------
// Laws.

/// Whether some field of some variant in `vs` is public.
pub open spec fn some_field_public(vs: Seq<Struct>) -> bool {
    exists|i: int, j: int|
        0 <= i < vs.len() && 0 <= j < vs[i].fields@.len() && is_public_vis(
            *(#[trigger] vs[i].fields@[j]).vis,
        )
}

/// The field count is the number of fields that the definition declares, and
/// no more of them are public than there are fields.
pub proof fn lemma_field_counts(ds: DataStructure, ast: DeriveInput)
    requires
        built_from(ds, ast),
    ensures
        ds.field_count == data_field_total(ast.data),
        ds.pub_field_count <= ds.field_count,
{
    lemma_total_fields_of_input(ds.variants@, ast);
    lemma_total_pub_at_most(ds.variants@);
}

/// A definition has public fields exactly when some field of some variant is
/// declared `pub` (for an enum: exactly when the enum is `pub` and has a field).
pub proof fn lemma_has_public_fields_exactly(ds: DataStructure, ast: DeriveInput)
    requires
        built_from(ds, ast),
    ensures
        (ds.pub_field_count != 0) <==> some_field_public(ds.variants@),
{
    lemma_variants_count_public(ds.variants@, ast);
    lemma_total_pub_some(ds.variants@);
}

/// A definition has public fields exactly when some field of some variant has
/// the plain `pub` visibility: fields that are `pub(crate)`, `pub(super)`,
/// `pub(in path)`, `crate` or private never count.
pub proof fn lemma_public_fields_are_plain_pub(ds: DataStructure, ast: DeriveInput)
    requires
        built_from(ds, ast),
    ensures
        (ds.pub_field_count != 0) <==> exists|i: int, j: int|
            0 <= i < ds.variants@.len() && 0 <= j < ds.variants@[i].fields@.len() && *(
            #[trigger] ds.variants@[i].fields@[j]).vis == Visibility::Public,
        (forall|i: int, j: int|
            0 <= i < ds.variants@.len() && 0 <= j < ds.variants@[i].fields@.len() ==> *(
            #[trigger] ds.variants@[i].fields@[j]).vis != Visibility::Public) ==> ds.pub_field_count
            == 0,
{
    lemma_has_public_fields_exactly(ds, ast);
    let vs = ds.variants@;
    if some_field_public(vs) {
        let (i, j) = choose|i: int, j: int|
            0 <= i < vs.len() && 0 <= j < vs[i].fields@.len() && is_public_vis(
                *(#[trigger] vs[i].fields@[j]).vis,
            );
        assert(*vs[i].fields@[j].vis == Visibility::Public);
    }
    if exists|i: int, j: int|
        0 <= i < vs.len() && 0 <= j < vs[i].fields@.len() && *(#[trigger] vs[i].fields@[j]).vis
            == Visibility::Public {
        let (i, j) = choose|i: int, j: int|
            0 <= i < vs.len() && 0 <= j < vs[i].fields@.len() && *(
            #[trigger] vs[i].fields@[j]).vis == Visibility::Public;
        assert(is_public_vis(*vs[i].fields@[j].vis));
    }
}

/// Every field of an enum has the visibility of the enum, so either all of
/// its fields are public or none is.
pub proof fn lemma_enum_fields_share_visibility(ds: DataStructure, ast: DeriveInput)
    requires
        built_from(ds, ast),
        ast.data is Enum,
    ensures
        forall|i: int, j: int|
            0 <= i < ds.variants@.len() && 0 <= j < ds.variants@[i].fields@.len() ==> *(
            #[trigger] ds.variants@[i].fields@[j]).vis == ast.vis,
        ds.pub_field_count == if is_public_vis(ast.vis) {
            ds.field_count
        } else {
            0
        },
{
    let vs = ds.variants@;
    match ast.data {
        Data::Enum(evs) => {
            assert forall|i: int, j: int|
                0 <= i < vs.len() && 0 <= j < vs[i].fields@.len() implies *(
                #[trigger] vs[i].fields@[j]).vis == ast.vis by {
                assert(struct_built_from(
                    vs[i],
                    i as usize,
                    evs@[i].attrs@,
                    evs@[i].ident,
                    evs@[i].discriminant,
                    kind_of(evs@[i].fields),
                    fields_list(evs@[i].fields),
                    Some(ast.vis),
                ));
                assert(field_built_from(
                    vs[i].fields@[j],
                    FieldIndex { variant: i as usize, pos: j as usize },
                    fields_list(evs@[i].fields)[j],
                    Some(ast.vis),
                ));
            }
        },
        _ => {},
    }
    lemma_variants_count_public(vs, ast);
    lemma_total_pub_uniform(vs, ast.vis);
}

/// In a definition of the shape the parser gives, the fields of a tuple
/// variant are named by their position and those of a braced one by their
/// own names.
pub proof fn lemma_field_idents_follow_kind(ds: DataStructure, ast: DeriveInput)
    requires
        built_from(ds, ast),
        derive_input_valid(ast),
    ensures
        forall|i: int, j: int|
            0 <= i < ds.variants@.len() && 0 <= j < ds.variants@[i].fields@.len() ==> {
                let f = #[trigger] ds.variants@[i].fields@[j];
                &&& ds.variants@[i].kind == StructKind::Tuple ==> f.ident is Index
                &&& ds.variants@[i].kind == StructKind::Braced ==> f.ident is Named
            },
{
    let vs = ds.variants@;
    assert forall|i: int, j: int|
        0 <= i < vs.len() && 0 <= j < vs[i].fields@.len() implies {
            let f = #[trigger] vs[i].fields@[j];
            &&& vs[i].kind == StructKind::Tuple ==> f.ident is Index
            &&& vs[i].kind == StructKind::Braced ==> f.ident is Named
        } by {
        match ast.data {
            Data::Enum(evs) => {
                let src = fields_list(evs@[i].fields);
                assert(fields_valid(evs@[i].fields));
                assert(struct_built_from(
                    vs[i],
                    i as usize,
                    evs@[i].attrs@,
                    evs@[i].ident,
                    evs@[i].discriminant,
                    kind_of(evs@[i].fields),
                    src,
                    Some(ast.vis),
                ));
                assert(field_built_from(
                    vs[i].fields@[j],
                    FieldIndex { variant: i as usize, pos: j as usize },
                    src[j],
                    Some(ast.vis),
                ));
            },
            Data::Struct(fs) => {
                let src = fields_list(fs);
                assert(field_built_from(
                    vs[0].fields@[j],
                    FieldIndex { variant: 0, pos: j as usize },
                    src[j],
                    None,
                ));
            },
            Data::Union(fs) => {
                assert(field_built_from(
                    vs[0].fields@[j],
                    FieldIndex { variant: 0, pos: j as usize },
                    fs@[j],
                    None,
                ));
            },
        }
    }
}

/// The fields of a tuple struct get different names.
pub proof fn lemma_index_names_distinct(a: nat, b: nat)
    ensures
        index_field_name(a) == index_field_name(b) ==> a == b,
{
    let p = "field_"@;
    assert((p + decimal(a)).skip(p.len() as int) =~= decimal(a));
    assert((p + decimal(b)).skip(p.len() as int) =~= decimal(b));
    lemma_decimal_injective(a, b);
}

proof fn lemma_count_public_at_most(fs: Seq<Field>)
    ensures
        count_public(fs) <= fs.len(),
    decreases fs.len(),
{
    if fs.len() > 0 {
        lemma_count_public_at_most(fs.drop_last());
    }
}

} // verus!
