//! The accessor synthesizer: from an aggregate's declaration to its
//! constructor and its per-field setters and getters.
use crate::mapper::{
    bare_shape, is_owned_text, is_wrapper, lemma_optional_mapped_inside, lemma_other_path_last_identifier,
    lemma_owned_text_borrowed, lemma_sequence_becomes_slice, map_fn_arg_type, map_fn_return_type,
    map_with, optional_marker, owned_text_marker, sequence_marker, wrapped_shape,
    MappingStrategy,
};
use crate::types::{TypeExpr, TypeShape, Visibility};
use vstd::prelude::*;

verus! {

/// A field of an aggregate; `name` is `None` for a positional field.
#[derive(Debug)]
pub struct FieldDecl {
    pub name: Option<String>,
    pub visibility: Visibility,
    pub ty: TypeExpr,
}

/// A record-like aggregate: its name, its visibility and its fields in order.
#[derive(Debug)]
pub struct AggregateDecl {
    pub name: String,
    pub visibility: Visibility,
    pub fields: Vec<FieldDecl>,
}

/// The interface annotation that a generated function carries, for the
/// tooling that later exposes it.
#[derive(Clone, Copy, Debug, PartialEq, Eq, Structural)]
pub enum InterfaceMarker {
    /// Marks the generated constructor.
    Constructor,
    /// Marks a generated setter or getter.
    Accessor,
}

/// A parameter of the generated constructor.
#[derive(Debug)]
pub struct Param {
    pub name: String,
    pub ty: TypeExpr,
}

/// The generated `new`: it takes one parameter per field, in field order,
/// and builds the aggregate by assigning each to the field of the same name.
#[derive(Debug)]
pub struct Constructor {
    pub marker: InterfaceMarker,
    pub visibility: Visibility,
    pub params: Vec<Param>,
}

/// A generated `set_<field>(&mut self, <field>: param_type)`, which assigns
/// the field.
#[derive(Debug)]
pub struct Setter {
    pub marker: InterfaceMarker,
    pub visibility: Visibility,
    pub name: String,
    pub field: String,
    pub param_type: TypeExpr,
}

/// A generated `get_<field>(&self) -> return_type`, which returns a clone of
/// the field.
#[derive(Debug)]
pub struct Getter {
    pub marker: InterfaceMarker,
    pub visibility: Visibility,
    pub name: String,
    pub field: String,
    pub return_type: TypeExpr,
}

/// The setter and the getter of one field.
#[derive(Debug)]
pub struct AccessorPair {
    pub setter: Setter,
    pub getter: Getter,
}

/// Everything generated for one aggregate.
#[derive(Debug)]
pub struct GeneratedAccessorSet {
    pub aggregate: String,
    pub constructor: Constructor,
    pub accessors: Vec<AccessorPair>,
}

/// Why an aggregate yields no accessors.
#[derive(Debug, PartialEq, Eq)]
pub enum SynthesisError {
    /// The field at `position` has no name.
    UnsupportedFieldShape { position: usize },
    /// The fields at `first` and `second` are both called `name`, so their
    /// accessors would share a name.
    NameCollision { name: String, first: usize, second: usize },
    /// The stored type of the field `field`, at `position`, has no mapping
    /// under the strategy.
    UnmappableType { position: usize, field: String },
}

/// The name of the setter of the field `field`.
pub open spec fn setter_name(field: Seq<char>) -> Seq<char> {
    seq!['s', 'e', 't', '_'] + field
}

/// The name of the getter of the field `field`.
pub open spec fn getter_name(field: Seq<char>) -> Seq<char> {
    seq!['g', 'e', 't', '_'] + field
}

/// The name of the field at `i`, where it has one.
pub open spec fn field_name(d: AggregateDecl, i: int) -> Seq<char> {
    d.fields@[i].name->Some_0@
}

/// Every field has a name.
pub open spec fn all_named(d: AggregateDecl) -> bool {
    forall|i: int| 0 <= i < d.fields@.len() ==> (#[trigger] d.fields@[i]).name is Some
}

/// Two fields share a name.
pub open spec fn has_collision(d: AggregateDecl) -> bool {
    exists|i: int, j: int|
        0 <= i < j < d.fields@.len() && #[trigger] field_name(d, i) == #[trigger] field_name(d, j)
}

/// Every field's stored type has a mapping under `strategy`.
pub open spec fn all_mappable(d: AggregateDecl, strategy: MappingStrategy) -> bool {
    forall|i: int| 0 <= i < d.fields@.len() ==> (#[trigger] map_with(d.fields@[i].ty@, strategy)) is Some
}

/// The signature type of the field at `i`.
pub open spec fn mapped_field(d: AggregateDecl, strategy: MappingStrategy, i: int) -> TypeShape {
    map_with(d.fields@[i].ty@, strategy)->Some_0
}

/// `out` is what the aggregate `d` yields: one constructor with a parameter
/// per field, and a setter and getter per field, all in field order.
pub open spec fn accessors_of(
    d: AggregateDecl,
    strategy: MappingStrategy,
    out: GeneratedAccessorSet,
) -> bool {
    &&& out.aggregate@ == d.name@
    &&& out.constructor.marker == InterfaceMarker::Constructor
    &&& out.constructor.visibility == d.visibility
    &&& out.constructor.params@.len() == d.fields@.len()
    &&& out.accessors@.len() == d.fields@.len()
    &&& forall|i: int|
        0 <= i < d.fields@.len() ==> {
            let p = #[trigger] out.constructor.params@[i];
            &&& p.name@ == field_name(d, i)
            &&& p.ty@ == mapped_field(d, strategy, i)
        }
    &&& forall|i: int|
        0 <= i < d.fields@.len() ==> {
            let a = #[trigger] out.accessors@[i];
            &&& a.setter.marker == InterfaceMarker::Accessor
            &&& a.getter.marker == InterfaceMarker::Accessor
            &&& a.setter.visibility == d.fields@[i].visibility
            &&& a.setter.name@ == setter_name(field_name(d, i))
            &&& a.setter.field@ == field_name(d, i)
            &&& a.setter.param_type@ == mapped_field(d, strategy, i)
            &&& a.getter.visibility == d.fields@[i].visibility
            &&& a.getter.name@ == getter_name(field_name(d, i))
            &&& a.getter.field@ == field_name(d, i)
            &&& a.getter.return_type@ == mapped_field(d, strategy, i)
        }
}

/// Row `j` of the five columns holds the accessor names, the name, the
/// visibility and the stored type of field `j`.
pub open spec fn column_matches(
    d: AggregateDecl,
    setters: Seq<String>,
    getters: Seq<String>,
    idents: Seq<String>,
    vis: Seq<Visibility>,
    tys: Seq<TypeExpr>,
    j: int,
) -> bool {
    &&& idents[j]@ == field_name(d, j)
    &&& setters[j]@ == setter_name(field_name(d, j))
    &&& getters[j]@ == getter_name(field_name(d, j))
    &&& vis[j] == d.fields@[j].visibility
    &&& tys[j]@ == d.fields@[j].ty@
}

pub open spec fn columns_match(
    d: AggregateDecl,
    setters: Seq<String>,
    getters: Seq<String>,
    idents: Seq<String>,
    vis: Seq<Visibility>,
    tys: Seq<TypeExpr>,
) -> bool {
    forall|j: int|
        0 <= j < d.fields@.len() ==> #[trigger] column_matches(d, setters, getters, idents, vis, tys, j)
}

/// Relies on itertools::multiunzip: it splits rows of five into five columns,
/// keeping the order of the rows.
#[verifier::external_body]
fn unzip_columns<A, B, C, D, E>(rows: Vec<(A, B, C, D, E)>) -> (r: (
    Vec<A>,
    Vec<B>,
    Vec<C>,
    Vec<D>,
    Vec<E>,
))
    ensures
        r.0@.len() == rows@.len(),
        r.1@.len() == rows@.len(),
        r.2@.len() == rows@.len(),
        r.3@.len() == rows@.len(),
        r.4@.len() == rows@.len(),
        forall|i: int|
            0 <= i < rows@.len() ==> {
                &&& r.0@[i] == (#[trigger] rows@[i]).0
                &&& r.1@[i] == rows@[i].1
                &&& r.2@[i] == rows@[i].2
                &&& r.3@[i] == rows@[i].3
                &&& r.4@[i] == rows@[i].4
            },
{
    itertools::multiunzip(rows)
}

fn prefixed(prefix: &str, name: &String) -> (r: String)
    ensures
        r@ == prefix@ + name@,
{
    prefix.to_owned().concat(name.as_str())
}

/// Synthesizes the constructor and the accessors of `decl`, with signature
/// types mapped by `strategy`.
///
/// Fails on the first positional field; else on the first field whose name
/// an earlier field already has, paired with the first such earlier field;
/// else on the first field whose type has no mapping.
pub fn generate_impl_block(decl: &AggregateDecl, strategy: MappingStrategy) -> (r: Result<
    GeneratedAccessorSet,
    SynthesisError,
>)
    ensures
        r is Ok <==> all_named(*decl) && !has_collision(*decl) && all_mappable(*decl, strategy),
        !all_named(*decl) ==> r is Err && r->Err_0 is UnsupportedFieldShape,
        all_named(*decl) && has_collision(*decl) ==> r is Err && r->Err_0 is NameCollision,
        r matches Ok(out) ==> accessors_of(*decl, strategy, out),
        r matches Err(SynthesisError::UnsupportedFieldShape { position }) ==> {
            &&& position < decl.fields@.len()
            &&& decl.fields@[position as int].name is None
            &&& forall|j: int| 0 <= j < position ==> (#[trigger] decl.fields@[j]).name is Some
        },
        r matches Err(SynthesisError::NameCollision { name, first, second }) ==> {
            &&& all_named(*decl)
            &&& first < second < decl.fields@.len()
            &&& field_name(*decl, first as int) == name@
            &&& field_name(*decl, second as int) == name@
            &&& forall|x: int, y: int|
                0 <= x < y < second ==> #[trigger] field_name(*decl, x) != #[trigger] field_name(
                    *decl,
                    y,
                )
            &&& forall|x: int|
                0 <= x < first ==> #[trigger] field_name(*decl, x) != field_name(
                    *decl,
                    second as int,
                )
        },
        r matches Err(SynthesisError::UnmappableType { position, field }) ==> {
            &&& all_named(*decl)
            &&& !has_collision(*decl)
            &&& position < decl.fields@.len()
            &&& map_with(decl.fields@[position as int].ty@, strategy) is None
            &&& forall|j: int|
                0 <= j < position ==> (#[trigger] map_with(decl.fields@[j].ty@, strategy)) is Some
            &&& field@ == field_name(*decl, position as int)
        },
{
    let n = decl.fields.len();
    let mut rows: Vec<(String, String, String, Visibility, TypeExpr)> = Vec::new();
    let mut i: usize = 0;
    while i < n
        invariant
            n == decl.fields@.len(),
            i <= n,
            rows@.len() == i,
            forall|j: int| 0 <= j < i ==> (#[trigger] decl.fields@[j]).name is Some,
            forall|j: int|
                0 <= j < i ==> {
                    let row = #[trigger] rows@[j];
                    &&& row.0@ == setter_name(field_name(*decl, j))
                    &&& row.1@ == getter_name(field_name(*decl, j))
                    &&& row.2@ == field_name(*decl, j)
                    &&& row.3 == decl.fields@[j].visibility
                    &&& row.4@ == decl.fields@[j].ty@
                },
        decreases n - i,
    {
        proof {
            reveal_strlit("set_");
            reveal_strlit("get_");
            assert("set_"@ =~= seq!['s', 'e', 't', '_']);
            assert("get_"@ =~= seq!['g', 'e', 't', '_']);
        }
        let field = &decl.fields[i];
        match &field.name {
            Some(ident) => {
                let row = (
                    prefixed("set_", ident),
                    prefixed("get_", ident),
                    ident.clone(),
                    field.visibility,
                    field.ty.duplicate(),
                );
                rows.push(row);
            },
            None => {
                return Err(SynthesisError::UnsupportedFieldShape { position: i });
            },
        }
        i = i + 1;
    }
    let ghost g_rows = rows@;
    let columns = unzip_columns(rows);
    let (f_setter, f_getter, f_ident, f_vis, f_ty) = columns;
    assert forall|j: int| 0 <= j < n implies #[trigger] column_matches(*decl, f_setter@, f_getter@, f_ident@, f_vis@, f_ty@, j) by {
        assert(f_ident@[j] == g_rows[j].2);
    }

    let mut b: usize = 1;
    while b < n
        invariant
            n == decl.fields@.len(),
            all_named(*decl),
            f_ident@.len() == n,
            f_setter@.len() == n,
            f_getter@.len() == n,
            f_vis@.len() == n,
            f_ty@.len() == n,
            columns_match(*decl, f_setter@, f_getter@, f_ident@, f_vis@, f_ty@),
            forall|x: int, y: int|
                0 <= x < y < b && y < n ==> #[trigger] field_name(*decl, x) != #[trigger] field_name(
                    *decl,
                    y,
                ),
        decreases n - b,
    {
        let mut a: usize = 0;
        while a < b
            invariant
                n == decl.fields@.len(),
                all_named(*decl),
                b < n,
                a <= b,
                f_ident@.len() == n,
                f_setter@.len() == n,
                f_getter@.len() == n,
                f_vis@.len() == n,
                f_ty@.len() == n,
                columns_match(*decl, f_setter@, f_getter@, f_ident@, f_vis@, f_ty@),
                forall|x: int, y: int|
                    0 <= x < y < b ==> #[trigger] field_name(*decl, x) != #[trigger] field_name(
                        *decl,
                        y,
                    ),
                forall|x: int| 0 <= x < a ==> #[trigger] field_name(*decl, x) != field_name(*decl, b as int),
            decreases b - a,
        {
            assert(column_matches(*decl, f_setter@, f_getter@, f_ident@, f_vis@, f_ty@, a as int));
            assert(column_matches(*decl, f_setter@, f_getter@, f_ident@, f_vis@, f_ty@, b as int));
            if f_ident[a] == f_ident[b] {
                return Err(
                    SynthesisError::NameCollision { name: f_ident[b].clone(), first: a, second: b },
                );
            }
            a = a + 1;
        }
        b = b + 1;
    }
    assert(!has_collision(*decl));

    let mut params: Vec<Param> = Vec::new();
    let mut accessors: Vec<AccessorPair> = Vec::new();
    let mut k: usize = 0;
    while k < n
        invariant
            n == decl.fields@.len(),
            all_named(*decl),
            !has_collision(*decl),
            k <= n,
            f_setter@.len() == n,
            f_getter@.len() == n,
            f_ident@.len() == n,
            f_vis@.len() == n,
            f_ty@.len() == n,
            columns_match(*decl, f_setter@, f_getter@, f_ident@, f_vis@, f_ty@),
            forall|j: int| 0 <= j < k ==> (#[trigger] map_with(decl.fields@[j].ty@, strategy)) is Some,
            params@.len() == k,
            accessors@.len() == k,
            forall|j: int|
                0 <= j < k ==> {
                    let p = #[trigger] params@[j];
                    &&& p.name@ == field_name(*decl, j)
                    &&& p.ty@ == mapped_field(*decl, strategy, j)
                },
            forall|j: int|
                0 <= j < k ==> {
                    let acc = #[trigger] accessors@[j];
                    &&& acc.setter.marker == InterfaceMarker::Accessor
                    &&& acc.getter.marker == InterfaceMarker::Accessor
                    &&& acc.setter.visibility == decl.fields@[j].visibility
                    &&& acc.setter.name@ == setter_name(field_name(*decl, j))
                    &&& acc.setter.field@ == field_name(*decl, j)
                    &&& acc.setter.param_type@ == mapped_field(*decl, strategy, j)
                    &&& acc.getter.visibility == decl.fields@[j].visibility
                    &&& acc.getter.name@ == getter_name(field_name(*decl, j))
                    &&& acc.getter.field@ == field_name(*decl, j)
                    &&& acc.getter.return_type@ == mapped_field(*decl, strategy, j)
                },
        decreases n - k,
    {
        assert(column_matches(*decl, f_setter@, f_getter@, f_ident@, f_vis@, f_ty@, k as int));
        let arg = map_fn_arg_type(&f_ty[k], strategy);
        let ret = map_fn_return_type(&f_ty[k], strategy);
        match arg {
            Some(arg) => match ret {
                Some(ret) => {
                    params.push(Param { name: f_ident[k].clone(), ty: arg.duplicate() });
                    let setter = Setter {
                        marker: InterfaceMarker::Accessor,
                        visibility: f_vis[k],
                        name: f_setter[k].clone(),
                        field: f_ident[k].clone(),
                        param_type: arg,
                    };
                    let getter = Getter {
                        marker: InterfaceMarker::Accessor,
                        visibility: f_vis[k],
                        name: f_getter[k].clone(),
                        field: f_ident[k].clone(),
                        return_type: ret,
                    };
                    accessors.push(AccessorPair { setter, getter });
                },
                None => {
                    return Err(SynthesisError::UnmappableType { position: k, field: f_ident[k].clone() });
                },
            },
            None => {
                return Err(SynthesisError::UnmappableType { position: k, field: f_ident[k].clone() });
            },
        }
        k = k + 1;
    }
    let out = GeneratedAccessorSet {
        aggregate: decl.name.clone(),
        constructor: Constructor {
            marker: InterfaceMarker::Constructor,
            visibility: decl.visibility,
            params,
        },
        accessors,
    };
    Ok(out)
}

/// A field of owned text gets a setter that takes, and a getter that
/// returns, borrowed text, under either strategy.
pub proof fn lemma_owned_text_field(
    d: AggregateDecl,
    strategy: MappingStrategy,
    out: GeneratedAccessorSet,
    i: int,
)
    requires
        accessors_of(d, strategy, out),
        all_mappable(d, strategy),
        0 <= i < d.fields@.len(),
        is_owned_text(d.fields@[i].ty@),
    ensures
        out.accessors@[i].setter.param_type@ == TypeShape::BorrowedText,
        out.accessors@[i].getter.return_type@ == TypeShape::BorrowedText,
        out.constructor.params@[i].ty@ == TypeShape::BorrowedText,
{
    lemma_owned_text_borrowed(strategy);
}

/// Under the full mapping, a field of optional owned text gets optional
/// borrowed text in its setter and getter.
pub proof fn lemma_optional_text_field(d: AggregateDecl, out: GeneratedAccessorSet, i: int)
    requires
        accessors_of(d, MappingStrategy::Full, out),
        0 <= i < d.fields@.len(),
        d.fields@[i].ty@ == wrapped_shape(optional_marker(), bare_shape(owned_text_marker())),
    ensures
        out.accessors@[i].setter.param_type@ == wrapped_shape(
            optional_marker(),
            TypeShape::BorrowedText,
        ),
        out.accessors@[i].getter.return_type@ == wrapped_shape(
            optional_marker(),
            TypeShape::BorrowedText,
        ),
{
    lemma_optional_mapped_inside(bare_shape(owned_text_marker()));
}

/// Under the full mapping, a field holding a sequence of owned text gets a
/// borrowed slice of borrowed text in its setter and getter.
pub proof fn lemma_sequence_text_field(d: AggregateDecl, out: GeneratedAccessorSet, i: int)
    requires
        accessors_of(d, MappingStrategy::Full, out),
        0 <= i < d.fields@.len(),
        d.fields@[i].ty@ == wrapped_shape(sequence_marker(), bare_shape(owned_text_marker())),
    ensures
        out.accessors@[i].setter.param_type@ == TypeShape::BorrowedSlice(
            Box::new(TypeShape::BorrowedText),
        ),
        out.accessors@[i].getter.return_type@ == TypeShape::BorrowedSlice(
            Box::new(TypeShape::BorrowedText),
        ),
{
    lemma_sequence_becomes_slice(bare_shape(owned_text_marker()));
}

/// Under the full mapping, a field of any other named path gets the bare
/// identifier of the path's last segment, with no qualification and no
/// generic arguments.
pub proof fn lemma_other_path_field(d: AggregateDecl, out: GeneratedAccessorSet, i: int)
    requires
        accessors_of(d, MappingStrategy::Full, out),
        0 <= i < d.fields@.len(),
        d.fields@[i].ty@ is Path,
        d.fields@[i].ty@->Path_segments.len() > 0,
        !is_owned_text(d.fields@[i].ty@),
        !is_wrapper(d.fields@[i].ty@, optional_marker()),
        !is_wrapper(d.fields@[i].ty@, sequence_marker()),
    ensures
        ({
            let last = bare_shape(d.fields@[i].ty@->Path_segments.last());
            &&& out.accessors@[i].setter.param_type@ == last
            &&& out.accessors@[i].getter.return_type@ == last
        }),
{
    lemma_other_path_last_identifier(d.fields@[i].ty@);
}

} // verus!
