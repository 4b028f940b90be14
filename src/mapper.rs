//! The type-signature mapper: from a field's stored type to the type that the
//! generated setter takes and the generated getter returns.
use crate::types::{opt_chars, TypeExpr, TypeShape};
use vstd::prelude::*;

verus! {

/// How far the mapping goes.
#[derive(Clone, Copy, Debug, PartialEq, Eq, Structural)]
pub enum MappingStrategy {
    /// Owned text becomes borrowed text, optional and sequence wrappers are
    /// mapped inside, any other named path becomes its last identifier, and
    /// every other shape is unmappable.
    Full,
    /// Owned text becomes borrowed text; every other type stays as it is.
    Shallow,
}

/// The identifier of the owned-text type.
pub open spec fn owned_text_marker() -> Seq<char> {
    seq!['S', 't', 'r', 'i', 'n', 'g']
}

/// The identifier of the optional wrapper.
pub open spec fn optional_marker() -> Seq<char> {
    seq!['O', 'p', 't', 'i', 'o', 'n']
}

/// The identifier of the sequence wrapper.
pub open spec fn sequence_marker() -> Seq<char> {
    seq!['V', 'e', 'c']
}

/// The named path made of the single identifier `ident`, with no generics.
pub open spec fn bare_shape(ident: Seq<char>) -> TypeShape {
    TypeShape::Path { qself: None, leading_colon: false, segments: seq![ident], args: seq![] }
}

/// `marker<inner>`, unqualified.
pub open spec fn wrapped_shape(marker: Seq<char>, inner: TypeShape) -> TypeShape {
    TypeShape::Path {
        qself: None,
        leading_colon: false,
        segments: seq![marker],
        args: seq![inner],
    }
}

/// `t` is exactly the owned-text type: `String`, unqualified, with no
/// generic arguments.
pub open spec fn is_owned_text(t: TypeShape) -> bool {
    t == bare_shape(owned_text_marker())
}

/// `t` is `marker<x>` for a single generic argument `x` that is a type,
/// unqualified.
pub open spec fn is_wrapper(t: TypeShape, marker: Seq<char>) -> bool {
    match t {
        TypeShape::Path { qself, leading_colon, segments, args } => {
            &&& qself is None
            &&& !leading_colon
            &&& segments == seq![marker]
            &&& args.len() == 1
            &&& !(args[0] is NonType)
        },
        _ => false,
    }
}

/// The full mapping; `None` where a shape that is not a named path is reached.
pub open spec fn map_shape(t: TypeShape) -> Option<TypeShape>
    decreases t,
{
    match t {
        TypeShape::Path { segments, args, .. } => {
            if is_owned_text(t) {
                Some(TypeShape::BorrowedText)
            } else if is_wrapper(t, optional_marker()) {
                match map_shape(args[0]) {
                    Some(m) => Some(wrapped_shape(optional_marker(), m)),
                    None => None,
                }
            } else if is_wrapper(t, sequence_marker()) {
                match map_shape(args[0]) {
                    Some(m) => Some(TypeShape::BorrowedSlice(Box::new(m))),
                    None => None,
                }
            } else if segments.len() > 0 {
                Some(bare_shape(segments.last()))
            } else {
                None
            }
        },
        _ => None,
    }
}

/// The shallow mapping: only owned text is rewritten.
pub open spec fn shallow_shape(t: TypeShape) -> TypeShape {
    if is_owned_text(t) {
        TypeShape::BorrowedText
    } else {
        t
    }
}

/// The mapping that `strategy` selects.
pub open spec fn map_with(t: TypeShape, strategy: MappingStrategy) -> Option<TypeShape> {
    match strategy {
        MappingStrategy::Full => map_shape(t),
        MappingStrategy::Shallow => Some(shallow_shape(t)),
    }
}

/// The shape of an optional type expression.
pub open spec fn opt_shape(o: Option<TypeExpr>) -> Option<TypeShape> {
    match o {
        Some(t) => Some(t@),
        None => None,
    }
}

fn ident_is(s: &String, marker: &str) -> (r: bool)
    ensures
        r == (s@ == marker@),
{
    let m = marker.to_owned();
    *s == m
}

proof fn lemma_single_segment(segments: Vec<String>, marker: Seq<char>)
    ensures
        segments@.map_values(|s: String| s@) == seq![marker] <==> (segments@.len() == 1
            && segments@[0]@ == marker),
{
    if segments@.len() == 1 && segments@[0]@ == marker {
        assert(segments@.map_values(|s: String| s@) =~= seq![marker]);
    }
    if segments@.map_values(|s: String| s@) == seq![marker] {
        assert(segments@.map_values(|s: String| s@).len() == segments@.len());
        assert(segments@.map_values(|s: String| s@)[0] == marker);
    }
}

fn is_owned_text_expr(ty: &TypeExpr) -> (r: bool)
    ensures
        r == is_owned_text(ty@),
{
    proof {
        reveal_strlit("String");
        assert("String"@ =~= owned_text_marker());
    }
    match ty {
        TypeExpr::Path { qself, leading_colon, segments, args } => {
            proof {
                lemma_single_segment(*segments, owned_text_marker());
                assert(ty@->Path_qself == opt_chars(*qself));
                assert(ty@ is Path);
                assert(ty@->Path_args.len() == args.len());
                assert(ty@->Path_leading_colon == *leading_colon);
                assert(ty@->Path_segments == segments@.map_values(|s: String| s@));
                if args.len() == 0 {
                    assert(ty@->Path_args =~= Seq::<TypeShape>::empty());
                }
            }
            qself.is_none() && !*leading_colon && segments.len() == 1 && ident_is(
                &segments[0],
                "String",
            ) && args.len() == 0
        },
        _ => false,
    }
}

/// The single generic argument of `ty` where `ty` is `outer_type<x>`.
fn extract_type_from_option<'a>(ty: &'a TypeExpr, outer_type: &str) -> (r: Option<&'a TypeExpr>)
    ensures
        r is Some <==> is_wrapper(ty@, outer_type@),
        r matches Some(inner) ==> (*ty is Path && *inner == ty->Path_args@[0] && ty@->Path_args[0]
            == inner@),
{
    match ty {
        TypeExpr::Path { qself, leading_colon, segments, args } => {
            proof {
                lemma_single_segment(*segments, outer_type@);
                assert(ty@->Path_qself == opt_chars(*qself));
                if args.len() == 1 {
                    assert(ty@->Path_args[0] == args@[0]@);
                }
            }
            if qself.is_none() && !*leading_colon && segments.len() == 1 && ident_is(
                &segments[0],
                outer_type,
            ) && args.len() == 1 && !matches!(args[0], TypeExpr::NonType(_)) {
                Some(&args[0])
            } else {
                None
            }
        },
        _ => None,
    }
}

fn wrap_optional(inner: TypeExpr) -> (r: TypeExpr)
    ensures
        r@ == wrapped_shape(optional_marker(), inner@),
{
    proof {
        reveal_strlit("Option");
        assert("Option"@ =~= optional_marker());
    }
    let ghost g = inner;
    let r = TypeExpr::Path {
        qself: None,
        leading_colon: false,
        segments: vec!["Option".to_owned()],
        args: vec![inner],
    };
    assert(r@ == wrapped_shape(optional_marker(), g@)) by {
        if let TypeExpr::Path { segments, .. } = r {
            lemma_single_segment(segments, optional_marker());
        }
        if let TypeShape::Path { args, .. } = r@ {
            assert(args =~= seq![g@]);
        }
    }
    r
}

/// The full mapping of a stored type: `None` where the type, or the argument
/// of a wrapper inside it, is not a named path.
pub fn map_fn_common_arg_return_type(ty: &TypeExpr) -> (r: Option<TypeExpr>)
    ensures
        opt_shape(r) == map_shape(ty@),
    decreases ty,
{
    proof {
        reveal_strlit("Option");
        reveal_strlit("Vec");
        assert("Option"@ =~= optional_marker());
        assert("Vec"@ =~= sequence_marker());
    }
    if is_owned_text_expr(ty) {
        Some(TypeExpr::BorrowedText)
    } else if let Some(inner) = extract_type_from_option(ty, "Option") {
        proof {
            assert(decreases_to!(*ty => ty->Path_args));
            vstd::std_specs::vec::axiom_vec_index_decreases(ty->Path_args, 0);
        }
        match map_fn_common_arg_return_type(inner) {
            Some(m) => Some(wrap_optional(m)),
            None => None,
        }
    } else if let Some(inner) = extract_type_from_option(ty, "Vec") {
        proof {
            assert(decreases_to!(*ty => ty->Path_args));
            vstd::std_specs::vec::axiom_vec_index_decreases(ty->Path_args, 0);
        }
        match map_fn_common_arg_return_type(inner) {
            Some(m) => Some(TypeExpr::BorrowedSlice(Box::new(m))),
            None => None,
        }
    } else {
        match ty {
            TypeExpr::Path { segments, .. } => {
                if segments.len() > 0 {
                    let last = segments[segments.len() - 1].clone();
                    Some(TypeExpr::bare(last))
                } else {
                    None
                }
            },
            _ => None,
        }
    }
}

/// The mapping that `strategy` selects; `None` where it finds the type
/// unmappable.
fn map_signature_type(ty: &TypeExpr, strategy: MappingStrategy) -> (r: Option<TypeExpr>)
    ensures
        opt_shape(r) == map_with(ty@, strategy),
{
    match strategy {
        MappingStrategy::Full => map_fn_common_arg_return_type(ty),
        MappingStrategy::Shallow => {
            if is_owned_text_expr(ty) {
                Some(TypeExpr::BorrowedText)
            } else {
                Some(ty.duplicate())
            }
        },
    }
}

/// The type that a generated setter takes for a field stored as `ty`.
pub fn map_fn_arg_type(ty: &TypeExpr, strategy: MappingStrategy) -> (r: Option<TypeExpr>)
    ensures
        opt_shape(r) == map_with(ty@, strategy),
{
    map_signature_type(ty, strategy)
}

/// The type that a generated getter returns for a field stored as `ty`.
pub fn map_fn_return_type(ty: &TypeExpr, strategy: MappingStrategy) -> (r: Option<TypeExpr>)
    ensures
        opt_shape(r) == map_with(ty@, strategy),
{
    map_signature_type(ty, strategy)
}

/// A bare identifier other than the owned-text one maps to itself, so the
/// result of mapping a plain named path is a fixed point of the mapping.
pub proof fn lemma_bare_name_fixed_point(t: TypeShape)
    requires
        t is Path,
        !is_owned_text(t),
        !is_wrapper(t, optional_marker()),
        !is_wrapper(t, sequence_marker()),
        t->Path_segments.len() > 0,
        t->Path_segments.last() != owned_text_marker(),
    ensures
        map_shape(t) == Some(bare_shape(t->Path_segments.last())),
        map_shape(map_shape(t)->0) == map_shape(t),
{
    let b = bare_shape(t->Path_segments.last());
    assert(!is_owned_text(b)) by {
        if is_owned_text(b) {
            assert(b->Path_segments[0] == owned_text_marker());
        }
    }
    assert(!is_wrapper(b, optional_marker()));
    assert(!is_wrapper(b, sequence_marker()));
    assert(b->Path_segments.last() == t->Path_segments.last());
}

/// Owned text maps to borrowed text, whichever the strategy.
pub proof fn lemma_owned_text_borrowed(strategy: MappingStrategy)
    ensures
        map_with(bare_shape(owned_text_marker()), strategy) == Some(TypeShape::BorrowedText),
{
}

/// An optional wrapper keeps its shape and its argument is mapped:
/// `Option<String>` becomes `Option<&str>`.
pub proof fn lemma_optional_mapped_inside(inner: TypeShape)
    requires
        map_shape(inner) is Some,
    ensures
        map_shape(wrapped_shape(optional_marker(), inner)) == Some(
            wrapped_shape(optional_marker(), map_shape(inner)->0),
        ),
        map_shape(wrapped_shape(optional_marker(), bare_shape(owned_text_marker()))) == Some(
            wrapped_shape(optional_marker(), TypeShape::BorrowedText),
        ),
{
    let w = wrapped_shape(optional_marker(), inner);
    assert(!is_owned_text(w)) by {
        if is_owned_text(w) {
            assert(w->Path_segments[0] == owned_text_marker());
        }
    }
    assert(w->Path_args[0] == inner);
    let ws = wrapped_shape(optional_marker(), bare_shape(owned_text_marker()));
    assert(!is_owned_text(ws)) by {
        if is_owned_text(ws) {
            assert(ws->Path_segments[0] == owned_text_marker());
        }
    }
    assert(ws->Path_args[0] == bare_shape(owned_text_marker()));
    assert(map_shape(bare_shape(owned_text_marker())) == Some(TypeShape::BorrowedText));
}

/// A sequence wrapper becomes a borrowed slice of its mapped argument:
/// `Vec<String>` becomes `&[&str]`.
pub proof fn lemma_sequence_becomes_slice(inner: TypeShape)
    requires
        map_shape(inner) is Some,
    ensures
        map_shape(wrapped_shape(sequence_marker(), inner)) == Some(
            TypeShape::BorrowedSlice(Box::new(map_shape(inner)->0)),
        ),
        map_shape(wrapped_shape(sequence_marker(), bare_shape(owned_text_marker()))) == Some(
            TypeShape::BorrowedSlice(Box::new(TypeShape::BorrowedText)),
        ),
{
    let w = wrapped_shape(sequence_marker(), inner);
    assert(!is_owned_text(w)) by {
        if is_owned_text(w) {
            assert(w->Path_segments[0] == owned_text_marker());
        }
    }
    assert(!is_wrapper(w, optional_marker())) by {
        if is_wrapper(w, optional_marker()) {
            assert(w->Path_segments[0] == optional_marker());
        }
    }
    assert(w->Path_args[0] == inner);
    let ws = wrapped_shape(sequence_marker(), bare_shape(owned_text_marker()));
    assert(!is_owned_text(ws)) by {
        if is_owned_text(ws) {
            assert(ws->Path_segments[0] == owned_text_marker());
        }
    }
    assert(!is_wrapper(ws, optional_marker())) by {
        if is_wrapper(ws, optional_marker()) {
            assert(ws->Path_segments[0] == optional_marker());
        }
    }
    assert(ws->Path_args[0] == bare_shape(owned_text_marker()));
    assert(map_shape(bare_shape(owned_text_marker())) == Some(TypeShape::BorrowedText));
}

/// Any other named path maps to the bare identifier of its last segment,
/// without qualification or generic arguments.
pub proof fn lemma_other_path_last_identifier(t: TypeShape)
    requires
        t is Path,
        t->Path_segments.len() > 0,
        !is_owned_text(t),
        !is_wrapper(t, optional_marker()),
        !is_wrapper(t, sequence_marker()),
    ensures
        map_shape(t) == Some(bare_shape(t->Path_segments.last())),
{
}

} // verus!
