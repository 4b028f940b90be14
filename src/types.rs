//! The structural description of types and visibilities that the mapper and
//! the synthesizer work on.
use vstd::prelude::*;

verus! {

/// Visibility of an aggregate, a field or a generated function.
#[derive(Clone, Copy, Debug, PartialEq, Eq, Structural)]
pub enum Visibility {
    Private,
    Crate,
    Public,
}

/// The mathematical shape of a type expression.
pub enum TypeShape {
    Path {
        qself: Option<Seq<char>>,
        leading_colon: bool,
        segments: Seq<Seq<char>>,
        args: Seq<TypeShape>,
    },
    BorrowedText,
    BorrowedSlice(Box<TypeShape>),
    NonType(Seq<char>),
    Other(Seq<char>),
}

/// A type expression.
///
/// `Path` is a named path such as `std::collections::HashMap<K, V>`: its
/// segments in order, with the generic arguments of the last segment in
/// `args`. A path with a qualified self, such as `<T as Trait>::Item`, holds
/// the prefix `<T as Trait>` as source text in `qself` and the segments after
/// it in `segments`.
///
/// `BorrowedText` is `&str` and `BorrowedSlice(t)` is `&[t]`.
///
/// `NonType` is a generic argument that is not a type (a lifetime, a const,
/// an associated binding), as source text; it stands only in `args`.
///
/// `Other` holds, as source text, a type whose shape is not a named path
/// (a reference, a tuple, an array, a function pointer).
#[derive(Debug, PartialEq, Eq)]
pub enum TypeExpr {
    Path {
        qself: Option<String>,
        leading_colon: bool,
        segments: Vec<String>,
        args: Vec<TypeExpr>,
    },
    BorrowedText,
    BorrowedSlice(Box<TypeExpr>),
    NonType(String),
    Other(String),
}

/// The characters of an optional string.
pub open spec fn opt_chars(s: Option<String>) -> Option<Seq<char>> {
    match s {
        Some(t) => Some(t@),
        None => None,
    }
}

/// The shape of a type expression, with each string seen as its characters.
pub open spec fn shape_of(t: TypeExpr) -> TypeShape
    decreases t,
    via shape_of_decreases
{
    match t {
        TypeExpr::Path { qself, leading_colon, segments, args } => TypeShape::Path {
            qself: opt_chars(qself),
            leading_colon,
            segments: segments@.map_values(|s: String| s@),
            args: Seq::new(
                args.len() as nat,
                |i: int|
                    if 0 <= i < args.len() {
                        shape_of(args[i])
                    } else {
                        TypeShape::BorrowedText
                    },
            ),
        },
        TypeExpr::BorrowedText => TypeShape::BorrowedText,
        TypeExpr::BorrowedSlice(b) => TypeShape::BorrowedSlice(Box::new(shape_of(*b))),
        TypeExpr::NonType(s) => TypeShape::NonType(s@),
        TypeExpr::Other(s) => TypeShape::Other(s@),
    }
}

#[via_fn]
proof fn shape_of_decreases(t: TypeExpr) {
    broadcast use vstd::std_specs::vec::axiom_vec_index_decreases;

}

impl View for TypeExpr {
    type V = TypeShape;

    open spec fn view(&self) -> TypeShape {
        shape_of(*self)
    }
}

/// Copies a list of strings, element by element.
fn copy_strings(v: &Vec<String>) -> (r: Vec<String>)
    ensures
        r@.map_values(|s: String| s@) == v@.map_values(|s: String| s@),
{
    let mut r: Vec<String> = Vec::new();
    let mut i: usize = 0;
    while i < v.len()
        invariant
            i <= v.len(),
            r@.len() == i,
            forall|j: int| 0 <= j < i ==> r@[j]@ == v@[j]@,
        decreases v.len() - i,
    {
        r.push(v[i].clone());
        i = i + 1;
    }
    assert(r@.map_values(|s: String| s@) =~= v@.map_values(|s: String| s@));
    r
}

impl TypeExpr {
    /// The named path `ident` alone: one segment, no leading `::`, no
    /// generic arguments.
    pub fn bare(ident: String) -> (r: TypeExpr)
        ensures
            r@ == (TypeShape::Path {
                qself: None,
                leading_colon: false,
                segments: seq![ident@],
                args: seq![],
            }),
    {
        let r = TypeExpr::Path {
            qself: None,
            leading_colon: false,
            segments: vec![ident],
            args: Vec::new(),
        };
        assert(r@ == (TypeShape::Path {
            qself: None,
            leading_colon: false,
            segments: seq![ident@],
            args: seq![],
        })) by {
            if let TypeExpr::Path { segments, args, .. } = r {
                assert(segments@.map_values(|s: String| s@) =~= seq![ident@]);
            }
            if let TypeShape::Path { args, .. } = r@ {
                assert(args =~= Seq::<TypeShape>::empty());
            }
        }
        r
    }

    /// A copy of this type expression, with the same shape.
    pub fn duplicate(&self) -> (r: TypeExpr)
        ensures
            r@ == self@,
        decreases self,
    {
        match self {
            TypeExpr::Path { qself, leading_colon, segments, args } => {
                let mut new_args: Vec<TypeExpr> = Vec::new();
                let mut i: usize = 0;
                assert(decreases_to!(*self => self->Path_args));
                while i < args.len()
                    invariant
                        decreases_to!(*self => *args),
                        i <= args.len(),
                        new_args@.len() == i,
                        forall|j: int| 0 <= j < i ==> new_args@[j]@ == args@[j]@,
                    decreases args.len() - i,
                {
                    proof {
                        vstd::std_specs::vec::axiom_vec_index_decreases(*args, i as int);
                    }
                    new_args.push(args[i].duplicate());
                    i = i + 1;
                }
                let new_qself = match qself {
                    Some(q) => Some(q.clone()),
                    None => None,
                };
                let r = TypeExpr::Path {
                    qself: new_qself,
                    leading_colon: *leading_colon,
                    segments: copy_strings(segments),
                    args: new_args,
                };
                assert(r@ == self@) by {
                    if let TypeShape::Path { args: ra, .. } = r@ {
                        if let TypeShape::Path { args: sa, .. } = self@ {
                            assert(ra =~= sa);
                        }
                    }
                }
                r
            },
            TypeExpr::BorrowedText => TypeExpr::BorrowedText,
            TypeExpr::BorrowedSlice(b) => TypeExpr::BorrowedSlice(Box::new((**b).duplicate())),
            TypeExpr::NonType(s) => TypeExpr::NonType(s.clone()),
            TypeExpr::Other(s) => TypeExpr::Other(s.clone()),
        }
    }
}

} // verus!
