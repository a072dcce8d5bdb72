//! Shape tests on target-language fragments. They look at syntax only: none
//! consults type guidance and none changes anything.

use vstd::prelude::*;
use crate::target::Expr;
use crate::target::ExprView;
use crate::target::Lit;
use crate::target::LitView;
use crate::target::Path;
use crate::target::PathView;
use crate::target::Type;
use crate::target::TypeView;
use crate::text::str_eq;

verus! {

/// Whether `path` has exactly one segment, named `a`.
pub open spec fn path_is_exactly_1(path: PathView, a: Seq<char>) -> bool {
    path.segments.len() == 1 && path.segments[0].ident == a
}

/// Whether `path` has exactly two segments, named `a` and `b` in this order.
pub open spec fn path_is_exactly_2(path: PathView, a: Seq<char>, b: Seq<char>) -> bool {
    path.segments.len() == 2 && path.segments[0].ident == a && path.segments[1].ident == b
}

/// Whether `path` names a scalar type known to occupy one byte: `u8`, `i8`,
/// `bool`, `char`, or the platform character alias `libc::c_char`.
pub open spec fn known_size_1_path(path: PathView) -> bool {
    if path.segments.len() == 1 {
        let name = path.segments[0].ident;
        name == "u8"@ || name == "i8"@ || name == "bool"@ || name == "char"@
    } else {
        path_is_exactly_2(path, "libc"@, "c_char"@)
    }
}

/// Whether `ty` is a path type that names a scalar type known to occupy one
/// byte.
pub open spec fn known_size_1_type(ty: TypeView) -> bool {
    ty matches TypeView::Path(path) && known_size_1_path(path)
}

/// The path of a path expression, with or without an explicit self type; no
/// other expression has one.
pub open spec fn get_path(e: ExprView) -> Option<PathView> {
    match e {
        ExprView::Path(path) => Some(path),
        ExprView::QualifiedPath { path, .. } => Some(path),
        _ => None,
    }
}

/// Whether `e` is a path expression of the single segment `ident`. An explicit
/// self type is not looked at.
pub open spec fn is_ident(e: ExprView, ident: Seq<char>) -> bool {
    get_path(e) matches Some(path) && path_is_exactly_1(path, ident)
}

/// Whether `e` is a character literal.
pub open spec fn is_lit_char(e: ExprView) -> bool {
    e matches ExprView::Lit(LitView::Char(_))
}

/// `e` without its outer casts and type ascriptions: the first node, going
/// inward, that is neither.
pub open spec fn strip_casts(e: ExprView) -> ExprView
    decreases e,
{
    match e {
        ExprView::Cast { expr, .. } => strip_casts(*expr),
        ExprView::Ascription { expr, .. } => strip_casts(*expr),
        _ => e,
    }
}

/// Whether `e` is a cast or a type ascription.
pub open spec fn is_cast_wrapper(e: ExprView) -> bool {
    e is Cast || e is Ascription
}

/// Stripping ends on a node that is no wrapper, and leaves such a node as it is.
pub proof fn lemma_strip_casts_reaches_core(e: ExprView)
    ensures
        !is_cast_wrapper(strip_casts(e)),
        !is_cast_wrapper(e) ==> strip_casts(e) == e,
        strip_casts(strip_casts(e)) == strip_casts(e),
    decreases e,
{
    match e {
        ExprView::Cast { expr, .. } => lemma_strip_casts_reaches_core(*expr),
        ExprView::Ascription { expr, .. } => lemma_strip_casts_reaches_core(*expr),
        _ => {},
    }
}

/// Whether `path` has exactly one segment, named `a`.
pub fn is_path_exactly_1(path: &Path, a: &str) -> (r: bool)
    ensures
        r == path_is_exactly_1(path@, a@),
{
    if path.segments.len() == 1 {
        str_eq(path.segments[0].ident.as_str(), a)
    } else {
        false
    }
}

/// Whether `path` has exactly two segments, named `a` and `b` in this order.
pub fn is_path_exactly_2(path: &Path, a: &str, b: &str) -> (r: bool)
    ensures
        r == path_is_exactly_2(path@, a@, b@),
{
    if path.segments.len() == 2 {
        str_eq(path.segments[0].ident.as_str(), a) && str_eq(path.segments[1].ident.as_str(), b)
    } else {
        false
    }
}

/// Whether `path` names a scalar type known to occupy one byte.
pub fn is_known_size_1_path(path: &Path) -> (r: bool)
    ensures
        r == known_size_1_path(path@),
{
    if path.segments.len() == 1 {
        let name = path.segments[0].ident.as_str();
        str_eq(name, "u8") || str_eq(name, "i8") || str_eq(name, "bool") || str_eq(name, "char")
    } else if path.segments.len() == 2 {
        is_path_exactly_2(path, "libc", "c_char")
    } else {
        false
    }
}

/// Whether `ty` is a path type that names a scalar type known to occupy one
/// byte.
pub fn is_known_size_1_type(ty: &Type) -> (r: bool)
    ensures
        r == known_size_1_type(ty@),
{
    match ty {
        Type::Path(path) => is_known_size_1_path(path),
        _ => false,
    }
}

/// The path of a path expression.
pub fn expr_get_path(expr: &Expr) -> (r: Option<&Path>)
    ensures
        match r {
            Some(p) => get_path(expr@) == Some(p@),
            None => get_path(expr@) is None,
        },
{
    match expr {
        Expr::Path(path) => Some(path),
        Expr::QualifiedPath { path, .. } => Some(path),
        _ => None,
    }
}

/// Whether `expr` is a path of the single segment `ident`.
pub fn expr_is_ident(expr: &Expr, ident: &str) -> (r: bool)
    ensures
        r == is_ident(expr@, ident@),
{
    match expr {
        Expr::Path(path) => is_path_exactly_1(path, ident),
        Expr::QualifiedPath { path, .. } => is_path_exactly_1(path, ident),
        _ => false,
    }
}

/// Whether `expr` is a character literal.
pub fn expr_is_lit_char(expr: &Expr) -> (r: bool)
    ensures
        r == is_lit_char(expr@),
{
    match expr {
        Expr::Lit(Lit::Char(_)) => true,
        _ => false,
    }
}

/// `expr` without its outer casts and type ascriptions. No other kind of node
/// is looked through.
pub fn expr_strip_casts(expr: &Expr) -> (r: &Expr)
    ensures
        r@ == strip_casts(expr@),
        !is_cast_wrapper(r@),
{
    proof {
        lemma_strip_casts_reaches_core(expr@);
    }
    let mut ep = expr;
    loop
        invariant
            strip_casts(ep@) == strip_casts(expr@),
        ensures
            ep@ == strip_casts(expr@),
        decreases ep,
    {
        match ep {
            Expr::Cast { expr: inner, .. } => {
                ep = inner;
            },
            Expr::Ascription { expr: inner, .. } => {
                ep = inner;
            },
            _ => {
                break ;
            },
        }
    }
    ep
}

} // verus!
