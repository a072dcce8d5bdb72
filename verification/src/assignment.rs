//! The assignment idiom: a string shortened by one through index arithmetic,
//! `s[strlen(s) - 1] = 0`, which for a buffer guided to be an owned string is
//! the removal of its last character.

use vstd::prelude::*;
use crate::c_ast::AstView;
use crate::c_ast::BinOp;
use crate::c_ast::CExprId;
use crate::c_ast::CExprKind;
use crate::c_ast::CExprKindView;
use crate::guidance::GuidanceView;
use crate::target::Expr;
use crate::target::ExprView;
use crate::text::owned;
use crate::text::str_eq;
use crate::translation::callee_name;
use crate::translation::expr_decl_id;
use crate::translation::is_integral_lit;
use crate::translation::strip_implicit_casts;
use crate::translation::strip_integral_cast;
use crate::translation::Translation;

verus! {

/// An assignment that a recognizer matched, with the C expression whose
/// conversion the replacement is built from.
#[derive(Debug, Clone, Copy, PartialEq, Eq, Structural)]
pub enum AssignmentIdiom {
    /// `base[strlen(base) - 1] = 0` on a buffer guided to be a `String`;
    /// `base` is to be converted in the context of the assignment.
    StringPop { base: CExprId },
}

/// Whether `index` is the length of the string `base` minus one: a
/// subtraction of the literal one from a call of `strlen` on one argument that
/// refers to the same declaration as `base`.
pub open spec fn indexes_last_char(ast: AstView, base: CExprId, index: CExprId) -> bool {
    &&& ast.kind(index) matches CExprKindView::Binary(BinOp::Subtract, sub_lhs, sub_rhs)
    &&& is_integral_lit(ast, strip_integral_cast(ast, sub_rhs), 1)
    &&& ast.kind(sub_lhs) matches CExprKindView::Call(callee, args)
    &&& callee_name(ast, callee) == Some("strlen"@)
    &&& args.len() == 1
    &&& expr_decl_id(ast, args[0]) == expr_decl_id(ast, base)
}

/// The base of the string that the assignment `lhs = rhs` shortens by one, if
/// it is such an assignment:
/// - the operator is plain assignment and the right side, without an integral
///   cast, is the literal zero;
/// - the left side is a subscript whose index is the length of its base minus
///   one; and
/// - the base refers to a declaration that is guided to be a `String`.
pub open spec fn string_pop(
    ast: AstView,
    guidance: GuidanceView,
    op: BinOp,
    lhs: CExprId,
    rhs: CExprId,
) -> Option<CExprId> {
    if op == BinOp::Assign && is_integral_lit(ast, strip_integral_cast(ast, rhs), 0) && (ast.kind(
        lhs,
    ) matches CExprKindView::ArraySubscript(base, index) && indexes_last_char(ast, base, index)
        && (expr_decl_id(ast, base) matches Some(decl) && guidance.guides(decl, "String"@))) {
        Some(strip_implicit_casts(ast, ast.kind(lhs)->ArraySubscript_0))
    } else {
        None
    }
}

/// The idiom that the assignment `lhs = rhs` is, if it is one.
pub open spec fn assignment_idiom(
    ast: AstView,
    guidance: GuidanceView,
    op: BinOp,
    lhs: CExprId,
    rhs: CExprId,
) -> Option<AssignmentIdiom> {
    match string_pop(ast, guidance, op, lhs, rhs) {
        Some(base) => Some(AssignmentIdiom::StringPop { base }),
        None => None,
    }
}

/// The call that removes the last character of `target`.
pub open spec fn pop_call(target: ExprView) -> ExprView {
    ExprView::MethodCall { receiver: Box::new(target), method: "pop"@, args: Seq::empty() }
}

/// The replacement for an assignment idiom, given the conversion of the
/// expression it asked for.
pub open spec fn assignment_replacement(idiom: AssignmentIdiom, converted: ExprView) -> ExprView {
    match idiom {
        AssignmentIdiom::StringPop { .. } => pop_call(converted),
    }
}

impl AssignmentIdiom {
    /// The C expression to convert, in the context of the assignment, before
    /// the replacement can be built.
    pub fn operand(&self) -> (r: CExprId)
        ensures
            r == self->base,
    {
        match self {
            AssignmentIdiom::StringPop { base } => *base,
        }
    }

    /// The replacement for the assignment, given the conversion of
    /// [`operand`](Self::operand).
    pub fn replacement(&self, converted: Expr) -> (r: Expr)
        ensures
            r@ == assignment_replacement(*self, converted@),
    {
        match self {
            AssignmentIdiom::StringPop { .. } => {
                let r = Expr::MethodCall {
                    receiver: Box::new(converted),
                    method: owned("pop"),
                    args: Vec::new(),
                };
                proof {
                    crate::target::lemma_model_of_args(r);
                    assert(r@->MethodCall_args =~= Seq::<ExprView>::empty());
                }
                r
            },
        }
    }
}

impl Translation {
    /// Recognizes the idiom that an assignment is, if it is one. A failed
    /// match changes nothing: the context is only read.
    pub fn recognize_c_assignment_cases(&self, op: BinOp, lhs: CExprId, rhs: CExprId) -> (r: Option<
        AssignmentIdiom,
    >)
        requires
            self.ast_context@.has_expr(lhs),
            self.ast_context@.has_expr(rhs),
        ensures
            r == assignment_idiom(self.ast_context@, self.parsed_guidance@, op, lhs, rhs),
            r matches Some(idiom) ==> self.ast_context@.has_expr(idiom->base),
    {
        match self.recognize_c_assignment_string_pop(op, lhs, rhs) {
            Some(base) => Some(AssignmentIdiom::StringPop { base }),
            None => None,
        }
    }

    /// Recognizes `s[strlen(s) - 1] = 0` where `s` is guided to be a `String`,
    /// and returns the base `s` to convert.
    pub fn recognize_c_assignment_string_pop(&self, op: BinOp, lhs: CExprId, rhs: CExprId) -> (r:
        Option<CExprId>)
        requires
            self.ast_context@.has_expr(lhs),
            self.ast_context@.has_expr(rhs),
        ensures
            r == string_pop(self.ast_context@, self.parsed_guidance@, op, lhs, rhs),
            r matches Some(base) ==> self.ast_context@.has_expr(base),
    {
        if op != BinOp::Assign {
            return None;
        }
        if !self.is_integral_lit(self.strip_integral_cast(rhs), 0) {
            return None;
        }
        if let CExprKind::ArraySubscript(raw_base, index) = self.ast_context.index(lhs) {
            if let CExprKind::Binary(BinOp::Subtract, sub_lhs, sub_rhs) = self.ast_context.index(
                *index,
            ) {
                if !self.is_integral_lit(self.strip_integral_cast(*sub_rhs), 1) {
                    return None;
                }
                if let Some(base_decl_id) = self.c_expr_decl_id(*raw_base) {
                    if !self.parsed_guidance.is_guided_as(base_decl_id, "String") {
                        return None;
                    }
                } else {
                    return None;
                }
                if let CExprKind::Call(callee_raw, args) = self.ast_context.index(*sub_lhs) {
                    if let Some(name) = self.c_expr_callee_name(*callee_raw) {
                        if !str_eq(name, "strlen") {
                            return None;
                        }
                        if args.len() == 1 {
                            assert(self.ast_context@.has_expr(args[0]));
                            if self.c_expr_decl_id(args[0]) == self.c_expr_decl_id(*raw_base) {
                                return Some(self.c_strip_implicit_casts(*raw_base));
                            }
                        }
                    }
                }
            }
        }
        None
    }
}

} // verus!
