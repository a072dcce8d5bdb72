//! The context of one translation pass, and what the recognizers ask of the C
//! syntax tree: the declaration an expression refers to, the value of a
//! literal, the operand of an address-of.

use vstd::prelude::*;
use crate::c_ast::AstView;
use crate::c_ast::CDeclId;
use crate::c_ast::CDeclKind;
use crate::c_ast::CDeclKindView;
use crate::c_ast::CExprId;
use crate::c_ast::CExprKind;
use crate::c_ast::CExprKindView;
use crate::c_ast::CLiteral;
use crate::c_ast::CLiteralView;
use crate::c_ast::CastKind;
use crate::c_ast::TypedAstContext;
use crate::c_ast::UnOp;
use crate::guided::option_view;
use crate::guidance::GuidanceView;
use crate::guidance::ParsedGuidance;
use crate::guidance::TypeOverrides;
use crate::guided::GuidedType;
use crate::guided::GuidedTypeView;
use crate::registry::ItemStore;
use crate::text::str_eq;

verus! {

/// `expr` without its outer implicit casts.
pub open spec fn strip_implicit_casts(ast: AstView, expr: CExprId) -> CExprId
    decreases expr.0,
{
    if ast.has_expr(expr) {
        match ast.kind(expr) {
            CExprKindView::ImplicitCast(inner, _) => if inner.0 < expr.0 {
                strip_implicit_casts(ast, inner)
            } else {
                expr
            },
            _ => expr,
        }
    } else {
        expr
    }
}

/// `expr` without its outer implicit cast, where that is an integral cast.
pub open spec fn strip_integral_cast(ast: AstView, expr: CExprId) -> CExprId {
    match ast.kind(expr) {
        CExprKindView::ImplicitCast(inner, CastKind::IntegralCast) => inner,
        _ => expr,
    }
}

/// `expr` without its outer implicit cast, where that is the decay of an array
/// to a pointer.
pub open spec fn strip_array_to_pointer_cast(ast: AstView, expr: CExprId) -> CExprId {
    match ast.kind(expr) {
        CExprKindView::ImplicitCast(inner, CastKind::ArrayToPointerDecay) => inner,
        _ => expr,
    }
}

/// Whether `expr` is an integer or character literal of the value `val`.
pub open spec fn is_integral_lit(ast: AstView, expr: CExprId, val: u64) -> bool {
    match ast.kind(expr) {
        CExprKindView::Literal(CLiteralView::Integer(v)) => v == val,
        CExprKindView::Literal(CLiteralView::Character(v)) => v == val,
        _ => false,
    }
}

/// The string literal that `expr` is.
pub open spec fn string_lit(ast: AstView, expr: CExprId) -> Option<CLiteralView> {
    match ast.kind(expr) {
        CExprKindView::Literal(lit) => if lit is String {
            Some(lit)
        } else {
            None
        },
        _ => None,
    }
}

/// The declaration that `expr` refers to, once its implicit casts are
/// stripped.
pub open spec fn expr_decl_id(ast: AstView, expr: CExprId) -> Option<CDeclId> {
    match ast.kind(strip_implicit_casts(ast, expr)) {
        CExprKindView::DeclRef(decl) => Some(decl),
        _ => None,
    }
}

/// The variable that `expr` refers to, once its implicit casts are stripped.
pub open spec fn var_decl_id(ast: AstView, expr: CExprId) -> Option<CDeclId> {
    match expr_decl_id(ast, expr) {
        Some(decl) => if ast.decl(decl) is Variable {
            Some(decl)
        } else {
            None
        },
        None => None,
    }
}

/// Whether `expr` refers to a variable named `name`.
pub open spec fn is_var_ident(ast: AstView, expr: CExprId, name: Seq<char>) -> bool {
    var_decl_id(ast, expr) matches Some(decl) && ast.decl(decl)->ident == name
}

/// The bytes of the string literal that `expr` is, once its implicit casts are
/// stripped.
pub open spec fn str_lit_bytes(ast: AstView, expr: CExprId) -> Option<Seq<u8>> {
    match ast.kind(strip_implicit_casts(ast, expr)) {
        CExprKindView::Literal(CLiteralView::String(bytes, _)) => Some(bytes),
        _ => None,
    }
}

/// The operand of the address-of that `expr` is, once its implicit casts are
/// stripped.
pub open spec fn addr_of_operand(ast: AstView, expr: CExprId) -> Option<CExprId> {
    match ast.kind(strip_implicit_casts(ast, expr)) {
        CExprKindView::Unary(UnOp::AddressOf, operand) => Some(operand),
        _ => None,
    }
}

/// The name of the function that `expr` refers to, once its implicit casts are
/// stripped.
pub open spec fn callee_name(ast: AstView, expr: CExprId) -> Option<Seq<char>> {
    match ast.kind(strip_implicit_casts(ast, expr)) {
        CExprKindView::DeclRef(decl) => match ast.decl(decl) {
            CDeclKindView::Function { name, .. } => Some(name),
            _ => None,
        },
        _ => None,
    }
}

/// The guidance for each parameter of the function that the callee `func`
/// decays from: `func` is the decay to a pointer of a reference to a function
/// declaration.
pub open spec fn callee_arg_guidances(ast: AstView, guidance: GuidanceView, func: CExprId) -> Option<
    Seq<Option<GuidedTypeView>>,
> {
    match ast.kind(func) {
        CExprKindView::ImplicitCast(inner, CastKind::FunctionToPointerDecay) => match ast.kind(
            inner,
        ) {
            CExprKindView::DeclRef(decl) => match ast.decl(decl) {
                CDeclKindView::Function { parameters, .. } => Some(
                    parameters.map_values(|p: CDeclId| guidance.answer(p)),
                ),
                _ => None,
            },
            _ => None,
        },
        _ => None,
    }
}

/// Stripping implicit casts stays inside the tree and does not go up.
pub proof fn lemma_strip_implicit_casts_in_tree(ast: AstView, expr: CExprId)
    requires
        ast.has_expr(expr),
    ensures
        ast.has_expr(strip_implicit_casts(ast, expr)),
        strip_implicit_casts(ast, expr).0 <= expr.0,
        !(ast.well_formed() && ast.kind(strip_implicit_casts(ast, expr)) is ImplicitCast),
    decreases expr.0,
{
    match ast.kind(expr) {
        CExprKindView::ImplicitCast(inner, _) => {
            if inner.0 < expr.0 {
                lemma_strip_implicit_casts_in_tree(ast, inner);
            } else if ast.well_formed() {
                assert(crate::c_ast::operands_below(ast.exprs[expr.0 as int], expr.0 as int));
            }
        },
        _ => {},
    }
}

/// The context of one translation pass: the C syntax tree, the guidance
/// oracle, the registry of the output unit and the overrides of result types.
#[derive(Debug)]
pub struct Translation {
    pub ast_context: TypedAstContext,
    pub parsed_guidance: ParsedGuidance,
    pub items: ItemStore,
    pub type_overrides: TypeOverrides,
}

/// The mathematical value of a [`Translation`].
pub struct TranslationView {
    pub ast: AstView,
    pub guidance: GuidanceView,
    pub items: crate::registry::ItemStoreView,
    pub overrides: Map<crate::c_ast::CTypeId, GuidedTypeView>,
}

impl View for Translation {
    type V = TranslationView;

    open spec fn view(&self) -> TranslationView {
        TranslationView {
            ast: self.ast_context@,
            guidance: self.parsed_guidance@,
            items: self.items@,
            overrides: self.type_overrides@,
        }
    }
}

impl Translation {
    /// A context over `ast_context` and `parsed_guidance`, with nothing
    /// registered and nothing overridden.
    pub fn new(ast_context: TypedAstContext, parsed_guidance: ParsedGuidance) -> (r: Translation)
        ensures
            r.ast_context@ == ast_context@,
            r.parsed_guidance@ == parsed_guidance@,
            r.items@.items.len() == 0,
            r.items@.uses.len() == 0,
            r.items@.crates.len() == 0,
            r.type_overrides@ == Map::<crate::c_ast::CTypeId, GuidedTypeView>::empty(),
    {
        Translation {
            ast_context,
            parsed_guidance,
            items: ItemStore::new(),
            type_overrides: TypeOverrides::new(),
        }
    }

    /// `expr` without its outer implicit casts.
    pub fn c_strip_implicit_casts(&self, expr: CExprId) -> (r: CExprId)
        requires
            self.ast_context@.has_expr(expr),
        ensures
            r == strip_implicit_casts(self.ast_context@, expr),
            self.ast_context@.has_expr(r),
            !(self.ast_context@.kind(r) is ImplicitCast),
    {
        let mut ep = expr;
        loop
            invariant
                self.ast_context@.has_expr(ep),
                strip_implicit_casts(self.ast_context@, ep) == strip_implicit_casts(
                    self.ast_context@,
                    expr,
                ),
            ensures
                ep == strip_implicit_casts(self.ast_context@, expr),
                self.ast_context@.has_expr(ep),
                !(self.ast_context@.kind(ep) is ImplicitCast),
            decreases ep.0,
        {
            match self.ast_context.index(ep) {
                CExprKind::ImplicitCast(inner, _) => {
                    ep = *inner;
                },
                _ => {
                    break ;
                },
            }
        }
        ep
    }

    /// `expr` without its outer implicit cast, where that is an integral
    /// cast.
    pub fn strip_integral_cast(&self, expr: CExprId) -> (r: CExprId)
        requires
            self.ast_context@.has_expr(expr),
        ensures
            r == strip_integral_cast(self.ast_context@, expr),
            self.ast_context@.has_expr(r),
    {
        match self.ast_context.index(expr) {
            CExprKind::ImplicitCast(inner, CastKind::IntegralCast) => *inner,
            _ => expr,
        }
    }

    /// `expr` without its outer implicit cast, where that is the decay of an
    /// array to a pointer.
    pub fn strip_implicit_array_to_pointer_cast(&self, expr: CExprId) -> (r: CExprId)
        requires
            self.ast_context@.has_expr(expr),
        ensures
            r == strip_array_to_pointer_cast(self.ast_context@, expr),
            self.ast_context@.has_expr(r),
    {
        match self.ast_context.index(expr) {
            CExprKind::ImplicitCast(inner, CastKind::ArrayToPointerDecay) => *inner,
            _ => expr,
        }
    }

    /// Whether `expr` is an integer or character literal of the value `val`.
    pub fn is_integral_lit(&self, expr: CExprId, val: u64) -> (r: bool)
        requires
            self.ast_context@.has_expr(expr),
        ensures
            r == is_integral_lit(self.ast_context@, expr, val),
    {
        match self.ast_context.index(expr) {
            CExprKind::Literal(CLiteral::Integer(value)) => *value == val,
            CExprKind::Literal(CLiteral::Character(value)) => *value == val,
            _ => false,
        }
    }

    /// The string literal that `expr` is.
    pub fn get_string_lit(&self, expr: CExprId) -> (r: Option<&CLiteral>)
        requires
            self.ast_context@.has_expr(expr),
        ensures
            match r {
                Some(lit) => string_lit(self.ast_context@, expr) == Some(lit@),
                None => string_lit(self.ast_context@, expr) is None,
            },
    {
        match self.ast_context.index(expr) {
            CExprKind::Literal(clit) => match clit {
                CLiteral::String(_, _) => Some(clit),
                _ => None,
            },
            _ => None,
        }
    }

    /// The declaration that `expr` refers to, once its implicit casts are
    /// stripped.
    pub fn c_expr_decl_id(&self, expr: CExprId) -> (r: Option<CDeclId>)
        requires
            self.ast_context@.has_expr(expr),
        ensures
            r == expr_decl_id(self.ast_context@, expr),
            r matches Some(decl) ==> self.ast_context@.has_decl(decl),
    {
        match self.ast_context.index(self.c_strip_implicit_casts(expr)) {
            CExprKind::DeclRef(decl_id) => Some(*decl_id),
            _ => None,
        }
    }

    /// The variable that `expr` refers to, once its implicit casts are
    /// stripped.
    pub fn c_expr_get_var_decl_id(&self, expr: CExprId) -> (r: Option<CDeclId>)
        requires
            self.ast_context@.has_expr(expr),
        ensures
            r == var_decl_id(self.ast_context@, expr),
            r matches Some(decl) ==> self.ast_context@.has_decl(decl),
    {
        match self.c_expr_decl_id(expr) {
            Some(decl) => match self.ast_context.decl(decl) {
                CDeclKind::Variable { .. } => Some(decl),
                _ => None,
            },
            None => None,
        }
    }

    /// Whether `expr` refers to a variable named `name`.
    pub fn c_expr_is_var_ident(&self, expr: CExprId, name: &str) -> (r: bool)
        requires
            self.ast_context@.has_expr(expr),
        ensures
            r == is_var_ident(self.ast_context@, expr, name@),
    {
        match self.c_expr_decl_id(expr) {
            Some(decl) => match self.ast_context.decl(decl) {
                CDeclKind::Variable { ident } => str_eq(ident.as_str(), name),
                _ => false,
            },
            None => false,
        }
    }

    /// The bytes of the string literal that `expr` is, once its implicit casts
    /// are stripped.
    pub fn c_expr_get_str_lit_bytes(&self, expr: CExprId) -> (r: Option<&Vec<u8>>)
        requires
            self.ast_context@.has_expr(expr),
        ensures
            match r {
                Some(bytes) => str_lit_bytes(self.ast_context@, expr) == Some(bytes@),
                None => str_lit_bytes(self.ast_context@, expr) is None,
            },
    {
        match self.ast_context.index(self.c_strip_implicit_casts(expr)) {
            CExprKind::Literal(CLiteral::String(bytes, _)) => Some(bytes),
            _ => None,
        }
    }

    /// The operand of the address-of that `expr` is, once its implicit casts
    /// are stripped.
    pub fn c_expr_get_addr_of(&self, expr: CExprId) -> (r: Option<CExprId>)
        requires
            self.ast_context@.has_expr(expr),
        ensures
            r == addr_of_operand(self.ast_context@, expr),
            r matches Some(operand) ==> self.ast_context@.has_expr(operand),
    {
        match self.ast_context.index(self.c_strip_implicit_casts(expr)) {
            CExprKind::Unary(UnOp::AddressOf, operand) => Some(*operand),
            _ => None,
        }
    }

    /// The name of the function that `expr` refers to, once its implicit casts
    /// are stripped.
    pub fn c_expr_callee_name(&self, expr: CExprId) -> (r: Option<&str>)
        requires
            self.ast_context@.has_expr(expr),
        ensures
            match r {
                Some(name) => callee_name(self.ast_context@, expr) == Some(name@),
                None => callee_name(self.ast_context@, expr) is None,
            },
    {
        match self.ast_context.index(self.c_strip_implicit_casts(expr)) {
            CExprKind::DeclRef(decl) => match self.ast_context.decl(*decl) {
                CDeclKind::Function { name, .. } => Some(name.as_str()),
                _ => None,
            },
            _ => None,
        }
    }

    /// The guidance for each parameter of the function that the callee
    /// `func_id` decays from. The oracle is asked once for each parameter.
    pub fn get_callee_function_arg_guidances(&self, func_id: CExprId) -> (r: Option<
        Vec<Option<GuidedType>>,
    >)
        requires
            self.ast_context@.has_expr(func_id),
        ensures
            match r {
                Some(guidances) => callee_arg_guidances(
                    self.ast_context@,
                    self.parsed_guidance@,
                    func_id,
                ) == Some(guidances@.map_values(|g: Option<GuidedType>| option_view(g))),
                None => callee_arg_guidances(self.ast_context@, self.parsed_guidance@, func_id)
                    is None,
            },
    {
        match self.ast_context.index(func_id) {
            CExprKind::ImplicitCast(fexp, CastKind::FunctionToPointerDecay) => {
                match self.ast_context.index(*fexp) {
                    CExprKind::DeclRef(fndeclid) => match self.ast_context.decl(*fndeclid) {
                        CDeclKind::Function { parameters, .. } => {
                            let mut out: Vec<Option<GuidedType>> = Vec::new();
                            let mut i: usize = 0;
                            while i < parameters.len()
                                invariant
                                    i <= parameters.len(),
                                    out.len() == i,
                                    forall|j: int|
                                        0 <= j < i ==> option_view(out[j])
                                            == self.parsed_guidance@.answer(parameters[j]),
                                decreases parameters.len() - i,
                            {
                                out.push(self.parsed_guidance.query_decl_type(parameters[i]));
                                i += 1;
                            }
                            proof {
                                let guidance = self.parsed_guidance@;
                                assert(out@.map_values(|g: Option<GuidedType>| option_view(g))
                                    =~= parameters@.map_values(|p: CDeclId| guidance.answer(p)));
                            }
                            Some(out)
                        },
                        _ => None,
                    },
                    _ => None,
                }
            },
            _ => None,
        }
    }
}

} // verus!
