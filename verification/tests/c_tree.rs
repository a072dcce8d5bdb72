use c_idioms::c_ast::BinOp;
use c_idioms::c_ast::CDeclId;
use c_idioms::c_ast::CDeclKind;
use c_idioms::c_ast::CExprId;
use c_idioms::c_ast::CExprKind;
use c_idioms::c_ast::CLiteral;
use c_idioms::c_ast::CastKind;
use c_idioms::c_ast::TypedAstContext;
use c_idioms::c_ast::UnOp;
use c_idioms::guidance::ParsedGuidance;
use c_idioms::guided::GuidedType;
use c_idioms::translation::Translation;

fn var(ast: &mut TypedAstContext, name: &str) -> CDeclId {
    ast.add_decl(CDeclKind::Variable { ident: name.to_string() })
}

fn add(ast: &mut TypedAstContext, kind: CExprKind) -> CExprId {
    ast.add_expr(kind).unwrap()
}

#[test]
fn tree_grows_operands_first() {
    let mut ast = TypedAstContext::new();
    let s = var(&mut ast, "s");
    assert_eq!(s, CDeclId(0));
    let r = add(&mut ast, CExprKind::DeclRef(s));
    assert_eq!(r, CExprId(0));
    let c = add(&mut ast, CExprKind::ImplicitCast(r, CastKind::Other));
    assert_eq!(c, CExprId(1));
    assert_eq!(ast.expr_count(), 2);
    assert_eq!(ast.decl_count(), 1);
    assert_eq!(ast.index(c), &CExprKind::ImplicitCast(r, CastKind::Other));
    assert_eq!(ast.decl(s), &CDeclKind::Variable { ident: "s".to_string() });
}

#[test]
fn tree_refuses_operands_that_are_not_in_it() {
    let mut ast = TypedAstContext::new();
    assert_eq!(ast.add_expr(CExprKind::DeclRef(CDeclId(0))), None);
    assert_eq!(ast.add_expr(CExprKind::ImplicitCast(CExprId(0), CastKind::Other)), None);
    assert_eq!(ast.add_expr(CExprKind::Unary(UnOp::AddressOf, CExprId(0))), None);
    assert_eq!(ast.add_expr(CExprKind::Binary(BinOp::Assign, CExprId(0), CExprId(1))), None);
    assert_eq!(ast.add_expr(CExprKind::ArraySubscript(CExprId(0), CExprId(0))), None);
    assert_eq!(ast.expr_count(), 0);
    let zero = add(&mut ast, CExprKind::Literal(CLiteral::Integer(0)));
    assert_eq!(ast.add_expr(CExprKind::Call(zero, vec![zero, CExprId(1)])), None);
    assert_eq!(ast.add_expr(CExprKind::Call(CExprId(1), vec![zero])), None);
    assert_eq!(ast.add_expr(CExprKind::Call(zero, vec![zero, zero])), Some(CExprId(1)));
    assert_eq!(ast.expr_count(), 2);
    assert!(ast.can_add(&CExprKind::Other));
    assert!(!ast.can_add(&CExprKind::Unary(UnOp::Other, CExprId(2))));
}

#[test]
fn implicit_casts_are_stripped_to_the_core() {
    let mut ast = TypedAstContext::new();
    let s = var(&mut ast, "s");
    let r = add(&mut ast, CExprKind::DeclRef(s));
    let c1 = add(&mut ast, CExprKind::ImplicitCast(r, CastKind::ArrayToPointerDecay));
    let c2 = add(&mut ast, CExprKind::ImplicitCast(c1, CastKind::IntegralCast));
    let tr = Translation::new(ast, ParsedGuidance::new());
    assert_eq!(tr.c_strip_implicit_casts(c2), r);
    assert_eq!(tr.c_strip_implicit_casts(r), r);
    assert_eq!(tr.strip_integral_cast(c2), c1);
    assert_eq!(tr.strip_integral_cast(c1), c1);
    assert_eq!(tr.strip_implicit_array_to_pointer_cast(c1), r);
    assert_eq!(tr.strip_implicit_array_to_pointer_cast(c2), c2);
    assert_eq!(tr.strip_implicit_array_to_pointer_cast(r), r);
}

#[test]
fn literals_are_told_apart() {
    let mut ast = TypedAstContext::new();
    let zero = add(&mut ast, CExprKind::Literal(CLiteral::Integer(0)));
    let nul = add(&mut ast, CExprKind::Literal(CLiteral::Character(0)));
    let one = add(&mut ast, CExprKind::Literal(CLiteral::Integer(1)));
    let text = add(&mut ast, CExprKind::Literal(CLiteral::String(b"%d".to_vec(), 1)));
    let real = add(&mut ast, CExprKind::Literal(CLiteral::Floating("0.0".to_string())));
    let decayed = add(&mut ast, CExprKind::ImplicitCast(text, CastKind::ArrayToPointerDecay));
    let tr = Translation::new(ast, ParsedGuidance::new());
    assert!(tr.is_integral_lit(zero, 0));
    assert!(tr.is_integral_lit(nul, 0));
    assert!(!tr.is_integral_lit(one, 0));
    assert!(tr.is_integral_lit(one, 1));
    assert!(!tr.is_integral_lit(text, 0));
    assert!(!tr.is_integral_lit(real, 0));
    assert_eq!(tr.get_string_lit(text), Some(&CLiteral::String(b"%d".to_vec(), 1)));
    assert_eq!(tr.get_string_lit(zero), None);
    assert_eq!(tr.get_string_lit(decayed), None);
    assert_eq!(tr.c_expr_get_str_lit_bytes(decayed), Some(&b"%d".to_vec()));
    assert_eq!(tr.c_expr_get_str_lit_bytes(text), Some(&b"%d".to_vec()));
    assert_eq!(tr.c_expr_get_str_lit_bytes(zero), None);
}

#[test]
fn declarations_are_found_through_implicit_casts() {
    let mut ast = TypedAstContext::new();
    let s = var(&mut ast, "s");
    let f = ast.add_decl(CDeclKind::Function { name: "strlen".to_string(), parameters: vec![] });
    let rs = add(&mut ast, CExprKind::DeclRef(s));
    let cs = add(&mut ast, CExprKind::ImplicitCast(rs, CastKind::Other));
    let rf = add(&mut ast, CExprKind::DeclRef(f));
    let cf = add(&mut ast, CExprKind::ImplicitCast(rf, CastKind::FunctionToPointerDecay));
    let lit = add(&mut ast, CExprKind::Literal(CLiteral::Integer(3)));
    let addr = add(&mut ast, CExprKind::Unary(UnOp::AddressOf, rs));
    let neg = add(&mut ast, CExprKind::Unary(UnOp::Other, rs));
    let tr = Translation::new(ast, ParsedGuidance::new());
    assert_eq!(tr.c_expr_decl_id(cs), Some(s));
    assert_eq!(tr.c_expr_decl_id(cf), Some(f));
    assert_eq!(tr.c_expr_decl_id(lit), None);
    assert_eq!(tr.c_expr_get_var_decl_id(cs), Some(s));
    assert_eq!(tr.c_expr_get_var_decl_id(cf), None);
    assert!(tr.c_expr_is_var_ident(cs, "s"));
    assert!(!tr.c_expr_is_var_ident(cs, "t"));
    assert!(!tr.c_expr_is_var_ident(cf, "strlen"));
    assert_eq!(tr.c_expr_callee_name(cf), Some("strlen"));
    assert_eq!(tr.c_expr_callee_name(cs), None);
    assert_eq!(tr.c_expr_get_addr_of(addr), Some(rs));
    assert_eq!(tr.c_expr_get_addr_of(neg), None);
    assert_eq!(tr.c_expr_get_addr_of(rs), None);
}

#[test]
fn callee_parameters_are_asked_one_by_one() {
    let mut ast = TypedAstContext::new();
    let a = var(&mut ast, "a");
    let b = var(&mut ast, "b");
    let f = ast
        .add_decl(CDeclKind::Function { name: "f".to_string(), parameters: vec![a, b, a] });
    let rf = add(&mut ast, CExprKind::DeclRef(f));
    let cf = add(&mut ast, CExprKind::ImplicitCast(rf, CastKind::FunctionToPointerDecay));
    let other = add(&mut ast, CExprKind::ImplicitCast(rf, CastKind::Other));
    let ra = add(&mut ast, CExprKind::DeclRef(a));
    let ca = add(&mut ast, CExprKind::ImplicitCast(ra, CastKind::FunctionToPointerDecay));
    let mut guidance = ParsedGuidance::new();
    guidance.set_decl_type(b, GuidedType::try_from_str("String"));
    let tr = Translation::new(ast, guidance);
    let guidances = tr.get_callee_function_arg_guidances(cf).unwrap();
    assert_eq!(guidances.len(), 3);
    assert!(guidances[0].is_none());
    assert_eq!(guidances[1].as_ref().unwrap().pretty(), "String");
    assert!(guidances[2].is_none());
    assert!(tr.get_callee_function_arg_guidances(rf).is_none());
    assert!(tr.get_callee_function_arg_guidances(other).is_none());
    assert!(tr.get_callee_function_arg_guidances(ca).is_none());
}
