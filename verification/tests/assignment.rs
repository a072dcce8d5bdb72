use c_idioms::assignment::AssignmentIdiom;
use c_idioms::c_ast::BinOp;
use c_idioms::c_ast::CDeclId;
use c_idioms::c_ast::CDeclKind;
use c_idioms::c_ast::CExprId;
use c_idioms::c_ast::CExprKind;
use c_idioms::c_ast::CLiteral;
use c_idioms::c_ast::CastKind;
use c_idioms::c_ast::TypedAstContext;
use c_idioms::guidance::ParsedGuidance;
use c_idioms::guided::GuidedType;
use c_idioms::target::Expr;
use c_idioms::translation::Translation;

struct Shape {
    ast: TypedAstContext,
    s: CDeclId,
    base: CExprId,
    lhs: CExprId,
    rhs: CExprId,
}

fn add(ast: &mut TypedAstContext, kind: CExprKind) -> CExprId {
    ast.add_expr(kind).unwrap()
}

/// `s[callee(arg) - minus] = zero`, where `arg` is `s` or another variable.
fn shape(callee: &str, same_decl: bool, sub: BinOp, minus: u64, zero: CLiteral) -> Shape {
    let mut ast = TypedAstContext::new();
    let s = ast.add_decl(CDeclKind::Variable { ident: "s".to_string() });
    let t = ast.add_decl(CDeclKind::Variable { ident: "t".to_string() });
    let f = ast.add_decl(CDeclKind::Function { name: callee.to_string(), parameters: vec![] });
    let base = add(&mut ast, CExprKind::DeclRef(s));
    let base_decayed = add(&mut ast, CExprKind::ImplicitCast(base, CastKind::ArrayToPointerDecay));
    let arg = add(&mut ast, CExprKind::DeclRef(if same_decl { s } else { t }));
    let arg_decayed = add(&mut ast, CExprKind::ImplicitCast(arg, CastKind::ArrayToPointerDecay));
    let fref = add(&mut ast, CExprKind::DeclRef(f));
    let fptr = add(&mut ast, CExprKind::ImplicitCast(fref, CastKind::FunctionToPointerDecay));
    let call = add(&mut ast, CExprKind::Call(fptr, vec![arg_decayed]));
    let one = add(&mut ast, CExprKind::Literal(CLiteral::Integer(minus)));
    let one_cast = add(&mut ast, CExprKind::ImplicitCast(one, CastKind::IntegralCast));
    let index = add(&mut ast, CExprKind::Binary(sub, call, one_cast));
    let lhs = add(&mut ast, CExprKind::ArraySubscript(base_decayed, index));
    let zero = add(&mut ast, CExprKind::Literal(zero));
    let rhs = add(&mut ast, CExprKind::ImplicitCast(zero, CastKind::IntegralCast));
    Shape { ast, s, base, lhs, rhs }
}

fn guided(shape: Shape, pretty: Option<&str>) -> (Translation, CExprId, CExprId, CExprId) {
    let mut guidance = ParsedGuidance::new();
    if let Some(pretty) = pretty {
        guidance.set_decl_type(shape.s, GuidedType::try_from_str(pretty));
    }
    (Translation::new(shape.ast, guidance), shape.base, shape.lhs, shape.rhs)
}

fn truncation() -> Shape {
    shape("strlen", true, BinOp::Subtract, 1, CLiteral::Integer(0))
}

#[test]
fn guided_string_truncation_is_a_pop() {
    let (tr, base, lhs, rhs) = guided(truncation(), Some("String"));
    let idiom = tr.recognize_c_assignment_cases(BinOp::Assign, lhs, rhs);
    assert_eq!(idiom, Some(AssignmentIdiom::StringPop { base }));
    assert_eq!(tr.recognize_c_assignment_string_pop(BinOp::Assign, lhs, rhs), Some(base));
    let idiom = idiom.unwrap();
    assert_eq!(idiom.operand(), base);
    assert_eq!(
        idiom.replacement(Expr::ident("s")),
        Expr::MethodCall {
            receiver: Box::new(Expr::ident("s")),
            method: "pop".to_string(),
            args: vec![],
        }
    );
}

#[test]
fn character_zero_truncates_too() {
    let shape = shape("strlen", true, BinOp::Subtract, 1, CLiteral::Character(0));
    let (tr, base, lhs, rhs) = guided(shape, Some("String"));
    assert_eq!(
        tr.recognize_c_assignment_cases(BinOp::Assign, lhs, rhs),
        Some(AssignmentIdiom::StringPop { base })
    );
}

#[test]
fn unguided_truncation_is_left_alone() {
    let (tr, _, lhs, rhs) = guided(truncation(), None);
    assert_eq!(tr.recognize_c_assignment_cases(BinOp::Assign, lhs, rhs), None);
    assert!(tr.items.items().is_empty());
    assert!(tr.type_overrides.is_empty());
}

#[test]
fn truncation_guided_to_another_type_is_left_alone() {
    let (tr, _, lhs, rhs) = guided(truncation(), Some("Vec<u8>"));
    assert_eq!(tr.recognize_c_assignment_cases(BinOp::Assign, lhs, rhs), None);
}

#[test]
fn other_operator_is_left_alone() {
    let (tr, _, lhs, rhs) = guided(truncation(), Some("String"));
    assert_eq!(tr.recognize_c_assignment_cases(BinOp::Other, lhs, rhs), None);
    assert_eq!(tr.recognize_c_assignment_cases(BinOp::Subtract, lhs, rhs), None);
}

#[test]
fn other_right_side_is_left_alone() {
    let shape = shape("strlen", true, BinOp::Subtract, 1, CLiteral::Integer(1));
    let (tr, _, lhs, rhs) = guided(shape, Some("String"));
    assert_eq!(tr.recognize_c_assignment_cases(BinOp::Assign, lhs, rhs), None);
    let (tr, base, lhs, _) = guided(truncation(), Some("String"));
    assert_eq!(tr.recognize_c_assignment_cases(BinOp::Assign, lhs, base), None);
}

#[test]
fn other_index_is_left_alone() {
    let minus_two = shape("strlen", true, BinOp::Subtract, 2, CLiteral::Integer(0));
    let (tr, _, lhs, rhs) = guided(minus_two, Some("String"));
    assert_eq!(tr.recognize_c_assignment_cases(BinOp::Assign, lhs, rhs), None);
    let not_minus = shape("strlen", true, BinOp::Other, 1, CLiteral::Integer(0));
    let (tr, _, lhs, rhs) = guided(not_minus, Some("String"));
    assert_eq!(tr.recognize_c_assignment_cases(BinOp::Assign, lhs, rhs), None);
    let other_callee = shape("strnlen", true, BinOp::Subtract, 1, CLiteral::Integer(0));
    let (tr, _, lhs, rhs) = guided(other_callee, Some("String"));
    assert_eq!(tr.recognize_c_assignment_cases(BinOp::Assign, lhs, rhs), None);
    let other_string = shape("strlen", false, BinOp::Subtract, 1, CLiteral::Integer(0));
    let (tr, _, lhs, rhs) = guided(other_string, Some("String"));
    assert_eq!(tr.recognize_c_assignment_cases(BinOp::Assign, lhs, rhs), None);
}

#[test]
fn left_side_that_is_no_subscript_is_left_alone() {
    let (tr, base, _, rhs) = guided(truncation(), Some("String"));
    assert_eq!(tr.recognize_c_assignment_cases(BinOp::Assign, base, rhs), None);
}
