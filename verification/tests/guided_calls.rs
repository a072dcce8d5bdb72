use c_idioms::c_ast::CDeclKind;
use c_idioms::c_ast::CExprId;
use c_idioms::c_ast::CExprKind;
use c_idioms::c_ast::CLiteral;
use c_idioms::c_ast::CTypeId;
use c_idioms::c_ast::CastKind;
use c_idioms::c_ast::TypedAstContext;
use c_idioms::emission::Emission;
use c_idioms::emission::FormatMacroRequest;
use c_idioms::guidance::ParsedGuidance;
use c_idioms::guided::GuidedType;
use c_idioms::guided_calls::GuidedCall;
use c_idioms::guided_emit::FGETS_HELPER;
use c_idioms::guided_emit::ISBLANK_HELPER;
use c_idioms::guided_emit::STRCSPN_HELPER;
use c_idioms::registry::UseDecl;
use c_idioms::target::Expr;
use c_idioms::target::Lit;
use c_idioms::target::Type;
use c_idioms::translation::Translation;

/// A tree with the variables given by name and guidance, and one reference to
/// each, behind an implicit cast.
fn context(vars: &[(&str, Option<&str>)]) -> (Translation, Vec<CExprId>) {
    let mut ast = TypedAstContext::new();
    let mut guidance = ParsedGuidance::new();
    let mut refs = Vec::new();
    for (name, pretty) in vars {
        let decl = ast.add_decl(CDeclKind::Variable { ident: name.to_string() });
        if let Some(pretty) = pretty {
            guidance.set_decl_type(decl, GuidedType::try_from_str(pretty));
        }
        let r = ast.add_expr(CExprKind::DeclRef(decl)).unwrap();
        refs.push(ast.add_expr(CExprKind::ImplicitCast(r, CastKind::Other)).unwrap());
    }
    (Translation::new(ast, guidance), refs)
}

fn call(callee: &str, args: Vec<Expr>) -> Expr {
    Expr::Call { func: Box::new(Expr::ident(callee)), args }
}

fn untouched(tr: &Translation) -> bool {
    tr.items.items().is_empty()
        && tr.items.uses().is_empty()
        && tr.items.crates().is_empty()
        && tr.type_overrides.is_empty()
}

#[test]
fn guided_strlen_is_a_length_query() {
    let (mut tr, refs) = context(&[("buf", Some("String"))]);
    let rule = tr.call_form_cases_preconversion(&Expr::ident("strlen"), &refs);
    assert_eq!(rule, Some(GuidedCall::Strlen { text: refs[0] }));
    let rule = rule.unwrap();
    assert_eq!(rule.operands(), vec![refs[0]]);
    let emission = tr.emit_guided_call(CTypeId(1), rule, vec![Expr::ident("buf")]);
    assert_eq!(
        emission,
        Ok(Emission::Expr(Expr::MethodCall {
            receiver: Box::new(Expr::ident("buf")),
            method: "len".to_string(),
            args: vec![],
        }))
    );
    assert!(untouched(&tr));
}

#[test]
fn unguided_strlen_falls_through() {
    let (tr, refs) = context(&[("buf", None)]);
    assert_eq!(tr.call_form_cases_preconversion(&Expr::ident("strlen"), &refs), None);
    assert_eq!(tr.recognize_preconversion_call_strlen_guided(&Expr::ident("strlen"), &refs), None);
    assert!(untouched(&tr));
}

#[test]
fn strlen_guided_to_another_type_falls_through() {
    let (tr, refs) = context(&[("buf", Some("char"))]);
    assert_eq!(tr.call_form_cases_preconversion(&Expr::ident("strlen"), &refs), None);
}

#[test]
fn strlen_of_what_is_no_variable_falls_through() {
    let mut ast = TypedAstContext::new();
    let lit = ast.add_expr(CExprKind::Literal(CLiteral::String(b"abc".to_vec(), 1))).unwrap();
    let f = ast.add_decl(CDeclKind::Function { name: "name".to_string(), parameters: vec![] });
    let fref = ast.add_expr(CExprKind::DeclRef(f)).unwrap();
    let mut guidance = ParsedGuidance::new();
    guidance.set_decl_type(f, GuidedType::try_from_str("String"));
    let tr = Translation::new(ast, guidance);
    assert_eq!(tr.call_form_cases_preconversion(&Expr::ident("strlen"), &[lit]), None);
    assert_eq!(tr.call_form_cases_preconversion(&Expr::ident("strlen"), &[fref]), None);
}

#[test]
fn wrong_number_of_arguments_falls_through() {
    let (tr, refs) = context(&[("a", Some("String")), ("b", Some("String")), ("stdin", None)]);
    assert_eq!(tr.call_form_cases_preconversion(&Expr::ident("strlen"), &refs[..2]), None);
    assert_eq!(tr.call_form_cases_preconversion(&Expr::ident("strlen"), &[]), None);
    assert_eq!(tr.call_form_cases_preconversion(&Expr::ident("strcspn"), &refs[..1]), None);
    assert_eq!(tr.call_form_cases_preconversion(&Expr::ident("isblank"), &refs[..2]), None);
    assert_eq!(tr.call_form_cases_preconversion(&Expr::ident("fgets"), &refs[..2]), None);
    assert_eq!(tr.call_form_cases_preconversion(&Expr::ident("fputs"), &refs), None);
}

#[test]
fn callee_that_is_no_bare_name_falls_through() {
    let (tr, refs) = context(&[("buf", Some("String"))]);
    let qualified = Expr::Path(c_idioms::target::Path::pair("libc", "strlen"));
    assert_eq!(tr.call_form_cases_preconversion(&qualified, &refs), None);
    assert_eq!(tr.call_form_cases_preconversion(&Expr::Other("strlen".to_string()), &refs), None);
    assert_eq!(tr.call_form_cases_preconversion(&Expr::ident("strnlen"), &refs), None);
    assert_eq!(tr.recognize_preconversion_call_strlen_guided(&Expr::ident("fputs"), &refs), None);
}

#[test]
fn guided_fputs_to_stdout_is_a_print() {
    for stream in ["stdout", "__stdoutp"] {
        let (mut tr, refs) = context(&[("line", Some("String")), (stream, None)]);
        let rule = tr.call_form_cases_preconversion(&Expr::ident("fputs"), &refs);
        assert_eq!(rule, Some(GuidedCall::PutsStdout { text: refs[0] }));
        let rule = rule.unwrap();
        assert_eq!(rule.operands(), vec![refs[0]]);
        let emission = tr.emit_guided_call(CTypeId(0), rule, vec![Expr::ident("line")]);
        assert_eq!(
            emission,
            Ok(Emission::FormatMacro(FormatMacroRequest {
                format: Some("%s".to_string()),
                macro_name: "print".to_string(),
                ln_macro_name: "println".to_string(),
                args: vec![Expr::ident("line")],
                cargs: vec![refs[0]],
                location: refs[0],
            }))
        );
        assert!(untouched(&tr));
    }
}

#[test]
fn fputs_to_another_stream_falls_through() {
    for stream in ["stderr", "__stderrp", "stdin", "out"] {
        let (tr, refs) = context(&[("line", Some("String")), (stream, None)]);
        assert_eq!(tr.call_form_cases_preconversion(&Expr::ident("fputs"), &refs), None);
    }
    let (tr, refs) = context(&[("line", None), ("stdout", None)]);
    assert_eq!(tr.call_form_cases_preconversion(&Expr::ident("fputs"), &refs), None);
}

#[test]
fn guided_strcspn_calls_its_helper() {
    let (mut tr, refs) = context(&[("text", Some("String")), ("set", Some("String"))]);
    let rule = tr.call_form_cases_preconversion(&Expr::ident("strcspn"), &refs);
    assert_eq!(rule, Some(GuidedCall::Strcspn { text: refs[0], charset: refs[1] }));
    let rule = rule.unwrap();
    assert_eq!(rule.operands(), vec![refs[0], refs[1]]);
    let emission =
        tr.emit_guided_call(CTypeId(0), rule, vec![Expr::ident("text"), Expr::ident("set")]);
    assert_eq!(
        emission,
        Ok(Emission::Expr(call(
            "strcspn_str",
            vec![
                Expr::Reference { mutable: false, expr: Box::new(Expr::ident("text")) },
                Expr::Reference { mutable: false, expr: Box::new(Expr::ident("set")) },
            ]
        )))
    );
    assert_eq!(tr.items.items(), &vec![STRCSPN_HELPER.to_string()]);
    assert!(tr.items.uses().is_empty());
    assert!(tr.type_overrides.is_empty());
}

#[test]
fn strcspn_needs_both_arguments_guided() {
    let (tr, refs) = context(&[("text", Some("String")), ("set", None)]);
    assert_eq!(tr.call_form_cases_preconversion(&Expr::ident("strcspn"), &refs), None);
    let (tr, refs) = context(&[("text", None), ("set", Some("String"))]);
    assert_eq!(tr.call_form_cases_preconversion(&Expr::ident("strcspn"), &refs), None);
    assert!(untouched(&tr));
}

#[test]
fn guided_isblank_calls_its_helper_on_the_bare_argument() {
    let (mut tr, refs) = context(&[("c", Some("char"))]);
    let rule = tr.call_form_cases_preconversion(&Expr::ident("isblank"), &refs);
    assert_eq!(rule, Some(GuidedCall::IsBlank { ch: refs[0] }));
    let converted = Expr::Cast {
        expr: Box::new(Expr::Cast { expr: Box::new(Expr::ident("c")), ty: Type::ident("u8") }),
        ty: Type::ident("i32"),
    };
    let emission = tr.emit_guided_call(CTypeId(0), rule.unwrap(), vec![converted]);
    assert_eq!(emission, Ok(Emission::Expr(call("isblank_char_i", vec![Expr::ident("c")]))));
    assert_eq!(tr.items.items(), &vec![ISBLANK_HELPER.to_string()]);
}

#[test]
fn isblank_of_a_string_falls_through() {
    let (tr, refs) = context(&[("c", Some("String"))]);
    assert_eq!(tr.call_form_cases_preconversion(&Expr::ident("isblank"), &refs), None);
    let (tr, refs) = context(&[("c", None)]);
    assert_eq!(tr.call_form_cases_preconversion(&Expr::ident("isblank"), &refs), None);
}

#[test]
fn guided_fgets_from_stdin_reads_a_line() {
    for stream in ["stdin", "__stdinp"] {
        let (mut tr, refs) = context(&[("buf", Some("String")), ("n", None), (stream, None)]);
        let rule = tr.call_form_cases_preconversion(&Expr::ident("fgets"), &refs);
        assert_eq!(rule, Some(GuidedCall::FgetsStdin { buffer: refs[0], limit: refs[1] }));
        let rule = rule.unwrap();
        assert_eq!(rule.operands(), vec![refs[0], refs[1]]);
        let emission =
            tr.emit_guided_call(CTypeId(42), rule, vec![Expr::ident("buf"), Expr::ident("n")]);
        assert_eq!(
            emission,
            Ok(Emission::Expr(call(
                "fgets_stdin_bool",
                vec![
                    Expr::Reference { mutable: true, expr: Box::new(Expr::ident("buf")) },
                    Expr::Cast { expr: Box::new(Expr::ident("n")), ty: Type::ident("u64") },
                ]
            )))
        );
        assert_eq!(tr.items.items(), &vec![FGETS_HELPER.to_string()]);
        let io = || vec!["std".to_string(), "io".to_string()];
        assert_eq!(
            tr.items.uses(),
            &vec![
                UseDecl { path: io(), name: "Read".to_string() },
                UseDecl { path: io(), name: "BufRead".to_string() },
            ]
        );
        let result = tr.type_overrides.get(CTypeId(42)).unwrap();
        assert_eq!(result.pretty(), "bool");
        assert_eq!(result.parsed(), &Type::ident("bool"));
        assert!(tr.type_overrides.get(CTypeId(41)).is_none());
    }
}

#[test]
fn fgets_limit_that_is_a_fitting_literal_needs_no_cast() {
    let (mut tr, refs) = context(&[("buf", Some("String")), ("n", None), ("stdin", None)]);
    let rule = tr.call_form_cases_preconversion(&Expr::ident("fgets"), &refs).unwrap();
    let limit = Expr::Cast { expr: Box::new(Expr::integer("80")), ty: Type::ident("i32") };
    let emission = tr.emit_guided_call(CTypeId(0), rule, vec![Expr::ident("buf"), limit]);
    assert_eq!(
        emission,
        Ok(Emission::Expr(call(
            "fgets_stdin_bool",
            vec![
                Expr::Reference { mutable: true, expr: Box::new(Expr::ident("buf")) },
                Expr::Lit(Lit::Int { digits: "80".to_string(), suffix: String::new() }),
            ]
        )))
    );
}

#[test]
fn fgets_from_another_stream_falls_through() {
    for stream in ["stdout", "__stdoutp", "file"] {
        let (tr, refs) = context(&[("buf", Some("String")), ("n", None), (stream, None)]);
        assert_eq!(tr.call_form_cases_preconversion(&Expr::ident("fgets"), &refs), None);
        assert!(untouched(&tr));
    }
    let (tr, refs) = context(&[("buf", None), ("n", None), ("stdin", None)]);
    assert_eq!(tr.call_form_cases_preconversion(&Expr::ident("fgets"), &refs), None);
}

#[test]
fn helper_of_a_rule_used_at_many_places_is_registered_once() {
    let (mut tr, refs) = context(&[("buf", Some("String")), ("n", None), ("stdin", None)]);
    for site in 0..4 {
        let rule = tr.call_form_cases_preconversion(&Expr::ident("fgets"), &refs).unwrap();
        let converted = vec![Expr::ident("buf"), Expr::ident("n")];
        assert!(tr.emit_guided_call(CTypeId(site), rule, converted).is_ok());
    }
    assert_eq!(tr.items.items(), &vec![FGETS_HELPER.to_string()]);
    assert_eq!(tr.items.uses().len(), 2);
    for site in 0..4 {
        assert_eq!(tr.type_overrides.get(CTypeId(site)).unwrap().pretty(), "bool");
    }
}

#[test]
fn helpers_of_different_rules_stand_side_by_side() {
    let (mut tr, refs) = context(&[("a", Some("String")), ("b", Some("String")), ("c", Some("char"))]);
    let strcspn = tr.call_form_cases_preconversion(&Expr::ident("strcspn"), &refs[..2]).unwrap();
    let isblank = tr.call_form_cases_preconversion(&Expr::ident("isblank"), &refs[2..]).unwrap();
    for _ in 0..2 {
        assert!(tr
            .emit_guided_call(CTypeId(0), strcspn, vec![Expr::ident("a"), Expr::ident("b")])
            .is_ok());
        assert!(tr.emit_guided_call(CTypeId(0), isblank, vec![Expr::ident("c")]).is_ok());
    }
    assert_eq!(
        tr.items.items(),
        &vec![STRCSPN_HELPER.to_string(), ISBLANK_HELPER.to_string()]
    );
}

#[test]
fn call_that_no_rule_matches_gets_no_replacement_and_leaves_no_trace() {
    let (mut tr, refs) = context(&[("buf", None), ("n", None), ("stdin", None)]);
    let converted = vec![Expr::ident("buf"), Expr::ident("n")];
    let outcome = tr.replace_guided_call(CTypeId(5), &Expr::ident("fgets"), &refs, converted);
    assert_eq!(outcome, Ok(None));
    assert!(untouched(&tr));
    let outcome = tr.replace_guided_call(CTypeId(5), &Expr::ident("memcpy"), &refs, vec![]);
    assert_eq!(outcome, Ok(None));
    assert!(untouched(&tr));
}

#[test]
fn call_that_a_rule_matches_is_replaced_in_one_step() {
    let (mut tr, refs) = context(&[("a", Some("String")), ("b", Some("String"))]);
    let converted = vec![Expr::ident("a"), Expr::ident("b")];
    let outcome = tr.replace_guided_call(CTypeId(5), &Expr::ident("strcspn"), &refs, converted);
    assert_eq!(
        outcome,
        Ok(Some(Emission::Expr(call(
            "strcspn_str",
            vec![
                Expr::Reference { mutable: false, expr: Box::new(Expr::ident("a")) },
                Expr::Reference { mutable: false, expr: Box::new(Expr::ident("b")) },
            ]
        ))))
    );
    assert_eq!(tr.items.items(), &vec![STRCSPN_HELPER.to_string()]);
}
