use c_idioms::shape::expr_get_path;
use c_idioms::shape::expr_is_ident;
use c_idioms::shape::expr_is_lit_char;
use c_idioms::shape::expr_strip_casts;
use c_idioms::shape::is_known_size_1_path;
use c_idioms::shape::is_known_size_1_type;
use c_idioms::shape::is_path_exactly_1;
use c_idioms::shape::is_path_exactly_2;
use c_idioms::target::Expr;
use c_idioms::target::Lit;
use c_idioms::target::Path;
use c_idioms::target::PathSegment;
use c_idioms::target::Type;

#[test]
fn one_byte_scalars_are_known() {
    for name in ["u8", "i8", "bool", "char"] {
        assert!(is_known_size_1_type(&Type::ident(name)));
    }
    assert!(is_known_size_1_type(&Type::Path(Path::pair("libc", "c_char"))));
}

#[test]
fn other_types_are_not_known_to_be_one_byte() {
    for name in ["u16", "i32", "String", "c_char", "libc"] {
        assert!(!is_known_size_1_type(&Type::ident(name)));
    }
    assert!(!is_known_size_1_type(&Type::Path(Path::pair("libc", "c_int"))));
    assert!(!is_known_size_1_type(&Type::Path(Path::pair("std", "u8"))));
    assert!(!is_known_size_1_type(&Type::Other("u8".to_string())));
    assert!(!is_known_size_1_type(&Type::Path(Path { leading_colon: false, segments: vec![] })));
    let three = Path {
        leading_colon: false,
        segments: vec![PathSegment::new("a"), PathSegment::new("libc"), PathSegment::new("c_char")],
    };
    assert!(!is_known_size_1_path(&three));
}

#[test]
fn leading_colon_does_not_change_the_name() {
    let path = Path {
        leading_colon: true,
        segments: vec![PathSegment::new("libc"), PathSegment::new("c_char")],
    };
    assert!(is_known_size_1_path(&path));
    assert!(is_path_exactly_2(&path, "libc", "c_char"));
}

#[test]
fn paths_match_by_their_segments() {
    assert!(is_path_exactly_1(&Path::ident("stdout"), "stdout"));
    assert!(!is_path_exactly_1(&Path::ident("stdout"), "stderr"));
    assert!(!is_path_exactly_1(&Path::pair("libc", "stdout"), "stdout"));
    assert!(is_path_exactly_2(&Path::pair("libc", "c_char"), "libc", "c_char"));
    assert!(!is_path_exactly_2(&Path::pair("libc", "c_char"), "c_char", "libc"));
    assert!(!is_path_exactly_2(&Path::ident("libc"), "libc", "c_char"));
}

#[test]
fn only_path_expressions_have_a_path() {
    assert_eq!(expr_get_path(&Expr::ident("x")), Some(&Path::ident("x")));
    assert_eq!(expr_get_path(&Expr::integer("1")), None);
    assert_eq!(expr_get_path(&Expr::Other("x".to_string())), None);
    assert_eq!(expr_get_path(&Expr::reference(false, Expr::ident("x"))), None);
}

#[test]
fn identifiers_are_single_segment_paths() {
    assert!(expr_is_ident(&Expr::ident("printf"), "printf"));
    assert!(!expr_is_ident(&Expr::ident("printf"), "fprintf"));
    assert!(!expr_is_ident(&Expr::Path(Path::pair("libc", "printf")), "printf"));
    assert!(!expr_is_ident(&Expr::Other("printf".to_string()), "printf"));
}

#[test]
fn character_literals_are_told_apart() {
    assert!(expr_is_lit_char(&Expr::Lit(Lit::Char('x'))));
    assert!(!expr_is_lit_char(&Expr::integer("120")));
    assert!(!expr_is_lit_char(&Expr::Lit(Lit::Other("'x'".to_string()))));
    assert!(!expr_is_lit_char(&Expr::ident("x")));
}

#[test]
fn casts_and_ascriptions_are_stripped() {
    let core = Expr::ident("c");
    let wrapped = Expr::Cast {
        expr: Box::new(Expr::Ascription {
            expr: Box::new(Expr::Cast { expr: Box::new(Expr::ident("c")), ty: Type::ident("u8") }),
            ty: Type::ident("u8"),
        }),
        ty: Type::ident("i32"),
    };
    assert_eq!(expr_strip_casts(&wrapped), &core);
    assert_eq!(expr_strip_casts(&core), &core);
}

#[test]
fn stripping_stops_at_any_other_node() {
    let inner = Expr::Cast { expr: Box::new(Expr::ident("c")), ty: Type::ident("u8") };
    let reference = Expr::reference(false, inner);
    let wrapped = Expr::Cast {
        expr: Box::new(Expr::reference(
            false,
            Expr::Cast { expr: Box::new(Expr::ident("c")), ty: Type::ident("u8") },
        )),
        ty: Type::ident("usize"),
    };
    assert_eq!(expr_strip_casts(&wrapped), &reference);
}

#[test]
fn explicit_self_type_is_not_looked_at() {
    let qualified = Expr::QualifiedPath {
        qself: "T".to_string(),
        position: 0,
        path: Path::ident("printf"),
    };
    assert!(expr_is_ident(&qualified, "printf"));
    assert!(!expr_is_ident(&qualified, "T"));
    assert_eq!(expr_get_path(&qualified), Some(&Path::ident("printf")));
    let of_trait = Expr::QualifiedPath {
        qself: "T".to_string(),
        position: 1,
        path: Path::pair("Default", "default"),
    };
    assert!(!expr_is_ident(&of_trait, "default"));
    assert_eq!(expr_get_path(&of_trait), Some(&Path::pair("Default", "default")));
    assert_eq!(of_trait.duplicate(), of_trait);
}
