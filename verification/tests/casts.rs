use c_idioms::casts::cast_expr;
use c_idioms::casts::cast_expr_from;
use c_idioms::casts::cast_expr_guided;
use c_idioms::casts::expr_in_kind;
use c_idioms::casts::expr_in_u64;
use c_idioms::casts::is_preserved_by;
use c_idioms::casts::literal_fits_kind;
use c_idioms::casts::type_int_kind;
use c_idioms::casts::IntKind;
use c_idioms::guided::GuidedType;
use c_idioms::target::Expr;
use c_idioms::target::Lit;
use c_idioms::target::Type;
use c_idioms::text::parse_decimal;

fn cast(e: Expr, ty: &str) -> Expr {
    Expr::Cast { expr: Box::new(e), ty: Type::ident(ty) }
}

fn typed(e: Expr, ty: &str) -> Expr {
    Expr::Ascription { expr: Box::new(e), ty: Type::ident(ty) }
}

#[test]
fn fitting_literal_needs_no_cast() {
    assert_eq!(expr_in_u64(Expr::integer("1000")), Expr::integer("1000"));
    assert_eq!(expr_in_u64(Expr::integer("0")), Expr::integer("0"));
}

#[test]
fn greatest_u64_literal_needs_no_cast() {
    let max = "18446744073709551615";
    assert_eq!(expr_in_u64(Expr::integer(max)), Expr::integer(max));
}

#[test]
fn literal_beyond_u64_keeps_its_cast() {
    let big = "18446744073709551616";
    assert_eq!(expr_in_u64(Expr::integer(big)), cast(Expr::integer(big), "u64"));
}

#[test]
fn literal_that_is_no_numeral_keeps_its_cast() {
    assert_eq!(expr_in_u64(Expr::integer("-5")), cast(Expr::integer("-5"), "u64"));
    assert_eq!(expr_in_u64(Expr::integer("")), cast(Expr::integer(""), "u64"));
}

#[test]
fn coercion_to_every_width_keeps_or_drops_by_fit() {
    assert_eq!(expr_in_kind(Expr::integer("255"), IntKind::U8), Expr::integer("255"));
    assert_eq!(expr_in_kind(Expr::integer("256"), IntKind::U8), cast(Expr::integer("256"), "u8"));
    assert_eq!(expr_in_kind(Expr::integer("65535"), IntKind::U16), Expr::integer("65535"));
    assert_eq!(
        expr_in_kind(Expr::integer("65536"), IntKind::U16),
        cast(Expr::integer("65536"), "u16")
    );
    assert_eq!(
        expr_in_kind(Expr::integer("4294967296"), IntKind::U32),
        cast(Expr::integer("4294967296"), "u32")
    );
    assert_eq!(expr_in_kind(Expr::integer("127"), IntKind::I8), Expr::integer("127"));
    assert_eq!(expr_in_kind(Expr::integer("128"), IntKind::I8), cast(Expr::integer("128"), "i8"));
}

#[test]
fn suffixed_literal_is_judged_by_its_digits() {
    let lit = Expr::Lit(Lit::Int { digits: "10".to_string(), suffix: "i32".to_string() });
    let same = Expr::Lit(Lit::Int { digits: "10".to_string(), suffix: "i32".to_string() });
    assert_eq!(expr_in_u64(lit), same);
}

#[test]
fn non_literal_gets_a_cast() {
    assert_eq!(expr_in_u64(Expr::ident("n")), cast(Expr::ident("n"), "u64"));
}

#[test]
fn widening_inner_cast_is_dropped() {
    let x = || typed(Expr::ident("x"), "i16");
    assert_eq!(expr_in_u64(cast(x(), "i32")), cast(x(), "u64"));
    assert_eq!(cast_expr(cast(x(), "i32"), Type::ident("u64")), cast(x(), "u64"));
    assert_eq!(cast_expr(cast(x(), "i16"), Type::ident("u64")), cast(x(), "u64"));
}

#[test]
fn narrowing_inner_cast_is_kept() {
    let x = || typed(Expr::ident("x"), "i16");
    assert_eq!(expr_in_u64(cast(x(), "i8")), cast(cast(x(), "i8"), "u64"));
    assert_eq!(expr_in_u64(cast(x(), "u16")), cast(cast(x(), "u16"), "u64"));
    assert_eq!(expr_in_u64(cast(x(), "u32")), cast(cast(x(), "u32"), "u64"));
}

#[test]
fn inner_cast_of_large_literal_is_kept() {
    let inner = || cast(Expr::integer("1000"), "i8");
    assert_eq!(expr_in_u64(inner()), cast(inner(), "u64"));
}

#[test]
fn inner_cast_of_small_literal_is_dropped_with_the_outer_one() {
    assert_eq!(expr_in_u64(cast(Expr::integer("10"), "i8")), Expr::integer("10"));
    assert_eq!(
        cast_expr(cast(Expr::integer("10"), "i8"), Type::ident("u64")),
        cast(Expr::integer("10"), "u64")
    );
}

#[test]
fn cast_of_a_name_to_i32_is_dropped_under_a_cast_to_u64() {
    assert_eq!(expr_in_u64(cast(Expr::ident("x"), "i32")), cast(Expr::ident("x"), "u64"));
    assert_eq!(
        cast_expr(cast(Expr::ident("x"), "i32"), Type::ident("u64")),
        cast(Expr::ident("x"), "u64")
    );
}

#[test]
fn cast_of_a_name_to_i8_is_kept_under_a_cast_to_u64() {
    let inner = || cast(Expr::ident("x"), "i8");
    assert_eq!(expr_in_u64(inner()), cast(inner(), "u64"));
}

#[test]
fn cast_of_a_name_is_dropped_where_the_type_holds_every_i32() {
    for wide in ["i32", "i64", "i128"] {
        assert_eq!(expr_in_u64(cast(Expr::ident("x"), wide)), cast(Expr::ident("x"), "u64"));
    }
    for other in ["i8", "i16", "u8", "u16", "u32", "u64", "u128"] {
        let inner = || cast(Expr::ident("x"), other);
        assert_eq!(expr_in_u64(inner()), cast(inner(), "u64"));
    }
}

#[test]
fn known_type_of_a_name_decides_in_place_of_i32() {
    let to = |ty: &str| cast(Expr::ident("x"), ty);
    assert_eq!(
        cast_expr_from(to("i16"), Type::ident("u64"), IntKind::I16),
        cast(Expr::ident("x"), "u64")
    );
    assert_eq!(
        cast_expr_from(to("u16"), Type::ident("u64"), IntKind::U8),
        cast(Expr::ident("x"), "u64")
    );
    assert_eq!(cast_expr_from(to("i32"), Type::ident("u64"), IntKind::U32), cast(to("i32"), "u64"));
    assert_eq!(cast_expr_from(to("i32"), Type::ident("u64"), IntKind::I64), cast(to("i32"), "u64"));
}

#[test]
fn inner_cast_of_an_operand_of_unknown_type_is_kept() {
    let call = || Expr::call(Expr::ident("f"), vec![]);
    assert_eq!(expr_in_u64(cast(call(), "i32")), cast(cast(call(), "i32"), "u64"));
    let other = || Expr::Other("a + b".to_string());
    assert_eq!(expr_in_u64(cast(other(), "i64")), cast(cast(other(), "i64"), "u64"));
    let real = || Expr::Lit(Lit::Other("1.5".to_string()));
    assert_eq!(expr_in_u64(cast(real(), "i32")), cast(cast(real(), "i32"), "u64"));
    let sized = || cast(Expr::ident("x"), "usize");
    assert_eq!(expr_in_u64(cast(sized(), "i64")), cast(cast(sized(), "i64"), "u64"));
}

#[test]
fn chain_of_widening_casts_collapses_to_the_typed_operand() {
    let x = || cast(Expr::ident("y"), "u8");
    let chain = cast(cast(x(), "u16"), "i32");
    assert_eq!(expr_in_u64(chain), cast(x(), "u64"));
}

#[test]
fn cast_to_a_type_that_is_no_fixed_width_integer_drops_nothing() {
    let inner = || cast(Expr::integer("10"), "i8");
    assert_eq!(cast_expr(inner(), Type::ident("usize")), cast(inner(), "usize"));
    assert_eq!(
        cast_expr(inner(), Type::Other("* const u8".to_string())),
        Expr::Cast { expr: Box::new(inner()), ty: Type::Other("* const u8".to_string()) }
    );
}

#[test]
fn guided_char_literal_needs_no_cast() {
    let guided = GuidedType::try_from_str("char");
    assert!(guided.is_some());
    let lit = || Expr::Lit(Lit::Char('a'));
    assert_eq!(cast_expr_guided(lit(), Type::ident("u8"), &guided), lit());
}

#[test]
fn guided_cast_is_a_cast_in_every_other_case() {
    let as_char = GuidedType::try_from_str("char");
    let as_string = GuidedType::try_from_str("String");
    let lit = || Expr::Lit(Lit::Char('a'));
    assert_eq!(cast_expr_guided(lit(), Type::ident("u8"), &None), cast(lit(), "u8"));
    assert_eq!(cast_expr_guided(lit(), Type::ident("u8"), &as_string), cast(lit(), "u8"));
    assert_eq!(
        cast_expr_guided(Expr::ident("c"), Type::ident("u8"), &as_char),
        cast(Expr::ident("c"), "u8")
    );
}

#[test]
fn kinds_include_by_width_and_signedness() {
    assert!(IntKind::I32.includes_kind(IntKind::I16));
    assert!(IntKind::I32.includes_kind(IntKind::U16));
    assert!(IntKind::I32.includes_kind(IntKind::I32));
    assert!(!IntKind::I32.includes_kind(IntKind::U32));
    assert!(!IntKind::U64.includes_kind(IntKind::I8));
    assert!(IntKind::U64.includes_kind(IntKind::U8));
    assert!(!IntKind::I8.includes_kind(IntKind::I16));
    assert!(IntKind::I128.includes_kind(IntKind::U64));
    assert!(!IntKind::I128.includes_kind(IntKind::U128));
}

#[test]
fn kinds_have_their_ranges() {
    assert!(IntKind::U8.fits(255));
    assert!(!IntKind::U8.fits(256));
    assert!(IntKind::I8.fits(127));
    assert!(!IntKind::I8.fits(128));
    assert!(IntKind::I64.fits(9223372036854775807));
    assert!(!IntKind::I64.fits(9223372036854775808));
    assert!(IntKind::U128.fits(u128::MAX));
    assert!(!IntKind::I128.fits(u128::MAX));
    assert_eq!(IntKind::U32.width(), 32);
    assert!(IntKind::I16.is_signed());
    assert!(!IntKind::U16.is_signed());
    assert_eq!(IntKind::I64.to_type(), Type::ident("i64"));
}

#[test]
fn types_name_their_kind() {
    assert_eq!(type_int_kind(&Type::ident("u64")), Some(IntKind::U64));
    assert_eq!(type_int_kind(&Type::ident("i8")), Some(IntKind::I8));
    assert_eq!(type_int_kind(&Type::ident("u128")), Some(IntKind::U128));
    assert_eq!(type_int_kind(&Type::ident("usize")), None);
    assert_eq!(type_int_kind(&Type::ident("String")), None);
    assert_eq!(type_int_kind(&Type::Other("u64".to_string())), None);
}

#[test]
fn literals_fit_by_value() {
    assert!(literal_fits_kind("0", IntKind::I8));
    assert!(literal_fits_kind("007", IntKind::U8));
    assert!(!literal_fits_kind("1000", IntKind::I8));
    assert!(!literal_fits_kind("1_000", IntKind::U64));
    assert!(!literal_fits_kind("+5", IntKind::U64));
    assert!(!literal_fits_kind("340282366920938463463374607431768211456", IntKind::U128));
    assert!(literal_fits_kind("340282366920938463463374607431768211455", IntKind::U128));
}

#[test]
fn operands_are_preserved_only_when_known() {
    let int = IntKind::I32;
    assert!(is_preserved_by(&Expr::integer("10"), IntKind::I8, int));
    assert!(!is_preserved_by(&Expr::integer("1000"), IntKind::I8, int));
    assert!(is_preserved_by(&cast(Expr::ident("x"), "u8"), IntKind::I16, int));
    assert!(!is_preserved_by(&cast(Expr::ident("x"), "u8"), IntKind::I8, int));
    assert!(is_preserved_by(&Expr::ident("x"), IntKind::I128, int));
    assert!(is_preserved_by(&Expr::ident("x"), IntKind::I32, int));
    assert!(!is_preserved_by(&Expr::ident("x"), IntKind::I16, int));
    assert!(is_preserved_by(&Expr::ident("x"), IntKind::I16, IntKind::U8));
    assert!(!is_preserved_by(&cast(Expr::ident("x"), "usize"), IntKind::U128, int));
    assert!(!is_preserved_by(&Expr::Other("x".to_string()), IntKind::I128, int));
}

#[test]
fn decimal_numerals_have_their_value() {
    assert_eq!(parse_decimal("0"), Some(0));
    assert_eq!(parse_decimal("1000"), Some(1000));
    assert_eq!(parse_decimal("0012"), Some(12));
    assert_eq!(
        parse_decimal("340282366920938463463374607431768211455"),
        Some(u128::MAX)
    );
    assert_eq!(parse_decimal("340282366920938463463374607431768211456"), None);
    assert_eq!(parse_decimal(""), None);
    assert_eq!(parse_decimal("-1"), None);
    assert_eq!(parse_decimal("12a"), None);
    assert_eq!(parse_decimal("1 2"), None);
}
