//! Cast elision: when a cast to a fixed-width integer type can be dropped
//! without changing any value.
//!
//! Two facts carry the module. A cast to a type that holds every value its
//! operand can take gives back the operand's value, so an outer cast sees the
//! same number with or without it. And an integer literal that fits the type
//! its context imposes needs no cast at all.
//!
//! What values an operand can take is read off the syntax: a literal has its
//! value, a cast or an ascription names its type, and a name stands for a
//! value of a type that the caller hands in, `i32` where it hands in none.
//! `value_of` gives such expressions their value, and the laws beside it say
//! that elision leaves that value as it was.

use vstd::prelude::*;
use crate::guided::guided_as;
use crate::guided::option_view;
use crate::guided::GuidedType;
use crate::guided::GuidedTypeView;
use crate::shape::expr_is_lit_char;
use crate::shape::is_lit_char;
use crate::target::ident_type;
use crate::target::Expr;
use crate::target::ExprView;
use crate::target::Lit;
use crate::target::LitView;
use crate::target::Type;
use crate::target::TypeView;
use crate::text::decimal_numeral;
use crate::text::parse_decimal;
use crate::text::str_eq;

verus! {

/// The fixed-width integer types.
#[derive(Debug, Clone, Copy, PartialEq, Eq, Structural)]
pub enum IntKind {
    U8,
    U16,
    U32,
    U64,
    U128,
    I8,
    I16,
    I32,
    I64,
    I128,
}

impl IntKind {
    /// Whether the type has negative values.
    pub open spec fn signed(self) -> bool {
        match self {
            IntKind::I8 | IntKind::I16 | IntKind::I32 | IntKind::I64 | IntKind::I128 => true,
            _ => false,
        }
    }

    /// The width in bits.
    pub open spec fn bits(self) -> nat {
        match self {
            IntKind::U8 | IntKind::I8 => 8,
            IntKind::U16 | IntKind::I16 => 16,
            IntKind::U32 | IntKind::I32 => 32,
            IntKind::U64 | IntKind::I64 => 64,
            IntKind::U128 | IntKind::I128 => 128,
        }
    }

    /// Two to the power of the width: how many values the type has.
    pub open spec fn modulus(self) -> int {
        match self {
            IntKind::U8 | IntKind::I8 => 0x100,
            IntKind::U16 | IntKind::I16 => 0x1_0000,
            IntKind::U32 | IntKind::I32 => 0x1_0000_0000,
            IntKind::U64 | IntKind::I64 => 0x1_0000_0000_0000_0000,
            IntKind::U128 | IntKind::I128 => 0x1_0000_0000_0000_0000_0000_0000_0000_0000int,
        }
    }

    /// The least value of the type.
    pub open spec fn min_value(self) -> int {
        if self.signed() {
            -(self.modulus() / 2)
        } else {
            0
        }
    }

    /// The greatest value of the type.
    pub open spec fn max_value(self) -> int {
        if self.signed() {
            self.modulus() / 2 - 1
        } else {
            self.modulus() - 1
        }
    }

    /// Whether `v` is a value of the type.
    pub open spec fn contains(self, v: int) -> bool {
        self.min_value() <= v <= self.max_value()
    }

    /// Whether every value of `other` is a value of this type.
    pub open spec fn includes(self, other: IntKind) -> bool {
        self.min_value() <= other.min_value() && other.max_value() <= self.max_value()
    }

    /// The value of `v as T` for this type `T`: the one value of the type that
    /// differs from `v` by a multiple of the modulus.
    pub open spec fn wrap(self, v: int) -> int {
        let r = v % self.modulus();
        if r > self.max_value() {
            r - self.modulus()
        } else {
            r
        }
    }

    /// The name of the type.
    pub open spec fn name(self) -> Seq<char> {
        match self {
            IntKind::U8 => "u8"@,
            IntKind::U16 => "u16"@,
            IntKind::U32 => "u32"@,
            IntKind::U64 => "u64"@,
            IntKind::U128 => "u128"@,
            IntKind::I8 => "i8"@,
            IntKind::I16 => "i16"@,
            IntKind::I32 => "i32"@,
            IntKind::I64 => "i64"@,
            IntKind::I128 => "i128"@,
        }
    }

    /// Whether the type has negative values.
    pub fn is_signed(self) -> (r: bool)
        ensures
            r == self.signed(),
    {
        match self {
            IntKind::I8 | IntKind::I16 | IntKind::I32 | IntKind::I64 | IntKind::I128 => true,
            _ => false,
        }
    }

    /// The width in bits.
    pub fn width(self) -> (r: u32)
        ensures
            r == self.bits(),
    {
        match self {
            IntKind::U8 | IntKind::I8 => 8,
            IntKind::U16 | IntKind::I16 => 16,
            IntKind::U32 | IntKind::I32 => 32,
            IntKind::U64 | IntKind::I64 => 64,
            IntKind::U128 | IntKind::I128 => 128,
        }
    }

    /// Whether the non-negative number `v` is a value of the type.
    pub fn fits(self, v: u128) -> (r: bool)
        ensures
            r == self.contains(v as int),
    {
        match self {
            IntKind::U8 => v <= 0xff,
            IntKind::U16 => v <= 0xffff,
            IntKind::U32 => v <= 0xffff_ffff,
            IntKind::U64 => v <= 0xffff_ffff_ffff_ffff,
            IntKind::U128 => true,
            IntKind::I8 => v <= 0x7f,
            IntKind::I16 => v <= 0x7fff,
            IntKind::I32 => v <= 0x7fff_ffff,
            IntKind::I64 => v <= 0x7fff_ffff_ffff_ffff,
            IntKind::I128 => v <= 0x7fff_ffff_ffff_ffff_ffff_ffff_ffff_ffff,
        }
    }

    /// Whether every value of `other` is a value of this type: both are of one
    /// signedness and this one is at least as wide, or this one is signed and
    /// strictly wider than the unsigned `other`.
    pub fn includes_kind(self, other: IntKind) -> (r: bool)
        ensures
            r == self.includes(other),
            r == if self.signed() == other.signed() {
                self.bits() >= other.bits()
            } else {
                self.signed() && self.bits() > other.bits()
            },
    {
        if self.is_signed() == other.is_signed() {
            self.width() >= other.width()
        } else {
            self.is_signed() && self.width() > other.width()
        }
    }

    /// The type itself, as syntax.
    pub fn to_type(self) -> (r: Type)
        ensures
            r@ == ident_type(self.name()),
    {
        match self {
            IntKind::U8 => Type::ident("u8"),
            IntKind::U16 => Type::ident("u16"),
            IntKind::U32 => Type::ident("u32"),
            IntKind::U64 => Type::ident("u64"),
            IntKind::U128 => Type::ident("u128"),
            IntKind::I8 => Type::ident("i8"),
            IntKind::I16 => Type::ident("i16"),
            IntKind::I32 => Type::ident("i32"),
            IntKind::I64 => Type::ident("i64"),
            IntKind::I128 => Type::ident("i128"),
        }
    }
}

/// A cast to a type gives back every value that the type holds.
pub proof fn lemma_wrap_is_identity_on_values(kind: IntKind, v: int)
    requires
        kind.contains(v),
    ensures
        kind.wrap(v) == v,
{
    match kind {
        IntKind::U8 => assert(kind.modulus() == 0x100),
        IntKind::I8 => assert(kind.modulus() == 0x100),
        IntKind::U16 => assert(kind.modulus() == 0x1_0000),
        IntKind::I16 => assert(kind.modulus() == 0x1_0000),
        IntKind::U32 => assert(kind.modulus() == 0x1_0000_0000),
        IntKind::I32 => assert(kind.modulus() == 0x1_0000_0000),
        IntKind::U64 => assert(kind.modulus() == 0x1_0000_0000_0000_0000),
        IntKind::I64 => assert(kind.modulus() == 0x1_0000_0000_0000_0000),
        IntKind::U128 => assert(kind.modulus() == 0x1_0000_0000_0000_0000_0000_0000_0000_0000int),
        IntKind::I128 => assert(kind.modulus() == 0x1_0000_0000_0000_0000_0000_0000_0000_0000int),
    }
}

/// A cast always lands among the values of its type.
pub proof fn lemma_wrap_lands_in_type(kind: IntKind, v: int)
    ensures
        kind.contains(kind.wrap(v)),
{
}

/// A cast to a type that does not hold every value of the operand's type
/// changes at least one value: the comparison of the two ranges decides
/// exactly whether a cast gives back every operand.
pub proof fn lemma_narrowing_cast_changes_some_value(src: IntKind, mid: IntKind)
    requires
        !mid.includes(src),
    ensures
        exists|v: int| src.contains(v) && mid.wrap(v) != v,
{
    let v = if src.max_value() > mid.max_value() {
        src.max_value()
    } else {
        src.min_value()
    };
    lemma_wrap_lands_in_type(mid, v);
    assert(src.contains(v) && mid.wrap(v) != v);
}

/// The fixed-width integer type with the given name.
pub open spec fn int_kind_named(name: Seq<char>) -> Option<IntKind> {
    if name == "u8"@ {
        Some(IntKind::U8)
    } else if name == "u16"@ {
        Some(IntKind::U16)
    } else if name == "u32"@ {
        Some(IntKind::U32)
    } else if name == "u64"@ {
        Some(IntKind::U64)
    } else if name == "u128"@ {
        Some(IntKind::U128)
    } else if name == "i8"@ {
        Some(IntKind::I8)
    } else if name == "i16"@ {
        Some(IntKind::I16)
    } else if name == "i32"@ {
        Some(IntKind::I32)
    } else if name == "i64"@ {
        Some(IntKind::I64)
    } else if name == "i128"@ {
        Some(IntKind::I128)
    } else {
        None
    }
}

/// The fixed-width integer type that `ty` names: `ty` is a path of one segment
/// whose identifier is the name of such a type.
pub open spec fn int_kind_of(ty: TypeView) -> Option<IntKind> {
    match ty {
        TypeView::Path(path) => if path.segments.len() == 1 {
            int_kind_named(path.segments[0].ident)
        } else {
            None
        },
        TypeView::Other(_) => None,
    }
}

/// The fixed-width integer type that `ty` names, if it names one.
pub fn type_int_kind(ty: &Type) -> (r: Option<IntKind>)
    ensures
        r == int_kind_of(ty@),
{
    match ty {
        Type::Path(path) => {
            if path.segments.len() != 1 {
                return None;
            }
            let name = path.segments[0].ident.as_str();
            if str_eq(name, "u8") {
                Some(IntKind::U8)
            } else if str_eq(name, "u16") {
                Some(IntKind::U16)
            } else if str_eq(name, "u32") {
                Some(IntKind::U32)
            } else if str_eq(name, "u64") {
                Some(IntKind::U64)
            } else if str_eq(name, "u128") {
                Some(IntKind::U128)
            } else if str_eq(name, "i8") {
                Some(IntKind::I8)
            } else if str_eq(name, "i16") {
                Some(IntKind::I16)
            } else if str_eq(name, "i32") {
                Some(IntKind::I32)
            } else if str_eq(name, "i64") {
                Some(IntKind::I64)
            } else if str_eq(name, "i128") {
                Some(IntKind::I128)
            } else {
                None
            }
        },
        Type::Other(_) => None,
    }
}

/// Whether the integer literal with these decimal digits denotes a value of
/// `kind`.
pub open spec fn literal_fits(digits: Seq<char>, kind: IntKind) -> bool {
    decimal_numeral(digits) matches Some(v) && kind.contains(v as int)
}

/// Whether the integer literal with these decimal digits denotes a value of
/// `kind`.
pub fn literal_fits_kind(digits: &str, kind: IntKind) -> (r: bool)
    ensures
        r == literal_fits(digits@, kind),
{
    match parse_decimal(digits) {
        Some(v) => kind.fits(v),
        None => false,
    }
}

/// The type that a name is taken to have where nothing says more: `i32`. The
/// code that these expressions come from computes with narrower integers in
/// its `int`, so a name stands for a value of that type.
pub open spec fn promoted() -> IntKind {
    IntKind::I32
}

/// Whether a cast of `operand` to `mid` gives back the operand's value:
/// - the operand is an integer literal that denotes a value of `mid`; or
/// - the operand is itself a cast or a type ascription to a fixed-width integer
///   type, all of whose values `mid` holds; or
/// - the operand is a name, which stands for a value of `ambient`, and `mid`
///   holds every value of `ambient`.
///
/// Of any other operand the type is not known, and nothing is claimed.
pub open spec fn preserved_by(operand: ExprView, mid: IntKind, ambient: IntKind) -> bool {
    match operand {
        ExprView::Lit(LitView::Int { digits, .. }) => literal_fits(digits, mid),
        ExprView::Cast { ty, .. } => int_kind_of(ty) matches Some(src) && mid.includes(src),
        ExprView::Ascription { ty, .. } => int_kind_of(ty) matches Some(src) && mid.includes(src),
        ExprView::Path(_) => mid.includes(ambient),
        _ => false,
    }
}

/// Whether a cast of `operand` to `mid` gives back the operand's value, a
/// name being taken to stand for a value of `ambient`.
pub fn is_preserved_by(operand: &Expr, mid: IntKind, ambient: IntKind) -> (r: bool)
    ensures
        r == preserved_by(operand@, mid, ambient),
{
    match operand {
        Expr::Lit(Lit::Int { digits, .. }) => literal_fits_kind(digits.as_str(), mid),
        Expr::Cast { ty, .. } => match type_int_kind(ty) {
            Some(src) => mid.includes_kind(src),
            None => false,
        },
        Expr::Ascription { ty, .. } => match type_int_kind(ty) {
            Some(src) => mid.includes_kind(src),
            None => false,
        },
        Expr::Path(_) => mid.includes_kind(ambient),
        _ => false,
    }
}

/// Whether `e` is a cast that a following cast to a fixed-width integer type
/// makes redundant: a cast to a fixed-width integer type that gives back its
/// operand's value.
pub open spec fn is_elidable_cast(e: ExprView, ambient: IntKind) -> bool {
    e matches ExprView::Cast { expr, ty } && int_kind_of(ty) matches Some(mid) && preserved_by(
        *expr,
        mid,
        ambient,
    )
}

/// The cast of `e` to `ty`, without the casts directly under it that it makes
/// redundant. Where `ty` is not a fixed-width integer type nothing is dropped.
pub open spec fn cast_of(e: ExprView, ty: TypeView, ambient: IntKind) -> ExprView
    decreases e,
{
    if int_kind_of(ty) is Some && is_elidable_cast(e, ambient) {
        cast_of(*e->Cast_expr, ty, ambient)
    } else {
        ExprView::Cast { expr: Box::new(e), ty }
    }
}

/// The result of a cast is a cast to the requested type, of an operand that is
/// not itself an elidable cast when the type is a fixed-width integer type.
pub proof fn lemma_cast_of_shape(e: ExprView, ty: TypeView, ambient: IntKind)
    ensures
        cast_of(e, ty, ambient) matches ExprView::Cast { expr, ty: t } && t == ty && (int_kind_of(
            ty,
        ) is Some ==> !is_elidable_cast(*expr, ambient)),
    decreases e,
{
    if int_kind_of(ty) is Some && is_elidable_cast(e, ambient) {
        lemma_cast_of_shape(*e->Cast_expr, ty, ambient);
    }
}

/// The value of an expression made of casts to fixed-width integer types and
/// of type ascriptions over an integer literal or a name, where the name
/// stands for `name_value`. A cast wraps the value of its operand into its
/// type. An ascription has the value of its operand, which must be a value of
/// its type. No other expression has a value here.
pub open spec fn value_of(e: ExprView, name_value: int) -> Option<int>
    decreases e,
{
    match e {
        ExprView::Lit(LitView::Int { digits, .. }) => match decimal_numeral(digits) {
            Some(v) => Some(v as int),
            None => None,
        },
        ExprView::Path(_) => Some(name_value),
        ExprView::Cast { expr, ty } => match (int_kind_of(ty), value_of(*expr, name_value)) {
            (Some(kind), Some(v)) => Some(kind.wrap(v)),
            _ => None,
        },
        ExprView::Ascription { expr, ty } => match (int_kind_of(ty), value_of(*expr, name_value)) {
            (Some(kind), Some(v)) => if kind.contains(v) {
                Some(v)
            } else {
                None
            },
            _ => None,
        },
        _ => None,
    }
}

/// An operand that a cast to `mid` preserves has a value of `mid`, where the
/// name in it stands for a value of `ambient`.
pub proof fn lemma_preserved_operand_has_value_of_mid(
    operand: ExprView,
    mid: IntKind,
    ambient: IntKind,
    name_value: int,
)
    requires
        preserved_by(operand, mid, ambient),
        ambient.contains(name_value),
    ensures
        value_of(operand, name_value) matches Some(v) ==> mid.contains(v),
{
    match operand {
        ExprView::Cast { expr, ty } => {
            if value_of(*expr, name_value) is Some {
                lemma_wrap_lands_in_type(int_kind_of(ty).unwrap(), value_of(*expr, name_value).unwrap());
            }
        },
        _ => {},
    }
}

/// Cast elision preserves the value: the cast of `e` to `ty` without the casts
/// that it makes redundant has the value of the cast of `e` to `ty` with all
/// of them, for every value of `ambient` that the name in `e` may stand for.
pub proof fn lemma_cast_of_preserves_value(
    e: ExprView,
    ty: TypeView,
    ambient: IntKind,
    name_value: int,
)
    requires
        ambient.contains(name_value),
    ensures
        value_of(cast_of(e, ty, ambient), name_value) == value_of(
            ExprView::Cast { expr: Box::new(e), ty },
            name_value,
        ),
    decreases e,
{
    if int_kind_of(ty) is Some && is_elidable_cast(e, ambient) {
        let inner = *e->Cast_expr;
        let mid = int_kind_of(e->Cast_ty).unwrap();
        let target = int_kind_of(ty).unwrap();
        lemma_cast_of_preserves_value(inner, ty, ambient, name_value);
        lemma_preserved_operand_has_value_of_mid(inner, mid, ambient, name_value);
        let with_inner = ExprView::Cast { expr: Box::new(inner), ty };
        let with_both = ExprView::Cast { expr: Box::new(e), ty };
        assert(cast_of(e, ty, ambient) == cast_of(inner, ty, ambient));
        match value_of(inner, name_value) {
            Some(v) => {
                lemma_wrap_is_identity_on_values(mid, v);
                assert(value_of(e, name_value) == Some(mid.wrap(v)));
                assert(value_of(with_inner, name_value) == Some(target.wrap(v)));
                assert(value_of(with_both, name_value) == Some(target.wrap(mid.wrap(v))));
            },
            None => {
                assert(value_of(e, name_value) is None);
                assert(value_of(with_inner, name_value) is None);
                assert(value_of(with_both, name_value) is None);
            },
        }
    }
}

/// The type that bears the name of a fixed-width integer type is that type.
pub proof fn lemma_kind_is_named(kind: IntKind)
    ensures
        int_kind_of(ident_type(kind.name())) == Some(kind),
{
    reveal_strlit("u8");
    reveal_strlit("u16");
    reveal_strlit("u32");
    reveal_strlit("u64");
    reveal_strlit("u128");
    reveal_strlit("i8");
    reveal_strlit("i16");
    reveal_strlit("i32");
    reveal_strlit("i64");
    reveal_strlit("i128");
    let name = kind.name();
    let segments = seq![name].map_values(
        |n: Seq<char>| crate::target::PathSegmentView { ident: n, arguments: Seq::empty() },
    );
    assert(segments.len() == 1);
    assert(segments[0].ident == name);
    assert("u8"@.len() == 2 && "i8"@.len() == 2);
    assert("u16"@.len() == 3 && "u32"@.len() == 3 && "u64"@.len() == 3);
    assert("i16"@.len() == 3 && "i32"@.len() == 3 && "i64"@.len() == 3);
    assert("u128"@.len() == 4 && "i128"@.len() == 4);
    assert("u8"@[0] == 'u' && "i8"@[0] == 'i');
    assert("u16"@[0] == 'u' && "u16"@[1] == '1');
    assert("u32"@[0] == 'u' && "u32"@[1] == '3');
    assert("u64"@[0] == 'u' && "u64"@[1] == '6');
    assert("i16"@[0] == 'i' && "i16"@[1] == '1');
    assert("i32"@[0] == 'i' && "i32"@[1] == '3');
    assert("i64"@[0] == 'i' && "i64"@[1] == '6');
    assert("u128"@[0] == 'u' && "i128"@[0] == 'i');
}

/// Coercion preserves the value: `e` as it stands under the type `kind` has
/// the value of the cast of `e` to `kind`, for every value of `i32` that the
/// name in `e` may stand for. So a literal that is left bare is a literal
/// whose cast would not have changed it.
pub proof fn lemma_in_kind_preserves_value(e: ExprView, kind: IntKind, name_value: int)
    requires
        promoted().contains(name_value),
    ensures
        value_of(in_kind(e, kind), name_value) == value_of(
            ExprView::Cast { expr: Box::new(e), ty: ident_type(kind.name()) },
            name_value,
        ),
{
    let ty = ident_type(kind.name());
    lemma_kind_is_named(kind);
    lemma_cast_of_preserves_value(e, ty, promoted(), name_value);
    lemma_cast_of_shape(e, ty, promoted());
    let c = cast_of(e, ty, promoted());
    match *c->Cast_expr {
        ExprView::Lit(LitView::Int { digits, .. }) => {
            if literal_fits(digits, kind) {
                lemma_wrap_is_identity_on_values(kind, decimal_numeral(digits).unwrap() as int);
            }
        },
        _ => {},
    }
}

/// Casts `e` to `ty`, dropping the casts directly under the new one that it
/// makes redundant. A name in `e` is taken to stand for a value of the type
/// `ambient`: hand in the type of the operand where it is known.
pub fn cast_expr_from(e: Expr, ty: Type, ambient: IntKind) -> (r: Expr)
    ensures
        r@ == cast_of(e@, ty@, ambient),
        r@ matches ExprView::Cast { expr, ty: target } && target == ty@ && (int_kind_of(ty@)
            is Some ==> !is_elidable_cast(*expr, ambient)),
    decreases e,
{
    proof {
        lemma_cast_of_shape(e@, ty@, ambient);
    }
    if type_int_kind(&ty).is_none() {
        return Expr::Cast { expr: Box::new(e), ty };
    }
    match e {
        Expr::Cast { expr: inner, ty: mid_ty } => {
            let elidable = match type_int_kind(&mid_ty) {
                Some(mid) => is_preserved_by(&inner, mid, ambient),
                None => false,
            };
            if elidable {
                cast_expr_from(*inner, ty, ambient)
            } else {
                Expr::Cast { expr: Box::new(Expr::Cast { expr: inner, ty: mid_ty }), ty }
            }
        },
        other => Expr::Cast { expr: Box::new(other), ty },
    }
}

/// Casts `e` to `ty`, dropping the casts directly under the new one that it
/// makes redundant. A name in `e` is taken to stand for a value of `i32`.
pub fn cast_expr(e: Expr, ty: Type) -> (r: Expr)
    ensures
        r@ == cast_of(e@, ty@, promoted()),
        r@ matches ExprView::Cast { expr, ty: target } && target == ty@ && (int_kind_of(ty@)
            is Some ==> !is_elidable_cast(*expr, promoted())),
{
    cast_expr_from(e, ty, IntKind::I32)
}

/// `e` as it stands where the context imposes the type `kind`: the cast of
/// `e` to `kind`, or, where that is the cast of an integer literal that
/// denotes a value of `kind`, the literal alone.
pub open spec fn in_kind(e: ExprView, kind: IntKind) -> ExprView {
    let c = cast_of(e, ident_type(kind.name()), promoted());
    match c {
        ExprView::Cast { expr, .. } => match *expr {
            ExprView::Lit(LitView::Int { digits, .. }) => if literal_fits(digits, kind) {
                *expr
            } else {
                c
            },
            _ => c,
        },
        _ => c,
    }
}

/// Coerces `expr` to the fixed-width integer type that its context imposes.
///
/// An integer literal that denotes a value of `kind` stays as it is, and one
/// that does not keeps its cast.
pub fn expr_in_kind(expr: Expr, kind: IntKind) -> (r: Expr)
    ensures
        r@ == in_kind(expr@, kind),
        expr@ matches ExprView::Lit(LitView::Int { digits, .. }) ==> r@ == if literal_fits(
            digits,
            kind,
        ) {
            expr@
        } else {
            ExprView::Cast { expr: Box::new(expr@), ty: ident_type(kind.name()) }
        },
{
    let cast = cast_expr(expr, kind.to_type());
    match cast {
        Expr::Cast { expr: inner, ty } => {
            let bare = match &*inner {
                Expr::Lit(Lit::Int { digits, .. }) => literal_fits_kind(digits.as_str(), kind),
                _ => false,
            };
            assert(cast@ == (ExprView::Cast { expr: Box::new(inner@), ty: ty@ }));
            if bare {
                *inner
            } else {
                Expr::Cast { expr: inner, ty }
            }
        },
        other => other,
    }
}

/// `e` as it stands where the context imposes the type `u64`.
pub open spec fn in_u64(e: ExprView) -> ExprView {
    in_kind(e, IntKind::U64)
}

/// Coerces `expr` to `u64`, the type that its context imposes.
///
/// An integer literal of at most `u64::MAX` stays as it is, and a greater one
/// keeps its cast.
pub fn expr_in_u64(expr: Expr) -> (r: Expr)
    ensures
        r@ == in_u64(expr@),
        expr@ matches ExprView::Lit(LitView::Int { digits, .. }) ==> r@ == if literal_fits(
            digits,
            IntKind::U64,
        ) {
            expr@
        } else {
            ExprView::Cast { expr: Box::new(expr@), ty: ident_type("u64"@) }
        },
{
    expr_in_kind(expr, IntKind::U64)
}

/// The cast of `e` to `ty` under a guidance: no cast at all for a character
/// literal that is guided to be a `char`.
pub open spec fn cast_guided(e: ExprView, ty: TypeView, guided: Option<GuidedTypeView>) -> ExprView {
    if guided_as(guided, "char"@) && is_lit_char(e) {
        e
    } else {
        cast_of(e, ty, promoted())
    }
}

/// Casts `e` to `t`, unless `e` is a character literal and the guidance says
/// that a `char` is wanted.
pub fn cast_expr_guided(e: Expr, t: Type, guided_type: &Option<GuidedType>) -> (r: Expr)
    ensures
        r@ == cast_guided(e@, t@, option_view(*guided_type)),
{
    if let Some(guided) = guided_type {
        if guided.is_named("char") && expr_is_lit_char(&e) {
            return e;
        }
    }
    cast_expr(e, t)
}

} // verus!
