//! The target-language syntax that the recognizers read and build.
//!
//! Only the node kinds that a recognizer inspects or produces are structured.
//! Every other type, literal or expression is carried as its source text, so a
//! caller can hand over any fragment and get it back unchanged inside a
//! replacement.

use vstd::prelude::*;
use crate::text::owned;
use crate::text::str_eq;

verus! {

/// One segment of a path: its identifier and, as source text, its generic
/// arguments (empty when it has none).
#[derive(Debug, Clone, PartialEq, Eq)]
pub struct PathSegment {
    pub ident: String,
    pub arguments: String,
}

/// The mathematical value of a [`PathSegment`].
pub struct PathSegmentView {
    pub ident: Seq<char>,
    pub arguments: Seq<char>,
}

impl View for PathSegment {
    type V = PathSegmentView;

    open spec fn view(&self) -> PathSegmentView {
        PathSegmentView { ident: self.ident@, arguments: self.arguments@ }
    }
}

/// A path such as `stdout` or `libc::c_char`.
#[derive(Debug, Clone, PartialEq, Eq)]
pub struct Path {
    pub leading_colon: bool,
    pub segments: Vec<PathSegment>,
}

/// The mathematical value of a [`Path`].
pub struct PathView {
    pub leading_colon: bool,
    pub segments: Seq<PathSegmentView>,
}

impl View for Path {
    type V = PathView;

    open spec fn view(&self) -> PathView {
        PathView {
            leading_colon: self.leading_colon,
            segments: self.segments@.map_values(|s: PathSegment| s@),
        }
    }
}

/// A type: a path without an explicit self type, or any other type as its
/// source text.
#[derive(Debug, Clone, PartialEq, Eq)]
pub enum Type {
    Path(Path),
    Other(String),
}

/// The mathematical value of a [`Type`].
pub enum TypeView {
    Path(PathView),
    Other(Seq<char>),
}

impl View for Type {
    type V = TypeView;

    open spec fn view(&self) -> TypeView {
        match self {
            Type::Path(path) => TypeView::Path(path@),
            Type::Other(text) => TypeView::Other(text@),
        }
    }
}

/// A literal: an integer by its decimal digits and its suffix, a character, or
/// any other literal as its source text.
#[derive(Debug, Clone, PartialEq, Eq)]
pub enum Lit {
    Int { digits: String, suffix: String },
    Char(char),
    Other(String),
}

/// The mathematical value of a [`Lit`].
pub enum LitView {
    Int { digits: Seq<char>, suffix: Seq<char> },
    Char(char),
    Other(Seq<char>),
}

impl View for Lit {
    type V = LitView;

    open spec fn view(&self) -> LitView {
        match self {
            Lit::Int { digits, suffix } => LitView::Int { digits: digits@, suffix: suffix@ },
            Lit::Char(c) => LitView::Char(*c),
            Lit::Other(text) => LitView::Other(text@),
        }
    }
}

/// An expression.
///
/// `Path` is a path without an explicit self type. `QualifiedPath` is a path
/// with one, `<T as Trait>::name`: the self type `T` as source text, how many
/// leading segments of the path name the trait, and the path. `Macro` is a call of a function-like macro whose input is one string
/// literal, held as the text of its token, followed by expressions.
#[derive(Debug, PartialEq, Eq)]
pub enum Expr {
    Path(Path),
    QualifiedPath { qself: String, position: usize, path: Path },
    Lit(Lit),
    Cast { expr: Box<Expr>, ty: Type },
    Ascription { expr: Box<Expr>, ty: Type },
    Call { func: Box<Expr>, args: Vec<Expr> },
    MethodCall { receiver: Box<Expr>, method: String, args: Vec<Expr> },
    Reference { mutable: bool, expr: Box<Expr> },
    Macro { path: Path, format: String, args: Vec<Expr> },
    Other(String),
}

/// The mathematical value of an [`Expr`].
pub enum ExprView {
    Path(PathView),
    QualifiedPath { qself: Seq<char>, position: usize, path: PathView },
    Lit(LitView),
    Cast { expr: Box<ExprView>, ty: TypeView },
    Ascription { expr: Box<ExprView>, ty: TypeView },
    Call { func: Box<ExprView>, args: Seq<ExprView> },
    MethodCall { receiver: Box<ExprView>, method: Seq<char>, args: Seq<ExprView> },
    Reference { mutable: bool, expr: Box<ExprView> },
    Macro { path: PathView, format: Seq<char>, args: Seq<ExprView> },
    Other(Seq<char>),
}

impl Expr {
    /// The value of this expression, node by node.
    pub open spec fn model(&self) -> ExprView
        decreases self,
    {
        match self {
            Expr::Path(path) => ExprView::Path(path@),
            Expr::QualifiedPath { qself, position, path } => ExprView::QualifiedPath {
                qself: qself@,
                position: *position,
                path: path@,
            },
            Expr::Lit(lit) => ExprView::Lit(lit@),
            Expr::Cast { expr, ty } => ExprView::Cast { expr: Box::new(expr.model()), ty: ty@ },
            Expr::Ascription { expr, ty } => ExprView::Ascription {
                expr: Box::new(expr.model()),
                ty: ty@,
            },
            Expr::Call { func, args } => ExprView::Call {
                func: Box::new(func.model()),
                args: Seq::new(
                    args.len() as nat,
                    |i: int|
                        if 0 <= i < args.len() {
                            args[i].model()
                        } else {
                            ExprView::Other(Seq::empty())
                        },
                ),
            },
            Expr::MethodCall { receiver, method, args } => ExprView::MethodCall {
                receiver: Box::new(receiver.model()),
                method: method@,
                args: Seq::new(
                    args.len() as nat,
                    |i: int|
                        if 0 <= i < args.len() {
                            args[i].model()
                        } else {
                            ExprView::Other(Seq::empty())
                        },
                ),
            },
            Expr::Reference { mutable, expr } => ExprView::Reference {
                mutable: *mutable,
                expr: Box::new(expr.model()),
            },
            Expr::Macro { path, format, args } => ExprView::Macro {
                path: path@,
                format: format@,
                args: Seq::new(
                    args.len() as nat,
                    |i: int|
                        if 0 <= i < args.len() {
                            args[i].model()
                        } else {
                            ExprView::Other(Seq::empty())
                        },
                ),
            },
            Expr::Other(text) => ExprView::Other(text@),
        }
    }
}

impl View for Expr {
    type V = ExprView;

    open spec fn view(&self) -> ExprView {
        self.model()
    }
}

/// The values of a list of expressions, in order.
pub open spec fn exprs_view(v: Seq<Expr>) -> Seq<ExprView> {
    v.map_values(|e: Expr| e@)
}

/// The path made of the given identifiers, without generic arguments.
pub open spec fn idents_path(names: Seq<Seq<char>>) -> PathView {
    PathView {
        leading_colon: false,
        segments: names.map_values(
            |n: Seq<char>| PathSegmentView { ident: n, arguments: Seq::empty() },
        ),
    }
}

/// The expression that is the bare name `name`.
pub open spec fn ident_expr(name: Seq<char>) -> ExprView {
    ExprView::Path(idents_path(seq![name]))
}

/// The type that is the bare name `name`.
pub open spec fn ident_type(name: Seq<char>) -> TypeView {
    TypeView::Path(idents_path(seq![name]))
}

/// The source text of one path segment: its identifier, then a space and its
/// generic arguments when it has any.
pub open spec fn segment_text(s: PathSegmentView) -> Seq<char> {
    if s.arguments.len() == 0 {
        s.ident
    } else {
        s.ident + " "@ + s.arguments
    }
}

/// The source text of a run of path segments, joined by ` :: `.
pub open spec fn segments_text(segments: Seq<PathSegmentView>) -> Seq<char>
    decreases segments.len(),
{
    if segments.len() == 0 {
        Seq::empty()
    } else if segments.len() == 1 {
        segment_text(segments[0])
    } else {
        segments_text(segments.drop_last()) + " :: "@ + segment_text(segments.last())
    }
}

/// The source text of a path, tokens separated by single spaces.
pub open spec fn path_text(path: PathView) -> Seq<char> {
    if path.leading_colon {
        ":: "@ + segments_text(path.segments)
    } else {
        segments_text(path.segments)
    }
}

/// The source text of a type.
pub open spec fn type_text(ty: TypeView) -> Seq<char> {
    match ty {
        TypeView::Path(path) => path_text(path),
        TypeView::Other(text) => text,
    }
}

impl PathSegment {
    /// A segment that is the identifier `name` alone.
    pub fn new(name: &str) -> (r: PathSegment)
        ensures
            r@ == (PathSegmentView { ident: name@, arguments: Seq::empty() }),
    {
        PathSegment { ident: owned(name), arguments: String::new() }
    }

    /// An independent copy.
    pub fn duplicate(&self) -> (r: PathSegment)
        ensures
            r@ == self@,
    {
        PathSegment { ident: self.ident.clone(), arguments: self.arguments.clone() }
    }

    /// Whether both segments have the same value.
    pub fn same_as(&self, other: &PathSegment) -> (r: bool)
        ensures
            r == (self@ == other@),
    {
        str_eq(self.ident.as_str(), other.ident.as_str()) && str_eq(
            self.arguments.as_str(),
            other.arguments.as_str(),
        )
    }
}

impl Path {
    /// The path that is the single identifier `name`.
    pub fn ident(name: &str) -> (r: Path)
        ensures
            r@ == idents_path(seq![name@]),
    {
        let mut segments: Vec<PathSegment> = Vec::new();
        segments.push(PathSegment::new(name));
        let r = Path { leading_colon: false, segments };
        assert(r@.segments =~= idents_path(seq![name@]).segments);
        r
    }

    /// The path `first::second`.
    pub fn pair(first: &str, second: &str) -> (r: Path)
        ensures
            r@ == idents_path(seq![first@, second@]),
    {
        let mut segments: Vec<PathSegment> = Vec::new();
        segments.push(PathSegment::new(first));
        segments.push(PathSegment::new(second));
        let r = Path { leading_colon: false, segments };
        assert(r@.segments =~= idents_path(seq![first@, second@]).segments);
        r
    }

    /// The source text of this path.
    pub fn to_text(&self) -> (r: String)
        ensures
            r@ == path_text(self@),
    {
        let mut out = String::new();
        if self.leading_colon {
            out.append(":: ");
        }
        let ghost head = out@;
        let mut i: usize = 0;
        while i < self.segments.len()
            invariant
                i <= self.segments.len(),
                out@ == head + segments_text(self@.segments.take(i as int)),
            decreases self.segments.len() - i,
        {
            let ghost before = self@.segments.take(i as int);
            let ghost after = self@.segments.take(i + 1);
            proof {
                assert(after.drop_last() =~= before);
                assert(after.last() == self.segments[i as int]@);
            }
            if i > 0 {
                out.append(" :: ");
            }
            let segment = &self.segments[i];
            out.append(segment.ident.as_str());
            if !segment.arguments.as_str().is_empty() {
                out.append(" ");
                out.append(segment.arguments.as_str());
            }
            assert(out@ =~= head + segments_text(after));
            i += 1;
        }
        proof {
            assert(self@.segments.take(self.segments.len() as int) =~= self@.segments);
        }
        out
    }

    /// An independent copy.
    pub fn duplicate(&self) -> (r: Path)
        ensures
            r@ == self@,
    {
        let mut segments: Vec<PathSegment> = Vec::new();
        let mut i: usize = 0;
        while i < self.segments.len()
            invariant
                i <= self.segments.len(),
                segments.len() == i,
                forall|j: int| 0 <= j < i ==> segments[j]@ == self.segments[j]@,
            decreases self.segments.len() - i,
        {
            segments.push(self.segments[i].duplicate());
            i += 1;
        }
        let r = Path { leading_colon: self.leading_colon, segments };
        assert(r@.segments =~= self@.segments);
        r
    }

    /// Whether both paths have the same value.
    pub fn same_as(&self, other: &Path) -> (r: bool)
        ensures
            r == (self@ == other@),
    {
        if self.leading_colon != other.leading_colon || self.segments.len()
            != other.segments.len() {
            assert(self@.segments.len() != other@.segments.len() || self@.leading_colon
                != other@.leading_colon);
            return false;
        }
        let mut i: usize = 0;
        while i < self.segments.len()
            invariant
                i <= self.segments.len(),
                self.segments.len() == other.segments.len(),
                self.leading_colon == other.leading_colon,
                forall|j: int| 0 <= j < i ==> self.segments[j]@ == other.segments[j]@,
            decreases self.segments.len() - i,
        {
            if !self.segments[i].same_as(&other.segments[i]) {
                assert(self@.segments[i as int] == self.segments[i as int]@);
                assert(other@.segments[i as int] == other.segments[i as int]@);
                return false;
            }
            i += 1;
        }
        assert(self@.segments =~= other@.segments);
        true
    }
}

impl Type {
    /// The type that is the bare name `name`.
    pub fn ident(name: &str) -> (r: Type)
        ensures
            r@ == ident_type(name@),
    {
        Type::Path(Path::ident(name))
    }

    /// The source text of this type.
    pub fn to_text(&self) -> (r: String)
        ensures
            r@ == type_text(self@),
    {
        match self {
            Type::Path(path) => path.to_text(),
            Type::Other(text) => text.clone(),
        }
    }

    /// An independent copy.
    pub fn duplicate(&self) -> (r: Type)
        ensures
            r@ == self@,
    {
        match self {
            Type::Path(path) => Type::Path(path.duplicate()),
            Type::Other(text) => Type::Other(text.clone()),
        }
    }

    /// Whether both types have the same value.
    pub fn same_as(&self, other: &Type) -> (r: bool)
        ensures
            r == (self@ == other@),
    {
        match (self, other) {
            (Type::Path(p1), Type::Path(p2)) => p1.same_as(p2),
            (Type::Other(a), Type::Other(b)) => str_eq(a.as_str(), b.as_str()),
            _ => false,
        }
    }
}

impl Lit {
    /// The integer literal with the given decimal digits and no suffix.
    pub fn integer(digits: &str) -> (r: Lit)
        ensures
            r@ == (LitView::Int { digits: digits@, suffix: Seq::empty() }),
    {
        Lit::Int { digits: owned(digits), suffix: String::new() }
    }

    /// An independent copy.
    pub fn duplicate(&self) -> (r: Lit)
        ensures
            r@ == self@,
    {
        match self {
            Lit::Int { digits, suffix } => Lit::Int {
                digits: digits.clone(),
                suffix: suffix.clone(),
            },
            Lit::Char(c) => Lit::Char(*c),
            Lit::Other(text) => Lit::Other(text.clone()),
        }
    }
}

/// The value of a node that holds a list of expressions holds the values of
/// those expressions, in order.
pub proof fn lemma_model_of_args(e: Expr)
    ensures
        e matches Expr::Call { func, args } ==> e@ == (ExprView::Call {
            func: Box::new(func@),
            args: exprs_view(args@),
        }),
        e matches Expr::MethodCall { receiver, method, args } ==> e@ == (ExprView::MethodCall {
            receiver: Box::new(receiver@),
            method: method@,
            args: exprs_view(args@),
        }),
        e matches Expr::Macro { path, format, args } ==> e@ == (ExprView::Macro {
            path: path@,
            format: format@,
            args: exprs_view(args@),
        }),
{
    match e {
        Expr::Call { func, args } => {
            assert(e@->Call_args =~= exprs_view(args@));
        },
        Expr::MethodCall { receiver, method, args } => {
            assert(e@->MethodCall_args =~= exprs_view(args@));
        },
        Expr::Macro { path, format, args } => {
            assert(e@->Macro_args =~= exprs_view(args@));
        },
        _ => {},
    }
}

/// An independent copy of a list of expressions.
pub fn duplicate_exprs(v: &Vec<Expr>) -> (r: Vec<Expr>)
    ensures
        exprs_view(r@) == exprs_view(v@),
    decreases v,
{
    let mut out: Vec<Expr> = Vec::new();
    let mut i: usize = 0;
    while i < v.len()
        invariant
            i <= v.len(),
            out.len() == i,
            forall|j: int| 0 <= j < i ==> out[j]@ == v[j]@,
        decreases v.len() - i,
    {
        out.push(v[i].duplicate());
        i += 1;
    }
    assert(exprs_view(out@) =~= exprs_view(v@));
    out
}

impl Expr {
    /// The expression that is the bare name `name`.
    pub fn ident(name: &str) -> (r: Expr)
        ensures
            r@ == ident_expr(name@),
    {
        Expr::Path(Path::ident(name))
    }

    /// The call of `func` on `args`.
    pub fn call(func: Expr, args: Vec<Expr>) -> (r: Expr)
        ensures
            r@ == (ExprView::Call { func: Box::new(func@), args: exprs_view(args@) }),
    {
        let r = Expr::Call { func: Box::new(func), args };
        proof {
            lemma_model_of_args(r);
        }
        r
    }

    /// The call of the method `method` of `receiver` on `args`.
    pub fn method_call(receiver: Expr, method: &str, args: Vec<Expr>) -> (r: Expr)
        ensures
            r@ == (ExprView::MethodCall {
                receiver: Box::new(receiver@),
                method: method@,
                args: exprs_view(args@),
            }),
    {
        let r = Expr::MethodCall { receiver: Box::new(receiver), method: owned(method), args };
        proof {
            lemma_model_of_args(r);
        }
        r
    }

    /// The call of the macro `name` on a string literal, given as the text of
    /// its token, and on `args` after it.
    pub fn format_macro(name: &str, format: String, args: Vec<Expr>) -> (r: Expr)
        ensures
            r@ == (ExprView::Macro {
                path: idents_path(seq![name@]),
                format: format@,
                args: exprs_view(args@),
            }),
    {
        let r = Expr::Macro { path: Path::ident(name), format, args };
        proof {
            lemma_model_of_args(r);
        }
        r
    }

    /// The reference `&expr`, or `&mut expr` where `mutable`.
    pub fn reference(mutable: bool, expr: Expr) -> (r: Expr)
        ensures
            r@ == (ExprView::Reference { mutable, expr: Box::new(expr@) }),
    {
        Expr::Reference { mutable, expr: Box::new(expr) }
    }

    /// The integer literal with the given decimal digits and no suffix.
    pub fn integer(digits: &str) -> (r: Expr)
        ensures
            r@ == ExprView::Lit(LitView::Int { digits: digits@, suffix: Seq::empty() }),
    {
        Expr::Lit(Lit::integer(digits))
    }

    /// An independent copy.
    pub fn duplicate(&self) -> (r: Expr)
        ensures
            r@ == self@,
        decreases self,
    {
        match self {
            Expr::Path(path) => Expr::Path(path.duplicate()),
            Expr::QualifiedPath { qself, position, path } => Expr::QualifiedPath {
                qself: qself.clone(),
                position: *position,
                path: path.duplicate(),
            },
            Expr::Lit(lit) => Expr::Lit(lit.duplicate()),
            Expr::Cast { expr, ty } => Expr::Cast {
                expr: Box::new(expr.duplicate()),
                ty: ty.duplicate(),
            },
            Expr::Ascription { expr, ty } => Expr::Ascription {
                expr: Box::new(expr.duplicate()),
                ty: ty.duplicate(),
            },
            Expr::Call { func, args } => {
                let r = Expr::Call {
                    func: Box::new(func.duplicate()),
                    args: duplicate_exprs(args),
                };
                proof {
                    lemma_model_of_args(r);
                    lemma_model_of_args(*self);
                }
                r
            },
            Expr::MethodCall { receiver, method, args } => {
                let r = Expr::MethodCall {
                    receiver: Box::new(receiver.duplicate()),
                    method: method.clone(),
                    args: duplicate_exprs(args),
                };
                proof {
                    lemma_model_of_args(r);
                    lemma_model_of_args(*self);
                }
                r
            },
            Expr::Reference { mutable, expr } => Expr::Reference {
                mutable: *mutable,
                expr: Box::new(expr.duplicate()),
            },
            Expr::Macro { path, format, args } => {
                let r = Expr::Macro {
                    path: path.duplicate(),
                    format: format.clone(),
                    args: duplicate_exprs(args),
                };
                proof {
                    lemma_model_of_args(r);
                    lemma_model_of_args(*self);
                }
                r
            },
            Expr::Other(text) => Expr::Other(text.clone()),
        }
    }
}

} // verus!
