//! The part of a C syntax tree that the recognizers read: expressions and
//! declarations by identity, with the node kinds whose shape matters.

use vstd::prelude::*;

verus! {

/// The identity of a C expression.
#[derive(Debug, Clone, Copy, PartialEq, Eq, Hash, Structural)]
pub struct CExprId(pub usize);

/// The identity of a C declaration.
#[derive(Debug, Clone, Copy, PartialEq, Eq, Hash, Structural)]
pub struct CDeclId(pub usize);

/// The identity of a C type.
#[derive(Debug, Clone, Copy, PartialEq, Eq, Hash, Structural)]
pub struct CTypeId(pub u64);

/// The kinds of implicit cast that a recognizer tells apart.
#[derive(Debug, Clone, Copy, PartialEq, Eq, Structural)]
pub enum CastKind {
    IntegralCast,
    ArrayToPointerDecay,
    FunctionToPointerDecay,
    Other,
}

/// The binary operators that a recognizer tells apart.
#[derive(Debug, Clone, Copy, PartialEq, Eq, Structural)]
pub enum BinOp {
    Assign,
    Subtract,
    Other,
}

/// The unary operators that a recognizer tells apart.
#[derive(Debug, Clone, Copy, PartialEq, Eq, Structural)]
pub enum UnOp {
    AddressOf,
    Other,
}

/// A C literal. A string literal holds its bytes and the width of one
/// character; a floating literal is kept as its source text.
#[derive(Debug, Clone, PartialEq, Eq)]
pub enum CLiteral {
    Integer(u64),
    Character(u64),
    String(Vec<u8>, u8),
    Floating(String),
}

/// The mathematical value of a [`CLiteral`].
pub enum CLiteralView {
    Integer(u64),
    Character(u64),
    String(Seq<u8>, u8),
    Floating(Seq<char>),
}

impl View for CLiteral {
    type V = CLiteralView;

    open spec fn view(&self) -> CLiteralView {
        match self {
            CLiteral::Integer(v) => CLiteralView::Integer(*v),
            CLiteral::Character(v) => CLiteralView::Character(*v),
            CLiteral::String(bytes, width) => CLiteralView::String(bytes@, *width),
            CLiteral::Floating(text) => CLiteralView::Floating(text@),
        }
    }
}

/// The kind of a C expression, with the identities of its operands.
#[derive(Debug, Clone, PartialEq, Eq)]
pub enum CExprKind {
    Literal(CLiteral),
    DeclRef(CDeclId),
    ImplicitCast(CExprId, CastKind),
    ArraySubscript(CExprId, CExprId),
    Binary(BinOp, CExprId, CExprId),
    Unary(UnOp, CExprId),
    Call(CExprId, Vec<CExprId>),
    Other,
}

/// The mathematical value of a [`CExprKind`].
pub enum CExprKindView {
    Literal(CLiteralView),
    DeclRef(CDeclId),
    ImplicitCast(CExprId, CastKind),
    ArraySubscript(CExprId, CExprId),
    Binary(BinOp, CExprId, CExprId),
    Unary(UnOp, CExprId),
    Call(CExprId, Seq<CExprId>),
    Other,
}

impl View for CExprKind {
    type V = CExprKindView;

    open spec fn view(&self) -> CExprKindView {
        match self {
            CExprKind::Literal(lit) => CExprKindView::Literal(lit@),
            CExprKind::DeclRef(decl) => CExprKindView::DeclRef(*decl),
            CExprKind::ImplicitCast(inner, kind) => CExprKindView::ImplicitCast(*inner, *kind),
            CExprKind::ArraySubscript(base, index) => CExprKindView::ArraySubscript(*base, *index),
            CExprKind::Binary(op, lhs, rhs) => CExprKindView::Binary(*op, *lhs, *rhs),
            CExprKind::Unary(op, operand) => CExprKindView::Unary(*op, *operand),
            CExprKind::Call(callee, args) => CExprKindView::Call(*callee, args@),
            CExprKind::Other => CExprKindView::Other,
        }
    }
}

/// The kind of a C declaration.
#[derive(Debug, Clone, PartialEq, Eq)]
pub enum CDeclKind {
    Function { name: String, parameters: Vec<CDeclId> },
    Variable { ident: String },
    Other,
}

/// The mathematical value of a [`CDeclKind`].
pub enum CDeclKindView {
    Function { name: Seq<char>, parameters: Seq<CDeclId> },
    Variable { ident: Seq<char> },
    Other,
}

impl View for CDeclKind {
    type V = CDeclKindView;

    open spec fn view(&self) -> CDeclKindView {
        match self {
            CDeclKind::Function { name, parameters } => CDeclKindView::Function {
                name: name@,
                parameters: parameters@,
            },
            CDeclKind::Variable { ident } => CDeclKindView::Variable { ident: ident@ },
            CDeclKind::Other => CDeclKindView::Other,
        }
    }
}

/// Whether every operand of `kind` has an identity below `bound`.
pub open spec fn operands_below(kind: CExprKindView, bound: int) -> bool {
    match kind {
        CExprKindView::ImplicitCast(inner, _) => inner.0 < bound,
        CExprKindView::ArraySubscript(base, index) => base.0 < bound && index.0 < bound,
        CExprKindView::Binary(_, lhs, rhs) => lhs.0 < bound && rhs.0 < bound,
        CExprKindView::Unary(_, operand) => operand.0 < bound,
        CExprKindView::Call(callee, args) => callee.0 < bound && forall|i: int|
            0 <= i < args.len() ==> (#[trigger] args[i]).0 < bound,
        _ => true,
    }
}

/// Whether `kind`, if it refers to a declaration, refers to one of the first
/// `count`.
pub open spec fn declaration_below(kind: CExprKindView, count: int) -> bool {
    kind matches CExprKindView::DeclRef(decl) ==> decl.0 < count
}

/// The mathematical value of a [`TypedAstContext`]: the expressions and the
/// declarations, each found at its identity.
pub struct AstView {
    pub exprs: Seq<CExprKindView>,
    pub decls: Seq<CDeclKindView>,
}

impl AstView {
    /// Whether `id` is the identity of an expression of this tree.
    pub open spec fn has_expr(self, id: CExprId) -> bool {
        id.0 < self.exprs.len()
    }

    /// Whether `id` is the identity of a declaration of this tree.
    pub open spec fn has_decl(self, id: CDeclId) -> bool {
        id.0 < self.decls.len()
    }

    /// Whether each of `ids` is the identity of an expression of this tree.
    pub open spec fn has_exprs(self, ids: Seq<CExprId>) -> bool {
        forall|i: int| 0 <= i < ids.len() ==> self.has_expr(#[trigger] ids[i])
    }

    /// The kind of the expression `id`.
    pub open spec fn kind(self, id: CExprId) -> CExprKindView {
        self.exprs[id.0 as int]
    }

    /// The kind of the declaration `id`.
    pub open spec fn decl(self, id: CDeclId) -> CDeclKindView {
        self.decls[id.0 as int]
    }

    /// Whether the tree is in order: the operands of an expression were added
    /// before it, and so was the declaration that it refers to.
    pub open spec fn well_formed(self) -> bool {
        forall|i: int|
            0 <= i < self.exprs.len() ==> operands_below(#[trigger] self.exprs[i], i)
                && declaration_below(self.exprs[i], self.decls.len() as int)
    }
}

/// The expressions and declarations of one translation unit. It grows by
/// adding nodes, operands first, and is always in order.
#[derive(Debug)]
pub struct TypedAstContext {
    exprs: Vec<CExprKind>,
    decls: Vec<CDeclKind>,
}

impl View for TypedAstContext {
    type V = AstView;

    closed spec fn view(&self) -> AstView {
        AstView {
            exprs: self.exprs@.map_values(|k: CExprKind| k@),
            decls: self.decls@.map_values(|k: CDeclKind| k@),
        }
    }
}

impl TypedAstContext {
    #[verifier::type_invariant]
    pub closed spec fn in_order(&self) -> bool {
        self@.well_formed()
    }

    /// An empty tree.
    pub fn new() -> (r: TypedAstContext)
        ensures
            r@.exprs.len() == 0,
            r@.decls.len() == 0,
    {
        TypedAstContext { exprs: Vec::new(), decls: Vec::new() }
    }

    /// The number of expressions.
    pub fn expr_count(&self) -> (r: usize)
        ensures
            r == self@.exprs.len(),
            self@.well_formed(),
    {
        proof {
            use_type_invariant(self);
        }
        self.exprs.len()
    }

    /// The number of declarations.
    pub fn decl_count(&self) -> (r: usize)
        ensures
            r == self@.decls.len(),
    {
        self.decls.len()
    }

    /// Adds a declaration and returns its identity.
    pub fn add_decl(&mut self, kind: CDeclKind) -> (r: CDeclId)
        ensures
            r.0 == old(self)@.decls.len(),
            final(self)@.decls == old(self)@.decls.push(kind@),
            final(self)@.exprs == old(self)@.exprs,
    {
        proof {
            use_type_invariant(&*self);
        }
        let mut taken = TypedAstContext::new();
        core::mem::swap(self, &mut taken);
        let TypedAstContext { exprs, mut decls } = taken;
        let id = decls.len();
        decls.push(kind);
        proof {
            let before = old(self)@;
            let after = AstView {
                exprs: exprs@.map_values(|k: CExprKind| k@),
                decls: decls@.map_values(|k: CDeclKind| k@),
            };
            assert(after.exprs =~= before.exprs);
            assert(after.decls =~= before.decls.push(kind@));
            assert forall|i: int| 0 <= i < after.exprs.len() implies operands_below(
                #[trigger] after.exprs[i],
                i,
            ) && declaration_below(after.exprs[i], after.decls.len() as int) by {
                assert(operands_below(before.exprs[i], i));
                assert(declaration_below(before.exprs[i], before.decls.len() as int));
            }
        }
        *self = TypedAstContext { exprs, decls };
        proof {
            assert(self@.decls =~= old(self)@.decls.push(kind@));
            assert(self@.exprs =~= old(self)@.exprs);
        }
        CDeclId(id)
    }

    /// Whether `kind` may be added: its operands and the declaration it refers
    /// to are in the tree.
    pub open spec fn admits(self, kind: CExprKindView) -> bool {
        operands_below(kind, self@.exprs.len() as int) && declaration_below(
            kind,
            self@.decls.len() as int,
        )
    }

    /// Whether `kind` may be added.
    pub fn can_add(&self, kind: &CExprKind) -> (r: bool)
        ensures
            r == self.admits(kind@),
    {
        let n = self.exprs.len();
        match kind {
            CExprKind::DeclRef(decl) => decl.0 < self.decls.len(),
            CExprKind::ImplicitCast(inner, _) => inner.0 < n,
            CExprKind::ArraySubscript(base, index) => base.0 < n && index.0 < n,
            CExprKind::Binary(_, lhs, rhs) => lhs.0 < n && rhs.0 < n,
            CExprKind::Unary(_, operand) => operand.0 < n,
            CExprKind::Call(callee, args) => {
                if callee.0 >= n {
                    return false;
                }
                let mut i: usize = 0;
                while i < args.len()
                    invariant
                        i <= args.len(),
                        n == self@.exprs.len(),
                        callee.0 < n,
                        kind@ == CExprKindView::Call(*callee, args@),
                        forall|j: int| 0 <= j < i ==> (#[trigger] args[j]).0 < n,
                    decreases args.len() - i,
                {
                    if args[i].0 >= n {
                        proof {
                            let ids = kind@->Call_1;
                            assert(ids[i as int].0 >= n);
                            assert(!operands_below(kind@, n as int));
                        }
                        return false;
                    }
                    i += 1;
                }
                true
            },
            _ => true,
        }
    }

    /// Adds an expression and returns its identity, or returns `None` and
    /// leaves the tree as it is where an operand of `kind`, or the declaration
    /// it refers to, is not in the tree.
    pub fn add_expr(&mut self, kind: CExprKind) -> (r: Option<CExprId>)
        ensures
            match r {
                Some(id) => {
                    &&& old(self).admits(kind@)
                    &&& id.0 == old(self)@.exprs.len()
                    &&& final(self)@.exprs == old(self)@.exprs.push(kind@)
                    &&& final(self)@.decls == old(self)@.decls
                },
                None => !old(self).admits(kind@) && final(self)@ == old(self)@,
            },
    {
        proof {
            use_type_invariant(&*self);
        }
        if !self.can_add(&kind) {
            return None;
        }
        let mut taken = TypedAstContext::new();
        core::mem::swap(self, &mut taken);
        let TypedAstContext { mut exprs, decls } = taken;
        let id = exprs.len();
        exprs.push(kind);
        proof {
            let before = old(self)@;
            let after = AstView {
                exprs: exprs@.map_values(|k: CExprKind| k@),
                decls: decls@.map_values(|k: CDeclKind| k@),
            };
            assert(after.exprs =~= before.exprs.push(kind@));
            assert(after.decls =~= before.decls);
            assert forall|i: int| 0 <= i < after.exprs.len() implies operands_below(
                #[trigger] after.exprs[i],
                i,
            ) && declaration_below(after.exprs[i], after.decls.len() as int) by {
                if i < before.exprs.len() {
                    assert(operands_below(before.exprs[i], i));
                    assert(declaration_below(before.exprs[i], before.decls.len() as int));
                }
            }
        }
        *self = TypedAstContext { exprs, decls };
        proof {
            assert(self@.exprs =~= old(self)@.exprs.push(kind@));
            assert(self@.decls =~= old(self)@.decls);
        }
        Some(CExprId(id))
    }

    /// The kind of the expression `id`.
    pub fn index(&self, id: CExprId) -> (r: &CExprKind)
        requires
            self@.has_expr(id),
        ensures
            r@ == self@.kind(id),
            operands_below(r@, id.0 as int),
            declaration_below(r@, self@.decls.len() as int),
            self@.well_formed(),
    {
        proof {
            use_type_invariant(self);
        }
        &self.exprs[id.0]
    }

    /// The kind of the declaration `id`.
    pub fn decl(&self, id: CDeclId) -> (r: &CDeclKind)
        requires
            self@.has_decl(id),
        ensures
            r@ == self@.decl(id),
    {
        &self.decls[id.0]
    }
}

} // verus!
