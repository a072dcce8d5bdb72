//! The recognizers that look at a call before its arguments are converted.
//! Each fires for one callee name, and only where the guidance oracle says
//! that the arguments it is about are meant to have a higher-level type.

use vstd::prelude::*;
use crate::c_ast::AstView;
use crate::c_ast::CExprId;
use crate::guidance::GuidanceView;
use crate::shape::expr_get_path;
use crate::shape::expr_is_ident;
use crate::shape::get_path;
use crate::shape::is_ident;
use crate::shape::is_path_exactly_1;
use crate::shape::path_is_exactly_1;
use crate::target::Expr;
use crate::target::ExprView;
use crate::translation::is_var_ident;
use crate::translation::var_decl_id;
use crate::translation::Translation;

verus! {

/// A call that a guided recognizer matched, with the C arguments whose
/// conversions the replacement is built from.
#[derive(Debug, Clone, Copy, PartialEq, Eq, Structural)]
pub enum GuidedCall {
    /// `fputs(text, stdout)` where `text` is guided to be a `String`.
    PutsStdout { text: CExprId },
    /// `strlen(text)` where `text` is guided to be a `String`.
    Strlen { text: CExprId },
    /// `strcspn(text, charset)` where both are guided to be a `String`.
    Strcspn { text: CExprId, charset: CExprId },
    /// `isblank(ch)` where `ch` is guided to be a `char`.
    IsBlank { ch: CExprId },
    /// `fgets(buffer, limit, stdin)` where `buffer` is guided to be a `String`.
    FgetsStdin { buffer: CExprId, limit: CExprId },
}

/// Whether `expr` refers to the standard output stream, by its canonical name
/// or by the name that one platform gives it.
pub open spec fn names_stdout(ast: AstView, expr: CExprId) -> bool {
    is_var_ident(ast, expr, "stdout"@) || is_var_ident(ast, expr, "__stdoutp"@)
}

/// Whether `expr` refers to the standard input stream, by its canonical name
/// or by the name that one platform gives it.
pub open spec fn names_stdin(ast: AstView, expr: CExprId) -> bool {
    is_var_ident(ast, expr, "stdin"@) || is_var_ident(ast, expr, "__stdinp"@)
}

/// Whether `expr` refers to a variable that is guided to the type with the
/// canonical text `name`.
pub open spec fn guided_var(ast: AstView, guidance: GuidanceView, expr: CExprId, name: Seq<char>) -> bool {
    var_decl_id(ast, expr) matches Some(decl) && guidance.guides(decl, name)
}

/// The rule for `fputs`: two arguments, the second the standard output, the
/// first guided to be a `String`.
pub open spec fn fputs_stdout_guided(
    ast: AstView,
    guidance: GuidanceView,
    func: ExprView,
    cargs: Seq<CExprId>,
) -> Option<GuidedCall> {
    if is_ident(func, "fputs"@) && cargs.len() == 2 && names_stdout(ast, cargs[1]) && guided_var(
        ast,
        guidance,
        cargs[0],
        "String"@,
    ) {
        Some(GuidedCall::PutsStdout { text: cargs[0] })
    } else {
        None
    }
}

/// The rule for `strlen`: one argument, guided to be a `String`.
pub open spec fn strlen_guided(
    ast: AstView,
    guidance: GuidanceView,
    func: ExprView,
    cargs: Seq<CExprId>,
) -> Option<GuidedCall> {
    if is_ident(func, "strlen"@) && cargs.len() == 1 && guided_var(
        ast,
        guidance,
        cargs[0],
        "String"@,
    ) {
        Some(GuidedCall::Strlen { text: cargs[0] })
    } else {
        None
    }
}

/// The rule for `strcspn`: two arguments, both guided to be a `String`.
pub open spec fn strcspn_guided(
    ast: AstView,
    guidance: GuidanceView,
    func: ExprView,
    cargs: Seq<CExprId>,
) -> Option<GuidedCall> {
    if is_ident(func, "strcspn"@) && cargs.len() == 2 && guided_var(
        ast,
        guidance,
        cargs[0],
        "String"@,
    ) && guided_var(ast, guidance, cargs[1], "String"@) {
        Some(GuidedCall::Strcspn { text: cargs[0], charset: cargs[1] })
    } else {
        None
    }
}

/// The rule for `isblank`: one argument, guided to be a `char`.
pub open spec fn isblank_guided(
    ast: AstView,
    guidance: GuidanceView,
    func: ExprView,
    cargs: Seq<CExprId>,
) -> Option<GuidedCall> {
    if is_ident(func, "isblank"@) && cargs.len() == 1 && guided_var(
        ast,
        guidance,
        cargs[0],
        "char"@,
    ) {
        Some(GuidedCall::IsBlank { ch: cargs[0] })
    } else {
        None
    }
}

/// The rule for `fgets`: three arguments, the third the standard input, the
/// first guided to be a `String`.
pub open spec fn fgets_stdin(
    ast: AstView,
    guidance: GuidanceView,
    func: ExprView,
    cargs: Seq<CExprId>,
) -> Option<GuidedCall> {
    if is_ident(func, "fgets"@) && cargs.len() == 3 && names_stdin(ast, cargs[2]) && guided_var(
        ast,
        guidance,
        cargs[0],
        "String"@,
    ) {
        Some(GuidedCall::FgetsStdin { buffer: cargs[0], limit: cargs[1] })
    } else {
        None
    }
}

/// The guided rule that matches the call of `func` on `cargs`, if one does:
/// the rule that the name of the callee selects, where the callee is a bare
/// name and that rule matches.
pub open spec fn preconversion(
    ast: AstView,
    guidance: GuidanceView,
    func: ExprView,
    cargs: Seq<CExprId>,
) -> Option<GuidedCall> {
    match get_path(func) {
        Some(path) => if path_is_exactly_1(path, "fputs"@) {
            fputs_stdout_guided(ast, guidance, func, cargs)
        } else if path_is_exactly_1(path, "fgets"@) {
            fgets_stdin(ast, guidance, func, cargs)
        } else if path_is_exactly_1(path, "strlen"@) {
            strlen_guided(ast, guidance, func, cargs)
        } else if path_is_exactly_1(path, "strcspn"@) {
            strcspn_guided(ast, guidance, func, cargs)
        } else if path_is_exactly_1(path, "isblank"@) {
            isblank_guided(ast, guidance, func, cargs)
        } else {
            None
        },
        None => None,
    }
}

impl Translation {
    /// Whether `expr` refers to a variable that is guided to the type with the
    /// canonical text `name`.
    pub fn c_expr_is_guided_var(&self, expr: CExprId, name: &str) -> (r: bool)
        requires
            self.ast_context@.has_expr(expr),
        ensures
            r == guided_var(self.ast_context@, self.parsed_guidance@, expr, name@),
    {
        match self.c_expr_get_var_decl_id(expr) {
            Some(decl) => self.parsed_guidance.is_guided_as(decl, name),
            None => false,
        }
    }

    /// Recognizes the guided rule that matches a call, if one does, before the
    /// arguments of the call are converted. A failed match changes nothing:
    /// the context is only read.
    pub fn call_form_cases_preconversion(&self, func: &Expr, cargs: &[CExprId]) -> (r: Option<
        GuidedCall,
    >)
        requires
            self.ast_context@.has_exprs(cargs@),
        ensures
            r == preconversion(self.ast_context@, self.parsed_guidance@, func@, cargs@),
    {
        if let Some(path) = expr_get_path(func) {
            if is_path_exactly_1(path, "fputs") {
                self.recognize_preconversion_call_fputs_stdout_guided(func, cargs)
            } else if is_path_exactly_1(path, "fgets") {
                self.recognize_preconversion_call_fgets_stdin(func, cargs)
            } else if is_path_exactly_1(path, "strlen") {
                self.recognize_preconversion_call_strlen_guided(func, cargs)
            } else if is_path_exactly_1(path, "strcspn") {
                self.recognize_preconversion_call_strcspn_guided(func, cargs)
            } else if is_path_exactly_1(path, "isblank") {
                self.recognize_preconversion_call_isblank_guided(func, cargs)
            } else {
                None
            }
        } else {
            None
        }
    }

    /// Recognizes `fputs(text, stdout)` where `text` is a variable guided to
    /// be a `String`.
    pub fn recognize_preconversion_call_fputs_stdout_guided(
        &self,
        func: &Expr,
        cargs: &[CExprId],
    ) -> (r: Option<GuidedCall>)
        requires
            self.ast_context@.has_exprs(cargs@),
        ensures
            r == fputs_stdout_guided(self.ast_context@, self.parsed_guidance@, func@, cargs@),
    {
        if expr_is_ident(func, "fputs") && cargs.len() == 2 {
            if !(self.c_expr_is_var_ident(cargs[1], "stdout") || self.c_expr_is_var_ident(
                cargs[1],
                "__stdoutp",
            )) {
                return None;
            }
            if self.c_expr_is_guided_var(cargs[0], "String") {
                return Some(GuidedCall::PutsStdout { text: cargs[0] });
            }
        }
        None
    }

    /// Recognizes `strlen(text)` where `text` is a variable guided to be a
    /// `String`.
    pub fn recognize_preconversion_call_strlen_guided(&self, func: &Expr, cargs: &[CExprId]) -> (r:
        Option<GuidedCall>)
        requires
            self.ast_context@.has_exprs(cargs@),
        ensures
            r == strlen_guided(self.ast_context@, self.parsed_guidance@, func@, cargs@),
    {
        if expr_is_ident(func, "strlen") && cargs.len() == 1 {
            if self.c_expr_is_guided_var(cargs[0], "String") {
                return Some(GuidedCall::Strlen { text: cargs[0] });
            }
        }
        None
    }

    /// Recognizes `strcspn(text, charset)` where both are variables guided to
    /// be a `String`.
    pub fn recognize_preconversion_call_strcspn_guided(&self, func: &Expr, cargs: &[CExprId]) -> (r:
        Option<GuidedCall>)
        requires
            self.ast_context@.has_exprs(cargs@),
        ensures
            r == strcspn_guided(self.ast_context@, self.parsed_guidance@, func@, cargs@),
    {
        if expr_is_ident(func, "strcspn") && cargs.len() == 2 {
            if self.c_expr_is_guided_var(cargs[0], "String") && self.c_expr_is_guided_var(
                cargs[1],
                "String",
            ) {
                return Some(GuidedCall::Strcspn { text: cargs[0], charset: cargs[1] });
            }
        }
        None
    }

    /// Recognizes `isblank(ch)` where `ch` is a variable guided to be a
    /// `char`.
    pub fn recognize_preconversion_call_isblank_guided(&self, func: &Expr, cargs: &[CExprId]) -> (r:
        Option<GuidedCall>)
        requires
            self.ast_context@.has_exprs(cargs@),
        ensures
            r == isblank_guided(self.ast_context@, self.parsed_guidance@, func@, cargs@),
    {
        if expr_is_ident(func, "isblank") && cargs.len() == 1 {
            if self.c_expr_is_guided_var(cargs[0], "char") {
                return Some(GuidedCall::IsBlank { ch: cargs[0] });
            }
        }
        None
    }

    /// Recognizes `fgets(buffer, limit, stdin)` where `buffer` is a variable
    /// guided to be a `String`.
    pub fn recognize_preconversion_call_fgets_stdin(&self, func: &Expr, cargs: &[CExprId]) -> (r:
        Option<GuidedCall>)
        requires
            self.ast_context@.has_exprs(cargs@),
        ensures
            r == fgets_stdin(self.ast_context@, self.parsed_guidance@, func@, cargs@),
    {
        if expr_is_ident(func, "fgets") && cargs.len() == 3 {
            if !(self.c_expr_is_var_ident(cargs[2], "stdin") || self.c_expr_is_var_ident(
                cargs[2],
                "__stdinp",
            )) {
                return None;
            }
            if self.c_expr_is_guided_var(cargs[0], "String") {
                return Some(GuidedCall::FgetsStdin { buffer: cargs[0], limit: cargs[1] });
            }
        }
        None
    }
}

} // verus!
