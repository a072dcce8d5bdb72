//! What a recognizer hands back once it has matched: a finished expression,
//! or the request to build a formatting macro, which is the work of the
//! surrounding converter.

use vstd::prelude::*;
use crate::c_ast::CExprId;
use crate::target::exprs_view;
use crate::target::Expr;
use crate::target::ExprView;

verus! {

/// A request for a call of a printing macro: the C format string to use in
/// place of the one among the C arguments, the names of the macro and of its
/// variant that ends the line, the converted arguments, the C arguments they
/// come from, and the C expression whose source location the macro reports.
#[derive(Debug, PartialEq, Eq)]
pub struct FormatMacroRequest {
    pub format: Option<String>,
    pub macro_name: String,
    pub ln_macro_name: String,
    pub args: Vec<Expr>,
    pub cargs: Vec<CExprId>,
    pub location: CExprId,
}

/// The mathematical value of a [`FormatMacroRequest`].
pub struct FormatMacroRequestView {
    pub format: Option<Seq<char>>,
    pub macro_name: Seq<char>,
    pub ln_macro_name: Seq<char>,
    pub args: Seq<ExprView>,
    pub cargs: Seq<CExprId>,
    pub location: CExprId,
}

impl View for FormatMacroRequest {
    type V = FormatMacroRequestView;

    open spec fn view(&self) -> FormatMacroRequestView {
        FormatMacroRequestView {
            format: match self.format {
                Some(f) => Some(f@),
                None => None,
            },
            macro_name: self.macro_name@,
            ln_macro_name: self.ln_macro_name@,
            args: exprs_view(self.args@),
            cargs: self.cargs@,
            location: self.location,
        }
    }
}

/// The replacement that a recognizer proposes.
#[derive(Debug, PartialEq, Eq)]
pub enum Emission {
    /// The replacement itself.
    Expr(Expr),
    /// The replacement is the macro call that this request describes.
    FormatMacro(FormatMacroRequest),
}

/// The mathematical value of an [`Emission`].
pub enum EmissionView {
    Expr(ExprView),
    FormatMacro(FormatMacroRequestView),
}

impl View for Emission {
    type V = EmissionView;

    open spec fn view(&self) -> EmissionView {
        match self {
            Emission::Expr(e) => EmissionView::Expr(e@),
            Emission::FormatMacro(request) => EmissionView::FormatMacro(request@),
        }
    }
}

/// Why a matched rule could not propose its replacement.
#[derive(Debug, Clone, Copy, PartialEq, Eq, Structural)]
pub enum IdiomError {
    /// A type that the rule itself names did not parse as a type. This is a
    /// defect of the rule, never of the program being translated.
    InternalConstruction,
}

/// The request for a printing macro to standard output.
pub open spec fn print_request(
    format: Option<Seq<char>>,
    args: Seq<ExprView>,
    cargs: Seq<CExprId>,
    location: CExprId,
) -> FormatMacroRequestView {
    FormatMacroRequestView {
        format,
        macro_name: "print"@,
        ln_macro_name: "println"@,
        args,
        cargs,
        location,
    }
}

/// The request for a printing macro to standard error.
pub open spec fn eprint_request(
    format: Option<Seq<char>>,
    args: Seq<ExprView>,
    cargs: Seq<CExprId>,
    location: CExprId,
) -> FormatMacroRequestView {
    FormatMacroRequestView {
        format,
        macro_name: "eprint"@,
        ln_macro_name: "eprintln"@,
        args,
        cargs,
        location,
    }
}

} // verus!
