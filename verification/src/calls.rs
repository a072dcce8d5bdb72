//! The classification of a call whose arguments are converted already:
//! formatted output to a standard stream, formatted input into variables whose
//! address is taken, or a call like any other.

use vstd::prelude::*;
use crate::c_ast::AstView;
use crate::c_ast::CExprId;
use crate::emission::eprint_request;
use crate::emission::print_request;
use crate::emission::Emission;
use crate::emission::EmissionView;
use crate::emission::FormatMacroRequest;
use crate::registry::added_once;
use crate::registry::ItemStoreView;
use crate::registry::UseDeclView;
use crate::scanf::all_simple;
use crate::scanf::directives_all_simple;
use crate::scanf::directives_format;
use crate::scanf::scanf_format;
use crate::scanf::truncate_directives;
use crate::scanf::truncated;
use crate::scanf::Directive;
use crate::shape::expr_is_ident;
use crate::shape::is_ident;
use crate::target::exprs_view;
use crate::target::idents_path;
use crate::target::Expr;
use crate::target::ExprView;
use crate::text::decode_utf8_lossy;
use crate::text::owned;
use crate::text::utf8_lossy;
use crate::translation::addr_of_operand;
use crate::translation::str_lit_bytes;
use crate::translation::Translation;
use crate::translation::TranslationView;

verus! {

/// The text of the string literal token whose value is `value`: the value
/// between double quotes, with the escapes that make it one token.
pub uninterp spec fn string_literal_text(value: Seq<char>) -> Seq<char>;

/// The text of the string literal token whose value is `value`. Trusted: this
/// is `proc_macro2::Literal::string`, printed; the token depends on the value
/// alone.
#[verifier::external_body]
fn string_literal_token(value: &str) -> (r: String)
    ensures
        r@ == string_literal_text(value@),
{
    proc_macro2::Literal::string(value).to_string()
}

/// What a call is recognized as.
#[derive(Debug, PartialEq, Eq)]
pub enum RecognizedCallForm {
    /// Formatted output to the standard output: the arguments from the format
    /// on, and the C expression of the format.
    PrintfOut(Vec<Expr>, CExprId),
    /// Formatted output to the standard error: the arguments from the format
    /// on, and the C expression of the format.
    PrintfErr(Vec<Expr>, CExprId),
    /// Formatted input whose directives are all simple and whose arguments
    /// after the format all take the address of something: the directives and
    /// those C arguments.
    ScanfAddrTaken(Vec<Directive>, Vec<CExprId>),
    /// Any other call: the callee and the arguments, as they came.
    OtherCall(Expr, Vec<Expr>),
}

/// The mathematical value of a [`RecognizedCallForm`].
pub enum RecognizedCallFormView {
    PrintfOut(Seq<ExprView>, CExprId),
    PrintfErr(Seq<ExprView>, CExprId),
    ScanfAddrTaken(Seq<Directive>, Seq<CExprId>),
    OtherCall(ExprView, Seq<ExprView>),
}

impl View for RecognizedCallForm {
    type V = RecognizedCallFormView;

    open spec fn view(&self) -> RecognizedCallFormView {
        match self {
            RecognizedCallForm::PrintfOut(args, fmt) => RecognizedCallFormView::PrintfOut(
                exprs_view(args@),
                *fmt,
            ),
            RecognizedCallForm::PrintfErr(args, fmt) => RecognizedCallFormView::PrintfErr(
                exprs_view(args@),
                *fmt,
            ),
            RecognizedCallForm::ScanfAddrTaken(directives, cargs) => {
                RecognizedCallFormView::ScanfAddrTaken(directives@, cargs@)
            },
            RecognizedCallForm::OtherCall(func, args) => RecognizedCallFormView::OtherCall(
                func@,
                exprs_view(args@),
            ),
        }
    }
}

/// Whether `e` names the standard error stream, by its canonical name or by
/// the name that one platform gives it.
pub open spec fn names_stderr(e: ExprView) -> bool {
    is_ident(e, "stderr"@) || is_ident(e, "__stderrp"@)
}

/// Whether `e` names the standard output stream, by its canonical name or by
/// the name that one platform gives it.
pub open spec fn names_stdout(e: ExprView) -> bool {
    is_ident(e, "stdout"@) || is_ident(e, "__stdoutp"@)
}

/// Whether the call is one of `fprintf` with a first argument, the stream.
pub open spec fn is_fprintf_with_stream(func: ExprView, args: Seq<ExprView>) -> bool {
    is_ident(func, "fprintf"@) && args.len() > 0
}

/// The bytes of the format of a formatted-input call: the callee is `scanf`,
/// arguments follow the format, and the first C argument is a string literal.
pub open spec fn scanf_format_bytes(
    ast: AstView,
    func: ExprView,
    args: Seq<ExprView>,
    cargs: Seq<CExprId>,
) -> Option<Seq<u8>> {
    if is_ident(func, "scanf"@) && args.len() > 1 && cargs.len() > 0 {
        str_lit_bytes(ast, cargs[0])
    } else {
        None
    }
}

/// Whether each of `cargs` takes the address of something.
pub open spec fn all_address_taken(ast: AstView, cargs: Seq<CExprId>) -> bool {
    forall|i: int| 0 <= i < cargs.len() ==> addr_of_operand(ast, #[trigger] cargs[i]) is Some
}

/// The operands of the address-of expressions `cargs`.
pub open spec fn address_operands(ast: AstView, cargs: Seq<CExprId>) -> Seq<CExprId> {
    cargs.map_values(|c: CExprId| addr_of_operand(ast, c).unwrap())
}

/// The directives that a parser of format strings reported, if it was asked
/// and succeeded.
pub open spec fn parsed_directives(parsed: Option<Result<Vec<Directive>, String>>) -> Option<
    Seq<Directive>,
> {
    match parsed {
        Some(Ok(directives)) => Some(directives@),
        _ => None,
    }
}

/// What the call of `func` on `args` is recognized as. `cargs` are the C
/// arguments that `args` were converted from, and `directives` is what parsing
/// the format of a formatted-input call gave.
pub open spec fn call_form(
    ast: AstView,
    func: ExprView,
    args: Seq<ExprView>,
    cargs: Seq<CExprId>,
    directives: Option<Seq<Directive>>,
) -> RecognizedCallFormView {
    if is_ident(func, "printf"@) {
        RecognizedCallFormView::PrintfOut(args, cargs[0])
    } else if is_fprintf_with_stream(func, args) && names_stderr(args[0]) {
        RecognizedCallFormView::PrintfErr(args.skip(1), cargs[1])
    } else if is_fprintf_with_stream(func, args) && names_stdout(args[0]) {
        RecognizedCallFormView::PrintfOut(args.skip(1), cargs[1])
    } else if scanf_format_bytes(ast, func, args, cargs) is Some && (directives matches Some(ds)
        && all_simple(ds)) && all_address_taken(ast, cargs.skip(1)) {
        RecognizedCallFormView::ScanfAddrTaken(directives.unwrap(), cargs.skip(1))
    } else {
        RecognizedCallFormView::OtherCall(func, args)
    }
}

/// Whether the C arguments suffice for the call to be classified: a
/// formatted-output call has a format among them.
pub open spec fn has_format_argument(func: ExprView, args: Seq<ExprView>, cargs: Seq<CExprId>) -> bool {
    &&& is_ident(func, "printf"@) ==> cargs.len() >= 1
    &&& is_fprintf_with_stream(func, args) && (names_stderr(args[0]) || names_stdout(args[0]))
        ==> cargs.len() >= 2
}

/// The import of the scanning macro.
pub open spec fn scanf_use() -> UseDeclView {
    UseDeclView { path: seq!["scanf"@], name: "scanf"@ }
}

/// The call of the scanning macro for `directives` on `converted`. Every
/// directive is translated, unless conversions outnumber the arguments: then
/// only the first directives are, as many as there are arguments.
pub open spec fn scanf_call(directives: Seq<Directive>, converted: Seq<ExprView>) -> ExprView {
    ExprView::Macro {
        path: idents_path(seq!["scanf"@]),
        format: string_literal_text(
            directives_format(truncated(directives, converted.len())),
        ),
        args: converted,
    }
}

/// What a classified call is translated to. `cargs` are all the C arguments
/// of the call, and `converted` the conversions of the operands of a
/// formatted-input call.
pub open spec fn call_translation(
    form: RecognizedCallFormView,
    cargs: Seq<CExprId>,
    converted: Seq<ExprView>,
) -> EmissionView {
    match form {
        RecognizedCallFormView::PrintfOut(args, fmt) => EmissionView::FormatMacro(
            print_request(None, args, cargs, fmt),
        ),
        RecognizedCallFormView::PrintfErr(args, fmt) => EmissionView::FormatMacro(
            eprint_request(None, args, cargs, fmt),
        ),
        RecognizedCallFormView::ScanfAddrTaken(directives, _) => EmissionView::Expr(
            scanf_call(directives, converted),
        ),
        RecognizedCallFormView::OtherCall(func, args) => EmissionView::Expr(
            ExprView::Call { func: Box::new(func), args },
        ),
    }
}

/// The registry after a classified call is translated: the translation of
/// formatted input depends on the crate of the scanning macro and imports it,
/// and no other translation registers anything.
pub open spec fn call_registry(form: RecognizedCallFormView, items: ItemStoreView) -> ItemStoreView {
    match form {
        RecognizedCallFormView::ScanfAddrTaken(..) => ItemStoreView {
            items: items.items,
            uses: added_once(items.uses, scanf_use()),
            crates: added_once(items.crates, "scanf"@),
        },
        _ => items,
    }
}

/// A copy of `cargs` from the position `from` on.
fn copy_from(cargs: &[CExprId], from: usize) -> (r: Vec<CExprId>)
    requires
        from <= cargs.len(),
    ensures
        r@ == cargs@.skip(from as int),
{
    let mut out: Vec<CExprId> = Vec::new();
    let mut i: usize = from;
    while i < cargs.len()
        invariant
            from <= i <= cargs.len(),
            out@ == cargs@.subrange(from as int, i as int),
        decreases cargs.len() - i,
    {
        out.push(cargs[i]);
        assert(out@ =~= cargs@.subrange(from as int, i + 1));
        i += 1;
    }
    assert(out@ =~= cargs@.skip(from as int));
    out
}

/// Whether the C arguments suffice for the call to be classified: a
/// formatted-output call has a format among them.
pub fn call_has_format_argument(func: &Expr, args: &Vec<Expr>, cargs: &[CExprId]) -> (r: bool)
    ensures
        r == has_format_argument(func@, exprs_view(args@), cargs@),
{
    if expr_is_ident(func, "printf") && cargs.len() < 1 {
        return false;
    }
    if expr_is_ident(func, "fprintf") && args.len() > 0 {
        assert(exprs_view(args@)[0] == args[0]@);
        let stream = &args[0];
        let named = expr_is_ident(stream, "stderr") || expr_is_ident(stream, "__stderrp")
            || expr_is_ident(stream, "stdout") || expr_is_ident(stream, "__stdoutp");
        if named && cargs.len() < 2 {
            return false;
        }
    }
    true
}

impl Translation {
    /// The format of a formatted-input call as text, for a parser of format
    /// strings: bytes that are not valid UTF-8 are replaced.
    pub fn scanf_format_text(&self, func: &Expr, args: &Vec<Expr>, cargs: &[CExprId]) -> (r: Option<
        String,
    >)
        requires
            self.ast_context@.has_exprs(cargs@),
        ensures
            match r {
                Some(text) => scanf_format_bytes(
                    self.ast_context@,
                    func@,
                    exprs_view(args@),
                    cargs@,
                ) matches Some(bytes) && text@ == utf8_lossy(bytes),
                None => scanf_format_bytes(self.ast_context@, func@, exprs_view(args@), cargs@)
                    is None,
            },
    {
        if expr_is_ident(func, "scanf") && args.len() > 1 && cargs.len() > 0 {
            match self.c_expr_get_str_lit_bytes(cargs[0]) {
                Some(bytes) => Some(decode_utf8_lossy(bytes.as_slice())),
                None => None,
            }
        } else {
            None
        }
    }

    /// Whether each of `cargs` takes the address of something.
    pub fn all_address_taken(&self, cargs: &Vec<CExprId>) -> (r: bool)
        requires
            self.ast_context@.has_exprs(cargs@),
        ensures
            r == all_address_taken(self.ast_context@, cargs@),
    {
        let mut i: usize = 0;
        while i < cargs.len()
            invariant
                i <= cargs.len(),
                self.ast_context@.has_exprs(cargs@),
                forall|j: int|
                    0 <= j < i ==> addr_of_operand(self.ast_context@, #[trigger] cargs[j]) is Some,
            decreases cargs.len() - i,
        {
            if self.c_expr_get_addr_of(cargs[i]).is_none() {
                return false;
            }
            i += 1;
        }
        true
    }

    /// Classifies a call whose arguments are converted.
    ///
    /// `parsed` is the outcome of parsing the text that
    /// [`scanf_format_text`](Self::scanf_format_text) gave, or `None` where no
    /// parser was asked. A format that does not parse leaves the call
    /// unrecognized.
    pub fn call_form_cases(
        &self,
        func: Expr,
        args: Vec<Expr>,
        cargs: &[CExprId],
        parsed: Option<Result<Vec<Directive>, String>>,
    ) -> (r: RecognizedCallForm)
        requires
            self.ast_context@.has_exprs(cargs@),
            has_format_argument(func@, exprs_view(args@), cargs@),
        ensures
            r@ == call_form(
                self.ast_context@,
                func@,
                exprs_view(args@),
                cargs@,
                parsed_directives(parsed),
            ),
            r matches RecognizedCallForm::ScanfAddrTaken(_, taken) ==> self.ast_context@.has_exprs(
                taken@,
            ) && all_address_taken(self.ast_context@, taken@),
    {
        let mut args = args;
        if expr_is_ident(&func, "printf") {
            return RecognizedCallForm::PrintfOut(args, cargs[0]);
        }
        if expr_is_ident(&func, "fprintf") && args.len() > 0 {
            let ghost all = exprs_view(args@);
            assert(all[0] == args[0]@);
            if expr_is_ident(&args[0], "stderr") || expr_is_ident(&args[0], "__stderrp") {
                args.remove(0);
                assert(exprs_view(args@) =~= all.skip(1));
                return RecognizedCallForm::PrintfErr(args, cargs[1]);
            }
            if expr_is_ident(&args[0], "stdout") || expr_is_ident(&args[0], "__stdoutp") {
                args.remove(0);
                assert(exprs_view(args@) =~= all.skip(1));
                return RecognizedCallForm::PrintfOut(args, cargs[1]);
            }
        }
        if expr_is_ident(&func, "scanf") && args.len() > 1 && cargs.len() > 0 {
            if self.c_expr_get_str_lit_bytes(cargs[0]).is_some() {
                if let Some(Ok(directives)) = parsed {
                    if directives_all_simple(&directives) {
                        let cargs_after_fmt = copy_from(cargs, 1);
                        assert(self.ast_context@.has_exprs(cargs_after_fmt@)) by {
                            assert forall|i: int|
                                0 <= i < cargs_after_fmt.len() implies self.ast_context@.has_expr(
                                #[trigger] cargs_after_fmt@[i],
                            ) by {
                                assert(cargs_after_fmt@[i] == cargs@[i + 1]);
                            }
                        }
                        if self.all_address_taken(&cargs_after_fmt) {
                            return RecognizedCallForm::ScanfAddrTaken(directives, cargs_after_fmt);
                        }
                    }
                }
            }
        }
        RecognizedCallForm::OtherCall(func, args)
    }

    /// The C expressions to convert, as values that are used, before a
    /// classified call can be translated: the operands of the address-of
    /// arguments of a formatted-input call, and nothing for any other call.
    pub fn call_form_operands(&self, form: &RecognizedCallForm) -> (r: Vec<CExprId>)
        requires
            form matches RecognizedCallForm::ScanfAddrTaken(_, taken) ==> self.ast_context@.has_exprs(
                taken@,
            ) && all_address_taken(self.ast_context@, taken@),
        ensures
            r@ == match form@ {
                RecognizedCallFormView::ScanfAddrTaken(_, taken) => address_operands(
                    self.ast_context@,
                    taken,
                ),
                _ => Seq::empty(),
            },
            self.ast_context@.has_exprs(r@),
    {
        let mut out: Vec<CExprId> = Vec::new();
        if let RecognizedCallForm::ScanfAddrTaken(_, taken) = form {
            let mut i: usize = 0;
            while i < taken.len()
                invariant
                    i <= taken.len(),
                    self.ast_context@.has_exprs(taken@),
                    all_address_taken(self.ast_context@, taken@),
                    out.len() == i,
                    self.ast_context@.has_exprs(out@),
                    forall|j: int|
                        0 <= j < i ==> Some(#[trigger] out[j]) == addr_of_operand(
                            self.ast_context@,
                            taken[j],
                        ),
                decreases taken.len() - i,
            {
                let operand = self.c_expr_get_addr_of(taken[i]).unwrap();
                out.push(operand);
                i += 1;
            }
            assert(out@ =~= address_operands(self.ast_context@, taken@));
        }
        out
    }

    /// Translates a classified call.
    ///
    /// `cargs` are all the C arguments of the call. `converted` holds the
    /// conversions of [`call_form_operands`](Self::call_form_operands), one for
    /// each argument of a formatted-input call after its format. Where that
    /// call has more conversions than such arguments, only the first
    /// directives are translated, as many as there are arguments; a call with
    /// enough arguments keeps every directive.
    pub fn convert_call_with_args(
        &mut self,
        form: RecognizedCallForm,
        cargs: &[CExprId],
        converted: Vec<Expr>,
    ) -> (r: Emission)
        requires
            form matches RecognizedCallForm::ScanfAddrTaken(_, taken) ==> converted.len()
                == taken.len(),
        ensures
            r@ == call_translation(form@, cargs@, exprs_view(converted@)),
            final(self)@ == (TranslationView {
                items: call_registry(form@, old(self)@.items),
                ..old(self)@
            }),
    {
        proof {
            assert(cargs@.skip(0) =~= cargs@);
        }
        match form {
            RecognizedCallForm::PrintfOut(args, fmt_carg) => Emission::FormatMacro(
                FormatMacroRequest {
                    format: None,
                    macro_name: owned("print"),
                    ln_macro_name: owned("println"),
                    args,
                    cargs: copy_from(cargs, 0),
                    location: fmt_carg,
                },
            ),
            RecognizedCallForm::PrintfErr(args, fmt_carg) => Emission::FormatMacro(
                FormatMacroRequest {
                    format: None,
                    macro_name: owned("eprint"),
                    ln_macro_name: owned("eprintln"),
                    args,
                    cargs: copy_from(cargs, 0),
                    location: fmt_carg,
                },
            ),
            RecognizedCallForm::ScanfAddrTaken(directives, taken) => {
                let directives = truncate_directives(directives, taken.len());
                let fmt = scanf_format(&directives);
                let literal = string_literal_token(fmt.as_str());
                self.items.use_crate("scanf");
                let mut path: Vec<String> = Vec::new();
                path.push(owned("scanf"));
                assert(path@.map_values(|s: String| s@) =~= seq!["scanf"@]);
                self.items.add_use(path, "scanf");
                Emission::Expr(Expr::format_macro("scanf", literal, converted))
            },
            RecognizedCallForm::OtherCall(func, args) => Emission::Expr(Expr::call(func, args)),
        }
    }
}

} // verus!
