//! The replacements of the guided call recognizers. A replacement is built
//! once the C arguments that the rule asked for have been converted, and only
//! then does the rule register the helper it relies on.

use vstd::prelude::*;
use crate::c_ast::CExprId;
use crate::c_ast::CTypeId;
use crate::casts::expr_in_u64;
use crate::casts::in_u64;
use crate::emission::print_request;
use crate::emission::Emission;
use crate::emission::EmissionView;
use crate::emission::FormatMacroRequest;
use crate::emission::IdiomError;
use crate::guided::parsed_type;
use crate::guided::GuidedType;
use crate::guided::GuidedTypeView;
use crate::guided_calls::preconversion;
use crate::guided_calls::GuidedCall;
use crate::registry::added_once;
use crate::registry::ItemStoreView;
use crate::registry::UseDeclView;
use crate::shape::expr_strip_casts;
use crate::shape::strip_casts;
use crate::target::exprs_view;
use crate::target::ident_expr;
use crate::target::Expr;
use crate::target::ExprView;
use crate::text::owned;
use crate::translation::Translation;
use crate::translation::TranslationView;

verus! {

/// The helper behind the replacement of `strcspn`.
pub const STRCSPN_HELPER: &'static str =
    "fn strcspn_str(s: &str, chars: &str) -> usize { s.chars().take_while(|c| !chars.contains(*c)).count() }";

/// The helper behind the replacement of `isblank`. It returns an integer code,
/// as the C function does.
pub const ISBLANK_HELPER: &'static str =
    "fn isblank_char_i(c: char) -> libc::c_int { (c == ' ' || c == '\\t') as libc::c_int }";

/// The helper behind the replacement of `fgets` on the standard input. It
/// reads at most one byte less than the limit and reports whether it read
/// anything.
pub const FGETS_HELPER: &'static str = "fn fgets_stdin_bool(buf: &mut String, limit: u64) -> bool {
                            let handle = std::io::stdin().lock();
                            let res = handle.take(limit - 1).read_line(buf);
                            res.is_ok() && res.unwrap() > 0
                        }";

/// The C arguments that a matched rule needs converted, in the order in which
/// their conversions are handed back.
pub open spec fn operands_of(rule: GuidedCall) -> Seq<CExprId> {
    match rule {
        GuidedCall::PutsStdout { text } => seq![text],
        GuidedCall::Strlen { text } => seq![text],
        GuidedCall::Strcspn { text, charset } => seq![text, charset],
        GuidedCall::IsBlank { ch } => seq![ch],
        GuidedCall::FgetsStdin { buffer, limit } => seq![buffer, limit],
    }
}

/// The import of `name` from `std::io`.
pub open spec fn std_io_use(name: Seq<char>) -> UseDeclView {
    UseDeclView { path: seq!["std"@, "io"@], name }
}

/// The replacement of a matched rule, given the conversions of its operands.
pub open spec fn guided_replacement(rule: GuidedCall, converted: Seq<ExprView>) -> EmissionView {
    match rule {
        GuidedCall::PutsStdout { text } => EmissionView::FormatMacro(
            print_request(Some("%s"@), seq![converted[0]], seq![text], text),
        ),
        GuidedCall::Strlen { .. } => EmissionView::Expr(
            ExprView::MethodCall {
                receiver: Box::new(converted[0]),
                method: "len"@,
                args: Seq::empty(),
            },
        ),
        GuidedCall::Strcspn { .. } => EmissionView::Expr(
            ExprView::Call {
                func: Box::new(ident_expr("strcspn_str"@)),
                args: seq![
                    ExprView::Reference { mutable: false, expr: Box::new(converted[0]) },
                    ExprView::Reference { mutable: false, expr: Box::new(converted[1]) },
                ],
            },
        ),
        GuidedCall::IsBlank { .. } => EmissionView::Expr(
            ExprView::Call {
                func: Box::new(ident_expr("isblank_char_i"@)),
                args: seq![strip_casts(converted[0])],
            },
        ),
        GuidedCall::FgetsStdin { .. } => EmissionView::Expr(
            ExprView::Call {
                func: Box::new(ident_expr("fgets_stdin_bool"@)),
                args: seq![
                    ExprView::Reference { mutable: true, expr: Box::new(converted[0]) },
                    in_u64(converted[1]),
                ],
            },
        ),
    }
}

/// The registry after a matched rule has proposed its replacement: the helper
/// of the rule is registered, once, and so are the imports that the helper
/// needs.
pub open spec fn guided_registry(rule: GuidedCall, items: ItemStoreView) -> ItemStoreView {
    match rule {
        GuidedCall::Strcspn { .. } => ItemStoreView {
            items: added_once(items.items, STRCSPN_HELPER@),
            ..items
        },
        GuidedCall::IsBlank { .. } => ItemStoreView {
            items: added_once(items.items, ISBLANK_HELPER@),
            ..items
        },
        GuidedCall::FgetsStdin { .. } => ItemStoreView {
            items: added_once(items.items, FGETS_HELPER@),
            uses: added_once(added_once(items.uses, std_io_use("Read"@)), std_io_use("BufRead"@)),
            crates: items.crates,
        },
        _ => items,
    }
}

/// The overrides after a matched rule has proposed its replacement for a call
/// of the type `call_type`: the replacement of `fgets` yields a `bool`, and no
/// other replacement changes the type of its call.
pub open spec fn guided_overrides(
    rule: GuidedCall,
    call_type: CTypeId,
    overrides: Map<CTypeId, GuidedTypeView>,
) -> Map<CTypeId, GuidedTypeView> {
    match rule {
        GuidedCall::FgetsStdin { .. } => overrides.insert(
            call_type,
            GuidedTypeView { pretty: "bool"@, parsed: parsed_type("bool"@).unwrap() },
        ),
        _ => overrides,
    }
}

/// Whether a matched rule can propose its replacement: every type that the
/// rule names parses as a type.
pub open spec fn guided_constructible(rule: GuidedCall) -> bool {
    rule is FgetsStdin ==> parsed_type("bool"@) is Some
}

/// The context after a matched rule has proposed its replacement.
pub open spec fn after_guided_call(
    rule: GuidedCall,
    call_type: CTypeId,
    before: TranslationView,
) -> TranslationView {
    TranslationView {
        ast: before.ast,
        guidance: before.guidance,
        items: guided_registry(rule, before.items),
        overrides: guided_overrides(rule, call_type, before.overrides),
    }
}

/// The one expression of a list of one.
fn take_one(converted: Vec<Expr>) -> (r: Expr)
    requires
        converted.len() == 1,
    ensures
        r@ == exprs_view(converted@)[0],
{
    let mut converted = converted;
    converted.pop().unwrap()
}

/// The two expressions of a list of two.
fn take_two(converted: Vec<Expr>) -> (r: (Expr, Expr))
    requires
        converted.len() == 2,
    ensures
        r.0@ == exprs_view(converted@)[0],
        r.1@ == exprs_view(converted@)[1],
{
    let mut converted = converted;
    let second = converted.pop().unwrap();
    let first = converted.pop().unwrap();
    (first, second)
}

/// The list of the given expressions.
fn list_of_two(first: Expr, second: Expr) -> (r: Vec<Expr>)
    ensures
        exprs_view(r@) == seq![first@, second@],
{
    let mut args: Vec<Expr> = Vec::new();
    args.push(first);
    args.push(second);
    assert(exprs_view(args@) =~= seq![first@, second@]);
    args
}

/// The list of the one given expression.
fn list_of_one(first: Expr) -> (r: Vec<Expr>)
    ensures
        exprs_view(r@) == seq![first@],
{
    let mut args: Vec<Expr> = Vec::new();
    args.push(first);
    assert(exprs_view(args@) =~= seq![first@]);
    args
}

impl GuidedCall {
    /// The C arguments to convert, as values that are used, before the
    /// replacement can be built.
    pub fn operands(&self) -> (r: Vec<CExprId>)
        ensures
            r@ == operands_of(*self),
    {
        let mut out: Vec<CExprId> = Vec::new();
        match self {
            GuidedCall::PutsStdout { text } => {
                out.push(*text);
            },
            GuidedCall::Strlen { text } => {
                out.push(*text);
            },
            GuidedCall::Strcspn { text, charset } => {
                out.push(*text);
                out.push(*charset);
            },
            GuidedCall::IsBlank { ch } => {
                out.push(*ch);
            },
            GuidedCall::FgetsStdin { buffer, limit } => {
                out.push(*buffer);
                out.push(*limit);
            },
        }
        assert(out@ =~= operands_of(*self));
        out
    }
}

/// What the call of `func` on `cargs` is replaced with, given the conversions
/// of what the matching rule asks for: nothing where no rule matches.
pub open spec fn guided_call_outcome(
    before: TranslationView,
    func: ExprView,
    cargs: Seq<CExprId>,
    converted: Seq<ExprView>,
) -> Option<EmissionView> {
    match preconversion(before.ast, before.guidance, func, cargs) {
        Some(rule) => Some(guided_replacement(rule, converted)),
        None => None,
    }
}

/// The context after the call of `func` on `cargs` was looked at: as it was
/// where no rule matches.
pub open spec fn after_guided_call_attempt(
    before: TranslationView,
    call_type: CTypeId,
    func: ExprView,
    cargs: Seq<CExprId>,
) -> TranslationView {
    match preconversion(before.ast, before.guidance, func, cargs) {
        Some(rule) => after_guided_call(rule, call_type, before),
        None => before,
    }
}

impl Translation {
    /// Replaces the call of `func` on `cargs` where a guided rule matches it.
    ///
    /// `converted` holds the conversions of the operands of the matching rule
    /// and is not looked at where no rule matches. A call that no rule matches
    /// gets no replacement and leaves the context as it was: nothing is
    /// registered and nothing overridden. So does a matched rule that names a
    /// type which does not parse; that is the one failure.
    pub fn replace_guided_call(
        &mut self,
        call_type: CTypeId,
        func: &Expr,
        cargs: &[CExprId],
        converted: Vec<Expr>,
    ) -> (r: Result<Option<Emission>, IdiomError>)
        requires
            old(self).ast_context@.has_exprs(cargs@),
            preconversion(old(self).ast_context@, old(self).parsed_guidance@, func@, cargs@) matches Some(
                rule,
            ) ==> converted.len() == operands_of(rule).len(),
        ensures
            match r {
                Ok(replacement) => {
                    &&& match replacement {
                        Some(emission) => Some(emission@),
                        None => None,
                    } == guided_call_outcome(old(self)@, func@, cargs@, exprs_view(converted@))
                    &&& final(self)@ == after_guided_call_attempt(
                        old(self)@,
                        call_type,
                        func@,
                        cargs@,
                    )
                },
                Err(e) => {
                    &&& preconversion(
                        old(self).ast_context@,
                        old(self).parsed_guidance@,
                        func@,
                        cargs@,
                    ) matches Some(rule) && !guided_constructible(rule)
                    &&& e == IdiomError::InternalConstruction
                    &&& final(self)@ == old(self)@
                },
            },
    {
        match self.call_form_cases_preconversion(func, cargs) {
            Some(rule) => match self.emit_guided_call(call_type, rule, converted) {
                Ok(emission) => Ok(Some(emission)),
                Err(e) => Err(e),
            },
            None => Ok(None),
        }
    }

    /// Builds the replacement of a matched rule from the conversions of its
    /// operands, and registers what the replacement relies on.
    ///
    /// `call_type` is the type of the call being replaced. The one failure is
    /// a type named by the rule that does not parse; the context is then left
    /// as it was.
    pub fn emit_guided_call(&mut self, call_type: CTypeId, rule: GuidedCall, converted: Vec<Expr>) -> (r:
        Result<Emission, IdiomError>)
        requires
            converted.len() == operands_of(rule).len(),
        ensures
            match r {
                Ok(emission) => {
                    &&& guided_constructible(rule)
                    &&& emission@ == guided_replacement(rule, exprs_view(converted@))
                    &&& final(self)@ == after_guided_call(rule, call_type, old(self)@)
                },
                Err(e) => {
                    &&& !guided_constructible(rule)
                    &&& e == IdiomError::InternalConstruction
                    &&& final(self)@ == old(self)@
                },
            },
    {
        match rule {
            GuidedCall::PutsStdout { text } => {
                let value = take_one(converted);
                let mut cargs: Vec<CExprId> = Vec::new();
                cargs.push(text);
                let request = FormatMacroRequest {
                    format: Some(owned("%s")),
                    macro_name: owned("print"),
                    ln_macro_name: owned("println"),
                    args: list_of_one(value),
                    cargs,
                    location: text,
                };
                assert(request@.cargs =~= seq![text]);
                Ok(Emission::FormatMacro(request))
            },
            GuidedCall::Strlen { .. } => {
                let value = take_one(converted);
                let args: Vec<Expr> = Vec::new();
                assert(exprs_view(args@) =~= Seq::<ExprView>::empty());
                Ok(Emission::Expr(Expr::method_call(value, "len", args)))
            },
            GuidedCall::Strcspn { .. } => {
                let (text, charset) = take_two(converted);
                self.items.add_item_str_once(STRCSPN_HELPER);
                let args = list_of_two(Expr::reference(false, text), Expr::reference(false, charset));
                Ok(Emission::Expr(Expr::call(Expr::ident("strcspn_str"), args)))
            },
            GuidedCall::IsBlank { .. } => {
                let value = take_one(converted);
                self.items.add_item_str_once(ISBLANK_HELPER);
                let bare = expr_strip_casts(&value).duplicate();
                Ok(Emission::Expr(Expr::call(Expr::ident("isblank_char_i"), list_of_one(bare))))
            },
            GuidedCall::FgetsStdin { .. } => {
                let result_type = match GuidedType::try_from_str("bool") {
                    Some(guided) => guided,
                    None => {
                        return Err(IdiomError::InternalConstruction);
                    },
                };
                let (buffer, limit) = take_two(converted);
                let mut path: Vec<String> = Vec::new();
                path.push(owned("std"));
                path.push(owned("io"));
                let mut path_again: Vec<String> = Vec::new();
                path_again.push(owned("std"));
                path_again.push(owned("io"));
                assert(path@.map_values(|s: String| s@) =~= seq!["std"@, "io"@]);
                assert(path_again@.map_values(|s: String| s@) =~= seq!["std"@, "io"@]);
                self.items.add_use(path, "Read");
                self.items.add_use(path_again, "BufRead");
                self.items.add_item_str_once(FGETS_HELPER);
                let args = list_of_two(Expr::reference(true, buffer), expr_in_u64(limit));
                self.type_overrides.insert(call_type, result_type);
                Ok(Emission::Expr(Expr::call(Expr::ident("fgets_stdin_bool"), args)))
            },
        }
    }
}

} // verus!
