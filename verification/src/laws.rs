//! Laws that relate the recognizers to each other and to the names of the
//! standard streams.

use vstd::prelude::*;
use crate::c_ast::AstView;
use crate::c_ast::CDeclId;
use crate::c_ast::CDeclKindView;
use crate::c_ast::CExprId;
use crate::c_ast::CExprKindView;
use crate::calls::call_form;
use crate::calls::is_fprintf_with_stream;
use crate::guidance::GuidanceView;
use crate::guided_calls::names_stdin;
use crate::guided_calls::names_stdout;
use crate::guided_calls::preconversion;
use crate::guided_calls::GuidedCall;
use crate::c_ast::CTypeId;
use crate::guided_emit::after_guided_call;
use crate::guided_emit::guided_constructible;
use crate::guided_emit::guided_overrides;
use crate::guided_emit::guided_registry;
use crate::translation::TranslationView;
use crate::guided_emit::std_io_use;
use crate::guided_emit::FGETS_HELPER;
use crate::guided_emit::ISBLANK_HELPER;
use crate::guided_emit::STRCSPN_HELPER;
use crate::registry::added_once;
use crate::registry::lemma_added_once;
use crate::registry::occurrences;
use crate::scanf::Directive;
use crate::shape::is_ident;
use crate::target::ident_expr;
use crate::target::ExprView;
use crate::translation::strip_implicit_casts;
use crate::translation::var_decl_id;

verus! {

/// The tree `ast` with the variable `decl` under the name `name`.
pub open spec fn renamed(ast: AstView, decl: CDeclId, name: Seq<char>) -> AstView {
    AstView {
        exprs: ast.exprs,
        decls: ast.decls.update(decl.0 as int, CDeclKindView::Variable { ident: name }),
    }
}

/// The four names of the two input and output streams that guided rules look
/// for are different names.
pub proof fn lemma_stream_names_differ()
    ensures
        "stdout"@ != "stdin"@,
        "stdout"@ != "__stdinp"@,
        "__stdoutp"@ != "stdin"@,
        "__stdoutp"@ != "__stdinp"@,
        "stdout"@ != "__stdoutp"@,
        "stdin"@ != "__stdinp"@,
{
    reveal_strlit("stdout");
    reveal_strlit("__stdoutp");
    reveal_strlit("stdin");
    reveal_strlit("__stdinp");
    assert("stdout"@.len() == 6);
    assert("__stdoutp"@.len() == 9);
    assert("stdin"@.len() == 5);
    assert("__stdinp"@.len() == 8);
}

/// Renaming a variable does not change which expression the implicit casts of
/// an expression wrap.
pub proof fn lemma_renaming_keeps_casts(ast: AstView, decl: CDeclId, name: Seq<char>, expr: CExprId)
    ensures
        strip_implicit_casts(renamed(ast, decl, name), expr) == strip_implicit_casts(ast, expr),
    decreases expr.0,
{
    let other = renamed(ast, decl, name);
    if ast.has_expr(expr) {
        match ast.kind(expr) {
            CExprKindView::ImplicitCast(inner, _) => {
                if inner.0 < expr.0 {
                    lemma_renaming_keeps_casts(ast, decl, name, inner);
                }
            },
            _ => {},
        }
    }
}

/// Renaming a variable that is one of the standard streams to another name of
/// the same stream changes neither which variable an expression refers to nor
/// whether it names the standard output or the standard input.
pub proof fn lemma_renaming_keeps_streams(
    ast: AstView,
    decl: CDeclId,
    from: Seq<char>,
    to: Seq<char>,
    expr: CExprId,
)
    requires
        ast.well_formed(),
        ast.has_expr(expr),
        ast.has_decl(decl),
        ast.decl(decl) == (CDeclKindView::Variable { ident: from }),
        (from == "stdout"@ && to == "__stdoutp"@) || (from == "__stdoutp"@ && to == "stdout"@) || (
        from == "stdin"@ && to == "__stdinp"@) || (from == "__stdinp"@ && to == "stdin"@),
    ensures
        var_decl_id(renamed(ast, decl, to), expr) == var_decl_id(ast, expr),
        names_stdout(renamed(ast, decl, to), expr) == names_stdout(ast, expr),
        names_stdin(renamed(ast, decl, to), expr) == names_stdin(ast, expr),
{
    lemma_stream_names_differ();
    lemma_renaming_keeps_casts(ast, decl, to, expr);
    crate::translation::lemma_strip_implicit_casts_in_tree(ast, expr);
    let other = renamed(ast, decl, to);
    let core = strip_implicit_casts(ast, expr);
    assert(crate::c_ast::declaration_below(ast.exprs[core.0 as int], ast.decls.len() as int));
    match ast.kind(core) {
        CExprKindView::DeclRef(d) => {
            if d != decl {
                assert(other.decl(d) == ast.decl(d));
            }
        },
        _ => {},
    }
}

/// Stream-alias symmetry for the guided rules: whether the variable that is
/// the standard output (or input) bears the canonical name or the name that
/// one platform gives it, every call is recognized alike.
pub proof fn lemma_guided_rules_ignore_stream_alias(
    ast: AstView,
    guidance: GuidanceView,
    decl: CDeclId,
    from: Seq<char>,
    to: Seq<char>,
    func: ExprView,
    cargs: Seq<CExprId>,
)
    requires
        ast.well_formed(),
        ast.has_exprs(cargs),
        ast.has_decl(decl),
        ast.decl(decl) == (CDeclKindView::Variable { ident: from }),
        (from == "stdout"@ && to == "__stdoutp"@) || (from == "__stdoutp"@ && to == "stdout"@) || (
        from == "stdin"@ && to == "__stdinp"@) || (from == "__stdinp"@ && to == "stdin"@),
    ensures
        preconversion(renamed(ast, decl, to), guidance, func, cargs) == preconversion(
            ast,
            guidance,
            func,
            cargs,
        ),
{
    let other = renamed(ast, decl, to);
    assert forall|i: int| 0 <= i < cargs.len() implies var_decl_id(other, #[trigger] cargs[i])
        == var_decl_id(ast, cargs[i]) && names_stdout(other, cargs[i]) == names_stdout(
        ast,
        cargs[i],
    ) && names_stdin(other, cargs[i]) == names_stdin(ast, cargs[i]) by {
        lemma_renaming_keeps_streams(ast, decl, from, to, cargs[i]);
    }
}

/// The context after the replacement of `rule` was asked for at `n` places,
/// for calls of the type `call_type`: each place changes the context as the
/// replacement does where the rule can propose it, and not at all where it
/// cannot.
pub open spec fn context_after(
    rule: GuidedCall,
    call_type: CTypeId,
    before: TranslationView,
    n: nat,
) -> TranslationView
    decreases n,
{
    if n == 0 {
        before
    } else {
        let so_far = context_after(rule, call_type, before, (n - 1) as nat);
        if guided_constructible(rule) {
            after_guided_call(rule, call_type, so_far)
        } else {
            so_far
        }
    }
}

/// The helper of a rule, for the rules that have one.
pub open spec fn helper_of(rule: GuidedCall) -> Option<Seq<char>> {
    match rule {
        GuidedCall::Strcspn { .. } => Some(STRCSPN_HELPER@),
        GuidedCall::IsBlank { .. } => Some(ISBLANK_HELPER@),
        GuidedCall::FgetsStdin { .. } => Some(FGETS_HELPER@),
        _ => None,
    }
}

/// Idempotent helper injection: asking for the replacement of one rule at any
/// number of places, at least one, leaves the context as one place would have
/// left it. Where the rule can propose its replacement, the registry then
/// holds exactly one copy of the helper of the rule, the imports are those
/// that were there and those of the rule, and no crate is added. Where it
/// cannot, which is where a type that the rule names does not parse, nothing
/// is registered at any place.
pub proof fn lemma_helper_is_injected_once(
    rule: GuidedCall,
    call_type: CTypeId,
    before: TranslationView,
    n: nat,
)
    requires
        before.items.well_formed(),
        n >= 1,
    ensures
        context_after(rule, call_type, before, n) == context_after(rule, call_type, before, 1),
        context_after(rule, call_type, before, n).items.well_formed(),
        guided_constructible(rule) ==> context_after(rule, call_type, before, n)
            == after_guided_call(rule, call_type, before),
        guided_constructible(rule) ==> (helper_of(rule) matches Some(helper) ==> occurrences(
            context_after(rule, call_type, before, n).items.items,
            helper,
        ) == 1),
        guided_constructible(rule) && rule is FgetsStdin ==> context_after(
            rule,
            call_type,
            before,
            n,
        ).items.uses == added_once(
            added_once(before.items.uses, std_io_use("Read"@)),
            std_io_use("BufRead"@),
        ),
        context_after(rule, call_type, before, n).items.crates == before.items.crates,
        !guided_constructible(rule) ==> context_after(rule, call_type, before, n) == before,
    decreases n,
{
    let items = before.items;
    let once = after_guided_call(rule, call_type, before);
    lemma_added_once(items.items, STRCSPN_HELPER@);
    lemma_added_once(items.items, ISBLANK_HELPER@);
    lemma_added_once(items.items, FGETS_HELPER@);
    let read = added_once(items.uses, std_io_use("Read"@));
    lemma_added_once(items.uses, std_io_use("Read"@));
    lemma_added_once(read, std_io_use("BufRead"@));
    let both = added_once(read, std_io_use("BufRead"@));
    assert(both.contains(std_io_use("Read"@))) by {
        let k = choose|k: int| 0 <= k < read.len() && read[k] == std_io_use("Read"@);
        assert(both[k] == std_io_use("Read"@));
    }
    assert(guided_registry(rule, once.items) == once.items);
    assert(guided_overrides(rule, call_type, once.overrides) =~= once.overrides);
    assert(after_guided_call(rule, call_type, once) == once);
    assert(context_after(rule, call_type, before, 0) == before);
    if n > 1 {
        lemma_helper_is_injected_once(rule, call_type, before, (n - 1) as nat);
    }
}

/// Stream-alias symmetry for formatted output: a call of `fprintf` whose
/// stream is named by the platform's name for the standard error (or output)
/// is classified as the same call on the canonical name is.
pub proof fn lemma_fprintf_ignores_stream_alias(
    ast: AstView,
    func: ExprView,
    args: Seq<ExprView>,
    cargs: Seq<CExprId>,
    directives: Option<Seq<Directive>>,
)
    requires
        is_fprintf_with_stream(func, args),
    ensures
        args[0] == ident_expr("stderr"@) ==> call_form(
            ast,
            func,
            args.update(0, ident_expr("__stderrp"@)),
            cargs,
            directives,
        ) == call_form(ast, func, args, cargs, directives),
        args[0] == ident_expr("stdout"@) ==> call_form(
            ast,
            func,
            args.update(0, ident_expr("__stdoutp"@)),
            cargs,
            directives,
        ) == call_form(ast, func, args, cargs, directives),
{
    reveal_strlit("stdout");
    reveal_strlit("__stdoutp");
    reveal_strlit("stderr");
    reveal_strlit("__stderrp");
    reveal_strlit("fprintf");
    reveal_strlit("printf");
    assert("stdout"@.len() == 6);
    assert("__stdoutp"@.len() == 9);
    assert("stderr"@.len() == 6);
    assert("__stderrp"@.len() == 9);
    assert("fprintf"@.len() == 7);
    assert("printf"@.len() == 6);
    assert("stdout"@[3] == 'o');
    assert("stderr"@[3] == 'e');
    assert("__stdoutp"@[5] == 'o');
    assert("__stderrp"@[5] == 'e');
    assert(!is_ident(func, "printf"@));
    if args[0] == ident_expr("stderr"@) {
        let alias = args.update(0, ident_expr("__stderrp"@));
        assert(alias.skip(1) =~= args.skip(1));
        assert(is_ident(args[0], "stderr"@));
        assert(is_ident(alias[0], "__stderrp"@));
    }
    if args[0] == ident_expr("stdout"@) {
        let alias = args.update(0, ident_expr("__stdoutp"@));
        assert(alias.skip(1) =~= args.skip(1));
        assert(is_ident(args[0], "stdout"@));
        assert(is_ident(alias[0], "__stdoutp"@));
        assert(!is_ident(args[0], "stderr"@));
        assert(!is_ident(args[0], "__stderrp"@));
        assert(!is_ident(alias[0], "stderr"@));
        assert(!is_ident(alias[0], "__stderrp"@));
    }
}

} // verus!
