//! The directives of a formatted-input format string, as a parser of such
//! strings reports them, and the format that the scanning macro takes in their
//! place.

use vstd::prelude::*;
use crate::text::push_char;

verus! {

/// A length modifier of a conversion specification.
#[derive(Debug, Clone, Copy, PartialEq, Eq, Structural)]
pub enum LengthModifier {
    Char,
    Short,
    Long,
    LongLong,
    IntMax,
    Size,
    PtrDiff,
    LongDouble,
}

/// A conversion specification: whether assignment is suppressed, the maximum
/// field width, the length modifier, and the conversion character.
#[derive(Debug, Clone, Copy, PartialEq, Eq, Structural)]
pub struct ConversionSpec {
    pub suppress: bool,
    pub width: Option<u32>,
    pub length: Option<LengthModifier>,
    pub conversion: char,
}

/// One directive of a format string.
#[derive(Debug, Clone, Copy, PartialEq, Eq, Structural)]
pub enum Directive {
    ZeroOrMoreWhitespace,
    OrdinaryChar(char),
    ConversionSpec(ConversionSpec),
}

/// Whether a directive is simple: it carries no field width, no length
/// modifier and no assignment suppression.
pub open spec fn is_simple(d: Directive) -> bool {
    match d {
        Directive::ConversionSpec(spec) => !spec.suppress && spec.width is None && spec.length
            is None,
        _ => true,
    }
}

/// Whether every directive is simple.
pub open spec fn all_simple(directives: Seq<Directive>) -> bool {
    forall|i: int| 0 <= i < directives.len() ==> is_simple(#[trigger] directives[i])
}

/// What one directive contributes to the format of the scanning macro: a space
/// for a run of whitespace, the character itself for an ordinary character,
/// and an empty placeholder for a conversion.
pub open spec fn directive_format(d: Directive) -> Seq<char> {
    match d {
        Directive::ZeroOrMoreWhitespace => seq![' '],
        Directive::OrdinaryChar(c) => seq![c],
        Directive::ConversionSpec(_) => seq!['{', '}'],
    }
}

/// The format of the scanning macro for a run of directives: what each
/// contributes, in order.
pub open spec fn directives_format(directives: Seq<Directive>) -> Seq<char>
    decreases directives.len(),
{
    if directives.len() == 0 {
        Seq::empty()
    } else {
        directives_format(directives.drop_last()) + directive_format(directives.last())
    }
}

/// How many of the directives are conversions.
pub open spec fn conversions(directives: Seq<Directive>) -> nat
    decreases directives.len(),
{
    if directives.len() == 0 {
        0
    } else {
        conversions(directives.drop_last()) + if directives.last() is ConversionSpec {
            1nat
        } else {
            0nat
        }
    }
}

/// The directives that are translated when `available` arguments follow the
/// format: all of them, unless there are more conversions than arguments, and
/// then the first `available` directives.
pub open spec fn truncated(directives: Seq<Directive>, available: nat) -> Seq<Directive> {
    if conversions(directives) > available {
        directives.take(available as int)
    } else {
        directives
    }
}

/// There are no more conversions than directives.
pub proof fn lemma_conversions_bounded(directives: Seq<Directive>)
    ensures
        conversions(directives) <= directives.len(),
    decreases directives.len(),
{
    if directives.len() > 0 {
        lemma_conversions_bounded(directives.drop_last());
    }
}

/// How many of the directives are conversions.
pub fn count_conversions(directives: &Vec<Directive>) -> (r: usize)
    ensures
        r == conversions(directives@),
{
    let mut count: usize = 0;
    let mut i: usize = 0;
    while i < directives.len()
        invariant
            i <= directives.len(),
            count == conversions(directives@.take(i as int)),
            count <= i,
        decreases directives.len() - i,
    {
        proof {
            assert(directives@.take(i + 1).drop_last() =~= directives@.take(i as int));
            assert(directives@.take(i + 1).last() == directives[i as int]);
        }
        if let Directive::ConversionSpec(_) = directives[i] {
            count += 1;
        }
        i += 1;
    }
    proof {
        assert(directives@.take(directives.len() as int) =~= directives@);
    }
    count
}

/// The directives that are translated when `available` arguments follow the
/// format. Directives are dropped only where conversions outnumber the
/// arguments.
pub fn truncate_directives(directives: Vec<Directive>, available: usize) -> (r: Vec<Directive>)
    ensures
        r@ == truncated(directives@, available as nat),
{
    let mut directives = directives;
    if count_conversions(&directives) > available {
        proof {
            lemma_conversions_bounded(directives@);
        }
        directives.truncate(available);
    }
    directives
}

/// Whether a directive is simple.
pub fn directive_is_simple(d: &Directive) -> (r: bool)
    ensures
        r == is_simple(*d),
{
    match d {
        Directive::ConversionSpec(spec) => !spec.suppress && spec.width.is_none()
            && spec.length.is_none(),
        _ => true,
    }
}

/// Whether every directive is simple.
pub fn directives_all_simple(directives: &Vec<Directive>) -> (r: bool)
    ensures
        r == all_simple(directives@),
{
    let mut i: usize = 0;
    while i < directives.len()
        invariant
            i <= directives.len(),
            forall|j: int| 0 <= j < i ==> is_simple(#[trigger] directives[j]),
        decreases directives.len() - i,
    {
        if !directive_is_simple(&directives[i]) {
            return false;
        }
        i += 1;
    }
    true
}

/// The format of the scanning macro for `directives`.
pub fn scanf_format(directives: &Vec<Directive>) -> (r: String)
    ensures
        r@ == directives_format(directives@),
{
    let mut out = String::new();
    let mut i: usize = 0;
    while i < directives.len()
        invariant
            i <= directives.len(),
            out@ == directives_format(directives@.take(i as int)),
        decreases directives.len() - i,
    {
        proof {
            assert(directives@.take(i + 1).drop_last() =~= directives@.take(i as int));
            assert(directives@.take(i + 1).last() == directives[i as int]);
        }
        let ghost before = out@;
        match directives[i] {
            Directive::ZeroOrMoreWhitespace => {
                push_char(&mut out, ' ');
                assert(out@ =~= before + seq![' ']);
            },
            Directive::OrdinaryChar(c) => {
                push_char(&mut out, c);
                assert(out@ =~= before + seq![c]);
            },
            Directive::ConversionSpec(_) => {
                push_char(&mut out, '{');
                push_char(&mut out, '}');
                assert(out@ =~= before + seq!['{', '}']);
            },
        }
        i += 1;
    }
    proof {
        assert(directives@.take(directives.len() as int) =~= directives@);
    }
    out
}

} // verus!
