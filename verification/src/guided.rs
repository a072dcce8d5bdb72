//! Guided types: the hint that tells a recognizer which target type a C
//! declaration is meant to have.

use vstd::prelude::*;
use quote::ToTokens;
use crate::target::type_text;
use crate::target::Path;
use crate::target::PathSegment;
use crate::target::Type;
use crate::target::TypeView;
use crate::text::owned;
use crate::text::str_eq;

verus! {

/// What parsing `text` as a type gives: the type, or `None` where the text is
/// not a type.
pub uninterp spec fn parsed_type(text: Seq<char>) -> Option<TypeView>;

/// Parses `text` as a type. Trusted: this is `syn::parse_str` at `syn::Type`,
/// which fails or succeeds on the text alone. A path type without an explicit
/// self type comes back by its segments, every other type by the text of its
/// tokens.
#[verifier::external_body]
fn parse_type(text: &str) -> (r: Option<Type>)
    ensures
        match r {
            Some(ty) => parsed_type(text@) == Some(ty@),
            None => parsed_type(text@) is None,
        },
{
    match syn::parse_str::<syn::Type>(text) {
        Ok(syn::Type::Path(syn::TypePath { qself: None, path })) => Some(Type::Path(Path {
            leading_colon: path.leading_colon.is_some(),
            segments: path.segments.iter().map(|s| PathSegment {
                ident: s.ident.to_string(),
                arguments: s.arguments.to_token_stream().to_string(),
            }).collect(),
        })),
        Ok(other) => Some(Type::Other(other.to_token_stream().to_string())),
        Err(_) => None,
    }
}

/// A target type hint: its canonical text, by which guards compare it, and the
/// type that this text parses to.
#[derive(Debug)]
pub struct GuidedType {
    pretty: String,
    parsed: Type,
}

/// The mathematical value of a [`GuidedType`].
pub struct GuidedTypeView {
    pub pretty: Seq<char>,
    pub parsed: TypeView,
}

impl View for GuidedType {
    type V = GuidedTypeView;

    closed spec fn view(&self) -> GuidedTypeView {
        GuidedTypeView { pretty: self.pretty@, parsed: self.parsed@ }
    }
}

/// Whether text and type agree: the type is what the text parses to.
pub open spec fn agrees(pretty: Seq<char>, parsed: TypeView) -> bool {
    parsed_type(pretty) == Some(parsed)
}

impl GuidedType {
    #[verifier::type_invariant]
    spec fn agreement(&self) -> bool {
        agrees(self.pretty@, self.parsed@)
    }

    /// A guided type from a text and the type it parses to.
    pub fn new(pretty: String, parsed: Type) -> (r: GuidedType)
        requires
            agrees(pretty@, parsed@),
        ensures
            r@ == (GuidedTypeView { pretty: pretty@, parsed: parsed@ }),
    {
        GuidedType { pretty, parsed }
    }

    /// A guided type from a text and a type, where the two agree.
    pub fn try_new(pretty: String, parsed: Type) -> (r: Option<GuidedType>)
        ensures
            match r {
                Some(g) => agrees(pretty@, parsed@) && g@ == (GuidedTypeView {
                    pretty: pretty@,
                    parsed: parsed@,
                }),
                None => !agrees(pretty@, parsed@),
            },
    {
        match parse_type(pretty.as_str()) {
            Some(ty) => {
                if ty.same_as(&parsed) {
                    Some(GuidedType::new(pretty, parsed))
                } else {
                    None
                }
            },
            None => None,
        }
    }

    /// The guided type that `pretty` denotes.
    pub fn from_str(pretty: &str) -> (r: GuidedType)
        requires
            parsed_type(pretty@) is Some,
        ensures
            r@.pretty == pretty@,
            Some(r@.parsed) == parsed_type(pretty@),
    {
        let parsed = parse_type(pretty).unwrap();
        GuidedType { pretty: owned(pretty), parsed }
    }

    /// The guided type that `pretty` denotes, where it denotes one.
    pub fn try_from_str(pretty: &str) -> (r: Option<GuidedType>)
        ensures
            match r {
                Some(g) => g@.pretty == pretty@ && Some(g@.parsed) == parsed_type(pretty@),
                None => parsed_type(pretty@) is None,
            },
    {
        match parse_type(pretty) {
            Some(_) => Some(GuidedType::from_str(pretty)),
            None => None,
        }
    }

    /// The guided type whose text is the source text of `ty`.
    pub fn from_type(ty: Type) -> (r: GuidedType)
        requires
            agrees(type_text(ty@), ty@),
        ensures
            r@ == (GuidedTypeView { pretty: type_text(ty@), parsed: ty@ }),
    {
        GuidedType { pretty: ty.to_text(), parsed: ty }
    }

    /// The guided type whose text is the source text of `ty`, where that text
    /// parses back to `ty`.
    pub fn try_from_type(ty: Type) -> (r: Option<GuidedType>)
        ensures
            match r {
                Some(g) => agrees(type_text(ty@), ty@) && g@ == (GuidedTypeView {
                    pretty: type_text(ty@),
                    parsed: ty@,
                }),
                None => !agrees(type_text(ty@), ty@),
            },
    {
        let text = ty.to_text();
        match parse_type(text.as_str()) {
            Some(back) => {
                if back.same_as(&ty) {
                    Some(GuidedType::from_type(ty))
                } else {
                    None
                }
            },
            None => None,
        }
    }

    /// The canonical text.
    pub fn pretty(&self) -> (r: &str)
        ensures
            r@ == self@.pretty,
    {
        self.pretty.as_str()
    }

    /// The structured type. It is what the canonical text parses to.
    pub fn parsed(&self) -> (r: &Type)
        ensures
            r@ == self@.parsed,
            agrees(self@.pretty, self@.parsed),
    {
        proof {
            use_type_invariant(self);
        }
        &self.parsed
    }

    /// Whether the canonical text is `name`.
    pub fn is_named(&self, name: &str) -> (r: bool)
        ensures
            r == (self@.pretty == name@),
    {
        str_eq(self.pretty.as_str(), name)
    }

    /// An independent copy.
    pub fn duplicate(&self) -> (r: GuidedType)
        ensures
            r@ == self@,
    {
        proof {
            use_type_invariant(self);
        }
        GuidedType { pretty: self.pretty.clone(), parsed: self.parsed.duplicate() }
    }
}

/// The view of an optional guided type.
pub open spec fn option_view(g: Option<GuidedType>) -> Option<GuidedTypeView> {
    match g {
        Some(g) => Some(g@),
        None => None,
    }
}

/// Whether an optional guided type is present with the canonical text `name`.
pub open spec fn guided_as(g: Option<GuidedTypeView>, name: Seq<char>) -> bool {
    g matches Some(t) && t.pretty == name
}

} // verus!
