//! The diagnostics sink: an ordered, append-only collection of immutable
//! error records, each with its message text, the attribute it concerns, and
//! a source span.

use vstd::prelude::*;

use crate::schema::Span;

verus! {

/// One validation error. `attribute` names the schema attribute the error is
/// about (the index attribute for the capability checks); errors produced by
/// the connector's native-type constructors carry no attribute.
#[derive(Debug, PartialEq, Eq)]
pub struct Diagnostic {
    pub message: String,
    pub attribute: Option<String>,
    pub span: Span,
}

/// The mathematical value of a [`Diagnostic`].
pub ghost struct DiagView {
    pub message: Seq<char>,
    pub attribute: Option<Seq<char>>,
    pub span: Span,
}

impl View for Diagnostic {
    type V = DiagView;

    open spec fn view(&self) -> DiagView {
        DiagView {
            message: self.message@,
            attribute: match self.attribute {
                Some(a) => Some(a@),
                None => None,
            },
            span: self.span,
        }
    }
}

impl Diagnostic {
    /// An error about the use of a schema attribute, pointing at that
    /// attribute's span.
    pub fn new_attribute_validation_error(message: String, attribute: &str, span: Span) -> (d:
        Diagnostic)
        ensures
            d@ == (DiagView { message: message@, attribute: Some(attribute@), span }),
    {
        Diagnostic { message, attribute: Some(attribute.to_owned()), span }
    }

    /// An error carrying only a message and a span.
    pub fn new_error(message: String, span: Span) -> (d: Diagnostic)
        ensures
            d@ == (DiagView { message: message@, attribute: None, span }),
    {
        Diagnostic { message, attribute: None, span }
    }
}

/// The ordered collection the validator appends to. Records accumulate and
/// never mutate once pushed.
pub struct Diagnostics {
    pub errors: Vec<Diagnostic>,
}

impl View for Diagnostics {
    type V = Seq<DiagView>;

    open spec fn view(&self) -> Seq<DiagView> {
        self.errors@.map_values(|d: Diagnostic| d@)
    }
}

impl Diagnostics {
    pub fn new() -> (r: Self)
        ensures
            r@ == Seq::<DiagView>::empty(),
    {
        let r = Diagnostics { errors: Vec::new() };
        proof {
            assert(r@ =~= Seq::<DiagView>::empty());
        }
        r
    }

    pub fn push_error(&mut self, d: Diagnostic)
        ensures
            final(self)@ == old(self)@.push(d@),
    {
        self.errors.push(d);
        proof {
            assert(self@ =~= old(self)@.push(d@));
        }
    }

    pub fn len(&self) -> (n: usize)
        ensures
            n == self@.len(),
    {
        self.errors.len()
    }

    pub fn is_empty(&self) -> (r: bool)
        ensures
            r == (self@.len() == 0),
    {
        self.errors.len() == 0
    }
}

} // verus!
