//! The ways in which generation fails.

use vstd::prelude::*;
use vstd::string::*;

verus! {

/// Why no code was generated. Each is fatal for the declaration at hand.
#[derive(Debug)]
pub enum MacroError {
    /// A directive argument whose key is not `name` or `constructor`, or is
    /// not a plain identifier.
    UnexpectedAttribute,
    /// `name` was given something other than a string literal.
    InvalidName,
    /// `constructor` was given something other than a string literal.
    InvalidConstructor,
    /// `constructor` was given a string other than `new` or `from`.
    InvalidConstructorValue(String),
    /// The directive's arguments are not a comma-separated list.
    MalformedDirective,
    /// The declaration is not a structure with named fields.
    UnsupportedShape,
    /// The mirror structure's name is not an identifier.
    InvalidIdent(String),
}

pub ghost enum ErrorView {
    UnexpectedAttribute,
    InvalidName,
    InvalidConstructor,
    InvalidConstructorValue(Seq<char>),
    MalformedDirective,
    UnsupportedShape,
    InvalidIdent(Seq<char>),
}

impl View for MacroError {
    type V = ErrorView;

    open spec fn view(&self) -> ErrorView {
        match self {
            MacroError::UnexpectedAttribute => ErrorView::UnexpectedAttribute,
            MacroError::InvalidName => ErrorView::InvalidName,
            MacroError::InvalidConstructor => ErrorView::InvalidConstructor,
            MacroError::InvalidConstructorValue(v) => ErrorView::InvalidConstructorValue(v@),
            MacroError::MalformedDirective => ErrorView::MalformedDirective,
            MacroError::UnsupportedShape => ErrorView::UnsupportedShape,
            MacroError::InvalidIdent(s) => ErrorView::InvalidIdent(s@),
        }
    }
}

/// The diagnostic shown for each error.
pub open spec fn message_of(e: ErrorView) -> Seq<char> {
    match e {
        ErrorView::UnexpectedAttribute => "unexpected attribute, use `name` or `constructor`"@,
        ErrorView::InvalidName => "invalid `name` attribute"@,
        ErrorView::InvalidConstructor => "invalid `constructor` attribute"@,
        ErrorView::InvalidConstructorValue(v) => "invalid attribute value: `"@ + v
            + "`; use `new` or `from` instead"@,
        ErrorView::MalformedDirective => "expected `named_ctor(key = \"value\", ...)`"@,
        ErrorView::UnsupportedShape => "NamedCtor only supports structs with named fields"@,
        ErrorView::InvalidIdent(s) => "`"@ + s + "` is not a valid Ident"@,
    }
}

impl MacroError {
    /// The diagnostic text of this error.
    pub fn message(&self) -> (r: String)
        ensures
            r@ == message_of(self@),
    {
        match self {
            MacroError::UnexpectedAttribute => String::from_str(
                "unexpected attribute, use `name` or `constructor`",
            ),
            MacroError::InvalidName => String::from_str("invalid `name` attribute"),
            MacroError::InvalidConstructor => String::from_str("invalid `constructor` attribute"),
            MacroError::InvalidConstructorValue(v) => {
                let mut r = String::from_str("invalid attribute value: `");
                r.append(v.as_str());
                r.append("`; use `new` or `from` instead");
                r
            },
            MacroError::MalformedDirective => String::from_str(
                "expected `named_ctor(key = \"value\", ...)`",
            ),
            MacroError::UnsupportedShape => String::from_str(
                "NamedCtor only supports structs with named fields",
            ),
            MacroError::InvalidIdent(s) => {
                let mut r = String::from_str("`");
                r.append(s.as_str());
                r.append("` is not a valid Ident");
                r
            },
        }
    }
}

} // verus!
