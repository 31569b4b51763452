//! What can go wrong while a record is read.
use vstd::prelude::*;
use vstd::string::StringExecFns;

verus! {

/// Why a record, or a part of one, could not be read.
#[derive(Debug, PartialEq)]
pub enum DecodeError {
    /// No child of the element is named after a variant of the union.
    MissingVariantTag,
    /// The child holds neither bare text nor the one-field text wrapper.
    UnexpectedShape,
    /// The text of `field` is not a number.
    InvalidNumber { field: String, text: String },
    /// Reading or writing the document failed; the message is passed through.
    IOError(String),
    /// The document is not built as the record asks. The text is the message
    /// passed through, or the name of the ordinary child that is absent.
    StructuralError(String),
}

/// A [`DecodeError`] with its texts as sequences of characters.
pub enum DecodeErrorView {
    MissingVariantTag,
    UnexpectedShape,
    InvalidNumber { field: Seq<char>, text: Seq<char> },
    IOError(Seq<char>),
    StructuralError(Seq<char>),
}

impl View for DecodeError {
    type V = DecodeErrorView;

    open spec fn view(&self) -> DecodeErrorView {
        match self {
            DecodeError::MissingVariantTag => DecodeErrorView::MissingVariantTag,
            DecodeError::UnexpectedShape => DecodeErrorView::UnexpectedShape,
            DecodeError::InvalidNumber { field, text } => DecodeErrorView::InvalidNumber {
                field: field@,
                text: text@,
            },
            DecodeError::IOError(message) => DecodeErrorView::IOError(message@),
            DecodeError::StructuralError(message) => DecodeErrorView::StructuralError(message@),
        }
    }
}

impl DecodeErrorView {
    /// The error in words.
    pub open spec fn message(self) -> Seq<char> {
        match self {
            DecodeErrorView::MissingVariantTag => "no child is named after a variant"@,
            DecodeErrorView::UnexpectedShape => "child holds neither text nor wrapped text"@,
            DecodeErrorView::InvalidNumber { field, text } => "invalid number in "@ + field
                + ": "@ + text,
            DecodeErrorView::IOError(message) => "input or output failed: "@ + message,
            DecodeErrorView::StructuralError(message) => "malformed document: "@ + message,
        }
    }
}

impl DecodeError {
    /// The error in words, for a caller to show or to pass on.
    pub fn message(&self) -> (text: String)
        ensures
            text@ == self@.message(),
    {
        match self {
            DecodeError::MissingVariantTag => "no child is named after a variant".to_owned(),
            DecodeError::UnexpectedShape => "child holds neither text nor wrapped text".to_owned(),
            DecodeError::InvalidNumber { field, text } => {
                let mut words = "invalid number in ".to_owned();
                words.append(field.as_str());
                words.append(": ");
                words.append(text.as_str());
                words
            },
            DecodeError::IOError(message) => {
                let mut words = "input or output failed: ".to_owned();
                words.append(message.as_str());
                words
            },
            DecodeError::StructuralError(message) => {
                let mut words = "malformed document: ".to_owned();
                words.append(message.as_str());
                words
            },
        }
    }
}

/// A result with its value and its error both taken by their views.
pub open spec fn outcome<T: View>(r: Result<T, DecodeError>) -> Result<T::V, DecodeErrorView> {
    match r {
        Ok(value) => Ok(value@),
        Err(error) => Err(error@),
    }
}

/// A result whose value is plain, with its error taken by its view.
pub open spec fn plain_outcome<T>(r: Result<T, DecodeError>) -> Result<T, DecodeErrorView> {
    match r {
        Ok(value) => Ok(value),
        Err(error) => Err(error@),
    }
}

} // verus!
