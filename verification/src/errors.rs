use vstd::prelude::*;

verus! {

/// Why a request is refused.
#[derive(Debug, PartialEq, Eq)]
pub enum RequestError {
    /// A verse listing names neither a book nor an abbreviation.
    MissingBookOrAbbreviation,
    /// A navigation request names neither a book nor an abbreviation.
    MissingPageBook,
    /// The book list that came back does not hold every book of the canon.
    IncompleteBookList,
    /// A path segment names no book; it holds the segment.
    InvalidBook(String),
    /// A translation has no books; it holds the upper-cased translation name.
    TranslationNotFound(String),
}

/// The text that tells a client why its request was refused.
pub open spec fn spec_message(e: RequestError) -> Seq<char> {
    match e {
        RequestError::MissingBookOrAbbreviation => "Either one of book or abbreviation parameters is required"@,
        RequestError::MissingPageBook => "Either one of book or abbreviation is required"@,
        RequestError::IncompleteBookList => "Not all books were fetched, check if the translation name is correct"@,
        RequestError::InvalidBook(b) => "Invalid URL parameter: "@ + b@,
        RequestError::TranslationNotFound(t) => "The requested translation "@ + t@ + " is not found on the server"@,
    }
}

impl RequestError {
    /// The message for this refusal.
    pub fn message(&self) -> (res: String)
        ensures
            res@ == spec_message(*self),
    {
        match self {
            RequestError::MissingBookOrAbbreviation => String::from_str(
                "Either one of book or abbreviation parameters is required",
            ),
            RequestError::MissingPageBook => String::from_str(
                "Either one of book or abbreviation is required",
            ),
            RequestError::IncompleteBookList => String::from_str(
                "Not all books were fetched, check if the translation name is correct",
            ),
            RequestError::InvalidBook(b) => String::from_str("Invalid URL parameter: ").concat(
                b.as_str(),
            ),
            RequestError::TranslationNotFound(t) => String::from_str(
                "The requested translation ",
            ).concat(t.as_str()).concat(" is not found on the server"),
        }
    }
}

} // verus!
