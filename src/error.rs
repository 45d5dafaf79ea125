use vstd::prelude::*;

verus! {

/// What a failed analysis reports, as a mathematical value.
pub enum Failure {
    MalformedQuery(Seq<char>),
    Unsupported(Seq<char>),
    Internal(Seq<char>),
}

/// Why a statement was not accepted.
#[derive(Clone, Debug, PartialEq, Eq)]
pub enum ParseError {
    /// The statement is SQL-shaped but breaks a structural expectation.
    MalformedQuery { message: String },
    /// The statement uses a SQL feature that is deliberately not handled.
    Unsupported { message: String },
    /// The syntax tree breaks an invariant that the SQL grammar guarantees.
    Internal { message: String },
}

impl View for ParseError {
    type V = Failure;

    open spec fn view(&self) -> Failure {
        match self {
            ParseError::MalformedQuery { message } => Failure::MalformedQuery(message@),
            ParseError::Unsupported { message } => Failure::Unsupported(message@),
            ParseError::Internal { message } => Failure::Internal(message@),
        }
    }
}

/// The view of a result whose error is a `ParseError`.
pub open spec fn result_view<T: View>(r: Result<T, ParseError>) -> Result<T::V, Failure> {
    match r {
        Ok(v) => Ok(v@),
        Err(e) => Err(e@),
    }
}

impl ParseError {
    /// The message, prefixed by the kind of failure.
    pub fn to_string(&self) -> (r: String)
        ensures
            r@ == match self@ {
                Failure::MalformedQuery(m) => "malformed query: "@ + m,
                Failure::Unsupported(m) => "statement not supported: "@ + m,
                Failure::Internal(m) => "internal: "@ + m,
            },
    {
        match self {
            ParseError::MalformedQuery { message } => String::from_str("malformed query: ").concat(message.as_str()),
            ParseError::Unsupported { message } => String::from_str("statement not supported: ").concat(message.as_str()),
            ParseError::Internal { message } => String::from_str("internal: ").concat(message.as_str()),
        }
    }
}

} // verus!
