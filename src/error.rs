use vstd::prelude::*;

verus! {

/// `std::io::Error`, carried unchanged inside [`SpaceSumError::IO`].
#[verifier::external_type_specification]
#[verifier::external_body]
pub struct ExIoError(std::io::Error);

/// The error of summing sizes: a line could not be read, or could not be
/// understood as a size expression.
#[derive(Debug)]
pub enum SpaceSumError {
    /// Reading a line from the input failed.
    IO(std::io::Error),
    /// A line is no valid size expression; the text says which.
    Parser(String),
}

/// The message that reports `expression` as no valid size expression.
pub open spec fn unparseable_message(expression: Seq<char>) -> Seq<char> {
    "Can't parse size expression: "@ + expression
}

/// A parser error's message ends with the offending line, unchanged.
pub proof fn lemma_message_quotes_line(expression: Seq<char>)
    ensures
        ({
            let m = unparseable_message(expression);
            m.subrange(m.len() - expression.len(), m.len() as int) == expression
        }),
{
    let m = unparseable_message(expression);
    assert(m.subrange(m.len() - expression.len(), m.len() as int) =~= expression);
}

impl SpaceSumError {
    /// The parser error for the line `expression`.
    pub fn unparseable(expression: &str) -> (r: SpaceSumError)
        ensures
            r matches SpaceSumError::Parser(m) && m@ == unparseable_message(expression@),
    {
        let message = String::from_str("Can't parse size expression: ");
        SpaceSumError::Parser(message.concat(expression))
    }

    /// The text that reports this error: the read error's own description,
    /// or the parser message.
    pub fn message(&self) -> (r: String)
        ensures
            match self {
                SpaceSumError::IO(e) => vstd::string::to_string_from_display_ensures(e, r),
                SpaceSumError::Parser(m) => r@ == m@,
            },
    {
        match self {
            SpaceSumError::IO(e) => e.to_string(),
            SpaceSumError::Parser(m) => m.clone(),
        }
    }
}

impl From<std::io::Error> for SpaceSumError {
    fn from(error: std::io::Error) -> SpaceSumError {
        SpaceSumError::IO(error)
    }
}

impl vstd::std_specs::convert::FromSpecImpl<std::io::Error> for SpaceSumError {
    open spec fn obeys_from_spec() -> bool {
        true
    }

    open spec fn from_spec(v: std::io::Error) -> SpaceSumError {
        SpaceSumError::IO(v)
    }
}

} // verus!
