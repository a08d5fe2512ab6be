use vstd::prelude::*;
use crate::error::{SpaceSumError, unparseable_message};
use crate::expression::{SizeExpression, expression_of, text_of, parse_size_expression};

verus! {

/// Decides what one input line contributes to a sum.
///
/// A read failure becomes an I/O error that wraps it. A line whose last
/// character is no unit becomes a parser error that quotes the line. Any
/// other line is handed back split into numeric part and unit; reading the
/// numeric part as a number is the caller's step, and where it fails the
/// caller reports [`reject_size_line`].
pub fn parse_size_line(line: Result<String, std::io::Error>) -> (r: Result<
    SizeExpression,
    SpaceSumError,
>)
    ensures
        match line {
            Err(e) => r == Err::<SizeExpression, SpaceSumError>(SpaceSumError::IO(e)),
            Ok(text) => match expression_of(text@) {
                Some(v) => r matches Ok(x) && x@ == v,
                None => r matches Err(SpaceSumError::Parser(m)) && m@ == unparseable_message(
                    text@,
                ),
            },
        },
{
    match line {
        Err(e) => Err(SpaceSumError::IO(e)),
        Ok(text) => match parse_size_expression(text.as_str()) {
            Some(expression) => Ok(expression),
            None => Err(SpaceSumError::unparseable(text.as_str())),
        },
    }
}

/// The parser error for a line that split into `expression` but whose
/// numeric part is no number. The message quotes the line as it was written.
pub fn reject_size_line(expression: &SizeExpression) -> (r: SpaceSumError)
    ensures
        r matches SpaceSumError::Parser(m) && m@ == unparseable_message(text_of(expression@)),
{
    SpaceSumError::unparseable(expression.text().as_str())
}

} // verus!
