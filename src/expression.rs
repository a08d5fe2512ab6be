use vstd::prelude::*;
use crate::unit::{Unit, symbol_of, unit_of_symbol, lemma_symbol_round_trip};

verus! {

/// What a size expression says, as text: nothing at all, or a numeric
/// literal followed by one unit character.
pub enum ExpressionView {
    Empty,
    Scaled { number: Seq<char>, unit: Unit },
}

/// A size expression split into its parts.
///
/// The numeric part is kept as the text that was written; turning it into a
/// number is left to the caller.
#[derive(Debug)]
pub enum SizeExpression {
    /// The empty expression, which stands for zero bytes.
    Empty,
    /// `<number><unit>`: `number` is everything before the last character.
    Scaled { number: String, unit: Unit },
}

impl View for SizeExpression {
    type V = ExpressionView;

    open spec fn view(&self) -> ExpressionView {
        match self {
            SizeExpression::Empty => ExpressionView::Empty,
            SizeExpression::Scaled { number, unit } => ExpressionView::Scaled {
                number: number@,
                unit: *unit,
            },
        }
    }
}

/// How the text `s` reads as a size expression: the empty text is the empty
/// expression; otherwise the last character must be a unit, and what comes
/// before it is the numeric part (possibly empty). `None` where the last
/// character is no unit.
pub open spec fn expression_of(s: Seq<char>) -> Option<ExpressionView> {
    if s.len() == 0 {
        Some(ExpressionView::Empty)
    } else {
        match unit_of_symbol(s.last()) {
            Some(u) => Some(ExpressionView::Scaled { number: s.drop_last(), unit: u }),
            None => None,
        }
    }
}

/// The text that writes the expression `e`.
pub open spec fn text_of(e: ExpressionView) -> Seq<char> {
    match e {
        ExpressionView::Empty => Seq::empty(),
        ExpressionView::Scaled { number, unit } => number.push(symbol_of(unit)),
    }
}

/// Splits `expression` into its numeric part and its unit.
///
/// The empty text gives `Empty`. Any other text gives `Scaled` where its last
/// character is one of `B`, `K`, `M`, `G`, `T`, and `None` otherwise. Nothing
/// is trimmed, and the numeric part is not checked here.
pub fn parse_size_expression(expression: &str) -> (r: Option<SizeExpression>)
    ensures
        match r {
            Some(e) => expression_of(expression@) == Some(e@),
            None => expression_of(expression@) is None,
        },
{
    let n = expression.unicode_len();
    if n == 0 {
        return Some(SizeExpression::Empty);
    }
    let last = expression.get_char(n - 1);
    match Unit::from_symbol(last) {
        Some(unit) => {
            let number = String::from_str(expression.substring_char(0, n - 1));
            proof {
                assert(number@ =~= expression@.drop_last());
            }
            Some(SizeExpression::Scaled { number, unit })
        },
        None => None,
    }
}

impl SizeExpression {
    /// The text that writes this expression: the numeric part followed by the
    /// unit's symbol, or the empty text.
    pub fn text(&self) -> (r: String)
        ensures
            r@ == text_of(self@),
    {
        match self {
            SizeExpression::Empty => String::new(),
            SizeExpression::Scaled { number, unit } => join_unit(number.as_str(), *unit),
        }
    }
}

/// `number` followed by the symbol of `unit`, with no separator.
pub fn join_unit(number: &str, unit: Unit) -> (r: String)
    ensures
        r@ == number@.push(symbol_of(unit)),
{
    let mut r = String::from_str(number);
    r.append(unit.symbol_text());
    proof {
        assert(r@ =~= number@.push(symbol_of(unit)));
    }
    r
}

/// Writing an expression and reading the text back gives the same expression.
pub proof fn lemma_text_then_parse(e: ExpressionView)
    ensures
        expression_of(text_of(e)) == Some(e),
{
    match e {
        ExpressionView::Empty => {},
        ExpressionView::Scaled { number, unit } => {
            lemma_symbol_round_trip(unit, symbol_of(unit));
            assert(number.push(symbol_of(unit)).drop_last() =~= number);
        },
    }
}

/// Every text that reads as an expression is exactly the text that writes it.
pub proof fn lemma_parse_then_text(s: Seq<char>)
    ensures
        expression_of(s) matches Some(e) ==> text_of(e) == s,
{
    if s.len() > 0 {
        if let Some(u) = unit_of_symbol(s.last()) {
            lemma_symbol_round_trip(u, s.last());
            assert(s.drop_last().push(s.last()) =~= s);
        }
    }
}

} // verus!
