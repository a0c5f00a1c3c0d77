//! Reading the maximum length from a text.
//!
//! The maximum length is written as an integer literal of Rust. `syn` says
//! whether a text is a literal and, of an integer literal, how its value is
//! written in decimal; the value itself is computed here.

use vstd::prelude::*;
use vstd::string::StrSliceExecFns;

verus! {

/// The error with which `syn` refuses a text.
#[verifier::external_type_specification]
#[verifier::external_body]
pub struct ExSynError(syn::Error);

/// Most opening brackets that a text may hold and still be handed to `syn`.
///
/// `syn` reads brackets within brackets by calling itself, each level deeper
/// on the stack, so the depth has to be bounded before the call. No text
/// nests deeper than it has opening brackets.
pub const MAX_NESTING: usize = 64;

/// Why a text gives no maximum length.
#[derive(Debug)]
pub enum ScaleError {
    /// The text is not one literal; `syn` says why.
    Syntax(syn::Error),
    /// The text holds more than `MAX_NESTING` opening brackets.
    TooDeep,
    /// The text is a literal, but not an integer.
    ExpectedInteger,
    /// There are no digits.
    Empty,
    /// Something else than a decimal digit stands among the digits.
    InvalidDigit,
    /// The number does not fit in `usize`.
    Overflow,
}

impl ScaleError {
    /// What the error says, in words. Of a text that is not one literal the
    /// error of `syn` says more.
    pub open spec fn spec_message(&self) -> Seq<char> {
        match self {
            ScaleError::Syntax(_) => "Expected a literal"@,
            ScaleError::TooDeep => "too many opening brackets"@,
            ScaleError::ExpectedInteger => "Expected integer literal"@,
            ScaleError::Empty => "cannot parse integer from empty string"@,
            ScaleError::InvalidDigit => "invalid digit found in string"@,
            ScaleError::Overflow => "number too large to fit in target type"@,
        }
    }

    /// What the error says, in words. Of a text that is not one literal the
    /// error of `syn` says more.
    pub fn message(&self) -> (r: &'static str)
        ensures
            r@ == self.spec_message(),
    {
        match self {
            ScaleError::Syntax(_) => "Expected a literal",
            ScaleError::TooDeep => "too many opening brackets",
            ScaleError::ExpectedInteger => "Expected integer literal",
            ScaleError::Empty => "cannot parse integer from empty string",
            ScaleError::InvalidDigit => "invalid digit found in string",
            ScaleError::Overflow => "number too large to fit in target type",
        }
    }
}

/// A literal, as far as this crate looks at it.
#[derive(Debug, PartialEq, Eq)]
pub enum Literal {
    /// An integer literal, with its value written in decimal: the digits, and
    /// before them a minus sign if the literal is negative.
    Int(String),
    /// Any other literal.
    Other,
}

impl Literal {
    /// The value of an integer literal, written in decimal; `None` for another
    /// literal.
    pub open spec fn spec_digits(&self) -> Option<Seq<char>> {
        match self {
            Literal::Int(digits) => Some(digits@),
            Literal::Other => None,
        }
    }

    /// An integer literal is written as a number in decimal.
    pub open spec fn wf(&self) -> bool {
        match self {
            Literal::Int(digits) => spec_is_decimal(digits@),
            Literal::Other => true,
        }
    }
}

/// `c` opens a bracket.
pub open spec fn spec_is_opener(c: char) -> bool {
    c == '(' || c == '[' || c == '{'
}

/// The number of opening brackets in a text.
pub open spec fn spec_openers(text: Seq<char>) -> nat
    decreases text.len(),
{
    if text.len() == 0 {
        0
    } else {
        spec_openers(text.drop_last()) + if spec_is_opener(text.last()) {
            1nat
        } else {
            0nat
        }
    }
}

/// The number of opening brackets in a text.
pub fn openers(text: &str) -> (r: usize)
    ensures
        r == spec_openers(text@),
{
    let len: usize = text.unicode_len();
    let mut count: usize = 0;
    let mut i: usize = 0;
    while i < len
        invariant
            i <= len,
            len == text@.len(),
            count <= i,
            count == spec_openers(text@.take(i as int)),
        decreases len - i,
    {
        let c: char = text.get_char(i);
        proof {
            assert(text@.take(i + 1).drop_last() =~= text@.take(i as int));
        }
        if c == '(' || c == '[' || c == '{' {
            count += 1;
        }
        i += 1;
    }
    proof {
        assert(text@.take(len as int) =~= text@);
    }
    count
}

/// A number written in decimal: one digit or more, after a minus sign or
/// without one.
pub open spec fn spec_is_decimal(digits: Seq<char>) -> bool {
    let body = if digits.len() > 0 && digits[0] == '-' {
        digits.skip(1)
    } else {
        digits
    };
    body.len() > 0 && forall|i: int| 0 <= i < body.len() ==> spec_is_digit(#[trigger] body[i])
}

/// Parses `text` with `syn::parse_str` as one literal expression and tells
/// an integer literal, of which it keeps `LitInt::base10_digits`, from any
/// other. An error of `syn` comes back as it is.
///
/// Which literal `syn` reads in a text is not stated. What it keeps of an
/// integer literal is a number written in decimal: `syn` prints the value
/// digit by digit, `0` for zero, and puts a minus sign before a negative one.
/// The text may hold `MAX_NESTING` opening brackets at most, which bounds how
/// deep `syn` descends.
#[verifier::external_body]
fn literal(text: &str) -> (r: Result<Literal, syn::Error>)
    requires
        spec_openers(text@) <= MAX_NESTING,
    ensures
        r matches Ok(lit) ==> lit.wf(),
{
    let expr = syn::parse_str::<syn::ExprLit>(text)?;
    match expr.lit {
        syn::Lit::Int(found) => Ok(Literal::Int(found.base10_digits().to_string())),
        _ => Ok(Literal::Other),
    }
}

/// `c` is one of the ten decimal digits.
pub open spec fn spec_is_digit(c: char) -> bool {
    '0' <= c <= '9'
}

/// The number that the decimal digit `c` stands for.
pub open spec fn spec_digit(c: char) -> nat {
    (c as nat - '0' as nat) as nat
}

/// The number that a sequence of decimal digits stands for; zero for the
/// empty sequence.
pub open spec fn spec_value(digits: Seq<char>) -> nat
    decreases digits.len(),
{
    if digits.len() == 0 {
        0
    } else {
        spec_value(digits.drop_last()) * 10 + spec_digit(digits.last())
    }
}

/// The value of a text of decimal digits, or why it has none that fits.
///
/// Of the errors the one about the text's shape comes first: a text with a
/// character that is no digit is `InvalidDigit` however long it is.
///
/// This is not how `str::parse::<usize>` reads a text. That function
/// accepts a plus sign before the digits, which is refused here as any other
/// character that is no digit. And it reports the first error it meets from
/// the left, so that of a text too long to fit with a bad character at its
/// end it reports the overflow; here such a text is `InvalidDigit`. On one
/// digit or more and nothing else the two agree.
pub open spec fn spec_parse_decimal(digits: Seq<char>) -> Result<usize, ScaleError> {
    if digits.len() == 0 {
        Err(ScaleError::Empty)
    } else if exists|i: int| 0 <= i < digits.len() && !spec_is_digit(digits[i]) {
        Err(ScaleError::InvalidDigit)
    } else if spec_value(digits) > usize::MAX {
        Err(ScaleError::Overflow)
    } else {
        Ok(spec_value(digits) as usize)
    }
}

/// The maximum length that a literal gives, or why it gives none.
pub open spec fn spec_scale_of(digits: Option<Seq<char>>) -> Result<usize, ScaleError> {
    match digits {
        Some(d) => spec_parse_decimal(d),
        None => Err(ScaleError::ExpectedInteger),
    }
}

/// The value of a text of decimal digits. It refuses a sign, the plus sign
/// too, and tells of a bad character before it tells of an overflow; see
/// `spec_parse_decimal`.
pub fn parse_decimal(digits: &str) -> (r: Result<usize, ScaleError>)
    ensures
        r == spec_parse_decimal(digits@),
{
    let len: usize = digits.unicode_len();
    if len == 0 {
        return Err(ScaleError::Empty);
    }
    let mut value: usize = 0;
    let mut overflow: bool = false;
    let mut i: usize = 0;
    while i < len
        invariant
            i <= len,
            len == digits@.len(),
            forall|k: int| 0 <= k < i ==> spec_is_digit(#[trigger] digits@[k]),
            !overflow ==> value == spec_value(digits@.take(i as int)),
            overflow ==> spec_value(digits@.take(i as int)) > usize::MAX,
        decreases len - i,
    {
        let c: char = digits.get_char(i);
        let code: u32 = c as u32;
        if code < 48 || code > 57 {
            return Err(ScaleError::InvalidDigit);
        }
        let digit: usize = (code - 48) as usize;
        proof {
            assert(digits@.take(i + 1).drop_last() =~= digits@.take(i as int));
        }
        if !overflow {
            if value > (usize::MAX - digit) / 10 {
                overflow = true;
            } else {
                value = value * 10 + digit;
            }
        }
        i += 1;
    }
    proof {
        assert(digits@.take(len as int) =~= digits@);
    }
    if overflow {
        Err(ScaleError::Overflow)
    } else {
        Ok(value)
    }
}

/// The maximum length that a literal gives: the value of an integer
/// literal. Another literal is refused, and so is a negative one, whose minus
/// sign is no digit.
pub fn scale_of(lit: &Literal) -> (r: Result<usize, ScaleError>)
    ensures
        r == spec_scale_of(lit.spec_digits()),
{
    match lit {
        Literal::Int(digits) => parse_decimal(digits.as_str()),
        Literal::Other => Err(ScaleError::ExpectedInteger),
    }
}

/// What reading a text as a maximum length may give.
///
/// A text with more than `MAX_NESTING` opening brackets is `TooDeep`. Any
/// other text goes to `syn`: the result is then the error of `syn`, or what
/// `spec_scale_of` gives for the literal that `syn` read, an integer literal
/// being a number written in decimal.
pub open spec fn spec_parse_int(text: Seq<char>, r: Result<usize, ScaleError>) -> bool {
    if spec_openers(text) > MAX_NESTING {
        r == Err::<usize, ScaleError>(ScaleError::TooDeep)
    } else {
        ||| r matches Err(ScaleError::Syntax(_))
        ||| exists|digits: Option<Seq<char>>|
            (digits matches Some(d) ==> spec_is_decimal(d)) && r == #[trigger] spec_scale_of(
                digits,
            )
    }
}

/// Parse an (unsigned) integer literal input.
///
/// The text is refused as `TooDeep` exactly if it holds more than
/// `MAX_NESTING` opening brackets, and is read by `syn` otherwise.
pub fn parse_int(text: &str) -> (r: Result<usize, ScaleError>)
    ensures
        spec_parse_int(text@, r),
        r matches Err(ScaleError::TooDeep) <==> spec_openers(text@) > MAX_NESTING,
{
    if openers(text) > MAX_NESTING {
        return Err(ScaleError::TooDeep);
    }
    match literal(text) {
        Ok(lit) => scale_of(&lit),
        Err(e) => Err(ScaleError::Syntax(e)),
    }
}

} // verus!
