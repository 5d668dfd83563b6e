use vstd::prelude::*;
use vstd::string::StringSliceAdditionalSpecFns;

verus! {

/// ASCII codes of the characters a token is made of.
pub const DIGIT_ZERO: u8 = 48;
pub const DIGIT_NINE: u8 = 57;
pub const PLUS: u8 = 43;
pub const MINUS: u8 = 45;
pub const STAR: u8 = 42;
pub const SLASH: u8 = 47;

/// An arithmetic operator token.
#[derive(PartialEq, Eq, Structural, Debug, Clone, Copy)]
pub enum Operator {
    Add,
    Sub,
    Mul,
    Div,
}

#[derive(PartialEq, Eq, Structural, Debug, Clone, Copy)]
pub enum CalcError {
    /// Fewer than two operands were on the stack.
    StackTooShort,
    /// The token is neither a number nor an operator.
    NotAnOperator,
    /// The result does not fit, or the divisor is zero.
    Arithmetic,
}

impl CalcError {
    pub fn message(&self) -> &'static str {
        match self {
            CalcError::StackTooShort => "stack length smaller than 2. Calculation failed",
            CalcError::NotAnOperator => "Operators expected. Calculation failed",
            CalcError::Arithmetic => "Arithmetic overflow or division by zero. Calculation failed",
        }
    }
}

pub open spec fn is_digit(b: u8) -> bool {
    DIGIT_ZERO <= b <= DIGIT_NINE
}

pub open spec fn all_digits(s: Seq<u8>) -> bool {
    s.len() > 0 && forall|i: int| 0 <= i < s.len() ==> is_digit(#[trigger] s[i])
}

/// The value of a string of decimal digits.
pub open spec fn digits_value(s: Seq<u8>) -> int
    decreases s.len(),
{
    if s.len() == 0 {
        0
    } else {
        digits_value(s.drop_last()) * 10 + (s.last() - DIGIT_ZERO)
    }
}

/// The integer that a token spells: an optional sign followed by one or more
/// decimal digits.
pub open spec fn decimal_value(s: Seq<u8>) -> Option<int> {
    if s.len() > 0 && s[0] == MINUS && all_digits(s.skip(1)) {
        Some(-digits_value(s.skip(1)))
    } else if s.len() > 0 && s[0] == PLUS && all_digits(s.skip(1)) {
        Some(digits_value(s.skip(1)))
    } else if all_digits(s) {
        Some(digits_value(s))
    } else {
        None
    }
}

/// The `i64` that a token parses to, if it spells one in range.
pub open spec fn parsed_i64(s: Seq<u8>) -> Option<i64> {
    match decimal_value(s) {
        Some(v) => if i64::MIN <= v <= i64::MAX {
            Some(v as i64)
        } else {
            None
        },
        None => None,
    }
}

pub open spec fn operator_of(s: Seq<u8>) -> Option<Operator> {
    if s == seq![PLUS] {
        Some(Operator::Add)
    } else if s == seq![STAR] {
        Some(Operator::Mul)
    } else if s == seq![MINUS] {
        Some(Operator::Sub)
    } else if s == seq![SLASH] {
        Some(Operator::Div)
    } else {
        None
    }
}

/// `lhs op rhs`, unless it overflows or divides by zero; division truncates
/// toward zero.
pub open spec fn apply_operator(op: Operator, lhs: i64, rhs: i64) -> Option<i64> {
    match op {
        Operator::Add => lhs.checked_add(rhs),
        Operator::Sub => lhs.checked_sub(rhs),
        Operator::Mul => lhs.checked_mul(rhs),
        Operator::Div => lhs.checked_div(rhs),
    }
}

/// The stack and the result after `token` is applied as an operator.
pub open spec fn calc_spec(stack: Seq<i64>, token: Seq<u8>) -> (Seq<i64>, Result<i64, CalcError>) {
    if stack.len() < 2 {
        (stack, Err(CalcError::StackTooShort))
    } else {
        let rest = stack.subrange(0, stack.len() - 2);
        let lhs = stack[stack.len() - 2];
        let rhs = stack[stack.len() - 1];
        match operator_of(token) {
            None => (rest, Err(CalcError::NotAnOperator)),
            Some(op) => match apply_operator(op, lhs, rhs) {
                Some(v) => (rest, Ok(v)),
                None => (rest, Err(CalcError::Arithmetic)),
            },
        }
    }
}

/// Relies on `str::parse::<i64>`: an optional `+` or `-` followed by one or
/// more ASCII digits, whose value fits in `i64`.
#[verifier::external_body]
fn parse_i64(s: &str) -> (r: Option<i64>)
    ensures
        r == parsed_i64(s.spec_bytes()),
{
    s.parse::<i64>().ok()
}

/// A stack calculator in reverse Polish notation over `i64`.
pub struct PolishNotation {
    stack: Vec<i64>,
}

impl PolishNotation {
    pub closed spec fn view(&self) -> Seq<i64> {
        self.stack@
    }

    /// A calculator whose stack holds `val`.
    pub fn new(val: i64) -> (r: Self)
        ensures
            r@ == seq![val],
    {
        PolishNotation { stack: vec![val] }
    }

    pub fn stack(&self) -> (r: &Vec<i64>)
        ensures
            r@ == self@,
    {
        &self.stack
    }

    /// Feeds one token: a number is pushed (`Ok(None)`); otherwise the two top
    /// operands are popped and combined by the operator the token names.
    pub fn append(&mut self, new_val: &str) -> (r: Result<Option<i64>, CalcError>)
        ensures
            parsed_i64(new_val.spec_bytes()) matches Some(v) ==> r == Ok::<Option<i64>, CalcError>(None)
                && final(self)@ == old(self)@.push(v),
            parsed_i64(new_val.spec_bytes()) is None ==> {
                let (stack, res) = calc_spec(old(self)@, new_val.spec_bytes());
                &&& final(self)@ == stack
                &&& match res {
                    Ok(v) => r == Ok::<Option<i64>, CalcError>(Some(v)),
                    Err(e) => r == Err::<Option<i64>, CalcError>(e),
                }
            },
    {
        match parse_i64(new_val) {
            Some(v) => {
                self.push(v);
                Ok(None)
            },
            None => match self.calc(new_val) {
                Ok(res) => Ok(Some(res)),
                Err(e) => Err(e),
            },
        }
    }

    fn calc(&mut self, token: &str) -> (r: Result<i64, CalcError>)
        ensures
            (final(self)@, r) == calc_spec(old(self)@, token.spec_bytes()),
    {
        if self.stack.len() < 2 {
            return Err(CalcError::StackTooShort);
        }
        let rhs = self.stack.pop().unwrap();
        let lhs = self.stack.pop().unwrap();
        proof {
            assert(self.stack@ =~= old(self)@.subrange(0, old(self)@.len() - 2));
        }
        let b = token.as_bytes();
        if b.len() != 1 {
            proof {
                assert(b@ != seq![PLUS] && b@ != seq![STAR] && b@ != seq![MINUS] && b@ != seq![SLASH]);
            }
            return Err(CalcError::NotAnOperator);
        }
        let c = b[0];
        proof {
            assert(b@ =~= seq![c]);
        }
        let op = if c == PLUS {
            Operator::Add
        } else if c == STAR {
            Operator::Mul
        } else if c == MINUS {
            Operator::Sub
        } else if c == SLASH {
            Operator::Div
        } else {
            return Err(CalcError::NotAnOperator);
        };
        let res = match op {
            Operator::Add => lhs.checked_add(rhs),
            Operator::Sub => lhs.checked_sub(rhs),
            Operator::Mul => lhs.checked_mul(rhs),
            Operator::Div => lhs.checked_div(rhs),
        };
        match res {
            Some(v) => Ok(v),
            None => Err(CalcError::Arithmetic),
        }
    }

    fn push(&mut self, new_val: i64)
        ensures
            final(self)@ == old(self)@.push(new_val),
    {
        self.stack.push(new_val);
    }
}

} // verus!
