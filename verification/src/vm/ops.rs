use vstd::prelude::*;
use vstd::string::*;
use crate::errors::errors::{Error, ErrorView, error_of};
use crate::lexer::address::Address;
use crate::text::{str_equals, string_of};
use crate::vm::strings::{decimal, decimal_text};

verus! {

/// A runtime value that holds no heap object but a string: null, a flag,
/// an integer or a string. Floating-point values, lists and objects are
/// handled where the floating-point arithmetic and the heap live.
#[derive(Debug)]
pub enum Value {
    Null,
    Bool(bool),
    Int(i64),
    String(String),
}

/// The mathematical content of a [`Value`].
pub enum ValueView {
    Null,
    Bool(bool),
    Int(i64),
    String(Seq<char>),
}

impl View for Value {
    type V = ValueView;

    open spec fn view(&self) -> ValueView {
        match self {
            Value::Null => ValueView::Null,
            Value::Bool(b) => ValueView::Bool(*b),
            Value::Int(i) => ValueView::Int(*i),
            Value::String(s) => ValueView::String(s@),
        }
    }
}

/// What a binary operation gives: a value, or the quotient of two integers
/// that do not divide evenly, which is a floating-point number.
#[derive(Debug)]
pub enum BinaryResult {
    Value(Value),
    Quotient(i64, i64),
}

/// The mathematical content of a [`BinaryResult`].
pub enum BinaryView {
    Value(ValueView),
    Quotient(i64, i64),
}

impl View for BinaryResult {
    type V = BinaryView;

    open spec fn view(&self) -> BinaryView {
        match self {
            BinaryResult::Value(v) => BinaryView::Value(v@),
            BinaryResult::Quotient(a, b) => BinaryView::Quotient(*a, *b),
        }
    }
}

/// The text of a value in messages and concatenation: a string as itself,
/// `Null`, `true`/`false`, or an integer in decimal.
pub open spec fn value_shown(v: ValueView) -> Seq<char> {
    match v {
        ValueView::Null => "Null"@,
        ValueView::Bool(b) => if b { "true"@ } else { "false"@ },
        ValueView::Int(i) => decimal(i as int),
        ValueView::String(s) => s,
    }
}

/// The error for an operator that does not apply to two values.
pub open spec fn invalid_op(op: Seq<char>, word: Seq<char>, a: ValueView, b: ValueView, addr: Address) -> ErrorView {
    error_of(addr, "could not use '"@ + op + "' "@ + word + " "@ + value_shown(a) + " and "@ + value_shown(b), "check your code."@)
}

/// The arithmetic operators.
pub open spec fn is_binary_op(op: Seq<char>) -> bool {
    op == "+"@ || op == "-"@ || op == "*"@ || op == "/"@ || op == "%"@ || op == "&"@ || op == "|"@ || op == "^"@
}

/// The operations on two integers that stay within `i64` (where the
/// interpreter's arithmetic would overflow, it panics).
pub open spec fn int_op_fits(op: Seq<char>, a: i64, b: i64) -> bool {
    if op == "+"@ {
        i64::MIN <= a + b <= i64::MAX
    } else if op == "-"@ {
        i64::MIN <= a - b <= i64::MAX
    } else if op == "*"@ {
        i64::MIN <= a * b <= i64::MAX
    } else if op == "/"@ {
        !(a == i64::MIN && b == -1)
    } else if op == "%"@ {
        b != 0 && !(a == i64::MIN && b == -1)
    } else {
        true
    }
}

/// The operands on which a binary operation is defined: a known operator,
/// and for two integers no overflow.
pub open spec fn binary_defined(op: Seq<char>, a: ValueView, b: ValueView) -> bool {
    &&& is_binary_op(op)
    &&& match (a, b) {
        (ValueView::Int(x), ValueView::Int(y)) => int_op_fits(op, x, y),
        _ => true,
    }
}

/// Integer division rounded toward zero, as Rust's `/` on integers.
pub open spec fn trunc_div(x: int, y: int) -> int {
    let q = (if x < 0 { -x } else { x }) / (if y < 0 { -y } else { y });
    if (x < 0) != (y < 0) { -q } else { q }
}

/// The remainder of `trunc_div`, as Rust's `%` on integers.
pub open spec fn trunc_rem(x: int, y: int) -> int {
    x - y * trunc_div(x, y)
}

/// `left op right` on two values.
pub open spec fn spec_binary(op: Seq<char>, a: ValueView, b: ValueView, addr: Address) -> Result<BinaryView, ErrorView> {
    let invalid = Err(invalid_op(op, "with"@, a, b, addr));
    if op == "+"@ {
        match (a, b) {
            (ValueView::Int(x), ValueView::Int(y)) => Ok(BinaryView::Value(ValueView::Int((x + y) as i64))),
            (ValueView::Int(x), ValueView::String(t)) => Ok(BinaryView::Value(ValueView::String(decimal(x as int) + t))),
            (ValueView::String(s), _) => Ok(BinaryView::Value(ValueView::String(s + value_shown(b)))),
            (ValueView::Null, ValueView::String(t)) => Ok(BinaryView::Value(ValueView::String(value_shown(a) + t))),
            (ValueView::Bool(_), ValueView::String(t)) => Ok(BinaryView::Value(ValueView::String(value_shown(a) + t))),
            _ => invalid,
        }
    } else {
        match (a, b) {
            (ValueView::Int(x), ValueView::Int(y)) => if op == "-"@ {
                Ok(BinaryView::Value(ValueView::Int((x - y) as i64)))
            } else if op == "*"@ {
                Ok(BinaryView::Value(ValueView::Int((x * y) as i64)))
            } else if op == "/"@ {
                if y == 0 {
                    Err(error_of(addr, "division by zero."@, "undefined operation."@))
                } else if trunc_rem(x as int, y as int) == 0 {
                    Ok(BinaryView::Value(ValueView::Int(trunc_div(x as int, y as int) as i64)))
                } else {
                    Ok(BinaryView::Quotient(x, y))
                }
            } else if op == "%"@ {
                Ok(BinaryView::Value(ValueView::Int(trunc_rem(x as int, y as int) as i64)))
            } else if op == "&"@ {
                Ok(BinaryView::Value(ValueView::Int(x & y)))
            } else if op == "|"@ {
                Ok(BinaryView::Value(ValueView::Int(x | y)))
            } else {
                Ok(BinaryView::Value(ValueView::Int(x ^ y)))
            },
            _ => invalid,
        }
    }
}

/// Integer division and remainder, rounded toward zero.
fn div_rem(x: i64, y: i64) -> (r: (i64, i64))
    requires
        y != 0,
        !(x == i64::MIN && y == -1),
    ensures
        r.0 == trunc_div(x as int, y as int),
        r.1 == trunc_rem(x as int, y as int),
{
    let ax: u64 = if x < 0 { (0i128 - x as i128) as u64 } else { x as u64 };
    let ay: u64 = if y < 0 { (0i128 - y as i128) as u64 } else { y as u64 };
    let uq: u64 = ax / ay;
    let ghost a: int = ax as int;
    let ghost b: int = ay as int;
    let ghost u: int = uq as int;
    proof {
        assert(a == (if x < 0 { -(x as int) } else { x as int }));
        assert(b == (if y < 0 { -(y as int) } else { y as int }));
        assert(u * b <= a && a - u * b < b && u <= a) by (nonlinear_arith)
            requires
                u == a / b,
                b >= 1,
                a >= 0;
        if b >= 2 {
            assert(u * 2 <= a) by (nonlinear_arith)
                requires
                    u * b <= a,
                    b >= 2,
                    u >= 0;
        }
    }
    let q: i128 = if (x < 0) != (y < 0) { 0i128 - uq as i128 } else { uq as i128 };
    let ghost yi: int = y as int;
    let ghost qi: int = q as int;
    proof {
        assert(qi == trunc_div(x as int, yi));
        if y < 0 {
            assert(yi * qi == -(b * qi)) by (nonlinear_arith)
                requires yi == -b;
        } else {
            assert(yi * qi == b * qi) by (nonlinear_arith)
                requires yi == b;
        }
        if qi == -u {
            assert(b * qi == -(u * b)) by (nonlinear_arith)
                requires qi == -u;
        } else {
            assert(b * qi == u * b) by (nonlinear_arith)
                requires qi == u;
        }
        assert(i64::MIN <= qi <= i64::MAX);
    }
    let m: i128 = x as i128 - (y as i128) * q;
    (q as i64, m as i64)
}

/// The text of a value.
pub fn value_text(v: &Value) -> (r: String)
    ensures
        r@ == value_shown(v@),
{
    match v {
        Value::Null => string_of("Null"),
        Value::Bool(b) => if *b { string_of("true") } else { string_of("false") },
        Value::Int(i) => decimal_text(*i),
        Value::String(s) => s.clone(),
    }
}

fn invalid_op_error(op: &str, word: &str, a: &Value, b: &Value, addr: Address) -> (r: Error)
    ensures
        r@ == invalid_op(op@, word@, a@, b@, addr),
{
    let mut text = string_of("could not use '");
    text.append(op);
    text.append("' ");
    text.append(word);
    text.append(" ");
    text.append(value_text(a).as_str());
    text.append(" and ");
    text.append(value_text(b).as_str());
    proof {
        assert(text@ =~= "could not use '"@ + op@ + "' "@ + word@ + " "@ + value_shown(a@) + " and "@ + value_shown(b@));
    }
    Error::own_text(addr, text, "check your code.")
}

/// A binary operation of the virtual machine on two values (`left op
/// right`): integer arithmetic and bit operations, string concatenation,
/// and the division errors.
pub fn binary(op: &str, left: &Value, right: &Value, addr: Address) -> (r: Result<BinaryResult, Error>)
    requires
        binary_defined(op@, left@, right@),
    ensures
        match r {
            Ok(v) => spec_binary(op@, left@, right@, addr) == Ok::<BinaryView, ErrorView>(v@),
            Err(e) => spec_binary(op@, left@, right@, addr) == Err::<BinaryView, ErrorView>(e@),
        },
{
    if str_equals(op, "+") {
        match (left, right) {
            (Value::Int(x), Value::Int(y)) => Ok(BinaryResult::Value(Value::Int(*x + *y))),
            (Value::Int(x), Value::String(t)) => {
                let mut s = decimal_text(*x);
                s.append(t.as_str());
                Ok(BinaryResult::Value(Value::String(s)))
            },
            (Value::String(s), _) => {
                let mut r = s.clone();
                r.append(value_text(right).as_str());
                Ok(BinaryResult::Value(Value::String(r)))
            },
            (Value::Null, Value::String(t)) | (Value::Bool(_), Value::String(t)) => {
                let mut r = value_text(left);
                r.append(t.as_str());
                Ok(BinaryResult::Value(Value::String(r)))
            },
            _ => Err(invalid_op_error(op, "with", left, right, addr)),
        }
    } else {
        match (left, right) {
            (Value::Int(x), Value::Int(y)) => {
                let (x, y) = (*x, *y);
                if str_equals(op, "-") {
                    Ok(BinaryResult::Value(Value::Int(x - y)))
                } else if str_equals(op, "*") {
                    Ok(BinaryResult::Value(Value::Int(x * y)))
                } else if str_equals(op, "/") {
                    if y == 0 {
                        Err(Error::new(addr, "division by zero.", "undefined operation."))
                    } else {
                        let (q, m) = div_rem(x, y);
                        if m == 0 {
                            Ok(BinaryResult::Value(Value::Int(q)))
                        } else {
                            Ok(BinaryResult::Quotient(x, y))
                        }
                    }
                } else if str_equals(op, "%") {
                    let (_, m) = div_rem(x, y);
                    Ok(BinaryResult::Value(Value::Int(m)))
                } else if str_equals(op, "&") {
                    Ok(BinaryResult::Value(Value::Int(x & y)))
                } else if str_equals(op, "|") {
                    Ok(BinaryResult::Value(Value::Int(x | y)))
                } else {
                    Ok(BinaryResult::Value(Value::Int(x ^ y)))
                }
            },
            _ => Err(invalid_op_error(op, "with", left, right, addr)),
        }
    }
}

/// Whether one byte string comes before another in lexicographic order.
pub open spec fn bytes_less(s: Seq<u8>, t: Seq<u8>) -> bool
    decreases s.len(),
{
    if s.len() == 0 {
        t.len() > 0
    } else if t.len() == 0 {
        false
    } else if s[0] != t[0] {
        s[0] < t[0]
    } else {
        bytes_less(s.drop_first(), t.drop_first())
    }
}

/// `<` on strings (std `Ord` for `str`). Trusted: strings are ordered
/// lexicographically by their bytes, as std documents.
#[verifier::external_body]
fn str_less(a: &str, b: &str) -> (r: bool)
    ensures
        r == bytes_less(a.spec_bytes(), b.spec_bytes()),
{
    a < b
}

/// The comparison operators.
pub open spec fn is_compare_op(op: Seq<char>) -> bool {
    op == ">"@ || op == "<"@ || op == ">="@ || op == "<="@ || op == "=="@ || op == "!="@
}

/// Whether two values are equal: integers, flags and strings by their
/// contents, `null` only to itself, values of different kinds never.
pub open spec fn values_equal(a: ValueView, b: ValueView) -> bool {
    match (a, b) {
        (ValueView::Int(x), ValueView::Int(y)) => x == y,
        (ValueView::Null, ValueView::Null) => true,
        (ValueView::Bool(x), ValueView::Bool(y)) => x == y,
        (ValueView::String(s), ValueView::String(u)) => s == u,
        _ => false,
    }
}

/// An ordering comparison of two byte strings.
pub open spec fn bytes_ordered(op: Seq<char>, s: Seq<u8>, t: Seq<u8>) -> bool {
    if op == ">"@ {
        bytes_less(t, s)
    } else if op == "<"@ {
        bytes_less(s, t)
    } else if op == ">="@ {
        !bytes_less(s, t)
    } else {
        !bytes_less(t, s)
    }
}

/// `left op right` for a comparison operator.
pub open spec fn spec_compare(op: Seq<char>, a: ValueView, b: ValueView, addr: Address) -> Result<bool, ErrorView> {
    if op == "=="@ {
        Ok(values_equal(a, b))
    } else if op == "!="@ {
        Ok(!values_equal(a, b))
    } else {
        match (a, b) {
            (ValueView::Int(x), ValueView::Int(y)) => Ok(
                if op == ">"@ { x > y } else if op == "<"@ { x < y } else if op == ">="@ { x >= y } else { x <= y },
            ),
            (ValueView::String(s), ValueView::String(u)) => Ok(bytes_ordered(op, vstd::utf8::encode_utf8(s), vstd::utf8::encode_utf8(u))),
            _ => Err(invalid_op(op, "for"@, a, b, addr)),
        }
    }
}

/// `==` never fails, and `!=` is its negation.
pub proof fn law_equality_never_fails(a: ValueView, b: ValueView, addr: Address)
    ensures
        spec_compare("=="@, a, b, addr) == Ok::<bool, ErrorView>(values_equal(a, b)),
        spec_compare("!="@, a, b, addr) == Ok::<bool, ErrorView>(!values_equal(a, b)),
{
    reveal_strlit("==");
    reveal_strlit("!=");
    assert("!="@[0] != "=="@[0]);
}

/// On two integers the comparisons are the integer orders.
pub proof fn law_integer_comparisons(x: i64, y: i64, addr: Address)
    ensures
        spec_compare("<"@, ValueView::Int(x), ValueView::Int(y), addr) == Ok::<bool, ErrorView>(x < y),
        spec_compare("<="@, ValueView::Int(x), ValueView::Int(y), addr) == Ok::<bool, ErrorView>(x <= y),
        spec_compare(">"@, ValueView::Int(x), ValueView::Int(y), addr) == Ok::<bool, ErrorView>(x > y),
        spec_compare(">="@, ValueView::Int(x), ValueView::Int(y), addr) == Ok::<bool, ErrorView>(x >= y),
{
    reveal_strlit("==");
    reveal_strlit("!=");
    reveal_strlit("<");
    reveal_strlit("<=");
    reveal_strlit(">");
    reveal_strlit(">=");
    assert("=="@.len() == 2 && "=="@[0] == '=');
    assert("!="@.len() == 2 && "!="@[0] == '!');
    assert("<"@.len() == 1 && "<"@[0] == '<');
    assert(">"@.len() == 1 && ">"@[0] == '>');
    assert("<="@.len() == 2 && "<="@[0] == '<');
    assert(">="@.len() == 2 && ">="@[0] == '>');
}

/// The orderings fit together: `a > b` is `b < a`, `a <= b` is the
/// negation of `a > b`, and `a >= b` the negation of `a < b`, for any two
/// values that can be ordered.
pub proof fn law_orderings_agree(a: ValueView, b: ValueView, addr: Address)
    ensures
        spec_compare("<"@, a, b, addr) is Ok ==> {
            &&& spec_compare(">"@, b, a, addr) == spec_compare("<"@, a, b, addr)
            &&& spec_compare("<="@, a, b, addr) == Ok::<bool, ErrorView>(!spec_compare(">"@, a, b, addr)->Ok_0)
            &&& spec_compare(">="@, a, b, addr) == Ok::<bool, ErrorView>(!spec_compare("<"@, a, b, addr)->Ok_0)
        },
{
    reveal_strlit("==");
    reveal_strlit("!=");
    reveal_strlit("<");
    reveal_strlit("<=");
    reveal_strlit(">");
    reveal_strlit(">=");
    assert("=="@.len() == 2 && "=="@[0] == '=');
    assert("!="@.len() == 2 && "!="@[0] == '!');
    assert("<"@.len() == 1 && "<"@[0] == '<');
    assert(">"@.len() == 1 && ">"@[0] == '>');
    assert("<="@.len() == 2 && "<="@[0] == '<');
    assert(">="@.len() == 2 && ">="@[0] == '>');
}

/// On two integers whose results fit, `+`, `-` and `*` are the integer
/// operations, and `+` on two strings joins them.
pub proof fn law_arithmetic(x: i64, y: i64, s: Seq<char>, u: Seq<char>, addr: Address)
    ensures
        i64::MIN <= x + y <= i64::MAX ==> spec_binary("+"@, ValueView::Int(x), ValueView::Int(y), addr)
            == Ok::<BinaryView, ErrorView>(BinaryView::Value(ValueView::Int((x + y) as i64))),
        i64::MIN <= x - y <= i64::MAX ==> spec_binary("-"@, ValueView::Int(x), ValueView::Int(y), addr)
            == Ok::<BinaryView, ErrorView>(BinaryView::Value(ValueView::Int((x - y) as i64))),
        i64::MIN <= x * y <= i64::MAX ==> spec_binary("*"@, ValueView::Int(x), ValueView::Int(y), addr)
            == Ok::<BinaryView, ErrorView>(BinaryView::Value(ValueView::Int((x * y) as i64))),
        spec_binary("+"@, ValueView::String(s), ValueView::String(u), addr)
            == Ok::<BinaryView, ErrorView>(BinaryView::Value(ValueView::String(s + u))),
{
    reveal_strlit("+");
    reveal_strlit("-");
    reveal_strlit("*");
    assert("+"@.len() == 1 && "+"@[0] == '+');
    assert("-"@.len() == 1 && "-"@[0] == '-');
    assert("*"@.len() == 1 && "*"@[0] == '*');
}

/// Whether two values are equal.
fn equal_values(a: &Value, b: &Value) -> (r: bool)
    ensures
        r == values_equal(a@, b@),
{
    match (a, b) {
        (Value::Int(x), Value::Int(y)) => *x == *y,
        (Value::Null, Value::Null) => true,
        (Value::Bool(x), Value::Bool(y)) => *x == *y,
        (Value::String(s), Value::String(u)) => *s == *u,
        _ => false,
    }
}

/// A comparison of the virtual machine on two values (`left op right`).
pub fn compare(op: &str, left: &Value, right: &Value, addr: Address) -> (r: Result<bool, Error>)
    requires
        is_compare_op(op@),
    ensures
        match r {
            Ok(v) => spec_compare(op@, left@, right@, addr) == Ok::<bool, ErrorView>(v),
            Err(e) => spec_compare(op@, left@, right@, addr) == Err::<bool, ErrorView>(e@),
        },
{
    if str_equals(op, "==") {
        Ok(equal_values(left, right))
    } else if str_equals(op, "!=") {
        Ok(!equal_values(left, right))
    } else {
        match (left, right) {
            (Value::Int(x), Value::Int(y)) => {
                if str_equals(op, ">") {
                    Ok(*x > *y)
                } else if str_equals(op, "<") {
                    Ok(*x < *y)
                } else if str_equals(op, ">=") {
                    Ok(*x >= *y)
                } else {
                    Ok(*x <= *y)
                }
            },
            (Value::String(s), Value::String(u)) => {
                if str_equals(op, ">") {
                    Ok(str_less(u.as_str(), s.as_str()))
                } else if str_equals(op, "<") {
                    Ok(str_less(s.as_str(), u.as_str()))
                } else if str_equals(op, ">=") {
                    Ok(!str_less(s.as_str(), u.as_str()))
                } else {
                    Ok(!str_less(u.as_str(), s.as_str()))
                }
            },
            _ => Err(invalid_op_error(op, "for", left, right, addr)),
        }
    }
}

} // verus!
