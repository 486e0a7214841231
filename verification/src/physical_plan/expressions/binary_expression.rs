//! What binary expressions share: the check of their operands, and the
//! element-wise rules of their operators.

use crate::datatypes::arrow_types::ArrowType;
use crate::datatypes::arrow_vector_builder::{build_vector, stored_all, total_text_bytes, views_of};
use crate::datatypes::column_vector::{ColumnSpec, ColumnVector};
use crate::datatypes::scalar::{view_of, Datum, ScalarValue};
use crate::error::QueryError;
use crate::text::{compare_text, text_less, TextOrder};
use vstd::prelude::*;

verus! {

/// The operators that give a truth value.
#[derive(Clone, Copy, Debug, PartialEq, Eq, Structural)]
pub enum BooleanOp {
    And,
    Or,
    Eq,
    Neq,
    Lt,
    LtEq,
    Gt,
    GtEq,
}

/// The operators of integer arithmetic.
#[derive(Clone, Copy, Debug, PartialEq, Eq, Structural)]
pub enum MathOp {
    Add,
    Subtract,
    Multiply,
    Divide,
    Modulus,
}

/// Why two columns cannot be the operands of one binary expression: they
/// differ in length, or else in type.
pub open spec fn operand_fault(l: ColumnSpec, r: ColumnSpec) -> Option<QueryError> {
    if l.items.len() != r.items.len() {
        Some(QueryError::LengthMismatch(l.items.len() as usize, r.items.len() as usize))
    } else if l.data_type != r.data_type {
        Some(QueryError::TypeMismatch(l.data_type, r.data_type))
    } else {
        None
    }
}

/// `a` comes before `b` in the order of their type: `false` before `true`,
/// the smaller number first, texts in byte order. Values of different
/// types have no order.
pub open spec fn datum_less(a: Datum, b: Datum) -> bool {
    match (a, b) {
        (Datum::Boolean(x), Datum::Boolean(y)) => !x && y,
        (Datum::Integer(s, x), Datum::Integer(t, y)) => s == t && x < y,
        (Datum::Text(x), Datum::Text(y)) => text_less(x, y),
        _ => false,
    }
}

/// The truth value that an operator gives for two values of one type;
/// `None` for values of different types, and where `AND` or `OR` meets a
/// value that is no truth value.
pub open spec fn truth(op: BooleanOp, a: Datum, b: Datum) -> Option<bool> {
    if a.data_type() != b.data_type() {
        None
    } else {
        match op {
            BooleanOp::And => match (a, b) {
                (Datum::Boolean(x), Datum::Boolean(y)) => Some(x && y),
                _ => None,
            },
            BooleanOp::Or => match (a, b) {
                (Datum::Boolean(x), Datum::Boolean(y)) => Some(x || y),
                _ => None,
            },
            BooleanOp::Eq => Some(a == b),
            BooleanOp::Neq => Some(a != b),
            BooleanOp::Lt => Some(datum_less(a, b)),
            BooleanOp::LtEq => Some(datum_less(a, b) || a == b),
            BooleanOp::Gt => Some(datum_less(b, a)),
            BooleanOp::GtEq => Some(datum_less(b, a) || a == b),
        }
    }
}

/// The slot that a boolean operator gives for two slots: a null where one
/// of them is a null or the two values have no truth value together.
pub open spec fn compared_item(op: BooleanOp, a: Option<Datum>, b: Option<Datum>) -> Option<
    Datum,
> {
    match (a, b) {
        (Some(x), Some(y)) => match truth(op, x, y) {
            Some(t) => Some(Datum::Boolean(t)),
            None => None,
        },
        _ => None,
    }
}

/// Whether a boolean operator takes operands of type `t`: `AND` and `OR`
/// take truth values only; no operator takes floating-point numbers.
pub open spec fn boolean_op_takes(op: BooleanOp, t: ArrowType) -> bool {
    !t.is_floating() && ((op != BooleanOp::And && op != BooleanOp::Or) || t
        == ArrowType::BooleanType)
}

/// What a boolean operator makes of two columns: a boolean column, slot by
/// slot; a failure where the operands do not fit each other or the
/// operator.
pub open spec fn compared(op: BooleanOp, l: ColumnSpec, r: ColumnSpec) -> Result<
    ColumnSpec,
    QueryError,
> {
    match operand_fault(l, r) {
        Some(e) => Err(e),
        None => if !boolean_op_takes(op, l.data_type) {
            Err(QueryError::UnsupportedType(l.data_type))
        } else {
            Ok(
                ColumnSpec {
                    data_type: ArrowType::BooleanType,
                    items: Seq::new(
                        l.items.len(),
                        |i: int| compared_item(op, l.items[i], r.items[i]),
                    ),
                },
            )
        },
    }
}

/// The quotient of `x` by `d`, rounded towards zero.
pub open spec fn truncated_quotient(x: int, d: int) -> int {
    if x == 0 {
        0
    } else if x > 0 && d > 0 {
        x / d
    } else if x < 0 && d < 0 {
        ((x * -1) / (d * -1))
    } else if x < 0 {
        ((x * -1) / d) * -1
    } else {
        (x / (d * -1)) * -1
    }
}

/// The remainder of `x` by `d` that goes with the quotient rounded towards
/// zero: it has the sign of `x`.
pub open spec fn truncated_remainder(x: int, d: int) -> int {
    if x == 0 {
        0
    } else if x > 0 && d > 0 {
        x % d
    } else if x < 0 && d < 0 {
        ((x * -1) % (d * -1)) * -1
    } else if x < 0 {
        ((x * -1) % d) * -1
    } else {
        x % (d * -1)
    }
}

/// The number that an arithmetic operator gives in the integer type `t`;
/// `None` where it divides by zero, or where the result (for a remainder:
/// the quotient) is no value of `t`.
pub open spec fn math_value(op: MathOp, t: ArrowType, x: int, y: int) -> Option<int> {
    match op {
        MathOp::Add => if t.admits(x + y) {
            Some(x + y)
        } else {
            None
        },
        MathOp::Subtract => if t.admits(x - y) {
            Some(x - y)
        } else {
            None
        },
        MathOp::Multiply => if t.admits(x * y) {
            Some(x * y)
        } else {
            None
        },
        MathOp::Divide => if y != 0 && t.admits(truncated_quotient(x, y)) {
            Some(truncated_quotient(x, y))
        } else {
            None
        },
        MathOp::Modulus => if y != 0 && t.admits(truncated_quotient(x, y)) {
            Some(truncated_remainder(x, y))
        } else {
            None
        },
    }
}

/// Whether two slots are both numbers of type `t`.
pub open spec fn both_numbers(t: ArrowType, a: Option<Datum>, b: Option<Datum>) -> bool {
    &&& a matches Some(Datum::Integer(s, _))
    &&& s == t
    &&& b matches Some(Datum::Integer(u, _))
    &&& u == t
}

/// Whether an arithmetic operator fails on two slots: both are numbers of
/// type `t`, and the operator has no value for them.
pub open spec fn math_fails(op: MathOp, t: ArrowType, a: Option<Datum>, b: Option<Datum>) -> bool {
    both_numbers(t, a, b) && math_value(op, t, a->Some_0->Integer_1, b->Some_0->Integer_1) is None
}

/// The slot that an arithmetic operator gives for two slots: the result
/// for two numbers of type `t`, a null otherwise.
pub open spec fn math_item(op: MathOp, t: ArrowType, a: Option<Datum>, b: Option<Datum>) -> Option<
    Datum,
> {
    if both_numbers(t, a, b) {
        match math_value(op, t, a->Some_0->Integer_1, b->Some_0->Integer_1) {
            Some(v) => Some(Datum::Integer(t, v)),
            None => None,
        }
    } else {
        None
    }
}

/// What an arithmetic operator makes of two columns: a column of their
/// type, slot by slot; a failure where the operands do not fit each other,
/// are no integers, or the operator fails on some slot.
pub open spec fn calculated(op: MathOp, l: ColumnSpec, r: ColumnSpec) -> Result<
    ColumnSpec,
    QueryError,
> {
    match operand_fault(l, r) {
        Some(e) => Err(e),
        None => if !l.data_type.is_integer() {
            Err(QueryError::UnsupportedType(l.data_type))
        } else if exists|i: int|
            0 <= i < l.items.len() && math_fails(op, l.data_type, #[trigger] l.items[i], r.items[i]) {
            Err(QueryError::ArithmeticFailure)
        } else {
            Ok(
                ColumnSpec {
                    data_type: l.data_type,
                    items: Seq::new(
                        l.items.len(),
                        |i: int| math_item(op, l.data_type, l.items[i], r.items[i]),
                    ),
                },
            )
        },
    }
}

/// A column of type `t` that holds `values`, which are all of type `t` and
/// are no texts: such a column can always be built.
pub fn column_of_values(t: ArrowType, values: &Vec<Option<ScalarValue>>) -> (r: Result<
    ColumnVector,
    QueryError,
>)
    requires
        !t.is_floating(),
        t != ArrowType::StringType,
        forall|i: int|
            0 <= i < values@.len() ==> ((#[trigger] values@[i]) matches Some(v) ==> v@.data_type()
                == t),
    ensures
        r is Ok,
        r->Ok_0.data_type() == t,
        r->Ok_0.items() == views_of(values@),
{
    proof {
        let all = stored_all(t, views_of(values@));
        assert(all =~= views_of(values@));
        lemma_no_text(views_of(values@), t);
    }
    build_vector(t, values)
}

/// Slots that hold no text take no bytes of text.
pub proof fn lemma_no_text(items: Seq<Option<Datum>>, t: ArrowType)
    requires
        t != ArrowType::StringType,
        forall|i: int|
            0 <= i < items.len() ==> ((#[trigger] items[i]) matches Some(d) ==> d.data_type() == t),
    ensures
        total_text_bytes(items) == 0,
    decreases items.len(),
{
    if items.len() > 0 {
        let rest = items.drop_last();
        lemma_no_text(rest, t);
    }
}

/// Checks that two columns can be the operands of one binary expression.
pub fn check_operands(l: &ColumnVector, r: &ColumnVector) -> (fault: Option<QueryError>)
    ensures
        fault == operand_fault(
            l@,
            r@,
        ),
{
    let ll: usize = l.size();
    let rl: usize = r.size();
    if ll != rl {
        return Some(QueryError::LengthMismatch(ll, rl));
    }
    let lt = l.get_type();
    let rt = r.get_type();
    if lt != rt {
        return Some(QueryError::TypeMismatch(lt, rt));
    }
    None
}

/// Whether `a` comes before `b` in the order of their type.
pub fn value_less(a: &ScalarValue, b: &ScalarValue) -> (r: bool)
    ensures
        r == datum_less(a@, b@),
{
    match (a, b) {
        (ScalarValue::Boolean(x), ScalarValue::Boolean(y)) => !*x && *y,
        (ScalarValue::Utf8(x), ScalarValue::Utf8(y)) => compare_text(x.as_str(), y.as_str())
            == TextOrder::Less,
        _ => {
            if a.get_type() == b.get_type() {
                match (a.to_integer(), b.to_integer()) {
                    (Some(x), Some(y)) => x < y,
                    _ => false,
                }
            } else {
                false
            }
        },
    }
}

/// The truth value that a boolean operator gives for two values.
pub fn evaluate_bool(op: BooleanOp, a: &ScalarValue, b: &ScalarValue) -> (r: Option<bool>)
    ensures
        r == truth(op, a@, b@),
{
    if a.get_type() != b.get_type() {
        return None;
    }
    match op {
        BooleanOp::And => match (a, b) {
            (ScalarValue::Boolean(x), ScalarValue::Boolean(y)) => Some(*x && *y),
            _ => None,
        },
        BooleanOp::Or => match (a, b) {
            (ScalarValue::Boolean(x), ScalarValue::Boolean(y)) => Some(*x || *y),
            _ => None,
        },
        BooleanOp::Eq => Some(a.equals(b)),
        BooleanOp::Neq => Some(!a.equals(b)),
        BooleanOp::Lt => Some(value_less(a, b)),
        BooleanOp::LtEq => Some(value_less(a, b) || a.equals(b)),
        BooleanOp::Gt => Some(value_less(b, a)),
        BooleanOp::GtEq => Some(value_less(b, a) || a.equals(b)),
    }
}

/// Whether a boolean operator takes operands of type `t`.
pub fn takes(op: BooleanOp, t: ArrowType) -> (r: bool)
    ensures
        r == boolean_op_takes(op, t),
{
    if t.is_floating_type() {
        false
    } else {
        match op {
            BooleanOp::And | BooleanOp::Or => t == ArrowType::BooleanType,
            _ => true,
        }
    }
}

/// Applies a boolean operator to two columns, slot by slot.
pub fn compare(op: BooleanOp, l: &ColumnVector, r: &ColumnVector) -> (out: Result<
    ColumnVector,
    QueryError,
>)
    ensures
        crate::physical_plan::expressions::gives(
            out,
            compared(
                op,
                l@,
                r@,
            ),
        ),
{
    match check_operands(l, r) {
        Some(e) => {
            return Err(e);
        },
        None => {},
    }
    let t = l.get_type();
    if !takes(op, t) {
        return Err(QueryError::UnsupportedType(t));
    }
    let n: usize = l.size();
    let mut values: Vec<Option<ScalarValue>> = Vec::new();
    let mut i: usize = 0;
    while i < n
        invariant
            i <= n,
            n == l.items().len(),
            n == r.items().len(),
            values@.len() == i,
            forall|k: int|
                0 <= k < i ==> view_of(#[trigger] values@[k]) == compared_item(
                    op,
                    l.items()[k],
                    r.items()[k],
                ),
        decreases n - i,
    {
        let value = match (l.get_value(i), r.get_value(i)) {
            (Some(a), Some(b)) => match evaluate_bool(op, &a, &b) {
                Some(t) => Some(ScalarValue::Boolean(t)),
                None => None,
            },
            _ => None,
        };
        values.push(value);
        i = i + 1;
    }
    let c = column_of_values(ArrowType::BooleanType, &values);
    assert(views_of(values@) =~= Seq::new(
        l.items().len(),
        |i: int| compared_item(op, l.items()[i], r.items()[i]),
    ));
    c
}

/// The number that an arithmetic operator gives in the integer type `t`.
pub fn evaluate_math_op(op: MathOp, t: ArrowType, x: i128, y: i128) -> (r: Option<i128>)
    requires
        t.admits(x as int),
        t.admits(y as int),
    ensures
        r == (match math_value(op, t, x as int, y as int) {
            Some(v) => Some(v as i128),
            None => None,
        }),
        r matches Some(v) ==> t.admits(v as int),
{
    let (min, max) = t.bounds();
    let value: i128 = match op {
        MathOp::Add => x + y,
        MathOp::Subtract => x - y,
        MathOp::Multiply => match x.checked_mul(y) {
            Some(p) => p,
            None => {
                return None;
            },
        },
        MathOp::Divide => {
            if y == 0 {
                return None;
            }
            match x.checked_div(y) {
                Some(q) => q,
                None => {
                    return None;
                },
            }
        },
        MathOp::Modulus => {
            if y == 0 {
                return None;
            }
            let q: i128 = match x.checked_div(y) {
                Some(q) => q,
                None => {
                    return None;
                },
            };
            if q < min || q > max {
                return None;
            }
            match x.checked_rem(y) {
                Some(m) => m,
                None => {
                    return None;
                },
            }
        },
    };
    if min <= value && value <= max {
        Some(value)
    } else {
        None
    }
}

/// Applies an arithmetic operator to two columns, slot by slot.
pub fn calculate(op: MathOp, l: &ColumnVector, r: &ColumnVector) -> (out: Result<
    ColumnVector,
    QueryError,
>)
    ensures
        crate::physical_plan::expressions::gives(
            out,
            calculated(
                op,
                l@,
                r@,
            ),
        ),
{
    match check_operands(l, r) {
        Some(e) => {
            return Err(e);
        },
        None => {},
    }
    let t = l.get_type();
    if !t.is_integer_type() {
        return Err(QueryError::UnsupportedType(t));
    }
    let n: usize = l.size();
    let mut values: Vec<Option<ScalarValue>> = Vec::new();
    let mut i: usize = 0;
    while i < n
        invariant
            i <= n,
            n == l.items().len(),
            n == r.items().len(),
            t == l.data_type(),
            t == r.data_type(),
            t.is_integer(),
            values@.len() == i,
            forall|k: int|
                0 <= k < i ==> !math_fails(op, t, #[trigger] l.items()[k], r.items()[k]),
            forall|k: int|
                0 <= k < i ==> view_of(#[trigger] values@[k]) == math_item(
                    op,
                    t,
                    l.items()[k],
                    r.items()[k],
                ),
            forall|k: int|
                0 <= k < i ==> ((#[trigger] values@[k]) matches Some(v) ==> v@.data_type() == t),
        decreases n - i,
    {
        let a = l.get_value(i);
        let b = r.get_value(i);
        let value: Option<ScalarValue> = match (&a, &b) {
            (Some(x), Some(y)) => {
                if x.get_type() == t && y.get_type() == t {
                    match (x.to_integer(), y.to_integer()) {
                        (Some(p), Some(q)) => match evaluate_math_op(op, t, p, q) {
                            Some(v) => ScalarValue::from_integer(t, v),
                            None => {
                                return Err(QueryError::ArithmeticFailure);
                            },
                        },
                        _ => None,
                    }
                } else {
                    None
                }
            },
            _ => None,
        };
        values.push(value);
        i = i + 1;
    }
    let c = column_of_values(t, &values);
    assert(views_of(values@) =~= Seq::new(
        l.items().len(),
        |i: int| math_item(op, l.data_type(), l.items()[i], r.items()[i]),
    ));
    c
}

} // verus!
