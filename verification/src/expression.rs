//! Expressions as the statement tree carries them, and their
//! evaluation against the current variable frame.

use vstd::prelude::*;
use vstd::string::StringExecFns;

use crate::env::Environment;
use crate::error::{ErrorKind, ErrorKindM};
use crate::value::{deep_list, lemma_deep_list, Value, ValueM};

verus! {

/// A binary operator of the expression language.
#[derive(Clone, Copy, PartialEq, Eq, Structural)]
pub enum Operator {
    Add,
    Sub,
    Mul,
    Equality,
    LessThan,
}

/// The spelling of an operator inside a diagnostic message.
pub open spec fn op_str_m(op: Operator) -> Seq<char> {
    match op {
        Operator::Add => "Add"@,
        Operator::Sub => "Sub"@,
        Operator::Mul => "Mul"@,
        Operator::Equality => "Equality"@,
        Operator::LessThan => "LessThan"@,
    }
}

/// Renders an operator for a diagnostic message.
pub fn op_string(op: &Operator) -> (r: &'static str)
    ensures
        r@ == op_str_m(*op),
{
    proof {
        reveal_strlit("Add");
        reveal_strlit("Sub");
        reveal_strlit("Mul");
        reveal_strlit("Equality");
        reveal_strlit("LessThan");
    }
    match op {
        Operator::Add => "Add",
        Operator::Sub => "Sub",
        Operator::Mul => "Mul",
        Operator::Equality => "Equality",
        Operator::LessThan => "LessThan",
    }
}

/// An expression of the source language. The execution engine
/// delegates expression evaluation to this module.
pub enum Expression {
    /// A literal value.
    Literal(Value),
    /// A reference to a scalar or list variable.
    Variable(String),
    /// An element of a named list at a computed index.
    ListIndex(String, Box<Expression>),
    /// A binary operation over two sub-expressions.
    Binary(Operator, Box<Expression>, Box<Expression>),
}

impl Expression {
    /// A structural copy, used when an error report takes the failing
    /// statement by value while the tree is still borrowed.
    pub(crate) fn dup(&self) -> (r: Expression)
        decreases self,
    {
        match self {
            Expression::Literal(v) => Expression::Literal(v.dup()),
            Expression::Variable(n) => Expression::Variable(n.clone()),
            Expression::ListIndex(n, i) => {
                let e = (&**i).dup();
                Expression::ListIndex(n.clone(), Box::new(e))
            },
            Expression::Binary(op, l, r) => {
                let el = (&**l).dup();
                let er = (&**r).dup();
                Expression::Binary(*op, Box::new(el), Box::new(er))
            },
        }
    }
}

/// The value of an expression under the given frame bindings, or the
/// failure its evaluation raises.
pub open spec fn eval_m(e: Expression, vars: Map<Seq<char>, ValueM>) -> Result<ValueM, ErrorKindM>
    decreases e,
{
    match e {
        Expression::Literal(v) => Ok(v.deep()),
        Expression::Variable(name) => if vars.contains_key(name@) {
            Ok(vars[name@])
        } else {
            Err(ErrorKindM::UnknownVariable(name@))
        },
        Expression::ListIndex(name, idx) => if !vars.contains_key(name@) {
            Err(ErrorKindM::UnknownVariable(name@))
        } else {
            match eval_m(*idx, vars) {
                Err(k) => Err(k),
                Ok(iv) => index_list_m(vars[name@], iv),
            }
        },
        Expression::Binary(op, l, r) => match eval_m(*l, vars) {
            Err(k) => Err(k),
            Ok(lv) => match eval_m(*r, vars) {
                Err(k) => Err(k),
                Ok(rv) => apply_op_m(op, lv, rv),
            },
        },
    }
}

/// Indexing a container: the container must be a list, the index a
/// non-negative integer below its length.
pub open spec fn index_list_m(container: ValueM, index: ValueM) -> Result<ValueM, ErrorKindM> {
    match container {
        ValueM::List(items) => match index {
            ValueM::Int(i) => if i < 0 {
                Err(ErrorKindM::UnexpectedType("nonnegative int"@, ValueM::Int(i)))
            } else if i < items.len() {
                Ok(items[i])
            } else {
                // The reported index is what fits the machine word.
                Err(ErrorKindM::IndexOutOfBounds(ValueM::List(items), i as usize as int))
            },
            other => Err(ErrorKindM::UnexpectedType("int"@, other)),
        },
        other => Err(ErrorKindM::IndexUnindexable(other)),
    }
}

/// A binary operation: equality compares any two values; the
/// arithmetic operators and the ordering take integers only, with
/// wrap-around arithmetic.
pub open spec fn apply_op_m(op: Operator, l: ValueM, r: ValueM) -> Result<ValueM, ErrorKindM> {
    match op {
        Operator::Equality => Ok(ValueM::Bool(l == r)),
        _ => match l {
            ValueM::Int(a) => match r {
                ValueM::Int(b) => match op {
                    Operator::Add => Ok(ValueM::Int(
                        vstd::wrapping::i64_specs::wrapping_add(a as i64, b as i64) as int,
                    )),
                    Operator::Sub => Ok(ValueM::Int(
                        vstd::wrapping::i64_specs::wrapping_sub(a as i64, b as i64) as int,
                    )),
                    Operator::Mul => Ok(ValueM::Int(
                        vstd::wrapping::i64_specs::wrapping_mul(a as i64, b as i64) as int,
                    )),
                    _ => Ok(ValueM::Bool(a < b)),
                },
                other => Err(ErrorKindM::InvalidBinaryExpression(l, other, op)),
            },
            other => Err(ErrorKindM::InvalidBinaryExpression(other, r, op)),
        },
    }
}

/// Evaluates an expression against the innermost frame of the
/// environment.
pub fn eval(e: &Expression, env: &Environment) -> (r: Result<Value, ErrorKind>)
    requires
        env@.wf(),
    ensures
        match r {
            Ok(v) => eval_m(*e, env@.cur()) == Ok::<ValueM, ErrorKindM>(v.deep()),
            Err(k) => eval_m(*e, env@.cur()) == Err::<ValueM, ErrorKindM>(k.deep()),
        },
    decreases e,
{
    match e {
        Expression::Literal(v) => Ok(v.dup()),
        Expression::Variable(name) => match env.get_var(name) {
            Some(v) => Ok(v),
            None => Err(ErrorKind::UnknownVariable(name.clone())),
        },
        Expression::ListIndex(name, idx) => match env.get_var(name) {
            None => Err(ErrorKind::UnknownVariable(name.clone())),
            Some(container) => match eval(&**idx, env) {
                Err(k) => Err(k),
                Ok(iv) => index_list(container, iv),
            },
        },
        Expression::Binary(op, l, r) => match eval(&**l, env) {
            Err(k) => Err(k),
            Ok(lv) => match eval(&**r, env) {
                Err(k) => Err(k),
                Ok(rv) => apply_op(*op, lv, rv),
            },
        },
    }
}

/// Indexes a list value with an integer value.
fn index_list(container: Value, index: Value) -> (r: Result<Value, ErrorKind>)
    ensures
        match r {
            Ok(v) => index_list_m(container.deep(), index.deep()) == Ok::<ValueM, ErrorKindM>(
                v.deep(),
            ),
            Err(k) => index_list_m(container.deep(), index.deep()) == Err::<ValueM, ErrorKindM>(
                k.deep(),
            ),
        },
{
    broadcast use lemma_deep_list;

    match container {
        Value::List(items) => match index {
            Value::Int(i) => if i < 0 {
                proof {
                    reveal_strlit("nonnegative int");
                }
                Err(ErrorKind::UnexpectedType(
                    String::from_str("nonnegative int"),
                    Value::Int(i),
                ))
            } else if (i as u64) < (items.len() as u64) {
                let v = items[i as usize].dup();
                proof {
                    assert(v.deep() == deep_list(items@)[i as int]);
                    assert(index_list_m(container.deep(), index.deep()) == Ok::<
                        ValueM,
                        ErrorKindM,
                    >(v.deep()));
                }
                Ok(v)
            } else {
                Err(ErrorKind::IndexOutOfBounds(
                    Value::List(items),
                    #[verifier::truncate] (i as usize),
                ))
            },
            other => {
                proof {
                    reveal_strlit("int");
                }
                Err(ErrorKind::UnexpectedType(String::from_str("int"), other))
            },
        },
        other => Err(ErrorKind::IndexUnindexable(other)),
    }
}

/// Applies a binary operator to two evaluated values.
fn apply_op(op: Operator, l: Value, r: Value) -> (res: Result<Value, ErrorKind>)
    ensures
        match res {
            Ok(v) => apply_op_m(op, l.deep(), r.deep()) == Ok::<ValueM, ErrorKindM>(v.deep()),
            Err(k) => apply_op_m(op, l.deep(), r.deep()) == Err::<ValueM, ErrorKindM>(k.deep()),
        },
{
    match op {
        Operator::Equality => {
            let b = l.eq_value(&r);
            Ok(Value::Bool(b))
        },
        _ => {
            let a: i64 = match &l {
                Value::Int(a) => *a,
                _ => {
                    return Err(ErrorKind::InvalidBinaryExpression(l, r, op));
                },
            };
            let b: i64 = match &r {
                Value::Int(b) => *b,
                _ => {
                    return Err(ErrorKind::InvalidBinaryExpression(l, r, op));
                },
            };
            match op {
                Operator::Add => Ok(Value::Int(a.wrapping_add(b))),
                Operator::Sub => Ok(Value::Int(a.wrapping_sub(b))),
                Operator::Mul => Ok(Value::Int(a.wrapping_mul(b))),
                _ => Ok(Value::Bool(a < b)),
            }
        },
    }
}

} // verus!
