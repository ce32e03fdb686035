//! The statement tree: the executable representation of a program,
//! each statement carrying the half-open source range it came from.

use vstd::prelude::*;
use vstd::string::StrSliceExecFns;

use std::rc::Rc;

use crate::expression::Expression;

verus! {

/// One statement of the source language, with the half-open character
/// range of the source text that produced it.
pub struct Statement {
    pub start: usize,
    pub end: usize,
    pub kind: StatementKind,
}

/// The closed set of statement variants. Branch, loop, recovery,
/// function and native-binding constructs nest further statement
/// sequences.
pub enum StatementKind {
    /// Bind or overwrite a scalar variable.
    Assignment(String, Expression),
    /// Remove a variable from scope.
    Delete(String),
    /// Emit a value followed by a newline.
    Print(Expression),
    /// Emit a value with no trailing newline.
    PrintNoNl(Expression),
    /// Create an empty ordered container under a name.
    ListNew(String),
    /// Append a value to the end of a named container.
    ListAppend(String, Expression),
    /// Overwrite the element at an evaluated index.
    ListAssign(String, Expression, Expression),
    /// Remove the element at an evaluated index.
    ListDelete(String, Expression),
    /// Conditional branch with an optional else body.
    If(Expression, Vec<Statement>, Option<Vec<Statement>>),
    /// Pre-condition loop.
    While(Expression, Vec<Statement>),
    /// Read one line of external input into a scalar variable.
    Input(String),
    /// Run the try body; on a propagated error, discard it and run the
    /// catch body instead.
    Catch(Vec<Statement>, Vec<Statement>),
    /// Define a callable procedure. The body is shared with the
    /// function table, so it sits behind a reference-counted pointer.
    Function(String, Vec<String>, Rc<Vec<Statement>>),
    /// Unwind the current call with a value.
    Return(Expression),
    /// Invoke a defined or natively-bound procedure, discarding its
    /// result.
    FunctionCall(String, Vec<Expression>),
    /// Load a native library and bind its symbols under the names the
    /// nested function-binding statements give.
    DylibLoad(String, Vec<Statement>),
}

impl StatementKind {
    /// An assignment statement.
    pub fn assignment(name: String, expr: Expression) -> (r: Self)
        ensures
            r == StatementKind::Assignment(name, expr),
    {
        StatementKind::Assignment(name, expr)
    }

    /// A native-library load with its nested function bindings.
    pub fn dylib_load(lib_path: String, functions: Vec<Statement>) -> (r: Self)
        ensures
            r == StatementKind::DylibLoad(lib_path, functions),
    {
        StatementKind::DylibLoad(lib_path, functions)
    }

    /// A return statement.
    pub fn return_it(expr: Expression) -> (r: Self)
        ensures
            r == StatementKind::Return(expr),
    {
        StatementKind::Return(expr)
    }

    /// A list append statement.
    pub fn list_append(name: String, expr: Expression) -> (r: Self)
        ensures
            r == StatementKind::ListAppend(name, expr),
    {
        StatementKind::ListAppend(name, expr)
    }

    /// A list element removal statement.
    pub fn list_delete(name: String, index: Expression) -> (r: Self)
        ensures
            r == StatementKind::ListDelete(name, index),
    {
        StatementKind::ListDelete(name, index)
    }

    /// A conditional branch.
    pub fn if_block(
        condition: Expression,
        if_body: Vec<Statement>,
        else_body: Option<Vec<Statement>>,
    ) -> (r: Self)
        ensures
            r == StatementKind::If(condition, if_body, else_body),
    {
        StatementKind::If(condition, if_body, else_body)
    }

    /// A pre-condition loop.
    pub fn while_block(condition: Expression, body: Vec<Statement>) -> (r: Self)
        ensures
            r == StatementKind::While(condition, body),
    {
        StatementKind::While(condition, body)
    }

    /// A function definition.
    pub fn function(name: String, args: Vec<String>, body: Vec<Statement>) -> (r: Self)
        ensures
            r matches StatementKind::Function(n, a, b) && n == name && a == args && b == body,
    {
        let b = Rc::new(body);
        StatementKind::Function(name, args, b)
    }

    /// An input statement.
    pub fn input(name: String) -> (r: Self)
        ensures
            r == StatementKind::Input(name),
    {
        StatementKind::Input(name)
    }

    /// An error-recovery construct.
    pub fn catch(try_block: Vec<Statement>, catch: Vec<Statement>) -> (r: Self)
        ensures
            r == StatementKind::Catch(try_block, catch),
    {
        StatementKind::Catch(try_block, catch)
    }

    /// A list element overwrite statement.
    pub fn list_assign(name: String, index: Expression, assign: Expression) -> (r: Self)
        ensures
            r == StatementKind::ListAssign(name, index, assign),
    {
        StatementKind::ListAssign(name, index, assign)
    }

    /// A variable removal statement.
    pub fn delete(name: String) -> (r: Self)
        ensures
            r == StatementKind::Delete(name),
    {
        StatementKind::Delete(name)
    }

    /// A print statement.
    pub fn print(expr: Expression) -> (r: Self)
        ensures
            r == StatementKind::Print(expr),
    {
        StatementKind::Print(expr)
    }

    /// A list creation statement.
    pub fn new_list(name: String) -> (r: Self)
        ensures
            r == StatementKind::ListNew(name),
    {
        StatementKind::ListNew(name)
    }
}

impl Statement {
    /// The start of the source range this statement came from.
    pub open spec fn span_start(&self) -> int {
        self.start as int
    }

    /// The end of the source range this statement came from.
    pub open spec fn span_end(&self) -> int {
        self.end as int
    }

    /// A statement over the half-open source range `start..end`.
    pub fn new(kind: StatementKind, start: usize, end: usize) -> (r: Self)
        ensures
            r.kind == kind,
            r.span_start() == start as int,
            r.span_end() == end as int,
    {
        Self { kind, start, end }
    }

    /// A statement with an empty source range, for programs built in
    /// tests rather than parsed from a file.
    pub fn tnew(kind: StatementKind) -> (r: Self)
        ensures
            r.kind == kind,
            r.span_start() == 0,
            r.span_end() == 0,
    {
        Self { kind, start: 0, end: 0 }
    }

    /// The slice of the source text this statement came from. The
    /// range must be non-empty and lie inside the text; a violated
    /// range is a programming error, not a runtime one.
    pub fn get_source(&self, source: &str) -> (r: String)
        requires
            self.span_start() < self.span_end(),
            self.span_end() <= source@.len(),
        ensures
            r@ == source@.subrange(self.span_start(), self.span_end()),
    {
        let part = source.substring_char(self.start, self.end);
        part.to_owned()
    }

    /// A structural copy, used when an error report takes the failing
    /// statement by value while the tree is still borrowed.
    pub fn dup(&self) -> (r: Statement)
        ensures
            r.span_start() == self.span_start(),
            r.span_end() == self.span_end(),
        decreases self,
    {
        Statement { start: self.start, end: self.end, kind: self.kind.dup() }
    }
}

impl StatementKind {
    /// A structural copy of a statement kind.
    pub(crate) fn dup(&self) -> (r: StatementKind)
        decreases self,
    {
        match self {
            StatementKind::Assignment(n, e) => StatementKind::Assignment(n.clone(), e.dup()),
            StatementKind::Delete(n) => StatementKind::Delete(n.clone()),
            StatementKind::Print(e) => StatementKind::Print(e.dup()),
            StatementKind::PrintNoNl(e) => StatementKind::PrintNoNl(e.dup()),
            StatementKind::ListNew(n) => StatementKind::ListNew(n.clone()),
            StatementKind::ListAppend(n, e) => StatementKind::ListAppend(n.clone(), e.dup()),
            StatementKind::ListAssign(n, i, e) => StatementKind::ListAssign(
                n.clone(),
                i.dup(),
                e.dup(),
            ),
            StatementKind::ListDelete(n, i) => StatementKind::ListDelete(n.clone(), i.dup()),
            StatementKind::If(c, t, e) => {
                let tb = dup_statements(t);
                let eb = match e {
                    Some(b) => Some(dup_statements(b)),
                    None => None,
                };
                StatementKind::If(c.dup(), tb, eb)
            },
            StatementKind::While(c, b) => StatementKind::While(c.dup(), dup_statements(b)),
            StatementKind::Input(n) => StatementKind::Input(n.clone()),
            StatementKind::Catch(t, c) => StatementKind::Catch(
                dup_statements(t),
                dup_statements(c),
            ),
            StatementKind::Function(n, a, b) => StatementKind::Function(
                n.clone(),
                dup_strings(a),
                rc_statements_dup(b),
            ),
            StatementKind::Return(e) => StatementKind::Return(e.dup()),
            StatementKind::FunctionCall(n, a) => {
                let mut args: Vec<Expression> = Vec::new();
                let mut i: usize = 0;
                while i < a.len()
                    invariant
                        i <= a.len(),
                    decreases a@.len() - i,
                {
                    let e = a[i].dup();
                    args.push(e);
                    i = i + 1;
                }
                StatementKind::FunctionCall(n.clone(), args)
            },
            StatementKind::DylibLoad(p, b) => StatementKind::DylibLoad(
                p.clone(),
                dup_statements(b),
            ),
        }
    }
}

/// A structural copy of a statement sequence.
pub(crate) fn dup_statements(v: &Vec<Statement>) -> (r: Vec<Statement>)
    decreases v,
{
    let mut out: Vec<Statement> = Vec::new();
    let mut i: usize = 0;
    while i < v.len()
        invariant
            i <= v.len(),
        decreases v@.len() - i,
    {
        proof {
            broadcast use vstd::std_specs::vec::axiom_vec_index_decreases;

            assert(decreases_to!(*v => v[i as int]));
        }
        let s = v[i].dup();
        out.push(s);
        i = i + 1;
    }
    out
}

/// A copy of a vector of names.
pub(crate) fn dup_strings(v: &Vec<String>) -> (r: Vec<String>)
    ensures
        r.deep_view() == v.deep_view(),
{
    let mut out: Vec<String> = Vec::new();
    let mut i: usize = 0;
    while i < v.len()
        invariant
            i <= v.len(),
            out@.len() == i as int,
            forall|j: int| 0 <= j < i as int ==> out@[j]@ == v@[j]@,
        decreases v@.len() - i,
    {
        let s = v[i].clone();
        out.push(s);
        i = i + 1;
    }
    assert(out.deep_view() =~= v.deep_view());
    out
}

/// Relies on `Rc::clone`: the copy is the same shared value.
#[verifier::external_body]
pub(crate) fn rc_statements_dup(r: &Rc<Vec<Statement>>) -> (res: Rc<Vec<Statement>>)
    ensures
        res == *r,
{
    Rc::clone(r)
}

/// Relies on `Rc`'s `Deref`: borrowing through the pointer reaches
/// the shared value itself.
#[verifier::external_body]
pub(crate) fn rc_statements_borrow(r: &Rc<Vec<Statement>>) -> (res: &Vec<Statement>)
    ensures
        *res == **r,
{
    &**r
}

} // verus!
