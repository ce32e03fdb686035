//! Runtime failures and the themed diagnostic reports built from
//! them.

use vstd::prelude::*;
use vstd::string::{StrSliceExecFns, StringExecFns};

use crate::expression::{op_str_m, op_string, Operator};
use crate::statement::Statement;
use crate::text::{int_str, u64_string};
use crate::value::{render_m, type_str_m, Value, ValueM};

verus! {

/// A runtime failure: the statement whose execution produced it, and
/// what went wrong.
pub struct Error {
    pub place: Statement,
    pub kind: ErrorKind,
}

/// The closed set of runtime failure kinds. Each carries exactly the
/// data its message needs.
pub enum ErrorKind {
    /// A name with no binding in the current frame.
    UnknownVariable(String),
    /// A list operation on a value that is not a list.
    IndexUnindexable(Value),
    /// A parser-originated failure, carried opaquely as its rendered
    /// text and only ever displayed.
    SyntaxError(String),
    /// An index past the end of a list.
    IndexOutOfBounds(Value, usize),
    /// An input/output failure, carried as its rendered detail.
    IOError(String),
    /// A value of the wrong type, with a description of what was
    /// asked for.
    UnexpectedType(String, Value),
    /// Operand types a binary operator does not accept.
    InvalidBinaryExpression(Value, Value, Operator),
    /// A call with the wrong number of arguments: the name, the
    /// declared count and the count supplied.
    InvalidArguments(String, usize, usize),
}

/// The mathematical model of a failure kind.
pub enum ErrorKindM {
    UnknownVariable(Seq<char>),
    IndexUnindexable(ValueM),
    SyntaxError(Seq<char>),
    IndexOutOfBounds(ValueM, int),
    IOError(Seq<char>),
    UnexpectedType(Seq<char>, ValueM),
    InvalidBinaryExpression(ValueM, ValueM, Operator),
    InvalidArguments(Seq<char>, int, int),
}

impl ErrorKind {
    /// The model of this failure kind.
    pub open spec fn deep(self) -> ErrorKindM {
        match self {
            ErrorKind::UnknownVariable(n) => ErrorKindM::UnknownVariable(n@),
            ErrorKind::IndexUnindexable(v) => ErrorKindM::IndexUnindexable(v.deep()),
            ErrorKind::SyntaxError(d) => ErrorKindM::SyntaxError(d@),
            ErrorKind::IndexOutOfBounds(v, i) => ErrorKindM::IndexOutOfBounds(
                v.deep(),
                i as int,
            ),
            ErrorKind::IOError(d) => ErrorKindM::IOError(d@),
            ErrorKind::UnexpectedType(e, v) => ErrorKindM::UnexpectedType(e@, v.deep()),
            ErrorKind::InvalidBinaryExpression(l, r, op) => ErrorKindM::InvalidBinaryExpression(
                l.deep(),
                r.deep(),
                op,
            ),
            ErrorKind::InvalidArguments(n, e, a) => ErrorKindM::InvalidArguments(
                n@,
                e as int,
                a as int,
            ),
        }
    }
}

/// Equality of failure kinds: payloads decide, except that any two
/// input/output failures compare equal whatever their detail, so that
/// a test can assert on the kind without pinning the detail.
pub open spec fn kind_eq_m(a: ErrorKindM, b: ErrorKindM) -> bool {
    match (a, b) {
        (ErrorKindM::UnknownVariable(x), ErrorKindM::UnknownVariable(y)) => x == y,
        (ErrorKindM::IndexUnindexable(x), ErrorKindM::IndexUnindexable(y)) => x == y,
        (ErrorKindM::SyntaxError(x), ErrorKindM::SyntaxError(y)) => x == y,
        (
            ErrorKindM::IndexOutOfBounds(xv, xi),
            ErrorKindM::IndexOutOfBounds(yv, yi),
        ) => xv == yv && xi == yi,
        (ErrorKindM::IOError(_), ErrorKindM::IOError(_)) => true,
        (ErrorKindM::UnexpectedType(xe, xv), ErrorKindM::UnexpectedType(ye, yv)) => xe == ye
            && xv == yv,
        (
            ErrorKindM::InvalidBinaryExpression(xl, xr, xo),
            ErrorKindM::InvalidBinaryExpression(yl, yr, yo),
        ) => xl == yl && xr == yr && xo == yo,
        (
            ErrorKindM::InvalidArguments(xn, xe, xa),
            ErrorKindM::InvalidArguments(yn, ye, ya),
        ) => xn == yn && xe == ye && xa == ya,
        _ => false,
    }
}

impl PartialEq for ErrorKind {
    fn eq(&self, other: &ErrorKind) -> (r: bool) {
        match self {
            ErrorKind::UnknownVariable(x) => match other {
                ErrorKind::UnknownVariable(y) => x.eq(y),
                _ => false,
            },
            ErrorKind::IndexUnindexable(x) => match other {
                ErrorKind::IndexUnindexable(y) => x.eq_value(y),
                _ => false,
            },
            ErrorKind::SyntaxError(x) => match other {
                ErrorKind::SyntaxError(y) => x.eq(y),
                _ => false,
            },
            ErrorKind::IndexOutOfBounds(xv, xi) => match other {
                ErrorKind::IndexOutOfBounds(yv, yi) => xv.eq_value(yv) && *xi == *yi,
                _ => false,
            },
            ErrorKind::IOError(_) => match other {
                ErrorKind::IOError(_) => true,
                _ => false,
            },
            ErrorKind::UnexpectedType(xe, xv) => match other {
                ErrorKind::UnexpectedType(ye, yv) => xe.eq(ye) && xv.eq_value(yv),
                _ => false,
            },
            ErrorKind::InvalidBinaryExpression(xl, xr, xo) => match other {
                ErrorKind::InvalidBinaryExpression(yl, yr, yo) => xl.eq_value(yl) && xr.eq_value(
                    yr,
                ) && *xo == *yo,
                _ => false,
            },
            ErrorKind::InvalidArguments(xn, xe, xa) => match other {
                ErrorKind::InvalidArguments(yn, ye, ya) => xn.eq(yn) && *xe == *ye && *xa == *ya,
                _ => false,
            },
        }
    }
}

impl vstd::std_specs::cmp::PartialEqSpecImpl for ErrorKind {
    open spec fn obeys_eq_spec() -> bool {
        true
    }

    open spec fn eq_spec(&self, other: &ErrorKind) -> bool {
        kind_eq_m(self.deep(), other.deep())
    }
}

/// The message for each failure kind: a fixed template naming the
/// offending value, name or counts.
pub open spec fn panic_message_m(k: ErrorKindM) -> Seq<char> {
    match k {
        ErrorKindM::UnknownVariable(name) => "There's no "@ + name
            + " in this universe, Morty!"@,
        ErrorKindM::IndexUnindexable(v) => "I'll try and say this slowly Morty. You can't index that. It's a "@
            + type_str_m(v),
        ErrorKindM::SyntaxError(d) => "If you're going to start trying to construct sub-programs in your programs Morty, you'd better make sure you're careful! "@
            + d,
        ErrorKindM::IndexOutOfBounds(v, i) => "This isn't your mom's wine bottle Morty, you can't just keep asking for more, there's not that much here! You want "@
            + int_str(i) + ", but you're dealing with "@ + render_m(v) + "!"@,
        ErrorKindM::IOError(d) => "Looks like we're having a comm-burp-unications problem Morty: "@
            + d,
        ErrorKindM::UnexpectedType(e, v) => "I asked for a "@ + e + ", not a "@ + type_str_m(v)
            + " Morty."@,
        ErrorKindM::InvalidBinaryExpression(l, r, op) => "It's like apples and space worms Morty! You can't "@
            + op_str_m(op) + " a "@ + type_str_m(l) + " and a "@ + type_str_m(r) + "!"@,
        ErrorKindM::InvalidArguments(n, e, a) => "I'm confused Morty, a minute ago you said that "@
            + n + " takes "@ + int_str(e) + " paramaters, but you just tried to give it "@
            + int_str(a) + ". WHICH IS IT MORTY?"@,
    }
}

impl Error {
    /// A failure of kind `kind` at statement `place`.
    pub fn new(kind: ErrorKind, place: Statement) -> (r: Self)
        ensures
            r.kind == kind,
            r.place == place,
    {
        Error { kind, place }
    }

    /// The kind-specific part of the diagnostic report.
    pub fn panic_message(&self) -> (r: String)
        ensures
            r@ == panic_message_m(self.kind.deep()),
    {
        match &self.kind {
            ErrorKind::UnknownVariable(name) => {
                proof {
                    reveal_strlit("There's no ");
                    reveal_strlit(" in this universe, Morty!");
                }
                let mut s = String::from_str("There's no ");
                s.append(name.as_str());
                s.append(" in this universe, Morty!");
                assert(s@ =~= panic_message_m(self.kind.deep()));
                s
            },
            ErrorKind::IndexUnindexable(v) => {
                proof {
                    reveal_strlit("I'll try and say this slowly Morty. You can't index that. It's a ");
                }
                let mut s = String::from_str(
                    "I'll try and say this slowly Morty. You can't index that. It's a ",
                );
                s.append(v.type_str());
                assert(s@ =~= panic_message_m(self.kind.deep()));
                s
            },
            ErrorKind::SyntaxError(d) => {
                proof {
                    reveal_strlit(
                        "If you're going to start trying to construct sub-programs in your programs Morty, you'd better make sure you're careful! ",
                    );
                }
                let mut s = String::from_str(
                    "If you're going to start trying to construct sub-programs in your programs Morty, you'd better make sure you're careful! ",
                );
                s.append(d.as_str());
                assert(s@ =~= panic_message_m(self.kind.deep()));
                s
            },
            ErrorKind::IndexOutOfBounds(v, i) => {
                proof {
                    reveal_strlit(
                        "This isn't your mom's wine bottle Morty, you can't just keep asking for more, there's not that much here! You want ",
                    );
                    reveal_strlit(", but you're dealing with ");
                    reveal_strlit("!");
                }
                let mut s = String::from_str(
                    "This isn't your mom's wine bottle Morty, you can't just keep asking for more, there's not that much here! You want ",
                );
                let n = u64_string(*i as u64);
                s.append(n.as_str());
                s.append(", but you're dealing with ");
                let rv = v.render();
                s.append(rv.as_str());
                s.append("!");
                assert(s@ =~= panic_message_m(self.kind.deep()));
                s
            },
            ErrorKind::IOError(d) => {
                proof {
                    reveal_strlit("Looks like we're having a comm-burp-unications problem Morty: ");
                }
                let mut s = String::from_str(
                    "Looks like we're having a comm-burp-unications problem Morty: ",
                );
                s.append(d.as_str());
                assert(s@ =~= panic_message_m(self.kind.deep()));
                s
            },
            ErrorKind::UnexpectedType(e, v) => {
                proof {
                    reveal_strlit("I asked for a ");
                    reveal_strlit(", not a ");
                    reveal_strlit(" Morty.");
                }
                let mut s = String::from_str("I asked for a ");
                s.append(e.as_str());
                s.append(", not a ");
                s.append(v.type_str());
                s.append(" Morty.");
                assert(s@ =~= panic_message_m(self.kind.deep()));
                s
            },
            ErrorKind::InvalidBinaryExpression(l, r, op) => {
                proof {
                    reveal_strlit("It's like apples and space worms Morty! You can't ");
                    reveal_strlit(" a ");
                    reveal_strlit(" and a ");
                    reveal_strlit("!");
                }
                let mut s = String::from_str(
                    "It's like apples and space worms Morty! You can't ",
                );
                s.append(op_string(op));
                s.append(" a ");
                s.append(l.type_str());
                s.append(" and a ");
                s.append(r.type_str());
                s.append("!");
                assert(s@ =~= panic_message_m(self.kind.deep()));
                s
            },
            ErrorKind::InvalidArguments(n, e, a) => {
                proof {
                    reveal_strlit("I'm confused Morty, a minute ago you said that ");
                    reveal_strlit(" takes ");
                    reveal_strlit(" paramaters, but you just tried to give it ");
                    reveal_strlit(". WHICH IS IT MORTY?");
                }
                let mut s = String::from_str("I'm confused Morty, a minute ago you said that ");
                s.append(n.as_str());
                s.append(" takes ");
                let es = u64_string(*e as u64);
                s.append(es.as_str());
                s.append(" paramaters, but you just tried to give it ");
                let asx = u64_string(*a as u64);
                s.append(asx.as_str());
                s.append(". WHICH IS IT MORTY?");
                assert(s@ =~= panic_message_m(self.kind.deep()));
                s
            },
        }
    }

    /// The full report: the offending source text, the kind-specific
    /// message, and one of the fixed pool of flavor lines, chosen at
    /// random.
    pub fn full_panic_message(&self, source: &str) -> (r: String)
        requires
            self.place.span_start() < self.place.span_end(),
            self.place.span_end() <= source@.len(),
        ensures
            exists|i: int|
                0 <= i < 9 && r@ == full_message_m(
                    self.kind.deep(),
                    source@.subrange(self.place.span_start(), self.place.span_end()),
                    i,
                ),
    {
        let type_msg = self.panic_message();
        let quote = random_quote();
        let source_part = self.place.get_source(source);
        proof {
            reveal_strlit("\n    You made a Rickdiculous mistake:\n\n    ");
            reveal_strlit("\n    ");
            reveal_strlit("\n\n    ");
        }
        let mut s = String::from_str("\n    You made a Rickdiculous mistake:\n\n    ");
        s.append(source_part.as_str());
        s.append("\n    ");
        s.append(type_msg.as_str());
        s.append("\n\n    ");
        s.append(quote);
        s.append("\n\n    ");
        proof {
            let qi = choose|i: int| 0 <= i < 9 && quote@ == quote_m(i);
            assert(s@ =~= full_message_m(
                self.kind.deep(),
                source@.subrange(self.place.span_start(), self.place.span_end()),
                qi,
            ));
        }
        s
    }
}

/// The composition of the full report from its three parts.
pub open spec fn full_message_m(k: ErrorKindM, source_part: Seq<char>, quote_index: int) -> Seq<
    char,
> {
    "\n    You made a Rickdiculous mistake:\n\n    "@ + source_part + "\n    "@
        + panic_message_m(k) + "\n\n    "@ + quote_m(quote_index) + "\n\n    "@
}

/// The fixed pool of flavor lines quoted at the bottom of a report.
pub open spec fn quote_m(i: int) -> Seq<char> {
    if i == 0 {
        "Nobody exists on purpose, nobody belongs anywhere, we're all going to die. -Morty"@
    } else if i == 1 {
        "That's planning for failure Morty, even dumber than regular planning. -Rick"@
    } else if i == 2 {
        "\"Snuffles\" was my slave name. You shall now call me Snowball, because my fur is pretty and white. -Snowbal"@
    } else if i == 3 {
        "Existence is pain to an interpreter. -Meeseeks"@
    } else if i == 4 {
        "In bird culture this is considered a dick move -Bird Person"@
    } else if i == 5 {
        "There is no god, gotta rip that band aid off now. You'll thank me later. -Rick"@
    } else if i == 6 {
        "Your program is a piece of shit and I can proove it mathmatically. -Rick"@
    } else if i == 7 {
        "Interpreting Morty, it hits hard, then it slowly fades, leaving you stranded in a failing program. -Rick"@
    } else {
        "DISQUALIFIED. -Cromulon"@
    }
}

/// The flavor line at a given position in the pool.
pub fn quote(i: usize) -> (r: &'static str)
    requires
        i < 9,
    ensures
        r@ == quote_m(i as int),
{
    if i == 0 {
        "Nobody exists on purpose, nobody belongs anywhere, we're all going to die. -Morty"
    } else if i == 1 {
        "That's planning for failure Morty, even dumber than regular planning. -Rick"
    } else if i == 2 {
        "\"Snuffles\" was my slave name. You shall now call me Snowball, because my fur is pretty and white. -Snowbal"
    } else if i == 3 {
        "Existence is pain to an interpreter. -Meeseeks"
    } else if i == 4 {
        "In bird culture this is considered a dick move -Bird Person"
    } else if i == 5 {
        "There is no god, gotta rip that band aid off now. You'll thank me later. -Rick"
    } else if i == 6 {
        "Your program is a piece of shit and I can proove it mathmatically. -Rick"
    } else if i == 7 {
        "Interpreting Morty, it hits hard, then it slowly fades, leaving you stranded in a failing program. -Rick"
    } else {
        "DISQUALIFIED. -Cromulon"
    }
}

/// Relies on `rand::random_range`: a uniform draw from `0..n`, always
/// inside the range; the range is non-empty, so the call cannot
/// panic.
#[verifier::external_body]
fn random_below(n: usize) -> (r: usize)
    requires
        n > 0,
    ensures
        r < n,
{
    rand::random_range(0..n)
}

/// One flavor line drawn at random from the pool.
pub fn random_quote() -> (r: &'static str)
    ensures
        exists|i: int| 0 <= i < 9 && r@ == quote_m(i),
{
    let i = random_below(9);
    let q = quote(i);
    proof {
        assert(0 <= (i as int) && (i as int) < 9 && q@ == quote_m(i as int));
    }
    q
}

} // verus!
