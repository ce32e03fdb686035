//! Runtime values of the language: integers, booleans, strings and
//! ordered list containers, together with their mathematical model.

use vstd::prelude::*;
use vstd::string::{StrSliceExecFns, StringExecFns};

use crate::text::{i64_string, int_str};

verus! {

/// A runtime value. Lists nest arbitrarily.
pub enum Value {
    Int(i64),
    Bool(bool),
    Str(String),
    List(Vec<Value>),
}

/// The mathematical model of a runtime value.
pub enum ValueM {
    Int(int),
    Bool(bool),
    Str(Seq<char>),
    List(Seq<ValueM>),
}

/// The models of a sequence of values, element by element.
pub open spec fn deep_list(s: Seq<Value>) -> Seq<ValueM>
    decreases s,
{
    if s.len() == 0 {
        Seq::empty()
    } else {
        deep_list(s.drop_last()).push(s.last().deep())
    }
}

/// `deep_list` maps the model over the elements.
pub broadcast proof fn lemma_deep_list(s: Seq<Value>)
    ensures
        (#[trigger] deep_list(s)).len() == s.len(),
        forall|i: int| 0 <= i < s.len() ==> deep_list(s)[i] == s[i].deep(),
    decreases s.len(),
{
    if s.len() > 0 {
        lemma_deep_list(s.drop_last());
    }
}

impl Value {
    /// The model of this value.
    pub open spec fn deep(self) -> ValueM
        decreases self,
    {
        match self {
            Value::Int(i) => ValueM::Int(i as int),
            Value::Bool(b) => ValueM::Bool(b),
            Value::Str(s) => ValueM::Str(s@),
            Value::List(l) => ValueM::List(deep_list(l@)),
        }
    }

    /// Boolean coercion: zero, the empty string and the empty list are
    /// falsy; everything else is truthy.
    pub fn truthy(&self) -> (r: bool)
        ensures
            r == truthy_m(self.deep()),
    {
        match self {
            Value::Int(i) => *i != 0,
            Value::Bool(b) => *b,
            Value::Str(s) => s.as_str().unicode_len() != 0,
            Value::List(l) => l.len() != 0,
        }
    }

    /// The name of this value's type, as the diagnostics print it.
    pub fn type_str(&self) -> (r: &'static str)
        ensures
            r@ == type_str_m(self.deep()),
    {
        proof {
            reveal_strlit("int");
            reveal_strlit("bool");
            reveal_strlit("string");
            reveal_strlit("list");
        }
        match self {
            Value::Int(_) => "int",
            Value::Bool(_) => "bool",
            Value::Str(_) => "string",
            Value::List(_) => "list",
        }
    }

    /// A copy of this value with the same model.
    #[verifier::loop_isolation(false)]
    pub fn dup(&self) -> (r: Value)
        ensures
            r.deep() == self.deep(),
        decreases self,
    {
        broadcast use lemma_deep_list;

        match self {
            Value::Int(i) => Value::Int(*i),
            Value::Bool(b) => Value::Bool(*b),
            Value::Str(s) => Value::Str(s.clone()),
            Value::List(l) => {
                let mut out: Vec<Value> = Vec::new();
                let mut i: usize = 0;
                while i < l.len()
                    invariant
                        i <= l.len(),
                        out@.len() == i as int,
                        forall|j: int| 0 <= j < i as int ==> out@[j].deep() == l@[j].deep(),
                    decreases l@.len() - i,
                {
                    proof {
                        broadcast use vstd::std_specs::vec::axiom_vec_index_decreases;

                        assert(decreases_to!(*self => *l));
                        assert(decreases_to!(*l => l[i as int]));
                    }
                    let e = l[i].dup();
                    out.push(e);
                    i = i + 1;
                }
                let r = Value::List(out);
                assert(deep_list(out@) =~= deep_list(l@));
                r
            },
        }
    }

    /// Structural equality on the models.
    #[verifier::loop_isolation(false)]
    pub fn eq_value(&self, other: &Value) -> (r: bool)
        ensures
            r == (self.deep() == other.deep()),
        decreases self,
    {
        broadcast use lemma_deep_list;

        match self {
            Value::Int(a) => match other {
                Value::Int(b) => *a == *b,
                _ => false,
            },
            Value::Bool(a) => match other {
                Value::Bool(b) => *a == *b,
                _ => false,
            },
            Value::Str(a) => match other {
                Value::Str(b) => a.eq(b),
                _ => false,
            },
            Value::List(a) => match other {
                Value::List(b) => {
                    if a.len() != b.len() {
                        proof {
                            assert(deep_list(a@).len() != deep_list(b@).len());
                        }
                        false
                    } else {
                        let mut i: usize = 0;
                        let mut same = true;
                        while i < a.len()
                            invariant
                                i <= a.len(),
                                a@.len() == b@.len(),
                                deep_list(a@).len() == a@.len(),
                                deep_list(b@).len() == b@.len(),
                                forall|j: int| 0 <= j < a@.len() ==> deep_list(a@)[j] == a@[j].deep(),
                                forall|j: int| 0 <= j < b@.len() ==> deep_list(b@)[j] == b@[j].deep(),
                                same == (forall|j: int|
                                    0 <= j < i as int ==> deep_list(a@)[j] == deep_list(b@)[j]),
                            decreases a@.len() - i,
                        {
                            proof {
                                broadcast use vstd::std_specs::vec::axiom_vec_index_decreases;

                                assert(decreases_to!(*self => *a));
                                assert(decreases_to!(*a => a[i as int]));
                            }
                            let e = a[i].eq_value(&b[i]);
                            proof {
                                assert(deep_list(a@)[i as int] == a@[i as int].deep());
                                assert(deep_list(b@)[i as int] == b@[i as int].deep());
                            }
                            same = same && e;
                            i = i + 1;
                        }
                        proof {
                            if same {
                                assert(deep_list(a@) =~= deep_list(b@));
                            } else {
                                let j = choose|j: int|
                                    0 <= j < i as int && deep_list(a@)[j] != deep_list(b@)[j];
                                assert(deep_list(a@)[j] != deep_list(b@)[j]);
                                assert(deep_list(a@) != deep_list(b@));
                            }
                        }
                        same
                    }
                },
                _ => false,
            },
        }
    }
}

impl Value {
    /// The textual form of this value, as `Print` emits it.
    pub fn render(&self) -> (s: String)
        ensures
            s@ == render_m(self.deep()),
        decreases self, 0int,
    {
        match self {
            Value::Int(i) => i64_string(*i),
            Value::Bool(b) => {
                proof {
                    reveal_strlit("true");
                    reveal_strlit("false");
                }
                if *b {
                    String::from_str("true")
                } else {
                    String::from_str("false")
                }
            },
            Value::Str(s) => s.clone(),
            Value::List(l) => {
                broadcast use lemma_deep_list;

                let mut out = String::from_str("[");
                let items = render_items(l, 0);
                out.append(items.as_str());
                out.append("]");
                proof {
                    assert(deep_list(l@).skip(0) =~= deep_list(l@));
                    assert(out@ =~= render_m(self.deep()));
                }
                out
            },
        }
    }
}

/// Renders the elements of `l` from position `from` on, separated by
/// commas.
fn render_items(l: &Vec<Value>, from: usize) -> (s: String)
    requires
        from <= l.len(),
    ensures
        s@ == render_items_m(deep_list(l@).skip(from as int)),
    decreases l, l@.len() - from,
{
    broadcast use lemma_deep_list;

    let ghost sk = deep_list(l@).skip(from as int);
    if from == l.len() {
        let s = String::new();
        assert(s@ =~= render_items_m(sk));
        s
    } else {
        proof {
            broadcast use vstd::std_specs::vec::axiom_vec_index_decreases;

            assert(decreases_to!(*l => l[from as int]));
        }
        let head = l[from].render();
        if from + 1 == l.len() {
            assert(head@ =~= render_items_m(sk));
            head
        } else {
            let mut s = head;
            proof {
                reveal_strlit(", ");
            }
            s.append(", ");
            let rest = render_items(l, from + 1);
            s.append(rest.as_str());
            proof {
                assert(sk.drop_first() =~= deep_list(l@).skip(from as int + 1));
                assert(s@ =~= render_items_m(sk));
            }
            s
        }
    }
}

/// Boolean coercion on the model.
pub open spec fn truthy_m(v: ValueM) -> bool {
    match v {
        ValueM::Int(i) => i != 0,
        ValueM::Bool(b) => b,
        ValueM::Str(s) => s.len() != 0,
        ValueM::List(l) => l.len() != 0,
    }
}

/// The type name on the model.
pub open spec fn type_str_m(v: ValueM) -> Seq<char> {
    match v {
        ValueM::Int(_) => "int"@,
        ValueM::Bool(_) => "bool"@,
        ValueM::Str(_) => "string"@,
        ValueM::List(_) => "list"@,
    }
}

/// The textual rendering of a value, as `Print` emits it.
pub open spec fn render_m(v: ValueM) -> Seq<char>
    decreases v,
{
    match v {
        ValueM::Int(i) => int_str(i),
        ValueM::Bool(b) => if b {
            "true"@
        } else {
            "false"@
        },
        ValueM::Str(s) => s,
        ValueM::List(l) => "["@ + render_items_m(l) + "]"@,
    }
}

/// The comma-separated renderings of the elements of a list.
pub open spec fn render_items_m(l: Seq<ValueM>) -> Seq<char>
    decreases l,
{
    if l.len() == 0 {
        Seq::empty()
    } else if l.len() == 1 {
        render_m(l[0])
    } else {
        render_m(l[0]) + ", "@ + render_items_m(l.drop_first())
    }
}

} // verus!
