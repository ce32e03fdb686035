//! The environment: variable frames, list containers, the function
//! table, pending input lines and accumulated output, with a
//! map-based mathematical model.

use vstd::prelude::*;
use vstd::string::StringExecFns;

use std::rc::Rc;

use crate::error::{ErrorKind, ErrorKindM};
use crate::statement::{dup_strings, rc_statements_dup, Statement};
use crate::value::{deep_list, lemma_deep_list, Value, ValueM};

verus! {

/// A callable entry of the function table: a user-defined body, or a
/// binding to a symbol of a loaded native library.
pub enum FuncDef {
    /// Parameter names and body.
    User(Vec<String>, Rc<Vec<Statement>>),
    /// Parameter names, library path and symbol name.
    Native(Vec<String>, String, String),
}

/// The model of a callable entry.
pub enum FuncM {
    User(Seq<Seq<char>>, Seq<Statement>),
    Native(Seq<Seq<char>>, Seq<char>, Seq<char>),
}

impl FuncDef {
    /// The model of this entry.
    pub open spec fn deep(self) -> FuncM {
        match self {
            FuncDef::User(p, b) => FuncM::User(p.deep_view(), b@),
            FuncDef::Native(p, l, s) => FuncM::Native(p.deep_view(), l@, s@),
        }
    }

    /// A copy of this entry with the same model; the body of a
    /// user-defined entry is shared, not copied.
    pub fn dup(&self) -> (r: FuncDef)
        ensures
            r.deep() == self.deep(),
    {
        match self {
            FuncDef::User(p, b) => FuncDef::User(dup_strings(p), rc_statements_dup(b)),
            FuncDef::Native(p, l, s) => FuncDef::Native(dup_strings(p), l.clone(), s.clone()),
        }
    }
}

/// The runtime state of an execution: a stack of variable frames
/// (only the innermost is visible), the function table, the pending
/// input lines, and everything printed so far.
pub struct Environment {
    frames: Vec<Vec<(String, Value)>>,
    funcs: Vec<(String, FuncDef)>,
    inputs: Vec<String>,
    output: String,
}

/// The model of the runtime state.
pub struct EnvM {
    pub frames: Seq<Map<Seq<char>, ValueM>>,
    pub funcs: Map<Seq<char>, FuncM>,
    pub inputs: Seq<Seq<char>>,
    pub output: Seq<char>,
}

impl EnvM {
    /// There is always at least one frame.
    pub open spec fn wf(self) -> bool {
        self.frames.len() >= 1
    }

    /// The bindings of the innermost frame.
    pub open spec fn cur(self) -> Map<Seq<char>, ValueM> {
        self.frames.last()
    }

    /// The state with the innermost frame replaced.
    pub open spec fn with_cur(self, m: Map<Seq<char>, ValueM>) -> EnvM {
        EnvM { frames: self.frames.update(self.frames.len() - 1, m), ..self }
    }

    /// The state after binding `name` to `v`.
    pub open spec fn set_var(self, name: Seq<char>, v: ValueM) -> EnvM {
        self.with_cur(self.cur().insert(name, v))
    }

    /// The state after removing `name`.
    pub open spec fn remove_var(self, name: Seq<char>) -> EnvM {
        self.with_cur(self.cur().remove(name))
    }

    /// The state after emitting `s`.
    pub open spec fn emit(self, s: Seq<char>) -> EnvM {
        EnvM { output: self.output + s, ..self }
    }

    /// The state after defining a callable entry.
    pub open spec fn def_fn(self, name: Seq<char>, f: FuncM) -> EnvM {
        EnvM { funcs: self.funcs.insert(name, f), ..self }
    }

    /// The state after entering a fresh call frame.
    pub open spec fn push_frame(self, m: Map<Seq<char>, ValueM>) -> EnvM {
        EnvM { frames: self.frames.push(m), ..self }
    }

    /// The state after leaving the innermost call frame.
    pub open spec fn pop_frame(self) -> EnvM {
        EnvM { frames: self.frames.drop_last(), ..self }
    }

    /// The state after consuming one input line.
    pub open spec fn take_input(self) -> EnvM {
        EnvM { inputs: self.inputs.drop_first(), ..self }
    }
}

/// The map that an association list denotes; a later entry for the
/// same name wins.
pub open spec fn assoc_val(s: Seq<(String, Value)>) -> Map<Seq<char>, ValueM>
    decreases s.len(),
{
    if s.len() == 0 {
        Map::empty()
    } else {
        assoc_val(s.drop_last()).insert(s.last().0@, s.last().1.deep())
    }
}

/// The map that the function table denotes; a later entry wins.
pub open spec fn assoc_fun(s: Seq<(String, FuncDef)>) -> Map<Seq<char>, FuncM>
    decreases s.len(),
{
    if s.len() == 0 {
        Map::empty()
    } else {
        assoc_fun(s.drop_last()).insert(s.last().0@, s.last().1.deep())
    }
}

/// The outcome of appending to the container bound to `name`: the
/// new state, or the failure an unbound name or a non-container
/// value produces.
pub open spec fn list_append_m(st: EnvM, name: Seq<char>, v: ValueM) -> Result<EnvM, ErrorKindM> {
    if !st.cur().contains_key(name) {
        Err(ErrorKindM::UnknownVariable(name))
    } else {
        match st.cur()[name] {
            ValueM::List(items) => Ok(st.set_var(name, ValueM::List(items.push(v)))),
            other => Err(ErrorKindM::IndexUnindexable(other)),
        }
    }
}

/// The outcome of overwriting one element of the container bound to
/// `name`.
pub open spec fn list_assign_m(st: EnvM, name: Seq<char>, i: int, v: ValueM) -> Result<
    EnvM,
    ErrorKindM,
> {
    if !st.cur().contains_key(name) {
        Err(ErrorKindM::UnknownVariable(name))
    } else {
        match st.cur()[name] {
            ValueM::List(items) => if 0 <= i < items.len() {
                Ok(st.set_var(name, ValueM::List(items.update(i, v))))
            } else {
                Err(ErrorKindM::IndexOutOfBounds(ValueM::List(items), i))
            },
            other => Err(ErrorKindM::IndexUnindexable(other)),
        }
    }
}

/// The outcome of removing one element of the container bound to
/// `name`: exactly the element at `i` goes, and later elements shift
/// down by one.
pub open spec fn list_delete_m(st: EnvM, name: Seq<char>, i: int) -> Result<EnvM, ErrorKindM> {
    if !st.cur().contains_key(name) {
        Err(ErrorKindM::UnknownVariable(name))
    } else {
        match st.cur()[name] {
            ValueM::List(items) => if 0 <= i < items.len() {
                Ok(st.set_var(name, ValueM::List(items.remove(i))))
            } else {
                Err(ErrorKindM::IndexOutOfBounds(ValueM::List(items), i))
            },
            other => Err(ErrorKindM::IndexUnindexable(other)),
        }
    }
}

/// The models of a stack of frames.
pub open spec fn frames_m(fs: Seq<Vec<(String, Value)>>) -> Seq<Map<Seq<char>, ValueM>> {
    Seq::new(fs.len(), |i: int| assoc_val(fs[i]@))
}

impl View for Environment {
    type V = EnvM;

    closed spec fn view(&self) -> EnvM {
        EnvM {
            frames: frames_m(self.frames@),
            funcs: assoc_fun(self.funcs@),
            inputs: self.inputs.deep_view(),
            output: self.output@,
        }
    }
}

/// Two association lists with the same names and the same value
/// models denote the same map.
proof fn lemma_assoc_val_congruent(a: Seq<(String, Value)>, b: Seq<(String, Value)>)
    requires
        a.len() == b.len(),
        forall|i: int| 0 <= i < a.len() ==> a[i].0@ == b[i].0@ && a[i].1.deep() == b[i].1.deep(),
    ensures
        assoc_val(a) == assoc_val(b),
    decreases a.len(),
{
    if a.len() > 0 {
        assert(forall|i: int|
            0 <= i < a.drop_last().len() ==> a.drop_last()[i].0@ == b.drop_last()[i].0@
                && a.drop_last()[i].1.deep() == b.drop_last()[i].1.deep());
        lemma_assoc_val_congruent(a.drop_last(), b.drop_last());
        assert(assoc_val(a) =~= assoc_val(b));
    }
}

/// Two function tables with the same names and the same entry models
/// denote the same map.
proof fn lemma_assoc_fun_congruent(a: Seq<(String, FuncDef)>, b: Seq<(String, FuncDef)>)
    requires
        a.len() == b.len(),
        forall|i: int| 0 <= i < a.len() ==> a[i].0@ == b[i].0@ && a[i].1.deep() == b[i].1.deep(),
    ensures
        assoc_fun(a) == assoc_fun(b),
    decreases a.len(),
{
    if a.len() > 0 {
        assert(forall|i: int|
            0 <= i < a.drop_last().len() ==> a.drop_last()[i].0@ == b.drop_last()[i].0@
                && a.drop_last()[i].1.deep() == b.drop_last()[i].1.deep());
        lemma_assoc_fun_congruent(a.drop_last(), b.drop_last());
        assert(assoc_fun(a) =~= assoc_fun(b));
    }
}

/// The last entry for `k` decides what the association list maps `k`
/// to.
proof fn lemma_assoc_val_found(s: Seq<(String, Value)>, k: Seq<char>, j: int)
    requires
        0 <= j < s.len(),
        s[j].0@ == k,
        forall|l: int| j < l < s.len() ==> s[l].0@ != k,
    ensures
        assoc_val(s).contains_key(k),
        assoc_val(s)[k] == s[j].1.deep(),
    decreases s.len(),
{
    if j == s.len() - 1 {
    } else {
        assert(s.drop_last()[j] == s[j]);
        lemma_assoc_val_found(s.drop_last(), k, j);
    }
}

/// An association list without an entry for `k` does not map `k`.
proof fn lemma_assoc_val_none(s: Seq<(String, Value)>, k: Seq<char>)
    requires
        forall|l: int| 0 <= l < s.len() ==> s[l].0@ != k,
    ensures
        !assoc_val(s).contains_key(k),
    decreases s.len(),
{
    if s.len() > 0 {
        lemma_assoc_val_none(s.drop_last(), k);
    }
}

/// The last entry for `k` decides what the function table maps `k`
/// to.
proof fn lemma_assoc_fun_found(s: Seq<(String, FuncDef)>, k: Seq<char>, j: int)
    requires
        0 <= j < s.len(),
        s[j].0@ == k,
        forall|l: int| j < l < s.len() ==> s[l].0@ != k,
    ensures
        assoc_fun(s).contains_key(k),
        assoc_fun(s)[k] == s[j].1.deep(),
    decreases s.len(),
{
    if j == s.len() - 1 {
    } else {
        assert(s.drop_last()[j] == s[j]);
        lemma_assoc_fun_found(s.drop_last(), k, j);
    }
}

/// A function table without an entry for `k` does not map `k`.
proof fn lemma_assoc_fun_none(s: Seq<(String, FuncDef)>, k: Seq<char>)
    requires
        forall|l: int| 0 <= l < s.len() ==> s[l].0@ != k,
    ensures
        !assoc_fun(s).contains_key(k),
    decreases s.len(),
{
    if s.len() > 0 {
        lemma_assoc_fun_none(s.drop_last(), k);
    }
}

/// Looks a name up in one frame; the value handed out is a copy.
fn frame_get(frame: &Vec<(String, Value)>, name: &String) -> (r: Option<Value>)
    ensures
        match r {
            Some(v) => assoc_val(frame@).contains_key(name@) && v.deep() == assoc_val(frame@)[name@],
            None => !assoc_val(frame@).contains_key(name@),
        },
{
    let mut i: usize = frame.len();
    while i > 0
        invariant
            i <= frame.len(),
            forall|l: int| i as int <= l < frame@.len() ==> frame@[l].0@ != name@,
        decreases i,
    {
        i = i - 1;
        let p = &frame[i];
        if p.0.eq(name) {
            proof {
                lemma_assoc_val_found(frame@, name@, i as int);
            }
            return Some(p.1.dup());
        }
    }
    proof {
        lemma_assoc_val_none(frame@, name@);
    }
    None
}

/// Binds `name` to `v` in one frame.
fn frame_set(frame: &mut Vec<(String, Value)>, name: String, v: Value)
    ensures
        assoc_val(final(frame)@) == assoc_val(old(frame)@).insert(name@, v.deep()),
{
    let ghost prev = frame@;
    frame.push((name, v));
    proof {
        assert(frame@.drop_last() =~= prev);
    }
}

/// Removes every entry for `name` from one frame.
fn frame_remove(frame: &mut Vec<(String, Value)>, name: &String)
    ensures
        assoc_val(final(frame)@) == assoc_val(old(frame)@).remove(name@),
{
    let ghost prev = frame@;
    let mut out: Vec<(String, Value)> = Vec::new();
    let mut i: usize = 0;
    while i < frame.len()
        invariant
            i <= frame.len(),
            frame@ == prev,
            assoc_val(out@) == assoc_val(prev.take(i as int)).remove(name@),
        decreases frame@.len() - i,
    {
        let ghost out_prev = out@;
        let p = &frame[i];
        if !p.0.eq(name) {
            let entry = (p.0.clone(), p.1.dup());
            out.push(entry);
            proof {
                assert(out@.drop_last() =~= out_prev);
            }
        }
        proof {
            assert(prev.take(i as int + 1).drop_last() =~= prev.take(i as int));
            assert(prev.take(i as int + 1).last() == prev[i as int]);
            if p.0@ == name@ {
                assert(assoc_val(prev.take(i as int + 1)).remove(name@) =~= assoc_val(
                    prev.take(i as int),
                ).remove(name@));
            } else {
                assert(assoc_val(prev.take(i as int + 1)).remove(name@) =~= assoc_val(
                    out@,
                ));
            }
        }
        i = i + 1;
    }
    proof {
        assert(prev.take(frame@.len() as int) =~= prev);
    }
    *frame = out;
}

impl Environment {
    /// A fresh state: one empty frame, no callables, the given input
    /// lines, nothing emitted yet.
    pub fn new(inputs: Vec<String>) -> (r: Environment)
        ensures
            r@.wf(),
            r@.frames =~= seq![Map::<Seq<char>, ValueM>::empty()],
            r@.funcs =~= Map::<Seq<char>, FuncM>::empty(),
            r@.inputs == inputs.deep_view(),
            r@.output =~= Seq::<char>::empty(),
    {
        let mut frames: Vec<Vec<(String, Value)>> = Vec::new();
        frames.push(Vec::new());
        let r = Environment { frames, funcs: Vec::new(), inputs, output: String::new() };
        r
    }

    /// Everything the program has printed so far.
    pub fn output_text(&self) -> (r: &String)
        ensures
            r@ == self@.output,
    {
        &self.output
    }

    /// The value bound to `name` in the innermost frame, copied out.
    pub fn get_var(&self, name: &String) -> (r: Option<Value>)
        requires
            self@.wf(),
        ensures
            match r {
                Some(v) => self@.cur().contains_key(name@) && v.deep() == self@.cur()[name@],
                None => !self@.cur().contains_key(name@),
            },
    {
        let last = self.frames.len() - 1;
        frame_get(&self.frames[last], name)
    }

    /// Binds `name` to `v` in the innermost frame.
    pub fn set_var(&mut self, name: String, v: Value)
        requires
            old(self)@.wf(),
        ensures
            final(self)@.wf(),
            final(self)@ == old(self)@.set_var(name@, v.deep()),
    {
        let ghost target = old(self)@.set_var(name@, v.deep());
        let mut f = self.frames.pop().unwrap();
        frame_set(&mut f, name, v);
        self.frames.push(f);
        proof {
            assert(self@.frames =~= target.frames);
            assert(self@ == target);
        }
    }

    /// Removes `name` from the innermost frame; unbound names are
    /// reported, not ignored.
    pub fn delete_var(&mut self, name: &String) -> (r: Result<(), ErrorKind>)
        requires
            old(self)@.wf(),
        ensures
            final(self)@.wf(),
            match r {
                Ok(()) => old(self)@.cur().contains_key(name@) && final(self)@ == old(
                    self,
                )@.remove_var(name@),
                Err(k) => !old(self)@.cur().contains_key(name@) && final(self)@ == old(self)@
                    && k.deep() == ErrorKindM::UnknownVariable(name@),
            },
    {
        let last = self.frames.len() - 1;
        let present = frame_get(&self.frames[last], name).is_some();
        if !present {
            return Err(ErrorKind::UnknownVariable(name.clone()));
        }
        let ghost target = old(self)@.remove_var(name@);
        let mut f = self.frames.pop().unwrap();
        frame_remove(&mut f, name);
        self.frames.push(f);
        proof {
            assert(self@.frames =~= target.frames);
            assert(self@ == target);
        }
        Ok(())
    }

    /// Emits text to the program's output.
    pub fn emit(&mut self, s: &str)
        requires
            old(self)@.wf(),
        ensures
            final(self)@.wf(),
            final(self)@ == old(self)@.emit(s@),
    {
        self.output.append(s);
        proof {
            assert(self@.frames =~= old(self)@.emit(s@).frames);
            assert(self@ == old(self)@.emit(s@));
        }
    }

    /// Defines or overwrites a callable entry.
    pub fn def_fn(&mut self, name: String, f: FuncDef)
        requires
            old(self)@.wf(),
        ensures
            final(self)@.wf(),
            final(self)@ == old(self)@.def_fn(name@, f.deep()),
    {
        let ghost prev = self.funcs@;
        self.funcs.push((name, f));
        proof {
            assert(self.funcs@.drop_last() =~= prev);
            assert(self@.frames =~= old(self)@.def_fn(name@, f.deep()).frames);
            assert(self@ == old(self)@.def_fn(name@, f.deep()));
        }
    }

    /// The callable entry under `name`, copied out; a user-defined
    /// body is shared, not copied.
    pub fn get_fn(&self, name: &String) -> (r: Option<FuncDef>)
        ensures
            match r {
                Some(f) => self@.funcs.contains_key(name@) && f.deep() == self@.funcs[name@],
                None => !self@.funcs.contains_key(name@),
            },
    {
        let mut i: usize = self.funcs.len();
        while i > 0
            invariant
                i <= self.funcs.len(),
                forall|l: int| i as int <= l < self.funcs@.len() ==> self.funcs@[l].0@ != name@,
            decreases i,
        {
            i = i - 1;
            let p = &self.funcs[i];
            if p.0.eq(name) {
                proof {
                    lemma_assoc_fun_found(self.funcs@, name@, i as int);
                }
                return Some(p.1.dup());
            }
        }
        proof {
            lemma_assoc_fun_none(self.funcs@, name@);
        }
        None
    }

    /// Enters a fresh call frame holding exactly the given bindings.
    pub fn push_frame(&mut self, frame: Vec<(String, Value)>)
        requires
            old(self)@.wf(),
        ensures
            final(self)@.wf(),
            final(self)@ == old(self)@.push_frame(assoc_val(frame@)),
    {
        let ghost target = old(self)@.push_frame(assoc_val(frame@));
        self.frames.push(frame);
        proof {
            assert(self@.frames =~= target.frames);
            assert(self@ == target);
        }
    }

    /// Leaves the innermost call frame, discarding it in full.
    pub fn pop_frame(&mut self)
        requires
            old(self)@.frames.len() >= 2,
        ensures
            final(self)@.wf(),
            final(self)@ == old(self)@.pop_frame(),
    {
        let ghost target = old(self)@.pop_frame();
        self.frames.pop().unwrap();
        proof {
            assert(self@.frames =~= target.frames);
            assert(self@ == target);
        }
    }

    /// Appends `v` to the end of the container bound to `name`:
    /// every earlier element keeps its place, and `v` becomes the
    /// last one.
    pub fn list_append(&mut self, name: &String, v: Value) -> (r: Result<(), ErrorKind>)
        requires
            old(self)@.wf(),
        ensures
            final(self)@.wf(),
            match r {
                Ok(()) => list_append_m(old(self)@, name@, v.deep()) == Ok::<EnvM, ErrorKindM>(
                    final(self)@,
                ),
                Err(k) => list_append_m(old(self)@, name@, v.deep()) == Err::<EnvM, ErrorKindM>(
                    k.deep(),
                ) && final(self)@ == old(self)@,
            },
    {
        broadcast use lemma_deep_list;

        match self.get_var(name) {
            None => Err(ErrorKind::UnknownVariable(name.clone())),
            Some(v0) => match v0 {
                Value::List(mut items) => {
                    let ghost items0 = deep_list(items@);
                    items.push(v);
                    proof {
                        broadcast use lemma_deep_list;

                        assert(deep_list(items@) =~= items0.push(v.deep()));
                    }
                    self.set_var(name.clone(), Value::List(items));
                    Ok(())
                },
                other => Err(ErrorKind::IndexUnindexable(other)),
            },
        }
    }

    /// Overwrites the element of the container bound to `name` at
    /// `idx`; every other element keeps its place.
    pub fn list_assign(&mut self, name: &String, idx: usize, v: Value) -> (r: Result<
        (),
        ErrorKind,
    >)
        requires
            old(self)@.wf(),
        ensures
            final(self)@.wf(),
            match r {
                Ok(()) => list_assign_m(old(self)@, name@, idx as int, v.deep()) == Ok::<
                    EnvM,
                    ErrorKindM,
                >(final(self)@),
                Err(k) => list_assign_m(old(self)@, name@, idx as int, v.deep()) == Err::<
                    EnvM,
                    ErrorKindM,
                >(k.deep()) && final(self)@ == old(self)@,
            },
    {
        broadcast use lemma_deep_list;

        match self.get_var(name) {
            None => Err(ErrorKind::UnknownVariable(name.clone())),
            Some(v0) => match v0 {
                Value::List(mut items) => {
                    if idx < items.len() {
                        let ghost items0 = deep_list(items@);
                        items.remove(idx);
                        items.insert(idx, v);
                        proof {
                            broadcast use lemma_deep_list;

                            assert(deep_list(items@) =~= items0.update(idx as int, v.deep()));
                        }
                        self.set_var(name.clone(), Value::List(items));
                        Ok(())
                    } else {
                        Err(ErrorKind::IndexOutOfBounds(Value::List(items), idx))
                    }
                },
                other => Err(ErrorKind::IndexUnindexable(other)),
            },
        }
    }

    /// Removes the element of the container bound to `name` at
    /// `idx`; later elements shift down by one place.
    pub fn list_delete(&mut self, name: &String, idx: usize) -> (r: Result<(), ErrorKind>)
        requires
            old(self)@.wf(),
        ensures
            final(self)@.wf(),
            match r {
                Ok(()) => list_delete_m(old(self)@, name@, idx as int) == Ok::<EnvM, ErrorKindM>(
                    final(self)@,
                ),
                Err(k) => list_delete_m(old(self)@, name@, idx as int) == Err::<EnvM, ErrorKindM>(
                    k.deep(),
                ) && final(self)@ == old(self)@,
            },
    {
        broadcast use lemma_deep_list;

        match self.get_var(name) {
            None => Err(ErrorKind::UnknownVariable(name.clone())),
            Some(v0) => match v0 {
                Value::List(mut items) => {
                    if idx < items.len() {
                        let ghost items0 = deep_list(items@);
                        items.remove(idx);
                        proof {
                            broadcast use lemma_deep_list;

                            assert(deep_list(items@) =~= items0.remove(idx as int));
                        }
                        self.set_var(name.clone(), Value::List(items));
                        Ok(())
                    } else {
                        Err(ErrorKind::IndexOutOfBounds(Value::List(items), idx))
                    }
                },
                other => Err(ErrorKind::IndexUnindexable(other)),
            },
        }
    }

    /// A copy of the whole runtime state with the same model, so that
    /// a run can be retried against an untouched state.
    pub fn duplicate(&self) -> (r: Environment)
        ensures
            r@ == self@,
    {
        let mut frames: Vec<Vec<(String, Value)>> = Vec::new();
        let mut i: usize = 0;
        while i < self.frames.len()
            invariant
                i <= self.frames.len(),
                frames@.len() == i as int,
                forall|j: int|
                    0 <= j < i as int ==> #[trigger] assoc_val(frames@[j]@) == assoc_val(
                        self.frames@[j]@,
                    ),
            decreases self.frames@.len() - i,
        {
            let src = &self.frames[i];
            let mut f: Vec<(String, Value)> = Vec::new();
            let mut k: usize = 0;
            while k < src.len()
                invariant
                    k <= src.len(),
                    f@.len() == k as int,
                    forall|l: int|
                        0 <= l < k as int ==> f@[l].0@ == src@[l].0@ && f@[l].1.deep()
                            == src@[l].1.deep(),
                decreases src@.len() - k,
            {
                let p = &src[k];
                let entry = (p.0.clone(), p.1.dup());
                f.push(entry);
                k = k + 1;
            }
            proof {
                lemma_assoc_val_congruent(f@, src@);
            }
            frames.push(f);
            i = i + 1;
        }
        let mut funcs: Vec<(String, FuncDef)> = Vec::new();
        let mut i2: usize = 0;
        while i2 < self.funcs.len()
            invariant
                i2 <= self.funcs.len(),
                funcs@.len() == i2 as int,
                forall|j: int|
                    0 <= j < i2 as int ==> funcs@[j].0@ == self.funcs@[j].0@ && funcs@[j].1.deep()
                        == self.funcs@[j].1.deep(),
            decreases self.funcs@.len() - i2,
        {
            let p = &self.funcs[i2];
            let entry = (p.0.clone(), p.1.dup());
            funcs.push(entry);
            i2 = i2 + 1;
        }
        proof {
            lemma_assoc_fun_congruent(funcs@, self.funcs@);
        }
        let mut inputs: Vec<String> = Vec::new();
        let mut i3: usize = 0;
        while i3 < self.inputs.len()
            invariant
                i3 <= self.inputs.len(),
                inputs@.len() == i3 as int,
                forall|j: int| 0 <= j < i3 as int ==> inputs@[j]@ == self.inputs@[j]@,
            decreases self.inputs@.len() - i3,
        {
            let s = self.inputs[i3].clone();
            inputs.push(s);
            i3 = i3 + 1;
        }
        let r = Environment { frames, funcs, inputs, output: self.output.clone() };
        proof {
            assert(r@.frames =~= self@.frames);
            assert(r@.inputs =~= self@.inputs);
            assert(r@ == self@);
        }
        r
    }

    /// Consumes the next pending input line; an exhausted input is an
    /// input/output failure.
    pub fn take_input(&mut self) -> (r: Result<String, ErrorKind>)
        requires
            old(self)@.wf(),
        ensures
            final(self)@.wf(),
            match r {
                Ok(line) => old(self)@.inputs.len() > 0 && line@ == old(self)@.inputs[0]
                    && final(self)@ == old(self)@.take_input(),
                Err(k) => old(self)@.inputs.len() == 0 && final(self)@ == old(self)@ && k.deep()
                    == ErrorKindM::IOError("no input is left to read"@),
            },
    {
        if self.inputs.len() == 0 {
            proof {
                reveal_strlit("no input is left to read");
            }
            return Err(ErrorKind::IOError(String::from_str("no input is left to read")));
        }
        let line = self.inputs.remove(0);
        proof {
            assert(self@.inputs =~= old(self)@.take_input().inputs);
            assert(self@ == old(self)@.take_input());
        }
        Ok(line)
    }
}

} // verus!
