//! The execution engine: a tree-walking evaluator for statement
//! sequences, specified by a fuel-indexed big-step semantics and
//! proved to agree with it for the fuel at which it completes.

use vstd::prelude::*;
use vstd::string::StringExecFns;

use crate::env::{
    assoc_val, list_append_m, list_assign_m, list_delete_m, EnvM, Environment, FuncDef, FuncM,
};
use crate::error::{Error, ErrorKind, ErrorKindM};
use crate::expression::{eval, eval_m, Expression};
use crate::statement::{
    dup_strings, rc_statements_borrow, rc_statements_dup, Statement, StatementKind,
};
use crate::value::{deep_list, lemma_deep_list, render_m, truthy_m, Value, ValueM};

verus! {

/// The outcome of a statement sequence: normal fall-through, or an
/// early return carrying a value.
pub enum Completion {
    Normal,
    Returned(Value),
}

/// The model of a completion.
pub enum CompletionM {
    Normal,
    Returned(ValueM),
}

impl Completion {
    /// The model of this completion.
    pub open spec fn deep(self) -> CompletionM {
        match self {
            Completion::Normal => CompletionM::Normal,
            Completion::Returned(v) => CompletionM::Returned(v.deep()),
        }
    }
}

/// The model of a propagated failure: the source range of the
/// statement at fault, and the kind raised there.
pub struct ErrM {
    pub start: int,
    pub end: int,
    pub kind: ErrorKindM,
}

/// The failure that raising `k` at statement `s` models.
pub open spec fn err_at(s: Statement, k: ErrorKindM) -> ErrM {
    ErrM { start: s.span_start(), end: s.span_end(), kind: k }
}

/// The model of a runtime failure value.
pub open spec fn error_deep(e: Error) -> ErrM {
    ErrM { start: e.place.span_start(), end: e.place.span_end(), kind: e.kind.deep() }
}

/// The model of an execution result.
pub open spec fn res_deep(r: Result<Completion, Error>) -> Result<CompletionM, ErrM> {
    match r {
        Ok(c) => Ok(c.deep()),
        Err(e) => Err(error_deep(e)),
    }
}

/// What a run of the semantics yields under a given fuel: either the
/// fuel did not cover the run, or a result together with the state it
/// leaves behind.
pub enum RunRes {
    OutOfFuel,
    Done(Result<CompletionM, ErrM>, EnvM),
}

/// The detail carried by the failure that calling a natively-bound
/// symbol reports on a host without a native-loading capability.
pub open spec fn native_failure_text() -> Seq<char> {
    "the native library capability is absent from this host"@
}

/// The index a list operation asks for: a non-negative integer,
/// taken as the machine word that holds it.
pub open spec fn as_index_m(iv: ValueM) -> Result<int, ErrorKindM> {
    match iv {
        ValueM::Int(i) => if i >= 0 {
            Ok(i as usize as int)
        } else {
            Err(ErrorKindM::UnexpectedType("nonnegative int"@, iv))
        },
        other => Err(ErrorKindM::UnexpectedType("int"@, other)),
    }
}

/// The values of a sequence of argument expressions, evaluated left
/// to right; the first failure wins.
pub open spec fn eval_args_m(args: Seq<Expression>, vars: Map<Seq<char>, ValueM>) -> Result<
    Seq<ValueM>,
    ErrorKindM,
>
    decreases args.len(),
{
    if args.len() == 0 {
        Ok(Seq::empty())
    } else {
        match eval_args_m(args.drop_last(), vars) {
            Err(k) => Err(k),
            Ok(vs) => match eval_m(args.last(), vars) {
                Err(k) => Err(k),
                Ok(v) => Ok(vs.push(v)),
            },
        }
    }
}

/// The fresh frame of a call: each parameter bound positionally; a
/// repeated parameter name keeps its last value.
pub open spec fn bind_args_m(ps: Seq<Seq<char>>, vs: Seq<ValueM>) -> Map<Seq<char>, ValueM>
    decreases ps.len(),
{
    if ps.len() == 0 || vs.len() == 0 {
        Map::empty()
    } else {
        bind_args_m(ps.drop_last(), vs.drop_last()).insert(ps.last(), vs.last())
    }
}

/// The state after registering the function bindings nested in a
/// native-library load: each nested function definition becomes a
/// callable native entry under its own name.
pub open spec fn register_natives_m(st: EnvM, lib: Seq<char>, bs: Seq<Statement>) -> EnvM
    decreases bs.len(),
{
    if bs.len() == 0 {
        st
    } else {
        let st1 = register_natives_m(st, lib, bs.drop_last());
        match bs.last().kind {
            StatementKind::Function(n, ps, _body) => st1.def_fn(
                n@,
                FuncM::Native(ps.deep_view(), lib, n@),
            ),
            _ => st1,
        }
    }
}

impl FuncM {
    /// The declared parameter names of a callable entry.
    pub open spec fn params(self) -> Seq<Seq<char>> {
        match self {
            FuncM::User(p, _) => p,
            FuncM::Native(p, _, _) => p,
        }
    }
}

/// One statement of the semantics. Entering a statement consumes one
/// unit of fuel; fuel bounds nesting depth, loop iterations and call
/// depth, never the length of a straight-line sequence.
pub open spec fn run_stmt(s: Statement, st: EnvM, fuel: nat) -> RunRes
    decreases fuel, 0int, 0int,
{
    if fuel == 0 {
        RunRes::OutOfFuel
    } else {
        let f = (fuel - 1) as nat;
        match s.kind {
            StatementKind::Assignment(name, e) => match eval_m(e, st.cur()) {
                Ok(v) => RunRes::Done(Ok(CompletionM::Normal), st.set_var(name@, v)),
                Err(k) => RunRes::Done(Err(err_at(s, k)), st),
            },
            StatementKind::Delete(name) => if st.cur().contains_key(name@) {
                RunRes::Done(Ok(CompletionM::Normal), st.remove_var(name@))
            } else {
                RunRes::Done(Err(err_at(s, ErrorKindM::UnknownVariable(name@))), st)
            },
            StatementKind::Print(e) => match eval_m(e, st.cur()) {
                Ok(v) => RunRes::Done(Ok(CompletionM::Normal), st.emit(render_m(v) + "\n"@)),
                Err(k) => RunRes::Done(Err(err_at(s, k)), st),
            },
            StatementKind::PrintNoNl(e) => match eval_m(e, st.cur()) {
                Ok(v) => RunRes::Done(Ok(CompletionM::Normal), st.emit(render_m(v))),
                Err(k) => RunRes::Done(Err(err_at(s, k)), st),
            },
            StatementKind::ListNew(name) => RunRes::Done(
                Ok(CompletionM::Normal),
                st.set_var(name@, ValueM::List(Seq::empty())),
            ),
            StatementKind::ListAppend(name, e) => match eval_m(e, st.cur()) {
                Err(k) => RunRes::Done(Err(err_at(s, k)), st),
                Ok(v) => match list_append_m(st, name@, v) {
                    Ok(st2) => RunRes::Done(Ok(CompletionM::Normal), st2),
                    Err(k) => RunRes::Done(Err(err_at(s, k)), st),
                },
            },
            StatementKind::ListAssign(name, ie, ve) => match eval_m(ie, st.cur()) {
                Err(k) => RunRes::Done(Err(err_at(s, k)), st),
                Ok(iv) => match as_index_m(iv) {
                    Err(k) => RunRes::Done(Err(err_at(s, k)), st),
                    Ok(i) => match eval_m(ve, st.cur()) {
                        Err(k) => RunRes::Done(Err(err_at(s, k)), st),
                        Ok(v) => match list_assign_m(st, name@, i, v) {
                            Ok(st2) => RunRes::Done(Ok(CompletionM::Normal), st2),
                            Err(k) => RunRes::Done(Err(err_at(s, k)), st),
                        },
                    },
                },
            },
            StatementKind::ListDelete(name, ie) => match eval_m(ie, st.cur()) {
                Err(k) => RunRes::Done(Err(err_at(s, k)), st),
                Ok(iv) => match as_index_m(iv) {
                    Err(k) => RunRes::Done(Err(err_at(s, k)), st),
                    Ok(i) => match list_delete_m(st, name@, i) {
                        Ok(st2) => RunRes::Done(Ok(CompletionM::Normal), st2),
                        Err(k) => RunRes::Done(Err(err_at(s, k)), st),
                    },
                },
            },
            StatementKind::If(c, t, els) => match eval_m(c, st.cur()) {
                Err(k) => RunRes::Done(Err(err_at(s, k)), st),
                Ok(v) => if truthy_m(v) {
                    run_block(t@, st, f)
                } else {
                    match els {
                        Some(b) => run_block(b@, st, f),
                        None => RunRes::Done(Ok(CompletionM::Normal), st),
                    }
                },
            },
            StatementKind::While(c, body) => match eval_m(c, st.cur()) {
                Err(k) => RunRes::Done(Err(err_at(s, k)), st),
                Ok(v) => if !truthy_m(v) {
                    RunRes::Done(Ok(CompletionM::Normal), st)
                } else {
                    match run_block(body@, st, f) {
                        RunRes::OutOfFuel => RunRes::OutOfFuel,
                        RunRes::Done(res, st1) => match res {
                            Ok(CompletionM::Normal) => run_stmt(s, st1, f),
                            other => RunRes::Done(other, st1),
                        },
                    }
                },
            },
            StatementKind::Input(name) => if st.inputs.len() == 0 {
                RunRes::Done(
                    Err(err_at(s, ErrorKindM::IOError("no input is left to read"@))),
                    st,
                )
            } else {
                RunRes::Done(
                    Ok(CompletionM::Normal),
                    st.set_var(name@, ValueM::Str(st.inputs[0])).take_input(),
                )
            },
            StatementKind::Catch(t, c) => match run_block(t@, st, f) {
                RunRes::OutOfFuel => RunRes::OutOfFuel,
                RunRes::Done(res, st1) => match res {
                    Err(_) => run_block(c@, st1, f),
                    ok => RunRes::Done(ok, st1),
                },
            },
            StatementKind::Function(name, params, body) => RunRes::Done(
                Ok(CompletionM::Normal),
                st.def_fn(name@, FuncM::User(params.deep_view(), body@)),
            ),
            StatementKind::Return(e) => match eval_m(e, st.cur()) {
                Ok(v) => RunRes::Done(Ok(CompletionM::Returned(v)), st),
                Err(k) => RunRes::Done(Err(err_at(s, k)), st),
            },
            StatementKind::FunctionCall(name, args) => if !st.funcs.contains_key(name@) {
                RunRes::Done(Err(err_at(s, ErrorKindM::UnknownVariable(name@))), st)
            } else {
                let fd = st.funcs[name@];
                if fd.params().len() != args.len() {
                    RunRes::Done(
                        Err(err_at(
                            s,
                            ErrorKindM::InvalidArguments(
                                name@,
                                fd.params().len() as int,
                                args.len() as int,
                            ),
                        )),
                        st,
                    )
                } else {
                    match eval_args_m(args@, st.cur()) {
                        Err(k) => RunRes::Done(Err(err_at(s, k)), st),
                        Ok(vs) => match fd {
                            FuncM::User(ps, body) => match run_block(
                                body,
                                st.push_frame(bind_args_m(ps, vs)),
                                f,
                            ) {
                                RunRes::OutOfFuel => RunRes::OutOfFuel,
                                RunRes::Done(res2, st2) => match res2 {
                                    Err(e2) => RunRes::Done(Err(e2), st2.pop_frame()),
                                    _ => RunRes::Done(
                                        Ok(CompletionM::Normal),
                                        st2.pop_frame(),
                                    ),
                                },
                            },
                            FuncM::Native(_ps, _lib, _sym) => RunRes::Done(
                                Err(err_at(s, ErrorKindM::IOError(native_failure_text()))),
                                st,
                            ),
                        },
                    }
                }
            },
            StatementKind::DylibLoad(path, bindings) => RunRes::Done(
                Ok(CompletionM::Normal),
                register_natives_m(st, path@, bindings@),
            ),
        }
    }
}

/// A statement sequence of the semantics: strictly in order, the
/// first early return or failure short-circuits the rest.
pub open spec fn run_block(stmts: Seq<Statement>, st: EnvM, fuel: nat) -> RunRes
    decreases fuel, 1int, stmts.len(),
{
    if stmts.len() == 0 {
        RunRes::Done(Ok(CompletionM::Normal), st)
    } else {
        match run_stmt(stmts[0], st, fuel) {
            RunRes::OutOfFuel => RunRes::OutOfFuel,
            RunRes::Done(res, st1) => match res {
                Ok(CompletionM::Normal) => run_block(stmts.drop_first(), st1, fuel),
                other => RunRes::Done(other, st1),
            },
        }
    }
}

/// What one attempt of the engine yields: a result, or the word that
/// the fuel given to the attempt did not cover the run.
pub enum Outcome {
    Done(Result<Completion, Error>),
    OutOfFuel,
}

/// The engine attempt `r`, leaving state `em`, agrees with what the
/// semantics says under the same fuel.
pub open spec fn step_matches(r: Outcome, em: EnvM, rr: RunRes) -> bool {
    match rr {
        RunRes::OutOfFuel => r is OutOfFuel,
        RunRes::Done(res, st) => r matches Outcome::Done(x) && res_deep(x) == res && em == st,
    }
}

/// A failure of kind `k` at statement `s`, which the report takes by
/// value.
fn raise(s: &Statement, k: ErrorKind) -> (e: Error)
    ensures
        error_deep(e) == err_at(*s, k.deep()),
{
    Error::new(k, s.dup())
}

/// The machine index a list operation asks for.
fn as_index(iv: Value) -> (r: Result<usize, ErrorKind>)
    ensures
        match r {
            Ok(i) => as_index_m(iv.deep()) == Ok::<int, ErrorKindM>(i as int),
            Err(k) => as_index_m(iv.deep()) == Err::<int, ErrorKindM>(k.deep()),
        },
{
    match iv {
        Value::Int(i) => if i >= 0 {
            Ok(#[verifier::truncate] (i as usize))
        } else {
            proof {
                reveal_strlit("nonnegative int");
            }
            Err(ErrorKind::UnexpectedType(String::from_str("nonnegative int"), Value::Int(i)))
        },
        other => {
            proof {
                reveal_strlit("int");
            }
            Err(ErrorKind::UnexpectedType(String::from_str("int"), other))
        },
    }
}

/// A failing argument fails the whole argument list, however many
/// arguments follow it.
proof fn lemma_eval_args_err(args: Seq<Expression>, vars: Map<Seq<char>, ValueM>, j: int)
    requires
        0 <= j <= args.len(),
        eval_args_m(args.take(j), vars) is Err,
    ensures
        eval_args_m(args, vars) == eval_args_m(args.take(j), vars),
    decreases args.len(),
{
    if j < args.len() {
        assert(args.drop_last().take(j) =~= args.take(j));
        lemma_eval_args_err(args.drop_last(), vars, j);
    } else {
        assert(args.take(j) =~= args);
    }
}

/// One statement of the engine, against the semantics at the same
/// fuel.
#[verifier::loop_isolation(false)]
#[verifier::rlimit(60)]
fn exec_stmt(s: &Statement, env: &mut Environment, fuel: u64) -> (r: Outcome)
    requires
        old(env)@.wf(),
    ensures
        final(env)@.wf(),
        step_matches(r, final(env)@, run_stmt(*s, old(env)@, fuel as nat)),
        r !is OutOfFuel ==> final(env)@.frames.len() == old(env)@.frames.len(),
    decreases fuel, 0int, 0int,
{
    broadcast use lemma_deep_list;

    if fuel == 0 {
        return Outcome::OutOfFuel;
    }
    let f = fuel - 1;
    match &s.kind {
        StatementKind::Assignment(name, e) => match eval(e, env) {
            Ok(v) => {
                env.set_var(name.clone(), v);
                Outcome::Done(Ok(Completion::Normal))
            },
            Err(k) => Outcome::Done(Err(raise(s, k))),
        },
        StatementKind::Delete(name) => match env.delete_var(name) {
            Ok(()) => Outcome::Done(Ok(Completion::Normal)),
            Err(k) => Outcome::Done(Err(raise(s, k))),
        },
        StatementKind::Print(e) => match eval(e, env) {
            Ok(v) => {
                let mut t = v.render();
                proof {
                    reveal_strlit("\n");
                }
                t.append("\n");
                env.emit(t.as_str());
                Outcome::Done(Ok(Completion::Normal))
            },
            Err(k) => Outcome::Done(Err(raise(s, k))),
        },
        StatementKind::PrintNoNl(e) => match eval(e, env) {
            Ok(v) => {
                let t = v.render();
                env.emit(t.as_str());
                Outcome::Done(Ok(Completion::Normal))
            },
            Err(k) => Outcome::Done(Err(raise(s, k))),
        },
        StatementKind::ListNew(name) => {
            env.set_var(name.clone(), Value::List(Vec::new()));
            proof {
                assert(deep_list(Seq::<Value>::empty()) =~= Seq::<ValueM>::empty());
            }
            Outcome::Done(Ok(Completion::Normal))
        },
        StatementKind::ListAppend(name, e) => match eval(e, env) {
            Err(k) => Outcome::Done(Err(raise(s, k))),
            Ok(v) => match env.list_append(name, v) {
                Ok(()) => Outcome::Done(Ok(Completion::Normal)),
                Err(k) => Outcome::Done(Err(raise(s, k))),
            },
        },
        StatementKind::ListAssign(name, ie, ve) => match eval(ie, env) {
            Err(k) => Outcome::Done(Err(raise(s, k))),
            Ok(iv) => match as_index(iv) {
                Err(k) => Outcome::Done(Err(raise(s, k))),
                Ok(i) => match eval(ve, env) {
                    Err(k) => Outcome::Done(Err(raise(s, k))),
                    Ok(v) => match env.list_assign(name, i, v) {
                        Ok(()) => Outcome::Done(Ok(Completion::Normal)),
                        Err(k) => Outcome::Done(Err(raise(s, k))),
                    },
                },
            },
        },
        StatementKind::ListDelete(name, ie) => match eval(ie, env) {
            Err(k) => Outcome::Done(Err(raise(s, k))),
            Ok(iv) => match as_index(iv) {
                Err(k) => Outcome::Done(Err(raise(s, k))),
                Ok(i) => match env.list_delete(name, i) {
                    Ok(()) => Outcome::Done(Ok(Completion::Normal)),
                    Err(k) => Outcome::Done(Err(raise(s, k))),
                },
            },
        },
        StatementKind::If(c, t, els) => match eval(c, env) {
            Err(k) => Outcome::Done(Err(raise(s, k))),
            Ok(v) => if v.truthy() {
                exec_block(t, env, f)
            } else {
                match els {
                    Some(b) => exec_block(b, env, f),
                    None => Outcome::Done(Ok(Completion::Normal)),
                }
            },
        },
        StatementKind::While(c, body) => match eval(c, env) {
            Err(k) => Outcome::Done(Err(raise(s, k))),
            Ok(v) => if !v.truthy() {
                Outcome::Done(Ok(Completion::Normal))
            } else {
                match exec_block(body, env, f) {
                    Outcome::OutOfFuel => Outcome::OutOfFuel,
                    Outcome::Done(res) => match &res {
                        Ok(Completion::Normal) => exec_stmt(s, env, f),
                        _ => Outcome::Done(res),
                    },
                }
            },
        },
        StatementKind::Input(name) => match env.take_input() {
            Err(k) => Outcome::Done(Err(raise(s, k))),
            Ok(line) => {
                env.set_var(name.clone(), Value::Str(line));
                proof {
                    assert(final(env)@ == old(env)@.set_var(
                        name@,
                        ValueM::Str(old(env)@.inputs[0]),
                    ).take_input());
                }
                Outcome::Done(Ok(Completion::Normal))
            },
        },
        StatementKind::Catch(t, c) => match exec_block(t, env, f) {
            Outcome::OutOfFuel => Outcome::OutOfFuel,
            Outcome::Done(res) => match res {
                Err(_) => exec_block(c, env, f),
                ok => Outcome::Done(ok),
            },
        },
        StatementKind::Function(name, params, body) => {
            env.def_fn(name.clone(), FuncDef::User(dup_strings(params), rc_statements_dup(body)));
            Outcome::Done(Ok(Completion::Normal))
        },
        StatementKind::Return(e) => match eval(e, env) {
            Ok(v) => Outcome::Done(Ok(Completion::Returned(v))),
            Err(k) => Outcome::Done(Err(raise(s, k))),
        },
        StatementKind::FunctionCall(name, args) => match env.get_fn(name) {
            None => Outcome::Done(Err(raise(s, ErrorKind::UnknownVariable(name.clone())))),
            Some(fd) => {
                let plen = match &fd {
                    FuncDef::User(p, _) => p.len(),
                    FuncDef::Native(p, _, _) => p.len(),
                };
                if plen != args.len() {
                    return Outcome::Done(Err(raise(
                        s,
                        ErrorKind::InvalidArguments(name.clone(), plen, args.len()),
                    )));
                }
                let mut argv: Vec<Value> = Vec::new();
                let mut i: usize = 0;
                while i < args.len()
                    invariant
                        i <= args.len(),
                        argv@.len() == i as int,
                        eval_args_m(args@.take(i as int), env@.cur()) == Ok::<
                            Seq<ValueM>,
                            ErrorKindM,
                        >(deep_list(argv@)),
                    decreases args@.len() - i,
                {
                    let ghost prev = argv@;
                    match eval(&args[i], env) {
                        Err(k) => {
                            proof {
                                assert(args@.take(i as int + 1).drop_last() =~= args@.take(
                                    i as int,
                                ));
                                assert(eval_args_m(args@.take(i as int + 1), env@.cur())
                                    == Err::<Seq<ValueM>, ErrorKindM>(k.deep()));
                                lemma_eval_args_err(args@, env@.cur(), i as int + 1);
                            }
                            return Outcome::Done(Err(raise(s, k)));
                        },
                        Ok(v) => {
                            argv.push(v);
                            proof {
                                assert(args@.take(i as int + 1).drop_last() =~= args@.take(
                                    i as int,
                                ));
                                assert(deep_list(argv@) =~= deep_list(prev).push(v.deep()));
                            }
                        },
                    }
                    i = i + 1;
                }
                proof {
                    assert(args@.take(args@.len() as int) =~= args@);
                }
                match fd {
                    FuncDef::User(params, body) => {
                        let mut frame: Vec<(String, Value)> = Vec::new();
                        let mut k: usize = 0;
                        while k < params.len()
                            invariant
                                k <= params.len(),
                                params@.len() == argv@.len(),
                                frame@.len() == k as int,
                                assoc_val(frame@) == bind_args_m(
                                    params.deep_view().take(k as int),
                                    deep_list(argv@).take(k as int),
                                ),
                            decreases params@.len() - k,
                        {
                            let ghost fprev = frame@;
                            let entry = (params[k].clone(), argv[k].dup());
                            frame.push(entry);
                            proof {
                                assert(frame@.drop_last() =~= fprev);
                                assert(params.deep_view().take(k as int + 1).drop_last()
                                    =~= params.deep_view().take(k as int));
                                assert(deep_list(argv@).take(k as int + 1).drop_last()
                                    =~= deep_list(argv@).take(k as int));
                            }
                            k = k + 1;
                        }
                        proof {
                            assert(params.deep_view().take(params@.len() as int)
                                =~= params.deep_view());
                            assert(deep_list(argv@).take(argv@.len() as int) =~= deep_list(
                                argv@,
                            ));
                        }
                        env.push_frame(frame);
                        let body_ref = rc_statements_borrow(&body);
                        match exec_block(body_ref, env, f) {
                            Outcome::OutOfFuel => Outcome::OutOfFuel,
                            Outcome::Done(res2) => {
                                env.pop_frame();
                                match res2 {
                                    Err(e2) => Outcome::Done(Err(e2)),
                                    _ => Outcome::Done(Ok(Completion::Normal)),
                                }
                            },
                        }
                    },
                    FuncDef::Native(_p, _lib, _sym) => {
                        // The host grants no native-loading capability,
                        // and the bridge maps every native-layer failure
                        // to the input/output failure kind.
                        Outcome::Done(Err(raise(
                            s,
                            ErrorKind::IOError(String::from_str(
                                "the native library capability is absent from this host",
                            )),
                        )))
                    },
                }
            },
        },
        StatementKind::DylibLoad(path, bindings) => {
            let mut i: usize = 0;
            while i < bindings.len()
                invariant
                    i <= bindings.len(),
                    env@.wf(),
                    env@ == register_natives_m(old(env)@, path@, bindings@.take(i as int)),
                    env@.frames.len() == old(env)@.frames.len(),
                decreases bindings@.len() - i,
            {
                match &bindings[i].kind {
                    StatementKind::Function(n, ps, _b) => {
                        env.def_fn(
                            n.clone(),
                            FuncDef::Native(dup_strings(ps), path.clone(), n.clone()),
                        );
                    },
                    _ => {},
                }
                proof {
                    assert(bindings@.take(i as int + 1).drop_last() =~= bindings@.take(i as int));
                    assert(bindings@.take(i as int + 1).last() == bindings@[i as int]);
                }
                i = i + 1;
            }
            proof {
                assert(bindings@.take(bindings@.len() as int) =~= bindings@);
            }
            Outcome::Done(Ok(Completion::Normal))
        },
    }
}

/// A statement sequence of the engine, against the semantics at the
/// same fuel.
#[verifier::loop_isolation(false)]
fn exec_block(stmts: &Vec<Statement>, env: &mut Environment, fuel: u64) -> (r: Outcome)
    requires
        old(env)@.wf(),
    ensures
        final(env)@.wf(),
        step_matches(r, final(env)@, run_block(stmts@, old(env)@, fuel as nat)),
        r !is OutOfFuel ==> final(env)@.frames.len() == old(env)@.frames.len(),
    decreases fuel, 1int, 0int,
{
    proof {
        assert(stmts@.skip(0) =~= stmts@);
    }
    let mut i: usize = 0;
    while i < stmts.len()
        invariant
            i <= stmts.len(),
            env@.wf(),
            env@.frames.len() == old(env)@.frames.len(),
            run_block(stmts@, old(env)@, fuel as nat) == run_block(
                stmts@.skip(i as int),
                env@,
                fuel as nat,
            ),
        decreases stmts@.len() - i,
    {
        let r = exec_stmt(&stmts[i], env, fuel);
        proof {
            assert(stmts@.skip(i as int)[0] == stmts@[i as int]);
            assert(stmts@.skip(i as int).drop_first() =~= stmts@.skip(i as int + 1));
        }
        match r {
            Outcome::OutOfFuel => {
                return Outcome::OutOfFuel;
            },
            Outcome::Done(res) => match &res {
                Ok(Completion::Normal) => {},
                _ => {
                    return Outcome::Done(res);
                },
            },
        }
        i = i + 1;
    }
    proof {
        assert(stmts@.skip(stmts@.len() as int) =~= Seq::<Statement>::empty());
    }
    Outcome::Done(Ok(Completion::Normal))
}

/// Law: more fuel never changes a finished statement: fuel decides
/// only whether the run is covered.
pub proof fn lemma_run_stmt_fuel_monotonic(s: Statement, st: EnvM, fuel1: nat, fuel2: nat)
    requires
        fuel1 <= fuel2,
        !(run_stmt(s, st, fuel1) is OutOfFuel),
    ensures
        run_stmt(s, st, fuel2) == run_stmt(s, st, fuel1),
    decreases fuel1, 0int, 0int,
{
    let f1 = (fuel1 - 1) as nat;
    let f2 = (fuel2 - 1) as nat;
    match s.kind {
        StatementKind::If(c, t, els) => {
            match eval_m(c, st.cur()) {
                Ok(v) => {
                    if truthy_m(v) {
                        lemma_run_block_fuel_monotonic(t@, st, f1, f2);
                    } else {
                        match els {
                            Some(b) => {
                                lemma_run_block_fuel_monotonic(b@, st, f1, f2);
                            },
                            None => {},
                        }
                    }
                },
                Err(_) => {},
            }
        },
        StatementKind::While(c, body) => {
            match eval_m(c, st.cur()) {
                Err(_) => {},
                Ok(v) => {
                    if truthy_m(v) {
                        lemma_run_block_fuel_monotonic(body@, st, f1, f2);
                        match run_block(body@, st, f1) {
                            RunRes::Done(res, st1) => {
                                match res {
                                    Ok(CompletionM::Normal) => {
                                        lemma_run_stmt_fuel_monotonic(s, st1, f1, f2);
                                    },
                                    _ => {},
                                }
                            },
                            RunRes::OutOfFuel => {
                                assert(false);
                            },
                        }
                    }
                },
            }
        },
        StatementKind::Catch(t, c) => {
            lemma_run_block_fuel_monotonic(t@, st, f1, f2);
            match run_block(t@, st, f1) {
                RunRes::Done(res, st1) => {
                    match res {
                        Err(_) => {
                            lemma_run_block_fuel_monotonic(c@, st1, f1, f2);
                        },
                        _ => {},
                    }
                },
                RunRes::OutOfFuel => {
                    assert(false);
                },
            }
        },
        StatementKind::FunctionCall(name, args) => {
            if st.funcs.contains_key(name@) {
                let fd = st.funcs[name@];
                if fd.params().len() == args@.len() {
                    match eval_args_m(args@, st.cur()) {
                        Err(_) => {},
                        Ok(vs) => {
                            match fd {
                                FuncM::User(ps, body) => {
                                    lemma_run_block_fuel_monotonic(
                                        body,
                                        st.push_frame(bind_args_m(ps, vs)),
                                        f1,
                                        f2,
                                    );
                                },
                                FuncM::Native(_p, _l, _s) => {},
                            }
                        },
                    }
                }
            }
        },
        _ => {},
    }
}

/// Law: more fuel never changes a finished sequence.
pub proof fn lemma_run_block_fuel_monotonic(
    stmts: Seq<Statement>,
    st: EnvM,
    fuel1: nat,
    fuel2: nat,
)
    requires
        fuel1 <= fuel2,
        !(run_block(stmts, st, fuel1) is OutOfFuel),
    ensures
        run_block(stmts, st, fuel2) == run_block(stmts, st, fuel1),
    decreases fuel1, 1int, stmts.len(),
{
    if stmts.len() > 0 {
        lemma_run_stmt_fuel_monotonic(stmts[0], st, fuel1, fuel2);
        match run_stmt(stmts[0], st, fuel1) {
            RunRes::Done(res, st1) => {
                match res {
                    Ok(CompletionM::Normal) => {
                        lemma_run_block_fuel_monotonic(stmts.drop_first(), st1, fuel1, fuel2);
                    },
                    _ => {},
                }
            },
            RunRes::OutOfFuel => {
                assert(false);
            },
        }
    }
}

/// Law: a finished run is unique: any two fuels that cover a program
/// give the same result and leave the same state, so what `execute`
/// promises for some fuel is the one result the semantics allows.
pub proof fn lemma_run_block_deterministic(
    stmts: Seq<Statement>,
    st: EnvM,
    fuel1: nat,
    fuel2: nat,
)
    requires
        !(run_block(stmts, st, fuel1) is OutOfFuel),
        !(run_block(stmts, st, fuel2) is OutOfFuel),
    ensures
        run_block(stmts, st, fuel1) == run_block(stmts, st, fuel2),
{
    if fuel1 <= fuel2 {
        lemma_run_block_fuel_monotonic(stmts, st, fuel1, fuel2);
    } else {
        lemma_run_block_fuel_monotonic(stmts, st, fuel2, fuel1);
    }
}

/// Law: in a statement sequence, an error raised by the statement at
/// position `j` — the statements before it having completed
/// normally — is the error of the whole sequence, unmodified in kind
/// and payload, whatever statements follow it.
pub proof fn lemma_error_propagates_through_sequence(
    stmts: Seq<Statement>,
    st: EnvM,
    fuel: nat,
    j: int,
    st_j: EnvM,
    e: ErrM,
    st_e: EnvM,
)
    requires
        0 <= j < stmts.len(),
        run_block(stmts.take(j), st, fuel) == RunRes::Done(
            Ok::<CompletionM, ErrM>(CompletionM::Normal),
            st_j,
        ),
        run_stmt(stmts[j], st_j, fuel) == RunRes::Done(Err::<CompletionM, ErrM>(e), st_e),
    ensures
        run_block(stmts, st, fuel) == RunRes::Done(Err::<CompletionM, ErrM>(e), st_e),
    decreases j,
{
    if j == 0 {
        assert(stmts.take(0) =~= Seq::<Statement>::empty());
    } else {
        assert(stmts.take(j)[0] == stmts[0]);
        match run_stmt(stmts[0], st, fuel) {
            RunRes::OutOfFuel => {
                assert(false);
            },
            RunRes::Done(res, st1) => {
                match res {
                    Ok(CompletionM::Normal) => {
                        assert(stmts.take(j).drop_first() =~= stmts.drop_first().take(j - 1));
                        assert(stmts.drop_first()[j - 1] == stmts[j]);
                        lemma_error_propagates_through_sequence(
                            stmts.drop_first(),
                            st1,
                            fuel,
                            j - 1,
                            st_j,
                            e,
                            st_e,
                        );
                    },
                    _ => {
                        assert(false);
                    },
                }
            },
        }
    }
}

/// Law: a conditional branch propagates an error of its chosen body
/// unchanged.
pub proof fn lemma_error_propagates_through_if(
    s: Statement,
    st: EnvM,
    fuel: nat,
    e: ErrM,
    st_e: EnvM,
)
    requires
        fuel > 0,
        ({
            &&& s.kind matches StatementKind::If(c, t, _els)
            &&& eval_m(c, st.cur()) matches Ok(v)
            &&& truthy_m(v)
            &&& run_block(t@, st, (fuel - 1) as nat) == RunRes::Done(
                Err::<CompletionM, ErrM>(e),
                st_e,
            )
        }),
    ensures
        run_stmt(s, st, fuel) == RunRes::Done(Err::<CompletionM, ErrM>(e), st_e),
{
}

/// Law: a loop propagates an error of its body unchanged.
pub proof fn lemma_error_propagates_through_while(
    s: Statement,
    st: EnvM,
    fuel: nat,
    e: ErrM,
    st_e: EnvM,
)
    requires
        fuel > 0,
        ({
            &&& s.kind matches StatementKind::While(c, body)
            &&& eval_m(c, st.cur()) matches Ok(v)
            &&& truthy_m(v)
            &&& run_block(body@, st, (fuel - 1) as nat) == RunRes::Done(
                Err::<CompletionM, ErrM>(e),
                st_e,
            )
        }),
    ensures
        run_stmt(s, st, fuel) == RunRes::Done(Err::<CompletionM, ErrM>(e), st_e),
{
}

/// Law: a call propagates an error of the called body unchanged in
/// kind and payload; only the call frame is discarded.
pub proof fn lemma_error_propagates_through_call(
    s: Statement,
    st: EnvM,
    fuel: nat,
    e: ErrM,
    st2: EnvM,
)
    requires
        fuel > 0,
        ({
            &&& s.kind matches StatementKind::FunctionCall(name, args)
            &&& st.funcs.contains_key(name@)
            &&& st.funcs[name@] matches FuncM::User(ps, body)
            &&& ps.len() == args@.len()
            &&& eval_args_m(args@, st.cur()) matches Ok(vs)
            &&& run_block(body, st.push_frame(bind_args_m(ps, vs)), (fuel - 1) as nat)
                == RunRes::Done(Err::<CompletionM, ErrM>(e), st2)
        }),
    ensures
        run_stmt(s, st, fuel) == RunRes::Done(Err::<CompletionM, ErrM>(e), st2.pop_frame()),
{
}

/// Law: a recovery construct absorbs exactly a propagated error from
/// its try body: the error is discarded, whatever it held, and the
/// catch body runs in the state the try body left.
pub proof fn lemma_catch_absorbs_error(s: Statement, st: EnvM, fuel: nat, e: ErrM, st1: EnvM)
    requires
        fuel > 0,
        ({
            &&& s.kind matches StatementKind::Catch(t, _c)
            &&& run_block(t@, st, (fuel - 1) as nat) == RunRes::Done(
                Err::<CompletionM, ErrM>(e),
                st1,
            )
        }),
    ensures
        ({
            &&& s.kind matches StatementKind::Catch(_t, c)
            &&& run_stmt(s, st, fuel) == run_block(c@, st1, (fuel - 1) as nat)
        }),
{
}

/// Law: a recovery construct does not intercept an early return: the
/// catch body is skipped and the returned value propagates through
/// unchanged.
pub proof fn lemma_catch_passes_return(s: Statement, st: EnvM, fuel: nat, v: ValueM, st1: EnvM)
    requires
        fuel > 0,
        ({
            &&& s.kind matches StatementKind::Catch(t, _c)
            &&& run_block(t@, st, (fuel - 1) as nat) == RunRes::Done(
                Ok::<CompletionM, ErrM>(CompletionM::Returned(v)),
                st1,
            )
        }),
    ensures
        run_stmt(s, st, fuel) == RunRes::Done(
            Ok::<CompletionM, ErrM>(CompletionM::Returned(v)),
            st1,
        ),
{
}

/// Law: the arity check of a call precedes argument evaluation: on a
/// mismatch the call reports the declared and supplied counts and the
/// state is untouched, whatever evaluating any argument would have
/// done.
pub proof fn lemma_arity_check_precedes_evaluation(s: Statement, st: EnvM, fuel: nat)
    requires
        fuel > 0,
        ({
            &&& s.kind matches StatementKind::FunctionCall(name, args)
            &&& st.funcs.contains_key(name@)
            &&& st.funcs[name@].params().len() != args@.len()
        }),
    ensures
        ({
            &&& s.kind matches StatementKind::FunctionCall(name, args)
            &&& run_stmt(s, st, fuel) == RunRes::Done(
                Err::<CompletionM, ErrM>(
                    err_at(
                        s,
                        ErrorKindM::InvalidArguments(
                            name@,
                            st.funcs[name@].params().len() as int,
                            args@.len() as int,
                        ),
                    ),
                ),
                st,
            )
        }),
{
}

/// The detail carried by the failure reported when a run does not
/// finish within the host's step bound.
pub open spec fn step_bound_text() -> Seq<char> {
    "the run did not finish within the host's step bound"@
}

/// Executes a program: each statement strictly in sequence, until the
/// sequence falls through, an early return surfaces, or a failure
/// propagates out of every recovery construct. The result and the
/// state left behind are exactly what the semantics gives for some
/// sufficient fuel. A run that even the largest fuel the host can
/// count does not cover is reported as an input/output failure at the
/// program's first statement, with the state untouched.
pub fn execute(stmts: &Vec<Statement>, env: &mut Environment) -> (r: Result<Completion, Error>)
    requires
        old(env)@.wf(),
    ensures
        final(env)@.wf(),
        (exists|fuel: nat|
            run_block(stmts@, old(env)@, fuel) == RunRes::Done(res_deep(r), final(env)@)) || {
            &&& run_block(stmts@, old(env)@, 0xffff_ffff_ffff_ffffu64 as nat)
                == RunRes::OutOfFuel
            &&& stmts@.len() > 0
            &&& r matches Err(e) && error_deep(e) == err_at(
                stmts@[0],
                ErrorKindM::IOError(step_bound_text()),
            )
            &&& final(env)@ == old(env)@
        },
{
    let mut fuel: u64 = 32;
    loop
        invariant
            env@.wf(),
            env@ == old(env)@,
            32 <= fuel,
        decreases 0xffff_ffff_ffff_ffffu64 - fuel,
    {
        let mut scratch = env.duplicate();
        let out = exec_block(stmts, &mut scratch, fuel);
        match out {
            Outcome::Done(res) => {
                proof {
                    assert(run_block(stmts@, old(env)@, fuel as nat) == RunRes::Done(
                        res_deep(res),
                        scratch@,
                    ));
                }
                *env = scratch;
                return res;
            },
            Outcome::OutOfFuel => {
                if fuel == 0xffff_ffff_ffff_ffffu64 {
                    proof {
                        if stmts@.len() == 0 {
                            assert(run_block(stmts@, env@, fuel as nat) == RunRes::Done(
                                Ok::<CompletionM, ErrM>(CompletionM::Normal),
                                env@,
                            ));
                        }
                    }
                    return Err(raise(
                        &stmts[0],
                        ErrorKind::IOError(String::from_str(
                            "the run did not finish within the host's step bound",
                        )),
                    ));
                }
                fuel = if fuel <= 9223372036854775807u64 {
                    fuel * 2
                } else {
                    0xffff_ffff_ffff_ffffu64
                };
            },
        }
    }
}

} // verus!
