//! Passes over a module, and the instrumentors that they make for its
//! functions.

use std::marker::PhantomData;
use vstd::prelude::*;
use wasmer::sys::wasmparser::Operator;
use crate::error::{ErrorView, ModuleError};
use crate::module::ModuleMod;
use crate::shape::ModuleShape;

verus! {

/// An instruction of a function body, as `wasmparser` reads it.
#[verifier::external_type_specification]
#[verifier::external_body]
pub struct ExOperator<'a>(Operator<'a>);

/// A failure of a pass, with the name of the pass.
#[derive(Debug, PartialEq, Eq)]
pub struct PassError {
    pub pass: String,
    pub cause: ModuleError,
}

/// The instrumentor of one function: it takes the function's operators one
/// at a time, in their order, and appends what it emits for each to a sink.
pub trait FuncMiddleware<'a>: Sized {
    /// The name of the pass that made this instrumentor.
    spec fn label() -> Seq<char>;

    /// What feeding `op` leaves behind and emits, or the failure.
    spec fn step(self, op: Operator<'a>) -> Result<(Self, Seq<Operator<'a>>), ErrorView>;

    /// Processes the given operator: appends what it emits for `op` to
    /// `out`, in the order of emission. A failure takes nothing from `out`.
    fn feed(&mut self, op: Operator<'a>, out: &mut Vec<Operator<'a>>) -> (res: Result<
        (),
        ModuleError,
    >)
        ensures
            match old(self).step(op) {
                Ok((next, emitted)) => {
                    &&& res is Ok
                    &&& *final(self) == next
                    &&& final(out)@ == old(out)@ + emitted
                },
                Err(e) => {
                    &&& res matches Err(cause)
                    &&& cause@ == e
                    &&& old(out)@.is_prefix_of(final(out)@)
                },
            },
    ;

    /// The name of the middleware.
    fn name(&self) -> (res: &'static str)
        ensures
            res@ == Self::label(),
    ;
}

/// The instrumentor that hands every operator on unchanged.
#[derive(Debug)]
pub struct DefaultFuncMiddleware;

impl<'a> FuncMiddleware<'a> for DefaultFuncMiddleware {
    open spec fn label() -> Seq<char> {
        "default middleware"@
    }

    open spec fn step(self, op: Operator<'a>) -> Result<(Self, Seq<Operator<'a>>), ErrorView> {
        Ok((self, seq![op]))
    }

    fn feed(&mut self, op: Operator<'a>, out: &mut Vec<Operator<'a>>) -> (res: Result<
        (),
        ModuleError,
    >) {
        out.push(op);
        proof {
            assert(final(out)@ == old(out)@ + seq![op]);
        }
        Ok(())
    }

    fn name(&self) -> (res: &'static str) {
        "default middleware"
    }
}

/// What feeding the operators `ops` in their order leaves behind and emits,
/// or the first failure.
pub open spec fn run<'a, F: FuncMiddleware<'a>>(worker: F, ops: Seq<Operator<'a>>) -> Result<
    (F, Seq<Operator<'a>>),
    ErrorView,
>
    decreases ops.len(),
{
    if ops.len() == 0 {
        Ok((worker, Seq::empty()))
    } else {
        match worker.step(ops[0]) {
            Err(e) => Err(e),
            Ok((next, first)) => match run(next, ops.skip(1)) {
                Err(e) => Err(e),
                Ok((last, rest)) => Ok((last, first + rest)),
            },
        }
    }
}


/// Feeding operators to the default instrumentor emits the same operators,
/// in the same order, and never fails.
pub proof fn default_middleware_is_identity<'a>(ops: Seq<Operator<'a>>)
    ensures
        run(DefaultFuncMiddleware, ops) == Ok::<_, ErrorView>((DefaultFuncMiddleware, ops)),
    decreases ops.len(),
{
    if ops.len() > 0 {
        default_middleware_is_identity(ops.skip(1));
        assert(seq![ops[0]] + ops.skip(1) =~= ops);
    } else {
        assert(ops =~= Seq::<Operator<'a>>::empty());
    }
}

/// Feeding `front` and then one more operator is feeding `front.push(op)`.
proof fn lemma_run_one_more<'a, F: FuncMiddleware<'a>>(
    worker: F,
    front: Seq<Operator<'a>>,
    op: Operator<'a>,
)
    ensures
        run(worker, front.push(op)) == match run(worker, front) {
            Err(e) => Err(e),
            Ok((next, emitted)) => match next.step(op) {
                Err(e) => Err(e),
                Ok((last, more)) => Ok((last, emitted + more)),
            },
        },
    decreases front.len(),
{
    let all = front.push(op);
    let none = Seq::<Operator<'a>>::empty();
    assert(all[0] == if front.len() == 0 {
        op
    } else {
        front[0]
    });
    if front.len() == 0 {
        assert(all.skip(1) =~= none);
        assert(run(worker, front) == Ok::<_, ErrorView>((worker, none)));
        match worker.step(op) {
            Ok((last, more)) => {
                assert(run(last, all.skip(1)) == Ok::<_, ErrorView>((last, none)));
                assert(more + none =~= none + more);
            },
            Err(e) => {},
        }
    } else {
        assert(all.skip(1) =~= front.skip(1).push(op));
        match worker.step(front[0]) {
            Err(e) => {},
            Ok((next, first)) => {
                lemma_run_one_more(next, front.skip(1), op);
                match run(next, front.skip(1)) {
                    Err(e) => {},
                    Ok((then, rest)) => match then.step(op) {
                        Err(e) => {},
                        Ok((last, more)) => {
                            assert(first + (rest + more) =~= (first + rest) + more);
                        },
                    },
                }
            },
        }
    }
}

/// Streams the operators of one function through its instrumentor, in their
/// order, and appends what it emits to `out`. The first failure ends the
/// stream, and comes back under the instrumentor's name.
#[verifier::loop_isolation(false)]
pub fn feed_all<'a, F: FuncMiddleware<'a>>(
    worker: &mut F,
    ops: Vec<Operator<'a>>,
    out: &mut Vec<Operator<'a>>,
) -> (res: Result<(), PassError>)
    ensures
        match run(*old(worker), ops@) {
            Ok((last, emitted)) => {
                &&& res is Ok
                &&& *final(worker) == last
                &&& final(out)@ == old(out)@ + emitted
            },
            Err(e) => {
                &&& res matches Err(failure)
                &&& failure.pass@ == F::label()
                &&& failure.cause@ == e
                &&& old(out)@.is_prefix_of(final(out)@)
            },
        },
{
    let ghost first = *worker;
    let ghost before = out@;
    let ghost mut emitted: Seq<Operator<'a>> = Seq::empty();
    let ghost all = ops@;
    for op in it: ops
        invariant
            it.seq() == all,
            run(first, all.take(it.index() as int)) == Ok::<_, ErrorView>((*worker, emitted)),
            out@ == before + emitted,
    {
        let ghost fed = all.take(it.index() as int);
        proof {
            lemma_run_one_more(first, fed, op);
            assert(all.take(it.index() + 1) =~= fed.push(op));
        }
        match worker.feed(op, out) {
            Ok(()) => {
                proof {
                    let more = run(first, fed)->Ok_0.0.step(op)->Ok_0.1;
                    assert(before + (emitted + more) =~= (before + emitted) + more);
                    emitted = emitted + more;
                }
            },
            Err(cause) => {
                proof {
                    lemma_run_fails_on(first, all, it.index() as int + 1);
                    lemma_prefix_of_prefix(before, before + emitted, out@);
                }
                return Err(PassError { pass: worker.name().to_owned(), cause });
            },
        }
    }
    proof {
        assert(all.take(all.len() as int) =~= all);
        assert(before =~= old(out)@);
    }
    Ok(())
}

/// A stream that fails on its first `n` operators fails in the same way on
/// all of them.
proof fn lemma_run_fails_on<'a, F: FuncMiddleware<'a>>(worker: F, ops: Seq<Operator<'a>>, n: int)
    requires
        0 <= n <= ops.len(),
        run(worker, ops.take(n)) is Err,
    ensures
        run(worker, ops) == run(worker, ops.take(n)),
    decreases ops.len() - n,
{
    if n < ops.len() {
        lemma_run_one_more(worker, ops.take(n), ops[n]);
        assert(ops.take(n + 1) =~= ops.take(n).push(ops[n]));
        lemma_run_fails_on(worker, ops, n + 1);
    } else {
        assert(ops.take(n) =~= ops);
    }
}

/// A sequence that begins with an extension of `a` begins with `a`.
proof fn lemma_prefix_of_prefix<T>(a: Seq<T>, b: Seq<T>, c: Seq<T>)
    requires
        a.is_prefix_of(b),
        b.is_prefix_of(c),
    ensures
        a.is_prefix_of(c),
{
}

/// What a pass does to a module, whatever holds the module.
pub trait Pass {
    /// The name of the pass.
    spec fn label() -> Seq<char>;

    /// The module that the pass leaves behind, or its failure.
    spec fn updated(&self, module: ModuleShape) -> Result<ModuleShape, ErrorView>;
}

/// Whether a call on the module `before` that comes back with `res` and
/// leaves the module `after` did what the pass says.
pub open spec fn updates<T: Pass + ?Sized>(
    pass: &T,
    before: ModuleShape,
    res: Result<(), ModuleError>,
    after: ModuleShape,
) -> bool {
    match pass.updated(before) {
        Ok(expected) => res is Ok && after == expected,
        Err(e) => res matches Err(cause) && cause@ == e,
    }
}

/// One instrumentation pass: a change to the module as a whole, made once
/// and before any function is instrumented, and an instrumentor for each of
/// its functions.
pub trait Middleware<M: ModuleMod>: Pass {
    type FM<'a>: FuncMiddleware<'a>;

    /// The instrumentor that the pass makes for function `func_index`, or
    /// the failure.
    spec fn worker<'a>(&self, func_index: u32) -> Result<Self::FM<'a>, ErrorView>;

    /// Changes the module as [`Pass::updated`] says. After a failure the
    /// module is not to be used.
    fn update_module(&self, module: &mut M) -> (res: Result<(), ModuleError>)
        requires
            old(module).wf(),
        ensures
            final(module).wf(),
            updates(self, old(module).shape(), res, final(module).shape()),
    ;

    /// A new instrumentor for the function `func_index`, with a state of
    /// its own.
    fn instrument<'a>(&self, func_index: u32) -> (res: Result<Self::FM<'a>, ModuleError>)
        ensures
            match self.worker(func_index) {
                Ok(worker) => res == Ok::<Self::FM<'a>, ModuleError>(worker),
                Err(e) => res matches Err(cause) && cause@ == e,
            },
    ;

    /// The name of the pass.
    fn name(&self) -> (res: &'static str)
        ensures
            res@ == Self::label(),
    ;
}

/// A pass in the shape in which a compiling engine takes its module
/// transforms: every failure comes back under the name of the pass.
#[derive(Debug)]
pub struct MiddlewareWrapper<T, M>(pub T, PhantomData<M>) where T: Middleware<M>, M: ModuleMod;

impl<T, M> MiddlewareWrapper<T, M> where T: Middleware<M>, M: ModuleMod {
    /// The pass inside.
    pub closed spec fn middleware(self) -> T {
        self.0
    }

    pub fn new(middleware: T) -> (res: Self)
        ensures
            res.middleware() == middleware,
    {
        Self(middleware, PhantomData)
    }

    /// The engine's hook for the module as a whole: the pass's
    /// `update_module`.
    pub fn transform_module_info(&self, module: &mut M) -> (res: Result<(), PassError>)
        requires
            old(module).wf(),
        ensures
            final(module).wf(),
            match self.middleware().updated(old(module).shape()) {
                Ok(after) => res is Ok && final(module).shape() == after,
                Err(e) => {
                    &&& res matches Err(failure)
                    &&& failure.pass@ == T::label()
                    &&& failure.cause@ == e
                },
            },
    {
        match self.0.update_module(module) {
            Ok(()) => Ok(()),
            Err(cause) => Err(PassError { pass: self.0.name().to_owned(), cause }),
        }
    }

    /// The engine's hook for one function: the pass's `instrument`.
    pub fn generate_function_middleware<'a>(&self, local_function_index: u32) -> (res: Result<
        FuncMiddlewareWrapper<'a, T::FM<'a>>,
        PassError,
    >)
        ensures
            match self.middleware().worker(local_function_index) {
                Ok(worker) => res matches Ok(wrapper) && wrapper.worker() == worker,
                Err(e) => {
                    &&& res matches Err(failure)
                    &&& failure.pass@ == T::label()
                    &&& failure.cause@ == e
                },
            },
    {
        match self.0.instrument(local_function_index) {
            Ok(worker) => Ok(FuncMiddlewareWrapper::new(worker)),
            Err(cause) => Err(PassError { pass: self.0.name().to_owned(), cause }),
        }
    }
}

/// An instrumentor in the shape in which a compiling engine takes its
/// function transforms: every failure comes back under the instrumentor's
/// name.
#[derive(Debug)]
pub struct FuncMiddlewareWrapper<'a, T: 'a>(T, PhantomData<&'a T>) where T: FuncMiddleware<'a>;

impl<'a, T> FuncMiddlewareWrapper<'a, T> where T: FuncMiddleware<'a> {
    /// The instrumentor inside.
    pub closed spec fn worker(self) -> T {
        self.0
    }

    pub fn new(worker: T) -> (res: Self)
        ensures
            res.worker() == worker,
    {
        Self(worker, PhantomData)
    }

    /// Hands the instrumentor back, in the state it is in.
    pub fn into_inner(self) -> (res: T)
        ensures
            res == self.worker(),
    {
        self.0
    }

    /// The engine's hook for one operator: the instrumentor's `feed`, which
    /// neither adds operators, nor reorders them, nor hides a failure.
    pub fn feed(&mut self, op: Operator<'a>, out: &mut Vec<Operator<'a>>) -> (res: Result<
        (),
        PassError,
    >)
        ensures
            match old(self).worker().step(op) {
                Ok((next, emitted)) => {
                    &&& res is Ok
                    &&& final(self).worker() == next
                    &&& final(out)@ == old(out)@ + emitted
                },
                Err(e) => {
                    &&& res matches Err(failure)
                    &&& failure.pass@ == T::label()
                    &&& failure.cause@ == e
                    &&& old(out)@.is_prefix_of(final(out)@)
                },
            },
    {
        match self.0.feed(op, out) {
            Ok(()) => Ok(()),
            Err(cause) => Err(PassError { pass: self.0.name().to_owned(), cause }),
        }
    }
}

} // verus!
