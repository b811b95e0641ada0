use vstd::prelude::*;

use crate::error::EvalError;
use crate::resolver::{absent, Resolver};

verus! {

/// The step of the module pipeline that the engine is asked to run next.
#[derive(Debug, Clone, Copy, PartialEq, Eq, Structural)]
pub enum Phase {
    /// Parse the code text as a module body.
    Compile,
    /// Resolve the module's static import specifiers.
    Resolve,
    /// Link the module against the resolved imports.
    Instantiate,
    /// Run the module body up to its first suspension.
    Evaluate,
}

/// What the engine reports after running one step. `H` is the engine's
/// handle to a module's completion promise.
pub enum Report<H> {
    /// Whether compilation produced a module record.
    Compiled(bool),
    /// The static import specifiers of the compiled module, in order.
    Imports(Vec<String>),
    /// Whether the engine linked the module.
    Instantiated(bool),
    /// The completion promise, or the message of what the body threw
    /// before one was produced.
    Evaluated(Result<H, String>),
}

/// What the host does after a report: run another step, or stop with the
/// promise to wait on or with an error.
pub enum Next<H> {
    Run(Phase),
    Finish(Result<H, EvalError>),
}

/// Whether `report` answers the step `phase`.
pub open spec fn answers<H>(phase: Phase, report: Report<H>) -> bool {
    match report {
        Report::Compiled(_) => phase == Phase::Compile,
        Report::Imports(_) => phase == Phase::Resolve,
        Report::Instantiated(_) => phase == Phase::Instantiate,
        Report::Evaluated(_) => phase == Phase::Evaluate,
    }
}

/// Whether every specifier is known to `names`.
pub open spec fn all_known(names: Seq<Seq<char>>, specifiers: Seq<String>) -> bool {
    forall|k: int| 0 <= k < specifiers.len() ==> !absent(names, specifiers[k]@)
}

/// The pipeline's decision on a report, given the modules the resolver knows.
pub open spec fn next_spec<H>(names: Seq<Seq<char>>, report: Report<H>) -> Next<H> {
    match report {
        Report::Compiled(ok) => if ok {
            Next::Run(Phase::Resolve)
        } else {
            Next::Finish(Err(EvalError::CompileError))
        },
        Report::Imports(specs) => if all_known(names, specs@) {
            Next::Run(Phase::Instantiate)
        } else {
            Next::Finish(Err(EvalError::InstantiationError))
        },
        Report::Instantiated(ok) => if ok {
            Next::Run(Phase::Evaluate)
        } else {
            Next::Finish(Err(EvalError::InstantiationError))
        },
        Report::Evaluated(res) => match res {
            Ok(h) => Next::Finish(Ok(h)),
            Err(msg) => Next::Finish(Err(EvalError::RuntimeError(msg))),
        },
    }
}

/// Drives one module from code text to either a completion promise or an
/// error: compile, resolve imports, instantiate, evaluate.
pub struct ModulePipeline {
    resolver: Resolver,
    phase: Phase,
}

impl ModulePipeline {
    pub closed spec fn phase(&self) -> Phase {
        self.phase
    }

    pub closed spec fn known(&self) -> Seq<Seq<char>> {
        self.resolver.names()
    }

    /// A pipeline that starts by compiling.
    pub fn new(resolver: Resolver) -> (r: ModulePipeline)
        ensures
            r.phase() == Phase::Compile,
            r.known() == resolver.names(),
    {
        ModulePipeline { resolver, phase: Phase::Compile }
    }

    /// The step the engine should run now.
    pub fn phase_now(&self) -> (r: Phase)
        ensures
            r == self.phase(),
    {
        self.phase
    }

    /// Takes the engine's report on the current step and decides what
    /// follows. Once the decision is `Finish`, the pipeline is done.
    pub fn advance<H>(&mut self, report: Report<H>) -> (r: Next<H>)
        requires
            answers(old(self).phase(), report),
        ensures
            r == next_spec(old(self).known(), report),
            final(self).known() == old(self).known(),
            r matches Next::Run(p) ==> final(self).phase() == p,
    {
        match report {
            Report::Compiled(ok) => {
                if ok {
                    self.phase = Phase::Resolve;
                    Next::Run(Phase::Resolve)
                } else {
                    Next::Finish(Err(EvalError::CompileError))
                }
            },
            Report::Imports(specs) => {
                match self.resolver.resolve_all(&specs) {
                    Ok(_) => {
                        self.phase = Phase::Instantiate;
                        Next::Run(Phase::Instantiate)
                    },
                    Err(e) => Next::Finish(Err(e)),
                }
            },
            Report::Instantiated(ok) => {
                if ok {
                    self.phase = Phase::Evaluate;
                    Next::Run(Phase::Evaluate)
                } else {
                    Next::Finish(Err(EvalError::InstantiationError))
                }
            },
            Report::Evaluated(res) => {
                match res {
                    Ok(h) => Next::Finish(Ok(h)),
                    Err(msg) => Next::Finish(Err(EvalError::RuntimeError(msg))),
                }
            },
        }
    }
}

} // verus!
