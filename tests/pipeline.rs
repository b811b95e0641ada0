use jts::error::EvalError;
use jts::pipeline::{ModulePipeline, Next, Phase, Report};
use jts::resolver::Resolver;

fn strings(items: &[&str]) -> Vec<String> {
    items.iter().map(|s| s.to_string()).collect()
}

#[test]
fn compile_failure_is_compile_error() {
    let mut p = ModulePipeline::new(Resolver::baseline());
    assert_eq!(p.phase_now(), Phase::Compile);
    let next = p.advance::<u32>(Report::Compiled(false));
    assert!(matches!(next, Next::Finish(Err(EvalError::CompileError))));
}

#[test]
fn import_free_module_reaches_its_promise() {
    let mut p = ModulePipeline::new(Resolver::baseline());
    assert!(matches!(p.advance::<u32>(Report::Compiled(true)), Next::Run(Phase::Resolve)));
    assert_eq!(p.phase_now(), Phase::Resolve);
    assert!(matches!(p.advance::<u32>(Report::Imports(Vec::new())), Next::Run(Phase::Instantiate)));
    assert!(matches!(p.advance::<u32>(Report::Instantiated(true)), Next::Run(Phase::Evaluate)));
    assert_eq!(p.phase_now(), Phase::Evaluate);
    assert!(matches!(p.advance::<u32>(Report::Evaluated(Ok(7))), Next::Finish(Ok(7))));
}

#[test]
fn static_import_is_instantiation_error() {
    // import {x} from './m.js'; console.log(x)
    let mut p = ModulePipeline::new(Resolver::baseline());
    assert!(matches!(p.advance::<u32>(Report::Compiled(true)), Next::Run(Phase::Resolve)));
    let next = p.advance::<u32>(Report::Imports(strings(&["./m.js"])));
    assert!(matches!(next, Next::Finish(Err(EvalError::InstantiationError))));
}

#[test]
fn engine_link_failure_is_instantiation_error() {
    let mut p = ModulePipeline::new(Resolver::baseline());
    p.advance::<u32>(Report::Compiled(true));
    p.advance::<u32>(Report::Imports(Vec::new()));
    let next = p.advance::<u32>(Report::Instantiated(false));
    assert!(matches!(next, Next::Finish(Err(EvalError::InstantiationError))));
}

#[test]
fn thrown_error_is_runtime_error_with_message() {
    // throw new Error('boom')
    let mut p = ModulePipeline::new(Resolver::baseline());
    p.advance::<u32>(Report::Compiled(true));
    p.advance::<u32>(Report::Imports(Vec::new()));
    p.advance::<u32>(Report::Instantiated(true));
    let next = p.advance::<u32>(Report::Evaluated(Err("Error: boom".to_string())));
    match next {
        Next::Finish(Err(EvalError::RuntimeError(m))) => assert!(m.contains("boom")),
        _ => panic!("expected a runtime error"),
    }
}

#[test]
fn baseline_resolver_knows_nothing() {
    let r = Resolver::baseline();
    assert_eq!(r.resolve("./m.js"), None);
    assert_eq!(r.resolve(""), None);
    assert_eq!(r.resolve_all(&Vec::new()), Ok(Vec::new()));
    assert_eq!(
        r.resolve_all(&strings(&["./a.js", "./b.js"])),
        Err(EvalError::InstantiationError)
    );
}
