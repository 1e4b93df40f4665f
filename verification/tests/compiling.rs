use rython::codegen::{CodegenError, Compiler};
use rython::interp::{run, Value};
use rython::ir::IrInstr;
use rython::ireval::execute_main;
use rython::parser::parse_rython_code;

fn compile(src: &str) -> (Compiler, Vec<(String, CodegenError)>) {
    let p = parse_rython_code(src).unwrap();
    let mut c = Compiler::new("test_mod");
    let errs = c.compile_program(&p);
    (c, errs)
}

#[test]
fn fresh_module_declares_the_runtime_intrinsics() {
    let c = Compiler::new("m");
    let text = c.emit_ir_to_string();
    assert!(text.contains("; ModuleID = 'm'"));
    assert!(text.contains("declare void @rython_mem_init()"));
    assert!(text.contains("declare ptr @rython_malloc(i64)"));
}

#[test]
fn main_gets_the_allocator_initialization_call_first() {
    let (c, errs) = compile("function main() -> int:\n    return 1");
    assert_eq!(errs.len(), 0);
    assert_eq!(c.module.funcs.len(), 1);
    assert!(matches!(
        &c.module.funcs[0].body[0],
        IrInstr::Call { dest: None, func, .. } if func == "rython_mem_init"
    ));
    assert!(c.emit_ir_to_string().contains("call void @rython_mem_init()"));
}

#[test]
fn other_functions_get_no_initialization_call() {
    let (c, errs) = compile("function f() -> int:\n    return 1");
    assert_eq!(errs.len(), 0);
    assert!(!matches!(&c.module.funcs[0].body[0], IrInstr::Call { .. }));
}

#[test]
fn compiled_and_interpreted_integer_arithmetic_agree() {
    // The flat-precedence example: both sides must say 100.
    let src = "function main() -> int:\n    return 42 + 8 * 2";
    let p = parse_rython_code(src).unwrap();
    let (v, _) = run(&p);
    assert!(matches!(v, Some(Value::Int(100))));
    let (c, errs) = compile(src);
    assert_eq!(errs.len(), 0);
    assert_eq!(execute_main(&c.module), Some(100));
}

#[test]
fn compiled_integer_division_by_zero_traps() {
    // Documented divergence: the interpreter defines 5 / 0 as 0, but the
    // executed compiled code traps, so execution yields no value.
    let src = "function main() -> int:\n    return 5 / 0";
    let p = parse_rython_code(src).unwrap();
    let (v, _) = run(&p);
    assert!(matches!(v, Some(Value::Int(0))));
    let (c, _) = compile(src);
    assert_eq!(execute_main(&c.module), None);
}

#[test]
fn function_without_return_returns_zero_when_executed() {
    let (c, errs) = compile("function main() -> int:\n    x: int = 5");
    assert_eq!(errs.len(), 0);
    assert_eq!(execute_main(&c.module), Some(0));
}

#[test]
fn variables_compile_to_slots_and_loads() {
    let src = "function main() -> int:\n    x: int = 6\n    return x * 7";
    let (c, errs) = compile(src);
    assert_eq!(errs.len(), 0);
    assert_eq!(execute_main(&c.module), Some(42));
    let text = c.emit_ir_to_string();
    assert!(text.contains("alloca i64"));
    assert!(text.contains("load i64"));
}

#[test]
fn undefined_function_fails_generation() {
    // The same program that the interpreter runs leniently must fail
    // generation for the calling function.
    let src = "function main() -> int:\n    return missing()";
    let p = parse_rython_code(src).unwrap();
    let (v, _) = run(&p);
    assert!(matches!(v, Some(Value::Int(0))));
    let (c, errs) = compile(src);
    assert_eq!(errs.len(), 1);
    assert_eq!(errs[0].0, "main");
    assert!(matches!(&errs[0].1, CodegenError::UndefinedSymbol { name } if name == "missing"));
    assert_eq!(c.module.funcs.len(), 0);
    assert_eq!(execute_main(&c.module), None);
}

#[test]
fn undefined_variable_fails_generation() {
    let (c, errs) = compile("function main() -> int:\n    return y");
    assert_eq!(errs.len(), 1);
    assert!(matches!(&errs[0].1, CodegenError::UndefinedSymbol { name } if name == "y"));
    assert_eq!(c.module.funcs.len(), 0);
}

#[test]
fn mixed_operand_kinds_fail_generation() {
    let (_, errs) = compile("function main() -> int:\n    return 1.5 + 2");
    assert_eq!(errs.len(), 1);
    assert!(matches!(&errs[0].1, CodegenError::TypeMismatch));
}

#[test]
fn wrong_return_type_discards_the_function() {
    let (c, errs) = compile("function main() -> int:\n    return 1.5");
    assert_eq!(errs.len(), 1);
    assert!(matches!(&errs[0].1, CodegenError::InvalidFunction));
    assert_eq!(c.module.funcs.len(), 0);
}

#[test]
fn earlier_functions_are_callable_later_but_not_conversely() {
    let (c, errs) =
        compile("function f() -> int:\n    return 4\nfunction main() -> int:\n    return f()");
    assert_eq!(errs.len(), 0);
    assert_eq!(c.module.funcs.len(), 2);
    assert!(c.emit_ir_to_string().contains("call i64 @f()"));

    let (c2, errs2) =
        compile("function main() -> int:\n    return g()\nfunction g() -> int:\n    return 1");
    assert_eq!(errs2.len(), 1);
    assert_eq!(errs2[0].0, "main");
    assert!(matches!(&errs2[0].1, CodegenError::UndefinedSymbol { name } if name == "g"));
    assert_eq!(c2.module.funcs.len(), 1);
}

#[test]
fn call_arity_mismatch_fails_generation() {
    let (_, errs) = compile(
        "function f(a: int) -> int:\n    return a\nfunction main() -> int:\n    return f()",
    );
    assert_eq!(errs.len(), 1);
    assert_eq!(errs[0].0, "main");
    assert!(matches!(&errs[0].1, CodegenError::TypeMismatch));
}

#[test]
fn string_literal_allocates_and_copies() {
    let (c, errs) = compile("function main() -> str:\n    return \"hi\"");
    assert_eq!(errs.len(), 0);
    let text = c.emit_ir_to_string();
    // Two bytes of content plus the terminator.
    assert!(text.contains("call ptr @rython_malloc(i64 3)"));
    assert!(text.contains("copybytes ptr"));
    assert!(text.contains("c\"hi\\00\""));
}

#[test]
fn float_literals_render_as_their_source_text() {
    let (c, errs) = compile("function f(x: float) -> float:\n    return x * 2.50");
    assert_eq!(errs.len(), 0);
    let text = c.emit_ir_to_string();
    assert!(text.contains("define double @f(double %r0)"));
    assert!(text.contains("fmul double"));
    assert!(text.contains("2.50"));
}

#[test]
fn float_function_without_return_returns_zero_constant() {
    let (c, errs) = compile("function f() -> float:\n    x: int = 1");
    assert_eq!(errs.len(), 0);
    assert!(c.emit_ir_to_string().contains("ret double 0.0"));
}

#[test]
fn parameters_spill_to_entry_slots() {
    let (c, errs) = compile("function add2(a: int, b: int) -> int:\n    return a + b");
    assert_eq!(errs.len(), 0);
    let text = c.emit_ir_to_string();
    assert!(text.contains("define i64 @add2(i64 %r0, i64 %r1)"));
    assert!(text.contains("store i64 %r0, ptr %r2"));
    assert!(text.contains("store i64 %r1, ptr %r3"));
}

#[test]
fn text_and_module_share_signatures_and_names() {
    // The text form and any object code come from the same module: every
    // compiled function's name and signature appears in the text exactly.
    let (c, errs) = compile(
        "function f(a: int) -> int:\n    return a\nfunction main() -> int:\n    return 3",
    );
    assert_eq!(errs.len(), 0);
    let text = c.emit_ir_to_string();
    for f in &c.module.funcs {
        assert!(text.contains(&format!("@{}(", f.name)));
    }
    assert!(text.contains("define i64 @f(i64 %r0)"));
    assert!(text.contains("define i64 @main()"));
}

#[test]
fn compilations_share_no_state() {
    // Two programs through two fresh compilers: the second module holds
    // no trace of the first program's names.
    let (c1, _) = compile("function one() -> int:\n    return 1");
    let (c2, _) = compile("function two() -> int:\n    return 2");
    assert!(c1.emit_ir_to_string().contains("@one"));
    assert!(!c2.emit_ir_to_string().contains("@one"));
    assert!(c2.emit_ir_to_string().contains("@two"));
}

#[test]
fn wrapping_multiplication_agrees_between_paths() {
    let src = "function main() -> int:\n    return 3037000500 * 3037000500";
    let p = parse_rython_code(src).unwrap();
    let (v, _) = run(&p);
    let (c, errs) = compile(src);
    assert_eq!(errs.len(), 0);
    let executed = execute_main(&c.module);
    match (v, executed) {
        (Some(Value::Int(a)), Some(b)) => assert_eq!(a, b),
        _ => panic!("both paths must produce a value"),
    }
}

#[test]
fn non_main_function_without_return_gets_implicit_zero() {
    // The text of the compiled function ends by returning the zero of
    // its declared type.
    let (c, errs) = compile("function f() -> int:\n    x: int = 5");
    assert_eq!(errs.len(), 0);
    assert_eq!(c.module.funcs.len(), 1);
    assert_eq!(c.module.funcs[0].name, "f");
    assert!(c.emit_ir_to_string().contains("ret i64 0"));
}

#[test]
fn string_function_without_return_returns_null() {
    let (c, errs) = compile("function f() -> str:\n    x: int = 1");
    assert_eq!(errs.len(), 0);
    assert!(c.emit_ir_to_string().contains("ret ptr null"));
}

#[test]
fn negative_constants_render_in_decimal() {
    let (c, errs) = compile("function main() -> int:\n    return 0 - 12");
    assert_eq!(errs.len(), 0);
    assert_eq!(execute_main(&c.module), Some(-12));
    assert!(c.emit_ir_to_string().contains("sub i64 0, 12"));
}

#[test]
fn quotes_and_backslashes_escape_in_the_text() {
    let (c, errs) = compile("function f() -> str:\n    return \"a\\b\"");
    assert_eq!(errs.len(), 0);
    assert!(c.emit_ir_to_string().contains("c\"a\\\\b\\00\""));
}
