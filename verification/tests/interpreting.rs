use rython::interp::{run, Diagnostic, Value};
use rython::parser::parse_rython_code;

#[test]
fn flat_precedence_evaluates_left_to_right() {
    // 42 + 8 * 2 is (42 + 8) * 2 = 100, not 58.
    let p = parse_rython_code("function main() -> int:\n    return 42 + 8 * 2").unwrap();
    let (v, diags) = run(&p);
    assert!(matches!(v, Some(Value::Int(100))));
    assert_eq!(diags.len(), 0);
}

#[test]
fn division_by_zero_yields_zero() {
    let p = parse_rython_code("function main() -> int:\n    return 5 / 0").unwrap();
    let (v, diags) = run(&p);
    assert!(matches!(v, Some(Value::Int(0))));
    assert_eq!(diags.len(), 0);
}

#[test]
fn division_truncates_toward_zero() {
    let p = parse_rython_code("function main() -> int:\n    return 0 - 7 / 2").unwrap();
    // (0 - 7) / 2 under the flat chain: -7 / 2 = -3.
    let (v, _) = run(&p);
    assert!(matches!(v, Some(Value::Int(-3))));
}

#[test]
fn unknown_call_reports_diagnostic_and_yields_zero() {
    let p = parse_rython_code("function main() -> int:\n    return missing(1, 2)").unwrap();
    let (v, diags) = run(&p);
    assert!(matches!(v, Some(Value::Int(0))));
    assert_eq!(diags.len(), 1);
    assert!(matches!(&diags[0], Diagnostic::UnknownCall { func } if func == "missing"));
}

#[test]
fn unbound_variable_silently_evaluates_to_zero() {
    let p = parse_rython_code("function main() -> int:\n    return nowhere + 1").unwrap();
    let (v, diags) = run(&p);
    assert!(matches!(v, Some(Value::Int(1))));
    assert_eq!(diags.len(), 0);
}

#[test]
fn declarations_bind_and_overwrite() {
    let p = parse_rython_code(
        "function main() -> int:\n    x: int = 3\n    x: int = 8\n    return x",
    )
    .unwrap();
    let (v, _) = run(&p);
    assert!(matches!(v, Some(Value::Int(8))));
}

#[test]
fn main_without_return_yields_no_value() {
    let p = parse_rython_code("function main() -> int:\n    x: int = 5").unwrap();
    let (v, diags) = run(&p);
    assert!(v.is_none());
    assert_eq!(diags.len(), 0);
}

#[test]
fn without_main_top_level_statements_run_for_effects_only() {
    let p = parse_rython_code("x: int = 1\nmissing(x)").unwrap();
    let (v, diags) = run(&p);
    assert!(v.is_none());
    assert_eq!(diags.len(), 1);
    assert!(matches!(&diags[0], Diagnostic::UnknownCall { func } if func == "missing"));
}

#[test]
fn string_value_is_returned_verbatim() {
    let p = parse_rython_code("function main() -> str:\n    return \"hi there\"").unwrap();
    let (v, _) = run(&p);
    match v {
        Some(Value::Str(s)) => assert_eq!(s, "hi there"),
        _ => panic!("expected a string value"),
    }
}

#[test]
fn non_integer_operands_report_diagnostic_and_yield_zero() {
    let p = parse_rython_code("function main() -> int:\n    return \"a\" + 1").unwrap();
    let (v, diags) = run(&p);
    assert!(matches!(v, Some(Value::Int(0))));
    assert_eq!(diags.len(), 1);
    assert!(matches!(&diags[0], Diagnostic::UnsupportedOperation));
}

#[test]
fn runs_share_no_environment() {
    // The first program binds x inside its main; the second refers to x,
    // which must still be unbound there (and so evaluate to 0).
    let p1 = parse_rython_code("function main() -> int:\n    x: int = 7\n    return x").unwrap();
    let p2 = parse_rython_code("function main() -> int:\n    return x").unwrap();
    let (v1, _) = run(&p1);
    assert!(matches!(v1, Some(Value::Int(7))));
    let (v2, d2) = run(&p2);
    assert!(matches!(v2, Some(Value::Int(0))));
    assert_eq!(d2.len(), 0);
}

#[test]
fn wrapping_addition_in_the_interpreter() {
    let p = parse_rython_code(
        "function main() -> int:\n    return 9223372036854775807 + 1",
    )
    .unwrap();
    let (v, _) = run(&p);
    assert!(matches!(v, Some(Value::Int(-9223372036854775808))));
}

#[test]
fn return_stops_execution_immediately() {
    let p = parse_rython_code(
        "function main() -> int:\n    return 1\n    missing()",
    );
    // A statement after `return` still parses; the interpreter never
    // reaches it, so no diagnostic is reported.
    let p = p.unwrap();
    let (v, diags) = run(&p);
    assert!(matches!(v, Some(Value::Int(1))));
    assert_eq!(diags.len(), 0);
}

#[test]
fn float_literal_flows_through_as_its_text() {
    let p = parse_rython_code("function main() -> float:\n    return 2.75").unwrap();
    let (v, _) = run(&p);
    match v {
        Some(Value::Float(t)) => assert_eq!(t, "2.75"),
        _ => panic!("expected the float literal's text"),
    }
}
