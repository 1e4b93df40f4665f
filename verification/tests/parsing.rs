use rython::ast::{Expr, Op, Statement, Type};
use rython::parser::{parse_rython_code, RythonParser};

fn chars(s: &str) -> usize {
    s.chars().count()
}

#[test]
fn parses_integer_literal() {
    let src = "42";
    let (e, next) = RythonParser::number(src, chars(src), 0).unwrap();
    assert!(matches!(e, Expr::Number(42)));
    assert_eq!(next, 2);
}

#[test]
fn parses_negative_integer_literal() {
    let src = "-17";
    let (e, _) = RythonParser::number(src, chars(src), 0).unwrap();
    assert!(matches!(e, Expr::Number(-17)));
}

#[test]
fn parses_extreme_integer_literals() {
    let src = "9223372036854775807";
    let (e, _) = RythonParser::number(src, chars(src), 0).unwrap();
    assert!(matches!(e, Expr::Number(9223372036854775807)));
    let src = "-9223372036854775808";
    let (e, _) = RythonParser::number(src, chars(src), 0).unwrap();
    assert!(matches!(e, Expr::Number(-9223372036854775808)));
}

#[test]
fn rejects_integer_literal_out_of_range() {
    let src = "9223372036854775808";
    let err = RythonParser::number(src, chars(src), 0).unwrap_err();
    assert_eq!(err.pos, 0);
    assert_eq!(err.msg, "integer literal out of range");
}

#[test]
fn parses_float_literal_as_text() {
    let src = "3.250";
    let (e, next) = RythonParser::float(src, chars(src), 0).unwrap();
    match e {
        Expr::Float(t) => assert_eq!(t, "3.250"),
        _ => panic!("expected a float literal"),
    }
    assert_eq!(next, 5);
}

#[test]
fn parses_string_literal_stripping_quotes() {
    let src = "\"hello\"";
    let (e, next) = RythonParser::string(src, chars(src), 0).unwrap();
    match e {
        Expr::String(s) => assert_eq!(s, "hello"),
        _ => panic!("expected a string literal"),
    }
    assert_eq!(next, 7);
}

#[test]
fn rejects_unterminated_string() {
    let src = "\"hello";
    let err = RythonParser::string(src, chars(src), 0).unwrap_err();
    assert_eq!(err.msg, "unterminated string literal");
}

#[test]
fn parses_type_names() {
    for (src, want) in [("int", Type::Int), ("float", Type::Float), ("str", Type::Str)] {
        let (t, _) = RythonParser::parse_type(src, chars(src), 0).unwrap();
        assert_eq!(t, want);
    }
    let err = RythonParser::parse_type("bool", 4, 0).unwrap_err();
    assert_eq!(err.msg, "expected type");
}

#[test]
fn operator_chain_is_flat_and_left_associative() {
    // 2 + 3 * 4 parses as (2 + 3) * 4: no precedence distinction.
    let src = "2 + 3 * 4";
    let (e, _) = RythonParser::expression(src, chars(src), 0).unwrap();
    match e {
        Expr::BinOp { left, op: Op::Mul, right } => {
            assert!(matches!(*right, Expr::Number(4)));
            match *left {
                Expr::BinOp { left: l2, op: Op::Add, right: r2 } => {
                    assert!(matches!(*l2, Expr::Number(2)));
                    assert!(matches!(*r2, Expr::Number(3)));
                },
                _ => panic!("expected the additive pair on the left"),
            }
        },
        _ => panic!("expected the multiplication at the top"),
    }
}

#[test]
fn parentheses_group_subexpressions() {
    let src = "2 + (3 * 4)";
    let (e, _) = RythonParser::expression(src, chars(src), 0).unwrap();
    match e {
        Expr::BinOp { left, op: Op::Add, right } => {
            assert!(matches!(*left, Expr::Number(2)));
            assert!(matches!(*right, Expr::BinOp { op: Op::Mul, .. }));
        },
        _ => panic!("expected the addition at the top"),
    }
}

#[test]
fn rejects_missing_closing_parenthesis() {
    let src = "(1 + 2";
    let err = RythonParser::expression(src, chars(src), 0).unwrap_err();
    assert_eq!(err.msg, "expected ')'");
}

#[test]
fn parses_call_with_arguments() {
    let src = "f(1, x)";
    let (e, _) = RythonParser::expression(src, chars(src), 0).unwrap();
    match e {
        Expr::Call { func, args } => {
            assert_eq!(func, "f");
            assert_eq!(args.len(), 2);
            assert!(matches!(args[0], Expr::Number(1)));
            assert!(matches!(&args[1], Expr::Var(n) if n == "x"));
        },
        _ => panic!("expected a call"),
    }
}

#[test]
fn rejects_unfinished_argument_list() {
    let src = "f(1";
    let err = RythonParser::expression(src, chars(src), 0).unwrap_err();
    assert_eq!(err.msg, "expected ',' or ')'");
}

#[test]
fn parses_variable_declaration() {
    let src = "x: int = 5";
    let p = parse_rython_code(src).unwrap();
    assert_eq!(p.body.len(), 1);
    match &p.body[0] {
        Statement::VarDecl(d) => {
            assert_eq!(d.name, "x");
            assert_eq!(d.type_def, Type::Int);
            assert!(matches!(d.value, Expr::Number(5)));
        },
        _ => panic!("expected a variable declaration"),
    }
}

#[test]
fn rejects_declaration_without_equals() {
    let src = "x: int 5";
    let err = parse_rython_code(src).unwrap_err();
    assert_eq!(err.msg, "expected '='");
}

#[test]
fn parses_function_definition() {
    let src = "function add2(a: int, b: int) -> int:\n    return a + b";
    let p = parse_rython_code(src).unwrap();
    assert_eq!(p.body.len(), 1);
    match &p.body[0] {
        Statement::FunctionDef(f) => {
            assert_eq!(f.name, "add2");
            assert_eq!(f.args.len(), 2);
            assert_eq!(f.args[0].0, "a");
            assert_eq!(f.args[0].1, Type::Int);
            assert_eq!(f.return_type, Type::Int);
            assert_eq!(f.body.len(), 1);
            assert!(matches!(f.body[0], Statement::Return(_)));
        },
        _ => panic!("expected a function definition"),
    }
}

#[test]
fn function_body_spans_indented_lines_only() {
    let src = "function f() -> int:\n    x: int = 1\n    return x\ny: int = 2";
    let p = parse_rython_code(src).unwrap();
    assert_eq!(p.body.len(), 2);
    match &p.body[0] {
        Statement::FunctionDef(f) => assert_eq!(f.body.len(), 2),
        _ => panic!("expected a function definition first"),
    }
    assert!(matches!(&p.body[1], Statement::VarDecl(_)));
}

#[test]
fn rejects_function_without_indented_block() {
    let src = "function f() -> int:\nreturn 1";
    let err = parse_rython_code(src).unwrap_err();
    assert_eq!(err.msg, "expected indented block");
}

#[test]
fn rejects_unexpected_character() {
    let src = "?";
    let err = parse_rython_code(src).unwrap_err();
    assert_eq!(err.msg, "expected expression");
    assert_eq!(err.pos, 0);
}

#[test]
fn rejects_trailing_junk_on_line() {
    let src = "1 2";
    let err = parse_rython_code(src).unwrap_err();
    assert_eq!(err.msg, "expected end of line");
}

#[test]
fn empty_source_is_the_empty_program() {
    let p = parse_rython_code("").unwrap();
    assert_eq!(p.body.len(), 0);
    let p = parse_rython_code("\n\n   \n").unwrap();
    assert_eq!(p.body.len(), 0);
}

#[test]
fn parsing_is_deterministic() {
    // Parsing identical text twice yields structurally equal trees; the
    // rendered compilations of the two trees coincide exactly.
    let src = "function main() -> int:\n    return 42 + 8 * 2";
    let p1 = parse_rython_code(src).unwrap();
    let p2 = parse_rython_code(src).unwrap();
    let mut c1 = rython::codegen::Compiler::new("m");
    let mut c2 = rython::codegen::Compiler::new("m");
    c1.compile_program(&p1);
    c2.compile_program(&p2);
    assert_eq!(c1.emit_ir_to_string(), c2.emit_ir_to_string());
}
