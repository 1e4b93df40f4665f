//! The recursive-descent parser: source text in, syntax tree out.
//!
//! The grammar, written here once for both the mathematical parser and the
//! executable one (`expr` below abbreviates `expression`):
//!
//! ```text
//! program    = { blank-line* toplevel line-end }* EOI
//! toplevel   = function-def | simple-stmt          (at column 0)
//! function-def = "function" ident "(" params? ")" "->" type ":" NEWLINE block
//! params     = param { "," param }*
//! param      = ident ":" type
//! block      = { INDENT simple-stmt line-end }+    (every body line starts
//!              with a space or tab; the block ends before the newline
//!              that precedes the first line that does not)
//! simple-stmt = "return" expr | ident ":" type "=" expr | expr
//! expr       = term { op term }*                   (flat precedence: all
//!              four operators bind alike, strictly left-associative)
//! op         = "+" | "-" | "*" | "/"
//! term       = float | number | string | call | var-ref | "(" expr ")"
//! call       = ident "(" { expr ("," expr)* }? ")"
//! number     = "-"? digit+                         (must fit in an i64)
//! float      = "-"? digit+ "." digit+              (kept as text)
//! string     = '"' any-char-but-quote* '"'
//! ident      = (alpha | "_") (alpha | digit | "_")*
//! type       = "int" | "float" | "str"
//! ```
//!
//! Spaces, tabs and carriage returns may stand between tokens within a
//! line; newlines end statements. Function definitions stand at the top
//! level only. The parser performs no semantic validation: undefined names
//! and type mismatches are the later passes' business. It fails with a
//! `ParseError` carrying the offending position (in characters) and a
//! message on malformed literals, unexpected characters and missing closing
//! tokens.
//!
//! Every executable entry point is proved to return exactly what the
//! mathematical parser (`sp_program` and friends) returns, so parsing is a
//! function of the source text alone: parsing identical text twice yields
//! structurally equal trees.

use vstd::prelude::*;
use vstd::string::StrSliceExecFns;

use crate::ast::{Expr, ExprV, FunctionDefV, Op, Program, ProgramV, Statement, StatementV};
use crate::ast::{Type, VarDeclV};

verus! {

broadcast use vstd::std_specs::vec::group_vec_axioms;

/// A parse failure: the position (in characters from the start of the
/// source) where parsing stopped, and what was expected there.
#[derive(Debug)]
pub struct ParseError {
    pub pos: usize,
    pub msg: String,
}

/// Ghost mirror of `ParseError`.
pub ghost struct ParseErrV {
    pub pos: int,
    pub msg: Seq<char>,
}

impl DeepView for ParseError {
    type V = ParseErrV;

    open spec fn deep_view(&self) -> ParseErrV {
        ParseErrV { pos: self.pos as int, msg: self.msg@ }
    }
}

/// Relates an executable parse result to the mathematical one.
pub open spec fn matches_parse<T: DeepView>(
    r: Result<(T, usize), ParseError>,
    sr: Result<(T::V, int), ParseErrV>,
    len: int,
) -> bool {
    match (r, sr) {
        (Ok((v, j)), Ok((sv, sj))) => v.deep_view() == sv && j == sj && j <= len,
        (Err(pe), Err(se)) => pe.deep_view() == se,
        _ => false,
    }
}

pub open spec fn perr(pos: int, msg: Seq<char>) -> ParseErrV {
    ParseErrV { pos, msg }
}

/// The parser. Its associated functions each recognize one grammar rule;
/// they take the source, its length in characters, and the position to
/// start at, and return what they parsed together with the position after
/// it.
pub struct RythonParser;

// ---------------------------------------------------------------------
// Character classes.
// ---------------------------------------------------------------------

pub open spec fn is_sp(c: char) -> bool {
    c == ' ' || c == '\t' || c == '\r'
}

pub open spec fn is_digit(c: char) -> bool {
    '0' <= c && c <= '9'
}

pub open spec fn is_alpha(c: char) -> bool {
    ('a' <= c && c <= 'z') || ('A' <= c && c <= 'Z')
}

pub open spec fn is_ident_start(c: char) -> bool {
    is_alpha(c) || c == '_'
}

pub open spec fn is_ident_char(c: char) -> bool {
    is_ident_start(c) || is_digit(c)
}

pub open spec fn is_op_char(c: char) -> bool {
    c == '+' || c == '-' || c == '*' || c == '/'
}

pub open spec fn op_of(c: char) -> Op {
    if c == '+' {
        Op::Add
    } else if c == '-' {
        Op::Sub
    } else if c == '*' {
        Op::Mul
    } else {
        Op::Div
    }
}

// ---------------------------------------------------------------------
// Scanners. Each is written as `start + count` so that the result is
// never below the start position.
// ---------------------------------------------------------------------

/// The number of characters left at position `i`, clamped at zero: the
/// termination measure of the recursive parsers.
pub open spec fn rem(s: Seq<char>, i: int) -> nat {
    if i <= s.len() {
        (s.len() - i) as nat
    } else {
        0
    }
}

pub open spec fn count_sp(s: Seq<char>, i: int) -> nat
    decreases s.len() - i,
{
    if 0 <= i < s.len() && is_sp(s[i]) {
        1 + count_sp(s, i + 1)
    } else {
        0
    }
}

/// The first position at or after `i` holding no space, tab or carriage
/// return.
pub open spec fn sp_skip_sp(s: Seq<char>, i: int) -> int {
    i + count_sp(s, i)
}

pub open spec fn count_blank(s: Seq<char>, i: int) -> nat
    decreases s.len() - i,
{
    if 0 <= i < s.len() && (is_sp(s[i]) || s[i] == '\n') {
        1 + count_blank(s, i + 1)
    } else {
        0
    }
}

/// The first position at or after `i` holding neither whitespace nor a
/// newline.
pub open spec fn sp_skip_blank(s: Seq<char>, i: int) -> int {
    i + count_blank(s, i)
}

pub open spec fn count_digits(s: Seq<char>, i: int) -> nat
    decreases s.len() - i,
{
    if 0 <= i < s.len() && is_digit(s[i]) {
        1 + count_digits(s, i + 1)
    } else {
        0
    }
}

/// The end of the run of digits starting at `i`.
pub open spec fn sp_scan_digits(s: Seq<char>, i: int) -> int {
    i + count_digits(s, i)
}

pub open spec fn count_ident(s: Seq<char>, i: int) -> nat
    decreases s.len() - i,
{
    if 0 <= i < s.len() && is_ident_char(s[i]) {
        1 + count_ident(s, i + 1)
    } else {
        0
    }
}

/// The end of the run of identifier characters starting at `i`.
pub open spec fn sp_scan_ident(s: Seq<char>, i: int) -> int {
    i + count_ident(s, i)
}

pub open spec fn count_nonquote(s: Seq<char>, i: int) -> nat
    decreases s.len() - i,
{
    if 0 <= i < s.len() && s[i] != '"' {
        1 + count_nonquote(s, i + 1)
    } else {
        0
    }
}

/// The position of the next double quote at or after `i`, or the end of
/// the input if there is none.
pub open spec fn sp_scan_string(s: Seq<char>, i: int) -> int {
    i + count_nonquote(s, i)
}

/// The keyword `kw` stands at `i`, not run together with a following
/// identifier character.
pub open spec fn sp_has_kw(s: Seq<char>, i: int, kw: Seq<char>) -> bool {
    &&& 0 <= i
    &&& i + kw.len() <= s.len()
    &&& s.subrange(i, i + kw.len()) == kw
    &&& (i + kw.len() == s.len() || !is_ident_char(s[i + kw.len()]))
}

// ---------------------------------------------------------------------
// Literals, identifiers, types.
// ---------------------------------------------------------------------

/// The value of the digit run `s[i..j)`, read in base ten.
pub open spec fn sp_digits_val(s: Seq<char>, i: int, j: int) -> int
    decreases j - i,
{
    if i < j {
        sp_digits_val(s, i, j - 1) * 10 + (s[j - 1] as int - '0' as int)
    } else {
        0
    }
}

/// Parses an integer literal at `i` (the caller has seen a digit, or a
/// minus sign followed by a digit). Fails when the value does not fit in
/// an `i64`.
pub open spec fn sp_number(s: Seq<char>, i: int) -> Result<(ExprV, int), ParseErrV> {
    let neg = 0 <= i < s.len() && s[i] == '-';
    let d0 = if neg {
        i + 1
    } else {
        i
    };
    let e1 = sp_scan_digits(s, d0);
    let v = sp_digits_val(s, d0, e1);
    let sv = if neg {
        -v
    } else {
        v
    };
    if sv < i64::MIN || sv > i64::MAX {
        Err(perr(i, "integer literal out of range"@))
    } else {
        Ok((ExprV::Number(sv as i64), e1))
    }
}

/// Parses a float literal at `i`: digits, a dot, digits. The literal is
/// kept as its text.
pub open spec fn sp_float(s: Seq<char>, i: int) -> Result<(ExprV, int), ParseErrV> {
    let neg = 0 <= i < s.len() && s[i] == '-';
    let d0 = if neg {
        i + 1
    } else {
        i
    };
    let e1 = sp_scan_digits(s, d0);
    let e2 = sp_scan_digits(s, e1 + 1);
    Ok((ExprV::Float(s.subrange(i, e2)), e2))
}

/// True when the digit run beginning at `i` continues as a float literal:
/// a dot with a digit after it.
pub open spec fn sp_is_float_at(s: Seq<char>, i: int) -> bool {
    let neg = 0 <= i < s.len() && s[i] == '-';
    let d0 = if neg {
        i + 1
    } else {
        i
    };
    let e1 = sp_scan_digits(s, d0);
    e1 < s.len() && s[e1] == '.' && e1 + 1 < s.len() && is_digit(s[e1 + 1])
}

/// Parses a string literal at `i` (`s[i]` is the opening quote). No escape
/// processing: the text up to the next quote, quotes stripped.
pub open spec fn sp_string(s: Seq<char>, i: int) -> Result<(ExprV, int), ParseErrV> {
    let j = sp_scan_string(s, i + 1);
    if j < s.len() {
        Ok((ExprV::String(s.subrange(i + 1, j)), j + 1))
    } else {
        Err(perr(i, "unterminated string literal"@))
    }
}

/// Parses an identifier at `i`.
pub open spec fn sp_ident(s: Seq<char>, i: int) -> Result<(Seq<char>, int), ParseErrV> {
    if 0 <= i < s.len() && is_ident_start(s[i]) {
        let j = sp_scan_ident(s, i);
        Ok((s.subrange(i, j), j))
    } else {
        Err(perr(i, "expected identifier"@))
    }
}

/// Parses one of the three type names at `i`.
pub open spec fn sp_type(s: Seq<char>, i: int) -> Result<(Type, int), ParseErrV> {
    match sp_ident(s, i) {
        Err(_) => Err(perr(i, "expected type"@)),
        Ok((id, j)) => {
            if id == "int"@ {
                Ok((Type::Int, j))
            } else if id == "float"@ {
                Ok((Type::Float, j))
            } else if id == "str"@ {
                Ok((Type::Str, j))
            } else {
                Err(perr(i, "expected type"@))
            }
        },
    }
}

// ---------------------------------------------------------------------
// Expressions. The family below is mutually recursive; the measures are
// lexicographic on (characters left, grammar rank). A few branches guard
// a recursion on "the sub-parser advanced", which every sub-parser in
// fact does; the guards keep the recursion well-founded by construction
// and are never taken.
// ---------------------------------------------------------------------

/// Parses a term: a literal, a call, a variable reference or a
/// parenthesized expression.
pub open spec fn sp_term(s: Seq<char>, i: int) -> Result<(ExprV, int), ParseErrV>
    decreases rem(s, i), 2int,
{
    if i >= s.len() || i < 0 {
        Err(perr(i, "expected expression"@))
    } else if s[i] == '"' {
        sp_string(s, i)
    } else if is_digit(s[i]) || (s[i] == '-' && i + 1 < s.len() && is_digit(s[i + 1])) {
        if sp_is_float_at(s, i) {
            sp_float(s, i)
        } else {
            sp_number(s, i)
        }
    } else if s[i] == '(' {
        let j = sp_skip_sp(s, i + 1);
        match sp_expression(s, j) {
            Err(e) => Err(e),
            Ok((e, k)) => {
                let m = sp_skip_sp(s, k);
                if m < s.len() && s[m] == ')' {
                    Ok((e, m + 1))
                } else {
                    Err(perr(m, "expected ')'"@))
                }
            },
        }
    } else if is_ident_start(s[i]) {
        let j = sp_scan_ident(s, i);
        let name = s.subrange(i, j);
        let j2 = sp_skip_sp(s, j);
        if j2 < s.len() && s[j2] == '(' {
            sp_call_args(s, j2 + 1, name)
        } else {
            Ok((ExprV::Var(name), j))
        }
    } else {
        Err(perr(i, "expected expression"@))
    }
}

/// Parses the arguments of a call whose opening parenthesis has just been
/// consumed.
pub open spec fn sp_call_args(s: Seq<char>, i: int, func: Seq<char>) -> Result<
    (ExprV, int),
    ParseErrV,
>
    decreases rem(s, i), 6int,
{
    let j = sp_skip_sp(s, i);
    if j < s.len() && s[j] == ')' {
        Ok((ExprV::Call { func, args: Seq::empty() }, j + 1))
    } else {
        match sp_expression(s, j) {
            Err(e) => Err(e),
            Ok((a, k)) => {
                if k >= i {
                    sp_call_args_rest(s, k, func, seq![a])
                } else {
                    Err(perr(j, "expected expression"@))
                }
            },
        }
    }
}

/// Parses `, expression` pairs until the closing parenthesis.
pub open spec fn sp_call_args_rest(s: Seq<char>, i: int, func: Seq<char>, acc: Seq<ExprV>) -> Result<
    (ExprV, int),
    ParseErrV,
>
    decreases rem(s, i), 5int,
{
    let m = sp_skip_sp(s, i);
    if m < s.len() && s[m] == ',' {
        let n = sp_skip_sp(s, m + 1);
        match sp_expression(s, n) {
            Err(e) => Err(e),
            Ok((a, k)) => {
                if k > i {
                    sp_call_args_rest(s, k, func, acc.push(a))
                } else {
                    Err(perr(n, "expected expression"@))
                }
            },
        }
    } else if m < s.len() && s[m] == ')' {
        Ok((ExprV::Call { func, args: acc }, m + 1))
    } else {
        Err(perr(m, "expected ',' or ')'"@))
    }
}

/// Parses an expression: a term followed by any number of `op term`
/// pairs, folded strictly left to right with no precedence distinction.
pub open spec fn sp_expression(s: Seq<char>, i: int) -> Result<(ExprV, int), ParseErrV>
    decreases rem(s, i), 4int,
{
    match sp_term(s, i) {
        Err(e) => Err(e),
        Ok((e1, j)) => {
            if j >= i {
                sp_expr_rest(s, e1, j)
            } else {
                Err(perr(i, "expected expression"@))
            }
        },
    }
}

/// Folds `op term` pairs onto an already-parsed left operand.
pub open spec fn sp_expr_rest(s: Seq<char>, acc: ExprV, j: int) -> Result<(ExprV, int), ParseErrV>
    decreases rem(s, j), 3int,
{
    let m = sp_skip_sp(s, j);
    if m < s.len() && is_op_char(s[m]) {
        let n = sp_skip_sp(s, m + 1);
        match sp_term(s, n) {
            Err(e) => Err(e),
            Ok((e2, k)) => {
                if k > j {
                    sp_expr_rest(
                        s,
                        ExprV::BinOp {
                            left: Box::new(acc),
                            op: op_of(s[m]),
                            right: Box::new(e2),
                        },
                        k,
                    )
                } else {
                    Err(perr(n, "expected expression"@))
                }
            },
        }
    } else {
        Ok((acc, j))
    }
}

// ---------------------------------------------------------------------
// Statements and programs.
// ---------------------------------------------------------------------

/// Parses a simple statement: a return statement, a variable declaration
/// or an expression statement.
pub open spec fn sp_simple_stmt(s: Seq<char>, i: int) -> Result<(StatementV, int), ParseErrV> {
    if sp_has_kw(s, i, "return"@) {
        let j = sp_skip_sp(s, i + 6);
        match sp_expression(s, j) {
            Err(e) => Err(e),
            Ok((e, k)) => Ok((StatementV::Return(e), k)),
        }
    } else if 0 <= i < s.len() && is_ident_start(s[i]) {
        let j = sp_scan_ident(s, i);
        let m = sp_skip_sp(s, j);
        if m < s.len() && s[m] == ':' {
            let name = s.subrange(i, j);
            let p = sp_skip_sp(s, m + 1);
            match sp_type(s, p) {
                Err(e) => Err(e),
                Ok((t, q)) => {
                    let u = sp_skip_sp(s, q);
                    if u < s.len() && s[u] == '=' {
                        let w = sp_skip_sp(s, u + 1);
                        match sp_expression(s, w) {
                            Err(e) => Err(e),
                            Ok((e, k)) => Ok(
                                (
                                    StatementV::VarDecl(
                                        VarDeclV { name, type_def: t, value: e },
                                    ),
                                    k,
                                ),
                            ),
                        }
                    } else {
                        Err(perr(u, "expected '='"@))
                    }
                },
            }
        } else {
            match sp_expression(s, i) {
                Err(e) => Err(e),
                Ok((e, k)) => Ok((StatementV::Expr(e), k)),
            }
        }
    } else {
        match sp_expression(s, i) {
            Err(e) => Err(e),
            Ok((e, k)) => Ok((StatementV::Expr(e), k)),
        }
    }
}

/// Parses one parameter `name: type`.
pub open spec fn sp_param(s: Seq<char>, i: int) -> Result<((Seq<char>, Type), int), ParseErrV> {
    match sp_ident(s, i) {
        Err(e) => Err(e),
        Ok((name, j)) => {
            let m = sp_skip_sp(s, j);
            if m < s.len() && s[m] == ':' {
                let p = sp_skip_sp(s, m + 1);
                match sp_type(s, p) {
                    Err(e) => Err(e),
                    Ok((t, q)) => Ok(((name, t), q)),
                }
            } else {
                Err(perr(m, "expected ':'"@))
            }
        },
    }
}

/// Parses `, param` pairs; stops (without consuming) before anything that
/// is not a comma.
pub open spec fn sp_params_rest(s: Seq<char>, i: int, acc: Seq<(Seq<char>, Type)>) -> Result<
    (Seq<(Seq<char>, Type)>, int),
    ParseErrV,
>
    decreases rem(s, i),
{
    let m = sp_skip_sp(s, i);
    if m < s.len() && s[m] == ',' {
        let p = sp_skip_sp(s, m + 1);
        match sp_param(s, p) {
            Err(e) => Err(e),
            Ok((pr, q)) => {
                if q > i {
                    sp_params_rest(s, q, acc.push(pr))
                } else {
                    Err(perr(p, "expected identifier"@))
                }
            },
        }
    } else {
        Ok((acc, i))
    }
}

/// Parses a possibly empty parameter list, stopping before the closing
/// parenthesis.
pub open spec fn sp_params(s: Seq<char>, i: int) -> Result<
    (Seq<(Seq<char>, Type)>, int),
    ParseErrV,
> {
    let j = sp_skip_sp(s, i);
    if j < s.len() && s[j] == ')' {
        Ok((Seq::empty(), j))
    } else {
        match sp_param(s, j) {
            Err(e) => Err(e),
            Ok((pr, q)) => sp_params_rest(s, q, seq![pr]),
        }
    }
}

/// Parses a block: one or more lines that begin with a space or a tab,
/// each holding one simple statement. The block ends at the first line
/// that starts in column zero (or at the end of the input).
pub open spec fn sp_block(s: Seq<char>, i: int) -> Result<(Seq<StatementV>, int), ParseErrV>
    decreases rem(s, i),
{
    if 0 <= i < s.len() && is_sp(s[i]) {
        let j = sp_skip_sp(s, i);
        if j >= s.len() || s[j] == '\n' {
            Err(perr(j, "expected statement"@))
        } else {
            match sp_simple_stmt(s, j) {
                Err(e) => Err(e),
                Ok((st, k)) => {
                    let m = sp_skip_sp(s, k);
                    if m >= s.len() {
                        Ok((seq![st], m))
                    } else if s[m] == '\n' {
                        if m + 1 < s.len() && is_sp(s[m + 1]) {
                            if m + 1 > i {
                                match sp_block(s, m + 1) {
                                    Err(e) => Err(e),
                                    Ok((sts, end)) => Ok((seq![st] + sts, end)),
                                }
                            } else {
                                Err(perr(m, "expected end of line"@))
                            }
                        } else {
                            Ok((seq![st], m))
                        }
                    } else {
                        Err(perr(m, "expected end of line"@))
                    }
                },
            }
        }
    } else {
        Ok((Seq::empty(), i))
    }
}

/// Parses a function definition beginning at the `function` keyword.
pub open spec fn sp_function_def(s: Seq<char>, i: int) -> Result<(StatementV, int), ParseErrV> {
    let j = sp_skip_sp(s, i + 8);
    match sp_ident(s, j) {
        Err(e) => Err(e),
        Ok((name, k)) => {
            let m = sp_skip_sp(s, k);
            if !(m < s.len() && s[m] == '(') {
                Err(perr(m, "expected '('"@))
            } else {
                match sp_params(s, m + 1) {
                    Err(e) => Err(e),
                    Ok((ps, q)) => {
                        let c = sp_skip_sp(s, q);
                        if !(c < s.len() && s[c] == ')') {
                            Err(perr(c, "expected ')'"@))
                        } else {
                            let a = sp_skip_sp(s, c + 1);
                            if !(a + 1 < s.len() && s[a] == '-' && s[a + 1] == '>') {
                                Err(perr(a, "expected '->'"@))
                            } else {
                                let t0 = sp_skip_sp(s, a + 2);
                                match sp_type(s, t0) {
                                    Err(e) => Err(e),
                                    Ok((rt, b)) => {
                                        let d = sp_skip_sp(s, b);
                                        if !(d < s.len() && s[d] == ':') {
                                            Err(perr(d, "expected ':'"@))
                                        } else {
                                            let nl = sp_skip_sp(s, d + 1);
                                            if !(nl < s.len() && s[nl] == '\n') {
                                                Err(perr(nl, "expected line break"@))
                                            } else {
                                                match sp_block(s, nl + 1) {
                                                    Err(e) => Err(e),
                                                    Ok((body, end)) => {
                                                        if body.len() == 0 {
                                                            Err(
                                                                perr(
                                                                    nl + 1,
                                                                    "expected indented block"@,
                                                                ),
                                                            )
                                                        } else {
                                                            Ok(
                                                                (
                                                                    StatementV::FunctionDef(
                                                                        FunctionDefV {
                                                                            name,
                                                                            args: ps,
                                                                            return_type: rt,
                                                                            body,
                                                                        },
                                                                    ),
                                                                    end,
                                                                ),
                                                            )
                                                        }
                                                    },
                                                }
                                            }
                                        }
                                    },
                                }
                            }
                        }
                    },
                }
            }
        },
    }
}

/// Parses one top-level statement.
pub open spec fn sp_toplevel(s: Seq<char>, i: int) -> Result<(StatementV, int), ParseErrV> {
    if sp_has_kw(s, i, "function"@) {
        sp_function_def(s, i)
    } else {
        sp_simple_stmt(s, i)
    }
}

/// Parses a whole program: top-level statements separated by line ends,
/// with blank lines skipped, down to the end of the input.
pub open spec fn sp_program(s: Seq<char>, i: int) -> Result<(Seq<StatementV>, int), ParseErrV>
    decreases rem(s, i),
{
    let j = sp_skip_blank(s, i);
    if j >= s.len() {
        Ok((Seq::empty(), j))
    } else {
        match sp_toplevel(s, j) {
            Err(e) => Err(e),
            Ok((st, k)) => {
                let m = sp_skip_sp(s, k);
                if m >= s.len() || s[m] == '\n' {
                    let m2 = if m < s.len() {
                        m + 1
                    } else {
                        m
                    };
                    if m2 > i {
                        match sp_program(s, m2) {
                            Err(e) => Err(e),
                            Ok((rest, end)) => Ok((seq![st] + rest, end)),
                        }
                    } else {
                        Err(perr(m, "expected end of line"@))
                    }
                } else {
                    Err(perr(m, "expected end of line"@))
                }
            },
        }
    }
}

/// The mathematical meaning of `parse_rython_code`.
pub open spec fn sp_parse(s: Seq<char>) -> Result<ProgramV, ParseErrV> {
    match sp_program(s, 0) {
        Err(e) => Err(e),
        Ok((body, _)) => Ok(ProgramV { body }),
    }
}

// ---------------------------------------------------------------------
// Executable character tests.
// ---------------------------------------------------------------------

fn ch_is_sp(c: char) -> (r: bool)
    ensures
        r == is_sp(c),
{
    c == ' ' || c == '\t' || c == '\r'
}

fn ch_is_digit(c: char) -> (r: bool)
    ensures
        r == is_digit(c),
{
    let u = c as u32;
    48 <= u && u <= 57
}

fn ch_is_ident_start(c: char) -> (r: bool)
    ensures
        r == is_ident_start(c),
{
    let u = c as u32;
    (97 <= u && u <= 122) || (65 <= u && u <= 90) || c == '_'
}

fn ch_is_ident_char(c: char) -> (r: bool)
    ensures
        r == is_ident_char(c),
{
    ch_is_ident_start(c) || ch_is_digit(c)
}

fn ch_is_op(c: char) -> (r: bool)
    ensures
        r == is_op_char(c),
{
    c == '+' || c == '-' || c == '*' || c == '/'
}

fn ch_op(c: char) -> (r: Op)
    ensures
        r == op_of(c),
{
    if c == '+' {
        Op::Add
    } else if c == '-' {
        Op::Sub
    } else if c == '*' {
        Op::Mul
    } else {
        Op::Div
    }
}

// ---------------------------------------------------------------------
// Executable scanners.
// ---------------------------------------------------------------------

fn skip_spaces(s: &str, len: usize, pos: usize) -> (r: usize)
    requires
        len == s@.len(),
        pos <= len,
    ensures
        r as int == sp_skip_sp(s@, pos as int),
        pos <= r <= len,
    decreases len - pos,
{
    if pos < len {
        let c = s.get_char(pos);
        if ch_is_sp(c) {
            return skip_spaces(s, len, pos + 1);
        }
    }
    pos
}

fn skip_blanks(s: &str, len: usize, pos: usize) -> (r: usize)
    requires
        len == s@.len(),
        pos <= len,
    ensures
        r as int == sp_skip_blank(s@, pos as int),
        pos <= r <= len,
    decreases len - pos,
{
    if pos < len {
        let c = s.get_char(pos);
        if ch_is_sp(c) || c == '\n' {
            return skip_blanks(s, len, pos + 1);
        }
    }
    pos
}

fn scan_digits(s: &str, len: usize, pos: usize) -> (r: usize)
    requires
        len == s@.len(),
        pos <= len,
    ensures
        r as int == sp_scan_digits(s@, pos as int),
        pos <= r <= len,
        forall|t: int| pos <= t < r ==> is_digit(s@[t]),
    decreases len - pos,
{
    if pos < len {
        let c = s.get_char(pos);
        if ch_is_digit(c) {
            return scan_digits(s, len, pos + 1);
        }
    }
    pos
}

fn scan_ident(s: &str, len: usize, pos: usize) -> (r: usize)
    requires
        len == s@.len(),
        pos <= len,
    ensures
        r as int == sp_scan_ident(s@, pos as int),
        pos <= r <= len,
    decreases len - pos,
{
    if pos < len {
        let c = s.get_char(pos);
        if ch_is_ident_char(c) {
            return scan_ident(s, len, pos + 1);
        }
    }
    pos
}

fn scan_string_body(s: &str, len: usize, pos: usize) -> (r: usize)
    requires
        len == s@.len(),
        pos <= len,
    ensures
        r as int == sp_scan_string(s@, pos as int),
        pos <= r <= len,
    decreases len - pos,
{
    if pos < len {
        let c = s.get_char(pos);
        if c != '"' {
            return scan_string_body(s, len, pos + 1);
        }
    }
    pos
}

/// True when the characters of `kw` stand at `pos`.
#[verifier::loop_isolation(false)]
fn lit_at(s: &str, len: usize, pos: usize, kw: &str, kwlen: usize) -> (r: bool)
    requires
        len == s@.len(),
        kwlen == kw@.len(),
        pos <= len,
    ensures
        r == (pos + kwlen <= len && s@.subrange(pos as int, pos as int + kwlen as int)
            == kw@),
{
    if kwlen > len - pos {
        return false;
    }
    let mut k: usize = 0;
    while k < kwlen
        invariant
            k <= kwlen,
            forall|t: int| 0 <= t < k ==> s@[pos + t] == kw@[t],
        decreases kwlen - k,
    {
        if s.get_char(pos + k) != kw.get_char(k) {
            proof {
                assert(s@.subrange(pos as int, pos as int + kwlen as int)[k as int] == s@[pos
                    + k]);
            }
            return false;
        }
        k += 1;
    }
    proof {
        assert(s@.subrange(pos as int, pos as int + kwlen as int) =~= kw@);
    }
    true
}

/// True when the keyword `kw` stands at `pos`, with a boundary after it.
fn has_kw(s: &str, len: usize, pos: usize, kw: &str, kwlen: usize) -> (r: bool)
    requires
        len == s@.len(),
        kwlen == kw@.len(),
        pos <= len,
    ensures
        r == sp_has_kw(s@, pos as int, kw@),
{
    if !lit_at(s, len, pos, kw, kwlen) {
        return false;
    }
    if pos + kwlen < len {
        let c = s.get_char(pos + kwlen);
        if ch_is_ident_char(c) {
            return false;
        }
    }
    true
}

// ---------------------------------------------------------------------
// Executable literal, identifier and type parsers.
// ---------------------------------------------------------------------

/// The value of the digit run `s[i..j)`, or `None` when it exceeds
/// `2^63` (the largest magnitude an `i64` literal can carry).
fn digits_val(s: &str, len: usize, i: usize, j: usize) -> (r: Option<u64>)
    requires
        len == s@.len(),
        i <= j <= len,
        forall|t: int| i <= t < j ==> is_digit(s@[t]),
    ensures
        match r {
            Some(v) => v <= 9223372036854775808u64 && v as int == sp_digits_val(
                s@,
                i as int,
                j as int,
            ),
            None => sp_digits_val(s@, i as int, j as int) > 9223372036854775808,
        },
    decreases j - i,
{
    if j == i {
        Some(0)
    } else {
        let prev = digits_val(s, len, i, j - 1);
        let c = s.get_char(j - 1);
        proof {
            assert(is_digit(s@[j - 1]));
        }
        let d = (c as u32 - 48) as u64;
        proof {
            assert(d as int == s@[j - 1] as int - '0' as int);
            assert(d <= 9);
        }
        match prev {
            None => None,
            Some(v) => {
                if v > 922337203685477580u64 {
                    None
                } else {
                    let nv = v * 10 + d;
                    if nv > 9223372036854775808u64 {
                        None
                    } else {
                        Some(nv)
                    }
                }
            },
        }
    }
}

impl RythonParser {
    /// Parses an identifier.
    pub fn identifier(s: &str, len: usize, pos: usize) -> (r: Result<(String, usize), ParseError>)
        requires
            len == s@.len(),
            pos <= len,
        ensures
            matches_parse(r, sp_ident(s@, pos as int), len as int),
    {
        if pos < len {
            let c = s.get_char(pos);
            if ch_is_ident_start(c) {
                let j = scan_ident(s, len, pos);
                let name = s.substring_char(pos, j).to_owned();
                return Ok((name, j));
            }
        }
        Err(ParseError { pos, msg: "expected identifier".to_owned() })
    }

    /// Parses an integer literal.
    pub fn number(s: &str, len: usize, pos: usize) -> (r: Result<(Expr, usize), ParseError>)
        requires
            len == s@.len(),
            pos <= len,
        ensures
            matches_parse(r, sp_number(s@, pos as int), len as int),
    {
        let neg = pos < len && s.get_char(pos) == '-';
        let d0 = if neg {
            pos + 1
        } else {
            pos
        };
        let e1 = scan_digits(s, len, d0);
        match digits_val(s, len, d0, e1) {
            None => Err(ParseError { pos, msg: "integer literal out of range".to_owned() }),
            Some(v) => {
                if neg {
                    let n: i64 = if v == 9223372036854775808u64 {
                        i64::MIN
                    } else {
                        -(v as i64)
                    };
                    Ok((Expr::Number(n), e1))
                } else {
                    if v > 9223372036854775807u64 {
                        Err(
                            ParseError {
                                pos,
                                msg: "integer literal out of range".to_owned(),
                            },
                        )
                    } else {
                        Ok((Expr::Number(v as i64), e1))
                    }
                }
            },
        }
    }

    /// Parses a float literal, keeping its text.
    pub fn float(s: &str, len: usize, pos: usize) -> (r: Result<(Expr, usize), ParseError>)
        requires
            len == s@.len(),
            pos <= len,
            sp_is_float_at(s@, pos as int),
        ensures
            matches_parse(r, sp_float(s@, pos as int), len as int),
    {
        let neg = pos < len && s.get_char(pos) == '-';
        let d0 = if neg {
            pos + 1
        } else {
            pos
        };
        let e1 = scan_digits(s, len, d0);
        let e2 = scan_digits(s, len, e1 + 1);
        let text = s.substring_char(pos, e2).to_owned();
        Ok((Expr::Float(text), e2))
    }

    /// Parses a string literal; no escape processing, quotes stripped.
    pub fn string(s: &str, len: usize, pos: usize) -> (r: Result<(Expr, usize), ParseError>)
        requires
            len == s@.len(),
            pos < len,
        ensures
            matches_parse(r, sp_string(s@, pos as int), len as int),
    {
        let j = scan_string_body(s, len, pos + 1);
        if j < len {
            let content = s.substring_char(pos + 1, j).to_owned();
            Ok((Expr::String(content), j + 1))
        } else {
            Err(ParseError { pos, msg: "unterminated string literal".to_owned() })
        }
    }

    /// Parses one of the three type names.
    pub fn parse_type(s: &str, len: usize, pos: usize) -> (r: Result<(Type, usize), ParseError>)
        requires
            len == s@.len(),
            pos <= len,
        ensures
            matches_parse(r, sp_type(s@, pos as int), len as int),
    {
        match Self::identifier(s, len, pos) {
            Err(_) => Err(ParseError { pos, msg: "expected type".to_owned() }),
            Ok((id, j)) => {
                if crate::util::str_eq_str(id.as_str(), "int") {
                    Ok((Type::Int, j))
                } else if crate::util::str_eq_str(id.as_str(), "float") {
                    Ok((Type::Float, j))
                } else if crate::util::str_eq_str(id.as_str(), "str") {
                    Ok((Type::Str, j))
                } else {
                    Err(ParseError { pos, msg: "expected type".to_owned() })
                }
            },
        }
    }

    /// True when the digit run at `pos` continues as a float literal.
    fn float_at(s: &str, len: usize, pos: usize) -> (r: bool)
        requires
            len == s@.len(),
            pos <= len,
        ensures
            r == sp_is_float_at(s@, pos as int),
    {
        let neg = pos < len && s.get_char(pos) == '-';
        let d0 = if neg {
            pos + 1
        } else {
            pos
        };
        let e1 = scan_digits(s, len, d0);
        e1 < len && s.get_char(e1) == '.' && e1 + 1 < len && ch_is_digit(s.get_char(e1 + 1))
    }

    /// Parses a term: a literal, a call, a variable reference or a
    /// parenthesized expression.
    pub fn term(s: &str, len: usize, pos: usize) -> (r: Result<(Expr, usize), ParseError>)
        requires
            len == s@.len(),
            pos <= len,
        ensures
            matches_parse(r, sp_term(s@, pos as int), len as int),
        decreases rem(s@, pos as int), 2int,
    {
        if pos >= len {
            return Err(ParseError { pos, msg: "expected expression".to_owned() });
        }
        let c = s.get_char(pos);
        if c == '"' {
            Self::string(s, len, pos)
        } else if ch_is_digit(c) || (c == '-' && pos + 1 < len && ch_is_digit(
            s.get_char(pos + 1),
        )) {
            if Self::float_at(s, len, pos) {
                Self::float(s, len, pos)
            } else {
                Self::number(s, len, pos)
            }
        } else if c == '(' {
            let j = skip_spaces(s, len, pos + 1);
            match Self::expression(s, len, j) {
                Err(e) => Err(e),
                Ok((e, k)) => {
                    let m = skip_spaces(s, len, k);
                    if m < len && s.get_char(m) == ')' {
                        Ok((e, m + 1))
                    } else {
                        Err(ParseError { pos: m, msg: "expected ')'".to_owned() })
                    }
                },
            }
        } else if ch_is_ident_start(c) {
            let j = scan_ident(s, len, pos);
            let j2 = skip_spaces(s, len, j);
            if j2 < len && s.get_char(j2) == '(' {
                let name = s.substring_char(pos, j).to_owned();
                Self::call_args(s, len, j2 + 1, name)
            } else {
                Ok((Expr::Var(s.substring_char(pos, j).to_owned()), j))
            }
        } else {
            Err(ParseError { pos, msg: "expected expression".to_owned() })
        }
    }

    /// Parses the arguments of a call whose opening parenthesis has just
    /// been consumed.
    pub fn call_args(s: &str, len: usize, pos: usize, func: String) -> (r: Result<
        (Expr, usize),
        ParseError,
    >)
        requires
            len == s@.len(),
            pos <= len,
        ensures
            matches_parse(r, sp_call_args(s@, pos as int, func@), len as int),
        decreases rem(s@, pos as int), 6int,
    {
        let j = skip_spaces(s, len, pos);
        if j < len && s.get_char(j) == ')' {
            let e = Expr::Call { func, args: Vec::new() };
            proof {
                assert(e.deep_view()->Call_args =~= Seq::<ExprV>::empty());
            }
            Ok((e, j + 1))
        } else {
            match Self::expression(s, len, j) {
                Err(e) => Err(e),
                Ok((a, k)) => {
                    if k >= pos {
                        let ghost av = a.deep_view();
                        let mut args: Vec<Expr> = Vec::new();
                        args.push(a);
                        proof {
                            assert(args.deep_view() =~= seq![av]);
                        }
                        Self::call_args_rest(s, len, k, func, args)
                    } else {
                        Err(ParseError { pos: j, msg: "expected expression".to_owned() })
                    }
                },
            }
        }
    }

    /// Parses `, expression` pairs until the closing parenthesis.
    pub fn call_args_rest(s: &str, len: usize, pos: usize, func: String, args: Vec<Expr>) -> (r:
        Result<(Expr, usize), ParseError>)
        requires
            len == s@.len(),
            pos <= len,
        ensures
            matches_parse(
                r,
                sp_call_args_rest(s@, pos as int, func@, args.deep_view()),
                len as int,
            ),
        decreases rem(s@, pos as int), 5int,
    {
        let m = skip_spaces(s, len, pos);
        if m < len && s.get_char(m) == ',' {
            let n = skip_spaces(s, len, m + 1);
            match Self::expression(s, len, n) {
                Err(e) => Err(e),
                Ok((a, k)) => {
                    if k > pos {
                        let ghost argsv = args.deep_view();
                        let ghost av = a.deep_view();
                        let mut args = args;
                        args.push(a);
                        proof {
                            assert(args.deep_view() =~= argsv.push(av));
                        }
                        Self::call_args_rest(s, len, k, func, args)
                    } else {
                        Err(ParseError { pos: n, msg: "expected expression".to_owned() })
                    }
                },
            }
        } else if m < len && s.get_char(m) == ')' {
            let e = Expr::Call { func, args };
            proof {
                assert(e.deep_view()->Call_args =~= args.deep_view());
            }
            Ok((e, m + 1))
        } else {
            Err(ParseError { pos: m, msg: "expected ',' or ')'".to_owned() })
        }
    }

    /// Parses an expression: a term followed by any number of `op term`
    /// pairs, folded strictly left to right with no precedence
    /// distinction.
    pub fn expression(s: &str, len: usize, pos: usize) -> (r: Result<(Expr, usize), ParseError>)
        requires
            len == s@.len(),
            pos <= len,
        ensures
            matches_parse(r, sp_expression(s@, pos as int), len as int),
        decreases rem(s@, pos as int), 4int,
    {
        match Self::term(s, len, pos) {
            Err(e) => Err(e),
            Ok((e1, j)) => {
                if j >= pos {
                    Self::expr_rest(s, len, e1, j)
                } else {
                    Err(ParseError { pos, msg: "expected expression".to_owned() })
                }
            },
        }
    }

    /// Folds `op term` pairs onto an already-parsed left operand.
    pub fn expr_rest(s: &str, len: usize, acc: Expr, pos: usize) -> (r: Result<
        (Expr, usize),
        ParseError,
    >)
        requires
            len == s@.len(),
            pos <= len,
        ensures
            matches_parse(r, sp_expr_rest(s@, acc.deep_view(), pos as int), len as int),
        decreases rem(s@, pos as int), 3int,
    {
        let m = skip_spaces(s, len, pos);
        if m < len && ch_is_op(s.get_char(m)) {
            let op = ch_op(s.get_char(m));
            let n = skip_spaces(s, len, m + 1);
            match Self::term(s, len, n) {
                Err(e) => Err(e),
                Ok((e2, k)) => {
                    if k > pos {
                        Self::expr_rest(
                            s,
                            len,
                            Expr::BinOp { left: Box::new(acc), op, right: Box::new(e2) },
                            k,
                        )
                    } else {
                        Err(ParseError { pos: n, msg: "expected expression".to_owned() })
                    }
                },
            }
        } else {
            Ok((acc, pos))
        }
    }

    /// Parses a simple statement: a return statement, a variable
    /// declaration or an expression statement.
    pub fn simple_stmt(s: &str, len: usize, pos: usize) -> (r: Result<
        (Statement, usize),
        ParseError,
    >)
        requires
            len == s@.len(),
            pos <= len,
        ensures
            matches_parse(r, sp_simple_stmt(s@, pos as int), len as int),
    {
        proof {
            reveal_strlit("return");
        }
        if has_kw(s, len, pos, "return", 6) {
            let j = skip_spaces(s, len, pos + 6);
            match Self::expression(s, len, j) {
                Err(e) => Err(e),
                Ok((e, k)) => Ok((Statement::Return(e), k)),
            }
        } else if pos < len && ch_is_ident_start(s.get_char(pos)) {
            let j = scan_ident(s, len, pos);
            let m = skip_spaces(s, len, j);
            if m < len && s.get_char(m) == ':' {
                let name = s.substring_char(pos, j).to_owned();
                let p = skip_spaces(s, len, m + 1);
                match Self::parse_type(s, len, p) {
                    Err(e) => Err(e),
                    Ok((t, q)) => {
                        let u = skip_spaces(s, len, q);
                        if u < len && s.get_char(u) == '=' {
                            let w = skip_spaces(s, len, u + 1);
                            match Self::expression(s, len, w) {
                                Err(e) => Err(e),
                                Ok((e, k)) => Ok(
                                    (
                                        Statement::VarDecl(
                                            crate::ast::VarDecl {
                                                name,
                                                type_def: t,
                                                value: e,
                                            },
                                        ),
                                        k,
                                    ),
                                ),
                            }
                        } else {
                            Err(ParseError { pos: u, msg: "expected '='".to_owned() })
                        }
                    },
                }
            } else {
                match Self::expression(s, len, pos) {
                    Err(e) => Err(e),
                    Ok((e, k)) => Ok((Statement::Expr(e), k)),
                }
            }
        } else {
            match Self::expression(s, len, pos) {
                Err(e) => Err(e),
                Ok((e, k)) => Ok((Statement::Expr(e), k)),
            }
        }
    }

    /// Parses one parameter `name: type`.
    pub fn param(s: &str, len: usize, pos: usize) -> (r: Result<
        ((String, Type), usize),
        ParseError,
    >)
        requires
            len == s@.len(),
            pos <= len,
        ensures
            matches_parse(r, sp_param(s@, pos as int), len as int),
    {
        match Self::identifier(s, len, pos) {
            Err(e) => Err(e),
            Ok((name, j)) => {
                let m = skip_spaces(s, len, j);
                if m < len && s.get_char(m) == ':' {
                    let p = skip_spaces(s, len, m + 1);
                    match Self::parse_type(s, len, p) {
                        Err(e) => Err(e),
                        Ok((t, q)) => Ok(((name, t), q)),
                    }
                } else {
                    Err(ParseError { pos: m, msg: "expected ':'".to_owned() })
                }
            },
        }
    }

    /// Parses `, param` pairs; stops before anything that is not a comma.
    pub fn params_rest(s: &str, len: usize, pos: usize, acc: Vec<(String, Type)>) -> (r: Result<
        (Vec<(String, Type)>, usize),
        ParseError,
    >)
        requires
            len == s@.len(),
            pos <= len,
        ensures
            matches_parse(r, sp_params_rest(s@, pos as int, acc.deep_view()), len as int),
        decreases rem(s@, pos as int),
    {
        let m = skip_spaces(s, len, pos);
        if m < len && s.get_char(m) == ',' {
            let p = skip_spaces(s, len, m + 1);
            match Self::param(s, len, p) {
                Err(e) => Err(e),
                Ok((pr, q)) => {
                    if q > pos {
                        let ghost accv = acc.deep_view();
                        let ghost prv = pr.deep_view();
                        let mut acc = acc;
                        acc.push(pr);
                        proof {
                            assert(acc.deep_view() =~= accv.push(prv));
                        }
                        Self::params_rest(s, len, q, acc)
                    } else {
                        Err(ParseError { pos: p, msg: "expected identifier".to_owned() })
                    }
                },
            }
        } else {
            Ok((acc, pos))
        }
    }

    /// Parses a possibly empty parameter list, stopping before the
    /// closing parenthesis.
    pub fn params(s: &str, len: usize, pos: usize) -> (r: Result<
        (Vec<(String, Type)>, usize),
        ParseError,
    >)
        requires
            len == s@.len(),
            pos <= len,
        ensures
            matches_parse(r, sp_params(s@, pos as int), len as int),
    {
        let j = skip_spaces(s, len, pos);
        if j < len && s.get_char(j) == ')' {
            let v: Vec<(String, Type)> = Vec::new();
            proof {
                assert(v.deep_view() =~= Seq::<(Seq<char>, Type)>::empty());
            }
            Ok((v, j))
        } else {
            match Self::param(s, len, j) {
                Err(e) => Err(e),
                Ok((pr, q)) => {
                    let ghost prv = pr.deep_view();
                    let mut acc: Vec<(String, Type)> = Vec::new();
                    acc.push(pr);
                    proof {
                        assert(acc.deep_view() =~= seq![prv]);
                    }
                    Self::params_rest(s, len, q, acc)
                },
            }
        }
    }

    /// Parses a block: one or more indented lines, each holding one
    /// simple statement.
    pub fn block(s: &str, len: usize, pos: usize) -> (r: Result<
        (Vec<Statement>, usize),
        ParseError,
    >)
        requires
            len == s@.len(),
            pos <= len,
        ensures
            matches_parse(r, sp_block(s@, pos as int), len as int),
        decreases rem(s@, pos as int),
    {
        if pos < len && ch_is_sp(s.get_char(pos)) {
            let j = skip_spaces(s, len, pos);
            if j >= len || s.get_char(j) == '\n' {
                return Err(ParseError { pos: j, msg: "expected statement".to_owned() });
            }
            match Self::simple_stmt(s, len, j) {
                Err(e) => Err(e),
                Ok((st, k)) => {
                    let ghost stv = st.deep_view();
                    let m = skip_spaces(s, len, k);
                    if m >= len {
                        let mut v: Vec<Statement> = Vec::new();
                        v.push(st);
                        proof {
                            assert(v.deep_view() =~= seq![stv]);
                        }
                        Ok((v, m))
                    } else if s.get_char(m) == '\n' {
                        if !(m + 1 < len && ch_is_sp(s.get_char(m + 1))) {
                            let mut v: Vec<Statement> = Vec::new();
                            v.push(st);
                            proof {
                                assert(v.deep_view() =~= seq![stv]);
                            }
                            return Ok((v, m));
                        }
                        if m + 1 > pos {
                            match Self::block(s, len, m + 1) {
                                Err(e) => Err(e),
                                Ok((rest, end)) => {
                                    let ghost restv = rest.deep_view();
                                    let mut v: Vec<Statement> = Vec::new();
                                    v.push(st);
                                    let mut rest = rest;
                                    v.append(&mut rest);
                                    proof {
                                        assert(v.deep_view() =~= seq![stv] + restv);
                                    }
                                    Ok((v, end))
                                },
                            }
                        } else {
                            Err(ParseError { pos: m, msg: "expected end of line".to_owned() })
                        }
                    } else {
                        Err(ParseError { pos: m, msg: "expected end of line".to_owned() })
                    }
                },
            }
        } else {
            let v: Vec<Statement> = Vec::new();
            proof {
                assert(v.deep_view() =~= Seq::<StatementV>::empty());
            }
            Ok((v, pos))
        }
    }

    /// Parses a function definition beginning at the `function` keyword.
    pub fn function_def(s: &str, len: usize, pos: usize) -> (r: Result<
        (Statement, usize),
        ParseError,
    >)
        requires
            len == s@.len(),
            pos + 8 <= len,
        ensures
            matches_parse(r, sp_function_def(s@, pos as int), len as int),
    {
        let j = skip_spaces(s, len, pos + 8);
        match Self::identifier(s, len, j) {
            Err(e) => Err(e),
            Ok((name, k)) => {
                let m = skip_spaces(s, len, k);
                if !(m < len && s.get_char(m) == '(') {
                    return Err(ParseError { pos: m, msg: "expected '('".to_owned() });
                }
                match Self::params(s, len, m + 1) {
                    Err(e) => Err(e),
                    Ok((ps, q)) => {
                        let c = skip_spaces(s, len, q);
                        if !(c < len && s.get_char(c) == ')') {
                            return Err(ParseError { pos: c, msg: "expected ')'".to_owned() });
                        }
                        let a = skip_spaces(s, len, c + 1);
                        if !(len - a > 1 && s.get_char(a) == '-' && s.get_char(a + 1) == '>') {
                            return Err(ParseError { pos: a, msg: "expected '->'".to_owned() });
                        }
                        let t0 = skip_spaces(s, len, a + 2);
                        match Self::parse_type(s, len, t0) {
                            Err(e) => Err(e),
                            Ok((rt, b)) => {
                                let d = skip_spaces(s, len, b);
                                if !(d < len && s.get_char(d) == ':') {
                                    return Err(
                                        ParseError { pos: d, msg: "expected ':'".to_owned() },
                                    );
                                }
                                let nl = skip_spaces(s, len, d + 1);
                                if !(nl < len && s.get_char(nl) == '\n') {
                                    return Err(
                                        ParseError {
                                            pos: nl,
                                            msg: "expected line break".to_owned(),
                                        },
                                    );
                                }
                                match Self::block(s, len, nl + 1) {
                                    Err(e) => Err(e),
                                    Ok((body, end)) => {
                                        if body.len() == 0 {
                                            Err(
                                                ParseError {
                                                    pos: nl + 1,
                                                    msg: "expected indented block".to_owned(),
                                                },
                                            )
                                        } else {
                                            let f = crate::ast::FunctionDef {
                                                name,
                                                args: ps,
                                                return_type: rt,
                                                body,
                                            };
                                            let st = Statement::FunctionDef(f);
                                            proof {
                                                assert(st.deep_view()->FunctionDef_0.args
                                                    =~= ps.deep_view());
                                                assert(st.deep_view()->FunctionDef_0.body
                                                    =~= body.deep_view());
                                            }
                                            Ok((st, end))
                                        }
                                    },
                                }
                            },
                        }
                    },
                }
            },
        }
    }

    /// Parses one top-level statement.
    pub fn toplevel(s: &str, len: usize, pos: usize) -> (r: Result<
        (Statement, usize),
        ParseError,
    >)
        requires
            len == s@.len(),
            pos <= len,
        ensures
            matches_parse(r, sp_toplevel(s@, pos as int), len as int),
    {
        proof {
            reveal_strlit("function");
        }
        if has_kw(s, len, pos, "function", 8) {
            Self::function_def(s, len, pos)
        } else {
            Self::simple_stmt(s, len, pos)
        }
    }

    /// Parses a whole program, down to the end of the input.
    pub fn program(s: &str, len: usize, pos: usize) -> (r: Result<
        (Vec<Statement>, usize),
        ParseError,
    >)
        requires
            len == s@.len(),
            pos <= len,
        ensures
            matches_parse(r, sp_program(s@, pos as int), len as int),
        decreases rem(s@, pos as int),
    {
        let j = skip_blanks(s, len, pos);
        if j >= len {
            let v: Vec<Statement> = Vec::new();
            proof {
                assert(v.deep_view() =~= Seq::<StatementV>::empty());
            }
            return Ok((v, j));
        }
        match Self::toplevel(s, len, j) {
            Err(e) => Err(e),
            Ok((st, k)) => {
                let ghost stv = st.deep_view();
                let m = skip_spaces(s, len, k);
                if m >= len || s.get_char(m) == '\n' {
                    let m2 = if m < len {
                        m + 1
                    } else {
                        m
                    };
                    if m2 > pos {
                        match Self::program(s, len, m2) {
                            Err(e) => Err(e),
                            Ok((rest, end)) => {
                                let ghost restv = rest.deep_view();
                                let mut v: Vec<Statement> = Vec::new();
                                v.push(st);
                                let mut rest = rest;
                                v.append(&mut rest);
                                proof {
                                    assert(v.deep_view() =~= seq![stv] + restv);
                                }
                                Ok((v, end))
                            },
                        }
                    } else {
                        Err(ParseError { pos: m, msg: "expected end of line".to_owned() })
                    }
                } else {
                    Err(ParseError { pos: m, msg: "expected end of line".to_owned() })
                }
            },
        }
    }
}

/// Parses source text into a program: the executable face of `sp_parse`.
/// Parsing is a pure function of the text, so identical text always
/// yields a structurally equal tree.
pub fn parse_rython_code(code: &str) -> (r: Result<Program, ParseError>)
    ensures
        match (r, sp_parse(code@)) {
            (Ok(p), Ok(pv)) => p.deep_view() == pv,
            (Err(e), Err(ev)) => e.deep_view() == ev,
            _ => false,
        },
{
    let len = code.unicode_len();
    match RythonParser::program(code, len, 0) {
        Ok((body, _)) => {
            let p = Program { body };
            proof {
                assert(p.deep_view().body =~= p.body.deep_view());
            }
            Ok(p)
        },
        Err(e) => Err(e),
    }
}

/// Parsing is deterministic: two sources holding the same characters
/// parse to the same outcome, and in particular to structurally equal
/// trees.
pub proof fn lemma_parse_deterministic(s1: Seq<char>, s2: Seq<char>)
    requires
        s1 == s2,
    ensures
        sp_parse(s1) == sp_parse(s2),
{
}

} // verus!
