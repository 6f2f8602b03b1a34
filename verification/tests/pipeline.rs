use rlox::interpreter::{EvalError, Interpreter};
use rlox::ast_printer::AstPrinter;
use rlox::parser::Parser;
use rlox::rlox::{Rlox, RloxError};
use rlox::scanner::Scanner;
use rlox::token::{Literal, Token, TokenType};

fn scan(src: &str) -> Result<Vec<Token>, Vec<rlox::scanner::ScanError>> {
    Scanner::new(src.to_string()).scan_tokens()
}

fn eval(src: &str) -> Result<Literal, EvalError> {
    let tokens = scan(src).expect("scan failed");
    let expr = Parser::new(tokens).parse().expect("parse failed");
    Interpreter::new().evaluate(&expr)
}

fn printed(src: &str) -> String {
    let tokens = scan(src).expect("scan failed");
    let expr = Parser::new(tokens).parse().expect("parse failed");
    AstPrinter::new().print(&expr)
}

fn num_bits(l: &Literal) -> u64 {
    match l {
        Literal::Number(b) => *b,
        other => panic!("not a number: {:?}", other),
    }
}

fn text(l: &Literal) -> String {
    match l {
        Literal::String(s) => s.clone(),
        other => panic!("not a string: {:?}", other),
    }
}

#[test]
fn whitespace_and_comments_scan_to_nothing() {
    let toks = scan("  \t\r\n  // a comment\n   // another").unwrap();
    assert_eq!(toks.len(), 1);
    assert_eq!(toks[0].token_type, TokenType::EOF);
    assert_eq!(toks[0].line, 3);
}

#[test]
fn numeric_literal_round_trips_to_the_same_bits() {
    let toks = scan("123.45").unwrap();
    assert_eq!(toks.len(), 2);
    assert_eq!(toks[0].token_type, TokenType::Number);
    assert_eq!(toks[0].lexeme, "123.45");
    let bits = match toks[0].literal.as_ref().unwrap() {
        Literal::Number(b) => *b,
        _ => panic!("wrong payload"),
    };
    assert_eq!(bits, "123.45".parse::<f64>().unwrap().to_bits());
}

#[test]
fn integer_literal_scans_exactly() {
    let toks = scan("007").unwrap();
    assert_eq!(toks[0].lexeme, "007");
    let bits = match toks[0].literal.as_ref().unwrap() {
        Literal::Number(b) => *b,
        _ => panic!("wrong payload"),
    };
    assert_eq!(bits, 7.0f64.to_bits());
}

#[test]
fn print_of_number_source_is_stable_under_reparsing() {
    let once = printed("123");
    assert_eq!(once, "123");
    let twice = printed(&once);
    assert_eq!(once, twice);
    let once = printed("2.5");
    let twice = printed(&once);
    assert_eq!(once, twice);
}

#[test]
fn print_renders_prefix_form() {
    assert_eq!(printed("1 + 2 * 3"), "(+ 1 (* 2 3))");
    assert_eq!(printed("-123 * (45.5)"), "(* (- 123) (group 45.5))");
}

#[test]
fn precedence_star_binds_tighter_than_plus() {
    let v = eval("1 + 2 * 3").unwrap();
    assert_eq!(num_bits(&v), 7.0f64.to_bits());
}

#[test]
fn grouping_overrides_precedence() {
    let v = eval("(1 + 2) * 3").unwrap();
    assert_eq!(num_bits(&v), 9.0f64.to_bits());
}

#[test]
fn string_coercion_wins_in_either_order() {
    let v = eval("\"a\" + 1").unwrap();
    assert_eq!(text(&v), "a1");
    let v = eval("1 + \"a\"").unwrap();
    assert_eq!(text(&v), "1a");
}

#[test]
fn string_coercion_wins_over_comparison() {
    let v = eval("1 > \"x\"").unwrap();
    assert_eq!(text(&v), "1x");
}

#[test]
fn ternary_picks_branch_by_truthiness() {
    let v = eval("true ? 1 : 2").unwrap();
    assert_eq!(num_bits(&v), 1.0f64.to_bits());
    let v = eval("false ? 1 : 2").unwrap();
    assert_eq!(num_bits(&v), 2.0f64.to_bits());
}

#[test]
fn ternary_never_touches_the_untaken_branch() {
    let v = eval("true ? 1 : true > true").unwrap();
    assert_eq!(num_bits(&v), 1.0f64.to_bits());
    let v = eval("false ? true > true : 2").unwrap();
    assert_eq!(num_bits(&v), 2.0f64.to_bits());
}

#[test]
fn unterminated_string_is_one_error_and_no_tokens() {
    let errs = scan("\"unterminated").unwrap_err();
    assert_eq!(errs.len(), 1);
    assert_eq!(errs[0].message, "Unterminated string");
    assert_eq!(errs[0].line, 1);
}

#[test]
fn unexpected_character_is_reported_with_the_character() {
    let errs = scan("1 + @").unwrap_err();
    assert_eq!(errs.len(), 1);
    assert_eq!(errs[0].message, "Unexpected character: @");
}

#[test]
fn missing_operand_before_plus_is_one_recorded_error() {
    let tokens = scan("+ 3").unwrap();
    let errs = Parser::new(tokens).parse().unwrap_err();
    assert_eq!(errs.len(), 1);
    assert_eq!(errs[0].message, "Expected operand before +");
    assert_eq!(errs[0].line, 1);
}

#[test]
fn missing_close_paren_is_fatal() {
    let tokens = scan("(1 + 2").unwrap();
    let errs = Parser::new(tokens).parse().unwrap_err();
    assert_eq!(errs.len(), 1);
    assert_eq!(errs[0].message, "Beyond tokens' length");
    let tokens = scan("(1 + 2 3").unwrap();
    let errs = Parser::new(tokens).parse().unwrap_err();
    assert_eq!(errs.len(), 1);
    assert_eq!(errs[0].message, "Expected RightParen after expression.");
}

#[test]
fn missing_colon_after_question_is_fatal() {
    let tokens = scan("true ? 1 2").unwrap();
    let errs = Parser::new(tokens).parse().unwrap_err();
    assert_eq!(errs.len(), 1);
    assert_eq!(errs[0].message, "Expected Colon after expression.");
}

#[test]
fn boolean_operands_of_comparison_are_a_runtime_error() {
    let e = eval("true > 1").unwrap_err();
    match e {
        EvalError::Runtime(re) => {
            assert_eq!(re.message, "Can not perform > on this expression");
            assert_eq!(re.line, 1);
        }
        other => panic!("expected a runtime error, got {:?}", other),
    }
}

#[test]
fn slash_on_numbers_is_an_invalid_binary_operator() {
    let e = eval("4 / 2").unwrap_err();
    match e {
        EvalError::Runtime(re) => {
            assert_eq!(re.message, "Invalid operator for a binary expression");
        }
        other => panic!("expected a runtime error, got {:?}", other),
    }
}

#[test]
fn unary_minus_on_a_string_is_the_fatal_class() {
    let e = eval("-\"a\"").unwrap_err();
    match e {
        EvalError::Fatal(fe) => assert_eq!(fe.message, "Operand must be a number"),
        other => panic!("expected the fatal class, got {:?}", other),
    }
}

#[test]
fn unary_minus_and_bang() {
    let v = eval("-2 + 3").unwrap();
    assert_eq!(num_bits(&v), 1.0f64.to_bits());
    let v = eval("!0").unwrap();
    assert_eq!(v.as_bool(), Some(true));
    let v = eval("!\"s\"").unwrap();
    assert_eq!(v.as_bool(), Some(false));
}

#[test]
fn comparisons_on_numbers_yield_booleans() {
    assert_eq!(eval("1 < 2").unwrap().as_bool(), Some(true));
    assert_eq!(eval("1 >= 2").unwrap().as_bool(), Some(false));
    assert_eq!(eval("2 == 2").unwrap().as_bool(), Some(true));
    assert_eq!(eval("2 != 2").unwrap().as_bool(), Some(false));
}

#[test]
fn string_token_payload_is_the_enclosed_text() {
    let toks = scan("\"hi\"").unwrap();
    assert_eq!(toks[0].lexeme, "\"hi\"");
    match toks[0].literal.as_ref().unwrap() {
        Literal::String(s) => assert_eq!(s, "hi"),
        _ => panic!("wrong payload"),
    }
}

#[test]
fn keywords_and_identifiers_are_told_apart() {
    let toks = scan("nil napkin").unwrap();
    assert_eq!(toks[0].token_type, TokenType::Nil);
    assert!(toks[0].literal.is_none());
    assert_eq!(toks[1].token_type, TokenType::Identifier);
    match toks[1].literal.as_ref().unwrap() {
        Literal::String(s) => assert_eq!(s, "napkin"),
        _ => panic!("wrong payload"),
    }
}

#[test]
fn pipeline_run_stringifies_the_result() {
    let mut rl = Rlox::new();
    assert_eq!(rl.run("1 + 2 * 3").unwrap(), "7");
    assert_eq!(rl.run("2.5 + 2.5").unwrap(), "5");
    assert_eq!(rl.run("\"a\" + 1").unwrap(), "a1");
    assert_eq!(rl.run("nil ? 1 : \"no\"").unwrap(), "no");
    assert_eq!(rl.run("0.5 * 0.5").unwrap(), "0.25");
}

#[test]
fn pipeline_run_reports_every_scan_error() {
    let mut rl = Rlox::new();
    let errs = rl.run("@ 1 #").unwrap_err();
    assert_eq!(errs.len(), 2);
    match &errs[0] {
        RloxError::Scan(e) => assert_eq!(e.message, "Unexpected character: @"),
        other => panic!("expected a scan error, got {:?}", other),
    }
}

#[test]
fn pipeline_run_reports_runtime_errors() {
    let mut rl = Rlox::new();
    let errs = rl.run("true + 1").unwrap_err();
    assert_eq!(errs.len(), 1);
    assert!(matches!(errs[0], RloxError::Runtime(_)));
}

#[test]
fn number_text_is_the_shortest_round_trip_form() {
    let mut rl = Rlox::new();
    assert_eq!(rl.run("0.1 + 0.2").unwrap(), "0.30000000000000004");
    assert_eq!(rl.run("0.1 + 0").unwrap(), "0.1");
}

#[test]
fn same_level_operators_chain_left_associatively() {
    assert_eq!(printed("1 - 2 - 3"), "(- (- 1 2) 3)");
    let v = eval("1 - 2 - 3").unwrap();
    assert_eq!(num_bits(&v), (-4.0f64).to_bits());
}

#[test]
fn ternary_nests_right_associatively() {
    assert_eq!(printed("1 ? 2 : 3 ? 4 : 5"), "(?: 1 2 (?: 3 4 5))");
    let v = eval("0 ? 2 : 3 ? 4 : 5").unwrap();
    assert_eq!(num_bits(&v), 4.0f64.to_bits());
}
