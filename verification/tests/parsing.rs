use vortex::grammar::vortex_grammar;
use vortex::parse;
use vortex::parse::Expected;
use vortex::ParseError;
use vortex::SyntaxTree;

fn parse_ok(text: &str) -> SyntaxTree {
    parse(&text.to_string()).expect("text should be accepted")
}

fn parse_err(text: &str) -> ParseError {
    match parse(&text.to_string()) {
        Ok(_) => panic!("text should be rejected"),
        Err(e) => e,
    }
}

#[test]
fn empty_input_is_a_bare_program() {
    let tree = parse_ok("");
    assert_eq!(tree.kind(), 0);
    assert_eq!(tree.children().len(), 0);
}

#[test]
fn whitespace_only_input_is_accepted() {
    let tree = parse_ok(" \t\r\n  \n");
    assert_eq!(tree.kind(), 0);
    assert_eq!(tree.children().len(), 0);
}

#[test]
fn single_identifier() {
    let tree = parse_ok("hello");
    assert_eq!(tree.kind(), 0);
    assert_eq!(tree.children().len(), 1);
    assert_eq!(tree.children()[0].kind(), 1);
    assert_eq!(tree.children()[0].children().len(), 0);
}

#[test]
fn identifiers_in_source_order_one_node_each() {
    let tree = parse_ok("let x_1 be\n two2\n");
    assert_eq!(tree.kind(), 0);
    assert_eq!(tree.children().len(), 4);
    for child in tree.children() {
        assert_eq!(child.kind(), 1);
        assert_eq!(child.children().len(), 0);
    }
}

#[test]
fn failure_at_first_byte_names_each_alternative_once() {
    let err = parse_err("9bad");
    assert_eq!(err.byte, 0);
    assert_eq!(err.line, 1);
    assert_eq!(err.column, 1);
    assert_eq!(
        err.expected,
        vec![
            Expected::Range(97, 122),
            Expected::Range(65, 90),
            Expected::Byte(95),
            Expected::EndOfInput,
        ]
    );
}

#[test]
fn failure_position_lies_within_bounds() {
    for text in ["9bad", "ab 9", "a\nb\n$", "x%", "%", " a b ! c"] {
        let err = parse_err(text);
        assert!(err.byte <= text.len());
    }
}

#[test]
fn failure_after_valid_prefix() {
    let err = parse_err("ab 9");
    assert_eq!(err.byte, 3);
    assert_eq!(err.line, 1);
    assert_eq!(err.column, 4);
}

#[test]
fn failure_line_and_column_follow_newlines() {
    let err = parse_err("a\nb\n$");
    assert_eq!(err.byte, 4);
    assert_eq!(err.line, 3);
    assert_eq!(err.column, 1);
}

#[test]
fn diagnostic_message_is_stable() {
    let err = parse_err("ab 9");
    assert_eq!(
        err.message(),
        "parse error at line 1, column 4: expected byte 97..=122 | byte 65..=90 | byte 95 | end of input"
    );
}

#[test]
fn diagnostic_drops_repeated_alternatives() {
    let err = parse_err("a#");
    assert_eq!(err.byte, 1);
    assert_eq!(
        err.message(),
        "parse error at line 1, column 2: expected byte 97..=122 | byte 65..=90 | byte 95 | byte 48..=57 | end of input"
    );
}

#[test]
fn diagnostic_message_joins_alternatives() {
    let err = ParseError {
        byte: 7,
        line: 2,
        column: 3,
        expected: vec![
            Expected::Byte(95),
            Expected::Range(97, 122),
            Expected::EndOfInput,
        ],
    };
    assert_eq!(
        err.message(),
        "parse error at line 2, column 3: expected byte 95 | byte 97..=122 | end of input"
    );
}

#[test]
fn bundled_grammar_names_its_rules() {
    let g = vortex_grammar();
    assert_eq!(g.start, 0);
    assert_eq!(g.rules.len(), 3);
    assert_eq!(g.rules[0].name, "file");
    assert_eq!(g.rules[1].name, "ident");
    assert_eq!(g.rules[2].name, "ws");
    assert!(!g.rules[0].silent);
    assert!(!g.rules[1].silent);
    assert!(g.rules[2].silent);
}
