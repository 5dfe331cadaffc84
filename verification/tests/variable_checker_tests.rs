use surf_checker::diagnostics::{SemanticErrorKind, Warning};
use surf_checker::symbols::{Function, Header};
use surf_checker::token::{Token, TokenType};
use surf_checker::variable_checker::check_variables;

fn tok(token_type: TokenType, value: &str, trace: &str) -> Token {
    Token::new(token_type, value.to_string(), trace.to_string())
}

fn header(origin: &str, values: &[&str], classes: &[&str]) -> Header {
    Header::new(
        origin.to_string(),
        values.iter().map(|v| v.to_string()).collect(),
        classes.iter().map(|c| c.to_string()).collect(),
    )
}

#[test]
fn accepts_fresh_name_with_builtin_type() {
    let tokens = vec![
        tok(TokenType::Unknown, "my_count", "main.surf:1:5"),
        tok(TokenType::Colon, ":", "main.surf:1:14"),
        tok(TokenType::IntType, "int", "main.surf:1:16"),
        tok(TokenType::Assign, "=", "main.surf:1:20"),
        tok(TokenType::IntLiteral, "5", "main.surf:1:22"),
        tok(TokenType::Semicolon, ";", "main.surf:1:23"),
    ];
    let functions: Vec<Function> = Vec::new();
    let imports: Vec<Header> = Vec::new();
    let mut warnings: Vec<Warning> = Vec::new();
    let r = check_variables(&tokens, &0, &functions, &imports, &mut warnings);
    assert!(r.is_ok());
    // `my_count` carries a separator, so the naming rule stays quiet.
    assert_eq!(warnings.len(), 0);
}

#[test]
fn accepts_string_declaration_with_initializer_tail() {
    let tokens = vec![
        tok(TokenType::Unknown, "greeting", "main.surf:1:5"),
        tok(TokenType::Colon, ":", "main.surf:1:14"),
        tok(TokenType::StrType, "str", "main.surf:1:16"),
        tok(TokenType::Assign, "=", "main.surf:1:20"),
        tok(TokenType::StrLiteral, "\"Hello, world!\"", "main.surf:1:22"),
        tok(TokenType::Semicolon, ";", "main.surf:1:38"),
    ];
    let functions: Vec<Function> = Vec::new();
    let imports: Vec<Header> = Vec::new();
    let mut warnings: Vec<Warning> = Vec::new();
    let r = check_variables(&tokens, &0, &functions, &imports, &mut warnings);
    assert!(r.is_ok());
}

#[test]
fn rejects_run_of_fewer_than_four_tokens() {
    let tokens = vec![
        tok(TokenType::Unknown, "total", "main.surf:2:5"),
        tok(TokenType::Colon, ":", "main.surf:2:11"),
        tok(TokenType::Assign, "=", "main.surf:2:13"),
    ];
    let functions: Vec<Function> = Vec::new();
    let imports: Vec<Header> = Vec::new();
    let mut warnings: Vec<Warning> = Vec::new();
    let r = check_variables(&tokens, &0, &functions, &imports, &mut warnings);
    let e = r.err().expect("three tokens must be rejected");
    assert_eq!(e.kind, SemanticErrorKind::MalformedDeclaration);
    assert_eq!(e.trace, "main.surf:2:5");
    assert_eq!(e.detail, "Variable definitions must have at least 4 tokens");
    assert_eq!(e.headline(), "Invalid variable definition");
    assert_eq!(warnings.len(), 0);
}

#[test]
fn rejects_keyword_in_name_position() {
    let tokens = vec![
        tok(TokenType::Let, "let", "main.surf:3:1"),
        tok(TokenType::Colon, ":", "main.surf:3:5"),
        tok(TokenType::IntType, "int", "main.surf:3:7"),
        tok(TokenType::Assign, "=", "main.surf:3:11"),
    ];
    let functions: Vec<Function> = Vec::new();
    let imports: Vec<Header> = Vec::new();
    let mut warnings: Vec<Warning> = Vec::new();
    let r = check_variables(&tokens, &0, &functions, &imports, &mut warnings);
    let e = r.err().expect("a keyword name must be rejected");
    assert_eq!(e.kind, SemanticErrorKind::InvalidIdentifier);
    assert_eq!(e.trace, "main.surf:3:1");
    assert_eq!(e.headline(), "Invalid variable name");
}

#[test]
fn rejects_name_that_breaks_identifier_grammar() {
    let tokens = vec![
        tok(TokenType::Unknown, "9lives", "main.surf:4:1"),
        tok(TokenType::Colon, ":", "main.surf:4:8"),
        tok(TokenType::IntType, "int", "main.surf:4:10"),
        tok(TokenType::Assign, "=", "main.surf:4:14"),
    ];
    let functions: Vec<Function> = Vec::new();
    let imports: Vec<Header> = Vec::new();
    let mut warnings: Vec<Warning> = Vec::new();
    let r = check_variables(&tokens, &0, &functions, &imports, &mut warnings);
    let e = r.err().expect("a name starting with a digit must be rejected");
    assert_eq!(e.kind, SemanticErrorKind::InvalidIdentifier);
    assert_eq!(e.trace, "main.surf:4:1");
}

#[test]
fn rejects_missing_colon() {
    let tokens = vec![
        tok(TokenType::Unknown, "width", "main.surf:5:1"),
        tok(TokenType::Assign, "=", "main.surf:5:7"),
        tok(TokenType::IntType, "int", "main.surf:5:9"),
        tok(TokenType::Assign, "=", "main.surf:5:13"),
    ];
    let functions: Vec<Function> = Vec::new();
    let imports: Vec<Header> = Vec::new();
    let mut warnings: Vec<Warning> = Vec::new();
    let r = check_variables(&tokens, &0, &functions, &imports, &mut warnings);
    let e = r.err().expect("a missing colon must be rejected");
    assert_eq!(e.kind, SemanticErrorKind::MalformedDeclaration);
    assert_eq!(e.trace, "main.surf:5:7");
    assert_eq!(e.detail, "Expected a colon after the variable name");
}

#[test]
fn rejects_missing_assignment_operator() {
    let tokens = vec![
        tok(TokenType::Unknown, "width", "main.surf:6:1"),
        tok(TokenType::Colon, ":", "main.surf:6:7"),
        tok(TokenType::IntType, "int", "main.surf:6:9"),
        tok(TokenType::Semicolon, ";", "main.surf:6:13"),
    ];
    let functions: Vec<Function> = Vec::new();
    let imports: Vec<Header> = Vec::new();
    let mut warnings: Vec<Warning> = Vec::new();
    let r = check_variables(&tokens, &0, &functions, &imports, &mut warnings);
    let e = r.err().expect("a missing assignment operator must be rejected");
    assert_eq!(e.kind, SemanticErrorKind::MalformedDeclaration);
    assert_eq!(e.trace, "main.surf:6:13");
    assert_eq!(e.detail, "Expected an equals sign after the variable type");
}

#[test]
fn rejects_name_colliding_with_function() {
    let tokens = vec![
        tok(TokenType::Unknown, "main_loop", "main.surf:7:1"),
        tok(TokenType::Colon, ":", "main.surf:7:11"),
        tok(TokenType::IntType, "int", "main.surf:7:13"),
        tok(TokenType::Assign, "=", "main.surf:7:17"),
    ];
    let functions = vec![Function::new("main_loop".to_string())];
    let imports: Vec<Header> = Vec::new();
    let mut warnings: Vec<Warning> = Vec::new();
    let r = check_variables(&tokens, &0, &functions, &imports, &mut warnings);
    let e = r.err().expect("a function-name collision must be rejected");
    assert_eq!(e.kind, SemanticErrorKind::DuplicateDefinition);
    assert_eq!(e.trace, "main.surf:7:1");
    assert_eq!(e.detail, "The value main_loop is already defined");
    assert_eq!(e.headline(), "Value already defined");
}

#[test]
fn rejects_name_colliding_with_imported_value() {
    let tokens = vec![
        tok(TokenType::Unknown, "shared_flag", "main.surf:8:1"),
        tok(TokenType::Colon, ":", "main.surf:8:13"),
        tok(TokenType::BoolType, "bool", "main.surf:8:15"),
        tok(TokenType::Assign, "=", "main.surf:8:20"),
    ];
    let functions: Vec<Function> = Vec::new();
    let imports = vec![header("util.surf", &["shared_flag"], &[])];
    let mut warnings: Vec<Warning> = Vec::new();
    let r = check_variables(&tokens, &0, &functions, &imports, &mut warnings);
    let e = r.err().expect("an imported-value collision must be rejected");
    assert_eq!(e.kind, SemanticErrorKind::DuplicateDefinition);
    assert_eq!(e.trace, "main.surf:8:1");
}

#[test]
fn duplicate_definition_beats_unknown_type() {
    let tokens = vec![
        tok(TokenType::Unknown, "taken", "main.surf:9:1"),
        tok(TokenType::Colon, ":", "main.surf:9:7"),
        tok(TokenType::Unknown, "NoSuchClass", "main.surf:9:9"),
        tok(TokenType::Assign, "=", "main.surf:9:21"),
    ];
    let functions = vec![Function::new("taken".to_string())];
    let imports: Vec<Header> = Vec::new();
    let mut warnings: Vec<Warning> = Vec::new();
    let r = check_variables(&tokens, &0, &functions, &imports, &mut warnings);
    let e = r.err().expect("the duplicate must win over the unknown type");
    assert_eq!(e.kind, SemanticErrorKind::DuplicateDefinition);
    assert_eq!(e.trace, "main.surf:9:1");
}

#[test]
fn rejects_unknown_type() {
    let tokens = vec![
        tok(TokenType::Unknown, "x", "main.surf:10:1"),
        tok(TokenType::Colon, ":", "main.surf:10:3"),
        tok(TokenType::Unknown, "Widget", "main.surf:10:5"),
        tok(TokenType::Assign, "=", "main.surf:10:12"),
        tok(TokenType::IntLiteral, "1", "main.surf:10:14"),
    ];
    let functions: Vec<Function> = Vec::new();
    let imports = vec![header("util.surf", &[], &["Gadget"])];
    let mut warnings: Vec<Warning> = Vec::new();
    let r = check_variables(&tokens, &0, &functions, &imports, &mut warnings);
    let e = r.err().expect("an unresolvable class type must be rejected");
    assert_eq!(e.kind, SemanticErrorKind::UnknownType);
    assert_eq!(e.trace, "main.surf:10:5");
    assert_eq!(e.detail, "The data type is not recognized");
    assert_eq!(e.headline(), "Invalid data type");
}

#[test]
fn accepts_class_type_from_imported_header() {
    let tokens = vec![
        tok(TokenType::Unknown, "w", "main.surf:11:1"),
        tok(TokenType::Colon, ":", "main.surf:11:3"),
        tok(TokenType::Unknown, "Widget", "main.surf:11:5"),
        tok(TokenType::Assign, "=", "main.surf:11:12"),
    ];
    let functions: Vec<Function> = Vec::new();
    let imports = vec![header("widgets.surf", &[], &["Widget"])];
    let mut warnings: Vec<Warning> = Vec::new();
    let r = check_variables(&tokens, &0, &functions, &imports, &mut warnings);
    assert!(r.is_ok());
}

#[test]
fn start_offset_skips_leading_tokens() {
    let tokens = vec![
        tok(TokenType::Let, "let", "main.surf:12:1"),
        tok(TokenType::Unknown, "depth", "main.surf:12:5"),
        tok(TokenType::Colon, ":", "main.surf:12:11"),
        tok(TokenType::IntType, "int", "main.surf:12:13"),
        tok(TokenType::Assign, "=", "main.surf:12:17"),
        tok(TokenType::IntLiteral, "3", "main.surf:12:19"),
    ];
    let functions: Vec<Function> = Vec::new();
    let imports: Vec<Header> = Vec::new();
    let mut warnings: Vec<Warning> = Vec::new();
    let r = check_variables(&tokens, &1, &functions, &imports, &mut warnings);
    assert!(r.is_ok());
}

#[test]
fn warning_emitted_even_when_type_is_unknown() {
    let tokens = vec![
        tok(TokenType::Unknown, "myVar", "main.surf:13:1"),
        tok(TokenType::Colon, ":", "main.surf:13:7"),
        tok(TokenType::Unknown, "Widget", "main.surf:13:9"),
        tok(TokenType::Assign, "=", "main.surf:13:16"),
    ];
    let functions: Vec<Function> = Vec::new();
    let imports: Vec<Header> = Vec::new();
    let mut warnings: Vec<Warning> = Vec::new();
    let r = check_variables(&tokens, &0, &functions, &imports, &mut warnings);
    let e = r.err().expect("the unknown type is still fatal");
    assert_eq!(e.kind, SemanticErrorKind::UnknownType);
    // The advisory already ran on the well-shaped prefix: the warning stays.
    assert_eq!(warnings.len(), 1);
    assert_eq!(warnings[0].name, "myVar");
    assert_eq!(warnings[0].trace, "main.surf:13:1");
}
