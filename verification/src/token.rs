//! The token model: one immutable lexical unit with a category, its literal
//! text, and a source trace used verbatim in diagnostics.

use vstd::prelude::*;

verus! {

/// The category of a lexical unit. `Unknown` marks an identifier-like token
/// that is not a reserved keyword; a variable name must have this category.
#[derive(Clone, Copy, PartialEq, Eq, Structural, Debug)]
pub enum TokenType {
    /// An identifier-like token that matched no reserved word.
    Unknown,
    /// The `:` separator between a name and its type.
    Colon,
    /// The `=` assignment operator.
    Assign,
    /// The `;` statement terminator.
    Semicolon,
    /// The `let` keyword.
    Let,
    /// The built-in integer data type keyword.
    IntType,
    /// The built-in string data type keyword.
    StrType,
    /// The built-in boolean data type keyword.
    BoolType,
    /// The built-in unit ("nothing") data type keyword.
    NothingType,
    /// An integer literal.
    IntLiteral,
    /// A string literal.
    StrLiteral,
    /// A boolean literal.
    BoolLiteral,
}

/// Whether a token category is one of the built-in data type keywords.
pub open spec fn is_data_type_spec(t: TokenType) -> bool {
    ||| t == TokenType::IntType
    ||| t == TokenType::StrType
    ||| t == TokenType::BoolType
    ||| t == TokenType::NothingType
}

/// Decides whether `t` is a built-in data type keyword.
pub fn is_data_type(t: TokenType) -> (r: bool)
    ensures
        r == is_data_type_spec(t),
{
    match t {
        TokenType::IntType => true,
        TokenType::StrType => true,
        TokenType::BoolType => true,
        TokenType::NothingType => true,
        _ => false,
    }
}

/// One lexical unit. Tokens are produced by the lexer and are never mutated
/// or reordered by this crate: they are only sliced and inspected.
pub struct Token {
    /// The token's category.
    pub token_type: TokenType,
    /// The literal text of the token.
    pub value: String,
    /// The source location descriptor (file, line, column), already rendered;
    /// diagnostics cite it verbatim.
    pub trace: String,
}

impl Token {
    /// Builds a token from its category, text and source trace.
    pub fn new(token_type: TokenType, value: String, trace: String) -> (r: Token)
        ensures
            r.token_type == token_type,
            r.value@ == value@,
            r.trace@ == trace@,
    {
        Token { token_type, value, trace }
    }

    /// The token's category.
    pub fn get_token_type(&self) -> (r: TokenType)
        ensures
            r == self.token_type,
    {
        self.token_type
    }

    /// The token's literal text.
    pub fn get_value(&self) -> (r: &String)
        ensures
            r@ == self.value@,
    {
        &self.value
    }

    /// A fresh copy of the token's source trace, for use in a diagnostic.
    pub fn build_trace(&self) -> (r: String)
        ensures
            r@ == self.trace@,
    {
        self.trace.clone()
    }
}

} // verus!
