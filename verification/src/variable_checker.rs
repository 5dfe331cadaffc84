//! The declaration-validation protocol: shape checking of the fixed
//! four-token prefix `name : type =`, the non-fatal naming advisory, the
//! redefinition check against functions and imported header values, and
//! type validation against built-in data types and imported classes.
//!
//! The pipeline short-circuits: the first fatal finding is returned and no
//! later step runs; the naming advisory never affects the outcome.

use vstd::prelude::*;
use crate::diagnostics::{SemanticError, SemanticErrorKind, Warning, warning_emitted};
use crate::header_checker::{
    any_header_declares_class, any_header_declares_value, check_header_value_definition,
    find_imported_classes, lemma_resolution_hits_iff_declared,
};
use crate::ident::{is_single_run_name, is_valid_value_name, single_run_name, valid_value_name};
use crate::symbols::{Function, Header, contains_function, registry_contains};
use crate::token::{Token, TokenType, is_data_type, is_data_type_spec};

verus! {

/// Whether `name` is already bound: as a function in the registry, or as a
/// value exported by some imported header.
pub open spec fn value_already_defined(
    name: Seq<char>,
    functions: Seq<Function>,
    imports: Seq<Header>,
) -> bool {
    registry_contains(functions, name) || any_header_declares_value(imports, name)
}

/// Whether the four-token declaration prefix is fully well-shaped: enough
/// tokens, a non-keyword name matching the identifier grammar, a colon
/// after the name, and an assignment operator after the type.
pub open spec fn shape_ok(toks: Seq<Token>) -> bool {
    &&& toks.len() >= 4
    &&& toks[0].token_type == TokenType::Unknown
    &&& valid_value_name(toks[0].value@)
    &&& toks[1].token_type == TokenType::Colon
    &&& toks[3].token_type == TokenType::Assign
}

/// The explanatory line of a duplicate-definition error on `name`.
pub open spec fn duplicate_detail(name: Seq<char>) -> Seq<char> {
    "The value "@ + name + " is already defined"@
}

/// The fatal diagnostic a declaration earns, if any: its kind, its
/// explanatory line, and the trace it cites. The branches are ordered as
/// the protocol runs them, so the first violation wins: shape before
/// redefinition, redefinition before type validation.
pub open spec fn expected_error(
    toks: Seq<Token>,
    functions: Seq<Function>,
    imports: Seq<Header>,
) -> Option<(SemanticErrorKind, Seq<char>, Seq<char>)> {
    if toks.len() < 4 {
        Some(
            (
                SemanticErrorKind::MalformedDeclaration,
                "Variable definitions must have at least 4 tokens"@,
                toks[0].trace@,
            ),
        )
    } else if !(toks[0].token_type == TokenType::Unknown && valid_value_name(toks[0].value@)) {
        Some(
            (
                SemanticErrorKind::InvalidIdentifier,
                "Variable names must be unknown tokens"@,
                toks[0].trace@,
            ),
        )
    } else if toks[1].token_type != TokenType::Colon {
        Some(
            (
                SemanticErrorKind::MalformedDeclaration,
                "Expected a colon after the variable name"@,
                toks[1].trace@,
            ),
        )
    } else if toks[3].token_type != TokenType::Assign {
        Some(
            (
                SemanticErrorKind::MalformedDeclaration,
                "Expected an equals sign after the variable type"@,
                toks[3].trace@,
            ),
        )
    } else if value_already_defined(toks[0].value@, functions, imports) {
        Some(
            (
                SemanticErrorKind::DuplicateDefinition,
                duplicate_detail(toks[0].value@),
                toks[0].trace@,
            ),
        )
    } else if !is_data_type_spec(toks[2].token_type) && !any_header_declares_class(
        imports,
        toks[2].value@,
    ) {
        Some(
            (
                SemanticErrorKind::UnknownType,
                "The data type is not recognized"@,
                toks[2].trace@,
            ),
        )
    } else {
        None
    }
}

/// A well-formed declaration of a fresh name with a built-in type earns no
/// fatal diagnostic: a well-shaped prefix whose name is bound neither in
/// the registry nor by any imported header's values, with a data-type
/// keyword in type position, is accepted.
pub proof fn lemma_fresh_builtin_accepted(
    toks: Seq<Token>,
    functions: Seq<Function>,
    imports: Seq<Header>,
)
    requires
        shape_ok(toks),
        !value_already_defined(toks[0].value@, functions, imports),
        is_data_type_spec(toks[2].token_type),
    ensures
        expected_error(toks, functions, imports) is None,
{
}

/// A declaration run of fewer than four tokens is malformed, and the
/// diagnostic cites the first token's trace.
pub proof fn lemma_short_run_malformed(
    toks: Seq<Token>,
    functions: Seq<Function>,
    imports: Seq<Header>,
)
    requires
        toks.len() < 4,
    ensures
        expected_error(toks, functions, imports) matches Some(e) && e.0
            == SemanticErrorKind::MalformedDeclaration && e.2 == toks[0].trace@,
{
}

/// A reserved-keyword token in name position makes the identifier invalid,
/// whatever the rest of the declaration holds.
pub proof fn lemma_keyword_name_rejected(
    toks: Seq<Token>,
    functions: Seq<Function>,
    imports: Seq<Header>,
)
    requires
        toks.len() >= 4,
        toks[0].token_type != TokenType::Unknown,
    ensures
        expected_error(toks, functions, imports) matches Some(e) && e.0
            == SemanticErrorKind::InvalidIdentifier && e.2 == toks[0].trace@,
{
}

/// A name already bound as a function or as an imported header's value is
/// reported as a duplicate definition, even when the type token would also
/// be invalid: redefinition takes priority over type validation.
pub proof fn lemma_duplicate_beats_type(
    toks: Seq<Token>,
    functions: Seq<Function>,
    imports: Seq<Header>,
)
    requires
        shape_ok(toks),
        value_already_defined(toks[0].value@, functions, imports),
    ensures
        expected_error(toks, functions, imports) matches Some(e) && e.0
            == SemanticErrorKind::DuplicateDefinition && e.2 == toks[0].trace@,
{
}

/// A type token that is neither a built-in data type nor a class exported
/// by any imported header earns an unknown-type diagnostic citing the type
/// token's trace.
pub proof fn lemma_unknown_type_rejected(
    toks: Seq<Token>,
    functions: Seq<Function>,
    imports: Seq<Header>,
)
    requires
        shape_ok(toks),
        !value_already_defined(toks[0].value@, functions, imports),
        !is_data_type_spec(toks[2].token_type),
        !any_header_declares_class(imports, toks[2].value@),
    ensures
        expected_error(toks, functions, imports) matches Some(e) && e.0
            == SemanticErrorKind::UnknownType && e.2 == toks[2].trace@,
{
}

/// The naming-convention advisory: flags `var_name` when it is one unbroken
/// alphanumeric run with no word separator, appending one warning to the
/// sink; a separated name leaves the sink untouched. Never fatal.
pub fn check_variable_name(var_name: &String, trace: &String, warnings: &mut Vec<Warning>)
    ensures
        single_run_name(var_name@) ==> warning_emitted(
            old(warnings)@,
            final(warnings)@,
            var_name@,
            trace@,
        ),
        !single_run_name(var_name@) ==> final(warnings)@ == old(warnings)@,
{
    if is_single_run_name(var_name.as_str()) {
        warnings.push(Warning::new(var_name.clone(), trace.clone()));
        proof {
            assert(warnings@.subrange(0, old(warnings)@.len() as int) =~= old(warnings)@);
        }
    }
}

/// Validates one variable declaration: the token run starting at `start`
/// must open with the four-token prefix `name : type =`, the name must be
/// fresh, and the type must be a built-in data type or a class exported by
/// an imported header.
///
/// Returns `Ok(())` exactly when the declaration earns no fatal diagnostic;
/// otherwise the first violation in protocol order, with its explanatory
/// line and the offending token's trace. When the prefix is well-shaped,
/// the naming advisory runs on the name regardless of the later outcome,
/// appending at most one warning; nothing else touches the sink.
pub fn check_variables(
    tokens: &Vec<Token>,
    start: &usize,
    functions: &Vec<Function>,
    imports: &Vec<Header>,
    warnings: &mut Vec<Warning>,
) -> (r: Result<(), SemanticError>)
    requires
        *start < tokens@.len(),
    ensures
        ({
            let toks = tokens@.subrange(*start as int, tokens@.len() as int);
            match r {
                Ok(u) => expected_error(toks, functions@, imports@) is None,
                Err(e) => expected_error(toks, functions@, imports@) == Some(
                    (e.kind, e.detail@, e.trace@),
                ),
            }
        }),
        ({
            let toks = tokens@.subrange(*start as int, tokens@.len() as int);
            if shape_ok(toks) && single_run_name(toks[0].value@) {
                warning_emitted(old(warnings)@, final(warnings)@, toks[0].value@, toks[0].trace@)
            } else {
                final(warnings)@ == old(warnings)@
            }
        }),
{
    let ghost toks = tokens@.subrange(*start as int, tokens@.len() as int);
    let n = tokens.len();
    proof {
        assert(toks.len() == n - *start);
        assert(toks[0] == tokens@[*start as int]);
    }
    if n - *start < 4 {
        return Err(
            SemanticError::new(
                SemanticErrorKind::MalformedDeclaration,
                "Variable definitions must have at least 4 tokens".to_owned(),
                tokens[*start].build_trace(),
            ),
        );
    }
    proof {
        assert(toks[1] == tokens@[*start + 1]);
        assert(toks[2] == tokens@[*start + 2]);
        assert(toks[3] == tokens@[*start + 3]);
    }

    let var_name = &tokens[*start];
    let colon = &tokens[*start + 1];
    let var_type = &tokens[*start + 2];
    let equals = &tokens[*start + 3];

    // The name must be an unknown token (not a keyword) that spells a valid
    // identifier.
    if var_name.get_token_type() != TokenType::Unknown || !is_valid_value_name(
        var_name.get_value().as_str(),
    ) {
        return Err(
            SemanticError::new(
                SemanticErrorKind::InvalidIdentifier,
                "Variable names must be unknown tokens".to_owned(),
                var_name.build_trace(),
            ),
        );
    }

    if colon.get_token_type() != TokenType::Colon {
        return Err(
            SemanticError::new(
                SemanticErrorKind::MalformedDeclaration,
                "Expected a colon after the variable name".to_owned(),
                colon.build_trace(),
            ),
        );
    }

    if equals.get_token_type() != TokenType::Assign {
        return Err(
            SemanticError::new(
                SemanticErrorKind::MalformedDeclaration,
                "Expected an equals sign after the variable type".to_owned(),
                equals.build_trace(),
            ),
        );
    }

    // The shape is known to hold: the advisory runs on the name now, before
    // any later fatal outcome, and never alters control flow.
    check_variable_name(var_name.get_value(), &var_name.build_trace(), warnings);

    // Redefinition runs before type validation: a duplicate name with an
    // invalid type still reports as a duplicate definition.
    if contains_function(functions, var_name.get_value()) || check_header_value_definition(
        var_name.get_value(),
        imports,
    ) {
        let mut detail = "The value ".to_owned();
        detail.append(var_name.get_value().as_str());
        detail.append(" is already defined");
        return Err(
            SemanticError::new(
                SemanticErrorKind::DuplicateDefinition,
                detail,
                var_name.build_trace(),
            ),
        );
    }

    // A built-in data type is accepted immediately; anything else must
    // resolve to a class exported by some imported header.
    if !is_data_type(var_type.get_token_type()) {
        let class_optional = find_imported_classes(var_type.get_value(), imports);
        proof {
            lemma_resolution_hits_iff_declared(imports@, var_type.value@);
        }
        if class_optional.is_none() {
            return Err(
                SemanticError::new(
                    SemanticErrorKind::UnknownType,
                    "The data type is not recognized".to_owned(),
                    var_type.build_trace(),
                ),
            );
        }
    }

    Ok(())
}

} // verus!

