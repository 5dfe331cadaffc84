//! Diagnostics the checker decides on: fatal semantic errors that must halt
//! the whole checking pass, and non-fatal style warnings that never affect
//! control flow. Each diagnostic carries a headline, one explanatory line
//! and the offending token's source trace; printing is left to the caller.

use vstd::prelude::*;

verus! {

/// The kind of a fatal semantic error.
#[derive(Clone, Copy, PartialEq, Eq, Structural, Debug)]
pub enum SemanticErrorKind {
    /// The declaration's fixed-position shape is broken: too few tokens, a
    /// missing colon after the name, or a missing assignment operator after
    /// the type.
    MalformedDeclaration,
    /// The name token is a reserved word or fails the identifier grammar.
    InvalidIdentifier,
    /// The name collides with an existing function or with a value exported
    /// by an imported header.
    DuplicateDefinition,
    /// The type token is neither a built-in data type nor a class exported
    /// by any imported header.
    UnknownType,
}

/// The headline a fatal error of kind `k` is reported under.
pub open spec fn headline_of(k: SemanticErrorKind) -> Seq<char> {
    match k {
        SemanticErrorKind::MalformedDeclaration => "Invalid variable definition"@,
        SemanticErrorKind::InvalidIdentifier => "Invalid variable name"@,
        SemanticErrorKind::DuplicateDefinition => "Value already defined"@,
        SemanticErrorKind::UnknownType => "Invalid data type"@,
    }
}

/// A fatal semantic error: its kind, one explanatory line, and the trace of
/// the offending token, cited verbatim. Exactly one such error is produced
/// per failing declaration: the first violation wins and the checking pass
/// stops.
pub struct SemanticError {
    /// What went wrong.
    pub kind: SemanticErrorKind,
    /// The explanatory line shown under the headline.
    pub detail: String,
    /// The offending token's source trace.
    pub trace: String,
}

impl SemanticError {
    /// Builds a fatal error from its kind, explanatory line and trace.
    pub fn new(kind: SemanticErrorKind, detail: String, trace: String) -> (r: SemanticError)
        ensures
            r.kind == kind,
            r.detail@ == detail@,
            r.trace@ == trace@,
    {
        SemanticError { kind, detail, trace }
    }

    /// The headline this error is reported under, determined by its kind.
    pub fn headline(&self) -> (r: String)
        ensures
            r@ == headline_of(self.kind),
    {
        match self.kind {
            SemanticErrorKind::MalformedDeclaration => "Invalid variable definition".to_owned(),
            SemanticErrorKind::InvalidIdentifier => "Invalid variable name".to_owned(),
            SemanticErrorKind::DuplicateDefinition => "Value already defined".to_owned(),
            SemanticErrorKind::UnknownType => "Invalid data type".to_owned(),
        }
    }
}

/// The explanatory line of the style warning on `name`.
pub open spec fn naming_warning_detail(name: Seq<char>) -> Seq<char> {
    "Consider converting "@ + name + " to snake case"@
}

/// A non-fatal naming-convention warning: the flagged name and the trace of
/// its token. Warnings accumulate independently of later fatal outcomes and
/// never alter control flow.
pub struct Warning {
    /// The name the style rule flagged.
    pub name: String,
    /// The flagged token's source trace.
    pub trace: String,
}

impl Warning {
    /// Builds a naming-convention warning for `name` at `trace`.
    pub fn new(name: String, trace: String) -> (r: Warning)
        ensures
            r.name@ == name@,
            r.trace@ == trace@,
    {
        Warning { name, trace }
    }

    /// The headline every naming-convention warning is reported under.
    pub fn headline(&self) -> (r: String)
        ensures
            r@ == "Consider using snake case for variable names"@,
    {
        "Consider using snake case for variable names".to_owned()
    }

    /// The explanatory line, naming the flagged identifier.
    pub fn detail(&self) -> (r: String)
        ensures
            r@ == naming_warning_detail(self.name@),
    {
        let mut line = "Consider converting ".to_owned();
        line.append(self.name.as_str());
        line.append(" to snake case");
        line
    }
}

/// How a warning sink changes when one naming-convention warning on `name`
/// at `trace` is emitted: the new warning is appended and everything already
/// collected stays as it was.
pub open spec fn warning_emitted(
    before: Seq<Warning>,
    after: Seq<Warning>,
    name: Seq<char>,
    trace: Seq<char>,
) -> bool {
    &&& after.len() == before.len() + 1
    &&& after.subrange(0, before.len() as int) == before
    &&& after.last().name@ == name
    &&& after.last().trace@ == trace
}

} // verus!
