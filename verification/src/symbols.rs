//! The symbol registry's view of earlier passes: the already-collected
//! top-level functions, and the imported module headers with the value and
//! class names each one exports. This crate only reads these; it never
//! mutates them.

use vstd::prelude::*;

verus! {

/// A previously declared top-level callable. Only its name matters here: it
/// is the uniqueness key a new variable name is checked against. The rest of
/// the signature is opaque to this crate.
pub struct Function {
    /// The function's name.
    pub name: String,
}

impl Function {
    /// Builds a registry entry for a function of the given name.
    pub fn new(name: String) -> (r: Function)
        ensures
            r.name@ == name@,
    {
        Function { name }
    }

    /// The function's name.
    pub fn get_name(&self) -> (r: &String)
        ensures
            r@ == self.name@,
    {
        &self.name
    }
}

/// One imported compilation unit, as the checker sees it: where it came
/// from, and the value and class names it exports.
pub struct Header {
    /// The origin path or identifier of the imported unit.
    pub origin: String,
    /// The value names the unit exports.
    pub value_names: Vec<String>,
    /// The class names the unit exports.
    pub class_names: Vec<String>,
}

/// Whether the function registry binds `name`.
pub open spec fn registry_contains(functions: Seq<Function>, name: Seq<char>) -> bool {
    exists|i: int| 0 <= i < functions.len() && #[trigger] functions[i].name@ == name
}

/// Whether `h` exports a value named `name`.
pub open spec fn header_declares_value(h: Header, name: Seq<char>) -> bool {
    exists|i: int| 0 <= i < h.value_names@.len() && #[trigger] h.value_names@[i]@ == name
}

/// Whether `h` exports a class named `name`.
pub open spec fn header_declares_class(h: Header, name: Seq<char>) -> bool {
    exists|i: int| 0 <= i < h.class_names@.len() && #[trigger] h.class_names@[i]@ == name
}

impl Header {
    /// Builds a header from its origin and its exported value and class
    /// names.
    pub fn new(origin: String, value_names: Vec<String>, class_names: Vec<String>) -> (r: Header)
        ensures
            r.origin@ == origin@,
            r.value_names@ == value_names@,
            r.class_names@ == class_names@,
    {
        Header { origin, value_names, class_names }
    }

    /// The origin path or identifier of the imported unit.
    pub fn get_origin(&self) -> (r: &String)
        ensures
            r@ == self.origin@,
    {
        &self.origin
    }

    /// Decides whether this header exports a value named `name`.
    pub fn declares_value(&self, name: &String) -> (r: bool)
        ensures
            r == header_declares_value(*self, name@),
    {
        let n = self.value_names.len();
        let mut i: usize = 0;
        while i < n
            invariant
                n == self.value_names@.len(),
                i <= n,
                forall|j: int| 0 <= j < i ==> #[trigger] self.value_names@[j]@ != name@,
            decreases n - i,
        {
            if self.value_names[i].eq(name) {
                return true;
            }
            i += 1;
        }
        false
    }

    /// Decides whether this header exports a class named `name`.
    pub fn declares_class(&self, name: &String) -> (r: bool)
        ensures
            r == header_declares_class(*self, name@),
    {
        let n = self.class_names.len();
        let mut i: usize = 0;
        while i < n
            invariant
                n == self.class_names@.len(),
                i <= n,
                forall|j: int| 0 <= j < i ==> #[trigger] self.class_names@[j]@ != name@,
            decreases n - i,
        {
            if self.class_names[i].eq(name) {
                return true;
            }
            i += 1;
        }
        false
    }
}

/// Decides whether the registry binds `name`.
pub fn contains_function(functions: &Vec<Function>, name: &String) -> (r: bool)
    ensures
        r == registry_contains(functions@, name@),
{
    let n = functions.len();
    let mut i: usize = 0;
    while i < n
        invariant
            n == functions@.len(),
            i <= n,
            forall|j: int| 0 <= j < i ==> #[trigger] functions@[j].name@ != name@,
        decreases n - i,
    {
        if functions[i].get_name().eq(name) {
            return true;
        }
        i += 1;
    }
    false
}

} // verus!
