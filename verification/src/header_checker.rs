//! Lookups across the imported headers: whether any header already exports a
//! value name, and first-match resolution of a class name in import order.

use vstd::prelude::*;
use crate::symbols::{Header, header_declares_class, header_declares_value};

verus! {

/// Whether some imported header exports a value named `name`.
pub open spec fn any_header_declares_value(headers: Seq<Header>, name: Seq<char>) -> bool {
    exists|i: int| 0 <= i < headers.len() && header_declares_value(#[trigger] headers[i], name)
}

/// Whether some imported header exports a class named `name`.
pub open spec fn any_header_declares_class(headers: Seq<Header>, name: Seq<char>) -> bool {
    exists|i: int| 0 <= i < headers.len() && header_declares_class(#[trigger] headers[i], name)
}

/// The index of the header that resolves a class named `name`: the first
/// header in import order that exports such a class, or `None` when no
/// header does. Import order is significant: when two headers export the
/// same class name, the earlier one is the resolved definition.
pub open spec fn resolved_class_index(headers: Seq<Header>, name: Seq<char>) -> Option<int>
    decreases headers.len(),
{
    if headers.len() == 0 {
        None
    } else if header_declares_class(headers[0], name) {
        Some(0)
    } else {
        match resolved_class_index(headers.drop_first(), name) {
            Some(i) => Some(i + 1),
            None => None,
        }
    }
}

/// The resolved index, when there is one, is a real hit, and every earlier
/// header misses; when there is none, every header misses. So resolution is
/// exactly "first match wins" over the import order.
pub proof fn lemma_resolved_class_index_characterized(headers: Seq<Header>, name: Seq<char>)
    ensures
        match resolved_class_index(headers, name) {
            Some(i) => {
                &&& 0 <= i < headers.len()
                &&& header_declares_class(headers[i], name)
                &&& forall|j: int|
                    0 <= j < i ==> !header_declares_class(#[trigger] headers[j], name)
            },
            None => forall|j: int|
                0 <= j < headers.len() ==> !header_declares_class(#[trigger] headers[j], name),
        },
    decreases headers.len(),
{
    if headers.len() == 0 {
    } else if header_declares_class(headers[0], name) {
    } else {
        lemma_resolved_class_index_characterized(headers.drop_first(), name);
        assert forall|j: int| 1 <= j < headers.len() implies headers.drop_first()[j - 1]
            == headers[j] by {}
    }
}

/// A hit at `i` with only misses before it pins the resolved index to `i`:
/// the converse direction of the characterization.
pub proof fn lemma_resolved_class_index_of_first_hit(headers: Seq<Header>, name: Seq<char>, i: int)
    requires
        0 <= i < headers.len(),
        header_declares_class(headers[i], name),
        forall|j: int| 0 <= j < i ==> !header_declares_class(#[trigger] headers[j], name),
    ensures
        resolved_class_index(headers, name) == Some(i),
    decreases headers.len(),
{
    if i == 0 {
    } else {
        assert(!header_declares_class(headers[0], name));
        assert(headers.drop_first()[i - 1] == headers[i]);
        assert forall|j: int| 0 <= j < i - 1 implies !header_declares_class(
            #[trigger] headers.drop_first()[j],
            name,
        ) by {
            assert(headers.drop_first()[j] == headers[j + 1]);
        }
        lemma_resolved_class_index_of_first_hit(headers.drop_first(), name, i - 1);
    }
}

/// Misses everywhere leave the class unresolved: the converse direction of
/// the characterization for `None`.
pub proof fn lemma_resolved_class_index_of_no_hit(headers: Seq<Header>, name: Seq<char>)
    requires
        forall|j: int| 0 <= j < headers.len() ==> !header_declares_class(
            #[trigger] headers[j],
            name,
        ),
    ensures
        resolved_class_index(headers, name) is None,
    decreases headers.len(),
{
    if headers.len() == 0 {
    } else {
        assert forall|j: int| 0 <= j < headers.drop_first().len() implies !header_declares_class(
            #[trigger] headers.drop_first()[j],
            name,
        ) by {
            assert(headers.drop_first()[j] == headers[j + 1]);
        }
        lemma_resolved_class_index_of_no_hit(headers.drop_first(), name);
    }
}

/// Import-order determinism: when the first header in the import list
/// exports a class of the wanted name, resolution picks that header's
/// definition, whatever any later header exports under the same name.
pub proof fn lemma_import_order_determinism(headers: Seq<Header>, name: Seq<char>)
    requires
        headers.len() >= 1,
        header_declares_class(headers[0], name),
    ensures
        resolved_class_index(headers, name) == Some(0int),
{
}

/// A class resolves exactly when some header exports it: resolution never
/// invents a hit and never misses one.
pub proof fn lemma_resolution_hits_iff_declared(headers: Seq<Header>, name: Seq<char>)
    ensures
        resolved_class_index(headers, name) is Some <==> any_header_declares_class(headers, name),
{
    lemma_resolved_class_index_characterized(headers, name);
    match resolved_class_index(headers, name) {
        Some(i) => {
            assert(any_header_declares_class(headers, name));
        },
        None => {},
    }
}

/// Decides whether any imported header already exports a value named
/// `value_name`: the redefinition check's view of the imports.
pub fn check_header_value_definition(value_name: &String, imports: &Vec<Header>) -> (r: bool)
    ensures
        r == any_header_declares_value(imports@, value_name@),
{
    let n = imports.len();
    let mut i: usize = 0;
    while i < n
        invariant
            n == imports@.len(),
            i <= n,
            forall|j: int| 0 <= j < i ==> !header_declares_value(#[trigger] imports@[j], value_name@),
        decreases n - i,
    {
        if imports[i].declares_value(value_name) {
            return true;
        }
        i += 1;
    }
    false
}

/// Searches the imported headers, in import order, for a class named
/// `class_name`; the first header that exports one wins. Returns the index
/// of that header in the import list, or `None` when no header exports the
/// class. Read-only: no header is touched.
pub fn find_imported_classes(class_name: &String, imports: &Vec<Header>) -> (r: Option<usize>)
    ensures
        match r {
            Some(i) => resolved_class_index(imports@, class_name@) == Some(i as int),
            None => resolved_class_index(imports@, class_name@) is None,
        },
{
    let n = imports.len();
    let mut i: usize = 0;
    while i < n
        invariant
            n == imports@.len(),
            i <= n,
            forall|j: int| 0 <= j < i ==> !header_declares_class(#[trigger] imports@[j], class_name@),
        decreases n - i,
    {
        if imports[i].declares_class(class_name) {
            proof {
                lemma_resolved_class_index_of_first_hit(imports@, class_name@, i as int);
            }
            return Some(i);
        }
        i += 1;
    }
    proof {
        lemma_resolved_class_index_of_no_hit(imports@, class_name@);
    }
    None
}

} // verus!
