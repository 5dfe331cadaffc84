//! Emission of include directives for a file's imports: each seen import
//! becomes one `#include "<path>"` line, in the order the imports were
//! seen.

use vstd::prelude::*;

verus! {

/// The emission stage's view of one source file: the imports seen in it,
/// in source order, each as the path the include directive will cite.
pub struct FileCode {
    /// The imports seen so far, in source order.
    pub seen_imports: Vec<String>,
}

impl FileCode {
    /// A file with no imports seen yet.
    pub fn new() -> (r: FileCode)
        ensures
            r.seen_imports@.len() == 0,
    {
        FileCode { seen_imports: Vec::new() }
    }

    /// Records one more seen import.
    pub fn add_import(&mut self, import: String)
        ensures
            final(self).seen_imports@ == old(self).seen_imports@.push(import),
    {
        self.seen_imports.push(import);
    }

    /// The imports seen so far, in source order.
    pub fn get_seen_imports(&self) -> (r: &Vec<String>)
        ensures
            r@ == self.seen_imports@,
    {
        &self.seen_imports
    }
}

/// The include directive for one import path.
pub open spec fn include_line(path: Seq<char>) -> Seq<char> {
    "#include \""@ + path + "\"\n"@
}

/// The include directives for the first `k` imports, concatenated in
/// order.
pub open spec fn include_lines_up_to(imports: Seq<String>, k: int) -> Seq<char>
    decreases k,
{
    if k <= 0 {
        Seq::empty()
    } else {
        include_lines_up_to(imports, k - 1) + include_line(imports[k - 1]@)
    }
}

/// The include directives for all of a file's imports, in the order the
/// imports were seen.
pub open spec fn include_lines(imports: Seq<String>) -> Seq<char> {
    include_lines_up_to(imports, imports.len() as int)
}

/// Appends one include directive per seen import to `transpiled_code`, in
/// the order the imports were seen; what was already emitted stays in
/// place.
pub fn transpile_imports(file_code: &FileCode, transpiled_code: &mut String)
    ensures
        final(transpiled_code)@ == old(transpiled_code)@ + include_lines(
            file_code.seen_imports@,
        ),
{
    let imports = file_code.get_seen_imports();
    let n = imports.len();
    let mut i: usize = 0;
    while i < n
        invariant
            n == imports@.len(),
            imports@ == file_code.seen_imports@,
            i <= n,
            transpiled_code@ == old(transpiled_code)@ + include_lines_up_to(imports@, i as int),
        decreases n - i,
    {
        transpiled_code.append("#include \"");
        transpiled_code.append(imports[i].as_str());
        transpiled_code.append("\"\n");
        i += 1;
    }
}

} // verus!
