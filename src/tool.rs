//! The tool itself and the parameters of its two operations.

use vstd::prelude::*;

verus! {

/// Parameters of a search: the directory to search and the keyword.
#[derive(Debug)]
pub struct SearchParams {
    pub directory: String,
    pub keyword: String,
}

/// Parameters of a file read: the path of the file.
#[derive(Debug)]
pub struct FileContentParams {
    pub file_path: String,
}

/// The search-and-read tool. It holds no state: each operation stands alone.
#[derive(Debug, Clone, Copy)]
pub struct SearchTool;

impl SearchTool {
    /// A new tool.
    pub fn new() -> (r: Self) {
        SearchTool
    }
}

/// `a + mid + b`, as a new string.
pub(crate) fn enclose(a: &str, mid: &str, b: &str) -> (r: String)
    ensures
        r@ == a@ + mid@ + b@,
{
    let mut s = String::from_str(a);
    s.append(mid);
    s.append(b);
    s
}

} // verus!
