//! Files handed in by the caller, and the extraction of names from the PHP
//! files among them.
use vstd::prelude::*;
use crate::text::ends_with;

verus! {

/// A file of the project: its name (the last path component) and its text.
pub struct SourceFile {
    pub name: String,
    pub content: String,
}

impl View for SourceFile {
    type V = (Seq<char>, Seq<char>);

    open spec fn view(&self) -> (Seq<char>, Seq<char>) {
        (self.name@, self.content@)
    }
}

/// `Path::extension` of a file named `n` is `"php"`: the name ends in `.php`
/// and that dot is not its first character.
pub open spec fn is_php_name(n: Seq<char>) -> bool {
    n.len() > 4 && ends_with(n, ".php"@)
}

pub open spec fn files_view(files: Seq<SourceFile>) -> Seq<(Seq<char>, Seq<char>)> {
    files.map_values(|f: SourceFile| f@)
}

} // verus!
