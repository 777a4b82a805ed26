//! The regex flavors that the compiler can target.

use vstd::prelude::*;

verus! {

/// A regex flavor: the dialect of regular expressions that is compiled to.
#[derive(Debug, Clone, Copy, PartialEq, Eq, Structural)]
pub enum RegexFlavor {
    Pcre,
    Python,
    Java,
    JavaScript,
    DotNet,
    Ruby,
    Rust,
}

impl RegexFlavor {
    /// The flavor's name as messages show it, which is the name of the
    /// variant.
    pub open spec fn label(self) -> Seq<char> {
        match self {
            RegexFlavor::Pcre => "Pcre"@,
            RegexFlavor::Python => "Python"@,
            RegexFlavor::Java => "Java"@,
            RegexFlavor::JavaScript => "JavaScript"@,
            RegexFlavor::DotNet => "DotNet"@,
            RegexFlavor::Ruby => "Ruby"@,
            RegexFlavor::Rust => "Rust"@,
        }
    }

    /// The flavor's name as messages show it.
    pub fn name(self) -> (text: &'static str)
        ensures
            text@ == self.label(),
    {
        match self {
            RegexFlavor::Pcre => "Pcre",
            RegexFlavor::Python => "Python",
            RegexFlavor::Java => "Java",
            RegexFlavor::JavaScript => "JavaScript",
            RegexFlavor::DotNet => "DotNet",
            RegexFlavor::Ruby => "Ruby",
            RegexFlavor::Rust => "Rust",
        }
    }
}

} // verus!
