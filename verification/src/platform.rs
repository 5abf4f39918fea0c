//! The host platform, as far as it shapes file names and paths.

use vstd::prelude::*;
use vstd::string::StringExecFns;

verus! {

/// The family of operating system that the supervised bundle runs on.
#[derive(Clone, Copy, Debug, PartialEq, Eq, Structural)]
pub enum Platform {
    /// Executables end in `.exe`; `\` and `/` both part the components of a path.
    Windows,
    /// Executables carry no suffix; `/` parts the components of a path.
    Unix,
}

impl Platform {
    /// The character that is written between two components of a path.
    pub open spec fn separator_spec(self) -> char {
        match self {
            Platform::Windows => '\\',
            Platform::Unix => '/',
        }
    }

    /// Whether `c` parts two components of a path.
    pub open spec fn is_separator_spec(self, c: char) -> bool {
        c == '/' || (self == Platform::Windows && c == '\\')
    }

    /// The character that is written between two components of a path.
    pub fn separator(self) -> (c: char)
        ensures
            c == self.separator_spec(),
            self.is_separator_spec(c),
    {
        match self {
            Platform::Windows => '\\',
            Platform::Unix => '/',
        }
    }

    /// Whether `c` parts two components of a path.
    pub fn is_separator(self, c: char) -> (b: bool)
        ensures
            b == self.is_separator_spec(c),
    {
        match self {
            Platform::Windows => c == '/' || c == '\\',
            Platform::Unix => c == '/',
        }
    }
}

/// The file name of the executable called `name`.
pub open spec fn exe_name_spec(name: Seq<char>, platform: Platform) -> Seq<char> {
    match platform {
        Platform::Windows => name + ".exe"@,
        Platform::Unix => name,
    }
}

/// The file name of the executable called `name`: `name.exe` on Windows,
/// `name` itself elsewhere.
pub fn exe_name(name: &str, platform: Platform) -> (file: String)
    ensures
        file@ == exe_name_spec(name@, platform),
{
    let mut file = String::from_str(name);
    match platform {
        Platform::Windows => {
            file.append(".exe");
        },
        Platform::Unix => {},
    }
    file
}

} // verus!
