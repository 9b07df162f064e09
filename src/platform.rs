use vstd::prelude::*;

verus! {

/// The conventions of the host: how lines end and how paths are joined.
/// Only two families are known; any other host is `Unsupported`.
#[derive(Clone, Copy, Debug, PartialEq, Eq, Structural)]
pub enum Platform {
    Unix,
    Windows,
    Unsupported,
}

/// `true` exactly when the two texts hold the same characters.
pub fn same_text(a: &str, b: &str) -> (r: bool)
    ensures
        r == (a@ == b@),
{
    let n = a.unicode_len();
    if n != b.unicode_len() {
        return false;
    }
    let mut i: usize = 0;
    while i < n
        invariant
            n == a@.len(),
            n == b@.len(),
            i <= n,
            forall|j: int| 0 <= j < i ==> a@[j] == b@[j],
        decreases n - i,
    {
        if a.get_char(i) != b.get_char(i) {
            return false;
        }
        i = i + 1;
    }
    assert(a@ =~= b@);
    true
}

impl Platform {
    /// The platform named by an operating-system identifier.
    pub open spec fn spec_from_os_name(os: Seq<char>) -> Platform {
        if os == "linux"@ {
            Platform::Unix
        } else if os == "windows"@ {
            Platform::Windows
        } else {
            Platform::Unsupported
        }
    }

    /// Picks the platform from an operating-system identifier such as
    /// `"linux"` or `"windows"`.
    pub fn from_os_name(os: &str) -> (r: Platform)
        ensures
            r == Self::spec_from_os_name(os@),
    {
        if same_text(os, "linux") {
            Platform::Unix
        } else if same_text(os, "windows") {
            Platform::Windows
        } else {
            Platform::Unsupported
        }
    }

    /// The line terminator, where the platform has one.
    pub open spec fn spec_line_terminator(self) -> Option<Seq<char>> {
        match self {
            Platform::Unix => Some("\n"@),
            Platform::Windows => Some("\r\n"@),
            Platform::Unsupported => None,
        }
    }

    /// The path separator, where the platform has one.
    pub open spec fn spec_path_separator(self) -> Option<Seq<char>> {
        match self {
            Platform::Unix => Some("/"@),
            Platform::Windows => Some("\\"@),
            Platform::Unsupported => None,
        }
    }

    pub fn line_terminator(&self) -> (r: Option<&'static str>)
        ensures
            r matches Some(t) ==> self.spec_line_terminator() == Some(t@),
            r is None ==> self.spec_line_terminator() is None,
    {
        match self {
            Platform::Unix => Some("\n"),
            Platform::Windows => Some("\r\n"),
            Platform::Unsupported => None,
        }
    }

    pub fn path_separator(&self) -> (r: Option<&'static str>)
        ensures
            r matches Some(s) ==> self.spec_path_separator() == Some(s@),
            r is None ==> self.spec_path_separator() is None,
    {
        match self {
            Platform::Unix => Some("/"),
            Platform::Windows => Some("\\"),
            Platform::Unsupported => None,
        }
    }
}

} // verus!
