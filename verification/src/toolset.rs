//! The toolset selector: its accepted spellings and the names derived from it.

use vstd::prelude::*;
use vstd::string::*;
use crate::types::VisualStudioToolsetVersion;

verus! {

/// The toolset that a selector names, if it names one.
pub open spec fn toolset_of(s: Seq<char>) -> Option<VisualStudioToolsetVersion> {
    if s == "2015"@ || s == "140"@ || s == "v140"@ {
        Some(VisualStudioToolsetVersion::V140)
    } else if s == "2017"@ || s == "141"@ || s == "v141"@ {
        Some(VisualStudioToolsetVersion::V141)
    } else if s == "2019"@ || s == "142"@ || s == "v142"@ {
        Some(VisualStudioToolsetVersion::V142)
    } else {
        None
    }
}

/// The identifier handed to the configuration tool.
pub open spec fn toolset_id(v: VisualStudioToolsetVersion) -> Seq<char> {
    match v {
        VisualStudioToolsetVersion::V140 => "v140"@,
        VisualStudioToolsetVersion::V141 => "v141"@,
        VisualStudioToolsetVersion::V142 => "v142"@,
    }
}

/// The argument that selects the toolset for the Boost build program.
pub open spec fn boost_toolset(v: VisualStudioToolsetVersion) -> Seq<char> {
    match v {
        VisualStudioToolsetVersion::V140 => "toolset=msvc-14.0"@,
        VisualStudioToolsetVersion::V141 => "toolset=msvc-14.1"@,
        VisualStudioToolsetVersion::V142 => "toolset=msvc-14.2"@,
    }
}

/// The name of the directory, below the top directory, that holds the artifacts.
pub open spec fn artifact_dir_of(v: VisualStudioToolsetVersion) -> Seq<char> {
    match v {
        VisualStudioToolsetVersion::V140 => "v140r"@,
        VisualStudioToolsetVersion::V141 => "v141r"@,
        VisualStudioToolsetVersion::V142 => "v142r"@,
    }
}

/// The product name shown to the user.
pub open spec fn display_of(v: VisualStudioToolsetVersion) -> Seq<char> {
    match v {
        VisualStudioToolsetVersion::V140 => "2015 (14.0)"@,
        VisualStudioToolsetVersion::V141 => "2017 (14.1)"@,
        VisualStudioToolsetVersion::V142 => "2019 (14.2)"@,
    }
}

/// What a command line asks for.
#[derive(Clone, Copy, Debug, PartialEq, Eq, Structural)]
pub enum Invocation {
    /// Show the usage text and do nothing else.
    Help,
    /// No toolset was selected: a usage error.
    MissingToolset,
    /// The selector names no toolset: a usage error.
    InvalidToolset,
    /// Build with this toolset.
    Build(VisualStudioToolsetVersion),
}

/// What is asked for by a command line with or without the help flag and
/// with or without a toolset selector. The help flag wins.
pub open spec fn invocation_of(help: bool, selector: Option<Seq<char>>) -> Invocation {
    if help {
        Invocation::Help
    } else {
        match selector {
            None => Invocation::MissingToolset,
            Some(s) => match toolset_of(s) {
                Some(v) => Invocation::Build(v),
                None => Invocation::InvalidToolset,
            },
        }
    }
}

fn same(a: &String, b: &str) -> (r: bool)
    ensures
        r == (a@ == b@),
{
    let other = String::from_str(b);
    *a == other
}

/// Reads a toolset selector. Each toolset has three spellings: the product
/// year, the toolset number, and the number with a leading `v`.
pub fn parse_toolset(selector: &str) -> (r: Option<VisualStudioToolsetVersion>)
    ensures
        r == toolset_of(selector@),
{
    let s = String::from_str(selector);
    if same(&s, "2015") || same(&s, "140") || same(&s, "v140") {
        Some(VisualStudioToolsetVersion::V140)
    } else if same(&s, "2017") || same(&s, "141") || same(&s, "v141") {
        Some(VisualStudioToolsetVersion::V141)
    } else if same(&s, "2019") || same(&s, "142") || same(&s, "v142") {
        Some(VisualStudioToolsetVersion::V142)
    } else {
        None
    }
}

/// Decides what a parsed command line asks for.
pub fn decide_invocation(help: bool, selector: Option<&str>) -> (r: Invocation)
    ensures
        r == invocation_of(
            help,
            match selector {
                Some(s) => Some(s@),
                None => None,
            },
        ),
{
    if help {
        return Invocation::Help;
    }
    match selector {
        None => Invocation::MissingToolset,
        Some(s) => match parse_toolset(s) {
            Some(v) => Invocation::Build(v),
            None => Invocation::InvalidToolset,
        },
    }
}

impl VisualStudioToolsetVersion {
    /// The identifier handed to the configuration tool.
    pub fn id(&self) -> (r: &'static str)
        ensures
            r@ == toolset_id(*self),
    {
        match self {
            VisualStudioToolsetVersion::V140 => "v140",
            VisualStudioToolsetVersion::V141 => "v141",
            VisualStudioToolsetVersion::V142 => "v142",
        }
    }

    /// The argument that selects the toolset for the Boost build program.
    pub fn boost_argument(&self) -> (r: &'static str)
        ensures
            r@ == boost_toolset(*self),
    {
        match self {
            VisualStudioToolsetVersion::V140 => "toolset=msvc-14.0",
            VisualStudioToolsetVersion::V141 => "toolset=msvc-14.1",
            VisualStudioToolsetVersion::V142 => "toolset=msvc-14.2",
        }
    }

    /// The name of the directory, below the top directory, that holds the artifacts.
    pub fn artifact_dir_name(&self) -> (r: &'static str)
        ensures
            r@ == artifact_dir_of(*self),
    {
        match self {
            VisualStudioToolsetVersion::V140 => "v140r",
            VisualStudioToolsetVersion::V141 => "v141r",
            VisualStudioToolsetVersion::V142 => "v142r",
        }
    }

    /// The product name shown to the user.
    pub fn display_name(&self) -> (r: &'static str)
        ensures
            r@ == display_of(*self),
    {
        match self {
            VisualStudioToolsetVersion::V140 => "2015 (14.0)",
            VisualStudioToolsetVersion::V141 => "2017 (14.1)",
            VisualStudioToolsetVersion::V142 => "2019 (14.2)",
        }
    }
}

} // verus!
