use vstd::prelude::*;

verus! {

/// Errors reported to the caller of the runner.
#[derive(Debug, Clone, PartialEq, Eq)]
pub enum RunError {
    /// A runtime name outside the recognized set was given to the probe.
    UnsupportedRuntime,
    /// A language name outside the recognized set was given to the runner.
    UnsupportedLanguage,
    /// An operating-system step failed; the text describes the cause.
    Io(String),
}

/// The text of an error, as reported to the caller.
pub open spec fn error_text(e: RunError) -> Seq<char> {
    match e {
        RunError::UnsupportedRuntime => "Unknown runtime"@,
        RunError::UnsupportedLanguage => "Unsupported language"@,
        RunError::Io(msg) => msg@,
    }
}

impl RunError {
    /// The description handed to the caller.
    pub fn message(&self) -> (r: String)
        ensures
            r@ == error_text(*self),
    {
        match self {
            RunError::UnsupportedRuntime => "Unknown runtime".to_owned(),
            RunError::UnsupportedLanguage => "Unsupported language".to_owned(),
            RunError::Io(msg) => msg.clone(),
        }
    }
}

/// Compares two strings character by character.
pub fn same_text(a: &str, b: &str) -> (r: bool)
    ensures
        r == (a@ == b@),
{
    a.to_owned() == b.to_owned()
}

/// A language that source code can be executed in.
#[derive(Debug, Clone, Copy, PartialEq, Eq, Structural)]
pub enum Language {
    Python,
    JavaScript,
}

/// The name under which a language is requested.
pub open spec fn language_name(l: Language) -> Seq<char> {
    match l {
        Language::Python => "python"@,
        Language::JavaScript => "javascript"@,
    }
}

/// The interpreter binary that runs a language.
pub open spec fn interpreter_of(l: Language) -> Seq<char> {
    match l {
        Language::Python => "python3"@,
        Language::JavaScript => "node"@,
    }
}

/// The file extension of a language's scratch file, as ASCII bytes
/// ("py" and "js").
pub open spec fn extension_of(l: Language) -> Seq<u8> {
    match l {
        Language::Python => seq![112u8, 121u8],
        Language::JavaScript => seq![106u8, 115u8],
    }
}

impl Language {
    /// Looks a language up by name; names outside the table are rejected.
    pub fn from_name(name: &str) -> (r: Result<Language, RunError>)
        ensures
            match r {
                Ok(l) => language_name(l) == name@,
                Err(e) => e == RunError::UnsupportedLanguage
                    && name@ != language_name(Language::Python)
                    && name@ != language_name(Language::JavaScript),
            },
    {
        if same_text(name, "python") {
            Ok(Language::Python)
        } else if same_text(name, "javascript") {
            Ok(Language::JavaScript)
        } else {
            Err(RunError::UnsupportedLanguage)
        }
    }

    /// The interpreter binary for this language.
    pub fn interpreter(&self) -> (r: &'static str)
        ensures
            r@ == interpreter_of(*self),
    {
        match self {
            Language::Python => "python3",
            Language::JavaScript => "node",
        }
    }

    /// The scratch file extension for this language, as bytes.
    pub fn extension(&self) -> (r: Vec<u8>)
        ensures
            r@ == extension_of(*self),
    {
        match self {
            Language::Python => vec![112u8, 121u8],
            Language::JavaScript => vec![106u8, 115u8],
        }
    }
}

/// An interpreter runtime whose presence can be probed.
#[derive(Debug, Clone, Copy, PartialEq, Eq, Structural)]
pub enum Runtime {
    Python,
    Node,
}

/// The name under which a runtime is probed.
pub open spec fn runtime_name(rt: Runtime) -> Seq<char> {
    match rt {
        Runtime::Python => "python"@,
        Runtime::Node => "node"@,
    }
}

/// The binary launched to probe a runtime.
pub open spec fn probe_program_of(rt: Runtime) -> Seq<char> {
    match rt {
        Runtime::Python => "python3"@,
        Runtime::Node => "node"@,
    }
}

impl Runtime {
    /// Looks a runtime up by name; names outside the table are rejected.
    pub fn from_name(name: &str) -> (r: Result<Runtime, RunError>)
        ensures
            match r {
                Ok(rt) => runtime_name(rt) == name@,
                Err(e) => e == RunError::UnsupportedRuntime
                    && name@ != runtime_name(Runtime::Python)
                    && name@ != runtime_name(Runtime::Node),
            },
    {
        if same_text(name, "python") {
            Ok(Runtime::Python)
        } else if same_text(name, "node") {
            Ok(Runtime::Node)
        } else {
            Err(RunError::UnsupportedRuntime)
        }
    }

    /// The binary launched to probe this runtime.
    pub fn program(&self) -> (r: &'static str)
        ensures
            r@ == probe_program_of(*self),
    {
        match self {
            Runtime::Python => "python3",
            Runtime::Node => "node",
        }
    }

    /// The single argument that makes the binary report its version.
    pub fn version_flag(&self) -> (r: &'static str)
        ensures
            r@ == "--version"@,
    {
        "--version"
    }
}

} // verus!
