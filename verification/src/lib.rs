//! A static-site generator for mathematical blueprint projects: a content
//! root holds one directory per project, each project holds item documents
//! with a front-matter block (lifecycle state, kind, dependencies), and the
//! build turns them into a cross-linked HTML tree with one dependency
//! diagram per project.

use vstd::prelude::*;
use vstd::string::StringExecFns;

pub mod graph;
pub mod item;
pub mod nav;
pub mod project;
pub mod text;
pub mod watch;

verus! {

/// Name of the output directory created inside the content root; entries
/// with this name are never scanned as projects.
pub const OUT_DIR: &'static str = "build";

/// The single tagged error type of the build: every fatal condition is one
/// of these, carrying a human-readable message.
#[derive(Debug)]
pub enum Error {
    Io(String),
    Custom(String),
    Toml(String),
    Template(String),
    Render(String),
    Watch(String),
}

/// The abstract value of an `Error`: its category and its message text.
pub ghost enum ErrorV {
    Io(Seq<char>),
    Custom(Seq<char>),
    Toml(Seq<char>),
    Template(Seq<char>),
    Render(Seq<char>),
    Watch(Seq<char>),
}

impl View for Error {
    type V = ErrorV;

    open spec fn view(&self) -> ErrorV {
        match self {
            Error::Io(m) => ErrorV::Io(m@),
            Error::Custom(m) => ErrorV::Custom(m@),
            Error::Toml(m) => ErrorV::Toml(m@),
            Error::Template(m) => ErrorV::Template(m@),
            Error::Render(m) => ErrorV::Render(m@),
            Error::Watch(m) => ErrorV::Watch(m@),
        }
    }
}

/// The message text held by an error, without its category prefix.
pub open spec fn spec_error_text(e: Error) -> Seq<char> {
    match e {
        Error::Io(m) => m@,
        Error::Custom(m) => m@,
        Error::Toml(m) => m@,
        Error::Template(m) => m@,
        Error::Render(m) => m@,
        Error::Watch(m) => m@,
    }
}

/// The category prefix that the original console output puts before the text.
pub open spec fn spec_error_prefix(e: Error) -> Seq<char> {
    match e {
        Error::Io(_) => "I/O Error: "@,
        Error::Custom(_) => "Error: "@,
        Error::Toml(_) => "TOML Decoding Error: "@,
        Error::Template(_) => "Template Error: "@,
        Error::Render(_) => "Rendering Error: "@,
        Error::Watch(_) => "Watch Error: "@,
    }
}

impl Error {
    /// Render the error as one line of text, category first.
    pub fn message(&self) -> (r: String)
        ensures
            r@ == spec_error_prefix(*self) + spec_error_text(*self),
    {
        let prefix: &str = match self {
            Error::Io(_) => "I/O Error: ",
            Error::Custom(_) => "Error: ",
            Error::Toml(_) => "TOML Decoding Error: ",
            Error::Template(_) => "Template Error: ",
            Error::Render(_) => "Rendering Error: ",
            Error::Watch(_) => "Watch Error: ",
        };
        let text: &String = match self {
            Error::Io(m) => m,
            Error::Custom(m) => m,
            Error::Toml(m) => m,
            Error::Template(m) => m,
            Error::Render(m) => m,
            Error::Watch(m) => m,
        };
        let mut out: String = prefix.to_owned();
        out.append(text.as_str());
        out
    }
}

} // verus!
