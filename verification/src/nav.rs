//! The navigation index: a read-only view over the full set of projects,
//! built fresh for each build and handed to every rendered page, and the
//! home page's body, converted from the root description source with its
//! fixed literal heading line stripped.

use vstd::prelude::*;

use crate::project::Project;
use crate::text::{html_of, markdown_to_html, replace_all, replaced_of};
use crate::Error;

verus! {

/// The navigation index of one build: the projects in discovery order.
pub struct Nav<'a> {
    pub projects: &'a Vec<Project>,
}

/// The data of the home page: its body and the navigation index.
pub struct IndexPage<'a> {
    pub body: String,
    pub nav: &'a Nav<'a>,
}

impl<'a> Nav<'a> {
    /// The home page's body: the root description source, required to be
    /// present, with the fixed heading line stripped, converted to HTML.
    pub fn body(&self, readme: Option<&String>) -> (r: Result<String, Error>)
        ensures
            match r {
                Ok(b) => readme matches Some(t) && b@ == html_of(
                    replaced_of(t@, "# Metamath Blueprints"@, ""@),
                ),
                Err(e) => readme is None && e@ == crate::ErrorV::Custom(
                    "No README.md file for index"@,
                ),
            },
    {
        let text = match readme {
            None => {
                return Err(Error::Custom("No README.md file for index".to_owned()));
            },
            Some(t) => t,
        };
        let stripped = replace_all(text, "# Metamath Blueprints", "");
        Ok(markdown_to_html(&stripped))
    }
}

} // verus!
