//! Error kinds of the resolution pipeline. The payload names the offending
//! path, id or message.

use vstd::prelude::*;

verus! {

#[derive(Debug)]
pub enum SiteError {
    /// A file, page, theme, font or menu entry was not found.
    NotFound(String),
    /// A structurally valid but semantically illegal request.
    InvalidInput(String),
    /// A read, write or copy fault other than not-found.
    IOFailure(String),
    /// Malformed configuration: bad JSON, bad color value, empty registry.
    ConfigInvalid(String),
}

impl SiteError {
    /// The payload carried by the error.
    pub open spec fn spec_message(&self) -> Seq<char> {
        match self {
            SiteError::NotFound(m) => m@,
            SiteError::InvalidInput(m) => m@,
            SiteError::IOFailure(m) => m@,
            SiteError::ConfigInvalid(m) => m@,
        }
    }

    pub fn message(&self) -> (m: &String)
        ensures
            m@ == self.spec_message(),
    {
        match self {
            SiteError::NotFound(m) => m,
            SiteError::InvalidInput(m) => m,
            SiteError::IOFailure(m) => m,
            SiteError::ConfigInvalid(m) => m,
        }
    }
}

} // verus!
