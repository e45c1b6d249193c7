//! The ways in which a build script's configuration can be unusable.

use vstd::prelude::*;

verus! {

/// A configuration fault that leaves a build script unable to go on.
#[derive(Debug, PartialEq, Eq)]
pub enum BuildError {
    /// A variable that the build needs is not set, or is not valid text.
    MissingVariable { name: String },
    /// A platform triple with fewer than three parts.
    MalformedTriple { input: String },
    /// A build profile other than `release` and `debug`.
    UnsupportedProfile { profile: String },
}

/// A [`BuildError`] with its texts as character sequences.
pub enum BuildErrorView {
    MissingVariable { name: Seq<char> },
    MalformedTriple { input: Seq<char> },
    UnsupportedProfile { profile: Seq<char> },
}

impl BuildErrorView {
    /// The diagnostic that names what was wrong.
    pub open spec fn message(self) -> Seq<char> {
        match self {
            BuildErrorView::MissingVariable { name } => "environment variable "@ + name
                + " is missing or is not valid text"@,
            BuildErrorView::MalformedTriple { input } => "Failed to parse TARGET "@ + input,
            BuildErrorView::UnsupportedProfile { profile } => "PROFILE '"@ + profile
                + "' is not supported by this build script"@,
        }
    }
}

impl View for BuildError {
    type V = BuildErrorView;

    open spec fn view(&self) -> BuildErrorView {
        match self {
            BuildError::MissingVariable { name } => BuildErrorView::MissingVariable { name: name@ },
            BuildError::MalformedTriple { input } => BuildErrorView::MalformedTriple {
                input: input@,
            },
            BuildError::UnsupportedProfile { profile } => BuildErrorView::UnsupportedProfile {
                profile: profile@,
            },
        }
    }
}

impl Clone for BuildError {
    fn clone(&self) -> (copy: BuildError)
        ensures
            copy@ == self@,
    {
        match self {
            BuildError::MissingVariable { name } => BuildError::MissingVariable {
                name: name.clone(),
            },
            BuildError::MalformedTriple { input } => BuildError::MalformedTriple {
                input: input.clone(),
            },
            BuildError::UnsupportedProfile { profile } => BuildError::UnsupportedProfile {
                profile: profile.clone(),
            },
        }
    }
}

impl BuildError {
    /// The diagnostic to abort the build with.
    pub fn message(&self) -> (text: String)
        ensures
            text@ == self@.message(),
    {
        match self {
            BuildError::MissingVariable { name } => {
                let mut text = String::from_str("environment variable ");
                text.append(name.as_str());
                text.append(" is missing or is not valid text");
                text
            },
            BuildError::MalformedTriple { input } => {
                let mut text = String::from_str("Failed to parse TARGET ");
                text.append(input.as_str());
                text
            },
            BuildError::UnsupportedProfile { profile } => {
                let mut text = String::from_str("PROFILE '");
                text.append(profile.as_str());
                text.append("' is not supported by this build script");
                text
            },
        }
    }
}

/// A result with its value and its error as their views.
pub open spec fn viewed<T: View, E: View>(result: Result<T, E>) -> Result<T::V, E::V> {
    match result {
        Ok(value) => Ok(value@),
        Err(error) => Err(error@),
    }
}

} // verus!
