//! The failures a run can end in, and their one-line messages.

use vstd::prelude::*;

verus! {

use vstd::string::StringExecFns;

/// Why a run failed. Filesystem and database failures carry the underlying
/// message, which the surrounding binary supplies.
#[derive(Debug)]
pub enum RunError {
    /// The registry file is missing at the carried path.
    ConfigNotFound(String),
    /// No section matched the selection: the requested name, if one was given.
    ProfileNotFound(Option<String>),
    /// The platform's base directories could not be determined.
    HomeDirUnavailable,
    /// A filesystem operation failed with the carried message.
    IoError(String),
    /// Opening or querying the database failed with the carried message.
    DatabaseError(String),
}

/// A failure as the specification sees it.
pub enum ErrModel {
    ConfigNotFound(Seq<char>),
    ProfileNotFound(Option<Seq<char>>),
    HomeDirUnavailable,
    IoError(Seq<char>),
    DatabaseError(Seq<char>),
}

impl View for RunError {
    type V = ErrModel;

    open spec fn view(&self) -> ErrModel {
        match self {
            RunError::ConfigNotFound(p) => ErrModel::ConfigNotFound(p@),
            RunError::ProfileNotFound(n) => ErrModel::ProfileNotFound(
                match n {
                    Some(s) => Some(s@),
                    None => None,
                },
            ),
            RunError::HomeDirUnavailable => ErrModel::HomeDirUnavailable,
            RunError::IoError(m) => ErrModel::IoError(m@),
            RunError::DatabaseError(m) => ErrModel::DatabaseError(m@),
        }
    }
}

/// The one-line description owed for each failure.
pub open spec fn spec_message(e: ErrModel) -> Seq<char> {
    match e {
        ErrModel::ConfigNotFound(p) => "Could not find profiles.ini at "@ + p,
        ErrModel::ProfileNotFound(Some(n)) => "Profile '"@ + n + "' not found in profiles.ini"@,
        ErrModel::ProfileNotFound(None) => "No default profile found in profiles.ini"@,
        ErrModel::HomeDirUnavailable => "Could not find home directory"@,
        ErrModel::IoError(m) => m,
        ErrModel::DatabaseError(m) => m,
    }
}

impl RunError {
    /// The one-line description of the failure.
    pub fn message(&self) -> (r: String)
        ensures
            r@ == spec_message(self@),
    {
        match self {
            RunError::ConfigNotFound(p) => {
                let mut s = "Could not find profiles.ini at ".to_owned();
                s.append(p.as_str());
                s
            },
            RunError::ProfileNotFound(Some(n)) => {
                let mut s = "Profile '".to_owned();
                s.append(n.as_str());
                s.append("' not found in profiles.ini");
                s
            },
            RunError::ProfileNotFound(None) => "No default profile found in profiles.ini".to_owned(),
            RunError::HomeDirUnavailable => "Could not find home directory".to_owned(),
            RunError::IoError(m) => m.clone(),
            RunError::DatabaseError(m) => m.clone(),
        }
    }
}

} // verus!
