//! Symbolic strategies for opening a file in write mode.
//!
//! A [`WriteMode`] names one of a closed set of intents (create a fresh file,
//! update an existing one, and so on). Each mode resolves to a fixed
//! combination of platform file-open flags, and can be parsed from a
//! case-insensitive alias, so that callers express intent symbolically
//! instead of assembling flag combinations by hand.

use vstd::prelude::*;

pub mod casefold;
pub mod laws;
pub mod parse;

verus! {

/// A strategy for opening a file in write mode.
#[derive(Clone, Copy, Debug, Hash, PartialEq, Eq, Structural)]
pub enum WriteMode {
    /// Create a new file; fail if the file already exists.
    CreateNew,
    /// Open an existing file without creating one; fail if it does not exist.
    UpdateExisting,
    /// Open a file for writing, creating it if it does not exist.
    ClassicWrite,
    /// Like `ClassicWrite`, but writes are appended instead of overwriting.
    /// Only recognized by the parser when the append capability is enabled.
    ClassicAppend,
    /// Like `UpdateExisting`, but writes are appended instead of overwriting.
    /// Only recognized by the parser when the append capability is enabled.
    AppendToExisting,
}

/// The flag combination handed to a platform file-open call: whether the
/// call may read, may write, must fail if the file exists (`create_new`),
/// may create a missing file (`create`), and appends instead of overwriting.
#[derive(Clone, Copy, Debug, PartialEq, Eq, Structural)]
pub struct OpenConfiguration {
    pub read: bool,
    pub write: bool,
    pub create_new: bool,
    pub create: bool,
    pub append: bool,
}

impl WriteMode {
    /// The open configuration each mode resolves to: writing is always
    /// requested and reading never is; `CreateNew` demands a fresh file,
    /// `UpdateExisting` and `AppendToExisting` refuse to create one, and the
    /// two append modes append instead of overwriting.
    pub open spec fn spec_open_configuration(self) -> OpenConfiguration {
        match self {
            WriteMode::CreateNew => OpenConfiguration {
                read: false,
                write: true,
                create_new: true,
                create: true,
                append: false,
            },
            WriteMode::UpdateExisting => OpenConfiguration {
                read: false,
                write: true,
                create_new: false,
                create: false,
                append: false,
            },
            WriteMode::ClassicWrite => OpenConfiguration {
                read: false,
                write: true,
                create_new: false,
                create: true,
                append: false,
            },
            WriteMode::ClassicAppend => OpenConfiguration {
                read: false,
                write: true,
                create_new: false,
                create: true,
                append: true,
            },
            WriteMode::AppendToExisting => OpenConfiguration {
                read: false,
                write: true,
                create_new: false,
                create: false,
                append: true,
            },
        }
    }

    /// Resolves this mode to the flags a platform open call needs.
    pub fn to_open_configuration(&self) -> (r: OpenConfiguration)
        ensures
            r == self.spec_open_configuration(),
    {
        match self {
            WriteMode::CreateNew => OpenConfiguration {
                read: false,
                write: true,
                create_new: true,
                create: true,
                append: false,
            },
            WriteMode::UpdateExisting => OpenConfiguration {
                read: false,
                write: true,
                create_new: false,
                create: false,
                append: false,
            },
            WriteMode::ClassicWrite => OpenConfiguration {
                read: false,
                write: true,
                create_new: false,
                create: true,
                append: false,
            },
            WriteMode::ClassicAppend => OpenConfiguration {
                read: false,
                write: true,
                create_new: false,
                create: true,
                append: true,
            },
            WriteMode::AppendToExisting => OpenConfiguration {
                read: false,
                write: true,
                create_new: false,
                create: false,
                append: true,
            },
        }
    }

    /// The canonical long-form name of each mode.
    pub open spec fn spec_display_name(self) -> Seq<char> {
        match self {
            WriteMode::CreateNew => "CreateNew"@,
            WriteMode::UpdateExisting => "UpdateExisting"@,
            WriteMode::ClassicWrite => "ClassicWrite"@,
            WriteMode::ClassicAppend => "ClassicAppend"@,
            WriteMode::AppendToExisting => "AppendToExisting"@,
        }
    }

    /// Returns the canonical long-form name of this mode.
    pub fn display_name(&self) -> (r: &'static str)
        ensures
            r@ == self.spec_display_name(),
    {
        match self {
            WriteMode::CreateNew => "CreateNew",
            WriteMode::UpdateExisting => "UpdateExisting",
            WriteMode::ClassicWrite => "ClassicWrite",
            WriteMode::ClassicAppend => "ClassicAppend",
            WriteMode::AppendToExisting => "AppendToExisting",
        }
    }
}

impl Default for WriteMode {
    /// The default mode is `CreateNew`.
    fn default() -> (r: Self)
        ensures
            r == WriteMode::CreateNew,
    {
        WriteMode::CreateNew
    }
}

} // verus!
