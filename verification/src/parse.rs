//! Parsing a write mode from a case-insensitive alias token.

use vstd::prelude::*;

use crate::WriteMode;
use crate::casefold::{fold_eq, str_fold_eq};

verus! {

/// Error returned when a token matches no alias in the active table.
/// Carries the offending input text unchanged.
#[derive(Debug)]
pub enum ParseError {
    UnrecognizedAlias(String),
}

/// Whether `s` matches, up to ASCII case, one of the aliases of mode `v`.
/// The two append-oriented modes are recognized only when the append
/// capability is enabled.
pub open spec fn is_alias_of(s: Seq<char>, v: WriteMode, append_enabled: bool) -> bool {
    match v {
        WriteMode::CreateNew => fold_eq(s, "CreateNew"@) || fold_eq(s, "Create"@) || fold_eq(
            s,
            "C"@,
        ),
        WriteMode::UpdateExisting => fold_eq(s, "UpdateExisting"@) || fold_eq(s, "Update"@)
            || fold_eq(s, "U"@),
        WriteMode::ClassicWrite => fold_eq(s, "ClassicWrite"@) || fold_eq(s, "Write"@) || fold_eq(
            s,
            "W"@,
        ),
        WriteMode::ClassicAppend => append_enabled && (fold_eq(s, "ClassicAppend"@) || fold_eq(
            s,
            "Append"@,
        ) || fold_eq(s, "A"@)),
        WriteMode::AppendToExisting => append_enabled && (fold_eq(s, "AppendToExisting"@)
            || fold_eq(s, "Extend"@) || fold_eq(s, "E"@)),
    }
}

/// The mode a token parses to, or `None` when it matches no active alias.
pub open spec fn spec_parse(s: Seq<char>, append_enabled: bool) -> Option<WriteMode> {
    if is_alias_of(s, WriteMode::CreateNew, append_enabled) {
        Some(WriteMode::CreateNew)
    } else if is_alias_of(s, WriteMode::UpdateExisting, append_enabled) {
        Some(WriteMode::UpdateExisting)
    } else if is_alias_of(s, WriteMode::ClassicWrite, append_enabled) {
        Some(WriteMode::ClassicWrite)
    } else if is_alias_of(s, WriteMode::ClassicAppend, append_enabled) {
        Some(WriteMode::ClassicAppend)
    } else if is_alias_of(s, WriteMode::AppendToExisting, append_enabled) {
        Some(WriteMode::AppendToExisting)
    } else {
        None
    }
}

impl WriteMode {
    /// Parses a mode from a token, matched case-insensitively against the
    /// alias table. The append-oriented aliases are recognized only when
    /// `append_enabled` holds; any other unmatched token is rejected with
    /// `UnrecognizedAlias` carrying the token itself.
    pub fn parse(text: &str, append_enabled: bool) -> (r: Result<WriteMode, ParseError>)
        ensures
            r matches Ok(v) ==> spec_parse(text@, append_enabled) == Some(v),
            r is Err <==> spec_parse(text@, append_enabled) is None,
            r matches Err(e) ==> e matches ParseError::UnrecognizedAlias(t) && t@ == text@,
    {
        if str_fold_eq(text, "CreateNew") || str_fold_eq(text, "Create") || str_fold_eq(
            text,
            "C",
        ) {
            Ok(WriteMode::CreateNew)
        } else if str_fold_eq(text, "UpdateExisting") || str_fold_eq(text, "Update")
            || str_fold_eq(text, "U") {
            Ok(WriteMode::UpdateExisting)
        } else if str_fold_eq(text, "ClassicWrite") || str_fold_eq(text, "Write") || str_fold_eq(
            text,
            "W",
        ) {
            Ok(WriteMode::ClassicWrite)
        } else if append_enabled && (str_fold_eq(text, "ClassicAppend") || str_fold_eq(
            text,
            "Append",
        ) || str_fold_eq(text, "A")) {
            Ok(WriteMode::ClassicAppend)
        } else if append_enabled && (str_fold_eq(text, "AppendToExisting") || str_fold_eq(
            text,
            "Extend",
        ) || str_fold_eq(text, "E")) {
            Ok(WriteMode::AppendToExisting)
        } else {
            Err(ParseError::UnrecognizedAlias(text.to_owned()))
        }
    }
}

} // verus!
