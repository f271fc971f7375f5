//! Laws relating parsing, display names, and the alias table.

use vstd::prelude::*;

use crate::WriteMode;
use crate::casefold::{fold_eq, fold_text};
use crate::parse::{is_alias_of, spec_parse};

verus! {

/// The length and folded first character of every alias in the table. No two
/// aliases of different modes share both, which is what keeps the table free
/// of collisions.
proof fn lemma_alias_fingerprints()
    ensures
        fold_text("CreateNew"@).len() == 9 && fold_text("CreateNew"@)[0] == 'c',
        fold_text("Create"@).len() == 6 && fold_text("Create"@)[0] == 'c',
        fold_text("C"@).len() == 1 && fold_text("C"@)[0] == 'c',
        fold_text("UpdateExisting"@).len() == 14 && fold_text("UpdateExisting"@)[0] == 'u',
        fold_text("Update"@).len() == 6 && fold_text("Update"@)[0] == 'u',
        fold_text("U"@).len() == 1 && fold_text("U"@)[0] == 'u',
        fold_text("ClassicWrite"@).len() == 12 && fold_text("ClassicWrite"@)[0] == 'c',
        fold_text("Write"@).len() == 5 && fold_text("Write"@)[0] == 'w',
        fold_text("W"@).len() == 1 && fold_text("W"@)[0] == 'w',
        fold_text("ClassicAppend"@).len() == 13 && fold_text("ClassicAppend"@)[0] == 'c',
        fold_text("Append"@).len() == 6 && fold_text("Append"@)[0] == 'a',
        fold_text("A"@).len() == 1 && fold_text("A"@)[0] == 'a',
        fold_text("AppendToExisting"@).len() == 16 && fold_text("AppendToExisting"@)[0] == 'a',
        fold_text("Extend"@).len() == 6 && fold_text("Extend"@)[0] == 'e',
        fold_text("E"@).len() == 1 && fold_text("E"@)[0] == 'e',
{
    reveal_strlit("CreateNew");
    reveal_strlit("Create");
    reveal_strlit("C");
    reveal_strlit("UpdateExisting");
    reveal_strlit("Update");
    reveal_strlit("U");
    reveal_strlit("ClassicWrite");
    reveal_strlit("Write");
    reveal_strlit("W");
    reveal_strlit("ClassicAppend");
    reveal_strlit("Append");
    reveal_strlit("A");
    reveal_strlit("AppendToExisting");
    reveal_strlit("Extend");
    reveal_strlit("E");
}

/// Parsing is case-insensitive: two tokens that agree up to ASCII letter
/// case parse to the same outcome.
pub proof fn lemma_parse_case_insensitive(a: Seq<char>, b: Seq<char>, append_enabled: bool)
    requires
        fold_eq(a, b),
    ensures
        spec_parse(a, append_enabled) == spec_parse(b, append_enabled),
{
}

/// Aliases of different modes never collide: a token that matches an alias
/// of a mode parses to exactly that mode.
pub proof fn lemma_alias_parses(s: Seq<char>, v: WriteMode, append_enabled: bool)
    requires
        is_alias_of(s, v, append_enabled),
    ensures
        spec_parse(s, append_enabled) == Some(v),
{
    lemma_alias_fingerprints();
}

/// The default mode, the canonical name `CreateNew`, and the lowercase alias
/// `create` all denote the same mode.
pub proof fn lemma_default_parse_agreement(append_enabled: bool)
    ensures
        spec_parse("CreateNew"@, append_enabled) == Some(WriteMode::CreateNew),
        spec_parse("create"@, append_enabled) == Some(WriteMode::CreateNew),
{
    reveal_strlit("CreateNew");
    reveal_strlit("Create");
    reveal_strlit("create");
    assert(fold_text("create"@) =~= fold_text("Create"@));
    lemma_alias_parses("CreateNew"@, WriteMode::CreateNew, append_enabled);
    lemma_alias_parses("create"@, WriteMode::CreateNew, append_enabled);
}

/// Round trip: the canonical display name of a mode parses back to that
/// mode. The names of the two append-oriented modes require the append
/// capability; the others parse back under either setting.
pub proof fn lemma_display_name_round_trip(v: WriteMode, append_enabled: bool)
    requires
        append_enabled || v == WriteMode::CreateNew || v == WriteMode::UpdateExisting || v
            == WriteMode::ClassicWrite,
    ensures
        spec_parse(v.spec_display_name(), append_enabled) == Some(v),
{
    assert(is_alias_of(v.spec_display_name(), v, append_enabled));
    lemma_alias_parses(v.spec_display_name(), v, append_enabled);
}

/// When the append capability is disabled, no token at all parses to an
/// append-oriented mode.
pub proof fn lemma_append_disabled(s: Seq<char>)
    ensures
        spec_parse(s, false) != Some(WriteMode::ClassicAppend),
        spec_parse(s, false) != Some(WriteMode::AppendToExisting),
{
}

/// Every mode requests writing and never requests reading.
pub proof fn lemma_always_write_never_read(v: WriteMode)
    ensures
        v.spec_open_configuration().write,
        !v.spec_open_configuration().read,
{
}

} // verus!
