//! Statements of the library's cross-cutting guarantees.
use vstd::prelude::*;

verus! {

use crate::models::{LiveScore, score_matches};
use crate::store::{lookup, str_field, str_field_or, u32_field, u8_field, opt_u32_field};

/// A field absent from a hash reads as its default: numeric fields read
/// zero, string fields read empty, optional fields read nothing, and a
/// field with a fallback reads the fallback.
pub proof fn lemma_absent_field_defaults(h: Seq<(String, String)>, name: Seq<char>, dflt: Seq<char>)
    requires
        lookup(h, name) is None,
    ensures
        u32_field(h, name) == 0,
        u8_field(h, name) == 0,
        str_field(h, name) == Seq::<char>::empty(),
        opt_u32_field(h, name) is None,
        str_field_or(h, name, dflt) == dflt,
{
}

/// A live score parsed from a hash missing every numeric field carries zero
/// in every numeric field; missing string fields are empty, and the
/// commentary blob falls back to `[]`.
pub proof fn lemma_live_score_defaults(s: LiveScore, h: Seq<(String, String)>)
    requires
        score_matches(s, h),
        lookup(h, "runs"@) is None,
        lookup(h, "wickets"@) is None,
        lookup(h, "target"@) is None,
        lookup(h, "striker_runs"@) is None,
        lookup(h, "striker_balls"@) is None,
        lookup(h, "striker_fours"@) is None,
        lookup(h, "striker_sixes"@) is None,
        lookup(h, "non_striker_runs"@) is None,
        lookup(h, "non_striker_balls"@) is None,
        lookup(h, "non_striker_fours"@) is None,
        lookup(h, "non_striker_sixes"@) is None,
        lookup(h, "bowler_runs"@) is None,
        lookup(h, "bowler_wickets"@) is None,
        lookup(h, "bowler_maidens"@) is None,
        lookup(h, "batting_team"@) is None,
        lookup(h, "current_inning"@) is None,
        lookup(h, "commentary"@) is None,
    ensures
        s.runs == 0,
        s.wickets == 0,
        s.target is None,
        s.striker_runs == 0,
        s.striker_balls == 0,
        s.striker_fours == 0,
        s.striker_sixes == 0,
        s.non_striker_runs == 0,
        s.non_striker_balls == 0,
        s.non_striker_fours == 0,
        s.non_striker_sixes == 0,
        s.bowler_runs == 0,
        s.bowler_wickets == 0,
        s.bowler_maidens == 0,
        s.batting_team@ == Seq::<char>::empty(),
        s.current_inning@ == Seq::<char>::empty(),
        s.commentary@ == "[]"@,
{
}

} // verus!
