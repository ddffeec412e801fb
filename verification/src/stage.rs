//! Stage names and the strings that are derived from a stage.

use vstd::prelude::*;
use vstd::string::*;

verus! {

/// The smallest stage the form accepts.
pub const MIN_STAGE: usize = 2;

/// The largest stage the form accepts.
pub const MAX_STAGE: usize = 24;

/// The length of the table of stage names. The table is indexed by the
/// number of bells and ends with the stage `12`.
pub const STAGE_TABLE_LEN: usize = 13;

/// Whether the table of stage names has an entry for `stage`. The stages
/// `0` and `1` have an empty entry and the stages `3` to `12` a name. The
/// stage `2` has none, although the form accepts it, and neither has any
/// stage past the end of the table.
pub open spec fn stage_in_table(stage: int) -> bool {
    stage == 0 || stage == 1 || 3 <= stage < STAGE_TABLE_LEN as int
}

/// The conventional name of a stage, and the empty name for a stage that
/// has none: for the two empty entries of the table, and as the fallback
/// for a stage without an entry.
pub open spec fn stage_name_of(stage: int) -> Seq<char> {
    if stage == 3 {
        "Singles"@
    } else if stage == 4 {
        "Minimus"@
    } else if stage == 5 {
        "Doubles"@
    } else if stage == 6 {
        "Minor"@
    } else if stage == 7 {
        "Triples"@
    } else if stage == 8 {
        "Major"@
    } else if stage == 9 {
        "Caters"@
    } else if stage == 10 {
        "Royal"@
    } else if stage == 11 {
        "Cinques"@
    } else if stage == 12 {
        "Maximus"@
    } else {
        Seq::empty()
    }
}

/// Whether the table of stage names has an entry for `stage`.
pub fn stage_has_entry(stage: usize) -> (found: bool)
    ensures
        found <==> stage_in_table(stage as int),
{
    stage < 2 || (3 <= stage && stage < STAGE_TABLE_LEN)
}

/// Looks a stage up in the table of names. The lookup fails exactly for
/// the stages without an entry: for `2`, and past the end of the table.
pub fn stage_name(stage: usize) -> (name: Option<&'static str>)
    ensures
        name is Some <==> stage_in_table(stage as int),
        name matches Some(s) ==> s@ == stage_name_of(stage as int),
{
    // The slot of the stage `2` only keeps the indices in step; it is never
    // handed out.
    let table: [&'static str; STAGE_TABLE_LEN] = [
        "", "", "", "Singles", "Minimus", "Doubles", "Minor", "Triples", "Major", "Caters",
        "Royal", "Cinques", "Maximus",
    ];
    if stage_has_entry(stage) {
        proof {
            reveal_strlit("");
        }
        Some(table[stage])
    } else {
        None
    }
}

/// Exactly the stages from three to twelve have a name, and of the stages
/// that the form accepts exactly these have an entry in the table.
pub proof fn lemma_named_stages(stage: int)
    ensures
        stage_name_of(stage).len() > 0 <==> 3 <= stage <= 12,
        MIN_STAGE as int <= stage <= MAX_STAGE as int ==> (stage_in_table(stage) <==> 3 <= stage
            <= 12),
        !stage_in_table(stage) ==> stage_name_of(stage).len() == 0,
{
    reveal_strlit("Singles");
    reveal_strlit("Minimus");
    reveal_strlit("Doubles");
    reveal_strlit("Minor");
    reveal_strlit("Triples");
    reveal_strlit("Major");
    reveal_strlit("Caters");
    reveal_strlit("Royal");
    reveal_strlit("Cinques");
    reveal_strlit("Maximus");
}

/// The full name of a method: its own name, one space, and the name of the
/// stage. Where the stage has no name the space still stands, at the end.
pub open spec fn full_name_of(method: Seq<char>, stage: int) -> Seq<char> {
    method + seq![' '] + stage_name_of(stage)
}

/// Joins a method's name and the name of a stage into the full name that
/// the ringing program expects. The method's name is taken as it is. A stage
/// without a name, with an entry in the table or without one, contributes
/// nothing but the separating space.
pub fn method_full_name(method: &str, stage: usize) -> (full: String)
    ensures
        full@ == full_name_of(method@, stage as int),
{
    let name: &'static str = match stage_name(stage) {
        Some(name) => name,
        None => "",
    };
    proof {
        reveal_strlit(" ");
        reveal_strlit("");
        assert(" "@ =~= seq![' ']);
        assert(name@ =~= stage_name_of(stage as int));
    }
    String::from_str(method).concat(" ").concat(name)
}

/// The character that stands for a single decimal digit.
pub open spec fn digit_char(d: int) -> char {
    if d == 0 {
        '0'
    } else if d == 1 {
        '1'
    } else if d == 2 {
        '2'
    } else if d == 3 {
        '3'
    } else if d == 4 {
        '4'
    } else if d == 5 {
        '5'
    } else if d == 6 {
        '6'
    } else if d == 7 {
        '7'
    } else if d == 8 {
        '8'
    } else {
        '9'
    }
}

/// A number written in decimal, most significant digit first, without
/// leading zeros.
pub open spec fn decimal_of(n: nat) -> Seq<char>
    decreases n,
{
    if n < 10 {
        seq![digit_char(n as int)]
    } else {
        decimal_of(n / 10).push(digit_char((n % 10) as int))
    }
}

/// The text beside the stage stepper.
pub open spec fn stage_label_of(stage: nat) -> Seq<char> {
    "Stage: "@ + decimal_of(stage)
}

fn digit_str(d: usize) -> (s: &'static str)
    requires
        d < 10,
    ensures
        s@ == seq![digit_char(d as int)],
{
    let table: [&'static str; 10] = ["0", "1", "2", "3", "4", "5", "6", "7", "8", "9"];
    proof {
        reveal_strlit("0");
        reveal_strlit("1");
        reveal_strlit("2");
        reveal_strlit("3");
        reveal_strlit("4");
        reveal_strlit("5");
        reveal_strlit("6");
        reveal_strlit("7");
        reveal_strlit("8");
        reveal_strlit("9");
        assert(table[d as int]@ =~= seq![digit_char(d as int)]);
    }
    table[d]
}

/// Writes a number in decimal.
fn decimal(n: usize) -> (text: String)
    ensures
        text@ == decimal_of(n as nat),
    decreases n,
{
    if n < 10 {
        String::from_str(digit_str(n))
    } else {
        let text = decimal(n / 10).concat(digit_str(n % 10));
        proof {
            assert(text@ =~= decimal_of(n as nat));
        }
        text
    }
}

/// The text beside the stage stepper: the word `Stage`, a colon, a space and
/// the stage in decimal.
pub fn stage_label(stage: usize) -> (label: String)
    ensures
        label@ == stage_label_of(stage as nat),
{
    let digits = decimal(stage);
    String::from_str("Stage: ").concat(digits.as_str())
}

} // verus!
