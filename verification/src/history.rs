//! The conversion history log.
//!
//! A history is an ordered sequence of conversion records, oldest first.
//! Records are immutable once appended; appending never reorders or
//! drops earlier entries. Reading and writing the persisted form of the
//! log is the caller's business; this module holds the record type, the
//! append operation, the fail-open fallback for an unreadable log, and
//! the rendering of one history line.

use vstd::prelude::*;
use vstd::string::StringExecFns;

use crate::converter::Conversion;
use crate::rational::Rational;

verus! {

/// One persisted conversion record: the canonical names of the two
/// units, the input value and the output value.
#[derive(Clone, Debug)]
pub struct History {
    pub from_unit: String,
    pub to_unit: String,
    pub value_unit: Rational,
    pub output_unit: Rational,
}

impl History {
    /// Builds the record of a completed conversion, naming both units
    /// by their canonical names.
    pub fn of_conversion(c: &Conversion) -> (h: History)
        ensures
            h.from_unit@ == c.from.spec_name(),
            h.to_unit@ == c.to.spec_name(),
            h.value_unit == c.value,
            h.output_unit == c.output,
    {
        History {
            from_unit: c.from.as_str().to_owned(),
            to_unit: c.to.as_str().to_owned(),
            value_unit: c.value,
            output_unit: c.output,
        }
    }
}

/// Appends a record to the log. The log is append-only: every earlier
/// record keeps its position, and the new record comes last.
pub fn append_record(history: &mut Vec<History>, entry: History)
    ensures
        final(history)@ == old(history)@.push(entry),
{
    history.push(entry);
}

/// The fail-open fallback for loading the log: a log that could be read
/// and decoded is taken as it is, a missing or malformed one counts as
/// empty. History is a convenience, not critical state.
pub fn load_or_empty(parsed: Option<Vec<History>>) -> (r: Vec<History>)
    ensures
        match parsed {
            Some(entries) => r == entries,
            None => r@ == Seq::<History>::empty(),
        },
{
    match parsed {
        Some(entries) => entries,
        None => Vec::new(),
    }
}

/// The decimal digits of `n`, most significant first.
pub open spec fn spec_dec(n: nat) -> Seq<char>
    decreases n,
{
    if n < 10 {
        seq![spec_digit_char(n)]
    } else {
        spec_dec(n / 10).push(spec_digit_char(n % 10))
    }
}

/// The digit character for a value below ten.
pub open spec fn spec_digit_char(d: nat) -> char {
    ((48 + d) as u8) as char
}

fn digit_str(d: u64) -> (s: &'static str)
    requires
        d < 10,
    ensures
        s@ == seq![spec_digit_char(d as nat)],
{
    proof {
        reveal_strlit("0");
        reveal_strlit("1");
        reveal_strlit("2");
        reveal_strlit("3");
        reveal_strlit("4");
        reveal_strlit("5");
        reveal_strlit("6");
        reveal_strlit("7");
        reveal_strlit("8");
        reveal_strlit("9");
    }
    if d == 0 {
        proof {
            assert("0"@ =~= seq![spec_digit_char(d as nat)]);
        }
        "0"
    } else if d == 1 {
        proof {
            assert("1"@ =~= seq![spec_digit_char(d as nat)]);
        }
        "1"
    } else if d == 2 {
        proof {
            assert("2"@ =~= seq![spec_digit_char(d as nat)]);
        }
        "2"
    } else if d == 3 {
        proof {
            assert("3"@ =~= seq![spec_digit_char(d as nat)]);
        }
        "3"
    } else if d == 4 {
        proof {
            assert("4"@ =~= seq![spec_digit_char(d as nat)]);
        }
        "4"
    } else if d == 5 {
        proof {
            assert("5"@ =~= seq![spec_digit_char(d as nat)]);
        }
        "5"
    } else if d == 6 {
        proof {
            assert("6"@ =~= seq![spec_digit_char(d as nat)]);
        }
        "6"
    } else if d == 7 {
        proof {
            assert("7"@ =~= seq![spec_digit_char(d as nat)]);
        }
        "7"
    } else if d == 8 {
        proof {
            assert("8"@ =~= seq![spec_digit_char(d as nat)]);
        }
        "8"
    } else {
        proof {
            assert("9"@ =~= seq![spec_digit_char(d as nat)]);
        }
        "9"
    }
}

/// Renders `n` in decimal.
pub fn u64_to_string(n: u64) -> (s: String)
    ensures
        s@ == spec_dec(n as nat),
    decreases n,
{
    if n < 10 {
        digit_str(n).to_owned()
    } else {
        let mut s = u64_to_string(n / 10);
        s.append(digit_str(n % 10));
        proof {
            assert(s@ =~= spec_dec(n as nat));
        }
        s
    }
}

/// One rendered history line: `{index}. {value} {from_unit} = {output} {to_unit}`.
pub open spec fn spec_render_line(
    index: nat,
    value: Seq<char>,
    from_unit: Seq<char>,
    output: Seq<char>,
    to_unit: Seq<char>,
) -> Seq<char> {
    spec_dec(index) + ". "@ + value + " "@ + from_unit + " = "@ + output + " "@ + to_unit
}

/// Renders one history line for display. `index` is the 1-based
/// position of the record in the log; the value and output are passed
/// already rendered.
pub fn render_line(index: u64, value: &str, from_unit: &str, output: &str, to_unit: &str) -> (line:
    String)
    ensures
        line@ == spec_render_line(index as nat, value@, from_unit@, output@, to_unit@),
{
    let mut line = u64_to_string(index);
    line.append(". ");
    line.append(value);
    line.append(" ");
    line.append(from_unit);
    line.append(" = ");
    line.append(output);
    line.append(" ");
    line.append(to_unit);
    proof {
        assert(line@ =~= spec_render_line(index as nat, value@, from_unit@, output@, to_unit@));
    }
    line
}

} // verus!
