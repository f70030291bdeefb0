//! The period of a burndown chart.

use super::ParseError;
use vstd::prelude::*;

verus! {

/// The period over which a burndown chart is drawn.
#[derive(Debug, Clone, Copy, PartialEq, Eq, Structural)]
pub enum Burndown {
    Daily,
    Monthly,
    Weekly,
}

/// A whole argument read as a burndown period: it has to be one of the
/// three names, with nothing before or behind it.
pub open spec fn parse_burndown(s: Seq<char>) -> Result<Burndown, ParseError> {
    if s == "daily"@ {
        Ok(Burndown::Daily)
    } else if s == "monthly"@ {
        Ok(Burndown::Monthly)
    } else if s == "weekly"@ {
        Ok(Burndown::Weekly)
    } else {
        Err(ParseError::Burndown)
    }
}

impl Burndown {
    /// The name of the period.
    pub open spec fn spec_name(self) -> Seq<char> {
        match self {
            Burndown::Daily => "daily"@,
            Burndown::Monthly => "monthly"@,
            Burndown::Weekly => "weekly"@,
        }
    }

    /// The name of the period, as it is read by `from_str`.
    pub fn name(&self) -> (name: &'static str)
        ensures
            name@ == self.spec_name(),
    {
        match self {
            Burndown::Daily => "daily",
            Burndown::Monthly => "monthly",
            Burndown::Weekly => "weekly",
        }
    }

    /// Reads a whole argument as a burndown period.
    pub fn from_str(s: &str) -> (r: Result<Burndown, ParseError>)
        ensures
            r == parse_burndown(s@),
    {
        if super::is_exactly(s, "daily") {
            Ok(Burndown::Daily)
        } else if super::is_exactly(s, "monthly") {
            Ok(Burndown::Monthly)
        } else if super::is_exactly(s, "weekly") {
            Ok(Burndown::Weekly)
        } else {
            Err(ParseError::Burndown)
        }
    }
}

/// What is written is read back: the name of a period is read as that period.
pub proof fn lemma_burndown_reads_back(period: Burndown)
    ensures
        parse_burndown(period.spec_name()) == Ok::<Burndown, ParseError>(period),
{
    reveal_strlit("daily");
    reveal_strlit("monthly");
    reveal_strlit("weekly");
    assert("daily"@.len() == 5 && "monthly"@.len() == 7 && "weekly"@.len() == 6);
}

} // verus!
