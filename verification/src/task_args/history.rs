//! The period of a history report.

use super::ParseError;
use vstd::prelude::*;

verus! {

/// The period over which a history report is drawn.
#[derive(Debug, Clone, Copy, PartialEq, Eq, Structural)]
pub enum History {
    Annual,
    Daily,
    Monthly,
    Weekly,
}

/// A whole argument read as a history period: it has to be one of the four
/// names, with nothing before or behind it.
pub open spec fn parse_history(s: Seq<char>) -> Result<History, ParseError> {
    if s == "daily"@ {
        Ok(History::Daily)
    } else if s == "monthly"@ {
        Ok(History::Monthly)
    } else if s == "weekly"@ {
        Ok(History::Weekly)
    } else if s == "annual"@ {
        Ok(History::Annual)
    } else {
        Err(ParseError::History)
    }
}

impl History {
    /// The name of the period.
    pub open spec fn spec_name(self) -> Seq<char> {
        match self {
            History::Annual => "annual"@,
            History::Daily => "daily"@,
            History::Monthly => "monthly"@,
            History::Weekly => "weekly"@,
        }
    }

    /// The name of the period, as it is read by `from_str`.
    pub fn name(&self) -> (name: &'static str)
        ensures
            name@ == self.spec_name(),
    {
        match self {
            History::Annual => "annual",
            History::Daily => "daily",
            History::Monthly => "monthly",
            History::Weekly => "weekly",
        }
    }

    /// Reads a whole argument as a history period.
    pub fn from_str(s: &str) -> (r: Result<History, ParseError>)
        ensures
            r == parse_history(s@),
    {
        if super::is_exactly(s, "daily") {
            Ok(History::Daily)
        } else if super::is_exactly(s, "monthly") {
            Ok(History::Monthly)
        } else if super::is_exactly(s, "weekly") {
            Ok(History::Weekly)
        } else if super::is_exactly(s, "annual") {
            Ok(History::Annual)
        } else {
            Err(ParseError::History)
        }
    }
}

/// What is written is read back: the name of a period is read as that period.
pub proof fn lemma_history_reads_back(period: History)
    ensures
        parse_history(period.spec_name()) == Ok::<History, ParseError>(period),
{
    reveal_strlit("daily");
    reveal_strlit("monthly");
    reveal_strlit("weekly");
    reveal_strlit("annual");
    assert("daily"@.len() == 5 && "monthly"@.len() == 7 && "weekly"@.len() == 6 && "annual"@.len() == 6);
    assert("annual"@[0] != "weekly"@[0]);
}

} // verus!
