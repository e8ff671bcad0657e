//! The unit in which a temporal payload counts time.

use vstd::prelude::*;
use vstd::string::StringExecFns;

verus! {

#[derive(Debug, Copy, Clone, Hash, Eq, PartialEq, Structural)]
pub enum TimeScale {
    NoScale,
    Nanosecond,
    Millisecond,
    Second,
    Minute,
    Hour,
    Day,
    Week,
    Month,
    Quarter,
    Year,
}

impl TimeScale {
    /// The name of the scale, as it is written.
    pub open spec fn label(self) -> Seq<char> {
        match self {
            TimeScale::NoScale => "NoScale"@,
            TimeScale::Nanosecond => "Nanosecond"@,
            TimeScale::Millisecond => "Millisecond"@,
            TimeScale::Second => "Second"@,
            TimeScale::Minute => "Minute"@,
            TimeScale::Hour => "Hour"@,
            TimeScale::Day => "Day"@,
            TimeScale::Week => "Week"@,
            TimeScale::Month => "Month"@,
            TimeScale::Quarter => "Quarter"@,
            TimeScale::Year => "Year"@,
        }
    }

    pub fn to_string(&self) -> (s: String)
        ensures
            s@ == self.label(),
    {
        let name = match self {
            TimeScale::NoScale => "NoScale",
            TimeScale::Nanosecond => "Nanosecond",
            TimeScale::Millisecond => "Millisecond",
            TimeScale::Second => "Second",
            TimeScale::Minute => "Minute",
            TimeScale::Hour => "Hour",
            TimeScale::Day => "Day",
            TimeScale::Week => "Week",
            TimeScale::Month => "Month",
            TimeScale::Quarter => "Quarter",
            TimeScale::Year => "Year",
        };
        String::from_str(name)
    }
}

} // verus!
