use vstd::prelude::*;

verus! {

/// The unit system a reading is reported in.
#[derive(Clone, Copy, Debug, PartialEq, Eq, Structural)]
pub enum Units {
    /// Degrees Celsius and kilometres per hour.
    Metric,
    /// Degrees Fahrenheit and miles per hour.
    Imperial,
}

/// The unit system that a caller's name selects: `imperial` selects
/// `Imperial`; every other name, unknown ones included, selects `Metric`.
pub open spec fn units_named(name: Seq<char>) -> Units {
    if name == "imperial"@ {
        Units::Imperial
    } else {
        Units::Metric
    }
}

impl Units {
    /// Reads a unit-system name; an unrecognised name falls back to metric.
    pub fn from_name(name: &str) -> (r: Units)
        ensures
            r == units_named(name@),
    {
        let expected = ['i', 'm', 'p', 'e', 'r', 'i', 'a', 'l'];
        let n: usize = name.unicode_len();
        if n != 8 {
            proof {
                reveal_strlit("imperial");
            }
            return Units::Metric;
        }
        let mut i: usize = 0;
        while i < 8
            invariant
                0 <= i <= 8,
                name@.len() == 8,
                expected@ == seq!['i', 'm', 'p', 'e', 'r', 'i', 'a', 'l'],
                forall|j: int| 0 <= j < i ==> name@[j] == expected@[j],
            decreases 8 - i,
        {
            if name.get_char(i) != expected[i] {
                proof {
                    reveal_strlit("imperial");
                    assert(name@[i as int] != "imperial"@[i as int]);
                }
                return Units::Metric;
            }
            i = i + 1;
        }
        proof {
            reveal_strlit("imperial");
        }
        assert(name@ =~= "imperial"@);
        Units::Imperial
    }
}

impl Units {
    /// The label of a temperature in this unit system.
    pub fn temperature_label(self) -> (r: &'static str)
        ensures
            r@ == (if self == Units::Imperial { "°F"@ } else { "°C"@ }),
    {
        match self {
            Units::Imperial => "°F",
            Units::Metric => "°C",
        }
    }

    /// The label of a wind speed in this unit system.
    pub fn wind_label(self) -> (r: &'static str)
        ensures
            r@ == (if self == Units::Imperial { "mph"@ } else { "km/h"@ }),
    {
        match self {
            Units::Imperial => "mph",
            Units::Metric => "km/h",
        }
    }
}

} // verus!
