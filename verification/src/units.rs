use vstd::prelude::*;

use crate::text::str_eq;

verus! {

/// Why a unit abbreviation was refused.
#[derive(Clone, Copy, Debug, PartialEq, Eq, Structural)]
pub enum UnitError {
    /// the abbreviation is the `"placeholder"` written where no unit was given
    NotSpecified,
    /// the abbreviation names no supported unit of this kind
    Unrecognized,
}

/// The supported time units, in the order they are listed to users.
#[derive(Clone, Copy, Debug, PartialEq, Eq, Structural, Hash)]
pub enum TimeUnit {
    /// `Ts`
    Terasecond,
    /// `Gs`
    Gigasecond,
    /// `Ms`
    Megasecond,
    /// `ks`
    Kilosecond,
    /// `hs`
    Hectosecond,
    /// `das`
    Decasecond,
    /// `s`
    Second,
    /// `ds`
    Decisecond,
    /// `cs`
    Centisecond,
    /// `ms`
    Millisecond,
    /// `µs`
    Microsecond,
    /// `ns`
    Nanosecond,
    /// `ps`
    Picosecond,
    /// `d`
    Day,
    /// `h`
    Hour,
    /// `min`
    Minute,
    /// `a`
    Year,
}

/// The name of an SI prefix, by its symbol (the empty symbol for no
/// prefix).
pub open spec fn si_prefix_name(p: Seq<char>) -> Option<Seq<char>> {
    if p == "T"@ {
        Some("tera"@)
    } else if p == "G"@ {
        Some("giga"@)
    } else if p == "M"@ {
        Some("mega"@)
    } else if p == "k"@ {
        Some("kilo"@)
    } else if p == "h"@ {
        Some("hecto"@)
    } else if p == "da"@ {
        Some("deca"@)
    } else if p == ""@ {
        Some(""@)
    } else if p == "d"@ {
        Some("deci"@)
    } else if p == "c"@ {
        Some("centi"@)
    } else if p == "m"@ {
        Some("milli"@)
    } else if p == "µ"@ {
        Some("micro"@)
    } else if p == "n"@ {
        Some("nano"@)
    } else if p == "p"@ {
        Some("pico"@)
    } else {
        None
    }
}

/// The time unit a symbol stands for, by name: an SI prefix before `s`
/// for the second, `min` (or `m`) for the minute, `h` for the hour, `d` for
/// the day and `a` (annum) for the year.
pub open spec fn time_symbol_name(s: Seq<char>) -> Option<Seq<char>> {
    if s == "min"@ || s == "m"@ {
        Some("minute"@)
    } else if s == "h"@ {
        Some("hour"@)
    } else if s == "d"@ {
        Some("day"@)
    } else if s == "a"@ {
        Some("year"@)
    } else if s.len() > 0 && s.last() == 's' {
        match si_prefix_name(s.drop_last()) {
            Some(p) => Some(p + "second"@),
            None => None,
        }
    } else {
        None
    }
}

/// The time unit that the abbreviation `s` names, minutes being written
/// `min` or `m`; the word `placeholder` stands for a unit that was not
/// given.
pub open spec fn time_unit_of(s: Seq<char>) -> Result<TimeUnit, UnitError> {
    if s == "Ts"@ {
        Ok(TimeUnit::Terasecond)
    } else if s == "Gs"@ {
        Ok(TimeUnit::Gigasecond)
    } else if s == "Ms"@ {
        Ok(TimeUnit::Megasecond)
    } else if s == "ks"@ {
        Ok(TimeUnit::Kilosecond)
    } else if s == "hs"@ {
        Ok(TimeUnit::Hectosecond)
    } else if s == "das"@ {
        Ok(TimeUnit::Decasecond)
    } else if s == "s"@ {
        Ok(TimeUnit::Second)
    } else if s == "ds"@ {
        Ok(TimeUnit::Decisecond)
    } else if s == "cs"@ {
        Ok(TimeUnit::Centisecond)
    } else if s == "ms"@ {
        Ok(TimeUnit::Millisecond)
    } else if s == "µs"@ {
        Ok(TimeUnit::Microsecond)
    } else if s == "ns"@ {
        Ok(TimeUnit::Nanosecond)
    } else if s == "ps"@ {
        Ok(TimeUnit::Picosecond)
    } else if s == "d"@ {
        Ok(TimeUnit::Day)
    } else if s == "h"@ {
        Ok(TimeUnit::Hour)
    } else if s == "min"@ || s == "m"@ {
        Ok(TimeUnit::Minute)
    } else if s == "a"@ {
        Ok(TimeUnit::Year)
    } else if s == "placeholder"@ {
        Err(UnitError::NotSpecified)
    } else {
        Err(UnitError::Unrecognized)
    }
}

impl TimeUnit {
    /// The singular name of the unit, as `uom` names it.
    pub open spec fn spec_singular(self) -> Seq<char> {
        match self {
            TimeUnit::Terasecond => "terasecond"@,
            TimeUnit::Gigasecond => "gigasecond"@,
            TimeUnit::Megasecond => "megasecond"@,
            TimeUnit::Kilosecond => "kilosecond"@,
            TimeUnit::Hectosecond => "hectosecond"@,
            TimeUnit::Decasecond => "decasecond"@,
            TimeUnit::Second => "second"@,
            TimeUnit::Decisecond => "decisecond"@,
            TimeUnit::Centisecond => "centisecond"@,
            TimeUnit::Millisecond => "millisecond"@,
            TimeUnit::Microsecond => "microsecond"@,
            TimeUnit::Nanosecond => "nanosecond"@,
            TimeUnit::Picosecond => "picosecond"@,
            TimeUnit::Day => "day"@,
            TimeUnit::Hour => "hour"@,
            TimeUnit::Minute => "minute"@,
            TimeUnit::Year => "year"@,
        }
    }

    /// `singular` is the singular name of the unit, as `uom` names it.
    pub fn singular(&self) -> (r: &'static str)
        ensures
            r@ == self.spec_singular(),
    {
        match self {
            TimeUnit::Terasecond => "terasecond",
            TimeUnit::Gigasecond => "gigasecond",
            TimeUnit::Megasecond => "megasecond",
            TimeUnit::Kilosecond => "kilosecond",
            TimeUnit::Hectosecond => "hectosecond",
            TimeUnit::Decasecond => "decasecond",
            TimeUnit::Second => "second",
            TimeUnit::Decisecond => "decisecond",
            TimeUnit::Centisecond => "centisecond",
            TimeUnit::Millisecond => "millisecond",
            TimeUnit::Microsecond => "microsecond",
            TimeUnit::Nanosecond => "nanosecond",
            TimeUnit::Picosecond => "picosecond",
            TimeUnit::Day => "day",
            TimeUnit::Hour => "hour",
            TimeUnit::Minute => "minute",
            TimeUnit::Year => "year",
        }
    }

    /// The abbreviation of the unit, as written in recipe files.
    pub open spec fn spec_abbreviation(self) -> Seq<char> {
        match self {
            TimeUnit::Terasecond => "Ts"@,
            TimeUnit::Gigasecond => "Gs"@,
            TimeUnit::Megasecond => "Ms"@,
            TimeUnit::Kilosecond => "ks"@,
            TimeUnit::Hectosecond => "hs"@,
            TimeUnit::Decasecond => "das"@,
            TimeUnit::Second => "s"@,
            TimeUnit::Decisecond => "ds"@,
            TimeUnit::Centisecond => "cs"@,
            TimeUnit::Millisecond => "ms"@,
            TimeUnit::Microsecond => "µs"@,
            TimeUnit::Nanosecond => "ns"@,
            TimeUnit::Picosecond => "ps"@,
            TimeUnit::Day => "d"@,
            TimeUnit::Hour => "h"@,
            TimeUnit::Minute => "min"@,
            TimeUnit::Year => "a"@,
        }
    }

    /// `abbreviation` returns the abbreviation of the unit.
    pub fn abbreviation(&self) -> (r: &'static str)
        ensures
            r@ == self.spec_abbreviation(),
    {
        match self {
            TimeUnit::Terasecond => "Ts",
            TimeUnit::Gigasecond => "Gs",
            TimeUnit::Megasecond => "Ms",
            TimeUnit::Kilosecond => "ks",
            TimeUnit::Hectosecond => "hs",
            TimeUnit::Decasecond => "das",
            TimeUnit::Second => "s",
            TimeUnit::Decisecond => "ds",
            TimeUnit::Centisecond => "cs",
            TimeUnit::Millisecond => "ms",
            TimeUnit::Microsecond => "µs",
            TimeUnit::Nanosecond => "ns",
            TimeUnit::Picosecond => "ps",
            TimeUnit::Day => "d",
            TimeUnit::Hour => "h",
            TimeUnit::Minute => "min",
            TimeUnit::Year => "a",
        }
    }

    /// `from_abbreviation` reads a time unit abbreviation.
    pub fn from_abbreviation(s: &str) -> (r: Result<TimeUnit, UnitError>)
        ensures
            r == time_unit_of(s@),
    {
        if str_eq(s, "Ts") {
            Ok(TimeUnit::Terasecond)
        } else if str_eq(s, "Gs") {
            Ok(TimeUnit::Gigasecond)
        } else if str_eq(s, "Ms") {
            Ok(TimeUnit::Megasecond)
        } else if str_eq(s, "ks") {
            Ok(TimeUnit::Kilosecond)
        } else if str_eq(s, "hs") {
            Ok(TimeUnit::Hectosecond)
        } else if str_eq(s, "das") {
            Ok(TimeUnit::Decasecond)
        } else if str_eq(s, "s") {
            Ok(TimeUnit::Second)
        } else if str_eq(s, "ds") {
            Ok(TimeUnit::Decisecond)
        } else if str_eq(s, "cs") {
            Ok(TimeUnit::Centisecond)
        } else if str_eq(s, "ms") {
            Ok(TimeUnit::Millisecond)
        } else if str_eq(s, "µs") {
            Ok(TimeUnit::Microsecond)
        } else if str_eq(s, "ns") {
            Ok(TimeUnit::Nanosecond)
        } else if str_eq(s, "ps") {
            Ok(TimeUnit::Picosecond)
        } else if str_eq(s, "d") {
            Ok(TimeUnit::Day)
        } else if str_eq(s, "h") {
            Ok(TimeUnit::Hour)
        } else if str_eq(s, "min") || str_eq(s, "m") {
            Ok(TimeUnit::Minute)
        } else if str_eq(s, "a") {
            Ok(TimeUnit::Year)
        } else if str_eq(s, "placeholder") {
            Err(UnitError::NotSpecified)
        } else {
            Err(UnitError::Unrecognized)
        }
    }

    /// `all` lists every supported time unit once, in display order.
    pub fn all() -> (v: Vec<TimeUnit>)
        ensures
            v@ == time_units_in_order(),
            v@.len() == 17,
            forall|u: TimeUnit| v@.contains(u),
            forall|i: int, j: int| 0 <= i < j < v@.len() ==> v@[i] != v@[j],
    {
        let v = vec![
            TimeUnit::Terasecond,
            TimeUnit::Gigasecond,
            TimeUnit::Megasecond,
            TimeUnit::Kilosecond,
            TimeUnit::Hectosecond,
            TimeUnit::Decasecond,
            TimeUnit::Second,
            TimeUnit::Decisecond,
            TimeUnit::Centisecond,
            TimeUnit::Millisecond,
            TimeUnit::Microsecond,
            TimeUnit::Nanosecond,
            TimeUnit::Picosecond,
            TimeUnit::Day,
            TimeUnit::Hour,
            TimeUnit::Minute,
            TimeUnit::Year,
        ];
        proof {
            assert forall|u: TimeUnit| v@.contains(u) by {
                match u {
                    TimeUnit::Terasecond => assert(v@[0] == u),
                    TimeUnit::Gigasecond => assert(v@[1] == u),
                    TimeUnit::Megasecond => assert(v@[2] == u),
                    TimeUnit::Kilosecond => assert(v@[3] == u),
                    TimeUnit::Hectosecond => assert(v@[4] == u),
                    TimeUnit::Decasecond => assert(v@[5] == u),
                    TimeUnit::Second => assert(v@[6] == u),
                    TimeUnit::Decisecond => assert(v@[7] == u),
                    TimeUnit::Centisecond => assert(v@[8] == u),
                    TimeUnit::Millisecond => assert(v@[9] == u),
                    TimeUnit::Microsecond => assert(v@[10] == u),
                    TimeUnit::Nanosecond => assert(v@[11] == u),
                    TimeUnit::Picosecond => assert(v@[12] == u),
                    TimeUnit::Day => assert(v@[13] == u),
                    TimeUnit::Hour => assert(v@[14] == u),
                    TimeUnit::Minute => assert(v@[15] == u),
                    TimeUnit::Year => assert(v@[16] == u),
                }
            }
        }
        v
    }
}

/// The abbreviation of each time unit is the symbol of that unit.
proof fn lemma_time_abbreviation_is_symbol(u: TimeUnit)
    ensures
        time_symbol_name(u.spec_abbreviation()) == Some(u.spec_singular()),
{
    reveal_strlit("");
    reveal_strlit("G");
    reveal_strlit("Gs");
    reveal_strlit("M");
    reveal_strlit("Ms");
    reveal_strlit("T");
    reveal_strlit("Ts");
    reveal_strlit("a");
    reveal_strlit("c");
    reveal_strlit("centi");
    reveal_strlit("centisecond");
    reveal_strlit("cs");
    reveal_strlit("d");
    reveal_strlit("da");
    reveal_strlit("das");
    reveal_strlit("day");
    reveal_strlit("deca");
    reveal_strlit("decasecond");
    reveal_strlit("deci");
    reveal_strlit("decisecond");
    reveal_strlit("ds");
    reveal_strlit("giga");
    reveal_strlit("gigasecond");
    reveal_strlit("h");
    reveal_strlit("hecto");
    reveal_strlit("hectosecond");
    reveal_strlit("hour");
    reveal_strlit("hs");
    reveal_strlit("k");
    reveal_strlit("kilo");
    reveal_strlit("kilosecond");
    reveal_strlit("ks");
    reveal_strlit("m");
    reveal_strlit("mega");
    reveal_strlit("megasecond");
    reveal_strlit("micro");
    reveal_strlit("microsecond");
    reveal_strlit("milli");
    reveal_strlit("millisecond");
    reveal_strlit("min");
    reveal_strlit("minute");
    reveal_strlit("ms");
    reveal_strlit("n");
    reveal_strlit("nano");
    reveal_strlit("nanosecond");
    reveal_strlit("ns");
    reveal_strlit("p");
    reveal_strlit("pico");
    reveal_strlit("picosecond");
    reveal_strlit("ps");
    reveal_strlit("s");
    reveal_strlit("second");
    reveal_strlit("tera");
    reveal_strlit("terasecond");
    reveal_strlit("year");
    reveal_strlit("µ");
    reveal_strlit("µs");
    match u {
        TimeUnit::Terasecond => {
            assert("Ts"@ != "min"@) by {
                assert("Ts"@.len() != "min"@.len() || "Ts"@[0] != "min"@[0] || "Ts"@[1] != "min"@[1]);
            }
            assert("Ts"@ != "m"@) by {
                assert("Ts"@.len() != "m"@.len() || "Ts"@[0] != "m"@[0] || "Ts"@[1] != "m"@[1]);
            }
            assert("Ts"@ != "h"@) by {
                assert("Ts"@.len() != "h"@.len() || "Ts"@[0] != "h"@[0] || "Ts"@[1] != "h"@[1]);
            }
            assert("Ts"@ != "d"@) by {
                assert("Ts"@.len() != "d"@.len() || "Ts"@[0] != "d"@[0] || "Ts"@[1] != "d"@[1]);
            }
            assert("Ts"@ != "a"@) by {
                assert("Ts"@.len() != "a"@.len() || "Ts"@[0] != "a"@[0] || "Ts"@[1] != "a"@[1]);
            }
            assert("Ts"@.len() > 0 && "Ts"@.last() == 's');
            assert("Ts"@.drop_last() =~= "T"@);
            assert(si_prefix_name("T"@) == Some("tera"@));
            assert("tera"@ + "second"@ =~= "terasecond"@);
            assert(time_symbol_name("Ts"@) == Some("terasecond"@));
        },
        TimeUnit::Gigasecond => {
            assert("Gs"@ != "min"@) by {
                assert("Gs"@.len() != "min"@.len() || "Gs"@[0] != "min"@[0] || "Gs"@[1] != "min"@[1]);
            }
            assert("Gs"@ != "m"@) by {
                assert("Gs"@.len() != "m"@.len() || "Gs"@[0] != "m"@[0] || "Gs"@[1] != "m"@[1]);
            }
            assert("Gs"@ != "h"@) by {
                assert("Gs"@.len() != "h"@.len() || "Gs"@[0] != "h"@[0] || "Gs"@[1] != "h"@[1]);
            }
            assert("Gs"@ != "d"@) by {
                assert("Gs"@.len() != "d"@.len() || "Gs"@[0] != "d"@[0] || "Gs"@[1] != "d"@[1]);
            }
            assert("Gs"@ != "a"@) by {
                assert("Gs"@.len() != "a"@.len() || "Gs"@[0] != "a"@[0] || "Gs"@[1] != "a"@[1]);
            }
            assert("Gs"@.len() > 0 && "Gs"@.last() == 's');
            assert("Gs"@.drop_last() =~= "G"@);
            assert("G"@ != "T"@) by {
                assert("G"@.len() != "T"@.len() || "G"@[0] != "T"@[0] || "G"@[1] != "T"@[1]);
            }
            assert(si_prefix_name("G"@) == Some("giga"@));
            assert("giga"@ + "second"@ =~= "gigasecond"@);
            assert(time_symbol_name("Gs"@) == Some("gigasecond"@));
        },
        TimeUnit::Megasecond => {
            assert("Ms"@ != "min"@) by {
                assert("Ms"@.len() != "min"@.len() || "Ms"@[0] != "min"@[0] || "Ms"@[1] != "min"@[1]);
            }
            assert("Ms"@ != "m"@) by {
                assert("Ms"@.len() != "m"@.len() || "Ms"@[0] != "m"@[0] || "Ms"@[1] != "m"@[1]);
            }
            assert("Ms"@ != "h"@) by {
                assert("Ms"@.len() != "h"@.len() || "Ms"@[0] != "h"@[0] || "Ms"@[1] != "h"@[1]);
            }
            assert("Ms"@ != "d"@) by {
                assert("Ms"@.len() != "d"@.len() || "Ms"@[0] != "d"@[0] || "Ms"@[1] != "d"@[1]);
            }
            assert("Ms"@ != "a"@) by {
                assert("Ms"@.len() != "a"@.len() || "Ms"@[0] != "a"@[0] || "Ms"@[1] != "a"@[1]);
            }
            assert("Ms"@.len() > 0 && "Ms"@.last() == 's');
            assert("Ms"@.drop_last() =~= "M"@);
            assert("M"@ != "T"@) by {
                assert("M"@.len() != "T"@.len() || "M"@[0] != "T"@[0] || "M"@[1] != "T"@[1]);
            }
            assert("M"@ != "G"@) by {
                assert("M"@.len() != "G"@.len() || "M"@[0] != "G"@[0] || "M"@[1] != "G"@[1]);
            }
            assert(si_prefix_name("M"@) == Some("mega"@));
            assert("mega"@ + "second"@ =~= "megasecond"@);
            assert(time_symbol_name("Ms"@) == Some("megasecond"@));
        },
        TimeUnit::Kilosecond => {
            assert("ks"@ != "min"@) by {
                assert("ks"@.len() != "min"@.len() || "ks"@[0] != "min"@[0] || "ks"@[1] != "min"@[1]);
            }
            assert("ks"@ != "m"@) by {
                assert("ks"@.len() != "m"@.len() || "ks"@[0] != "m"@[0] || "ks"@[1] != "m"@[1]);
            }
            assert("ks"@ != "h"@) by {
                assert("ks"@.len() != "h"@.len() || "ks"@[0] != "h"@[0] || "ks"@[1] != "h"@[1]);
            }
            assert("ks"@ != "d"@) by {
                assert("ks"@.len() != "d"@.len() || "ks"@[0] != "d"@[0] || "ks"@[1] != "d"@[1]);
            }
            assert("ks"@ != "a"@) by {
                assert("ks"@.len() != "a"@.len() || "ks"@[0] != "a"@[0] || "ks"@[1] != "a"@[1]);
            }
            assert("ks"@.len() > 0 && "ks"@.last() == 's');
            assert("ks"@.drop_last() =~= "k"@);
            assert("k"@ != "T"@) by {
                assert("k"@.len() != "T"@.len() || "k"@[0] != "T"@[0] || "k"@[1] != "T"@[1]);
            }
            assert("k"@ != "G"@) by {
                assert("k"@.len() != "G"@.len() || "k"@[0] != "G"@[0] || "k"@[1] != "G"@[1]);
            }
            assert("k"@ != "M"@) by {
                assert("k"@.len() != "M"@.len() || "k"@[0] != "M"@[0] || "k"@[1] != "M"@[1]);
            }
            assert(si_prefix_name("k"@) == Some("kilo"@));
            assert("kilo"@ + "second"@ =~= "kilosecond"@);
            assert(time_symbol_name("ks"@) == Some("kilosecond"@));
        },
        TimeUnit::Hectosecond => {
            assert("hs"@ != "min"@) by {
                assert("hs"@.len() != "min"@.len() || "hs"@[0] != "min"@[0] || "hs"@[1] != "min"@[1]);
            }
            assert("hs"@ != "m"@) by {
                assert("hs"@.len() != "m"@.len() || "hs"@[0] != "m"@[0] || "hs"@[1] != "m"@[1]);
            }
            assert("hs"@ != "h"@) by {
                assert("hs"@.len() != "h"@.len() || "hs"@[0] != "h"@[0] || "hs"@[1] != "h"@[1]);
            }
            assert("hs"@ != "d"@) by {
                assert("hs"@.len() != "d"@.len() || "hs"@[0] != "d"@[0] || "hs"@[1] != "d"@[1]);
            }
            assert("hs"@ != "a"@) by {
                assert("hs"@.len() != "a"@.len() || "hs"@[0] != "a"@[0] || "hs"@[1] != "a"@[1]);
            }
            assert("hs"@.len() > 0 && "hs"@.last() == 's');
            assert("hs"@.drop_last() =~= "h"@);
            assert("h"@ != "T"@) by {
                assert("h"@.len() != "T"@.len() || "h"@[0] != "T"@[0] || "h"@[1] != "T"@[1]);
            }
            assert("h"@ != "G"@) by {
                assert("h"@.len() != "G"@.len() || "h"@[0] != "G"@[0] || "h"@[1] != "G"@[1]);
            }
            assert("h"@ != "M"@) by {
                assert("h"@.len() != "M"@.len() || "h"@[0] != "M"@[0] || "h"@[1] != "M"@[1]);
            }
            assert("h"@ != "k"@) by {
                assert("h"@.len() != "k"@.len() || "h"@[0] != "k"@[0] || "h"@[1] != "k"@[1]);
            }
            assert(si_prefix_name("h"@) == Some("hecto"@));
            assert("hecto"@ + "second"@ =~= "hectosecond"@);
            assert(time_symbol_name("hs"@) == Some("hectosecond"@));
        },
        TimeUnit::Decasecond => {
            assert("das"@ != "min"@) by {
                assert("das"@.len() != "min"@.len() || "das"@[0] != "min"@[0] || "das"@[1] != "min"@[1]);
            }
            assert("das"@ != "m"@) by {
                assert("das"@.len() != "m"@.len() || "das"@[0] != "m"@[0] || "das"@[1] != "m"@[1]);
            }
            assert("das"@ != "h"@) by {
                assert("das"@.len() != "h"@.len() || "das"@[0] != "h"@[0] || "das"@[1] != "h"@[1]);
            }
            assert("das"@ != "d"@) by {
                assert("das"@.len() != "d"@.len() || "das"@[0] != "d"@[0] || "das"@[1] != "d"@[1]);
            }
            assert("das"@ != "a"@) by {
                assert("das"@.len() != "a"@.len() || "das"@[0] != "a"@[0] || "das"@[1] != "a"@[1]);
            }
            assert("das"@.len() > 0 && "das"@.last() == 's');
            assert("das"@.drop_last() =~= "da"@);
            assert("da"@ != "T"@) by {
                assert("da"@.len() != "T"@.len() || "da"@[0] != "T"@[0] || "da"@[1] != "T"@[1]);
            }
            assert("da"@ != "G"@) by {
                assert("da"@.len() != "G"@.len() || "da"@[0] != "G"@[0] || "da"@[1] != "G"@[1]);
            }
            assert("da"@ != "M"@) by {
                assert("da"@.len() != "M"@.len() || "da"@[0] != "M"@[0] || "da"@[1] != "M"@[1]);
            }
            assert("da"@ != "k"@) by {
                assert("da"@.len() != "k"@.len() || "da"@[0] != "k"@[0] || "da"@[1] != "k"@[1]);
            }
            assert("da"@ != "h"@) by {
                assert("da"@.len() != "h"@.len() || "da"@[0] != "h"@[0] || "da"@[1] != "h"@[1]);
            }
            assert(si_prefix_name("da"@) == Some("deca"@));
            assert("deca"@ + "second"@ =~= "decasecond"@);
            assert(time_symbol_name("das"@) == Some("decasecond"@));
        },
        TimeUnit::Second => {
            assert("s"@ != "min"@) by {
                assert("s"@.len() != "min"@.len() || "s"@[0] != "min"@[0] || "s"@[1] != "min"@[1]);
            }
            assert("s"@ != "m"@) by {
                assert("s"@.len() != "m"@.len() || "s"@[0] != "m"@[0] || "s"@[1] != "m"@[1]);
            }
            assert("s"@ != "h"@) by {
                assert("s"@.len() != "h"@.len() || "s"@[0] != "h"@[0] || "s"@[1] != "h"@[1]);
            }
            assert("s"@ != "d"@) by {
                assert("s"@.len() != "d"@.len() || "s"@[0] != "d"@[0] || "s"@[1] != "d"@[1]);
            }
            assert("s"@ != "a"@) by {
                assert("s"@.len() != "a"@.len() || "s"@[0] != "a"@[0] || "s"@[1] != "a"@[1]);
            }
            assert("s"@.len() > 0 && "s"@.last() == 's');
            assert("s"@.drop_last() =~= ""@);
            assert(""@ != "T"@) by {
                assert(""@.len() != "T"@.len() || ""@[0] != "T"@[0] || ""@[1] != "T"@[1]);
            }
            assert(""@ != "G"@) by {
                assert(""@.len() != "G"@.len() || ""@[0] != "G"@[0] || ""@[1] != "G"@[1]);
            }
            assert(""@ != "M"@) by {
                assert(""@.len() != "M"@.len() || ""@[0] != "M"@[0] || ""@[1] != "M"@[1]);
            }
            assert(""@ != "k"@) by {
                assert(""@.len() != "k"@.len() || ""@[0] != "k"@[0] || ""@[1] != "k"@[1]);
            }
            assert(""@ != "h"@) by {
                assert(""@.len() != "h"@.len() || ""@[0] != "h"@[0] || ""@[1] != "h"@[1]);
            }
            assert(""@ != "da"@) by {
                assert(""@.len() != "da"@.len() || ""@[0] != "da"@[0] || ""@[1] != "da"@[1]);
            }
            assert(si_prefix_name(""@) == Some(""@));
            assert(""@ + "second"@ =~= "second"@);
            assert(time_symbol_name("s"@) == Some("second"@));
        },
        TimeUnit::Decisecond => {
            assert("ds"@ != "min"@) by {
                assert("ds"@.len() != "min"@.len() || "ds"@[0] != "min"@[0] || "ds"@[1] != "min"@[1]);
            }
            assert("ds"@ != "m"@) by {
                assert("ds"@.len() != "m"@.len() || "ds"@[0] != "m"@[0] || "ds"@[1] != "m"@[1]);
            }
            assert("ds"@ != "h"@) by {
                assert("ds"@.len() != "h"@.len() || "ds"@[0] != "h"@[0] || "ds"@[1] != "h"@[1]);
            }
            assert("ds"@ != "d"@) by {
                assert("ds"@.len() != "d"@.len() || "ds"@[0] != "d"@[0] || "ds"@[1] != "d"@[1]);
            }
            assert("ds"@ != "a"@) by {
                assert("ds"@.len() != "a"@.len() || "ds"@[0] != "a"@[0] || "ds"@[1] != "a"@[1]);
            }
            assert("ds"@.len() > 0 && "ds"@.last() == 's');
            assert("ds"@.drop_last() =~= "d"@);
            assert("d"@ != "T"@) by {
                assert("d"@.len() != "T"@.len() || "d"@[0] != "T"@[0] || "d"@[1] != "T"@[1]);
            }
            assert("d"@ != "G"@) by {
                assert("d"@.len() != "G"@.len() || "d"@[0] != "G"@[0] || "d"@[1] != "G"@[1]);
            }
            assert("d"@ != "M"@) by {
                assert("d"@.len() != "M"@.len() || "d"@[0] != "M"@[0] || "d"@[1] != "M"@[1]);
            }
            assert("d"@ != "k"@) by {
                assert("d"@.len() != "k"@.len() || "d"@[0] != "k"@[0] || "d"@[1] != "k"@[1]);
            }
            assert("d"@ != "h"@) by {
                assert("d"@.len() != "h"@.len() || "d"@[0] != "h"@[0] || "d"@[1] != "h"@[1]);
            }
            assert("d"@ != "da"@) by {
                assert("d"@.len() != "da"@.len() || "d"@[0] != "da"@[0] || "d"@[1] != "da"@[1]);
            }
            assert("d"@ != ""@) by {
                assert("d"@.len() != ""@.len() || "d"@[0] != ""@[0] || "d"@[1] != ""@[1]);
            }
            assert(si_prefix_name("d"@) == Some("deci"@));
            assert("deci"@ + "second"@ =~= "decisecond"@);
            assert(time_symbol_name("ds"@) == Some("decisecond"@));
        },
        TimeUnit::Centisecond => {
            assert("cs"@ != "min"@) by {
                assert("cs"@.len() != "min"@.len() || "cs"@[0] != "min"@[0] || "cs"@[1] != "min"@[1]);
            }
            assert("cs"@ != "m"@) by {
                assert("cs"@.len() != "m"@.len() || "cs"@[0] != "m"@[0] || "cs"@[1] != "m"@[1]);
            }
            assert("cs"@ != "h"@) by {
                assert("cs"@.len() != "h"@.len() || "cs"@[0] != "h"@[0] || "cs"@[1] != "h"@[1]);
            }
            assert("cs"@ != "d"@) by {
                assert("cs"@.len() != "d"@.len() || "cs"@[0] != "d"@[0] || "cs"@[1] != "d"@[1]);
            }
            assert("cs"@ != "a"@) by {
                assert("cs"@.len() != "a"@.len() || "cs"@[0] != "a"@[0] || "cs"@[1] != "a"@[1]);
            }
            assert("cs"@.len() > 0 && "cs"@.last() == 's');
            assert("cs"@.drop_last() =~= "c"@);
            assert("c"@ != "T"@) by {
                assert("c"@.len() != "T"@.len() || "c"@[0] != "T"@[0] || "c"@[1] != "T"@[1]);
            }
            assert("c"@ != "G"@) by {
                assert("c"@.len() != "G"@.len() || "c"@[0] != "G"@[0] || "c"@[1] != "G"@[1]);
            }
            assert("c"@ != "M"@) by {
                assert("c"@.len() != "M"@.len() || "c"@[0] != "M"@[0] || "c"@[1] != "M"@[1]);
            }
            assert("c"@ != "k"@) by {
                assert("c"@.len() != "k"@.len() || "c"@[0] != "k"@[0] || "c"@[1] != "k"@[1]);
            }
            assert("c"@ != "h"@) by {
                assert("c"@.len() != "h"@.len() || "c"@[0] != "h"@[0] || "c"@[1] != "h"@[1]);
            }
            assert("c"@ != "da"@) by {
                assert("c"@.len() != "da"@.len() || "c"@[0] != "da"@[0] || "c"@[1] != "da"@[1]);
            }
            assert("c"@ != ""@) by {
                assert("c"@.len() != ""@.len() || "c"@[0] != ""@[0] || "c"@[1] != ""@[1]);
            }
            assert("c"@ != "d"@) by {
                assert("c"@.len() != "d"@.len() || "c"@[0] != "d"@[0] || "c"@[1] != "d"@[1]);
            }
            assert(si_prefix_name("c"@) == Some("centi"@));
            assert("centi"@ + "second"@ =~= "centisecond"@);
            assert(time_symbol_name("cs"@) == Some("centisecond"@));
        },
        TimeUnit::Millisecond => {
            assert("ms"@ != "min"@) by {
                assert("ms"@.len() != "min"@.len() || "ms"@[0] != "min"@[0] || "ms"@[1] != "min"@[1]);
            }
            assert("ms"@ != "m"@) by {
                assert("ms"@.len() != "m"@.len() || "ms"@[0] != "m"@[0] || "ms"@[1] != "m"@[1]);
            }
            assert("ms"@ != "h"@) by {
                assert("ms"@.len() != "h"@.len() || "ms"@[0] != "h"@[0] || "ms"@[1] != "h"@[1]);
            }
            assert("ms"@ != "d"@) by {
                assert("ms"@.len() != "d"@.len() || "ms"@[0] != "d"@[0] || "ms"@[1] != "d"@[1]);
            }
            assert("ms"@ != "a"@) by {
                assert("ms"@.len() != "a"@.len() || "ms"@[0] != "a"@[0] || "ms"@[1] != "a"@[1]);
            }
            assert("ms"@.len() > 0 && "ms"@.last() == 's');
            assert("ms"@.drop_last() =~= "m"@);
            assert("m"@ != "T"@) by {
                assert("m"@.len() != "T"@.len() || "m"@[0] != "T"@[0] || "m"@[1] != "T"@[1]);
            }
            assert("m"@ != "G"@) by {
                assert("m"@.len() != "G"@.len() || "m"@[0] != "G"@[0] || "m"@[1] != "G"@[1]);
            }
            assert("m"@ != "M"@) by {
                assert("m"@.len() != "M"@.len() || "m"@[0] != "M"@[0] || "m"@[1] != "M"@[1]);
            }
            assert("m"@ != "k"@) by {
                assert("m"@.len() != "k"@.len() || "m"@[0] != "k"@[0] || "m"@[1] != "k"@[1]);
            }
            assert("m"@ != "h"@) by {
                assert("m"@.len() != "h"@.len() || "m"@[0] != "h"@[0] || "m"@[1] != "h"@[1]);
            }
            assert("m"@ != "da"@) by {
                assert("m"@.len() != "da"@.len() || "m"@[0] != "da"@[0] || "m"@[1] != "da"@[1]);
            }
            assert("m"@ != ""@) by {
                assert("m"@.len() != ""@.len() || "m"@[0] != ""@[0] || "m"@[1] != ""@[1]);
            }
            assert("m"@ != "d"@) by {
                assert("m"@.len() != "d"@.len() || "m"@[0] != "d"@[0] || "m"@[1] != "d"@[1]);
            }
            assert("m"@ != "c"@) by {
                assert("m"@.len() != "c"@.len() || "m"@[0] != "c"@[0] || "m"@[1] != "c"@[1]);
            }
            assert(si_prefix_name("m"@) == Some("milli"@));
            assert("milli"@ + "second"@ =~= "millisecond"@);
            assert(time_symbol_name("ms"@) == Some("millisecond"@));
        },
        TimeUnit::Microsecond => {
            assert("µs"@ != "min"@) by {
                assert("µs"@.len() != "min"@.len() || "µs"@[0] != "min"@[0] || "µs"@[1] != "min"@[1]);
            }
            assert("µs"@ != "m"@) by {
                assert("µs"@.len() != "m"@.len() || "µs"@[0] != "m"@[0] || "µs"@[1] != "m"@[1]);
            }
            assert("µs"@ != "h"@) by {
                assert("µs"@.len() != "h"@.len() || "µs"@[0] != "h"@[0] || "µs"@[1] != "h"@[1]);
            }
            assert("µs"@ != "d"@) by {
                assert("µs"@.len() != "d"@.len() || "µs"@[0] != "d"@[0] || "µs"@[1] != "d"@[1]);
            }
            assert("µs"@ != "a"@) by {
                assert("µs"@.len() != "a"@.len() || "µs"@[0] != "a"@[0] || "µs"@[1] != "a"@[1]);
            }
            assert("µs"@.len() > 0 && "µs"@.last() == 's');
            assert("µs"@.drop_last() =~= "µ"@);
            assert("µ"@ != "T"@) by {
                assert("µ"@.len() != "T"@.len() || "µ"@[0] != "T"@[0] || "µ"@[1] != "T"@[1]);
            }
            assert("µ"@ != "G"@) by {
                assert("µ"@.len() != "G"@.len() || "µ"@[0] != "G"@[0] || "µ"@[1] != "G"@[1]);
            }
            assert("µ"@ != "M"@) by {
                assert("µ"@.len() != "M"@.len() || "µ"@[0] != "M"@[0] || "µ"@[1] != "M"@[1]);
            }
            assert("µ"@ != "k"@) by {
                assert("µ"@.len() != "k"@.len() || "µ"@[0] != "k"@[0] || "µ"@[1] != "k"@[1]);
            }
            assert("µ"@ != "h"@) by {
                assert("µ"@.len() != "h"@.len() || "µ"@[0] != "h"@[0] || "µ"@[1] != "h"@[1]);
            }
            assert("µ"@ != "da"@) by {
                assert("µ"@.len() != "da"@.len() || "µ"@[0] != "da"@[0] || "µ"@[1] != "da"@[1]);
            }
            assert("µ"@ != ""@) by {
                assert("µ"@.len() != ""@.len() || "µ"@[0] != ""@[0] || "µ"@[1] != ""@[1]);
            }
            assert("µ"@ != "d"@) by {
                assert("µ"@.len() != "d"@.len() || "µ"@[0] != "d"@[0] || "µ"@[1] != "d"@[1]);
            }
            assert("µ"@ != "c"@) by {
                assert("µ"@.len() != "c"@.len() || "µ"@[0] != "c"@[0] || "µ"@[1] != "c"@[1]);
            }
            assert("µ"@ != "m"@) by {
                assert("µ"@.len() != "m"@.len() || "µ"@[0] != "m"@[0] || "µ"@[1] != "m"@[1]);
            }
            assert(si_prefix_name("µ"@) == Some("micro"@));
            assert("micro"@ + "second"@ =~= "microsecond"@);
            assert(time_symbol_name("µs"@) == Some("microsecond"@));
        },
        TimeUnit::Nanosecond => {
            assert("ns"@ != "min"@) by {
                assert("ns"@.len() != "min"@.len() || "ns"@[0] != "min"@[0] || "ns"@[1] != "min"@[1]);
            }
            assert("ns"@ != "m"@) by {
                assert("ns"@.len() != "m"@.len() || "ns"@[0] != "m"@[0] || "ns"@[1] != "m"@[1]);
            }
            assert("ns"@ != "h"@) by {
                assert("ns"@.len() != "h"@.len() || "ns"@[0] != "h"@[0] || "ns"@[1] != "h"@[1]);
            }
            assert("ns"@ != "d"@) by {
                assert("ns"@.len() != "d"@.len() || "ns"@[0] != "d"@[0] || "ns"@[1] != "d"@[1]);
            }
            assert("ns"@ != "a"@) by {
                assert("ns"@.len() != "a"@.len() || "ns"@[0] != "a"@[0] || "ns"@[1] != "a"@[1]);
            }
            assert("ns"@.len() > 0 && "ns"@.last() == 's');
            assert("ns"@.drop_last() =~= "n"@);
            assert("n"@ != "T"@) by {
                assert("n"@.len() != "T"@.len() || "n"@[0] != "T"@[0] || "n"@[1] != "T"@[1]);
            }
            assert("n"@ != "G"@) by {
                assert("n"@.len() != "G"@.len() || "n"@[0] != "G"@[0] || "n"@[1] != "G"@[1]);
            }
            assert("n"@ != "M"@) by {
                assert("n"@.len() != "M"@.len() || "n"@[0] != "M"@[0] || "n"@[1] != "M"@[1]);
            }
            assert("n"@ != "k"@) by {
                assert("n"@.len() != "k"@.len() || "n"@[0] != "k"@[0] || "n"@[1] != "k"@[1]);
            }
            assert("n"@ != "h"@) by {
                assert("n"@.len() != "h"@.len() || "n"@[0] != "h"@[0] || "n"@[1] != "h"@[1]);
            }
            assert("n"@ != "da"@) by {
                assert("n"@.len() != "da"@.len() || "n"@[0] != "da"@[0] || "n"@[1] != "da"@[1]);
            }
            assert("n"@ != ""@) by {
                assert("n"@.len() != ""@.len() || "n"@[0] != ""@[0] || "n"@[1] != ""@[1]);
            }
            assert("n"@ != "d"@) by {
                assert("n"@.len() != "d"@.len() || "n"@[0] != "d"@[0] || "n"@[1] != "d"@[1]);
            }
            assert("n"@ != "c"@) by {
                assert("n"@.len() != "c"@.len() || "n"@[0] != "c"@[0] || "n"@[1] != "c"@[1]);
            }
            assert("n"@ != "m"@) by {
                assert("n"@.len() != "m"@.len() || "n"@[0] != "m"@[0] || "n"@[1] != "m"@[1]);
            }
            assert("n"@ != "µ"@) by {
                assert("n"@.len() != "µ"@.len() || "n"@[0] != "µ"@[0] || "n"@[1] != "µ"@[1]);
            }
            assert(si_prefix_name("n"@) == Some("nano"@));
            assert("nano"@ + "second"@ =~= "nanosecond"@);
            assert(time_symbol_name("ns"@) == Some("nanosecond"@));
        },
        TimeUnit::Picosecond => {
            assert("ps"@ != "min"@) by {
                assert("ps"@.len() != "min"@.len() || "ps"@[0] != "min"@[0] || "ps"@[1] != "min"@[1]);
            }
            assert("ps"@ != "m"@) by {
                assert("ps"@.len() != "m"@.len() || "ps"@[0] != "m"@[0] || "ps"@[1] != "m"@[1]);
            }
            assert("ps"@ != "h"@) by {
                assert("ps"@.len() != "h"@.len() || "ps"@[0] != "h"@[0] || "ps"@[1] != "h"@[1]);
            }
            assert("ps"@ != "d"@) by {
                assert("ps"@.len() != "d"@.len() || "ps"@[0] != "d"@[0] || "ps"@[1] != "d"@[1]);
            }
            assert("ps"@ != "a"@) by {
                assert("ps"@.len() != "a"@.len() || "ps"@[0] != "a"@[0] || "ps"@[1] != "a"@[1]);
            }
            assert("ps"@.len() > 0 && "ps"@.last() == 's');
            assert("ps"@.drop_last() =~= "p"@);
            assert("p"@ != "T"@) by {
                assert("p"@.len() != "T"@.len() || "p"@[0] != "T"@[0] || "p"@[1] != "T"@[1]);
            }
            assert("p"@ != "G"@) by {
                assert("p"@.len() != "G"@.len() || "p"@[0] != "G"@[0] || "p"@[1] != "G"@[1]);
            }
            assert("p"@ != "M"@) by {
                assert("p"@.len() != "M"@.len() || "p"@[0] != "M"@[0] || "p"@[1] != "M"@[1]);
            }
            assert("p"@ != "k"@) by {
                assert("p"@.len() != "k"@.len() || "p"@[0] != "k"@[0] || "p"@[1] != "k"@[1]);
            }
            assert("p"@ != "h"@) by {
                assert("p"@.len() != "h"@.len() || "p"@[0] != "h"@[0] || "p"@[1] != "h"@[1]);
            }
            assert("p"@ != "da"@) by {
                assert("p"@.len() != "da"@.len() || "p"@[0] != "da"@[0] || "p"@[1] != "da"@[1]);
            }
            assert("p"@ != ""@) by {
                assert("p"@.len() != ""@.len() || "p"@[0] != ""@[0] || "p"@[1] != ""@[1]);
            }
            assert("p"@ != "d"@) by {
                assert("p"@.len() != "d"@.len() || "p"@[0] != "d"@[0] || "p"@[1] != "d"@[1]);
            }
            assert("p"@ != "c"@) by {
                assert("p"@.len() != "c"@.len() || "p"@[0] != "c"@[0] || "p"@[1] != "c"@[1]);
            }
            assert("p"@ != "m"@) by {
                assert("p"@.len() != "m"@.len() || "p"@[0] != "m"@[0] || "p"@[1] != "m"@[1]);
            }
            assert("p"@ != "µ"@) by {
                assert("p"@.len() != "µ"@.len() || "p"@[0] != "µ"@[0] || "p"@[1] != "µ"@[1]);
            }
            assert("p"@ != "n"@) by {
                assert("p"@.len() != "n"@.len() || "p"@[0] != "n"@[0] || "p"@[1] != "n"@[1]);
            }
            assert(si_prefix_name("p"@) == Some("pico"@));
            assert("pico"@ + "second"@ =~= "picosecond"@);
            assert(time_symbol_name("ps"@) == Some("picosecond"@));
        },
        TimeUnit::Day => {
            assert("d"@ != "min"@) by {
                assert("d"@.len() != "min"@.len() || "d"@[0] != "min"@[0] || "d"@[1] != "min"@[1]);
            }
            assert("d"@ != "m"@) by {
                assert("d"@.len() != "m"@.len() || "d"@[0] != "m"@[0] || "d"@[1] != "m"@[1]);
            }
            assert("d"@ != "h"@) by {
                assert("d"@.len() != "h"@.len() || "d"@[0] != "h"@[0] || "d"@[1] != "h"@[1]);
            }
            assert(time_symbol_name("d"@) == Some("day"@));
        },
        TimeUnit::Hour => {
            assert("h"@ != "min"@) by {
                assert("h"@.len() != "min"@.len() || "h"@[0] != "min"@[0] || "h"@[1] != "min"@[1]);
            }
            assert("h"@ != "m"@) by {
                assert("h"@.len() != "m"@.len() || "h"@[0] != "m"@[0] || "h"@[1] != "m"@[1]);
            }
            assert(time_symbol_name("h"@) == Some("hour"@));
        },
        TimeUnit::Minute => {
            assert(time_symbol_name("min"@) == Some("minute"@));
        },
        TimeUnit::Year => {
            assert("a"@ != "min"@) by {
                assert("a"@.len() != "min"@.len() || "a"@[0] != "min"@[0] || "a"@[1] != "min"@[1]);
            }
            assert("a"@ != "m"@) by {
                assert("a"@.len() != "m"@.len() || "a"@[0] != "m"@[0] || "a"@[1] != "m"@[1]);
            }
            assert("a"@ != "h"@) by {
                assert("a"@.len() != "h"@.len() || "a"@[0] != "h"@[0] || "a"@[1] != "h"@[1]);
            }
            assert("a"@ != "d"@) by {
                assert("a"@.len() != "d"@.len() || "a"@[0] != "d"@[0] || "a"@[1] != "d"@[1]);
            }
            assert(time_symbol_name("a"@) == Some("year"@));
        },
    }
}

/// Reading a time abbreviation gives the unit that the symbol stands for:
/// whatever text is read as a time unit names that unit by the SI and NIST
/// symbols (an SI prefix before `s`, `min` or `m`, `h`, `d`, `a`), so no two
/// units are mistaken for each other.
pub proof fn lemma_time_abbreviations_name_their_units(s: Seq<char>, u: TimeUnit)
    requires
        time_unit_of(s) == Ok::<TimeUnit, UnitError>(u),
    ensures
        time_symbol_name(s) == Some(u.spec_singular()),
{
    reveal_strlit("m");
    reveal_strlit("min");
    reveal_strlit("minute");
    if s == "m"@ {
        reveal_strlit("Ts");
        assert("m"@ != "Ts"@) by {
            assert("m"@.len() != "Ts"@.len() || "m"@[0] != "Ts"@[0]);
        }
        reveal_strlit("Gs");
        assert("m"@ != "Gs"@) by {
            assert("m"@.len() != "Gs"@.len() || "m"@[0] != "Gs"@[0]);
        }
        reveal_strlit("Ms");
        assert("m"@ != "Ms"@) by {
            assert("m"@.len() != "Ms"@.len() || "m"@[0] != "Ms"@[0]);
        }
        reveal_strlit("ks");
        assert("m"@ != "ks"@) by {
            assert("m"@.len() != "ks"@.len() || "m"@[0] != "ks"@[0]);
        }
        reveal_strlit("hs");
        assert("m"@ != "hs"@) by {
            assert("m"@.len() != "hs"@.len() || "m"@[0] != "hs"@[0]);
        }
        reveal_strlit("das");
        assert("m"@ != "das"@) by {
            assert("m"@.len() != "das"@.len() || "m"@[0] != "das"@[0]);
        }
        reveal_strlit("s");
        assert("m"@ != "s"@) by {
            assert("m"@.len() != "s"@.len() || "m"@[0] != "s"@[0]);
        }
        reveal_strlit("ds");
        assert("m"@ != "ds"@) by {
            assert("m"@.len() != "ds"@.len() || "m"@[0] != "ds"@[0]);
        }
        reveal_strlit("cs");
        assert("m"@ != "cs"@) by {
            assert("m"@.len() != "cs"@.len() || "m"@[0] != "cs"@[0]);
        }
        reveal_strlit("ms");
        assert("m"@ != "ms"@) by {
            assert("m"@.len() != "ms"@.len() || "m"@[0] != "ms"@[0]);
        }
        reveal_strlit("µs");
        assert("m"@ != "µs"@) by {
            assert("m"@.len() != "µs"@.len() || "m"@[0] != "µs"@[0]);
        }
        reveal_strlit("ns");
        assert("m"@ != "ns"@) by {
            assert("m"@.len() != "ns"@.len() || "m"@[0] != "ns"@[0]);
        }
        reveal_strlit("ps");
        assert("m"@ != "ps"@) by {
            assert("m"@.len() != "ps"@.len() || "m"@[0] != "ps"@[0]);
        }
        reveal_strlit("d");
        assert("m"@ != "d"@) by {
            assert("m"@.len() != "d"@.len() || "m"@[0] != "d"@[0]);
        }
        reveal_strlit("h");
        assert("m"@ != "h"@) by {
            assert("m"@.len() != "h"@.len() || "m"@[0] != "h"@[0]);
        }
        assert(u == TimeUnit::Minute);
    } else {
        assert(s == u.spec_abbreviation());
        lemma_time_abbreviation_is_symbol(u);
    }
}

/// Reading the abbreviation of a time unit gives the unit back.
pub proof fn lemma_time_unit_abbreviation_round_trip(u: TimeUnit)
    ensures
        time_unit_of(u.spec_abbreviation()) == Ok::<TimeUnit, UnitError>(u),
{
    reveal_strlit("Ts");
    assert("Ts"@.len() == 2);
    assert("Ts"@[0] == 'T');
    assert("Ts"@[1] == 's');
    reveal_strlit("Gs");
    assert("Gs"@.len() == 2);
    assert("Gs"@[0] == 'G');
    assert("Gs"@[1] == 's');
    reveal_strlit("Ms");
    assert("Ms"@.len() == 2);
    assert("Ms"@[0] == 'M');
    assert("Ms"@[1] == 's');
    reveal_strlit("ks");
    assert("ks"@.len() == 2);
    assert("ks"@[0] == 'k');
    assert("ks"@[1] == 's');
    reveal_strlit("hs");
    assert("hs"@.len() == 2);
    assert("hs"@[0] == 'h');
    assert("hs"@[1] == 's');
    reveal_strlit("das");
    assert("das"@.len() == 3);
    assert("das"@[0] == 'd');
    assert("das"@[1] == 'a');
    assert("das"@[2] == 's');
    reveal_strlit("s");
    assert("s"@.len() == 1);
    assert("s"@[0] == 's');
    reveal_strlit("ds");
    assert("ds"@.len() == 2);
    assert("ds"@[0] == 'd');
    assert("ds"@[1] == 's');
    reveal_strlit("cs");
    assert("cs"@.len() == 2);
    assert("cs"@[0] == 'c');
    assert("cs"@[1] == 's');
    reveal_strlit("ms");
    assert("ms"@.len() == 2);
    assert("ms"@[0] == 'm');
    assert("ms"@[1] == 's');
    reveal_strlit("µs");
    assert("µs"@.len() == 2);
    assert("µs"@[0] == 'µ');
    assert("µs"@[1] == 's');
    reveal_strlit("ns");
    assert("ns"@.len() == 2);
    assert("ns"@[0] == 'n');
    assert("ns"@[1] == 's');
    reveal_strlit("ps");
    assert("ps"@.len() == 2);
    assert("ps"@[0] == 'p');
    assert("ps"@[1] == 's');
    reveal_strlit("d");
    assert("d"@.len() == 1);
    assert("d"@[0] == 'd');
    reveal_strlit("h");
    assert("h"@.len() == 1);
    assert("h"@[0] == 'h');
    reveal_strlit("min");
    assert("min"@.len() == 3);
    assert("min"@[0] == 'm');
    assert("min"@[1] == 'i');
    assert("min"@[2] == 'n');
    reveal_strlit("m");
    assert("m"@.len() == 1);
    assert("m"@[0] == 'm');
    reveal_strlit("a");
    assert("a"@.len() == 1);
    assert("a"@[0] == 'a');
    match u {
        TimeUnit::Terasecond => assert(time_unit_of("Ts"@) == Ok::<TimeUnit, UnitError>(u)),
        TimeUnit::Gigasecond => assert(time_unit_of("Gs"@) == Ok::<TimeUnit, UnitError>(u)),
        TimeUnit::Megasecond => assert(time_unit_of("Ms"@) == Ok::<TimeUnit, UnitError>(u)),
        TimeUnit::Kilosecond => assert(time_unit_of("ks"@) == Ok::<TimeUnit, UnitError>(u)),
        TimeUnit::Hectosecond => assert(time_unit_of("hs"@) == Ok::<TimeUnit, UnitError>(u)),
        TimeUnit::Decasecond => assert(time_unit_of("das"@) == Ok::<TimeUnit, UnitError>(u)),
        TimeUnit::Second => assert(time_unit_of("s"@) == Ok::<TimeUnit, UnitError>(u)),
        TimeUnit::Decisecond => assert(time_unit_of("ds"@) == Ok::<TimeUnit, UnitError>(u)),
        TimeUnit::Centisecond => assert(time_unit_of("cs"@) == Ok::<TimeUnit, UnitError>(u)),
        TimeUnit::Millisecond => assert(time_unit_of("ms"@) == Ok::<TimeUnit, UnitError>(u)),
        TimeUnit::Microsecond => assert(time_unit_of("µs"@) == Ok::<TimeUnit, UnitError>(u)),
        TimeUnit::Nanosecond => assert(time_unit_of("ns"@) == Ok::<TimeUnit, UnitError>(u)),
        TimeUnit::Picosecond => assert(time_unit_of("ps"@) == Ok::<TimeUnit, UnitError>(u)),
        TimeUnit::Day => assert(time_unit_of("d"@) == Ok::<TimeUnit, UnitError>(u)),
        TimeUnit::Hour => assert(time_unit_of("h"@) == Ok::<TimeUnit, UnitError>(u)),
        TimeUnit::Minute => assert(time_unit_of("min"@) == Ok::<TimeUnit, UnitError>(u)),
        TimeUnit::Year => assert(time_unit_of("a"@) == Ok::<TimeUnit, UnitError>(u)),
    }
}

/// The supported temperature interval units, in the order they are listed to users.
#[derive(Clone, Copy, Debug, PartialEq, Eq, Structural, Hash)]
pub enum TemperatureUnit {
    /// `TK`
    Terakelvin,
    /// `GK`
    Gigakelvin,
    /// `MK`
    Megakelvin,
    /// `kK`
    Kilokelvin,
    /// `hK`
    Hectokelvin,
    /// `daK`
    Decakelvin,
    /// `K`
    Kelvin,
    /// `dK`
    Decikelvin,
    /// `cK`
    Centikelvin,
    /// `mK`
    Millikelvin,
    /// `µK`
    Microkelvin,
    /// `nK`
    Nanokelvin,
    /// `pK`
    Picokelvin,
    /// `°C`
    DegreeCelsius,
    /// `°F`
    DegreeFahrenheit,
    /// `°R`
    DegreeRankine,
}

/// The temperature interval unit that the abbreviation `s` names; the word
/// `placeholder` stands for a unit that was not given.
pub open spec fn temperature_unit_of(s: Seq<char>) -> Result<TemperatureUnit, UnitError> {
    if s == "TK"@ {
        Ok(TemperatureUnit::Terakelvin)
    } else if s == "GK"@ {
        Ok(TemperatureUnit::Gigakelvin)
    } else if s == "MK"@ {
        Ok(TemperatureUnit::Megakelvin)
    } else if s == "kK"@ {
        Ok(TemperatureUnit::Kilokelvin)
    } else if s == "hK"@ {
        Ok(TemperatureUnit::Hectokelvin)
    } else if s == "daK"@ {
        Ok(TemperatureUnit::Decakelvin)
    } else if s == "K"@ {
        Ok(TemperatureUnit::Kelvin)
    } else if s == "dK"@ {
        Ok(TemperatureUnit::Decikelvin)
    } else if s == "cK"@ {
        Ok(TemperatureUnit::Centikelvin)
    } else if s == "mK"@ {
        Ok(TemperatureUnit::Millikelvin)
    } else if s == "µK"@ {
        Ok(TemperatureUnit::Microkelvin)
    } else if s == "nK"@ {
        Ok(TemperatureUnit::Nanokelvin)
    } else if s == "pK"@ {
        Ok(TemperatureUnit::Picokelvin)
    } else if s == "°C"@ {
        Ok(TemperatureUnit::DegreeCelsius)
    } else if s == "°F"@ {
        Ok(TemperatureUnit::DegreeFahrenheit)
    } else if s == "°R"@ {
        Ok(TemperatureUnit::DegreeRankine)
    } else if s == "placeholder"@ {
        Err(UnitError::NotSpecified)
    } else {
        Err(UnitError::Unrecognized)
    }
}

impl TemperatureUnit {
    /// The singular name of the unit, as `uom` names it.
    pub open spec fn spec_singular(self) -> Seq<char> {
        match self {
            TemperatureUnit::Terakelvin => "terakelvin"@,
            TemperatureUnit::Gigakelvin => "gigakelvin"@,
            TemperatureUnit::Megakelvin => "megakelvin"@,
            TemperatureUnit::Kilokelvin => "kilokelvin"@,
            TemperatureUnit::Hectokelvin => "hectokelvin"@,
            TemperatureUnit::Decakelvin => "decakelvin"@,
            TemperatureUnit::Kelvin => "kelvin"@,
            TemperatureUnit::Decikelvin => "decikelvin"@,
            TemperatureUnit::Centikelvin => "centikelvin"@,
            TemperatureUnit::Millikelvin => "millikelvin"@,
            TemperatureUnit::Microkelvin => "microkelvin"@,
            TemperatureUnit::Nanokelvin => "nanokelvin"@,
            TemperatureUnit::Picokelvin => "picokelvin"@,
            TemperatureUnit::DegreeCelsius => "degree Celsius"@,
            TemperatureUnit::DegreeFahrenheit => "degree Fahrenheit"@,
            TemperatureUnit::DegreeRankine => "degree Rankine"@,
        }
    }

    /// `singular` is the singular name of the unit, as `uom` names it.
    pub fn singular(&self) -> (r: &'static str)
        ensures
            r@ == self.spec_singular(),
    {
        match self {
            TemperatureUnit::Terakelvin => "terakelvin",
            TemperatureUnit::Gigakelvin => "gigakelvin",
            TemperatureUnit::Megakelvin => "megakelvin",
            TemperatureUnit::Kilokelvin => "kilokelvin",
            TemperatureUnit::Hectokelvin => "hectokelvin",
            TemperatureUnit::Decakelvin => "decakelvin",
            TemperatureUnit::Kelvin => "kelvin",
            TemperatureUnit::Decikelvin => "decikelvin",
            TemperatureUnit::Centikelvin => "centikelvin",
            TemperatureUnit::Millikelvin => "millikelvin",
            TemperatureUnit::Microkelvin => "microkelvin",
            TemperatureUnit::Nanokelvin => "nanokelvin",
            TemperatureUnit::Picokelvin => "picokelvin",
            TemperatureUnit::DegreeCelsius => "degree Celsius",
            TemperatureUnit::DegreeFahrenheit => "degree Fahrenheit",
            TemperatureUnit::DegreeRankine => "degree Rankine",
        }
    }

    /// The abbreviation of the unit, as written in recipe files.
    pub open spec fn spec_abbreviation(self) -> Seq<char> {
        match self {
            TemperatureUnit::Terakelvin => "TK"@,
            TemperatureUnit::Gigakelvin => "GK"@,
            TemperatureUnit::Megakelvin => "MK"@,
            TemperatureUnit::Kilokelvin => "kK"@,
            TemperatureUnit::Hectokelvin => "hK"@,
            TemperatureUnit::Decakelvin => "daK"@,
            TemperatureUnit::Kelvin => "K"@,
            TemperatureUnit::Decikelvin => "dK"@,
            TemperatureUnit::Centikelvin => "cK"@,
            TemperatureUnit::Millikelvin => "mK"@,
            TemperatureUnit::Microkelvin => "µK"@,
            TemperatureUnit::Nanokelvin => "nK"@,
            TemperatureUnit::Picokelvin => "pK"@,
            TemperatureUnit::DegreeCelsius => "°C"@,
            TemperatureUnit::DegreeFahrenheit => "°F"@,
            TemperatureUnit::DegreeRankine => "°R"@,
        }
    }

    /// `abbreviation` returns the abbreviation of the unit.
    pub fn abbreviation(&self) -> (r: &'static str)
        ensures
            r@ == self.spec_abbreviation(),
    {
        match self {
            TemperatureUnit::Terakelvin => "TK",
            TemperatureUnit::Gigakelvin => "GK",
            TemperatureUnit::Megakelvin => "MK",
            TemperatureUnit::Kilokelvin => "kK",
            TemperatureUnit::Hectokelvin => "hK",
            TemperatureUnit::Decakelvin => "daK",
            TemperatureUnit::Kelvin => "K",
            TemperatureUnit::Decikelvin => "dK",
            TemperatureUnit::Centikelvin => "cK",
            TemperatureUnit::Millikelvin => "mK",
            TemperatureUnit::Microkelvin => "µK",
            TemperatureUnit::Nanokelvin => "nK",
            TemperatureUnit::Picokelvin => "pK",
            TemperatureUnit::DegreeCelsius => "°C",
            TemperatureUnit::DegreeFahrenheit => "°F",
            TemperatureUnit::DegreeRankine => "°R",
        }
    }

    /// `from_abbreviation` reads a temperature interval unit abbreviation.
    pub fn from_abbreviation(s: &str) -> (r: Result<TemperatureUnit, UnitError>)
        ensures
            r == temperature_unit_of(s@),
    {
        if str_eq(s, "TK") {
            Ok(TemperatureUnit::Terakelvin)
        } else if str_eq(s, "GK") {
            Ok(TemperatureUnit::Gigakelvin)
        } else if str_eq(s, "MK") {
            Ok(TemperatureUnit::Megakelvin)
        } else if str_eq(s, "kK") {
            Ok(TemperatureUnit::Kilokelvin)
        } else if str_eq(s, "hK") {
            Ok(TemperatureUnit::Hectokelvin)
        } else if str_eq(s, "daK") {
            Ok(TemperatureUnit::Decakelvin)
        } else if str_eq(s, "K") {
            Ok(TemperatureUnit::Kelvin)
        } else if str_eq(s, "dK") {
            Ok(TemperatureUnit::Decikelvin)
        } else if str_eq(s, "cK") {
            Ok(TemperatureUnit::Centikelvin)
        } else if str_eq(s, "mK") {
            Ok(TemperatureUnit::Millikelvin)
        } else if str_eq(s, "µK") {
            Ok(TemperatureUnit::Microkelvin)
        } else if str_eq(s, "nK") {
            Ok(TemperatureUnit::Nanokelvin)
        } else if str_eq(s, "pK") {
            Ok(TemperatureUnit::Picokelvin)
        } else if str_eq(s, "°C") {
            Ok(TemperatureUnit::DegreeCelsius)
        } else if str_eq(s, "°F") {
            Ok(TemperatureUnit::DegreeFahrenheit)
        } else if str_eq(s, "°R") {
            Ok(TemperatureUnit::DegreeRankine)
        } else if str_eq(s, "placeholder") {
            Err(UnitError::NotSpecified)
        } else {
            Err(UnitError::Unrecognized)
        }
    }

    /// `all` lists every supported temperature interval unit once, in display order.
    pub fn all() -> (v: Vec<TemperatureUnit>)
        ensures
            v@ == temperature_units_in_order(),
            v@.len() == 16,
            forall|u: TemperatureUnit| v@.contains(u),
            forall|i: int, j: int| 0 <= i < j < v@.len() ==> v@[i] != v@[j],
    {
        let v = vec![
            TemperatureUnit::Terakelvin,
            TemperatureUnit::Gigakelvin,
            TemperatureUnit::Megakelvin,
            TemperatureUnit::Kilokelvin,
            TemperatureUnit::Hectokelvin,
            TemperatureUnit::Decakelvin,
            TemperatureUnit::Kelvin,
            TemperatureUnit::Decikelvin,
            TemperatureUnit::Centikelvin,
            TemperatureUnit::Millikelvin,
            TemperatureUnit::Microkelvin,
            TemperatureUnit::Nanokelvin,
            TemperatureUnit::Picokelvin,
            TemperatureUnit::DegreeCelsius,
            TemperatureUnit::DegreeFahrenheit,
            TemperatureUnit::DegreeRankine,
        ];
        proof {
            assert forall|u: TemperatureUnit| v@.contains(u) by {
                match u {
                    TemperatureUnit::Terakelvin => assert(v@[0] == u),
                    TemperatureUnit::Gigakelvin => assert(v@[1] == u),
                    TemperatureUnit::Megakelvin => assert(v@[2] == u),
                    TemperatureUnit::Kilokelvin => assert(v@[3] == u),
                    TemperatureUnit::Hectokelvin => assert(v@[4] == u),
                    TemperatureUnit::Decakelvin => assert(v@[5] == u),
                    TemperatureUnit::Kelvin => assert(v@[6] == u),
                    TemperatureUnit::Decikelvin => assert(v@[7] == u),
                    TemperatureUnit::Centikelvin => assert(v@[8] == u),
                    TemperatureUnit::Millikelvin => assert(v@[9] == u),
                    TemperatureUnit::Microkelvin => assert(v@[10] == u),
                    TemperatureUnit::Nanokelvin => assert(v@[11] == u),
                    TemperatureUnit::Picokelvin => assert(v@[12] == u),
                    TemperatureUnit::DegreeCelsius => assert(v@[13] == u),
                    TemperatureUnit::DegreeFahrenheit => assert(v@[14] == u),
                    TemperatureUnit::DegreeRankine => assert(v@[15] == u),
                }
            }
        }
        v
    }
}

/// The temperature interval unit a symbol stands for, by name: an SI
/// prefix before `K` for the kelvin, or `°C`, `°F` or `°R` for the degrees
/// Celsius, Fahrenheit and Rankine.
pub open spec fn temperature_symbol_name(s: Seq<char>) -> Option<Seq<char>> {
    if s == "°C"@ {
        Some("degree Celsius"@)
    } else if s == "°F"@ {
        Some("degree Fahrenheit"@)
    } else if s == "°R"@ {
        Some("degree Rankine"@)
    } else if s.len() >= 1 && s.subrange(s.len() - 1, s.len() as int) == "K"@ && si_prefix_name(s.subrange(0, s.len() - 1)) is Some {
        Some(si_prefix_name(s.subrange(0, s.len() - 1)).unwrap() + "kelvin"@)
    } else {
        None
    }
}

/// The abbreviation of each temperature unit is the symbol of that unit.
proof fn lemma_temperature_abbreviation_is_symbol(u: TemperatureUnit)
    ensures
        temperature_symbol_name(u.spec_abbreviation()) == Some(u.spec_singular()),
{
    reveal_strlit("");
    reveal_strlit("G");
    reveal_strlit("GK");
    reveal_strlit("K");
    reveal_strlit("M");
    reveal_strlit("MK");
    reveal_strlit("T");
    reveal_strlit("TK");
    reveal_strlit("c");
    reveal_strlit("cK");
    reveal_strlit("centi");
    reveal_strlit("centikelvin");
    reveal_strlit("d");
    reveal_strlit("dK");
    reveal_strlit("da");
    reveal_strlit("daK");
    reveal_strlit("deca");
    reveal_strlit("decakelvin");
    reveal_strlit("deci");
    reveal_strlit("decikelvin");
    reveal_strlit("degree Celsius");
    reveal_strlit("degree Fahrenheit");
    reveal_strlit("degree Rankine");
    reveal_strlit("giga");
    reveal_strlit("gigakelvin");
    reveal_strlit("h");
    reveal_strlit("hK");
    reveal_strlit("hecto");
    reveal_strlit("hectokelvin");
    reveal_strlit("k");
    reveal_strlit("kK");
    reveal_strlit("kelvin");
    reveal_strlit("kilo");
    reveal_strlit("kilokelvin");
    reveal_strlit("m");
    reveal_strlit("mK");
    reveal_strlit("mega");
    reveal_strlit("megakelvin");
    reveal_strlit("micro");
    reveal_strlit("microkelvin");
    reveal_strlit("milli");
    reveal_strlit("millikelvin");
    reveal_strlit("n");
    reveal_strlit("nK");
    reveal_strlit("nano");
    reveal_strlit("nanokelvin");
    reveal_strlit("p");
    reveal_strlit("pK");
    reveal_strlit("pico");
    reveal_strlit("picokelvin");
    reveal_strlit("tera");
    reveal_strlit("terakelvin");
    reveal_strlit("°C");
    reveal_strlit("°F");
    reveal_strlit("°R");
    reveal_strlit("µ");
    reveal_strlit("µK");
    match u {
        TemperatureUnit::Terakelvin => {
            assert("TK"@ != "°C"@) by {
                assert("TK"@[0] != "°C"@[0]);
            }
            assert("TK"@ != "°F"@) by {
                assert("TK"@[0] != "°F"@[0]);
            }
            assert("TK"@ != "°R"@) by {
                assert("TK"@[0] != "°R"@[0]);
            }
            assert("TK"@.subrange("TK"@.len() - 1, "TK"@.len() as int) =~= "K"@);
            assert("TK"@.subrange(0, "TK"@.len() - 1) =~= "T"@);
            assert(si_prefix_name("T"@) == Some("tera"@));
            assert(""@ + "tera"@ + "kelvin"@ =~= "terakelvin"@);
            assert(temperature_symbol_name("TK"@) == Some("terakelvin"@));
        },
        TemperatureUnit::Gigakelvin => {
            assert("GK"@ != "°C"@) by {
                assert("GK"@[0] != "°C"@[0]);
            }
            assert("GK"@ != "°F"@) by {
                assert("GK"@[0] != "°F"@[0]);
            }
            assert("GK"@ != "°R"@) by {
                assert("GK"@[0] != "°R"@[0]);
            }
            assert("GK"@.subrange("GK"@.len() - 1, "GK"@.len() as int) =~= "K"@);
            assert("GK"@.subrange(0, "GK"@.len() - 1) =~= "G"@);
            assert("G"@ != "T"@) by {
                assert("G"@[0] != "T"@[0]);
            }
            assert(si_prefix_name("G"@) == Some("giga"@));
            assert(""@ + "giga"@ + "kelvin"@ =~= "gigakelvin"@);
            assert(temperature_symbol_name("GK"@) == Some("gigakelvin"@));
        },
        TemperatureUnit::Megakelvin => {
            assert("MK"@ != "°C"@) by {
                assert("MK"@[0] != "°C"@[0]);
            }
            assert("MK"@ != "°F"@) by {
                assert("MK"@[0] != "°F"@[0]);
            }
            assert("MK"@ != "°R"@) by {
                assert("MK"@[0] != "°R"@[0]);
            }
            assert("MK"@.subrange("MK"@.len() - 1, "MK"@.len() as int) =~= "K"@);
            assert("MK"@.subrange(0, "MK"@.len() - 1) =~= "M"@);
            assert("M"@ != "T"@) by {
                assert("M"@[0] != "T"@[0]);
            }
            assert("M"@ != "G"@) by {
                assert("M"@[0] != "G"@[0]);
            }
            assert(si_prefix_name("M"@) == Some("mega"@));
            assert(""@ + "mega"@ + "kelvin"@ =~= "megakelvin"@);
            assert(temperature_symbol_name("MK"@) == Some("megakelvin"@));
        },
        TemperatureUnit::Kilokelvin => {
            assert("kK"@ != "°C"@) by {
                assert("kK"@[0] != "°C"@[0]);
            }
            assert("kK"@ != "°F"@) by {
                assert("kK"@[0] != "°F"@[0]);
            }
            assert("kK"@ != "°R"@) by {
                assert("kK"@[0] != "°R"@[0]);
            }
            assert("kK"@.subrange("kK"@.len() - 1, "kK"@.len() as int) =~= "K"@);
            assert("kK"@.subrange(0, "kK"@.len() - 1) =~= "k"@);
            assert("k"@ != "T"@) by {
                assert("k"@[0] != "T"@[0]);
            }
            assert("k"@ != "G"@) by {
                assert("k"@[0] != "G"@[0]);
            }
            assert("k"@ != "M"@) by {
                assert("k"@[0] != "M"@[0]);
            }
            assert(si_prefix_name("k"@) == Some("kilo"@));
            assert(""@ + "kilo"@ + "kelvin"@ =~= "kilokelvin"@);
            assert(temperature_symbol_name("kK"@) == Some("kilokelvin"@));
        },
        TemperatureUnit::Hectokelvin => {
            assert("hK"@ != "°C"@) by {
                assert("hK"@[0] != "°C"@[0]);
            }
            assert("hK"@ != "°F"@) by {
                assert("hK"@[0] != "°F"@[0]);
            }
            assert("hK"@ != "°R"@) by {
                assert("hK"@[0] != "°R"@[0]);
            }
            assert("hK"@.subrange("hK"@.len() - 1, "hK"@.len() as int) =~= "K"@);
            assert("hK"@.subrange(0, "hK"@.len() - 1) =~= "h"@);
            assert("h"@ != "T"@) by {
                assert("h"@[0] != "T"@[0]);
            }
            assert("h"@ != "G"@) by {
                assert("h"@[0] != "G"@[0]);
            }
            assert("h"@ != "M"@) by {
                assert("h"@[0] != "M"@[0]);
            }
            assert("h"@ != "k"@) by {
                assert("h"@[0] != "k"@[0]);
            }
            assert(si_prefix_name("h"@) == Some("hecto"@));
            assert(""@ + "hecto"@ + "kelvin"@ =~= "hectokelvin"@);
            assert(temperature_symbol_name("hK"@) == Some("hectokelvin"@));
        },
        TemperatureUnit::Decakelvin => {
            assert("daK"@ != "°C"@) by {
                assert("daK"@.len() != "°C"@.len());
            }
            assert("daK"@ != "°F"@) by {
                assert("daK"@.len() != "°F"@.len());
            }
            assert("daK"@ != "°R"@) by {
                assert("daK"@.len() != "°R"@.len());
            }
            assert("daK"@.subrange("daK"@.len() - 1, "daK"@.len() as int) =~= "K"@);
            assert("daK"@.subrange(0, "daK"@.len() - 1) =~= "da"@);
            assert("da"@ != "T"@) by {
                assert("da"@.len() != "T"@.len());
            }
            assert("da"@ != "G"@) by {
                assert("da"@.len() != "G"@.len());
            }
            assert("da"@ != "M"@) by {
                assert("da"@.len() != "M"@.len());
            }
            assert("da"@ != "k"@) by {
                assert("da"@.len() != "k"@.len());
            }
            assert("da"@ != "h"@) by {
                assert("da"@.len() != "h"@.len());
            }
            assert(si_prefix_name("da"@) == Some("deca"@));
            assert(""@ + "deca"@ + "kelvin"@ =~= "decakelvin"@);
            assert(temperature_symbol_name("daK"@) == Some("decakelvin"@));
        },
        TemperatureUnit::Kelvin => {
            assert("K"@ != "°C"@) by {
                assert("K"@.len() != "°C"@.len());
            }
            assert("K"@ != "°F"@) by {
                assert("K"@.len() != "°F"@.len());
            }
            assert("K"@ != "°R"@) by {
                assert("K"@.len() != "°R"@.len());
            }
            assert("K"@.subrange("K"@.len() - 1, "K"@.len() as int) =~= "K"@);
            assert("K"@.subrange(0, "K"@.len() - 1) =~= ""@);
            assert(""@ != "T"@) by {
                assert(""@.len() != "T"@.len());
            }
            assert(""@ != "G"@) by {
                assert(""@.len() != "G"@.len());
            }
            assert(""@ != "M"@) by {
                assert(""@.len() != "M"@.len());
            }
            assert(""@ != "k"@) by {
                assert(""@.len() != "k"@.len());
            }
            assert(""@ != "h"@) by {
                assert(""@.len() != "h"@.len());
            }
            assert(""@ != "da"@) by {
                assert(""@.len() != "da"@.len());
            }
            assert(si_prefix_name(""@) == Some(""@));
            assert(""@ + ""@ + "kelvin"@ =~= "kelvin"@);
            assert(temperature_symbol_name("K"@) == Some("kelvin"@));
        },
        TemperatureUnit::Decikelvin => {
            assert("dK"@ != "°C"@) by {
                assert("dK"@[0] != "°C"@[0]);
            }
            assert("dK"@ != "°F"@) by {
                assert("dK"@[0] != "°F"@[0]);
            }
            assert("dK"@ != "°R"@) by {
                assert("dK"@[0] != "°R"@[0]);
            }
            assert("dK"@.subrange("dK"@.len() - 1, "dK"@.len() as int) =~= "K"@);
            assert("dK"@.subrange(0, "dK"@.len() - 1) =~= "d"@);
            assert("d"@ != "T"@) by {
                assert("d"@[0] != "T"@[0]);
            }
            assert("d"@ != "G"@) by {
                assert("d"@[0] != "G"@[0]);
            }
            assert("d"@ != "M"@) by {
                assert("d"@[0] != "M"@[0]);
            }
            assert("d"@ != "k"@) by {
                assert("d"@[0] != "k"@[0]);
            }
            assert("d"@ != "h"@) by {
                assert("d"@[0] != "h"@[0]);
            }
            assert("d"@ != "da"@) by {
                assert("d"@.len() != "da"@.len());
            }
            assert("d"@ != ""@) by {
                assert("d"@.len() != ""@.len());
            }
            assert(si_prefix_name("d"@) == Some("deci"@));
            assert(""@ + "deci"@ + "kelvin"@ =~= "decikelvin"@);
            assert(temperature_symbol_name("dK"@) == Some("decikelvin"@));
        },
        TemperatureUnit::Centikelvin => {
            assert("cK"@ != "°C"@) by {
                assert("cK"@[0] != "°C"@[0]);
            }
            assert("cK"@ != "°F"@) by {
                assert("cK"@[0] != "°F"@[0]);
            }
            assert("cK"@ != "°R"@) by {
                assert("cK"@[0] != "°R"@[0]);
            }
            assert("cK"@.subrange("cK"@.len() - 1, "cK"@.len() as int) =~= "K"@);
            assert("cK"@.subrange(0, "cK"@.len() - 1) =~= "c"@);
            assert("c"@ != "T"@) by {
                assert("c"@[0] != "T"@[0]);
            }
            assert("c"@ != "G"@) by {
                assert("c"@[0] != "G"@[0]);
            }
            assert("c"@ != "M"@) by {
                assert("c"@[0] != "M"@[0]);
            }
            assert("c"@ != "k"@) by {
                assert("c"@[0] != "k"@[0]);
            }
            assert("c"@ != "h"@) by {
                assert("c"@[0] != "h"@[0]);
            }
            assert("c"@ != "da"@) by {
                assert("c"@.len() != "da"@.len());
            }
            assert("c"@ != ""@) by {
                assert("c"@.len() != ""@.len());
            }
            assert("c"@ != "d"@) by {
                assert("c"@[0] != "d"@[0]);
            }
            assert(si_prefix_name("c"@) == Some("centi"@));
            assert(""@ + "centi"@ + "kelvin"@ =~= "centikelvin"@);
            assert(temperature_symbol_name("cK"@) == Some("centikelvin"@));
        },
        TemperatureUnit::Millikelvin => {
            assert("mK"@ != "°C"@) by {
                assert("mK"@[0] != "°C"@[0]);
            }
            assert("mK"@ != "°F"@) by {
                assert("mK"@[0] != "°F"@[0]);
            }
            assert("mK"@ != "°R"@) by {
                assert("mK"@[0] != "°R"@[0]);
            }
            assert("mK"@.subrange("mK"@.len() - 1, "mK"@.len() as int) =~= "K"@);
            assert("mK"@.subrange(0, "mK"@.len() - 1) =~= "m"@);
            assert("m"@ != "T"@) by {
                assert("m"@[0] != "T"@[0]);
            }
            assert("m"@ != "G"@) by {
                assert("m"@[0] != "G"@[0]);
            }
            assert("m"@ != "M"@) by {
                assert("m"@[0] != "M"@[0]);
            }
            assert("m"@ != "k"@) by {
                assert("m"@[0] != "k"@[0]);
            }
            assert("m"@ != "h"@) by {
                assert("m"@[0] != "h"@[0]);
            }
            assert("m"@ != "da"@) by {
                assert("m"@.len() != "da"@.len());
            }
            assert("m"@ != ""@) by {
                assert("m"@.len() != ""@.len());
            }
            assert("m"@ != "d"@) by {
                assert("m"@[0] != "d"@[0]);
            }
            assert("m"@ != "c"@) by {
                assert("m"@[0] != "c"@[0]);
            }
            assert(si_prefix_name("m"@) == Some("milli"@));
            assert(""@ + "milli"@ + "kelvin"@ =~= "millikelvin"@);
            assert(temperature_symbol_name("mK"@) == Some("millikelvin"@));
        },
        TemperatureUnit::Microkelvin => {
            assert("µK"@ != "°C"@) by {
                assert("µK"@[0] != "°C"@[0]);
            }
            assert("µK"@ != "°F"@) by {
                assert("µK"@[0] != "°F"@[0]);
            }
            assert("µK"@ != "°R"@) by {
                assert("µK"@[0] != "°R"@[0]);
            }
            assert("µK"@.subrange("µK"@.len() - 1, "µK"@.len() as int) =~= "K"@);
            assert("µK"@.subrange(0, "µK"@.len() - 1) =~= "µ"@);
            assert("µ"@ != "T"@) by {
                assert("µ"@[0] != "T"@[0]);
            }
            assert("µ"@ != "G"@) by {
                assert("µ"@[0] != "G"@[0]);
            }
            assert("µ"@ != "M"@) by {
                assert("µ"@[0] != "M"@[0]);
            }
            assert("µ"@ != "k"@) by {
                assert("µ"@[0] != "k"@[0]);
            }
            assert("µ"@ != "h"@) by {
                assert("µ"@[0] != "h"@[0]);
            }
            assert("µ"@ != "da"@) by {
                assert("µ"@.len() != "da"@.len());
            }
            assert("µ"@ != ""@) by {
                assert("µ"@.len() != ""@.len());
            }
            assert("µ"@ != "d"@) by {
                assert("µ"@[0] != "d"@[0]);
            }
            assert("µ"@ != "c"@) by {
                assert("µ"@[0] != "c"@[0]);
            }
            assert("µ"@ != "m"@) by {
                assert("µ"@[0] != "m"@[0]);
            }
            assert(si_prefix_name("µ"@) == Some("micro"@));
            assert(""@ + "micro"@ + "kelvin"@ =~= "microkelvin"@);
            assert(temperature_symbol_name("µK"@) == Some("microkelvin"@));
        },
        TemperatureUnit::Nanokelvin => {
            assert("nK"@ != "°C"@) by {
                assert("nK"@[0] != "°C"@[0]);
            }
            assert("nK"@ != "°F"@) by {
                assert("nK"@[0] != "°F"@[0]);
            }
            assert("nK"@ != "°R"@) by {
                assert("nK"@[0] != "°R"@[0]);
            }
            assert("nK"@.subrange("nK"@.len() - 1, "nK"@.len() as int) =~= "K"@);
            assert("nK"@.subrange(0, "nK"@.len() - 1) =~= "n"@);
            assert("n"@ != "T"@) by {
                assert("n"@[0] != "T"@[0]);
            }
            assert("n"@ != "G"@) by {
                assert("n"@[0] != "G"@[0]);
            }
            assert("n"@ != "M"@) by {
                assert("n"@[0] != "M"@[0]);
            }
            assert("n"@ != "k"@) by {
                assert("n"@[0] != "k"@[0]);
            }
            assert("n"@ != "h"@) by {
                assert("n"@[0] != "h"@[0]);
            }
            assert("n"@ != "da"@) by {
                assert("n"@.len() != "da"@.len());
            }
            assert("n"@ != ""@) by {
                assert("n"@.len() != ""@.len());
            }
            assert("n"@ != "d"@) by {
                assert("n"@[0] != "d"@[0]);
            }
            assert("n"@ != "c"@) by {
                assert("n"@[0] != "c"@[0]);
            }
            assert("n"@ != "m"@) by {
                assert("n"@[0] != "m"@[0]);
            }
            assert("n"@ != "µ"@) by {
                assert("n"@[0] != "µ"@[0]);
            }
            assert(si_prefix_name("n"@) == Some("nano"@));
            assert(""@ + "nano"@ + "kelvin"@ =~= "nanokelvin"@);
            assert(temperature_symbol_name("nK"@) == Some("nanokelvin"@));
        },
        TemperatureUnit::Picokelvin => {
            assert("pK"@ != "°C"@) by {
                assert("pK"@[0] != "°C"@[0]);
            }
            assert("pK"@ != "°F"@) by {
                assert("pK"@[0] != "°F"@[0]);
            }
            assert("pK"@ != "°R"@) by {
                assert("pK"@[0] != "°R"@[0]);
            }
            assert("pK"@.subrange("pK"@.len() - 1, "pK"@.len() as int) =~= "K"@);
            assert("pK"@.subrange(0, "pK"@.len() - 1) =~= "p"@);
            assert("p"@ != "T"@) by {
                assert("p"@[0] != "T"@[0]);
            }
            assert("p"@ != "G"@) by {
                assert("p"@[0] != "G"@[0]);
            }
            assert("p"@ != "M"@) by {
                assert("p"@[0] != "M"@[0]);
            }
            assert("p"@ != "k"@) by {
                assert("p"@[0] != "k"@[0]);
            }
            assert("p"@ != "h"@) by {
                assert("p"@[0] != "h"@[0]);
            }
            assert("p"@ != "da"@) by {
                assert("p"@.len() != "da"@.len());
            }
            assert("p"@ != ""@) by {
                assert("p"@.len() != ""@.len());
            }
            assert("p"@ != "d"@) by {
                assert("p"@[0] != "d"@[0]);
            }
            assert("p"@ != "c"@) by {
                assert("p"@[0] != "c"@[0]);
            }
            assert("p"@ != "m"@) by {
                assert("p"@[0] != "m"@[0]);
            }
            assert("p"@ != "µ"@) by {
                assert("p"@[0] != "µ"@[0]);
            }
            assert("p"@ != "n"@) by {
                assert("p"@[0] != "n"@[0]);
            }
            assert(si_prefix_name("p"@) == Some("pico"@));
            assert(""@ + "pico"@ + "kelvin"@ =~= "picokelvin"@);
            assert(temperature_symbol_name("pK"@) == Some("picokelvin"@));
        },
        TemperatureUnit::DegreeCelsius => {
            assert(temperature_symbol_name("°C"@) == Some("degree Celsius"@));
        },
        TemperatureUnit::DegreeFahrenheit => {
            assert("°F"@ != "°C"@) by {
                assert("°F"@[1] != "°C"@[1]);
            }
            assert(temperature_symbol_name("°F"@) == Some("degree Fahrenheit"@));
        },
        TemperatureUnit::DegreeRankine => {
            assert("°R"@ != "°C"@) by {
                assert("°R"@[1] != "°C"@[1]);
            }
            assert("°R"@ != "°F"@) by {
                assert("°R"@[1] != "°F"@[1]);
            }
            assert(temperature_symbol_name("°R"@) == Some("degree Rankine"@));
        },
    }
}

/// Reading a temperature abbreviation gives the unit that the symbol stands for:
/// whatever text is read as a temperature unit names that unit by its SI or NIST
/// symbol, so no two units are mistaken for each other.
pub proof fn lemma_temperature_abbreviations_name_their_units(s: Seq<char>, u: TemperatureUnit)
    requires
        temperature_unit_of(s) == Ok::<TemperatureUnit, UnitError>(u),
    ensures
        temperature_symbol_name(s) == Some(u.spec_singular()),
{
    assert(s == u.spec_abbreviation());
    lemma_temperature_abbreviation_is_symbol(u);
}

/// Reading the abbreviation of a temperature interval unit gives the unit back.
pub proof fn lemma_temperature_unit_abbreviation_round_trip(u: TemperatureUnit)
    ensures
        temperature_unit_of(u.spec_abbreviation()) == Ok::<TemperatureUnit, UnitError>(u),
{
    reveal_strlit("TK");
    assert("TK"@.len() == 2);
    assert("TK"@[0] == 'T');
    assert("TK"@[1] == 'K');
    reveal_strlit("GK");
    assert("GK"@.len() == 2);
    assert("GK"@[0] == 'G');
    assert("GK"@[1] == 'K');
    reveal_strlit("MK");
    assert("MK"@.len() == 2);
    assert("MK"@[0] == 'M');
    assert("MK"@[1] == 'K');
    reveal_strlit("kK");
    assert("kK"@.len() == 2);
    assert("kK"@[0] == 'k');
    assert("kK"@[1] == 'K');
    reveal_strlit("hK");
    assert("hK"@.len() == 2);
    assert("hK"@[0] == 'h');
    assert("hK"@[1] == 'K');
    reveal_strlit("daK");
    assert("daK"@.len() == 3);
    assert("daK"@[0] == 'd');
    assert("daK"@[1] == 'a');
    assert("daK"@[2] == 'K');
    reveal_strlit("K");
    assert("K"@.len() == 1);
    assert("K"@[0] == 'K');
    reveal_strlit("dK");
    assert("dK"@.len() == 2);
    assert("dK"@[0] == 'd');
    assert("dK"@[1] == 'K');
    reveal_strlit("cK");
    assert("cK"@.len() == 2);
    assert("cK"@[0] == 'c');
    assert("cK"@[1] == 'K');
    reveal_strlit("mK");
    assert("mK"@.len() == 2);
    assert("mK"@[0] == 'm');
    assert("mK"@[1] == 'K');
    reveal_strlit("µK");
    assert("µK"@.len() == 2);
    assert("µK"@[0] == 'µ');
    assert("µK"@[1] == 'K');
    reveal_strlit("nK");
    assert("nK"@.len() == 2);
    assert("nK"@[0] == 'n');
    assert("nK"@[1] == 'K');
    reveal_strlit("pK");
    assert("pK"@.len() == 2);
    assert("pK"@[0] == 'p');
    assert("pK"@[1] == 'K');
    reveal_strlit("°C");
    assert("°C"@.len() == 2);
    assert("°C"@[0] == '°');
    assert("°C"@[1] == 'C');
    reveal_strlit("°F");
    assert("°F"@.len() == 2);
    assert("°F"@[0] == '°');
    assert("°F"@[1] == 'F');
    reveal_strlit("°R");
    assert("°R"@.len() == 2);
    assert("°R"@[0] == '°');
    assert("°R"@[1] == 'R');
    match u {
        TemperatureUnit::Terakelvin => assert(temperature_unit_of("TK"@) == Ok::<TemperatureUnit, UnitError>(u)),
        TemperatureUnit::Gigakelvin => assert(temperature_unit_of("GK"@) == Ok::<TemperatureUnit, UnitError>(u)),
        TemperatureUnit::Megakelvin => assert(temperature_unit_of("MK"@) == Ok::<TemperatureUnit, UnitError>(u)),
        TemperatureUnit::Kilokelvin => assert(temperature_unit_of("kK"@) == Ok::<TemperatureUnit, UnitError>(u)),
        TemperatureUnit::Hectokelvin => assert(temperature_unit_of("hK"@) == Ok::<TemperatureUnit, UnitError>(u)),
        TemperatureUnit::Decakelvin => assert(temperature_unit_of("daK"@) == Ok::<TemperatureUnit, UnitError>(u)),
        TemperatureUnit::Kelvin => assert(temperature_unit_of("K"@) == Ok::<TemperatureUnit, UnitError>(u)),
        TemperatureUnit::Decikelvin => assert(temperature_unit_of("dK"@) == Ok::<TemperatureUnit, UnitError>(u)),
        TemperatureUnit::Centikelvin => assert(temperature_unit_of("cK"@) == Ok::<TemperatureUnit, UnitError>(u)),
        TemperatureUnit::Millikelvin => assert(temperature_unit_of("mK"@) == Ok::<TemperatureUnit, UnitError>(u)),
        TemperatureUnit::Microkelvin => assert(temperature_unit_of("µK"@) == Ok::<TemperatureUnit, UnitError>(u)),
        TemperatureUnit::Nanokelvin => assert(temperature_unit_of("nK"@) == Ok::<TemperatureUnit, UnitError>(u)),
        TemperatureUnit::Picokelvin => assert(temperature_unit_of("pK"@) == Ok::<TemperatureUnit, UnitError>(u)),
        TemperatureUnit::DegreeCelsius => assert(temperature_unit_of("°C"@) == Ok::<TemperatureUnit, UnitError>(u)),
        TemperatureUnit::DegreeFahrenheit => assert(temperature_unit_of("°F"@) == Ok::<TemperatureUnit, UnitError>(u)),
        TemperatureUnit::DegreeRankine => assert(temperature_unit_of("°R"@) == Ok::<TemperatureUnit, UnitError>(u)),
    }
}

/// The supported mass units, in the order they are listed to users.
#[derive(Clone, Copy, Debug, PartialEq, Eq, Structural, Hash)]
pub enum MassUnit {
    /// `Tg`
    Teragram,
    /// `Gg`
    Gigagram,
    /// `Mg`
    Megagram,
    /// `kg`
    Kilogram,
    /// `hg`
    Hectogram,
    /// `dag`
    Decagram,
    /// `g`
    Gram,
    /// `dg`
    Decigram,
    /// `cg`
    Centigram,
    /// `mg`
    Milligram,
    /// `µg`
    Microgram,
    /// `ng`
    Nanogram,
    /// `pg`
    Picogram,
    /// `oz`
    Ounce,
    /// `lb`
    Pound,
}

/// The mass unit that the abbreviation `s` names; the word
/// `placeholder` stands for a unit that was not given.
pub open spec fn mass_unit_of(s: Seq<char>) -> Result<MassUnit, UnitError> {
    if s == "Tg"@ {
        Ok(MassUnit::Teragram)
    } else if s == "Gg"@ {
        Ok(MassUnit::Gigagram)
    } else if s == "Mg"@ {
        Ok(MassUnit::Megagram)
    } else if s == "kg"@ {
        Ok(MassUnit::Kilogram)
    } else if s == "hg"@ {
        Ok(MassUnit::Hectogram)
    } else if s == "dag"@ {
        Ok(MassUnit::Decagram)
    } else if s == "g"@ {
        Ok(MassUnit::Gram)
    } else if s == "dg"@ {
        Ok(MassUnit::Decigram)
    } else if s == "cg"@ {
        Ok(MassUnit::Centigram)
    } else if s == "mg"@ {
        Ok(MassUnit::Milligram)
    } else if s == "µg"@ {
        Ok(MassUnit::Microgram)
    } else if s == "ng"@ {
        Ok(MassUnit::Nanogram)
    } else if s == "pg"@ {
        Ok(MassUnit::Picogram)
    } else if s == "oz"@ {
        Ok(MassUnit::Ounce)
    } else if s == "lb"@ {
        Ok(MassUnit::Pound)
    } else if s == "placeholder"@ {
        Err(UnitError::NotSpecified)
    } else {
        Err(UnitError::Unrecognized)
    }
}

impl MassUnit {
    /// The singular name of the unit, as `uom` names it.
    pub open spec fn spec_singular(self) -> Seq<char> {
        match self {
            MassUnit::Teragram => "teragram"@,
            MassUnit::Gigagram => "gigagram"@,
            MassUnit::Megagram => "megagram"@,
            MassUnit::Kilogram => "kilogram"@,
            MassUnit::Hectogram => "hectogram"@,
            MassUnit::Decagram => "decagram"@,
            MassUnit::Gram => "gram"@,
            MassUnit::Decigram => "decigram"@,
            MassUnit::Centigram => "centigram"@,
            MassUnit::Milligram => "milligram"@,
            MassUnit::Microgram => "microgram"@,
            MassUnit::Nanogram => "nanogram"@,
            MassUnit::Picogram => "picogram"@,
            MassUnit::Ounce => "ounce"@,
            MassUnit::Pound => "pound"@,
        }
    }

    /// `singular` is the singular name of the unit, as `uom` names it.
    pub fn singular(&self) -> (r: &'static str)
        ensures
            r@ == self.spec_singular(),
    {
        match self {
            MassUnit::Teragram => "teragram",
            MassUnit::Gigagram => "gigagram",
            MassUnit::Megagram => "megagram",
            MassUnit::Kilogram => "kilogram",
            MassUnit::Hectogram => "hectogram",
            MassUnit::Decagram => "decagram",
            MassUnit::Gram => "gram",
            MassUnit::Decigram => "decigram",
            MassUnit::Centigram => "centigram",
            MassUnit::Milligram => "milligram",
            MassUnit::Microgram => "microgram",
            MassUnit::Nanogram => "nanogram",
            MassUnit::Picogram => "picogram",
            MassUnit::Ounce => "ounce",
            MassUnit::Pound => "pound",
        }
    }

    /// The abbreviation of the unit, as written in recipe files.
    pub open spec fn spec_abbreviation(self) -> Seq<char> {
        match self {
            MassUnit::Teragram => "Tg"@,
            MassUnit::Gigagram => "Gg"@,
            MassUnit::Megagram => "Mg"@,
            MassUnit::Kilogram => "kg"@,
            MassUnit::Hectogram => "hg"@,
            MassUnit::Decagram => "dag"@,
            MassUnit::Gram => "g"@,
            MassUnit::Decigram => "dg"@,
            MassUnit::Centigram => "cg"@,
            MassUnit::Milligram => "mg"@,
            MassUnit::Microgram => "µg"@,
            MassUnit::Nanogram => "ng"@,
            MassUnit::Picogram => "pg"@,
            MassUnit::Ounce => "oz"@,
            MassUnit::Pound => "lb"@,
        }
    }

    /// `abbreviation` returns the abbreviation of the unit.
    pub fn abbreviation(&self) -> (r: &'static str)
        ensures
            r@ == self.spec_abbreviation(),
    {
        match self {
            MassUnit::Teragram => "Tg",
            MassUnit::Gigagram => "Gg",
            MassUnit::Megagram => "Mg",
            MassUnit::Kilogram => "kg",
            MassUnit::Hectogram => "hg",
            MassUnit::Decagram => "dag",
            MassUnit::Gram => "g",
            MassUnit::Decigram => "dg",
            MassUnit::Centigram => "cg",
            MassUnit::Milligram => "mg",
            MassUnit::Microgram => "µg",
            MassUnit::Nanogram => "ng",
            MassUnit::Picogram => "pg",
            MassUnit::Ounce => "oz",
            MassUnit::Pound => "lb",
        }
    }

    /// `from_abbreviation` reads a mass unit abbreviation.
    pub fn from_abbreviation(s: &str) -> (r: Result<MassUnit, UnitError>)
        ensures
            r == mass_unit_of(s@),
    {
        if str_eq(s, "Tg") {
            Ok(MassUnit::Teragram)
        } else if str_eq(s, "Gg") {
            Ok(MassUnit::Gigagram)
        } else if str_eq(s, "Mg") {
            Ok(MassUnit::Megagram)
        } else if str_eq(s, "kg") {
            Ok(MassUnit::Kilogram)
        } else if str_eq(s, "hg") {
            Ok(MassUnit::Hectogram)
        } else if str_eq(s, "dag") {
            Ok(MassUnit::Decagram)
        } else if str_eq(s, "g") {
            Ok(MassUnit::Gram)
        } else if str_eq(s, "dg") {
            Ok(MassUnit::Decigram)
        } else if str_eq(s, "cg") {
            Ok(MassUnit::Centigram)
        } else if str_eq(s, "mg") {
            Ok(MassUnit::Milligram)
        } else if str_eq(s, "µg") {
            Ok(MassUnit::Microgram)
        } else if str_eq(s, "ng") {
            Ok(MassUnit::Nanogram)
        } else if str_eq(s, "pg") {
            Ok(MassUnit::Picogram)
        } else if str_eq(s, "oz") {
            Ok(MassUnit::Ounce)
        } else if str_eq(s, "lb") {
            Ok(MassUnit::Pound)
        } else if str_eq(s, "placeholder") {
            Err(UnitError::NotSpecified)
        } else {
            Err(UnitError::Unrecognized)
        }
    }

    /// `all` lists every supported mass unit once, in display order.
    pub fn all() -> (v: Vec<MassUnit>)
        ensures
            v@ == mass_units_in_order(),
            v@.len() == 15,
            forall|u: MassUnit| v@.contains(u),
            forall|i: int, j: int| 0 <= i < j < v@.len() ==> v@[i] != v@[j],
    {
        let v = vec![
            MassUnit::Teragram,
            MassUnit::Gigagram,
            MassUnit::Megagram,
            MassUnit::Kilogram,
            MassUnit::Hectogram,
            MassUnit::Decagram,
            MassUnit::Gram,
            MassUnit::Decigram,
            MassUnit::Centigram,
            MassUnit::Milligram,
            MassUnit::Microgram,
            MassUnit::Nanogram,
            MassUnit::Picogram,
            MassUnit::Ounce,
            MassUnit::Pound,
        ];
        proof {
            assert forall|u: MassUnit| v@.contains(u) by {
                match u {
                    MassUnit::Teragram => assert(v@[0] == u),
                    MassUnit::Gigagram => assert(v@[1] == u),
                    MassUnit::Megagram => assert(v@[2] == u),
                    MassUnit::Kilogram => assert(v@[3] == u),
                    MassUnit::Hectogram => assert(v@[4] == u),
                    MassUnit::Decagram => assert(v@[5] == u),
                    MassUnit::Gram => assert(v@[6] == u),
                    MassUnit::Decigram => assert(v@[7] == u),
                    MassUnit::Centigram => assert(v@[8] == u),
                    MassUnit::Milligram => assert(v@[9] == u),
                    MassUnit::Microgram => assert(v@[10] == u),
                    MassUnit::Nanogram => assert(v@[11] == u),
                    MassUnit::Picogram => assert(v@[12] == u),
                    MassUnit::Ounce => assert(v@[13] == u),
                    MassUnit::Pound => assert(v@[14] == u),
                }
            }
        }
        v
    }
}

/// The mass unit a symbol stands for, by name: an SI prefix before `g` for
/// the gram, or `oz` for the ounce and `lb` for the pound.
pub open spec fn mass_symbol_name(s: Seq<char>) -> Option<Seq<char>> {
    if s == "oz"@ {
        Some("ounce"@)
    } else if s == "lb"@ {
        Some("pound"@)
    } else if s.len() >= 1 && s.subrange(s.len() - 1, s.len() as int) == "g"@ && si_prefix_name(s.subrange(0, s.len() - 1)) is Some {
        Some(si_prefix_name(s.subrange(0, s.len() - 1)).unwrap() + "gram"@)
    } else {
        None
    }
}

/// The abbreviation of each mass unit is the symbol of that unit.
proof fn lemma_mass_abbreviation_is_symbol(u: MassUnit)
    ensures
        mass_symbol_name(u.spec_abbreviation()) == Some(u.spec_singular()),
{
    reveal_strlit("");
    reveal_strlit("G");
    reveal_strlit("Gg");
    reveal_strlit("M");
    reveal_strlit("Mg");
    reveal_strlit("T");
    reveal_strlit("Tg");
    reveal_strlit("c");
    reveal_strlit("centi");
    reveal_strlit("centigram");
    reveal_strlit("cg");
    reveal_strlit("d");
    reveal_strlit("da");
    reveal_strlit("dag");
    reveal_strlit("deca");
    reveal_strlit("decagram");
    reveal_strlit("deci");
    reveal_strlit("decigram");
    reveal_strlit("dg");
    reveal_strlit("g");
    reveal_strlit("giga");
    reveal_strlit("gigagram");
    reveal_strlit("gram");
    reveal_strlit("h");
    reveal_strlit("hecto");
    reveal_strlit("hectogram");
    reveal_strlit("hg");
    reveal_strlit("k");
    reveal_strlit("kg");
    reveal_strlit("kilo");
    reveal_strlit("kilogram");
    reveal_strlit("lb");
    reveal_strlit("m");
    reveal_strlit("mega");
    reveal_strlit("megagram");
    reveal_strlit("mg");
    reveal_strlit("micro");
    reveal_strlit("microgram");
    reveal_strlit("milli");
    reveal_strlit("milligram");
    reveal_strlit("n");
    reveal_strlit("nano");
    reveal_strlit("nanogram");
    reveal_strlit("ng");
    reveal_strlit("ounce");
    reveal_strlit("oz");
    reveal_strlit("p");
    reveal_strlit("pg");
    reveal_strlit("pico");
    reveal_strlit("picogram");
    reveal_strlit("pound");
    reveal_strlit("tera");
    reveal_strlit("teragram");
    reveal_strlit("µ");
    reveal_strlit("µg");
    match u {
        MassUnit::Teragram => {
            assert("Tg"@ != "oz"@) by {
                assert("Tg"@[0] != "oz"@[0]);
            }
            assert("Tg"@ != "lb"@) by {
                assert("Tg"@[0] != "lb"@[0]);
            }
            assert("Tg"@.subrange("Tg"@.len() - 1, "Tg"@.len() as int) =~= "g"@);
            assert("Tg"@.subrange(0, "Tg"@.len() - 1) =~= "T"@);
            assert(si_prefix_name("T"@) == Some("tera"@));
            assert(""@ + "tera"@ + "gram"@ =~= "teragram"@);
            assert(mass_symbol_name("Tg"@) == Some("teragram"@));
        },
        MassUnit::Gigagram => {
            assert("Gg"@ != "oz"@) by {
                assert("Gg"@[0] != "oz"@[0]);
            }
            assert("Gg"@ != "lb"@) by {
                assert("Gg"@[0] != "lb"@[0]);
            }
            assert("Gg"@.subrange("Gg"@.len() - 1, "Gg"@.len() as int) =~= "g"@);
            assert("Gg"@.subrange(0, "Gg"@.len() - 1) =~= "G"@);
            assert("G"@ != "T"@) by {
                assert("G"@[0] != "T"@[0]);
            }
            assert(si_prefix_name("G"@) == Some("giga"@));
            assert(""@ + "giga"@ + "gram"@ =~= "gigagram"@);
            assert(mass_symbol_name("Gg"@) == Some("gigagram"@));
        },
        MassUnit::Megagram => {
            assert("Mg"@ != "oz"@) by {
                assert("Mg"@[0] != "oz"@[0]);
            }
            assert("Mg"@ != "lb"@) by {
                assert("Mg"@[0] != "lb"@[0]);
            }
            assert("Mg"@.subrange("Mg"@.len() - 1, "Mg"@.len() as int) =~= "g"@);
            assert("Mg"@.subrange(0, "Mg"@.len() - 1) =~= "M"@);
            assert("M"@ != "T"@) by {
                assert("M"@[0] != "T"@[0]);
            }
            assert("M"@ != "G"@) by {
                assert("M"@[0] != "G"@[0]);
            }
            assert(si_prefix_name("M"@) == Some("mega"@));
            assert(""@ + "mega"@ + "gram"@ =~= "megagram"@);
            assert(mass_symbol_name("Mg"@) == Some("megagram"@));
        },
        MassUnit::Kilogram => {
            assert("kg"@ != "oz"@) by {
                assert("kg"@[0] != "oz"@[0]);
            }
            assert("kg"@ != "lb"@) by {
                assert("kg"@[0] != "lb"@[0]);
            }
            assert("kg"@.subrange("kg"@.len() - 1, "kg"@.len() as int) =~= "g"@);
            assert("kg"@.subrange(0, "kg"@.len() - 1) =~= "k"@);
            assert("k"@ != "T"@) by {
                assert("k"@[0] != "T"@[0]);
            }
            assert("k"@ != "G"@) by {
                assert("k"@[0] != "G"@[0]);
            }
            assert("k"@ != "M"@) by {
                assert("k"@[0] != "M"@[0]);
            }
            assert(si_prefix_name("k"@) == Some("kilo"@));
            assert(""@ + "kilo"@ + "gram"@ =~= "kilogram"@);
            assert(mass_symbol_name("kg"@) == Some("kilogram"@));
        },
        MassUnit::Hectogram => {
            assert("hg"@ != "oz"@) by {
                assert("hg"@[0] != "oz"@[0]);
            }
            assert("hg"@ != "lb"@) by {
                assert("hg"@[0] != "lb"@[0]);
            }
            assert("hg"@.subrange("hg"@.len() - 1, "hg"@.len() as int) =~= "g"@);
            assert("hg"@.subrange(0, "hg"@.len() - 1) =~= "h"@);
            assert("h"@ != "T"@) by {
                assert("h"@[0] != "T"@[0]);
            }
            assert("h"@ != "G"@) by {
                assert("h"@[0] != "G"@[0]);
            }
            assert("h"@ != "M"@) by {
                assert("h"@[0] != "M"@[0]);
            }
            assert("h"@ != "k"@) by {
                assert("h"@[0] != "k"@[0]);
            }
            assert(si_prefix_name("h"@) == Some("hecto"@));
            assert(""@ + "hecto"@ + "gram"@ =~= "hectogram"@);
            assert(mass_symbol_name("hg"@) == Some("hectogram"@));
        },
        MassUnit::Decagram => {
            assert("dag"@ != "oz"@) by {
                assert("dag"@.len() != "oz"@.len());
            }
            assert("dag"@ != "lb"@) by {
                assert("dag"@.len() != "lb"@.len());
            }
            assert("dag"@.subrange("dag"@.len() - 1, "dag"@.len() as int) =~= "g"@);
            assert("dag"@.subrange(0, "dag"@.len() - 1) =~= "da"@);
            assert("da"@ != "T"@) by {
                assert("da"@.len() != "T"@.len());
            }
            assert("da"@ != "G"@) by {
                assert("da"@.len() != "G"@.len());
            }
            assert("da"@ != "M"@) by {
                assert("da"@.len() != "M"@.len());
            }
            assert("da"@ != "k"@) by {
                assert("da"@.len() != "k"@.len());
            }
            assert("da"@ != "h"@) by {
                assert("da"@.len() != "h"@.len());
            }
            assert(si_prefix_name("da"@) == Some("deca"@));
            assert(""@ + "deca"@ + "gram"@ =~= "decagram"@);
            assert(mass_symbol_name("dag"@) == Some("decagram"@));
        },
        MassUnit::Gram => {
            assert("g"@ != "oz"@) by {
                assert("g"@.len() != "oz"@.len());
            }
            assert("g"@ != "lb"@) by {
                assert("g"@.len() != "lb"@.len());
            }
            assert("g"@.subrange("g"@.len() - 1, "g"@.len() as int) =~= "g"@);
            assert("g"@.subrange(0, "g"@.len() - 1) =~= ""@);
            assert(""@ != "T"@) by {
                assert(""@.len() != "T"@.len());
            }
            assert(""@ != "G"@) by {
                assert(""@.len() != "G"@.len());
            }
            assert(""@ != "M"@) by {
                assert(""@.len() != "M"@.len());
            }
            assert(""@ != "k"@) by {
                assert(""@.len() != "k"@.len());
            }
            assert(""@ != "h"@) by {
                assert(""@.len() != "h"@.len());
            }
            assert(""@ != "da"@) by {
                assert(""@.len() != "da"@.len());
            }
            assert(si_prefix_name(""@) == Some(""@));
            assert(""@ + ""@ + "gram"@ =~= "gram"@);
            assert(mass_symbol_name("g"@) == Some("gram"@));
        },
        MassUnit::Decigram => {
            assert("dg"@ != "oz"@) by {
                assert("dg"@[0] != "oz"@[0]);
            }
            assert("dg"@ != "lb"@) by {
                assert("dg"@[0] != "lb"@[0]);
            }
            assert("dg"@.subrange("dg"@.len() - 1, "dg"@.len() as int) =~= "g"@);
            assert("dg"@.subrange(0, "dg"@.len() - 1) =~= "d"@);
            assert("d"@ != "T"@) by {
                assert("d"@[0] != "T"@[0]);
            }
            assert("d"@ != "G"@) by {
                assert("d"@[0] != "G"@[0]);
            }
            assert("d"@ != "M"@) by {
                assert("d"@[0] != "M"@[0]);
            }
            assert("d"@ != "k"@) by {
                assert("d"@[0] != "k"@[0]);
            }
            assert("d"@ != "h"@) by {
                assert("d"@[0] != "h"@[0]);
            }
            assert("d"@ != "da"@) by {
                assert("d"@.len() != "da"@.len());
            }
            assert("d"@ != ""@) by {
                assert("d"@.len() != ""@.len());
            }
            assert(si_prefix_name("d"@) == Some("deci"@));
            assert(""@ + "deci"@ + "gram"@ =~= "decigram"@);
            assert(mass_symbol_name("dg"@) == Some("decigram"@));
        },
        MassUnit::Centigram => {
            assert("cg"@ != "oz"@) by {
                assert("cg"@[0] != "oz"@[0]);
            }
            assert("cg"@ != "lb"@) by {
                assert("cg"@[0] != "lb"@[0]);
            }
            assert("cg"@.subrange("cg"@.len() - 1, "cg"@.len() as int) =~= "g"@);
            assert("cg"@.subrange(0, "cg"@.len() - 1) =~= "c"@);
            assert("c"@ != "T"@) by {
                assert("c"@[0] != "T"@[0]);
            }
            assert("c"@ != "G"@) by {
                assert("c"@[0] != "G"@[0]);
            }
            assert("c"@ != "M"@) by {
                assert("c"@[0] != "M"@[0]);
            }
            assert("c"@ != "k"@) by {
                assert("c"@[0] != "k"@[0]);
            }
            assert("c"@ != "h"@) by {
                assert("c"@[0] != "h"@[0]);
            }
            assert("c"@ != "da"@) by {
                assert("c"@.len() != "da"@.len());
            }
            assert("c"@ != ""@) by {
                assert("c"@.len() != ""@.len());
            }
            assert("c"@ != "d"@) by {
                assert("c"@[0] != "d"@[0]);
            }
            assert(si_prefix_name("c"@) == Some("centi"@));
            assert(""@ + "centi"@ + "gram"@ =~= "centigram"@);
            assert(mass_symbol_name("cg"@) == Some("centigram"@));
        },
        MassUnit::Milligram => {
            assert("mg"@ != "oz"@) by {
                assert("mg"@[0] != "oz"@[0]);
            }
            assert("mg"@ != "lb"@) by {
                assert("mg"@[0] != "lb"@[0]);
            }
            assert("mg"@.subrange("mg"@.len() - 1, "mg"@.len() as int) =~= "g"@);
            assert("mg"@.subrange(0, "mg"@.len() - 1) =~= "m"@);
            assert("m"@ != "T"@) by {
                assert("m"@[0] != "T"@[0]);
            }
            assert("m"@ != "G"@) by {
                assert("m"@[0] != "G"@[0]);
            }
            assert("m"@ != "M"@) by {
                assert("m"@[0] != "M"@[0]);
            }
            assert("m"@ != "k"@) by {
                assert("m"@[0] != "k"@[0]);
            }
            assert("m"@ != "h"@) by {
                assert("m"@[0] != "h"@[0]);
            }
            assert("m"@ != "da"@) by {
                assert("m"@.len() != "da"@.len());
            }
            assert("m"@ != ""@) by {
                assert("m"@.len() != ""@.len());
            }
            assert("m"@ != "d"@) by {
                assert("m"@[0] != "d"@[0]);
            }
            assert("m"@ != "c"@) by {
                assert("m"@[0] != "c"@[0]);
            }
            assert(si_prefix_name("m"@) == Some("milli"@));
            assert(""@ + "milli"@ + "gram"@ =~= "milligram"@);
            assert(mass_symbol_name("mg"@) == Some("milligram"@));
        },
        MassUnit::Microgram => {
            assert("µg"@ != "oz"@) by {
                assert("µg"@[0] != "oz"@[0]);
            }
            assert("µg"@ != "lb"@) by {
                assert("µg"@[0] != "lb"@[0]);
            }
            assert("µg"@.subrange("µg"@.len() - 1, "µg"@.len() as int) =~= "g"@);
            assert("µg"@.subrange(0, "µg"@.len() - 1) =~= "µ"@);
            assert("µ"@ != "T"@) by {
                assert("µ"@[0] != "T"@[0]);
            }
            assert("µ"@ != "G"@) by {
                assert("µ"@[0] != "G"@[0]);
            }
            assert("µ"@ != "M"@) by {
                assert("µ"@[0] != "M"@[0]);
            }
            assert("µ"@ != "k"@) by {
                assert("µ"@[0] != "k"@[0]);
            }
            assert("µ"@ != "h"@) by {
                assert("µ"@[0] != "h"@[0]);
            }
            assert("µ"@ != "da"@) by {
                assert("µ"@.len() != "da"@.len());
            }
            assert("µ"@ != ""@) by {
                assert("µ"@.len() != ""@.len());
            }
            assert("µ"@ != "d"@) by {
                assert("µ"@[0] != "d"@[0]);
            }
            assert("µ"@ != "c"@) by {
                assert("µ"@[0] != "c"@[0]);
            }
            assert("µ"@ != "m"@) by {
                assert("µ"@[0] != "m"@[0]);
            }
            assert(si_prefix_name("µ"@) == Some("micro"@));
            assert(""@ + "micro"@ + "gram"@ =~= "microgram"@);
            assert(mass_symbol_name("µg"@) == Some("microgram"@));
        },
        MassUnit::Nanogram => {
            assert("ng"@ != "oz"@) by {
                assert("ng"@[0] != "oz"@[0]);
            }
            assert("ng"@ != "lb"@) by {
                assert("ng"@[0] != "lb"@[0]);
            }
            assert("ng"@.subrange("ng"@.len() - 1, "ng"@.len() as int) =~= "g"@);
            assert("ng"@.subrange(0, "ng"@.len() - 1) =~= "n"@);
            assert("n"@ != "T"@) by {
                assert("n"@[0] != "T"@[0]);
            }
            assert("n"@ != "G"@) by {
                assert("n"@[0] != "G"@[0]);
            }
            assert("n"@ != "M"@) by {
                assert("n"@[0] != "M"@[0]);
            }
            assert("n"@ != "k"@) by {
                assert("n"@[0] != "k"@[0]);
            }
            assert("n"@ != "h"@) by {
                assert("n"@[0] != "h"@[0]);
            }
            assert("n"@ != "da"@) by {
                assert("n"@.len() != "da"@.len());
            }
            assert("n"@ != ""@) by {
                assert("n"@.len() != ""@.len());
            }
            assert("n"@ != "d"@) by {
                assert("n"@[0] != "d"@[0]);
            }
            assert("n"@ != "c"@) by {
                assert("n"@[0] != "c"@[0]);
            }
            assert("n"@ != "m"@) by {
                assert("n"@[0] != "m"@[0]);
            }
            assert("n"@ != "µ"@) by {
                assert("n"@[0] != "µ"@[0]);
            }
            assert(si_prefix_name("n"@) == Some("nano"@));
            assert(""@ + "nano"@ + "gram"@ =~= "nanogram"@);
            assert(mass_symbol_name("ng"@) == Some("nanogram"@));
        },
        MassUnit::Picogram => {
            assert("pg"@ != "oz"@) by {
                assert("pg"@[0] != "oz"@[0]);
            }
            assert("pg"@ != "lb"@) by {
                assert("pg"@[0] != "lb"@[0]);
            }
            assert("pg"@.subrange("pg"@.len() - 1, "pg"@.len() as int) =~= "g"@);
            assert("pg"@.subrange(0, "pg"@.len() - 1) =~= "p"@);
            assert("p"@ != "T"@) by {
                assert("p"@[0] != "T"@[0]);
            }
            assert("p"@ != "G"@) by {
                assert("p"@[0] != "G"@[0]);
            }
            assert("p"@ != "M"@) by {
                assert("p"@[0] != "M"@[0]);
            }
            assert("p"@ != "k"@) by {
                assert("p"@[0] != "k"@[0]);
            }
            assert("p"@ != "h"@) by {
                assert("p"@[0] != "h"@[0]);
            }
            assert("p"@ != "da"@) by {
                assert("p"@.len() != "da"@.len());
            }
            assert("p"@ != ""@) by {
                assert("p"@.len() != ""@.len());
            }
            assert("p"@ != "d"@) by {
                assert("p"@[0] != "d"@[0]);
            }
            assert("p"@ != "c"@) by {
                assert("p"@[0] != "c"@[0]);
            }
            assert("p"@ != "m"@) by {
                assert("p"@[0] != "m"@[0]);
            }
            assert("p"@ != "µ"@) by {
                assert("p"@[0] != "µ"@[0]);
            }
            assert("p"@ != "n"@) by {
                assert("p"@[0] != "n"@[0]);
            }
            assert(si_prefix_name("p"@) == Some("pico"@));
            assert(""@ + "pico"@ + "gram"@ =~= "picogram"@);
            assert(mass_symbol_name("pg"@) == Some("picogram"@));
        },
        MassUnit::Ounce => {
            assert(mass_symbol_name("oz"@) == Some("ounce"@));
        },
        MassUnit::Pound => {
            assert("lb"@ != "oz"@) by {
                assert("lb"@[0] != "oz"@[0]);
            }
            assert(mass_symbol_name("lb"@) == Some("pound"@));
        },
    }
}

/// Reading a mass abbreviation gives the unit that the symbol stands for:
/// whatever text is read as a mass unit names that unit by its SI or NIST
/// symbol, so no two units are mistaken for each other.
pub proof fn lemma_mass_abbreviations_name_their_units(s: Seq<char>, u: MassUnit)
    requires
        mass_unit_of(s) == Ok::<MassUnit, UnitError>(u),
    ensures
        mass_symbol_name(s) == Some(u.spec_singular()),
{
    assert(s == u.spec_abbreviation());
    lemma_mass_abbreviation_is_symbol(u);
}

/// Reading the abbreviation of a mass unit gives the unit back.
pub proof fn lemma_mass_unit_abbreviation_round_trip(u: MassUnit)
    ensures
        mass_unit_of(u.spec_abbreviation()) == Ok::<MassUnit, UnitError>(u),
{
    reveal_strlit("Tg");
    assert("Tg"@.len() == 2);
    assert("Tg"@[0] == 'T');
    assert("Tg"@[1] == 'g');
    reveal_strlit("Gg");
    assert("Gg"@.len() == 2);
    assert("Gg"@[0] == 'G');
    assert("Gg"@[1] == 'g');
    reveal_strlit("Mg");
    assert("Mg"@.len() == 2);
    assert("Mg"@[0] == 'M');
    assert("Mg"@[1] == 'g');
    reveal_strlit("kg");
    assert("kg"@.len() == 2);
    assert("kg"@[0] == 'k');
    assert("kg"@[1] == 'g');
    reveal_strlit("hg");
    assert("hg"@.len() == 2);
    assert("hg"@[0] == 'h');
    assert("hg"@[1] == 'g');
    reveal_strlit("dag");
    assert("dag"@.len() == 3);
    assert("dag"@[0] == 'd');
    assert("dag"@[1] == 'a');
    assert("dag"@[2] == 'g');
    reveal_strlit("g");
    assert("g"@.len() == 1);
    assert("g"@[0] == 'g');
    reveal_strlit("dg");
    assert("dg"@.len() == 2);
    assert("dg"@[0] == 'd');
    assert("dg"@[1] == 'g');
    reveal_strlit("cg");
    assert("cg"@.len() == 2);
    assert("cg"@[0] == 'c');
    assert("cg"@[1] == 'g');
    reveal_strlit("mg");
    assert("mg"@.len() == 2);
    assert("mg"@[0] == 'm');
    assert("mg"@[1] == 'g');
    reveal_strlit("µg");
    assert("µg"@.len() == 2);
    assert("µg"@[0] == 'µ');
    assert("µg"@[1] == 'g');
    reveal_strlit("ng");
    assert("ng"@.len() == 2);
    assert("ng"@[0] == 'n');
    assert("ng"@[1] == 'g');
    reveal_strlit("pg");
    assert("pg"@.len() == 2);
    assert("pg"@[0] == 'p');
    assert("pg"@[1] == 'g');
    reveal_strlit("oz");
    assert("oz"@.len() == 2);
    assert("oz"@[0] == 'o');
    assert("oz"@[1] == 'z');
    reveal_strlit("lb");
    assert("lb"@.len() == 2);
    assert("lb"@[0] == 'l');
    assert("lb"@[1] == 'b');
    match u {
        MassUnit::Teragram => assert(mass_unit_of("Tg"@) == Ok::<MassUnit, UnitError>(u)),
        MassUnit::Gigagram => assert(mass_unit_of("Gg"@) == Ok::<MassUnit, UnitError>(u)),
        MassUnit::Megagram => assert(mass_unit_of("Mg"@) == Ok::<MassUnit, UnitError>(u)),
        MassUnit::Kilogram => assert(mass_unit_of("kg"@) == Ok::<MassUnit, UnitError>(u)),
        MassUnit::Hectogram => assert(mass_unit_of("hg"@) == Ok::<MassUnit, UnitError>(u)),
        MassUnit::Decagram => assert(mass_unit_of("dag"@) == Ok::<MassUnit, UnitError>(u)),
        MassUnit::Gram => assert(mass_unit_of("g"@) == Ok::<MassUnit, UnitError>(u)),
        MassUnit::Decigram => assert(mass_unit_of("dg"@) == Ok::<MassUnit, UnitError>(u)),
        MassUnit::Centigram => assert(mass_unit_of("cg"@) == Ok::<MassUnit, UnitError>(u)),
        MassUnit::Milligram => assert(mass_unit_of("mg"@) == Ok::<MassUnit, UnitError>(u)),
        MassUnit::Microgram => assert(mass_unit_of("µg"@) == Ok::<MassUnit, UnitError>(u)),
        MassUnit::Nanogram => assert(mass_unit_of("ng"@) == Ok::<MassUnit, UnitError>(u)),
        MassUnit::Picogram => assert(mass_unit_of("pg"@) == Ok::<MassUnit, UnitError>(u)),
        MassUnit::Ounce => assert(mass_unit_of("oz"@) == Ok::<MassUnit, UnitError>(u)),
        MassUnit::Pound => assert(mass_unit_of("lb"@) == Ok::<MassUnit, UnitError>(u)),
    }
}

/// The supported volume units, in the order they are listed to users.
#[derive(Clone, Copy, Debug, PartialEq, Eq, Structural, Hash)]
pub enum VolumeUnit {
    /// `Tm³`
    CubicTerameter,
    /// `Gm³`
    CubicGigameter,
    /// `Mm³`
    CubicMegameter,
    /// `km³`
    CubicKilometer,
    /// `hm³`
    CubicHectometer,
    /// `dam³`
    CubicDecameter,
    /// `m³`
    CubicMeter,
    /// `dm³`
    CubicDecimeter,
    /// `cm³`
    CubicCentimeter,
    /// `mm³`
    CubicMillimeter,
    /// `µm³`
    CubicMicrometer,
    /// `nm³`
    CubicNanometer,
    /// `pm³`
    CubicPicometer,
    /// `ac · ft`
    AcreFoot,
    /// `bbl`
    Barrel,
    /// `bu`
    Bushel,
    /// `cords`
    Cord,
    /// `ft³`
    CubicFoot,
    /// `in³`
    CubicInch,
    /// `mi³`
    CubicMile,
    /// `yd³`
    CubicYard,
    /// `cup`
    Cup,
    /// `fl oz`
    FluidOunce,
    /// `fl oz (UK)`
    FluidOunceImperial,
    /// `gal (UK)`
    GallonImperial,
    /// `gal`
    Gallon,
    /// `gi (UK)`
    GillImperial,
    /// `gi`
    Gill,
    /// `TL`
    Teraliter,
    /// `GL`
    Gigaliter,
    /// `ML`
    Megaliter,
    /// `kL`
    Kiloliter,
    /// `hL`
    Hectoliter,
    /// `daL`
    Decaliter,
    /// `L`
    Liter,
    /// `dL`
    Deciliter,
    /// `cL`
    Centiliter,
    /// `mL`
    Milliliter,
    /// `µL`
    Microliter,
    /// `nL`
    Nanoliter,
    /// `pL`
    Picoliter,
    /// `pk`
    Peck,
    /// `dry pt`
    PintDry,
    /// `liq pt`
    PintLiquid,
    /// `dry qt`
    QuartDry,
    /// `liq qt`
    QuartLiquid,
    /// `tbsp`
    Tablespoon,
    /// `tsp`
    Teaspoon,
}

/// The volume unit that the abbreviation `s` names; the word
/// `placeholder` stands for a unit that was not given.
pub open spec fn volume_unit_of(s: Seq<char>) -> Result<VolumeUnit, UnitError> {
    if s == "Tm³"@ {
        Ok(VolumeUnit::CubicTerameter)
    } else if s == "Gm³"@ {
        Ok(VolumeUnit::CubicGigameter)
    } else if s == "Mm³"@ {
        Ok(VolumeUnit::CubicMegameter)
    } else if s == "km³"@ {
        Ok(VolumeUnit::CubicKilometer)
    } else if s == "hm³"@ {
        Ok(VolumeUnit::CubicHectometer)
    } else if s == "dam³"@ {
        Ok(VolumeUnit::CubicDecameter)
    } else if s == "m³"@ {
        Ok(VolumeUnit::CubicMeter)
    } else if s == "dm³"@ {
        Ok(VolumeUnit::CubicDecimeter)
    } else if s == "cm³"@ {
        Ok(VolumeUnit::CubicCentimeter)
    } else if s == "mm³"@ {
        Ok(VolumeUnit::CubicMillimeter)
    } else if s == "µm³"@ {
        Ok(VolumeUnit::CubicMicrometer)
    } else if s == "nm³"@ {
        Ok(VolumeUnit::CubicNanometer)
    } else if s == "pm³"@ {
        Ok(VolumeUnit::CubicPicometer)
    } else if s == "ac · ft"@ {
        Ok(VolumeUnit::AcreFoot)
    } else if s == "bbl"@ {
        Ok(VolumeUnit::Barrel)
    } else if s == "bu"@ {
        Ok(VolumeUnit::Bushel)
    } else if s == "cords"@ {
        Ok(VolumeUnit::Cord)
    } else if s == "ft³"@ {
        Ok(VolumeUnit::CubicFoot)
    } else if s == "in³"@ {
        Ok(VolumeUnit::CubicInch)
    } else if s == "mi³"@ {
        Ok(VolumeUnit::CubicMile)
    } else if s == "yd³"@ {
        Ok(VolumeUnit::CubicYard)
    } else if s == "cup"@ {
        Ok(VolumeUnit::Cup)
    } else if s == "fl oz"@ {
        Ok(VolumeUnit::FluidOunce)
    } else if s == "fl oz (UK)"@ {
        Ok(VolumeUnit::FluidOunceImperial)
    } else if s == "gal (UK)"@ {
        Ok(VolumeUnit::GallonImperial)
    } else if s == "gal"@ {
        Ok(VolumeUnit::Gallon)
    } else if s == "gi (UK)"@ {
        Ok(VolumeUnit::GillImperial)
    } else if s == "gi"@ {
        Ok(VolumeUnit::Gill)
    } else if s == "TL"@ {
        Ok(VolumeUnit::Teraliter)
    } else if s == "GL"@ {
        Ok(VolumeUnit::Gigaliter)
    } else if s == "ML"@ {
        Ok(VolumeUnit::Megaliter)
    } else if s == "kL"@ {
        Ok(VolumeUnit::Kiloliter)
    } else if s == "hL"@ {
        Ok(VolumeUnit::Hectoliter)
    } else if s == "daL"@ {
        Ok(VolumeUnit::Decaliter)
    } else if s == "L"@ {
        Ok(VolumeUnit::Liter)
    } else if s == "dL"@ {
        Ok(VolumeUnit::Deciliter)
    } else if s == "cL"@ {
        Ok(VolumeUnit::Centiliter)
    } else if s == "mL"@ {
        Ok(VolumeUnit::Milliliter)
    } else if s == "µL"@ {
        Ok(VolumeUnit::Microliter)
    } else if s == "nL"@ {
        Ok(VolumeUnit::Nanoliter)
    } else if s == "pL"@ {
        Ok(VolumeUnit::Picoliter)
    } else if s == "pk"@ {
        Ok(VolumeUnit::Peck)
    } else if s == "dry pt"@ {
        Ok(VolumeUnit::PintDry)
    } else if s == "liq pt"@ {
        Ok(VolumeUnit::PintLiquid)
    } else if s == "dry qt"@ {
        Ok(VolumeUnit::QuartDry)
    } else if s == "liq qt"@ {
        Ok(VolumeUnit::QuartLiquid)
    } else if s == "tbsp"@ {
        Ok(VolumeUnit::Tablespoon)
    } else if s == "tsp"@ {
        Ok(VolumeUnit::Teaspoon)
    } else if s == "placeholder"@ {
        Err(UnitError::NotSpecified)
    } else {
        Err(UnitError::Unrecognized)
    }
}

impl VolumeUnit {
    /// The singular name of the unit, as `uom` names it.
    pub open spec fn spec_singular(self) -> Seq<char> {
        match self {
            VolumeUnit::CubicTerameter => "cubic terameter"@,
            VolumeUnit::CubicGigameter => "cubic gigameter"@,
            VolumeUnit::CubicMegameter => "cubic megameter"@,
            VolumeUnit::CubicKilometer => "cubic kilometer"@,
            VolumeUnit::CubicHectometer => "cubic hectometer"@,
            VolumeUnit::CubicDecameter => "cubic decameter"@,
            VolumeUnit::CubicMeter => "cubic meter"@,
            VolumeUnit::CubicDecimeter => "cubic decimeter"@,
            VolumeUnit::CubicCentimeter => "cubic centimeter"@,
            VolumeUnit::CubicMillimeter => "cubic millimeter"@,
            VolumeUnit::CubicMicrometer => "cubic micrometer"@,
            VolumeUnit::CubicNanometer => "cubic nanometer"@,
            VolumeUnit::CubicPicometer => "cubic picometer"@,
            VolumeUnit::AcreFoot => "acre-foot"@,
            VolumeUnit::Barrel => "barrel"@,
            VolumeUnit::Bushel => "bushel"@,
            VolumeUnit::Cord => "cord"@,
            VolumeUnit::CubicFoot => "cubic foot"@,
            VolumeUnit::CubicInch => "cubic inch"@,
            VolumeUnit::CubicMile => "cubic mile"@,
            VolumeUnit::CubicYard => "cubic yard"@,
            VolumeUnit::Cup => "cup"@,
            VolumeUnit::FluidOunce => "fluid ounce"@,
            VolumeUnit::FluidOunceImperial => "Imperial fluid ounce"@,
            VolumeUnit::GallonImperial => "Imperial gallon"@,
            VolumeUnit::Gallon => "gallon"@,
            VolumeUnit::GillImperial => "Imperial gill"@,
            VolumeUnit::Gill => "gill"@,
            VolumeUnit::Teraliter => "teraliter"@,
            VolumeUnit::Gigaliter => "gigaliter"@,
            VolumeUnit::Megaliter => "megaliter"@,
            VolumeUnit::Kiloliter => "kiloliter"@,
            VolumeUnit::Hectoliter => "hectoliter"@,
            VolumeUnit::Decaliter => "decaliter"@,
            VolumeUnit::Liter => "liter"@,
            VolumeUnit::Deciliter => "deciliter"@,
            VolumeUnit::Centiliter => "centiliter"@,
            VolumeUnit::Milliliter => "milliliter"@,
            VolumeUnit::Microliter => "microliter"@,
            VolumeUnit::Nanoliter => "nanoliter"@,
            VolumeUnit::Picoliter => "picoliter"@,
            VolumeUnit::Peck => "peck"@,
            VolumeUnit::PintDry => "dry pint"@,
            VolumeUnit::PintLiquid => "liquid pint"@,
            VolumeUnit::QuartDry => "dry quart"@,
            VolumeUnit::QuartLiquid => "liquid quart"@,
            VolumeUnit::Tablespoon => "tablespoon"@,
            VolumeUnit::Teaspoon => "teaspoon"@,
        }
    }

    /// `singular` is the singular name of the unit, as `uom` names it.
    pub fn singular(&self) -> (r: &'static str)
        ensures
            r@ == self.spec_singular(),
    {
        match self {
            VolumeUnit::CubicTerameter => "cubic terameter",
            VolumeUnit::CubicGigameter => "cubic gigameter",
            VolumeUnit::CubicMegameter => "cubic megameter",
            VolumeUnit::CubicKilometer => "cubic kilometer",
            VolumeUnit::CubicHectometer => "cubic hectometer",
            VolumeUnit::CubicDecameter => "cubic decameter",
            VolumeUnit::CubicMeter => "cubic meter",
            VolumeUnit::CubicDecimeter => "cubic decimeter",
            VolumeUnit::CubicCentimeter => "cubic centimeter",
            VolumeUnit::CubicMillimeter => "cubic millimeter",
            VolumeUnit::CubicMicrometer => "cubic micrometer",
            VolumeUnit::CubicNanometer => "cubic nanometer",
            VolumeUnit::CubicPicometer => "cubic picometer",
            VolumeUnit::AcreFoot => "acre-foot",
            VolumeUnit::Barrel => "barrel",
            VolumeUnit::Bushel => "bushel",
            VolumeUnit::Cord => "cord",
            VolumeUnit::CubicFoot => "cubic foot",
            VolumeUnit::CubicInch => "cubic inch",
            VolumeUnit::CubicMile => "cubic mile",
            VolumeUnit::CubicYard => "cubic yard",
            VolumeUnit::Cup => "cup",
            VolumeUnit::FluidOunce => "fluid ounce",
            VolumeUnit::FluidOunceImperial => "Imperial fluid ounce",
            VolumeUnit::GallonImperial => "Imperial gallon",
            VolumeUnit::Gallon => "gallon",
            VolumeUnit::GillImperial => "Imperial gill",
            VolumeUnit::Gill => "gill",
            VolumeUnit::Teraliter => "teraliter",
            VolumeUnit::Gigaliter => "gigaliter",
            VolumeUnit::Megaliter => "megaliter",
            VolumeUnit::Kiloliter => "kiloliter",
            VolumeUnit::Hectoliter => "hectoliter",
            VolumeUnit::Decaliter => "decaliter",
            VolumeUnit::Liter => "liter",
            VolumeUnit::Deciliter => "deciliter",
            VolumeUnit::Centiliter => "centiliter",
            VolumeUnit::Milliliter => "milliliter",
            VolumeUnit::Microliter => "microliter",
            VolumeUnit::Nanoliter => "nanoliter",
            VolumeUnit::Picoliter => "picoliter",
            VolumeUnit::Peck => "peck",
            VolumeUnit::PintDry => "dry pint",
            VolumeUnit::PintLiquid => "liquid pint",
            VolumeUnit::QuartDry => "dry quart",
            VolumeUnit::QuartLiquid => "liquid quart",
            VolumeUnit::Tablespoon => "tablespoon",
            VolumeUnit::Teaspoon => "teaspoon",
        }
    }

    /// The abbreviation of the unit, as written in recipe files.
    pub open spec fn spec_abbreviation(self) -> Seq<char> {
        match self {
            VolumeUnit::CubicTerameter => "Tm³"@,
            VolumeUnit::CubicGigameter => "Gm³"@,
            VolumeUnit::CubicMegameter => "Mm³"@,
            VolumeUnit::CubicKilometer => "km³"@,
            VolumeUnit::CubicHectometer => "hm³"@,
            VolumeUnit::CubicDecameter => "dam³"@,
            VolumeUnit::CubicMeter => "m³"@,
            VolumeUnit::CubicDecimeter => "dm³"@,
            VolumeUnit::CubicCentimeter => "cm³"@,
            VolumeUnit::CubicMillimeter => "mm³"@,
            VolumeUnit::CubicMicrometer => "µm³"@,
            VolumeUnit::CubicNanometer => "nm³"@,
            VolumeUnit::CubicPicometer => "pm³"@,
            VolumeUnit::AcreFoot => "ac · ft"@,
            VolumeUnit::Barrel => "bbl"@,
            VolumeUnit::Bushel => "bu"@,
            VolumeUnit::Cord => "cords"@,
            VolumeUnit::CubicFoot => "ft³"@,
            VolumeUnit::CubicInch => "in³"@,
            VolumeUnit::CubicMile => "mi³"@,
            VolumeUnit::CubicYard => "yd³"@,
            VolumeUnit::Cup => "cup"@,
            VolumeUnit::FluidOunce => "fl oz"@,
            VolumeUnit::FluidOunceImperial => "fl oz (UK)"@,
            VolumeUnit::GallonImperial => "gal (UK)"@,
            VolumeUnit::Gallon => "gal"@,
            VolumeUnit::GillImperial => "gi (UK)"@,
            VolumeUnit::Gill => "gi"@,
            VolumeUnit::Teraliter => "TL"@,
            VolumeUnit::Gigaliter => "GL"@,
            VolumeUnit::Megaliter => "ML"@,
            VolumeUnit::Kiloliter => "kL"@,
            VolumeUnit::Hectoliter => "hL"@,
            VolumeUnit::Decaliter => "daL"@,
            VolumeUnit::Liter => "L"@,
            VolumeUnit::Deciliter => "dL"@,
            VolumeUnit::Centiliter => "cL"@,
            VolumeUnit::Milliliter => "mL"@,
            VolumeUnit::Microliter => "µL"@,
            VolumeUnit::Nanoliter => "nL"@,
            VolumeUnit::Picoliter => "pL"@,
            VolumeUnit::Peck => "pk"@,
            VolumeUnit::PintDry => "dry pt"@,
            VolumeUnit::PintLiquid => "liq pt"@,
            VolumeUnit::QuartDry => "dry qt"@,
            VolumeUnit::QuartLiquid => "liq qt"@,
            VolumeUnit::Tablespoon => "tbsp"@,
            VolumeUnit::Teaspoon => "tsp"@,
        }
    }

    /// `abbreviation` returns the abbreviation of the unit.
    pub fn abbreviation(&self) -> (r: &'static str)
        ensures
            r@ == self.spec_abbreviation(),
    {
        match self {
            VolumeUnit::CubicTerameter => "Tm³",
            VolumeUnit::CubicGigameter => "Gm³",
            VolumeUnit::CubicMegameter => "Mm³",
            VolumeUnit::CubicKilometer => "km³",
            VolumeUnit::CubicHectometer => "hm³",
            VolumeUnit::CubicDecameter => "dam³",
            VolumeUnit::CubicMeter => "m³",
            VolumeUnit::CubicDecimeter => "dm³",
            VolumeUnit::CubicCentimeter => "cm³",
            VolumeUnit::CubicMillimeter => "mm³",
            VolumeUnit::CubicMicrometer => "µm³",
            VolumeUnit::CubicNanometer => "nm³",
            VolumeUnit::CubicPicometer => "pm³",
            VolumeUnit::AcreFoot => "ac · ft",
            VolumeUnit::Barrel => "bbl",
            VolumeUnit::Bushel => "bu",
            VolumeUnit::Cord => "cords",
            VolumeUnit::CubicFoot => "ft³",
            VolumeUnit::CubicInch => "in³",
            VolumeUnit::CubicMile => "mi³",
            VolumeUnit::CubicYard => "yd³",
            VolumeUnit::Cup => "cup",
            VolumeUnit::FluidOunce => "fl oz",
            VolumeUnit::FluidOunceImperial => "fl oz (UK)",
            VolumeUnit::GallonImperial => "gal (UK)",
            VolumeUnit::Gallon => "gal",
            VolumeUnit::GillImperial => "gi (UK)",
            VolumeUnit::Gill => "gi",
            VolumeUnit::Teraliter => "TL",
            VolumeUnit::Gigaliter => "GL",
            VolumeUnit::Megaliter => "ML",
            VolumeUnit::Kiloliter => "kL",
            VolumeUnit::Hectoliter => "hL",
            VolumeUnit::Decaliter => "daL",
            VolumeUnit::Liter => "L",
            VolumeUnit::Deciliter => "dL",
            VolumeUnit::Centiliter => "cL",
            VolumeUnit::Milliliter => "mL",
            VolumeUnit::Microliter => "µL",
            VolumeUnit::Nanoliter => "nL",
            VolumeUnit::Picoliter => "pL",
            VolumeUnit::Peck => "pk",
            VolumeUnit::PintDry => "dry pt",
            VolumeUnit::PintLiquid => "liq pt",
            VolumeUnit::QuartDry => "dry qt",
            VolumeUnit::QuartLiquid => "liq qt",
            VolumeUnit::Tablespoon => "tbsp",
            VolumeUnit::Teaspoon => "tsp",
        }
    }

    /// `from_abbreviation` reads a volume unit abbreviation.
    pub fn from_abbreviation(s: &str) -> (r: Result<VolumeUnit, UnitError>)
        ensures
            r == volume_unit_of(s@),
    {
        if str_eq(s, "Tm³") {
            Ok(VolumeUnit::CubicTerameter)
        } else if str_eq(s, "Gm³") {
            Ok(VolumeUnit::CubicGigameter)
        } else if str_eq(s, "Mm³") {
            Ok(VolumeUnit::CubicMegameter)
        } else if str_eq(s, "km³") {
            Ok(VolumeUnit::CubicKilometer)
        } else if str_eq(s, "hm³") {
            Ok(VolumeUnit::CubicHectometer)
        } else if str_eq(s, "dam³") {
            Ok(VolumeUnit::CubicDecameter)
        } else if str_eq(s, "m³") {
            Ok(VolumeUnit::CubicMeter)
        } else if str_eq(s, "dm³") {
            Ok(VolumeUnit::CubicDecimeter)
        } else if str_eq(s, "cm³") {
            Ok(VolumeUnit::CubicCentimeter)
        } else if str_eq(s, "mm³") {
            Ok(VolumeUnit::CubicMillimeter)
        } else if str_eq(s, "µm³") {
            Ok(VolumeUnit::CubicMicrometer)
        } else if str_eq(s, "nm³") {
            Ok(VolumeUnit::CubicNanometer)
        } else if str_eq(s, "pm³") {
            Ok(VolumeUnit::CubicPicometer)
        } else if str_eq(s, "ac · ft") {
            Ok(VolumeUnit::AcreFoot)
        } else if str_eq(s, "bbl") {
            Ok(VolumeUnit::Barrel)
        } else if str_eq(s, "bu") {
            Ok(VolumeUnit::Bushel)
        } else if str_eq(s, "cords") {
            Ok(VolumeUnit::Cord)
        } else if str_eq(s, "ft³") {
            Ok(VolumeUnit::CubicFoot)
        } else if str_eq(s, "in³") {
            Ok(VolumeUnit::CubicInch)
        } else if str_eq(s, "mi³") {
            Ok(VolumeUnit::CubicMile)
        } else if str_eq(s, "yd³") {
            Ok(VolumeUnit::CubicYard)
        } else if str_eq(s, "cup") {
            Ok(VolumeUnit::Cup)
        } else if str_eq(s, "fl oz") {
            Ok(VolumeUnit::FluidOunce)
        } else if str_eq(s, "fl oz (UK)") {
            Ok(VolumeUnit::FluidOunceImperial)
        } else if str_eq(s, "gal (UK)") {
            Ok(VolumeUnit::GallonImperial)
        } else if str_eq(s, "gal") {
            Ok(VolumeUnit::Gallon)
        } else if str_eq(s, "gi (UK)") {
            Ok(VolumeUnit::GillImperial)
        } else if str_eq(s, "gi") {
            Ok(VolumeUnit::Gill)
        } else if str_eq(s, "TL") {
            Ok(VolumeUnit::Teraliter)
        } else if str_eq(s, "GL") {
            Ok(VolumeUnit::Gigaliter)
        } else if str_eq(s, "ML") {
            Ok(VolumeUnit::Megaliter)
        } else if str_eq(s, "kL") {
            Ok(VolumeUnit::Kiloliter)
        } else if str_eq(s, "hL") {
            Ok(VolumeUnit::Hectoliter)
        } else if str_eq(s, "daL") {
            Ok(VolumeUnit::Decaliter)
        } else if str_eq(s, "L") {
            Ok(VolumeUnit::Liter)
        } else if str_eq(s, "dL") {
            Ok(VolumeUnit::Deciliter)
        } else if str_eq(s, "cL") {
            Ok(VolumeUnit::Centiliter)
        } else if str_eq(s, "mL") {
            Ok(VolumeUnit::Milliliter)
        } else if str_eq(s, "µL") {
            Ok(VolumeUnit::Microliter)
        } else if str_eq(s, "nL") {
            Ok(VolumeUnit::Nanoliter)
        } else if str_eq(s, "pL") {
            Ok(VolumeUnit::Picoliter)
        } else if str_eq(s, "pk") {
            Ok(VolumeUnit::Peck)
        } else if str_eq(s, "dry pt") {
            Ok(VolumeUnit::PintDry)
        } else if str_eq(s, "liq pt") {
            Ok(VolumeUnit::PintLiquid)
        } else if str_eq(s, "dry qt") {
            Ok(VolumeUnit::QuartDry)
        } else if str_eq(s, "liq qt") {
            Ok(VolumeUnit::QuartLiquid)
        } else if str_eq(s, "tbsp") {
            Ok(VolumeUnit::Tablespoon)
        } else if str_eq(s, "tsp") {
            Ok(VolumeUnit::Teaspoon)
        } else if str_eq(s, "placeholder") {
            Err(UnitError::NotSpecified)
        } else {
            Err(UnitError::Unrecognized)
        }
    }

    /// `all` lists every supported volume unit once, in display order.
    pub fn all() -> (v: Vec<VolumeUnit>)
        ensures
            v@ == volume_units_in_order(),
            v@.len() == 48,
            forall|u: VolumeUnit| v@.contains(u),
            forall|i: int, j: int| 0 <= i < j < v@.len() ==> v@[i] != v@[j],
    {
        let v = vec![
            VolumeUnit::CubicTerameter,
            VolumeUnit::CubicGigameter,
            VolumeUnit::CubicMegameter,
            VolumeUnit::CubicKilometer,
            VolumeUnit::CubicHectometer,
            VolumeUnit::CubicDecameter,
            VolumeUnit::CubicMeter,
            VolumeUnit::CubicDecimeter,
            VolumeUnit::CubicCentimeter,
            VolumeUnit::CubicMillimeter,
            VolumeUnit::CubicMicrometer,
            VolumeUnit::CubicNanometer,
            VolumeUnit::CubicPicometer,
            VolumeUnit::AcreFoot,
            VolumeUnit::Barrel,
            VolumeUnit::Bushel,
            VolumeUnit::Cord,
            VolumeUnit::CubicFoot,
            VolumeUnit::CubicInch,
            VolumeUnit::CubicMile,
            VolumeUnit::CubicYard,
            VolumeUnit::Cup,
            VolumeUnit::FluidOunce,
            VolumeUnit::FluidOunceImperial,
            VolumeUnit::GallonImperial,
            VolumeUnit::Gallon,
            VolumeUnit::GillImperial,
            VolumeUnit::Gill,
            VolumeUnit::Teraliter,
            VolumeUnit::Gigaliter,
            VolumeUnit::Megaliter,
            VolumeUnit::Kiloliter,
            VolumeUnit::Hectoliter,
            VolumeUnit::Decaliter,
            VolumeUnit::Liter,
            VolumeUnit::Deciliter,
            VolumeUnit::Centiliter,
            VolumeUnit::Milliliter,
            VolumeUnit::Microliter,
            VolumeUnit::Nanoliter,
            VolumeUnit::Picoliter,
            VolumeUnit::Peck,
            VolumeUnit::PintDry,
            VolumeUnit::PintLiquid,
            VolumeUnit::QuartDry,
            VolumeUnit::QuartLiquid,
            VolumeUnit::Tablespoon,
            VolumeUnit::Teaspoon,
        ];
        proof {
            assert forall|u: VolumeUnit| v@.contains(u) by {
                match u {
                    VolumeUnit::CubicTerameter => assert(v@[0] == u),
                    VolumeUnit::CubicGigameter => assert(v@[1] == u),
                    VolumeUnit::CubicMegameter => assert(v@[2] == u),
                    VolumeUnit::CubicKilometer => assert(v@[3] == u),
                    VolumeUnit::CubicHectometer => assert(v@[4] == u),
                    VolumeUnit::CubicDecameter => assert(v@[5] == u),
                    VolumeUnit::CubicMeter => assert(v@[6] == u),
                    VolumeUnit::CubicDecimeter => assert(v@[7] == u),
                    VolumeUnit::CubicCentimeter => assert(v@[8] == u),
                    VolumeUnit::CubicMillimeter => assert(v@[9] == u),
                    VolumeUnit::CubicMicrometer => assert(v@[10] == u),
                    VolumeUnit::CubicNanometer => assert(v@[11] == u),
                    VolumeUnit::CubicPicometer => assert(v@[12] == u),
                    VolumeUnit::AcreFoot => assert(v@[13] == u),
                    VolumeUnit::Barrel => assert(v@[14] == u),
                    VolumeUnit::Bushel => assert(v@[15] == u),
                    VolumeUnit::Cord => assert(v@[16] == u),
                    VolumeUnit::CubicFoot => assert(v@[17] == u),
                    VolumeUnit::CubicInch => assert(v@[18] == u),
                    VolumeUnit::CubicMile => assert(v@[19] == u),
                    VolumeUnit::CubicYard => assert(v@[20] == u),
                    VolumeUnit::Cup => assert(v@[21] == u),
                    VolumeUnit::FluidOunce => assert(v@[22] == u),
                    VolumeUnit::FluidOunceImperial => assert(v@[23] == u),
                    VolumeUnit::GallonImperial => assert(v@[24] == u),
                    VolumeUnit::Gallon => assert(v@[25] == u),
                    VolumeUnit::GillImperial => assert(v@[26] == u),
                    VolumeUnit::Gill => assert(v@[27] == u),
                    VolumeUnit::Teraliter => assert(v@[28] == u),
                    VolumeUnit::Gigaliter => assert(v@[29] == u),
                    VolumeUnit::Megaliter => assert(v@[30] == u),
                    VolumeUnit::Kiloliter => assert(v@[31] == u),
                    VolumeUnit::Hectoliter => assert(v@[32] == u),
                    VolumeUnit::Decaliter => assert(v@[33] == u),
                    VolumeUnit::Liter => assert(v@[34] == u),
                    VolumeUnit::Deciliter => assert(v@[35] == u),
                    VolumeUnit::Centiliter => assert(v@[36] == u),
                    VolumeUnit::Milliliter => assert(v@[37] == u),
                    VolumeUnit::Microliter => assert(v@[38] == u),
                    VolumeUnit::Nanoliter => assert(v@[39] == u),
                    VolumeUnit::Picoliter => assert(v@[40] == u),
                    VolumeUnit::Peck => assert(v@[41] == u),
                    VolumeUnit::PintDry => assert(v@[42] == u),
                    VolumeUnit::PintLiquid => assert(v@[43] == u),
                    VolumeUnit::QuartDry => assert(v@[44] == u),
                    VolumeUnit::QuartLiquid => assert(v@[45] == u),
                    VolumeUnit::Tablespoon => assert(v@[46] == u),
                    VolumeUnit::Teaspoon => assert(v@[47] == u),
                }
            }
        }
        v
    }
}

/// The volume unit a symbol stands for, by name: an SI prefix before `m³`
/// for the cubic meter or before `L` for the liter, or one of the symbols
/// that the NIST guide gives the customary units.
pub open spec fn volume_symbol_name(s: Seq<char>) -> Option<Seq<char>> {
    if s == "ac · ft"@ {
        Some("acre-foot"@)
    } else if s == "bbl"@ {
        Some("barrel"@)
    } else if s == "bu"@ {
        Some("bushel"@)
    } else if s == "cords"@ {
        Some("cord"@)
    } else if s == "ft³"@ {
        Some("cubic foot"@)
    } else if s == "in³"@ {
        Some("cubic inch"@)
    } else if s == "mi³"@ {
        Some("cubic mile"@)
    } else if s == "yd³"@ {
        Some("cubic yard"@)
    } else if s == "cup"@ {
        Some("cup"@)
    } else if s == "fl oz"@ {
        Some("fluid ounce"@)
    } else if s == "fl oz (UK)"@ {
        Some("Imperial fluid ounce"@)
    } else if s == "gal (UK)"@ {
        Some("Imperial gallon"@)
    } else if s == "gal"@ {
        Some("gallon"@)
    } else if s == "gi (UK)"@ {
        Some("Imperial gill"@)
    } else if s == "gi"@ {
        Some("gill"@)
    } else if s == "pk"@ {
        Some("peck"@)
    } else if s == "dry pt"@ {
        Some("dry pint"@)
    } else if s == "liq pt"@ {
        Some("liquid pint"@)
    } else if s == "dry qt"@ {
        Some("dry quart"@)
    } else if s == "liq qt"@ {
        Some("liquid quart"@)
    } else if s == "tbsp"@ {
        Some("tablespoon"@)
    } else if s == "tsp"@ {
        Some("teaspoon"@)
    } else if s.len() >= 2 && s.subrange(s.len() - 2, s.len() as int) == "m³"@ && si_prefix_name(s.subrange(0, s.len() - 2)) is Some {
        Some("cubic "@ + si_prefix_name(s.subrange(0, s.len() - 2)).unwrap() + "meter"@)
    } else if s.len() >= 1 && s.subrange(s.len() - 1, s.len() as int) == "L"@ && si_prefix_name(s.subrange(0, s.len() - 1)) is Some {
        Some(si_prefix_name(s.subrange(0, s.len() - 1)).unwrap() + "liter"@)
    } else {
        None
    }
}

/// The abbreviation of each volume unit is the symbol of that unit.
proof fn lemma_volume_abbreviation_is_symbol(u: VolumeUnit)
    ensures
        volume_symbol_name(u.spec_abbreviation()) == Some(u.spec_singular()),
{
    reveal_strlit("aL");
    reveal_strlit("");
    reveal_strlit("G");
    reveal_strlit("GL");
    reveal_strlit("Gm³");
    reveal_strlit("Imperial fluid ounce");
    reveal_strlit("Imperial gallon");
    reveal_strlit("Imperial gill");
    reveal_strlit("L");
    reveal_strlit("M");
    reveal_strlit("ML");
    reveal_strlit("Mm³");
    reveal_strlit("T");
    reveal_strlit("TL");
    reveal_strlit("Tm³");
    reveal_strlit("ac · ft");
    reveal_strlit("acre-foot");
    reveal_strlit("barrel");
    reveal_strlit("bbl");
    reveal_strlit("bu");
    reveal_strlit("bushel");
    reveal_strlit("c");
    reveal_strlit("cL");
    reveal_strlit("centi");
    reveal_strlit("centiliter");
    reveal_strlit("cm³");
    reveal_strlit("cord");
    reveal_strlit("cords");
    reveal_strlit("cubic ");
    reveal_strlit("cubic centimeter");
    reveal_strlit("cubic decameter");
    reveal_strlit("cubic decimeter");
    reveal_strlit("cubic foot");
    reveal_strlit("cubic gigameter");
    reveal_strlit("cubic hectometer");
    reveal_strlit("cubic inch");
    reveal_strlit("cubic kilometer");
    reveal_strlit("cubic megameter");
    reveal_strlit("cubic meter");
    reveal_strlit("cubic micrometer");
    reveal_strlit("cubic mile");
    reveal_strlit("cubic millimeter");
    reveal_strlit("cubic nanometer");
    reveal_strlit("cubic picometer");
    reveal_strlit("cubic terameter");
    reveal_strlit("cubic yard");
    reveal_strlit("cup");
    reveal_strlit("d");
    reveal_strlit("dL");
    reveal_strlit("da");
    reveal_strlit("daL");
    reveal_strlit("dam³");
    reveal_strlit("deca");
    reveal_strlit("decaliter");
    reveal_strlit("deci");
    reveal_strlit("deciliter");
    reveal_strlit("dm³");
    reveal_strlit("dry pint");
    reveal_strlit("dry pt");
    reveal_strlit("dry qt");
    reveal_strlit("dry quart");
    reveal_strlit("fl oz");
    reveal_strlit("fl oz (UK)");
    reveal_strlit("fluid ounce");
    reveal_strlit("ft³");
    reveal_strlit("gal");
    reveal_strlit("gal (UK)");
    reveal_strlit("gallon");
    reveal_strlit("gi");
    reveal_strlit("gi (UK)");
    reveal_strlit("giga");
    reveal_strlit("gigaliter");
    reveal_strlit("gill");
    reveal_strlit("h");
    reveal_strlit("hL");
    reveal_strlit("hecto");
    reveal_strlit("hectoliter");
    reveal_strlit("hm³");
    reveal_strlit("in³");
    reveal_strlit("k");
    reveal_strlit("kL");
    reveal_strlit("kilo");
    reveal_strlit("kiloliter");
    reveal_strlit("km³");
    reveal_strlit("liq pt");
    reveal_strlit("liq qt");
    reveal_strlit("liquid pint");
    reveal_strlit("liquid quart");
    reveal_strlit("liter");
    reveal_strlit("m");
    reveal_strlit("mL");
    reveal_strlit("mega");
    reveal_strlit("megaliter");
    reveal_strlit("meter");
    reveal_strlit("micro");
    reveal_strlit("microliter");
    reveal_strlit("milli");
    reveal_strlit("milliliter");
    reveal_strlit("mi³");
    reveal_strlit("mm³");
    reveal_strlit("m³");
    reveal_strlit("n");
    reveal_strlit("nL");
    reveal_strlit("nano");
    reveal_strlit("nanoliter");
    reveal_strlit("nm³");
    reveal_strlit("p");
    reveal_strlit("pL");
    reveal_strlit("peck");
    reveal_strlit("pico");
    reveal_strlit("picoliter");
    reveal_strlit("pk");
    reveal_strlit("pm³");
    reveal_strlit("tablespoon");
    reveal_strlit("tbsp");
    reveal_strlit("teaspoon");
    reveal_strlit("tera");
    reveal_strlit("teraliter");
    reveal_strlit("tsp");
    reveal_strlit("yd³");
    reveal_strlit("µ");
    reveal_strlit("µL");
    reveal_strlit("µm³");
    match u {
        VolumeUnit::CubicTerameter => {
            assert("Tm³"@ != "ac · ft"@) by {
                assert("Tm³"@.len() != "ac · ft"@.len());
            }
            assert("Tm³"@ != "bbl"@) by {
                assert("Tm³"@[0] != "bbl"@[0]);
            }
            assert("Tm³"@ != "bu"@) by {
                assert("Tm³"@.len() != "bu"@.len());
            }
            assert("Tm³"@ != "cords"@) by {
                assert("Tm³"@.len() != "cords"@.len());
            }
            assert("Tm³"@ != "ft³"@) by {
                assert("Tm³"@[0] != "ft³"@[0]);
            }
            assert("Tm³"@ != "in³"@) by {
                assert("Tm³"@[0] != "in³"@[0]);
            }
            assert("Tm³"@ != "mi³"@) by {
                assert("Tm³"@[0] != "mi³"@[0]);
            }
            assert("Tm³"@ != "yd³"@) by {
                assert("Tm³"@[0] != "yd³"@[0]);
            }
            assert("Tm³"@ != "cup"@) by {
                assert("Tm³"@[0] != "cup"@[0]);
            }
            assert("Tm³"@ != "fl oz"@) by {
                assert("Tm³"@.len() != "fl oz"@.len());
            }
            assert("Tm³"@ != "fl oz (UK)"@) by {
                assert("Tm³"@.len() != "fl oz (UK)"@.len());
            }
            assert("Tm³"@ != "gal (UK)"@) by {
                assert("Tm³"@.len() != "gal (UK)"@.len());
            }
            assert("Tm³"@ != "gal"@) by {
                assert("Tm³"@[0] != "gal"@[0]);
            }
            assert("Tm³"@ != "gi (UK)"@) by {
                assert("Tm³"@.len() != "gi (UK)"@.len());
            }
            assert("Tm³"@ != "gi"@) by {
                assert("Tm³"@.len() != "gi"@.len());
            }
            assert("Tm³"@ != "pk"@) by {
                assert("Tm³"@.len() != "pk"@.len());
            }
            assert("Tm³"@ != "dry pt"@) by {
                assert("Tm³"@.len() != "dry pt"@.len());
            }
            assert("Tm³"@ != "liq pt"@) by {
                assert("Tm³"@.len() != "liq pt"@.len());
            }
            assert("Tm³"@ != "dry qt"@) by {
                assert("Tm³"@.len() != "dry qt"@.len());
            }
            assert("Tm³"@ != "liq qt"@) by {
                assert("Tm³"@.len() != "liq qt"@.len());
            }
            assert("Tm³"@ != "tbsp"@) by {
                assert("Tm³"@.len() != "tbsp"@.len());
            }
            assert("Tm³"@ != "tsp"@) by {
                assert("Tm³"@[0] != "tsp"@[0]);
            }
            assert("Tm³"@.subrange("Tm³"@.len() - 2, "Tm³"@.len() as int) =~= "m³"@);
            assert("Tm³"@.subrange(0, "Tm³"@.len() - 2) =~= "T"@);
            assert(si_prefix_name("T"@) == Some("tera"@));
            assert("cubic "@ + "tera"@ + "meter"@ =~= "cubic terameter"@);
            assert(volume_symbol_name("Tm³"@) == Some("cubic terameter"@));
        },
        VolumeUnit::CubicGigameter => {
            assert("Gm³"@ != "ac · ft"@) by {
                assert("Gm³"@.len() != "ac · ft"@.len());
            }
            assert("Gm³"@ != "bbl"@) by {
                assert("Gm³"@[0] != "bbl"@[0]);
            }
            assert("Gm³"@ != "bu"@) by {
                assert("Gm³"@.len() != "bu"@.len());
            }
            assert("Gm³"@ != "cords"@) by {
                assert("Gm³"@.len() != "cords"@.len());
            }
            assert("Gm³"@ != "ft³"@) by {
                assert("Gm³"@[0] != "ft³"@[0]);
            }
            assert("Gm³"@ != "in³"@) by {
                assert("Gm³"@[0] != "in³"@[0]);
            }
            assert("Gm³"@ != "mi³"@) by {
                assert("Gm³"@[0] != "mi³"@[0]);
            }
            assert("Gm³"@ != "yd³"@) by {
                assert("Gm³"@[0] != "yd³"@[0]);
            }
            assert("Gm³"@ != "cup"@) by {
                assert("Gm³"@[0] != "cup"@[0]);
            }
            assert("Gm³"@ != "fl oz"@) by {
                assert("Gm³"@.len() != "fl oz"@.len());
            }
            assert("Gm³"@ != "fl oz (UK)"@) by {
                assert("Gm³"@.len() != "fl oz (UK)"@.len());
            }
            assert("Gm³"@ != "gal (UK)"@) by {
                assert("Gm³"@.len() != "gal (UK)"@.len());
            }
            assert("Gm³"@ != "gal"@) by {
                assert("Gm³"@[0] != "gal"@[0]);
            }
            assert("Gm³"@ != "gi (UK)"@) by {
                assert("Gm³"@.len() != "gi (UK)"@.len());
            }
            assert("Gm³"@ != "gi"@) by {
                assert("Gm³"@.len() != "gi"@.len());
            }
            assert("Gm³"@ != "pk"@) by {
                assert("Gm³"@.len() != "pk"@.len());
            }
            assert("Gm³"@ != "dry pt"@) by {
                assert("Gm³"@.len() != "dry pt"@.len());
            }
            assert("Gm³"@ != "liq pt"@) by {
                assert("Gm³"@.len() != "liq pt"@.len());
            }
            assert("Gm³"@ != "dry qt"@) by {
                assert("Gm³"@.len() != "dry qt"@.len());
            }
            assert("Gm³"@ != "liq qt"@) by {
                assert("Gm³"@.len() != "liq qt"@.len());
            }
            assert("Gm³"@ != "tbsp"@) by {
                assert("Gm³"@.len() != "tbsp"@.len());
            }
            assert("Gm³"@ != "tsp"@) by {
                assert("Gm³"@[0] != "tsp"@[0]);
            }
            assert("Gm³"@.subrange("Gm³"@.len() - 2, "Gm³"@.len() as int) =~= "m³"@);
            assert("Gm³"@.subrange(0, "Gm³"@.len() - 2) =~= "G"@);
            assert("G"@ != "T"@) by {
                assert("G"@[0] != "T"@[0]);
            }
            assert(si_prefix_name("G"@) == Some("giga"@));
            assert("cubic "@ + "giga"@ + "meter"@ =~= "cubic gigameter"@);
            assert(volume_symbol_name("Gm³"@) == Some("cubic gigameter"@));
        },
        VolumeUnit::CubicMegameter => {
            assert("Mm³"@ != "ac · ft"@) by {
                assert("Mm³"@.len() != "ac · ft"@.len());
            }
            assert("Mm³"@ != "bbl"@) by {
                assert("Mm³"@[0] != "bbl"@[0]);
            }
            assert("Mm³"@ != "bu"@) by {
                assert("Mm³"@.len() != "bu"@.len());
            }
            assert("Mm³"@ != "cords"@) by {
                assert("Mm³"@.len() != "cords"@.len());
            }
            assert("Mm³"@ != "ft³"@) by {
                assert("Mm³"@[0] != "ft³"@[0]);
            }
            assert("Mm³"@ != "in³"@) by {
                assert("Mm³"@[0] != "in³"@[0]);
            }
            assert("Mm³"@ != "mi³"@) by {
                assert("Mm³"@[0] != "mi³"@[0]);
            }
            assert("Mm³"@ != "yd³"@) by {
                assert("Mm³"@[0] != "yd³"@[0]);
            }
            assert("Mm³"@ != "cup"@) by {
                assert("Mm³"@[0] != "cup"@[0]);
            }
            assert("Mm³"@ != "fl oz"@) by {
                assert("Mm³"@.len() != "fl oz"@.len());
            }
            assert("Mm³"@ != "fl oz (UK)"@) by {
                assert("Mm³"@.len() != "fl oz (UK)"@.len());
            }
            assert("Mm³"@ != "gal (UK)"@) by {
                assert("Mm³"@.len() != "gal (UK)"@.len());
            }
            assert("Mm³"@ != "gal"@) by {
                assert("Mm³"@[0] != "gal"@[0]);
            }
            assert("Mm³"@ != "gi (UK)"@) by {
                assert("Mm³"@.len() != "gi (UK)"@.len());
            }
            assert("Mm³"@ != "gi"@) by {
                assert("Mm³"@.len() != "gi"@.len());
            }
            assert("Mm³"@ != "pk"@) by {
                assert("Mm³"@.len() != "pk"@.len());
            }
            assert("Mm³"@ != "dry pt"@) by {
                assert("Mm³"@.len() != "dry pt"@.len());
            }
            assert("Mm³"@ != "liq pt"@) by {
                assert("Mm³"@.len() != "liq pt"@.len());
            }
            assert("Mm³"@ != "dry qt"@) by {
                assert("Mm³"@.len() != "dry qt"@.len());
            }
            assert("Mm³"@ != "liq qt"@) by {
                assert("Mm³"@.len() != "liq qt"@.len());
            }
            assert("Mm³"@ != "tbsp"@) by {
                assert("Mm³"@.len() != "tbsp"@.len());
            }
            assert("Mm³"@ != "tsp"@) by {
                assert("Mm³"@[0] != "tsp"@[0]);
            }
            assert("Mm³"@.subrange("Mm³"@.len() - 2, "Mm³"@.len() as int) =~= "m³"@);
            assert("Mm³"@.subrange(0, "Mm³"@.len() - 2) =~= "M"@);
            assert("M"@ != "T"@) by {
                assert("M"@[0] != "T"@[0]);
            }
            assert("M"@ != "G"@) by {
                assert("M"@[0] != "G"@[0]);
            }
            assert(si_prefix_name("M"@) == Some("mega"@));
            assert("cubic "@ + "mega"@ + "meter"@ =~= "cubic megameter"@);
            assert(volume_symbol_name("Mm³"@) == Some("cubic megameter"@));
        },
        VolumeUnit::CubicKilometer => {
            assert("km³"@ != "ac · ft"@) by {
                assert("km³"@.len() != "ac · ft"@.len());
            }
            assert("km³"@ != "bbl"@) by {
                assert("km³"@[0] != "bbl"@[0]);
            }
            assert("km³"@ != "bu"@) by {
                assert("km³"@.len() != "bu"@.len());
            }
            assert("km³"@ != "cords"@) by {
                assert("km³"@.len() != "cords"@.len());
            }
            assert("km³"@ != "ft³"@) by {
                assert("km³"@[0] != "ft³"@[0]);
            }
            assert("km³"@ != "in³"@) by {
                assert("km³"@[0] != "in³"@[0]);
            }
            assert("km³"@ != "mi³"@) by {
                assert("km³"@[0] != "mi³"@[0]);
            }
            assert("km³"@ != "yd³"@) by {
                assert("km³"@[0] != "yd³"@[0]);
            }
            assert("km³"@ != "cup"@) by {
                assert("km³"@[0] != "cup"@[0]);
            }
            assert("km³"@ != "fl oz"@) by {
                assert("km³"@.len() != "fl oz"@.len());
            }
            assert("km³"@ != "fl oz (UK)"@) by {
                assert("km³"@.len() != "fl oz (UK)"@.len());
            }
            assert("km³"@ != "gal (UK)"@) by {
                assert("km³"@.len() != "gal (UK)"@.len());
            }
            assert("km³"@ != "gal"@) by {
                assert("km³"@[0] != "gal"@[0]);
            }
            assert("km³"@ != "gi (UK)"@) by {
                assert("km³"@.len() != "gi (UK)"@.len());
            }
            assert("km³"@ != "gi"@) by {
                assert("km³"@.len() != "gi"@.len());
            }
            assert("km³"@ != "pk"@) by {
                assert("km³"@.len() != "pk"@.len());
            }
            assert("km³"@ != "dry pt"@) by {
                assert("km³"@.len() != "dry pt"@.len());
            }
            assert("km³"@ != "liq pt"@) by {
                assert("km³"@.len() != "liq pt"@.len());
            }
            assert("km³"@ != "dry qt"@) by {
                assert("km³"@.len() != "dry qt"@.len());
            }
            assert("km³"@ != "liq qt"@) by {
                assert("km³"@.len() != "liq qt"@.len());
            }
            assert("km³"@ != "tbsp"@) by {
                assert("km³"@.len() != "tbsp"@.len());
            }
            assert("km³"@ != "tsp"@) by {
                assert("km³"@[0] != "tsp"@[0]);
            }
            assert("km³"@.subrange("km³"@.len() - 2, "km³"@.len() as int) =~= "m³"@);
            assert("km³"@.subrange(0, "km³"@.len() - 2) =~= "k"@);
            assert("k"@ != "T"@) by {
                assert("k"@[0] != "T"@[0]);
            }
            assert("k"@ != "G"@) by {
                assert("k"@[0] != "G"@[0]);
            }
            assert("k"@ != "M"@) by {
                assert("k"@[0] != "M"@[0]);
            }
            assert(si_prefix_name("k"@) == Some("kilo"@));
            assert("cubic "@ + "kilo"@ + "meter"@ =~= "cubic kilometer"@);
            assert(volume_symbol_name("km³"@) == Some("cubic kilometer"@));
        },
        VolumeUnit::CubicHectometer => {
            assert("hm³"@ != "ac · ft"@) by {
                assert("hm³"@.len() != "ac · ft"@.len());
            }
            assert("hm³"@ != "bbl"@) by {
                assert("hm³"@[0] != "bbl"@[0]);
            }
            assert("hm³"@ != "bu"@) by {
                assert("hm³"@.len() != "bu"@.len());
            }
            assert("hm³"@ != "cords"@) by {
                assert("hm³"@.len() != "cords"@.len());
            }
            assert("hm³"@ != "ft³"@) by {
                assert("hm³"@[0] != "ft³"@[0]);
            }
            assert("hm³"@ != "in³"@) by {
                assert("hm³"@[0] != "in³"@[0]);
            }
            assert("hm³"@ != "mi³"@) by {
                assert("hm³"@[0] != "mi³"@[0]);
            }
            assert("hm³"@ != "yd³"@) by {
                assert("hm³"@[0] != "yd³"@[0]);
            }
            assert("hm³"@ != "cup"@) by {
                assert("hm³"@[0] != "cup"@[0]);
            }
            assert("hm³"@ != "fl oz"@) by {
                assert("hm³"@.len() != "fl oz"@.len());
            }
            assert("hm³"@ != "fl oz (UK)"@) by {
                assert("hm³"@.len() != "fl oz (UK)"@.len());
            }
            assert("hm³"@ != "gal (UK)"@) by {
                assert("hm³"@.len() != "gal (UK)"@.len());
            }
            assert("hm³"@ != "gal"@) by {
                assert("hm³"@[0] != "gal"@[0]);
            }
            assert("hm³"@ != "gi (UK)"@) by {
                assert("hm³"@.len() != "gi (UK)"@.len());
            }
            assert("hm³"@ != "gi"@) by {
                assert("hm³"@.len() != "gi"@.len());
            }
            assert("hm³"@ != "pk"@) by {
                assert("hm³"@.len() != "pk"@.len());
            }
            assert("hm³"@ != "dry pt"@) by {
                assert("hm³"@.len() != "dry pt"@.len());
            }
            assert("hm³"@ != "liq pt"@) by {
                assert("hm³"@.len() != "liq pt"@.len());
            }
            assert("hm³"@ != "dry qt"@) by {
                assert("hm³"@.len() != "dry qt"@.len());
            }
            assert("hm³"@ != "liq qt"@) by {
                assert("hm³"@.len() != "liq qt"@.len());
            }
            assert("hm³"@ != "tbsp"@) by {
                assert("hm³"@.len() != "tbsp"@.len());
            }
            assert("hm³"@ != "tsp"@) by {
                assert("hm³"@[0] != "tsp"@[0]);
            }
            assert("hm³"@.subrange("hm³"@.len() - 2, "hm³"@.len() as int) =~= "m³"@);
            assert("hm³"@.subrange(0, "hm³"@.len() - 2) =~= "h"@);
            assert("h"@ != "T"@) by {
                assert("h"@[0] != "T"@[0]);
            }
            assert("h"@ != "G"@) by {
                assert("h"@[0] != "G"@[0]);
            }
            assert("h"@ != "M"@) by {
                assert("h"@[0] != "M"@[0]);
            }
            assert("h"@ != "k"@) by {
                assert("h"@[0] != "k"@[0]);
            }
            assert(si_prefix_name("h"@) == Some("hecto"@));
            assert("cubic "@ + "hecto"@ + "meter"@ =~= "cubic hectometer"@);
            assert(volume_symbol_name("hm³"@) == Some("cubic hectometer"@));
        },
        VolumeUnit::CubicDecameter => {
            assert("dam³"@ != "ac · ft"@) by {
                assert("dam³"@.len() != "ac · ft"@.len());
            }
            assert("dam³"@ != "bbl"@) by {
                assert("dam³"@.len() != "bbl"@.len());
            }
            assert("dam³"@ != "bu"@) by {
                assert("dam³"@.len() != "bu"@.len());
            }
            assert("dam³"@ != "cords"@) by {
                assert("dam³"@.len() != "cords"@.len());
            }
            assert("dam³"@ != "ft³"@) by {
                assert("dam³"@.len() != "ft³"@.len());
            }
            assert("dam³"@ != "in³"@) by {
                assert("dam³"@.len() != "in³"@.len());
            }
            assert("dam³"@ != "mi³"@) by {
                assert("dam³"@.len() != "mi³"@.len());
            }
            assert("dam³"@ != "yd³"@) by {
                assert("dam³"@.len() != "yd³"@.len());
            }
            assert("dam³"@ != "cup"@) by {
                assert("dam³"@.len() != "cup"@.len());
            }
            assert("dam³"@ != "fl oz"@) by {
                assert("dam³"@.len() != "fl oz"@.len());
            }
            assert("dam³"@ != "fl oz (UK)"@) by {
                assert("dam³"@.len() != "fl oz (UK)"@.len());
            }
            assert("dam³"@ != "gal (UK)"@) by {
                assert("dam³"@.len() != "gal (UK)"@.len());
            }
            assert("dam³"@ != "gal"@) by {
                assert("dam³"@.len() != "gal"@.len());
            }
            assert("dam³"@ != "gi (UK)"@) by {
                assert("dam³"@.len() != "gi (UK)"@.len());
            }
            assert("dam³"@ != "gi"@) by {
                assert("dam³"@.len() != "gi"@.len());
            }
            assert("dam³"@ != "pk"@) by {
                assert("dam³"@.len() != "pk"@.len());
            }
            assert("dam³"@ != "dry pt"@) by {
                assert("dam³"@.len() != "dry pt"@.len());
            }
            assert("dam³"@ != "liq pt"@) by {
                assert("dam³"@.len() != "liq pt"@.len());
            }
            assert("dam³"@ != "dry qt"@) by {
                assert("dam³"@.len() != "dry qt"@.len());
            }
            assert("dam³"@ != "liq qt"@) by {
                assert("dam³"@.len() != "liq qt"@.len());
            }
            assert("dam³"@ != "tbsp"@) by {
                assert("dam³"@[0] != "tbsp"@[0]);
            }
            assert("dam³"@ != "tsp"@) by {
                assert("dam³"@.len() != "tsp"@.len());
            }
            assert("dam³"@.subrange("dam³"@.len() - 2, "dam³"@.len() as int) =~= "m³"@);
            assert("dam³"@.subrange(0, "dam³"@.len() - 2) =~= "da"@);
            assert("da"@ != "T"@) by {
                assert("da"@.len() != "T"@.len());
            }
            assert("da"@ != "G"@) by {
                assert("da"@.len() != "G"@.len());
            }
            assert("da"@ != "M"@) by {
                assert("da"@.len() != "M"@.len());
            }
            assert("da"@ != "k"@) by {
                assert("da"@.len() != "k"@.len());
            }
            assert("da"@ != "h"@) by {
                assert("da"@.len() != "h"@.len());
            }
            assert(si_prefix_name("da"@) == Some("deca"@));
            assert("cubic "@ + "deca"@ + "meter"@ =~= "cubic decameter"@);
            assert(volume_symbol_name("dam³"@) == Some("cubic decameter"@));
        },
        VolumeUnit::CubicMeter => {
            assert("m³"@ != "ac · ft"@) by {
                assert("m³"@.len() != "ac · ft"@.len());
            }
            assert("m³"@ != "bbl"@) by {
                assert("m³"@.len() != "bbl"@.len());
            }
            assert("m³"@ != "bu"@) by {
                assert("m³"@[0] != "bu"@[0]);
            }
            assert("m³"@ != "cords"@) by {
                assert("m³"@.len() != "cords"@.len());
            }
            assert("m³"@ != "ft³"@) by {
                assert("m³"@.len() != "ft³"@.len());
            }
            assert("m³"@ != "in³"@) by {
                assert("m³"@.len() != "in³"@.len());
            }
            assert("m³"@ != "mi³"@) by {
                assert("m³"@.len() != "mi³"@.len());
            }
            assert("m³"@ != "yd³"@) by {
                assert("m³"@.len() != "yd³"@.len());
            }
            assert("m³"@ != "cup"@) by {
                assert("m³"@.len() != "cup"@.len());
            }
            assert("m³"@ != "fl oz"@) by {
                assert("m³"@.len() != "fl oz"@.len());
            }
            assert("m³"@ != "fl oz (UK)"@) by {
                assert("m³"@.len() != "fl oz (UK)"@.len());
            }
            assert("m³"@ != "gal (UK)"@) by {
                assert("m³"@.len() != "gal (UK)"@.len());
            }
            assert("m³"@ != "gal"@) by {
                assert("m³"@.len() != "gal"@.len());
            }
            assert("m³"@ != "gi (UK)"@) by {
                assert("m³"@.len() != "gi (UK)"@.len());
            }
            assert("m³"@ != "gi"@) by {
                assert("m³"@[0] != "gi"@[0]);
            }
            assert("m³"@ != "pk"@) by {
                assert("m³"@[0] != "pk"@[0]);
            }
            assert("m³"@ != "dry pt"@) by {
                assert("m³"@.len() != "dry pt"@.len());
            }
            assert("m³"@ != "liq pt"@) by {
                assert("m³"@.len() != "liq pt"@.len());
            }
            assert("m³"@ != "dry qt"@) by {
                assert("m³"@.len() != "dry qt"@.len());
            }
            assert("m³"@ != "liq qt"@) by {
                assert("m³"@.len() != "liq qt"@.len());
            }
            assert("m³"@ != "tbsp"@) by {
                assert("m³"@.len() != "tbsp"@.len());
            }
            assert("m³"@ != "tsp"@) by {
                assert("m³"@.len() != "tsp"@.len());
            }
            assert("m³"@.subrange("m³"@.len() - 2, "m³"@.len() as int) =~= "m³"@);
            assert("m³"@.subrange(0, "m³"@.len() - 2) =~= ""@);
            assert(""@ != "T"@) by {
                assert(""@.len() != "T"@.len());
            }
            assert(""@ != "G"@) by {
                assert(""@.len() != "G"@.len());
            }
            assert(""@ != "M"@) by {
                assert(""@.len() != "M"@.len());
            }
            assert(""@ != "k"@) by {
                assert(""@.len() != "k"@.len());
            }
            assert(""@ != "h"@) by {
                assert(""@.len() != "h"@.len());
            }
            assert(""@ != "da"@) by {
                assert(""@.len() != "da"@.len());
            }
            assert(si_prefix_name(""@) == Some(""@));
            assert("cubic "@ + ""@ + "meter"@ =~= "cubic meter"@);
            assert(volume_symbol_name("m³"@) == Some("cubic meter"@));
        },
        VolumeUnit::CubicDecimeter => {
            assert("dm³"@ != "ac · ft"@) by {
                assert("dm³"@.len() != "ac · ft"@.len());
            }
            assert("dm³"@ != "bbl"@) by {
                assert("dm³"@[0] != "bbl"@[0]);
            }
            assert("dm³"@ != "bu"@) by {
                assert("dm³"@.len() != "bu"@.len());
            }
            assert("dm³"@ != "cords"@) by {
                assert("dm³"@.len() != "cords"@.len());
            }
            assert("dm³"@ != "ft³"@) by {
                assert("dm³"@[0] != "ft³"@[0]);
            }
            assert("dm³"@ != "in³"@) by {
                assert("dm³"@[0] != "in³"@[0]);
            }
            assert("dm³"@ != "mi³"@) by {
                assert("dm³"@[0] != "mi³"@[0]);
            }
            assert("dm³"@ != "yd³"@) by {
                assert("dm³"@[0] != "yd³"@[0]);
            }
            assert("dm³"@ != "cup"@) by {
                assert("dm³"@[0] != "cup"@[0]);
            }
            assert("dm³"@ != "fl oz"@) by {
                assert("dm³"@.len() != "fl oz"@.len());
            }
            assert("dm³"@ != "fl oz (UK)"@) by {
                assert("dm³"@.len() != "fl oz (UK)"@.len());
            }
            assert("dm³"@ != "gal (UK)"@) by {
                assert("dm³"@.len() != "gal (UK)"@.len());
            }
            assert("dm³"@ != "gal"@) by {
                assert("dm³"@[0] != "gal"@[0]);
            }
            assert("dm³"@ != "gi (UK)"@) by {
                assert("dm³"@.len() != "gi (UK)"@.len());
            }
            assert("dm³"@ != "gi"@) by {
                assert("dm³"@.len() != "gi"@.len());
            }
            assert("dm³"@ != "pk"@) by {
                assert("dm³"@.len() != "pk"@.len());
            }
            assert("dm³"@ != "dry pt"@) by {
                assert("dm³"@.len() != "dry pt"@.len());
            }
            assert("dm³"@ != "liq pt"@) by {
                assert("dm³"@.len() != "liq pt"@.len());
            }
            assert("dm³"@ != "dry qt"@) by {
                assert("dm³"@.len() != "dry qt"@.len());
            }
            assert("dm³"@ != "liq qt"@) by {
                assert("dm³"@.len() != "liq qt"@.len());
            }
            assert("dm³"@ != "tbsp"@) by {
                assert("dm³"@.len() != "tbsp"@.len());
            }
            assert("dm³"@ != "tsp"@) by {
                assert("dm³"@[0] != "tsp"@[0]);
            }
            assert("dm³"@.subrange("dm³"@.len() - 2, "dm³"@.len() as int) =~= "m³"@);
            assert("dm³"@.subrange(0, "dm³"@.len() - 2) =~= "d"@);
            assert("d"@ != "T"@) by {
                assert("d"@[0] != "T"@[0]);
            }
            assert("d"@ != "G"@) by {
                assert("d"@[0] != "G"@[0]);
            }
            assert("d"@ != "M"@) by {
                assert("d"@[0] != "M"@[0]);
            }
            assert("d"@ != "k"@) by {
                assert("d"@[0] != "k"@[0]);
            }
            assert("d"@ != "h"@) by {
                assert("d"@[0] != "h"@[0]);
            }
            assert("d"@ != "da"@) by {
                assert("d"@.len() != "da"@.len());
            }
            assert("d"@ != ""@) by {
                assert("d"@.len() != ""@.len());
            }
            assert(si_prefix_name("d"@) == Some("deci"@));
            assert("cubic "@ + "deci"@ + "meter"@ =~= "cubic decimeter"@);
            assert(volume_symbol_name("dm³"@) == Some("cubic decimeter"@));
        },
        VolumeUnit::CubicCentimeter => {
            assert("cm³"@ != "ac · ft"@) by {
                assert("cm³"@.len() != "ac · ft"@.len());
            }
            assert("cm³"@ != "bbl"@) by {
                assert("cm³"@[0] != "bbl"@[0]);
            }
            assert("cm³"@ != "bu"@) by {
                assert("cm³"@.len() != "bu"@.len());
            }
            assert("cm³"@ != "cords"@) by {
                assert("cm³"@.len() != "cords"@.len());
            }
            assert("cm³"@ != "ft³"@) by {
                assert("cm³"@[0] != "ft³"@[0]);
            }
            assert("cm³"@ != "in³"@) by {
                assert("cm³"@[0] != "in³"@[0]);
            }
            assert("cm³"@ != "mi³"@) by {
                assert("cm³"@[0] != "mi³"@[0]);
            }
            assert("cm³"@ != "yd³"@) by {
                assert("cm³"@[0] != "yd³"@[0]);
            }
            assert("cm³"@ != "cup"@) by {
                assert("cm³"@[1] != "cup"@[1]);
            }
            assert("cm³"@ != "fl oz"@) by {
                assert("cm³"@.len() != "fl oz"@.len());
            }
            assert("cm³"@ != "fl oz (UK)"@) by {
                assert("cm³"@.len() != "fl oz (UK)"@.len());
            }
            assert("cm³"@ != "gal (UK)"@) by {
                assert("cm³"@.len() != "gal (UK)"@.len());
            }
            assert("cm³"@ != "gal"@) by {
                assert("cm³"@[0] != "gal"@[0]);
            }
            assert("cm³"@ != "gi (UK)"@) by {
                assert("cm³"@.len() != "gi (UK)"@.len());
            }
            assert("cm³"@ != "gi"@) by {
                assert("cm³"@.len() != "gi"@.len());
            }
            assert("cm³"@ != "pk"@) by {
                assert("cm³"@.len() != "pk"@.len());
            }
            assert("cm³"@ != "dry pt"@) by {
                assert("cm³"@.len() != "dry pt"@.len());
            }
            assert("cm³"@ != "liq pt"@) by {
                assert("cm³"@.len() != "liq pt"@.len());
            }
            assert("cm³"@ != "dry qt"@) by {
                assert("cm³"@.len() != "dry qt"@.len());
            }
            assert("cm³"@ != "liq qt"@) by {
                assert("cm³"@.len() != "liq qt"@.len());
            }
            assert("cm³"@ != "tbsp"@) by {
                assert("cm³"@.len() != "tbsp"@.len());
            }
            assert("cm³"@ != "tsp"@) by {
                assert("cm³"@[0] != "tsp"@[0]);
            }
            assert("cm³"@.subrange("cm³"@.len() - 2, "cm³"@.len() as int) =~= "m³"@);
            assert("cm³"@.subrange(0, "cm³"@.len() - 2) =~= "c"@);
            assert("c"@ != "T"@) by {
                assert("c"@[0] != "T"@[0]);
            }
            assert("c"@ != "G"@) by {
                assert("c"@[0] != "G"@[0]);
            }
            assert("c"@ != "M"@) by {
                assert("c"@[0] != "M"@[0]);
            }
            assert("c"@ != "k"@) by {
                assert("c"@[0] != "k"@[0]);
            }
            assert("c"@ != "h"@) by {
                assert("c"@[0] != "h"@[0]);
            }
            assert("c"@ != "da"@) by {
                assert("c"@.len() != "da"@.len());
            }
            assert("c"@ != ""@) by {
                assert("c"@.len() != ""@.len());
            }
            assert("c"@ != "d"@) by {
                assert("c"@[0] != "d"@[0]);
            }
            assert(si_prefix_name("c"@) == Some("centi"@));
            assert("cubic "@ + "centi"@ + "meter"@ =~= "cubic centimeter"@);
            assert(volume_symbol_name("cm³"@) == Some("cubic centimeter"@));
        },
        VolumeUnit::CubicMillimeter => {
            assert("mm³"@ != "ac · ft"@) by {
                assert("mm³"@.len() != "ac · ft"@.len());
            }
            assert("mm³"@ != "bbl"@) by {
                assert("mm³"@[0] != "bbl"@[0]);
            }
            assert("mm³"@ != "bu"@) by {
                assert("mm³"@.len() != "bu"@.len());
            }
            assert("mm³"@ != "cords"@) by {
                assert("mm³"@.len() != "cords"@.len());
            }
            assert("mm³"@ != "ft³"@) by {
                assert("mm³"@[0] != "ft³"@[0]);
            }
            assert("mm³"@ != "in³"@) by {
                assert("mm³"@[0] != "in³"@[0]);
            }
            assert("mm³"@ != "mi³"@) by {
                assert("mm³"@[1] != "mi³"@[1]);
            }
            assert("mm³"@ != "yd³"@) by {
                assert("mm³"@[0] != "yd³"@[0]);
            }
            assert("mm³"@ != "cup"@) by {
                assert("mm³"@[0] != "cup"@[0]);
            }
            assert("mm³"@ != "fl oz"@) by {
                assert("mm³"@.len() != "fl oz"@.len());
            }
            assert("mm³"@ != "fl oz (UK)"@) by {
                assert("mm³"@.len() != "fl oz (UK)"@.len());
            }
            assert("mm³"@ != "gal (UK)"@) by {
                assert("mm³"@.len() != "gal (UK)"@.len());
            }
            assert("mm³"@ != "gal"@) by {
                assert("mm³"@[0] != "gal"@[0]);
            }
            assert("mm³"@ != "gi (UK)"@) by {
                assert("mm³"@.len() != "gi (UK)"@.len());
            }
            assert("mm³"@ != "gi"@) by {
                assert("mm³"@.len() != "gi"@.len());
            }
            assert("mm³"@ != "pk"@) by {
                assert("mm³"@.len() != "pk"@.len());
            }
            assert("mm³"@ != "dry pt"@) by {
                assert("mm³"@.len() != "dry pt"@.len());
            }
            assert("mm³"@ != "liq pt"@) by {
                assert("mm³"@.len() != "liq pt"@.len());
            }
            assert("mm³"@ != "dry qt"@) by {
                assert("mm³"@.len() != "dry qt"@.len());
            }
            assert("mm³"@ != "liq qt"@) by {
                assert("mm³"@.len() != "liq qt"@.len());
            }
            assert("mm³"@ != "tbsp"@) by {
                assert("mm³"@.len() != "tbsp"@.len());
            }
            assert("mm³"@ != "tsp"@) by {
                assert("mm³"@[0] != "tsp"@[0]);
            }
            assert("mm³"@.subrange("mm³"@.len() - 2, "mm³"@.len() as int) =~= "m³"@);
            assert("mm³"@.subrange(0, "mm³"@.len() - 2) =~= "m"@);
            assert("m"@ != "T"@) by {
                assert("m"@[0] != "T"@[0]);
            }
            assert("m"@ != "G"@) by {
                assert("m"@[0] != "G"@[0]);
            }
            assert("m"@ != "M"@) by {
                assert("m"@[0] != "M"@[0]);
            }
            assert("m"@ != "k"@) by {
                assert("m"@[0] != "k"@[0]);
            }
            assert("m"@ != "h"@) by {
                assert("m"@[0] != "h"@[0]);
            }
            assert("m"@ != "da"@) by {
                assert("m"@.len() != "da"@.len());
            }
            assert("m"@ != ""@) by {
                assert("m"@.len() != ""@.len());
            }
            assert("m"@ != "d"@) by {
                assert("m"@[0] != "d"@[0]);
            }
            assert("m"@ != "c"@) by {
                assert("m"@[0] != "c"@[0]);
            }
            assert(si_prefix_name("m"@) == Some("milli"@));
            assert("cubic "@ + "milli"@ + "meter"@ =~= "cubic millimeter"@);
            assert(volume_symbol_name("mm³"@) == Some("cubic millimeter"@));
        },
        VolumeUnit::CubicMicrometer => {
            assert("µm³"@ != "ac · ft"@) by {
                assert("µm³"@.len() != "ac · ft"@.len());
            }
            assert("µm³"@ != "bbl"@) by {
                assert("µm³"@[0] != "bbl"@[0]);
            }
            assert("µm³"@ != "bu"@) by {
                assert("µm³"@.len() != "bu"@.len());
            }
            assert("µm³"@ != "cords"@) by {
                assert("µm³"@.len() != "cords"@.len());
            }
            assert("µm³"@ != "ft³"@) by {
                assert("µm³"@[0] != "ft³"@[0]);
            }
            assert("µm³"@ != "in³"@) by {
                assert("µm³"@[0] != "in³"@[0]);
            }
            assert("µm³"@ != "mi³"@) by {
                assert("µm³"@[0] != "mi³"@[0]);
            }
            assert("µm³"@ != "yd³"@) by {
                assert("µm³"@[0] != "yd³"@[0]);
            }
            assert("µm³"@ != "cup"@) by {
                assert("µm³"@[0] != "cup"@[0]);
            }
            assert("µm³"@ != "fl oz"@) by {
                assert("µm³"@.len() != "fl oz"@.len());
            }
            assert("µm³"@ != "fl oz (UK)"@) by {
                assert("µm³"@.len() != "fl oz (UK)"@.len());
            }
            assert("µm³"@ != "gal (UK)"@) by {
                assert("µm³"@.len() != "gal (UK)"@.len());
            }
            assert("µm³"@ != "gal"@) by {
                assert("µm³"@[0] != "gal"@[0]);
            }
            assert("µm³"@ != "gi (UK)"@) by {
                assert("µm³"@.len() != "gi (UK)"@.len());
            }
            assert("µm³"@ != "gi"@) by {
                assert("µm³"@.len() != "gi"@.len());
            }
            assert("µm³"@ != "pk"@) by {
                assert("µm³"@.len() != "pk"@.len());
            }
            assert("µm³"@ != "dry pt"@) by {
                assert("µm³"@.len() != "dry pt"@.len());
            }
            assert("µm³"@ != "liq pt"@) by {
                assert("µm³"@.len() != "liq pt"@.len());
            }
            assert("µm³"@ != "dry qt"@) by {
                assert("µm³"@.len() != "dry qt"@.len());
            }
            assert("µm³"@ != "liq qt"@) by {
                assert("µm³"@.len() != "liq qt"@.len());
            }
            assert("µm³"@ != "tbsp"@) by {
                assert("µm³"@.len() != "tbsp"@.len());
            }
            assert("µm³"@ != "tsp"@) by {
                assert("µm³"@[0] != "tsp"@[0]);
            }
            assert("µm³"@.subrange("µm³"@.len() - 2, "µm³"@.len() as int) =~= "m³"@);
            assert("µm³"@.subrange(0, "µm³"@.len() - 2) =~= "µ"@);
            assert("µ"@ != "T"@) by {
                assert("µ"@[0] != "T"@[0]);
            }
            assert("µ"@ != "G"@) by {
                assert("µ"@[0] != "G"@[0]);
            }
            assert("µ"@ != "M"@) by {
                assert("µ"@[0] != "M"@[0]);
            }
            assert("µ"@ != "k"@) by {
                assert("µ"@[0] != "k"@[0]);
            }
            assert("µ"@ != "h"@) by {
                assert("µ"@[0] != "h"@[0]);
            }
            assert("µ"@ != "da"@) by {
                assert("µ"@.len() != "da"@.len());
            }
            assert("µ"@ != ""@) by {
                assert("µ"@.len() != ""@.len());
            }
            assert("µ"@ != "d"@) by {
                assert("µ"@[0] != "d"@[0]);
            }
            assert("µ"@ != "c"@) by {
                assert("µ"@[0] != "c"@[0]);
            }
            assert("µ"@ != "m"@) by {
                assert("µ"@[0] != "m"@[0]);
            }
            assert(si_prefix_name("µ"@) == Some("micro"@));
            assert("cubic "@ + "micro"@ + "meter"@ =~= "cubic micrometer"@);
            assert(volume_symbol_name("µm³"@) == Some("cubic micrometer"@));
        },
        VolumeUnit::CubicNanometer => {
            assert("nm³"@ != "ac · ft"@) by {
                assert("nm³"@.len() != "ac · ft"@.len());
            }
            assert("nm³"@ != "bbl"@) by {
                assert("nm³"@[0] != "bbl"@[0]);
            }
            assert("nm³"@ != "bu"@) by {
                assert("nm³"@.len() != "bu"@.len());
            }
            assert("nm³"@ != "cords"@) by {
                assert("nm³"@.len() != "cords"@.len());
            }
            assert("nm³"@ != "ft³"@) by {
                assert("nm³"@[0] != "ft³"@[0]);
            }
            assert("nm³"@ != "in³"@) by {
                assert("nm³"@[0] != "in³"@[0]);
            }
            assert("nm³"@ != "mi³"@) by {
                assert("nm³"@[0] != "mi³"@[0]);
            }
            assert("nm³"@ != "yd³"@) by {
                assert("nm³"@[0] != "yd³"@[0]);
            }
            assert("nm³"@ != "cup"@) by {
                assert("nm³"@[0] != "cup"@[0]);
            }
            assert("nm³"@ != "fl oz"@) by {
                assert("nm³"@.len() != "fl oz"@.len());
            }
            assert("nm³"@ != "fl oz (UK)"@) by {
                assert("nm³"@.len() != "fl oz (UK)"@.len());
            }
            assert("nm³"@ != "gal (UK)"@) by {
                assert("nm³"@.len() != "gal (UK)"@.len());
            }
            assert("nm³"@ != "gal"@) by {
                assert("nm³"@[0] != "gal"@[0]);
            }
            assert("nm³"@ != "gi (UK)"@) by {
                assert("nm³"@.len() != "gi (UK)"@.len());
            }
            assert("nm³"@ != "gi"@) by {
                assert("nm³"@.len() != "gi"@.len());
            }
            assert("nm³"@ != "pk"@) by {
                assert("nm³"@.len() != "pk"@.len());
            }
            assert("nm³"@ != "dry pt"@) by {
                assert("nm³"@.len() != "dry pt"@.len());
            }
            assert("nm³"@ != "liq pt"@) by {
                assert("nm³"@.len() != "liq pt"@.len());
            }
            assert("nm³"@ != "dry qt"@) by {
                assert("nm³"@.len() != "dry qt"@.len());
            }
            assert("nm³"@ != "liq qt"@) by {
                assert("nm³"@.len() != "liq qt"@.len());
            }
            assert("nm³"@ != "tbsp"@) by {
                assert("nm³"@.len() != "tbsp"@.len());
            }
            assert("nm³"@ != "tsp"@) by {
                assert("nm³"@[0] != "tsp"@[0]);
            }
            assert("nm³"@.subrange("nm³"@.len() - 2, "nm³"@.len() as int) =~= "m³"@);
            assert("nm³"@.subrange(0, "nm³"@.len() - 2) =~= "n"@);
            assert("n"@ != "T"@) by {
                assert("n"@[0] != "T"@[0]);
            }
            assert("n"@ != "G"@) by {
                assert("n"@[0] != "G"@[0]);
            }
            assert("n"@ != "M"@) by {
                assert("n"@[0] != "M"@[0]);
            }
            assert("n"@ != "k"@) by {
                assert("n"@[0] != "k"@[0]);
            }
            assert("n"@ != "h"@) by {
                assert("n"@[0] != "h"@[0]);
            }
            assert("n"@ != "da"@) by {
                assert("n"@.len() != "da"@.len());
            }
            assert("n"@ != ""@) by {
                assert("n"@.len() != ""@.len());
            }
            assert("n"@ != "d"@) by {
                assert("n"@[0] != "d"@[0]);
            }
            assert("n"@ != "c"@) by {
                assert("n"@[0] != "c"@[0]);
            }
            assert("n"@ != "m"@) by {
                assert("n"@[0] != "m"@[0]);
            }
            assert("n"@ != "µ"@) by {
                assert("n"@[0] != "µ"@[0]);
            }
            assert(si_prefix_name("n"@) == Some("nano"@));
            assert("cubic "@ + "nano"@ + "meter"@ =~= "cubic nanometer"@);
            assert(volume_symbol_name("nm³"@) == Some("cubic nanometer"@));
        },
        VolumeUnit::CubicPicometer => {
            assert("pm³"@ != "ac · ft"@) by {
                assert("pm³"@.len() != "ac · ft"@.len());
            }
            assert("pm³"@ != "bbl"@) by {
                assert("pm³"@[0] != "bbl"@[0]);
            }
            assert("pm³"@ != "bu"@) by {
                assert("pm³"@.len() != "bu"@.len());
            }
            assert("pm³"@ != "cords"@) by {
                assert("pm³"@.len() != "cords"@.len());
            }
            assert("pm³"@ != "ft³"@) by {
                assert("pm³"@[0] != "ft³"@[0]);
            }
            assert("pm³"@ != "in³"@) by {
                assert("pm³"@[0] != "in³"@[0]);
            }
            assert("pm³"@ != "mi³"@) by {
                assert("pm³"@[0] != "mi³"@[0]);
            }
            assert("pm³"@ != "yd³"@) by {
                assert("pm³"@[0] != "yd³"@[0]);
            }
            assert("pm³"@ != "cup"@) by {
                assert("pm³"@[0] != "cup"@[0]);
            }
            assert("pm³"@ != "fl oz"@) by {
                assert("pm³"@.len() != "fl oz"@.len());
            }
            assert("pm³"@ != "fl oz (UK)"@) by {
                assert("pm³"@.len() != "fl oz (UK)"@.len());
            }
            assert("pm³"@ != "gal (UK)"@) by {
                assert("pm³"@.len() != "gal (UK)"@.len());
            }
            assert("pm³"@ != "gal"@) by {
                assert("pm³"@[0] != "gal"@[0]);
            }
            assert("pm³"@ != "gi (UK)"@) by {
                assert("pm³"@.len() != "gi (UK)"@.len());
            }
            assert("pm³"@ != "gi"@) by {
                assert("pm³"@.len() != "gi"@.len());
            }
            assert("pm³"@ != "pk"@) by {
                assert("pm³"@.len() != "pk"@.len());
            }
            assert("pm³"@ != "dry pt"@) by {
                assert("pm³"@.len() != "dry pt"@.len());
            }
            assert("pm³"@ != "liq pt"@) by {
                assert("pm³"@.len() != "liq pt"@.len());
            }
            assert("pm³"@ != "dry qt"@) by {
                assert("pm³"@.len() != "dry qt"@.len());
            }
            assert("pm³"@ != "liq qt"@) by {
                assert("pm³"@.len() != "liq qt"@.len());
            }
            assert("pm³"@ != "tbsp"@) by {
                assert("pm³"@.len() != "tbsp"@.len());
            }
            assert("pm³"@ != "tsp"@) by {
                assert("pm³"@[0] != "tsp"@[0]);
            }
            assert("pm³"@.subrange("pm³"@.len() - 2, "pm³"@.len() as int) =~= "m³"@);
            assert("pm³"@.subrange(0, "pm³"@.len() - 2) =~= "p"@);
            assert("p"@ != "T"@) by {
                assert("p"@[0] != "T"@[0]);
            }
            assert("p"@ != "G"@) by {
                assert("p"@[0] != "G"@[0]);
            }
            assert("p"@ != "M"@) by {
                assert("p"@[0] != "M"@[0]);
            }
            assert("p"@ != "k"@) by {
                assert("p"@[0] != "k"@[0]);
            }
            assert("p"@ != "h"@) by {
                assert("p"@[0] != "h"@[0]);
            }
            assert("p"@ != "da"@) by {
                assert("p"@.len() != "da"@.len());
            }
            assert("p"@ != ""@) by {
                assert("p"@.len() != ""@.len());
            }
            assert("p"@ != "d"@) by {
                assert("p"@[0] != "d"@[0]);
            }
            assert("p"@ != "c"@) by {
                assert("p"@[0] != "c"@[0]);
            }
            assert("p"@ != "m"@) by {
                assert("p"@[0] != "m"@[0]);
            }
            assert("p"@ != "µ"@) by {
                assert("p"@[0] != "µ"@[0]);
            }
            assert("p"@ != "n"@) by {
                assert("p"@[0] != "n"@[0]);
            }
            assert(si_prefix_name("p"@) == Some("pico"@));
            assert("cubic "@ + "pico"@ + "meter"@ =~= "cubic picometer"@);
            assert(volume_symbol_name("pm³"@) == Some("cubic picometer"@));
        },
        VolumeUnit::AcreFoot => {
            assert(volume_symbol_name("ac · ft"@) == Some("acre-foot"@));
        },
        VolumeUnit::Barrel => {
            assert("bbl"@ != "ac · ft"@) by {
                assert("bbl"@.len() != "ac · ft"@.len());
            }
            assert(volume_symbol_name("bbl"@) == Some("barrel"@));
        },
        VolumeUnit::Bushel => {
            assert("bu"@ != "ac · ft"@) by {
                assert("bu"@.len() != "ac · ft"@.len());
            }
            assert("bu"@ != "bbl"@) by {
                assert("bu"@.len() != "bbl"@.len());
            }
            assert(volume_symbol_name("bu"@) == Some("bushel"@));
        },
        VolumeUnit::Cord => {
            assert("cords"@ != "ac · ft"@) by {
                assert("cords"@.len() != "ac · ft"@.len());
            }
            assert("cords"@ != "bbl"@) by {
                assert("cords"@.len() != "bbl"@.len());
            }
            assert("cords"@ != "bu"@) by {
                assert("cords"@.len() != "bu"@.len());
            }
            assert(volume_symbol_name("cords"@) == Some("cord"@));
        },
        VolumeUnit::CubicFoot => {
            assert("ft³"@ != "ac · ft"@) by {
                assert("ft³"@.len() != "ac · ft"@.len());
            }
            assert("ft³"@ != "bbl"@) by {
                assert("ft³"@[0] != "bbl"@[0]);
            }
            assert("ft³"@ != "bu"@) by {
                assert("ft³"@.len() != "bu"@.len());
            }
            assert("ft³"@ != "cords"@) by {
                assert("ft³"@.len() != "cords"@.len());
            }
            assert(volume_symbol_name("ft³"@) == Some("cubic foot"@));
        },
        VolumeUnit::CubicInch => {
            assert("in³"@ != "ac · ft"@) by {
                assert("in³"@.len() != "ac · ft"@.len());
            }
            assert("in³"@ != "bbl"@) by {
                assert("in³"@[0] != "bbl"@[0]);
            }
            assert("in³"@ != "bu"@) by {
                assert("in³"@.len() != "bu"@.len());
            }
            assert("in³"@ != "cords"@) by {
                assert("in³"@.len() != "cords"@.len());
            }
            assert("in³"@ != "ft³"@) by {
                assert("in³"@[0] != "ft³"@[0]);
            }
            assert(volume_symbol_name("in³"@) == Some("cubic inch"@));
        },
        VolumeUnit::CubicMile => {
            assert("mi³"@ != "ac · ft"@) by {
                assert("mi³"@.len() != "ac · ft"@.len());
            }
            assert("mi³"@ != "bbl"@) by {
                assert("mi³"@[0] != "bbl"@[0]);
            }
            assert("mi³"@ != "bu"@) by {
                assert("mi³"@.len() != "bu"@.len());
            }
            assert("mi³"@ != "cords"@) by {
                assert("mi³"@.len() != "cords"@.len());
            }
            assert("mi³"@ != "ft³"@) by {
                assert("mi³"@[0] != "ft³"@[0]);
            }
            assert("mi³"@ != "in³"@) by {
                assert("mi³"@[0] != "in³"@[0]);
            }
            assert(volume_symbol_name("mi³"@) == Some("cubic mile"@));
        },
        VolumeUnit::CubicYard => {
            assert("yd³"@ != "ac · ft"@) by {
                assert("yd³"@.len() != "ac · ft"@.len());
            }
            assert("yd³"@ != "bbl"@) by {
                assert("yd³"@[0] != "bbl"@[0]);
            }
            assert("yd³"@ != "bu"@) by {
                assert("yd³"@.len() != "bu"@.len());
            }
            assert("yd³"@ != "cords"@) by {
                assert("yd³"@.len() != "cords"@.len());
            }
            assert("yd³"@ != "ft³"@) by {
                assert("yd³"@[0] != "ft³"@[0]);
            }
            assert("yd³"@ != "in³"@) by {
                assert("yd³"@[0] != "in³"@[0]);
            }
            assert("yd³"@ != "mi³"@) by {
                assert("yd³"@[0] != "mi³"@[0]);
            }
            assert(volume_symbol_name("yd³"@) == Some("cubic yard"@));
        },
        VolumeUnit::Cup => {
            assert("cup"@ != "ac · ft"@) by {
                assert("cup"@.len() != "ac · ft"@.len());
            }
            assert("cup"@ != "bbl"@) by {
                assert("cup"@[0] != "bbl"@[0]);
            }
            assert("cup"@ != "bu"@) by {
                assert("cup"@.len() != "bu"@.len());
            }
            assert("cup"@ != "cords"@) by {
                assert("cup"@.len() != "cords"@.len());
            }
            assert("cup"@ != "ft³"@) by {
                assert("cup"@[0] != "ft³"@[0]);
            }
            assert("cup"@ != "in³"@) by {
                assert("cup"@[0] != "in³"@[0]);
            }
            assert("cup"@ != "mi³"@) by {
                assert("cup"@[0] != "mi³"@[0]);
            }
            assert("cup"@ != "yd³"@) by {
                assert("cup"@[0] != "yd³"@[0]);
            }
            assert(volume_symbol_name("cup"@) == Some("cup"@));
        },
        VolumeUnit::FluidOunce => {
            assert("fl oz"@ != "ac · ft"@) by {
                assert("fl oz"@.len() != "ac · ft"@.len());
            }
            assert("fl oz"@ != "bbl"@) by {
                assert("fl oz"@.len() != "bbl"@.len());
            }
            assert("fl oz"@ != "bu"@) by {
                assert("fl oz"@.len() != "bu"@.len());
            }
            assert("fl oz"@ != "cords"@) by {
                assert("fl oz"@[0] != "cords"@[0]);
            }
            assert("fl oz"@ != "ft³"@) by {
                assert("fl oz"@.len() != "ft³"@.len());
            }
            assert("fl oz"@ != "in³"@) by {
                assert("fl oz"@.len() != "in³"@.len());
            }
            assert("fl oz"@ != "mi³"@) by {
                assert("fl oz"@.len() != "mi³"@.len());
            }
            assert("fl oz"@ != "yd³"@) by {
                assert("fl oz"@.len() != "yd³"@.len());
            }
            assert("fl oz"@ != "cup"@) by {
                assert("fl oz"@.len() != "cup"@.len());
            }
            assert(volume_symbol_name("fl oz"@) == Some("fluid ounce"@));
        },
        VolumeUnit::FluidOunceImperial => {
            assert("fl oz (UK)"@ != "ac · ft"@) by {
                assert("fl oz (UK)"@.len() != "ac · ft"@.len());
            }
            assert("fl oz (UK)"@ != "bbl"@) by {
                assert("fl oz (UK)"@.len() != "bbl"@.len());
            }
            assert("fl oz (UK)"@ != "bu"@) by {
                assert("fl oz (UK)"@.len() != "bu"@.len());
            }
            assert("fl oz (UK)"@ != "cords"@) by {
                assert("fl oz (UK)"@.len() != "cords"@.len());
            }
            assert("fl oz (UK)"@ != "ft³"@) by {
                assert("fl oz (UK)"@.len() != "ft³"@.len());
            }
            assert("fl oz (UK)"@ != "in³"@) by {
                assert("fl oz (UK)"@.len() != "in³"@.len());
            }
            assert("fl oz (UK)"@ != "mi³"@) by {
                assert("fl oz (UK)"@.len() != "mi³"@.len());
            }
            assert("fl oz (UK)"@ != "yd³"@) by {
                assert("fl oz (UK)"@.len() != "yd³"@.len());
            }
            assert("fl oz (UK)"@ != "cup"@) by {
                assert("fl oz (UK)"@.len() != "cup"@.len());
            }
            assert("fl oz (UK)"@ != "fl oz"@) by {
                assert("fl oz (UK)"@.len() != "fl oz"@.len());
            }
            assert(volume_symbol_name("fl oz (UK)"@) == Some("Imperial fluid ounce"@));
        },
        VolumeUnit::GallonImperial => {
            assert("gal (UK)"@ != "ac · ft"@) by {
                assert("gal (UK)"@.len() != "ac · ft"@.len());
            }
            assert("gal (UK)"@ != "bbl"@) by {
                assert("gal (UK)"@.len() != "bbl"@.len());
            }
            assert("gal (UK)"@ != "bu"@) by {
                assert("gal (UK)"@.len() != "bu"@.len());
            }
            assert("gal (UK)"@ != "cords"@) by {
                assert("gal (UK)"@.len() != "cords"@.len());
            }
            assert("gal (UK)"@ != "ft³"@) by {
                assert("gal (UK)"@.len() != "ft³"@.len());
            }
            assert("gal (UK)"@ != "in³"@) by {
                assert("gal (UK)"@.len() != "in³"@.len());
            }
            assert("gal (UK)"@ != "mi³"@) by {
                assert("gal (UK)"@.len() != "mi³"@.len());
            }
            assert("gal (UK)"@ != "yd³"@) by {
                assert("gal (UK)"@.len() != "yd³"@.len());
            }
            assert("gal (UK)"@ != "cup"@) by {
                assert("gal (UK)"@.len() != "cup"@.len());
            }
            assert("gal (UK)"@ != "fl oz"@) by {
                assert("gal (UK)"@.len() != "fl oz"@.len());
            }
            assert("gal (UK)"@ != "fl oz (UK)"@) by {
                assert("gal (UK)"@.len() != "fl oz (UK)"@.len());
            }
            assert(volume_symbol_name("gal (UK)"@) == Some("Imperial gallon"@));
        },
        VolumeUnit::Gallon => {
            assert("gal"@ != "ac · ft"@) by {
                assert("gal"@.len() != "ac · ft"@.len());
            }
            assert("gal"@ != "bbl"@) by {
                assert("gal"@[0] != "bbl"@[0]);
            }
            assert("gal"@ != "bu"@) by {
                assert("gal"@.len() != "bu"@.len());
            }
            assert("gal"@ != "cords"@) by {
                assert("gal"@.len() != "cords"@.len());
            }
            assert("gal"@ != "ft³"@) by {
                assert("gal"@[0] != "ft³"@[0]);
            }
            assert("gal"@ != "in³"@) by {
                assert("gal"@[0] != "in³"@[0]);
            }
            assert("gal"@ != "mi³"@) by {
                assert("gal"@[0] != "mi³"@[0]);
            }
            assert("gal"@ != "yd³"@) by {
                assert("gal"@[0] != "yd³"@[0]);
            }
            assert("gal"@ != "cup"@) by {
                assert("gal"@[0] != "cup"@[0]);
            }
            assert("gal"@ != "fl oz"@) by {
                assert("gal"@.len() != "fl oz"@.len());
            }
            assert("gal"@ != "fl oz (UK)"@) by {
                assert("gal"@.len() != "fl oz (UK)"@.len());
            }
            assert("gal"@ != "gal (UK)"@) by {
                assert("gal"@.len() != "gal (UK)"@.len());
            }
            assert(volume_symbol_name("gal"@) == Some("gallon"@));
        },
        VolumeUnit::GillImperial => {
            assert("gi (UK)"@ != "ac · ft"@) by {
                assert("gi (UK)"@[0] != "ac · ft"@[0]);
            }
            assert("gi (UK)"@ != "bbl"@) by {
                assert("gi (UK)"@.len() != "bbl"@.len());
            }
            assert("gi (UK)"@ != "bu"@) by {
                assert("gi (UK)"@.len() != "bu"@.len());
            }
            assert("gi (UK)"@ != "cords"@) by {
                assert("gi (UK)"@.len() != "cords"@.len());
            }
            assert("gi (UK)"@ != "ft³"@) by {
                assert("gi (UK)"@.len() != "ft³"@.len());
            }
            assert("gi (UK)"@ != "in³"@) by {
                assert("gi (UK)"@.len() != "in³"@.len());
            }
            assert("gi (UK)"@ != "mi³"@) by {
                assert("gi (UK)"@.len() != "mi³"@.len());
            }
            assert("gi (UK)"@ != "yd³"@) by {
                assert("gi (UK)"@.len() != "yd³"@.len());
            }
            assert("gi (UK)"@ != "cup"@) by {
                assert("gi (UK)"@.len() != "cup"@.len());
            }
            assert("gi (UK)"@ != "fl oz"@) by {
                assert("gi (UK)"@.len() != "fl oz"@.len());
            }
            assert("gi (UK)"@ != "fl oz (UK)"@) by {
                assert("gi (UK)"@.len() != "fl oz (UK)"@.len());
            }
            assert("gi (UK)"@ != "gal (UK)"@) by {
                assert("gi (UK)"@.len() != "gal (UK)"@.len());
            }
            assert("gi (UK)"@ != "gal"@) by {
                assert("gi (UK)"@.len() != "gal"@.len());
            }
            assert(volume_symbol_name("gi (UK)"@) == Some("Imperial gill"@));
        },
        VolumeUnit::Gill => {
            assert("gi"@ != "ac · ft"@) by {
                assert("gi"@.len() != "ac · ft"@.len());
            }
            assert("gi"@ != "bbl"@) by {
                assert("gi"@.len() != "bbl"@.len());
            }
            assert("gi"@ != "bu"@) by {
                assert("gi"@[0] != "bu"@[0]);
            }
            assert("gi"@ != "cords"@) by {
                assert("gi"@.len() != "cords"@.len());
            }
            assert("gi"@ != "ft³"@) by {
                assert("gi"@.len() != "ft³"@.len());
            }
            assert("gi"@ != "in³"@) by {
                assert("gi"@.len() != "in³"@.len());
            }
            assert("gi"@ != "mi³"@) by {
                assert("gi"@.len() != "mi³"@.len());
            }
            assert("gi"@ != "yd³"@) by {
                assert("gi"@.len() != "yd³"@.len());
            }
            assert("gi"@ != "cup"@) by {
                assert("gi"@.len() != "cup"@.len());
            }
            assert("gi"@ != "fl oz"@) by {
                assert("gi"@.len() != "fl oz"@.len());
            }
            assert("gi"@ != "fl oz (UK)"@) by {
                assert("gi"@.len() != "fl oz (UK)"@.len());
            }
            assert("gi"@ != "gal (UK)"@) by {
                assert("gi"@.len() != "gal (UK)"@.len());
            }
            assert("gi"@ != "gal"@) by {
                assert("gi"@.len() != "gal"@.len());
            }
            assert("gi"@ != "gi (UK)"@) by {
                assert("gi"@.len() != "gi (UK)"@.len());
            }
            assert(volume_symbol_name("gi"@) == Some("gill"@));
        },
        VolumeUnit::Teraliter => {
            assert("TL"@ != "ac · ft"@) by {
                assert("TL"@.len() != "ac · ft"@.len());
            }
            assert("TL"@ != "bbl"@) by {
                assert("TL"@.len() != "bbl"@.len());
            }
            assert("TL"@ != "bu"@) by {
                assert("TL"@[0] != "bu"@[0]);
            }
            assert("TL"@ != "cords"@) by {
                assert("TL"@.len() != "cords"@.len());
            }
            assert("TL"@ != "ft³"@) by {
                assert("TL"@.len() != "ft³"@.len());
            }
            assert("TL"@ != "in³"@) by {
                assert("TL"@.len() != "in³"@.len());
            }
            assert("TL"@ != "mi³"@) by {
                assert("TL"@.len() != "mi³"@.len());
            }
            assert("TL"@ != "yd³"@) by {
                assert("TL"@.len() != "yd³"@.len());
            }
            assert("TL"@ != "cup"@) by {
                assert("TL"@.len() != "cup"@.len());
            }
            assert("TL"@ != "fl oz"@) by {
                assert("TL"@.len() != "fl oz"@.len());
            }
            assert("TL"@ != "fl oz (UK)"@) by {
                assert("TL"@.len() != "fl oz (UK)"@.len());
            }
            assert("TL"@ != "gal (UK)"@) by {
                assert("TL"@.len() != "gal (UK)"@.len());
            }
            assert("TL"@ != "gal"@) by {
                assert("TL"@.len() != "gal"@.len());
            }
            assert("TL"@ != "gi (UK)"@) by {
                assert("TL"@.len() != "gi (UK)"@.len());
            }
            assert("TL"@ != "gi"@) by {
                assert("TL"@[0] != "gi"@[0]);
            }
            assert("TL"@ != "pk"@) by {
                assert("TL"@[0] != "pk"@[0]);
            }
            assert("TL"@ != "dry pt"@) by {
                assert("TL"@.len() != "dry pt"@.len());
            }
            assert("TL"@ != "liq pt"@) by {
                assert("TL"@.len() != "liq pt"@.len());
            }
            assert("TL"@ != "dry qt"@) by {
                assert("TL"@.len() != "dry qt"@.len());
            }
            assert("TL"@ != "liq qt"@) by {
                assert("TL"@.len() != "liq qt"@.len());
            }
            assert("TL"@ != "tbsp"@) by {
                assert("TL"@.len() != "tbsp"@.len());
            }
            assert("TL"@ != "tsp"@) by {
                assert("TL"@.len() != "tsp"@.len());
            }
            assert("TL"@ != "m³"@) by {
                assert("TL"@[0] != "m³"@[0]);
            }
            assert("TL"@.subrange("TL"@.len() - 2, "TL"@.len() as int) =~= "TL"@);
            assert("TL"@.subrange("TL"@.len() - 1, "TL"@.len() as int) =~= "L"@);
            assert("TL"@.subrange(0, "TL"@.len() - 1) =~= "T"@);
            assert(si_prefix_name("T"@) == Some("tera"@));
            assert(""@ + "tera"@ + "liter"@ =~= "teraliter"@);
            assert(volume_symbol_name("TL"@) == Some("teraliter"@));
        },
        VolumeUnit::Gigaliter => {
            assert("GL"@ != "ac · ft"@) by {
                assert("GL"@.len() != "ac · ft"@.len());
            }
            assert("GL"@ != "bbl"@) by {
                assert("GL"@.len() != "bbl"@.len());
            }
            assert("GL"@ != "bu"@) by {
                assert("GL"@[0] != "bu"@[0]);
            }
            assert("GL"@ != "cords"@) by {
                assert("GL"@.len() != "cords"@.len());
            }
            assert("GL"@ != "ft³"@) by {
                assert("GL"@.len() != "ft³"@.len());
            }
            assert("GL"@ != "in³"@) by {
                assert("GL"@.len() != "in³"@.len());
            }
            assert("GL"@ != "mi³"@) by {
                assert("GL"@.len() != "mi³"@.len());
            }
            assert("GL"@ != "yd³"@) by {
                assert("GL"@.len() != "yd³"@.len());
            }
            assert("GL"@ != "cup"@) by {
                assert("GL"@.len() != "cup"@.len());
            }
            assert("GL"@ != "fl oz"@) by {
                assert("GL"@.len() != "fl oz"@.len());
            }
            assert("GL"@ != "fl oz (UK)"@) by {
                assert("GL"@.len() != "fl oz (UK)"@.len());
            }
            assert("GL"@ != "gal (UK)"@) by {
                assert("GL"@.len() != "gal (UK)"@.len());
            }
            assert("GL"@ != "gal"@) by {
                assert("GL"@.len() != "gal"@.len());
            }
            assert("GL"@ != "gi (UK)"@) by {
                assert("GL"@.len() != "gi (UK)"@.len());
            }
            assert("GL"@ != "gi"@) by {
                assert("GL"@[0] != "gi"@[0]);
            }
            assert("GL"@ != "pk"@) by {
                assert("GL"@[0] != "pk"@[0]);
            }
            assert("GL"@ != "dry pt"@) by {
                assert("GL"@.len() != "dry pt"@.len());
            }
            assert("GL"@ != "liq pt"@) by {
                assert("GL"@.len() != "liq pt"@.len());
            }
            assert("GL"@ != "dry qt"@) by {
                assert("GL"@.len() != "dry qt"@.len());
            }
            assert("GL"@ != "liq qt"@) by {
                assert("GL"@.len() != "liq qt"@.len());
            }
            assert("GL"@ != "tbsp"@) by {
                assert("GL"@.len() != "tbsp"@.len());
            }
            assert("GL"@ != "tsp"@) by {
                assert("GL"@.len() != "tsp"@.len());
            }
            assert("GL"@ != "m³"@) by {
                assert("GL"@[0] != "m³"@[0]);
            }
            assert("GL"@.subrange("GL"@.len() - 2, "GL"@.len() as int) =~= "GL"@);
            assert("GL"@.subrange("GL"@.len() - 1, "GL"@.len() as int) =~= "L"@);
            assert("GL"@.subrange(0, "GL"@.len() - 1) =~= "G"@);
            assert("G"@ != "T"@) by {
                assert("G"@[0] != "T"@[0]);
            }
            assert(si_prefix_name("G"@) == Some("giga"@));
            assert(""@ + "giga"@ + "liter"@ =~= "gigaliter"@);
            assert(volume_symbol_name("GL"@) == Some("gigaliter"@));
        },
        VolumeUnit::Megaliter => {
            assert("ML"@ != "ac · ft"@) by {
                assert("ML"@.len() != "ac · ft"@.len());
            }
            assert("ML"@ != "bbl"@) by {
                assert("ML"@.len() != "bbl"@.len());
            }
            assert("ML"@ != "bu"@) by {
                assert("ML"@[0] != "bu"@[0]);
            }
            assert("ML"@ != "cords"@) by {
                assert("ML"@.len() != "cords"@.len());
            }
            assert("ML"@ != "ft³"@) by {
                assert("ML"@.len() != "ft³"@.len());
            }
            assert("ML"@ != "in³"@) by {
                assert("ML"@.len() != "in³"@.len());
            }
            assert("ML"@ != "mi³"@) by {
                assert("ML"@.len() != "mi³"@.len());
            }
            assert("ML"@ != "yd³"@) by {
                assert("ML"@.len() != "yd³"@.len());
            }
            assert("ML"@ != "cup"@) by {
                assert("ML"@.len() != "cup"@.len());
            }
            assert("ML"@ != "fl oz"@) by {
                assert("ML"@.len() != "fl oz"@.len());
            }
            assert("ML"@ != "fl oz (UK)"@) by {
                assert("ML"@.len() != "fl oz (UK)"@.len());
            }
            assert("ML"@ != "gal (UK)"@) by {
                assert("ML"@.len() != "gal (UK)"@.len());
            }
            assert("ML"@ != "gal"@) by {
                assert("ML"@.len() != "gal"@.len());
            }
            assert("ML"@ != "gi (UK)"@) by {
                assert("ML"@.len() != "gi (UK)"@.len());
            }
            assert("ML"@ != "gi"@) by {
                assert("ML"@[0] != "gi"@[0]);
            }
            assert("ML"@ != "pk"@) by {
                assert("ML"@[0] != "pk"@[0]);
            }
            assert("ML"@ != "dry pt"@) by {
                assert("ML"@.len() != "dry pt"@.len());
            }
            assert("ML"@ != "liq pt"@) by {
                assert("ML"@.len() != "liq pt"@.len());
            }
            assert("ML"@ != "dry qt"@) by {
                assert("ML"@.len() != "dry qt"@.len());
            }
            assert("ML"@ != "liq qt"@) by {
                assert("ML"@.len() != "liq qt"@.len());
            }
            assert("ML"@ != "tbsp"@) by {
                assert("ML"@.len() != "tbsp"@.len());
            }
            assert("ML"@ != "tsp"@) by {
                assert("ML"@.len() != "tsp"@.len());
            }
            assert("ML"@ != "m³"@) by {
                assert("ML"@[0] != "m³"@[0]);
            }
            assert("ML"@.subrange("ML"@.len() - 2, "ML"@.len() as int) =~= "ML"@);
            assert("ML"@.subrange("ML"@.len() - 1, "ML"@.len() as int) =~= "L"@);
            assert("ML"@.subrange(0, "ML"@.len() - 1) =~= "M"@);
            assert("M"@ != "T"@) by {
                assert("M"@[0] != "T"@[0]);
            }
            assert("M"@ != "G"@) by {
                assert("M"@[0] != "G"@[0]);
            }
            assert(si_prefix_name("M"@) == Some("mega"@));
            assert(""@ + "mega"@ + "liter"@ =~= "megaliter"@);
            assert(volume_symbol_name("ML"@) == Some("megaliter"@));
        },
        VolumeUnit::Kiloliter => {
            assert("kL"@ != "ac · ft"@) by {
                assert("kL"@.len() != "ac · ft"@.len());
            }
            assert("kL"@ != "bbl"@) by {
                assert("kL"@.len() != "bbl"@.len());
            }
            assert("kL"@ != "bu"@) by {
                assert("kL"@[0] != "bu"@[0]);
            }
            assert("kL"@ != "cords"@) by {
                assert("kL"@.len() != "cords"@.len());
            }
            assert("kL"@ != "ft³"@) by {
                assert("kL"@.len() != "ft³"@.len());
            }
            assert("kL"@ != "in³"@) by {
                assert("kL"@.len() != "in³"@.len());
            }
            assert("kL"@ != "mi³"@) by {
                assert("kL"@.len() != "mi³"@.len());
            }
            assert("kL"@ != "yd³"@) by {
                assert("kL"@.len() != "yd³"@.len());
            }
            assert("kL"@ != "cup"@) by {
                assert("kL"@.len() != "cup"@.len());
            }
            assert("kL"@ != "fl oz"@) by {
                assert("kL"@.len() != "fl oz"@.len());
            }
            assert("kL"@ != "fl oz (UK)"@) by {
                assert("kL"@.len() != "fl oz (UK)"@.len());
            }
            assert("kL"@ != "gal (UK)"@) by {
                assert("kL"@.len() != "gal (UK)"@.len());
            }
            assert("kL"@ != "gal"@) by {
                assert("kL"@.len() != "gal"@.len());
            }
            assert("kL"@ != "gi (UK)"@) by {
                assert("kL"@.len() != "gi (UK)"@.len());
            }
            assert("kL"@ != "gi"@) by {
                assert("kL"@[0] != "gi"@[0]);
            }
            assert("kL"@ != "pk"@) by {
                assert("kL"@[0] != "pk"@[0]);
            }
            assert("kL"@ != "dry pt"@) by {
                assert("kL"@.len() != "dry pt"@.len());
            }
            assert("kL"@ != "liq pt"@) by {
                assert("kL"@.len() != "liq pt"@.len());
            }
            assert("kL"@ != "dry qt"@) by {
                assert("kL"@.len() != "dry qt"@.len());
            }
            assert("kL"@ != "liq qt"@) by {
                assert("kL"@.len() != "liq qt"@.len());
            }
            assert("kL"@ != "tbsp"@) by {
                assert("kL"@.len() != "tbsp"@.len());
            }
            assert("kL"@ != "tsp"@) by {
                assert("kL"@.len() != "tsp"@.len());
            }
            assert("kL"@ != "m³"@) by {
                assert("kL"@[0] != "m³"@[0]);
            }
            assert("kL"@.subrange("kL"@.len() - 2, "kL"@.len() as int) =~= "kL"@);
            assert("kL"@.subrange("kL"@.len() - 1, "kL"@.len() as int) =~= "L"@);
            assert("kL"@.subrange(0, "kL"@.len() - 1) =~= "k"@);
            assert("k"@ != "T"@) by {
                assert("k"@[0] != "T"@[0]);
            }
            assert("k"@ != "G"@) by {
                assert("k"@[0] != "G"@[0]);
            }
            assert("k"@ != "M"@) by {
                assert("k"@[0] != "M"@[0]);
            }
            assert(si_prefix_name("k"@) == Some("kilo"@));
            assert(""@ + "kilo"@ + "liter"@ =~= "kiloliter"@);
            assert(volume_symbol_name("kL"@) == Some("kiloliter"@));
        },
        VolumeUnit::Hectoliter => {
            assert("hL"@ != "ac · ft"@) by {
                assert("hL"@.len() != "ac · ft"@.len());
            }
            assert("hL"@ != "bbl"@) by {
                assert("hL"@.len() != "bbl"@.len());
            }
            assert("hL"@ != "bu"@) by {
                assert("hL"@[0] != "bu"@[0]);
            }
            assert("hL"@ != "cords"@) by {
                assert("hL"@.len() != "cords"@.len());
            }
            assert("hL"@ != "ft³"@) by {
                assert("hL"@.len() != "ft³"@.len());
            }
            assert("hL"@ != "in³"@) by {
                assert("hL"@.len() != "in³"@.len());
            }
            assert("hL"@ != "mi³"@) by {
                assert("hL"@.len() != "mi³"@.len());
            }
            assert("hL"@ != "yd³"@) by {
                assert("hL"@.len() != "yd³"@.len());
            }
            assert("hL"@ != "cup"@) by {
                assert("hL"@.len() != "cup"@.len());
            }
            assert("hL"@ != "fl oz"@) by {
                assert("hL"@.len() != "fl oz"@.len());
            }
            assert("hL"@ != "fl oz (UK)"@) by {
                assert("hL"@.len() != "fl oz (UK)"@.len());
            }
            assert("hL"@ != "gal (UK)"@) by {
                assert("hL"@.len() != "gal (UK)"@.len());
            }
            assert("hL"@ != "gal"@) by {
                assert("hL"@.len() != "gal"@.len());
            }
            assert("hL"@ != "gi (UK)"@) by {
                assert("hL"@.len() != "gi (UK)"@.len());
            }
            assert("hL"@ != "gi"@) by {
                assert("hL"@[0] != "gi"@[0]);
            }
            assert("hL"@ != "pk"@) by {
                assert("hL"@[0] != "pk"@[0]);
            }
            assert("hL"@ != "dry pt"@) by {
                assert("hL"@.len() != "dry pt"@.len());
            }
            assert("hL"@ != "liq pt"@) by {
                assert("hL"@.len() != "liq pt"@.len());
            }
            assert("hL"@ != "dry qt"@) by {
                assert("hL"@.len() != "dry qt"@.len());
            }
            assert("hL"@ != "liq qt"@) by {
                assert("hL"@.len() != "liq qt"@.len());
            }
            assert("hL"@ != "tbsp"@) by {
                assert("hL"@.len() != "tbsp"@.len());
            }
            assert("hL"@ != "tsp"@) by {
                assert("hL"@.len() != "tsp"@.len());
            }
            assert("hL"@ != "m³"@) by {
                assert("hL"@[0] != "m³"@[0]);
            }
            assert("hL"@.subrange("hL"@.len() - 2, "hL"@.len() as int) =~= "hL"@);
            assert("hL"@.subrange("hL"@.len() - 1, "hL"@.len() as int) =~= "L"@);
            assert("hL"@.subrange(0, "hL"@.len() - 1) =~= "h"@);
            assert("h"@ != "T"@) by {
                assert("h"@[0] != "T"@[0]);
            }
            assert("h"@ != "G"@) by {
                assert("h"@[0] != "G"@[0]);
            }
            assert("h"@ != "M"@) by {
                assert("h"@[0] != "M"@[0]);
            }
            assert("h"@ != "k"@) by {
                assert("h"@[0] != "k"@[0]);
            }
            assert(si_prefix_name("h"@) == Some("hecto"@));
            assert(""@ + "hecto"@ + "liter"@ =~= "hectoliter"@);
            assert(volume_symbol_name("hL"@) == Some("hectoliter"@));
        },
        VolumeUnit::Decaliter => {
            assert("daL"@ != "ac · ft"@) by {
                assert("daL"@.len() != "ac · ft"@.len());
            }
            assert("daL"@ != "bbl"@) by {
                assert("daL"@[0] != "bbl"@[0]);
            }
            assert("daL"@ != "bu"@) by {
                assert("daL"@.len() != "bu"@.len());
            }
            assert("daL"@ != "cords"@) by {
                assert("daL"@.len() != "cords"@.len());
            }
            assert("daL"@ != "ft³"@) by {
                assert("daL"@[0] != "ft³"@[0]);
            }
            assert("daL"@ != "in³"@) by {
                assert("daL"@[0] != "in³"@[0]);
            }
            assert("daL"@ != "mi³"@) by {
                assert("daL"@[0] != "mi³"@[0]);
            }
            assert("daL"@ != "yd³"@) by {
                assert("daL"@[0] != "yd³"@[0]);
            }
            assert("daL"@ != "cup"@) by {
                assert("daL"@[0] != "cup"@[0]);
            }
            assert("daL"@ != "fl oz"@) by {
                assert("daL"@.len() != "fl oz"@.len());
            }
            assert("daL"@ != "fl oz (UK)"@) by {
                assert("daL"@.len() != "fl oz (UK)"@.len());
            }
            assert("daL"@ != "gal (UK)"@) by {
                assert("daL"@.len() != "gal (UK)"@.len());
            }
            assert("daL"@ != "gal"@) by {
                assert("daL"@[0] != "gal"@[0]);
            }
            assert("daL"@ != "gi (UK)"@) by {
                assert("daL"@.len() != "gi (UK)"@.len());
            }
            assert("daL"@ != "gi"@) by {
                assert("daL"@.len() != "gi"@.len());
            }
            assert("daL"@ != "pk"@) by {
                assert("daL"@.len() != "pk"@.len());
            }
            assert("daL"@ != "dry pt"@) by {
                assert("daL"@.len() != "dry pt"@.len());
            }
            assert("daL"@ != "liq pt"@) by {
                assert("daL"@.len() != "liq pt"@.len());
            }
            assert("daL"@ != "dry qt"@) by {
                assert("daL"@.len() != "dry qt"@.len());
            }
            assert("daL"@ != "liq qt"@) by {
                assert("daL"@.len() != "liq qt"@.len());
            }
            assert("daL"@ != "tbsp"@) by {
                assert("daL"@.len() != "tbsp"@.len());
            }
            assert("daL"@ != "tsp"@) by {
                assert("daL"@[0] != "tsp"@[0]);
            }
            assert("aL"@ != "m³"@) by {
                assert("aL"@[0] != "m³"@[0]);
            }
            assert("daL"@.subrange("daL"@.len() - 2, "daL"@.len() as int) =~= "aL"@);
            assert("daL"@.subrange("daL"@.len() - 1, "daL"@.len() as int) =~= "L"@);
            assert("daL"@.subrange(0, "daL"@.len() - 1) =~= "da"@);
            assert("da"@ != "T"@) by {
                assert("da"@.len() != "T"@.len());
            }
            assert("da"@ != "G"@) by {
                assert("da"@.len() != "G"@.len());
            }
            assert("da"@ != "M"@) by {
                assert("da"@.len() != "M"@.len());
            }
            assert("da"@ != "k"@) by {
                assert("da"@.len() != "k"@.len());
            }
            assert("da"@ != "h"@) by {
                assert("da"@.len() != "h"@.len());
            }
            assert(si_prefix_name("da"@) == Some("deca"@));
            assert(""@ + "deca"@ + "liter"@ =~= "decaliter"@);
            assert(volume_symbol_name("daL"@) == Some("decaliter"@));
        },
        VolumeUnit::Liter => {
            assert("L"@ != "ac · ft"@) by {
                assert("L"@.len() != "ac · ft"@.len());
            }
            assert("L"@ != "bbl"@) by {
                assert("L"@.len() != "bbl"@.len());
            }
            assert("L"@ != "bu"@) by {
                assert("L"@.len() != "bu"@.len());
            }
            assert("L"@ != "cords"@) by {
                assert("L"@.len() != "cords"@.len());
            }
            assert("L"@ != "ft³"@) by {
                assert("L"@.len() != "ft³"@.len());
            }
            assert("L"@ != "in³"@) by {
                assert("L"@.len() != "in³"@.len());
            }
            assert("L"@ != "mi³"@) by {
                assert("L"@.len() != "mi³"@.len());
            }
            assert("L"@ != "yd³"@) by {
                assert("L"@.len() != "yd³"@.len());
            }
            assert("L"@ != "cup"@) by {
                assert("L"@.len() != "cup"@.len());
            }
            assert("L"@ != "fl oz"@) by {
                assert("L"@.len() != "fl oz"@.len());
            }
            assert("L"@ != "fl oz (UK)"@) by {
                assert("L"@.len() != "fl oz (UK)"@.len());
            }
            assert("L"@ != "gal (UK)"@) by {
                assert("L"@.len() != "gal (UK)"@.len());
            }
            assert("L"@ != "gal"@) by {
                assert("L"@.len() != "gal"@.len());
            }
            assert("L"@ != "gi (UK)"@) by {
                assert("L"@.len() != "gi (UK)"@.len());
            }
            assert("L"@ != "gi"@) by {
                assert("L"@.len() != "gi"@.len());
            }
            assert("L"@ != "pk"@) by {
                assert("L"@.len() != "pk"@.len());
            }
            assert("L"@ != "dry pt"@) by {
                assert("L"@.len() != "dry pt"@.len());
            }
            assert("L"@ != "liq pt"@) by {
                assert("L"@.len() != "liq pt"@.len());
            }
            assert("L"@ != "dry qt"@) by {
                assert("L"@.len() != "dry qt"@.len());
            }
            assert("L"@ != "liq qt"@) by {
                assert("L"@.len() != "liq qt"@.len());
            }
            assert("L"@ != "tbsp"@) by {
                assert("L"@.len() != "tbsp"@.len());
            }
            assert("L"@ != "tsp"@) by {
                assert("L"@.len() != "tsp"@.len());
            }
            assert("L"@.subrange("L"@.len() - 1, "L"@.len() as int) =~= "L"@);
            assert("L"@.subrange(0, "L"@.len() - 1) =~= ""@);
            assert(""@ != "T"@) by {
                assert(""@.len() != "T"@.len());
            }
            assert(""@ != "G"@) by {
                assert(""@.len() != "G"@.len());
            }
            assert(""@ != "M"@) by {
                assert(""@.len() != "M"@.len());
            }
            assert(""@ != "k"@) by {
                assert(""@.len() != "k"@.len());
            }
            assert(""@ != "h"@) by {
                assert(""@.len() != "h"@.len());
            }
            assert(""@ != "da"@) by {
                assert(""@.len() != "da"@.len());
            }
            assert(si_prefix_name(""@) == Some(""@));
            assert(""@ + ""@ + "liter"@ =~= "liter"@);
            assert(volume_symbol_name("L"@) == Some("liter"@));
        },
        VolumeUnit::Deciliter => {
            assert("dL"@ != "ac · ft"@) by {
                assert("dL"@.len() != "ac · ft"@.len());
            }
            assert("dL"@ != "bbl"@) by {
                assert("dL"@.len() != "bbl"@.len());
            }
            assert("dL"@ != "bu"@) by {
                assert("dL"@[0] != "bu"@[0]);
            }
            assert("dL"@ != "cords"@) by {
                assert("dL"@.len() != "cords"@.len());
            }
            assert("dL"@ != "ft³"@) by {
                assert("dL"@.len() != "ft³"@.len());
            }
            assert("dL"@ != "in³"@) by {
                assert("dL"@.len() != "in³"@.len());
            }
            assert("dL"@ != "mi³"@) by {
                assert("dL"@.len() != "mi³"@.len());
            }
            assert("dL"@ != "yd³"@) by {
                assert("dL"@.len() != "yd³"@.len());
            }
            assert("dL"@ != "cup"@) by {
                assert("dL"@.len() != "cup"@.len());
            }
            assert("dL"@ != "fl oz"@) by {
                assert("dL"@.len() != "fl oz"@.len());
            }
            assert("dL"@ != "fl oz (UK)"@) by {
                assert("dL"@.len() != "fl oz (UK)"@.len());
            }
            assert("dL"@ != "gal (UK)"@) by {
                assert("dL"@.len() != "gal (UK)"@.len());
            }
            assert("dL"@ != "gal"@) by {
                assert("dL"@.len() != "gal"@.len());
            }
            assert("dL"@ != "gi (UK)"@) by {
                assert("dL"@.len() != "gi (UK)"@.len());
            }
            assert("dL"@ != "gi"@) by {
                assert("dL"@[0] != "gi"@[0]);
            }
            assert("dL"@ != "pk"@) by {
                assert("dL"@[0] != "pk"@[0]);
            }
            assert("dL"@ != "dry pt"@) by {
                assert("dL"@.len() != "dry pt"@.len());
            }
            assert("dL"@ != "liq pt"@) by {
                assert("dL"@.len() != "liq pt"@.len());
            }
            assert("dL"@ != "dry qt"@) by {
                assert("dL"@.len() != "dry qt"@.len());
            }
            assert("dL"@ != "liq qt"@) by {
                assert("dL"@.len() != "liq qt"@.len());
            }
            assert("dL"@ != "tbsp"@) by {
                assert("dL"@.len() != "tbsp"@.len());
            }
            assert("dL"@ != "tsp"@) by {
                assert("dL"@.len() != "tsp"@.len());
            }
            assert("dL"@ != "m³"@) by {
                assert("dL"@[0] != "m³"@[0]);
            }
            assert("dL"@.subrange("dL"@.len() - 2, "dL"@.len() as int) =~= "dL"@);
            assert("dL"@.subrange("dL"@.len() - 1, "dL"@.len() as int) =~= "L"@);
            assert("dL"@.subrange(0, "dL"@.len() - 1) =~= "d"@);
            assert("d"@ != "T"@) by {
                assert("d"@[0] != "T"@[0]);
            }
            assert("d"@ != "G"@) by {
                assert("d"@[0] != "G"@[0]);
            }
            assert("d"@ != "M"@) by {
                assert("d"@[0] != "M"@[0]);
            }
            assert("d"@ != "k"@) by {
                assert("d"@[0] != "k"@[0]);
            }
            assert("d"@ != "h"@) by {
                assert("d"@[0] != "h"@[0]);
            }
            assert("d"@ != "da"@) by {
                assert("d"@.len() != "da"@.len());
            }
            assert("d"@ != ""@) by {
                assert("d"@.len() != ""@.len());
            }
            assert(si_prefix_name("d"@) == Some("deci"@));
            assert(""@ + "deci"@ + "liter"@ =~= "deciliter"@);
            assert(volume_symbol_name("dL"@) == Some("deciliter"@));
        },
        VolumeUnit::Centiliter => {
            assert("cL"@ != "ac · ft"@) by {
                assert("cL"@.len() != "ac · ft"@.len());
            }
            assert("cL"@ != "bbl"@) by {
                assert("cL"@.len() != "bbl"@.len());
            }
            assert("cL"@ != "bu"@) by {
                assert("cL"@[0] != "bu"@[0]);
            }
            assert("cL"@ != "cords"@) by {
                assert("cL"@.len() != "cords"@.len());
            }
            assert("cL"@ != "ft³"@) by {
                assert("cL"@.len() != "ft³"@.len());
            }
            assert("cL"@ != "in³"@) by {
                assert("cL"@.len() != "in³"@.len());
            }
            assert("cL"@ != "mi³"@) by {
                assert("cL"@.len() != "mi³"@.len());
            }
            assert("cL"@ != "yd³"@) by {
                assert("cL"@.len() != "yd³"@.len());
            }
            assert("cL"@ != "cup"@) by {
                assert("cL"@.len() != "cup"@.len());
            }
            assert("cL"@ != "fl oz"@) by {
                assert("cL"@.len() != "fl oz"@.len());
            }
            assert("cL"@ != "fl oz (UK)"@) by {
                assert("cL"@.len() != "fl oz (UK)"@.len());
            }
            assert("cL"@ != "gal (UK)"@) by {
                assert("cL"@.len() != "gal (UK)"@.len());
            }
            assert("cL"@ != "gal"@) by {
                assert("cL"@.len() != "gal"@.len());
            }
            assert("cL"@ != "gi (UK)"@) by {
                assert("cL"@.len() != "gi (UK)"@.len());
            }
            assert("cL"@ != "gi"@) by {
                assert("cL"@[0] != "gi"@[0]);
            }
            assert("cL"@ != "pk"@) by {
                assert("cL"@[0] != "pk"@[0]);
            }
            assert("cL"@ != "dry pt"@) by {
                assert("cL"@.len() != "dry pt"@.len());
            }
            assert("cL"@ != "liq pt"@) by {
                assert("cL"@.len() != "liq pt"@.len());
            }
            assert("cL"@ != "dry qt"@) by {
                assert("cL"@.len() != "dry qt"@.len());
            }
            assert("cL"@ != "liq qt"@) by {
                assert("cL"@.len() != "liq qt"@.len());
            }
            assert("cL"@ != "tbsp"@) by {
                assert("cL"@.len() != "tbsp"@.len());
            }
            assert("cL"@ != "tsp"@) by {
                assert("cL"@.len() != "tsp"@.len());
            }
            assert("cL"@ != "m³"@) by {
                assert("cL"@[0] != "m³"@[0]);
            }
            assert("cL"@.subrange("cL"@.len() - 2, "cL"@.len() as int) =~= "cL"@);
            assert("cL"@.subrange("cL"@.len() - 1, "cL"@.len() as int) =~= "L"@);
            assert("cL"@.subrange(0, "cL"@.len() - 1) =~= "c"@);
            assert("c"@ != "T"@) by {
                assert("c"@[0] != "T"@[0]);
            }
            assert("c"@ != "G"@) by {
                assert("c"@[0] != "G"@[0]);
            }
            assert("c"@ != "M"@) by {
                assert("c"@[0] != "M"@[0]);
            }
            assert("c"@ != "k"@) by {
                assert("c"@[0] != "k"@[0]);
            }
            assert("c"@ != "h"@) by {
                assert("c"@[0] != "h"@[0]);
            }
            assert("c"@ != "da"@) by {
                assert("c"@.len() != "da"@.len());
            }
            assert("c"@ != ""@) by {
                assert("c"@.len() != ""@.len());
            }
            assert("c"@ != "d"@) by {
                assert("c"@[0] != "d"@[0]);
            }
            assert(si_prefix_name("c"@) == Some("centi"@));
            assert(""@ + "centi"@ + "liter"@ =~= "centiliter"@);
            assert(volume_symbol_name("cL"@) == Some("centiliter"@));
        },
        VolumeUnit::Milliliter => {
            assert("mL"@ != "ac · ft"@) by {
                assert("mL"@.len() != "ac · ft"@.len());
            }
            assert("mL"@ != "bbl"@) by {
                assert("mL"@.len() != "bbl"@.len());
            }
            assert("mL"@ != "bu"@) by {
                assert("mL"@[0] != "bu"@[0]);
            }
            assert("mL"@ != "cords"@) by {
                assert("mL"@.len() != "cords"@.len());
            }
            assert("mL"@ != "ft³"@) by {
                assert("mL"@.len() != "ft³"@.len());
            }
            assert("mL"@ != "in³"@) by {
                assert("mL"@.len() != "in³"@.len());
            }
            assert("mL"@ != "mi³"@) by {
                assert("mL"@.len() != "mi³"@.len());
            }
            assert("mL"@ != "yd³"@) by {
                assert("mL"@.len() != "yd³"@.len());
            }
            assert("mL"@ != "cup"@) by {
                assert("mL"@.len() != "cup"@.len());
            }
            assert("mL"@ != "fl oz"@) by {
                assert("mL"@.len() != "fl oz"@.len());
            }
            assert("mL"@ != "fl oz (UK)"@) by {
                assert("mL"@.len() != "fl oz (UK)"@.len());
            }
            assert("mL"@ != "gal (UK)"@) by {
                assert("mL"@.len() != "gal (UK)"@.len());
            }
            assert("mL"@ != "gal"@) by {
                assert("mL"@.len() != "gal"@.len());
            }
            assert("mL"@ != "gi (UK)"@) by {
                assert("mL"@.len() != "gi (UK)"@.len());
            }
            assert("mL"@ != "gi"@) by {
                assert("mL"@[0] != "gi"@[0]);
            }
            assert("mL"@ != "pk"@) by {
                assert("mL"@[0] != "pk"@[0]);
            }
            assert("mL"@ != "dry pt"@) by {
                assert("mL"@.len() != "dry pt"@.len());
            }
            assert("mL"@ != "liq pt"@) by {
                assert("mL"@.len() != "liq pt"@.len());
            }
            assert("mL"@ != "dry qt"@) by {
                assert("mL"@.len() != "dry qt"@.len());
            }
            assert("mL"@ != "liq qt"@) by {
                assert("mL"@.len() != "liq qt"@.len());
            }
            assert("mL"@ != "tbsp"@) by {
                assert("mL"@.len() != "tbsp"@.len());
            }
            assert("mL"@ != "tsp"@) by {
                assert("mL"@.len() != "tsp"@.len());
            }
            assert("mL"@ != "m³"@) by {
                assert("mL"@[1] != "m³"@[1]);
            }
            assert("mL"@.subrange("mL"@.len() - 2, "mL"@.len() as int) =~= "mL"@);
            assert("mL"@.subrange("mL"@.len() - 1, "mL"@.len() as int) =~= "L"@);
            assert("mL"@.subrange(0, "mL"@.len() - 1) =~= "m"@);
            assert("m"@ != "T"@) by {
                assert("m"@[0] != "T"@[0]);
            }
            assert("m"@ != "G"@) by {
                assert("m"@[0] != "G"@[0]);
            }
            assert("m"@ != "M"@) by {
                assert("m"@[0] != "M"@[0]);
            }
            assert("m"@ != "k"@) by {
                assert("m"@[0] != "k"@[0]);
            }
            assert("m"@ != "h"@) by {
                assert("m"@[0] != "h"@[0]);
            }
            assert("m"@ != "da"@) by {
                assert("m"@.len() != "da"@.len());
            }
            assert("m"@ != ""@) by {
                assert("m"@.len() != ""@.len());
            }
            assert("m"@ != "d"@) by {
                assert("m"@[0] != "d"@[0]);
            }
            assert("m"@ != "c"@) by {
                assert("m"@[0] != "c"@[0]);
            }
            assert(si_prefix_name("m"@) == Some("milli"@));
            assert(""@ + "milli"@ + "liter"@ =~= "milliliter"@);
            assert(volume_symbol_name("mL"@) == Some("milliliter"@));
        },
        VolumeUnit::Microliter => {
            assert("µL"@ != "ac · ft"@) by {
                assert("µL"@.len() != "ac · ft"@.len());
            }
            assert("µL"@ != "bbl"@) by {
                assert("µL"@.len() != "bbl"@.len());
            }
            assert("µL"@ != "bu"@) by {
                assert("µL"@[0] != "bu"@[0]);
            }
            assert("µL"@ != "cords"@) by {
                assert("µL"@.len() != "cords"@.len());
            }
            assert("µL"@ != "ft³"@) by {
                assert("µL"@.len() != "ft³"@.len());
            }
            assert("µL"@ != "in³"@) by {
                assert("µL"@.len() != "in³"@.len());
            }
            assert("µL"@ != "mi³"@) by {
                assert("µL"@.len() != "mi³"@.len());
            }
            assert("µL"@ != "yd³"@) by {
                assert("µL"@.len() != "yd³"@.len());
            }
            assert("µL"@ != "cup"@) by {
                assert("µL"@.len() != "cup"@.len());
            }
            assert("µL"@ != "fl oz"@) by {
                assert("µL"@.len() != "fl oz"@.len());
            }
            assert("µL"@ != "fl oz (UK)"@) by {
                assert("µL"@.len() != "fl oz (UK)"@.len());
            }
            assert("µL"@ != "gal (UK)"@) by {
                assert("µL"@.len() != "gal (UK)"@.len());
            }
            assert("µL"@ != "gal"@) by {
                assert("µL"@.len() != "gal"@.len());
            }
            assert("µL"@ != "gi (UK)"@) by {
                assert("µL"@.len() != "gi (UK)"@.len());
            }
            assert("µL"@ != "gi"@) by {
                assert("µL"@[0] != "gi"@[0]);
            }
            assert("µL"@ != "pk"@) by {
                assert("µL"@[0] != "pk"@[0]);
            }
            assert("µL"@ != "dry pt"@) by {
                assert("µL"@.len() != "dry pt"@.len());
            }
            assert("µL"@ != "liq pt"@) by {
                assert("µL"@.len() != "liq pt"@.len());
            }
            assert("µL"@ != "dry qt"@) by {
                assert("µL"@.len() != "dry qt"@.len());
            }
            assert("µL"@ != "liq qt"@) by {
                assert("µL"@.len() != "liq qt"@.len());
            }
            assert("µL"@ != "tbsp"@) by {
                assert("µL"@.len() != "tbsp"@.len());
            }
            assert("µL"@ != "tsp"@) by {
                assert("µL"@.len() != "tsp"@.len());
            }
            assert("µL"@ != "m³"@) by {
                assert("µL"@[0] != "m³"@[0]);
            }
            assert("µL"@.subrange("µL"@.len() - 2, "µL"@.len() as int) =~= "µL"@);
            assert("µL"@.subrange("µL"@.len() - 1, "µL"@.len() as int) =~= "L"@);
            assert("µL"@.subrange(0, "µL"@.len() - 1) =~= "µ"@);
            assert("µ"@ != "T"@) by {
                assert("µ"@[0] != "T"@[0]);
            }
            assert("µ"@ != "G"@) by {
                assert("µ"@[0] != "G"@[0]);
            }
            assert("µ"@ != "M"@) by {
                assert("µ"@[0] != "M"@[0]);
            }
            assert("µ"@ != "k"@) by {
                assert("µ"@[0] != "k"@[0]);
            }
            assert("µ"@ != "h"@) by {
                assert("µ"@[0] != "h"@[0]);
            }
            assert("µ"@ != "da"@) by {
                assert("µ"@.len() != "da"@.len());
            }
            assert("µ"@ != ""@) by {
                assert("µ"@.len() != ""@.len());
            }
            assert("µ"@ != "d"@) by {
                assert("µ"@[0] != "d"@[0]);
            }
            assert("µ"@ != "c"@) by {
                assert("µ"@[0] != "c"@[0]);
            }
            assert("µ"@ != "m"@) by {
                assert("µ"@[0] != "m"@[0]);
            }
            assert(si_prefix_name("µ"@) == Some("micro"@));
            assert(""@ + "micro"@ + "liter"@ =~= "microliter"@);
            assert(volume_symbol_name("µL"@) == Some("microliter"@));
        },
        VolumeUnit::Nanoliter => {
            assert("nL"@ != "ac · ft"@) by {
                assert("nL"@.len() != "ac · ft"@.len());
            }
            assert("nL"@ != "bbl"@) by {
                assert("nL"@.len() != "bbl"@.len());
            }
            assert("nL"@ != "bu"@) by {
                assert("nL"@[0] != "bu"@[0]);
            }
            assert("nL"@ != "cords"@) by {
                assert("nL"@.len() != "cords"@.len());
            }
            assert("nL"@ != "ft³"@) by {
                assert("nL"@.len() != "ft³"@.len());
            }
            assert("nL"@ != "in³"@) by {
                assert("nL"@.len() != "in³"@.len());
            }
            assert("nL"@ != "mi³"@) by {
                assert("nL"@.len() != "mi³"@.len());
            }
            assert("nL"@ != "yd³"@) by {
                assert("nL"@.len() != "yd³"@.len());
            }
            assert("nL"@ != "cup"@) by {
                assert("nL"@.len() != "cup"@.len());
            }
            assert("nL"@ != "fl oz"@) by {
                assert("nL"@.len() != "fl oz"@.len());
            }
            assert("nL"@ != "fl oz (UK)"@) by {
                assert("nL"@.len() != "fl oz (UK)"@.len());
            }
            assert("nL"@ != "gal (UK)"@) by {
                assert("nL"@.len() != "gal (UK)"@.len());
            }
            assert("nL"@ != "gal"@) by {
                assert("nL"@.len() != "gal"@.len());
            }
            assert("nL"@ != "gi (UK)"@) by {
                assert("nL"@.len() != "gi (UK)"@.len());
            }
            assert("nL"@ != "gi"@) by {
                assert("nL"@[0] != "gi"@[0]);
            }
            assert("nL"@ != "pk"@) by {
                assert("nL"@[0] != "pk"@[0]);
            }
            assert("nL"@ != "dry pt"@) by {
                assert("nL"@.len() != "dry pt"@.len());
            }
            assert("nL"@ != "liq pt"@) by {
                assert("nL"@.len() != "liq pt"@.len());
            }
            assert("nL"@ != "dry qt"@) by {
                assert("nL"@.len() != "dry qt"@.len());
            }
            assert("nL"@ != "liq qt"@) by {
                assert("nL"@.len() != "liq qt"@.len());
            }
            assert("nL"@ != "tbsp"@) by {
                assert("nL"@.len() != "tbsp"@.len());
            }
            assert("nL"@ != "tsp"@) by {
                assert("nL"@.len() != "tsp"@.len());
            }
            assert("nL"@ != "m³"@) by {
                assert("nL"@[0] != "m³"@[0]);
            }
            assert("nL"@.subrange("nL"@.len() - 2, "nL"@.len() as int) =~= "nL"@);
            assert("nL"@.subrange("nL"@.len() - 1, "nL"@.len() as int) =~= "L"@);
            assert("nL"@.subrange(0, "nL"@.len() - 1) =~= "n"@);
            assert("n"@ != "T"@) by {
                assert("n"@[0] != "T"@[0]);
            }
            assert("n"@ != "G"@) by {
                assert("n"@[0] != "G"@[0]);
            }
            assert("n"@ != "M"@) by {
                assert("n"@[0] != "M"@[0]);
            }
            assert("n"@ != "k"@) by {
                assert("n"@[0] != "k"@[0]);
            }
            assert("n"@ != "h"@) by {
                assert("n"@[0] != "h"@[0]);
            }
            assert("n"@ != "da"@) by {
                assert("n"@.len() != "da"@.len());
            }
            assert("n"@ != ""@) by {
                assert("n"@.len() != ""@.len());
            }
            assert("n"@ != "d"@) by {
                assert("n"@[0] != "d"@[0]);
            }
            assert("n"@ != "c"@) by {
                assert("n"@[0] != "c"@[0]);
            }
            assert("n"@ != "m"@) by {
                assert("n"@[0] != "m"@[0]);
            }
            assert("n"@ != "µ"@) by {
                assert("n"@[0] != "µ"@[0]);
            }
            assert(si_prefix_name("n"@) == Some("nano"@));
            assert(""@ + "nano"@ + "liter"@ =~= "nanoliter"@);
            assert(volume_symbol_name("nL"@) == Some("nanoliter"@));
        },
        VolumeUnit::Picoliter => {
            assert("pL"@ != "ac · ft"@) by {
                assert("pL"@.len() != "ac · ft"@.len());
            }
            assert("pL"@ != "bbl"@) by {
                assert("pL"@.len() != "bbl"@.len());
            }
            assert("pL"@ != "bu"@) by {
                assert("pL"@[0] != "bu"@[0]);
            }
            assert("pL"@ != "cords"@) by {
                assert("pL"@.len() != "cords"@.len());
            }
            assert("pL"@ != "ft³"@) by {
                assert("pL"@.len() != "ft³"@.len());
            }
            assert("pL"@ != "in³"@) by {
                assert("pL"@.len() != "in³"@.len());
            }
            assert("pL"@ != "mi³"@) by {
                assert("pL"@.len() != "mi³"@.len());
            }
            assert("pL"@ != "yd³"@) by {
                assert("pL"@.len() != "yd³"@.len());
            }
            assert("pL"@ != "cup"@) by {
                assert("pL"@.len() != "cup"@.len());
            }
            assert("pL"@ != "fl oz"@) by {
                assert("pL"@.len() != "fl oz"@.len());
            }
            assert("pL"@ != "fl oz (UK)"@) by {
                assert("pL"@.len() != "fl oz (UK)"@.len());
            }
            assert("pL"@ != "gal (UK)"@) by {
                assert("pL"@.len() != "gal (UK)"@.len());
            }
            assert("pL"@ != "gal"@) by {
                assert("pL"@.len() != "gal"@.len());
            }
            assert("pL"@ != "gi (UK)"@) by {
                assert("pL"@.len() != "gi (UK)"@.len());
            }
            assert("pL"@ != "gi"@) by {
                assert("pL"@[0] != "gi"@[0]);
            }
            assert("pL"@ != "pk"@) by {
                assert("pL"@[1] != "pk"@[1]);
            }
            assert("pL"@ != "dry pt"@) by {
                assert("pL"@.len() != "dry pt"@.len());
            }
            assert("pL"@ != "liq pt"@) by {
                assert("pL"@.len() != "liq pt"@.len());
            }
            assert("pL"@ != "dry qt"@) by {
                assert("pL"@.len() != "dry qt"@.len());
            }
            assert("pL"@ != "liq qt"@) by {
                assert("pL"@.len() != "liq qt"@.len());
            }
            assert("pL"@ != "tbsp"@) by {
                assert("pL"@.len() != "tbsp"@.len());
            }
            assert("pL"@ != "tsp"@) by {
                assert("pL"@.len() != "tsp"@.len());
            }
            assert("pL"@ != "m³"@) by {
                assert("pL"@[0] != "m³"@[0]);
            }
            assert("pL"@.subrange("pL"@.len() - 2, "pL"@.len() as int) =~= "pL"@);
            assert("pL"@.subrange("pL"@.len() - 1, "pL"@.len() as int) =~= "L"@);
            assert("pL"@.subrange(0, "pL"@.len() - 1) =~= "p"@);
            assert("p"@ != "T"@) by {
                assert("p"@[0] != "T"@[0]);
            }
            assert("p"@ != "G"@) by {
                assert("p"@[0] != "G"@[0]);
            }
            assert("p"@ != "M"@) by {
                assert("p"@[0] != "M"@[0]);
            }
            assert("p"@ != "k"@) by {
                assert("p"@[0] != "k"@[0]);
            }
            assert("p"@ != "h"@) by {
                assert("p"@[0] != "h"@[0]);
            }
            assert("p"@ != "da"@) by {
                assert("p"@.len() != "da"@.len());
            }
            assert("p"@ != ""@) by {
                assert("p"@.len() != ""@.len());
            }
            assert("p"@ != "d"@) by {
                assert("p"@[0] != "d"@[0]);
            }
            assert("p"@ != "c"@) by {
                assert("p"@[0] != "c"@[0]);
            }
            assert("p"@ != "m"@) by {
                assert("p"@[0] != "m"@[0]);
            }
            assert("p"@ != "µ"@) by {
                assert("p"@[0] != "µ"@[0]);
            }
            assert("p"@ != "n"@) by {
                assert("p"@[0] != "n"@[0]);
            }
            assert(si_prefix_name("p"@) == Some("pico"@));
            assert(""@ + "pico"@ + "liter"@ =~= "picoliter"@);
            assert(volume_symbol_name("pL"@) == Some("picoliter"@));
        },
        VolumeUnit::Peck => {
            assert("pk"@ != "ac · ft"@) by {
                assert("pk"@.len() != "ac · ft"@.len());
            }
            assert("pk"@ != "bbl"@) by {
                assert("pk"@.len() != "bbl"@.len());
            }
            assert("pk"@ != "bu"@) by {
                assert("pk"@[0] != "bu"@[0]);
            }
            assert("pk"@ != "cords"@) by {
                assert("pk"@.len() != "cords"@.len());
            }
            assert("pk"@ != "ft³"@) by {
                assert("pk"@.len() != "ft³"@.len());
            }
            assert("pk"@ != "in³"@) by {
                assert("pk"@.len() != "in³"@.len());
            }
            assert("pk"@ != "mi³"@) by {
                assert("pk"@.len() != "mi³"@.len());
            }
            assert("pk"@ != "yd³"@) by {
                assert("pk"@.len() != "yd³"@.len());
            }
            assert("pk"@ != "cup"@) by {
                assert("pk"@.len() != "cup"@.len());
            }
            assert("pk"@ != "fl oz"@) by {
                assert("pk"@.len() != "fl oz"@.len());
            }
            assert("pk"@ != "fl oz (UK)"@) by {
                assert("pk"@.len() != "fl oz (UK)"@.len());
            }
            assert("pk"@ != "gal (UK)"@) by {
                assert("pk"@.len() != "gal (UK)"@.len());
            }
            assert("pk"@ != "gal"@) by {
                assert("pk"@.len() != "gal"@.len());
            }
            assert("pk"@ != "gi (UK)"@) by {
                assert("pk"@.len() != "gi (UK)"@.len());
            }
            assert("pk"@ != "gi"@) by {
                assert("pk"@[0] != "gi"@[0]);
            }
            assert(volume_symbol_name("pk"@) == Some("peck"@));
        },
        VolumeUnit::PintDry => {
            assert("dry pt"@ != "ac · ft"@) by {
                assert("dry pt"@.len() != "ac · ft"@.len());
            }
            assert("dry pt"@ != "bbl"@) by {
                assert("dry pt"@.len() != "bbl"@.len());
            }
            assert("dry pt"@ != "bu"@) by {
                assert("dry pt"@.len() != "bu"@.len());
            }
            assert("dry pt"@ != "cords"@) by {
                assert("dry pt"@.len() != "cords"@.len());
            }
            assert("dry pt"@ != "ft³"@) by {
                assert("dry pt"@.len() != "ft³"@.len());
            }
            assert("dry pt"@ != "in³"@) by {
                assert("dry pt"@.len() != "in³"@.len());
            }
            assert("dry pt"@ != "mi³"@) by {
                assert("dry pt"@.len() != "mi³"@.len());
            }
            assert("dry pt"@ != "yd³"@) by {
                assert("dry pt"@.len() != "yd³"@.len());
            }
            assert("dry pt"@ != "cup"@) by {
                assert("dry pt"@.len() != "cup"@.len());
            }
            assert("dry pt"@ != "fl oz"@) by {
                assert("dry pt"@.len() != "fl oz"@.len());
            }
            assert("dry pt"@ != "fl oz (UK)"@) by {
                assert("dry pt"@.len() != "fl oz (UK)"@.len());
            }
            assert("dry pt"@ != "gal (UK)"@) by {
                assert("dry pt"@.len() != "gal (UK)"@.len());
            }
            assert("dry pt"@ != "gal"@) by {
                assert("dry pt"@.len() != "gal"@.len());
            }
            assert("dry pt"@ != "gi (UK)"@) by {
                assert("dry pt"@.len() != "gi (UK)"@.len());
            }
            assert("dry pt"@ != "gi"@) by {
                assert("dry pt"@.len() != "gi"@.len());
            }
            assert("dry pt"@ != "pk"@) by {
                assert("dry pt"@.len() != "pk"@.len());
            }
            assert(volume_symbol_name("dry pt"@) == Some("dry pint"@));
        },
        VolumeUnit::PintLiquid => {
            assert("liq pt"@ != "ac · ft"@) by {
                assert("liq pt"@.len() != "ac · ft"@.len());
            }
            assert("liq pt"@ != "bbl"@) by {
                assert("liq pt"@.len() != "bbl"@.len());
            }
            assert("liq pt"@ != "bu"@) by {
                assert("liq pt"@.len() != "bu"@.len());
            }
            assert("liq pt"@ != "cords"@) by {
                assert("liq pt"@.len() != "cords"@.len());
            }
            assert("liq pt"@ != "ft³"@) by {
                assert("liq pt"@.len() != "ft³"@.len());
            }
            assert("liq pt"@ != "in³"@) by {
                assert("liq pt"@.len() != "in³"@.len());
            }
            assert("liq pt"@ != "mi³"@) by {
                assert("liq pt"@.len() != "mi³"@.len());
            }
            assert("liq pt"@ != "yd³"@) by {
                assert("liq pt"@.len() != "yd³"@.len());
            }
            assert("liq pt"@ != "cup"@) by {
                assert("liq pt"@.len() != "cup"@.len());
            }
            assert("liq pt"@ != "fl oz"@) by {
                assert("liq pt"@.len() != "fl oz"@.len());
            }
            assert("liq pt"@ != "fl oz (UK)"@) by {
                assert("liq pt"@.len() != "fl oz (UK)"@.len());
            }
            assert("liq pt"@ != "gal (UK)"@) by {
                assert("liq pt"@.len() != "gal (UK)"@.len());
            }
            assert("liq pt"@ != "gal"@) by {
                assert("liq pt"@.len() != "gal"@.len());
            }
            assert("liq pt"@ != "gi (UK)"@) by {
                assert("liq pt"@.len() != "gi (UK)"@.len());
            }
            assert("liq pt"@ != "gi"@) by {
                assert("liq pt"@.len() != "gi"@.len());
            }
            assert("liq pt"@ != "pk"@) by {
                assert("liq pt"@.len() != "pk"@.len());
            }
            assert("liq pt"@ != "dry pt"@) by {
                assert("liq pt"@[0] != "dry pt"@[0]);
            }
            assert(volume_symbol_name("liq pt"@) == Some("liquid pint"@));
        },
        VolumeUnit::QuartDry => {
            assert("dry qt"@ != "ac · ft"@) by {
                assert("dry qt"@.len() != "ac · ft"@.len());
            }
            assert("dry qt"@ != "bbl"@) by {
                assert("dry qt"@.len() != "bbl"@.len());
            }
            assert("dry qt"@ != "bu"@) by {
                assert("dry qt"@.len() != "bu"@.len());
            }
            assert("dry qt"@ != "cords"@) by {
                assert("dry qt"@.len() != "cords"@.len());
            }
            assert("dry qt"@ != "ft³"@) by {
                assert("dry qt"@.len() != "ft³"@.len());
            }
            assert("dry qt"@ != "in³"@) by {
                assert("dry qt"@.len() != "in³"@.len());
            }
            assert("dry qt"@ != "mi³"@) by {
                assert("dry qt"@.len() != "mi³"@.len());
            }
            assert("dry qt"@ != "yd³"@) by {
                assert("dry qt"@.len() != "yd³"@.len());
            }
            assert("dry qt"@ != "cup"@) by {
                assert("dry qt"@.len() != "cup"@.len());
            }
            assert("dry qt"@ != "fl oz"@) by {
                assert("dry qt"@.len() != "fl oz"@.len());
            }
            assert("dry qt"@ != "fl oz (UK)"@) by {
                assert("dry qt"@.len() != "fl oz (UK)"@.len());
            }
            assert("dry qt"@ != "gal (UK)"@) by {
                assert("dry qt"@.len() != "gal (UK)"@.len());
            }
            assert("dry qt"@ != "gal"@) by {
                assert("dry qt"@.len() != "gal"@.len());
            }
            assert("dry qt"@ != "gi (UK)"@) by {
                assert("dry qt"@.len() != "gi (UK)"@.len());
            }
            assert("dry qt"@ != "gi"@) by {
                assert("dry qt"@.len() != "gi"@.len());
            }
            assert("dry qt"@ != "pk"@) by {
                assert("dry qt"@.len() != "pk"@.len());
            }
            assert("dry qt"@ != "dry pt"@) by {
                assert("dry qt"@[4] != "dry pt"@[4]);
            }
            assert("dry qt"@ != "liq pt"@) by {
                assert("dry qt"@[0] != "liq pt"@[0]);
            }
            assert(volume_symbol_name("dry qt"@) == Some("dry quart"@));
        },
        VolumeUnit::QuartLiquid => {
            assert("liq qt"@ != "ac · ft"@) by {
                assert("liq qt"@.len() != "ac · ft"@.len());
            }
            assert("liq qt"@ != "bbl"@) by {
                assert("liq qt"@.len() != "bbl"@.len());
            }
            assert("liq qt"@ != "bu"@) by {
                assert("liq qt"@.len() != "bu"@.len());
            }
            assert("liq qt"@ != "cords"@) by {
                assert("liq qt"@.len() != "cords"@.len());
            }
            assert("liq qt"@ != "ft³"@) by {
                assert("liq qt"@.len() != "ft³"@.len());
            }
            assert("liq qt"@ != "in³"@) by {
                assert("liq qt"@.len() != "in³"@.len());
            }
            assert("liq qt"@ != "mi³"@) by {
                assert("liq qt"@.len() != "mi³"@.len());
            }
            assert("liq qt"@ != "yd³"@) by {
                assert("liq qt"@.len() != "yd³"@.len());
            }
            assert("liq qt"@ != "cup"@) by {
                assert("liq qt"@.len() != "cup"@.len());
            }
            assert("liq qt"@ != "fl oz"@) by {
                assert("liq qt"@.len() != "fl oz"@.len());
            }
            assert("liq qt"@ != "fl oz (UK)"@) by {
                assert("liq qt"@.len() != "fl oz (UK)"@.len());
            }
            assert("liq qt"@ != "gal (UK)"@) by {
                assert("liq qt"@.len() != "gal (UK)"@.len());
            }
            assert("liq qt"@ != "gal"@) by {
                assert("liq qt"@.len() != "gal"@.len());
            }
            assert("liq qt"@ != "gi (UK)"@) by {
                assert("liq qt"@.len() != "gi (UK)"@.len());
            }
            assert("liq qt"@ != "gi"@) by {
                assert("liq qt"@.len() != "gi"@.len());
            }
            assert("liq qt"@ != "pk"@) by {
                assert("liq qt"@.len() != "pk"@.len());
            }
            assert("liq qt"@ != "dry pt"@) by {
                assert("liq qt"@[0] != "dry pt"@[0]);
            }
            assert("liq qt"@ != "liq pt"@) by {
                assert("liq qt"@[4] != "liq pt"@[4]);
            }
            assert("liq qt"@ != "dry qt"@) by {
                assert("liq qt"@[0] != "dry qt"@[0]);
            }
            assert(volume_symbol_name("liq qt"@) == Some("liquid quart"@));
        },
        VolumeUnit::Tablespoon => {
            assert("tbsp"@ != "ac · ft"@) by {
                assert("tbsp"@.len() != "ac · ft"@.len());
            }
            assert("tbsp"@ != "bbl"@) by {
                assert("tbsp"@.len() != "bbl"@.len());
            }
            assert("tbsp"@ != "bu"@) by {
                assert("tbsp"@.len() != "bu"@.len());
            }
            assert("tbsp"@ != "cords"@) by {
                assert("tbsp"@.len() != "cords"@.len());
            }
            assert("tbsp"@ != "ft³"@) by {
                assert("tbsp"@.len() != "ft³"@.len());
            }
            assert("tbsp"@ != "in³"@) by {
                assert("tbsp"@.len() != "in³"@.len());
            }
            assert("tbsp"@ != "mi³"@) by {
                assert("tbsp"@.len() != "mi³"@.len());
            }
            assert("tbsp"@ != "yd³"@) by {
                assert("tbsp"@.len() != "yd³"@.len());
            }
            assert("tbsp"@ != "cup"@) by {
                assert("tbsp"@.len() != "cup"@.len());
            }
            assert("tbsp"@ != "fl oz"@) by {
                assert("tbsp"@.len() != "fl oz"@.len());
            }
            assert("tbsp"@ != "fl oz (UK)"@) by {
                assert("tbsp"@.len() != "fl oz (UK)"@.len());
            }
            assert("tbsp"@ != "gal (UK)"@) by {
                assert("tbsp"@.len() != "gal (UK)"@.len());
            }
            assert("tbsp"@ != "gal"@) by {
                assert("tbsp"@.len() != "gal"@.len());
            }
            assert("tbsp"@ != "gi (UK)"@) by {
                assert("tbsp"@.len() != "gi (UK)"@.len());
            }
            assert("tbsp"@ != "gi"@) by {
                assert("tbsp"@.len() != "gi"@.len());
            }
            assert("tbsp"@ != "pk"@) by {
                assert("tbsp"@.len() != "pk"@.len());
            }
            assert("tbsp"@ != "dry pt"@) by {
                assert("tbsp"@.len() != "dry pt"@.len());
            }
            assert("tbsp"@ != "liq pt"@) by {
                assert("tbsp"@.len() != "liq pt"@.len());
            }
            assert("tbsp"@ != "dry qt"@) by {
                assert("tbsp"@.len() != "dry qt"@.len());
            }
            assert("tbsp"@ != "liq qt"@) by {
                assert("tbsp"@.len() != "liq qt"@.len());
            }
            assert(volume_symbol_name("tbsp"@) == Some("tablespoon"@));
        },
        VolumeUnit::Teaspoon => {
            assert("tsp"@ != "ac · ft"@) by {
                assert("tsp"@.len() != "ac · ft"@.len());
            }
            assert("tsp"@ != "bbl"@) by {
                assert("tsp"@[0] != "bbl"@[0]);
            }
            assert("tsp"@ != "bu"@) by {
                assert("tsp"@.len() != "bu"@.len());
            }
            assert("tsp"@ != "cords"@) by {
                assert("tsp"@.len() != "cords"@.len());
            }
            assert("tsp"@ != "ft³"@) by {
                assert("tsp"@[0] != "ft³"@[0]);
            }
            assert("tsp"@ != "in³"@) by {
                assert("tsp"@[0] != "in³"@[0]);
            }
            assert("tsp"@ != "mi³"@) by {
                assert("tsp"@[0] != "mi³"@[0]);
            }
            assert("tsp"@ != "yd³"@) by {
                assert("tsp"@[0] != "yd³"@[0]);
            }
            assert("tsp"@ != "cup"@) by {
                assert("tsp"@[0] != "cup"@[0]);
            }
            assert("tsp"@ != "fl oz"@) by {
                assert("tsp"@.len() != "fl oz"@.len());
            }
            assert("tsp"@ != "fl oz (UK)"@) by {
                assert("tsp"@.len() != "fl oz (UK)"@.len());
            }
            assert("tsp"@ != "gal (UK)"@) by {
                assert("tsp"@.len() != "gal (UK)"@.len());
            }
            assert("tsp"@ != "gal"@) by {
                assert("tsp"@[0] != "gal"@[0]);
            }
            assert("tsp"@ != "gi (UK)"@) by {
                assert("tsp"@.len() != "gi (UK)"@.len());
            }
            assert("tsp"@ != "gi"@) by {
                assert("tsp"@.len() != "gi"@.len());
            }
            assert("tsp"@ != "pk"@) by {
                assert("tsp"@.len() != "pk"@.len());
            }
            assert("tsp"@ != "dry pt"@) by {
                assert("tsp"@.len() != "dry pt"@.len());
            }
            assert("tsp"@ != "liq pt"@) by {
                assert("tsp"@.len() != "liq pt"@.len());
            }
            assert("tsp"@ != "dry qt"@) by {
                assert("tsp"@.len() != "dry qt"@.len());
            }
            assert("tsp"@ != "liq qt"@) by {
                assert("tsp"@.len() != "liq qt"@.len());
            }
            assert("tsp"@ != "tbsp"@) by {
                assert("tsp"@.len() != "tbsp"@.len());
            }
            assert(volume_symbol_name("tsp"@) == Some("teaspoon"@));
        },
    }
}

/// Reading a volume abbreviation gives the unit that the symbol stands for:
/// whatever text is read as a volume unit names that unit by its SI or NIST
/// symbol, so no two units are mistaken for each other.
pub proof fn lemma_volume_abbreviations_name_their_units(s: Seq<char>, u: VolumeUnit)
    requires
        volume_unit_of(s) == Ok::<VolumeUnit, UnitError>(u),
    ensures
        volume_symbol_name(s) == Some(u.spec_singular()),
{
    assert(s == u.spec_abbreviation());
    lemma_volume_abbreviation_is_symbol(u);
}

/// Reading the abbreviation of a volume unit gives the unit back.
pub proof fn lemma_volume_unit_abbreviation_round_trip(u: VolumeUnit)
    ensures
        volume_unit_of(u.spec_abbreviation()) == Ok::<VolumeUnit, UnitError>(u),
{
    reveal_strlit("Tm³");
    assert("Tm³"@.len() == 3);
    assert("Tm³"@[0] == 'T');
    assert("Tm³"@[1] == 'm');
    assert("Tm³"@[2] == '³');
    reveal_strlit("Gm³");
    assert("Gm³"@.len() == 3);
    assert("Gm³"@[0] == 'G');
    assert("Gm³"@[1] == 'm');
    assert("Gm³"@[2] == '³');
    reveal_strlit("Mm³");
    assert("Mm³"@.len() == 3);
    assert("Mm³"@[0] == 'M');
    assert("Mm³"@[1] == 'm');
    assert("Mm³"@[2] == '³');
    reveal_strlit("km³");
    assert("km³"@.len() == 3);
    assert("km³"@[0] == 'k');
    assert("km³"@[1] == 'm');
    assert("km³"@[2] == '³');
    reveal_strlit("hm³");
    assert("hm³"@.len() == 3);
    assert("hm³"@[0] == 'h');
    assert("hm³"@[1] == 'm');
    assert("hm³"@[2] == '³');
    reveal_strlit("dam³");
    assert("dam³"@.len() == 4);
    assert("dam³"@[0] == 'd');
    assert("dam³"@[1] == 'a');
    assert("dam³"@[2] == 'm');
    assert("dam³"@[3] == '³');
    reveal_strlit("m³");
    assert("m³"@.len() == 2);
    assert("m³"@[0] == 'm');
    assert("m³"@[1] == '³');
    reveal_strlit("dm³");
    assert("dm³"@.len() == 3);
    assert("dm³"@[0] == 'd');
    assert("dm³"@[1] == 'm');
    assert("dm³"@[2] == '³');
    reveal_strlit("cm³");
    assert("cm³"@.len() == 3);
    assert("cm³"@[0] == 'c');
    assert("cm³"@[1] == 'm');
    assert("cm³"@[2] == '³');
    reveal_strlit("mm³");
    assert("mm³"@.len() == 3);
    assert("mm³"@[0] == 'm');
    assert("mm³"@[1] == 'm');
    assert("mm³"@[2] == '³');
    reveal_strlit("µm³");
    assert("µm³"@.len() == 3);
    assert("µm³"@[0] == 'µ');
    assert("µm³"@[1] == 'm');
    assert("µm³"@[2] == '³');
    reveal_strlit("nm³");
    assert("nm³"@.len() == 3);
    assert("nm³"@[0] == 'n');
    assert("nm³"@[1] == 'm');
    assert("nm³"@[2] == '³');
    reveal_strlit("pm³");
    assert("pm³"@.len() == 3);
    assert("pm³"@[0] == 'p');
    assert("pm³"@[1] == 'm');
    assert("pm³"@[2] == '³');
    reveal_strlit("ac · ft");
    assert("ac · ft"@.len() == 7);
    assert("ac · ft"@[0] == 'a');
    assert("ac · ft"@[1] == 'c');
    assert("ac · ft"@[2] == ' ');
    assert("ac · ft"@[3] == '·');
    assert("ac · ft"@[4] == ' ');
    assert("ac · ft"@[5] == 'f');
    assert("ac · ft"@[6] == 't');
    reveal_strlit("bbl");
    assert("bbl"@.len() == 3);
    assert("bbl"@[0] == 'b');
    assert("bbl"@[1] == 'b');
    assert("bbl"@[2] == 'l');
    reveal_strlit("bu");
    assert("bu"@.len() == 2);
    assert("bu"@[0] == 'b');
    assert("bu"@[1] == 'u');
    reveal_strlit("cords");
    assert("cords"@.len() == 5);
    assert("cords"@[0] == 'c');
    assert("cords"@[1] == 'o');
    assert("cords"@[2] == 'r');
    assert("cords"@[3] == 'd');
    assert("cords"@[4] == 's');
    reveal_strlit("ft³");
    assert("ft³"@.len() == 3);
    assert("ft³"@[0] == 'f');
    assert("ft³"@[1] == 't');
    assert("ft³"@[2] == '³');
    reveal_strlit("in³");
    assert("in³"@.len() == 3);
    assert("in³"@[0] == 'i');
    assert("in³"@[1] == 'n');
    assert("in³"@[2] == '³');
    reveal_strlit("mi³");
    assert("mi³"@.len() == 3);
    assert("mi³"@[0] == 'm');
    assert("mi³"@[1] == 'i');
    assert("mi³"@[2] == '³');
    reveal_strlit("yd³");
    assert("yd³"@.len() == 3);
    assert("yd³"@[0] == 'y');
    assert("yd³"@[1] == 'd');
    assert("yd³"@[2] == '³');
    reveal_strlit("cup");
    assert("cup"@.len() == 3);
    assert("cup"@[0] == 'c');
    assert("cup"@[1] == 'u');
    assert("cup"@[2] == 'p');
    reveal_strlit("fl oz");
    assert("fl oz"@.len() == 5);
    assert("fl oz"@[0] == 'f');
    assert("fl oz"@[1] == 'l');
    assert("fl oz"@[2] == ' ');
    assert("fl oz"@[3] == 'o');
    assert("fl oz"@[4] == 'z');
    reveal_strlit("fl oz (UK)");
    assert("fl oz (UK)"@.len() == 10);
    assert("fl oz (UK)"@[0] == 'f');
    assert("fl oz (UK)"@[1] == 'l');
    assert("fl oz (UK)"@[2] == ' ');
    assert("fl oz (UK)"@[3] == 'o');
    assert("fl oz (UK)"@[4] == 'z');
    assert("fl oz (UK)"@[5] == ' ');
    assert("fl oz (UK)"@[6] == '(');
    assert("fl oz (UK)"@[7] == 'U');
    assert("fl oz (UK)"@[8] == 'K');
    assert("fl oz (UK)"@[9] == ')');
    reveal_strlit("gal (UK)");
    assert("gal (UK)"@.len() == 8);
    assert("gal (UK)"@[0] == 'g');
    assert("gal (UK)"@[1] == 'a');
    assert("gal (UK)"@[2] == 'l');
    assert("gal (UK)"@[3] == ' ');
    assert("gal (UK)"@[4] == '(');
    assert("gal (UK)"@[5] == 'U');
    assert("gal (UK)"@[6] == 'K');
    assert("gal (UK)"@[7] == ')');
    reveal_strlit("gal");
    assert("gal"@.len() == 3);
    assert("gal"@[0] == 'g');
    assert("gal"@[1] == 'a');
    assert("gal"@[2] == 'l');
    reveal_strlit("gi (UK)");
    assert("gi (UK)"@.len() == 7);
    assert("gi (UK)"@[0] == 'g');
    assert("gi (UK)"@[1] == 'i');
    assert("gi (UK)"@[2] == ' ');
    assert("gi (UK)"@[3] == '(');
    assert("gi (UK)"@[4] == 'U');
    assert("gi (UK)"@[5] == 'K');
    assert("gi (UK)"@[6] == ')');
    reveal_strlit("gi");
    assert("gi"@.len() == 2);
    assert("gi"@[0] == 'g');
    assert("gi"@[1] == 'i');
    reveal_strlit("TL");
    assert("TL"@.len() == 2);
    assert("TL"@[0] == 'T');
    assert("TL"@[1] == 'L');
    reveal_strlit("GL");
    assert("GL"@.len() == 2);
    assert("GL"@[0] == 'G');
    assert("GL"@[1] == 'L');
    reveal_strlit("ML");
    assert("ML"@.len() == 2);
    assert("ML"@[0] == 'M');
    assert("ML"@[1] == 'L');
    reveal_strlit("kL");
    assert("kL"@.len() == 2);
    assert("kL"@[0] == 'k');
    assert("kL"@[1] == 'L');
    reveal_strlit("hL");
    assert("hL"@.len() == 2);
    assert("hL"@[0] == 'h');
    assert("hL"@[1] == 'L');
    reveal_strlit("daL");
    assert("daL"@.len() == 3);
    assert("daL"@[0] == 'd');
    assert("daL"@[1] == 'a');
    assert("daL"@[2] == 'L');
    reveal_strlit("L");
    assert("L"@.len() == 1);
    assert("L"@[0] == 'L');
    reveal_strlit("dL");
    assert("dL"@.len() == 2);
    assert("dL"@[0] == 'd');
    assert("dL"@[1] == 'L');
    reveal_strlit("cL");
    assert("cL"@.len() == 2);
    assert("cL"@[0] == 'c');
    assert("cL"@[1] == 'L');
    reveal_strlit("mL");
    assert("mL"@.len() == 2);
    assert("mL"@[0] == 'm');
    assert("mL"@[1] == 'L');
    reveal_strlit("µL");
    assert("µL"@.len() == 2);
    assert("µL"@[0] == 'µ');
    assert("µL"@[1] == 'L');
    reveal_strlit("nL");
    assert("nL"@.len() == 2);
    assert("nL"@[0] == 'n');
    assert("nL"@[1] == 'L');
    reveal_strlit("pL");
    assert("pL"@.len() == 2);
    assert("pL"@[0] == 'p');
    assert("pL"@[1] == 'L');
    reveal_strlit("pk");
    assert("pk"@.len() == 2);
    assert("pk"@[0] == 'p');
    assert("pk"@[1] == 'k');
    reveal_strlit("dry pt");
    assert("dry pt"@.len() == 6);
    assert("dry pt"@[0] == 'd');
    assert("dry pt"@[1] == 'r');
    assert("dry pt"@[2] == 'y');
    assert("dry pt"@[3] == ' ');
    assert("dry pt"@[4] == 'p');
    assert("dry pt"@[5] == 't');
    reveal_strlit("liq pt");
    assert("liq pt"@.len() == 6);
    assert("liq pt"@[0] == 'l');
    assert("liq pt"@[1] == 'i');
    assert("liq pt"@[2] == 'q');
    assert("liq pt"@[3] == ' ');
    assert("liq pt"@[4] == 'p');
    assert("liq pt"@[5] == 't');
    reveal_strlit("dry qt");
    assert("dry qt"@.len() == 6);
    assert("dry qt"@[0] == 'd');
    assert("dry qt"@[1] == 'r');
    assert("dry qt"@[2] == 'y');
    assert("dry qt"@[3] == ' ');
    assert("dry qt"@[4] == 'q');
    assert("dry qt"@[5] == 't');
    reveal_strlit("liq qt");
    assert("liq qt"@.len() == 6);
    assert("liq qt"@[0] == 'l');
    assert("liq qt"@[1] == 'i');
    assert("liq qt"@[2] == 'q');
    assert("liq qt"@[3] == ' ');
    assert("liq qt"@[4] == 'q');
    assert("liq qt"@[5] == 't');
    reveal_strlit("tbsp");
    assert("tbsp"@.len() == 4);
    assert("tbsp"@[0] == 't');
    assert("tbsp"@[1] == 'b');
    assert("tbsp"@[2] == 's');
    assert("tbsp"@[3] == 'p');
    reveal_strlit("tsp");
    assert("tsp"@.len() == 3);
    assert("tsp"@[0] == 't');
    assert("tsp"@[1] == 's');
    assert("tsp"@[2] == 'p');
    match u {
        VolumeUnit::CubicTerameter => assert(volume_unit_of("Tm³"@) == Ok::<VolumeUnit, UnitError>(u)),
        VolumeUnit::CubicGigameter => assert(volume_unit_of("Gm³"@) == Ok::<VolumeUnit, UnitError>(u)),
        VolumeUnit::CubicMegameter => assert(volume_unit_of("Mm³"@) == Ok::<VolumeUnit, UnitError>(u)),
        VolumeUnit::CubicKilometer => assert(volume_unit_of("km³"@) == Ok::<VolumeUnit, UnitError>(u)),
        VolumeUnit::CubicHectometer => assert(volume_unit_of("hm³"@) == Ok::<VolumeUnit, UnitError>(u)),
        VolumeUnit::CubicDecameter => assert(volume_unit_of("dam³"@) == Ok::<VolumeUnit, UnitError>(u)),
        VolumeUnit::CubicMeter => assert(volume_unit_of("m³"@) == Ok::<VolumeUnit, UnitError>(u)),
        VolumeUnit::CubicDecimeter => assert(volume_unit_of("dm³"@) == Ok::<VolumeUnit, UnitError>(u)),
        VolumeUnit::CubicCentimeter => assert(volume_unit_of("cm³"@) == Ok::<VolumeUnit, UnitError>(u)),
        VolumeUnit::CubicMillimeter => assert(volume_unit_of("mm³"@) == Ok::<VolumeUnit, UnitError>(u)),
        VolumeUnit::CubicMicrometer => assert(volume_unit_of("µm³"@) == Ok::<VolumeUnit, UnitError>(u)),
        VolumeUnit::CubicNanometer => assert(volume_unit_of("nm³"@) == Ok::<VolumeUnit, UnitError>(u)),
        VolumeUnit::CubicPicometer => assert(volume_unit_of("pm³"@) == Ok::<VolumeUnit, UnitError>(u)),
        VolumeUnit::AcreFoot => assert(volume_unit_of("ac · ft"@) == Ok::<VolumeUnit, UnitError>(u)),
        VolumeUnit::Barrel => assert(volume_unit_of("bbl"@) == Ok::<VolumeUnit, UnitError>(u)),
        VolumeUnit::Bushel => assert(volume_unit_of("bu"@) == Ok::<VolumeUnit, UnitError>(u)),
        VolumeUnit::Cord => assert(volume_unit_of("cords"@) == Ok::<VolumeUnit, UnitError>(u)),
        VolumeUnit::CubicFoot => assert(volume_unit_of("ft³"@) == Ok::<VolumeUnit, UnitError>(u)),
        VolumeUnit::CubicInch => assert(volume_unit_of("in³"@) == Ok::<VolumeUnit, UnitError>(u)),
        VolumeUnit::CubicMile => assert(volume_unit_of("mi³"@) == Ok::<VolumeUnit, UnitError>(u)),
        VolumeUnit::CubicYard => assert(volume_unit_of("yd³"@) == Ok::<VolumeUnit, UnitError>(u)),
        VolumeUnit::Cup => assert(volume_unit_of("cup"@) == Ok::<VolumeUnit, UnitError>(u)),
        VolumeUnit::FluidOunce => assert(volume_unit_of("fl oz"@) == Ok::<VolumeUnit, UnitError>(u)),
        VolumeUnit::FluidOunceImperial => assert(volume_unit_of("fl oz (UK)"@) == Ok::<VolumeUnit, UnitError>(u)),
        VolumeUnit::GallonImperial => assert(volume_unit_of("gal (UK)"@) == Ok::<VolumeUnit, UnitError>(u)),
        VolumeUnit::Gallon => assert(volume_unit_of("gal"@) == Ok::<VolumeUnit, UnitError>(u)),
        VolumeUnit::GillImperial => assert(volume_unit_of("gi (UK)"@) == Ok::<VolumeUnit, UnitError>(u)),
        VolumeUnit::Gill => assert(volume_unit_of("gi"@) == Ok::<VolumeUnit, UnitError>(u)),
        VolumeUnit::Teraliter => assert(volume_unit_of("TL"@) == Ok::<VolumeUnit, UnitError>(u)),
        VolumeUnit::Gigaliter => assert(volume_unit_of("GL"@) == Ok::<VolumeUnit, UnitError>(u)),
        VolumeUnit::Megaliter => assert(volume_unit_of("ML"@) == Ok::<VolumeUnit, UnitError>(u)),
        VolumeUnit::Kiloliter => assert(volume_unit_of("kL"@) == Ok::<VolumeUnit, UnitError>(u)),
        VolumeUnit::Hectoliter => assert(volume_unit_of("hL"@) == Ok::<VolumeUnit, UnitError>(u)),
        VolumeUnit::Decaliter => assert(volume_unit_of("daL"@) == Ok::<VolumeUnit, UnitError>(u)),
        VolumeUnit::Liter => assert(volume_unit_of("L"@) == Ok::<VolumeUnit, UnitError>(u)),
        VolumeUnit::Deciliter => assert(volume_unit_of("dL"@) == Ok::<VolumeUnit, UnitError>(u)),
        VolumeUnit::Centiliter => assert(volume_unit_of("cL"@) == Ok::<VolumeUnit, UnitError>(u)),
        VolumeUnit::Milliliter => assert(volume_unit_of("mL"@) == Ok::<VolumeUnit, UnitError>(u)),
        VolumeUnit::Microliter => assert(volume_unit_of("µL"@) == Ok::<VolumeUnit, UnitError>(u)),
        VolumeUnit::Nanoliter => assert(volume_unit_of("nL"@) == Ok::<VolumeUnit, UnitError>(u)),
        VolumeUnit::Picoliter => assert(volume_unit_of("pL"@) == Ok::<VolumeUnit, UnitError>(u)),
        VolumeUnit::Peck => assert(volume_unit_of("pk"@) == Ok::<VolumeUnit, UnitError>(u)),
        VolumeUnit::PintDry => assert(volume_unit_of("dry pt"@) == Ok::<VolumeUnit, UnitError>(u)),
        VolumeUnit::PintLiquid => assert(volume_unit_of("liq pt"@) == Ok::<VolumeUnit, UnitError>(u)),
        VolumeUnit::QuartDry => assert(volume_unit_of("dry qt"@) == Ok::<VolumeUnit, UnitError>(u)),
        VolumeUnit::QuartLiquid => assert(volume_unit_of("liq qt"@) == Ok::<VolumeUnit, UnitError>(u)),
        VolumeUnit::Tablespoon => assert(volume_unit_of("tbsp"@) == Ok::<VolumeUnit, UnitError>(u)),
        VolumeUnit::Teaspoon => assert(volume_unit_of("tsp"@) == Ok::<VolumeUnit, UnitError>(u)),
    }
}


/// The abbreviations of a listing's entries, in order.
pub open spec fn listed_abbreviations(units: Seq<(String, String)>) -> Seq<Seq<char>> {
    units.map_values(|p: (String, String)| p.1@)
}

/// A section of the unit listing: its heading, and each unit's name and
/// abbreviation.
pub struct UnitSection {
    /// the heading of the section
    pub heading: String,
    /// the name and abbreviation of each unit of the section
    pub units: Vec<(String, String)>,
}

/// The time units in the order they are listed to users.
pub open spec fn time_units_in_order() -> Seq<TimeUnit> {
    seq![TimeUnit::Terasecond, TimeUnit::Gigasecond, TimeUnit::Megasecond, TimeUnit::Kilosecond, TimeUnit::Hectosecond, TimeUnit::Decasecond, TimeUnit::Second, TimeUnit::Decisecond, TimeUnit::Centisecond, TimeUnit::Millisecond, TimeUnit::Microsecond, TimeUnit::Nanosecond, TimeUnit::Picosecond, TimeUnit::Day, TimeUnit::Hour, TimeUnit::Minute, TimeUnit::Year]
}

/// The entries are the time units in the order they are listed, each its
/// name and abbreviation.
pub open spec fn lists_time_units(units: Seq<(String, String)>) -> bool {
    &&& units.len() == time_units_in_order().len()
    &&& forall|i: int| #![trigger units[i]] 0 <= i < units.len() ==> units[i].0@ == time_units_in_order()[i].spec_singular()
        && units[i].1@ == time_units_in_order()[i].spec_abbreviation()
}

/// The time units, each its name and abbreviation, in display order; every
/// time unit is listed, and every abbreviation reads back as one.
fn time_unit_entries() -> (r: Vec<(String, String)>)
    ensures
        lists_time_units(r@),
        forall|i: int| 0 <= i < r@.len() ==> (time_unit_of(#[trigger] r@[i].1@) is Ok),
        forall|u: TimeUnit| #[trigger] listed_abbreviations(r@).contains(u.spec_abbreviation()),
{
    let all = TimeUnit::all();
    let ghost order = time_units_in_order();
    let mut r: Vec<(String, String)> = Vec::new();
    let mut i: usize = 0;
    while i < all.len()
        invariant
            i <= all.len(),
            all@ == order,
            order == time_units_in_order(),
            r@.len() == i,
            forall|k: int| #![trigger r@[k]] 0 <= k < i ==> r@[k].0@ == order[k].spec_singular() && r@[k].1@ == order[k].spec_abbreviation(),
        decreases all.len() - i,
    {
        let u = all[i];
        let ghost old_r = r@;
        let name = String::from_str(u.singular());
        let abbreviation = String::from_str(u.abbreviation());
        r.push((name, abbreviation));
        assert(r@ == old_r.push((name, abbreviation)));
        assert(forall|k: int| 0 <= k < i ==> r@[k] == old_r[k]);
        i += 1;
    }
    proof {
        assert forall|k: int| 0 <= k < r@.len() implies (time_unit_of(#[trigger] r@[k].1@) is Ok) by {
            assert(r@[k].1@ == order[k].spec_abbreviation());
            lemma_time_unit_abbreviation_round_trip(order[k]);
        }
        assert forall|u: TimeUnit| #[trigger] listed_abbreviations(r@).contains(u.spec_abbreviation()) by {
            assert(all@.contains(u));
            let k = choose|k: int| 0 <= k < all@.len() && all@[k] == u;
            assert(r@[k].1@ == u.spec_abbreviation());
            assert(listed_abbreviations(r@)[k] == u.spec_abbreviation());
        }
    }
    r
}

/// The temperature interval units in the order they are listed to users.
pub open spec fn temperature_units_in_order() -> Seq<TemperatureUnit> {
    seq![TemperatureUnit::Terakelvin, TemperatureUnit::Gigakelvin, TemperatureUnit::Megakelvin, TemperatureUnit::Kilokelvin, TemperatureUnit::Hectokelvin, TemperatureUnit::Decakelvin, TemperatureUnit::Kelvin, TemperatureUnit::Decikelvin, TemperatureUnit::Centikelvin, TemperatureUnit::Millikelvin, TemperatureUnit::Microkelvin, TemperatureUnit::Nanokelvin, TemperatureUnit::Picokelvin, TemperatureUnit::DegreeCelsius, TemperatureUnit::DegreeFahrenheit, TemperatureUnit::DegreeRankine]
}

/// The entries are the temperature interval units in the order they are listed, each its
/// name and abbreviation.
pub open spec fn lists_temperature_units(units: Seq<(String, String)>) -> bool {
    &&& units.len() == temperature_units_in_order().len()
    &&& forall|i: int| #![trigger units[i]] 0 <= i < units.len() ==> units[i].0@ == temperature_units_in_order()[i].spec_singular()
        && units[i].1@ == temperature_units_in_order()[i].spec_abbreviation()
}

/// The temperature interval units, each its name and abbreviation, in display order; every
/// temperature interval unit is listed, and every abbreviation reads back as one.
fn temperature_unit_entries() -> (r: Vec<(String, String)>)
    ensures
        lists_temperature_units(r@),
        forall|i: int| 0 <= i < r@.len() ==> (temperature_unit_of(#[trigger] r@[i].1@) is Ok),
        forall|u: TemperatureUnit| #[trigger] listed_abbreviations(r@).contains(u.spec_abbreviation()),
{
    let all = TemperatureUnit::all();
    let ghost order = temperature_units_in_order();
    let mut r: Vec<(String, String)> = Vec::new();
    let mut i: usize = 0;
    while i < all.len()
        invariant
            i <= all.len(),
            all@ == order,
            order == temperature_units_in_order(),
            r@.len() == i,
            forall|k: int| #![trigger r@[k]] 0 <= k < i ==> r@[k].0@ == order[k].spec_singular() && r@[k].1@ == order[k].spec_abbreviation(),
        decreases all.len() - i,
    {
        let u = all[i];
        let ghost old_r = r@;
        let name = String::from_str(u.singular());
        let abbreviation = String::from_str(u.abbreviation());
        r.push((name, abbreviation));
        assert(r@ == old_r.push((name, abbreviation)));
        assert(forall|k: int| 0 <= k < i ==> r@[k] == old_r[k]);
        i += 1;
    }
    proof {
        assert forall|k: int| 0 <= k < r@.len() implies (temperature_unit_of(#[trigger] r@[k].1@) is Ok) by {
            assert(r@[k].1@ == order[k].spec_abbreviation());
            lemma_temperature_unit_abbreviation_round_trip(order[k]);
        }
        assert forall|u: TemperatureUnit| #[trigger] listed_abbreviations(r@).contains(u.spec_abbreviation()) by {
            assert(all@.contains(u));
            let k = choose|k: int| 0 <= k < all@.len() && all@[k] == u;
            assert(r@[k].1@ == u.spec_abbreviation());
            assert(listed_abbreviations(r@)[k] == u.spec_abbreviation());
        }
    }
    r
}

/// The mass units in the order they are listed to users.
pub open spec fn mass_units_in_order() -> Seq<MassUnit> {
    seq![MassUnit::Teragram, MassUnit::Gigagram, MassUnit::Megagram, MassUnit::Kilogram, MassUnit::Hectogram, MassUnit::Decagram, MassUnit::Gram, MassUnit::Decigram, MassUnit::Centigram, MassUnit::Milligram, MassUnit::Microgram, MassUnit::Nanogram, MassUnit::Picogram, MassUnit::Ounce, MassUnit::Pound]
}

/// The entries are the mass units in the order they are listed, each its
/// name and abbreviation.
pub open spec fn lists_mass_units(units: Seq<(String, String)>) -> bool {
    &&& units.len() == mass_units_in_order().len()
    &&& forall|i: int| #![trigger units[i]] 0 <= i < units.len() ==> units[i].0@ == mass_units_in_order()[i].spec_singular()
        && units[i].1@ == mass_units_in_order()[i].spec_abbreviation()
}

/// The mass units, each its name and abbreviation, in display order; every
/// mass unit is listed, and every abbreviation reads back as one.
fn mass_unit_entries() -> (r: Vec<(String, String)>)
    ensures
        lists_mass_units(r@),
        forall|i: int| 0 <= i < r@.len() ==> (mass_unit_of(#[trigger] r@[i].1@) is Ok),
        forall|u: MassUnit| #[trigger] listed_abbreviations(r@).contains(u.spec_abbreviation()),
{
    let all = MassUnit::all();
    let ghost order = mass_units_in_order();
    let mut r: Vec<(String, String)> = Vec::new();
    let mut i: usize = 0;
    while i < all.len()
        invariant
            i <= all.len(),
            all@ == order,
            order == mass_units_in_order(),
            r@.len() == i,
            forall|k: int| #![trigger r@[k]] 0 <= k < i ==> r@[k].0@ == order[k].spec_singular() && r@[k].1@ == order[k].spec_abbreviation(),
        decreases all.len() - i,
    {
        let u = all[i];
        let ghost old_r = r@;
        let name = String::from_str(u.singular());
        let abbreviation = String::from_str(u.abbreviation());
        r.push((name, abbreviation));
        assert(r@ == old_r.push((name, abbreviation)));
        assert(forall|k: int| 0 <= k < i ==> r@[k] == old_r[k]);
        i += 1;
    }
    proof {
        assert forall|k: int| 0 <= k < r@.len() implies (mass_unit_of(#[trigger] r@[k].1@) is Ok) by {
            assert(r@[k].1@ == order[k].spec_abbreviation());
            lemma_mass_unit_abbreviation_round_trip(order[k]);
        }
        assert forall|u: MassUnit| #[trigger] listed_abbreviations(r@).contains(u.spec_abbreviation()) by {
            assert(all@.contains(u));
            let k = choose|k: int| 0 <= k < all@.len() && all@[k] == u;
            assert(r@[k].1@ == u.spec_abbreviation());
            assert(listed_abbreviations(r@)[k] == u.spec_abbreviation());
        }
    }
    r
}

/// The volume units in the order they are listed to users.
pub open spec fn volume_units_in_order() -> Seq<VolumeUnit> {
    seq![VolumeUnit::CubicTerameter, VolumeUnit::CubicGigameter, VolumeUnit::CubicMegameter, VolumeUnit::CubicKilometer, VolumeUnit::CubicHectometer, VolumeUnit::CubicDecameter, VolumeUnit::CubicMeter, VolumeUnit::CubicDecimeter, VolumeUnit::CubicCentimeter, VolumeUnit::CubicMillimeter, VolumeUnit::CubicMicrometer, VolumeUnit::CubicNanometer, VolumeUnit::CubicPicometer, VolumeUnit::AcreFoot, VolumeUnit::Barrel, VolumeUnit::Bushel, VolumeUnit::Cord, VolumeUnit::CubicFoot, VolumeUnit::CubicInch, VolumeUnit::CubicMile, VolumeUnit::CubicYard, VolumeUnit::Cup, VolumeUnit::FluidOunce, VolumeUnit::FluidOunceImperial, VolumeUnit::GallonImperial, VolumeUnit::Gallon, VolumeUnit::GillImperial, VolumeUnit::Gill, VolumeUnit::Teraliter, VolumeUnit::Gigaliter, VolumeUnit::Megaliter, VolumeUnit::Kiloliter, VolumeUnit::Hectoliter, VolumeUnit::Decaliter, VolumeUnit::Liter, VolumeUnit::Deciliter, VolumeUnit::Centiliter, VolumeUnit::Milliliter, VolumeUnit::Microliter, VolumeUnit::Nanoliter, VolumeUnit::Picoliter, VolumeUnit::Peck, VolumeUnit::PintDry, VolumeUnit::PintLiquid, VolumeUnit::QuartDry, VolumeUnit::QuartLiquid, VolumeUnit::Tablespoon, VolumeUnit::Teaspoon]
}

/// The entries are the volume units in the order they are listed, each its
/// name and abbreviation.
pub open spec fn lists_volume_units(units: Seq<(String, String)>) -> bool {
    &&& units.len() == volume_units_in_order().len()
    &&& forall|i: int| #![trigger units[i]] 0 <= i < units.len() ==> units[i].0@ == volume_units_in_order()[i].spec_singular()
        && units[i].1@ == volume_units_in_order()[i].spec_abbreviation()
}

/// The volume units, each its name and abbreviation, in display order; every
/// volume unit is listed, and every abbreviation reads back as one.
fn volume_unit_entries() -> (r: Vec<(String, String)>)
    ensures
        lists_volume_units(r@),
        forall|i: int| 0 <= i < r@.len() ==> (volume_unit_of(#[trigger] r@[i].1@) is Ok),
        forall|u: VolumeUnit| #[trigger] listed_abbreviations(r@).contains(u.spec_abbreviation()),
{
    let all = VolumeUnit::all();
    let ghost order = volume_units_in_order();
    let mut r: Vec<(String, String)> = Vec::new();
    let mut i: usize = 0;
    while i < all.len()
        invariant
            i <= all.len(),
            all@ == order,
            order == volume_units_in_order(),
            r@.len() == i,
            forall|k: int| #![trigger r@[k]] 0 <= k < i ==> r@[k].0@ == order[k].spec_singular() && r@[k].1@ == order[k].spec_abbreviation(),
        decreases all.len() - i,
    {
        let u = all[i];
        let ghost old_r = r@;
        let name = String::from_str(u.singular());
        let abbreviation = String::from_str(u.abbreviation());
        r.push((name, abbreviation));
        assert(r@ == old_r.push((name, abbreviation)));
        assert(forall|k: int| 0 <= k < i ==> r@[k] == old_r[k]);
        i += 1;
    }
    proof {
        assert forall|k: int| 0 <= k < r@.len() implies (volume_unit_of(#[trigger] r@[k].1@) is Ok) by {
            assert(r@[k].1@ == order[k].spec_abbreviation());
            lemma_volume_unit_abbreviation_round_trip(order[k]);
        }
        assert forall|u: VolumeUnit| #[trigger] listed_abbreviations(r@).contains(u.spec_abbreviation()) by {
            assert(all@.contains(u));
            let k = choose|k: int| 0 <= k < all@.len() && all@[k] == u;
            assert(r@[k].1@ == u.spec_abbreviation());
            assert(listed_abbreviations(r@)[k] == u.spec_abbreviation());
        }
    }
    r
}

/// `unit_listing` lists the units that recipe files can use, as
/// `--print-units` shows them: a section each for time, temperature
/// interval, mass and volume units, with every unit's name and
/// abbreviation in display order; every abbreviation listed is one that the
/// library reads back as a unit of its section.
pub fn unit_listing() -> (l: Vec<UnitSection>)
    ensures
        l@.len() == 4,
        l@[0].heading@ == "Time Units"@,
        l@[1].heading@ == "Temperature Interval Units"@,
        l@[2].heading@ == "Mass Units"@,
        l@[3].heading@ == "Volume Units"@,
        lists_time_units(l@[0].units@),
        lists_temperature_units(l@[1].units@),
        lists_mass_units(l@[2].units@),
        lists_volume_units(l@[3].units@),
        forall|i: int| 0 <= i < l@[0].units@.len() ==> (time_unit_of(#[trigger] l@[0].units@[i].1@) is Ok),
        forall|i: int| 0 <= i < l@[1].units@.len() ==> (temperature_unit_of(#[trigger] l@[1].units@[i].1@) is Ok),
        forall|i: int| 0 <= i < l@[2].units@.len() ==> (mass_unit_of(#[trigger] l@[2].units@[i].1@) is Ok),
        forall|i: int| 0 <= i < l@[3].units@.len() ==> (volume_unit_of(#[trigger] l@[3].units@[i].1@) is Ok),
        forall|u: TimeUnit| #[trigger] listed_abbreviations(l@[0].units@).contains(u.spec_abbreviation()),
        forall|u: TemperatureUnit| #[trigger] listed_abbreviations(l@[1].units@).contains(u.spec_abbreviation()),
        forall|u: MassUnit| #[trigger] listed_abbreviations(l@[2].units@).contains(u.spec_abbreviation()),
        forall|u: VolumeUnit| #[trigger] listed_abbreviations(l@[3].units@).contains(u.spec_abbreviation()),
{
    let mut l: Vec<UnitSection> = Vec::new();
    l.push(UnitSection { heading: String::from_str("Time Units"), units: time_unit_entries() });
    l.push(UnitSection { heading: String::from_str("Temperature Interval Units"), units: temperature_unit_entries() });
    l.push(UnitSection { heading: String::from_str("Mass Units"), units: mass_unit_entries() });
    l.push(UnitSection { heading: String::from_str("Volume Units"), units: volume_unit_entries() });
    l
}

} // verus!
