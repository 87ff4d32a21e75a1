use vstd::prelude::*;
use vstd::string::StringExecFns;
use crate::text::{chars_of, range_eq};

verus! {

/// WWI theatre: sets the terrain palette and the crater density.
#[derive(Clone, Copy, Debug, PartialEq, Eq, Structural)]
pub enum Location {
    Somme,
    Ypres,
    Gallipoli,
    Sinai,
    Verdun,
}

/// Weather: sets sky, lighting and fog.
#[derive(Clone, Copy, Debug, PartialEq, Eq, Structural)]
pub enum Weather {
    Clear,
    Overcast,
    Rain,
    Fog,
    Snow,
}

/// The battle chosen on the setup page.
#[derive(Clone, Copy, Debug, PartialEq, Eq, Structural)]
pub struct Setup {
    pub location: Location,
    pub weather: Weather,
}

/// The theatre a setup code names; anything unknown is the Somme.
pub open spec fn location_of(code: Seq<char>) -> Location {
    if code == "ypres"@ {
        Location::Ypres
    } else if code == "gallipoli"@ {
        Location::Gallipoli
    } else if code == "sinai"@ {
        Location::Sinai
    } else if code == "verdun"@ {
        Location::Verdun
    } else {
        Location::Somme
    }
}

/// The weather a setup code names; anything unknown is overcast.
pub open spec fn weather_of(code: Seq<char>) -> Weather {
    if code == "clear"@ {
        Weather::Clear
    } else if code == "rain"@ {
        Weather::Rain
    } else if code == "fog"@ {
        Weather::Fog
    } else if code == "snow"@ {
        Weather::Snow
    } else {
        Weather::Overcast
    }
}

/// The display name of a theatre.
pub open spec fn location_name(l: Location) -> Seq<char> {
    match l {
        Location::Somme => "The Somme"@,
        Location::Ypres => "Ypres / Flanders"@,
        Location::Gallipoli => "Gallipoli"@,
        Location::Sinai => "Sinai & Palestine"@,
        Location::Verdun => "Verdun"@,
    }
}

/// The display name of a weather.
pub open spec fn weather_name(w: Weather) -> Seq<char> {
    match w {
        Weather::Clear => "Clear"@,
        Weather::Overcast => "Overcast"@,
        Weather::Rain => "Rain"@,
        Weather::Fog => "Fog"@,
        Weather::Snow => "Snow"@,
    }
}

/// How many shell craters scar no-man's-land in a theatre.
pub open spec fn crater_count_of(l: Location) -> u32 {
    match l {
        Location::Somme => 80,
        Location::Ypres => 95,
        Location::Gallipoli => 45,
        Location::Sinai => 25,
        Location::Verdun => 90,
    }
}

/// The text under the title: theatre, weather and the two sides.
pub open spec fn subtitle_of(s: Setup) -> Seq<char> {
    location_name(s.location) + "  -  "@ + weather_name(s.weather)
        + "   |   British (khaki, south)  vs  Central Powers (grey, north)"@
}

/// The subtitle reads, in order: the theatre's own name, `"  -  "`, the
/// weather's own name, then the two sides.
pub proof fn lemma_subtitle_parts(s: Setup)
    ensures
        ({
            let l = location_name(s.location);
            let w = weather_name(s.weather);
            let t = subtitle_of(s);
            let a: int = l.len() as int;
            let b: int = a + 5;
            let c: int = b + w.len() as int;
            &&& t.len() == c
                + "   |   British (khaki, south)  vs  Central Powers (grey, north)"@.len()
            &&& t.subrange(0, a) == l
            &&& t.subrange(a, b) == "  -  "@
            &&& t.subrange(b, c) == w
            &&& t.subrange(c, t.len() as int)
                == "   |   British (khaki, south)  vs  Central Powers (grey, north)"@
        }),
{
    reveal_strlit("  -  ");
    let l = location_name(s.location);
    let w = weather_name(s.weather);
    let sides = "   |   British (khaki, south)  vs  Central Powers (grey, north)"@;
    let t = subtitle_of(s);
    let a: int = l.len() as int;
    let b: int = a + 5;
    let c: int = b + w.len() as int;
    assert(t.subrange(0, a) =~= l);
    assert(t.subrange(a, b) =~= "  -  "@);
    assert(t.subrange(b, c) =~= w);
    assert(t.subrange(c, t.len() as int) =~= sides);
}

/// Different battles get different subtitles: the subtitle tells both the
/// theatre and the weather apart.
pub proof fn lemma_subtitle_distinguishes(s1: Setup, s2: Setup)
    requires
        s1 != s2,
    ensures
        subtitle_of(s1) != subtitle_of(s2),
{
    reveal_strlit("The Somme");
    reveal_strlit("Ypres / Flanders");
    reveal_strlit("Gallipoli");
    reveal_strlit("Sinai & Palestine");
    reveal_strlit("Verdun");
    reveal_strlit("Clear");
    reveal_strlit("Overcast");
    reveal_strlit("Rain");
    reveal_strlit("Fog");
    reveal_strlit("Snow");
    reveal_strlit("  -  ");
    lemma_subtitle_parts(s1);
    lemma_subtitle_parts(s2);
    let l1 = location_name(s1.location);
    let l2 = location_name(s2.location);
    let t1 = subtitle_of(s1);
    let t2 = subtitle_of(s2);
    if s1.location != s2.location {
        // The theatre names all begin with different letters.
        assert(t1[0] == t1.subrange(0, l1.len() as int)[0]);
        assert(t2[0] == t2.subrange(0, l2.len() as int)[0]);
        assert(t1[0] != t2[0]);
    } else {
        // The weather names all begin with different letters.
        let k: int = l1.len() as int + 5;
        let w1 = weather_name(s1.weather);
        let w2 = weather_name(s2.weather);
        assert(t1[k] == t1.subrange(k, k + w1.len() as int)[0]);
        assert(t2[k] == t2.subrange(k, k + w2.len() as int)[0]);
        assert(t1[k] != t2[k]);
    }
}

impl Location {
    /// The theatre a setup code names (`"ypres"`, `"gallipoli"`, `"sinai"`,
    /// `"verdun"`); any other text means the Somme.
    pub fn parse(s: &str) -> (r: Location)
        ensures
            r == location_of(s@),
    {
        let c = chars_of(s);
        let n = c.len();
        proof {
            assert(c@.subrange(0, n as int) =~= s@);
        }
        if range_eq(&c, 0, n, "ypres") {
            Location::Ypres
        } else if range_eq(&c, 0, n, "gallipoli") {
            Location::Gallipoli
        } else if range_eq(&c, 0, n, "sinai") {
            Location::Sinai
        } else if range_eq(&c, 0, n, "verdun") {
            Location::Verdun
        } else {
            Location::Somme
        }
    }

    /// The name shown in the interface.
    pub fn name(self) -> (r: &'static str)
        ensures
            r@ == location_name(self),
    {
        match self {
            Location::Somme => "The Somme",
            Location::Ypres => "Ypres / Flanders",
            Location::Gallipoli => "Gallipoli",
            Location::Sinai => "Sinai & Palestine",
            Location::Verdun => "Verdun",
        }
    }

    /// The number of craters scattered across no-man's-land.
    pub fn crater_count(self) -> (r: u32)
        ensures
            r == crater_count_of(self),
    {
        match self {
            Location::Somme => 80,
            Location::Ypres => 95,
            Location::Gallipoli => 45,
            Location::Sinai => 25,
            Location::Verdun => 90,
        }
    }
}

impl Weather {
    /// The weather a setup code names (`"clear"`, `"rain"`, `"fog"`,
    /// `"snow"`); any other text means overcast.
    pub fn parse(s: &str) -> (r: Weather)
        ensures
            r == weather_of(s@),
    {
        let c = chars_of(s);
        let n = c.len();
        proof {
            assert(c@.subrange(0, n as int) =~= s@);
        }
        if range_eq(&c, 0, n, "clear") {
            Weather::Clear
        } else if range_eq(&c, 0, n, "rain") {
            Weather::Rain
        } else if range_eq(&c, 0, n, "fog") {
            Weather::Fog
        } else if range_eq(&c, 0, n, "snow") {
            Weather::Snow
        } else {
            Weather::Overcast
        }
    }

    /// The name shown in the interface.
    pub fn name(self) -> (r: &'static str)
        ensures
            r@ == weather_name(self),
    {
        match self {
            Weather::Clear => "Clear",
            Weather::Overcast => "Overcast",
            Weather::Rain => "Rain",
            Weather::Fog => "Fog",
            Weather::Snow => "Snow",
        }
    }

    /// Whether the sun casts shadows: not through rain or fog.
    pub fn casts_shadows(self) -> (r: bool)
        ensures
            r == !(self == Weather::Rain || self == Weather::Fog),
    {
        match self {
            Weather::Rain | Weather::Fog => false,
            _ => true,
        }
    }

    /// Whether distance fog hangs over the field: always but in clear weather.
    pub fn has_fog(self) -> (r: bool)
        ensures
            r == (self != Weather::Clear),
    {
        match self {
            Weather::Clear => false,
            _ => true,
        }
    }
}

impl Setup {
    /// The setup stashed by the page: each code, where the page left none,
    /// is read as empty text, so the defaults are the Somme and overcast.
    pub fn from_codes(location: Option<String>, weather: Option<String>) -> (r: Setup)
        ensures
            r.location == match location {
                Some(s) => location_of(s@),
                None => location_of(Seq::<char>::empty()),
            },
            r.weather == match weather {
                Some(s) => weather_of(s@),
                None => weather_of(Seq::<char>::empty()),
            },
            location is None && weather is None ==> r == (Setup {
                location: Location::Somme,
                weather: Weather::Overcast,
            }),
    {
        proof {
            reveal_strlit("");
            reveal_strlit("ypres");
            reveal_strlit("gallipoli");
            reveal_strlit("sinai");
            reveal_strlit("verdun");
            reveal_strlit("clear");
            reveal_strlit("rain");
            reveal_strlit("fog");
            reveal_strlit("snow");
            assert(""@ =~= Seq::<char>::empty());
        }
        let loc = match location {
            Some(s) => Location::parse(s.as_str()),
            None => Location::parse(""),
        };
        let wx = match weather {
            Some(s) => Weather::parse(s.as_str()),
            None => Weather::parse(""),
        };
        Setup { location: loc, weather: wx }
    }

    /// The subtitle line: `"<theatre>  -  <weather>   |   British ... vs ..."`.
    pub fn subtitle(&self) -> (r: String)
        ensures
            r@ == subtitle_of(*self),
    {
        let mut s = String::from_str(self.location.name());
        s.append("  -  ");
        s.append(self.weather.name());
        s.append("   |   British (khaki, south)  vs  Central Powers (grey, north)");
        s
    }
}

} // verus!
