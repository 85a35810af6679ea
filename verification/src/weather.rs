use vstd::prelude::*;

use crate::reading::Reading;
use crate::state::Weather;

verus! {

/// Why a weather request is not made, or its answer not used.
#[derive(Clone, Copy, Debug, PartialEq, Eq, Structural)]
pub enum WeatherError {
    QueryTooShort,
    InvalidCoordinates,
    NoCondition,
}

impl WeatherError {
    pub fn message(self) -> (m: &'static str)
        ensures
            m@ == (match self {
                WeatherError::QueryTooShort => "Enter at least two letters of a city name"@,
                WeatherError::InvalidCoordinates => "Invalid city coordinates"@,
                WeatherError::NoCondition => "Weather response has no condition"@,
            }),
    {
        match self {
            WeatherError::QueryTooShort => "Enter at least two letters of a city name",
            WeatherError::InvalidCoordinates => "Invalid city coordinates",
            WeatherError::NoCondition => "Weather response has no condition",
        }
    }
}

/// Unicode `White_Space`, the characters `char::is_whitespace` accepts.
pub open spec fn is_space(c: char) -> bool {
    let u = c as u32;
    ||| 0x9 <= u <= 0xd
    ||| u == 0x20
    ||| u == 0x85
    ||| u == 0xa0
    ||| u == 0x1680
    ||| 0x2000 <= u <= 0x200a
    ||| u == 0x2028
    ||| u == 0x2029
    ||| u == 0x202f
    ||| u == 0x205f
    ||| u == 0x3000
}

pub open spec fn trim_start(s: Seq<char>) -> Seq<char>
    decreases s.len(),
{
    if s.len() > 0 && is_space(s[0]) {
        trim_start(s.drop_first())
    } else {
        s
    }
}

pub open spec fn trim_end(s: Seq<char>) -> Seq<char>
    decreases s.len(),
{
    if s.len() > 0 && is_space(s.last()) {
        trim_end(s.drop_last())
    } else {
        s
    }
}

/// The text without leading and trailing white space, as `str::trim` gives it.
pub open spec fn trimmed(s: Seq<char>) -> Seq<char> {
    trim_end(trim_start(s))
}

fn space(c: char) -> (r: bool)
    ensures
        r == is_space(c),
{
    let u = c as u32;
    (0x9 <= u && u <= 0xd) || u == 0x20 || u == 0x85 || u == 0xa0 || u == 0x1680 || (0x2000 <= u
        && u <= 0x200a) || u == 0x2028 || u == 0x2029 || u == 0x202f || u == 0x205f || u == 0x3000
}

/// Number of characters of the query once surrounding white space is removed.
pub fn trimmed_len(query: &str) -> (n: usize)
    ensures
        n == trimmed(query@).len(),
{
    let len = query.unicode_len();
    let mut chars: Vec<char> = Vec::new();
    let mut k: usize = 0;
    while k < len
        invariant
            len == query@.len(),
            k <= len,
            chars@ =~= query@.take(k as int),
        decreases len - k,
    {
        chars.push(query.get_char(k));
        k = k + 1;
    }
    let ghost s = query@;
    assert(chars@ =~= s);
    let mut i: usize = 0;
    assert(s.subrange(0, len as int) =~= s);
    while i < len && space(chars[i])
        invariant
            s == chars@,
            len == s.len(),
            i <= len,
            trim_start(s) == trim_start(s.subrange(i as int, len as int)),
        decreases len - i,
    {
        assert(s.subrange(i as int, len as int).drop_first() =~= s.subrange(i + 1, len as int));
        i = i + 1;
    }
    assert(trim_start(s.subrange(i as int, len as int)) == s.subrange(i as int, len as int));
    let mut j: usize = len;
    while j > i && space(chars[j - 1])
        invariant
            s == chars@,
            len == s.len(),
            i <= j <= len,
            trimmed(s) == trim_end(s.subrange(i as int, j as int)),
        decreases j - i,
    {
        assert(s.subrange(i as int, j as int).drop_last() =~= s.subrange(i as int, j - 1));
        j = j - 1;
    }
    assert(trim_end(s.subrange(i as int, j as int)) == s.subrange(i as int, j as int));
    j - i
}

/// A city search needs at least two characters besides surrounding white space.
pub fn check_query(query: &str) -> (r: Result<(), WeatherError>)
    ensures
        r is Ok <==> trimmed(query@).len() >= 2,
        r matches Err(e) ==> e == WeatherError::QueryTooShort,
{
    if trimmed_len(query) < 2 {
        Err(WeatherError::QueryTooShort)
    } else {
        Ok(())
    }
}

/// Latitude within ±90° and longitude within ±180°, both real numbers (readings in
/// hundredths of a degree).
pub open spec fn spec_coordinates_valid(latitude: Reading, longitude: Reading) -> bool {
    &&& latitude.spec_within(-9000, 9000)
    &&& longitude.spec_within(-18000, 18000)
}

pub fn check_coordinates(latitude: Reading, longitude: Reading) -> (r: Result<(), WeatherError>)
    ensures
        r is Ok <==> spec_coordinates_valid(latitude, longitude),
        r matches Err(e) ==> e == WeatherError::InvalidCoordinates,
{
    let ok = latitude.reaches(-9000) && latitude.at_most(9000) && longitude.reaches(-18000)
        && longitude.at_most(18000);
    if ok {
        Ok(())
    } else {
        Err(WeatherError::InvalidCoordinates)
    }
}

/// The weather for an Open-Meteo weather code and temperature (hundredths of a
/// degree Celsius): storms, snow, rain and clouds by code, otherwise hot above
/// 30°, cold below 5°, else clear.
pub open spec fn spec_condition(code: u64, temperature: Option<Reading>) -> Weather {
    if 95 <= code <= 99 {
        Weather::Thunder
    } else if (71 <= code <= 77) || (85 <= code <= 86) {
        Weather::Snow
    } else if (51 <= code <= 67) || (80 <= code <= 82) {
        Weather::Rain
    } else if (1 <= code <= 3) || (45 <= code <= 48) {
        Weather::Cloudy
    } else if temperature matches Some(t) && t.spec_exceeds(3000) {
        Weather::Hot
    } else if temperature matches Some(t) && t.spec_under(500) {
        Weather::Cold
    } else {
        Weather::Clear
    }
}

/// The weather a forecast reports, when it names a condition.
pub fn condition(code: Option<u64>, temperature: Option<Reading>) -> (r: Result<Weather, WeatherError>)
    ensures
        match code {
            Some(c) => r == Ok::<Weather, WeatherError>(spec_condition(c, temperature)),
            None => r == Err::<Weather, WeatherError>(WeatherError::NoCondition),
        },
{
    let code = match code {
        Some(c) => c,
        None => return Err(WeatherError::NoCondition),
    };
    let hot = match temperature {
        Some(t) => t.exceeds(3000),
        None => false,
    };
    let cold = match temperature {
        Some(t) => t.under(500),
        None => false,
    };
    Ok(
        if 95 <= code && code <= 99 {
            Weather::Thunder
        } else if (71 <= code && code <= 77) || (85 <= code && code <= 86) {
            Weather::Snow
        } else if (51 <= code && code <= 67) || (80 <= code && code <= 82) {
            Weather::Rain
        } else if (1 <= code && code <= 3) || (45 <= code && code <= 48) {
            Weather::Cloudy
        } else if hot {
            Weather::Hot
        } else if cold {
            Weather::Cold
        } else {
            Weather::Clear
        },
    )
}

} // verus!
