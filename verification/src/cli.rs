//! What the command line says: the image to analyze and the color space to
//! analyze it in.

use vstd::prelude::*;
use vstd::string::StrSliceExecFns;

verus! {

/// The arguments of the program.
#[derive(Debug)]
pub struct Cli {
    /// Input image
    pub file: String,
    /// The name of the color space; without one the OKHSV space is taken.
    pub using: Option<String>,
}

/// The color spaces that an image can be analyzed in.
#[derive(Clone, Copy, Debug, PartialEq, Eq, Structural)]
pub enum ColorSpace {
    Okhsv,
    Okhsl,
    Hsl,
    Hsv,
}

/// A color space was asked for that there is none of; `value` is the name
/// as it was given.
#[derive(Debug)]
pub struct ConfigurationError {
    pub value: String,
}

/// The code point of `c`, or of its lower-case form where `c` is one of the
/// letters from `A` to `Z`.
pub open spec fn lower_spec(c: char) -> int {
    if 'A' <= c <= 'Z' {
        c as int + 32
    } else {
        c as int
    }
}

/// Whether two strings are the same but for the case of their letters from
/// `A` to `Z`.
pub open spec fn same_ignoring_case(a: Seq<char>, b: Seq<char>) -> bool {
    a.len() == b.len() && forall|i: int| 0 <= i < a.len() ==> lower_spec(a[i]) == lower_spec(b[i])
}

/// The color space that `name` names, whatever the case of its letters.
pub open spec fn parse_spec(name: Seq<char>) -> Option<ColorSpace> {
    if same_ignoring_case(name, "okhsv"@) {
        Some(ColorSpace::Okhsv)
    } else if same_ignoring_case(name, "okhsl"@) {
        Some(ColorSpace::Okhsl)
    } else if same_ignoring_case(name, "hsl"@) {
        Some(ColorSpace::Hsl)
    } else if same_ignoring_case(name, "hsv"@) {
        Some(ColorSpace::Hsv)
    } else {
        None
    }
}

fn lower(c: char) -> (n: u32)
    ensures
        n == lower_spec(c),
{
    if 'A' <= c && c <= 'Z' {
        c as u32 + 32
    } else {
        c as u32
    }
}

/// Whether two strings are the same but for the case of their letters from
/// `A` to `Z`.
pub fn eq_ignoring_case(a: &str, b: &str) -> (same: bool)
    ensures
        same == same_ignoring_case(a@, b@),
{
    let n = a.unicode_len();
    if n != b.unicode_len() {
        return false;
    }
    let mut i: usize = 0;
    while i < n
        invariant
            n == a@.len(),
            n == b@.len(),
            i <= n,
            forall|k: int| 0 <= k < i ==> lower_spec(a@[k]) == lower_spec(b@[k]),
        decreases n - i,
    {
        if lower(a.get_char(i)) != lower(b.get_char(i)) {
            return false;
        }
        i = i + 1;
    }
    true
}

impl ColorSpace {
    /// The name of the color space, in lower case.
    pub open spec fn name_spec(self) -> Seq<char> {
        match self {
            ColorSpace::Okhsv => "okhsv"@,
            ColorSpace::Okhsl => "okhsl"@,
            ColorSpace::Hsl => "hsl"@,
            ColorSpace::Hsv => "hsv"@,
        }
    }

    /// The color space that `name` names, whatever the case of its letters;
    /// `None` where it names none.
    pub fn parse(name: &str) -> (res: Option<ColorSpace>)
        ensures
            res == parse_spec(name@),
    {
        if eq_ignoring_case(name, "okhsv") {
            Some(ColorSpace::Okhsv)
        } else if eq_ignoring_case(name, "okhsl") {
            Some(ColorSpace::Okhsl)
        } else if eq_ignoring_case(name, "hsl") {
            Some(ColorSpace::Hsl)
        } else if eq_ignoring_case(name, "hsv") {
            Some(ColorSpace::Hsv)
        } else {
            None
        }
    }

    /// The name of the color space, in lower case; it parses back to the
    /// color space.
    pub fn name(self) -> (s: &'static str)
        ensures
            s@ == self.name_spec(),
            parse_spec(s@) == Some(self),
    {
        proof {
            reveal_strlit("okhsv");
            reveal_strlit("okhsl");
            reveal_strlit("hsl");
            reveal_strlit("hsv");
            assert(lower_spec("okhsl"@[4]) != lower_spec("okhsv"@[4]));
            assert(lower_spec("hsv"@[2]) != lower_spec("hsl"@[2]));
        }
        match self {
            ColorSpace::Okhsv => "okhsv",
            ColorSpace::Okhsl => "okhsl",
            ColorSpace::Hsl => "hsl",
            ColorSpace::Hsv => "hsv",
        }
    }
}

impl Cli {
    /// The color space that the arguments select: OKHSV where they name
    /// none, and an error that holds the name where it is not the name of a
    /// color space.
    pub fn color_space(&self) -> (res: Result<ColorSpace, ConfigurationError>)
        ensures
            match self.using {
                None => res == Ok::<ColorSpace, ConfigurationError>(ColorSpace::Okhsv),
                Some(name) => match parse_spec(name@) {
                    Some(space) => res == Ok::<ColorSpace, ConfigurationError>(space),
                    None => res is Err && res->Err_0.value@ == name@,
                },
            },
    {
        match &self.using {
            None => Ok(ColorSpace::Okhsv),
            Some(name) => match ColorSpace::parse(name.as_str()) {
                Some(space) => Ok(space),
                None => Err(ConfigurationError { value: name.clone() }),
            },
        }
    }
}

} // verus!
