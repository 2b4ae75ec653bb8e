//! The catalogue of model shapes: their names, their parameters, and the
//! lookup of a shape by name.

use vstd::prelude::*;

use crate::text::{prettify_list, quoted_list, Label};

verus! {

/// The straight line `a·x + b`.
pub struct Line;

/// The sine wave `a·sin(ω·t + φ) + b`.
pub struct Sine;

/// The square root `a·√|b·x + c| + d`.
pub struct Sqrt;

/// The bell curve `a·exp(−((x − μ)/σ)²/2)`.
pub struct Normal;

/// The exponential decay `a·exp(−λ·x)`.
pub struct Decay;

/// The saturating power law `a·xⁿ/(b·xⁿ + 1) + c`.
pub struct MortFunc;

impl Line {
    pub const NAME: &'static str = "line";
    pub const PARAMETER_NAMES: [&'static str; 2] = ["a", "b"];
}

impl Sine {
    pub const NAME: &'static str = "sine";
    pub const PARAMETER_NAMES: [&'static str; 4] = ["ω", "φ", "a", "b"];
}

impl Sqrt {
    pub const NAME: &'static str = "sqrt";
    pub const PARAMETER_NAMES: [&'static str; 4] = ["a", "b", "c", "d"];
}

impl Normal {
    pub const NAME: &'static str = "normal";
    pub const PARAMETER_NAMES: [&'static str; 3] = ["a", "μ", "σ"];
}

impl Decay {
    pub const NAME: &'static str = "decay";
    pub const PARAMETER_NAMES: [&'static str; 2] = ["a", "λ"];
}

impl MortFunc {
    pub const NAME: &'static str = "mort_func";
    pub const PARAMETER_NAMES: [&'static str; 4] = ["a", "b", "c", "n"];
}

/// The closed catalogue of model shapes that can be fitted.
#[derive(Debug, Clone, Copy, PartialEq, Eq, Hash, Structural)]
pub enum Functions {
    Line,
    Sine,
    Sqrt,
    Normal,
    Decay,
    MortFunc,
}

/// The lowercase form of a text, as `str::to_lowercase` gives it.
pub uninterp spec fn lower_of(s: Seq<char>) -> Seq<char>;

/// Relies on `str::to_lowercase`: its result depends on the characters of
/// `s` alone.
#[verifier::external_body]
fn lowercase(s: &str) -> (r: String)
    ensures
        r@ == lower_of(s@),
{
    s.to_lowercase()
}

/// Whether two texts hold the same characters.
fn same_text(s: &str, t: &str) -> (r: bool)
    ensures
        r == (s@ == t@),
{
    let n = s.unicode_len();
    if n != t.unicode_len() {
        return false;
    }
    let mut i: usize = 0;
    while i < n
        invariant
            n == s@.len(),
            n == t@.len(),
            i <= n,
            forall|j: int| 0 <= j < i ==> s@[j] == t@[j],
        decreases n - i,
    {
        if s.get_char(i) != t.get_char(i) {
            return false;
        }
        i = i + 1;
    }
    assert(s@ =~= t@);
    true
}

impl Functions {
    /// The names of all shapes, in catalogue order.
    pub const VARIANTS: [&'static str; 6] = ["line", "sine", "sqrt", "normal", "decay", "mort_func"];

    /// The name of the shape, in snake case.
    pub open spec fn name_view(self) -> Seq<char> {
        match self {
            Functions::Line => "line"@,
            Functions::Sine => "sine"@,
            Functions::Sqrt => "sqrt"@,
            Functions::Normal => "normal"@,
            Functions::Decay => "decay"@,
            Functions::MortFunc => "mort_func"@,
        }
    }

    /// The number of parameters of the shape.
    pub open spec fn dimension(self) -> nat {
        match self {
            Functions::Line => 2,
            Functions::Sine => 4,
            Functions::Sqrt => 4,
            Functions::Normal => 3,
            Functions::Decay => 2,
            Functions::MortFunc => 4,
        }
    }

    /// The names of the shape's parameters, in order.
    pub open spec fn parameter_names_view(self) -> Seq<Seq<char>> {
        match self {
            Functions::Line => seq!["a"@, "b"@],
            Functions::Sine => seq!["ω"@, "φ"@, "a"@, "b"@],
            Functions::Sqrt => seq!["a"@, "b"@, "c"@, "d"@],
            Functions::Normal => seq!["a"@, "μ"@, "σ"@],
            Functions::Decay => seq!["a"@, "λ"@],
            Functions::MortFunc => seq!["a"@, "b"@, "c"@, "n"@],
        }
    }

    /// The names of all shapes, in catalogue order.
    pub open spec fn variant_names() -> Seq<Seq<char>> {
        seq!["line"@, "sine"@, "sqrt"@, "normal"@, "decay"@, "mort_func"@]
    }

    /// The message that rejects `s` as a shape name.
    pub open spec fn malformed_name_message(s: Seq<char>) -> Seq<char> {
        "Got malformed function name '"@ + s + "'. Legal function names are "@
            + quoted_list(Self::variant_names()) + "."@
    }

    pub fn parameter_count(&self) -> (r: usize)
        ensures
            r == self.dimension(),
    {
        match self {
            Functions::Line => 2,
            Functions::Sine => 4,
            Functions::Sqrt => 4,
            Functions::Normal => 3,
            Functions::Decay => 2,
            Functions::MortFunc => 4,
        }
    }

    pub fn parameter_names(&self) -> (r: Vec<&'static str>)
        ensures
            r@.map_values(|p: &str| p@) == self.parameter_names_view(),
    {
        let r = match self {
            Functions::Line => vec![Line::PARAMETER_NAMES[0], Line::PARAMETER_NAMES[1]],
            Functions::Sine => vec![Sine::PARAMETER_NAMES[0], Sine::PARAMETER_NAMES[1], Sine::PARAMETER_NAMES[2], Sine::PARAMETER_NAMES[3]],
            Functions::Sqrt => vec![Sqrt::PARAMETER_NAMES[0], Sqrt::PARAMETER_NAMES[1], Sqrt::PARAMETER_NAMES[2], Sqrt::PARAMETER_NAMES[3]],
            Functions::Normal => vec![Normal::PARAMETER_NAMES[0], Normal::PARAMETER_NAMES[1], Normal::PARAMETER_NAMES[2]],
            Functions::Decay => vec![Decay::PARAMETER_NAMES[0], Decay::PARAMETER_NAMES[1]],
            Functions::MortFunc => vec![MortFunc::PARAMETER_NAMES[0], MortFunc::PARAMETER_NAMES[1], MortFunc::PARAMETER_NAMES[2], MortFunc::PARAMETER_NAMES[3]],
        };
        assert(r@.map_values(|p: &str| p@) =~= self.parameter_names_view());
        r
    }

    pub fn name(&self) -> (r: &'static str)
        ensures
            r@ == self.name_view(),
    {
        match self {
            Functions::Line => Line::NAME,
            Functions::Sine => Sine::NAME,
            Functions::Sqrt => Sqrt::NAME,
            Functions::Normal => Normal::NAME,
            Functions::Decay => Decay::NAME,
            Functions::MortFunc => MortFunc::NAME,
        }
    }

    /// The shape whose name is exactly `s`, if there is one.
    pub fn from_name(s: &str) -> (r: Option<Functions>)
        ensures
            match r {
                Some(f) => s@ == f.name_view(),
                None => forall|f: Functions| s@ != #[trigger] f.name_view(),
            },
    {
        if same_text(s, Line::NAME) {
            Some(Functions::Line)
        } else if same_text(s, Sine::NAME) {
            Some(Functions::Sine)
        } else if same_text(s, Sqrt::NAME) {
            Some(Functions::Sqrt)
        } else if same_text(s, Normal::NAME) {
            Some(Functions::Normal)
        } else if same_text(s, Decay::NAME) {
            Some(Functions::Decay)
        } else if same_text(s, MortFunc::NAME) {
            Some(Functions::MortFunc)
        } else {
            assert forall|f: Functions| s@ != #[trigger] f.name_view() by {
                match f {
                    Functions::Line => {},
                    Functions::Sine => {},
                    Functions::Sqrt => {},
                    Functions::Normal => {},
                    Functions::Decay => {},
                    Functions::MortFunc => {},
                }
            }
            None
        }
    }

    /// The shape named by `s` in any letter case, or a message that lists the
    /// legal names.
    pub fn descriptive_from_str(s: &str) -> (r: Result<Functions, String>)
        ensures
            match r {
                Ok(f) => lower_of(s@) == f.name_view(),
                Err(message) => {
                    &&& forall|f: Functions| lower_of(s@) != #[trigger] f.name_view()
                    &&& message@ == Self::malformed_name_message(s@)
                },
            },
    {
        let lower = lowercase(s);
        let lowered = lower.as_str();
        assert(lowered@ == lower_of(s@));
        match Self::from_name(lowered) {
            Some(f) => Ok(f),
            None => {
                let names = Self::VARIANTS;
                assert(names@.map_values(|t: &str| t.label_view()) =~= Self::variant_names());
                let mut message = String::from_str("Got malformed function name '");
                message.append(s);
                message.append("'. Legal function names are ");
                let listed = prettify_list(&names);
                message.append(listed.as_str());
                message.append(".");
                assert(message@ == Self::malformed_name_message(s@));
                Err(message)
            },
        }
    }
}

} // verus!
