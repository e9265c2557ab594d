//! How a paint server fills the area outside its own bounds.

use vstd::prelude::*;
pub use crate::coord_units::CoordUnits;
use crate::parsers::{names_keyword, Parse, ParseError};
use crate::text::str_eq;

verus! {

/// The ways in which a gradient or pattern continues outside its bounds:
/// by repeating its edge colour, by mirroring itself, or by starting over.
/// Each corresponds to the extend mode of the same name in the graphics
/// backend.
#[derive(Debug, Copy, Clone, PartialEq, Eq, Structural)]
pub enum SpreadMethod {
    Pad,
    Reflect,
    Repeat,
}

/// The value of a `spreadMethod` attribute.
#[derive(Debug, Copy, Clone, PartialEq, Eq, Structural)]
pub struct PaintServerSpread(pub SpreadMethod);

/// The message of the error that rejects a string which is none of the
/// three keywords.
pub open spec fn spread_message() -> Seq<char> {
    "expected 'pad' | 'reflect' | 'repeat'"@
}

impl SpreadMethod {
    /// The method that a keyword stands for.  The match is exact.
    pub open spec fn from_keyword(s: Seq<char>) -> Option<SpreadMethod> {
        if s == "pad"@ {
            Some(SpreadMethod::Pad)
        } else if s == "reflect"@ {
            Some(SpreadMethod::Reflect)
        } else if s == "repeat"@ {
            Some(SpreadMethod::Repeat)
        } else {
            None
        }
    }

    /// The keyword that stands for the method.
    pub open spec fn keyword(self) -> Seq<char> {
        match self {
            SpreadMethod::Pad => "pad"@,
            SpreadMethod::Reflect => "reflect"@,
            SpreadMethod::Repeat => "repeat"@,
        }
    }
}

/// Each keyword stands for its own method, and nothing else stands for any.
pub proof fn lemma_spread_keyword_round_trips(s: Seq<char>, method: SpreadMethod)
    ensures
        SpreadMethod::from_keyword(s) == Some(method) <==> s == method.keyword(),
{
    reveal_strlit("pad");
    reveal_strlit("reflect");
    reveal_strlit("repeat");
    assert("pad"@.len() == 3);
    assert("reflect"@.len() == 7);
    assert("repeat"@.len() == 6);
}

/// The message that rejects a string names every keyword that would have
/// been accepted.
pub proof fn lemma_spread_message_names_keywords(method: SpreadMethod)
    ensures
        names_keyword(spread_message(), method.keyword()),
{
    reveal_strlit("expected 'pad' | 'reflect' | 'repeat'");
    reveal_strlit("pad");
    reveal_strlit("reflect");
    reveal_strlit("repeat");
    let message = spread_message();
    match method {
        SpreadMethod::Pad => {
            assert(message.subrange(10, 13) =~= "pad"@);
        },
        SpreadMethod::Reflect => {
            assert(message.subrange(18, 25) =~= "reflect"@);
        },
        SpreadMethod::Repeat => {
            assert(message.subrange(30, 36) =~= "repeat"@);
        },
    }
}

impl Parse for PaintServerSpread {
    type Data = ();

    open spec fn parse_spec(s: Seq<char>, data: ()) -> Result<PaintServerSpread, Seq<char>> {
        match SpreadMethod::from_keyword(s) {
            Some(method) => Ok(PaintServerSpread(method)),
            None => Err(spread_message()),
        }
    }

    fn parse(s: &str, _data: ()) -> (r: Result<PaintServerSpread, ParseError>)
        ensures
            s@ == "pad"@ ==> r == Ok::<PaintServerSpread, ParseError>(
                PaintServerSpread(SpreadMethod::Pad),
            ),
            s@ == "reflect"@ ==> r == Ok::<PaintServerSpread, ParseError>(
                PaintServerSpread(SpreadMethod::Reflect),
            ),
            s@ == "repeat"@ ==> r == Ok::<PaintServerSpread, ParseError>(
                PaintServerSpread(SpreadMethod::Repeat),
            ),
            s@ != "pad"@ && s@ != "reflect"@ && s@ != "repeat"@ ==> r is Err && r->Err_0@
                == spread_message(),
    {
        proof {
            lemma_spread_keyword_round_trips(s@, SpreadMethod::Reflect);
            lemma_spread_keyword_round_trips(s@, SpreadMethod::Repeat);
        }
        if str_eq(s, "pad") {
            Ok(PaintServerSpread(SpreadMethod::Pad))
        } else if str_eq(s, "reflect") {
            Ok(PaintServerSpread(SpreadMethod::Reflect))
        } else if str_eq(s, "repeat") {
            Ok(PaintServerSpread(SpreadMethod::Repeat))
        } else {
            Err(ParseError::new("expected 'pad' | 'reflect' | 'repeat'"))
        }
    }
}

impl Default for PaintServerSpread {
    /// A paint server pads unless it is told otherwise.
    fn default() -> (spread: PaintServerSpread)
        ensures
            spread == PaintServerSpread(SpreadMethod::Pad),
    {
        PaintServerSpread(SpreadMethod::Pad)
    }
}

} // verus!
