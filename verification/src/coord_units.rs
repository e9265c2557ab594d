//! `userSpaceOnUse` or `objectBoundingBox` values.

use vstd::prelude::*;
use vstd::std_specs::convert::{FromSpec, FromSpecImpl};
use crate::parsers::{names_keyword, Parse, ParseError};
use crate::text::str_eq;

verus! {

/// Defines the units to be used for things that can consider a
/// coordinate system in terms of the current transformation, or in
/// terms of the current object's bounding box.
#[derive(Debug, Copy, Clone, PartialEq, Eq, Structural)]
pub enum CoordUnits {
    UserSpaceOnUse,
    ObjectBoundingBox,
}

/// The message of the error that rejects a string which is neither keyword.
pub open spec fn coord_units_message() -> Seq<char> {
    "expected 'userSpaceOnUse' or 'objectBoundingBox'"@
}

impl CoordUnits {
    /// The units that a keyword stands for.  The match is exact: no blanks
    /// are skipped and the case of every letter counts.
    pub open spec fn from_keyword(s: Seq<char>) -> Option<CoordUnits> {
        if s == "userSpaceOnUse"@ {
            Some(CoordUnits::UserSpaceOnUse)
        } else if s == "objectBoundingBox"@ {
            Some(CoordUnits::ObjectBoundingBox)
        } else {
            None
        }
    }

    /// The keyword that stands for the units.
    pub open spec fn keyword(self) -> Seq<char> {
        match self {
            CoordUnits::UserSpaceOnUse => "userSpaceOnUse"@,
            CoordUnits::ObjectBoundingBox => "objectBoundingBox"@,
        }
    }

    /// The number that stands for the units.
    pub open spec fn tag_spec(self) -> u32 {
        match self {
            CoordUnits::UserSpaceOnUse => 0,
            CoordUnits::ObjectBoundingBox => 1,
        }
    }

    /// The units that a number stands for.
    pub open spec fn of_tag(tag: u32) -> Option<CoordUnits> {
        if tag == 0 {
            Some(CoordUnits::UserSpaceOnUse)
        } else if tag == 1 {
            Some(CoordUnits::ObjectBoundingBox)
        } else {
            None
        }
    }

    /// The units as a number of fixed width, for code that takes them
    /// without parsing anything: 0 for `userSpaceOnUse`, 1 for
    /// `objectBoundingBox`.
    pub fn tag(self) -> (tag: u32)
        ensures
            tag == self.tag_spec(),
    {
        match self {
            CoordUnits::UserSpaceOnUse => 0,
            CoordUnits::ObjectBoundingBox => 1,
        }
    }

    /// Reads units back from their number; other numbers stand for no units.
    pub fn from_tag(tag: u32) -> (units: Option<CoordUnits>)
        ensures
            units == CoordUnits::of_tag(tag),
    {
        if tag == 0 {
            Some(CoordUnits::UserSpaceOnUse)
        } else if tag == 1 {
            Some(CoordUnits::ObjectBoundingBox)
        } else {
            None
        }
    }
}

/// A number stands for the units it was made from and for no others.
pub proof fn lemma_tag_round_trips(units: CoordUnits, tag: u32)
    ensures
        CoordUnits::of_tag(tag) == Some(units) <==> tag == units.tag_spec(),
{
}

/// Each keyword stands for its own units, and nothing else stands for any.
pub proof fn lemma_keyword_round_trips(s: Seq<char>, units: CoordUnits)
    ensures
        CoordUnits::from_keyword(s) == Some(units) <==> s == units.keyword(),
{
    reveal_strlit("userSpaceOnUse");
    reveal_strlit("objectBoundingBox");
    assert("userSpaceOnUse"@.len() == 14);
    assert("objectBoundingBox"@.len() == 17);
}

/// The message that rejects a string names every keyword that would have
/// been accepted.
pub proof fn lemma_message_names_keywords(units: CoordUnits)
    ensures
        names_keyword(coord_units_message(), units.keyword()),
{
    reveal_strlit("expected 'userSpaceOnUse' or 'objectBoundingBox'");
    reveal_strlit("userSpaceOnUse");
    reveal_strlit("objectBoundingBox");
    let message = coord_units_message();
    match units {
        CoordUnits::UserSpaceOnUse => {
            assert(message.subrange(10, 24) =~= "userSpaceOnUse"@);
        },
        CoordUnits::ObjectBoundingBox => {
            assert(message.subrange(30, 47) =~= "objectBoundingBox"@);
        },
    }
}

impl Parse for CoordUnits {
    type Data = ();

    open spec fn parse_spec(s: Seq<char>, data: ()) -> Result<CoordUnits, Seq<char>> {
        match CoordUnits::from_keyword(s) {
            Some(units) => Ok(units),
            None => Err(coord_units_message()),
        }
    }

    fn parse(s: &str, _data: ()) -> (r: Result<CoordUnits, ParseError>)
        ensures
            s@ == "userSpaceOnUse"@ ==> r == Ok::<CoordUnits, ParseError>(
                CoordUnits::UserSpaceOnUse,
            ),
            s@ == "objectBoundingBox"@ ==> r == Ok::<CoordUnits, ParseError>(
                CoordUnits::ObjectBoundingBox,
            ),
            s@ != "userSpaceOnUse"@ && s@ != "objectBoundingBox"@ ==> r is Err && r->Err_0@
                == coord_units_message(),
    {
        proof {
            lemma_keyword_round_trips(s@, CoordUnits::ObjectBoundingBox);
        }
        if str_eq(s, "userSpaceOnUse") {
            Ok(CoordUnits::UserSpaceOnUse)
        } else if str_eq(s, "objectBoundingBox") {
            Ok(CoordUnits::ObjectBoundingBox)
        } else {
            Err(ParseError::new("expected 'userSpaceOnUse' or 'objectBoundingBox'"))
        }
    }
}

impl Default for CoordUnits {
    /// Where nothing else is said, coordinates refer to the bounding box.
    fn default() -> (units: CoordUnits)
        ensures
            units == CoordUnits::ObjectBoundingBox,
    {
        CoordUnits::ObjectBoundingBox
    }
}

/// The units that an attribute takes where the element does not give it.
pub open spec fn default_units(bounding_box: bool) -> CoordUnits {
    if bounding_box {
        CoordUnits::ObjectBoundingBox
    } else {
        CoordUnits::UserSpaceOnUse
    }
}

/// The coordinate units of one attribute of one kind of element.
///
/// Attributes that take `userSpaceOnUse` or `objectBoundingBox` have
/// different defaults depending on the element they belong to.  `ATTRIBUTE`
/// tells the attributes apart, so that the units of one are not taken for the
/// units of another; `BOUNDING_BOX` says whether the attribute defaults to
/// `objectBoundingBox` (else to `userSpaceOnUse`).  All of them are written
/// and parsed as `CoordUnits` are.
#[derive(Debug, Copy, Clone, PartialEq, Eq)]
pub struct Units<const ATTRIBUTE: u32, const BOUNDING_BOX: bool>(pub CoordUnits);

impl<const ATTRIBUTE: u32, const BOUNDING_BOX: bool> Units<ATTRIBUTE, BOUNDING_BOX> {
    /// The value of the attribute where the element does not give it.
    pub open spec fn default_spec() -> Self {
        Units(default_units(BOUNDING_BOX))
    }
}

impl<const ATTRIBUTE: u32, const BOUNDING_BOX: bool> Default for Units<ATTRIBUTE, BOUNDING_BOX> {
    fn default() -> (units: Self)
        ensures
            units == Self::default_spec(),
    {
        if BOUNDING_BOX {
            Units(CoordUnits::ObjectBoundingBox)
        } else {
            Units(CoordUnits::UserSpaceOnUse)
        }
    }
}

impl<const ATTRIBUTE: u32, const BOUNDING_BOX: bool> From<
    Units<ATTRIBUTE, BOUNDING_BOX>,
> for CoordUnits {
    fn from(u: Units<ATTRIBUTE, BOUNDING_BOX>) -> (units: CoordUnits) {
        u.0
    }
}

impl<const ATTRIBUTE: u32, const BOUNDING_BOX: bool> FromSpecImpl<
    Units<ATTRIBUTE, BOUNDING_BOX>,
> for CoordUnits {
    open spec fn obeys_from_spec() -> bool {
        true
    }

    open spec fn from_spec(u: Units<ATTRIBUTE, BOUNDING_BOX>) -> CoordUnits {
        u.0
    }
}

impl<const ATTRIBUTE: u32, const BOUNDING_BOX: bool> Parse for Units<ATTRIBUTE, BOUNDING_BOX> {
    type Data = ();

    open spec fn parse_spec(s: Seq<char>, data: ()) -> Result<Self, Seq<char>> {
        match CoordUnits::parse_spec(s, ()) {
            Ok(units) => Ok(Units(units)),
            Err(message) => Err(message),
        }
    }

    fn parse(s: &str, _data: ()) -> (r: Result<Self, ParseError>) {
        match CoordUnits::parse(s, ()) {
            Ok(units) => Ok(Units(units)),
            Err(e) => Err(e),
        }
    }
}

/// Whatever `default` returns for an attribute wraps the default that the
/// attribute was declared with, and converts back to exactly those units.
pub proof fn lemma_default_round_trips<const ATTRIBUTE: u32, const BOUNDING_BOX: bool>(
    units: Units<ATTRIBUTE, BOUNDING_BOX>,
)
    requires
        call_ensures(<Units<ATTRIBUTE, BOUNDING_BOX> as Default>::default, (), units),
    ensures
        units == Units::<ATTRIBUTE, BOUNDING_BOX>(default_units(BOUNDING_BOX)),
        <CoordUnits as FromSpec<Units<ATTRIBUTE, BOUNDING_BOX>>>::from_spec(units)
            == default_units(BOUNDING_BOX),
{
}

} // verus!
