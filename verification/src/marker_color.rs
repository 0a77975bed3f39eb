//! The marker registry: the closed set of marker colors, the light settings
//! of each, and the hardware tag that identifies each.

use mfrc522::GenericUid;
use vstd::prelude::*;

verus! {

/// The tag identifier type of the `mfrc522` driver, opaque to the verifier.
#[verifier::external_type_specification]
#[verifier::external_body]
pub struct ExGenericUid<const T: usize>(GenericUid<T>) where [u8; T]: Sized;

/// The bytes that a double-size tag identifier holds.
pub uninterp spec fn uid_bytes(uid: GenericUid<7>) -> Seq<u8>;

/// Calls `mfrc522::GenericUid::as_bytes`, which hands out the identifier's
/// byte array as a slice; the contract gives those bytes their name.
#[verifier::external_body]
fn generic_uid_as_bytes(uid: &GenericUid<7>) -> (bytes: &[u8])
    ensures
        bytes@ == uid_bytes(*uid),
{
    uid.as_bytes()
}

/// A logical marker color.
#[derive(Debug, Clone, Copy, PartialEq, Eq, Structural)]
pub enum MarkerColor {
    Red,
    Brown,
    BlueLagoon,
    Green,
    Black,
    SandyTan,
    Gray,
    Pink,
    Blue,
    Yellow,
    Orange,
    Violet,
}

impl MarkerColor {
    /// Hue (0-360), saturation (0-100) and brightness (0-100) of the color.
    pub open spec fn spec_hsb(self) -> (u16, u8, u8) {
        match self {
            MarkerColor::Red => (0, 100, 100),
            MarkerColor::Brown => (30, 100, 30),
            MarkerColor::BlueLagoon => (180, 100, 100),
            MarkerColor::Green => (120, 100, 100),
            MarkerColor::Black => (0, 0, 1),
            MarkerColor::SandyTan => (30, 100, 100),
            MarkerColor::Gray => (0, 0, 50),
            MarkerColor::Pink => (340, 100, 100),
            MarkerColor::Blue => (240, 100, 100),
            MarkerColor::Yellow => (60, 100, 100),
            MarkerColor::Orange => (30, 100, 100),
            MarkerColor::Violet => (0, 0, 70),
        }
    }

    /// The seven tag bytes of the marker that carries the color.
    pub open spec fn spec_uid(self) -> Seq<u8> {
        match self {
            MarkerColor::Red => seq![4u8, 61, 60, 18, 54, 30, 145],
            MarkerColor::Brown => seq![4u8, 61, 59, 18, 54, 30, 145],
            MarkerColor::BlueLagoon => seq![4u8, 61, 58, 18, 54, 30, 145],
            MarkerColor::Green => seq![4u8, 61, 57, 18, 54, 30, 145],
            MarkerColor::Black => seq![4u8, 61, 56, 18, 54, 30, 145],
            MarkerColor::SandyTan => seq![4u8, 61, 55, 18, 54, 30, 145],
            MarkerColor::Gray => seq![4u8, 61, 54, 18, 54, 30, 145],
            MarkerColor::Pink => seq![4u8, 61, 53, 18, 54, 30, 145],
            MarkerColor::Blue => seq![4u8, 61, 52, 18, 54, 30, 145],
            MarkerColor::Yellow => seq![4u8, 61, 51, 18, 54, 30, 145],
            MarkerColor::Orange => seq![4u8, 61, 50, 18, 54, 30, 145],
            MarkerColor::Violet => seq![4u8, 61, 49, 18, 54, 30, 145],
        }
    }

    /// The number of the color: one to twelve, in the order of the palette.
    pub open spec fn spec_code(self) -> u8 {
        match self {
            MarkerColor::Red => 1,
            MarkerColor::Brown => 2,
            MarkerColor::BlueLagoon => 3,
            MarkerColor::Green => 4,
            MarkerColor::Black => 5,
            MarkerColor::SandyTan => 6,
            MarkerColor::Gray => 7,
            MarkerColor::Pink => 8,
            MarkerColor::Blue => 9,
            MarkerColor::Yellow => 10,
            MarkerColor::Orange => 11,
            MarkerColor::Violet => 12,
        }
    }

    /// The color whose marker carries the tag `tag`, if there is one.
    pub open spec fn spec_from_tag(tag: Seq<u8>) -> Option<MarkerColor> {
        if exists|c: MarkerColor| c.spec_uid() == tag {
            Some(choose|c: MarkerColor| c.spec_uid() == tag)
        } else {
            None
        }
    }

    /// Returns the hue, saturation and brightness of the color.
    pub fn hsb(&self) -> (r: (u16, u8, u8))
        ensures
            r == self.spec_hsb(),
            r.0 <= 360,
            r.1 <= 100,
            r.2 <= 100,
    {
        match self {
            MarkerColor::Red => (0, 100, 100),
            MarkerColor::Brown => (30, 100, 30),
            MarkerColor::BlueLagoon => (180, 100, 100),
            MarkerColor::Green => (120, 100, 100),
            MarkerColor::Black => (0, 0, 1),
            MarkerColor::SandyTan => (30, 100, 100),
            MarkerColor::Gray => (0, 0, 50),
            MarkerColor::Pink => (340, 100, 100),
            MarkerColor::Blue => (240, 100, 100),
            MarkerColor::Yellow => (60, 100, 100),
            MarkerColor::Orange => (30, 100, 100),
            MarkerColor::Violet => (0, 0, 70),
        }
    }

    /// Returns the tag bytes of the marker that carries the color.
    pub fn uid(&self) -> (r: [u8; 7])
        ensures
            r@ == self.spec_uid(),
    {
        let r: [u8; 7] = match self {
            MarkerColor::Red => [4, 61, 60, 18, 54, 30, 145],
            MarkerColor::Brown => [4, 61, 59, 18, 54, 30, 145],
            MarkerColor::BlueLagoon => [4, 61, 58, 18, 54, 30, 145],
            MarkerColor::Green => [4, 61, 57, 18, 54, 30, 145],
            MarkerColor::Black => [4, 61, 56, 18, 54, 30, 145],
            MarkerColor::SandyTan => [4, 61, 55, 18, 54, 30, 145],
            MarkerColor::Gray => [4, 61, 54, 18, 54, 30, 145],
            MarkerColor::Pink => [4, 61, 53, 18, 54, 30, 145],
            MarkerColor::Blue => [4, 61, 52, 18, 54, 30, 145],
            MarkerColor::Yellow => [4, 61, 51, 18, 54, 30, 145],
            MarkerColor::Orange => [4, 61, 50, 18, 54, 30, 145],
            MarkerColor::Violet => [4, 61, 49, 18, 54, 30, 145],
        };
        assert(r@ =~= self.spec_uid());
        r
    }

    /// Returns the number of the color, from one to twelve.
    pub fn code(&self) -> (code: u8)
        ensures
            code == self.spec_code(),
            1 <= code <= 12,
    {
        match self {
            MarkerColor::Red => 1,
            MarkerColor::Brown => 2,
            MarkerColor::BlueLagoon => 3,
            MarkerColor::Green => 4,
            MarkerColor::Black => 5,
            MarkerColor::SandyTan => 6,
            MarkerColor::Gray => 7,
            MarkerColor::Pink => 8,
            MarkerColor::Blue => 9,
            MarkerColor::Yellow => 10,
            MarkerColor::Orange => 11,
            MarkerColor::Violet => 12,
        }
    }

    /// Returns the color with the number `value`, or `None` where `value` is
    /// the number of no color.
    pub fn from_code(value: u8) -> (r: Option<MarkerColor>)
        ensures
            r is Some <==> 1 <= value <= 12,
            r matches Some(color) ==> color.spec_code() == value,
    {
        match value {
            1 => Some(MarkerColor::Red),
            2 => Some(MarkerColor::Brown),
            3 => Some(MarkerColor::BlueLagoon),
            4 => Some(MarkerColor::Green),
            5 => Some(MarkerColor::Black),
            6 => Some(MarkerColor::SandyTan),
            7 => Some(MarkerColor::Gray),
            8 => Some(MarkerColor::Pink),
            9 => Some(MarkerColor::Blue),
            10 => Some(MarkerColor::Yellow),
            11 => Some(MarkerColor::Orange),
            12 => Some(MarkerColor::Violet),
            _ => None,
        }
    }

    /// Tells whether `tag` is the tag of this color's marker.
    pub fn has_tag(&self, tag: &[u8]) -> (r: bool)
        ensures
            r == (tag@ == self.spec_uid()),
    {
        if tag.len() != 7 {
            return false;
        }
        let own = self.uid();
        let mut i: usize = 0;
        while i < 7
            invariant
                i <= 7,
                tag@.len() == 7,
                own@ == self.spec_uid(),
                forall|j: int| 0 <= j < i ==> tag@[j] == own@[j],
            decreases 7 - i,
        {
            if tag[i] != own[i] {
                return false;
            }
            i += 1;
        }
        assert(tag@ =~= own@);
        true
    }

    /// Looks a tag up in the registry: the one color whose marker carries it,
    /// or `None` for a tag of no configured marker.
    pub fn from_tag(tag: &[u8]) -> (r: Option<MarkerColor>)
        ensures
            r == Self::spec_from_tag(tag@),
            r matches Some(c) ==> c.spec_uid() == tag@,
            r is None ==> forall|c: MarkerColor| c.spec_uid() != tag@,
    {
        let found = if MarkerColor::Red.has_tag(tag) {
            Some(MarkerColor::Red)
        } else if MarkerColor::Brown.has_tag(tag) {
            Some(MarkerColor::Brown)
        } else if MarkerColor::BlueLagoon.has_tag(tag) {
            Some(MarkerColor::BlueLagoon)
        } else if MarkerColor::Green.has_tag(tag) {
            Some(MarkerColor::Green)
        } else if MarkerColor::Black.has_tag(tag) {
            Some(MarkerColor::Black)
        } else if MarkerColor::SandyTan.has_tag(tag) {
            Some(MarkerColor::SandyTan)
        } else if MarkerColor::Gray.has_tag(tag) {
            Some(MarkerColor::Gray)
        } else if MarkerColor::Pink.has_tag(tag) {
            Some(MarkerColor::Pink)
        } else if MarkerColor::Blue.has_tag(tag) {
            Some(MarkerColor::Blue)
        } else if MarkerColor::Yellow.has_tag(tag) {
            Some(MarkerColor::Yellow)
        } else if MarkerColor::Orange.has_tag(tag) {
            Some(MarkerColor::Orange)
        } else if MarkerColor::Violet.has_tag(tag) {
            Some(MarkerColor::Violet)
        } else {
            None
        };
        proof {
            match found {
                Some(c) => {
                    let other = choose|c: MarkerColor| c.spec_uid() == tag@;
                    lemma_tags_are_unique(c, other);
                },
                None => {
                    assert forall|c: MarkerColor| c.spec_uid() != tag@ by {
                        lemma_color_is_listed(c);
                    }
                },
            }
        }
        found
    }

    /// Maps the identifier that the tag reader returned to a marker color.
    pub fn from_uid(generic_uid: &GenericUid<7>) -> (r: Option<MarkerColor>)
        ensures
            r == Self::spec_from_tag(uid_bytes(*generic_uid)),
    {
        Self::from_tag(generic_uid_as_bytes(generic_uid))
    }
}

/// Every color is one of the twelve that the registry lists.
proof fn lemma_color_is_listed(c: MarkerColor)
    ensures
        c == MarkerColor::Red || c == MarkerColor::Brown || c == MarkerColor::BlueLagoon
            || c == MarkerColor::Green || c == MarkerColor::Black || c == MarkerColor::SandyTan
            || c == MarkerColor::Gray || c == MarkerColor::Pink || c == MarkerColor::Blue
            || c == MarkerColor::Yellow || c == MarkerColor::Orange || c == MarkerColor::Violet,
{
}

/// No two colors share a number.
pub proof fn lemma_codes_are_unique(a: MarkerColor, b: MarkerColor)
    requires
        a.spec_code() == b.spec_code(),
    ensures
        a == b,
{
}

/// No two colors share a tag.
pub proof fn lemma_tags_are_unique(a: MarkerColor, b: MarkerColor)
    requires
        a.spec_uid() == b.spec_uid(),
    ensures
        a == b,
{
    assert(a.spec_uid()[2] == b.spec_uid()[2]);
}

/// Looking up the tag of a color gives that color back.
pub proof fn lemma_tag_round_trip(c: MarkerColor)
    ensures
        MarkerColor::spec_from_tag(c.spec_uid()) == Some(c),
{
    let other = choose|x: MarkerColor| x.spec_uid() == c.spec_uid();
    lemma_tags_are_unique(other, c);
}

/// A byte sequence that is the tag of no color is not recognized.
pub proof fn lemma_foreign_tag_is_unrecognized(tag: Seq<u8>)
    requires
        forall|c: MarkerColor| c.spec_uid() != tag,
    ensures
        MarkerColor::spec_from_tag(tag) is None,
{
}

/// A lookup that succeeds names a color whose tag is the one looked up.
pub proof fn lemma_recognized_tag_belongs_to_color(tag: Seq<u8>, c: MarkerColor)
    requires
        MarkerColor::spec_from_tag(tag) == Some(c),
    ensures
        c.spec_uid() == tag,
{
}

} // verus!
