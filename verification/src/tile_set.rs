//! The selector of the tile images a hand is drawn with.

use vstd::prelude::*;
use vstd::string::StringExecFns;

verus! {

/// The family of tile images used to draw a hand.
#[derive(Copy, Clone, Debug, PartialEq, Eq, Structural)]
pub enum TileSet {
    Yellow,
    Red,
    Black,
    MartinPersson,
}

impl TileSet {
    /// The name under which the tile set travels in a request.
    pub open spec fn spec_name(self) -> Seq<char> {
        match self {
            TileSet::Yellow => "Yellow"@,
            TileSet::Red => "Red"@,
            TileSet::Black => "Black"@,
            TileSet::MartinPersson => "MartinPersson"@,
        }
    }

    /// The tile set that travels under `name`, if there is one.
    pub open spec fn spec_from_name(name: Seq<char>) -> Option<TileSet> {
        if name == "Yellow"@ {
            Some(TileSet::Yellow)
        } else if name == "Red"@ {
            Some(TileSet::Red)
        } else if name == "Black"@ {
            Some(TileSet::Black)
        } else if name == "MartinPersson"@ {
            Some(TileSet::MartinPersson)
        } else {
            None
        }
    }

    /// The name under which the tile set is shown to a reader.
    pub open spec fn spec_label(self) -> Seq<char> {
        match self {
            TileSet::Yellow => "Yellow"@,
            TileSet::Red => "Red"@,
            TileSet::Black => "Black"@,
            TileSet::MartinPersson => "Martin Persson"@,
        }
    }

    /// The name under which this tile set travels in a request.
    pub fn name(&self) -> (name: &'static str)
        ensures
            name@ == self.spec_name(),
    {
        match self {
            TileSet::Yellow => "Yellow",
            TileSet::Red => "Red",
            TileSet::Black => "Black",
            TileSet::MartinPersson => "MartinPersson",
        }
    }

    /// Reads a tile set from the name it travels under. The names are taken
    /// as they are written: case matters, and nothing is trimmed.
    pub fn from_name(name: &str) -> (tile_set: Option<TileSet>)
        ensures
            tile_set == TileSet::spec_from_name(name@),
    {
        let name = String::from_str(name);
        if name == String::from_str("Yellow") {
            Some(TileSet::Yellow)
        } else if name == String::from_str("Red") {
            Some(TileSet::Red)
        } else if name == String::from_str("Black") {
            Some(TileSet::Black)
        } else if name == String::from_str("MartinPersson") {
            Some(TileSet::MartinPersson)
        } else {
            None
        }
    }

    /// The text this tile set is displayed as: the name for a reader.
    pub fn to_string(&self) -> (label: String)
        ensures
            label@ == self.spec_label(),
    {
        match self {
            TileSet::Yellow => String::from_str("Yellow"),
            TileSet::Red => String::from_str("Red"),
            TileSet::Black => String::from_str("Black"),
            TileSet::MartinPersson => String::from_str("Martin Persson"),
        }
    }

    /// Every name that a tile set travels under is read back as that tile
    /// set.
    pub proof fn lemma_name_round_trip(self)
        ensures
            TileSet::spec_from_name(self.spec_name()) == Some(self),
    {
        reveal_strlit("Yellow");
        reveal_strlit("Red");
        reveal_strlit("Black");
        reveal_strlit("MartinPersson");
        assert("Yellow"@.len() == 6);
        assert("Red"@.len() == 3);
        assert("Black"@.len() == 5);
        assert("MartinPersson"@.len() == 13);
    }

    /// A name is read as a tile set only if it is that tile set's name.
    pub proof fn lemma_from_name_is_exact(name: Seq<char>, tile_set: TileSet)
        ensures
            TileSet::spec_from_name(name) == Some(tile_set) <==> name == tile_set.spec_name(),
    {
        tile_set.lemma_name_round_trip();
    }
}

impl Default for TileSet {
    /// The tile set of a request that names none.
    fn default() -> (tile_set: Self)
        ensures
            tile_set == TileSet::Yellow,
    {
        TileSet::Yellow
    }
}

} // verus!
