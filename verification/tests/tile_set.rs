use chombo_gen::tile_set::TileSet;

#[test]
fn wire_names_are_the_variant_names() {
    assert_eq!(TileSet::Yellow.name(), "Yellow");
    assert_eq!(TileSet::Red.name(), "Red");
    assert_eq!(TileSet::Black.name(), "Black");
    assert_eq!(TileSet::MartinPersson.name(), "MartinPersson");
}

#[test]
fn every_wire_name_is_read_back() {
    for tile_set in [TileSet::Yellow, TileSet::Red, TileSet::Black, TileSet::MartinPersson] {
        assert_eq!(TileSet::from_name(tile_set.name()), Some(tile_set));
    }
}

#[test]
fn unknown_names_are_not_read() {
    assert_eq!(TileSet::from_name("Purple"), None);
    assert_eq!(TileSet::from_name(""), None);
    assert_eq!(TileSet::from_name("yellow"), None);
    assert_eq!(TileSet::from_name("Yellow "), None);
    assert_eq!(TileSet::from_name("Martin Persson"), None);
}

#[test]
fn the_default_is_yellow() {
    assert_eq!(TileSet::default(), TileSet::Yellow);
}

#[test]
fn labels_are_written_for_a_reader() {
    assert_eq!(TileSet::Yellow.to_string(), "Yellow");
    assert_eq!(TileSet::Red.to_string(), "Red");
    assert_eq!(TileSet::Black.to_string(), "Black");
    assert_eq!(TileSet::MartinPersson.to_string(), "Martin Persson");
}
