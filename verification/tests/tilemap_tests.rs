use tile_rpg::tilemap::{create_simple_map, hide_map, show_map};

#[test]
fn three_tile_map_tags() {
    let rows = vec![String::from("#.~")];
    let map = create_simple_map(&rows);
    assert_eq!(map.tiles.len(), 3);

    assert!(map.tiles[0].collider);
    assert!(!map.tiles[0].encounter);
    assert_eq!(map.tiles[0].glyph, '#');

    assert!(!map.tiles[1].collider);
    assert!(!map.tiles[1].encounter);
    assert_eq!(map.tiles[1].glyph, '.');

    assert!(!map.tiles[2].collider);
    assert!(map.tiles[2].encounter);
    assert_eq!(map.tiles[2].glyph, '~');
}

#[test]
fn tiles_carry_grid_coordinates_in_row_order() {
    let rows = vec![String::from("ab"), String::from("cd")];
    let map = create_simple_map(&rows);
    assert_eq!(map.tiles.len(), 4);
    let expected = [('a', 0, 0), ('b', 1, 0), ('c', 0, 1), ('d', 1, 1)];
    for (i, (glyph, x, y)) in expected.iter().enumerate() {
        assert_eq!(map.tiles[i].glyph, *glyph);
        assert_eq!(map.tiles[i].x, *x);
        assert_eq!(map.tiles[i].y, *y);
    }
}

#[test]
fn whitespace_still_spawns_a_tile() {
    let rows = vec![String::from("a b")];
    let map = create_simple_map(&rows);
    assert_eq!(map.tiles.len(), 3);
    assert_eq!(map.tiles[1].glyph, ' ');
    assert!(!map.tiles[1].collider);
    assert!(!map.tiles[1].encounter);
}

#[test]
fn empty_description_yields_no_tiles() {
    let rows: Vec<String> = Vec::new();
    let map = create_simple_map(&rows);
    assert_eq!(map.tiles.len(), 0);
    assert!(map.visible);
}

#[test]
fn ragged_rows_are_kept_as_given() {
    let rows = vec![String::from("#"), String::from("~~~")];
    let map = create_simple_map(&rows);
    assert_eq!(map.tiles.len(), 4);
    assert!(map.tiles[0].collider);
    assert!(map.tiles[1].encounter && map.tiles[2].encounter && map.tiles[3].encounter);
    assert_eq!(map.tiles[3].x, 2);
    assert_eq!(map.tiles[3].y, 1);
}

#[test]
fn visibility_cascades_to_every_tile() {
    let rows = vec![String::from("#.~")];
    let mut map = create_simple_map(&rows);
    assert!(map.visible);
    assert!(map.tiles.iter().all(|t| t.visible));

    hide_map(&mut map);
    assert!(!map.visible);
    assert!(map.tiles.iter().all(|t| !t.visible));
    // Everything else about the tiles is untouched.
    assert!(map.tiles[0].collider);
    assert!(map.tiles[2].encounter);

    show_map(&mut map);
    assert!(map.visible);
    assert!(map.tiles.iter().all(|t| t.visible));
}
