use totw_render::grid::{experimental_map, DungeonCell, DungeonFloor};

fn two_by_three() -> DungeonFloor {
    DungeonFloor {
        width: 2,
        height: 3,
        cells: vec![
            DungeonCell::Empty, DungeonCell::Wall,
            DungeonCell::Floor, DungeonCell::Door,
            DungeonCell::OpenDoor, DungeonCell::Wall,
        ],
    }
}

#[test]
fn get_returns_stored_cells_in_row_major_order() {
    let g = two_by_three();
    assert_eq!(*g.get(0, 0), DungeonCell::Empty);
    assert_eq!(*g.get(1, 0), DungeonCell::Wall);
    assert_eq!(*g.get(0, 1), DungeonCell::Floor);
    assert_eq!(*g.get(1, 1), DungeonCell::Door);
    assert_eq!(*g.get(0, 2), DungeonCell::OpenDoor);
    assert_eq!(*g.get(1, 2), DungeonCell::Wall);
}

#[test]
fn coordinates_outside_the_grid_are_refused() {
    let g = two_by_three();
    assert!(g.contains(0, 0));
    assert!(g.contains(1, 2));
    assert!(!g.contains(2, 0));
    assert!(!g.contains(0, 3));
    assert!(!g.contains(usize::MAX, usize::MAX));
}

#[test]
fn wall_then_empty_reads() {
    let g = DungeonFloor { width: 2, height: 1, cells: vec![DungeonCell::Wall, DungeonCell::Empty] };
    assert_eq!(*g.get(0, 0), DungeonCell::Wall);
    assert_eq!(*g.get(1, 0), DungeonCell::Empty);
    assert!(!g.contains(0, 1));
    assert!(!g.contains(2, 0));
}

#[test]
fn set_replaces_one_cell() {
    let mut g = two_by_three();
    g.set(1, 2, DungeonCell::Floor);
    assert_eq!(*g.get(1, 2), DungeonCell::Floor);
    assert_eq!(*g.get(0, 2), DungeonCell::OpenDoor);
    assert_eq!(g.cells.len(), 6);
}

#[test]
fn well_formedness_check() {
    assert!(two_by_three().is_well_formed());
    let bad = DungeonFloor { width: 2, height: 2, cells: vec![DungeonCell::Empty] };
    assert!(!bad.is_well_formed());
    let huge = DungeonFloor { width: usize::MAX, height: 2, cells: vec![] };
    assert!(!huge.is_well_formed());
}

#[test]
fn experimental_map_shape() {
    let m = experimental_map();
    assert!(m.is_well_formed());
    assert_eq!(*m.get(3, 0), DungeonCell::Wall);
    assert_eq!(*m.get(4, 1), DungeonCell::Floor);
    assert_eq!(*m.get(9, 9), DungeonCell::Empty);
}
