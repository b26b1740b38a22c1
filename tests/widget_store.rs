use particles_editor::store::{Cell, Mismatch, WidgetStore};

#[test]
fn flag_defaults_false_and_persists() {
    let mut s = WidgetStore::new();
    assert_eq!(s.flag(1), Ok(false));
    assert_eq!(s.set_flag(1, true), Ok(()));
    assert_eq!(s.flag(1), Ok(true));
}

#[test]
fn kind_mismatch_is_refused() {
    let mut s = WidgetStore::new();
    assert_eq!(s.set_flag(1, true), Ok(()));
    assert_eq!(s.index(1), Err(Mismatch { id: 1 }));
    assert_eq!(s.set_index(1, Some(2)), Err(Mismatch { id: 1 }));
    assert_eq!(s.count(1), Err(Mismatch { id: 1 }));
    assert_eq!(s.flag(1), Ok(true));
}

#[test]
fn index_and_count_cells() {
    let mut s = WidgetStore::new();
    assert_eq!(s.index(2), Ok(None));
    assert_eq!(s.set_index(2, Some(3)), Ok(()));
    assert_eq!(s.index(2), Ok(Some(3)));
    assert_eq!(s.count(3), Ok(0));
    assert_eq!(s.set_count(3, 2), Ok(()));
    assert_eq!(s.count(3), Ok(2));
    assert_eq!(s.set_flag(3, false), Err(Mismatch { id: 3 }));
}

#[test]
fn get_or_init_creates_once() {
    let mut s = WidgetStore::new();
    assert_eq!(s.get_or_init(9, Cell::Count(5)), Ok(Cell::Count(5)));
    assert_eq!(s.get_or_init(9, Cell::Count(7)), Ok(Cell::Count(5)));
    assert_eq!(s.get_or_init(9, Cell::Flag(true)), Err(Mismatch { id: 9 }));
    assert_eq!(s.set(9, Cell::Count(1)), Ok(()));
    assert_eq!(s.get_or_init(9, Cell::Count(7)), Ok(Cell::Count(1)));
}
