use std::rc::Rc;

use cef_bridge::oneshot::OneShotCell;

#[test]
fn take_yields_the_value_once() {
    let mut cell = OneShotCell::new(41);
    assert!(cell.is_armed());
    assert_eq!(cell.take(), Some(41));
    assert!(!cell.is_armed());
    assert_eq!(cell.take(), None);
    assert_eq!(cell.take(), None);
}

#[test]
fn empty_cell_yields_nothing() {
    let mut cell: OneShotCell<u8> = OneShotCell::empty();
    assert!(!cell.is_armed());
    assert_eq!(cell.take(), None);
}

#[test]
fn dropping_an_armed_cell_releases_its_resource_exactly_once() {
    let resource = Rc::new(5);
    assert_eq!(Rc::strong_count(&resource), 1);
    {
        let cell = OneShotCell::new(Rc::clone(&resource));
        assert_eq!(Rc::strong_count(&resource), 2);
        drop(cell);
    }
    assert_eq!(Rc::strong_count(&resource), 1);
}

#[test]
fn dropping_a_taken_cell_does_not_touch_the_resource_again() {
    let resource = Rc::new(5);
    let mut cell = OneShotCell::new(Rc::clone(&resource));
    let taken = cell.take().unwrap();
    assert_eq!(Rc::strong_count(&resource), 2);
    drop(cell);
    assert_eq!(Rc::strong_count(&resource), 2);
    drop(taken);
    assert_eq!(Rc::strong_count(&resource), 1);
}
