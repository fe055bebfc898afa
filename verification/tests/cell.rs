use dirty::Dirty;

#[test]
fn new_dirty() {
    let dirty = Dirty::new(0);
    assert!(dirty.dirty());
}

#[test]
fn new_dirty_clean() {
    let dirty = Dirty::new_clean(0);
    assert!(!dirty.dirty());
}

#[test]
fn read_doesnt_clear_flag() {
    let dirty = Dirty::new(0);
    assert!(dirty.dirty());
    assert!(*dirty.read() == 0);
    assert!(dirty.dirty());
}

#[test]
fn write_sets_flag() {
    let mut dirty = Dirty::new(0);
    assert!(*dirty.read() == 0);
    dirty.clear();
    assert!(!dirty.dirty());
    *dirty.write() += 1;
    assert!(dirty.dirty());
}

#[test]
fn read_dirty() {
    let mut dirty = Dirty::new(0);
    assert!(dirty.read_dirty().is_some());
    dirty.clear();
    assert!(!dirty.dirty());
    assert!(dirty.read_dirty() == None);
    assert!(!dirty.dirty());
    *dirty.write() += 1;
    assert!(dirty.dirty());
    assert!(dirty.read_dirty().is_some());
    dirty.clear();
    assert!(!dirty.dirty());
    assert!(dirty.read_dirty() == None);
}

#[test]
fn write_dirty() {
    let mut dirty = Dirty::new_clean(0);
    assert!(!dirty.write_dirty(|_| 3));
    *dirty.write() += 3;
    assert!(dirty.write_dirty(|_| [1, 2, 3].iter().copied().reduce(|acc, x| acc + x).unwrap()));
    assert_eq!(*dirty.read(), 6);
}

#[test]
fn access_inner_deref() {
    let dirty = Dirty::new(0);
    assert!(*dirty == 0);
}

#[test]
fn default_value() {
    let dirty = Dirty::<i32>::default();
    assert!(*dirty == 0);
}

#[test]
fn unwrap() {
    let mut dirty = Dirty::new(100);
    *dirty.write() = 200;
    assert_eq!(dirty.unwrap(), 200);
}
