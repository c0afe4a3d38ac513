use shellfm::listing::{Descend, Dir, DirList, EntryKind};

fn kids() -> Vec<Dir> {
    vec![
        Dir::new(String::from("/x/a.txt"), String::from("a.txt"), EntryKind::File),
        Dir::new(String::from("/x/b"), String::from("b"), EntryKind::Directory),
    ]
}

fn labels(l: &DirList) -> Vec<String> {
    l.items().iter().map(|d| d.display.clone()).collect()
}

#[test]
fn listing_with_parent_starts_with_parent_reference() {
    let l = DirList::new(String::from("/x"), kids());
    assert_eq!(labels(&l), vec!["../", "a.txt", "b"]);
    assert_eq!(l.items()[0].kind, EntryKind::ParentRef);
    assert_eq!(l.items()[0].path, "../");
    assert!(l.items()[0].is_parent_ref());
    assert_eq!(l.curr_dir(), "/x");
    assert_eq!(l.selected(), Some(0));
}

#[test]
fn listing_at_root_has_no_parent_reference() {
    let l = DirList::new(String::from("/"), kids());
    assert_eq!(labels(&l), vec!["a.txt", "b"]);
    assert!(l.items().iter().all(|d| !d.is_parent_ref()));
}

#[test]
fn empty_listing_at_root_selects_nothing() {
    let mut l = DirList::new(String::from("/"), Vec::new());
    assert_eq!(l.len(), 0);
    assert_eq!(l.selected(), None);
    assert!(l.selected_entry().is_none());
    l.select_next();
    l.select_prev();
    l.select_first();
    l.select_last();
    assert_eq!(l.selected(), None);
    assert!(matches!(l.descend(), Descend::Stay));
}

#[test]
fn unreadable_directory_keeps_only_parent_reference() {
    let l = DirList::new(String::from("/gone"), Vec::new());
    assert_eq!(labels(&l), vec!["../"]);
    assert_eq!(l.selected(), Some(0));
}

#[test]
fn select_next_wraps_back_to_start() {
    let mut l = DirList::new(String::from("/x"), kids());
    l.select_next();
    let start = l.selected();
    assert_eq!(start, Some(1));
    for _ in 0..l.len() {
        l.select_next();
    }
    assert_eq!(l.selected(), start);
}

#[test]
fn select_next_from_last_goes_to_first() {
    let mut l = DirList::new(String::from("/x"), kids());
    l.select_last();
    assert_eq!(l.selected(), Some(2));
    l.select_next();
    assert_eq!(l.selected(), Some(0));
}

#[test]
fn select_prev_from_first_goes_to_last() {
    let mut l = DirList::new(String::from("/x"), kids());
    assert_eq!(l.selected(), Some(0));
    l.select_prev();
    assert_eq!(l.selected(), Some(2));
    l.select_prev();
    assert_eq!(l.selected(), Some(1));
    l.select_first();
    assert_eq!(l.selected(), Some(0));
}

#[test]
fn descend_by_kind_of_selected_entry() {
    let mut l = DirList::new(String::from("/x"), kids());
    assert!(matches!(l.descend(), Descend::Ascend));
    l.select_next();
    assert_eq!(l.selected_entry().unwrap().display, "a.txt");
    assert!(matches!(l.descend(), Descend::Stay));
    l.select_last();
    match l.descend() {
        Descend::Enter(p) => assert_eq!(p, "/x/b"),
        _ => panic!("expected to enter b"),
    }
}

#[test]
fn up_path_is_parent_or_root() {
    let l = DirList::new(String::from("/x/y"), Vec::new());
    assert_eq!(l.up_path(), "/x");
    let l = DirList::new(String::from("/x"), Vec::new());
    assert_eq!(l.up_path(), "/");
    let l = DirList::new(String::from("/"), Vec::new());
    assert_eq!(l.up_path(), "/");
}
