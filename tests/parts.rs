use file_explorer::cursor::Cursor;
use file_explorer::directory::{sort_dirs_first, Directory, Error};
use file_explorer::input::{chars_of, Input};
use file_explorer::item::Item;
use file_explorer::key::{command_of, Command, Key};
use file_explorer::mode::{Mode, Modes};
use file_explorer::selection::Selection;

fn s(x: &str) -> String {
    String::from(x)
}

fn dir(name: &str) -> Item {
    Item::new(s(name), true)
}

fn file(name: &str) -> Item {
    Item::new(s(name), false)
}

fn listed(path: &[&str], entries: Vec<Item>) -> Directory {
    let mut d = Directory::new(path.iter().map(|p| s(p)).collect());
    d.refresh(Ok(entries)).unwrap();
    d
}

#[test]
fn cursor_saturates() {
    let mut c = Cursor::new(1, 3);
    c.mut_move_rel(isize::MAX);
    assert_eq!(c.position, 3);
    c.mut_move_rel(isize::MAX);
    assert_eq!(c.position, 3);
    c.mut_move_rel(isize::MIN);
    assert_eq!(c.position, 0);
    c.mut_move_rel(-1);
    assert_eq!(c.position, 0);
    c.mut_move_rel(2);
    assert_eq!(c.position, 2);
    c.mut_move_rel(0);
    assert_eq!(c.position, 2);
    assert_eq!(c.max, 3);
}

#[test]
fn cursor_on_empty_listing() {
    let mut c = Cursor::new(0, 0);
    c.mut_move_rel(1);
    assert_eq!(c.position, 0);
    c.mut_move_rel(-1);
    assert_eq!(c.position, 0);
}

#[test]
fn cursor_absolute_clamps() {
    let mut c = Cursor::new(9, 4);
    assert_eq!(c.position, 4);
    c.mut_move_abs(2);
    assert_eq!(c.position, 2);
    c.mut_move_abs(100);
    assert_eq!(c.position, 4);
}

#[test]
fn cursor_update_resyncs() {
    let mut c = Cursor::new(2, 5);
    c.update(&listed(&["x"], vec![file("a"), file("b"), file("c"), file("d")]));
    assert_eq!(c.max, 3);
    assert_eq!(c.position, 2);
    c.update(&listed(&["x"], vec![file("a")]));
    assert_eq!(c.max, 0);
    assert_eq!(c.position, 0);
    c.update(&listed(&["x"], Vec::new()));
    assert_eq!(c.max, 0);
    assert_eq!(c.position, 0);
}

#[test]
fn sort_puts_directories_first_and_is_stable() {
    let r = sort_dirs_first(&vec![
        file("z"),
        dir("y"),
        file("a"),
        dir("b"),
        file("m"),
        dir("a"),
    ]);
    let got: Vec<(String, bool)> = r.iter().map(|i| (i.name.clone(), i.is_dir)).collect();
    assert_eq!(
        got,
        vec![
            (s("y"), true),
            (s("b"), true),
            (s("a"), true),
            (s("z"), false),
            (s("a"), false),
            (s("m"), false),
        ]
    );
}

#[test]
fn refresh_failure_keeps_snapshot() {
    let mut d = listed(&["x"], vec![file("a"), dir("b")]);
    assert_eq!(d.refresh(Err(Error::Io)), Err(Error::Io));
    assert_eq!(d.count, 2);
    assert_eq!(d.items[0].name, s("b"));
}

#[test]
fn cd_replaces_path() {
    let mut d = listed(&["x"], vec![dir("b")]);
    d.cd(vec![s("x"), s("b")], Ok(vec![file("q")])).unwrap();
    assert_eq!(d.path, vec![s("x"), s("b")]);
    assert_eq!(d.count, 1);
    assert_eq!(d.cd(vec![s("y")], Err(Error::NotFound)), Err(Error::NotFound));
    assert_eq!(d.path, vec![s("x"), s("b")]);
}

#[test]
fn item_lookup_past_end_is_absent() {
    let d = listed(&["x"], vec![file("a")]);
    assert_eq!(d.item_at(0).map(|i| i.name.clone()), Some(s("a")));
    assert!(d.item_at(1).is_none());
    assert!(d.path_of(5).is_none());
}

#[test]
fn delete_item_decisions() {
    let d = listed(&["x", "y"], vec![file("f"), dir("d")]);
    assert_eq!(d.delete_item(0), Err(Error::InvalidOperation));
    assert_eq!(d.delete_item(1), Ok(vec![s("x"), s("y"), s("f")]));
    assert_eq!(d.delete_item(2), Err(Error::NotFound));
}

#[test]
fn rename_item_builds_sibling_path() {
    let d = listed(&["x"], vec![file("f"), dir("d")]);
    assert_eq!(
        d.rename_item(0, s("e")),
        Ok((vec![s("x"), s("d")], vec![s("x"), s("e")]))
    );
    assert_eq!(d.rename_item(7, s("e")), Err(Error::NotFound));
}

#[test]
fn rename_round_trip() {
    let mut d = listed(&["x"], vec![file("f"), dir("d"), file("g")]);
    let (_, to) = d.rename_item(1, s("h")).unwrap();
    assert_eq!(to.last(), Some(&s("h")));
    d.refresh(Ok(vec![file("g"), dir("d"), file("h")])).unwrap();
    let names: Vec<String> = d.items.iter().map(|i| i.name.clone()).collect();
    assert!(names.contains(&s("h")));
    assert!(!names.contains(&s("f")));
}

#[test]
fn parent_and_name() {
    let d = listed(&["x", "y"], Vec::new());
    assert_eq!(d.parent(), Some(vec![s("x")]));
    assert_eq!(d.name(), Some(&s("y")));
    let root = listed(&[], Vec::new());
    assert_eq!(root.parent(), None);
    assert_eq!(root.name(), None);
}

#[test]
fn position_of_dir_skips_files() {
    let d = listed(&["x"], vec![file("p"), dir("q"), dir("p")]);
    assert_eq!(d.position_of_dir(&s("p")), Some(1));
    assert_eq!(d.position_of_dir(&s("nope")), None);
}

#[test]
fn selection_update_is_interval_and_idempotent() {
    let mut sel = Selection::new(5);
    assert_eq!(sel.selected, vec![5]);
    sel.update(&8);
    assert_eq!(sel.selected, vec![5, 6, 7, 8]);
    sel.update(&8);
    assert_eq!(sel.selected, vec![5, 6, 7, 8]);
    sel.update(&3);
    assert_eq!(sel.selected, vec![3, 4, 5]);
    assert_eq!(sel.start, 5);
    assert!(sel.contains(4));
    assert!(!sel.contains(6));
    sel.set(vec![1]);
    assert_eq!(sel.selected, vec![1]);
    assert_eq!(sel.start, 5);
}

#[test]
fn input_editing() {
    let mut i = Input::new(chars_of(&s("abc")), 0);
    assert_eq!(i.caret, 3);
    i.edit(Key::Right);
    assert_eq!(i.caret, 3);
    i.edit(Key::Left);
    i.edit(Key::Char('X'));
    assert_eq!(i.text, vec!['a', 'b', 'X', 'c']);
    assert_eq!(i.caret, 3);
    i.edit(Key::Delete);
    assert_eq!(i.text, vec!['a', 'b', 'X']);
    i.edit(Key::Delete);
    assert_eq!(i.text, vec!['a', 'b', 'X']);
    i.edit(Key::Backspace);
    assert_eq!(i.text, vec!['a', 'b']);
    assert_eq!(i.caret, 2);
    i.edit(Key::Left);
    i.edit(Key::Left);
    i.edit(Key::Left);
    assert_eq!(i.caret, 0);
    i.edit(Key::Backspace);
    assert_eq!(i.text, vec!['a', 'b']);
    i.edit(Key::Up);
    assert_eq!(i.caret, 0);
}

#[test]
fn chars_of_unicode() {
    assert_eq!(chars_of(&s("héllo")), vec!['h', 'é', 'l', 'l', 'o']);
    assert!(chars_of(&s("")).is_empty());
}

#[test]
fn key_bindings() {
    assert_eq!(command_of(&Modes::Explore, Key::Char('x')), Command::Delete);
    assert_eq!(command_of(&Modes::Explore, Key::Ctrl('q')), Command::Quit);
    assert_eq!(command_of(&Modes::Select(Selection::new(0)), Key::Char('x')), Command::DeleteSelected);
    assert_eq!(command_of(&Modes::Select(Selection::new(0)), Key::Char('r')), Command::Ignore);
    assert_eq!(command_of(&Modes::Input(Input::new(Vec::new(), 0)), Key::Char('x')), Command::Edit);
    assert_eq!(command_of(&Modes::Quit, Key::Char('j')), Command::Ignore);
}

#[test]
fn mode_default_and_switch() {
    let mut m = Mode::default();
    assert!(matches!(m.get(), Modes::Explore));
    m.switch(Modes::Quit);
    assert!(matches!(m.get(), Modes::Quit));
    assert_eq!(m.get().to_string(), s("QUIT"));
}
