use reminders::todo_text::blank_line;
use reminders::todo_text::find_ci;
use reminders::todo_text::get_section;
use reminders::todo_text::header_level;
use reminders::todo_text::tag_class;
use reminders::todo_text::tag_word;
use reminders::todo_text::task_has_tag;
use reminders::todo_text::task_line;
use reminders::todo_text::toggle_task;
use reminders::todo_text::TagClass;

#[test]
fn task_line_classification() {
    assert_eq!(task_line(b"- [ ] water plants"), Some((0, b' ')));
    assert_eq!(task_line(b"- [x] water plants"), Some((0, b'x')));
    assert_eq!(task_line(b"  - [ ] nested"), Some((2, b' ')));
    assert_eq!(task_line(b"- [y] other mark"), None);
    assert_eq!(task_line(b"-[ ] no space"), None);
    assert_eq!(task_line(b"# header"), None);
}

#[test]
fn header_line_classification() {
    assert_eq!(header_level(b"# Top"), Some(1));
    assert_eq!(header_level(b"### Deep"), Some(3));
    assert_eq!(header_level(b"#nospace"), None);
    assert_eq!(header_level(b"plain"), None);
    assert_eq!(header_level(b"#"), None);
}

#[test]
fn blank_line_classification() {
    assert!(blank_line(b""));
    assert!(blank_line(b"   \t"));
    assert!(!blank_line(b" x "));
}

#[test]
fn tag_words_and_classes() {
    assert!(tag_word(b"#high", 0, 5));
    assert!(!tag_word(b"#", 0, 1));
    assert!(!tag_word(b"high", 0, 4));
    assert_eq!(tag_class(b"#high", 0, 5), TagClass::High);
    assert_eq!(tag_class(b"#medium", 0, 7), TagClass::Medium);
    assert_eq!(tag_class(b"#low", 0, 4), TagClass::Low);
    assert_eq!(tag_class(b"#errand", 0, 7), TagClass::Other);
    assert_eq!(tag_class(b"#High", 0, 5), TagClass::Other);
}

#[test]
fn case_insensitive_search() {
    assert!(find_ci(b"Some Groceries here", 0, 19, b"groceries"));
    assert!(!find_ci(b"Some Groceries here", 0, 4, b"groceries"));
    assert!(!find_ci(b"Some Groceries here", 0, 19, b"chores"));
    assert!(find_ci(b"abc", 0, 3, b""));
}

fn doc() -> Vec<Vec<u8>> {
    vec![
        b"# Home".to_vec(),
        b"- [ ] water plants #low".to_vec(),
        b"## Garden".to_vec(),
        b"- [x] mow lawn".to_vec(),
        b"# Work".to_vec(),
        b"- [ ] file report #high".to_vec(),
    ]
}

#[test]
fn section_lookup() {
    let lines = doc();
    // The empty name selects everything.
    assert_eq!(get_section(&lines, b""), Some((0, 6)));
    // A section runs to the next header of the same level.
    assert_eq!(get_section(&lines, b"home"), Some((0, 4)));
    assert_eq!(get_section(&lines, b"garden"), Some((2, 6)));
    assert_eq!(get_section(&lines, b"Work"), Some((4, 6)));
    assert_eq!(get_section(&lines, b"kitchen"), None);
}

#[test]
fn tag_filtering() {
    assert!(task_has_tag(b"- [ ] file report #high", b"high", false));
    assert!(task_has_tag(b"- [ ] file report #HIGH now", b"high", false));
    assert!(!task_has_tag(b"- [ ] file report #highest", b"high", false));
    assert!(!task_has_tag(b"- [ ] no tag here", b"high", false));
    // Completed tasks only count when asked for.
    assert!(!task_has_tag(b"- [x] done #high", b"high", false));
    assert!(task_has_tag(b"- [x] done #high", b"high", true));
}

#[test]
fn toggle_task_mark() {
    assert_eq!(toggle_task(b"- [ ] water"), b"- [x] water".to_vec());
    assert_eq!(toggle_task(b"- [x] water"), b"- [ ] water".to_vec());
    assert_eq!(toggle_task(b"abc"), b"abc".to_vec());
}
