use blueprint::commands::{parse_argument, parse_arguments, Command};
use blueprint::state::{generate_md_string, ListSelection, Mode};
use blueprint::data_types::AppData;
use blueprint::text::{join_lines, split_lines, str_eq};

fn strings(v: &[&str]) -> Vec<String> {
    v.iter().map(|s| s.to_string()).collect()
}

#[test]
fn split_lines_matches_str_split() {
    for s in ["", "a", "a\nb", "a\n", "\n", "\n\nx\n", "héllo\nwörld"] {
        let expected: Vec<String> = s.split('\n').map(|p| p.to_string()).collect();
        assert_eq!(split_lines(s), expected, "splitting {:?}", s);
    }
}

#[test]
fn join_lines_matches_slice_join() {
    for v in [vec![], vec!["a"], vec!["a", "b"], vec!["", ""], vec!["x", "", "y"]] {
        let parts = strings(&v);
        assert_eq!(join_lines(&parts), parts.join("\n"));
    }
}

#[test]
fn join_of_split_gives_text_back() {
    for s in ["", "one", "one\ntwo", "trailing\n", "\n\n"] {
        assert_eq!(join_lines(&split_lines(s)), s);
    }
}

#[test]
fn split_of_join_gives_lines_back() {
    let lines = strings(&["first", "", "third"]);
    assert_eq!(split_lines(&join_lines(&lines)), lines);
}

#[test]
fn str_eq_compares_texts() {
    assert!(str_eq("abc", "abc"));
    assert!(!str_eq("abc", "abd"));
    assert!(!str_eq("abc", "ab"));
}

#[test]
fn parse_argument_recognises_each_command() {
    assert_eq!(parse_argument("--help"), Some(Command::Help));
    assert_eq!(parse_argument("-h"), Some(Command::Help));
    assert_eq!(parse_argument("--reset"), Some(Command::Reset));
    assert_eq!(parse_argument("structs"), Some(Command::Structs));
    assert_eq!(parse_argument("enums"), Some(Command::Enums));
    assert_eq!(parse_argument("traits"), Some(Command::Traits));
    assert_eq!(parse_argument("check"), Some(Command::Workflow));
    assert_eq!(parse_argument("workflow"), None);
    assert_eq!(parse_argument(""), None);
}

#[test]
fn parse_arguments_keeps_order_and_skips_unknown() {
    let args = strings(&["blueprint", "traits", "--bogus", "-h", "structs"]);
    assert_eq!(parse_arguments(&args), vec![Command::Traits, Command::Help, Command::Structs]);
    assert_eq!(parse_arguments(&Vec::new()), Vec::<Command>::new());
}

#[test]
fn toggle_twice_gives_mode_back() {
    let mut m = Mode::Display;
    m.toggle();
    assert_eq!(m, Mode::Edit);
    m.toggle();
    assert_eq!(m, Mode::Display);
    assert_eq!(Mode::default(), Mode::Display);
}

#[test]
fn list_selection_moves() {
    let mut l = ListSelection::default();
    assert_eq!(l.selected(), None);
    l.select_next();
    assert_eq!(l.selected(), Some(0));
    l.select_next();
    l.select_previous();
    assert_eq!(l.selected(), Some(0));
    l.select_previous();
    assert_eq!(l.selected(), Some(0));
    let mut m = ListSelection::default();
    m.select_previous();
    assert_eq!(m.selected(), Some(usize::MAX));
    m.select_next();
    assert_eq!(m.selected(), Some(usize::MAX));
    m.select(Some(4));
    assert_eq!(m.index_or_first(), 4);
    m.select_last();
    assert_eq!(m.selected(), Some(usize::MAX));
    assert_eq!(ListSelection::default().index_or_first(), 0);
}

#[test]
fn markdown_is_the_description() {
    let mut d = AppData::default();
    d.description = "My project\nDoes things".to_string();
    assert_eq!(generate_md_string(&d), "My project\nDoes things");
}
