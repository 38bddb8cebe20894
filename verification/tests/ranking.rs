use histrank::exclude::{Exclusions, MAX_PATTERNS};
use histrank::history::{absorb, history_text, list_height, position, rank, Command, CommandStatus};

fn lines(texts: &[&str]) -> Vec<String> {
    texts.iter().map(|t| t.to_string()).collect()
}

fn nothing_excluded() -> Exclusions {
    Exclusions::new(&Vec::new()).unwrap()
}

fn excluding(patterns: &[&str]) -> Exclusions {
    Exclusions::new(&lines(patterns)).unwrap()
}

fn saved(raw: &str) -> Command {
    Command::new(raw.to_string(), CommandStatus::Save)
}

fn deleted(raw: &str) -> Command {
    Command::new(raw.to_string(), CommandStatus::Delete)
}

fn raws(commands: &[Command]) -> Vec<&str> {
    commands.iter().map(|c| c.raw.as_str()).collect()
}

#[test]
fn command_new_keeps_its_fields() {
    let command = Command::new("ls -la".to_string(), CommandStatus::Delete);
    assert_eq!(command.raw, "ls -la");
    assert_eq!(command.status, CommandStatus::Delete);
}

#[test]
fn empty_input_gives_an_empty_list() {
    let ranked = rank(&Vec::new(), &nothing_excluded());
    assert!(ranked.is_empty());
}

#[test]
fn lines_without_repeats_keep_their_order() {
    let input = lines(&["git status\n", "cargo build  \n", "ls\t\n", "pwd"]);
    let ranked = rank(&input, &nothing_excluded());
    assert_eq!(
        ranked,
        vec![saved("git status"), saved("cargo build"), saved("ls"), saved("pwd")]
    );
}

#[test]
fn a_repeat_at_the_front_changes_nothing() {
    let input = lines(&["ls", "cd ..", "ls", "ls", "pwd"]);
    let ranked = rank(&input, &nothing_excluded());
    assert_eq!(raws(&ranked), vec!["ls", "cd ..", "pwd"]);
    assert!(ranked.iter().all(|c| c.status == CommandStatus::Save));
}

#[test]
fn a_repeat_at_the_second_place_takes_the_front() {
    let input = lines(&["a", "b", "a", "c", "a", "b"]);
    let ranked = rank(&input, &nothing_excluded());
    assert_eq!(raws(&ranked), vec!["b", "a", "c"]);
}

#[test]
fn a_repeat_swaps_with_the_entry_half_way_to_the_front() {
    let mut list = vec![saved("a"), saved("b"), saved("c"), saved("d")];
    absorb(&mut list, "c", false);
    assert_eq!(list, vec![saved("a"), saved("c"), saved("b"), saved("d")]);
}

#[test]
fn a_repeat_far_back_moves_half_the_way() {
    let mut list = vec![
        saved("a"),
        saved("b"),
        saved("c"),
        saved("d"),
        saved("e"),
        saved("f"),
        saved("g"),
    ];
    absorb(&mut list, "g\n", false);
    assert_eq!(raws(&list), vec!["a", "b", "c", "g", "e", "f", "d"]);
    absorb(&mut list, "g\n", false);
    assert_eq!(raws(&list), vec!["a", "g", "c", "b", "e", "f", "d"]);
    absorb(&mut list, "g\n", false);
    assert_eq!(raws(&list), vec!["g", "a", "c", "b", "e", "f", "d"]);
    absorb(&mut list, "g\n", false);
    assert_eq!(raws(&list), vec!["g", "a", "c", "b", "e", "f", "d"]);
}

#[test]
fn a_new_line_is_appended_trimmed() {
    let mut list = vec![saved("a")];
    absorb(&mut list, "b \t\r\n", false);
    assert_eq!(list, vec![saved("a"), saved("b")]);
}

#[test]
fn an_excluded_line_is_appended_as_it_was_read() {
    let mut list = vec![saved("a")];
    absorb(&mut list, "a  \n", true);
    absorb(&mut list, "a  \n", true);
    assert_eq!(list, vec![saved("a"), deleted("a  \n"), deleted("a  \n")]);
}

#[test]
fn a_blank_line_is_the_empty_command() {
    let input = lines(&["  \n", "ls\n", "\n", "\t\n"]);
    let ranked = rank(&input, &nothing_excluded());
    assert_eq!(ranked, vec![saved(""), saved("ls")]);
}

#[test]
fn trimming_follows_unicode_white_space() {
    let input = lines(&["ls\u{3000}\u{a0}\u{2003}\u{85}", "cd\u{200b}", " pwd"]);
    let ranked = rank(&input, &nothing_excluded());
    assert_eq!(raws(&ranked), vec!["ls", "cd\u{200b}", " pwd"]);
}

#[test]
fn at_most_one_saved_entry_for_each_text() {
    let input = lines(&["a\n", "b\n", "a \n", "c\n", "b\n", "a\n", "c\n", "d\n", "d\n", "a"]);
    let ranked = rank(&input, &nothing_excluded());
    let mut texts: Vec<&str> = raws(&ranked);
    assert_eq!(texts.len(), 4);
    texts.sort();
    assert_eq!(texts, vec!["a", "b", "c", "d"]);
}

#[test]
fn excluded_lines_are_tagged_and_never_merged() {
    let input = lines(&["ls\n", "rm -rf x\n", "ls\n", "rm -rf x\n", "pwd\n"]);
    let ranked = rank(&input, &excluding(&["^rm "]));
    assert_eq!(
        ranked,
        vec![saved("ls"), deleted("rm -rf x\n"), deleted("rm -rf x\n"), saved("pwd")]
    );
}

#[test]
fn any_pattern_of_the_set_excludes() {
    let input = lines(&["ls\n", "sudo reboot\n", "cat secret.txt\n", "pwd\n"]);
    let ranked = rank(&input, &excluding(&["^sudo", "secret"]));
    assert_eq!(
        ranked,
        vec![
            saved("ls"),
            deleted("sudo reboot\n"),
            deleted("cat secret.txt\n"),
            saved("pwd")
        ]
    );
}

#[test]
fn the_exclusions_see_the_line_untrimmed() {
    let input = lines(&["ls  \n", "ls\n", "ls"]);
    let ranked = rank(&input, &excluding(&["ls $"]));
    assert_eq!(ranked, vec![saved("ls")]);
    let ranked = rank(&input, &excluding(&[r"ls \s"]));
    assert_eq!(ranked, vec![saved("ls"), deleted("ls  \n")]);
    let ranked = rank(&lines(&["ls  \n", "ls\n"]), &excluding(&[r"ls \s"]));
    assert_eq!(ranked, vec![deleted("ls  \n"), saved("ls")]);
}

#[test]
fn a_saved_command_is_not_merged_with_an_excluded_line() {
    let exclusions = excluding(&[r"\Afoo\z"]);
    let ranked = rank(&lines(&["foo", "foo \n"]), &exclusions);
    assert_eq!(ranked, vec![deleted("foo"), saved("foo")]);
    let ranked = rank(&lines(&["foo", "foo \n", "foo\t\n"]), &exclusions);
    assert_eq!(ranked, vec![saved("foo"), deleted("foo")]);
}

#[test]
fn a_repeat_may_move_an_excluded_line_back() {
    let input = lines(&["a\n", "x1\n", "x2\n", "b\n", "b\n"]);
    let ranked = rank(&input, &excluding(&["^x"]));
    assert_eq!(
        ranked,
        vec![saved("a"), saved("b"), deleted("x2\n"), deleted("x1\n")]
    );
}

#[test]
fn ranking_a_ranked_list_again_changes_nothing() {
    let exclusions = excluding(&["^rm "]);
    let input = lines(&["a\n", "rm x\n", "b\n", "a\n", "c \n", "b\n", "rm x\n", "b\n"]);
    let once = rank(&input, &exclusions);
    let texts: Vec<String> = once.iter().map(|c| c.raw.clone()).collect();
    let twice = rank(&texts, &exclusions);
    assert_eq!(once, twice);
}

#[test]
fn a_malformed_pattern_is_an_error() {
    let made = Exclusions::new(&lines(&["ls", "(unclosed"]));
    match made {
        Ok(_) => panic!("the pattern was accepted"),
        Err(error) => assert!(!error.message.is_empty()),
    }
}

#[test]
fn no_patterns_given_exclude_nothing() {
    let exclusions = Exclusions::given(&None).unwrap();
    assert!(!exclusions.is_excluded(""));
    assert!(!exclusions.is_excluded("anything at all\n"));
    let exclusions = Exclusions::given(&Some(lines(&["any"]))).unwrap();
    assert!(exclusions.is_excluded("anything at all\n"));
    assert!(!exclusions.is_excluded("nothing\n"));
    assert!(Exclusions::given(&Some(lines(&["["]))).is_err());
}

#[test]
fn position_passes_over_entries_tagged_for_deletion() {
    let list = vec![deleted("b"), saved("a"), saved("b"), saved("c")];
    assert_eq!(position(&list, &"b".to_string()), Some(2));
    assert_eq!(position(&list, &"a".to_string()), Some(1));
    assert_eq!(position(&list, &"d".to_string()), None);
    assert_eq!(position(&Vec::new(), &"a".to_string()), None);
}

#[test]
fn the_history_text_has_one_line_for_each_entry() {
    let list = vec![saved("ls"), deleted("rm x\n"), saved(""), saved("pwd")];
    assert_eq!(history_text(&list), "ls\nrm x\n\n\npwd\n");
    assert_eq!(history_text(&[]), "");
}

#[test]
fn the_viewport_has_five_rows_more_than_the_list_up_to_twenty() {
    assert_eq!(list_height(0), 5);
    assert_eq!(list_height(3), 8);
    assert_eq!(list_height(19), 24);
    assert_eq!(list_height(20), 25);
    assert_eq!(list_height(21), 25);
    assert_eq!(list_height(65535), 25);
    assert_eq!(list_height(65536), 5);
    assert_eq!(list_height(65539), 8);
}

#[test]
fn a_set_takes_as_many_patterns_as_a_31_bit_count() {
    assert_eq!(MAX_PATTERNS, 2_147_483_647);
    let many: Vec<String> = (0..1000u32).map(|n| format!("^cmd{}$", n)).collect();
    let exclusions = Exclusions::new(&many).unwrap();
    assert!(exclusions.is_excluded("cmd999"));
    assert!(!exclusions.is_excluded("cmd1000"));
}

#[test]
fn an_empty_list_of_patterns_excludes_nothing() {
    let exclusions = Exclusions::given(&Some(Vec::new())).unwrap();
    assert!(!exclusions.is_excluded(""));
    assert!(!exclusions.is_excluded("ls\n"));
}

#[test]
fn the_same_patterns_exclude_the_same_lines() {
    let patterns = lines(&["^sudo", r"\d+$"]);
    let first = Exclusions::new(&patterns).unwrap();
    let second = Exclusions::new(&patterns).unwrap();
    for line in ["sudo ls", "ls", "kill 42", "kill 42\n", "", "pseudo"] {
        assert_eq!(first.is_excluded(line), second.is_excluded(line));
    }
    assert!(first.is_excluded("sudo ls"));
    assert!(first.is_excluded("kill 42"));
    assert!(!first.is_excluded("kill 42\n"));
    assert!(!first.is_excluded("pseudo"));
}
