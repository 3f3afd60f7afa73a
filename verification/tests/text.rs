use suite_runner::text::{split_lines, write_lines};

fn strings(lines: &[&str]) -> Vec<String> {
    lines.iter().map(|line| line.to_string()).collect()
}

#[test]
fn text_without_a_line_break_is_one_piece() {
    assert_eq!(split_lines("one piece"), strings(&["one piece"]));
    assert_eq!(split_lines(""), strings(&[""]));
}

#[test]
fn text_is_cut_at_every_line_break() {
    assert_eq!(split_lines("a\n\nbc\n"), strings(&["a", "", "bc", ""]));
    assert_eq!(split_lines("\n"), strings(&["", ""]));
    assert_eq!(split_lines("\nx"), strings(&["", "x"]));
}

#[test]
fn cutting_agrees_with_the_standard_split() {
    let texts =
        ["", "\n", "a", "a\n", "\na", "a\nb", "a\n\nb\n\n", "\r\n", "é\n日本\n", "  \n\t\n "];
    for text in texts {
        let expected: Vec<String> = text.split('\n').map(String::from).collect();
        assert_eq!(split_lines(text), expected);
    }
}

#[test]
fn joining_the_pieces_gives_the_text_back() {
    for text in ["", "\n", "a", "a\n", "\na", "a\nb", "a\n\nb\n\n", "line one\nline two"] {
        assert_eq!(split_lines(text).join("\n"), text);
    }
}

#[test]
fn no_piece_holds_a_line_break() {
    for piece in split_lines("a\nb\n\nc\n") {
        assert!(!piece.contains('\n'));
    }
}

#[test]
fn lines_are_written_each_with_a_line_break() {
    assert_eq!(write_lines(&strings(&["a", "", "b"])), "a\n\nb\n");
    assert_eq!(write_lines(&Vec::new()), "");
    assert_eq!(write_lines(&strings(&[""])), "\n");
}
