use bunyan_view::divider_writer::{join_sections, DividerWriter};

fn texts(parts: &[&str]) -> Vec<String> {
    parts.iter().map(|part| String::from(*part)).collect()
}

#[test]
fn divider_stands_between_two_texts() {
    let mut writer = DividerWriter::new(String::new(), true);
    writer.write("a\n");
    assert!(writer.has_been_written);
    assert!(writer.divider_written);
    writer.mark_divider_as_unwritten();
    assert!(!writer.divider_written);
    writer.write("b\n");
    assert!(writer.divider_written);
    assert_eq!(writer.into_inner(), "a\n    --\nb\n");
}

#[test]
fn owed_divider_comes_before_the_first_text() {
    let mut writer = DividerWriter::new(String::from("top\n"), false);
    assert!(!writer.has_been_written);
    writer.write("a\n");
    writer.write("b\n");
    assert_eq!(writer.into_inner(), "top\n    --\na\nb\n");
}

#[test]
fn empty_text_changes_nothing() {
    let mut writer = DividerWriter::new(String::new(), false);
    writer.write("");
    assert!(!writer.has_been_written);
    assert!(!writer.divider_written);
    assert_eq!(writer.into_inner(), "");
}

#[test]
fn sections_are_joined_with_one_divider_less_than_there_are_texts() {
    assert_eq!(join_sections(&texts(&[])), "");
    assert_eq!(join_sections(&texts(&["", "", ""])), "");
    assert_eq!(join_sections(&texts(&["", "a\n", ""])), "a\n");
    assert_eq!(join_sections(&texts(&["a\n", "", "b\n"])), "a\n    --\nb\n");
    assert_eq!(
        join_sections(&texts(&["", "a\n", "b\n", "", "", "c\n", ""])),
        "a\n    --\nb\n    --\nc\n"
    );
}

#[test]
fn writer_runs_sections_after_what_it_holds() {
    let mut writer = DividerWriter::new(String::from("summary\n"), true);
    writer.write_sections(&texts(&["", "x\n", "y\n"]));
    assert!(writer.has_been_written);
    assert!(!writer.divider_written);
    assert_eq!(writer.into_inner(), "summary\nx\n    --\ny\n");
}
