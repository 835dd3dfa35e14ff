use noterust::text::{decimal, gutter_digits, line_count, line_number_label};

#[test]
fn line_count_examples() {
    assert_eq!(line_count(""), 1);
    assert_eq!(line_count("a"), 1);
    assert_eq!(line_count("a\n"), 1);
    assert_eq!(line_count("a\nb"), 2);
    assert_eq!(line_count("a\nb\n"), 2);
    assert_eq!(line_count("\n"), 1);
    assert_eq!(line_count("\n\n"), 2);
    assert_eq!(line_count("a\r\nb\r\n"), 2);
    assert_eq!(line_count("一\n二\n三"), 3);
}

#[test]
fn line_count_agrees_with_str_lines() {
    let samples = [
        "", "x", "\n", "\n\n\n", "a\n\nb", "a\r\n", "\r\n\r\n", "end\n", "no newline", "多\n行",
    ];
    for s in samples.iter() {
        assert_eq!(line_count(s), s.lines().count().max(1), "text {:?}", s);
    }
}

#[test]
fn decimal_examples() {
    assert_eq!(decimal(0), "0");
    assert_eq!(decimal(7), "7");
    assert_eq!(decimal(10), "10");
    assert_eq!(decimal(120), "120");
    assert_eq!(decimal(usize::MAX), usize::MAX.to_string());
    for n in 0..2000usize {
        assert_eq!(decimal(n), n.to_string());
    }
}

#[test]
fn line_number_labels_are_right_aligned() {
    assert_eq!(line_number_label(7, 3), "  7");
    assert_eq!(line_number_label(42, 3), " 42");
    assert_eq!(line_number_label(999, 3), "999");
    assert_eq!(line_number_label(1234, 3), "1234");
    assert_eq!(line_number_label(5, 0), "5");
    for i in 1..=150usize {
        assert_eq!(line_number_label(i, 4), format!("{:>width$}", i, width = 4));
    }
}

#[test]
fn gutter_is_at_least_three_digits() {
    assert_eq!(gutter_digits(""), 3);
    assert_eq!(gutter_digits("one line"), 3);
    let many = "x\n".repeat(1000);
    assert_eq!(gutter_digits(&many), 4);
    let lots = "\n".repeat(12345);
    assert_eq!(gutter_digits(&lots), 5);
}

#[test]
fn gutter_labels_line_up() {
    let text = "\n".repeat(1005);
    let count = line_count(&text);
    let width = gutter_digits(&text);
    assert_eq!(count, 1005);
    for i in 1..=count {
        assert_eq!(line_number_label(i, width).chars().count(), width);
    }
}
