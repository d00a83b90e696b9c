use ddb_products::console::{entered_value, prompt};

#[test]
fn prompt_names_the_field() {
    assert_eq!(prompt("category"), "Enter category: ");
    assert_eq!(prompt("product name"), "Enter product name: ");
    assert_eq!(prompt("price"), "Enter price: ");
    assert_eq!(prompt(""), "Enter : ");
}

#[test]
fn entered_value_strips_the_line_feed() {
    assert_eq!(entered_value("kitchen\n"), "kitchen");
    assert_eq!(entered_value("q\n"), "q");
    assert_eq!(entered_value("a\n"), "a");
}

#[test]
fn entered_value_strips_a_carriage_return_before_the_line_feed() {
    assert_eq!(entered_value("kitchen\r\n"), "kitchen");
    assert_eq!(entered_value("\r\n"), "");
}

#[test]
fn entered_value_keeps_trailing_spaces_and_tabs() {
    assert_eq!(entered_value("kettle  \n"), "kettle  ");
    assert_eq!(entered_value("4.50 \t \n"), "4.50 \t ");
    assert_eq!(entered_value("pan\u{3000}\u{a0}\r\n"), "pan\u{3000}\u{a0}");
    assert_eq!(entered_value("kettle  "), "kettle  ");
}

#[test]
fn entered_value_keeps_leading_and_inner_white_space() {
    assert_eq!(entered_value("  frying pan\n"), "  frying pan");
    assert_eq!(entered_value("\tq\n"), "\tq");
    assert_eq!(entered_value("a\nb\n"), "a\nb");
}

#[test]
fn entered_value_strips_one_line_ending_only() {
    assert_eq!(entered_value("a\n\n"), "a\n");
    assert_eq!(entered_value("a\r\n\r\n"), "a\r\n");
    assert_eq!(entered_value("a\r\r\n"), "a\r");
    assert_eq!(entered_value("a\n\r\n"), "a\n");
}

#[test]
fn entered_value_keeps_a_carriage_return_without_line_feed() {
    assert_eq!(entered_value("a\r"), "a\r");
    assert_eq!(entered_value("\r"), "\r");
    assert_eq!(entered_value("a\n\r"), "a\n\r");
}

#[test]
fn entered_value_of_blank_input_is_empty() {
    assert_eq!(entered_value(""), "");
    assert_eq!(entered_value("\n"), "");
    assert_eq!(entered_value(" \n"), " ");
}

#[test]
fn entered_value_without_line_ending_is_unchanged() {
    assert_eq!(entered_value("kettle"), "kettle");
    assert_eq!(entered_value("caf\u{e9} cr\u{e8}me"), "caf\u{e9} cr\u{e8}me");
}

#[test]
fn entered_value_counts_characters_not_bytes() {
    assert_eq!(entered_value("caf\u{e9}\n"), "caf\u{e9}");
    assert_eq!(entered_value("\u{8d8a}\u{1f600}\r\n"), "\u{8d8a}\u{1f600}");
}
