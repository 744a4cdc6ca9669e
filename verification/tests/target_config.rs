use screen::target_config::{
    extract_monitor_index, from_poe_config, index_from_field, DEFAULT_ADAPTER,
};

#[test]
fn adapter_with_one_annotation() {
    assert_eq!(extract_monitor_index("AMD Radeon RX 5700 XT(#0)"), Some(0));
    assert_eq!(extract_monitor_index("NVIDIA GeForce(#3)"), Some(3));
    assert_eq!(extract_monitor_index("Card(#12)"), Some(12));
}

#[test]
fn last_annotation_wins() {
    assert_eq!(extract_monitor_index("Foo(#0)(#2)"), Some(2));
    assert_eq!(extract_monitor_index("Foo (TM) (#1)(#0)"), Some(0));
}

#[test]
fn non_numeric_annotation_gives_nothing() {
    assert_eq!(extract_monitor_index("Foo(#x)"), None);
    assert_eq!(extract_monitor_index("Foo(#)"), None);
    assert_eq!(extract_monitor_index("Foo(#-1)"), None);
    assert_eq!(extract_monitor_index("Foo(# 1)"), None);
    assert_eq!(extract_monitor_index("Foo(#1 )"), None);
}

#[test]
fn missing_marks_give_nothing() {
    assert_eq!(extract_monitor_index(""), None);
    assert_eq!(extract_monitor_index("Foo"), None);
    assert_eq!(extract_monitor_index("Foo(#1"), None);
    assert_eq!(extract_monitor_index("Foo 1)"), None);
    assert_eq!(extract_monitor_index("Foo(1)"), None);
}

#[test]
fn closing_mark_before_the_annotation_gives_nothing() {
    assert_eq!(extract_monitor_index("a)(#"), None);
    assert_eq!(extract_monitor_index("Foo(1)(#2"), None);
}

#[test]
fn text_after_the_annotation_is_part_of_it() {
    assert_eq!(extract_monitor_index("Foo(#1) (rev 2)"), None);
    assert_eq!(extract_monitor_index("Foo(#1)x)"), None);
}

#[test]
fn plus_sign_and_leading_zeros_are_read() {
    assert_eq!(extract_monitor_index("Foo(#+4)"), Some(4));
    assert_eq!(extract_monitor_index("Foo(#007)"), Some(7));
    assert_eq!(extract_monitor_index("Foo(#+)"), None);
}

#[test]
fn index_must_fit_usize() {
    assert_eq!(
        extract_monitor_index("Foo(#18446744073709551615)"),
        "18446744073709551615".parse::<usize>().ok()
    );
    assert_eq!(extract_monitor_index("Foo(#340282366920938463463374607431768211456)"), None);
}

#[test]
fn non_ascii_text_is_searched_by_character() {
    assert_eq!(extract_monitor_index("Gr\u{e4}fik \u{2014} K\u{e4}rte(#5)"), Some(5));
    assert_eq!(extract_monitor_index("Foo(#\u{664})"), None);
}

#[test]
fn default_adapter_hints_at_zero() {
    assert_eq!(DEFAULT_ADAPTER, "(#0)");
    assert_eq!(extract_monitor_index(DEFAULT_ADAPTER), Some(0));
}

#[test]
fn config_file_with_adapter() {
    let text = "[DISPLAY]\nadapter_name=AMD Radeon RX 5700 XT(#1)\nfullscreen=true\n";
    assert_eq!(from_poe_config(Some(text)), Some(1));
}

#[test]
fn config_file_last_marker_wins() {
    let text = "[DISPLAY]\nadapter_name = Foo(#0)(#2)\n";
    assert_eq!(from_poe_config(Some(text)), Some(2));
}

#[test]
fn config_file_non_numeric() {
    let text = "[DISPLAY]\nadapter_name = Foo(#x)\n";
    assert_eq!(from_poe_config(Some(text)), None);
}

#[test]
fn config_file_without_marks() {
    let text = "[DISPLAY]\nadapter_name = Foo\n";
    assert_eq!(from_poe_config(Some(text)), None);
}

#[test]
fn config_file_without_adapter_uses_default() {
    assert_eq!(from_poe_config(Some("[DISPLAY]\nfullscreen=true\n")), Some(0));
    assert_eq!(from_poe_config(Some("[GENERAL]\nadapter_name=Foo(#4)\n")), Some(0));
    assert_eq!(from_poe_config(Some("")), Some(0));
}

#[test]
fn config_file_uses_first_section_of_the_name() {
    let text = "[DISPLAY]\nadapter_name=A(#1)\n[OTHER]\nx=y\n[DISPLAY]\nadapter_name=B(#2)\n";
    assert_eq!(from_poe_config(Some(text)), Some(1));
}

#[test]
fn missing_config_file_gives_nothing() {
    assert_eq!(from_poe_config(None), None);
}

#[test]
fn unparsable_config_file_gives_nothing() {
    assert_eq!(from_poe_config(Some("[DISPLAY\nadapter_name=Foo(#1)")), None);
    assert_eq!(from_poe_config(Some("=Foo(#1)\n")), None);
}

#[test]
fn field_of_the_config_file() {
    assert_eq!(index_from_field(Some("Foo(#3)")), Some(3));
    assert_eq!(index_from_field(Some("Foo")), None);
    assert_eq!(index_from_field(Some("")), None);
    assert_eq!(index_from_field(None), Some(0));
}
