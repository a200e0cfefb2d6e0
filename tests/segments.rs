use rustdock::aggregator::{clamp_measured, measure_input};
use rustdock::config::{default_config, Element};
use rustdock::decimal::push_decimal;
use rustdock::markup::strip_markup;
use rustdock::producer::{blank, remaining_nanos, trim_output, Producer};

#[test]
fn explicit_width_of_commands() {
    let c = Element::Command { command: "date".to_string(), width: Some(42) };
    let r = Element::Repeat { command: "date".to_string(), time: 1000, width: Some(7) };
    let n = Element::Command { command: "date".to_string(), width: None };
    assert_eq!(c.get_width(), Some(42));
    assert_eq!(r.get_width(), Some(7));
    assert_eq!(n.get_width(), None);
    assert_eq!(Element::Fixed { size: 3 }.get_width(), None);
    assert_eq!(Element::Seperator { sep: "|".to_string() }.get_width(), None);
    assert_eq!(Element::Right.get_width(), None);
}

#[test]
fn strips_position_markup() {
    assert_eq!(strip_markup("^pa(400)Hello"), "Hello");
}

#[test]
fn strips_markup_formed_by_a_removal() {
    assert_eq!(strip_markup("^^a(b)c"), "");
    assert_eq!(strip_markup("x^^fg(red)bold y"), "x y");
}

#[test]
fn strips_colour_and_bare_markup() {
    assert_eq!(strip_markup("^fg(#ff0000)red^fg()"), "red");
    assert_eq!(strip_markup("a ^ro(3+4) b"), "a  b");
    assert_eq!(strip_markup("x^i y"), "x y");
    assert_eq!(strip_markup("no markup"), "no markup");
    assert_eq!(strip_markup(""), "");
}

#[test]
fn explicit_width_skips_measuring() {
    let e = Element::Command { command: "date".to_string(), width: Some(12) };
    assert_eq!(measure_input(&e, "^pa(1)anything"), None);
}

#[test]
fn measured_text_has_no_markup() {
    let e = Element::Seperator { sep: "x".to_string() };
    assert_eq!(measure_input(&e, "^pa(400)Hello"), Some("Hello".to_string()));
    let c = Element::Repeat { command: "date".to_string(), time: 1000, width: None };
    assert_eq!(measure_input(&c, "^fg(red)x^^i(1)y"), Some("x".to_string()));
}

#[test]
fn measured_width_saturates() {
    assert_eq!(clamp_measured(17), 17);
    assert_eq!(clamp_measured(u64::MAX), u32::MAX);
    assert_eq!(clamp_measured(u32::MAX as u64 + 1), u32::MAX);
}

#[test]
fn filler_and_literal_send_once() {
    match (Element::Fixed { size: 3 }).producer() {
        Producer::Once { text } => assert_eq!(text, "   "),
        other => panic!("unexpected producer {:?}", other),
    }
    match (Element::Seperator { sep: "|".to_string() }).producer() {
        Producer::Once { text } => assert_eq!(text, "|"),
        other => panic!("unexpected producer {:?}", other),
    }
    assert!(matches!(Element::Right.producer(), Producer::Idle));
}

#[test]
fn commands_get_running_producers() {
    let c = Element::Command { command: "date".to_string(), width: None };
    assert!(matches!(c.producer(), Producer::Stream { command } if command == "date"));
    let r = Element::Repeat { command: "uptime".to_string(), time: 1000, width: None };
    assert!(matches!(r.producer(), Producer::Periodic { command, interval_ms: 1000 } if command == "uptime"));
}

#[test]
fn blank_of_zero_is_empty() {
    assert_eq!(blank(0), "");
    assert_eq!(blank(4), "    ");
}

#[test]
fn periodic_output_loses_trailing_line_ends() {
    assert_eq!(trim_output("12:00\n"), "12:00");
    assert_eq!(trim_output("a\r\n\n"), "a");
    assert_eq!(trim_output("\nb"), "\nb");
    assert_eq!(trim_output(""), "");
    assert_eq!(trim_output("\n\r"), "");
}

#[test]
fn periodic_sleep_fills_interval() {
    assert_eq!(remaining_nanos(1000, 0), 1_000_000_000);
    assert_eq!(remaining_nanos(1000, 250_000_000), 750_000_000);
    assert_eq!(remaining_nanos(1000, 1_000_000_000), 0);
    assert_eq!(remaining_nanos(1000, 3_000_000_000), 0);
}

#[test]
fn decimal_notation() {
    let mut s = String::from("p");
    push_decimal(&mut s, 0);
    assert_eq!(s, "p0");
    let mut t = String::new();
    push_decimal(&mut t, 18_446_744_073_709_551_615);
    assert_eq!(t, "18446744073709551615");
}

#[test]
fn default_and_overridden_geometry() {
    let mut c = default_config();
    assert_eq!(c.font, " ");
    assert_eq!((c.dimensions.width, c.dimensions.height, c.dimensions.x, c.dimensions.y), (400, 20, 0, 0));
    assert!(c.elements.is_empty());
    c.apply_overrides(Some(800), None, Some(5), None);
    assert_eq!((c.dimensions.width, c.dimensions.height, c.dimensions.x, c.dimensions.y), (800, 20, 5, 0));
}
