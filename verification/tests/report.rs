use error_reporter::{Failure, Report};

#[test]
fn test1() {
    const SINGLE: &str = "a";
    const MULTI: &str = "a";
    let a = Failure::new("a");
    let report = Report::from(a);
    assert_eq!(report.to_string(), SINGLE,);
    assert_eq!(report.pretty(true).to_string(), MULTI,);
}

#[test]
fn test2() {
    const SINGLE: &str = "b: a";
    const MULTI: &str = "\
b

Caused by:
      a";
    let a = Failure::new("a");
    let b = Failure::caused_by("b", a);
    let report = Report::from(b);
    assert_eq!(report.to_string(), SINGLE,);
    assert_eq!(report.pretty(true).to_string(), MULTI,);
}

#[test]
fn test3() {
    const SINGLE: &str = "c: b: a";
    const MULTI: &str = "\
c

Caused by:
   0: b
   1: a";
    let a = Failure::new("a");
    let b = Failure::caused_by("b", a);
    let c = Failure::caused_by("c", b);
    let report = Report::from(c);
    assert_eq!(report.to_string(), SINGLE,);
    assert_eq!(report.pretty(true).to_string(), MULTI,);
}

fn chain_of(count: usize) -> Failure {
    let mut error = Failure::new(&format!("e{}", count));
    let mut left = count;
    while left > 0 {
        left -= 1;
        error = Failure::caused_by(&format!("e{}", left), error);
    }
    error
}

#[test]
fn new_starts_on_a_single_line() {
    let report = Report::new(Failure::caused_by("b", Failure::new("a")));
    assert_eq!(report.to_string(), "b: a");
}

#[test]
fn embedded_newline_is_indented() {
    let cause = Failure::new("line1\nline2");
    let report = Report::from(Failure::caused_by("r", cause)).pretty(true);
    assert_eq!(report.to_string(), "r\n\nCaused by:\n      line1\n      line2");
}

#[test]
fn embedded_newline_is_kept_on_a_single_line() {
    let cause = Failure::new("line1\nline2");
    let report = Report::from(Failure::caused_by("r", cause));
    assert_eq!(report.to_string(), "r: line1\nline2");
}

#[test]
fn newline_in_the_root_is_not_indented() {
    let report = Report::from(Failure::caused_by("r1\nr2", Failure::new("a"))).pretty(true);
    assert_eq!(report.to_string(), "r1\nr2\n\nCaused by:\n      a");
}

#[test]
fn numbered_causes_are_indented_too() {
    let a = Failure::new("a1\n\na2\n");
    let b = Failure::caused_by("b1\nb2", a);
    let report = Report::from(Failure::caused_by("c", b)).pretty(true);
    assert_eq!(
        report.to_string(),
        "c\n\nCaused by:\n   0: b1\n      b2\n   1: a1\n      \n      a2\n      "
    );
}

#[test]
fn empty_messages_pass_through() {
    let report = Report::from(Failure::caused_by("", Failure::new("")));
    assert_eq!(report.to_string(), ": ");
    assert_eq!(report.pretty(true).to_string(), "\n\nCaused by:\n      ");
}

#[test]
fn numbers_are_right_aligned_in_four_columns() {
    let text = Report::from(chain_of(12)).pretty(true).to_string();
    let lines: Vec<&str> = text.split('\n').collect();
    assert_eq!(lines.len(), 15);
    assert_eq!(lines[0], "e0");
    assert_eq!(lines[1], "");
    assert_eq!(lines[2], "Caused by:");
    assert_eq!(lines[3], "   0: e1");
    assert_eq!(lines[12], "   9: e10");
    assert_eq!(lines[13], "  10: e11");
    assert_eq!(lines[14], "  11: e12");
}

#[test]
fn numbers_grow_past_the_field() {
    let text = Report::from(chain_of(10001)).pretty(true).to_string();
    let lines: Vec<&str> = text.split('\n').collect();
    assert_eq!(lines[3 + 99], "  99: e100");
    assert_eq!(lines[3 + 100], " 100: e101");
    assert_eq!(lines[3 + 999], " 999: e1000");
    assert_eq!(lines[3 + 1000], "1000: e1001");
    assert_eq!(lines[3 + 10000], "10000: e10001");
}

#[test]
fn long_chain_on_a_single_line() {
    let text = Report::from(chain_of(4)).to_string();
    assert_eq!(text, "e0: e1: e2: e3: e4");
}

#[test]
fn debug_text_is_display_text() {
    let plain = Report::from(chain_of(3));
    let mut display = String::new();
    let mut debug = String::new();
    plain.render_display(&mut display);
    plain.render_debug(&mut debug);
    assert_eq!(display, "e0: e1: e2: e3");
    assert_eq!(debug, display);
    let pretty = plain.pretty(true);
    let mut display = String::new();
    let mut debug = String::new();
    pretty.render_display(&mut display);
    pretty.render_debug(&mut debug);
    assert_eq!(display, "e0\n\nCaused by:\n   0: e1\n   1: e2\n   2: e3");
    assert_eq!(debug, display);
}

#[test]
fn rendering_appends_to_the_sink() {
    let report = Report::from(Failure::caused_by("b", Failure::new("a")));
    let mut sink = String::from("Error: ");
    report.render_display(&mut sink);
    assert_eq!(sink, "Error: b: a");
    let report = report.pretty(true);
    report.render_display(&mut sink);
    assert_eq!(sink, "Error: b: ab\n\nCaused by:\n      a");
}

#[test]
fn rendering_twice_gives_the_same_text() {
    let report = Report::from(chain_of(2)).pretty(true);
    let first = report.to_string();
    let second = report.to_string();
    assert_eq!(first, "e0\n\nCaused by:\n   0: e1\n   1: e2");
    assert_eq!(first, second);
}

#[test]
fn pretty_can_be_switched_off_again() {
    let report = Report::from(chain_of(2));
    let single = report.to_string();
    let back = report.pretty(true).pretty(false);
    assert_eq!(back.to_string(), single);
    assert_eq!(single, "e0: e1: e2");
}

#[test]
fn no_cause_gives_the_message_in_both_layouts() {
    let report = Report::from(Failure::new("only\nthis"));
    assert_eq!(report.to_string(), "only\nthis");
    assert_eq!(report.pretty(true).to_string(), "only\nthis");
}
