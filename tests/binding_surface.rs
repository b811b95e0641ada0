use jts::bindings::{BindingTable, NativeModule};
use jts::console::{console_method_names, render_log_line};

fn strings(items: &[&str]) -> Vec<String> {
    items.iter().map(|s| s.to_string()).collect()
}

#[test]
fn log_line_keeps_arguments_in_order() {
    // console.log("a", 1, true)
    let line = render_log_line(&strings(&["a", "1", "true"]));
    assert_eq!(line, "a 1 true\n");
    assert_eq!(line.matches('\n').count(), 1);
}

#[test]
fn log_line_of_sum() {
    // console.log(1+1)
    assert_eq!(render_log_line(&strings(&["2"])), "2\n");
}

#[test]
fn log_line_without_arguments_is_empty_line() {
    assert_eq!(render_log_line(&Vec::new()), "\n");
}

#[test]
fn console_exposes_four_names() {
    assert_eq!(console_method_names(), strings(&["log", "info", "warn", "error"]));
}

#[test]
fn require_fs_twice_gives_same_module() {
    let t = BindingTable::standard();
    let a = t.require("fs");
    let b = t.require("fs");
    assert_eq!(a, Some(NativeModule::Fs));
    assert_eq!(a, b);
}

#[test]
fn require_unknown_name_gives_nothing() {
    let t = BindingTable::standard();
    assert_eq!(t.require("net"), None);
    assert_eq!(t.require(""), None);
    assert_eq!(t.require("fsx"), None);
}
