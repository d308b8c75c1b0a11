use getopts::Fail;
use knob::descriptor::{names_accepted, optopt, reqopt};
use knob::settings::{Settings, PROGNAME};

fn args(list: &[&str]) -> Vec<String> {
    list.iter().map(|s| s.to_string()).collect()
}

fn port_and_ip() -> Settings {
    let mut settings = Settings::new();
    settings.opt(optopt("p", "port", "The port to bind to", "eg: 4000"));
    settings.opt(optopt("i", "ip", "The address to bind to", "eg: 127.0.0.1"));
    settings
}

#[test]
fn an_optional_option_is_loaded() {
    let mut settings = Settings::new();
    settings.opt(optopt("p", "port", "The port to bind to", "eg: 4000"));
    let failure = settings.load_args(args(&["prog", "-p", "3000"]));
    assert_eq!(failure, None);
    assert_eq!(settings.fetch::<&str, u16>("port"), Some(3000));
}

#[test]
fn a_missing_required_option_is_a_failure() {
    let mut settings = Settings::new();
    settings.opt(reqopt("p", "port", "The port to bind to", "eg: 4000"));
    let failure = settings.load_args(args(&["prog"]));
    assert_eq!(failure, Some(Fail::OptionMissing(String::from("port"))));
    assert_eq!(settings.fetch::<&str, u16>("port"), None);
    assert_eq!(settings.fetch::<&str, String>("port"), None);
}

#[test]
fn an_option_that_was_not_given_stays_unset() {
    let mut settings = port_and_ip();
    let failure = settings.load_args(args(&["prog", "-p", "3000"]));
    assert_eq!(failure, None);
    assert_eq!(settings.fetch::<&str, u16>("port"), Some(3000));
    assert_eq!(settings.fetch::<&str, String>("ip"), None);
    assert_eq!(settings.fetch::<&str, String>("eg: 127.0.0.1"), None);
}

#[test]
fn the_program_name_is_recorded() {
    let mut settings = port_and_ip();
    assert_eq!(PROGNAME, "knob.progname");
    assert_eq!(settings.load_args(args(&["myprog"])), None);
    assert_eq!(
        settings.fetch::<&str, String>("knob.progname"),
        Some(String::from("myprog"))
    );
    assert_eq!(settings.fetch::<&str, String>("port"), None);
}

#[test]
fn the_program_name_is_recorded_before_a_failure() {
    let mut settings = port_and_ip();
    settings.set("ip", "10.0.0.1");
    let failure = settings.load_args(args(&["other", "-i", "10.0.0.2", "--nothing"]));
    assert_eq!(failure, Some(Fail::UnrecognizedOption(String::from("nothing"))));
    assert_eq!(settings.fetch::<&str, String>(PROGNAME), Some(String::from("other")));
    assert_eq!(settings.fetch::<&str, String>("ip"), Some(String::from("10.0.0.1")));
    assert_eq!(settings.fetch::<&str, String>("port"), None);
}

#[test]
fn options_are_found_by_either_name() {
    let mut settings = port_and_ip();
    let failure = settings.load_args(args(&["prog", "--port=81", "-i", "::1", "free"]));
    assert_eq!(failure, None);
    assert_eq!(settings.fetch::<&str, u16>("port"), Some(81));
    assert_eq!(settings.fetch::<&str, String>("ip"), Some(String::from("::1")));
    assert_eq!(settings.fetch::<&str, String>("p"), None);
    assert_eq!(settings.fetch::<&str, String>("i"), None);
}

#[test]
fn a_loaded_option_overwrites_and_a_missing_one_does_not() {
    let mut settings = port_and_ip();
    settings.set("port", 1u16);
    settings.set("ip", "10.0.0.1");
    assert_eq!(settings.load_args(args(&["prog", "--port", "2"])), None);
    assert_eq!(settings.fetch::<&str, u16>("port"), Some(2));
    assert_eq!(settings.fetch::<&str, String>("ip"), Some(String::from("10.0.0.1")));
}

#[test]
fn each_kind_of_failure_is_returned() {
    let mut settings = port_and_ip();
    settings.opt(reqopt("n", "name", "The name", "eg: knob"));
    assert_eq!(
        settings.load_args(args(&["prog", "-n", "x", "-p"])),
        Some(Fail::ArgumentMissing(String::from("p")))
    );
    assert_eq!(
        settings.load_args(args(&["prog", "-n", "x", "-z"])),
        Some(Fail::UnrecognizedOption(String::from("z")))
    );
    assert_eq!(
        settings.load_args(args(&["prog", "-p", "1"])),
        Some(Fail::OptionMissing(String::from("name")))
    );
    assert_eq!(
        settings.load_args(args(&["prog", "-n", "x", "-p", "1", "--port", "2"])),
        Some(Fail::OptionDuplicated(String::from("port")))
    );
    assert_eq!(settings.fetch::<&str, String>("name"), None);
    assert_eq!(settings.fetch::<&str, String>("port"), None);
    assert_eq!(settings.load_args(args(&["prog", "-n", "x", "-p", "1"])), None);
    assert_eq!(settings.fetch::<&str, String>("name"), Some(String::from("x")));
    assert_eq!(settings.fetch::<&str, u16>("port"), Some(1));
}

#[test]
fn a_later_option_of_the_same_long_name_wins() {
    let mut settings = Settings::new();
    settings.opt(optopt("a", "level", "The first level", "eg: 1"));
    settings.opt(optopt("b", "level", "The second level", "eg: 2"));
    assert_eq!(settings.load_args(args(&["prog", "-a", "1"])), None);
    assert_eq!(settings.fetch::<&str, u8>("level"), Some(1));
}

#[test]
fn values_are_given_in_the_order_of_registration() {
    let mut settings = port_and_ip();
    settings.opt(optopt("q", "port", "The port again", "eg: 4001"));
    settings.set("ip", "10.0.0.1");
    settings.load_values(vec![Some(String::from("1")), None, Some(String::from("3"))]);
    assert_eq!(settings.fetch::<&str, u16>("port"), Some(3));
    assert_eq!(settings.fetch::<&str, String>("ip"), Some(String::from("10.0.0.1")));
    settings.load_values(vec![Some(String::from("5")), Some(String::from("::")), None]);
    assert_eq!(settings.fetch::<&str, u16>("port"), Some(5));
    assert_eq!(settings.fetch::<&str, String>("ip"), Some(String::from("::")));
    settings.load_values(vec![None, None, None]);
    assert_eq!(settings.fetch::<&str, u16>("port"), Some(5));
    assert_eq!(settings.fetch::<&str, String>(PROGNAME), None);
}

#[test]
fn usage_shows_the_brief_and_the_options_in_order() {
    let mut settings = port_and_ip();
    settings.opt(reqopt("n", "name", "The name", "eg: knob"));
    let usage = settings.usage("Try one of these:");
    let brief = usage.find("Try one of these:").unwrap();
    let port = usage.find("--port").unwrap();
    let ip = usage.find("--ip").unwrap();
    let name = usage.find("--name").unwrap();
    assert_eq!(brief, 0);
    assert!(brief < port && port < ip && ip < name);
    assert!(usage.contains("-p, --port eg: 4000"));
    assert!(usage.contains("The address to bind to"));
    assert_ne!(usage, "Try one of these:");
}

#[test]
fn usage_without_options_shows_the_brief() {
    let settings = Settings::new();
    assert_eq!(settings.usage("nothing to choose"), "nothing to choose\n\nOptions:\n\n");
}

#[test]
fn descriptors_tell_what_they_were_made_with() {
    let port = optopt("p", "port", "The port to bind to", "eg: 4000");
    assert_eq!(port.short_name(), "p");
    assert_eq!(port.long_name(), "port");
    assert_eq!(port.desc(), "The port to bind to");
    assert_eq!(port.hint(), "eg: 4000");
    assert!(!port.is_required());
    assert!(port.is_fully_named());
    let name = reqopt("", "name", "The name", "");
    assert!(name.is_required());
    assert!(!name.is_fully_named());
    assert!(!optopt("v", "", "Verbose", "").is_fully_named());
}

#[test]
fn names_are_counted_in_bytes() {
    assert!(names_accepted("p", "port"));
    assert!(names_accepted("", "port"));
    assert!(names_accepted("p", ""));
    assert!(names_accepted("", ""));
    assert!(!names_accepted("pp", "port"));
    assert!(!names_accepted("p", "q"));
    assert!(!names_accepted("\u{e9}", "port"));
    assert!(names_accepted("p", "\u{e9}"));
}

#[test]
fn a_store_with_a_half_named_option_cannot_load() {
    let mut settings = Settings::new();
    settings.opt(optopt("p", "port", "The port to bind to", "eg: 4000"));
    assert!(settings.can_load());
    settings.opt(optopt("", "ip", "The address to bind to", ""));
    assert!(!settings.can_load());
    assert!(settings.usage("brief").contains("--ip"));
}
