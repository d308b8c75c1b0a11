use knob::settings::{FetchError, Settings, PROGNAME};

#[test]
fn a_new_store_holds_nothing() {
    let settings = Settings::new();
    assert_eq!(settings.fetch::<&str, String>("port"), None);
    assert_eq!(settings.fetch::<&str, u16>("port"), None);
    assert_eq!(settings.fetch::<&str, bool>(PROGNAME), None);
    assert!(settings.can_load());
}

#[test]
fn a_value_that_was_set_is_fetched() {
    let mut settings = Settings::new();
    settings.set("port", 8080u16);
    settings.set("offset", -40i64);
    settings.set("verbose", true);
    settings.set(7u8, "seven");
    settings.set(String::from("name"), String::from("knob"));
    assert_eq!(settings.fetch::<&str, u16>("port"), Some(8080));
    assert_eq!(settings.fetch::<&str, String>("port"), Some(String::from("8080")));
    assert_eq!(settings.fetch::<&str, i64>("offset"), Some(-40));
    assert_eq!(settings.fetch::<&str, bool>("verbose"), Some(true));
    assert_eq!(settings.fetch::<&str, String>("7"), Some(String::from("seven")));
    assert_eq!(settings.fetch::<&str, String>("name"), Some(String::from("knob")));
}

#[test]
fn a_key_that_was_never_set_is_absent_for_any_type() {
    let mut settings = Settings::new();
    settings.set("port", "foobar");
    assert_eq!(settings.fetch::<&str, u8>("ports"), None);
    assert_eq!(settings.fetch::<&str, i64>("por"), None);
    assert_eq!(settings.fetch::<&str, bool>(""), None);
    assert_eq!(settings.fetch::<&str, String>("Port"), None);
    assert!(matches!(settings.try_fetch::<&str, u8>("ports"), Ok(None)));
}

#[test]
fn the_last_write_wins() {
    let mut settings = Settings::new();
    settings.set("port", 1);
    settings.set("ip", "127.0.0.1");
    settings.set("port", 2);
    assert_eq!(settings.fetch::<&str, i32>("port"), Some(2));
    assert_eq!(settings.fetch::<&str, String>("ip"), Some(String::from("127.0.0.1")));
}

#[test]
fn an_absent_value_changes_nothing() {
    let mut settings = Settings::new();
    settings.set_opt::<&str, u16>("port", None);
    assert_eq!(settings.fetch::<&str, u16>("port"), None);
    settings.set("port", 4000u16);
    settings.set_opt::<&str, u16>("port", None);
    assert_eq!(settings.fetch::<&str, u16>("port"), Some(4000));
}

#[test]
fn a_present_value_is_set() {
    let mut with_opt = Settings::new();
    let mut with_set = Settings::new();
    with_opt.set("port", 1u16);
    with_set.set("port", 1u16);
    with_opt.set_opt("port", Some(4000u16));
    with_set.set("port", 4000u16);
    assert_eq!(with_opt.fetch::<&str, u16>("port"), Some(4000));
    assert_eq!(
        with_opt.fetch::<&str, String>("port"),
        with_set.fetch::<&str, String>("port")
    );
}

#[test]
fn fetch_with_hands_the_fetched_value_to_the_function() {
    let mut settings = Settings::new();
    let double_or_seven = |port: Option<u32>| match port {
        Some(p) => 2 * p,
        None => 7,
    };
    assert_eq!(settings.fetch_with("port", double_or_seven), 7);
    assert_eq!(
        settings.fetch_with("port", double_or_seven),
        double_or_seven(settings.fetch("port"))
    );
    settings.set("port", 21u32);
    assert_eq!(settings.fetch_with("port", double_or_seven), 42);
    assert_eq!(
        settings.fetch_with("port", double_or_seven),
        double_or_seven(settings.fetch("port"))
    );
}

#[test]
fn try_fetch_tells_what_does_not_read() {
    let mut settings = Settings::new();
    settings.set("port", "70000");
    match settings.try_fetch::<&str, u16>("port") {
        Err(FetchError { setting, value }) => {
            assert_eq!(setting, "port");
            assert_eq!(value, "70000");
        }
        Ok(_) => panic!("70000 was read as a u16"),
    }
    assert!(matches!(settings.try_fetch::<&str, u32>("port"), Ok(Some(70000))));
    assert!(matches!(settings.try_fetch::<&str, u32>("ip"), Ok(None)));
    settings.set("verbose", "yes");
    assert!(settings.try_fetch::<&str, bool>("verbose").is_err());
}

#[test]
fn a_socket_is_put_together_from_its_parts() {
    let mut settings = Settings::new();
    settings.set("port", "12345");
    settings.set("ip", "127.0.0.1");
    let socket = |settings: &Settings| {
        settings.fetch_with("addr", |addr: Option<String>| match addr {
            Some(addr) => addr,
            None => {
                let ip: String = settings.fetch("ip").unwrap();
                let port: u16 = settings.fetch("port").unwrap();
                format!("{}:{}", ip, port)
            }
        })
    };
    assert_eq!(socket(&settings), "127.0.0.1:12345");
    settings.set("addr", "0.0.0.0:4567");
    assert_eq!(socket(&settings), "0.0.0.0:4567");
}
