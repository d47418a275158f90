use rsize::conferror::ConfigErr;
use rsize::config::Config;
use rsize::Resizer;

#[test]
fn zero_dimensions_are_rejected() {
    assert!(matches!(
        Config::new("p".to_string(), 0, 1080, false, false),
        Err(ConfigErr::EmptyVal)
    ));
    assert!(matches!(
        Config::new("p".to_string(), 1920, 0, false, false),
        Err(ConfigErr::EmptyVal)
    ));
    assert!(matches!(
        Config::new("p".to_string(), 0, 0, true, true),
        Err(ConfigErr::EmptyVal)
    ));
}

#[test]
fn accepted_configuration_keeps_its_fields() {
    let c = Config::new("pics".to_string(), 640, 480, true, true).unwrap();
    assert_eq!(c.src, "pics");
    assert_eq!(c.width, 640);
    assert_eq!(c.height, 480);
    assert!(c.ignore_aspect);
    assert!(c.recursive);
}

#[test]
fn resizer_reports_its_configuration() {
    let c = Config::new("pics".to_string(), 640, 480, false, true).unwrap();
    let r = Resizer::new(c);
    assert_eq!(r.src().as_str(), "pics");
    assert_eq!(r.width(), 640);
    assert_eq!(r.height(), 480);
    assert!(!r.ignore_aspect());
    assert!(r.recursive());
    assert!(r.queue.is_empty());
}

#[test]
fn config_error_messages() {
    assert_eq!(ConfigErr::EmptyVal.message(), "Empty or invalid Argument");
    let parse_err = "abc".parse::<u32>().unwrap_err();
    assert_eq!(
        ConfigErr::Parse(parse_err).message(),
        "the provided string could not be parsed as int"
    );
}

#[test]
fn config_error_source_and_from() {
    let parse_err = "abc".parse::<u32>().unwrap_err();
    let e = ConfigErr::from(parse_err);
    assert!(matches!(e, ConfigErr::Parse(_)));
    assert!(e.source().is_some());
    assert!(ConfigErr::EmptyVal.source().is_none());
}
