use flower::color::{Color, ColorPair};
use flower::log::{enabled, label, log_level, Level};

#[test]
fn records_up_to_info_are_shown() {
    assert_eq!(log_level(), Level::Info);
    assert!(enabled(Level::Error));
    assert!(enabled(Level::Warn));
    assert!(enabled(Level::Info));
    assert!(!enabled(Level::Debug));
    assert!(!enabled(Level::Trace));
}

#[test]
fn each_level_has_its_label_and_color() {
    assert_eq!(label(Level::Info), ("[info]  ", ColorPair::new(Color::LightBlue, Color::Black)));
    assert_eq!(label(Level::Error), ("[error] ", ColorPair::new(Color::Red, Color::Black)));
    assert_eq!(label(Level::Warn).0, "[warn]  ");
    assert_eq!(label(Level::Debug).1, ColorPair::new(Color::Cyan, Color::Black));
    assert_eq!(label(Level::Trace).0.len(), 8);
}
