use gnop_pong::errors::ErrorKind;

#[test]
fn message_of_an_area_bigger_than_the_screen() {
    assert_eq!(
        ErrorKind::AreaBiggerThanScreen.as_str(),
        "Detected playing area is larger than projected area. Re-run with '-f' (fullscreen)"
    );
}

#[test]
fn message_of_an_area_too_small() {
    assert_eq!(ErrorKind::TooSmallArea.as_str(), "Can't detect playing area");
}

#[test]
fn kinds_differ() {
    assert_ne!(ErrorKind::AreaBiggerThanScreen, ErrorKind::TooSmallArea);
    assert_ne!(ErrorKind::AreaBiggerThanScreen.as_str(), ErrorKind::TooSmallArea.as_str());
}
