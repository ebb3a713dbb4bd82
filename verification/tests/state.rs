use backlight_toggle::{ScreenState, StateError, OFF_VALUE, ON_VALUE};

#[test]
fn on_is_encoded_as_zero_and_newline() {
    assert_eq!(ScreenState::On.value(), "0\n");
    assert_eq!(ScreenState::On.value().as_bytes(), &[0x30u8, 0x0a]);
    assert_eq!(ON_VALUE, "0\n");
}

#[test]
fn off_is_encoded_as_one_and_newline() {
    assert_eq!(ScreenState::Off.value(), "1\n");
    assert_eq!(ScreenState::Off.value().as_bytes(), &[0x31u8, 0x0a]);
    assert_eq!(OFF_VALUE, "1\n");
}

#[test]
fn states_are_named_on_and_off() {
    assert_eq!(ScreenState::On.name(), "On");
    assert_eq!(ScreenState::Off.name(), "Off");
    assert_eq!(format!("{:?}", ScreenState::On), "On");
    assert_eq!(format!("{:?}", ScreenState::Off), "Off");
}

#[test]
fn encoding_then_decoding_gives_the_state_back() {
    for state in [ScreenState::On, ScreenState::Off] {
        assert_eq!(ScreenState::from_text(state.value()), Ok(state));
        assert_eq!(ScreenState::try_from(state.value().to_string()), Ok(state));
    }
}

#[test]
fn zero_decodes_to_on_and_one_to_off() {
    assert_eq!(ScreenState::from_text("0\n"), Ok(ScreenState::On));
    assert_eq!(ScreenState::from_text("1\n"), Ok(ScreenState::Off));
    assert_eq!(ScreenState::try_from(String::from("0\n")), Ok(ScreenState::On));
    assert_eq!(ScreenState::try_from(String::from("1\n")), Ok(ScreenState::Off));
}

#[test]
fn text_without_newline_is_rejected() {
    assert_eq!(ScreenState::from_text("0"), Err(StateError::UnknownStateRepresentation));
    assert_eq!(ScreenState::from_text("1"), Err(StateError::UnknownStateRepresentation));
}

#[test]
fn empty_text_is_rejected() {
    assert_eq!(ScreenState::from_text(""), Err(StateError::UnknownStateRepresentation));
    assert_eq!(
        ScreenState::try_from(String::new()),
        Err(StateError::UnknownStateRepresentation)
    );
}

#[test]
fn nothing_is_trimmed_or_normalized() {
    for text in ["0\n\n", " 0\n", "0 \n", "0\n ", "0\r\n", "1\r\n", "\n0", "\n", "00\n", "01\n"] {
        assert_eq!(
            ScreenState::from_text(text),
            Err(StateError::UnknownStateRepresentation),
            "{:?}",
            text
        );
    }
}

#[test]
fn other_two_character_texts_are_rejected() {
    for text in ["2\n", "0\t", "00", "11", "on", "\n\n", "-\n", "0\0", "/\n"] {
        assert_eq!(
            ScreenState::try_from(text.to_string()),
            Err(StateError::UnknownStateRepresentation),
            "{:?}",
            text
        );
    }
}

#[test]
fn words_and_text_outside_ascii_are_rejected() {
    for text in ["On", "Off", "on\n", "off\n", "\u{ff10}\n", "\u{661}\n", "0\u{2028}", "é\n"] {
        assert_eq!(
            ScreenState::from_text(text),
            Err(StateError::UnknownStateRepresentation),
            "{:?}",
            text
        );
    }
}

#[test]
fn long_text_is_rejected() {
    let text: String = "0\n".repeat(1000);
    assert_eq!(ScreenState::try_from(text), Err(StateError::UnknownStateRepresentation));
}

#[test]
fn decoding_never_reports_an_io_error() {
    for text in ["", "0", "0\n", "1\n", "x", "0\n1\n"] {
        assert_ne!(ScreenState::from_text(text), Err(StateError::Io));
    }
}
