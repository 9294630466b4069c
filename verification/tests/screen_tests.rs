use nymstr_core::screen::ChatSection;
use nymstr_core::screen::Phase;
use nymstr_core::screen::WelcomeMode;

#[test]
fn all_lists_sections_in_order() {
    assert_eq!(
        ChatSection::all(),
        vec![ChatSection::Contacts, ChatSection::Messages, ChatSection::Input]
    );
}

#[test]
fn indices_round_trip() {
    for s in ChatSection::all() {
        assert_eq!(ChatSection::from_index(s.to_index()), s);
    }
    assert_eq!(ChatSection::from_index(0), ChatSection::Contacts);
    assert_eq!(ChatSection::from_index(1), ChatSection::Messages);
    assert_eq!(ChatSection::from_index(2), ChatSection::Input);
    assert_eq!(ChatSection::from_index(99), ChatSection::Input);
}

#[test]
fn next_walks_forward_and_saturates() {
    assert_eq!(ChatSection::Contacts.next(), ChatSection::Messages);
    assert_eq!(ChatSection::Messages.next(), ChatSection::Input);
    assert_eq!(ChatSection::Input.next(), ChatSection::Input);
}

#[test]
fn prev_walks_backward_and_saturates() {
    assert_eq!(ChatSection::Input.prev(), ChatSection::Messages);
    assert_eq!(ChatSection::Messages.prev(), ChatSection::Contacts);
    assert_eq!(ChatSection::Contacts.prev(), ChatSection::Contacts);
}

#[test]
fn ui_enums_compare() {
    assert_eq!(Phase::Connect, Phase::Connect);
    assert_ne!(Phase::Chat, Phase::Search);
    assert_eq!(WelcomeMode::Login, WelcomeMode::Login);
    assert_ne!(WelcomeMode::Login, WelcomeMode::Register);
}
