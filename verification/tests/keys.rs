use wayland_test_clients::keys::{
    is_quit_key, KEY_1, KEY_2, KEY_3, KEY_4, KEY_5, KEY_6, KEY_7, KEY_8, KEY_D, KEY_E, KEY_ESCAPE,
    KEY_F, KEY_G, KEY_PAGE_DOWN, KEY_PAGE_UP, KEY_Q, KEY_R, KEY_S, KEY_SPACE, KEY_T, KEY_W,
};
use xkeysym::Keysym;

#[test]
fn keys_are_the_keysyms_of_their_names() {
    assert_eq!(KEY_SPACE, Keysym::space.raw());
    assert_eq!(KEY_1, Keysym::_1.raw());
    assert_eq!(KEY_2, Keysym::_2.raw());
    assert_eq!(KEY_3, Keysym::_3.raw());
    assert_eq!(KEY_4, Keysym::_4.raw());
    assert_eq!(KEY_5, Keysym::_5.raw());
    assert_eq!(KEY_6, Keysym::_6.raw());
    assert_eq!(KEY_7, Keysym::_7.raw());
    assert_eq!(KEY_8, Keysym::_8.raw());
    assert_eq!(KEY_D, Keysym::d.raw());
    assert_eq!(KEY_E, Keysym::e.raw());
    assert_eq!(KEY_F, Keysym::f.raw());
    assert_eq!(KEY_G, Keysym::g.raw());
    assert_eq!(KEY_Q, Keysym::q.raw());
    assert_eq!(KEY_R, Keysym::r.raw());
    assert_eq!(KEY_S, Keysym::s.raw());
    assert_eq!(KEY_T, Keysym::t.raw());
    assert_eq!(KEY_W, Keysym::w.raw());
    assert_eq!(KEY_ESCAPE, Keysym::Escape.raw());
    assert_eq!(KEY_PAGE_UP, Keysym::Page_Up.raw());
    assert_eq!(KEY_PAGE_DOWN, Keysym::Page_Down.raw());
}

#[test]
fn escape_and_q_quit() {
    assert!(is_quit_key(KEY_ESCAPE));
    assert!(is_quit_key(KEY_Q));
    assert!(!is_quit_key(KEY_SPACE));
    assert!(!is_quit_key(0x51));
}
