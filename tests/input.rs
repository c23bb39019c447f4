use byterusther::display::Rgb;
use byterusther::input::{key_mask, next_action, Event, FrameAction, Key};

#[test]
fn key_bits() {
    let keys = [
        Key::Num0, Key::Num1, Key::Num2, Key::Num3, Key::Num4, Key::Num5, Key::Num6, Key::Num7,
        Key::Num8, Key::Num9, Key::A, Key::B, Key::C, Key::D, Key::E, Key::F,
    ];
    for (i, k) in keys.iter().enumerate() {
        assert_eq!(k.mask(), 1u16 << i);
        assert_eq!(key_mask(Some(*k)), 1u16 << i);
    }
    assert_eq!(Key::A.mask(), 0x400);
    assert_eq!(Key::F.mask(), 0x8000);
    assert_eq!(key_mask(None), 0);
}

#[test]
fn actions_for_events() {
    assert_eq!(next_action(None), FrameAction::Run(None));
    assert_eq!(next_action(Some(Event::KeyEvent(0x0401))), FrameAction::Run(Some(0x0401)));
    assert_eq!(next_action(Some(Event::Shutdown)), FrameAction::Stop);
    let draw = Event::Draw(1, 2, Rgb { r: 1, g: 2, b: 3 });
    assert_eq!(next_action(Some(draw)), FrameAction::Run(None));
}
