use hid_descriptor::builder::{extend, HIDBuilder};
use hid_descriptor::tables::{Usage, UsagePage};

const ALL_USAGES: [Usage; 7] = [
    Usage::Keyboard,
    Usage::Mouse,
    Usage::Pointer,
    Usage::X,
    Usage::Y,
    Usage::Wheel,
    Usage::AcPan,
];

#[test]
fn usage_page_codes() {
    assert_eq!(UsagePage::GenericDesktop.value(), 0x01);
    assert_eq!(UsagePage::KeyboardKeypad.value(), 0x07);
    assert_eq!(UsagePage::Button.value(), 0x09);
    assert_eq!(UsagePage::Consumer.value(), 0x0c);
}

#[test]
fn usage_values() {
    assert_eq!(Usage::Keyboard.value(), vec![0x06]);
    assert_eq!(Usage::Mouse.value(), vec![0x02]);
    assert_eq!(Usage::Pointer.value(), vec![0x01]);
    assert_eq!(Usage::X.value(), vec![0x30]);
    assert_eq!(Usage::Y.value(), vec![0x31]);
    assert_eq!(Usage::Wheel.value(), vec![0x38]);
    assert_eq!(Usage::AcPan.value(), vec![0x38, 0x02]);
}

#[test]
fn usage_value_length_matches_size() {
    for u in ALL_USAGES {
        assert_eq!(u.value().len(), u.size());
        if u == Usage::AcPan {
            assert_eq!(u.size(), 2);
        } else {
            assert_eq!(u.size(), 1);
        }
    }
}

#[test]
fn extend_pads_with_zeros() {
    assert_eq!(extend(vec![1, 2], 5), vec![1, 2, 0, 0, 0]);
    assert_eq!(extend(vec![7], 1), vec![7]);
    assert_eq!(extend(vec![], 2), vec![0, 0]);
    assert_eq!(extend(vec![], 0), Vec::<u8>::new());
}

#[test]
fn empty_builder_gives_empty_descriptor() {
    assert_eq!(HIDBuilder::new().as_bytes(), Vec::<u8>::new());
}

#[test]
fn encode_usage_page_generic_desktop() {
    let bytes = HIDBuilder::new().usage_page(UsagePage::GenericDesktop).as_bytes();
    assert_eq!(bytes, vec![0x05, 0x01]);
}

#[test]
fn encode_usage_page_button() {
    let bytes = HIDBuilder::new().usage_page(UsagePage::Button).as_bytes();
    assert_eq!(bytes, vec![0x05, 0x09]);
}

#[test]
fn encode_usage_mouse() {
    let bytes = HIDBuilder::new().usage(Usage::Mouse).as_bytes();
    assert_eq!(bytes, vec![0x09, 0x02]);
}

#[test]
fn encode_usage_ac_pan() {
    let bytes = HIDBuilder::new().usage(Usage::AcPan).as_bytes();
    assert_eq!(bytes, vec![0x0a, 0x38, 0x02]);
}

#[test]
fn encode_padding() {
    let bytes = HIDBuilder::new().padding(3).as_bytes();
    assert_eq!(bytes, vec![0x75, 0x01, 0x95, 0x03]);
}

#[test]
fn encode_padding_extreme_counts() {
    assert_eq!(HIDBuilder::new().padding(0).as_bytes(), vec![0x75, 0x01, 0x95, 0x00]);
    assert_eq!(HIDBuilder::new().padding(255).as_bytes(), vec![0x75, 0x01, 0x95, 0xff]);
}

#[test]
fn canonical_descriptor() {
    let bytes = HIDBuilder::new()
        .usage_page(UsagePage::GenericDesktop)
        .usage(Usage::AcPan)
        .padding(3)
        .as_bytes();
    assert_eq!(bytes, vec![0x05, 0x01, 0x0a, 0x38, 0x02, 0x75, 0x01, 0x95, 0x03]);
    assert_eq!(bytes.len(), 9);
}

#[test]
fn length_is_sum_of_item_lengths() {
    let mut b = HIDBuilder::new();
    let mut expected: usize = 0;
    for (i, u) in ALL_USAGES.iter().enumerate() {
        b = b.usage_page(UsagePage::Consumer);
        expected += 2;
        b = b.usage(*u);
        expected += 1 + u.size();
        b = b.padding(i as u8);
        expected += 4;
    }
    let bytes = b.as_bytes();
    assert_eq!(bytes.len(), expected);
    assert_eq!(bytes.len(), 7 * 2 + 6 * 2 + 3 + 7 * 4);
}

#[test]
fn call_order_is_kept() {
    let page_first = HIDBuilder::new()
        .usage_page(UsagePage::KeyboardKeypad)
        .usage(Usage::Keyboard)
        .as_bytes();
    let usage_first = HIDBuilder::new()
        .usage(Usage::Keyboard)
        .usage_page(UsagePage::KeyboardKeypad)
        .as_bytes();
    assert_eq!(page_first, vec![0x05, 0x07, 0x09, 0x06]);
    assert_eq!(usage_first, vec![0x09, 0x06, 0x05, 0x07]);
    assert_ne!(page_first, usage_first);
}

#[test]
fn call_order_is_kept_after_prefix() {
    let prefix = || HIDBuilder::new().padding(1);
    let page_first = prefix().usage_page(UsagePage::Button).usage(Usage::AcPan).as_bytes();
    let usage_first = prefix().usage(Usage::AcPan).usage_page(UsagePage::Button).as_bytes();
    assert_eq!(page_first, vec![0x75, 0x01, 0x95, 0x01, 0x05, 0x09, 0x0a, 0x38, 0x02]);
    assert_eq!(usage_first, vec![0x75, 0x01, 0x95, 0x01, 0x0a, 0x38, 0x02, 0x05, 0x09]);
}

#[test]
fn finalized_bytes_are_unaffected_by_later_builders() {
    let bytes = HIDBuilder::new().usage_page(UsagePage::GenericDesktop).usage(Usage::X).as_bytes();
    let snapshot = bytes.clone();
    let other = HIDBuilder::new().usage(Usage::Y).padding(5).as_bytes();
    assert_eq!(other, vec![0x09, 0x31, 0x75, 0x01, 0x95, 0x05]);
    assert_eq!(bytes, snapshot);
    assert_eq!(bytes, vec![0x05, 0x01, 0x09, 0x30]);
}
