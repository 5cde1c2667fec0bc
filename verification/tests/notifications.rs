use sniffnet::notifications::{
    bytes_input_text, display_value, packets_input_text, set_bytes_threshold, set_byte_multiple,
    set_packets_threshold, set_volume, toggle_bytes, toggle_favorite, toggle_packets,
    BytesNotification, FavoriteNotification, PacketsNotification, Sound,
};
use sniffnet::units::ByteMultiple;

fn packets(threshold: Option<u32>, previous: u32) -> PacketsNotification {
    PacketsNotification {
        threshold,
        previous_threshold: previous,
        sound: Sound::Pop,
    }
}

fn bytes(threshold: Option<u64>, previous: u64, unit: ByteMultiple) -> BytesNotification {
    BytesNotification {
        threshold,
        previous_threshold: previous,
        byte_multiple: unit,
        sound: Sound::Pop,
    }
}

#[test]
fn packets_toggle_round_trip_restores_threshold() {
    let p = packets(Some(750), 100);
    let off = toggle_packets(false, p);
    assert_eq!(off.threshold, None);
    assert_eq!(off.previous_threshold, 750);
    let on = toggle_packets(true, off);
    assert_eq!(on.threshold, Some(750));
}

#[test]
fn packets_toggle_on_restores_remembered_value() {
    let p = packets(None, 42);
    let on = toggle_packets(true, p);
    assert_eq!(on.threshold, Some(42));
    assert_eq!(on.previous_threshold, 42);
}

#[test]
fn packets_toggle_off_when_already_disabled_keeps_memory() {
    let p = packets(None, 42);
    let off = toggle_packets(false, p);
    assert_eq!(off.threshold, None);
    assert_eq!(off.previous_threshold, 42);
}

#[test]
fn bytes_disable_enable_keeps_five_megabytes() {
    let b = bytes(Some(5_000_000), 5_000_000, ByteMultiple::MB);
    let off = toggle_bytes(false, b);
    assert_eq!(off.threshold, None);
    assert_eq!(off.previous_threshold, 5_000_000);
    assert_eq!(off.byte_multiple, ByteMultiple::MB);
    let on = toggle_bytes(true, off);
    assert_eq!(on.threshold, Some(5_000_000));
}

#[test]
fn unit_switch_changes_display_but_not_raw_value() {
    let b = bytes(Some(1_500_000), 1_500_000, ByteMultiple::KB);
    assert_eq!(display_value(b), 1500);
    let switched = set_byte_multiple(ByteMultiple::MB, b);
    assert_eq!(display_value(switched), 1);
    assert_eq!(switched.threshold, Some(1_500_000));
}

#[test]
fn unit_switch_twice_is_one_switch() {
    let b = bytes(Some(1_500_000), 1_500_000, ByteMultiple::KB);
    let once = set_byte_multiple(ByteMultiple::GB, b);
    let twice = set_byte_multiple(ByteMultiple::GB, once);
    assert_eq!(once, twice);
}

#[test]
fn favorite_toggle_enables_with_chosen_sound() {
    let f = FavoriteNotification::off(Sound::Silent);
    assert!(!f.notify_on_favorite);
    assert_eq!(f.sound, Sound::Silent);
    let toggled = toggle_favorite(true, Sound::Chime);
    assert_eq!(
        toggled,
        FavoriteNotification {
            notify_on_favorite: true,
            sound: Sound::Chime,
        }
    );
}

#[test]
fn volume_is_clamped() {
    assert_eq!(set_volume(150), 100);
    assert_eq!(set_volume(0), 0);
    assert_eq!(set_volume(37), 37);
    assert_eq!(set_volume(100), 100);
    assert_eq!(set_volume(101), 100);
}

#[test]
fn packets_threshold_text_is_read_leniently() {
    let p = packets(Some(3), 3);
    assert_eq!(set_packets_threshold("", p).threshold, Some(0));
    assert_eq!(set_packets_threshold("   ", p).threshold, Some(0));
    assert_eq!(set_packets_threshold("abc", p).threshold, Some(0));
    assert_eq!(set_packets_threshold("12a", p).threshold, Some(0));
    assert_eq!(set_packets_threshold("-5", p).threshold, Some(0));
    assert_eq!(set_packets_threshold("007", p).threshold, Some(7));
    assert_eq!(set_packets_threshold("1500K", p).threshold, Some(0));
    assert_eq!(set_packets_threshold("4294967295", p).threshold, Some(4_294_967_295));
    assert_eq!(set_packets_threshold("4294967296", p).threshold, Some(0));
    assert_eq!(set_packets_threshold("250", p).threshold, Some(250));
}

#[test]
fn packets_threshold_remembers_only_nonzero_values() {
    let p = packets(Some(3), 3);
    assert_eq!(set_packets_threshold("250", p).previous_threshold, 250);
    assert_eq!(set_packets_threshold("zzz", p).previous_threshold, 3);
    assert_eq!(set_packets_threshold("0", p).previous_threshold, 3);
}

#[test]
fn bytes_threshold_text_is_scaled_by_the_unit() {
    let b = bytes(Some(0), 800_000, ByteMultiple::KB);
    let r = set_bytes_threshold("1500", b);
    assert_eq!(r.threshold, Some(1_500_000));
    assert_eq!(r.previous_threshold, 1_500_000);

    let plain = bytes(Some(0), 800_000, ByteMultiple::B);
    assert_eq!(set_bytes_threshold("1500", plain).threshold, Some(1500));

    let giga = bytes(Some(0), 800_000, ByteMultiple::GB);
    assert_eq!(set_bytes_threshold("3", giga).threshold, Some(3_000_000_000));
}

#[test]
fn bytes_threshold_overflow_degrades_to_zero() {
    let giga = bytes(Some(7), 800_000, ByteMultiple::GB);
    let r = set_bytes_threshold("20000000000", giga);
    assert_eq!(r.threshold, Some(0));
    assert_eq!(r.previous_threshold, 800_000);
}

#[test]
fn packets_input_field_text() {
    assert_eq!(packets_input_text(packets(Some(0), 3)), "");
    assert_eq!(packets_input_text(packets(None, 3)), "");
    assert_eq!(packets_input_text(packets(Some(42), 42)), "42");
}

#[test]
fn bytes_input_field_text() {
    assert_eq!(
        bytes_input_text(bytes(Some(1_500_000), 1_500_000, ByteMultiple::KB)),
        "1500K"
    );
    assert_eq!(bytes_input_text(bytes(Some(0), 3, ByteMultiple::B)), "");
    assert_eq!(bytes_input_text(bytes(Some(0), 3, ByteMultiple::GB)), "0G");
    assert_eq!(bytes_input_text(bytes(Some(900), 900, ByteMultiple::B)), "900");
    assert_eq!(bytes_input_text(bytes(None, 3, ByteMultiple::MB)), "0M");
}

#[test]
fn display_value_truncates_toward_zero() {
    let b = bytes(Some(1_999_999), 1_999_999, ByteMultiple::MB);
    assert_eq!(display_value(b), 1);
    let disabled = bytes(None, 1_999_999, ByteMultiple::MB);
    assert_eq!(display_value(disabled), 0);
}
