use vstd::prelude::*;
use vstd::string::StringExecFns;

use crate::parse::{
    dec_digits_of, format_u64, lenient_u32, lenient_u32_spec, lenient_u64, lenient_u64_spec,
};
use crate::units::ByteMultiple;

verus! {

/// The sound played when an alert of a category fires; each category selects
/// its own, independently.
#[derive(Clone, Copy, Debug, PartialEq, Eq)]
pub enum Sound {
    /// No sound at all.
    Silent,
    /// A short pop.
    Pop,
    /// A chime.
    Chime,
}

/// Alert configuration for the packets-per-second category.
#[derive(Clone, Copy, Debug, PartialEq, Eq)]
pub struct PacketsNotification {
    /// The active trigger point; `None` means the category is disabled.
    pub threshold: Option<u32>,
    /// The last threshold seen while the category was enabled, restored when
    /// it is re-enabled after being switched off.
    pub previous_threshold: u32,
    /// The sound played when the alert fires.
    pub sound: Sound,
}

/// Alert configuration for the bytes-per-second category. The threshold is
/// always stored in raw bytes; `byte_multiple` only scales what is shown and
/// what typed input means.
#[derive(Clone, Copy, Debug, PartialEq, Eq)]
pub struct BytesNotification {
    /// The active trigger point in raw bytes; `None` means the category is
    /// disabled.
    pub threshold: Option<u64>,
    /// The last raw-byte threshold seen while the category was enabled,
    /// restored when it is re-enabled.
    pub previous_threshold: u64,
    /// The display unit for the threshold.
    pub byte_multiple: ByteMultiple,
    /// The sound played when the alert fires.
    pub sound: Sound,
}

/// Alert configuration for the favorite-item category.
#[derive(Clone, Copy, Debug, PartialEq, Eq)]
pub struct FavoriteNotification {
    /// Whether the alert fires when a favorite item shows new activity.
    pub notify_on_favorite: bool,
    /// The sound played when the alert fires.
    pub sound: Sound,
}

impl FavoriteNotification {
    /// An enabled favorite alert with the given sound.
    pub fn on(sound: Sound) -> (r: Self)
        ensures
            r.notify_on_favorite,
            r.sound == sound,
    {
        FavoriteNotification { notify_on_favorite: true, sound }
    }

    /// A disabled favorite alert that remembers the given sound.
    pub fn off(sound: Sound) -> (r: Self)
        ensures
            !r.notify_on_favorite,
            r.sound == sound,
    {
        FavoriteNotification { notify_on_favorite: false, sound }
    }
}

/// All notification preferences together, as the owning application state
/// holds them and the presentation layer reads them.
#[derive(Clone, Copy, Debug, PartialEq, Eq)]
pub struct Notifications {
    /// Volume of the alert sounds, clamped to 0 through 100.
    pub volume: u8,
    /// The packets-per-second category.
    pub packets_notification: PacketsNotification,
    /// The bytes-per-second category.
    pub bytes_notification: BytesNotification,
    /// The favorite-item category.
    pub favorite_notification: FavoriteNotification,
}

impl Notifications {
    /// The volume never leaves its clamped range.
    pub open spec fn wf(self) -> bool {
        self.volume <= 100
    }
}

/// What enabling or disabling the packets category yields: enabling restores
/// the remembered threshold; disabling snapshots the active threshold (if
/// any) before clearing it, so nothing the user entered is lost.
pub open spec fn toggle_packets_spec(enabled: bool, current: PacketsNotification)
    -> PacketsNotification {
    if enabled {
        PacketsNotification {
            threshold: Some(current.previous_threshold),
            previous_threshold: current.previous_threshold,
            sound: current.sound,
        }
    } else {
        PacketsNotification {
            threshold: None,
            previous_threshold: match current.threshold {
                Some(t) => t,
                None => current.previous_threshold,
            },
            sound: current.sound,
        }
    }
}

/// Enables or disables the packets alert without losing the last threshold.
pub fn toggle_packets(enabled: bool, current: PacketsNotification) -> (r: PacketsNotification)
    ensures
        r == toggle_packets_spec(enabled, current),
{
    if enabled {
        PacketsNotification {
            threshold: Some(current.previous_threshold),
            previous_threshold: current.previous_threshold,
            sound: current.sound,
        }
    } else {
        PacketsNotification {
            threshold: None,
            previous_threshold: match current.threshold {
                Some(t) => t,
                None => current.previous_threshold,
            },
            sound: current.sound,
        }
    }
}

/// What applying typed threshold text to the packets category yields: the
/// lenient reading of the text becomes the active threshold, and a non-zero
/// reading is also remembered for later re-enabling.
pub open spec fn set_packets_threshold_spec(text: Seq<char>, current: PacketsNotification)
    -> PacketsNotification {
    let v = lenient_u32_spec(text);
    PacketsNotification {
        threshold: Some(v),
        previous_threshold: if v != 0 {
            v
        } else {
            current.previous_threshold
        },
        sound: current.sound,
    }
}

/// Applies threshold text typed by the user to the packets category. Never
/// fails: whatever the text, the category ends up enabled with some
/// non-negative threshold, zero when the text is not a plain number.
pub fn set_packets_threshold(text: &str, current: PacketsNotification) -> (r: PacketsNotification)
    ensures
        r == set_packets_threshold_spec(text@, current),
        (r.threshold is Some),
{
    let v = lenient_u32(text);
    PacketsNotification {
        threshold: Some(v),
        previous_threshold: if v != 0 {
            v
        } else {
            current.previous_threshold
        },
        sound: current.sound,
    }
}

/// What enabling or disabling the bytes category yields; same shape as the
/// packets transition.
pub open spec fn toggle_bytes_spec(enabled: bool, current: BytesNotification)
    -> BytesNotification {
    if enabled {
        BytesNotification {
            threshold: Some(current.previous_threshold),
            previous_threshold: current.previous_threshold,
            byte_multiple: current.byte_multiple,
            sound: current.sound,
        }
    } else {
        BytesNotification {
            threshold: None,
            previous_threshold: match current.threshold {
                Some(t) => t,
                None => current.previous_threshold,
            },
            byte_multiple: current.byte_multiple,
            sound: current.sound,
        }
    }
}

/// Enables or disables the bytes alert without losing the last threshold.
pub fn toggle_bytes(enabled: bool, current: BytesNotification) -> (r: BytesNotification)
    ensures
        r == toggle_bytes_spec(enabled, current),
{
    if enabled {
        BytesNotification {
            threshold: Some(current.previous_threshold),
            previous_threshold: current.previous_threshold,
            byte_multiple: current.byte_multiple,
            sound: current.sound,
        }
    } else {
        BytesNotification {
            threshold: None,
            previous_threshold: match current.threshold {
                Some(t) => t,
                None => current.previous_threshold,
            },
            byte_multiple: current.byte_multiple,
            sound: current.sound,
        }
    }
}

/// The raw-byte value that threshold text typed in display units stands for:
/// the lenient reading of the text scaled by the unit multiplier, degrading
/// to zero when the scaled value would not fit in a `u64`.
pub open spec fn scaled_threshold_spec(text: Seq<char>, unit: ByteMultiple) -> u64 {
    let raw = lenient_u64_spec(text) * unit.multiplier_spec();
    if raw <= u64::MAX {
        raw as u64
    } else {
        0
    }
}

/// What applying typed threshold text to the bytes category yields: the text
/// is read in the current display unit and converted to raw bytes; a non-zero
/// result is also remembered for later re-enabling.
pub open spec fn set_bytes_threshold_spec(text: Seq<char>, current: BytesNotification)
    -> BytesNotification {
    let v = scaled_threshold_spec(text, current.byte_multiple);
    BytesNotification {
        threshold: Some(v),
        previous_threshold: if v != 0 {
            v
        } else {
            current.previous_threshold
        },
        byte_multiple: current.byte_multiple,
        sound: current.sound,
    }
}

/// Applies threshold text typed by the user to the bytes category, reading it
/// in the current display unit. Never fails: malformed or oversized input
/// degrades to a zero threshold.
pub fn set_bytes_threshold(text: &str, current: BytesNotification) -> (r: BytesNotification)
    ensures
        r == set_bytes_threshold_spec(text@, current),
        (r.threshold is Some),
{
    let typed = lenient_u64(text);
    let v = match typed.checked_mul(current.byte_multiple.get_multiplier()) {
        Some(raw) => raw,
        None => 0,
    };
    BytesNotification {
        threshold: Some(v),
        previous_threshold: if v != 0 {
            v
        } else {
            current.previous_threshold
        },
        byte_multiple: current.byte_multiple,
        sound: current.sound,
    }
}

/// What switching the display unit yields: only the unit changes; the
/// canonical raw-byte threshold and everything else stay as they are.
pub open spec fn set_byte_multiple_spec(new_unit: ByteMultiple, current: BytesNotification)
    -> BytesNotification {
    BytesNotification {
        threshold: current.threshold,
        previous_threshold: current.previous_threshold,
        byte_multiple: new_unit,
        sound: current.sound,
    }
}

/// Switches the display unit of the bytes category. The stored raw-byte
/// threshold is untouched, so no precision is lost by changing units.
pub fn set_byte_multiple(new_unit: ByteMultiple, current: BytesNotification)
    -> (r: BytesNotification)
    ensures
        r == set_byte_multiple_spec(new_unit, current),
{
    BytesNotification {
        threshold: current.threshold,
        previous_threshold: current.previous_threshold,
        byte_multiple: new_unit,
        sound: current.sound,
    }
}

/// The number shown in the bytes threshold field: the raw-byte threshold
/// divided by the unit multiplier, truncating toward zero; zero when the
/// category is disabled.
pub open spec fn display_value_spec(current: BytesNotification) -> u64 {
    match current.threshold {
        Some(t) => t / current.byte_multiple.multiplier_spec(),
        None => 0,
    }
}

/// The threshold as displayed in the current unit (truncating division).
pub fn display_value(current: BytesNotification) -> (r: u64)
    ensures
        r == display_value_spec(current),
{
    match current.threshold {
        Some(t) => t / current.byte_multiple.get_multiplier(),
        None => 0,
    }
}

/// What the packets threshold input field shows: empty while the value is
/// zero, so the placeholder appears, and the plain decimal text otherwise.
pub open spec fn packets_input_text_spec(current: PacketsNotification) -> Seq<char> {
    let v: u32 = match current.threshold {
        Some(t) => t,
        None => 0u32,
    };
    if v == 0 {
        Seq::empty()
    } else {
        dec_digits_of(v as nat)
    }
}

/// The text the packets threshold input field is filled with.
pub fn packets_input_text(current: PacketsNotification) -> (r: String)
    ensures
        r@ == packets_input_text_spec(current),
{
    let v: u32 = match current.threshold {
        Some(t) => t,
        None => 0,
    };
    if v == 0 {
        String::new()
    } else {
        format_u64(v as u64)
    }
}

/// What the bytes threshold input field shows: the displayed value in the
/// current unit followed by the unit suffix, or nothing when that whole text
/// would be a bare zero, so the placeholder appears.
pub open spec fn bytes_input_text_spec(current: BytesNotification) -> Seq<char> {
    let v = display_value_spec(current);
    if v == 0 && current.byte_multiple.symbol_spec().len() == 0 {
        Seq::empty()
    } else {
        dec_digits_of(v as nat) + current.byte_multiple.symbol_spec()
    }
}

/// The text the bytes threshold input field is filled with.
pub fn bytes_input_text(current: BytesNotification) -> (r: String)
    ensures
        r@ == bytes_input_text_spec(current),
{
    let v = display_value(current);
    let suffix = current.byte_multiple.get_char();
    if v == 0 && suffix.is_empty() {
        String::new()
    } else {
        format_u64(v).concat(suffix)
    }
}

/// Builds an enabled or disabled favorite alert from the chosen sound; total
/// by construction.
pub fn toggle_favorite(enabled: bool, sound: Sound) -> (r: FavoriteNotification)
    ensures
        r.notify_on_favorite == enabled,
        r.sound == sound,
{
    if enabled {
        FavoriteNotification::on(sound)
    } else {
        FavoriteNotification::off(sound)
    }
}

/// Clamps a requested volume to the 0 through 100 range.
pub fn set_volume(v: u8) -> (r: u8)
    ensures
        r == (if v > 100 {
            100u8
        } else {
            v
        }),
        r <= 100,
{
    if v > 100 {
        100
    } else {
        v
    }
}

/// Disabling the packets category and enabling it again restores the
/// threshold that was active before, whatever it was.
pub proof fn lemma_toggle_packets_round_trip(p: PacketsNotification)
    requires
        p.threshold is Some,
    ensures
        toggle_packets_spec(true, toggle_packets_spec(false, p)) == (PacketsNotification {
            threshold: p.threshold,
            previous_threshold: p.threshold->Some_0,
            sound: p.sound,
        }),
{
}

/// Disabling the bytes category and enabling it again restores the threshold
/// that was active before, whatever it was.
pub proof fn lemma_toggle_bytes_round_trip(b: BytesNotification)
    requires
        b.threshold is Some,
    ensures
        toggle_bytes_spec(true, toggle_bytes_spec(false, b)) == (BytesNotification {
            threshold: b.threshold,
            previous_threshold: b.threshold->Some_0,
            byte_multiple: b.byte_multiple,
            sound: b.sound,
        }),
{
}

/// Switching to the same display unit twice is no different from switching
/// once: the operation is idempotent.
pub proof fn lemma_set_byte_multiple_idempotent(u: ByteMultiple, b: BytesNotification)
    ensures
        set_byte_multiple_spec(u, set_byte_multiple_spec(u, b)) == set_byte_multiple_spec(u, b),
{
}

/// While the unit stays the same, the value the user typed is the value shown
/// back: scaling typed text to raw bytes and dividing by the same multiplier
/// cancel exactly, whenever the scaled value fits in the threshold.
pub proof fn lemma_typed_bytes_value_redisplays(text: Seq<char>, current: BytesNotification)
    requires
        lenient_u64_spec(text) * current.byte_multiple.multiplier_spec() <= u64::MAX,
    ensures
        display_value_spec(set_bytes_threshold_spec(text, current)) == lenient_u64_spec(text),
{
    let d = lenient_u64_spec(text) as int;
    let m = current.byte_multiple.multiplier_spec() as int;
    vstd::arithmetic::div_mod::lemma_div_multiples_vanish(d, m);
    vstd::arithmetic::mul::lemma_mul_is_commutative(d, m);
}

} // verus!
