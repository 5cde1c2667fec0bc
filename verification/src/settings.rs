use vstd::prelude::*;

use crate::language::Language;
use crate::notifications::{
    set_bytes_threshold, set_bytes_threshold_spec, set_packets_threshold,
    set_packets_threshold_spec, set_volume, toggle_bytes, toggle_bytes_spec, toggle_favorite,
    toggle_packets, toggle_packets_spec, BytesNotification, FavoriteNotification, Notifications,
    PacketsNotification, Sound,
};
use crate::units::ByteMultiple;

verus! {

/// A discrete user action, produced by the presentation layer and applied to
/// the current configuration to yield the next one.
#[derive(Debug, PartialEq, Eq)]
pub enum Intent {
    /// Threshold text typed into the packets field.
    SetPacketsThreshold(String),
    /// Enable or disable the packets category.
    TogglePacketsThreshold(bool),
    /// Choose the sound of the packets category.
    SetPacketsSound(Sound),
    /// Threshold text typed into the bytes field, in display units.
    SetBytesThreshold(String),
    /// Enable or disable the bytes category.
    ToggleBytesThreshold(bool),
    /// Choose the sound of the bytes category.
    SetBytesSound(Sound),
    /// Choose the display unit of the bytes category.
    SetByteMultiple(ByteMultiple),
    /// Enable or disable the favorite category.
    ToggleFavorite(bool),
    /// Choose the sound of the favorite category.
    SetFavoriteSound(Sound),
    /// Set the alert volume (clamped to 0 through 100).
    SetVolume(u8),
    /// Switch the active display language.
    SetActiveLanguage(Language),
}

/// The application-level configuration snapshot: every preference this model
/// owns, plus the active language. The presentation layer only reads it; each
/// applied intent yields a full replacement value.
#[derive(Clone, Copy, Debug, PartialEq, Eq)]
pub struct Settings {
    /// All notification preferences.
    pub notifications: Notifications,
    /// The active display language.
    pub language: Language,
}

impl Settings {
    /// The configuration invariant: the volume stays in its clamped range.
    pub open spec fn wf(self) -> bool {
        self.notifications.wf()
    }
}

/// What applying one intent to the current configuration yields. Every intent
/// replaces exactly the part of the state it names and leaves the rest as it
/// was; no intent can fail.
pub open spec fn apply_intent_spec(intent: Intent, current: Settings) -> Settings {
    let n = current.notifications;
    match intent {
        Intent::SetPacketsThreshold(text) => Settings {
            notifications: Notifications {
                packets_notification: set_packets_threshold_spec(text@, n.packets_notification),
                ..n
            },
            ..current
        },
        Intent::TogglePacketsThreshold(enabled) => Settings {
            notifications: Notifications {
                packets_notification: toggle_packets_spec(enabled, n.packets_notification),
                ..n
            },
            ..current
        },
        Intent::SetPacketsSound(sound) => Settings {
            notifications: Notifications {
                packets_notification: PacketsNotification { sound, ..n.packets_notification },
                ..n
            },
            ..current
        },
        Intent::SetBytesThreshold(text) => Settings {
            notifications: Notifications {
                bytes_notification: set_bytes_threshold_spec(text@, n.bytes_notification),
                ..n
            },
            ..current
        },
        Intent::ToggleBytesThreshold(enabled) => Settings {
            notifications: Notifications {
                bytes_notification: toggle_bytes_spec(enabled, n.bytes_notification),
                ..n
            },
            ..current
        },
        Intent::SetBytesSound(sound) => Settings {
            notifications: Notifications {
                bytes_notification: BytesNotification { sound, ..n.bytes_notification },
                ..n
            },
            ..current
        },
        Intent::SetByteMultiple(unit) => Settings {
            notifications: Notifications {
                bytes_notification: BytesNotification {
                    byte_multiple: unit,
                    ..n.bytes_notification
                },
                ..n
            },
            ..current
        },
        Intent::ToggleFavorite(enabled) => Settings {
            notifications: Notifications {
                favorite_notification: FavoriteNotification {
                    notify_on_favorite: enabled,
                    sound: n.favorite_notification.sound,
                },
                ..n
            },
            ..current
        },
        Intent::SetFavoriteSound(sound) => Settings {
            notifications: Notifications {
                favorite_notification: FavoriteNotification {
                    notify_on_favorite: n.favorite_notification.notify_on_favorite,
                    sound,
                },
                ..n
            },
            ..current
        },
        Intent::SetVolume(v) => Settings {
            notifications: Notifications {
                volume: if v > 100 {
                    100u8
                } else {
                    v
                },
                ..n
            },
            ..current
        },
        Intent::SetActiveLanguage(language) => Settings { language, ..current },
    }
}

/// Applies one user intent to the configuration, yielding the full
/// replacement snapshot. Total: no intent is rejected, and malformed numeric
/// text has already degraded to zero inside the threshold transitions.
pub fn apply_intent(intent: &Intent, current: &Settings) -> (r: Settings)
    ensures
        r == apply_intent_spec(*intent, *current),
        current.wf() ==> r.wf(),
{
    let n = current.notifications;
    match intent {
        Intent::SetPacketsThreshold(text) => Settings {
            notifications: Notifications {
                packets_notification: set_packets_threshold(text.as_str(), n.packets_notification),
                ..n
            },
            ..*current
        },
        Intent::TogglePacketsThreshold(enabled) => Settings {
            notifications: Notifications {
                packets_notification: toggle_packets(*enabled, n.packets_notification),
                ..n
            },
            ..*current
        },
        Intent::SetPacketsSound(sound) => Settings {
            notifications: Notifications {
                packets_notification: PacketsNotification {
                    sound: *sound,
                    ..n.packets_notification
                },
                ..n
            },
            ..*current
        },
        Intent::SetBytesThreshold(text) => Settings {
            notifications: Notifications {
                bytes_notification: set_bytes_threshold(text.as_str(), n.bytes_notification),
                ..n
            },
            ..*current
        },
        Intent::ToggleBytesThreshold(enabled) => Settings {
            notifications: Notifications {
                bytes_notification: toggle_bytes(*enabled, n.bytes_notification),
                ..n
            },
            ..*current
        },
        Intent::SetBytesSound(sound) => Settings {
            notifications: Notifications {
                bytes_notification: BytesNotification { sound: *sound, ..n.bytes_notification },
                ..n
            },
            ..*current
        },
        Intent::SetByteMultiple(unit) => Settings {
            notifications: Notifications {
                bytes_notification: BytesNotification {
                    byte_multiple: *unit,
                    ..n.bytes_notification
                },
                ..n
            },
            ..*current
        },
        Intent::ToggleFavorite(enabled) => Settings {
            notifications: Notifications {
                favorite_notification: toggle_favorite(*enabled, n.favorite_notification.sound),
                ..n
            },
            ..*current
        },
        Intent::SetFavoriteSound(sound) => Settings {
            notifications: Notifications {
                favorite_notification: FavoriteNotification {
                    notify_on_favorite: n.favorite_notification.notify_on_favorite,
                    sound: *sound,
                },
                ..n
            },
            ..*current
        },
        Intent::SetVolume(v) => Settings {
            notifications: Notifications { volume: set_volume(*v), ..n },
            ..*current
        },
        Intent::SetActiveLanguage(language) => Settings { language: *language, ..*current },
    }
}

/// Applying any intent preserves the configuration invariant: from a
/// well-formed snapshot, every reachable snapshot is well-formed.
pub proof fn lemma_apply_intent_preserves_wf(intent: Intent, current: Settings)
    requires
        current.wf(),
    ensures
        apply_intent_spec(intent, current).wf(),
{
}

} // verus!
