//! The status screen: a snapshot of six device-status fields, updated
//! field-by-field from incoming events, and a renderer that composes the
//! fixed layout. An event whose value equals the held one changes nothing
//! and triggers no redraw; an accepted change always triggers a full redraw.

use vstd::prelude::*;

use crate::draw::{plan_view, DrawCommand, FontChoice, Icon, SpecCommand};
use crate::event::{Event, RadioPhase};
use crate::text::{decimal_spec, decimal_str};

verus! {

/// The last-rendered snapshot of the device status.
#[derive(Clone, Copy, Debug, PartialEq, Eq, Structural)]
pub struct ScreenState {
    /// The active layer index.
    pub layer: u8,
    /// The radio profile index; `0` to `2` are the stored profiles.
    pub ble_profile: u8,
    /// The phase of the radio link.
    pub ble_state: RadioPhase,
    /// The transport kind: `0` is USB, anything else is wireless.
    pub connection_type: u8,
    /// The battery level, as a percentage.
    pub battery_percent: u8,
    /// Whether the battery is charging.
    pub charging_state: bool,
}

impl Default for ScreenState {
    /// The startup snapshot: everything zero, radio link down, not charging.
    fn default() -> (r: Self)
        ensures
            r == (ScreenState {
                layer: 0u8,
                ble_profile: 0u8,
                ble_state: RadioPhase::Idle,
                connection_type: 0u8,
                battery_percent: 0u8,
                charging_state: false,
            }),
    {
        ScreenState {
            layer: 0,
            ble_profile: 0,
            ble_state: RadioPhase::Idle,
            connection_type: 0,
            battery_percent: 0,
            charging_state: false,
        }
    }
}

/// What one event does to a snapshot: the updated snapshot, and whether the
/// change calls for a redraw. A field is only touched when the incoming
/// value differs from the held one, and a redraw happens exactly then.
pub open spec fn step_spec(s: ScreenState, e: Event) -> (ScreenState, bool) {
    match e {
        Event::Layer(l) => if l == s.layer {
            (s, false)
        } else {
            (ScreenState { layer: l, ..s }, true)
        },
        Event::Battery(p) => if p == s.battery_percent {
            (s, false)
        } else {
            (ScreenState { battery_percent: p, ..s }, true)
        },
        Event::BleState(p, ph) => if p == s.ble_profile && ph == s.ble_state {
            (s, false)
        } else {
            (ScreenState { ble_profile: p, ble_state: ph, ..s }, true)
        },
        Event::BleProfile(p) => if p == s.ble_profile {
            (s, false)
        } else {
            (ScreenState { ble_profile: p, ..s }, true)
        },
        Event::ChargingState(c) => if c == s.charging_state {
            (s, false)
        } else {
            (ScreenState { charging_state: c, ..s }, true)
        },
        Event::ConnectionType(t) => if t == s.connection_type {
            (s, false)
        } else {
            (ScreenState { connection_type: t, ..s }, true)
        },
        _ => (s, false),
    }
}

/// Processing the same event twice in a row never redraws the second time:
/// once a field holds the incoming value, the change gate fails. This bounds
/// the redraw rate by the rate of actual state change, not event arrival.
pub proof fn lemma_redraw_suppression(s: ScreenState, e: Event)
    ensures
        !step_spec(step_spec(s, e).0, e).1,
{
}

/// A redraw is called for exactly when the event actually changed the
/// snapshot: an event carrying the held value is a no-op.
pub proof fn lemma_redraw_iff_changed(s: ScreenState, e: Event)
    ensures
        step_spec(s, e).1 == (step_spec(s, e).0 != s),
{
}

/// The digit shown beside the radio glyph for a profile index: the three
/// stored profiles print as `1`, `2`, `3`, and any other index as `?`.
pub open spec fn profile_digit_spec(p: int) -> Seq<char> {
    if p == 0 {
        "1"@
    } else if p == 1 {
        "2"@
    } else if p == 2 {
        "3"@
    } else {
        "?"@
    }
}

/// The display name of a layer index. The mapping is total: any index
/// without a name selects the empty string, and never fails.
pub open spec fn layer_name_spec(l: int) -> Seq<char> {
    if l == 0 {
        "TEXTE"@
    } else if l == 1 {
        "NAV"@
    } else if l == 2 {
        "PROG"@
    } else if l == 3 {
        "PERI"@
    } else {
        ""@
    }
}

/// Which connection icon a snapshot shows.
pub open spec fn status_icon_spec(s: ScreenState) -> Icon {
    if s.connection_type == 0 {
        Icon::Usb
    } else {
        match s.ble_state {
            RadioPhase::Advertising => Icon::BtAdvertising,
            RadioPhase::Connected => Icon::BtConnected,
            RadioPhase::Idle => Icon::BtIdle,
        }
    }
}

/// The full fixed layout a snapshot renders as: the connection icon (with
/// the profile digit beside it on wireless), the layer name, and the battery
/// percentage, each at its fixed anchor.
pub open spec fn status_plan_spec(s: ScreenState) -> Seq<SpecCommand> {
    (if s.connection_type == 0 {
        seq![SpecCommand::Glyph { icon: Icon::Usb, x: 2, y: 10 }]
    } else {
        seq![
            SpecCommand::Glyph { icon: status_icon_spec(s), x: 2, y: 2 },
            SpecCommand::Label {
                text: profile_digit_spec(s.ble_profile as int),
                font: FontChoice::Bold7x13,
                x: 22,
                y: 27,
            },
        ]
    }) + seq![
        SpecCommand::Label {
            text: layer_name_spec(s.layer as int),
            font: FontChoice::Large10x20,
            x: 6,
            y: 70,
        },
        SpecCommand::Label {
            text: decimal_spec(s.battery_percent as int),
            font: FontChoice::Medium9x15,
            x: 32,
            y: 32,
        },
    ]
}

/// The profile digit, as drawn.
pub fn profile_digit(p: u8) -> (r: String)
    ensures
        r@ == profile_digit_spec(p as int),
{
    match p {
        0 => "1".to_owned(),
        1 => "2".to_owned(),
        2 => "3".to_owned(),
        _ => "?".to_owned(),
    }
}

/// The layer name, as drawn; empty for an index without a name.
pub fn layer_name(l: u8) -> (r: String)
    ensures
        r@ == layer_name_spec(l as int),
{
    match l {
        0 => "TEXTE".to_owned(),
        1 => "NAV".to_owned(),
        2 => "PROG".to_owned(),
        3 => "PERI".to_owned(),
        _ => "".to_owned(),
    }
}

impl ScreenState {
    /// Folds one event into the snapshot. Returns whether the event changed
    /// a field, which is exactly when the screen must be redrawn.
    pub fn process_event(&mut self, event: &Event) -> (redraw: bool)
        ensures
            (*final(self), redraw) == step_spec(*old(self), *event),
    {
        match *event {
            Event::Layer(l) => {
                if l == self.layer {
                    return false;
                }
                self.layer = l;
            },
            Event::Battery(p) => {
                if p == self.battery_percent {
                    return false;
                }
                self.battery_percent = p;
            },
            Event::BleState(p, ph) => {
                if p == self.ble_profile && ph == self.ble_state {
                    return false;
                }
                self.ble_profile = p;
                self.ble_state = ph;
            },
            Event::BleProfile(p) => {
                if p == self.ble_profile {
                    return false;
                }
                self.ble_profile = p;
            },
            Event::ChargingState(c) => {
                if c == self.charging_state {
                    return false;
                }
                self.charging_state = c;
            },
            Event::ConnectionType(t) => {
                if t == self.connection_type {
                    return false;
                }
                self.connection_type = t;
            },
            _ => {
                return false;
            },
        }
        true
    }

    /// Composes the fixed layout for this snapshot, top of the plan first.
    /// The host clears the framebuffer, draws the plan in order, and flushes
    /// the changed lines.
    pub fn render_plan(&self) -> (r: Vec<DrawCommand>)
        ensures
            plan_view(r@) == status_plan_spec(*self),
    {
        let mut v: Vec<DrawCommand> = Vec::new();
        if self.connection_type == 0 {
            v.push(DrawCommand::Glyph { icon: Icon::Usb, x: 2, y: 10 });
        } else {
            let icon = match self.ble_state {
                RadioPhase::Advertising => Icon::BtAdvertising,
                RadioPhase::Connected => Icon::BtConnected,
                RadioPhase::Idle => Icon::BtIdle,
            };
            v.push(DrawCommand::Glyph { icon, x: 2, y: 2 });
            v.push(
                DrawCommand::Label {
                    text: profile_digit(self.ble_profile),
                    font: FontChoice::Bold7x13,
                    x: 22,
                    y: 27,
                },
            );
        }
        v.push(
            DrawCommand::Label {
                text: layer_name(self.layer),
                font: FontChoice::Large10x20,
                x: 6,
                y: 70,
            },
        );
        v.push(
            DrawCommand::Label {
                text: decimal_str(self.battery_percent),
                font: FontChoice::Medium9x15,
                x: 32,
                y: 32,
            },
        );
        proof {
            assert(plan_view(v@) =~= status_plan_spec(*self));
        }
        v
    }
}

} // verus!
