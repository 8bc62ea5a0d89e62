//! What a renderer hands the host to draw: a list of plain drawing commands
//! over fixed fonts and baked-in monochrome icon bitmaps. The host-side
//! adapter rasterizes each command onto the framebuffer; this crate only
//! decides what is drawn and where.

use vstd::prelude::*;

verus! {

/// One of the fixed connection-state icons.
#[derive(Clone, Copy, Debug, PartialEq, Eq, Structural)]
pub enum Icon {
    /// The USB glyph, shown while the transport is USB.
    Usb,
    /// The radio glyph while the link is down.
    BtIdle,
    /// The radio glyph while advertising.
    BtAdvertising,
    /// The radio glyph while connected.
    BtConnected,
}

/// The fixed fonts of the layout, named by their role and cell size.
#[derive(Clone, Copy, Debug, PartialEq, Eq, Structural)]
pub enum FontChoice {
    /// The bold 7x13 font of the profile digit.
    Bold7x13,
    /// The large 10x20 font of the layer name.
    Large10x20,
    /// The medium 9x15 font of the battery percentage.
    Medium9x15,
    /// The small 4x6 font of the log lines.
    Small4x6,
}

/// One drawing command, in logical coordinates.
#[derive(Debug)]
pub enum DrawCommand {
    /// Draw the icon with its top-left corner at `(x, y)`.
    Glyph { icon: Icon, x: i32, y: i32 },
    /// Draw the text with its baseline anchor at `(x, y)`, in the given font.
    Label { text: String, font: FontChoice, x: i32, y: i32 },
}

/// The mathematical value of one drawing command.
pub enum SpecCommand {
    Glyph { icon: Icon, x: int, y: int },
    Label { text: Seq<char>, font: FontChoice, x: int, y: int },
}

impl View for DrawCommand {
    type V = SpecCommand;

    open spec fn view(&self) -> SpecCommand {
        match self {
            DrawCommand::Glyph { icon, x, y } => SpecCommand::Glyph {
                icon: *icon,
                x: *x as int,
                y: *y as int,
            },
            DrawCommand::Label { text, font, x, y } => SpecCommand::Label {
                text: text@,
                font: *font,
                x: *x as int,
                y: *y as int,
            },
        }
    }
}

/// The views of a whole plan, command by command.
pub open spec fn plan_view(r: Seq<DrawCommand>) -> Seq<SpecCommand> {
    r.map_values(|c: DrawCommand| c@)
}

/// The pixel width of an icon's bitmap; its bit-packed rows are padded to
/// whole bytes.
pub fn icon_width(icon: Icon) -> (w: u32)
    ensures
        w == (if icon is Usb { 27u32 } else { 18u32 }),
{
    match icon {
        Icon::Usb => 27,
        Icon::BtIdle => 18,
        Icon::BtAdvertising => 18,
        Icon::BtConnected => 18,
    }
}

/// The radio glyph while the link is down: 18 pixels wide, bit-packed rows.
pub const BLUETOOTH_NONE_DATA: [u8; 90] = [
    0xff, 0x7f, 0xc0, 0xff, 0x3f, 0xc0, 0xff, 0x1f, 0xc0, 0xff, 0x0f, 0xc0,
    0xff, 0x07, 0xc0, 0xff, 0x23, 0xc0, 0x3f, 0x31, 0xc0, 0x1f, 0x38, 0xc0,
    0x8f, 0x3c, 0x40, 0xc7, 0x38, 0xc0, 0xe3, 0xb1, 0xc0, 0xf1, 0xe3, 0xc0,
    0xf8, 0xe7, 0xc0, 0xfc, 0x7f, 0xc0, 0xfe, 0x3f, 0xc0, 0xfe, 0x1f, 0xc0,
    0xfc, 0x0f, 0xc0, 0xf8, 0x07, 0xc0, 0xf1, 0x23, 0xc0, 0xe3, 0x31, 0xc0,
    0xc7, 0x38, 0xc0, 0xcf, 0x3c, 0x40, 0xff, 0x38, 0x00, 0xff, 0x31, 0xc0,
    0xff, 0x23, 0xc0, 0xff, 0x07, 0xc0, 0xff, 0x0f, 0xc0, 0xff, 0x1f, 0xc0,
    0xff, 0x3f, 0xc0, 0xff, 0x7f, 0xc0,
];

/// The radio glyph while advertising: 18 pixels wide, bit-packed rows.
pub const BLUETOOTH_ADVERTISING_DATA: [u8; 90] = [
    0xff, 0x7f, 0xc0, 0xff, 0x3f, 0xc0, 0xff, 0x1f, 0xc0, 0xff, 0x0f, 0xc0,
    0xff, 0x07, 0xc0, 0xff, 0x23, 0xc0, 0xff, 0x31, 0xc0, 0xff, 0x38, 0xc0,
    0xcf, 0x3c, 0xc0, 0xc7, 0x38, 0xc0, 0xe3, 0x31, 0xc0, 0xf1, 0x23, 0xc0,
    0xf8, 0x07, 0xc0, 0xfc, 0x0f, 0xc0, 0xfe, 0x1f, 0xc0, 0xfe, 0x1f, 0xc0,
    0xfc, 0x0f, 0xc0, 0xf8, 0x07, 0xc0, 0xf1, 0x23, 0xc0, 0xe3, 0x31, 0xc0,
    0xc7, 0x38, 0xc0, 0xcf, 0x3c, 0xc0, 0xff, 0x38, 0xc0, 0xff, 0x31, 0xc0,
    0xff, 0x23, 0xc0, 0xff, 0x07, 0xc0, 0xff, 0x0f, 0xc0, 0xff, 0x1f, 0xc0,
    0xff, 0x3f, 0xc0, 0xff, 0x7f, 0xc0,
];

/// The radio glyph while connected: 18 pixels wide, bit-packed rows.
pub const BLUETOOTH_CONNECTED_DATA: [u8; 90] = [
    0xff, 0x7f, 0xc0, 0xff, 0x3f, 0xc0, 0xff, 0x1f, 0xc0, 0xff, 0x0f, 0xc0,
    0xff, 0x07, 0xc0, 0xff, 0x23, 0xc0, 0xff, 0x31, 0xc0, 0xff, 0x38, 0xc0,
    0xcf, 0x3c, 0xc0, 0xc7, 0x38, 0xc0, 0xe3, 0x31, 0xc0, 0xf1, 0x23, 0xc0,
    0x98, 0x06, 0x40, 0x3c, 0x0f, 0x00, 0x66, 0x19, 0x80, 0x66, 0x19, 0x80,
    0x3c, 0x0f, 0x00, 0x98, 0x06, 0x40, 0xf1, 0x23, 0xc0, 0xe3, 0x31, 0xc0,
    0xc7, 0x38, 0xc0, 0xcf, 0x3c, 0xc0, 0xff, 0x38, 0xc0, 0xff, 0x31, 0xc0,
    0xff, 0x23, 0xc0, 0xff, 0x07, 0xc0, 0xff, 0x0f, 0xc0, 0xff, 0x1f, 0xc0,
    0xff, 0x3f, 0xc0, 0xff, 0x7f, 0xc0,
];

/// The USB glyph: 27 pixels wide, bit-packed rows.
pub const USB_DATA: [u8; 48] = [
    0xff, 0xf9, 0xff, 0xe0, 0xff, 0xc0, 0xff, 0xe0, 0xff, 0x99, 0xff, 0xe0,
    0x8f, 0x3f, 0xff, 0x60, 0x06, 0x7f, 0xff, 0x20, 0x00, 0x00, 0x00, 0x00,
    0x07, 0xf3, 0xff, 0x20, 0x8f, 0xf9, 0xff, 0x60, 0xff, 0xfc, 0xff, 0xe0,
    0xff, 0xfe, 0x63, 0xe0, 0xff, 0xff, 0x03, 0xe0, 0xff, 0xff, 0xc3, 0xe0,
];

} // verus!
