//! Platform key codes: the virtual-key numbers under which the operating
//! system reports each physical key.

use vstd::prelude::*;

verus! {

/// An integer that identifies one physical key. Codes carry no order; two
/// codes are only ever compared for equality.
pub type KeyCode = u32;

pub const VK_CANCEL: KeyCode = 0x03;
pub const VK_BACK: KeyCode = 0x08;
pub const VK_TAB: KeyCode = 0x09;
pub const VK_RETURN: KeyCode = 0x0D;
pub const VK_SHIFT: KeyCode = 0x10;
pub const VK_CONTROL: KeyCode = 0x11;
pub const VK_MENU: KeyCode = 0x12;
pub const VK_PAUSE: KeyCode = 0x13;
pub const VK_CAPITAL: KeyCode = 0x14;
pub const VK_ESCAPE: KeyCode = 0x1B;
pub const VK_SPACE: KeyCode = 0x20;
pub const VK_PRIOR: KeyCode = 0x21;
pub const VK_NEXT: KeyCode = 0x22;
pub const VK_END: KeyCode = 0x23;
pub const VK_HOME: KeyCode = 0x24;
pub const VK_LEFT: KeyCode = 0x25;
pub const VK_UP: KeyCode = 0x26;
pub const VK_RIGHT: KeyCode = 0x27;
pub const VK_DOWN: KeyCode = 0x28;
pub const VK_SNAPSHOT: KeyCode = 0x2C;
pub const VK_INSERT: KeyCode = 0x2D;
pub const VK_DELETE: KeyCode = 0x2E;
pub const VK_0: KeyCode = 0x30;
pub const VK_1: KeyCode = 0x31;
pub const VK_2: KeyCode = 0x32;
pub const VK_3: KeyCode = 0x33;
pub const VK_4: KeyCode = 0x34;
pub const VK_5: KeyCode = 0x35;
pub const VK_6: KeyCode = 0x36;
pub const VK_7: KeyCode = 0x37;
pub const VK_8: KeyCode = 0x38;
pub const VK_9: KeyCode = 0x39;
pub const VK_A: KeyCode = 0x41;
pub const VK_B: KeyCode = 0x42;
pub const VK_C: KeyCode = 0x43;
pub const VK_D: KeyCode = 0x44;
pub const VK_E: KeyCode = 0x45;
pub const VK_F: KeyCode = 0x46;
pub const VK_G: KeyCode = 0x47;
pub const VK_H: KeyCode = 0x48;
pub const VK_I: KeyCode = 0x49;
pub const VK_J: KeyCode = 0x4A;
pub const VK_K: KeyCode = 0x4B;
pub const VK_L: KeyCode = 0x4C;
pub const VK_M: KeyCode = 0x4D;
pub const VK_N: KeyCode = 0x4E;
pub const VK_O: KeyCode = 0x4F;
pub const VK_P: KeyCode = 0x50;
pub const VK_Q: KeyCode = 0x51;
pub const VK_R: KeyCode = 0x52;
pub const VK_S: KeyCode = 0x53;
pub const VK_T: KeyCode = 0x54;
pub const VK_U: KeyCode = 0x55;
pub const VK_V: KeyCode = 0x56;
pub const VK_W: KeyCode = 0x57;
pub const VK_X: KeyCode = 0x58;
pub const VK_Y: KeyCode = 0x59;
pub const VK_Z: KeyCode = 0x5A;
pub const VK_LWIN: KeyCode = 0x5B;
pub const VK_RWIN: KeyCode = 0x5C;
pub const VK_APPS: KeyCode = 0x5D;
pub const VK_SLEEP: KeyCode = 0x5F;
pub const VK_NUMPAD0: KeyCode = 0x60;
pub const VK_NUMPAD1: KeyCode = 0x61;
pub const VK_NUMPAD2: KeyCode = 0x62;
pub const VK_NUMPAD3: KeyCode = 0x63;
pub const VK_NUMPAD4: KeyCode = 0x64;
pub const VK_NUMPAD5: KeyCode = 0x65;
pub const VK_NUMPAD6: KeyCode = 0x66;
pub const VK_NUMPAD7: KeyCode = 0x67;
pub const VK_NUMPAD8: KeyCode = 0x68;
pub const VK_NUMPAD9: KeyCode = 0x69;
pub const VK_MULTIPLY: KeyCode = 0x6A;
pub const VK_ADD: KeyCode = 0x6B;
pub const VK_SUBTRACT: KeyCode = 0x6D;
pub const VK_DECIMAL: KeyCode = 0x6E;
pub const VK_DIVIDE: KeyCode = 0x6F;
pub const VK_F1: KeyCode = 0x70;
pub const VK_F2: KeyCode = 0x71;
pub const VK_F3: KeyCode = 0x72;
pub const VK_F4: KeyCode = 0x73;
pub const VK_F5: KeyCode = 0x74;
pub const VK_F6: KeyCode = 0x75;
pub const VK_F7: KeyCode = 0x76;
pub const VK_F8: KeyCode = 0x77;
pub const VK_F9: KeyCode = 0x78;
pub const VK_F10: KeyCode = 0x79;
pub const VK_F11: KeyCode = 0x7A;
pub const VK_F12: KeyCode = 0x7B;
pub const VK_F13: KeyCode = 0x7C;
pub const VK_F14: KeyCode = 0x7D;
pub const VK_F15: KeyCode = 0x7E;
pub const VK_F16: KeyCode = 0x7F;
pub const VK_F17: KeyCode = 0x80;
pub const VK_F18: KeyCode = 0x81;
pub const VK_F19: KeyCode = 0x82;
pub const VK_F20: KeyCode = 0x83;
pub const VK_F21: KeyCode = 0x84;
pub const VK_F22: KeyCode = 0x85;
pub const VK_F23: KeyCode = 0x86;
pub const VK_F24: KeyCode = 0x87;
pub const VK_NUMLOCK: KeyCode = 0x90;
pub const VK_SCROLL: KeyCode = 0x91;
pub const VK_LSHIFT: KeyCode = 0xA0;
pub const VK_RSHIFT: KeyCode = 0xA1;
pub const VK_LCONTROL: KeyCode = 0xA2;
pub const VK_RCONTROL: KeyCode = 0xA3;
pub const VK_LMENU: KeyCode = 0xA4;
pub const VK_RMENU: KeyCode = 0xA5;
pub const VK_VOLUME_MUTE: KeyCode = 0xAD;
pub const VK_VOLUME_DOWN: KeyCode = 0xAE;
pub const VK_VOLUME_UP: KeyCode = 0xAF;
pub const VK_MEDIA_NEXT_TRACK: KeyCode = 0xB0;
pub const VK_MEDIA_PREV_TRACK: KeyCode = 0xB1;
pub const VK_MEDIA_STOP: KeyCode = 0xB2;
pub const VK_MEDIA_PLAY_PAUSE: KeyCode = 0xB3;
pub const VK_OEM_1: KeyCode = 0xBA;
pub const VK_OEM_PLUS: KeyCode = 0xBB;
pub const VK_OEM_COMMA: KeyCode = 0xBC;
pub const VK_OEM_MINUS: KeyCode = 0xBD;
pub const VK_OEM_PERIOD: KeyCode = 0xBE;
pub const VK_OEM_2: KeyCode = 0xBF;
pub const VK_OEM_3: KeyCode = 0xC0;
pub const VK_OEM_4: KeyCode = 0xDB;
pub const VK_OEM_5: KeyCode = 0xDC;
pub const VK_OEM_6: KeyCode = 0xDD;
pub const VK_OEM_7: KeyCode = 0xDE;
pub const VK_ZOOM: KeyCode = 0xFB;

} // verus!
