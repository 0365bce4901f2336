use vstd::prelude::*;

verus! {

pub const BLACK: u8 = 0x00;
pub const WHITE: u8 = 0xFF;
pub const GRAY04: u8 = 0x44;
pub const GRAY10: u8 = 0xAA;
pub const GRAY12: u8 = 0xCC;
pub const GRAY14: u8 = 0xEE;

pub const SEPARATOR_NORMAL: u8 = 0x66;

pub const TEXT_NORMAL_BG: u8 = 0xFF;
pub const TEXT_NORMAL_FG: u8 = 0x00;
pub const TEXT_INVERTED_HARD_BG: u8 = 0x00;
pub const TEXT_INVERTED_HARD_FG: u8 = 0xFF;
pub const TEXT_INVERTED_SOFT_BG: u8 = 0x22;
pub const TEXT_INVERTED_SOFT_FG: u8 = 0xEE;
pub const TEXT_BUMP_SMALL_BG: u8 = 0xCC;
pub const TEXT_BUMP_SMALL_FG: u8 = 0x00;

} // verus!
