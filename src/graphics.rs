//! The 6845 CRT controller: an index register picking one of 18 internal
//! registers, two mode registers, and a 50 Hz vertical-sync oscillator.
use vstd::prelude::*;

verus! {

/// Simulated microseconds of sync high in each 20 ms frame (8%).
pub const SYNC_HIGH_MICROS: u64 = 1_600;

/// Simulated microseconds of sync low in each 20 ms frame (92%).
pub const SYNC_LOW_MICROS: u64 = 18_400;

#[derive(Clone, Copy, Debug, PartialEq, Eq, Structural)]
pub enum TextSize {
    D40x25,
    D80x25,
}

#[derive(Clone, Copy, Debug, PartialEq, Eq, Structural)]
pub enum GraphicsType {
    D320x200,
    Text,
}

#[derive(Clone, Copy, Debug, PartialEq, Eq, Structural)]
pub struct BWOptions {
    pub text_size: TextSize,
    pub enabled: bool,
    pub blink: bool,
    pub vertical_sync: bool,
}

#[derive(Clone, Copy, Debug, PartialEq, Eq, Structural)]
pub struct ColorOptions {
    pub graphics_type: GraphicsType,
    pub black_white: bool,
    pub black_white_640x200: bool,
}

/// The internal registers, in index order.
#[derive(Clone, Copy, Debug, PartialEq, Eq, Structural)]
pub enum Register {
    HorizontalTotalCharacter,
    HorizontalDisplayedCharactersPerLine,
    HorizontalSyncPosition,
    HorizontalSyncCharacterWidth,
    VerticalTotalLines,
    VerticalTotalAdjust,
    VerticalDisplayedRows,
    VerticalSyncCharacterRows,
    InterlaceMode,
    MaximumScanLineAddress,
    CursorStart,
    CursorEnd,
    StartAddressMSB,
    StartAddressLSB,
    CursorAddressMSB,
    CursorAddressLSB,
    LightPenMSB,
    LightPenLSB,
}

#[derive(Clone, Copy, Debug, PartialEq, Eq, Structural)]
pub struct Graphics {
    pub bw_options: BWOptions,
    pub color_options: ColorOptions,
    pub current_register: Register,
    pub horizontal_total_character: u8,
    pub horizontal_displayed_characters_per_line: u8,
    pub horizontal_sync_position: u8,
    pub horizontal_sync_character_width: u8,
    pub vertical_total_lines: u8,
    pub vertical_total_adjust: u8,
    pub vertical_displayed_rows: u8,
    pub vertical_sync_character_rows: u8,
    pub interlace_mode: u8,
    pub maximum_scan_line_address: u8,
    pub cursor_start: u8,
    pub cursor_end: u8,
    pub start_address: u16,
    pub cursor_address: u16,
    pub light_pen: u16,
}

/// The register an index selects; an index past the last selects register 0.
pub open spec fn register_of(i: u8) -> Register {
    if i == 0x00 { Register::HorizontalTotalCharacter }
    else if i == 0x01 { Register::HorizontalDisplayedCharactersPerLine }
    else if i == 0x02 { Register::HorizontalSyncPosition }
    else if i == 0x03 { Register::HorizontalSyncCharacterWidth }
    else if i == 0x04 { Register::VerticalTotalLines }
    else if i == 0x05 { Register::VerticalTotalAdjust }
    else if i == 0x06 { Register::VerticalDisplayedRows }
    else if i == 0x07 { Register::VerticalSyncCharacterRows }
    else if i == 0x08 { Register::InterlaceMode }
    else if i == 0x09 { Register::MaximumScanLineAddress }
    else if i == 0x0A { Register::CursorStart }
    else if i == 0x0B { Register::CursorEnd }
    else if i == 0x0C { Register::StartAddressMSB }
    else if i == 0x0D { Register::StartAddressLSB }
    else if i == 0x0E { Register::CursorAddressMSB }
    else if i == 0x0F { Register::CursorAddressLSB }
    else if i == 0x10 { Register::LightPenMSB }
    else if i == 0x11 { Register::LightPenLSB }
    else { Register::HorizontalTotalCharacter }
}

/// `v` with its high byte replaced.
pub open spec fn with_high(v: u16, b: u8) -> u16 {
    (v % 256 + b * 256) as u16
}

/// `v` with its low byte replaced.
pub open spec fn with_low(v: u16, b: u8) -> u16 {
    ((v / 256) * 256 + b) as u16
}

impl Graphics {
    pub fn init() -> (r: Graphics)
        ensures
            r == fresh_graphics(),
    {
        Graphics {
            bw_options: BWOptions {
                text_size: TextSize::D40x25,
                enabled: false,
                blink: false,
                vertical_sync: false,
            },
            color_options: ColorOptions {
                graphics_type: GraphicsType::D320x200,
                black_white: false,
                black_white_640x200: false,
            },
            current_register: Register::HorizontalTotalCharacter,
            horizontal_total_character: 0,
            horizontal_displayed_characters_per_line: 0,
            horizontal_sync_position: 0,
            horizontal_sync_character_width: 0,
            vertical_total_lines: 0,
            vertical_total_adjust: 0,
            vertical_displayed_rows: 0,
            vertical_sync_character_rows: 0,
            interlace_mode: 0,
            maximum_scan_line_address: 0,
            cursor_start: 0,
            cursor_end: 0,
            start_address: 0,
            cursor_address: 0,
            light_pen: 0,
        }
    }

    /// Sync goes high while the display is enabled; the result is the delay
    /// to the end of sync, or `None` once the display is off.
    pub fn vertical_sync_start(&mut self) -> (r: Option<u64>)
        ensures
            old(self).bw_options.enabled ==> r == Some(SYNC_HIGH_MICROS) && *final(self) == (Graphics {
                bw_options: BWOptions { vertical_sync: true, ..old(self).bw_options },
                ..*old(self)
            }),
            !old(self).bw_options.enabled ==> r is None && *final(self) == *old(self),
    {
        if self.bw_options.enabled {
            self.bw_options.vertical_sync = true;
            Some(SYNC_HIGH_MICROS)
        } else {
            None
        }
    }

    /// Sync goes low while the display is enabled; the result is the delay
    /// to the next sync, or `None` once the display is off.
    pub fn vertical_sync_end(&mut self) -> (r: Option<u64>)
        ensures
            old(self).bw_options.enabled ==> r == Some(SYNC_LOW_MICROS) && *final(self) == (Graphics {
                bw_options: BWOptions { vertical_sync: false, ..old(self).bw_options },
                ..*old(self)
            }),
            !old(self).bw_options.enabled ==> r is None && *final(self) == *old(self),
    {
        if self.bw_options.enabled {
            self.bw_options.vertical_sync = false;
            Some(SYNC_LOW_MICROS)
        } else {
            None
        }
    }

    /// The status port: bits 0 and 3 show vertical sync.
    pub fn get_status(&self) -> (r: u8)
        ensures
            r == self.status(),
    {
        if self.bw_options.vertical_sync {
            0b1001
        } else {
            0
        }
    }

    /// The monochrome mode register: bit 0 text size, bit 3 enable, bit 5
    /// blink. The result is true when the sync oscillator is to start.
    pub fn set_mode_bw(&mut self, register: u8) -> (r: bool)
        ensures
            *final(self) == old(self).after_mode_bw(register),
            r == (register & 0b1000 == 0b1000),
    {
        proof {
            reveal(Graphics::after_mode_bw);
        }
        self.bw_options.text_size = if register & 0b1 == 0b1 {
            TextSize::D80x25
        } else {
            TextSize::D40x25
        };
        self.bw_options.enabled = register & 0b1000 == 0b1000;
        self.bw_options.blink = register & 0b10_0000 == 0b10_0000;
        self.bw_options.enabled
    }

    /// The monochrome mode register as last written.
    pub fn get_mode_bw(&self) -> (r: u8)
        ensures
            r == (if self.bw_options.text_size == TextSize::D80x25 { 1u8 } else { 0 }) + (if self.bw_options.enabled {
                0b1000u8
            } else {
                0
            }) + (if self.bw_options.blink { 0b10_0000u8 } else { 0 }),
    {
        let mut result: u8 = 0;
        if self.bw_options.text_size == TextSize::D80x25 {
            result = result + 1;
        }
        if self.bw_options.enabled {
            result = result + 0b1000;
        }
        if self.bw_options.blink {
            result = result + 0b10_0000;
        }
        result
    }

    /// The color mode register: the monochrome bits, plus bit 1 graphics
    /// type, bit 2 black and white, bit 4 640x200.
    pub fn set_mode_color(&mut self, register: u8) -> (r: bool)
        ensures
            *final(self) == old(self).after_mode_color(register),
            r == (register & 0b1000 == 0b1000),
    {
        proof {
            reveal(Graphics::after_mode_color);
            reveal(Graphics::after_mode_bw);
        }
        let start = self.set_mode_bw(register);
        self.color_options.graphics_type = if register & 0b10 == 0b10 {
            GraphicsType::D320x200
        } else {
            GraphicsType::Text
        };
        self.color_options.black_white = register & 0b100 == 0b100;
        self.color_options.black_white_640x200 = register & 0b1_0000 == 0b1_0000;
        start
    }

    /// The index port: selects the register the data port writes.
    pub fn choose_register(&mut self, register: u8)
        ensures
            *final(self) == old(self).after_choose(register),
    {
        proof {
            reveal(Graphics::after_choose);
        }
        self.current_register = if register == 0x00 { Register::HorizontalTotalCharacter }
        else if register == 0x01 { Register::HorizontalDisplayedCharactersPerLine }
        else if register == 0x02 { Register::HorizontalSyncPosition }
        else if register == 0x03 { Register::HorizontalSyncCharacterWidth }
        else if register == 0x04 { Register::VerticalTotalLines }
        else if register == 0x05 { Register::VerticalTotalAdjust }
        else if register == 0x06 { Register::VerticalDisplayedRows }
        else if register == 0x07 { Register::VerticalSyncCharacterRows }
        else if register == 0x08 { Register::InterlaceMode }
        else if register == 0x09 { Register::MaximumScanLineAddress }
        else if register == 0x0A { Register::CursorStart }
        else if register == 0x0B { Register::CursorEnd }
        else if register == 0x0C { Register::StartAddressMSB }
        else if register == 0x0D { Register::StartAddressLSB }
        else if register == 0x0E { Register::CursorAddressMSB }
        else if register == 0x0F { Register::CursorAddressLSB }
        else if register == 0x10 { Register::LightPenMSB }
        else if register == 0x11 { Register::LightPenLSB }
        else { Register::HorizontalTotalCharacter };
    }

    /// The data port: writes the selected register; the 16-bit ones take
    /// one byte at a time.
    pub fn set_register_data(&mut self, register: u8)
        ensures
            *final(self) == old(self).after_register_data(register),
    {
        proof {
            reveal(Graphics::after_register_data);
        }
        match self.current_register {
            Register::HorizontalTotalCharacter => self.horizontal_total_character = register,
            Register::HorizontalDisplayedCharactersPerLine => self.horizontal_displayed_characters_per_line = register,
            Register::HorizontalSyncPosition => self.horizontal_sync_position = register,
            Register::HorizontalSyncCharacterWidth => self.horizontal_sync_character_width = register,
            Register::VerticalTotalLines => self.vertical_total_lines = register,
            Register::VerticalTotalAdjust => self.vertical_total_adjust = register,
            Register::VerticalDisplayedRows => self.vertical_displayed_rows = register,
            Register::VerticalSyncCharacterRows => self.vertical_sync_character_rows = register,
            Register::InterlaceMode => self.interlace_mode = register,
            Register::MaximumScanLineAddress => self.maximum_scan_line_address = register,
            Register::CursorStart => self.cursor_start = register,
            Register::CursorEnd => self.cursor_end = register,
            Register::StartAddressMSB => self.start_address = self.start_address % 256 + register as u16 * 256,
            Register::StartAddressLSB => self.start_address = (self.start_address / 256) * 256 + register as u16,
            Register::CursorAddressMSB => self.cursor_address = self.cursor_address % 256 + register as u16 * 256,
            Register::CursorAddressLSB => self.cursor_address = (self.cursor_address / 256) * 256 + register as u16,
            Register::LightPenMSB => self.light_pen = self.light_pen % 256 + register as u16 * 256,
            Register::LightPenLSB => self.light_pen = (self.light_pen / 256) * 256 + register as u16,
        }
    }

    /// The controller after a write to the data port: the selected register
    /// takes the byte; the 16-bit ones take it in their named half.
    #[verifier::opaque]
    pub open spec fn after_register_data(self, v: u8) -> Graphics {
        match self.current_register {
            Register::HorizontalTotalCharacter => Graphics { horizontal_total_character: v, ..self },
            Register::HorizontalDisplayedCharactersPerLine => Graphics { horizontal_displayed_characters_per_line: v, ..self },
            Register::HorizontalSyncPosition => Graphics { horizontal_sync_position: v, ..self },
            Register::HorizontalSyncCharacterWidth => Graphics { horizontal_sync_character_width: v, ..self },
            Register::VerticalTotalLines => Graphics { vertical_total_lines: v, ..self },
            Register::VerticalTotalAdjust => Graphics { vertical_total_adjust: v, ..self },
            Register::VerticalDisplayedRows => Graphics { vertical_displayed_rows: v, ..self },
            Register::VerticalSyncCharacterRows => Graphics { vertical_sync_character_rows: v, ..self },
            Register::InterlaceMode => Graphics { interlace_mode: v, ..self },
            Register::MaximumScanLineAddress => Graphics { maximum_scan_line_address: v, ..self },
            Register::CursorStart => Graphics { cursor_start: v, ..self },
            Register::CursorEnd => Graphics { cursor_end: v, ..self },
            Register::StartAddressMSB => Graphics { start_address: with_high(self.start_address, v), ..self },
            Register::StartAddressLSB => Graphics { start_address: with_low(self.start_address, v), ..self },
            Register::CursorAddressMSB => Graphics { cursor_address: with_high(self.cursor_address, v), ..self },
            Register::CursorAddressLSB => Graphics { cursor_address: with_low(self.cursor_address, v), ..self },
            Register::LightPenMSB => Graphics { light_pen: with_high(self.light_pen, v), ..self },
            Register::LightPenLSB => Graphics { light_pen: with_low(self.light_pen, v), ..self },
        }
    }

    /// The controller after the index port selects a register.
    #[verifier::opaque]
    pub open spec fn after_choose(self, v: u8) -> Graphics {
        Graphics { current_register: register_of(v), ..self }
    }

    /// The monochrome options after a mode register write.
    pub open spec fn bw_after(self, v: u8) -> BWOptions {
        BWOptions {
            text_size: if v & 0b1 == 0b1 { TextSize::D80x25 } else { TextSize::D40x25 },
            enabled: v & 0b1000 == 0b1000,
            blink: v & 0b10_0000 == 0b10_0000,
            ..self.bw_options
        }
    }

    /// The controller after a monochrome mode register write.
    #[verifier::opaque]
    pub open spec fn after_mode_bw(self, v: u8) -> Graphics {
        Graphics { bw_options: self.bw_after(v), ..self }
    }

    /// The controller after a color mode register write.
    #[verifier::opaque]
    pub open spec fn after_mode_color(self, v: u8) -> Graphics {
        Graphics {
            bw_options: self.bw_after(v),
            color_options: ColorOptions {
                graphics_type: if v & 0b10 == 0b10 { GraphicsType::D320x200 } else { GraphicsType::Text },
                black_white: v & 0b100 == 0b100,
                black_white_640x200: v & 0b1_0000 == 0b1_0000,
            },
            ..self
        }
    }

    /// The status port: bits 0 and 3 show vertical sync.
    pub open spec fn status(self) -> u8 {
        if self.bw_options.vertical_sync { 0b1001u8 } else { 0 }
    }
}

/// The controller after power-on.
pub open spec fn fresh_graphics() -> Graphics {
    Graphics {
        bw_options: BWOptions { text_size: TextSize::D40x25, enabled: false, blink: false, vertical_sync: false },
        color_options: ColorOptions { graphics_type: GraphicsType::D320x200, black_white: false, black_white_640x200: false },
        current_register: Register::HorizontalTotalCharacter,
        horizontal_total_character: 0,
        horizontal_displayed_characters_per_line: 0,
        horizontal_sync_position: 0,
        horizontal_sync_character_width: 0,
        vertical_total_lines: 0,
        vertical_total_adjust: 0,
        vertical_displayed_rows: 0,
        vertical_sync_character_rows: 0,
        interlace_mode: 0,
        maximum_scan_line_address: 0,
        cursor_start: 0,
        cursor_end: 0,
        start_address: 0,
        cursor_address: 0,
        light_pen: 0,
    }
}

} // verus!
