//! Emulator configuration: the screen scale and the font-image path.
//! Reading a configuration file is the driver's business; the library
//! only states the defaulting rule for the settings it is handed.

use vstd::prelude::*;

verus! {

pub struct EmuConfig {
    pub screen_size: u8,
    pub font_path: String,
}

impl EmuConfig {
    /// The built-in defaults: scale 1 and the bundled font file.
    pub fn new() -> (c: EmuConfig)
        ensures
            c.screen_size == 1,
            c.font_path@ == "./nesfont.bmp"@,
    {
        EmuConfig { screen_size: 1, font_path: "./nesfont.bmp".to_owned() }
    }

    /// Applies settings read from a configuration source: a missing or
    /// unparseable screen size falls back to 1, a missing font path to
    /// the bundled default.
    pub fn from_settings(screen_size: Option<u8>, font_path: Option<String>) -> (c: EmuConfig)
        ensures
            c.screen_size == (match screen_size {
                Some(v) => v,
                None => 1u8,
            }),
            c.font_path@ == (match font_path {
                Some(p) => p@,
                None => "./nesfont.bmp"@,
            }),
    {
        let base = EmuConfig::new();
        EmuConfig {
            screen_size: match screen_size {
                Some(v) => v,
                None => base.screen_size,
            },
            font_path: match font_path {
                Some(p) => p,
                None => base.font_path,
            },
        }
    }
}

} // verus!
