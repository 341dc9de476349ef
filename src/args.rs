use vstd::prelude::*;

verus! {

/// The settings the terminal starts with.
#[derive(Debug)]
pub struct Args {
    pub font_path: String,
    pub font_size_px: u32,
    pub font_subpixel_antialiasing: bool,
    pub framebuffer_device_path: String,
    pub shell_path: String,
}

pub const DEFAULT_FONT_SIZE_PX: u32 = 16;

impl Args {
    /// The settings given on the command line, each missing one replaced by its
    /// default: `font.ttf`, 16 pixels, `/dev/fb0`, `/usr/bin/bash`.
    pub fn from_options(
        font_path: Option<String>,
        font_size_px: Option<u32>,
        disable_subpixel_antialiasing: bool,
        framebuffer_device_path: Option<String>,
        shell_path: Option<String>,
    ) -> (r: Self)
        ensures
            r.font_path@ == (match font_path {
                Some(p) => p@,
                None => "font.ttf"@,
            }),
            r.font_size_px == (match font_size_px {
                Some(s) => s,
                None => DEFAULT_FONT_SIZE_PX,
            }),
            r.font_subpixel_antialiasing == !disable_subpixel_antialiasing,
            r.framebuffer_device_path@ == (match framebuffer_device_path {
                Some(p) => p@,
                None => "/dev/fb0"@,
            }),
            r.shell_path@ == (match shell_path {
                Some(p) => p@,
                None => "/usr/bin/bash"@,
            }),
    {
        let font_path = match font_path {
            Some(path) => path,
            None => "font.ttf".to_owned(),
        };
        let font_size_px = match font_size_px {
            Some(size) => size,
            None => DEFAULT_FONT_SIZE_PX,
        };
        let framebuffer_device_path = match framebuffer_device_path {
            Some(path) => path,
            None => "/dev/fb0".to_owned(),
        };
        let shell_path = match shell_path {
            Some(path) => path,
            None => "/usr/bin/bash".to_owned(),
        };
        Self {
            font_path,
            font_size_px,
            font_subpixel_antialiasing: !disable_subpixel_antialiasing,
            framebuffer_device_path,
            shell_path,
        }
    }
}

} // verus!
