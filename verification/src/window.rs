//! Window bootstrap: the configuration this crate asks the window library to
//! realise. The embedding turns a `WindowConfig` into a live window handle;
//! construction failure there is fatal by design, with no recovery path.

use vstd::prelude::*;

verus! {

/// The desired window: title, drawable size, rendering backend version and
/// the close-on-escape policy.
pub struct WindowConfig {
    pub title: String,
    pub width: u32,
    pub height: u32,
    /// Major version of the OpenGL backend to select.
    pub gl_major: u8,
    /// Minor version of the OpenGL backend to select.
    pub gl_minor: u8,
    /// Whether pressing escape closes the window.
    pub exit_on_esc: bool,
}

/// Builds the window configuration for the given title and size. Policy is
/// fixed here: OpenGL 4.5 as the rendering backend, and exit-on-escape on.
pub fn create_window(name: &str, width: u32, height: u32) -> (config: WindowConfig)
    ensures
        config.title@ == name@,
        config.width == width,
        config.height == height,
        config.gl_major == 4,
        config.gl_minor == 5,
        config.exit_on_esc,
{
    WindowConfig {
        title: name.to_owned(),
        width,
        height,
        gl_major: 4,
        gl_minor: 5,
        exit_on_esc: true,
    }
}

} // verus!
