//! The settings that the daemon follows and the control panel edits, and
//! their defaults. The blur strength is kept as the bit pattern of its
//! single-precision value.

use vstd::prelude::*;
use crate::blueprint::DEFAULT_BLUR_BITS;
use crate::text::text_views;

verus! {

/// The daemon's settings.
pub struct Settings {
    /// Whether the effects are switched on.
    pub active: bool,
    /// The camera devices, most wanted first.
    pub camera_priority: Vec<String>,
    /// The blur strength, as the bit pattern of a single-precision float.
    pub blur_strength_bits: u32,
    /// "none", "freeze" or "glitch".
    pub sabotage: String,
    pub lighting_boost: bool,
    /// "blur", "replace" or "replace_and_blur".
    pub effect_mode: String,
    /// The path of the replacement image.
    pub background_image: String,
    /// "auto", "nvidia", "intel", "amd", "npu" or "cpu".
    pub gpu_backend: String,
}

/// The settings that the control panel edits.
pub struct PanelSettings {
    pub active: bool,
    pub camera_priority: Vec<String>,
    pub blur_strength_bits: u32,
    pub sabotage: String,
    pub lighting_boost: bool,
}

/// The default effect mode.
pub fn default_effect_mode() -> (r: String)
    ensures
        r@ == "blur"@,
{
    String::from_str("blur")
}

/// The default execution backend.
pub fn default_gpu_backend() -> (r: String)
    ensures
        r@ == "auto"@,
{
    String::from_str("auto")
}

/// The default camera priority of the daemon.
pub fn default_camera_priority() -> (r: Vec<String>)
    ensures
        text_views(r@) == seq!["/dev/video0"@, "/dev/video2"@],
{
    let mut r: Vec<String> = Vec::new();
    r.push(String::from_str("/dev/video0"));
    r.push(String::from_str("/dev/video2"));
    proof {
        assert(text_views(r@) =~= seq!["/dev/video0"@, "/dev/video2"@]);
    }
    r
}

impl Default for Settings {
    /// Effects on, blur at one half, no sabotage, no lighting boost, blurring
    /// the live camera, no image, the backend chosen automatically.
    fn default() -> (r: Self)
        ensures
            r.active,
            text_views(r.camera_priority@) == seq!["/dev/video0"@, "/dev/video2"@],
            r.blur_strength_bits == DEFAULT_BLUR_BITS,
            r.sabotage@ == "none"@,
            !r.lighting_boost,
            r.effect_mode@ == "blur"@,
            r.background_image@ == ""@,
            r.gpu_backend@ == "auto"@,
    {
        Settings {
            active: true,
            camera_priority: default_camera_priority(),
            blur_strength_bits: DEFAULT_BLUR_BITS,
            sabotage: String::from_str("none"),
            lighting_boost: false,
            effect_mode: default_effect_mode(),
            background_image: String::from_str(""),
            gpu_backend: default_gpu_backend(),
        }
    }
}

impl Default for PanelSettings {
    /// Effects on, the first camera device, blur at one half, no sabotage, no
    /// lighting boost.
    fn default() -> (r: Self)
        ensures
            r.active,
            text_views(r.camera_priority@) == seq!["/dev/video0"@],
            r.blur_strength_bits == DEFAULT_BLUR_BITS,
            r.sabotage@ == "none"@,
            !r.lighting_boost,
    {
        let mut cameras: Vec<String> = Vec::new();
        cameras.push(String::from_str("/dev/video0"));
        proof {
            assert(text_views(cameras@) =~= seq!["/dev/video0"@]);
        }
        PanelSettings {
            active: true,
            camera_priority: cameras,
            blur_strength_bits: DEFAULT_BLUR_BITS,
            sabotage: String::from_str("none"),
            lighting_boost: false,
        }
    }
}

} // verus!
