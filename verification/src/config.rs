//! User preferences and their sanitization.

use vstd::prelude::*;

verus! {

/// Display time, in seconds, of a configuration that names none.
pub const DEFAULT_DISPLAY_TIME: u64 = 3;

/// Longest display time, in seconds, that a sanitized configuration holds.
pub const MAX_DISPLAY_TIME: u64 = 60;

/// Colour scheme of the notification.
#[derive(Debug, Clone, Copy, PartialEq, Eq, Structural)]
pub enum Theme {
    Dark,
    Light,
    Custom,
}

impl Default for Theme {
    fn default() -> (theme: Self)
        ensures
            theme == Theme::Dark,
    {
        Theme::Dark
    }
}

/// Screen corner in which the notification appears.
#[derive(Debug, Clone, Copy, PartialEq, Eq, Structural)]
pub enum Corner {
    BottomRight,
    BottomLeft,
    TopRight,
    TopLeft,
}

impl Default for Corner {
    fn default() -> (corner: Self)
        ensures
            corner == Corner::BottomRight,
    {
        Corner::BottomRight
    }
}

/// Paths of the user's own notification images. Neither path is checked.
#[derive(Debug, PartialEq, Eq)]
pub struct CustomImages {
    pub copy: Option<String>,
    pub clear: Option<String>,
}

/// What a `CustomImages` holds, as text.
pub ghost struct CustomImagesView {
    pub copy: Option<Seq<char>>,
    pub clear: Option<Seq<char>>,
}

impl View for CustomImages {
    type V = CustomImagesView;

    open spec fn view(&self) -> CustomImagesView {
        CustomImagesView { copy: self.copy.deep_view(), clear: self.clear.deep_view() }
    }
}

impl Clone for CustomImages {
    fn clone(&self) -> (copy: Self)
        ensures
            copy == *self,
    {
        CustomImages { copy: self.copy.clone(), clear: self.clear.clone() }
    }
}

impl Default for CustomImages {
    fn default() -> (images: Self)
        ensures
            images.copy is None,
            images.clear is None,
    {
        CustomImages { copy: None, clear: None }
    }
}

/// The user's preferences.
#[derive(Debug, PartialEq, Eq)]
pub struct AppConfig {
    pub theme: Theme,
    /// Seconds for which the notification stays visible.
    pub display_time: u64,
    pub corner: Corner,
    pub custom_images: CustomImages,
}

/// What an `AppConfig` holds, as mathematical values.
pub ghost struct AppConfigView {
    pub theme: Theme,
    pub display_time: nat,
    pub corner: Corner,
    pub custom_images: CustomImagesView,
}

impl AppConfigView {
    /// The configuration with which a fresh installation starts.
    pub open spec fn initial() -> AppConfigView {
        AppConfigView {
            theme: Theme::Dark,
            display_time: DEFAULT_DISPLAY_TIME as nat,
            corner: Corner::BottomRight,
            custom_images: CustomImagesView { copy: None, clear: None },
        }
    }

    /// The display time lies between one second and `MAX_DISPLAY_TIME`.
    pub open spec fn is_sane(self) -> bool {
        1 <= self.display_time <= MAX_DISPLAY_TIME
    }

    /// The same configuration with its display time brought into range:
    /// zero becomes the default, anything over the maximum becomes the
    /// maximum.
    pub open spec fn sanitized(self) -> AppConfigView {
        AppConfigView { display_time: sanitized_display_time(self.display_time), ..self }
    }
}

/// The display time that sanitization makes of `seconds`.
pub open spec fn sanitized_display_time(seconds: nat) -> nat {
    if seconds == 0 {
        DEFAULT_DISPLAY_TIME as nat
    } else if seconds > MAX_DISPLAY_TIME {
        MAX_DISPLAY_TIME as nat
    } else {
        seconds
    }
}

impl View for AppConfig {
    type V = AppConfigView;

    open spec fn view(&self) -> AppConfigView {
        AppConfigView {
            theme: self.theme,
            display_time: self.display_time as nat,
            corner: self.corner,
            custom_images: self.custom_images@,
        }
    }
}

impl Clone for AppConfig {
    fn clone(&self) -> (copy: Self)
        ensures
            copy == *self,
    {
        AppConfig {
            theme: self.theme,
            display_time: self.display_time,
            corner: self.corner,
            custom_images: self.custom_images.clone(),
        }
    }
}

impl Default for AppConfig {
    fn default() -> (cfg: Self)
        ensures
            cfg@ == AppConfigView::initial(),
    {
        AppConfig {
            theme: Theme::Dark,
            display_time: DEFAULT_DISPLAY_TIME,
            corner: Corner::BottomRight,
            custom_images: CustomImages::default(),
        }
    }
}

/// Brings the display time of `cfg` into range and leaves every other field
/// as it is. A display time between one second and the maximum is kept.
pub fn sanitize_config(cfg: AppConfig) -> (clean: AppConfig)
    ensures
        clean@ == cfg@.sanitized(),
        clean@.is_sane(),
        cfg@.is_sane() ==> clean == cfg,
        clean.theme == cfg.theme,
        clean.corner == cfg.corner,
        clean.custom_images == cfg.custom_images,
{
    let mut cfg = cfg;
    if cfg.display_time == 0 {
        cfg.display_time = DEFAULT_DISPLAY_TIME;
    }
    if cfg.display_time > MAX_DISPLAY_TIME {
        cfg.display_time = MAX_DISPLAY_TIME;
    }
    cfg
}

/// Sanitizing twice gives what sanitizing once gives.
pub proof fn lemma_sanitize_idempotent(cfg: AppConfigView)
    ensures
        cfg.sanitized().sanitized() == cfg.sanitized(),
{
}

/// Whatever the configuration, its sanitized form is in range, and a
/// configuration in range is its own sanitized form.
pub proof fn lemma_sanitize_range(cfg: AppConfigView)
    ensures
        cfg.sanitized().is_sane(),
        cfg.is_sane() ==> cfg.sanitized() == cfg,
{
}

} // verus!
