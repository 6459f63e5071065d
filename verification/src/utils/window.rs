use vstd::prelude::*;

verus! {

/// What a window is opened with.
#[derive(Clone, Copy, Debug)]
pub struct WindowConfig {
    /// The title in the window's title bar.
    pub title: &'static str,
    /// The initial width in pixels.
    pub width: i32,
    /// The initial height in pixels.
    pub height: i32,
    /// Whether the window starts in fullscreen.
    pub fullscreen: bool,
    /// The frames per second to aim at; 0 for no limit.
    pub target_fps: u32,
}

impl WindowConfig {
    /// The settings of a window that nobody configured.
    pub open spec fn standard() -> WindowConfig {
        WindowConfig { title: "Ruty Game", width: 800, height: 600, fullscreen: false, target_fps: 60 }
    }
}

impl Default for WindowConfig {
    fn default() -> (config: WindowConfig)
        ensures
            config == WindowConfig::standard(),
    {
        WindowConfig { title: "Ruty Game", width: 800, height: 600, fullscreen: false, target_fps: 60 }
    }
}

/// Sets a window up step by step. Each step changes one setting and keeps the
/// others.
#[derive(Debug)]
pub struct WindowBuilder {
    pub config: WindowConfig,
}

impl WindowBuilder {
    /// A builder that holds the standard settings.
    pub fn new() -> (builder: WindowBuilder)
        ensures
            builder.config == WindowConfig::standard(),
    {
        WindowBuilder { config: WindowConfig::default() }
    }

    /// Sets the title.
    pub fn title(self, title: &'static str) -> (builder: WindowBuilder)
        ensures
            builder.config == (WindowConfig { title, ..self.config }),
    {
        let mut builder = self;
        builder.config.title = title;
        builder
    }

    /// Sets the width and the height.
    pub fn size(self, width: i32, height: i32) -> (builder: WindowBuilder)
        ensures
            builder.config == (WindowConfig { width, height, ..self.config }),
    {
        let mut builder = self;
        builder.config.width = width;
        builder.config.height = height;
        builder
    }

    /// Sets whether the window starts in fullscreen.
    pub fn fullscreen(self, fullscreen: bool) -> (builder: WindowBuilder)
        ensures
            builder.config == (WindowConfig { fullscreen, ..self.config }),
    {
        let mut builder = self;
        builder.config.fullscreen = fullscreen;
        builder
    }

    /// Sets the frames per second to aim at.
    pub fn target_fps(self, fps: u32) -> (builder: WindowBuilder)
        ensures
            builder.config == (WindowConfig { target_fps: fps, ..self.config }),
    {
        let mut builder = self;
        builder.config.target_fps = fps;
        builder
    }

    /// Hands out the settings for the window to be opened with.
    pub fn build(self) -> (config: WindowConfig)
        ensures
            config == self.config,
    {
        self.config
    }
}

} // verus!
