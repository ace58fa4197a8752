use vstd::prelude::*;

verus! {

use crate::viz::PixelViz;

/// Configuration of the solid visualization.
#[derive(Clone, Debug)]
pub struct SolidVizConfig {
    /// Screen friendly name of visualization.
    pub pretty_name: String,
}

impl SolidVizConfig {
    /// Converts the visualization config into a key/value list; the solid
    /// visualization has no tunables.
    pub fn to_map(&self) -> (settings: Vec<(String, String)>)
        ensures
            settings@.len() == 0,
    {
        Vec::new()
    }

    /// Creates a visualization config from a key/value list; the solid
    /// visualization takes none of them.
    pub fn from_map(name: String, settings: Vec<(String, String)>) -> (config: SolidVizConfig)
        ensures
            config.pretty_name@ == name@,
    {
        let _ = settings;
        SolidVizConfig { pretty_name: name }
    }
}

/// Visualization that shows all pixels in a static color without changing
/// them.
#[derive(Clone, Debug)]
pub struct SolidViz {
    /// Visualization config.
    pub config: SolidVizConfig,
    /// Total number of pixels.
    pub total_pixels: usize,
}

impl SolidViz {
    /// Number of pixels driven per frame.
    pub open spec fn pixels(&self) -> int {
        self.total_pixels as int
    }

    /// Creates a new solid visualization.
    pub fn new(config: SolidVizConfig) -> (viz: SolidViz)
        ensures
            viz.pixels() == 0,
            viz.config.pretty_name@ == config.pretty_name@,
    {
        SolidViz { config, total_pixels: 0 }
    }

    /// Unique identifier of the visualization.
    pub fn get_name(&self) -> (name: &'static str)
        ensures
            name@ == "solid_viz"@,
    {
        "solid_viz"
    }

    /// Descriptive visualization name.
    pub fn get_pretty_name(&self) -> (name: &str)
        ensures
            name@ == self.config.pretty_name@,
    {
        self.config.pretty_name.as_str()
    }

    /// Every pixel fully lit with the first palette color, regardless of
    /// the band input.
    pub fn update(&mut self, input: &Vec<u64>, colors: &Vec<crate::theme::Color>) -> (pixels: Vec<
        PixelViz,
    >)
        ensures
            *final(self) == *old(self),
            pixels@.len() == old(self).pixels(),
            forall|i: int|
                0 <= i < pixels@.len() ==> #[trigger] pixels@[i] == (PixelViz {
                    color_index: 0,
                    red_mul: 1000,
                    green_mul: 1000,
                    blue_mul: 1000,
                    brightness: 1000,
                }),
    {
        let _ = input;
        let _ = colors;
        let p = PixelViz::default();
        vec![p; self.total_pixels]
    }

    /// Sets the number of available pixels.
    pub fn set_total_pixels(&mut self, pixels: usize)
        ensures
            *final(self) == (SolidViz { total_pixels: pixels, ..*old(self) }),
            final(self).pixels() == pixels,
    {
        self.total_pixels = pixels;
    }

    /// The visualization settings as a key/value list.
    pub fn get_settings(&self) -> (settings: Vec<(String, String)>)
        ensures
            settings@.len() == 0,
    {
        self.config.to_map()
    }

    /// Replaces the configuration from a key/value list, keeping the
    /// display name.
    pub fn update_settings(&mut self, settings: Vec<(String, String)>)
        ensures
            final(self).pixels() == old(self).pixels(),
            final(self).config.pretty_name@ == old(self).config.pretty_name@,
    {
        let name = String::from_str(self.config.pretty_name.as_str());
        let new_settings = SolidVizConfig::from_map(name, settings);
        self.config = new_settings;
    }
}

} // verus!
