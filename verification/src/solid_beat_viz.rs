use vstd::prelude::*;

verus! {

use vstd::math::min;
use crate::theme::Color;
use crate::viz::{spec_fade_mul, fade_mul, PixelViz};
use crate::transform::seq_sum;
use crate::sys;

/// Configuration of the solid beat visualization.
#[derive(Clone, Debug)]
pub struct SolidBeatVizConfig {
    /// Screen friendly name of visualization.
    pub pretty_name: String,
    /// Whether the strip fades to the next theme color periodically.
    pub fade_colors: bool,
    /// Seconds a color is shown before fading to the next one.
    pub fade_duration: i64,
}

/// What reading a solid beat configuration from a key/value list
/// yields: a config exactly when the fade switch and the duration read
/// within range.
pub open spec fn spec_solid_beat_config(name: String, settings: Seq<(String, String)>) -> Option<
    SolidBeatVizConfig,
> {
    match (
        crate::settings::spec_map_bool(settings, "fade_colors"@, true),
        crate::settings::spec_map_u64(settings, "fade_duration"@),
    ) {
        (Some(fade_colors), Some(fade_duration)) => if fade_duration <= i64::MAX {
            Some(
                SolidBeatVizConfig {
                    pretty_name: name,
                    fade_colors,
                    fade_duration: fade_duration as i64,
                },
            )
        } else {
            None
        },
        _ => None,
    }
}

/// The key/value view of a solid beat configuration, as `to_map`
/// renders it.
pub open spec fn spec_solid_beat_settings(
    config: SolidBeatVizConfig,
    settings: Seq<(String, String)>,
) -> bool {
    &&& settings.len() == 2
    &&& settings[0].0@ == "fade_colors"@ && settings[0].1@ == (if config.fade_colors {
        "true"@
    } else {
        "false"@
    })
    &&& settings[1].0@ == "fade_duration"@ && settings[1].1@ == crate::settings::spec_digits(
        if config.fade_duration >= 0 {
            config.fade_duration as int
        } else {
            0
        },
    )
}

impl SolidBeatVizConfig {
    /// Converts the visualization config into a key/value list.
    pub fn to_map(&self) -> (settings: Vec<(String, String)>)
        ensures
            spec_solid_beat_settings(*self, settings@),
    {
        let mut settings: Vec<(String, String)> = Vec::new();
        let fade = if self.fade_colors {
            String::from_str("true")
        } else {
            String::from_str("false")
        };
        settings.push((String::from_str("fade_colors"), fade));
        let duration = if self.fade_duration >= 0 {
            self.fade_duration as u64
        } else {
            0
        };
        settings.push((String::from_str("fade_duration"), crate::settings::u64_to_string(duration)));
        settings
    }

    /// Creates a visualization config from a key/value list; a missing
    /// fade switch falls back to fading, a missing duration to zero, and
    /// an unparsable value fails the request.
    pub fn from_map(name: String, settings: &Vec<(String, String)>) -> (config: Option<
        SolidBeatVizConfig,
    >)
        ensures
            config == spec_solid_beat_config(name, settings@),
    {
        let fade_colors = crate::settings::map_get_bool(settings, "fade_colors", true);
        let fade_duration = crate::settings::map_get_u64(settings, "fade_duration");
        match (fade_colors, fade_duration) {
            (Some(fade_colors), Some(fade_duration)) => {
                if fade_duration <= i64::MAX as u64 {
                    Some(
                        SolidBeatVizConfig {
                            pretty_name: name,
                            fade_colors,
                            fade_duration: fade_duration as i64,
                        },
                    )
                } else {
                    None
                }
            },
            _ => None,
        }
    }
}

/// Brightness of the whole strip for one frame: the summed band energy
/// relative to the largest possible energy, per mille.
pub open spec fn spec_beat_brightness(input: Seq<u64>) -> int {
    min(1000, (seq_sum(input) * 10) / (input.len() as int))
}

/// Computes the whole-strip brightness from the band energies.
pub fn beat_brightness(input: &Vec<u64>) -> (brightness: u32)
    requires
        1 <= input@.len() <= 0x100_0000,
        crate::transform::bounded_seq(input@),
    ensures
        brightness == spec_beat_brightness(input@),
        brightness <= 1000,
{
    let mut sum: u128 = 0;
    let mut i: usize = 0;
    while i < input.len()
        invariant
            i <= input@.len() <= 0x100_0000,
            crate::transform::bounded_seq(input@),
            sum == seq_sum(input@.take(i as int)),
            sum <= crate::transform::magnitude_limit() * i,
        decreases input@.len() - i,
    {
        proof {
            assert(input@.take(i + 1).drop_last() =~= input@.take(i as int));
            let l = crate::transform::magnitude_limit();
            assert(l * (i + 1) == l * i + l) by (nonlinear_arith);
            assert(l * (i + 1) <= l * 0x100_0000) by (nonlinear_arith)
                requires
                    i + 1 <= 0x100_0000,
                    l >= 0,
            ;
        }
        sum = sum + input[i] as u128;
        i += 1;
    }
    proof {
        assert(input@.take(input@.len() as int) =~= input@);
        vstd::arithmetic::div_mod::lemma_div_pos_is_pos(
            (sum as int) * 10,
            input@.len() as int,
        );
        assert((sum as int) * 10 >= 0) by (nonlinear_arith)
            requires
                sum >= 0,
        ;
    }
    let scaled: u128 = sum * 10 / (input.len() as u128);
    if scaled > 1000 {
        1000
    } else {
        scaled as u32
    }
}

/// Visualization that shows all pixels in the same color, with the
/// whole-strip brightness following the summed band energy; optionally
/// the strip fades to the next theme color periodically.
#[derive(Clone, Debug)]
pub struct SolidBeatViz {
    /// Visualization config.
    pub config: SolidBeatVizConfig,
    /// Total number of pixels.
    pub total_pixels: usize,
    /// Wall-clock milliseconds of the last color change.
    pub elapsed_ms: i64,
    /// Theme color currently displayed.
    pub color_index: usize,
}

impl SolidBeatViz {
    /// Number of pixels driven per frame.
    pub open spec fn pixel_count(&self) -> int {
        self.total_pixels as int
    }

    /// Creates a new solid beat visualization.
    pub fn new(config: SolidBeatVizConfig) -> (viz: SolidBeatViz)
        ensures
            viz.pixel_count() == 0,
            viz.config == config,
            viz.color_index == 0,
    {
        SolidBeatViz { config, total_pixels: 0, elapsed_ms: sys::now_millis(), color_index: 0 }
    }

    /// Unique identifier of the visualization.
    pub fn get_name(&self) -> (name: &'static str)
        ensures
            name@ == "solid_beat_viz"@,
    {
        "solid_beat_viz"
    }

    /// Descriptive visualization name.
    pub fn get_pretty_name(&self) -> (name: &str)
        ensures
            name@ == self.config.pretty_name@,
    {
        self.config.pretty_name.as_str()
    }

    /// One uniform frame: every pixel shows the current theme color at
    /// the energy-driven brightness; with fading enabled the strip blends
    /// toward the next color and advances once the fade duration has
    /// passed; with fading disabled the state is untouched and the
    /// multipliers stay at one. Whatever the clock returned, all
    /// descriptors of the frame are equal, with brightness and color
    /// multipliers in range.
    pub fn update(&mut self, input: &Vec<u64>, colors: &Vec<Color>) -> (frame: Vec<PixelViz>)
        requires
            1 <= input@.len() <= 0x100_0000,
            crate::transform::bounded_seq(input@),
            colors@.len() >= 1,
        ensures
            final(self).pixel_count() == old(self).pixel_count(),
            final(self).config == old(self).config,
            final(self).color_index < colors@.len() || final(self).color_index == old(
                self,
            ).color_index,
            frame@.len() == old(self).pixel_count(),
            forall|i: int| 0 <= i < frame@.len() ==> #[trigger] frame@[i] == frame@[0],
            frame@.len() > 0 ==> frame@[0].brightness == spec_beat_brightness(input@),
            !old(self).config.fade_colors ==> *final(self) == *old(self),
            !old(self).config.fade_colors ==> (frame@.len() > 0 ==> frame@[0] == (PixelViz {
                color_index: old(self).color_index,
                red_mul: 1000,
                green_mul: 1000,
                blue_mul: 1000,
                brightness: spec_beat_brightness(input@) as u32,
            })),
            forall|i: int|
                0 <= i < frame@.len() ==> (#[trigger] frame@[i]).red_mul <= 255000
                    && frame@[i].green_mul <= 255000 && frame@[i].blue_mul <= 255000
                    && frame@[i].brightness <= 1000,
    {
        let mut viz = PixelViz::default();
        viz.brightness = beat_brightness(input);
        viz.color_index = self.color_index;

        if self.config.fade_colors {
            let next_color_index = ((self.color_index % colors.len()) + 1) % colors.len();
            let now = sys::now_millis();
            let elapsed_s: i64 = if now >= self.elapsed_ms {
                let diff: i128 = ((now as i128) - (self.elapsed_ms as i128)) / 1000;
                if diff > i64::MAX as i128 {
                    i64::MAX
                } else {
                    diff as i64
                }
            } else {
                0
            };
            if elapsed_s > self.config.fade_duration || self.config.fade_duration < 1 {
                self.color_index = next_color_index;
                self.elapsed_ms = now;
            } else {
                // fade each channel toward the next color
                let current_color = colors[self.color_index % colors.len()];
                let next_color = colors[next_color_index];
                viz.red_mul = fade_mul(
                    next_color.r,
                    current_color.r,
                    elapsed_s,
                    self.config.fade_duration,
                );
                viz.green_mul = fade_mul(
                    next_color.g,
                    current_color.g,
                    elapsed_s,
                    self.config.fade_duration,
                );
                viz.blue_mul = fade_mul(
                    next_color.b,
                    current_color.b,
                    elapsed_s,
                    self.config.fade_duration,
                );
            }
        }

        let frame = vec![viz; self.total_pixels];
        frame
    }

    /// Sets the number of available pixels.
    pub fn set_total_pixels(&mut self, pixels: usize)
        ensures
            *final(self) == (SolidBeatViz { total_pixels: pixels, ..*old(self) }),
            final(self).pixel_count() == pixels,
    {
        self.total_pixels = pixels;
    }

    /// The visualization settings as a key/value list.
    pub fn get_settings(&self) -> (settings: Vec<(String, String)>)
        ensures
            spec_solid_beat_settings(self.config, settings@),
    {
        self.config.to_map()
    }

    /// Replaces the configuration from a key/value list exactly when it
    /// parses within range, keeping the display name and the rest of the
    /// state; an unparsable list leaves everything unchanged.
    pub fn update_settings(&mut self, settings: &Vec<(String, String)>) -> (ok: bool)
        ensures
            final(self).pixel_count() == old(self).pixel_count(),
            final(self).color_index == old(self).color_index,
            final(self).elapsed_ms == old(self).elapsed_ms,
            ok == (spec_solid_beat_config(old(self).config.pretty_name, settings@) is Some),
            ok ==> (match spec_solid_beat_config(old(self).config.pretty_name, settings@) {
                Some(c) => {
                    &&& final(self).config.pretty_name@ == old(self).config.pretty_name@
                    &&& final(self).config.fade_colors == c.fade_colors
                    &&& final(self).config.fade_duration == c.fade_duration
                },
                None => false,
            }),
            !ok ==> *final(self) == *old(self),
    {
        let name = String::from_str(self.config.pretty_name.as_str());
        match SolidBeatVizConfig::from_map(name, settings) {
            Some(new_settings) => {
                self.config = new_settings;
                true
            },
            None => false,
        }
    }
}

} // verus!
