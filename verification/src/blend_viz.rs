use vstd::prelude::*;

verus! {

use crate::theme::Color;
use crate::viz::PixelViz;
use crate::sys;

/// Configuration of the blend visualization.
#[derive(Clone, Debug)]
pub struct BlendVizConfig {
    /// Screen friendly name of visualization.
    pub pretty_name: String,
    /// How many neighboring pixels are initially grouped together when
    /// computing color offsets.
    pub spread: u8,
    /// Seconds a pixel keeps its color before blending to another one.
    pub blend_speed: u8,
    /// Range of the random initial color offsets, in milliseconds.
    pub offset_weight: i64,
    /// Channel step a pixel color moves toward its target per cycle.
    pub blend_factor: u8,
}

/// What reading a blend configuration from a key/value list yields: a
/// config exactly when all four tunables read as integers within their
/// field ranges.
pub open spec fn spec_blend_config(name: String, settings: Seq<(String, String)>) -> Option<
    BlendVizConfig,
> {
    match (
        crate::settings::spec_map_u64(settings, "spread"@),
        crate::settings::spec_map_u64(settings, "blend_speed"@),
        crate::settings::spec_map_u64(settings, "offset_weight"@),
        crate::settings::spec_map_u64(settings, "blend_factor"@),
    ) {
        (Some(spread), Some(blend_speed), Some(offset_weight), Some(blend_factor)) => if spread
            <= u8::MAX && blend_speed <= u8::MAX && blend_factor <= u8::MAX && offset_weight
            <= i64::MAX {
            Some(
                BlendVizConfig {
                    pretty_name: name,
                    spread: spread as u8,
                    blend_speed: blend_speed as u8,
                    offset_weight: offset_weight as i64,
                    blend_factor: blend_factor as u8,
                },
            )
        } else {
            None
        },
        _ => None,
    }
}

/// The key/value view of a blend configuration, as `to_map` renders it.
pub open spec fn spec_blend_settings(
    config: BlendVizConfig,
    settings: Seq<(String, String)>,
) -> bool {
    &&& settings.len() == 4
    &&& settings[0].0@ == "spread"@ && settings[0].1@ == crate::settings::spec_digits(
        config.spread as int,
    )
    &&& settings[1].0@ == "blend_speed"@ && settings[1].1@ == crate::settings::spec_digits(
        config.blend_speed as int,
    )
    &&& settings[2].0@ == "offset_weight"@ && settings[2].1@ == crate::settings::spec_digits(
        if config.offset_weight >= 0 {
            config.offset_weight as int
        } else {
            0
        },
    )
    &&& settings[3].0@ == "blend_factor"@ && settings[3].1@ == crate::settings::spec_digits(
        config.blend_factor as int,
    )
}

impl BlendVizConfig {
    /// Converts the visualization config into a key/value list.
    pub fn to_map(&self) -> (settings: Vec<(String, String)>)
        ensures
            spec_blend_settings(*self, settings@),
    {
        let mut settings: Vec<(String, String)> = Vec::new();
        settings.push((
            String::from_str("spread"),
            crate::settings::u64_to_string(self.spread as u64),
        ));
        settings.push((
            String::from_str("blend_speed"),
            crate::settings::u64_to_string(self.blend_speed as u64),
        ));
        let weight = if self.offset_weight >= 0 {
            self.offset_weight as u64
        } else {
            0
        };
        settings.push((String::from_str("offset_weight"), crate::settings::u64_to_string(weight)));
        settings.push((
            String::from_str("blend_factor"),
            crate::settings::u64_to_string(self.blend_factor as u64),
        ));
        settings
    }

    /// Creates a visualization config from a key/value list; a missing
    /// key falls back to zero, an unparsable or out-of-range value fails
    /// the request.
    pub fn from_map(name: String, settings: &Vec<(String, String)>) -> (config: Option<
        BlendVizConfig,
    >)
        ensures
            config == spec_blend_config(name, settings@),
    {
        let spread = crate::settings::map_get_u64(settings, "spread");
        let blend_speed = crate::settings::map_get_u64(settings, "blend_speed");
        let offset_weight = crate::settings::map_get_u64(settings, "offset_weight");
        let blend_factor = crate::settings::map_get_u64(settings, "blend_factor");
        match (spread, blend_speed, offset_weight, blend_factor) {
            (Some(spread), Some(blend_speed), Some(offset_weight), Some(blend_factor)) => {
                if spread <= u8::MAX as u64 && blend_speed <= u8::MAX as u64 && blend_factor
                    <= u8::MAX as u64 && offset_weight <= i64::MAX as u64 {
                    Some(
                        BlendVizConfig {
                            pretty_name: name,
                            spread: spread as u8,
                            blend_speed: blend_speed as u8,
                            offset_weight: offset_weight as i64,
                            blend_factor: blend_factor as u8,
                        },
                    )
                } else {
                    None
                }
            },
            _ => None,
        }
    }
}

/// One channel moved from `from` toward `to` by at most `step`: it moves
/// the full step exactly when the channels differ by more than the step,
/// and stays put otherwise.
pub open spec fn spec_blend_channel(from: u8, to: u8, step: u8) -> int {
    if to > from {
        if to - from > step {
            from + step
        } else {
            from as int
        }
    } else {
        if from - to > step {
            from - step
        } else {
            from as int
        }
    }
}

/// A color channel with a per-mille multiplier applied, saturating at
/// the channel maximum.
pub open spec fn spec_apply_mul(channel: int, mul: int) -> int {
    vstd::math::min(255, (channel * mul) / 1000)
}

/// The per-mille multiplier that turns the actual palette channel into
/// the blended channel, saturating at the representable fade range; a
/// zero actual channel yields zero.
pub open spec fn spec_ratio_mul(blended: int, actual: int) -> int {
    if actual == 0 {
        0
    } else {
        vstd::math::min(255000, (blended * 1000) / actual)
    }
}

/// A color channel dimmed by a band energy in 0..=100, floored at one so
/// later ratios stay meaningful.
pub open spec fn spec_dim_channel(channel: int, level: int) -> int {
    vstd::math::max(1, (channel * level) / 100)
}

/// The band index the target-picking walk lands on for one drawn value:
/// the walk spends the credit on the band shares in order and stops on
/// the band that exhausts it, or on the last band.
pub open spec fn spec_pick_band(amounts: Seq<u64>, credit: int, idx: int) -> int
    decreases amounts.len() - idx,
{
    if credit <= 0 || idx >= amounts.len() - 1 {
        idx
    } else {
        let next = credit - amounts[idx];
        if next > 0 {
            spec_pick_band(amounts, next, idx + 1)
        } else {
            idx
        }
    }
}

/// One pixel after a blend step: it shows the given band, its channel
/// multipliers move the displayed color (the palette color under the old
/// multipliers) one bounded `spec_blend_channel` step toward the target
/// color, expressed as per-mille ratios over the new band's palette
/// color, and its brightness is preserved.
pub open spec fn spec_blend_step(
    old_p: PixelViz,
    colors: Seq<Color>,
    new_index: usize,
    target: Color,
    step: u8,
) -> PixelViz {
    let shown = colors[old_p.color_index as int % colors.len() as int];
    let cur_r = spec_apply_mul(shown.r as int, old_p.red_mul as int);
    let cur_g = spec_apply_mul(shown.g as int, old_p.green_mul as int);
    let cur_b = spec_apply_mul(shown.b as int, old_p.blue_mul as int);
    let actual = colors[new_index as int % colors.len() as int];
    PixelViz {
        color_index: new_index,
        red_mul: spec_ratio_mul(
            spec_blend_channel(cur_r as u8, target.r, step),
            actual.r as int,
        ) as u32,
        green_mul: spec_ratio_mul(
            spec_blend_channel(cur_g as u8, target.g, step),
            actual.g as int,
        ) as u32,
        blue_mul: spec_ratio_mul(
            spec_blend_channel(cur_b as u8, target.b, step),
            actual.b as int,
        ) as u32,
        brightness: old_p.brightness,
    }
}

/// Visualization blending every pixel from its current color toward a
/// randomly chosen target color, re-targeting at the configured pace;
/// bands with more energy are more likely to be chosen as targets.
#[derive(Clone, Debug)]
pub struct BlendViz {
    /// Visualization config.
    pub config: BlendVizConfig,
    /// Total number of pixels.
    pub total_pixels: usize,
    /// Wall-clock milliseconds when each pixel last re-targeted.
    pub elapsed_ms: Vec<i64>,
    /// Color state of each pixel.
    pub pixels: Vec<PixelViz>,
    /// Colors the pixels blend toward.
    pub target_colors: Vec<Color>,
}

impl BlendViz {
    /// Number of pixels driven per frame.
    pub open spec fn pixel_count(&self) -> int {
        self.total_pixels as int
    }

    /// Per-pixel state vectors match the pixel count and stored
    /// multipliers stay within the representable fade range.
    pub open spec fn wf(&self) -> bool {
        &&& self.elapsed_ms@.len() == self.total_pixels
        &&& self.pixels@.len() == self.total_pixels
        &&& self.target_colors@.len() == self.total_pixels
        &&& forall|i: int|
            0 <= i < self.pixels@.len() ==> (#[trigger] self.pixels@[i]).red_mul <= 255000
                && self.pixels@[i].green_mul <= 255000 && self.pixels@[i].blue_mul <= 255000
                && self.pixels@[i].brightness <= 1000
    }

    /// Creates a new blend visualization.
    pub fn new(config: BlendVizConfig) -> (viz: BlendViz)
        ensures
            viz.wf(),
            viz.pixel_count() == 0,
            viz.config == config,
    {
        BlendViz {
            config,
            total_pixels: 0,
            elapsed_ms: Vec::new(),
            pixels: Vec::new(),
            target_colors: Vec::new(),
        }
    }

    /// Unique identifier of the visualization.
    pub fn get_name(&self) -> (name: &'static str)
        ensures
            name@ == "blend_viz"@,
    {
        "blend_viz"
    }

    /// Descriptive visualization name.
    pub fn get_pretty_name(&self) -> (name: &str)
        ensures
            name@ == self.config.pretty_name@,
    {
        self.config.pretty_name.as_str()
    }

    /// Blends two colors: each channel moves from the first color toward
    /// the second by at most `blend_factor`.
    pub fn blend(color_1: &Color, color_2: &Color, blend_factor: u8) -> (blended: Color)
        ensures
            blended.r == spec_blend_channel(color_1.r, color_2.r, blend_factor),
            blended.g == spec_blend_channel(color_1.g, color_2.g, blend_factor),
            blended.b == spec_blend_channel(color_1.b, color_2.b, blend_factor),
            blended.a == color_1.a,
    {
        let mut target = *color_1;
        if color_2.r > color_1.r {
            if color_2.r - color_1.r > blend_factor {
                target.r = color_1.r + blend_factor;
            }
        } else {
            if color_1.r - color_2.r > blend_factor {
                target.r = color_1.r - blend_factor;
            }
        }
        if color_2.g > color_1.g {
            if color_2.g - color_1.g > blend_factor {
                target.g = color_1.g + blend_factor;
            }
        } else {
            if color_1.g - color_2.g > blend_factor {
                target.g = color_1.g - blend_factor;
            }
        }
        if color_2.b > color_1.b {
            if color_2.b - color_1.b > blend_factor {
                target.b = color_1.b + blend_factor;
            }
        } else {
            if color_1.b - color_2.b > blend_factor {
                target.b = color_1.b - blend_factor;
            }
        }
        target
    }

    /// Random per-pixel color offsets in milliseconds: neighboring pixels
    /// are grouped so their offsets climb and fall together.
    fn offsets(&self) -> (offsets: Vec<i64>)
        ensures
            offsets@.len() == self.pixel_count(),
    {
        let total_pixels = self.total_pixels;
        let weight: u64 = if self.config.offset_weight >= 1 {
            self.config.offset_weight as u64
        } else {
            1
        };
        let bounded_weight: u64 = if weight > 1000000 {
            1000000
        } else {
            weight
        };
        let spread: u64 = if self.config.spread >= 1 {
            self.config.spread as u64
        } else {
            1
        };

        let mut offsets: Vec<i64> = Vec::new();
        let mut i: usize = 0;
        while i < total_pixels
            invariant
                offsets@.len() == i,
                i <= total_pixels,
                bounded_weight >= 1,
            decreases total_pixels - i,
        {
            offsets.push(sys::rand_below(bounded_weight) as i64);
            i += 1;
        }

        // reduce the randomization: neighbors within a group climb or
        // fall from the previous offset
        let mut pixel_index: usize = 0;
        let mut increasing = true;
        while pixel_index < total_pixels
            invariant
                offsets@.len() == total_pixels,
                pixel_index <= total_pixels,
                1 <= spread <= 256,
                1 <= bounded_weight <= 1000000,
            decreases total_pixels - pixel_index,
        {
            let mut group = sys::rand_below(spread) as usize + 1;
            if group > total_pixels - pixel_index {
                group = total_pixels - pixel_index;
            }
            let mut g: usize = 0;
            while g < group
                invariant
                    offsets@.len() == total_pixels,
                    pixel_index + group <= total_pixels,
                    g <= group,
                    1 <= bounded_weight <= 1000000,
                decreases group - g,
            {
                if pixel_index + g == 0 {
                    offsets.set(0, 0);
                } else {
                    let prev = offsets[pixel_index + g - 1];
                    let step: i64 = if increasing {
                        bounded_weight as i64
                    } else {
                        -(bounded_weight as i64)
                    };
                    let base: i128 = (prev as i128) + (step as i128);
                    let next: i64 = if base > 1000000 {
                        1000000
                    } else if base < -1000000 {
                        -1000000
                    } else {
                        base as i64
                    };
                    offsets.set(pixel_index + g, next);
                }
                g += 1;
            }
            increasing = !increasing;
            pixel_index += if group >= 1 {
                group
            } else {
                1
            };
        }
        offsets
    }

    /// Re-seeds the per-pixel state: default pixels, staggered re-target
    /// times, and near-black targets.
    fn reseed(&mut self, pixels: usize)
        ensures
            final(self).wf(),
            final(self).pixel_count() == pixels,
            final(self).config == old(self).config,
            forall|i: int|
                0 <= i < pixels ==> (#[trigger] final(self).pixels@[i]) == (PixelViz {
                    color_index: 0,
                    red_mul: 1000,
                    green_mul: 1000,
                    blue_mul: 1000,
                    brightness: 1000,
                }),
            forall|i: int|
                0 <= i < pixels ==> (#[trigger] final(self).target_colors@[i]) == (Color {
                    r: 1,
                    g: 1,
                    b: 1,
                    a: 255,
                }),
    {
        self.total_pixels = pixels;
        self.pixels = vec![PixelViz::default(); pixels];
        self.target_colors = vec![Color { r: 1, g: 1, b: 1, a: 255 }; pixels];
        let offsets = self.offsets();
        let now = sys::now_millis();
        let mut times: Vec<i64> = Vec::new();
        let mut i: usize = 0;
        while i < pixels
            invariant
                times@.len() == i,
                i <= pixels,
                offsets@.len() == pixels,
            decreases pixels - i,
        {
            let shifted: i128 = (now as i128) + (offsets[i] as i128);
            let t: i64 = if shifted > i64::MAX as i128 {
                i64::MAX
            } else if shifted < i64::MIN as i128 {
                i64::MIN
            } else {
                shifted as i64
            };
            times.push(t);
            i += 1;
        }
        self.elapsed_ms = times;
    }

    /// Walks the band shares with one drawn value and returns the band
    /// it lands on: bands with a larger share of the total energy win
    /// more often.
    pub fn pick_band(freq_amounts: &Vec<u64>, draw: u64) -> (idx: usize)
        requires
            freq_amounts@.len() >= 1,
            draw < 100,
            forall|t: int| 0 <= t < freq_amounts@.len() ==> (#[trigger] freq_amounts@[t]) <= 100,
        ensures
            idx == spec_pick_band(freq_amounts@, draw as int, 0),
            idx < freq_amounts@.len(),
    {
        let mut r: i64 = draw as i64;
        let mut idx: usize = 0;
        while r > 0 && idx < freq_amounts.len() - 1
            invariant
                idx < freq_amounts@.len(),
                r <= 100,
                forall|t: int|
                    0 <= t < freq_amounts@.len() ==> (#[trigger] freq_amounts@[t]) <= 100,
                spec_pick_band(freq_amounts@, draw as int, 0) == spec_pick_band(
                    freq_amounts@,
                    r as int,
                    idx as int,
                ),
            decreases freq_amounts@.len() - 1 - idx, vstd::math::max(r as int, 0),
        {
            r = r - (freq_amounts[idx] as i64);
            if r > 0 {
                idx += 1;
            }
        }
        idx
    }

    /// Every pixel blends from its displayed color toward its stored
    /// target by one bounded `spec_blend_step`, preserving its
    /// brightness; a pixel whose blend time has elapsed first picks a new
    /// target band (`pick_band` on the drawn value), dimmed by that
    /// band's energy (`spec_dim_channel`). Whatever the clock and the
    /// generator returned, every stored pixel equals the blend step from
    /// its old state toward its stored target, and the frame is exactly
    /// the stored pixel state.
    pub fn update(&mut self, input: &Vec<u64>, colors: &Vec<Color>) -> (frame: Vec<PixelViz>)
        requires
            old(self).wf(),
            1 <= input@.len(),
            colors@.len() >= 1,
        ensures
            final(self).wf(),
            final(self).pixel_count() == old(self).pixel_count(),
            final(self).config == old(self).config,
            frame@.len() == old(self).pixel_count(),
            frame@ == final(self).pixels@,
            forall|i: int|
                #![trigger final(self).pixels@[i]]
                0 <= i < old(self).pixels@.len() ==> final(self).pixels@[i] == spec_blend_step(
                    old(self).pixels@[i],
                    colors@,
                    final(self).pixels@[i].color_index,
                    final(self).target_colors@[i],
                    old(self).config.blend_factor,
                ),
            forall|i: int|
                0 <= i < frame@.len() ==> (#[trigger] frame@[i]).red_mul <= 255000
                    && frame@[i].green_mul <= 255000 && frame@[i].blue_mul <= 255000
                    && frame@[i].brightness <= 1000,
    {
        let ghost pre = *old(self);
        let total_bands = input.len();

        // share of the total energy per band, in percent
        let mut total_magnitude: u128 = 0;
        let mut b: usize = 0;
        while b < total_bands
            invariant
                b <= total_bands == input@.len(),
                total_magnitude <= 0xFFFF_FFFF_FFFF_FFFF * b,
            decreases total_bands - b,
        {
            proof {
                let m = 0xFFFF_FFFF_FFFF_FFFF as int;
                assert(m * (b + 1) == m * b + m) by (nonlinear_arith);
            }
            total_magnitude = total_magnitude + input[b] as u128;
            b += 1;
        }
        let mut freq_amounts: Vec<u64> = Vec::new();
        let mut b2: usize = 0;
        while b2 < total_bands
            invariant
                b2 <= total_bands == input@.len(),
                freq_amounts@.len() == b2,
                forall|t: int| 0 <= t < freq_amounts@.len() ==> (#[trigger] freq_amounts@[t]) <= 100,
            decreases total_bands - b2,
        {
            let denom: u128 = if total_magnitude >= 1 {
                total_magnitude
            } else {
                1
            };
            let share: u128 = ((input[b2] as u128) * 100) / denom;
            freq_amounts.push(if share > 100 {
                100
            } else {
                share as u64
            });
            b2 += 1;
        }

        let now = sys::now_millis();
        let mut pixel_index: usize = 0;
        while pixel_index < self.total_pixels
            invariant
                pixel_index <= self.total_pixels,
                self.elapsed_ms@.len() == self.total_pixels,
                self.pixels@.len() == self.total_pixels == pre.pixels@.len(),
                self.target_colors@.len() == self.total_pixels == pre.target_colors@.len(),
                self.total_pixels == pre.total_pixels == old(self).total_pixels,
                self.config == pre.config,
                pre.config == old(self).config,
                pre == *old(self),
                freq_amounts@.len() == total_bands == input@.len(),
                forall|t: int| 0 <= t < freq_amounts@.len() ==> (#[trigger] freq_amounts@[t]) <= 100,
                1 <= total_bands,
                colors@.len() >= 1,
                forall|i: int|
                    0 <= i < self.pixels@.len() ==> (#[trigger] self.pixels@[i]).red_mul <= 255000
                        && self.pixels@[i].green_mul <= 255000 && self.pixels@[i].blue_mul
                        <= 255000 && self.pixels@[i].brightness <= 1000,
                forall|t: int|
                    pixel_index <= t < pre.pixels@.len() ==> (#[trigger] self.pixels@[t])
                        == pre.pixels@[t],
                forall|t: int|
                    pixel_index <= t < pre.target_colors@.len() ==> (
                    #[trigger] self.target_colors@[t]) == pre.target_colors@[t],
                forall|t: int|
                    #![trigger self.pixels@[t]]
                    #![trigger pre.pixels@[t]]
                    0 <= t < pixel_index ==> self.pixels@[t] == spec_blend_step(
                        pre.pixels@[t],
                        colors@,
                        self.pixels@[t].color_index,
                        self.target_colors@[t],
                        pre.config.blend_factor,
                    ),
            decreases self.total_pixels - pixel_index,
        {
            let stamp = self.elapsed_ms[pixel_index];
            let elapsed_s: i64 = if now >= stamp {
                let diff: i128 = ((now as i128) - (stamp as i128)) / 1000;
                if diff > i64::MAX as i128 {
                    i64::MAX
                } else {
                    diff as i64
                }
            } else {
                0
            };

            let pixel = self.pixels[pixel_index];
            // current displayed color of this pixel
            let palette_color = colors[pixel.color_index % colors.len()];
            let current_color = Color {
                r: apply_mul(palette_color.r, pixel.red_mul),
                g: apply_mul(palette_color.g, pixel.green_mul),
                b: apply_mul(palette_color.b, pixel.blue_mul),
                a: palette_color.a,
            };

            let mut target_color = self.target_colors[pixel_index];
            let mut color_index = pixel.color_index;

            if elapsed_s > self.config.blend_speed as i64 {
                // pick the next target band: larger shares win more often
                let draw = sys::rand_below(100);
                let idx = Self::pick_band(&freq_amounts, draw);
                color_index = idx;
                let level: u64 = if input[idx] > 100 {
                    100
                } else {
                    input[idx]
                };
                let base = colors[idx % colors.len()];
                let dim_r = dim_channel(base.r, level);
                let dim_g = dim_channel(base.g, level);
                let dim_b = dim_channel(base.b, level);
                target_color = Color { r: dim_r, g: dim_g, b: dim_b, a: base.a };
                self.target_colors.set(pixel_index, target_color);
                self.elapsed_ms.set(pixel_index, now);
            }

            // blend the displayed color one step toward the target
            let actual_color = colors[color_index % colors.len()];
            let blend_color = Self::blend(&current_color, &target_color, self.config.blend_factor);
            let updated = PixelViz {
                color_index,
                red_mul: ratio_mul(blend_color.r, actual_color.r),
                green_mul: ratio_mul(blend_color.g, actual_color.g),
                blue_mul: ratio_mul(blend_color.b, actual_color.b),
                brightness: pixel.brightness,
            };
            self.pixels.set(pixel_index, updated);
            proof {
                let t = pixel_index as int;
                assert(self.pixels@[t] == spec_blend_step(
                    pre.pixels@[t],
                    colors@,
                    self.pixels@[t].color_index,
                    self.target_colors@[t],
                    pre.config.blend_factor,
                ));
            }
            pixel_index += 1;
        }

        // the frame is the stored pixel state
        let mut frame: Vec<PixelViz> = Vec::new();
        let mut i: usize = 0;
        while i < self.total_pixels
            invariant
                i <= self.total_pixels,
                self.pixels@.len() == self.total_pixels,
                frame@.len() == i,
                frame@ == self.pixels@.take(i as int),
                forall|t: int|
                    0 <= t < self.pixels@.len() ==> (#[trigger] self.pixels@[t]).red_mul <= 255000
                        && self.pixels@[t].green_mul <= 255000 && self.pixels@[t].blue_mul
                        <= 255000 && self.pixels@[t].brightness <= 1000,
                forall|t: int|
                    0 <= t < frame@.len() ==> (#[trigger] frame@[t]).red_mul <= 255000
                        && frame@[t].green_mul <= 255000 && frame@[t].blue_mul <= 255000
                        && frame@[t].brightness <= 1000,
            decreases self.total_pixels - i,
        {
            let p = self.pixels[i];
            frame.push(p);
            i += 1;
        }
        proof {
            assert(frame@ =~= self.pixels@);
            assert forall|i: int|
                0 <= i < pre.pixels@.len() implies (#[trigger] final(self).pixels@[i])
                == spec_blend_step(
                pre.pixels@[i],
                colors@,
                final(self).pixels@[i].color_index,
                final(self).target_colors@[i],
                pre.config.blend_factor,
            ) by {
                assert(pre.pixels@[i] == pre.pixels@[i]);
            }
        }
        frame
    }

    /// Sets the number of available pixels, re-seeding the per-pixel
    /// state: every pixel starts as the default fully lit descriptor of
    /// the first palette color with a near-black target.
    pub fn set_total_pixels(&mut self, pixels: usize)
        ensures
            final(self).wf(),
            final(self).pixel_count() == pixels,
            final(self).config == old(self).config,
            forall|i: int|
                0 <= i < pixels ==> (#[trigger] final(self).pixels@[i]) == (PixelViz {
                    color_index: 0,
                    red_mul: 1000,
                    green_mul: 1000,
                    blue_mul: 1000,
                    brightness: 1000,
                }),
            forall|i: int|
                0 <= i < pixels ==> (#[trigger] final(self).target_colors@[i]) == (Color {
                    r: 1,
                    g: 1,
                    b: 1,
                    a: 255,
                }),
    {
        self.reseed(pixels);
    }

    /// The visualization settings as a key/value list.
    pub fn get_settings(&self) -> (settings: Vec<(String, String)>)
        ensures
            spec_blend_settings(self.config, settings@),
    {
        self.config.to_map()
    }

    /// Replaces the configuration from a key/value list exactly when it
    /// parses within range, keeping the display name and re-seeding the
    /// per-pixel state to defaults; an unparsable list leaves everything
    /// unchanged.
    pub fn update_settings(&mut self, settings: &Vec<(String, String)>) -> (ok: bool)
        requires
            old(self).wf(),
        ensures
            final(self).wf(),
            final(self).pixel_count() == old(self).pixel_count(),
            ok == (spec_blend_config(old(self).config.pretty_name, settings@) is Some),
            ok ==> (match spec_blend_config(old(self).config.pretty_name, settings@) {
                Some(c) => {
                    &&& final(self).config.pretty_name@ == old(self).config.pretty_name@
                    &&& final(self).config.spread == c.spread
                    &&& final(self).config.blend_speed == c.blend_speed
                    &&& final(self).config.offset_weight == c.offset_weight
                    &&& final(self).config.blend_factor == c.blend_factor
                    &&& (forall|i: int|
                        0 <= i < old(self).pixel_count() ==> (#[trigger] final(self).pixels@[i])
                            == (PixelViz {
                            color_index: 0,
                            red_mul: 1000,
                            green_mul: 1000,
                            blue_mul: 1000,
                            brightness: 1000,
                        }))
                    &&& (forall|i: int|
                        0 <= i < old(self).pixel_count() ==> (
                        #[trigger] final(self).target_colors@[i]) == (Color {
                            r: 1,
                            g: 1,
                            b: 1,
                            a: 255,
                        }))
                },
                None => false,
            }),
            !ok ==> *final(self) == *old(self),
    {
        let name = String::from_str(self.config.pretty_name.as_str());
        match BlendVizConfig::from_map(name, settings) {
            Some(new_settings) => {
                self.config = new_settings;
                let n = self.total_pixels;
                self.reseed(n);
                true
            },
            None => false,
        }
    }
}

/// A color channel dimmed by a band energy in 0..=100.
fn dim_channel(channel: u8, level: u64) -> (dimmed: u8)
    requires
        level <= 100,
    ensures
        dimmed == spec_dim_channel(channel as int, level as int),
        dimmed >= 1,
{
    proof {
        assert(0 <= (channel as int) * (level as int) / 100 <= 255) by (nonlinear_arith)
            requires
                channel <= 255,
                0 <= level <= 100,
        ;
    }
    let scaled = ((channel as u64) * level / 100) as u8;
    // keep channels nonzero so later ratios stay meaningful
    if scaled == 0 {
        1
    } else {
        scaled
    }
}

/// A color channel with a per-mille multiplier applied, saturating at
/// the channel maximum.
fn apply_mul(channel: u8, mul: u32) -> (scaled: u8)
    requires
        mul <= 255000,
    ensures
        scaled == spec_apply_mul(channel as int, mul as int),
        scaled <= 255,
{
    proof {
        assert((channel as int) * (mul as int) <= 255 * 255000) by (nonlinear_arith)
            requires
                channel <= 255,
                mul <= 255000,
        ;
    }
    let wide: u64 = (channel as u64) * (mul as u64) / 1000;
    if wide > 255 {
        255
    } else {
        wide as u8
    }
}

/// The per-mille multiplier that turns the actual palette channel into
/// the blended channel, saturating at the representable fade range.
fn ratio_mul(blended: u8, actual: u8) -> (mul: u32)
    ensures
        mul == spec_ratio_mul(blended as int, actual as int),
        mul <= 255000,
{
    if actual == 0 {
        0
    } else {
        let wide: u64 = (blended as u64) * 1000 / (actual as u64);
        if wide > 255000 {
            255000
        } else {
            wide as u32
        }
    }
}

} // verus!
