use vstd::prelude::*;

verus! {

use crate::theme::Color;
use crate::viz::{fade_mul, PixelViz};
use crate::solid_beat_viz::{beat_brightness, spec_beat_brightness};
use crate::sys;

/// Configuration of the fading beat visualization.
#[derive(Clone, Debug)]
pub struct FadingBeatVizConfig {
    /// Screen friendly name of visualization.
    pub pretty_name: String,
    /// Seconds a fade to the next color takes.
    pub fade_duration: i64,
    /// Seconds a color is at least shown before fading to the next one.
    pub fade_threshold: i64,
    /// Number of past dominant frequencies remembered.
    pub frequency_magnitude_buffer_size: i64,
}

/// What reading a fading beat configuration from a key/value list
/// yields: a config exactly when all three tunables read within range.
pub open spec fn spec_fading_beat_config(name: String, settings: Seq<(String, String)>) -> Option<
    FadingBeatVizConfig,
> {
    match (
        crate::settings::spec_map_u64(settings, "fade_duration"@),
        crate::settings::spec_map_u64(settings, "fade_threshold"@),
        crate::settings::spec_map_u64(settings, "frequency_magnitude_buffer_size"@),
    ) {
        (Some(fade_duration), Some(fade_threshold), Some(buffer)) => if fade_duration <= i64::MAX
            && fade_threshold <= i64::MAX && buffer <= i64::MAX {
            Some(
                FadingBeatVizConfig {
                    pretty_name: name,
                    fade_duration: fade_duration as i64,
                    fade_threshold: fade_threshold as i64,
                    frequency_magnitude_buffer_size: buffer as i64,
                },
            )
        } else {
            None
        },
        _ => None,
    }
}

/// The key/value view of a fading beat configuration, as `to_map`
/// renders it.
pub open spec fn spec_fading_beat_settings(
    config: FadingBeatVizConfig,
    settings: Seq<(String, String)>,
) -> bool {
    &&& settings.len() == 3
    &&& settings[0].0@ == "fade_duration"@ && settings[0].1@ == crate::settings::spec_digits(
        if config.fade_duration >= 0 {
            config.fade_duration as int
        } else {
            0
        },
    )
    &&& settings[1].0@ == "fade_threshold"@ && settings[1].1@ == crate::settings::spec_digits(
        if config.fade_threshold >= 0 {
            config.fade_threshold as int
        } else {
            0
        },
    )
    &&& settings[2].0@ == "frequency_magnitude_buffer_size"@ && settings[2].1@
        == crate::settings::spec_digits(
        if config.frequency_magnitude_buffer_size >= 0 {
            config.frequency_magnitude_buffer_size as int
        } else {
            0
        },
    )
}

impl FadingBeatVizConfig {
    /// Converts the visualization config into a key/value list.
    pub fn to_map(&self) -> (settings: Vec<(String, String)>)
        ensures
            spec_fading_beat_settings(*self, settings@),
    {
        let mut settings: Vec<(String, String)> = Vec::new();
        let duration = if self.fade_duration >= 0 {
            self.fade_duration as u64
        } else {
            0
        };
        let threshold = if self.fade_threshold >= 0 {
            self.fade_threshold as u64
        } else {
            0
        };
        let buffer = if self.frequency_magnitude_buffer_size >= 0 {
            self.frequency_magnitude_buffer_size as u64
        } else {
            0
        };
        settings.push((String::from_str("fade_duration"), crate::settings::u64_to_string(duration)));
        settings.push((
            String::from_str("fade_threshold"),
            crate::settings::u64_to_string(threshold),
        ));
        settings.push((
            String::from_str("frequency_magnitude_buffer_size"),
            crate::settings::u64_to_string(buffer),
        ));
        settings
    }

    /// Creates a visualization config from a key/value list; a missing
    /// key falls back to zero, an unparsable value fails the request.
    pub fn from_map(name: String, settings: &Vec<(String, String)>) -> (config: Option<
        FadingBeatVizConfig,
    >)
        ensures
            config == spec_fading_beat_config(name, settings@),
    {
        let fade_duration = crate::settings::map_get_u64(settings, "fade_duration");
        let fade_threshold = crate::settings::map_get_u64(settings, "fade_threshold");
        let buffer = crate::settings::map_get_u64(settings, "frequency_magnitude_buffer_size");
        match (fade_duration, fade_threshold, buffer) {
            (Some(fade_duration), Some(fade_threshold), Some(buffer)) => {
                if fade_duration <= i64::MAX as u64 && fade_threshold <= i64::MAX as u64 && buffer
                    <= i64::MAX as u64 {
                    Some(
                        FadingBeatVizConfig {
                            pretty_name: name,
                            fade_duration: fade_duration as i64,
                            fade_threshold: fade_threshold as i64,
                            frequency_magnitude_buffer_size: buffer as i64,
                        },
                    )
                } else {
                    None
                }
            },
            _ => None,
        }
    }
}

/// How often a value occurs in a sequence.
pub open spec fn count_of(s: Seq<usize>, v: usize) -> int
    decreases s.len(),
{
    if s.len() == 0 {
        0
    } else {
        count_of(s.drop_last(), v) + if s.last() == v {
            1int
        } else {
            0int
        }
    }
}

/// State of the strongest-band scan after examining the bands below
/// `i`: the index of the first band that exceeded every earlier value
/// and zero, together with that value.
pub open spec fn dominant_scan(input: Seq<u64>, best: int, strongest: int, i: int) -> (int, int)
    decreases input.len() - i,
{
    if i < 0 || i >= input.len() {
        (best, strongest)
    } else if input[i] > strongest {
        dominant_scan(input, i, input[i] as int, i + 1)
    } else {
        dominant_scan(input, best, strongest, i + 1)
    }
}

/// The dominant band of one cycle: the first index of the largest band
/// energy (index zero when all bands are silent).
pub open spec fn spec_dominant_band(input: Seq<u64>) -> int {
    dominant_scan(input, 0, 0, 0).0
}

/// Visualization showing all pixels in the same color, fading to the
/// next theme color whenever the dominant frequency band, taken as the
/// running mode over a short history, changes.
#[derive(Clone, Debug)]
pub struct FadingBeatViz {
    /// Visualization config.
    pub config: FadingBeatVizConfig,
    /// Total number of pixels.
    pub total_pixels: usize,
    /// Wall-clock milliseconds when the pixels last faded.
    pub elapsed_ms: i64,
    /// Theme color currently displayed.
    pub color_index: usize,
    /// Past dominant frequency bands, most recent first.
    pub dominant_frequencies: Vec<usize>,
    /// Whether the pixels are currently fading to the next color.
    pub is_fading: bool,
}

impl FadingBeatViz {
    /// Number of pixels driven per frame.
    pub open spec fn pixel_count(&self) -> int {
        self.total_pixels as int
    }

    /// The dominant-frequency history is never empty.
    pub open spec fn wf(&self) -> bool {
        self.dominant_frequencies@.len() >= 1
    }

    /// Creates a new fading beat visualization; the dominant-frequency
    /// history holds at least one entry whatever the configured size.
    pub fn new(config: FadingBeatVizConfig) -> (viz: FadingBeatViz)
        ensures
            viz.wf(),
            viz.pixel_count() == 0,
            viz.config == config,
    {
        let buffer: usize = if config.frequency_magnitude_buffer_size >= 1
            && config.frequency_magnitude_buffer_size <= 0x100_0000 {
            config.frequency_magnitude_buffer_size as usize
        } else {
            1
        };
        FadingBeatViz {
            config,
            total_pixels: 0,
            elapsed_ms: sys::now_millis(),
            color_index: 0,
            dominant_frequencies: vec![0usize; buffer],
            is_fading: false,
        }
    }

    /// Unique identifier of the visualization.
    pub fn get_name(&self) -> (name: &'static str)
        ensures
            name@ == "fading_beat_viz"@,
    {
        "fading_beat_viz"
    }

    /// Descriptive visualization name.
    pub fn get_pretty_name(&self) -> (name: &str)
        ensures
            name@ == self.config.pretty_name@,
    {
        self.config.pretty_name.as_str()
    }

    /// Determines the mode of the values: the first value whose
    /// occurrence count is maximal.
    pub fn mode(values: &Vec<usize>) -> (m: usize)
        requires
            values@.len() >= 1,
        ensures
            values@.contains(m),
            forall|i: int|
                0 <= i < values@.len() ==> count_of(values@, #[trigger] values@[i]) <= count_of(
                    values@,
                    m,
                ),
    {
        let total = values.len();
        proof {
            assert(values@.len() == total && total <= usize::MAX);
        }
        let mut best = values[0];
        let mut best_count = Self::count(values, values[0]);
        let mut i: usize = 1;
        proof {
            assert(values@.contains(values@[0]));
        }
        while i < values.len()
            invariant
                1 <= i <= values@.len(),
                values@.contains(best),
                best_count == count_of(values@, best),
                forall|t: int|
                    0 <= t < i ==> count_of(values@, #[trigger] values@[t]) <= best_count,
            decreases values@.len() - i,
        {
            let c = Self::count(values, values[i]);
            if c > best_count {
                best = values[i];
                best_count = c;
                proof {
                    assert(values@.contains(values@[i as int]));
                }
            }
            i += 1;
        }
        best
    }

    /// Counts how often the value occurs.
    fn count(values: &Vec<usize>, v: usize) -> (c: u64)
        requires
            values@.len() <= u64::MAX,
        ensures
            c == count_of(values@, v),
    {
        let mut c: u64 = 0;
        let mut i: usize = 0;
        while i < values.len()
            invariant
                i <= values@.len() <= u64::MAX,
                c == count_of(values@.take(i as int), v),
                c <= i,
            decreases values@.len() - i,
        {
            proof {
                assert(values@.take(i + 1).drop_last() =~= values@.take(i as int));
            }
            if values[i] == v {
                c += 1;
            }
            i += 1;
        }
        proof {
            assert(values@.take(values@.len() as int) =~= values@);
        }
        c
    }

    /// One uniform frame: every pixel shows the current theme color at
    /// the energy-driven brightness. The strongest band is recorded in
    /// the dominant-frequency history; once the running mode changes
    /// after the threshold, the strip fades to the next theme color over
    /// the fade duration. Whatever the clock returned, all descriptors of
    /// the frame are equal, with brightness and color multipliers in
    /// range.
    pub fn update(&mut self, input: &Vec<u64>, colors: &Vec<Color>) -> (frame: Vec<PixelViz>)
        requires
            old(self).wf(),
            1 <= input@.len() <= 0x100_0000,
            crate::transform::bounded_seq(input@),
            colors@.len() >= 1,
        ensures
            final(self).wf(),
            final(self).pixel_count() == old(self).pixel_count(),
            final(self).config == old(self).config,
            frame@.len() == old(self).pixel_count(),
            forall|i: int| 0 <= i < frame@.len() ==> #[trigger] frame@[i] == frame@[0],
            frame@.len() > 0 ==> frame@[0].brightness == spec_beat_brightness(input@),
            final(self).dominant_frequencies@ == seq![spec_dominant_band(input@) as usize] + old(
                self,
            ).dominant_frequencies@.drop_last(),
            forall|i: int|
                0 <= i < frame@.len() ==> (#[trigger] frame@[i]).red_mul <= 255000
                    && frame@[i].green_mul <= 255000 && frame@[i].blue_mul <= 255000
                    && frame@[i].brightness <= 1000,
    {
        let mut viz = PixelViz::default();
        viz.brightness = beat_brightness(input);
        viz.color_index = self.color_index;

        let current_index = self.color_index % colors.len();
        let next_color_index = (current_index + 1) % colors.len();
        let now = sys::now_millis();
        let elapsed_s: i64 = if now >= self.elapsed_ms {
            let diff: i128 = ((now as i128) - (self.elapsed_ms as i128)) / 1000;
            if diff > i64::MAX as i128 {
                i64::MAX
            } else {
                diff as i64
            }
        } else {
            0
        };

        // strongest band of this cycle
        let mut dominant: usize = 0;
        let mut strongest: u64 = 0;
        let mut b: usize = 0;
        while b < input.len()
            invariant
                b <= input@.len(),
                dominant < input@.len() || dominant == 0,
                dominant_scan(input@, 0, 0, 0) == dominant_scan(
                    input@,
                    dominant as int,
                    strongest as int,
                    b as int,
                ),
            decreases input@.len() - b,
        {
            if input[b] > strongest {
                strongest = input[b];
                dominant = b;
            }
            b += 1;
        }
        proof {
            assert(dominant == spec_dominant_band(input@));
        }

        // record it in front of the history
        let prev_mode = Self::mode(&self.dominant_frequencies);
        let ghost old_history = self.dominant_frequencies@;
        let mut shift: usize = self.dominant_frequencies.len() - 1;
        while shift > 0
            invariant
                shift < self.dominant_frequencies@.len(),
                self.dominant_frequencies@.len() == old_history.len(),
                old_history == old(self).dominant_frequencies@,
                self.total_pixels == old(self).total_pixels,
                self.config == old(self).config,
                self.color_index == old(self).color_index,
                self.elapsed_ms == old(self).elapsed_ms,
                self.is_fading == old(self).is_fading,
                forall|k: int|
                    0 <= k <= shift ==> (#[trigger] self.dominant_frequencies@[k])
                        == old_history[k],
                forall|k: int|
                    shift < k < old_history.len() ==> (#[trigger] self.dominant_frequencies@[k])
                        == old_history[k - 1],
            decreases shift,
        {
            let moved = self.dominant_frequencies[shift - 1];
            self.dominant_frequencies.set(shift, moved);
            shift -= 1;
        }
        self.dominant_frequencies.set(0, dominant);
        proof {
            assert(self.dominant_frequencies@ =~= seq![spec_dominant_band(input@) as usize]
                + old_history.drop_last());
        }
        let current_mode = Self::mode(&self.dominant_frequencies);

        if elapsed_s > self.config.fade_threshold && !self.is_fading {
            if current_mode != prev_mode {
                self.is_fading = true;
                self.elapsed_ms = now;
            }
        }

        if self.is_fading && self.config.fade_duration >= 1 {
            // fade toward the next theme color
            let current_color = colors[current_index];
            let next_color = colors[next_color_index];
            let fresh_elapsed: i64 = if now >= self.elapsed_ms {
                let diff: i128 = ((now as i128) - (self.elapsed_ms as i128)) / 1000;
                if diff > i64::MAX as i128 {
                    i64::MAX
                } else {
                    diff as i64
                }
            } else {
                0
            };
            viz.red_mul = fade_mul(
                next_color.r,
                current_color.r,
                fresh_elapsed,
                self.config.fade_duration,
            );
            viz.green_mul = fade_mul(
                next_color.g,
                current_color.g,
                fresh_elapsed,
                self.config.fade_duration,
            );
            viz.blue_mul = fade_mul(
                next_color.b,
                current_color.b,
                fresh_elapsed,
                self.config.fade_duration,
            );
            if fresh_elapsed >= self.config.fade_duration {
                // target color reached
                self.color_index = next_color_index;
                self.elapsed_ms = now;
                self.is_fading = false;
            }
        }

        let frame = vec![viz; self.total_pixels];
        frame
    }

    /// Sets the number of available pixels; an empty dominant-frequency
    /// history is re-seeded defensively.
    pub fn set_total_pixels(&mut self, pixels: usize)
        ensures
            final(self).wf(),
            final(self).pixel_count() == pixels,
            final(self).config == old(self).config,
    {
        self.total_pixels = pixels;
        if self.dominant_frequencies.len() == 0 {
            self.dominant_frequencies = vec![0usize; 1];
        }
    }

    /// The visualization settings as a key/value list.
    pub fn get_settings(&self) -> (settings: Vec<(String, String)>)
        ensures
            spec_fading_beat_settings(self.config, settings@),
    {
        self.config.to_map()
    }

    /// Replaces the configuration from a key/value list exactly when it
    /// parses within range, keeping the display name and resetting the
    /// dominant-frequency history; an unparsable list leaves everything
    /// unchanged.
    pub fn update_settings(&mut self, settings: &Vec<(String, String)>) -> (ok: bool)
        requires
            old(self).wf(),
        ensures
            final(self).wf(),
            final(self).pixel_count() == old(self).pixel_count(),
            ok == (spec_fading_beat_config(old(self).config.pretty_name, settings@) is Some),
            ok ==> (match spec_fading_beat_config(old(self).config.pretty_name, settings@) {
                Some(c) => {
                    &&& final(self).config.pretty_name@ == old(self).config.pretty_name@
                    &&& final(self).config.fade_duration == c.fade_duration
                    &&& final(self).config.fade_threshold == c.fade_threshold
                    &&& final(self).config.frequency_magnitude_buffer_size
                        == c.frequency_magnitude_buffer_size
                    &&& final(self).is_fading == false
                    &&& final(self).dominant_frequencies@ =~= Seq::new(
                        (if 1 <= c.frequency_magnitude_buffer_size
                            && c.frequency_magnitude_buffer_size <= 0x100_0000 {
                            c.frequency_magnitude_buffer_size as int
                        } else {
                            1
                        }) as nat,
                        |i: int| 0usize,
                    )
                },
                None => false,
            }),
            !ok ==> *final(self) == *old(self),
    {
        let name = String::from_str(self.config.pretty_name.as_str());
        match FadingBeatVizConfig::from_map(name, settings) {
            Some(new_settings) => {
                self.config = new_settings;
                let buffer: usize = if self.config.frequency_magnitude_buffer_size >= 1
                    && self.config.frequency_magnitude_buffer_size <= 0x100_0000 {
                    self.config.frequency_magnitude_buffer_size as usize
                } else {
                    1
                };
                self.dominant_frequencies = vec![0usize; buffer];
                self.is_fading = false;
                proof {
                    assert(self.dominant_frequencies@ =~= Seq::new(
                        buffer as nat,
                        |i: int| 0usize,
                    ));
                }
                true
            },
            None => false,
        }
    }
}

} // verus!
