use vstd::prelude::*;

verus! {

use crate::theme::Color;
use crate::viz::{spec_band_brightness, PixelViz};
use crate::sys;

/// Configuration of the sparkle visualization.
#[derive(Clone, Debug)]
pub struct SparkleVizConfig {
    /// Screen friendly name of visualization.
    pub pretty_name: String,
    /// How frequently pixels are ignited: ignition happens at most every
    /// `1000 / speed` milliseconds.
    pub speed: u64,
    /// Per-cycle brightness retention of an ignited pixel, per mille.
    pub falloff: u64,
    /// Maximum number of pixels ignited at once for one band.
    pub max_ignite: u64,
}

/// What reading a sparkle configuration from a key/value list yields:
/// a config exactly when all three tunables read as integers.
pub open spec fn spec_sparkle_config(name: String, settings: Seq<(String, String)>) -> Option<
    SparkleVizConfig,
> {
    match (
        crate::settings::spec_map_u64(settings, "speed"@),
        crate::settings::spec_map_u64(settings, "falloff"@),
        crate::settings::spec_map_u64(settings, "max_ignite"@),
    ) {
        (Some(speed), Some(falloff), Some(max_ignite)) => Some(
            SparkleVizConfig { pretty_name: name, speed, falloff, max_ignite },
        ),
        _ => None,
    }
}

/// The key/value view of a sparkle configuration, as `to_map` renders
/// it.
pub open spec fn spec_sparkle_settings(
    config: SparkleVizConfig,
    settings: Seq<(String, String)>,
) -> bool {
    &&& settings.len() == 3
    &&& settings[0].0@ == "speed"@ && settings[0].1@ == crate::settings::spec_digits(
        config.speed as int,
    )
    &&& settings[1].0@ == "falloff"@ && settings[1].1@ == crate::settings::spec_digits(
        config.falloff as int,
    )
    &&& settings[2].0@ == "max_ignite"@ && settings[2].1@ == crate::settings::spec_digits(
        config.max_ignite as int,
    )
}

impl SparkleVizConfig {
    /// Converts the visualization config into a key/value list.
    pub fn to_map(&self) -> (settings: Vec<(String, String)>)
        ensures
            spec_sparkle_settings(*self, settings@),
    {
        let mut settings: Vec<(String, String)> = Vec::new();
        settings.push((String::from_str("speed"), crate::settings::u64_to_string(self.speed)));
        settings.push((String::from_str("falloff"), crate::settings::u64_to_string(self.falloff)));
        settings.push((
            String::from_str("max_ignite"),
            crate::settings::u64_to_string(self.max_ignite),
        ));
        settings
    }

    /// Creates a visualization config from a key/value list; a missing
    /// key falls back to zero, an unparsable value fails the request.
    pub fn from_map(name: String, settings: &Vec<(String, String)>) -> (config: Option<
        SparkleVizConfig,
    >)
        ensures
            config == spec_sparkle_config(name, settings@),
    {
        let speed = crate::settings::map_get_u64(settings, "speed");
        let falloff = crate::settings::map_get_u64(settings, "falloff");
        let max_ignite = crate::settings::map_get_u64(settings, "max_ignite");
        match (speed, falloff, max_ignite) {
            (Some(speed), Some(falloff), Some(max_ignite)) => Some(
                SparkleVizConfig { pretty_name: name, speed, falloff, max_ignite },
            ),
            _ => None,
        }
    }
}

/// Visualization randomly igniting pixels for a short amount of time;
/// the pixel color is determined by the band whose energy ignited it and
/// its brightness decays geometrically until it goes out.
#[derive(Clone, Debug)]
pub struct SparkleViz {
    /// Visualization config.
    pub config: SparkleVizConfig,
    /// Total number of pixels.
    pub total_pixels: usize,
    /// Per-pixel falloff state: nonzero once the pixel decays.
    pub falloffs: Vec<u64>,
    /// Wall-clock milliseconds of the last ignition.
    pub elapsed_ms: i64,
    /// Current state of each pixel; `None` is off.
    pub pixels: Vec<Option<PixelViz>>,
}

/// A lit pixel after one decay step: its brightness retains the
/// configured per-mille share, capped at one.
pub open spec fn spec_decayed(p: PixelViz, retain: u64) -> PixelViz {
    PixelViz { brightness: vstd::math::min((p.brightness * retain) / 1000, 1000) as u32, ..p }
}

impl SparkleViz {
    /// Number of pixels driven per frame.
    pub open spec fn pixel_count(&self) -> int {
        self.total_pixels as int
    }

    /// Per-pixel state vectors match the pixel count and stored pixels
    /// stay within per-mille range.
    pub open spec fn wf(&self) -> bool {
        &&& self.falloffs@.len() == self.total_pixels
        &&& self.pixels@.len() == self.total_pixels
        &&& crate::viz::stored_pixels_ok(self.pixels@)
    }

    /// Creates a new sparkle visualization.
    pub fn new(config: SparkleVizConfig) -> (viz: SparkleViz)
        ensures
            viz.wf(),
            viz.pixel_count() == 0,
            viz.config == config,
    {
        SparkleViz {
            config,
            total_pixels: 0,
            falloffs: Vec::new(),
            elapsed_ms: sys::now_millis(),
            pixels: Vec::new(),
        }
    }

    /// Unique identifier of the visualization.
    pub fn get_name(&self) -> (name: &'static str)
        ensures
            name@ == "sparkle_viz"@,
    {
        "sparkle_viz"
    }

    /// Descriptive visualization name.
    pub fn get_pretty_name(&self) -> (name: &str)
        ensures
            name@ == self.config.pretty_name@,
    {
        self.config.pretty_name.as_str()
    }

    /// Number of pixels a band's energy may ignite at once: its level's
    /// share of the configured maximum.
    pub fn ignition_quota(level: u64, max_ignite: u64) -> (quota: u64)
        ensures
            quota == (vstd::math::min(level as int, 100) * max_ignite) / 100,
    {
        let clamped: u64 = if level > 100 {
            100
        } else {
            level
        };
        proof {
            assert(0 <= (clamped as int) * (max_ignite as int) <= 100 * (max_ignite as int))
                by (nonlinear_arith)
                requires
                    0 <= clamped <= 100,
                    max_ignite >= 0,
            ;
        }
        (((clamped as u128) * (max_ignite as u128)) / 100) as u64
    }

    /// Ignites exactly the chosen pixels for one band: each becomes a
    /// fully colored descriptor at the band's brightness with its decay
    /// counter armed; every other pixel is untouched.
    pub fn ignite_band(&mut self, band: usize, level: u64, chosen: &Vec<usize>)
        requires
            old(self).wf(),
            level <= 100,
            forall|t: int| 0 <= t < chosen@.len() ==> (#[trigger] chosen@[t]) < old(self).pixel_count(),
        ensures
            final(self).wf(),
            *final(self) == (SparkleViz {
                pixels: final(self).pixels,
                falloffs: final(self).falloffs,
                ..*old(self)
            }),
            final(self).pixels@.len() == old(self).pixels@.len(),
            final(self).falloffs@.len() == old(self).falloffs@.len(),
            forall|j: int|
                #![trigger final(self).pixels@[j]]
                0 <= j < old(self).pixels@.len() ==> if chosen@.contains(j as usize) {
                    final(self).pixels@[j] == Some(
                        PixelViz {
                            color_index: band,
                            red_mul: 1000,
                            green_mul: 1000,
                            blue_mul: 1000,
                            brightness: (level * 10) as u32,
                        },
                    ) && final(self).falloffs@[j] == 1
                } else {
                    final(self).pixels@[j] == old(self).pixels@[j] && final(self).falloffs@[j]
                        == old(self).falloffs@[j]
                },
    {
        let ghost pre = *old(self);
        let mut c: usize = 0;
        while c < chosen.len()
            invariant
                c <= chosen@.len(),
                level <= 100,
                self.total_pixels == pre.total_pixels,
                self.pixels@.len() == self.total_pixels == pre.pixels@.len(),
                self.falloffs@.len() == self.total_pixels == pre.falloffs@.len(),
                self.config == pre.config,
                self.elapsed_ms == pre.elapsed_ms,
                forall|t: int| 0 <= t < chosen@.len() ==> (#[trigger] chosen@[t]) < pre.pixels@.len(),
                forall|j: int|
                    #![trigger self.pixels@[j]]
                    0 <= j < pre.pixels@.len() ==> if chosen@.take(c as int).contains(j as usize) {
                        self.pixels@[j] == Some(
                            PixelViz {
                                color_index: band,
                                red_mul: 1000,
                                green_mul: 1000,
                                blue_mul: 1000,
                                brightness: (level * 10) as u32,
                            },
                        ) && self.falloffs@[j] == 1
                    } else {
                        self.pixels@[j] == pre.pixels@[j] && self.falloffs@[j] == pre.falloffs@[j]
                    },
            decreases chosen@.len() - c,
        {
            let target = chosen[c];
            self.pixels.set(
                target,
                Some(
                    PixelViz {
                        color_index: band,
                        red_mul: 1000,
                        green_mul: 1000,
                        blue_mul: 1000,
                        brightness: (level * 10) as u32,
                    },
                ),
            );
            self.falloffs.set(target, 1);
            proof {
                assert(chosen@.take(c + 1).drop_last() =~= chosen@.take(c as int));
                assert(chosen@.take(c + 1).last() == chosen@[c as int]);
                assert forall|j: int|
                    #![trigger pre.pixels@[j]]
                    0 <= j < pre.pixels@.len() && chosen@.take(c + 1).contains(j as usize)
                        && !chosen@.take(c as int).contains(j as usize) implies j
                    == chosen@[c as int] by {
                    let w = choose|w: int|
                        0 <= w < chosen@.take(c + 1).len() && (#[trigger] chosen@.take(c + 1)[w])
                            == j as usize;
                    assert(w == c);
                }
            }
            c += 1;
        }
        proof {
            assert(chosen@.take(chosen@.len() as int) =~= chosen@);
            assert forall|j: int|
                0 <= j < pre.pixels@.len() implies ((#[trigger] self.pixels@[j]) matches Some(p)
                ==> p.red_mul <= 1000 && p.green_mul <= 1000 && p.blue_mul <= 1000 && p.brightness
                    <= 1000) by {
                if chosen@.contains(j as usize) {
                    assert(level * 10 <= 1000);
                } else {
                    assert(self.pixels@[j] == pre.pixels@[j]);
                }
            }
        }
    }

    /// Decays every lit pixel whose counter is armed and builds the
    /// frame: an off pixel renders black, a decayed pixel at or below
    /// one tenth of full brightness extinguishes and renders black, and
    /// any other lit pixel renders its stored descriptor.
    pub fn decay_and_frame(&mut self) -> (frame: Vec<PixelViz>)
        requires
            old(self).wf(),
        ensures
            final(self).wf(),
            *final(self) == (SparkleViz {
                pixels: final(self).pixels,
                falloffs: final(self).falloffs,
                ..*old(self)
            }),
            final(self).pixels@.len() == old(self).pixels@.len(),
            final(self).falloffs@ == old(self).falloffs@,
            frame@.len() == old(self).pixels@.len(),
            forall|i: int|
                #![trigger frame@[i]]
                #![trigger old(self).pixels@[i]]
                0 <= i < old(self).pixels@.len() ==> (match old(self).pixels@[i] {
                    None => {
                        &&& final(self).pixels@[i] is None
                        &&& frame@[i] == crate::viz::spec_black()
                    },
                    Some(p) => {
                        let dimmed = if old(self).falloffs@[i] >= 1 {
                            spec_decayed(p, old(self).config.falloff)
                        } else {
                            p
                        };
                        &&& (dimmed.brightness <= 100 ==> final(self).pixels@[i] is None
                            && frame@[i] == crate::viz::spec_black())
                        &&& (dimmed.brightness > 100 ==> final(self).pixels@[i] == Some(dimmed)
                            && frame@[i] == dimmed)
                    },
                }),
    {
        let ghost pre = *old(self);
        let mut frame: Vec<PixelViz> = Vec::new();
        let mut i: usize = 0;
        while i < self.total_pixels
            invariant
                i <= self.total_pixels,
                self.total_pixels == pre.total_pixels,
                self.pixels@.len() == self.total_pixels == pre.pixels@.len(),
                self.falloffs@ == pre.falloffs@,
                self.falloffs@.len() == self.total_pixels,
                self.config == pre.config,
                self.elapsed_ms == pre.elapsed_ms,
                crate::viz::stored_pixels_ok(self.pixels@),
                frame@.len() == i,
                forall|t: int|
                    i <= t < pre.pixels@.len() ==> (#[trigger] self.pixels@[t]) == pre.pixels@[t],
                forall|t: int|
                    #![trigger frame@[t]]
                    #![trigger pre.pixels@[t]]
                    0 <= t < i ==> (match pre.pixels@[t] {
                        None => {
                            &&& self.pixels@[t] is None
                            &&& frame@[t] == crate::viz::spec_black()
                        },
                        Some(p) => {
                            let dimmed = if pre.falloffs@[t] >= 1 {
                                spec_decayed(p, pre.config.falloff)
                            } else {
                                p
                            };
                            &&& (dimmed.brightness <= 100 ==> self.pixels@[t] is None && frame@[t]
                                == crate::viz::spec_black())
                            &&& (dimmed.brightness > 100 ==> self.pixels@[t] == Some(dimmed)
                                && frame@[t] == dimmed)
                        },
                    }),
            decreases self.total_pixels - i,
        {
            let slot = self.pixels[i];
            match slot {
                Some(mut pixel) => {
                    if self.falloffs[i] >= 1 {
                        proof {
                            assert((pixel.brightness as int) * (self.config.falloff as int)
                                <= u128::MAX) by (nonlinear_arith)
                                requires
                                    pixel.brightness <= 0xFFFF_FFFF,
                                    self.config.falloff <= 0xFFFF_FFFF_FFFF_FFFF,
                            ;
                        }
                        let dimmed: u128 = ((pixel.brightness as u128) * (
                        self.config.falloff as u128)) / 1000;
                        pixel.brightness = if dimmed > 1000 {
                            1000
                        } else {
                            dimmed as u32
                        };
                    }
                    if pixel.brightness <= 100 {
                        self.pixels.set(i, None);
                        frame.push(PixelViz::black());
                    } else {
                        self.pixels.set(i, Some(pixel));
                        frame.push(pixel);
                    }
                },
                None => {
                    frame.push(PixelViz::black());
                },
            }
            i += 1;
        }
        frame
    }

    /// At the configured cadence, ignites up to `ignition_quota` random
    /// off pixels per band (`ignite_band` on the drawn indices), then
    /// decays every lit pixel and turns off the dim ones
    /// (`decay_and_frame`). Whatever the clock and the generator
    /// returned, the frame maps the stored state exactly: an off pixel
    /// renders black, a lit pixel renders its stored descriptor, and
    /// every multiplier and brightness is within one.
    pub fn update(&mut self, input: &Vec<u64>, colors: &Vec<Color>) -> (frame: Vec<PixelViz>)
        requires
            old(self).wf(),
            input@.len() >= 1,
        ensures
            final(self).wf(),
            final(self).pixel_count() == old(self).pixel_count(),
            final(self).config == old(self).config,
            frame@.len() == old(self).pixel_count(),
            forall|i: int|
                0 <= i < frame@.len() ==> ((#[trigger] final(self).pixels@[i]) is None ==> frame@[i]
                    == crate::viz::spec_black()),
            forall|i: int|
                0 <= i < frame@.len() ==> ((#[trigger] final(self).pixels@[i]) matches Some(p)
                    ==> frame@[i] == p),
            forall|i: int|
                0 <= i < frame@.len() ==> ((#[trigger] final(self).pixels@[i]) matches Some(p)
                    ==> (match old(self).pixels@[i] {
                    Some(q) => p == q || p == spec_decayed(q, old(self).config.falloff),
                    None => p.color_index < input@.len() && p == spec_decayed(
                        PixelViz {
                            color_index: p.color_index,
                            red_mul: 1000,
                            green_mul: 1000,
                            blue_mul: 1000,
                            brightness: spec_band_brightness(input@, p.color_index as int) as u32,
                        },
                        old(self).config.falloff,
                    ),
                })),
            forall|i: int|
                0 <= i < frame@.len() ==> (#[trigger] frame@[i]).red_mul <= 1000
                    && frame@[i].green_mul <= 1000 && frame@[i].blue_mul <= 1000
                    && frame@[i].brightness <= 1000,
    {
        let _ = colors;
        let total_bands = input.len();
        let now = sys::now_millis();
        let elapsed: u64 = if now >= self.elapsed_ms {
            let diff: i128 = (now as i128) - (self.elapsed_ms as i128);
            if diff > u64::MAX as i128 {
                u64::MAX
            } else {
                diff as u64
            }
        } else {
            0
        };

        let due = self.config.speed >= 1 && elapsed >= 1000 / self.config.speed;
        if due {
            self.elapsed_ms = now;
            let mut band: usize = 0;
            while band < total_bands
                invariant
                    band <= total_bands == input@.len(),
                    self.falloffs@.len() == self.total_pixels,
                    self.pixels@.len() == self.total_pixels,
                    crate::viz::stored_pixels_ok(self.pixels@),
                    self.config == old(self).config,
                    self.total_pixels == old(self).total_pixels,
                    forall|i: int|
                        #![trigger self.pixels@[i]]
                        0 <= i < self.pixels@.len() ==> ((self.pixels@[i] == old(self).pixels@[i]
                            && self.falloffs@[i] == old(self).falloffs@[i]) || (old(
                            self,
                        ).pixels@[i] is None && (self.pixels@[i] matches Some(q) ==> q.color_index
                            < input@.len() && q == (PixelViz {
                            color_index: q.color_index,
                            red_mul: 1000,
                            green_mul: 1000,
                            blue_mul: 1000,
                            brightness: spec_band_brightness(input@, q.color_index as int) as u32,
                        })) && self.pixels@[i] is Some && self.falloffs@[i] == 1)),
                decreases total_bands - band,
            {
                let level: u64 = if input[band] > 100 {
                    100
                } else {
                    input[band]
                };
                let quota = Self::ignition_quota(level, self.config.max_ignite);
                let ignite: usize = if quota > self.total_pixels as u64 {
                    self.total_pixels
                } else {
                    quota as usize
                };

                // pixels that are currently off
                let mut off_pixels: Vec<usize> = Vec::new();
                let mut i: usize = 0;
                while i < self.total_pixels
                    invariant
                        i <= self.total_pixels,
                        self.pixels@.len() == self.total_pixels,
                        forall|t: int|
                            0 <= t < off_pixels@.len() ==> (#[trigger] off_pixels@[t])
                                < self.total_pixels && self.pixels@[off_pixels@[t] as int]
                                is None,
                    decreases self.total_pixels - i,
                {
                    if self.pixels[i].is_none() {
                        off_pixels.push(i);
                    }
                    i += 1;
                }

                // randomly pick off pixels and ignite them
                let chosen = sys::choose_distinct(&off_pixels, ignite);
                proof {
                    assert forall|t: int|
                        0 <= t < chosen@.len() implies (#[trigger] chosen@[t])
                        < self.pixel_count() by {
                        let w = choose|w: int|
                            0 <= w < off_pixels@.len() && off_pixels@[w] == chosen@[t];
                    }
                }
                let ghost mid = *self;
                self.ignite_band(band, level, &chosen);
                proof {
                    assert forall|i: int|
                        #![trigger self.pixels@[i]]
                        0 <= i < self.pixels@.len() implies ((self.pixels@[i] == old(
                        self,
                    ).pixels@[i] && self.falloffs@[i] == old(self).falloffs@[i]) || (old(
                        self,
                    ).pixels@[i] is None && (self.pixels@[i] matches Some(q) ==> q.color_index
                        < input@.len() && q == (PixelViz {
                        color_index: q.color_index,
                        red_mul: 1000,
                        green_mul: 1000,
                        blue_mul: 1000,
                        brightness: spec_band_brightness(input@, q.color_index as int) as u32,
                    })) && self.pixels@[i] is Some && self.falloffs@[i] == 1)) by {
                        if chosen@.contains(i as usize) {
                            let w = choose|w: int|
                                0 <= w < off_pixels@.len() && (#[trigger] off_pixels@[w]) == i
                                    as usize;
                            assert(mid.pixels@[i] is None);
                            assert(mid.pixels@[i] == old(self).pixels@[i]
                                || old(self).pixels@[i] is None);
                        } else {
                            assert(self.pixels@[i] == mid.pixels@[i]);
                            assert(self.falloffs@[i] == mid.falloffs@[i]);
                        }
                    }
                }
                band += 1;
            }
        }

        // decay lit pixels and turn off the dim ones
        let ghost pre_decay = *self;
        let frame = self.decay_and_frame();
        proof {
            assert forall|i: int|
                0 <= i < frame@.len() implies ((#[trigger] final(self).pixels@[i]) is None
                ==> frame@[i] == crate::viz::spec_black()) && (final(self).pixels@[i] matches Some(
                p,
            ) ==> frame@[i] == p) by {
                assert(frame@[i] == frame@[i]);
            }
            assert forall|i: int|
                0 <= i < frame@.len() implies ((#[trigger] final(self).pixels@[i]) matches Some(p)
                ==> (match old(self).pixels@[i] {
                Some(q) => p == q || p == spec_decayed(q, old(self).config.falloff),
                None => p.color_index < input@.len() && p == spec_decayed(
                    PixelViz {
                        color_index: p.color_index,
                        red_mul: 1000,
                        green_mul: 1000,
                        blue_mul: 1000,
                        brightness: spec_band_brightness(input@, p.color_index as int) as u32,
                    },
                    old(self).config.falloff,
                ),
            })) by {
                assert(frame@[i] == frame@[i]);
                assert(pre_decay.config == old(self).config);
                match pre_decay.pixels@[i] {
                    Some(q) => {
                        assert(pre_decay.pixels@[i] == old(self).pixels@[i] || (old(
                            self,
                        ).pixels@[i] is None && q.color_index < input@.len() && q == (PixelViz {
                            color_index: q.color_index,
                            red_mul: 1000,
                            green_mul: 1000,
                            blue_mul: 1000,
                            brightness: spec_band_brightness(input@, q.color_index as int) as u32,
                        }) && pre_decay.falloffs@[i] == 1));
                    },
                    None => {
                        assert(final(self).pixels@[i] is None);
                    },
                }
            }
        }
        frame
    }

    /// Sets the number of available pixels, resetting the per-pixel
    /// state.
    pub fn set_total_pixels(&mut self, pixels: usize)
        ensures
            final(self).wf(),
            final(self).pixel_count() == pixels,
            final(self).config == old(self).config,
            final(self).pixels@ =~= Seq::new(pixels as nat, |i: int| None::<PixelViz>),
            forall|i: int| 0 <= i < pixels ==> final(self).falloffs@[i] == 0,
    {
        self.total_pixels = pixels;
        self.pixels = vec![None; pixels];
        self.falloffs = vec![0u64; pixels];
    }

    /// The visualization settings as a key/value list.
    pub fn get_settings(&self) -> (settings: Vec<(String, String)>)
        ensures
            spec_sparkle_settings(self.config, settings@),
    {
        self.config.to_map()
    }

    /// Replaces the configuration from a key/value list exactly when it
    /// parses, keeping the display name and resetting the per-pixel
    /// state to all-off; an unparsable list leaves everything unchanged.
    pub fn update_settings(&mut self, settings: &Vec<(String, String)>) -> (ok: bool)
        requires
            old(self).wf(),
        ensures
            final(self).wf(),
            final(self).pixel_count() == old(self).pixel_count(),
            ok == (spec_sparkle_config(old(self).config.pretty_name, settings@) is Some),
            ok ==> (match spec_sparkle_config(old(self).config.pretty_name, settings@) {
                Some(c) => {
                    &&& final(self).config.pretty_name@ == old(self).config.pretty_name@
                    &&& final(self).config.speed == c.speed
                    &&& final(self).config.falloff == c.falloff
                    &&& final(self).config.max_ignite == c.max_ignite
                    &&& final(self).pixels@ =~= Seq::new(
                        old(self).pixel_count() as nat,
                        |i: int| None::<PixelViz>,
                    )
                    &&& (forall|i: int|
                        0 <= i < old(self).pixel_count() ==> (#[trigger] final(self).falloffs@[i])
                            == 0)
                    &&& final(self).elapsed_ms == old(self).elapsed_ms
                },
                None => false,
            }),
            !ok ==> *final(self) == *old(self),
    {
        let name = String::from_str(self.config.pretty_name.as_str());
        match SparkleVizConfig::from_map(name, settings) {
            Some(new_settings) => {
                self.config = new_settings;
                let n = self.total_pixels;
                self.pixels = vec![None; n];
                self.falloffs = vec![0u64; n];
                proof {
                    assert(self.pixels@ =~= Seq::new(n as nat, |i: int| None::<PixelViz>));
                }
                true
            },
            None => false,
        }
    }
}

} // verus!
