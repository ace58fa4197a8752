use vstd::prelude::*;

verus! {

use crate::theme::Color;
use crate::viz::{spec_band_brightness, stored_pixels_ok, PixelViz};
use crate::sys;

/// Configuration of the rotating visualization.
#[derive(Clone, Debug)]
pub struct RotatingVizConfig {
    /// Screen friendly name of visualization.
    pub pretty_name: String,
    /// Number of positions the pattern moves per second.
    pub speed: u64,
    /// Per-step brightness reduction of an extinguishing pixel, per
    /// mille.
    pub falloff: u64,
}

/// What reading a rotating configuration from a key/value list yields:
/// a config exactly when both tunables read as integers.
pub open spec fn spec_rotating_config(name: String, settings: Seq<(String, String)>) -> Option<
    RotatingVizConfig,
> {
    match (
        crate::settings::spec_map_u64(settings, "speed"@),
        crate::settings::spec_map_u64(settings, "falloff"@),
    ) {
        (Some(speed), Some(falloff)) => Some(RotatingVizConfig { pretty_name: name, speed, falloff }),
        _ => None,
    }
}

/// The key/value view of a rotating configuration, as `to_map` renders
/// it.
pub open spec fn spec_rotating_settings(
    config: RotatingVizConfig,
    settings: Seq<(String, String)>,
) -> bool {
    &&& settings.len() == 2
    &&& settings[0].0@ == "speed"@ && settings[0].1@ == crate::settings::spec_digits(
        config.speed as int,
    )
    &&& settings[1].0@ == "falloff"@ && settings[1].1@ == crate::settings::spec_digits(
        config.falloff as int,
    )
}

impl RotatingVizConfig {
    /// Converts the visualization config into a key/value list.
    pub fn to_map(&self) -> (settings: Vec<(String, String)>)
        ensures
            spec_rotating_settings(*self, settings@),
    {
        let mut settings: Vec<(String, String)> = Vec::new();
        settings.push((String::from_str("speed"), crate::settings::u64_to_string(self.speed)));
        settings.push((String::from_str("falloff"), crate::settings::u64_to_string(self.falloff)));
        settings
    }

    /// Creates a visualization config from a key/value list; a missing
    /// key falls back to zero, an unparsable value fails the request.
    pub fn from_map(name: String, settings: &Vec<(String, String)>) -> (config: Option<
        RotatingVizConfig,
    >)
        ensures
            config == spec_rotating_config(name, settings@),
    {
        let speed = crate::settings::map_get_u64(settings, "speed");
        let falloff = crate::settings::map_get_u64(settings, "falloff");
        match (speed, falloff) {
            (Some(speed), Some(falloff)) => Some(
                RotatingVizConfig { pretty_name: name, speed, falloff },
            ),
            _ => None,
        }
    }
}

/// Visualization that shifts a pixel-to-band assignment along the strip
/// at the configured rate; pixels ignite and extinguish with probability
/// proportional to their band's energy, fading linearly once
/// extinguishing.
#[derive(Clone, Debug)]
pub struct RotatingViz {
    /// Visualization config.
    pub config: RotatingVizConfig,
    /// Total number of pixels.
    pub total_pixels: usize,
    /// Wall-clock milliseconds of the last rotation step.
    pub elapsed_ms: i64,
    /// Current state of each pixel; `None` is off.
    pub pixels: Vec<Option<PixelViz>>,
    /// Extinguishing step counter per pixel; zero means fully lit.
    pub falloffs: Vec<u64>,
}

/// A per-pixel sequence rotated one position toward the strip start:
/// the first element wraps to the back.
pub open spec fn spec_rotated<T>(s: Seq<T>) -> Seq<T> {
    if s.len() == 0 {
        s
    } else {
        s.skip(1) + s.take(1)
    }
}

/// A lit pixel after one falloff step: its brightness scaled by the
/// per-mille share remaining after `counter` steps of the configured
/// falloff.
pub open spec fn spec_faded(p: PixelViz, counter: u64, falloff: u64) -> PixelViz {
    let reduction = vstd::math::min(counter * falloff, 1000);
    PixelViz { brightness: ((p.brightness * (1000 - reduction)) / 1000) as u32, ..p }
}

/// Every lit pixel of an already-processed band shows its band's energy
/// brightness.
pub open spec fn energy_applied(pixels: Seq<Option<PixelViz>>, input: Seq<u64>, bands: int) -> bool {
    forall|i: int|
        0 <= i < pixels.len() ==> ((#[trigger] pixels[i]) matches Some(p) ==> (p.color_index < bands
            ==> p.brightness == spec_band_brightness(input, p.color_index as int)))
}

impl RotatingViz {
    /// Number of pixels driven per frame.
    pub open spec fn pixel_count(&self) -> int {
        self.total_pixels as int
    }

    /// Per-pixel state vectors match the pixel count and stored pixels
    /// stay within per-mille range.
    pub open spec fn wf(&self) -> bool {
        &&& self.pixels@.len() == self.total_pixels
        &&& self.falloffs@.len() == self.total_pixels
        &&& stored_pixels_ok(self.pixels@)
    }

    /// Creates a new rotating visualization.
    pub fn new(config: RotatingVizConfig) -> (viz: RotatingViz)
        ensures
            viz.wf(),
            viz.pixel_count() == 0,
            viz.config == config,
    {
        RotatingViz {
            config,
            total_pixels: 0,
            elapsed_ms: sys::now_millis(),
            pixels: Vec::new(),
            falloffs: Vec::new(),
        }
    }

    /// Unique identifier of the visualization.
    pub fn get_name(&self) -> (name: &'static str)
        ensures
            name@ == "rotating_viz"@,
    {
        "rotating_viz"
    }

    /// Descriptive visualization name.
    pub fn get_pretty_name(&self) -> (name: &str)
        ensures
            name@ == self.config.pretty_name@,
    {
        self.config.pretty_name.as_str()
    }

    /// Collects the indices of lit pixels showing the band whose falloff
    /// counter matches the predicate: counter zero when `active` is set,
    /// nonzero otherwise.
    fn band_members(&self, band: usize, active: bool) -> (members: Vec<usize>)
        requires
            self.wf(),
        ensures
            forall|t: int| 0 <= t < members@.len() ==> (#[trigger] members@[t]) < self.pixel_count(),
    {
        let mut members: Vec<usize> = Vec::new();
        let mut i: usize = 0;
        while i < self.total_pixels
            invariant
                i <= self.total_pixels,
                self.pixels@.len() == self.total_pixels,
                self.falloffs@.len() == self.total_pixels,
                forall|t: int|
                    0 <= t < members@.len() ==> (#[trigger] members@[t]) < self.total_pixels,
            decreases self.total_pixels - i,
        {
            if let Some(pixel) = self.pixels[i] {
                if pixel.color_index == band {
                    let counter_zero = self.falloffs[i] == 0;
                    if counter_zero == active {
                        members.push(i);
                    }
                }
            }
            i += 1;
        }
        members
    }

    /// Rotates the pixel-to-band assignment one position toward the
    /// strip start; the first pixel wraps to the last slot.
    pub fn rotate_one(&mut self)
        requires
            old(self).wf(),
        ensures
            final(self).wf(),
            *final(self) == (RotatingViz {
                pixels: final(self).pixels,
                falloffs: final(self).falloffs,
                ..*old(self)
            }),
            final(self).pixels@ == spec_rotated(old(self).pixels@),
            final(self).falloffs@ == spec_rotated(old(self).falloffs@),
    {
        if self.total_pixels == 0 {
            proof {
                assert(self.pixels@ =~= spec_rotated(self.pixels@));
                assert(self.falloffs@ =~= spec_rotated(self.falloffs@));
            }
            return;
        }
        let first = self.pixels[0];
        let first_falloff = self.falloffs[0];
        let mut i: usize = 1;
        while i < self.total_pixels
            invariant
                1 <= i <= self.total_pixels,
                self.total_pixels == old(self).total_pixels,
                self.pixels@.len() == self.total_pixels == old(self).pixels@.len(),
                self.falloffs@.len() == self.total_pixels == old(self).falloffs@.len(),
                self.config == old(self).config,
                self.elapsed_ms == old(self).elapsed_ms,
                first == old(self).pixels@[0],
                first_falloff == old(self).falloffs@[0],
                forall|t: int|
                    0 <= t < i - 1 ==> (#[trigger] self.pixels@[t]) == old(self).pixels@[t + 1],
                forall|t: int|
                    0 <= t < i - 1 ==> (#[trigger] self.falloffs@[t]) == old(self).falloffs@[t + 1],
                forall|t: int|
                    i - 1 <= t < self.pixels@.len() ==> (#[trigger] self.pixels@[t]) == old(
                        self,
                    ).pixels@[t],
                forall|t: int|
                    i - 1 <= t < self.falloffs@.len() ==> (#[trigger] self.falloffs@[t]) == old(
                        self,
                    ).falloffs@[t],
            decreases self.total_pixels - i,
        {
            let moved = self.pixels[i];
            self.pixels.set(i - 1, moved);
            let moved_falloff = self.falloffs[i];
            self.falloffs.set(i - 1, moved_falloff);
            i += 1;
        }
        self.pixels.set(self.total_pixels - 1, first);
        self.falloffs.set(self.total_pixels - 1, first_falloff);
        proof {
            assert(self.pixels@ =~= spec_rotated(old(self).pixels@));
            assert(self.falloffs@ =~= spec_rotated(old(self).falloffs@));
            assert forall|t: int|
                0 <= t < self.pixels@.len() implies ((#[trigger] self.pixels@[t]) matches Some(p)
                ==> p.red_mul <= 1000 && p.green_mul <= 1000 && p.blue_mul <= 1000 && p.brightness
                    <= 1000) by {
                if t < self.pixels@.len() - 1 {
                    assert(old(self).pixels@[t + 1] == self.pixels@[t]);
                } else {
                    assert(old(self).pixels@[0] == self.pixels@[t]);
                }
            }
        }
    }

    /// Percent chance that aims a target count at the current member
    /// count: `min(100, 100 * target / (members + 1))`.
    pub fn percent_chance(target: u64, members: usize) -> (chance: u64)
        ensures
            chance == vstd::math::min(100, (100 * target) / (members + 1)),
            chance <= 100,
    {
        proof {
            assert(100 * (target as int) <= u128::MAX) by (nonlinear_arith)
                requires
                    target <= 0xFFFF_FFFF_FFFF_FFFF,
            ;
        }
        let denom: u128 = (members as u128) + 1;
        let wide = ((100 as u128) * (target as u128)) / denom;
        if wide > 100 {
            100
        } else {
            wide as u64
        }
    }

    /// Number of pixels a band's energy keeps lit out of its share of
    /// the strip.
    pub fn band_activation(level: u64, share: usize) -> (active: u64)
        requires
            level <= 100,
        ensures
            active == (level * share) / 100,
    {
        proof {
            assert(0 <= ((level as int) * (share as int)) / 100 <= share as int)
                by (nonlinear_arith)
                requires
                    0 <= level <= 100,
                    share >= 0,
            ;
        }
        (((level as u128) * (share as u128)) / 100) as u64
    }

    /// Applies the linear falloff trail and builds the frame: an off
    /// pixel renders black; a lit pixel dims by `counter * falloff` per
    /// mille, its counter grows by one (saturating), and once the grown
    /// counter reaches ten the pixel extinguishes and renders black.
    pub fn fade_and_frame(&mut self) -> (frame: Vec<PixelViz>)
        requires
            old(self).wf(),
        ensures
            final(self).wf(),
            *final(self) == (RotatingViz {
                pixels: final(self).pixels,
                falloffs: final(self).falloffs,
                ..*old(self)
            }),
            final(self).pixels@.len() == old(self).pixels@.len(),
            final(self).falloffs@.len() == old(self).falloffs@.len(),
            frame@.len() == old(self).pixels@.len(),
            forall|i: int|
                #![trigger frame@[i]]
                #![trigger old(self).pixels@[i]]
                0 <= i < old(self).pixels@.len() ==> (match old(self).pixels@[i] {
                    None => {
                        &&& final(self).pixels@[i] is None
                        &&& final(self).falloffs@[i] == old(self).falloffs@[i]
                        &&& frame@[i] == crate::viz::spec_black()
                    },
                    Some(p) => {
                        let faded = spec_faded(p, old(self).falloffs@[i], old(self).config.falloff);
                        let grown = vstd::math::min(
                            old(self).falloffs@[i] as int + 1,
                            u64::MAX as int,
                        );
                        &&& final(self).falloffs@[i] == grown
                        &&& (grown >= 10 ==> final(self).pixels@[i] is None && frame@[i]
                            == crate::viz::spec_black())
                        &&& (grown < 10 ==> final(self).pixels@[i] == Some(faded) && frame@[i]
                            == faded)
                    },
                }),
    {
        let ghost pre = *old(self);
        let mut frame: Vec<PixelViz> = Vec::new();
        let mut i: usize = 0;
        while i < self.total_pixels
            invariant
                i <= self.total_pixels,
                self.total_pixels == pre.total_pixels,
                self.pixels@.len() == self.total_pixels == pre.pixels@.len(),
                self.falloffs@.len() == self.total_pixels == pre.falloffs@.len(),
                self.config == pre.config,
                self.elapsed_ms == pre.elapsed_ms,
                stored_pixels_ok(self.pixels@),
                frame@.len() == i,
                forall|t: int|
                    i <= t < pre.pixels@.len() ==> (#[trigger] self.pixels@[t]) == pre.pixels@[t],
                forall|t: int|
                    i <= t < pre.falloffs@.len() ==> (#[trigger] self.falloffs@[t])
                        == pre.falloffs@[t],
                forall|t: int|
                    #![trigger frame@[t]]
                    #![trigger pre.pixels@[t]]
                    0 <= t < i ==> (match pre.pixels@[t] {
                        None => {
                            &&& self.pixels@[t] is None
                            &&& self.falloffs@[t] == pre.falloffs@[t]
                            &&& frame@[t] == crate::viz::spec_black()
                        },
                        Some(p) => {
                            let faded = spec_faded(p, pre.falloffs@[t], pre.config.falloff);
                            let grown = vstd::math::min(
                                pre.falloffs@[t] as int + 1,
                                u64::MAX as int,
                            );
                            &&& self.falloffs@[t] == grown
                            &&& (grown >= 10 ==> self.pixels@[t] is None && frame@[t]
                                == crate::viz::spec_black())
                            &&& (grown < 10 ==> self.pixels@[t] == Some(faded) && frame@[t]
                                == faded)
                        },
                    }),
            decreases self.total_pixels - i,
        {
            let counter = self.falloffs[i];
            match self.pixels[i] {
                Some(mut pixel) => {
                    proof {
                        assert((counter as int) * (self.config.falloff as int) <= u128::MAX)
                            by (nonlinear_arith)
                            requires
                                counter <= 0xFFFF_FFFF_FFFF_FFFF,
                                self.config.falloff <= 0xFFFF_FFFF_FFFF_FFFF,
                        ;
                    }
                    let reduction_wide: u128 = (counter as u128) * (self.config.falloff as u128);
                    let reduction: u64 = if reduction_wide > 1000 {
                        1000
                    } else {
                        reduction_wide as u64
                    };
                    proof {
                        assert(0 <= (pixel.brightness as int) * (1000 - reduction) / 1000 <= 1000)
                            by (nonlinear_arith)
                            requires
                                pixel.brightness <= 1000,
                                0 <= reduction <= 1000,
                        ;
                    }
                    let dimmed: u64 = (pixel.brightness as u64) * (1000 - reduction) / 1000;
                    pixel.brightness = dimmed as u32;
                    let grown = if counter < u64::MAX {
                        counter + 1
                    } else {
                        counter
                    };
                    self.falloffs.set(i, grown);
                    if grown >= 10 {
                        self.pixels.set(i, None);
                        frame.push(PixelViz::black());
                    } else {
                        self.pixels.set(i, Some(pixel));
                        frame.push(pixel);
                    }
                },
                None => {
                    frame.push(PixelViz::black());
                },
            }
            i += 1;
        }
        frame
    }

    /// Shifts the pattern one position at the configured rate
    /// (`rotate_one`), then per band randomly re-ignites or extinguishes
    /// pixels so that roughly `energy / 100` of the band's strip share
    /// stays lit (chances from `percent_chance` over `band_activation`),
    /// and finally applies the falloff trail (`fade_and_frame`). Whatever
    /// the clock and the generator returned, the frame maps the stored
    /// state exactly: an off pixel renders black, a lit pixel renders its
    /// stored descriptor, and every multiplier and brightness is within
    /// one.
    pub fn update(&mut self, input: &Vec<u64>, colors: &Vec<Color>) -> (frame: Vec<PixelViz>)
        requires
            old(self).wf(),
            input@.len() >= 1,
        ensures
            final(self).wf(),
            final(self).pixel_count() == old(self).pixel_count(),
            final(self).config == old(self).config,
            frame@.len() == old(self).pixel_count(),
            forall|i: int|
                0 <= i < frame@.len() ==> ((#[trigger] final(self).pixels@[i]) is None ==> frame@[i]
                    == crate::viz::spec_black()),
            forall|i: int|
                0 <= i < frame@.len() ==> ((#[trigger] final(self).pixels@[i]) matches Some(p)
                    ==> frame@[i] == p),
            forall|i: int|
                0 <= i < frame@.len() ==> ((#[trigger] final(self).pixels@[i]) matches Some(p)
                    ==> (p.color_index < input@.len() ==> p.brightness == (spec_band_brightness(
                    input@,
                    p.color_index as int,
                ) * (1000 - vstd::math::min(
                    (final(self).falloffs@[i] as int - 1) * old(self).config.falloff,
                    1000,
                ))) / 1000)),
            forall|i: int|
                0 <= i < frame@.len() ==> (#[trigger] frame@[i]).red_mul <= 1000
                    && frame@[i].green_mul <= 1000 && frame@[i].blue_mul <= 1000
                    && frame@[i].brightness <= 1000,
    {
        let _ = colors;
        let total_bands = input.len();
        let now = sys::now_millis();
        let elapsed: u64 = if now >= self.elapsed_ms {
            let diff: i128 = (now as i128) - (self.elapsed_ms as i128);
            if diff > u64::MAX as i128 {
                u64::MAX
            } else {
                diff as u64
            }
        } else {
            0
        };

        // rotate the pattern one position when a step is due
        let due = self.config.speed >= 1 && elapsed >= 1000 / self.config.speed;
        if due && self.total_pixels > 0 {
            self.rotate_one();
            self.elapsed_ms = now;
        }

        let mut band: usize = 0;
        while band < total_bands
            invariant
                band <= total_bands == input@.len(),
                self.pixels@.len() == self.total_pixels,
                self.falloffs@.len() == self.total_pixels,
                stored_pixels_ok(self.pixels@),
                energy_applied(self.pixels@, input@, band as int),
                self.config == old(self).config,
                self.total_pixels == old(self).total_pixels,
            decreases total_bands - band,
        {
            let level: u64 = if input[band] > 100 {
                100
            } else {
                input[band]
            };
            // pixels this band should keep lit
            let share = self.total_pixels / total_bands;
            let active = Self::band_activation(level, share);

            // re-roll the currently fully lit members of this band
            let lit = self.band_members(band, true);
            let change_probability = Self::percent_chance(active, lit.len());
            let mut c: usize = 0;
            while c < lit.len()
                invariant
                    c <= lit@.len(),
                    self.pixels@.len() == self.total_pixels,
                    self.falloffs@.len() == self.total_pixels,
                    stored_pixels_ok(self.pixels@),
                    energy_applied(self.pixels@, input@, band as int),
                    band < input@.len(),
                    self.config == old(self).config,
                    self.total_pixels == old(self).total_pixels,
                    forall|t: int| 0 <= t < lit@.len() ==> (#[trigger] lit@[t]) < self.total_pixels,
                decreases lit@.len() - c,
            {
                let r = sys::rand_below(100);
                if r < change_probability {
                    self.falloffs.set(lit[c], 0);
                } else {
                    self.falloffs.set(lit[c], 1);
                }
                c += 1;
            }

            if change_probability >= 100 {
                // revive extinguishing members of this band
                let fading = self.band_members(band, false);
                let left_to_turn_on: u64 = if active > lit.len() as u64 {
                    active - lit.len() as u64
                } else {
                    0
                };
                let falloff_change_probability = Self::percent_chance(
                    left_to_turn_on,
                    fading.len(),
                );
                let mut f: usize = 0;
                while f < fading.len()
                    invariant
                        f <= fading@.len(),
                        self.pixels@.len() == self.total_pixels,
                        self.falloffs@.len() == self.total_pixels,
                        stored_pixels_ok(self.pixels@),
                        energy_applied(self.pixels@, input@, band as int),
                        band < input@.len(),
                        self.config == old(self).config,
                        self.total_pixels == old(self).total_pixels,
                        forall|t: int|
                            0 <= t < fading@.len() ==> (#[trigger] fading@[t]) < self.total_pixels,
                    decreases fading@.len() - f,
                {
                    let r = sys::rand_below(100);
                    if r < falloff_change_probability {
                        self.falloffs.set(fading[f], 0);
                    }
                    f += 1;
                }

                if falloff_change_probability >= 100 {
                    // ignite off pixels for this band
                    let turn_on: u64 = if left_to_turn_on > fading.len() as u64 {
                        left_to_turn_on - fading.len() as u64
                    } else {
                        0
                    };
                    let mut off_pixels: Vec<usize> = Vec::new();
                    let mut i: usize = 0;
                    while i < self.total_pixels
                        invariant
                            i <= self.total_pixels,
                            self.pixels@.len() == self.total_pixels,
                            forall|t: int|
                                0 <= t < off_pixels@.len() ==> (#[trigger] off_pixels@[t])
                                    < self.total_pixels,
                        decreases self.total_pixels - i,
                    {
                        if self.pixels[i].is_none() {
                            off_pixels.push(i);
                        }
                        i += 1;
                    }
                    let on_probability = Self::percent_chance(turn_on, off_pixels.len());
                    let mut o: usize = 0;
                    while o < off_pixels.len()
                        invariant
                            o <= off_pixels@.len(),
                            band < input@.len(),
                            self.pixels@.len() == self.total_pixels,
                            self.falloffs@.len() == self.total_pixels,
                            stored_pixels_ok(self.pixels@),
                            energy_applied(self.pixels@, input@, band as int),
                            self.config == old(self).config,
                            self.total_pixels == old(self).total_pixels,
                            forall|t: int|
                                0 <= t < off_pixels@.len() ==> (#[trigger] off_pixels@[t])
                                    < self.total_pixels,
                        decreases off_pixels@.len() - o,
                    {
                        let r = sys::rand_below(100);
                        if r < on_probability {
                            self.falloffs.set(off_pixels[o], 0);
                            self.pixels.set(
                                off_pixels[o],
                                Some(
                                    PixelViz {
                                        color_index: band,
                                        red_mul: 1000,
                                        green_mul: 1000,
                                        blue_mul: 1000,
                                        brightness: 1000,
                                    },
                                ),
                            );
                        }
                        o += 1;
                    }
                }
            }

            // brightness of this band's pixels follows its energy
            let mut p: usize = 0;
            while p < self.total_pixels
                invariant
                    p <= self.total_pixels,
                    band < input@.len(),
                    level == vstd::math::min(input@[band as int] as int, 100),
                    self.pixels@.len() == self.total_pixels,
                    self.falloffs@.len() == self.total_pixels,
                    stored_pixels_ok(self.pixels@),
                    energy_applied(self.pixels@, input@, band as int),
                    forall|t: int|
                        0 <= t < p ==> ((#[trigger] self.pixels@[t]) matches Some(q) ==> (
                        q.color_index == band ==> q.brightness == spec_band_brightness(
                            input@,
                            band as int,
                        ))),
                    self.config == old(self).config,
                    self.total_pixels == old(self).total_pixels,
                decreases self.total_pixels - p,
            {
                if let Some(mut pixel) = self.pixels[p] {
                    if pixel.color_index == band {
                        pixel.brightness = (level * 10) as u32;
                        self.pixels.set(p, Some(pixel));
                    }
                }
                p += 1;
            }
            proof {
                assert forall|t: int|
                    0 <= t < self.pixels@.len() implies ((#[trigger] self.pixels@[t]) matches Some(
                    q,
                ) ==> (q.color_index < band as int + 1 ==> q.brightness == spec_band_brightness(
                    input@,
                    q.color_index as int,
                ))) by {
                    assert(0 <= t < self.pixels@.len());
                }
                assert(energy_applied(self.pixels@, input@, band as int + 1));
            }
            band += 1;
        }

        // fade extinguishing pixels linearly and build the frame
        let ghost pre_fade = *self;
        let frame = self.fade_and_frame();
        proof {
            assert forall|i: int|
                0 <= i < frame@.len() implies ((#[trigger] final(self).pixels@[i]) is None
                ==> frame@[i] == crate::viz::spec_black()) && (final(self).pixels@[i] matches Some(
                p,
            ) ==> frame@[i] == p) by {
                assert(frame@[i] == frame@[i]);
            }
            assert forall|i: int|
                0 <= i < frame@.len() implies ((#[trigger] final(self).pixels@[i]) matches Some(p)
                ==> (p.color_index < input@.len() ==> p.brightness == (spec_band_brightness(
                input@,
                p.color_index as int,
            ) * (1000 - vstd::math::min(
                (final(self).falloffs@[i] as int - 1) * old(self).config.falloff,
                1000,
            ))) / 1000)) by {
                assert(frame@[i] == frame@[i]);
                assert(pre_fade.config == old(self).config);
                match pre_fade.pixels@[i] {
                    Some(q) => {
                        let counter = pre_fade.falloffs@[i];
                        let grown = vstd::math::min(counter as int + 1, u64::MAX as int);
                        if grown < 10 {
                            let faded = spec_faded(q, counter, pre_fade.config.falloff);
                            assert(final(self).pixels@[i] == Some(faded));
                            assert(final(self).falloffs@[i] == grown);
                            assert(grown == counter + 1);
                            assert(q.brightness <= 1000);
                            if q.color_index < input@.len() {
                                assert(q.brightness == spec_band_brightness(
                                    input@,
                                    q.color_index as int,
                                ));
                                let reduction = vstd::math::min(
                                    (counter as int) * (pre_fade.config.falloff as int),
                                    1000,
                                );
                                assert(0 <= ((q.brightness as int) * (1000 - reduction)) / 1000
                                    <= 1000) by (nonlinear_arith)
                                    requires
                                        q.brightness <= 1000,
                                        0 <= reduction <= 1000,
                                ;
                                assert(faded.brightness == ((q.brightness as int) * (1000
                                    - reduction)) / 1000);
                            }
                        } else {
                            assert(final(self).pixels@[i] is None);
                        }
                    },
                    None => {
                        assert(final(self).pixels@[i] is None);
                    },
                }
            }
        }
        frame
    }

    /// Sets the number of available pixels, resetting the per-pixel
    /// state.
    pub fn set_total_pixels(&mut self, pixels: usize)
        ensures
            final(self).wf(),
            final(self).pixel_count() == pixels,
            final(self).config == old(self).config,
            final(self).pixels@ =~= Seq::new(pixels as nat, |i: int| None::<PixelViz>),
            forall|i: int| 0 <= i < pixels ==> final(self).falloffs@[i] == 0,
    {
        self.total_pixels = pixels;
        self.pixels = vec![None; pixels];
        self.falloffs = vec![0u64; pixels];
    }

    /// The visualization settings as a key/value list.
    pub fn get_settings(&self) -> (settings: Vec<(String, String)>)
        ensures
            spec_rotating_settings(self.config, settings@),
    {
        self.config.to_map()
    }

    /// Replaces the configuration from a key/value list exactly when it
    /// parses, keeping the display name and resetting the per-pixel
    /// state to all-off; an unparsable list leaves everything unchanged.
    pub fn update_settings(&mut self, settings: &Vec<(String, String)>) -> (ok: bool)
        requires
            old(self).wf(),
        ensures
            final(self).wf(),
            final(self).pixel_count() == old(self).pixel_count(),
            ok == (spec_rotating_config(old(self).config.pretty_name, settings@) is Some),
            ok ==> (match spec_rotating_config(old(self).config.pretty_name, settings@) {
                Some(c) => {
                    &&& final(self).config.pretty_name@ == old(self).config.pretty_name@
                    &&& final(self).config.speed == c.speed
                    &&& final(self).config.falloff == c.falloff
                    &&& final(self).pixels@ =~= Seq::new(
                        old(self).pixel_count() as nat,
                        |i: int| None::<PixelViz>,
                    )
                    &&& (forall|i: int|
                        0 <= i < old(self).pixel_count() ==> (#[trigger] final(self).falloffs@[i])
                            == 0)
                    &&& final(self).elapsed_ms == old(self).elapsed_ms
                },
                None => false,
            }),
            !ok ==> *final(self) == *old(self),
    {
        let name = String::from_str(self.config.pretty_name.as_str());
        match RotatingVizConfig::from_map(name, settings) {
            Some(new_settings) => {
                self.config = new_settings;
                let n = self.total_pixels;
                self.pixels = vec![None; n];
                self.falloffs = vec![0u64; n];
                proof {
                    assert(self.pixels@ =~= Seq::new(n as nat, |i: int| None::<PixelViz>));
                }
                true
            },
            None => false,
        }
    }
}

} // verus!
