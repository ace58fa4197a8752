use vstd::prelude::*;

verus! {

use vstd::math::min;
use crate::theme::Color;
use crate::viz::PixelViz;

/// Configuration of the center visualization.
#[derive(Clone, Debug)]
pub struct CenterVizConfig {
    /// Screen friendly name of visualization.
    pub pretty_name: String,
}

impl CenterVizConfig {
    /// Converts the visualization config into a key/value list; the
    /// center visualization has no tunables.
    pub fn to_map(&self) -> (settings: Vec<(String, String)>)
        ensures
            settings@.len() == 0,
    {
        Vec::new()
    }

    /// Creates a visualization config from a key/value list; the center
    /// visualization takes none of them.
    pub fn from_map(name: String, settings: Vec<(String, String)>) -> (config: CenterVizConfig)
        ensures
            config.pretty_name@ == name@,
    {
        let _ = settings;
        CenterVizConfig { pretty_name: name }
    }
}

/// A band value clamped to the 0..=100 display range.
pub open spec fn band_clamped(v: u64) -> int {
    min(v as int, 100)
}

/// Pixels a band lights from its own share of the half strip.
pub open spec fn band_pixels(band: int, ppb: int) -> int {
    (band * ppb) / 100
}

/// Half-up rounding of `band * unused / 100`: the share of still-unused
/// pixels a band additionally claims.
pub open spec fn band_bonus(band: int, unused: int) -> int {
    (2 * (band * unused) + 100) / 200
}

/// Sum of the base pixel counts of bands `n` onwards.
pub open spec fn rest_pixels(input: Seq<u64>, ppb: int, n: int) -> int
    decreases input.len() - n,
{
    if n < 0 || n >= input.len() {
        0
    } else {
        band_pixels(band_clamped(input[n]), ppb) + rest_pixels(input, ppb, n + 1)
    }
}

/// Lit pixel count and remaining unused pixels after distributing the
/// first `n` bands outward from the center.
pub open spec fn center_state(input: Seq<u64>, ppb: int, unused0: int, n: int) -> (int, int)
    decreases n,
{
    if n <= 0 {
        (0, unused0)
    } else {
        let prev = center_state(input, ppb, unused0, n - 1);
        let band = band_clamped(input[n - 1]);
        let add = band_bonus(band, prev.1);
        (prev.0 + band_pixels(band, ppb) + add, prev.1 - add)
    }
}

/// Number of pixels lit on each side of the strip's center.
pub open spec fn spec_center_lit(input: Seq<u64>, half: int) -> int {
    let tb = input.len() as int;
    let ppb = if tb >= 1 {
        half / tb
    } else {
        0
    };
    center_state(input, ppb, half - rest_pixels(input, ppb, 0), tb).0
}

/// Offset from the center at which band `n`'s contiguous run of pixels
/// starts: the runs sit outward in band order, so lower bands sit nearer
/// the center.
pub open spec fn spec_band_start(input: Seq<u64>, half: int, n: int) -> int {
    let tb = input.len() as int;
    let ppb = if tb >= 1 {
        half / tb
    } else {
        0
    };
    center_state(input, ppb, half - rest_pixels(input, ppb, 0), n).0
}

proof fn lemma_band_pixels_bounds(band: int, ppb: int)
    requires
        0 <= band <= 100,
        0 <= ppb,
    ensures
        0 <= band_pixels(band, ppb) <= ppb,
{
    assert(0 <= (band * ppb) / 100 <= ppb) by (nonlinear_arith)
        requires
            0 <= band <= 100,
            0 <= ppb,
    ;
}

proof fn lemma_band_bonus_bounds(band: int, unused: int)
    requires
        0 <= band <= 100,
        0 <= unused,
    ensures
        0 <= band_bonus(band, unused) <= unused,
{
    assert(0 <= (2 * (band * unused) + 100) / 200 <= unused) by (nonlinear_arith)
        requires
            0 <= band <= 100,
            0 <= unused,
    ;
}

proof fn lemma_rest_pixels_bounds(input: Seq<u64>, ppb: int, n: int)
    requires
        0 <= ppb,
        0 <= n <= input.len(),
    ensures
        0 <= rest_pixels(input, ppb, n) <= (input.len() - n) * ppb,
    decreases input.len() - n,
{
    if n < input.len() {
        lemma_rest_pixels_bounds(input, ppb, n + 1);
        lemma_band_pixels_bounds(band_clamped(input[n]), ppb);
        assert((input.len() - n) * ppb == (input.len() - (n + 1)) * ppb + ppb) by (nonlinear_arith);
    } else {
        assert((input.len() - n) * ppb == 0) by (nonlinear_arith)
            requires
                n == input.len(),
        ;
    }
}

/// The lit pixel count grows with the bands and the unused budget never
/// goes negative.
proof fn lemma_center_state_monotone(input: Seq<u64>, ppb: int, unused0: int, a: int, b: int)
    requires
        0 <= ppb,
        0 <= unused0,
        0 <= a <= b,
    ensures
        0 <= center_state(input, ppb, unused0, a).0 <= center_state(input, ppb, unused0, b).0,
        center_state(input, ppb, unused0, b).1 >= 0,
    decreases b,
{
    if b == 0 {
    } else if a == b {
        lemma_center_state_monotone(input, ppb, unused0, a - 1 + 1 - 1, b - 1);
        let prev = center_state(input, ppb, unused0, b - 1);
        lemma_band_bonus_bounds(band_clamped(input[b - 1]), prev.1);
        lemma_band_pixels_bounds(band_clamped(input[b - 1]), ppb);
    } else {
        lemma_center_state_monotone(input, ppb, unused0, a, b - 1);
        let prev = center_state(input, ppb, unused0, b - 1);
        lemma_band_bonus_bounds(band_clamped(input[b - 1]), prev.1);
        lemma_band_pixels_bounds(band_clamped(input[b - 1]), ppb);
    }
}

/// Visualization turning on pixels outward from the center of the strip:
/// the number of lit pixels follows the total band energy, lower bands
/// sit closer to the center, and unused capacity is redistributed so the
/// display looks full.
#[derive(Clone, Debug)]
pub struct CenterViz {
    /// Visualization config.
    pub config: CenterVizConfig,
    /// Total number of pixels.
    pub total_pixels: usize,
}

impl CenterViz {
    /// Number of pixels driven per frame.
    pub open spec fn pixels(&self) -> int {
        self.total_pixels as int
    }

    /// Creates a new center visualization.
    pub fn new(config: CenterVizConfig) -> (viz: CenterViz)
        ensures
            viz.pixels() == 0,
            viz.config.pretty_name@ == config.pretty_name@,
    {
        CenterViz { config, total_pixels: 0 }
    }

    /// Unique identifier of the visualization.
    pub fn get_name(&self) -> (name: &'static str)
        ensures
            name@ == "center_viz"@,
    {
        "center_viz"
    }

    /// Descriptive visualization name.
    pub fn get_pretty_name(&self) -> (name: &str)
        ensures
            name@ == self.config.pretty_name@,
    {
        self.config.pretty_name.as_str()
    }

    /// Lights `spec_center_lit` pixels on each side of the center, colored
    /// by band with lower bands closer to the center and mirrored across
    /// it; all remaining pixels of the two half strips are off.
    #[verifier::rlimit(100)]
    pub fn update(&mut self, input: &Vec<u64>, colors: &Vec<Color>) -> (pixels: Vec<PixelViz>)
        requires
            input@.len() >= 1,
        ensures
            *final(self) == *old(self),
            pixels@.len() == old(self).pixels(),
            forall|o: int|
                0 <= o < old(self).pixels() / 2 ==> (#[trigger] pixels@[old(self).pixels() / 2
                    + o].brightness) == (if o < spec_center_lit(input@, old(self).pixels() / 2) {
                    1000u32
                } else {
                    0u32
                }),
            forall|o: int|
                1 <= o < old(self).pixels() / 2 ==> pixels@[old(self).pixels() / 2 - o]
                    == #[trigger] pixels@[old(self).pixels() / 2 + o],
            forall|k: int|
                0 <= k < pixels@.len() ==> (#[trigger] pixels@[k].color_index) < input@.len(),
            forall|n: int, o: int|
                #![trigger pixels@[old(self).pixels() / 2 + o], spec_band_start(input@, old(self).pixels() / 2, n)]
                0 <= n < input@.len() && spec_band_start(input@, old(self).pixels() / 2, n) <= o
                    && o < spec_band_start(input@, old(self).pixels() / 2, n + 1) && o < old(
                    self,
                ).pixels() / 2 ==> pixels@[old(self).pixels() / 2 + o].color_index == n,
            forall|k: int|
                #![trigger pixels@[k]]
                0 <= k < pixels@.len() ==> pixels@[k].red_mul == 1000 && pixels@[k].green_mul
                    == 1000 && pixels@[k].blue_mul == 1000 && pixels@[k].brightness <= 1000,
    {
        let _ = colors;
        let total_bands = input.len();
        let half = self.total_pixels / 2;
        proof {
            vstd::arithmetic::div_mod::lemma_fundamental_div_mod(self.total_pixels as int, 2);
            assert(2 * (half as int) <= self.total_pixels as int);
        }
        let ppb = half / total_bands;
        let ghost inp = input@;
        let mut pixels: Vec<PixelViz> = vec![PixelViz::default(); self.total_pixels];

        // total number of pixels the bands light from their own shares
        let mut overall: usize = 0;
        let mut b: usize = 0;
        proof {
            lemma_rest_pixels_bounds(inp, ppb as int, 0);
            assert(inp.len() * (ppb as int) <= half) by (nonlinear_arith)
                requires
                    ppb == (half as int) / (inp.len() as int),
                    inp.len() >= 1,
                    half >= 0,
            ;
        }
        while b < total_bands
            invariant
                inp == input@,
                b <= total_bands == inp.len(),
                overall + rest_pixels(inp, ppb as int, b as int) == rest_pixels(inp, ppb as int, 0),
                0 <= rest_pixels(inp, ppb as int, 0) <= half,
                0 <= rest_pixels(inp, ppb as int, b as int),
            decreases total_bands - b,
        {
            let band: u64 = if input[b] > 100 {
                100
            } else {
                input[b]
            };
            proof {
                assert((band as int) * (ppb as int) <= 100 * (ppb as int)) by (nonlinear_arith)
                    requires
                        0 <= band <= 100,
                        0 <= ppb,
                ;
                lemma_band_pixels_bounds(band as int, ppb as int);
                lemma_rest_pixels_bounds(inp, ppb as int, b as int + 1);
                assert(rest_pixels(inp, ppb as int, b as int) == band_pixels(band as int, ppb as int)
                    + rest_pixels(inp, ppb as int, b as int + 1));
            }
            let inten = (((band as u128) * (ppb as u128)) / 100) as usize;
            overall += inten;
            b += 1;
        }
        proof {
            assert(rest_pixels(inp, ppb as int, total_bands as int) == 0);
        }

        let mut unused: usize = half - overall;
        let ghost unused0 = unused as int;
        let mut pixel_index: usize = 0;
        let mut band_index: usize = 0;
        while band_index < total_bands
            invariant
                inp == input@,
                band_index <= total_bands == inp.len(),
                2 * (half as int) <= self.total_pixels as int,
                pixels@.len() == self.total_pixels,
                half == self.total_pixels as int / 2,
                ppb == (half as int) / (inp.len() as int),
                unused0 == half - rest_pixels(inp, ppb as int, 0),
                0 <= rest_pixels(inp, ppb as int, 0) <= half,
                (pixel_index as int, unused as int) == center_state(
                    inp,
                    ppb as int,
                    unused0,
                    band_index as int,
                ),
                pixel_index + unused + rest_pixels(inp, ppb as int, band_index as int) == half,
                0 <= rest_pixels(inp, ppb as int, band_index as int),
                forall|k: int|
                    0 <= k < pixels@.len() ==> (#[trigger] pixels@[k].red_mul) == 1000
                        && pixels@[k].green_mul == 1000 && pixels@[k].blue_mul == 1000
                        && pixels@[k].brightness == 1000,
                forall|k: int|
                    0 <= k < pixels@.len() ==> (#[trigger] pixels@[k].color_index) < inp.len(),
                forall|o: int|
                    1 <= o < half ==> pixels@[half - o] == #[trigger] pixels@[half + o],
                forall|o: int|
                    pixel_index <= o < half ==> (#[trigger] pixels@[half + o].color_index) == 0,
                forall|n2: int, o: int|
                    #![trigger pixels@[half as int + o], spec_band_start(inp, half as int, n2)]
                    0 <= n2 < band_index && spec_band_start(inp, half as int, n2) <= o && o
                        < spec_band_start(inp, half as int, n2 + 1) && o < half ==> pixels@[half
                        as int + o].color_index == n2,
            decreases total_bands - band_index,
        {
            let band: u64 = if input[band_index] > 100 {
                100
            } else {
                input[band_index]
            };
            proof {
                assert((band as int) * (ppb as int) <= 100 * (ppb as int) && (band as int) * (
                unused as int) <= 100 * (unused as int)) by (nonlinear_arith)
                    requires
                        0 <= band <= 100,
                        0 <= ppb,
                        0 <= unused,
                ;
                lemma_band_pixels_bounds(band as int, ppb as int);
                lemma_band_bonus_bounds(band as int, unused as int);
                lemma_rest_pixels_bounds(inp, ppb as int, band_index as int + 1);
                assert(rest_pixels(inp, ppb as int, band_index as int) == band_pixels(
                    band as int,
                    ppb as int,
                ) + rest_pixels(inp, ppb as int, band_index as int + 1));
            }
            let inten = (((band as u128) * (ppb as u128)) / 100) as usize;
            let add = ((2 * ((band as u128) * (unused as u128)) + 100) / 200) as usize;
            let amplified = inten + add;

            // color the next `amplified` pixels outward on both sides
            let mut i: usize = 0;
            while i < amplified
                invariant
                    inp == input@,
                    i <= amplified,
                    2 * (half as int) <= self.total_pixels as int,
                    pixel_index + amplified <= half,
                    band_index < inp.len(),
                    unused0 >= 0,
                    ppb == (half as int) / (inp.len() as int),
                    unused0 == half - rest_pixels(inp, ppb as int, 0),
                    (pixel_index as int) == spec_band_start(inp, half as int, band_index as int),
                    pixel_index as int + amplified == spec_band_start(
                        inp,
                        half as int,
                        band_index as int + 1,
                    ),
                    pixels@.len() == self.total_pixels,
                    half == self.total_pixels as int / 2,
                    forall|k: int|
                        0 <= k < pixels@.len() ==> (#[trigger] pixels@[k].red_mul) == 1000
                            && pixels@[k].green_mul == 1000 && pixels@[k].blue_mul == 1000
                            && pixels@[k].brightness == 1000,
                    forall|k: int|
                        0 <= k < pixels@.len() ==> (#[trigger] pixels@[k].color_index) < inp.len(),
                    forall|o: int|
                        1 <= o < half ==> pixels@[half - o] == #[trigger] pixels@[half + o],
                    forall|o: int|
                        pixel_index + i <= o < half ==> (#[trigger] pixels@[half + o].color_index)
                            == 0,
                    forall|o: int|
                        pixel_index <= o < pixel_index + i ==> (#[trigger] pixels@[half
                            + o].color_index) == band_index,
                    forall|n2: int, o: int|
                        #![trigger pixels@[half as int + o], spec_band_start(inp, half as int, n2)]
                        0 <= n2 < band_index && spec_band_start(inp, half as int, n2) <= o && o
                            < spec_band_start(inp, half as int, n2 + 1) && o < half ==> pixels@[
                            half as int + o].color_index == n2,
                decreases amplified - i,
            {
                proof {
                    assert forall|n2: int|
                        0 <= n2 < band_index implies (#[trigger] spec_band_start(
                        inp,
                        half as int,
                        n2 + 1,
                    )) <= pixel_index as int && 0 <= spec_band_start(inp, half as int, n2) by {
                        lemma_center_state_monotone(
                            inp,
                            ppb as int,
                            unused0,
                            n2 + 1,
                            band_index as int,
                        );
                        lemma_center_state_monotone(inp, ppb as int, unused0, 0, n2);
                    }
                }
                let hi = half + pixel_index + i;
                let lo = half - pixel_index - i;
                let mut p = pixels[hi];
                p.color_index = band_index;
                pixels.set(hi, p);
                let mut q = pixels[lo];
                q.color_index = band_index;
                pixels.set(lo, q);
                proof {
                    assert(pixels@[hi as int].red_mul == 1000);
                    assert(pixels@[hi as int].brightness == 1000);
                    assert(pixels@[lo as int].red_mul == 1000);
                    assert(pixels@[lo as int].brightness == 1000);
                    assert forall|k: int|
                        0 <= k < pixels@.len() implies (#[trigger] pixels@[k].red_mul) == 1000
                        && pixels@[k].green_mul == 1000 && pixels@[k].blue_mul == 1000
                        && pixels@[k].brightness == 1000 by {
                        // restate the bound so the update axioms instantiate
                        assert(0 <= k < pixels@.len());
                    }
                }
                i += 1;
            }
            unused -= add;
            pixel_index += amplified;
            band_index += 1;
        }

        // pixels beyond the lit region are turned off on both sides
        proof {
            assert forall|t: int| 0 <= t < half implies (#[trigger] pixels@[half + t].brightness)
                == 1000 by {
                assert(pixels@[half + t].red_mul == 1000);
            }
        }
        let ghost pre_off = pixels@;
        let ghost lit = pixel_index as int;
        let mut o: usize = pixel_index;
        while o < half
            invariant
                pixel_index <= o <= half,
                2 * (half as int) <= self.total_pixels as int,
                inp == input@,
                inp.len() >= 1,
                unused0 >= 0,
                ppb == (half as int) / (inp.len() as int),
                unused0 == half - rest_pixels(inp, ppb as int, 0),
                lit == pixel_index as int,
                pixels@.len() == self.total_pixels,
                half == self.total_pixels as int / 2,
                pixel_index <= half,
                forall|k: int|
                    0 <= k < pixels@.len() ==> (#[trigger] pixels@[k].red_mul) == 1000
                        && pixels@[k].green_mul == 1000 && pixels@[k].blue_mul == 1000
                        && pixels@[k].brightness <= 1000,
                forall|k: int|
                    0 <= k < pixels@.len() ==> (#[trigger] pixels@[k].color_index) < inp.len(),
                forall|t: int|
                    1 <= t < half ==> pixels@[half - t] == #[trigger] pixels@[half + t],
                forall|t: int|
                    0 <= t < half && !(pixel_index <= t < o) ==> (#[trigger] pixels@[half
                        + t].brightness) == 1000,
                forall|t: int|
                    pixel_index <= t < o ==> (#[trigger] pixels@[half + t].brightness) == 0,
                pixels@.len() == pre_off.len(),
                forall|k: int|
                    0 <= k < pixels@.len() ==> (#[trigger] pixels@[k]).color_index
                        == pre_off[k].color_index,
            decreases half - o,
        {
            let ghost before = pixels@;
            let hi = half + o;
            let lo = half - o;
            let mut p = pixels[hi];
            p.off();
            pixels.set(hi, p);
            let mut q = pixels[lo];
            q.off();
            pixels.set(lo, q);
            proof {
                assert forall|k: int|
                    0 <= k < pixels@.len() implies (#[trigger] pixels@[k].red_mul) == 1000
                    && pixels@[k].green_mul == 1000 && pixels@[k].blue_mul == 1000
                    && pixels@[k].brightness <= 1000 by {
                    assert(before[k].red_mul == 1000);
                    assert(before[k].brightness <= 1000);
                }
                assert forall|k: int|
                    0 <= k < pixels@.len() implies (#[trigger] pixels@[k]).color_index
                    == pre_off[k].color_index by {
                    assert(before[k].color_index == pre_off[k].color_index);
                }
            }
            o += 1;
        }
        proof {
            assert forall|n2: int, t: int|
                #![trigger pixels@[half as int + t], spec_band_start(inp, half as int, n2)]
                0 <= n2 < inp.len() && spec_band_start(inp, half as int, n2) <= t && t
                    < spec_band_start(inp, half as int, n2 + 1) && t < half implies pixels@[half
                as int + t].color_index == n2 by {
                lemma_center_state_monotone(inp, ppb as int, unused0, 0, n2);
                assert(0 <= half as int + t < pre_off.len());
                assert(pre_off[half as int + t].color_index == n2);
                assert(pixels@[half as int + t].color_index == pre_off[half as int
                    + t].color_index);
            }
            assert(lit == spec_center_lit(inp, half as int));
            assert forall|t: int|
                0 <= t < half implies (#[trigger] pixels@[half + t].brightness) == (if t < lit {
                1000u32
            } else {
                0u32
            }) by {
                // restate the bound so the off-loop invariant instantiates
                assert(0 <= t < half);
            }
            let half_s = old(self).pixels() / 2;
            assert(half_s == half as int);
            assert(inp == input@);
            assert(spec_center_lit(input@, half_s) == lit);
            assert(forall|o: int|
                0 <= o < half_s ==> (#[trigger] pixels@[half_s + o].brightness) == (if o < lit {
                    1000u32
                } else {
                    0u32
                }));
            assert(forall|o: int|
                1 <= o < half_s ==> pixels@[half_s - o] == #[trigger] pixels@[half_s + o]);
            assert(forall|k: int|
                0 <= k < pixels@.len() ==> (#[trigger] pixels@[k].color_index) < input@.len());
            assert forall|k: int| #![trigger pixels@[k]] 0 <= k < pixels@.len() implies pixels@[k].red_mul
                == 1000 && pixels@[k].green_mul == 1000 && pixels@[k].blue_mul == 1000
                && pixels@[k].brightness <= 1000 by {
                assert(pixels@[k].red_mul == 1000);
                assert(pixels@[k].brightness <= 1000);
            }
        }
        pixels
    }

    /// Sets the number of available pixels.
    pub fn set_total_pixels(&mut self, pixels: usize)
        ensures
            *final(self) == (CenterViz { total_pixels: pixels, ..*old(self) }),
            final(self).pixels() == pixels,
    {
        self.total_pixels = pixels;
    }

    /// The visualization settings as a key/value list.
    pub fn get_settings(&self) -> (settings: Vec<(String, String)>)
        ensures
            settings@.len() == 0,
    {
        self.config.to_map()
    }

    /// Replaces the configuration from a key/value list, keeping the
    /// display name.
    pub fn update_settings(&mut self, settings: Vec<(String, String)>)
        ensures
            final(self).pixels() == old(self).pixels(),
            final(self).config.pretty_name@ == old(self).config.pretty_name@,
    {
        let name = String::from_str(self.config.pretty_name.as_str());
        let new_settings = CenterVizConfig::from_map(name, settings);
        self.config = new_settings;
    }
}

} // verus!
