use vstd::prelude::*;

verus! {

// Multipliers and brightness are carried in per-mille units: 1000 stands
// for a factor of one. A pixel descriptor with brightness zero is off.

/// Visualization state of a single LED pixel: which palette color it
/// shows, per-channel multipliers, and a brightness multiplier, all in
/// per-mille units.
#[derive(Clone, Copy, Debug, PartialEq, Eq, Structural)]
pub struct PixelViz {
    /// Index of the theme color to use; wraps modulo the palette length.
    pub color_index: usize,
    /// Multiplier applied to red, per mille.
    pub red_mul: u32,
    /// Multiplier applied to green, per mille.
    pub green_mul: u32,
    /// Multiplier applied to blue, per mille.
    pub blue_mul: u32,
    /// Brightness multiplier, per mille.
    pub brightness: u32,
}

impl PixelViz {
    /// Turns off the pixel in the visualization.
    pub fn off(&mut self)
        ensures
            *final(self) == (PixelViz { brightness: 0, ..*old(self) }),
    {
        self.brightness = 0;
    }

    /// A pixel that is entirely off.
    pub fn black() -> (p: PixelViz)
        ensures
            p == spec_black(),
    {
        PixelViz { color_index: 0, red_mul: 0, green_mul: 0, blue_mul: 0, brightness: 0 }
    }
}

/// The descriptor an off pixel renders as: all channels and the
/// brightness at zero.
pub open spec fn spec_black() -> PixelViz {
    PixelViz { color_index: 0, red_mul: 0, green_mul: 0, blue_mul: 0, brightness: 0 }
}

/// The brightness a lit pixel of one band shows: the band's energy
/// share, in per mille.
pub open spec fn spec_band_brightness(input: Seq<u64>, band: int) -> int {
    vstd::math::min(input[band] as int, 100) * 10
}

impl Default for PixelViz {
    /// A fully lit pixel showing the first palette color unmodified.
    fn default() -> (p: PixelViz)
        ensures
            p == (PixelViz {
                color_index: 0,
                red_mul: 1000,
                green_mul: 1000,
                blue_mul: 1000,
                brightness: 1000,
            }),
    {
        PixelViz { color_index: 0, red_mul: 1000, green_mul: 1000, blue_mul: 1000, brightness: 1000 }
    }
}

/// Every stored pixel keeps its multipliers and brightness within one.
pub open spec fn stored_pixels_ok(pixels: Seq<Option<PixelViz>>) -> bool {
    forall|i: int|
        0 <= i < pixels.len() ==> ((#[trigger] pixels[i]) matches Some(p) ==> p.red_mul <= 1000
            && p.green_mul <= 1000 && p.blue_mul <= 1000 && p.brightness <= 1000)
}

/// Per-mille multiplier that moves a channel from the current color
/// toward the next color, proportionally to the elapsed share of the fade
/// duration: one at the fade's start, the full ratio `next / cur` at its
/// end, clamped to the representable range. A zero current channel fades
/// at the largest representable multiplier.
pub open spec fn spec_fade_mul(next: u8, cur: u8, elapsed: int, duration: int) -> int {
    if cur == 0 {
        255000
    } else {
        let ratio = (next * 1000) / (cur as int);
        if ratio >= 1000 {
            let v = 1000 + ((ratio - 1000) * elapsed) / duration;
            if v > 255000 {
                255000
            } else {
                v
            }
        } else {
            let down = ((1000 - ratio) * elapsed) / duration;
            if down >= 1000 {
                0
            } else {
                1000 - down
            }
        }
    }
}

/// Per-mille channel multiplier for a fade from the current color toward
/// the next one, at the given elapsed share of the fade duration.
pub fn fade_mul(next: u8, cur: u8, elapsed: i64, duration: i64) -> (m: u32)
    requires
        duration >= 1,
        elapsed >= 0,
    ensures
        m == spec_fade_mul(next, cur, elapsed as int, duration as int),
        m <= 255000,
{
    if cur == 0 {
        return 255000;
    }
    let ratio: u32 = (next as u32) * 1000 / (cur as u32);
    proof {
        vstd::arithmetic::div_mod::lemma_div_nonincreasing((next as int) * 1000, cur as int);
        assert(ratio <= 255000);
    }
    if ratio >= 1000 {
        proof {
            assert(0 <= ((ratio - 1000) as int) * (elapsed as int) <= i128::MAX)
                by (nonlinear_arith)
                requires
                    1000 <= ratio <= 255000,
                    0 <= elapsed <= i64::MAX,
            ;
        }
        let up: i128 = (((ratio - 1000) as i128) * (elapsed as i128)) / (duration as i128);
        proof {
            assert((((ratio - 1000) as int) * (elapsed as int)) / (duration as int) >= 0)
                by (nonlinear_arith)
                requires
                    ratio >= 1000,
                    elapsed >= 0,
                    duration >= 1,
            ;
        }
        if up > 254000 {
            255000
        } else {
            1000 + (up as u32)
        }
    } else {
        proof {
            assert(0 <= ((1000 - ratio) as int) * (elapsed as int) <= i128::MAX)
                by (nonlinear_arith)
                requires
                    0 <= ratio < 1000,
                    0 <= elapsed <= i64::MAX,
            ;
        }
        let down: i128 = (((1000 - ratio) as i128) * (elapsed as i128)) / (duration as i128);
        proof {
            assert((((1000 - ratio) as int) * (elapsed as int)) / (duration as int) >= 0)
                by (nonlinear_arith)
                requires
                    ratio < 1000,
                    elapsed >= 0,
                    duration >= 1,
            ;
        }
        if down >= 1000 {
            0
        } else {
            1000 - (down as u32)
        }
    }
}

/// Serializable description of a visualization: its display name, its
/// unique identifier, and its settings as a string key/value list.
#[derive(Clone, Debug)]
pub struct Visualization {
    /// Visualization name.
    pub pretty_name: String,
    /// Unique identifier of visualization.
    pub identifier: String,
    /// Settings of the visualization, as key/value pairs.
    pub settings: Option<Vec<(String, String)>>,
}

/// The closed family of interchangeable pattern generators, dispatched
/// by variant.
#[derive(Clone, Debug)]
pub enum VizKind {
    /// Rotating pattern.
    Rotating(crate::rotating_viz::RotatingViz),
    /// Random sparkle pattern.
    Sparkle(crate::sparkle_viz::SparkleViz),
    /// Static solid color.
    Solid(crate::solid_viz::SolidViz),
    /// Energy bars growing from the strip center.
    Center(crate::center_viz::CenterViz),
    /// Colors blending into each other.
    Blend(crate::blend_viz::BlendViz),
    /// Whole-strip beat brightness.
    SolidBeat(crate::solid_beat_viz::SolidBeatViz),
    /// Whole-strip beat brightness with dominant-band fades.
    FadingBeat(crate::fading_beat_viz::FadingBeatViz),
}

/// What one `update` call guarantees for every clock and generator
/// outcome: the relation between the generator's prior state, its new
/// state, the band input, the palette, and the produced frame, variant
/// by variant.
pub open spec fn update_post(
    pre: VizKind,
    post: VizKind,
    input: Seq<u64>,
    colors: Seq<crate::theme::Color>,
    frame: Seq<PixelViz>,
) -> bool {
    &&& post.wf()
    &&& post.pixel_count() == pre.pixel_count()
    &&& frame.len() == pre.pixel_count()
    &&& (forall|i: int|
        0 <= i < frame.len() ==> (#[trigger] frame[i]).red_mul <= 255000 && frame[i].green_mul
            <= 255000 && frame[i].blue_mul <= 255000 && frame[i].brightness <= 1000)
    &&& match (pre, post) {
        (VizKind::Solid(a), VizKind::Solid(b)) => {
            &&& b == a
            &&& (forall|i: int|
                0 <= i < frame.len() ==> (#[trigger] frame[i]) == (PixelViz {
                    color_index: 0,
                    red_mul: 1000,
                    green_mul: 1000,
                    blue_mul: 1000,
                    brightness: 1000,
                }))
        },
        (VizKind::Center(a), VizKind::Center(b)) => {
            &&& b == a
            &&& (forall|o: int|
                0 <= o < a.pixels() / 2 ==> (#[trigger] frame[a.pixels() / 2 + o].brightness) == (
                if o < crate::center_viz::spec_center_lit(input, a.pixels() / 2) {
                    1000u32
                } else {
                    0u32
                }))
            &&& (forall|o: int|
                1 <= o < a.pixels() / 2 ==> frame[a.pixels() / 2 - o] == #[trigger] frame[a.pixels()
                    / 2 + o])
            &&& (forall|k: int|
                0 <= k < frame.len() ==> (#[trigger] frame[k].color_index) < input.len())
        },
        (VizKind::Rotating(a), VizKind::Rotating(b)) => {
            &&& b.config == a.config
            &&& (forall|i: int|
                0 <= i < frame.len() ==> ((#[trigger] b.pixels@[i]) is None ==> frame[i]
                    == spec_black()))
            &&& (forall|i: int|
                0 <= i < frame.len() ==> ((#[trigger] b.pixels@[i]) matches Some(p) ==> frame[i]
                    == p))
            &&& (forall|i: int|
                0 <= i < frame.len() ==> ((#[trigger] b.pixels@[i]) matches Some(p) ==> (
                p.color_index < input.len() ==> p.brightness
                    == (spec_band_brightness(input, p.color_index as int) * (
                1000 - vstd::math::min((b.falloffs@[i] as int - 1) * a.config.falloff, 1000)))
                    / 1000)))
        },
        (VizKind::Sparkle(a), VizKind::Sparkle(b)) => {
            &&& b.config == a.config
            &&& (forall|i: int|
                0 <= i < frame.len() ==> ((#[trigger] b.pixels@[i]) is None ==> frame[i]
                    == spec_black()))
            &&& (forall|i: int|
                0 <= i < frame.len() ==> ((#[trigger] b.pixels@[i]) matches Some(p) ==> frame[i]
                    == p))
            &&& (forall|i: int|
                0 <= i < frame.len() ==> ((#[trigger] b.pixels@[i]) matches Some(p) ==> (
                match a.pixels@[i] {
                    Some(q) => p == q || p == crate::sparkle_viz::spec_decayed(
                        q,
                        a.config.falloff,
                    ),
                    None => p.color_index < input.len() && p
                        == crate::sparkle_viz::spec_decayed(
                        PixelViz {
                            color_index: p.color_index,
                            red_mul: 1000,
                            green_mul: 1000,
                            blue_mul: 1000,
                            brightness: spec_band_brightness(input, p.color_index as int) as u32,
                        },
                        a.config.falloff,
                    ),
                })))
        },
        (VizKind::Blend(a), VizKind::Blend(b)) => {
            &&& b.config == a.config
            &&& frame == b.pixels@
            &&& (forall|i: int|
                #![trigger b.pixels@[i]]
                0 <= i < a.pixels@.len() ==> b.pixels@[i] == crate::blend_viz::spec_blend_step(
                    a.pixels@[i],
                    colors,
                    b.pixels@[i].color_index,
                    b.target_colors@[i],
                    a.config.blend_factor,
                ))
        },
        (VizKind::SolidBeat(a), VizKind::SolidBeat(b)) => {
            &&& b.config == a.config
            &&& b.total_pixels == a.total_pixels
            &&& (forall|i: int| 0 <= i < frame.len() ==> #[trigger] frame[i] == frame[0])
            &&& (frame.len() > 0 ==> frame[0].brightness
                == crate::solid_beat_viz::spec_beat_brightness(input))
            &&& (!a.config.fade_colors ==> b == a)
        },
        (VizKind::FadingBeat(a), VizKind::FadingBeat(b)) => {
            &&& b.config == a.config
            &&& (forall|i: int| 0 <= i < frame.len() ==> #[trigger] frame[i] == frame[0])
            &&& (frame.len() > 0 ==> frame[0].brightness
                == crate::solid_beat_viz::spec_beat_brightness(input))
            &&& b.dominant_frequencies@ == seq![
                crate::fading_beat_viz::spec_dominant_band(input) as usize,
            ] + a.dominant_frequencies@.drop_last()
        },
        _ => false,
    }
}

impl VizKind {
    /// Internal per-pixel state is consistent.
    pub open spec fn wf(&self) -> bool {
        match self {
            VizKind::Rotating(v) => v.wf(),
            VizKind::Sparkle(v) => v.wf(),
            VizKind::Solid(v) => true,
            VizKind::Center(v) => true,
            VizKind::Blend(v) => v.wf(),
            VizKind::SolidBeat(v) => true,
            VizKind::FadingBeat(v) => v.wf(),
        }
    }

    /// Number of pixels driven per frame.
    pub open spec fn pixel_count(&self) -> int {
        match self {
            VizKind::Rotating(v) => v.pixel_count(),
            VizKind::Sparkle(v) => v.pixel_count(),
            VizKind::Solid(v) => v.pixels(),
            VizKind::Center(v) => v.pixels(),
            VizKind::Blend(v) => v.pixel_count(),
            VizKind::SolidBeat(v) => v.pixel_count(),
            VizKind::FadingBeat(v) => v.pixel_count(),
        }
    }

    /// The per-pixel state shape is fully determined by the pixel count:
    /// every internal per-pixel vector has exactly that length.
    pub open spec fn shaped(&self, n: int) -> bool {
        &&& self.wf()
        &&& self.pixel_count() == n
    }

    /// Unique identifier of the visualization.
    pub fn get_name(&self) -> (name: &'static str)
        ensures
            name@ == (match self {
                VizKind::Rotating(_) => "rotating_viz"@,
                VizKind::Sparkle(_) => "sparkle_viz"@,
                VizKind::Solid(_) => "solid_viz"@,
                VizKind::Center(_) => "center_viz"@,
                VizKind::Blend(_) => "blend_viz"@,
                VizKind::SolidBeat(_) => "solid_beat_viz"@,
                VizKind::FadingBeat(_) => "fading_beat_viz"@,
            }),
    {
        match self {
            VizKind::Rotating(v) => v.get_name(),
            VizKind::Sparkle(v) => v.get_name(),
            VizKind::Solid(v) => v.get_name(),
            VizKind::Center(v) => v.get_name(),
            VizKind::Blend(v) => v.get_name(),
            VizKind::SolidBeat(v) => v.get_name(),
            VizKind::FadingBeat(v) => v.get_name(),
        }
    }

    /// Descriptive visualization name.
    pub fn get_pretty_name(&self) -> (name: &str)
        ensures
            name@ == (match self {
                VizKind::Rotating(v) => v.config.pretty_name@,
                VizKind::Sparkle(v) => v.config.pretty_name@,
                VizKind::Solid(v) => v.config.pretty_name@,
                VizKind::Center(v) => v.config.pretty_name@,
                VizKind::Blend(v) => v.config.pretty_name@,
                VizKind::SolidBeat(v) => v.config.pretty_name@,
                VizKind::FadingBeat(v) => v.config.pretty_name@,
            }),
    {
        match self {
            VizKind::Rotating(v) => v.get_pretty_name(),
            VizKind::Sparkle(v) => v.get_pretty_name(),
            VizKind::Solid(v) => v.get_pretty_name(),
            VizKind::Center(v) => v.get_pretty_name(),
            VizKind::Blend(v) => v.get_pretty_name(),
            VizKind::SolidBeat(v) => v.get_pretty_name(),
            VizKind::FadingBeat(v) => v.get_pretty_name(),
        }
    }

    /// Updates the visualization state from one frame of band energies
    /// and returns one pixel descriptor per pixel, with channel
    /// multipliers within the fade range and brightness within one.
    pub fn update(&mut self, input: &Vec<u64>, colors: &Vec<crate::theme::Color>) -> (frame: Vec<
        PixelViz,
    >)
        requires
            old(self).wf(),
            1 <= input@.len() <= 0x100_0000,
            crate::transform::bounded_seq(input@),
            colors@.len() >= 1,
        ensures
            final(self).wf(),
            final(self).pixel_count() == old(self).pixel_count(),
            frame@.len() == old(self).pixel_count(),
            update_post(*old(self), *final(self), input@, colors@, frame@),
            forall|i: int|
                0 <= i < frame@.len() ==> (#[trigger] frame@[i]).red_mul <= 255000
                    && frame@[i].green_mul <= 255000 && frame@[i].blue_mul <= 255000
                    && frame@[i].brightness <= 1000,
    {
        match self {
            VizKind::Rotating(v) => v.update(input, colors),
            VizKind::Sparkle(v) => v.update(input, colors),
            VizKind::Solid(v) => v.update(input, colors),
            VizKind::Center(v) => v.update(input, colors),
            VizKind::Blend(v) => v.update(input, colors),
            VizKind::SolidBeat(v) => v.update(input, colors),
            VizKind::FadingBeat(v) => v.update(input, colors),
        }
    }

    /// Sets the number of available pixels; afterwards the per-pixel
    /// state shape is that of a freshly sized instance, whatever it was
    /// before.
    pub fn set_total_pixels(&mut self, pixels: usize)
        ensures
            final(self).shaped(pixels as int),
    {
        match self {
            VizKind::Rotating(v) => v.set_total_pixels(pixels),
            VizKind::Sparkle(v) => v.set_total_pixels(pixels),
            VizKind::Solid(v) => v.set_total_pixels(pixels),
            VizKind::Center(v) => v.set_total_pixels(pixels),
            VizKind::Blend(v) => v.set_total_pixels(pixels),
            VizKind::SolidBeat(v) => v.set_total_pixels(pixels),
            VizKind::FadingBeat(v) => v.set_total_pixels(pixels),
        }
    }

    /// Number of pixels driven per frame.
    pub fn total(&self) -> (n: usize)
        ensures
            n == self.pixel_count(),
    {
        match self {
            VizKind::Rotating(v) => v.total_pixels,
            VizKind::Sparkle(v) => v.total_pixels,
            VizKind::Solid(v) => v.total_pixels,
            VizKind::Center(v) => v.total_pixels,
            VizKind::Blend(v) => v.total_pixels,
            VizKind::SolidBeat(v) => v.total_pixels,
            VizKind::FadingBeat(v) => v.total_pixels,
        }
    }

    /// The active variant's settings as a key/value list.
    pub fn get_settings(&self) -> (settings: Vec<(String, String)>)
        ensures
            (match self {
                VizKind::Rotating(v) => crate::rotating_viz::spec_rotating_settings(
                    v.config,
                    settings@,
                ),
                VizKind::Sparkle(v) => crate::sparkle_viz::spec_sparkle_settings(
                    v.config,
                    settings@,
                ),
                VizKind::Solid(_) => settings@.len() == 0,
                VizKind::Center(_) => settings@.len() == 0,
                VizKind::Blend(v) => crate::blend_viz::spec_blend_settings(v.config, settings@),
                VizKind::SolidBeat(v) => crate::solid_beat_viz::spec_solid_beat_settings(
                    v.config,
                    settings@,
                ),
                VizKind::FadingBeat(v) => crate::fading_beat_viz::spec_fading_beat_settings(
                    v.config,
                    settings@,
                ),
            }),
    {
        match self {
            VizKind::Rotating(v) => v.get_settings(),
            VizKind::Sparkle(v) => v.get_settings(),
            VizKind::Solid(v) => v.get_settings(),
            VizKind::Center(v) => v.get_settings(),
            VizKind::Blend(v) => v.get_settings(),
            VizKind::SolidBeat(v) => v.get_settings(),
            VizKind::FadingBeat(v) => v.get_settings(),
        }
    }

    /// Replaces the configuration from a key/value list; generators with
    /// parsed tunables report an unparsable list by leaving everything
    /// unchanged and returning false.
    pub fn update_settings(&mut self, settings: &Vec<(String, String)>) -> (ok: bool)
        requires
            old(self).wf(),
        ensures
            final(self).wf(),
            final(self).pixel_count() == old(self).pixel_count(),
            !ok ==> *final(self) == *old(self),
    {
        match self {
            VizKind::Rotating(v) => v.update_settings(settings),
            VizKind::Sparkle(v) => v.update_settings(settings),
            VizKind::Solid(v) => {
                let s = clone_settings(settings);
                v.update_settings(s);
                true
            },
            VizKind::Center(v) => {
                let s = clone_settings(settings);
                v.update_settings(s);
                true
            },
            VizKind::Blend(v) => v.update_settings(settings),
            VizKind::SolidBeat(v) => v.update_settings(settings),
            VizKind::FadingBeat(v) => v.update_settings(settings),
        }
    }
}

/// Copies a settings list: the copy holds pairs with the same key and
/// value text.
pub fn clone_settings(settings: &Vec<(String, String)>) -> (copy: Vec<(String, String)>)
    ensures
        copy@.len() == settings@.len(),
        forall|i: int|
            0 <= i < settings@.len() ==> (#[trigger] copy@[i]).0@ == settings@[i].0@
                && copy@[i].1@ == settings@[i].1@,
{
    let mut copy: Vec<(String, String)> = Vec::new();
    let mut i: usize = 0;
    while i < settings.len()
        invariant
            i <= settings@.len(),
            copy@.len() == i,
            forall|t: int|
                0 <= t < i ==> (#[trigger] copy@[t]).0@ == settings@[t].0@ && copy@[t].1@
                    == settings@[t].1@,
        decreases settings@.len() - i,
    {
        let key = String::from_str(settings[i].0.as_str());
        let value = String::from_str(settings[i].1.as_str());
        copy.push((key, value));
        i += 1;
    }
    copy
}

/// Law: sizing a generator's pixel state is idempotent. Sizing any two
/// states of the same generator to the same pixel count - in particular
/// the same state, once and twice - leaves per-pixel state of the same
/// shape: `set_total_pixels` guarantees `shaped`, and `shaped` states of
/// one pixel count agree on every per-pixel vector length.
pub proof fn lemma_set_total_pixels_idempotent(first: VizKind, second: VizKind, n: int)
    requires
        first.shaped(n),
        second.shaped(n),
    ensures
        first.pixel_count() == second.pixel_count(),
        ({
            match (first, second) {
                (VizKind::Rotating(a), VizKind::Rotating(b)) => a.pixels@.len() == b.pixels@.len()
                    && a.falloffs@.len() == b.falloffs@.len(),
                (VizKind::Sparkle(a), VizKind::Sparkle(b)) => a.pixels@.len() == b.pixels@.len()
                    && a.falloffs@.len() == b.falloffs@.len(),
                (VizKind::Blend(a), VizKind::Blend(b)) => a.pixels@.len() == b.pixels@.len()
                    && a.elapsed_ms@.len() == b.elapsed_ms@.len() && a.target_colors@.len()
                    == b.target_colors@.len(),
                _ => true,
            }
        }),
{
}

} // verus!
