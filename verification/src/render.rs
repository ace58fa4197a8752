use vstd::prelude::*;

verus! {

use vstd::math::min;
use crate::theme::{Color, Theme};
use crate::viz::{PixelViz, VizKind};

/// A single LED of a strip: the concrete channel values pushed to the
/// hardware.
#[derive(Clone, Copy, Debug, PartialEq, Eq, Structural)]
pub struct Pixel {
    /// Red channel.
    pub red: u8,
    /// Green channel.
    pub green: u8,
    /// Blue channel.
    pub blue: u8,
}

impl Default for Pixel {
    /// A pixel that is turned off.
    fn default() -> (p: Pixel)
        ensures
            p == (Pixel { red: 0, green: 0, blue: 0 }),
    {
        Pixel { red: 0, green: 0, blue: 0 }
    }
}

/// A channel scaled by a per-mille factor, saturating at the channel
/// maximum.
pub open spec fn spec_channel_scaled(channel: int, factor: int) -> int {
    min(255, (channel * factor) / 1000)
}

/// The concrete pixel a descriptor resolves to against a palette: the
/// referenced palette color (indices wrap), each channel scaled by its
/// multiplier and then by the brightness.
pub open spec fn spec_resolved(descriptor: PixelViz, colors: Seq<Color>) -> Pixel {
    let color = colors[descriptor.color_index as int % colors.len() as int];
    Pixel {
        red: spec_channel_scaled(
            spec_channel_scaled(color.r as int, descriptor.red_mul as int),
            descriptor.brightness as int,
        ) as u8,
        green: spec_channel_scaled(
            spec_channel_scaled(color.g as int, descriptor.green_mul as int),
            descriptor.brightness as int,
        ) as u8,
        blue: spec_channel_scaled(
            spec_channel_scaled(color.b as int, descriptor.blue_mul as int),
            descriptor.brightness as int,
        ) as u8,
    }
}

/// A channel scaled by a per-mille factor, saturating at the channel
/// maximum.
fn channel_scaled(channel: u8, factor: u32) -> (scaled: u8)
    ensures
        scaled == spec_channel_scaled(channel as int, factor as int),
{
    proof {
        assert((channel as int) * (factor as int) <= 255 * 0xFFFF_FFFF) by (nonlinear_arith)
            requires
                channel <= 255,
                factor <= 0xFFFF_FFFF,
        ;
        vstd::arithmetic::div_mod::lemma_div_pos_is_pos(
            (channel as int) * (factor as int),
            1000,
        );
        assert((channel as int) * (factor as int) >= 0) by (nonlinear_arith)
            requires
                channel >= 0,
                factor >= 0,
        ;
    }
    let wide: u64 = ((channel as u64) * (factor as u64)) / 1000;
    if wide > 255 {
        255
    } else {
        wide as u8
    }
}

/// Resolves one frame of pixel descriptors against a palette.
pub fn render_frame(descriptors: &Vec<PixelViz>, colors: &Vec<Color>) -> (frame: Vec<Pixel>)
    requires
        colors@.len() >= 1,
    ensures
        frame@.len() == descriptors@.len(),
        forall|i: int|
            0 <= i < frame@.len() ==> #[trigger] frame@[i] == spec_resolved(
                descriptors@[i],
                colors@,
            ),
{
    let mut frame: Vec<Pixel> = Vec::new();
    let mut i: usize = 0;
    while i < descriptors.len()
        invariant
            i <= descriptors@.len(),
            colors@.len() >= 1,
            frame@.len() == i,
            forall|t: int|
                0 <= t < frame@.len() ==> #[trigger] frame@[t] == spec_resolved(
                    descriptors@[t],
                    colors@,
                ),
        decreases descriptors@.len() - i,
    {
        let d = descriptors[i];
        let color = colors[d.color_index % colors.len()];
        let pixel = Pixel {
            red: channel_scaled(channel_scaled(color.r, d.red_mul), d.brightness),
            green: channel_scaled(channel_scaled(color.g, d.green_mul), d.brightness),
            blue: channel_scaled(channel_scaled(color.b, d.blue_mul), d.brightness),
        };
        frame.push(pixel);
        i += 1;
    }
    frame
}

/// A frame of pixels that is entirely off.
pub fn blank_frame(total: usize) -> (frame: Vec<Pixel>)
    ensures
        frame@.len() == total,
        forall|i: int| 0 <= i < frame@.len() ==> #[trigger] frame@[i] == (Pixel {
            red: 0,
            green: 0,
            blue: 0,
        }),
{
    let p = Pixel { red: 0, green: 0, blue: 0 };
    vec![p; total]
}

/// Drives the visualization for both output channels: one pattern
/// generator per channel, the active palette, and a stop flag. One call
/// of `render_cycle` per render-loop iteration turns the two most recent
/// band vectors into two concrete pixel frames.
pub struct VizRunner {
    /// Left visualization.
    pub viz_left: VizKind,
    /// Right visualization.
    pub viz_right: VizKind,
    /// Whether the visualization output is stopped.
    pub stopped: bool,
    /// Theme the pixel descriptors are resolved against.
    pub theme: Theme,
}

impl VizRunner {
    /// Both generators hold consistent per-pixel state and the palette
    /// is nonempty.
    pub open spec fn wf(&self) -> bool {
        &&& self.viz_left.wf()
        &&& self.viz_right.wf()
        &&& self.theme.colors@.len() >= 1
    }

    /// Stops or resumes the visualization output.
    pub fn stop(&mut self, is_stopped: bool)
        ensures
            *final(self) == (VizRunner { stopped: is_stopped, ..*old(self) }),
    {
        self.stopped = is_stopped;
    }

    /// Whether the visualization output is stopped.
    pub fn is_stopped(&self) -> (stopped: bool)
        ensures
            stopped == self.stopped,
    {
        self.stopped
    }

    /// Replaces the active theme; the palette must stay usable.
    pub fn set_theme(&mut self, theme: Theme)
        requires
            theme.colors@.len() >= 1,
        ensures
            final(self).theme == theme,
            final(self).viz_left == old(self).viz_left,
            final(self).viz_right == old(self).viz_right,
            final(self).stopped == old(self).stopped,
            old(self).wf() ==> final(self).wf(),
    {
        self.theme = theme;
    }

    /// Replaces both channels' generators with copies of the provided
    /// one, sized to each channel's pixel count.
    pub fn set_visualization(&mut self, viz: VizKind, left_pixels: usize, right_pixels: usize)
        requires
            viz.wf(),
        ensures
            final(self).viz_left.shaped(left_pixels as int),
            final(self).viz_right.shaped(right_pixels as int),
            final(self).stopped == old(self).stopped,
            final(self).theme == old(self).theme,
    {
        let mut left_viz = viz.clone();
        let mut right_viz = viz;
        left_viz.set_total_pixels(left_pixels);
        right_viz.set_total_pixels(right_pixels);
        self.viz_left = left_viz;
        self.viz_right = right_viz;
    }

    /// One render-loop iteration: while running, update both generators
    /// with their channels' band vectors and resolve the descriptors
    /// against the palette, so that each frame is the `spec_resolved`
    /// image of a descriptor sequence the generator produced under its
    /// `update_post` relation; while stopped, both strips are blanked.
    pub fn render_cycle(&mut self, left_bands: &Vec<u64>, right_bands: &Vec<u64>) -> (frames: (
        Vec<Pixel>,
        Vec<Pixel>,
    ))
        requires
            old(self).wf(),
            1 <= left_bands@.len() <= 0x100_0000,
            1 <= right_bands@.len() <= 0x100_0000,
            crate::transform::bounded_seq(left_bands@),
            crate::transform::bounded_seq(right_bands@),
        ensures
            final(self).wf(),
            final(self).stopped == old(self).stopped,
            final(self).theme == old(self).theme,
            frames.0@.len() == old(self).viz_left.pixel_count(),
            frames.1@.len() == old(self).viz_right.pixel_count(),
            old(self).stopped ==> forall|i: int|
                0 <= i < frames.0@.len() ==> #[trigger] frames.0@[i] == (Pixel {
                    red: 0,
                    green: 0,
                    blue: 0,
                }),
            old(self).stopped ==> forall|i: int|
                0 <= i < frames.1@.len() ==> #[trigger] frames.1@[i] == (Pixel {
                    red: 0,
                    green: 0,
                    blue: 0,
                }),
            !old(self).stopped ==> final(self).viz_left.pixel_count() == old(
                self,
            ).viz_left.pixel_count() && final(self).viz_right.pixel_count() == old(
                self,
            ).viz_right.pixel_count(),
            !old(self).stopped ==> (exists|d: Seq<PixelViz>|
                #[trigger] crate::viz::update_post(
                    old(self).viz_left,
                    final(self).viz_left,
                    left_bands@,
                    old(self).theme.colors@,
                    d,
                ) && frames.0@.len() == d.len() && (forall|i: int|
                    0 <= i < d.len() ==> #[trigger] frames.0@[i] == spec_resolved(
                        d[i],
                        old(self).theme.colors@,
                    ))),
            !old(self).stopped ==> (exists|d: Seq<PixelViz>|
                #[trigger] crate::viz::update_post(
                    old(self).viz_right,
                    final(self).viz_right,
                    right_bands@,
                    old(self).theme.colors@,
                    d,
                ) && frames.1@.len() == d.len() && (forall|i: int|
                    0 <= i < d.len() ==> #[trigger] frames.1@[i] == spec_resolved(
                        d[i],
                        old(self).theme.colors@,
                    ))),
    {
        if !self.stopped {
            let left_descriptors = self.viz_left.update(left_bands, &self.theme.colors);
            let right_descriptors = self.viz_right.update(right_bands, &self.theme.colors);
            let left = render_frame(&left_descriptors, &self.theme.colors);
            let right = render_frame(&right_descriptors, &self.theme.colors);
            proof {
                assert(crate::viz::update_post(
                    old(self).viz_left,
                    self.viz_left,
                    left_bands@,
                    old(self).theme.colors@,
                    left_descriptors@,
                ));
                assert(crate::viz::update_post(
                    old(self).viz_right,
                    self.viz_right,
                    right_bands@,
                    old(self).theme.colors@,
                    right_descriptors@,
                ));
            }
            (left, right)
        } else {
            let left_total = self.viz_left.total();
            let right_total = self.viz_right.total();
            (blank_frame(left_total), blank_frame(right_total))
        }
    }
}

} // verus!
