use led_speakers::blend_viz::{BlendViz, BlendVizConfig};
use led_speakers::center_viz::{CenterViz, CenterVizConfig};
use led_speakers::fading_beat_viz::FadingBeatViz;
use led_speakers::render::{render_frame, VizRunner};
use led_speakers::rotating_viz::RotatingViz;
use led_speakers::solid_beat_viz::{SolidBeatViz, SolidBeatVizConfig};
use led_speakers::solid_viz::{SolidViz, SolidVizConfig};
use led_speakers::sparkle_viz::{SparkleViz, SparkleVizConfig};
use led_speakers::theme::{Color, Theme};
use led_speakers::viz::{PixelViz, VizKind};

fn palette() -> Vec<Color> {
    vec![
        Color { r: 255, g: 0, b: 0, a: 255 },
        Color { r: 0, g: 255, b: 0, a: 255 },
        Color { r: 0, g: 0, b: 255, a: 255 },
    ]
}

#[test]
fn solid_viz_lights_everything() {
    let config = SolidVizConfig { pretty_name: String::from("Solid") };
    let mut viz = SolidViz::new(config);
    viz.set_total_pixels(10);
    let frame = viz.update(&vec![50, 50], &palette());
    assert_eq!(frame.len(), 10);
    for pixel in frame {
        assert_eq!(pixel.color_index, 0);
        assert_eq!(pixel.brightness, 1000);
        assert_eq!(pixel.red_mul, 1000);
    }
    assert_eq!(viz.get_name(), "solid_viz");
    assert_eq!(viz.get_pretty_name(), "Solid");
}

#[test]
fn center_viz_full_energy_fills_and_mirrors() {
    let config = CenterVizConfig { pretty_name: String::from("Center") };
    let mut viz = CenterViz::new(config);
    viz.set_total_pixels(13);
    let frame = viz.update(&vec![100, 100, 100], &palette());
    assert_eq!(frame.len(), 13);
    // full energy lights every pixel of both half strips
    for o in 1..6 {
        assert_eq!(frame[6 + o], frame[6 - o]);
        assert_eq!(frame[6 + o].brightness, 1000);
    }
    // lower bands sit closer to the center
    assert_eq!(frame[6].color_index, 0);
    assert_eq!(frame[6 + 5].color_index, 2);
}

#[test]
fn center_viz_silence_turns_half_strips_off() {
    let config = CenterVizConfig { pretty_name: String::from("Center") };
    let mut viz = CenterViz::new(config);
    viz.set_total_pixels(12);
    let frame = viz.update(&vec![0, 0, 0], &palette());
    assert_eq!(frame.len(), 12);
    for o in 0..6 {
        assert_eq!(frame[6 + o as usize].brightness, 0);
    }
}

#[test]
fn sparkle_viz_frame_has_one_descriptor_per_pixel() {
    let config = SparkleVizConfig {
        pretty_name: String::from("Sparkle"),
        speed: 1000,
        falloff: 900,
        max_ignite: 4,
    };
    let mut viz = SparkleViz::new(config);
    viz.set_total_pixels(20);
    for _ in 0..5 {
        let frame = viz.update(&vec![100, 100], &palette());
        assert_eq!(frame.len(), 20);
        for pixel in frame {
            assert!(pixel.brightness <= 1000);
            assert!(pixel.red_mul <= 1000);
        }
    }
}

#[test]
fn rotating_viz_frame_has_one_descriptor_per_pixel() {
    let settings = vec![
        (String::from("speed"), String::from("120")),
        (String::from("falloff"), String::from("100")),
    ];
    let config =
        led_speakers::rotating_viz::RotatingVizConfig::from_map(String::from("Rotating"), &settings)
            .unwrap();
    assert_eq!(config.speed, 120);
    assert_eq!(config.falloff, 100);
    let mut viz = led_speakers::rotating_viz::RotatingViz::new(config);
    viz.set_total_pixels(16);
    for _ in 0..5 {
        let frame = viz.update(&vec![100, 50, 25], &palette());
        assert_eq!(frame.len(), 16);
        for pixel in frame {
            assert!(pixel.brightness <= 1000);
        }
    }
}

#[test]
fn blend_moves_channels_by_at_most_the_factor() {
    let from = Color { r: 10, g: 200, b: 100, a: 255 };
    let to = Color { r: 250, g: 190, b: 0, a: 255 };
    let blended = BlendViz::blend(&from, &to, 20);
    assert_eq!(blended.r, 30);
    assert_eq!(blended.g, 200);
    assert_eq!(blended.b, 80);
}

#[test]
fn blend_viz_frame_has_one_descriptor_per_pixel() {
    let config = BlendVizConfig {
        pretty_name: String::from("Blend"),
        spread: 3,
        blend_speed: 1,
        offset_weight: 40,
        blend_factor: 10,
    };
    let mut viz = BlendViz::new(config);
    viz.set_total_pixels(12);
    for _ in 0..4 {
        let frame = viz.update(&vec![100, 0], &palette());
        assert_eq!(frame.len(), 12);
        for pixel in frame {
            assert!(pixel.red_mul <= 255000);
            assert!(pixel.brightness <= 1000);
        }
    }
}

#[test]
fn solid_beat_brightness_follows_energy() {
    let config = SolidBeatVizConfig {
        pretty_name: String::from("SolidBeat"),
        fade_colors: false,
        fade_duration: 5,
    };
    let mut viz = SolidBeatViz::new(config);
    viz.set_total_pixels(7);
    let frame = viz.update(&vec![50, 50], &palette());
    assert_eq!(frame.len(), 7);
    // 100 of 200 possible energy lights the strip at half brightness
    assert_eq!(frame[0].brightness, 500);
    for pixel in &frame {
        assert_eq!(*pixel, frame[0]);
    }
}

#[test]
fn fading_beat_mode_picks_most_frequent() {
    let values = vec![2, 1, 2, 3, 2, 1];
    assert_eq!(FadingBeatViz::mode(&values), 2);
    let tie = vec![4, 7, 7, 4];
    assert_eq!(FadingBeatViz::mode(&tie), 4);
}

#[test]
fn set_total_pixels_twice_keeps_the_shape() {
    let config = SparkleVizConfig {
        pretty_name: String::from("Sparkle"),
        speed: 10,
        falloff: 900,
        max_ignite: 4,
    };
    let mut viz = VizKind::Sparkle(SparkleViz::new(config));
    viz.set_total_pixels(9);
    let first_frame = viz.update(&vec![0, 0], &palette());
    viz.set_total_pixels(9);
    let second_frame = viz.update(&vec![0, 0], &palette());
    assert_eq!(first_frame.len(), 9);
    assert_eq!(second_frame.len(), 9);
    assert_eq!(viz.total(), 9);
}

#[test]
fn render_frame_resolves_palette_and_brightness() {
    let descriptors = vec![
        PixelViz { color_index: 0, red_mul: 1000, green_mul: 1000, blue_mul: 1000, brightness: 500 },
        PixelViz { color_index: 4, red_mul: 1000, green_mul: 500, blue_mul: 1000, brightness: 1000 },
        PixelViz { color_index: 1, red_mul: 0, green_mul: 0, blue_mul: 0, brightness: 0 },
    ];
    let frame = render_frame(&descriptors, &palette());
    assert_eq!(frame.len(), 3);
    assert_eq!((frame[0].red, frame[0].green, frame[0].blue), (127, 0, 0));
    // index 4 wraps to palette entry 1
    assert_eq!((frame[1].red, frame[1].green, frame[1].blue), (0, 127, 0));
    assert_eq!((frame[2].red, frame[2].green, frame[2].blue), (0, 0, 0));
}

#[test]
fn runner_stopped_blanks_both_strips() {
    let solid = SolidViz::new(SolidVizConfig { pretty_name: String::from("Solid") });
    let mut left = VizKind::Solid(solid.clone());
    let mut right = VizKind::Solid(solid);
    left.set_total_pixels(4);
    right.set_total_pixels(6);
    let mut runner = VizRunner {
        viz_left: left,
        viz_right: right,
        stopped: false,
        theme: Theme { name: String::from("theme"), colors: palette() },
    };
    let (l, r) = runner.render_cycle(&vec![100, 100], &vec![100, 100]);
    assert_eq!(l.len(), 4);
    assert_eq!(r.len(), 6);
    assert_eq!((l[0].red, l[0].green, l[0].blue), (255, 0, 0));

    runner.stop(true);
    assert!(runner.is_stopped());
    let (l, r) = runner.render_cycle(&vec![100, 100], &vec![100, 100]);
    assert!(l.iter().all(|p| p.red == 0 && p.green == 0 && p.blue == 0));
    assert!(r.iter().all(|p| p.red == 0 && p.green == 0 && p.blue == 0));
}

#[test]
fn runner_set_visualization_sizes_both_sides() {
    let solid = SolidViz::new(SolidVizConfig { pretty_name: String::from("Solid") });
    let mut runner = VizRunner {
        viz_left: VizKind::Solid(solid.clone()),
        viz_right: VizKind::Solid(solid),
        stopped: false,
        theme: Theme { name: String::from("theme"), colors: palette() },
    };
    let center = CenterViz::new(CenterVizConfig { pretty_name: String::from("Center") });
    runner.set_visualization(VizKind::Center(center), 8, 10);
    assert_eq!(runner.viz_left.total(), 8);
    assert_eq!(runner.viz_right.total(), 10);
    assert_eq!(runner.viz_left.get_name(), "center_viz");
}

#[test]
fn fade_mul_moves_proportionally() {
    // halfway through the fade from 100 toward 200 the multiplier is 1.5
    assert_eq!(led_speakers::viz::fade_mul(200, 100, 1, 2), 1500);
    // fading toward a darker color dims the channel
    assert_eq!(led_speakers::viz::fade_mul(0, 200, 1, 2), 500);
    // a zero current channel fades at the representable maximum
    assert_eq!(led_speakers::viz::fade_mul(10, 0, 1, 2), 255000);
    // at the start of a fade nothing has changed yet
    assert_eq!(led_speakers::viz::fade_mul(77, 200, 0, 5), 1000);
}

#[test]
fn update_settings_failure_keeps_the_state() {
    let config = SparkleVizConfig {
        pretty_name: String::from("Sparkle"),
        speed: 10,
        falloff: 900,
        max_ignite: 4,
    };
    let mut viz = SparkleViz::new(config);
    viz.set_total_pixels(5);
    let bad = vec![(String::from("speed"), String::from("fast"))];
    assert!(!viz.update_settings(&bad));
    assert_eq!(viz.config.speed, 10);
    assert_eq!(viz.config.falloff, 900);
    let good = vec![(String::from("speed"), String::from("25"))];
    assert!(viz.update_settings(&good));
    assert_eq!(viz.config.speed, 25);
    // keys that are missing fall back to zero
    assert_eq!(viz.config.max_ignite, 0);
}

#[test]
fn rotating_rotate_one_permutes_by_one() {
    let config = led_speakers::rotating_viz::RotatingVizConfig {
        pretty_name: String::from("Rotating"),
        speed: 1,
        falloff: 100,
    };
    let mut viz = led_speakers::rotating_viz::RotatingViz::new(config);
    viz.set_total_pixels(3);
    viz.pixels[0] = Some(PixelViz { color_index: 7, ..PixelViz::black() });
    viz.falloffs[0] = 4;
    viz.rotate_one();
    assert!(viz.pixels[0].is_none());
    assert!(viz.pixels[1].is_none());
    assert_eq!(viz.pixels[2].unwrap().color_index, 7);
    assert_eq!(viz.falloffs, vec![0, 0, 4]);
}

#[test]
fn rotating_fade_dims_linearly_and_extinguishes_at_ten() {
    let config = led_speakers::rotating_viz::RotatingVizConfig {
        pretty_name: String::from("Rotating"),
        speed: 1,
        falloff: 100,
    };
    let mut viz = led_speakers::rotating_viz::RotatingViz::new(config);
    viz.set_total_pixels(3);
    let lit = PixelViz { color_index: 1, red_mul: 1000, green_mul: 1000, blue_mul: 1000, brightness: 1000 };
    viz.pixels[0] = Some(lit);
    viz.falloffs[0] = 2;
    viz.pixels[1] = Some(lit);
    viz.falloffs[1] = 9;
    let frame = viz.fade_and_frame();
    // counter 2 with falloff 100 per mille keeps 800 per mille
    assert_eq!(frame[0].brightness, 800);
    assert_eq!(viz.falloffs[0], 3);
    // counter grows to ten: the pixel extinguishes and renders black
    assert!(viz.pixels[1].is_none());
    assert_eq!(frame[1], PixelViz::black());
    // an off pixel renders black and stays off
    assert_eq!(frame[2], PixelViz::black());
    assert!(viz.pixels[2].is_none());
}

#[test]
fn rotating_chances_and_activation() {
    assert_eq!(RotatingViz::percent_chance(3, 5), 50);
    assert_eq!(RotatingViz::percent_chance(10, 0), 100);
    assert_eq!(RotatingViz::percent_chance(0, 9), 0);
    assert_eq!(RotatingViz::band_activation(50, 8), 4);
}

#[test]
fn sparkle_decay_is_geometric_with_cutoff() {
    let config = SparkleVizConfig {
        pretty_name: String::from("Sparkle"),
        speed: 10,
        falloff: 500,
        max_ignite: 4,
    };
    let mut viz = SparkleViz::new(config);
    viz.set_total_pixels(2);
    viz.ignite_band(1, 40, &vec![0]);
    assert_eq!(viz.pixels[0].unwrap().brightness, 400);
    assert_eq!(viz.falloffs[0], 1);
    assert!(viz.pixels[1].is_none());
    let frame = viz.decay_and_frame();
    // 400 per mille halves to 200
    assert_eq!(frame[0].brightness, 200);
    assert_eq!(viz.pixels[0].unwrap().brightness, 200);
    assert_eq!(frame[1], PixelViz::black());
    let frame = viz.decay_and_frame();
    // 100 per mille is at the cutoff: the pixel turns off and renders black
    assert_eq!(frame[0], PixelViz::black());
    assert!(viz.pixels[0].is_none());
    assert_eq!(SparkleViz::ignition_quota(50, 8), 4);
}

#[test]
fn blend_pick_band_follows_the_shares() {
    let amounts = vec![50, 30, 20];
    assert_eq!(BlendViz::pick_band(&amounts, 0), 0);
    assert_eq!(BlendViz::pick_band(&amounts, 49), 0);
    assert_eq!(BlendViz::pick_band(&amounts, 50), 0);
    assert_eq!(BlendViz::pick_band(&amounts, 51), 1);
    assert_eq!(BlendViz::pick_band(&amounts, 99), 2);
}

#[test]
fn blend_update_preserves_brightness() {
    let config = BlendVizConfig {
        pretty_name: String::from("Blend"),
        spread: 3,
        blend_speed: 60,
        offset_weight: 40,
        blend_factor: 10,
    };
    let mut viz = BlendViz::new(config);
    viz.set_total_pixels(6);
    let before: Vec<u32> = viz.pixels.iter().map(|p| p.brightness).collect();
    let frame = viz.update(&vec![100, 0], &palette());
    let after: Vec<u32> = viz.pixels.iter().map(|p| p.brightness).collect();
    assert_eq!(before, after);
    // the frame is exactly the stored pixel state
    assert_eq!(frame, viz.pixels);
}

#[test]
fn rotating_update_settings_success_replaces_and_resets() {
    let config = led_speakers::rotating_viz::RotatingVizConfig {
        pretty_name: String::from("Rotating"),
        speed: 1,
        falloff: 100,
    };
    let mut viz = led_speakers::rotating_viz::RotatingViz::new(config);
    viz.set_total_pixels(4);
    viz.pixels[2] = Some(PixelViz::black());
    viz.falloffs[2] = 5;
    let good = vec![
        (String::from("speed"), String::from("9")),
        (String::from("falloff"), String::from("333")),
    ];
    assert!(viz.update_settings(&good));
    assert_eq!(viz.config.speed, 9);
    assert_eq!(viz.config.falloff, 333);
    assert_eq!(viz.config.pretty_name, "Rotating");
    assert!(viz.pixels.iter().all(|p| p.is_none()));
    assert!(viz.falloffs.iter().all(|f| *f == 0));
}

#[test]
fn solid_beat_without_fading_keeps_its_state() {
    let config = SolidBeatVizConfig {
        pretty_name: String::from("SolidBeat"),
        fade_colors: false,
        fade_duration: 5,
    };
    let mut viz = SolidBeatViz::new(config);
    viz.set_total_pixels(3);
    viz.color_index = 2;
    let before_elapsed = viz.elapsed_ms;
    let frame = viz.update(&vec![100, 100], &palette());
    assert_eq!(viz.color_index, 2);
    assert_eq!(viz.elapsed_ms, before_elapsed);
    assert_eq!(frame[0].color_index, 2);
    assert_eq!(frame[0].red_mul, 1000);
    assert_eq!(frame[0].brightness, 1000);
}

#[test]
fn fading_beat_records_the_dominant_band_in_front() {
    let config = led_speakers::fading_beat_viz::FadingBeatVizConfig {
        pretty_name: String::from("FadingBeat"),
        fade_duration: 5,
        fade_threshold: 60,
        frequency_magnitude_buffer_size: 3,
    };
    let mut viz = led_speakers::fading_beat_viz::FadingBeatViz::new(config);
    viz.set_total_pixels(2);
    assert_eq!(viz.dominant_frequencies, vec![0, 0, 0]);
    viz.update(&vec![5, 80, 30], &palette());
    assert_eq!(viz.dominant_frequencies, vec![1, 0, 0]);
    viz.update(&vec![90, 10, 90], &palette());
    // the first index of the largest energy wins
    assert_eq!(viz.dominant_frequencies, vec![0, 1, 0]);
}
