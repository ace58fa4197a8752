use vstd::prelude::*;

verus! {

// Visualization and transformer settings travel as string key/value
// lists. The helpers here give the lookup and the number parsing and
// rendering exact integer semantics.

/// Decimal digit character of a value below ten.
pub open spec fn spec_digit_char(d: int) -> char {
    if d == 0 {
        '0'
    } else if d == 1 {
        '1'
    } else if d == 2 {
        '2'
    } else if d == 3 {
        '3'
    } else if d == 4 {
        '4'
    } else if d == 5 {
        '5'
    } else if d == 6 {
        '6'
    } else if d == 7 {
        '7'
    } else if d == 8 {
        '8'
    } else {
        '9'
    }
}

/// Whether every character is a decimal digit.
pub open spec fn all_digits(s: Seq<char>) -> bool {
    forall|i: int| 0 <= i < s.len() ==> 48 <= (#[trigger] s[i]) as u32 <= 57
}

/// Value of a decimal digit string, most significant digit first.
pub open spec fn str_to_nat(s: Seq<char>) -> int
    decreases s.len(),
{
    if s.len() == 0 {
        0
    } else {
        str_to_nat(s.drop_last()) * 10 + (s.last() as u32 - 48)
    }
}

/// What parsing a decimal string yields: its value, provided the string
/// is nonempty, all digits, and fits in 64 bits.
pub open spec fn spec_parse_u64(s: Seq<char>) -> Option<u64> {
    if s.len() >= 1 && all_digits(s) && str_to_nat(s) <= u64::MAX {
        Some(str_to_nat(s) as u64)
    } else {
        None
    }
}

/// Decimal digit string of a nonnegative value.
pub open spec fn spec_digits(n: int) -> Seq<char>
    decreases n,
{
    if n < 10 {
        seq![spec_digit_char(n)]
    } else {
        spec_digits(n / 10) + seq![spec_digit_char(n % 10)]
    }
}

proof fn lemma_str_to_nat_nonneg(s: Seq<char>)
    requires
        all_digits(s),
    ensures
        str_to_nat(s) >= 0,
    decreases s.len(),
{
    if s.len() > 0 {
        assert(all_digits(s.drop_last()));
        lemma_str_to_nat_nonneg(s.drop_last());
    }
}

proof fn lemma_str_to_nat_prefix(s: Seq<char>, j: int)
    requires
        all_digits(s),
        0 <= j <= s.len(),
    ensures
        str_to_nat(s) >= str_to_nat(s.take(j)),
    decreases s.len() - j,
{
    if j == s.len() {
        assert(s.take(j) =~= s);
    } else {
        lemma_str_to_nat_prefix(s, j + 1);
        assert(s.take(j + 1).drop_last() =~= s.take(j));
        assert(all_digits(s.take(j)));
        lemma_str_to_nat_nonneg(s.take(j));
        assert(str_to_nat(s.take(j + 1)) == str_to_nat(s.take(j)) * 10 + (s[j] as u32 - 48));
        assert(str_to_nat(s.take(j)) * 10 >= str_to_nat(s.take(j))) by (nonlinear_arith)
            requires
                str_to_nat(s.take(j)) >= 0,
        ;
    }
}

/// Parses a decimal string: the value exactly when the string is
/// nonempty, all digits, and fits in 64 bits; `None` otherwise.
pub fn parse_u64(s: &str) -> (value: Option<u64>)
    ensures
        value == spec_parse_u64(s@),
{
    let n = s.unicode_len();
    if n == 0 {
        return None;
    }
    let mut acc: u64 = 0;
    let mut i: usize = 0;
    while i < n
        invariant
            0 <= i <= n == s@.len(),
            forall|t: int| 0 <= t < i ==> 48 <= (#[trigger] s@[t]) as u32 <= 57,
            acc == str_to_nat(s@.take(i as int)),
        decreases n - i,
    {
        let c = s.get_char(i);
        let code = c as u32;
        if code < 48 || code > 57 {
            return None;
        }
        let d = (code - 48) as u64;
        proof {
            assert(s@.take(i + 1).drop_last() =~= s@.take(i as int));
            assert(all_digits(s@.take(i as int)));
            lemma_str_to_nat_nonneg(s@.take(i as int));
        }
        if acc > (u64::MAX - d) / 10 {
            // the value no longer fits in 64 bits
            proof {
                let m = (u64::MAX - d) as int;
                vstd::arithmetic::div_mod::lemma_fundamental_div_mod(m, 10);
                assert((acc as int) * 10 + d > u64::MAX) by (nonlinear_arith)
                    requires
                        acc > m / 10,
                        m == 10 * (m / 10) + m % 10,
                        0 <= m % 10 < 10,
                        m == u64::MAX - d,
                ;
                if all_digits(s@) {
                    lemma_str_to_nat_prefix(s@, i + 1);
                }
            }
            return None;
        }
        proof {
            let m = (u64::MAX - d) as int;
            vstd::arithmetic::div_mod::lemma_fundamental_div_mod(m, 10);
            assert((acc as int) * 10 <= m) by (nonlinear_arith)
                requires
                    0 <= acc <= m / 10,
                    m == 10 * (m / 10) + m % 10,
                    0 <= m % 10 < 10,
            ;
        }
        acc = acc * 10 + d;
        i += 1;
    }
    proof {
        assert(s@.take(n as int) =~= s@);
    }
    Some(acc)
}

/// The decimal digit string of a single digit.
fn digit_str(d: u64) -> (s: &'static str)
    requires
        d < 10,
    ensures
        s@ =~= seq![spec_digit_char(d as int)],
{
    proof {
        reveal_strlit("0");
        reveal_strlit("1");
        reveal_strlit("2");
        reveal_strlit("3");
        reveal_strlit("4");
        reveal_strlit("5");
        reveal_strlit("6");
        reveal_strlit("7");
        reveal_strlit("8");
        reveal_strlit("9");
    }
    if d == 0 {
        "0"
    } else if d == 1 {
        "1"
    } else if d == 2 {
        "2"
    } else if d == 3 {
        "3"
    } else if d == 4 {
        "4"
    } else if d == 5 {
        "5"
    } else if d == 6 {
        "6"
    } else if d == 7 {
        "7"
    } else if d == 8 {
        "8"
    } else {
        "9"
    }
}

fn push_digits(out: &mut String, n: u64)
    ensures
        final(out)@ == old(out)@ + spec_digits(n as int),
    decreases n,
{
    if n >= 10 {
        push_digits(out, n / 10);
    }
    let d = digit_str(n % 10);
    out.append(d);
    proof {
        if n >= 10 {
            assert(old(out)@ + spec_digits((n / 10) as int) + d@ =~= old(out)@ + (spec_digits(
                (n / 10) as int,
            ) + seq![spec_digit_char((n % 10) as int)]));
        }
    }
}

/// Renders a value as its decimal digit string.
pub fn u64_to_string(n: u64) -> (s: String)
    ensures
        s@ == spec_digits(n as int),
{
    let mut s = String::new();
    push_digits(&mut s, n);
    proof {
        assert(Seq::<char>::empty() + spec_digits(n as int) =~= spec_digits(n as int));
    }
    s
}

/// First value stored under the key, if any.
pub open spec fn spec_lookup(s: Seq<(String, String)>, key: Seq<char>) -> Option<Seq<char>>
    decreases s.len(),
{
    if s.len() == 0 {
        None
    } else if s[0].0@ == key {
        Some(s[0].1@)
    } else {
        spec_lookup(s.drop_first(), key)
    }
}

/// Looks a key up in a settings list, returning the first value stored
/// under it.
pub fn map_get<'a>(settings: &'a Vec<(String, String)>, key: &str) -> (value: Option<&'a String>)
    ensures
        match value {
            Some(v) => spec_lookup(settings@, key@) == Some(v@),
            None => spec_lookup(settings@, key@) is None,
        },
{
    let key_string = String::from_str(key);
    let mut i: usize = 0;
    proof {
        assert(settings@.skip(0) =~= settings@);
    }
    while i < settings.len()
        invariant
            i <= settings@.len(),
            key_string@ == key@,
            spec_lookup(settings@, key@) == spec_lookup(settings@.skip(i as int), key@),
        decreases settings@.len() - i,
    {
        proof {
            assert(settings@.skip(i as int).drop_first() =~= settings@.skip(i + 1));
            assert(settings@.skip(i as int)[0] == settings@[i as int]);
        }
        if settings[i].0.eq(&key_string) {
            return Some(&settings[i].1);
        }
        i += 1;
    }
    proof {
        assert(settings@.skip(settings@.len() as int) =~= Seq::<(String, String)>::empty());
    }
    None
}

/// What reading an integer setting yields: zero when the key is
/// missing, its parsed value when it parses, and nothing when it does
/// not.
pub open spec fn spec_map_u64(settings: Seq<(String, String)>, key: Seq<char>) -> Option<u64> {
    match spec_lookup(settings, key) {
        Some(v) => spec_parse_u64(v),
        None => Some(0u64),
    }
}

/// What reading a boolean setting yields: the fallback when the key is
/// missing, the value for the exact strings `true` and `false`, nothing
/// otherwise.
pub open spec fn spec_map_bool(
    settings: Seq<(String, String)>,
    key: Seq<char>,
    fallback: bool,
) -> Option<bool> {
    match spec_lookup(settings, key) {
        Some(v) => if v == "true"@ {
            Some(true)
        } else if v == "false"@ {
            Some(false)
        } else {
            None
        },
        None => Some(fallback),
    }
}

/// Reads an integer setting: zero when the key is missing, its parsed
/// value when it parses, and nothing when it does not.
pub fn map_get_u64(settings: &Vec<(String, String)>, key: &str) -> (value: Option<u64>)
    ensures
        value == spec_map_u64(settings@, key@),
{
    match map_get(settings, key) {
        Some(v) => parse_u64(v.as_str()),
        None => Some(0),
    }
}

/// Reads a boolean setting: the fallback when the key is missing, the
/// value for the exact strings `true` and `false`, nothing otherwise.
pub fn map_get_bool(settings: &Vec<(String, String)>, key: &str, fallback: bool) -> (value: Option<
    bool,
>)
    ensures
        value == spec_map_bool(settings@, key@, fallback),
{
    match map_get(settings, key) {
        Some(v) => {
            let t = String::from_str("true");
            let f = String::from_str("false");
            if v.eq(&t) {
                Some(true)
            } else if v.eq(&f) {
                Some(false)
            } else {
                None
            }
        },
        None => Some(fallback),
    }
}

/// Settings for a single output channel.
#[derive(Clone, Debug)]
pub struct Output {
    /// SPI device the output is driven over.
    pub spi: String,
    /// Total available LEDs for the output.
    pub total_leds: i32,
}

/// Settings for the left and right outputs.
#[derive(Clone, Debug)]
pub struct OutputSettings {
    /// Left output settings.
    pub left: Output,
    /// Right output settings.
    pub right: Output,
}

/// Configuration of the spectrum transformer.
#[derive(Clone, Debug)]
pub struct TransformerSettings {
    /// Audio sink name.
    pub sink: String,
    /// Number of FFT input samples per channel.
    pub fft_len: usize,
    /// Number of frequency bands.
    pub total_bands: usize,
    /// Lower cutoff frequency in Hz.
    pub lower_cutoff: u64,
    /// Upper cutoff frequency in Hz.
    pub upper_cutoff: u64,
    /// Monstercat smoothing divisor.
    pub monstercat: u64,
    /// Falloff decay subtrahend.
    pub decay: u64,
    /// Audio byte buffer size.
    pub buffer_size: usize,
}

impl TransformerSettings {
    /// The configuration ranges the spectrum transformer accepts.
    pub open spec fn valid(&self) -> bool {
        &&& 1 <= self.total_bands <= 0x100_0000
        &&& 1 <= self.fft_len <= 0x100_0000
        &&& 1 <= self.lower_cutoff < self.upper_cutoff <= 0x1_0000_0000
        &&& self.monstercat >= 1
    }

    /// Checks the configuration ranges the spectrum transformer accepts.
    pub fn is_valid(&self) -> (ok: bool)
        ensures
            ok == self.valid(),
    {
        1 <= self.total_bands && self.total_bands <= 0x100_0000 && 1 <= self.fft_len && self.fft_len
            <= 0x100_0000 && 1 <= self.lower_cutoff && self.lower_cutoff < self.upper_cutoff
            && self.upper_cutoff <= 0x1_0000_0000 && self.monstercat >= 1
    }

    /// Renders the transformer settings as a key/value list.
    pub fn to_map(&self) -> (settings: Vec<(String, String)>)
        ensures
            settings@.len() == 8,
            settings@[0].0@ == "sink"@ && settings@[0].1@ == self.sink@,
            settings@[1].0@ == "fft_len"@ && settings@[1].1@ == spec_digits(self.fft_len as int),
            settings@[2].0@ == "total_bands"@ && settings@[2].1@ == spec_digits(
                self.total_bands as int,
            ),
            settings@[3].0@ == "lower_cutoff"@ && settings@[3].1@ == spec_digits(
                self.lower_cutoff as int,
            ),
            settings@[4].0@ == "upper_cutoff"@ && settings@[4].1@ == spec_digits(
                self.upper_cutoff as int,
            ),
            settings@[5].0@ == "monstercat"@ && settings@[5].1@ == spec_digits(
                self.monstercat as int,
            ),
            settings@[6].0@ == "decay"@ && settings@[6].1@ == spec_digits(self.decay as int),
            settings@[7].0@ == "buffer_size"@ && settings@[7].1@ == spec_digits(
                self.buffer_size as int,
            ),
    {
        let mut settings: Vec<(String, String)> = Vec::new();
        settings.push((String::from_str("sink"), String::from_str(self.sink.as_str())));
        settings.push((String::from_str("fft_len"), u64_to_string(self.fft_len as u64)));
        settings.push((String::from_str("total_bands"), u64_to_string(self.total_bands as u64)));
        settings.push((String::from_str("lower_cutoff"), u64_to_string(self.lower_cutoff)));
        settings.push((String::from_str("upper_cutoff"), u64_to_string(self.upper_cutoff)));
        settings.push((String::from_str("monstercat"), u64_to_string(self.monstercat)));
        settings.push((String::from_str("decay"), u64_to_string(self.decay)));
        settings.push((String::from_str("buffer_size"), u64_to_string(self.buffer_size as u64)));
        settings
    }

    /// Reads transformer settings from a key/value list: missing keys
    /// fall back to zero or the empty string, an unparsable or
    /// unrepresentable value fails the request.
    pub fn from_map(settings: &Vec<(String, String)>) -> (parsed: Option<TransformerSettings>)
        ensures
            (match (
                spec_map_u64(settings@, "fft_len"@),
                spec_map_u64(settings@, "total_bands"@),
                spec_map_u64(settings@, "lower_cutoff"@),
                spec_map_u64(settings@, "upper_cutoff"@),
                spec_map_u64(settings@, "monstercat"@),
                spec_map_u64(settings@, "decay"@),
                spec_map_u64(settings@, "buffer_size"@),
            ) {
                (Some(f), Some(t), Some(lo), Some(up), Some(m), Some(d), Some(b)) => if f
                    <= usize::MAX && t <= usize::MAX && b <= usize::MAX {
                    parsed matches Some(s) && s.fft_len == f && s.total_bands == t
                        && s.lower_cutoff == lo && s.upper_cutoff == up && s.monstercat == m
                        && s.decay == d && s.buffer_size == b && s.sink@ == (
                    match spec_lookup(settings@, "sink"@) {
                        Some(v) => v,
                        None => Seq::<char>::empty(),
                    })
                } else {
                    parsed is None
                },
                _ => parsed is None,
            }),
    {
        let sink = match map_get(settings, "sink") {
            Some(v) => String::from_str(v.as_str()),
            None => String::new(),
        };
        let fft_len = map_get_u64(settings, "fft_len");
        let total_bands = map_get_u64(settings, "total_bands");
        let lower_cutoff = map_get_u64(settings, "lower_cutoff");
        let upper_cutoff = map_get_u64(settings, "upper_cutoff");
        let monstercat = map_get_u64(settings, "monstercat");
        let decay = map_get_u64(settings, "decay");
        let buffer_size = map_get_u64(settings, "buffer_size");
        match (fft_len, total_bands, lower_cutoff, upper_cutoff, monstercat, decay, buffer_size) {
            (
                Some(fft_len),
                Some(total_bands),
                Some(lower_cutoff),
                Some(upper_cutoff),
                Some(monstercat),
                Some(decay),
                Some(buffer_size),
            ) => {
                if fft_len <= usize::MAX as u64 && total_bands <= usize::MAX as u64 && buffer_size
                    <= usize::MAX as u64 {
                    Some(
                        TransformerSettings {
                            sink,
                            fft_len: fft_len as usize,
                            total_bands: total_bands as usize,
                            lower_cutoff,
                            upper_cutoff,
                            monstercat,
                            decay,
                            buffer_size: buffer_size as usize,
                        },
                    )
                } else {
                    None
                }
            },
            _ => None,
        }
    }
}

/// Representation of the application configuration.
#[derive(Clone, Debug)]
pub struct Settings {
    /// Available visualizations.
    pub visualizations: Vec<crate::viz::VizKind>,
    /// Output settings.
    pub output: OutputSettings,
    /// Available themes.
    pub themes: Vec<crate::theme::Theme>,
    /// Spectrum transformer configuration.
    pub transformer: TransformerSettings,
    /// Server host IP.
    pub server_host: String,
    /// Server host port.
    pub server_port: String,
}

impl Settings {
    /// Updates the transformer related settings.
    pub fn apply_transformer_settings(&mut self, transformer_settings: TransformerSettings)
        ensures
            final(self).transformer == transformer_settings,
            final(self).visualizations == old(self).visualizations,
            final(self).output == old(self).output,
            final(self).themes == old(self).themes,
            final(self).server_host == old(self).server_host,
            final(self).server_port == old(self).server_port,
    {
        self.transformer = transformer_settings;
    }
}

/// Builds a pattern generator from its identifier, display name, and
/// settings list: for each known identifier, the matching variant with
/// its parsed configuration exactly when the settings list parses;
/// nothing for an unknown identifier or an unparsable list.
pub fn make_visualization(
    identifier: &str,
    pretty_name: String,
    settings: &Vec<(String, String)>,
) -> (viz: Option<crate::viz::VizKind>)
    ensures
        (viz matches Some(v) ==> v.wf() && v.pixel_count() == 0),
        identifier@ == "rotating_viz"@ ==> (match viz {
            Some(crate::viz::VizKind::Rotating(v)) => Some(v.config)
                == crate::rotating_viz::spec_rotating_config(pretty_name, settings@),
            Some(_) => false,
            None => crate::rotating_viz::spec_rotating_config(pretty_name, settings@) is None,
        }),
        identifier@ == "sparkle_viz"@ ==> (match viz {
            Some(crate::viz::VizKind::Sparkle(v)) => Some(v.config)
                == crate::sparkle_viz::spec_sparkle_config(pretty_name, settings@),
            Some(_) => false,
            None => crate::sparkle_viz::spec_sparkle_config(pretty_name, settings@) is None,
        }),
        identifier@ == "solid_viz"@ ==> (match viz {
            Some(crate::viz::VizKind::Solid(v)) => v.config.pretty_name@ == pretty_name@,
            _ => false,
        }),
        identifier@ == "center_viz"@ ==> (match viz {
            Some(crate::viz::VizKind::Center(v)) => v.config.pretty_name@ == pretty_name@,
            _ => false,
        }),
        identifier@ == "blend_viz"@ ==> (match viz {
            Some(crate::viz::VizKind::Blend(v)) => Some(v.config)
                == crate::blend_viz::spec_blend_config(pretty_name, settings@),
            Some(_) => false,
            None => crate::blend_viz::spec_blend_config(pretty_name, settings@) is None,
        }),
        identifier@ == "solid_beat_viz"@ ==> (match viz {
            Some(crate::viz::VizKind::SolidBeat(v)) => Some(v.config)
                == crate::solid_beat_viz::spec_solid_beat_config(pretty_name, settings@),
            Some(_) => false,
            None => crate::solid_beat_viz::spec_solid_beat_config(pretty_name, settings@)
                is None,
        }),
        identifier@ == "fading_beat_viz"@ ==> (match viz {
            Some(crate::viz::VizKind::FadingBeat(v)) => Some(v.config)
                == crate::fading_beat_viz::spec_fading_beat_config(pretty_name, settings@),
            Some(_) => false,
            None => crate::fading_beat_viz::spec_fading_beat_config(pretty_name, settings@)
                is None,
        }),
        (identifier@ != "rotating_viz"@ && identifier@ != "sparkle_viz"@ && identifier@
            != "solid_viz"@ && identifier@ != "center_viz"@ && identifier@ != "blend_viz"@
            && identifier@ != "solid_beat_viz"@ && identifier@ != "fading_beat_viz"@) ==> viz
            is None,
{
    proof {
        reveal_strlit("rotating_viz");
        reveal_strlit("sparkle_viz");
        reveal_strlit("solid_viz");
        reveal_strlit("center_viz");
        reveal_strlit("blend_viz");
        reveal_strlit("solid_beat_viz");
        reveal_strlit("fading_beat_viz");
        assert("rotating_viz"@.len() == 12);
        assert("sparkle_viz"@.len() == 11);
        assert("solid_viz"@.len() == 9);
        assert("center_viz"@.len() == 10);
        assert("blend_viz"@.len() == 9);
        assert("solid_beat_viz"@.len() == 14);
        assert("fading_beat_viz"@.len() == 15);
        assert("solid_viz"@[0] == 's' && "blend_viz"@[0] == 'b');
    }
    let id = String::from_str(identifier);
    if id.eq(&String::from_str("rotating_viz")) {
        match crate::rotating_viz::RotatingVizConfig::from_map(pretty_name, settings) {
            Some(config) => Some(
                crate::viz::VizKind::Rotating(crate::rotating_viz::RotatingViz::new(config)),
            ),
            None => None,
        }
    } else if id.eq(&String::from_str("sparkle_viz")) {
        match crate::sparkle_viz::SparkleVizConfig::from_map(pretty_name, settings) {
            Some(config) => Some(
                crate::viz::VizKind::Sparkle(crate::sparkle_viz::SparkleViz::new(config)),
            ),
            None => None,
        }
    } else if id.eq(&String::from_str("solid_viz")) {
        let config = crate::solid_viz::SolidVizConfig::from_map(
            pretty_name,
            crate::viz::clone_settings(settings),
        );
        Some(crate::viz::VizKind::Solid(crate::solid_viz::SolidViz::new(config)))
    } else if id.eq(&String::from_str("center_viz")) {
        let config = crate::center_viz::CenterVizConfig::from_map(
            pretty_name,
            crate::viz::clone_settings(settings),
        );
        Some(crate::viz::VizKind::Center(crate::center_viz::CenterViz::new(config)))
    } else if id.eq(&String::from_str("blend_viz")) {
        match crate::blend_viz::BlendVizConfig::from_map(pretty_name, settings) {
            Some(config) => Some(
                crate::viz::VizKind::Blend(crate::blend_viz::BlendViz::new(config)),
            ),
            None => None,
        }
    } else if id.eq(&String::from_str("solid_beat_viz")) {
        match crate::solid_beat_viz::SolidBeatVizConfig::from_map(pretty_name, settings) {
            Some(config) => Some(
                crate::viz::VizKind::SolidBeat(crate::solid_beat_viz::SolidBeatViz::new(config)),
            ),
            None => None,
        }
    } else if id.eq(&String::from_str("fading_beat_viz")) {
        match crate::fading_beat_viz::FadingBeatVizConfig::from_map(pretty_name, settings) {
            Some(config) => Some(
                crate::viz::VizKind::FadingBeat(crate::fading_beat_viz::FadingBeatViz::new(config)),
            ),
            None => None,
        }
    } else {
        None
    }
}

} // verus!
