//! Configuration data and its defaults, and the capture-backend
//! selection policy.

use vstd::prelude::*;
use vstd::string::StringExecFns;

verus! {

/// Which capture backend to use.
#[derive(Clone, Copy, PartialEq, Eq, Structural, Debug)]
pub enum AudioBackend {
    /// Pick the best backend the machine offers.
    Auto,
    /// Force the dual-source backend.
    PipeWire,
    /// Force the single-source fallback backend.
    Cpal,
}

impl Default for AudioBackend {
    /// The default backend choice: automatic detection.
    fn default() -> (r: Self)
        ensures
            r is Auto,
    {
        AudioBackend::Auto
    }
}

/// The backend the selection policy settled on.
#[derive(Clone, Copy, PartialEq, Eq, Structural, Debug)]
pub enum BackendChoice {
    /// The dual-source backend: system output and microphone.
    PipeWire,
    /// The single-source fallback: microphone only.
    Cpal,
}

/// The backend selection policy: automatic mode prefers the dual-source
/// backend exactly when its prerequisite tool is present; a forced
/// choice is obeyed.
pub fn select_backend(requested: AudioBackend, pipewire_available: bool) -> (r: BackendChoice)
    ensures
        requested is Auto ==> (r is PipeWire <==> pipewire_available),
        requested is PipeWire ==> r is PipeWire,
        requested is Cpal ==> r is Cpal,
{
    match requested {
        AudioBackend::Auto => {
            if pipewire_available {
                BackendChoice::PipeWire
            } else {
                BackendChoice::Cpal
            }
        }
        AudioBackend::PipeWire => BackendChoice::PipeWire,
        AudioBackend::Cpal => BackendChoice::Cpal,
    }
}

/// One supported input configuration of a capture device, as plain
/// values: its channel count and the sample-rate range it accepts.
#[derive(Clone, Copy, PartialEq, Eq, Structural, Debug)]
pub struct DeviceConfig {
    /// Number of channels the configuration captures.
    pub channels: u16,
    /// Lowest sample rate the configuration accepts.
    pub min_sample_rate: u32,
    /// Highest sample rate the configuration accepts.
    pub max_sample_rate: u32,
}

/// Whether a configuration accepts the given sample rate.
pub open spec fn spec_rate_in_range(c: DeviceConfig, rate: u32) -> bool {
    c.min_sample_rate <= rate <= c.max_sample_rate
}

/// The index of the first configuration with the wanted channel count
/// whose range holds the rate, or -1.
pub open spec fn spec_first_exact_config(configs: Seq<DeviceConfig>, rate: u32, channels: u16)
    -> int
    decreases configs.len(),
{
    if configs.len() == 0 {
        -1
    } else if configs[0].channels == channels && spec_rate_in_range(configs[0], rate) {
        0
    } else {
        let r = spec_first_exact_config(configs.drop_first(), rate, channels);
        if r < 0 {
            -1
        } else {
            r + 1
        }
    }
}

/// The index of the first configuration whose range holds the rate,
/// whatever its channel count, or -1.
pub open spec fn spec_first_rate_config(configs: Seq<DeviceConfig>, rate: u32) -> int
    decreases configs.len(),
{
    if configs.len() == 0 {
        -1
    } else if spec_rate_in_range(configs[0], rate) {
        0
    } else {
        let r = spec_first_rate_config(configs.drop_first(), rate);
        if r < 0 {
            -1
        } else {
            r + 1
        }
    }
}

/// Which configuration the fallback backend records with, and at which
/// sample rate: the first matching both channel count and rate; else
/// the first matching the rate alone; else the first listed at its top
/// rate; nothing only when no configuration is offered at all.
pub open spec fn spec_suitable_config(
    configs: Seq<DeviceConfig>,
    target_sample_rate: u32,
    target_channels: u16,
) -> Option<(int, u32)> {
    let exact = spec_first_exact_config(configs, target_sample_rate, target_channels);
    let by_rate = spec_first_rate_config(configs, target_sample_rate);
    if exact >= 0 {
        Some((exact, target_sample_rate))
    } else if by_rate >= 0 {
        Some((by_rate, target_sample_rate))
    } else if configs.len() > 0 {
        Some((0, configs[0].max_sample_rate))
    } else {
        None
    }
}

/// Pick the configuration the fallback backend records with: prefer an
/// exact channel-and-rate match, then any configuration that accepts the
/// rate, then the first one at its top rate. The result is the index of
/// the chosen configuration and the rate to open it at.
pub fn find_suitable_config(
    configs: &Vec<DeviceConfig>,
    target_sample_rate: u32,
    target_channels: u16,
) -> (r: Option<(usize, u32)>)
    ensures
        r matches Some(choice) ==> spec_suitable_config(
            configs@,
            target_sample_rate,
            target_channels,
        ) == Some((choice.0 as int, choice.1)),
        r is None ==> spec_suitable_config(configs@, target_sample_rate, target_channels)
            is None,
{
    let ghost all = configs@;

    // First pass: an exact channel-and-rate match.
    let mut i: usize = 0;
    proof {
        assert(all.skip(0) =~= all);
    }
    while i < configs.len()
        invariant
            i <= configs@.len(),
            all == configs@,
            spec_first_exact_config(all, target_sample_rate, target_channels) == (if spec_first_exact_config(
                all.skip(i as int),
                target_sample_rate,
                target_channels,
            ) < 0 {
                -1int
            } else {
                i + spec_first_exact_config(all.skip(i as int), target_sample_rate, target_channels)
            }),
        decreases configs@.len() - i,
    {
        proof {
            assert(all.skip(i as int)[0] == all[i as int]);
            assert(all.skip(i as int).drop_first() =~= all.skip(i + 1));
        }
        let c = configs[i];
        if c.channels == target_channels && c.min_sample_rate <= target_sample_rate
            && target_sample_rate <= c.max_sample_rate {
            return Some((i, target_sample_rate));
        }
        i += 1;
    }
    proof {
        assert(all.skip(all.len() as int) =~= Seq::<DeviceConfig>::empty());
    }

    // Second pass: any configuration that accepts the rate.
    let mut i: usize = 0;
    proof {
        assert(all.skip(0) =~= all);
    }
    while i < configs.len()
        invariant
            i <= configs@.len(),
            all == configs@,
            spec_first_exact_config(all, target_sample_rate, target_channels) == -1,
            spec_first_rate_config(all, target_sample_rate) == (if spec_first_rate_config(
                all.skip(i as int),
                target_sample_rate,
            ) < 0 {
                -1int
            } else {
                i + spec_first_rate_config(all.skip(i as int), target_sample_rate)
            }),
        decreases configs@.len() - i,
    {
        proof {
            assert(all.skip(i as int)[0] == all[i as int]);
            assert(all.skip(i as int).drop_first() =~= all.skip(i + 1));
        }
        let c = configs[i];
        if c.min_sample_rate <= target_sample_rate && target_sample_rate <= c.max_sample_rate {
            return Some((i, target_sample_rate));
        }
        i += 1;
    }
    proof {
        assert(all.skip(all.len() as int) =~= Seq::<DeviceConfig>::empty());
    }

    // Last: the first configuration at its top rate.
    if configs.len() > 0 {
        return Some((0, configs[0].max_sample_rate));
    }
    None
}

/// General settings: where data lives and how much is logged.
pub struct GeneralSettings {
    /// Data directory for recordings and the database.
    pub data_dir: String,
    /// Log level name.
    pub log_level: String,
}

/// Whisper transcription settings.
pub struct WhisperSettings {
    /// Model name.
    pub model: String,
    /// Directory holding the model files.
    pub models_dir: String,
    /// Language hint; empty means automatic detection.
    pub language: String,
    /// Whether to translate to English.
    pub translate: bool,
    /// Inference threads; zero means automatic.
    pub threads: u32,
}

/// Summarisation settings.
pub struct LlmSettings {
    /// Provider name.
    pub provider: String,
    /// API key for cloud providers.
    pub api_key: String,
    /// Model name.
    pub model: String,
    /// Endpoint for local or custom providers; empty means the default.
    pub endpoint: String,
}

/// Terminal interface settings.
pub struct TuiSettings {
    /// Whether the transcript view shows timestamps.
    pub show_timestamps: bool,
    /// How many recent recordings the dashboard shows.
    pub recent_count: usize,
    /// Colour theme name.
    pub theme: String,
}

/// The default log level.
pub fn default_log_level() -> (r: String)
    ensures
        r@ == "info"@,
{
    let mut s = String::new();
    s.append("info");
    s
}

/// The default sample rate: 16 kHz, what the transcription engine
/// expects.
pub fn default_sample_rate() -> (r: u32)
    ensures
        r == 16000,
{
    16000
}

/// The default channel count: mono.
pub fn default_channels() -> (r: u16)
    ensures
        r == 1,
{
    1
}

/// The default for the settings that are on unless switched off.
pub fn default_true() -> (r: bool)
    ensures
        r,
{
    true
}

/// The default compressed bitrate: 24 kbps, good for speech.
pub fn default_ogg_bitrate() -> (r: u32)
    ensures
        r == 24000,
{
    24000
}

/// The default transcription model name.
pub fn default_model() -> (r: String)
    ensures
        r@ == "base"@,
{
    let mut s = String::new();
    s.append("base");
    s
}

/// The default summarisation provider.
pub fn default_llm_provider() -> (r: String)
    ensures
        r@ == "gemini"@,
{
    let mut s = String::new();
    s.append("gemini");
    s
}

/// The default summarisation model.
pub fn default_llm_model() -> (r: String)
    ensures
        r@ == "gemini-2.5-flash"@,
{
    let mut s = String::new();
    s.append("gemini-2.5-flash");
    s
}

/// How many recent recordings the dashboard shows by default.
pub fn default_recent_count() -> (r: usize)
    ensures
        r == 5,
{
    5
}

/// The default colour theme.
pub fn default_theme() -> (r: String)
    ensures
        r@ == "dark"@,
{
    let mut s = String::new();
    s.append("dark");
    s
}

impl Default for WhisperSettings {
    /// Defaults: the `base` model, no language hint, no translation,
    /// automatic thread count; the models directory is filled in by the
    /// caller, which knows the platform's data directory.
    fn default() -> (r: Self)
        ensures
            r.model@ == "base"@,
            r.models_dir@ == ""@,
            r.language@ == ""@,
            !r.translate,
            r.threads == 0,
    {
        proof {
            reveal_strlit("");
        }
        WhisperSettings {
            model: default_model(),
            models_dir: String::new(),
            language: String::new(),
            translate: false,
            threads: 0,
        }
    }
}

impl Default for LlmSettings {
    /// Defaults: the gemini provider and its flash model, no key, the
    /// default endpoint.
    fn default() -> (r: Self)
        ensures
            r.provider@ == "gemini"@,
            r.api_key@ == ""@,
            r.model@ == "gemini-2.5-flash"@,
            r.endpoint@ == ""@,
    {
        proof {
            reveal_strlit("");
        }
        LlmSettings {
            provider: default_llm_provider(),
            api_key: String::new(),
            model: default_llm_model(),
            endpoint: String::new(),
        }
    }
}

impl Default for TuiSettings {
    /// Defaults: timestamps shown, five recent recordings, dark theme.
    fn default() -> (r: Self)
        ensures
            r.show_timestamps,
            r.recent_count == 5,
            r.theme@ == "dark"@,
    {
        TuiSettings {
            show_timestamps: true,
            recent_count: default_recent_count(),
            theme: default_theme(),
        }
    }
}

/// The file path of a named transcription model under a models
/// directory: `<models_dir>/ggml-<model>.bin`.
pub fn model_file_path(models_dir: &str, model: &str) -> (r: String)
    ensures
        r@ == models_dir@ + "/ggml-"@ + model@ + ".bin"@,
{
    let mut s = String::new();
    s.append(models_dir);
    s.append("/ggml-");
    s.append(model);
    s.append(".bin");
    s
}

} // verus!
