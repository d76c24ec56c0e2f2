//! The server's configuration, worked out from the values of its
//! environment variables.
//!
//! Reading the environment is the embedding program's work. It hands the
//! values over as an [`Environment`], and [`read_config`] decides what they
//! mean.

use crate::pipeline::WebRendererInitOptions;
use crate::text::chars_of;
use crate::text::find_char;
use crate::text::parse_number;
use crate::text::parse_unsigned;
use crate::text::same_text;
use crate::types::Framerate;
use vstd::prelude::*;

verus! {

/// The port of the API where none is set.
pub const DEFAULT_API_PORT: u16 = 8081;

/// The fallback timeout, in nanoseconds, where none is set: two seconds.
pub const DEFAULT_STREAM_FALLBACK_TIMEOUT: u64 = 2_000_000_000;

/// What is said of an API port that is no port number.
pub const API_PORT_ERROR: &'static str = "LIVE_COMPOSITOR_API_PORT has to be valid port number";

/// What is said of a logger format that is not known.
pub const LOGGER_FORMAT_ERROR: &'static str = "invalid logger format";

/// What is said of an FFmpeg log level that is not known.
pub const FFMPEG_LOG_LEVEL_ERROR: &'static str = "invalid FFmpeg logger level";

/// What is said of a frame rate that cannot be read.
pub const FRAMERATE_ERROR: &'static str =
    "Framerate needs to be an unsigned integer or a string in the \"NUM/DEN\" format, where NUM and DEN are both unsigned integers.";

/// The frame rate where none is set: thirty frames per second.
pub open spec fn default_framerate() -> Framerate {
    Framerate { num: 30, den: 1 }
}

/// How much FFmpeg logs.
#[derive(Debug, Clone, Copy, PartialEq, Eq, Structural)]
pub enum FfmpegLogLevel {
    Error,
    Warn,
    Info,
    Debug,
}

/// How log lines are laid out.
#[derive(Debug, Clone, Copy, PartialEq, Eq, Structural)]
pub enum LoggerFormat {
    Pretty,
    Json,
    Compact,
}

/// The logger's settings.
#[derive(Debug)]
pub struct LoggerConfig {
    pub ffmpeg_logger_level: FfmpegLogLevel,
    pub format: LoggerFormat,
    pub level: String,
}

/// The server's settings.
#[derive(Debug)]
pub struct Config {
    pub api_port: u16,
    pub logger: LoggerConfig,
    pub framerate: Framerate,
    /// Longest time, in nanoseconds, that a tick waits for an input.
    pub stream_fallback_timeout: u64,
    pub web_renderer: WebRendererInitOptions,
}

/// What the environment says, variable by variable; `None` where a variable
/// is not set.
#[derive(Debug)]
pub struct Environment {
    /// `LIVE_COMPOSITOR_API_PORT`.
    pub api_port: Option<String>,
    /// `LIVE_COMPOSITOR_FFMPEG_LOGGER_LEVEL`.
    pub ffmpeg_logger_level: Option<String>,
    /// `LIVE_COMPOSITOR_LOGGER_LEVEL`.
    pub logger_level: Option<String>,
    /// Whether the server runs from its source tree.
    pub in_source_tree: bool,
    /// `LIVE_COMPOSITOR_LOGGER_FORMAT`.
    pub logger_format: Option<String>,
    /// `LIVE_COMPOSITOR_OUTPUT_FRAMERATE`.
    pub output_framerate: Option<String>,
    /// Whether the server was built with the web renderer.
    pub web_renderer_built_in: bool,
    /// `LIVE_COMPOSITOR_WEB_RENDERER_ENABLE`.
    pub web_renderer_enable: Option<String>,
    /// `LIVE_COMPOSITOR_WEB_RENDERER_GPU_ENABLE`.
    pub web_renderer_gpu_enable: Option<String>,
    /// `LIVE_COMPOSITOR_STREAM_FALLBACK_TIMEOUT_MS`, in nanoseconds, where it
    /// is set to a number.
    pub stream_fallback_timeout: Option<u64>,
}

/// What a logger format's name means.
pub open spec fn logger_format_named(text: Seq<char>) -> Option<LoggerFormat> {
    if text == "json"@ {
        Some(LoggerFormat::Json)
    } else if text == "pretty"@ {
        Some(LoggerFormat::Pretty)
    } else if text == "compact"@ {
        Some(LoggerFormat::Compact)
    } else {
        None
    }
}

/// What an FFmpeg log level's name means.
pub open spec fn ffmpeg_log_level_named(text: Seq<char>) -> Option<FfmpegLogLevel> {
    if text == "error"@ {
        Some(FfmpegLogLevel::Error)
    } else if text == "warn"@ {
        Some(FfmpegLogLevel::Warn)
    } else if text == "info"@ {
        Some(FfmpegLogLevel::Info)
    } else if text == "debug"@ {
        Some(FfmpegLogLevel::Debug)
    } else {
        None
    }
}

/// What a switch's value means: `1` and `true` are on, `0` and `false` are
/// off, anything else means nothing.
pub open spec fn switch_named(text: Seq<char>) -> Option<bool> {
    if text == "1"@ || text == "true"@ {
        Some(true)
    } else if text == "0"@ || text == "false"@ {
        Some(false)
    } else {
        None
    }
}

/// What a frame rate's text means: `NUM/DEN`, split at the first slash, or a
/// bare `NUM`, which is `NUM/1`; each number an unsigned integer of at most
/// 32 bits.
pub open spec fn framerate_written(text: Seq<char>) -> Option<Framerate> {
    if exists|i: int| 0 <= i < text.len() && text[i] == '/' {
        let slash = choose|i: int|
            0 <= i < text.len() && text[i] == '/' && forall|j: int| 0 <= j < i ==> text[j] != '/';
        match (
            parse_unsigned(text.subrange(0, slash), u32::MAX as nat),
            parse_unsigned(text.subrange(slash + 1, text.len() as int), u32::MAX as nat),
        ) {
            (Some(num), Some(den)) => Some(Framerate { num: num as u32, den: den as u32 }),
            _ => None,
        }
    } else {
        match parse_unsigned(text, u32::MAX as nat) {
            Some(num) => Some(Framerate { num: num as u32, den: 1 }),
            None => None,
        }
    }
}

impl LoggerFormat {
    /// Reads a logger format by its name.
    pub fn from_str(s: &str) -> (format: Result<LoggerFormat, &'static str>)
        ensures
            format == match logger_format_named(s@) {
                Some(format) => Ok::<LoggerFormat, &'static str>(format),
                None => Err::<LoggerFormat, &'static str>(LOGGER_FORMAT_ERROR),
            },
    {
        if same_text(s, "json") {
            Ok(LoggerFormat::Json)
        } else if same_text(s, "pretty") {
            Ok(LoggerFormat::Pretty)
        } else if same_text(s, "compact") {
            Ok(LoggerFormat::Compact)
        } else {
            Err(LOGGER_FORMAT_ERROR)
        }
    }
}

impl FfmpegLogLevel {
    /// Reads an FFmpeg log level by its name.
    pub fn from_str(s: &str) -> (level: Result<FfmpegLogLevel, &'static str>)
        ensures
            level == match ffmpeg_log_level_named(s@) {
                Some(level) => Ok::<FfmpegLogLevel, &'static str>(level),
                None => Err::<FfmpegLogLevel, &'static str>(FFMPEG_LOG_LEVEL_ERROR),
            },
    {
        if same_text(s, "error") {
            Ok(FfmpegLogLevel::Error)
        } else if same_text(s, "warn") {
            Ok(FfmpegLogLevel::Warn)
        } else if same_text(s, "info") {
            Ok(FfmpegLogLevel::Info)
        } else if same_text(s, "debug") {
            Ok(FfmpegLogLevel::Debug)
        } else {
            Err(FFMPEG_LOG_LEVEL_ERROR)
        }
    }
}

/// Reads a frame rate.
pub fn framerate_from_str(s: &str) -> (framerate: Result<Framerate, &'static str>)
    ensures
        framerate == match framerate_written(s@) {
            Some(framerate) => Ok::<Framerate, &'static str>(framerate),
            None => Err::<Framerate, &'static str>(FRAMERATE_ERROR),
        },
{
    let chars = chars_of(s);
    match find_char(&chars, '/') {
        Some(slash) => {
            proof {
                let first = choose|i: int|
                    0 <= i < chars@.len() && chars@[i] == '/' && forall|j: int|
                        0 <= j < i ==> chars@[j] != '/';
                assert(first == slash) by {
                    if first < slash {
                        assert(chars@[first] != '/');
                    } else if slash < first {
                        assert(chars@[slash as int] != '/');
                    }
                }
            }
            let num = match parse_number(&chars, 0, slash, 0xFFFF_FFFF) {
                Some(num) => num,
                None => {
                    return Err(FRAMERATE_ERROR);
                },
            };
            let den = match parse_number(&chars, slash + 1, chars.len(), 0xFFFF_FFFF) {
                Some(den) => den,
                None => {
                    return Err(FRAMERATE_ERROR);
                },
            };
            Ok(Framerate { num, den })
        },
        None => {
            assert(chars@.subrange(0, chars@.len() as int) =~= chars@);
            match parse_number(&chars, 0, chars.len(), 0xFFFF_FFFF) {
                Some(num) => Ok(Framerate { num, den: 1 }),
                None => Err(FRAMERATE_ERROR),
            }
        },
    }
}

/// Reads a switch.
pub fn bool_env_from_str(s: &str) -> (switch: Option<bool>)
    ensures
        switch == switch_named(s@),
{
    if same_text(s, "1") || same_text(s, "true") {
        Some(true)
    } else if same_text(s, "0") || same_text(s, "false") {
        Some(false)
    } else {
        None
    }
}

/// The API port that the environment asks for: the default where none is
/// set, nothing where what is set is no port number.
pub open spec fn api_port_of(env: Environment) -> Option<u16> {
    match env.api_port {
        Some(text) => match parse_unsigned(text@, u16::MAX as nat) {
            Some(port) => Some(port as u16),
            None => None,
        },
        None => Some(DEFAULT_API_PORT),
    }
}

/// The FFmpeg log level that the environment asks for: `warn` where none is
/// set or what is set is not known.
pub open spec fn ffmpeg_logger_level_of(env: Environment) -> FfmpegLogLevel {
    match env.ffmpeg_logger_level {
        Some(text) => match ffmpeg_log_level_named(text@) {
            Some(level) => level,
            None => FfmpegLogLevel::Warn,
        },
        None => FfmpegLogLevel::Warn,
    }
}

/// The logger format where none is set: compact in the source tree, JSON
/// elsewhere.
pub open spec fn default_logger_format(env: Environment) -> LoggerFormat {
    if env.in_source_tree {
        LoggerFormat::Compact
    } else {
        LoggerFormat::Json
    }
}

/// The logger format that the environment asks for: the default where none
/// is set or what is set is not known.
pub open spec fn logger_format_of(env: Environment) -> LoggerFormat {
    match env.logger_format {
        Some(text) => match logger_format_named(text@) {
            Some(format) => format,
            None => default_logger_format(env),
        },
        None => default_logger_format(env),
    }
}

/// The frame rate that the environment asks for: the default where none is
/// set or what is set cannot be read.
pub open spec fn framerate_of(env: Environment) -> Framerate {
    match env.output_framerate {
        Some(text) => match framerate_written(text@) {
            Some(framerate) => framerate,
            None => default_framerate(),
        },
        None => default_framerate(),
    }
}

/// What a switch of the environment says: `default` where it is not set or
/// what is set means nothing.
pub open spec fn switch_of(value: Option<String>, default: bool) -> bool {
    match value {
        Some(text) => match switch_named(text@) {
            Some(switch) => switch,
            None => default,
        },
        None => default,
    }
}

fn read_switch(value: &Option<String>, default: bool) -> (switch: bool)
    ensures
        switch == switch_of(*value, default),
{
    match value {
        Some(text) => match bool_env_from_str(text.as_str()) {
            Some(switch) => switch,
            None => default,
        },
        None => default,
    }
}

/// Works out the configuration from the environment.
///
/// Only an API port that is no port number is an error. Every other value
/// that cannot be read gives way to its default: `info` for the log level,
/// `warn` for FFmpeg's, compact or JSON for the format, thirty frames per
/// second, the web renderer as built, its GPU on, and two seconds of fallback
/// timeout.
pub fn read_config(env: Environment) -> (config: Result<Config, &'static str>)
    ensures
        api_port_of(env) is None ==> config == Err::<Config, &'static str>(API_PORT_ERROR),
        api_port_of(env) is Some ==> config is Ok && {
            let made = config->Ok_0;
            &&& made.api_port == api_port_of(env)->0
            &&& made.logger.ffmpeg_logger_level == ffmpeg_logger_level_of(env)
            &&& made.logger.format == logger_format_of(env)
            &&& made.logger.level@ == match env.logger_level {
                Some(level) => level@,
                None => "info"@,
            }
            &&& made.framerate == framerate_of(env)
            &&& made.stream_fallback_timeout == match env.stream_fallback_timeout {
                Some(timeout) => timeout,
                None => DEFAULT_STREAM_FALLBACK_TIMEOUT,
            }
            &&& made.web_renderer == (WebRendererInitOptions {
                enable: switch_of(env.web_renderer_enable, env.web_renderer_built_in),
                enable_gpu: switch_of(env.web_renderer_gpu_enable, true),
            })
        },
{
    let api_port: u16 = match &env.api_port {
        Some(api_port) => {
            let chars = chars_of(api_port.as_str());
            assert(chars@.subrange(0, chars@.len() as int) =~= chars@);
            match parse_number(&chars, 0, chars.len(), 0xFFFF) {
                Some(port) => port as u16,
                None => {
                    return Err(API_PORT_ERROR);
                },
            }
        },
        None => DEFAULT_API_PORT,
    };
    let ffmpeg_logger_level = match &env.ffmpeg_logger_level {
        Some(ffmpeg_log_level) => match FfmpegLogLevel::from_str(ffmpeg_log_level.as_str()) {
            Ok(level) => level,
            Err(_) => FfmpegLogLevel::Warn,
        },
        None => FfmpegLogLevel::Warn,
    };
    let logger_level = match &env.logger_level {
        Some(level) => level.clone(),
        None => String::from_str("info"),
    };
    let default_logger_format = if env.in_source_tree {
        LoggerFormat::Compact
    } else {
        LoggerFormat::Json
    };
    let logger_format = match &env.logger_format {
        Some(format) => match LoggerFormat::from_str(format.as_str()) {
            Ok(format) => format,
            Err(_) => default_logger_format,
        },
        None => default_logger_format,
    };
    let framerate = match &env.output_framerate {
        Some(framerate) => match framerate_from_str(framerate.as_str()) {
            Ok(framerate) => framerate,
            Err(_) => Framerate { num: 30, den: 1 },
        },
        None => Framerate { num: 30, den: 1 },
    };
    let web_renderer_enable = read_switch(&env.web_renderer_enable, env.web_renderer_built_in);
    let web_renderer_gpu_enable = read_switch(&env.web_renderer_gpu_enable, true);
    let stream_fallback_timeout: u64 = match env.stream_fallback_timeout {
        Some(timeout) => timeout,
        None => DEFAULT_STREAM_FALLBACK_TIMEOUT,
    };
    Ok(
        Config {
            api_port,
            logger: LoggerConfig {
                ffmpeg_logger_level,
                format: logger_format,
                level: logger_level,
            },
            framerate,
            stream_fallback_timeout,
            web_renderer: WebRendererInitOptions {
                enable: web_renderer_enable,
                enable_gpu: web_renderer_gpu_enable,
            },
        },
    )
}

} // verus!
