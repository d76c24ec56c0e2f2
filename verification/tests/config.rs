use video_compositor::config::bool_env_from_str;
use video_compositor::config::framerate_from_str;
use video_compositor::config::read_config;
use video_compositor::config::Environment;
use video_compositor::config::FfmpegLogLevel;
use video_compositor::config::LoggerFormat;
use video_compositor::config::API_PORT_ERROR;
use video_compositor::config::FRAMERATE_ERROR;
use video_compositor::config::LOGGER_FORMAT_ERROR;
use video_compositor::types::Framerate;

fn unset() -> Environment {
    Environment {
        api_port: None,
        ffmpeg_logger_level: None,
        logger_level: None,
        in_source_tree: false,
        logger_format: None,
        output_framerate: None,
        web_renderer_built_in: false,
        web_renderer_enable: None,
        web_renderer_gpu_enable: None,
        stream_fallback_timeout: None,
    }
}

#[test]
fn switch_reads_true_and_false() {
    assert_eq!(bool_env_from_str("1"), Some(true));
    assert_eq!(bool_env_from_str("true"), Some(true));
    assert_eq!(bool_env_from_str("0"), Some(false));
    assert_eq!(bool_env_from_str("false"), Some(false));
}

#[test]
fn switch_reads_nothing_else() {
    assert_eq!(bool_env_from_str("yes"), None);
    assert_eq!(bool_env_from_str(""), None);
    assert_eq!(bool_env_from_str("TRUE"), None);
    assert_eq!(bool_env_from_str("10"), None);
    assert_eq!(bool_env_from_str(" 1"), None);
}

#[test]
fn logger_format_by_name() {
    assert_eq!(LoggerFormat::from_str("json"), Ok(LoggerFormat::Json));
    assert_eq!(LoggerFormat::from_str("pretty"), Ok(LoggerFormat::Pretty));
    assert_eq!(LoggerFormat::from_str("compact"), Ok(LoggerFormat::Compact));
    assert_eq!(LoggerFormat::from_str("Json"), Err(LOGGER_FORMAT_ERROR));
    assert_eq!(LoggerFormat::from_str(""), Err("invalid logger format"));
}

#[test]
fn ffmpeg_log_level_by_name() {
    assert_eq!(FfmpegLogLevel::from_str("error"), Ok(FfmpegLogLevel::Error));
    assert_eq!(FfmpegLogLevel::from_str("warn"), Ok(FfmpegLogLevel::Warn));
    assert_eq!(FfmpegLogLevel::from_str("info"), Ok(FfmpegLogLevel::Info));
    assert_eq!(FfmpegLogLevel::from_str("debug"), Ok(FfmpegLogLevel::Debug));
    assert!(FfmpegLogLevel::from_str("trace").is_err());
}

#[test]
fn framerate_as_a_bare_number() {
    assert_eq!(framerate_from_str("30"), Ok(Framerate { num: 30, den: 1 }));
    assert_eq!(framerate_from_str("+25"), Ok(Framerate { num: 25, den: 1 }));
    assert_eq!(framerate_from_str("007"), Ok(Framerate { num: 7, den: 1 }));
    assert_eq!(framerate_from_str("0"), Ok(Framerate { num: 0, den: 1 }));
    assert_eq!(
        framerate_from_str("4294967295"),
        Ok(Framerate { num: 4294967295, den: 1 })
    );
}

#[test]
fn framerate_as_a_fraction() {
    assert_eq!(
        framerate_from_str("30000/1001"),
        Ok(Framerate { num: 30000, den: 1001 })
    );
    assert_eq!(framerate_from_str("60/1"), Ok(Framerate { num: 60, den: 1 }));
    assert_eq!(framerate_from_str("1/0"), Ok(Framerate { num: 1, den: 0 }));
}

#[test]
fn framerate_that_cannot_be_read() {
    assert_eq!(framerate_from_str(""), Err(FRAMERATE_ERROR));
    assert_eq!(framerate_from_str("/"), Err(FRAMERATE_ERROR));
    assert_eq!(framerate_from_str("30/"), Err(FRAMERATE_ERROR));
    assert_eq!(framerate_from_str("/2"), Err(FRAMERATE_ERROR));
    assert_eq!(framerate_from_str("1/2/3"), Err(FRAMERATE_ERROR));
    assert_eq!(framerate_from_str("-30"), Err(FRAMERATE_ERROR));
    assert_eq!(framerate_from_str("30.0"), Err(FRAMERATE_ERROR));
    assert_eq!(framerate_from_str("4294967296"), Err(FRAMERATE_ERROR));
    assert_eq!(framerate_from_str("30 "), Err(FRAMERATE_ERROR));
    assert_eq!(framerate_from_str("+"), Err(FRAMERATE_ERROR));
    assert_eq!(framerate_from_str("三十"), Err(FRAMERATE_ERROR));
}

#[test]
fn config_defaults() {
    let config = read_config(unset()).unwrap();
    assert_eq!(config.api_port, 8081);
    assert_eq!(config.logger.level, "info");
    assert_eq!(config.logger.format, LoggerFormat::Json);
    assert_eq!(config.logger.ffmpeg_logger_level, FfmpegLogLevel::Warn);
    assert_eq!(config.framerate, Framerate { num: 30, den: 1 });
    assert_eq!(config.stream_fallback_timeout, 2_000_000_000);
    assert!(!config.web_renderer.enable);
    assert!(config.web_renderer.enable_gpu);
}

#[test]
fn config_defaults_in_source_tree() {
    let mut env = unset();
    env.in_source_tree = true;
    env.web_renderer_built_in = true;
    let config = read_config(env).unwrap();
    assert_eq!(config.logger.format, LoggerFormat::Compact);
    assert!(config.web_renderer.enable);
}

#[test]
fn config_takes_what_is_set() {
    let env = Environment {
        api_port: Some("9000".to_string()),
        ffmpeg_logger_level: Some("debug".to_string()),
        logger_level: Some("trace".to_string()),
        in_source_tree: true,
        logger_format: Some("pretty".to_string()),
        output_framerate: Some("60/2".to_string()),
        web_renderer_built_in: true,
        web_renderer_enable: Some("0".to_string()),
        web_renderer_gpu_enable: Some("false".to_string()),
        stream_fallback_timeout: Some(100_000_000),
    };
    let config = read_config(env).unwrap();
    assert_eq!(config.api_port, 9000);
    assert_eq!(config.logger.level, "trace");
    assert_eq!(config.logger.format, LoggerFormat::Pretty);
    assert_eq!(config.logger.ffmpeg_logger_level, FfmpegLogLevel::Debug);
    assert_eq!(config.framerate, Framerate { num: 60, den: 2 });
    assert_eq!(config.stream_fallback_timeout, 100_000_000);
    assert!(!config.web_renderer.enable);
    assert!(!config.web_renderer.enable_gpu);
}

#[test]
fn config_falls_back_on_what_it_cannot_read() {
    let env = Environment {
        api_port: None,
        ffmpeg_logger_level: Some("loud".to_string()),
        logger_level: None,
        in_source_tree: false,
        logger_format: Some("xml".to_string()),
        output_framerate: Some("fast".to_string()),
        web_renderer_built_in: true,
        web_renderer_enable: Some("maybe".to_string()),
        web_renderer_gpu_enable: Some("".to_string()),
        stream_fallback_timeout: None,
    };
    let config = read_config(env).unwrap();
    assert_eq!(config.logger.ffmpeg_logger_level, FfmpegLogLevel::Warn);
    assert_eq!(config.logger.format, LoggerFormat::Json);
    assert_eq!(config.framerate, Framerate { num: 30, den: 1 });
    assert!(config.web_renderer.enable);
    assert!(config.web_renderer.enable_gpu);
}

#[test]
fn config_refuses_a_bad_api_port() {
    for bad in ["", "http", "65536", "-1", "80 ", "8081.0"] {
        let mut env = unset();
        env.api_port = Some(bad.to_string());
        match read_config(env) {
            Err(message) => assert_eq!(message, API_PORT_ERROR),
            Ok(config) => panic!("{bad:?} was read as port {}", config.api_port),
        }
    }
}

#[test]
fn config_reads_the_ends_of_the_port_range() {
    let mut env = unset();
    env.api_port = Some("65535".to_string());
    assert_eq!(read_config(env).unwrap().api_port, 65535);
    let mut env = unset();
    env.api_port = Some("0".to_string());
    assert_eq!(read_config(env).unwrap().api_port, 0);
}
