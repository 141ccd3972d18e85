use dinkelberg::config::Config;

#[test]
fn config_gives_back_what_it_was_made_of() {
    let config = Config::new(
        String::from("dinkelberg"),
        Some(String::from("redis://127.0.0.1/")),
        Some(String::from("jaeger:6831")),
    );
    assert_eq!(config.bot_name(), "dinkelberg");
    assert_eq!(config.redis_url(), Some("redis://127.0.0.1/"));
    assert_eq!(config.opentelemetry_endpoint(), "jaeger:6831");
}

#[test]
fn config_without_endpoints_has_defaults() {
    let config = Config::new(String::from("bot"), None, None);
    assert_eq!(config.bot_name(), "bot");
    assert_eq!(config.redis_url(), None);
    assert_eq!(config.opentelemetry_endpoint(), "127.0.0.1:6831");
}
