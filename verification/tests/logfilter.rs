use cspot::logging::{cspot_log_level_t, Level, LevelFilter, LogFilter};

#[test]
fn parse_level_accepts_known_words() {
    assert_eq!(cspot::logging::parse_level("off"), Some(LevelFilter::Off));
    assert_eq!(cspot::logging::parse_level("error"), Some(LevelFilter::Error));
    assert_eq!(cspot::logging::parse_level("warn"), Some(LevelFilter::Warn));
    assert_eq!(cspot::logging::parse_level("warning"), Some(LevelFilter::Warn));
    assert_eq!(cspot::logging::parse_level("info"), Some(LevelFilter::Info));
    assert_eq!(cspot::logging::parse_level("debug"), Some(LevelFilter::Debug));
    assert_eq!(cspot::logging::parse_level("trace"), Some(LevelFilter::Trace));
}

#[test]
fn parse_level_ignores_case_and_whitespace() {
    assert_eq!(cspot::logging::parse_level("  WARN  "), Some(LevelFilter::Warn));
    assert_eq!(cspot::logging::parse_level("Info"), Some(LevelFilter::Info));
    assert_eq!(cspot::logging::parse_level("verbose"), None);
    assert_eq!(cspot::logging::parse_level(""), None);
}

#[test]
fn default_filter_admits_only_the_transport_library() {
    let filter = LogFilter::default_for_level(LevelFilter::Info);
    assert_eq!(filter.default_level, LevelFilter::Off);
    assert_eq!(filter.directives.len(), 1);
    assert_eq!(filter.directives[0].target, "librespot");
    assert_eq!(filter.directives[0].level, LevelFilter::Info);
    assert!(filter.enabled("librespot_core::session", Level::Info));
    assert!(!filter.enabled("librespot_core::session", Level::Debug));
    assert!(!filter.enabled("hyper::client", Level::Error));
}

#[test]
fn parse_builds_default_and_directives() {
    let filter = LogFilter::parse("warn,librespot=debug,hyper").unwrap();
    assert_eq!(filter.default_level, LevelFilter::Warn);
    assert_eq!(filter.directives.len(), 2);
    assert_eq!(filter.directives[0].target, "librespot");
    assert_eq!(filter.directives[0].level, LevelFilter::Debug);
    // A bare target admits everything under it.
    assert_eq!(filter.directives[1].target, "hyper");
    assert_eq!(filter.directives[1].level, LevelFilter::Trace);
}

#[test]
fn parse_skips_blank_pieces_and_trims() {
    let filter = LogFilter::parse(" , librespot = info , ,").unwrap();
    assert_eq!(filter.default_level, LevelFilter::Off);
    assert_eq!(filter.directives.len(), 1);
    assert_eq!(filter.directives[0].target, "librespot");
    assert_eq!(filter.directives[0].level, LevelFilter::Info);
}

#[test]
fn parse_of_an_empty_string_yields_the_empty_filter() {
    let filter = LogFilter::parse("").unwrap();
    assert_eq!(filter.default_level, LevelFilter::Off);
    assert!(filter.directives.is_empty());
    assert!(!filter.enabled("librespot", Level::Error));
}

#[test]
fn parse_reports_an_empty_directive_with_its_position() {
    let err = LogFilter::parse("info,=debug").unwrap_err();
    assert_eq!(err, "empty log directive at position 1");
}

#[test]
fn parse_positions_count_every_piece_and_print_in_decimal() {
    let err = LogFilter::parse(",,,,,,,,,,,=debug").unwrap_err();
    assert_eq!(err, "empty log directive at position 11");
}

#[test]
fn parse_reports_a_missing_level() {
    let err = LogFilter::parse("librespot=").unwrap_err();
    assert_eq!(err, "missing log level for target `librespot`");
}

#[test]
fn parse_reports_an_invalid_level() {
    let err = LogFilter::parse("librespot=loud").unwrap_err();
    assert_eq!(err, "invalid level `loud`");
}

#[test]
fn later_equal_length_directives_win() {
    let filter = LogFilter::parse("aa=error,aa=debug").unwrap();
    assert!(filter.enabled("aa::x", Level::Debug));
}

#[test]
fn longest_matching_prefix_wins() {
    let filter = LogFilter::parse("librespot=error,librespot_core=trace").unwrap();
    assert!(filter.enabled("librespot_core::session", Level::Trace));
    assert!(!filter.enabled("librespot_playback", Level::Warn));
    assert!(filter.enabled("librespot_playback", Level::Error));
}

#[test]
fn max_level_is_the_most_verbose_ceiling() {
    let filter = LogFilter::parse("warn,librespot=debug,hyper=error").unwrap();
    assert_eq!(filter.max_level(), LevelFilter::Debug);
    let quiet = LogFilter::parse("error").unwrap();
    assert_eq!(quiet.max_level(), LevelFilter::Error);
}

#[test]
fn level_codes_convert_both_ways() {
    assert_eq!(LevelFilter::from(cspot_log_level_t::CSPOT_LOG_LEVEL_OFF), LevelFilter::Off);
    assert_eq!(LevelFilter::from(cspot_log_level_t::CSPOT_LOG_LEVEL_DEBUG), LevelFilter::Debug);
    assert_eq!(
        cspot_log_level_t::from(Level::Warn),
        cspot_log_level_t::CSPOT_LOG_LEVEL_WARN
    );
    assert_eq!(
        cspot_log_level_t::from(Level::Trace),
        cspot_log_level_t::CSPOT_LOG_LEVEL_TRACE
    );
}
