use hagja::{
    colorize, fallback_logger, format_line, get_default_logger, padded_label, set_default_logger,
    DefaultSlot, Hagja, LogLevel,
};

fn is_clock(s: &str) -> bool {
    let b: Vec<char> = s.chars().collect();
    if b.len() != 8 {
        return false;
    }
    b[2] == ':'
        && b[5] == ':'
        && b[0].is_ascii_digit()
        && b[1].is_ascii_digit()
        && b[3].is_ascii_digit()
        && b[4].is_ascii_digit()
        && b[6].is_ascii_digit()
        && b[7].is_ascii_digit()
}

#[test]
fn severity_order_is_total_and_increasing() {
    let levels = [
        LogLevel::Trace,
        LogLevel::Debug,
        LogLevel::Info,
        LogLevel::Warn,
        LogLevel::Error,
        LogLevel::Fatal,
    ];
    for i in 0..levels.len() {
        assert_eq!(levels[i].rank_value(), i as u8);
        for j in 0..levels.len() {
            assert_eq!(levels[i] < levels[j], i < j);
            assert_eq!(levels[i] <= levels[j], i <= j);
            assert_eq!(levels[i] == levels[j], i == j);
        }
    }
}

#[test]
fn labels_are_padded_to_five_characters() {
    let cases = [
        (LogLevel::Trace, "TRACE"),
        (LogLevel::Debug, "DEBUG"),
        (LogLevel::Info, "INFO "),
        (LogLevel::Warn, "WARN "),
        (LogLevel::Error, "ERROR"),
        (LogLevel::Fatal, "FATAL"),
    ];
    for (level, expected) in cases {
        let label = padded_label(&level);
        assert_eq!(label.chars().count(), 5);
        assert_eq!(label, expected);
    }
}

#[test]
fn bare_labels_match_severities() {
    let h = Hagja::new("x", LogLevel::Trace, false);
    assert_eq!(h.get_level_name(&LogLevel::Trace), "TRACE");
    assert_eq!(h.get_level_name(&LogLevel::Debug), "DEBUG");
    assert_eq!(h.get_level_name(&LogLevel::Info), "INFO");
    assert_eq!(h.get_level_name(&LogLevel::Warn), "WARN");
    assert_eq!(h.get_level_name(&LogLevel::Error), "ERROR");
    assert_eq!(h.get_level_name(&LogLevel::Fatal), "FATAL");
}

#[test]
fn formatted_line_structure_is_stable() {
    let line = format_line("12:34:56", &LogLevel::Info, "Mod", "hi");
    assert_eq!(line, "[12:34:56] [INFO ] [Mod]: hi");
}

#[test]
fn formatted_line_other_severities() {
    let line = format_line("00:00:00", &LogLevel::Error, "Core", "boom");
    assert_eq!(line, "[00:00:00] [ERROR] [Core]: boom");
    let empty = format_line("23:59:59", &LogLevel::Warn, "", "");
    assert_eq!(empty, "[23:59:59] [WARN ] []: ");
}

#[test]
fn emission_follows_threshold() {
    let h = Hagja::new("Mod", LogLevel::Warn, true);
    // Below the threshold: dropped entirely.
    assert!(h.emit(LogLevel::Trace, "a").is_none());
    assert!(h.emit(LogLevel::Debug, "b").is_none());
    assert!(h.emit(LogLevel::Info, "c").is_none());
    // At or above the threshold: a plain line comes back for the file sink.
    for level in [LogLevel::Warn, LogLevel::Error, LogLevel::Fatal] {
        let line = h.emit(level, "msg").expect("severity at threshold must emit");
        assert!(line.ends_with("] [Mod]: msg"));
        assert!(line.starts_with('['));
        assert!(is_clock(&line[1..9]));
    }
}

#[test]
fn no_file_line_when_file_writing_is_off() {
    let h = Hagja::new("Mod", LogLevel::Trace, false);
    assert!(h.emit(LogLevel::Fatal, "msg").is_none());
}

#[test]
fn emitted_line_has_exact_layout() {
    let h = Hagja::new("Mod", LogLevel::Info, true);
    let line = h.emit(LogLevel::Info, "hi").unwrap();
    let time: String = line.chars().skip(1).take(8).collect();
    assert!(is_clock(&time));
    assert_eq!(line, format!("[{}] [INFO ] [Mod]: hi", time));
}

#[test]
fn colorize_keeps_the_text() {
    for level in [
        LogLevel::Trace,
        LogLevel::Debug,
        LogLevel::Info,
        LogLevel::Warn,
        LogLevel::Error,
        LogLevel::Fatal,
    ] {
        let painted = colorize("some plain line", &level);
        assert!(painted.contains("some plain line"));
    }
}

#[test]
fn clock_reading_is_well_formed() {
    let t = hagja::data::get_time();
    assert!(is_clock(&t));
}

#[test]
fn default_logger_single_assignment() {
    let mut slot = DefaultSlot::new();
    let a = Hagja::new("A", LogLevel::Trace, false);
    let b = Hagja::new("B", LogLevel::Fatal, true);
    assert!(set_default_logger(&mut slot, a).is_ok());
    let rejected = set_default_logger(&mut slot, b).expect_err("second set must fail");
    assert_eq!(rejected.id, "B");
    assert_eq!(rejected.log_level, LogLevel::Fatal);
    assert!(rejected.write_file);
    let got = get_default_logger(&mut slot);
    assert_eq!(got.id, "A");
    assert_eq!(got.log_level, LogLevel::Trace);
}

#[test]
fn lazy_default_fallback() {
    let mut slot = DefaultSlot::new();
    {
        let first = get_default_logger(&mut slot);
        assert_eq!(first.id, "default");
        assert_eq!(first.log_level, LogLevel::Info);
        assert!(!first.write_file);
    }
    let again = get_default_logger(&mut slot);
    assert_eq!(again.id, "default");
    assert_eq!(again.log_level, LogLevel::Info);
    assert!(!again.write_file);
}

#[test]
fn fallback_logger_shape() {
    let f = fallback_logger();
    assert_eq!(f.id, "default");
    assert_eq!(f.log_level, LogLevel::Info);
    assert!(!f.write_file);
}

#[test]
fn fatal_logging_returns_normally() {
    let h = Hagja::new("Mod", LogLevel::Trace, false);
    h.fatal("corruption detected");
    // The next statement still executes: fatal logs a line, nothing more.
    let after: i32 = 1 + 1;
    assert_eq!(after, 2);
}

#[test]
fn severity_methods_do_not_fail() {
    let h = Hagja::new("Examples/Main", LogLevel::Trace, false);
    h.info("Starting...");
    h.debug("Executing...");
    h.warn("Unable to get specific resource.");
    h.error("Cannot initialize.");
    h.fatal("Corruption detected, exiting.");
    h.trace("Cleaning resource cache 4.");
}

#[test]
fn logger_construction_keeps_fields() {
    let h = Hagja::new("MyModule", LogLevel::Info, false);
    assert_eq!(h.id, "MyModule");
    assert_eq!(h.log_level, LogLevel::Info);
    assert!(!h.write_file);
}
