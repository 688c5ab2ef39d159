use mini_redis::cmd::config::ConfigCmd;
use mini_redis::{CommandError, ConfigSubcommand, Frame, GcConfig, Parse, ParseError};
use std::time::Duration;

fn command(words: &[&str]) -> Parse {
    let mut frame = Frame::array();
    for w in words {
        frame.push_bulk((*w).into());
    }
    Parse::new(frame).unwrap()
}

fn bulk_text(f: &Frame) -> String {
    match f {
        Frame::Bulk(b) => String::from_utf8(b.clone()).unwrap(),
        other => panic!("expected a bulk frame, got {:?}", other),
    }
}

fn error_text(f: &Frame) -> String {
    match f {
        Frame::Error(s) => s.clone(),
        other => panic!("expected an error frame, got {:?}", other),
    }
}

#[test]
fn test_config_parse_frames_get() {
    let mut frame = Frame::array();
    frame.push_bulk("get".into());
    frame.push_bulk("maxkeys".into());

    let mut parse = Parse::new(frame).unwrap();
    let cmd = ConfigCmd::parse_frames(&mut parse).unwrap();

    assert!(matches!(cmd.subcommand, ConfigSubcommand::Get { parameter: Some(_) }));
}

#[test]
fn test_config_parse_frames_set() {
    let mut frame = Frame::array();
    frame.push_bulk("set".into());
    frame.push_bulk("maxkeys".into());
    frame.push_bulk("1000".into());

    let mut parse = Parse::new(frame).unwrap();
    let cmd = ConfigCmd::parse_frames(&mut parse).unwrap();

    assert!(matches!(cmd.subcommand, ConfigSubcommand::SetParameter { .. }));
}

#[test]
fn test_config_parse_frames_list() {
    let mut frame = Frame::array();
    frame.push_bulk("list".into());

    let mut parse = Parse::new(frame).unwrap();
    let cmd = ConfigCmd::parse_frames(&mut parse).unwrap();

    assert!(matches!(cmd.subcommand, ConfigSubcommand::List));
}

#[test]
fn test_config_parse_frames_invalid_subcommand() {
    let mut frame = Frame::array();
    frame.push_bulk("invalid".into());

    let mut parse = Parse::new(frame).unwrap();
    let result = ConfigCmd::parse_frames(&mut parse);
    assert!(result.is_err());
}

#[test]
fn config_subcommand_is_matched_in_lower_case() {
    let cmd = ConfigCmd::parse_frames(&mut command(&["GeT", "maxkeys"])).unwrap();
    match cmd.subcommand {
        ConfigSubcommand::Get { parameter } => assert_eq!(parameter.unwrap(), "maxkeys"),
        other => panic!("unexpected {:?}", other),
    }
    match ConfigCmd::parse_frames(&mut command(&["LIST"])) {
        Ok(cmd) => assert!(matches!(cmd.subcommand, ConfigSubcommand::List)),
        Err(e) => panic!("unexpected {:?}", e),
    }
}

#[test]
fn config_invalid_subcommand_reports_it_lower_cased() {
    match ConfigCmd::parse_frames(&mut command(&["ReSeT"])) {
        Err(CommandError::InvalidConfigSubcommand(s)) => assert_eq!(s, "reset"),
        other => panic!("unexpected {:?}", other),
    }
}

#[test]
fn config_get_without_parameter() {
    let cmd = ConfigCmd::parse_frames(&mut command(&["get"])).unwrap();
    assert!(matches!(cmd.subcommand, ConfigSubcommand::Get { parameter: None }));
}

#[test]
fn config_get_with_integer_parameter_reads_none() {
    let mut frame = Frame::array();
    frame.push_bulk("get".into());
    let frame = match frame {
        Frame::Array(mut parts) => {
            parts.push(Frame::Integer(7));
            Frame::Array(parts)
        }
        other => other,
    };
    let cmd = ConfigCmd::parse_frames(&mut Parse::new(frame).unwrap()).unwrap();
    assert!(matches!(cmd.subcommand, ConfigSubcommand::Get { parameter: None }));
}

#[test]
fn config_rejects_extra_and_missing_arguments() {
    assert!(matches!(
        ConfigCmd::parse_frames(&mut command(&["get", "maxkeys", "extra"])),
        Err(CommandError::Parse(ParseError::ExpectedEnd))
    ));
    assert!(matches!(
        ConfigCmd::parse_frames(&mut command(&["set", "maxkeys"])),
        Err(CommandError::Parse(ParseError::EndOfStream))
    ));
    assert!(matches!(
        ConfigCmd::parse_frames(&mut command(&["list", "now"])),
        Err(CommandError::Parse(ParseError::ExpectedEnd))
    ));
    assert!(matches!(
        ConfigCmd::parse_frames(&mut command(&[])),
        Err(CommandError::Parse(ParseError::EndOfStream))
    ));
}

#[test]
fn config_set_keeps_parameter_and_value() {
    let cmd = ConfigCmd::parse_frames(&mut command(&["set", "gc.batch", "200"])).unwrap();
    match cmd.subcommand {
        ConfigSubcommand::SetParameter { parameter, value } => {
            assert_eq!(parameter, "gc.batch");
            assert_eq!(value, "200");
        }
        other => panic!("unexpected {:?}", other),
    }
}

#[test]
fn config_get_replies() {
    let r = ConfigCmd::get_reply(&Some("maxkeys".to_string()), 1234, &GcConfig::default());
    assert_eq!(bulk_text(&r), "1234");
    assert_eq!(bulk_text(&ConfigCmd::get_reply(&Some("gc.interval".to_string()), 1, &GcConfig::default())), "250");
    assert_eq!(bulk_text(&ConfigCmd::get_reply(&Some("gc.batch".to_string()), 1, &GcConfig::default())), "100");
    assert_eq!(bulk_text(&ConfigCmd::get_reply(&Some("gc.enabled".to_string()), 1, &GcConfig::default())), "true");
    assert_eq!(bulk_text(&ConfigCmd::get_reply(&Some("max.connections".to_string()), 1, &GcConfig::default())), "250");
    assert_eq!(
        error_text(&ConfigCmd::get_reply(&Some("MAXKEYS".to_string()), 1, &GcConfig::default())),
        "Unknown configuration parameter: MAXKEYS"
    );
    assert_eq!(
        bulk_text(&ConfigCmd::get_reply(&None, 1, &GcConfig::default())),
        "Use CONFIG GET <parameter> to get specific values"
    );
}

#[test]
fn config_set_maxkeys_replies() {
    let (f, limit, _) = ConfigCmd::set_reply("maxkeys", "1000", &GcConfig::default());
    assert_eq!(bulk_text(&f), "OK");
    assert_eq!(limit, Some(1000));
    let (f, limit, _) = ConfigCmd::set_reply("maxkeys", "+42", &GcConfig::default());
    assert_eq!(bulk_text(&f), "OK");
    assert_eq!(limit, Some(42));
    let (f, limit, _) = ConfigCmd::set_reply("maxkeys", "1000000", &GcConfig::default());
    assert_eq!(bulk_text(&f), "OK");
    assert_eq!(limit, Some(1_000_000));
    for bad in ["0", "1000001", "000"] {
        let (f, limit, _) = ConfigCmd::set_reply("maxkeys", bad, &GcConfig::default());
        assert_eq!(error_text(&f), "Max keys must be between 1 and 1,000,000", "{}", bad);
        assert_eq!(limit, None);
    }
    for bad in ["", "+", "-5", "12a", " 12", "1.5", "99999999999999999999999"] {
        let (f, limit, _) = ConfigCmd::set_reply("maxkeys", bad, &GcConfig::default());
        assert_eq!(error_text(&f), "Invalid max keys value", "{:?}", bad);
        assert_eq!(limit, None);
    }
}

#[test]
fn config_set_gc_replies() {
    assert_eq!(bulk_text(&ConfigCmd::set_reply("gc.interval", "100", &GcConfig::default()).0), "OK");
    assert_eq!(bulk_text(&ConfigCmd::set_reply("gc.interval", "10000", &GcConfig::default()).0), "OK");
    assert_eq!(
        error_text(&ConfigCmd::set_reply("gc.interval", "99", &GcConfig::default()).0),
        "GC interval must be between 100ms and 10000ms"
    );
    assert_eq!(error_text(&ConfigCmd::set_reply("gc.interval", "x", &GcConfig::default()).0), "Invalid GC interval value");
    assert_eq!(bulk_text(&ConfigCmd::set_reply("gc.batch", "10", &GcConfig::default()).0), "OK");
    assert_eq!(
        error_text(&ConfigCmd::set_reply("gc.batch", "1001", &GcConfig::default()).0),
        "GC batch size must be between 10 and 1000"
    );
    assert_eq!(error_text(&ConfigCmd::set_reply("gc.batch", "", &GcConfig::default()).0), "Invalid GC batch size value");
    for word in ["true", "1", "YES", "On", "FALSE", "0", "no", "OFF"] {
        let (f, limit, _) = ConfigCmd::set_reply("gc.enabled", word, &GcConfig::default());
        assert_eq!(bulk_text(&f), "OK", "{}", word);
        assert_eq!(limit, None);
    }
    assert_eq!(
        error_text(&ConfigCmd::set_reply("gc.enabled", "maybe", &GcConfig::default()).0),
        "Invalid GC enabled value. Use true/false, 1/0, yes/no, or on/off"
    );
    assert_eq!(
        error_text(&ConfigCmd::set_reply("max.connections", "10", &GcConfig::default()).0),
        "Unknown or read-only configuration parameter: max.connections"
    );
    assert_eq!(ConfigCmd::set_reply("gc.batch", "100", &GcConfig::default()).1, None);
}

#[test]
fn config_list_reply_lines() {
    let f = ConfigCmd::list_reply();
    let lines: Vec<String> = match &f {
        Frame::Array(parts) => parts.iter().map(bulk_text).collect(),
        other => panic!("unexpected {:?}", other),
    };
    assert_eq!(
        lines,
        vec![
            "maxkeys - Maximum number of keys in LRU cache (1-1,000,000)",
            "gc.interval - GC cleanup interval in milliseconds (100-10000)",
            "gc.batch - GC batch size for cleanup operations (10-1000)",
            "gc.enabled - Enable/disable garbage collection (true/false)",
            "max.connections - Maximum concurrent connections (read-only)",
        ]
    );
}

#[test]
fn config_maxkeys_round_trip() {
    let (_, limit, _) = ConfigCmd::set_reply("maxkeys", "000750", &GcConfig::default());
    let limit = limit.unwrap();
    let shown = bulk_text(&ConfigCmd::get_reply(&Some("maxkeys".to_string()), limit, &GcConfig::default()));
    assert_eq!(shown, "750");
    let (f, again, _) = ConfigCmd::set_reply("maxkeys", &shown, &GcConfig::default());
    assert_eq!(bulk_text(&f), "OK");
    assert_eq!(again, Some(limit));
}

#[test]
fn config_reply_dispatches_on_subcommand() {
    let cmd = ConfigCmd::parse_frames(&mut command(&["set", "maxkeys", "5"])).unwrap();
    let (f, limit, _) = cmd.reply(9, &GcConfig::default());
    assert_eq!(bulk_text(&f), "OK");
    assert_eq!(limit, Some(5));
    let cmd = ConfigCmd::parse_frames(&mut command(&["get", "maxkeys"])).unwrap();
    let (f, limit, _) = cmd.reply(9, &GcConfig::default());
    assert_eq!(bulk_text(&f), "9");
    assert_eq!(limit, None);
    let cmd = ConfigCmd::parse_frames(&mut command(&["list"])).unwrap();
    let (f, limit, _) = cmd.reply(9, &GcConfig::default());
    assert!(matches!(f, Frame::Array(ref v) if v.len() == 5));
    assert_eq!(limit, None);
}

#[test]
fn test_config_list_includes_maxkeys() {
    let cmd = ConfigCmd::parse_frames(&mut command(&["list"])).unwrap();
    let (resp, _, _) = cmd.reply(1000, &GcConfig::default());

    match resp {
        Frame::Array(items) => {
            let descriptions: Vec<String> = items
                .iter()
                .filter_map(|item| {
                    if let Frame::Bulk(bytes) = item {
                        String::from_utf8(bytes.to_vec()).ok()
                    } else {
                        None
                    }
                })
                .collect();

            assert!(descriptions.iter().any(|desc| desc.contains("maxkeys")));
        }
        _ => panic!("Expected array response from CONFIG LIST"),
    }
}

#[test]
fn config_set_gc_settings_are_adopted_and_shown() {
    let gc = GcConfig::default();
    let (f, limit, adopted) = ConfigCmd::set_reply("gc.interval", "500", &gc);
    assert_eq!(bulk_text(&f), "OK");
    assert_eq!(limit, None);
    let adopted = adopted.unwrap();
    assert_eq!(adopted.cleanup_interval, Duration::from_millis(500));
    assert_eq!(adopted.batch_size, 100);
    assert!(adopted.enabled);
    assert_eq!(bulk_text(&ConfigCmd::get_reply(&Some("gc.interval".to_string()), 1, &adopted)), "500");

    let (_, _, adopted) = ConfigCmd::set_reply("gc.batch", "0200", &adopted);
    let adopted = adopted.unwrap();
    assert_eq!(adopted.batch_size, 200);
    assert_eq!(adopted.cleanup_interval, Duration::from_millis(500));
    assert_eq!(bulk_text(&ConfigCmd::get_reply(&Some("gc.batch".to_string()), 1, &adopted)), "200");

    let (_, _, adopted) = ConfigCmd::set_reply("gc.enabled", "Off", &adopted);
    let adopted = adopted.unwrap();
    assert!(!adopted.enabled);
    assert_eq!(bulk_text(&ConfigCmd::get_reply(&Some("gc.enabled".to_string()), 1, &adopted)), "false");
    let (_, _, adopted) = ConfigCmd::set_reply("gc.enabled", "YES", &adopted);
    assert!(adopted.unwrap().enabled);

    let (_, _, none) = ConfigCmd::set_reply("gc.interval", "50", &gc);
    assert!(none.is_none());
    let (_, _, none) = ConfigCmd::set_reply("maxkeys", "10", &gc);
    assert!(none.is_none());
}

#[test]
fn config_get_gc_settings_in_force() {
    let gc = GcConfig::slow().with_enabled(false);
    assert_eq!(bulk_text(&ConfigCmd::get_reply(&Some("gc.interval".to_string()), 1, &gc)), "500");
    assert_eq!(bulk_text(&ConfigCmd::get_reply(&Some("gc.batch".to_string()), 1, &gc)), "200");
    assert_eq!(bulk_text(&ConfigCmd::get_reply(&Some("gc.enabled".to_string()), 1, &gc)), "false");
    let sub_ms = GcConfig::default().with_interval(Duration::from_micros(1_500));
    assert_eq!(bulk_text(&ConfigCmd::get_reply(&Some("gc.interval".to_string()), 1, &sub_ms)), "1");
}

#[test]
fn config_reply_returns_adopted_gc_settings() {
    let cmd = ConfigCmd::parse_frames(&mut command(&["set", "gc.interval", "750"])).unwrap();
    let (f, limit, adopted) = cmd.reply(9, &GcConfig::fast());
    assert_eq!(bulk_text(&f), "OK");
    assert_eq!(limit, None);
    let adopted = adopted.unwrap();
    assert_eq!(adopted.cleanup_interval, Duration::from_millis(750));
    assert_eq!(adopted.batch_size, 50);
}

#[test]
fn command_error_messages() {
    match ConfigCmd::parse_frames(&mut command(&["Nope"])) {
        Err(e) => assert_eq!(e.message(), "Invalid CONFIG subcommand: nope"),
        Ok(c) => panic!("unexpected {:?}", c),
    }
    match ConfigCmd::parse_frames(&mut command(&["list", "x"])) {
        Err(e) => assert_eq!(e.message(), "protocol error; expected end of frame, but there was more"),
        Ok(c) => panic!("unexpected {:?}", c),
    }
    assert_eq!(ParseError::EndOfStream.message(), "protocol error; unexpected end of stream");
    assert_eq!(ParseError::InvalidUtf8.message(), "protocol error; invalid string");
}
