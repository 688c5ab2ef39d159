//! The CONFIG command: reads and changes server settings at run time.
//!
//! ```text
//! CONFIG GET maxkeys
//! CONFIG SET maxkeys 1000
//! CONFIG SET gc.interval 500
//! CONFIG LIST
//! ```

use vstd::prelude::*;

use crate::cmd::{
    failure_frame, failure_frame_with, opt_text, shows, shows_lines, text_frame, CommandError,
    CommandErrorView, Reply,
};
use crate::frame::{advance, finish_of, next_string_of, string_of, Frame, Parse, ParseError};
use crate::gc_config::GcConfig;
use crate::time::{duration_as_millis, duration_from_millis, millis_duration, whole_millis};
use crate::text::{
    decimal, decimal_string, lemma_parse_decimal, push_decimal, lower_case, parse_decimal, parse_unsigned,
    text_eq, to_lowercase,
};

verus! {

/// A CONFIG command.
#[derive(Debug)]
pub struct ConfigCmd {
    pub subcommand: ConfigSubcommand,
}

/// What a CONFIG command asks for.
#[derive(Debug)]
#[allow(inconsistent_fields)]
pub enum ConfigSubcommand {
    Get { parameter: Option<String> },
    SetParameter { parameter: String, value: String },
    List,
}

/// A `ConfigSubcommand` with its strings taken as character sequences.
#[allow(inconsistent_fields)]
pub enum ConfigSubcommandView {
    Get { parameter: Option<Seq<char>> },
    SetParameter { parameter: Seq<char>, value: Seq<char> },
    List,
}

impl View for ConfigSubcommand {
    type V = ConfigSubcommandView;

    open spec fn view(&self) -> ConfigSubcommandView {
        match self {
            ConfigSubcommand::Get { parameter } => ConfigSubcommandView::Get {
                parameter: opt_text(*parameter),
            },
            ConfigSubcommand::SetParameter { parameter, value } => ConfigSubcommandView::SetParameter {
                parameter: parameter@,
                value: value@,
            },
            ConfigSubcommand::List => ConfigSubcommandView::List,
        }
    }
}

/// The outcome of reading a CONFIG command, and the frames left after it.
pub type ConfigParse = (Result<ConfigSubcommandView, CommandErrorView>, Seq<Frame>);

/// Reading the rest of a CONFIG command once its subcommand is known in
/// lower case as `sub`; `rest` holds the frames after the subcommand.
pub open spec fn config_after_subcommand(sub: Seq<char>, rest: Seq<Frame>) -> ConfigParse {
    if sub == "get"@ {
        let parameter = match next_string_of(rest) {
            Ok(p) => Some(p),
            Err(_) => None,
        };
        let left = advance(rest);
        match finish_of(left) {
            Ok(_) => (Ok(ConfigSubcommandView::Get { parameter }), left),
            Err(e) => (Err(CommandErrorView::Parse(e)), left),
        }
    } else if sub == "set"@ {
        match next_string_of(rest) {
            Err(e) => (Err(CommandErrorView::Parse(e)), advance(rest)),
            Ok(parameter) => {
                let rest1 = advance(rest);
                match next_string_of(rest1) {
                    Err(e) => (Err(CommandErrorView::Parse(e)), advance(rest1)),
                    Ok(value) => {
                        let left = advance(rest1);
                        match finish_of(left) {
                            Ok(_) => (Ok(ConfigSubcommandView::SetParameter { parameter, value }), left),
                            Err(e) => (Err(CommandErrorView::Parse(e)), left),
                        }
                    },
                }
            },
        }
    } else if sub == "list"@ {
        match finish_of(rest) {
            Ok(_) => (Ok(ConfigSubcommandView::List), rest),
            Err(e) => (Err(CommandErrorView::Parse(e)), rest),
        }
    } else {
        (Err(CommandErrorView::InvalidConfigSubcommand(sub)), rest)
    }
}

/// Reading a CONFIG command from the frames `rest` that follow the word
/// CONFIG: the subcommand is matched in lower case.
pub open spec fn config_from(rest: Seq<Frame>) -> ConfigParse {
    match next_string_of(rest) {
        Err(e) => (Err(CommandErrorView::Parse(e)), advance(rest)),
        Ok(s) => config_after_subcommand(lower_case(s), advance(rest)),
    }
}

/// The outcome of a call that reads a CONFIG command, by its views.
pub open spec fn config_outcome(r: Result<ConfigCmd, CommandError>) -> Result<
    ConfigSubcommandView,
    CommandErrorView,
> {
    match r {
        Ok(c) => Ok(c.subcommand@),
        Err(e) => Err(e@),
    }
}

/// The settings that CONFIG LIST describes, one line each.
pub open spec fn config_list_lines() -> Seq<Seq<char>> {
    seq![
        "maxkeys - Maximum number of keys in LRU cache (1-1,000,000)"@,
        "gc.interval - GC cleanup interval in milliseconds (100-10000)"@,
        "gc.batch - GC batch size for cleanup operations (10-1000)"@,
        "gc.enabled - Enable/disable garbage collection (true/false)"@,
        "max.connections - Maximum concurrent connections (read-only)"@,
    ]
}

/// The text that CONFIG GET shows for the GC switch `enabled`.
pub open spec fn switch_text(enabled: bool) -> Seq<char> {
    if enabled {
        "true"@
    } else {
        "false"@
    }
}

/// The reply to CONFIG GET, when the server's key limit is `max_keys` and
/// its GC settings are `gc`.
pub open spec fn config_get_reply(parameter: Option<Seq<char>>, max_keys: nat, gc: GcConfig) -> Reply {
    match parameter {
        None => Reply::Text("Use CONFIG GET <parameter> to get specific values"@),
        Some(p) => if p == "maxkeys"@ {
            Reply::Text(decimal(max_keys))
        } else if p == "gc.interval"@ {
            Reply::Text(decimal(whole_millis(gc.cleanup_interval) as nat))
        } else if p == "gc.batch"@ {
            Reply::Text(decimal(gc.batch_size as nat))
        } else if p == "gc.enabled"@ {
            Reply::Text(switch_text(gc.enabled))
        } else if p == "max.connections"@ {
            Reply::Text("250"@)
        } else {
            Reply::Failure("Unknown configuration parameter: "@ + p)
        },
    }
}

/// The GC switch that `v` (already lower-cased) sets, if it is one of the
/// words that GC enabling accepts.
pub open spec fn switch_value(v: Seq<char>) -> Option<bool> {
    if v == "true"@ || v == "1"@ || v == "yes"@ || v == "on"@ {
        Some(true)
    } else if v == "false"@ || v == "0"@ || v == "no"@ || v == "off"@ {
        Some(false)
    } else {
        None
    }
}

/// The reply to CONFIG SET when the GC settings are `gc`, the new key limit
/// that the server must adopt, if any, and the new GC settings that it must
/// adopt, if any.
pub open spec fn config_set_outcome(parameter: Seq<char>, value: Seq<char>, gc: GcConfig) -> (
    Reply,
    Option<nat>,
    Option<GcConfig>,
) {
    if parameter == "maxkeys"@ {
        match parse_unsigned(value, usize::MAX as nat) {
            Some(n) => if 1 <= n <= 1_000_000 {
                (Reply::Text("OK"@), Some(n), None)
            } else {
                (Reply::Failure("Max keys must be between 1 and 1,000,000"@), None, None)
            },
            None => (Reply::Failure("Invalid max keys value"@), None, None),
        }
    } else if parameter == "gc.interval"@ {
        match parse_unsigned(value, u64::MAX as nat) {
            Some(n) => if 100 <= n <= 10000 {
                (Reply::Text("OK"@), None, Some(gc.interval_set(millis_duration(n as u64))))
            } else {
                (Reply::Failure("GC interval must be between 100ms and 10000ms"@), None, None)
            },
            None => (Reply::Failure("Invalid GC interval value"@), None, None),
        }
    } else if parameter == "gc.batch"@ {
        match parse_unsigned(value, usize::MAX as nat) {
            Some(n) => if 10 <= n <= 1000 {
                (Reply::Text("OK"@), None, Some(gc.batch_size_set(n as usize)))
            } else {
                (Reply::Failure("GC batch size must be between 10 and 1000"@), None, None)
            },
            None => (Reply::Failure("Invalid GC batch size value"@), None, None),
        }
    } else if parameter == "gc.enabled"@ {
        match switch_value(lower_case(value)) {
            Some(b) => (Reply::Text("OK"@), None, Some(gc.enabled_set(b))),
            None => (
                Reply::Failure(
                    "Invalid GC enabled value. Use true/false, 1/0, yes/no, or on/off"@,
                ),
                None,
                None,
            ),
        }
    } else {
        (Reply::Failure("Unknown or read-only configuration parameter: "@ + parameter), None, None)
    }
}

/// The text that CONFIG GET shows for `parameter` once CONFIG SET has
/// adopted `value` for it: the number read from `value` in decimal, or the
/// switch it names.
pub open spec fn shown_after_set(parameter: Seq<char>, value: Seq<char>) -> Seq<char> {
    if parameter == "gc.enabled"@ {
        switch_text(switch_value(lower_case(value)) == Some(true))
    } else if parameter == "gc.interval"@ {
        decimal(parse_unsigned(value, u64::MAX as nat)->0)
    } else {
        decimal(parse_unsigned(value, usize::MAX as nat)->0)
    }
}

proof fn lemma_setting_names_differ()
    ensures
        "gc.interval"@ != "maxkeys"@,
        "gc.batch"@ != "maxkeys"@,
        "gc.batch"@ != "gc.interval"@,
        "gc.enabled"@ != "maxkeys"@,
        "gc.enabled"@ != "gc.interval"@,
        "gc.enabled"@ != "gc.batch"@,
{
    reveal_strlit("maxkeys");
    reveal_strlit("gc.interval");
    reveal_strlit("gc.batch");
    reveal_strlit("gc.enabled");
    assert("gc.interval"@.len() != "maxkeys"@.len());
    assert("gc.batch"@[0] != "maxkeys"@[0]);
    assert("gc.batch"@.len() != "gc.interval"@.len());
    assert("gc.enabled"@.len() != "maxkeys"@.len());
    assert("gc.enabled"@.len() != "gc.interval"@.len());
    assert("gc.enabled"@.len() != "gc.batch"@.len());
}

impl ConfigCmd {
    /// A CONFIG command asking for `subcommand`.
    pub fn new(subcommand: ConfigSubcommand) -> (c: ConfigCmd)
        ensures
            c.subcommand == subcommand,
    {
        ConfigCmd { subcommand }
    }

    /// Reads a CONFIG command from `parse`, whose word CONFIG has already
    /// been read. The subcommand is matched in lower case; GET takes an
    /// optional parameter, SET a parameter and a value, LIST nothing, and no
    /// frame may be left over.
    pub fn parse_frames(parse: &mut Parse) -> (r: Result<ConfigCmd, CommandError>)
        ensures
            config_outcome(r) == config_from(old(parse)@).0,
            final(parse)@ == config_from(old(parse)@).1,
    {
        let first = match parse.next_string() {
            Ok(s) => s,
            Err(e) => {
                return Err(CommandError::Parse(e));
            },
        };
        let sub = to_lowercase(first.as_str());
        Self::parse_subcommand(sub.as_str(), parse)
    }

    /// Reads the rest of a CONFIG command whose subcommand, in lower case, is
    /// `sub`.
    pub fn parse_subcommand(sub: &str, parse: &mut Parse) -> (r: Result<ConfigCmd, CommandError>)
        ensures
            config_outcome(r) == config_after_subcommand(sub@, old(parse)@).0,
            final(parse)@ == config_after_subcommand(sub@, old(parse)@).1,
    {
        if text_eq(sub, "get") {
            let parameter = match parse.next_string() {
                Ok(p) => Some(p),
                Err(_) => None,
            };
            match parse.finish() {
                Ok(_) => Ok(ConfigCmd::new(ConfigSubcommand::Get { parameter })),
                Err(e) => Err(CommandError::Parse(e)),
            }
        } else if text_eq(sub, "set") {
            let parameter = match parse.next_string() {
                Ok(p) => p,
                Err(e) => {
                    return Err(CommandError::Parse(e));
                },
            };
            let value = match parse.next_string() {
                Ok(v) => v,
                Err(e) => {
                    return Err(CommandError::Parse(e));
                },
            };
            match parse.finish() {
                Ok(_) => Ok(ConfigCmd::new(ConfigSubcommand::SetParameter { parameter, value })),
                Err(e) => Err(CommandError::Parse(e)),
            }
        } else if text_eq(sub, "list") {
            match parse.finish() {
                Ok(_) => Ok(ConfigCmd::new(ConfigSubcommand::List)),
                Err(e) => Err(CommandError::Parse(e)),
            }
        } else {
            Err(CommandError::InvalidConfigSubcommand(sub.to_owned()))
        }
    }

    /// The reply to CONFIG GET when the server's key limit is `max_keys` and
    /// its GC settings are `gc`.
    pub fn get_reply(parameter: &Option<String>, max_keys: usize, gc: &GcConfig) -> (f: Frame)
        ensures
            shows(f, config_get_reply(opt_text(*parameter), max_keys as nat, *gc)),
    {
        match parameter {
            None => text_frame("Use CONFIG GET <parameter> to get specific values"),
            Some(p) => {
                let p = p.as_str();
                if text_eq(p, "maxkeys") {
                    let digits = decimal_string(max_keys as u64);
                    text_frame(digits.as_str())
                } else if text_eq(p, "gc.interval") {
                    let ms = duration_as_millis(&gc.cleanup_interval);
                    let mut digits = String::new();
                    push_decimal(&mut digits, ms);
                    text_frame(digits.as_str())
                } else if text_eq(p, "gc.batch") {
                    let digits = decimal_string(gc.batch_size as u64);
                    text_frame(digits.as_str())
                } else if text_eq(p, "gc.enabled") {
                    if gc.enabled {
                        text_frame("true")
                    } else {
                        text_frame("false")
                    }
                } else if text_eq(p, "max.connections") {
                    text_frame("250")
                } else {
                    failure_frame_with("Unknown configuration parameter: ", p)
                }
            },
        }
    }

    /// The reply to setting GC enabling to `lowered`, a value already in
    /// lower case, and the switch it names, if any.
    pub fn switch_reply(lowered: &str) -> (r: (Frame, Option<bool>))
        ensures
            shows(
                r.0,
                if switch_value(lowered@) is Some {
                    Reply::Text("OK"@)
                } else {
                    Reply::Failure(
                        "Invalid GC enabled value. Use true/false, 1/0, yes/no, or on/off"@,
                    )
                },
            ),
            r.1 == switch_value(lowered@),
    {
        if text_eq(lowered, "true") || text_eq(lowered, "1") || text_eq(lowered, "yes") || text_eq(
            lowered,
            "on",
        ) {
            (text_frame("OK"), Some(true))
        } else if text_eq(lowered, "false") || text_eq(lowered, "0") || text_eq(lowered, "no")
            || text_eq(lowered, "off") {
            (text_frame("OK"), Some(false))
        } else {
            (
                failure_frame("Invalid GC enabled value. Use true/false, 1/0, yes/no, or on/off"),
                None,
            )
        }
    }

    /// The reply to CONFIG SET when the GC settings are `gc`, the key limit
    /// the server must adopt, if any, and the GC settings it must adopt, if
    /// any. CONFIG GET on the adopted settings then shows the value that was
    /// set.
    pub fn set_reply(parameter: &str, value: &str, gc: &GcConfig) -> (r: (
        Frame,
        Option<usize>,
        Option<GcConfig>,
    ))
        ensures
            shows(r.0, config_set_outcome(parameter@, value@, *gc).0),
            match r.1 {
                Some(n) => config_set_outcome(parameter@, value@, *gc).1 == Some(n as nat),
                None => config_set_outcome(parameter@, value@, *gc).1 is None,
            },
            r.2 == config_set_outcome(parameter@, value@, *gc).2,
            r.2 matches Some(c) ==> forall|m: nat|
                config_get_reply(Some(parameter@), m, c) == Reply::Text(
                    shown_after_set(parameter@, value@),
                ),
    {
        proof {
            lemma_setting_names_differ();
        }
        if text_eq(parameter, "maxkeys") {
            match parse_decimal(value, usize::MAX as u64) {
                Some(n) => {
                    if 1 <= n && n <= 1_000_000 {
                        (text_frame("OK"), Some(n as usize), None)
                    } else {
                        (failure_frame("Max keys must be between 1 and 1,000,000"), None, None)
                    }
                },
                None => (failure_frame("Invalid max keys value"), None, None),
            }
        } else if text_eq(parameter, "gc.interval") {
            match parse_decimal(value, u64::MAX) {
                Some(n) => {
                    if 100 <= n && n <= 10000 {
                        let interval = duration_from_millis(n);
                        (text_frame("OK"), None, Some(gc.with_interval(interval)))
                    } else {
                        (
                            failure_frame("GC interval must be between 100ms and 10000ms"),
                            None,
                            None,
                        )
                    }
                },
                None => (failure_frame("Invalid GC interval value"), None, None),
            }
        } else if text_eq(parameter, "gc.batch") {
            match parse_decimal(value, usize::MAX as u64) {
                Some(n) => {
                    if 10 <= n && n <= 1000 {
                        (text_frame("OK"), None, Some(gc.with_batch_size(n as usize)))
                    } else {
                        (failure_frame("GC batch size must be between 10 and 1000"), None, None)
                    }
                },
                None => (failure_frame("Invalid GC batch size value"), None, None),
            }
        } else if text_eq(parameter, "gc.enabled") {
            let lowered = to_lowercase(value);
            let (f, switch) = Self::switch_reply(lowered.as_str());
            match switch {
                Some(b) => (f, None, Some(gc.with_enabled(b))),
                None => (f, None, None),
            }
        } else {
            (
                failure_frame_with("Unknown or read-only configuration parameter: ", parameter),
                None,
                None,
            )
        }
    }

    /// The reply to CONFIG LIST: one bulk line per setting.
    pub fn list_reply() -> (f: Frame)
        ensures
            shows_lines(f, config_list_lines()),
    {
        let mut f = Frame::array();
        let lines = [
            "maxkeys - Maximum number of keys in LRU cache (1-1,000,000)",
            "gc.interval - GC cleanup interval in milliseconds (100-10000)",
            "gc.batch - GC batch size for cleanup operations (10-1000)",
            "gc.enabled - Enable/disable garbage collection (true/false)",
            "max.connections - Maximum concurrent connections (read-only)",
        ];
        let mut i: usize = 0;
        while i < 5
            invariant
                0 <= i <= 5,
                lines@.len() == 5,
                forall|j: int| 0 <= j < 5 ==> #[trigger] lines@[j]@ == config_list_lines()[j],
                f is Array,
                f.parts().len() == i,
                forall|j: int| 0 <= j < i ==> shows(#[trigger] f.parts()[j], Reply::Text(config_list_lines()[j])),
            decreases 5 - i,
        {
            let line = lines[i];
            let item = text_frame(line);
            match item {
                Frame::Bulk(b) => f.push_bulk(b),
                _ => {},
            }
            i = i + 1;
        }
        f
    }

    /// The reply this command sends, when the server's key limit is
    /// `max_keys` and its GC settings are `gc`, with the key limit and the GC
    /// settings the server must adopt, if any.
    pub fn reply(&self, max_keys: usize, gc: &GcConfig) -> (r: (
        Frame,
        Option<usize>,
        Option<GcConfig>,
    ))
        ensures
            match self.subcommand@ {
                ConfigSubcommandView::Get { parameter } => {
                    &&& shows(r.0, config_get_reply(parameter, max_keys as nat, *gc))
                    &&& r.1 is None
                    &&& r.2 is None
                },
                ConfigSubcommandView::SetParameter { parameter, value } => {
                    &&& shows(r.0, config_set_outcome(parameter, value, *gc).0)
                    &&& match r.1 {
                        Some(n) => config_set_outcome(parameter, value, *gc).1 == Some(n as nat),
                        None => config_set_outcome(parameter, value, *gc).1 is None,
                    }
                    &&& r.2 == config_set_outcome(parameter, value, *gc).2
                },
                ConfigSubcommandView::List => {
                    &&& shows_lines(r.0, config_list_lines())
                    &&& r.1 is None
                    &&& r.2 is None
                },
            },
    {
        match &self.subcommand {
            ConfigSubcommand::Get { parameter } => (Self::get_reply(parameter, max_keys, gc), None, None),
            ConfigSubcommand::SetParameter { parameter, value } => Self::set_reply(
                parameter.as_str(),
                value.as_str(),
                gc,
            ),
            ConfigSubcommand::List => (Self::list_reply(), None, None),
        }
    }
}

/// Every key limit that CONFIG SET adopts comes from the `maxkeys`
/// parameter and lies between 1 and 1,000,000; CONFIG GET maxkeys then
/// reports it in decimal, and sending that report back with CONFIG SET
/// maxkeys is accepted and adopts the same limit again.
pub proof fn law_maxkeys_round_trip(
    parameter: Seq<char>,
    value: Seq<char>,
    gc: GcConfig,
    n: nat,
)
    requires
        config_set_outcome(parameter, value, gc).1 == Some(n),
    ensures
        parameter == "maxkeys"@,
        1 <= n <= 1_000_000,
        config_get_reply(Some("maxkeys"@), n, gc) == Reply::Text(decimal(n)),
        config_set_outcome("maxkeys"@, decimal(n), gc) == (
            Reply::Text("OK"@),
            Some(n),
            None::<GcConfig>,
        ),
{
    lemma_parse_decimal(n, usize::MAX as nat);
}

/// A CONFIG GET or SET whose arguments arrive as bulk frames of UTF-8 text
/// is read as exactly those arguments, with no frame left.
pub proof fn law_config_reads_its_arguments(p: Seq<char>, v: Seq<char>, fp: Frame, fv: Frame)
    requires
        shows(fp, Reply::Text(p)),
        shows(fv, Reply::Text(v)),
    ensures
        config_after_subcommand("get"@, seq![fp]) == (
            Ok::<ConfigSubcommandView, CommandErrorView>(
                ConfigSubcommandView::Get { parameter: Some(p) },
            ),
            Seq::<Frame>::empty(),
        ),
        config_after_subcommand("set"@, seq![fp, fv]) == (
            Ok::<ConfigSubcommandView, CommandErrorView>(
                ConfigSubcommandView::SetParameter { parameter: p, value: v },
            ),
            Seq::<Frame>::empty(),
        ),
{
    broadcast use vstd::utf8::encode_utf8_valid_utf8, vstd::utf8::encode_utf8_decode_utf8;

    assert("get"@ != "set"@) by {
        reveal_strlit("get");
        reveal_strlit("set");
        assert("get"@[0] != "set"@[0]);
    }
    assert(seq![fp].drop_first() =~= Seq::<Frame>::empty());
    assert(seq![fp, fv].drop_first() =~= seq![fv]);
    assert(seq![fv].drop_first() =~= Seq::<Frame>::empty());
}

/// CONFIG SET gc.interval adopts GC settings exactly for an interval
/// between 100 and 10000 milliseconds, and the settings adopted are the old
/// ones with the interval sent. Any other number, above 10000 or below 100,
/// is answered with the range error and adopts nothing, and no key limit is
/// ever adopted by it.
pub proof fn law_gc_interval_range(value: Seq<char>, gc: GcConfig, n: nat)
    requires
        parse_unsigned(value, u64::MAX as nat) == Some(n),
    ensures
        config_set_outcome("gc.interval"@, value, gc).1 is None,
        config_set_outcome("gc.interval"@, value, gc).2 is Some <==> 100 <= n <= 10000,
        100 <= n <= 10000 ==> config_set_outcome("gc.interval"@, value, gc) == (
            Reply::Text("OK"@),
            None::<nat>,
            Some(gc.interval_set(millis_duration(n as u64))),
        ),
        (n < 100 || n > 10000) ==> config_set_outcome("gc.interval"@, value, gc) == (
            Reply::Failure("GC interval must be between 100ms and 10000ms"@),
            None::<nat>,
            None::<GcConfig>,
        ),
{
    lemma_setting_names_differ();
}

/// CONFIG SET gc.batch adopts GC settings exactly for a batch size between
/// 10 and 1000, and the settings adopted are the old ones with the batch
/// size sent. Any other number is answered with the range error and adopts
/// nothing.
pub proof fn law_gc_batch_range(value: Seq<char>, gc: GcConfig, n: nat)
    requires
        parse_unsigned(value, usize::MAX as nat) == Some(n),
    ensures
        config_set_outcome("gc.batch"@, value, gc).1 is None,
        config_set_outcome("gc.batch"@, value, gc).2 is Some <==> 10 <= n <= 1000,
        10 <= n <= 1000 ==> config_set_outcome("gc.batch"@, value, gc) == (
            Reply::Text("OK"@),
            None::<nat>,
            Some(gc.batch_size_set(n as usize)),
        ),
        (n < 10 || n > 1000) ==> config_set_outcome("gc.batch"@, value, gc) == (
            Reply::Failure("GC batch size must be between 10 and 1000"@),
            None::<nat>,
            None::<GcConfig>,
        ),
{
    lemma_setting_names_differ();
}

/// CONFIG SET is read only when exactly a parameter and a value follow it,
/// both as text: with any frame left after the value the command is refused
/// with the ExpectedEnd parse error. A command that is read holds the two
/// texts sent, and, whatever its subcommand, leaves no frame.
pub proof fn law_config_set_takes_two_arguments(sub: Seq<char>, rest: Seq<Frame>)
    ensures
        config_after_subcommand("set"@, rest).0 is Ok <==> {
            &&& rest.len() == 2
            &&& string_of(rest[0]) is Ok
            &&& string_of(rest[1]) is Ok
        },
        config_after_subcommand("set"@, rest).0 is Ok ==> config_after_subcommand("set"@, rest).0
            == Ok::<ConfigSubcommandView, CommandErrorView>(
            ConfigSubcommandView::SetParameter {
                parameter: string_of(rest[0])->Ok_0,
                value: string_of(rest[1])->Ok_0,
            },
        ),
        ({
            &&& rest.len() > 2
            &&& string_of(rest[0]) is Ok
            &&& string_of(rest[1]) is Ok
        }) ==> config_after_subcommand("set"@, rest).0 == Err::<
            ConfigSubcommandView,
            CommandErrorView,
        >(CommandErrorView::Parse(ParseError::ExpectedEnd)),
        config_after_subcommand(sub, rest).0 is Ok ==> config_after_subcommand(sub, rest).1.len()
            == 0,
{
    assert("get"@ != "set"@) by {
        reveal_strlit("get");
        reveal_strlit("set");
        assert("get"@[0] != "set"@[0]);
    }
    if rest.len() >= 2 {
        assert(advance(rest) =~= rest.drop_first());
        assert(advance(advance(rest)).len() == rest.len() - 2);
    }
}

/// CONFIG SET gc.enabled switches GC on for the words `true`, `1`, `yes`
/// and `on`, and off for `false`, `0`, `no` and `off`, in any case; every
/// other value is refused and adopts nothing.
pub proof fn law_gc_enabled_words(value: Seq<char>, gc: GcConfig)
    ensures
        config_set_outcome("gc.enabled"@, value, gc).1 is None,
        ({
            let v = lower_case(value);
            v == "true"@ || v == "1"@ || v == "yes"@ || v == "on"@
        }) ==> config_set_outcome("gc.enabled"@, value, gc) == (
            Reply::Text("OK"@),
            None::<nat>,
            Some(gc.enabled_set(true)),
        ),
        ({
            let v = lower_case(value);
            v == "false"@ || v == "0"@ || v == "no"@ || v == "off"@
        }) ==> config_set_outcome("gc.enabled"@, value, gc) == (
            Reply::Text("OK"@),
            None::<nat>,
            Some(gc.enabled_set(false)),
        ),
        ({
            let v = lower_case(value);
            v != "true"@ && v != "1"@ && v != "yes"@ && v != "on"@ && v != "false"@ && v != "0"@
                && v != "no"@ && v != "off"@
        }) ==> config_set_outcome("gc.enabled"@, value, gc) == (
            Reply::Failure("Invalid GC enabled value. Use true/false, 1/0, yes/no, or on/off"@),
            None::<nat>,
            None::<GcConfig>,
        ),
{
    lemma_setting_names_differ();
    reveal_strlit("true");
    reveal_strlit("1");
    reveal_strlit("yes");
    reveal_strlit("on");
    reveal_strlit("false");
    reveal_strlit("0");
    reveal_strlit("no");
    reveal_strlit("off");
    assert("false"@.len() != "true"@.len() || "false"@[0] != "true"@[0]);
    assert("false"@.len() != "1"@.len() || "false"@[0] != "1"@[0]);
    assert("false"@.len() != "yes"@.len() || "false"@[0] != "yes"@[0]);
    assert("false"@.len() != "on"@.len() || "false"@[0] != "on"@[0]);
    assert("0"@.len() != "true"@.len() || "0"@[0] != "true"@[0]);
    assert("0"@.len() != "1"@.len() || "0"@[0] != "1"@[0]);
    assert("0"@.len() != "yes"@.len() || "0"@[0] != "yes"@[0]);
    assert("0"@.len() != "on"@.len() || "0"@[0] != "on"@[0]);
    assert("no"@.len() != "true"@.len() || "no"@[0] != "true"@[0]);
    assert("no"@.len() != "1"@.len() || "no"@[0] != "1"@[0]);
    assert("no"@.len() != "yes"@.len() || "no"@[0] != "yes"@[0]);
    assert("no"@.len() != "on"@.len() || "no"@[0] != "on"@[0]);
    assert("off"@.len() != "true"@.len() || "off"@[0] != "true"@[0]);
    assert("off"@.len() != "1"@.len() || "off"@[0] != "1"@[0]);
    assert("off"@.len() != "yes"@.len() || "off"@[0] != "yes"@[0]);
    assert("off"@.len() != "on"@.len() || "off"@[0] != "on"@[0]);
}

} // verus!
