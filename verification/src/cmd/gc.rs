//! The GC command: checks requests about garbage collection settings.
//!
//! ```text
//! GC GET
//! GC SET interval 250
//! GC SET batch 100
//! GC SET enabled true
//! ```

use vstd::prelude::*;

use crate::cmd::{shows, text_frame, CommandError, CommandErrorView, Reply};
use crate::frame::{advance, finish_of, next_string_of, string_of, Frame, Parse};
use crate::text::{lower_case, text_eq, to_lowercase};

verus! {

/// A GC command.
#[derive(Debug)]
pub struct Gc;

/// The outcome of reading a GC command, and the frames left after it.
pub type GcParse = (Result<(), CommandErrorView>, Seq<Frame>);

/// Whether `p` (already lower-cased) names a GC setting.
pub open spec fn is_gc_parameter(p: Seq<char>) -> bool {
    p == "interval"@ || p == "batch"@ || p == "enabled"@
}

/// Reading the rest of a GC command once its subcommand is known in lower
/// case as `sub`; `rest` holds the frames after the subcommand.
pub open spec fn gc_after_subcommand(sub: Seq<char>, rest: Seq<Frame>) -> GcParse {
    if sub == "get"@ {
        match finish_of(rest) {
            Ok(_) => (Ok(()), rest),
            Err(e) => (Err(CommandErrorView::Parse(e)), rest),
        }
    } else if sub == "set"@ {
        match next_string_of(rest) {
            Err(e) => (Err(CommandErrorView::Parse(e)), advance(rest)),
            Ok(p) => {
                let rest1 = advance(rest);
                match next_string_of(rest1) {
                    Err(e) => (Err(CommandErrorView::Parse(e)), advance(rest1)),
                    Ok(_) => {
                        let left = advance(rest1);
                        match finish_of(left) {
                            Err(e) => (Err(CommandErrorView::Parse(e)), left),
                            Ok(_) => if is_gc_parameter(lower_case(p)) {
                                (Ok(()), left)
                            } else {
                                (Err(CommandErrorView::InvalidGcParameter(lower_case(p))), left)
                            },
                        }
                    },
                }
            },
        }
    } else {
        (Err(CommandErrorView::InvalidGcSubcommand(sub)), rest)
    }
}

/// Reading a GC command from the frames `rest` that follow the word GC.
pub open spec fn gc_from(rest: Seq<Frame>) -> GcParse {
    match next_string_of(rest) {
        Err(e) => (Err(CommandErrorView::Parse(e)), advance(rest)),
        Ok(s) => gc_after_subcommand(lower_case(s), advance(rest)),
    }
}

/// The outcome of a call that reads a GC command, by its views.
pub open spec fn gc_outcome(r: Result<Gc, CommandError>) -> Result<(), CommandErrorView> {
    match r {
        Ok(_) => Ok(()),
        Err(e) => Err(e@),
    }
}

impl Gc {
    /// Reads a GC command from `parse`, whose word GC has already been read.
    /// The subcommand and the SET parameter are matched in lower case; the
    /// SET value is read but not checked.
    pub fn parse_frames(parse: &mut Parse) -> (r: Result<Gc, CommandError>)
        ensures
            gc_outcome(r) == gc_from(old(parse)@).0,
            final(parse)@ == gc_from(old(parse)@).1,
    {
        let first = match parse.next_string() {
            Ok(s) => s,
            Err(e) => {
                return Err(CommandError::Parse(e));
            },
        };
        let sub = to_lowercase(first.as_str());
        Self::parse_subcommand(sub.as_str(), parse)
    }

    /// Reads the rest of a GC command whose subcommand, in lower case, is
    /// `sub`.
    pub fn parse_subcommand(sub: &str, parse: &mut Parse) -> (r: Result<Gc, CommandError>)
        ensures
            gc_outcome(r) == gc_after_subcommand(sub@, old(parse)@).0,
            final(parse)@ == gc_after_subcommand(sub@, old(parse)@).1,
    {
        if text_eq(sub, "get") {
            match parse.finish() {
                Ok(_) => Ok(Gc),
                Err(e) => Err(CommandError::Parse(e)),
            }
        } else if text_eq(sub, "set") {
            let param = match parse.next_string() {
                Ok(p) => p,
                Err(e) => {
                    return Err(CommandError::Parse(e));
                },
            };
            let param = to_lowercase(param.as_str());
            match parse.next_string() {
                Ok(_) => {},
                Err(e) => {
                    return Err(CommandError::Parse(e));
                },
            }
            match parse.finish() {
                Ok(_) => {},
                Err(e) => {
                    return Err(CommandError::Parse(e));
                },
            }
            Self::check_parameter(param.as_str())
        } else {
            Err(CommandError::InvalidGcSubcommand(sub.to_owned()))
        }
    }

    /// Accepts `param`, already in lower case, when it names a GC setting.
    pub fn check_parameter(param: &str) -> (r: Result<Gc, CommandError>)
        ensures
            gc_outcome(r) == if is_gc_parameter(param@) {
                Ok::<(), CommandErrorView>(())
            } else {
                Err(CommandErrorView::InvalidGcParameter(param@))
            },
    {
        if text_eq(param, "interval") || text_eq(param, "batch") || text_eq(param, "enabled") {
            Ok(Gc)
        } else {
            Err(CommandError::InvalidGcParameter(param.to_owned()))
        }
    }

    /// The reply a GC command sends.
    pub fn reply(&self) -> (f: Frame)
        ensures
            shows(f, Reply::Text("GC command - use GC GET for configuration, GC SET for updates"@)),
    {
        text_frame("GC command - use GC GET for configuration, GC SET for updates")
    }
}

/// A GC SET whose parameter and value arrive as bulk frames of UTF-8 text
/// is accepted exactly when the parameter, in lower case, names a GC
/// setting, and no frame is left.
pub proof fn law_gc_set_reads_its_arguments(p: Seq<char>, v: Seq<char>, fp: Frame, fv: Frame)
    requires
        shows(fp, Reply::Text(p)),
        shows(fv, Reply::Text(v)),
    ensures
        gc_after_subcommand("set"@, seq![fp, fv]) == (
            if is_gc_parameter(lower_case(p)) {
                Ok::<(), CommandErrorView>(())
            } else {
                Err(CommandErrorView::InvalidGcParameter(lower_case(p)))
            },
            Seq::<Frame>::empty(),
        ),
{
    broadcast use vstd::utf8::encode_utf8_valid_utf8, vstd::utf8::encode_utf8_decode_utf8;

    assert("get"@ != "set"@) by {
        reveal_strlit("get");
        reveal_strlit("set");
        assert("get"@[0] != "set"@[0]);
    }
    assert(seq![fp, fv].drop_first() =~= seq![fv]);
    assert(seq![fv].drop_first() =~= Seq::<Frame>::empty());
}

/// GC SET is accepted exactly when a parameter and a value follow it as
/// text, nothing follows them, and the parameter in lower case is one of
/// the three words `interval`, `batch` and `enabled`. A parameter that is
/// none of them is refused with InvalidGcParameter, which names it in lower
/// case. An accepted command leaves no frame.
pub proof fn law_gc_set_accepts_three_words(rest: Seq<Frame>)
    ensures
        gc_after_subcommand("set"@, rest).0 is Ok <==> {
            &&& rest.len() == 2
            &&& string_of(rest[0]) is Ok
            &&& string_of(rest[1]) is Ok
            &&& {
                let p = lower_case(string_of(rest[0])->Ok_0);
                p == "interval"@ || p == "batch"@ || p == "enabled"@
            }
        },
        ({
            &&& rest.len() == 2
            &&& string_of(rest[0]) is Ok
            &&& string_of(rest[1]) is Ok
            &&& {
                let p = lower_case(string_of(rest[0])->Ok_0);
                p != "interval"@ && p != "batch"@ && p != "enabled"@
            }
        }) ==> gc_after_subcommand("set"@, rest).0 == Err::<(), CommandErrorView>(
            CommandErrorView::InvalidGcParameter(lower_case(string_of(rest[0])->Ok_0)),
        ),
        gc_after_subcommand("set"@, rest).0 is Ok ==> gc_after_subcommand("set"@, rest).1.len()
            == 0,
{
    assert("get"@ != "set"@) by {
        reveal_strlit("get");
        reveal_strlit("set");
        assert("get"@[0] != "set"@[0]);
    }
    if rest.len() >= 2 {
        assert(advance(rest) =~= rest.drop_first());
        assert(advance(advance(rest)).len() == rest.len() - 2);
    }
}

} // verus!
