//! The INFO command: reports the server's metrics.
//!
//! ```text
//! INFO [section]
//! ```

use vstd::prelude::*;

use crate::cmd::{opt_text, shows, text_frame, CommandError, CommandErrorView, Reply};
use crate::frame::{advance, finish_of, next_string_of, Frame, Parse, ParseError};
use crate::metrics::Metrics;

verus! {

/// An INFO command, with the section it names, if any.
#[derive(Debug)]
pub struct Info {
    pub section: Option<String>,
}

impl Info {
    /// Reads an INFO command from `parse`, whose word INFO has already been
    /// read: the next frame, when it is a string, names the section, and no
    /// frame may follow it.
    pub fn parse_frames(parse: &mut Parse) -> (r: Result<Info, CommandError>)
        ensures
            final(parse)@ == advance(old(parse)@),
            match r {
                Ok(info) => {
                    &&& finish_of(advance(old(parse)@)) is Ok
                    &&& opt_text(info.section) == match next_string_of(old(parse)@) {
                        Ok(s) => Some(s),
                        Err(_) => None,
                    }
                },
                Err(e) => {
                    &&& finish_of(advance(old(parse)@)) is Err
                    &&& e@ == CommandErrorView::Parse(ParseError::ExpectedEnd)
                },
            },
    {
        let section = match parse.next_string() {
            Ok(s) => Some(s),
            Err(_) => None,
        };
        match parse.finish() {
            Ok(_) => Ok(Info { section }),
            Err(e) => Err(CommandError::Parse(e)),
        }
    }

    /// The reply an INFO command sends: the INFO report of `metrics`.
    pub fn reply(&self, metrics: &Metrics) -> (f: Frame)
        ensures
            shows(f, Reply::Text(metrics.info_text())),
    {
        let report = metrics.info_string();
        text_frame(report.as_str())
    }
}

} // verus!
