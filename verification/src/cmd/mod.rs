//! Commands that read their arguments from a `Parse` cursor, and the reply
//! frames they produce.

pub mod config;
pub mod gc;
pub mod info;

use vstd::prelude::*;
use vstd::utf8::encode_utf8;

use crate::frame::{parse_error_text, Frame, ParseError};
use crate::text::{push_text, utf8_bytes};

verus! {

/// Why a command could not be read.
#[derive(Debug)]
pub enum CommandError {
    /// An argument was missing, not a string, or left over.
    Parse(ParseError),
    /// The CONFIG subcommand (lower-cased) is none of GET, SET, LIST.
    InvalidConfigSubcommand(String),
    /// The GC subcommand (lower-cased) is neither GET nor SET.
    InvalidGcSubcommand(String),
    /// The GC SET parameter (lower-cased) is none of interval, batch, enabled.
    InvalidGcParameter(String),
}

/// A `CommandError` with its strings taken as character sequences.
pub enum CommandErrorView {
    Parse(ParseError),
    InvalidConfigSubcommand(Seq<char>),
    InvalidGcSubcommand(Seq<char>),
    InvalidGcParameter(Seq<char>),
}

impl View for CommandError {
    type V = CommandErrorView;

    open spec fn view(&self) -> CommandErrorView {
        match self {
            CommandError::Parse(e) => CommandErrorView::Parse(*e),
            CommandError::InvalidConfigSubcommand(s) => CommandErrorView::InvalidConfigSubcommand(s@),
            CommandError::InvalidGcSubcommand(s) => CommandErrorView::InvalidGcSubcommand(s@),
            CommandError::InvalidGcParameter(s) => CommandErrorView::InvalidGcParameter(s@),
        }
    }
}

/// The text that describes a command error.
pub open spec fn command_error_text(e: CommandErrorView) -> Seq<char> {
    match e {
        CommandErrorView::Parse(p) => parse_error_text(p),
        CommandErrorView::InvalidConfigSubcommand(s) => "Invalid CONFIG subcommand: "@ + s,
        CommandErrorView::InvalidGcSubcommand(s) => "Invalid GC subcommand: "@ + s,
        CommandErrorView::InvalidGcParameter(s) => "Invalid GC parameter: "@ + s,
    }
}

impl CommandError {
    /// The text that describes this error.
    pub fn message(&self) -> (r: String)
        ensures
            r@ == command_error_text(self@),
    {
        match self {
            CommandError::Parse(p) => p.message(),
            CommandError::InvalidConfigSubcommand(s) => {
                let mut r = "Invalid CONFIG subcommand: ".to_owned();
                push_text(&mut r, s.as_str());
                r
            },
            CommandError::InvalidGcSubcommand(s) => {
                let mut r = "Invalid GC subcommand: ".to_owned();
                push_text(&mut r, s.as_str());
                r
            },
            CommandError::InvalidGcParameter(s) => {
                let mut r = "Invalid GC parameter: ".to_owned();
                push_text(&mut r, s.as_str());
                r
            },
        }
    }
}

/// The reply a command sends: a bulk frame holding text, or an error frame.
pub enum Reply {
    Text(Seq<char>),
    Failure(Seq<char>),
}

/// Whether the frame `f` is the reply `r`.
pub open spec fn shows(f: Frame, r: Reply) -> bool {
    match r {
        Reply::Text(t) => f matches Frame::Bulk(b) && b@ == encode_utf8(t),
        Reply::Failure(t) => f matches Frame::Error(s) && s@ == t,
    }
}

/// Whether `f` is an array frame of bulk frames holding the texts `lines`.
pub open spec fn shows_lines(f: Frame, lines: Seq<Seq<char>>) -> bool {
    &&& f is Array
    &&& f.parts().len() == lines.len()
    &&& forall|i: int| 0 <= i < lines.len() ==> shows(#[trigger] f.parts()[i], Reply::Text(lines[i]))
}

/// A bulk frame holding `t`.
pub fn text_frame(t: &str) -> (f: Frame)
    ensures
        shows(f, Reply::Text(t@)),
{
    Frame::Bulk(utf8_bytes(t))
}

/// An error frame holding `t`.
pub fn failure_frame(t: &str) -> (f: Frame)
    ensures
        shows(f, Reply::Failure(t@)),
{
    Frame::Error(t.to_owned())
}

/// An error frame holding `t` followed by `detail`.
pub fn failure_frame_with(t: &str, detail: &str) -> (f: Frame)
    ensures
        shows(f, Reply::Failure(t@ + detail@)),
{
    let mut s = t.to_owned();
    push_text(&mut s, detail);
    Frame::Error(s)
}

/// The text of an optional string.
pub open spec fn opt_text(o: Option<String>) -> Option<Seq<char>> {
    match o {
        Some(s) => Some(s@),
        None => None,
    }
}

} // verus!
