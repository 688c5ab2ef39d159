//! Frames of the Redis protocol, and the cursor that commands read their
//! arguments from.

use vstd::prelude::*;
use vstd::utf8::{decode_utf8, valid_utf8};

use crate::text::string_from_utf8;

verus! {

/// A frame of the Redis protocol. Bulk payloads are held as plain bytes.
#[derive(Debug)]
pub enum Frame {
    Simple(String),
    Error(String),
    Integer(i64),
    Bulk(Vec<u8>),
    Null,
    Array(Vec<Frame>),
}

impl Frame {
    /// The frames inside an array frame; empty for any other frame.
    pub open spec fn parts(self) -> Seq<Frame> {
        match self {
            Frame::Array(v) => v@,
            _ => Seq::empty(),
        }
    }

    /// An empty array frame.
    pub fn array() -> (f: Frame)
        ensures
            f is Array,
            f.parts() == Seq::<Frame>::empty(),
    {
        Frame::Array(Vec::new())
    }

    /// Appends a bulk frame holding `bytes` to this array frame.
    pub fn push_bulk(&mut self, bytes: Vec<u8>)
        requires
            *old(self) is Array,
        ensures
            *final(self) is Array,
            final(self).parts() == old(self).parts().push(Frame::Bulk(bytes)),
    {
        match self {
            Frame::Array(vec) => {
                vec.push(Frame::Bulk(bytes));
            },
            _ => {},
        }
    }
}

/// Why a frame could not be read as the next argument of a command.
#[derive(Clone, Copy, Debug, PartialEq, Eq, Structural)]
pub enum ParseError {
    /// No frame is left.
    EndOfStream,
    /// The frame is neither a simple nor a bulk frame.
    NotAString,
    /// The bulk frame does not hold valid UTF-8.
    InvalidUtf8,
    /// Frames are left over after the last argument.
    ExpectedEnd,
    /// A command must arrive as an array frame.
    NotAnArray,
}

/// The text that describes a parse error.
pub open spec fn parse_error_text(e: ParseError) -> Seq<char> {
    match e {
        ParseError::EndOfStream => "protocol error; unexpected end of stream"@,
        ParseError::NotAString => "protocol error; expected simple frame or bulk frame"@,
        ParseError::InvalidUtf8 => "protocol error; invalid string"@,
        ParseError::ExpectedEnd => "protocol error; expected end of frame, but there was more"@,
        ParseError::NotAnArray => "protocol error; expected array"@,
    }
}

impl ParseError {
    /// The text that describes this error.
    pub fn message(&self) -> (r: String)
        ensures
            r@ == parse_error_text(*self),
    {
        match self {
            ParseError::EndOfStream => "protocol error; unexpected end of stream".to_owned(),
            ParseError::NotAString => "protocol error; expected simple frame or bulk frame".to_owned(),
            ParseError::InvalidUtf8 => "protocol error; invalid string".to_owned(),
            ParseError::ExpectedEnd => "protocol error; expected end of frame, but there was more".to_owned(),
            ParseError::NotAnArray => "protocol error; expected array".to_owned(),
        }
    }
}

/// The text that `f` gives as a command argument.
pub open spec fn string_of(f: Frame) -> Result<Seq<char>, ParseError> {
    match f {
        Frame::Simple(s) => Ok(s@),
        Frame::Bulk(b) => if valid_utf8(b@) {
            Ok(decode_utf8(b@))
        } else {
            Err(ParseError::InvalidUtf8)
        },
        _ => Err(ParseError::NotAString),
    }
}

/// The text that the first of the frames `rest` gives as an argument.
pub open spec fn next_string_of(rest: Seq<Frame>) -> Result<Seq<char>, ParseError> {
    if rest.len() == 0 {
        Err(ParseError::EndOfStream)
    } else {
        string_of(rest[0])
    }
}

/// The frames left once the next one is read.
pub open spec fn advance(rest: Seq<Frame>) -> Seq<Frame> {
    if rest.len() == 0 {
        rest
    } else {
        rest.drop_first()
    }
}

/// The outcome of `Parse::finish` on the frames `rest`.
pub open spec fn finish_of(rest: Seq<Frame>) -> Result<(), ParseError> {
    if rest.len() == 0 {
        Ok(())
    } else {
        Err(ParseError::ExpectedEnd)
    }
}

/// A cursor over the frames of a command; its view is the frames not yet
/// read.
pub struct Parse {
    parts: Vec<Frame>,
    pos: usize,
}

impl View for Parse {
    type V = Seq<Frame>;

    closed spec fn view(&self) -> Seq<Frame> {
        self.parts@.skip(self.pos as int)
    }
}

impl Parse {
    #[verifier::type_invariant]
    spec fn inv(self) -> bool {
        self.pos <= self.parts@.len()
    }

    /// Opens a cursor over the parts of an array frame.
    pub fn new(frame: Frame) -> (r: Result<Parse, ParseError>)
        ensures
            match r {
                Ok(p) => frame is Array && p@ == frame.parts(),
                Err(e) => !(frame is Array) && e == ParseError::NotAnArray,
            },
    {
        match frame {
            Frame::Array(parts) => {
                let p = Parse { parts, pos: 0 };
                assert(p@ =~= frame.parts());
                Ok(p)
            },
            _ => Err(ParseError::NotAnArray),
        }
    }

    /// Reads the next frame as a string: a simple frame gives its text, a
    /// bulk frame its bytes decoded as UTF-8. The frame is consumed either
    /// way.
    pub fn next_string(&mut self) -> (r: Result<String, ParseError>)
        ensures
            final(self)@ == advance(old(self)@),
            match r {
                Ok(s) => next_string_of(old(self)@) == Ok::<Seq<char>, ParseError>(s@),
                Err(e) => next_string_of(old(self)@) == Err::<Seq<char>, ParseError>(e),
            },
    {
        proof {
            use_type_invariant(&*self);
        }
        if self.pos >= self.parts.len() {
            return Err(ParseError::EndOfStream);
        }
        let i = self.pos;
        self.pos = i + 1;
        proof {
            assert(self@ =~= advance(old(self)@));
            assert(old(self)@[0] == self.parts@[i as int]);
        }
        match &self.parts[i] {
            Frame::Simple(s) => Ok(s.clone()),
            Frame::Bulk(b) => {
                let bytes = b.clone();
                assert(bytes@ =~= b@);
                match string_from_utf8(bytes) {
                    Some(s) => Ok(s),
                    None => Err(ParseError::InvalidUtf8),
                }
            },
            _ => Err(ParseError::NotAString),
        }
    }

    /// Succeeds when every frame has been read.
    pub fn finish(&self) -> (r: Result<(), ParseError>)
        ensures
            r == finish_of(self@),
    {
        proof {
            use_type_invariant(self);
        }
        if self.pos == self.parts.len() {
            Ok(())
        } else {
            Err(ParseError::ExpectedEnd)
        }
    }
}

} // verus!
