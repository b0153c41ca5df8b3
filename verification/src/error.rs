//! The two failure channels of the boundary.
//!
//! Fallible engine calls fill an `Error` record through an out-parameter; a
//! kind of `NoError` signals success, anything else is a recoverable,
//! typed failure the caller can branch on. A distinguished subset of calls
//! reports caller-side invariant violations through a `Panic` record
//! instead; after such a call the wrapper checks the flag and turns a set
//! flag into a `Fatal` value that is not meant to be handled, only
//! surfaced.

use vstd::prelude::*;
use vstd::string::{StrSliceExecFns, StringExecFns};

verus! {

/// The kind of a recoverable failure; `NoError` signals success.
#[derive(Clone, Copy, PartialEq, Eq, Structural, Debug)]
pub enum ErrorType {
    NoError,
    Unknown,
    FileNotFound,
    EmptyFile,
    ExternalFileNotFound,
    OutOfMemory,
    MemoryLimit,
    AllocationLimit,
    TruncatedFile,
    Io,
    Cancelled,
    UnrecognizedFileFormat,
    UninitializedOptions,
    ZeroVertexSize,
    TruncatedVertexStream,
    InvalidUtf8,
    FeatureDisabled,
    BadNurbs,
    BadIndex,
    NodeDepthLimit,
    ThreadedAsciiParse,
    UnsafeOptions,
    DuplicateOverride,
}

impl Default for ErrorType {
    fn default() -> (r: Self)
        ensures
            r == ErrorType::NoError,
    {
        ErrorType::NoError
    }
}

/// One frame of the bounded call stack an error record carries.
#[derive(Debug)]
pub struct ErrorFrame {
    pub source_line: u32,
    pub function: String,
    pub description: String,
}

/// How many stack frames an error record can carry.
pub const MAX_ERROR_STACK: usize = 8;

/// How many characters the auxiliary diagnostic string can carry.
pub const MAX_ERROR_INFO: usize = 256;

/// How many characters a panic message can carry.
pub const MAX_PANIC_MESSAGE: usize = 128;

/// The recoverable-failure record a fallible engine call fills.
#[derive(Debug)]
pub struct Error {
    pub type_: ErrorType,
    pub description: String,
    pub stack_size: u32,
    pub stack: Vec<ErrorFrame>,
    pub info: String,
}

impl Error {
    /// The auxiliary diagnostic text, for contracts.
    pub open spec fn spec_info(&self) -> Seq<char> {
        self.info@
    }

    /// The record is well formed: the stack is bounded and sized as
    /// declared, the diagnostic text is bounded.
    pub open spec fn wf(&self) -> bool {
        &&& self.stack@.len() == self.stack_size
        &&& self.stack_size <= MAX_ERROR_STACK
        &&& self.spec_info().len() <= MAX_ERROR_INFO
    }

    /// The auxiliary diagnostic string.
    pub fn info_str(&self) -> (r: &str)
        ensures
            r@ == self.spec_info(),
    {
        self.info.as_str()
    }

    /// A fresh record of the given kind, with the diagnostic text truncated
    /// to its bound.
    pub fn new(type_: ErrorType, description: String, info: String) -> (r: Error)
        ensures
            r.wf(),
            r.type_ == type_,
            r.description@ == description@,
            r.stack@.len() == 0,
            r.spec_info() == if info@.len() <= MAX_ERROR_INFO {
                info@
            } else {
                info@.subrange(0, MAX_ERROR_INFO as int)
            },
    {
        Error {
            type_,
            description,
            stack_size: 0,
            stack: Vec::new(),
            info: bounded_text(info, MAX_ERROR_INFO),
        }
    }

    /// Appends one stack frame; full records drop the frame, keeping the
    /// bound.
    pub fn push_frame(&mut self, frame: ErrorFrame)
        requires
            old(self).wf(),
        ensures
            final(self).wf(),
            final(self).type_ == old(self).type_,
            final(self).description@ == old(self).description@,
            final(self).spec_info() == old(self).spec_info(),
            old(self).stack@.len() < MAX_ERROR_STACK ==> final(self).stack@ == old(
                self,
            ).stack@.push(frame),
            old(self).stack@.len() >= MAX_ERROR_STACK ==> final(self).stack@ == old(self).stack@,
    {
        if self.stack.len() < MAX_ERROR_STACK {
            self.stack.push(frame);
            self.stack_size = self.stack_size + 1;
        }
    }
}

impl Default for Error {
    fn default() -> (r: Self)
        ensures
            r.wf(),
            r.type_ == ErrorType::NoError,
            r.description@.len() == 0,
            r.stack@.len() == 0,
            r.spec_info().len() == 0,
    {
        Error {
            type_: ErrorType::NoError,
            description: String::new(),
            stack_size: 0,
            stack: Vec::new(),
            info: String::new(),
        }
    }
}

/// Truncates text to at most `max` characters.
fn bounded_text(s: String, max: usize) -> (r: String)
    ensures
        r@ == if s@.len() <= max {
            s@
        } else {
            s@.subrange(0, max as int)
        },
{
    let n = s.as_str().unicode_len();
    if n <= max {
        s
    } else {
        String::from_str(s.as_str().substring_char(0, max))
    }
}

/// The invariant-violation record a panic-channel engine call fills.
#[derive(Debug)]
pub struct Panic {
    pub did_panic: bool,
    pub message: String,
}

impl Panic {
    /// The decoded panic message, for contracts.
    pub open spec fn spec_message(&self) -> Seq<char> {
        self.message@
    }

    pub open spec fn wf(&self) -> bool {
        self.spec_message().len() <= MAX_PANIC_MESSAGE
    }

    /// The decoded panic message.
    pub fn message_str(&self) -> (r: &str)
        ensures
            r@ == self.spec_message(),
    {
        self.message.as_str()
    }

    /// Sets the flag and records the message, truncated to its bound. The
    /// engine calls this at the point a caller-supplied invariant fails.
    pub fn set(&mut self, message: String)
        ensures
            final(self).wf(),
            final(self).did_panic,
            final(self).spec_message() == if message@.len() <= MAX_PANIC_MESSAGE {
                message@
            } else {
                message@.subrange(0, MAX_PANIC_MESSAGE as int)
            },
    {
        self.did_panic = true;
        self.message = bounded_text(message, MAX_PANIC_MESSAGE);
    }
}

impl Default for Panic {
    fn default() -> (r: Self)
        ensures
            r.wf(),
            !r.did_panic,
            r.spec_message().len() == 0,
    {
        Panic { did_panic: false, message: String::new() }
    }
}

/// The unconditional, non-recoverable failure the wrapper raises when a
/// panic-channel call set the flag: not designed to be caught and continued
/// from, only surfaced.
#[derive(Debug)]
pub struct Fatal {
    pub message: String,
}

/// Turns a set panic record into the fatal failure the caller receives:
/// the failing operation's name followed by the decoded message.
pub fn fatal_from_panic(operation: &str, panic: &Panic) -> (r: Fatal)
    requires
        panic.did_panic,
    ensures
        r.message@ == operation@ + " "@ + panic.spec_message(),
{
    let mut message = String::from_str(operation);
    message.append(" ");
    message.append(panic.message_str());
    proof {
        assert(message@ =~= operation@ + " "@ + panic.spec_message());
    }
    Fatal { message }
}

/// The decimal text of one digit.
pub open spec fn digit_text(d: u32) -> Seq<char> {
    if d == 0 {
        "0"@
    } else if d == 1 {
        "1"@
    } else if d == 2 {
        "2"@
    } else if d == 3 {
        "3"@
    } else if d == 4 {
        "4"@
    } else if d == 5 {
        "5"@
    } else if d == 6 {
        "6"@
    } else if d == 7 {
        "7"@
    } else if d == 8 {
        "8"@
    } else {
        "9"@
    }
}

/// The decimal text of a number.
pub open spec fn u32_text(n: u32) -> Seq<char>
    decreases n,
{
    if n < 10 {
        digit_text(n)
    } else {
        u32_text(n / 10) + digit_text(n % 10)
    }
}

/// Renders a number in decimal.
pub fn u32_to_text(n: u32) -> (r: String)
    ensures
        r@ == u32_text(n),
    decreases n,
{
    let d = n % 10;
    let digit = if d == 0 {
        "0"
    } else if d == 1 {
        "1"
    } else if d == 2 {
        "2"
    } else if d == 3 {
        "3"
    } else if d == 4 {
        "4"
    } else if d == 5 {
        "5"
    } else if d == 6 {
        "6"
    } else if d == 7 {
        "7"
    } else if d == 8 {
        "8"
    } else {
        "9"
    };
    if n < 10 {
        String::from_str(digit)
    } else {
        let mut prefix = u32_to_text(n / 10);
        prefix.append(digit);
        prefix
    }
}

/// The text `format_error` renders for the remaining stack frames.
pub open spec fn frames_text(frames: Seq<ErrorFrame>) -> Seq<char>
    decreases frames.len(),
{
    if frames.len() == 0 {
        Seq::<char>::empty()
    } else {
        "\n  "@ + frames[0].function@ + ":"@ + u32_text(frames[0].source_line) + ": "@
            + frames[0].description@ + frames_text(frames.drop_first())
    }
}

/// The text `format_error` renders for a whole record: the description,
/// then each stack frame on its own line, then the diagnostic text if any.
pub open spec fn error_text(e: Error) -> Seq<char> {
    "error: "@ + e.description@ + frames_text(e.stack@) + if e.spec_info().len() == 0 {
        Seq::<char>::empty()
    } else {
        "\n  info: "@ + e.spec_info()
    }
}

/// Renders a bounded, human-readable description of an error record: its
/// description, its recorded stack frames, and its diagnostic text.
pub fn format_error(error: &Error) -> (r: String)
    ensures
        r@ == error_text(*error),
{
    let mut out = String::from_str("error: ");
    out.append(error.description.as_str());
    let mut i: usize = 0;
    proof {
        assert(error.stack@.skip(0) =~= error.stack@);
    }
    proof {
        assert(out@ + frames_text(error.stack@.skip(0)) =~= "error: "@ + error.description@
            + frames_text(error.stack@));
    }
    while i < error.stack.len()
        invariant
            i <= error.stack@.len(),
            out@ + frames_text(error.stack@.skip(i as int)) == "error: "@ + error.description@
                + frames_text(error.stack@),
        decreases error.stack@.len() - i,
    {
        let ghost rest = error.stack@.skip(i as int);
        let ghost prefix = out@;
        let frame = &error.stack[i];
        proof {
            assert(rest[0] == error.stack@[i as int]);
            assert(rest.drop_first() =~= error.stack@.skip(i as int + 1));
        }
        out.append("\n  ");
        out.append(frame.function.as_str());
        out.append(":");
        let line = u32_to_text(frame.source_line);
        out.append(line.as_str());
        out.append(": ");
        out.append(frame.description.as_str());
        proof {
            assert(out@ =~= prefix + ("\n  "@ + frame.function@ + ":"@ + u32_text(
                frame.source_line,
            ) + ": "@ + frame.description@));
            assert(out@ + frames_text(rest.drop_first()) =~= prefix + frames_text(rest));
        }
        i = i + 1;
    }
    proof {
        assert(error.stack@.skip(error.stack@.len() as int) =~= Seq::<ErrorFrame>::empty());
        assert(out@ + Seq::<char>::empty() =~= out@);
    }
    if error.info.as_str().unicode_len() > 0 {
        out.append("\n  info: ");
        out.append(error.info.as_str());
        proof {
            assert(out@ =~= ("error: "@ + error.description@ + frames_text(error.stack@)) + (
            "\n  info: "@ + error.spec_info()));
        }
    }
    out
}

} // verus!
