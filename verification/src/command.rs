//! The bounded command line buffer: bytes arrive one at a time from the
//! input transport and accumulate until the newline that completes the
//! command.  Overflow is rejected with an error rather than blocking —
//! the reject-with-error side of the two queueing policies.

use vstd::prelude::*;

use vstd::utf8::decode_utf8;
use vstd::utf8::valid_utf8;

verus! {

/// Fixed size of the command line buffer, in bytes.
pub const COMMAND_BUFFER_SIZE: usize = 32;

/// Why a byte could not be appended to the command buffer.
#[derive(Clone, Copy, PartialEq, Eq, Structural, Debug)]
pub enum CommandError {
    EOLReached,
    BufferOverflow,
}

impl CommandError {
    /// A human-readable description of the error.
    pub fn message(&self) -> (r: &'static str)
        ensures
            *self is EOLReached ==> r@ == "cannot append to buffer after command is complete"@,
            *self is BufferOverflow ==> r@ == "command too long for buffer"@,
    {
        match self {
            CommandError::EOLReached => "cannot append to buffer after command is complete",
            CommandError::BufferOverflow => "command too long for buffer",
        }
    }
}

/// One command line under construction.
pub struct Command {
    buf: [u8; COMMAND_BUFFER_SIZE],
    current_buf_idx: usize,
    is_eol: bool,
}

impl Command {
    /// The bytes accumulated so far (the trailing separator a newline
    /// plants behind them is not part of the content).
    pub closed spec fn content(self) -> Seq<u8> {
        self.buf@.take(self.current_buf_idx as int)
    }

    /// Whether the terminating newline has been seen.
    pub closed spec fn complete(self) -> bool {
        self.is_eol
    }

    /// The write position never runs past the buffer.
    pub closed spec fn wf(self) -> bool {
        self.current_buf_idx <= COMMAND_BUFFER_SIZE
    }

    /// An empty, incomplete command.
    pub fn new() -> (c: Command)
        ensures
            c.wf(),
            c.content() == Seq::<u8>::empty(),
            !c.complete(),
    {
        let c = Command { buf: [0u8; COMMAND_BUFFER_SIZE], current_buf_idx: 0, is_eol: false };
        assert(c.content() =~= Seq::<u8>::empty());
        c
    }

    /// Feeds one received byte into the buffer.  A newline completes the
    /// command (planting a separator byte so later splitting treats the
    /// last argument like the others); after completion, or when the
    /// buffer is full, the byte is rejected and nothing changes.
    pub fn add_char_buf(&mut self, char_buf: &[u8; 1]) -> (r: Result<(), CommandError>)
        requires
            old(self).wf(),
        ensures
            final(self).wf(),
            old(self).complete() ==> {
                &&& r == Result::<(), CommandError>::Err(CommandError::EOLReached)
                &&& final(self).content() == old(self).content()
                &&& final(self).complete()
            },
            !old(self).complete() && old(self).content().len() == COMMAND_BUFFER_SIZE ==> {
                &&& r == Result::<(), CommandError>::Err(CommandError::BufferOverflow)
                &&& final(self).content() == old(self).content()
                &&& !final(self).complete()
            },
            !old(self).complete() && old(self).content().len() < COMMAND_BUFFER_SIZE && char_buf@[0]
                == 10 ==> {
                &&& r is Ok
                &&& final(self).content() == old(self).content()
                &&& final(self).complete()
            },
            !old(self).complete() && old(self).content().len() < COMMAND_BUFFER_SIZE && char_buf@[0]
                != 10 ==> {
                &&& r is Ok
                &&& final(self).content() == old(self).content().push(char_buf@[0])
                &&& !final(self).complete()
            },
    {
        if self.is_eol {
            return Err(CommandError::EOLReached);
        }
        let current_byte = char_buf[0];
        if current_byte == 10u8 {
            // check that there is room for the terminating separator
            if self.current_buf_idx >= COMMAND_BUFFER_SIZE {
                return Err(CommandError::BufferOverflow);
            }
            // splitting treats the last piece differently; an extra
            // separator behind the content avoids that
            self.buf[self.current_buf_idx] = 32u8;
            self.is_eol = true;
            assert(final(self).content() =~= old(self).content());
            return Ok(());
        }
        // check bounds before writing
        if self.current_buf_idx >= COMMAND_BUFFER_SIZE {
            return Err(CommandError::BufferOverflow);
        }
        self.buf[self.current_buf_idx] = current_byte;
        self.current_buf_idx = self.current_buf_idx + 1;
        assert(final(self).content() =~= old(self).content().push(char_buf@[0]));
        Ok(())
    }

    /// Whether the command has received its terminating newline.
    pub fn is_complete(&self) -> (r: bool)
        ensures
            r == self.complete(),
    {
        self.is_eol
    }

    /// The accumulated content as text: the decoded characters when the
    /// bytes are valid UTF-8, or the error when they are not.
    pub fn to_str(&self) -> (r: Result<&str, core::str::Utf8Error>)
        requires
            self.wf(),
        ensures
            r is Ok <==> valid_utf8(self.content()),
            r is Ok ==> r.unwrap()@ == decode_utf8(self.content()),
    {
        let whole: &[u8] = self.buf.as_slice();
        let content = vstd::slice::slice_subrange(whole, 0, self.current_buf_idx);
        core::str::from_utf8(content)
    }

    /// The accumulated content as raw bytes, for byte-level parsing.
    pub fn content_bytes(&self) -> (r: Vec<u8>)
        requires
            self.wf(),
        ensures
            r@ == self.content(),
    {
        let whole: &[u8] = self.buf.as_slice();
        let content = vstd::slice::slice_subrange(whole, 0, self.current_buf_idx);
        vstd::slice::slice_to_vec(content)
    }
}

/// The `str::Utf8Error` type of the standard library, carried through
/// unchanged when the buffer holds invalid UTF-8.
#[verifier::external_type_specification]
#[verifier::external_body]
pub struct ExUtf8Error(core::str::Utf8Error);

/// Relies on `core::str::from_utf8`: it returns `Ok` exactly when the bytes
/// are valid UTF-8, and the resulting string views those bytes' decoding.
pub assume_specification[ core::str::from_utf8 ](v: &[u8]) -> (r: Result<
    &str,
    core::str::Utf8Error,
>)
    ensures
        r is Ok <==> valid_utf8(v@),
        r is Ok ==> r.unwrap()@ == decode_utf8(v@),
;

} // verus!
