//! The system-call bridge: one canonical binary interface to the kernel.
//!
//! A call is a method identifier and three argument words; the kernel
//! answers with a status word and one extra word. The library builds calls
//! and reads answers; the trap between the two belongs to the caller.

use vstd::prelude::*;

verus! {

/// The version of the binary interface that this module describes: method
/// in the fourth register, arguments in the first three, status and extra
/// word back in the first two.
pub const ABI_VERSION: u32 = 1;

/// The operations that the kernel offers, in the order of its own
/// enumeration: a method's place is its number. The first seven are the
/// established ones and keep their numbers; the two that serve listeners
/// and poll sets follow them.
#[derive(Clone, Copy, Debug, PartialEq, Eq, Structural)]
pub enum SysCallMethod {
    /// Writes a debug line. Deprecated.
    KlogPrint,
    /// Reads the monotonic clock.
    GetTime,
    /// Opens a channel to a named service.
    RequestChannel,
    /// Registers the caller as the server of a name.
    RegisterChannelListener,
    /// Blocks on the conditions of one handle.
    WaitOne,
    /// Releases a handle.
    CloseHandle,
    /// Ends the process.
    Abort,
    /// Takes one pending connection from a listener.
    AcceptChannel,
    /// Creates the waiter group behind a poll set.
    CreatePollSet,
}

impl SysCallMethod {
    /// The number by which the kernel knows the method.
    pub open spec fn spec_number(self) -> int {
        match self {
            SysCallMethod::KlogPrint => 0,
            SysCallMethod::GetTime => 1,
            SysCallMethod::RequestChannel => 2,
            SysCallMethod::RegisterChannelListener => 3,
            SysCallMethod::WaitOne => 4,
            SysCallMethod::CloseHandle => 5,
            SysCallMethod::Abort => 6,
            SysCallMethod::AcceptChannel => 7,
            SysCallMethod::CreatePollSet => 8,
        }
    }

    /// The number by which the kernel knows the method.
    pub fn number(self) -> (n: usize)
        ensures
            n == self.spec_number(),
    {
        match self {
            SysCallMethod::KlogPrint => 0,
            SysCallMethod::GetTime => 1,
            SysCallMethod::RequestChannel => 2,
            SysCallMethod::RegisterChannelListener => 3,
            SysCallMethod::WaitOne => 4,
            SysCallMethod::CloseHandle => 5,
            SysCallMethod::Abort => 6,
            SysCallMethod::AcceptChannel => 7,
            SysCallMethod::CreatePollSet => 8,
        }
    }
}

/// One call as the kernel sees it: the method and its three argument
/// words. A word that a method does not use is zero.
#[derive(Clone, Copy, Debug, PartialEq, Eq, Structural)]
pub struct SysCall {
    pub method: SysCallMethod,
    pub a: usize,
    pub b: usize,
    pub c: usize,
}

/// What the kernel hands back from one call: the status word, and a second
/// word for results that do not fit in one.
#[derive(Clone, Copy, Debug, PartialEq, Eq, Structural)]
pub struct SysReturn {
    pub status: usize,
    pub extra: usize,
}

/// The low 32 bits of a machine word: what a word carries where the
/// kernel answers with a 32-bit value.
pub open spec fn low_half(word: usize) -> u32 {
    (word as int % 0x1_0000_0000) as u32
}

/// The low 32 bits of a machine word.
pub fn low_half_of(word: usize) -> (half: u32)
    ensures
        half == low_half(word),
        word <= u32::MAX ==> half == word,
{
    ((word as u64) % 0x1_0000_0000u64) as u32
}

/// One call as the library means it, before text has an address.
#[derive(Clone, Copy, Debug, PartialEq, Eq)]
pub enum Request<'a> {
    /// Answered with a status only.
    KlogPrint { msg: &'a str },
    /// Answered with the tick count, split over the two words.
    GetTime,
    /// Answered with a status and the new handle.
    RequestChannel { name: &'a str },
    /// Answered with a status and the new handle.
    RegisterChannelListener { name: &'a str },
    /// Answered with a status and the signalled mask.
    WaitOne { handle: u32, mask: u32 },
    /// Answered with a status only.
    CloseHandle { handle: u32 },
    /// Not answered.
    Abort { code: isize },
    /// Answered with a status and the new handle.
    AcceptChannel { listener: u32 },
    /// Answered with a status and the new handle.
    CreatePollSet,
}

impl<'a> Request<'a> {
    /// The kernel method that serves the request.
    pub open spec fn spec_method(self) -> SysCallMethod {
        match self {
            Request::KlogPrint { .. } => SysCallMethod::KlogPrint,
            Request::GetTime => SysCallMethod::GetTime,
            Request::RequestChannel { .. } => SysCallMethod::RequestChannel,
            Request::RegisterChannelListener { .. } => SysCallMethod::RegisterChannelListener,
            Request::WaitOne { .. } => SysCallMethod::WaitOne,
            Request::CloseHandle { .. } => SysCallMethod::CloseHandle,
            Request::Abort { .. } => SysCallMethod::Abort,
            Request::AcceptChannel { .. } => SysCallMethod::AcceptChannel,
            Request::CreatePollSet => SysCallMethod::CreatePollSet,
        }
    }

    /// The text that the request passes by address and length, if any.
    pub open spec fn spec_text(self) -> Option<&'a str> {
        match self {
            Request::KlogPrint { msg } => Some(msg),
            Request::RequestChannel { name } => Some(name),
            Request::RegisterChannelListener { name } => Some(name),
            _ => None,
        }
    }

    /// The call that carries the request, where `text` is the address of
    /// the request's text.
    pub open spec fn spec_encode(self, text: usize) -> SysCall {
        let method = self.spec_method();
        match self {
            Request::KlogPrint { msg } => SysCall { method, a: text, b: msg.len(), c: 0 },
            Request::GetTime => SysCall { method, a: 0, b: 0, c: 0 },
            Request::RequestChannel { name } => SysCall { method, a: text, b: name.len(), c: 0 },
            Request::RegisterChannelListener { name } => SysCall {
                method,
                a: text,
                b: name.len(),
                c: 0,
            },
            Request::WaitOne { handle, mask } => SysCall {
                method,
                a: handle as usize,
                b: mask as usize,
                c: 0,
            },
            Request::CloseHandle { handle } => SysCall { method, a: handle as usize, b: 0, c: 0 },
            Request::Abort { code } => SysCall { method, a: code as usize, b: 0, c: 0 },
            Request::AcceptChannel { listener } => SysCall {
                method,
                a: listener as usize,
                b: 0,
                c: 0,
            },
            Request::CreatePollSet => SysCall { method, a: 0, b: 0, c: 0 },
        }
    }

    /// The kernel method that serves the request.
    pub fn method(&self) -> (method: SysCallMethod)
        ensures
            method == self.spec_method(),
    {
        match self {
            Request::KlogPrint { .. } => SysCallMethod::KlogPrint,
            Request::GetTime => SysCallMethod::GetTime,
            Request::RequestChannel { .. } => SysCallMethod::RequestChannel,
            Request::RegisterChannelListener { .. } => SysCallMethod::RegisterChannelListener,
            Request::WaitOne { .. } => SysCallMethod::WaitOne,
            Request::CloseHandle { .. } => SysCallMethod::CloseHandle,
            Request::Abort { .. } => SysCallMethod::Abort,
            Request::AcceptChannel { .. } => SysCallMethod::AcceptChannel,
            Request::CreatePollSet => SysCallMethod::CreatePollSet,
        }
    }

    /// The text that the request passes by address and length, if any. The
    /// caller takes its address and hands it to `encode`.
    pub fn text(&self) -> (text: Option<&'a str>)
        ensures
            text == self.spec_text(),
    {
        match self {
            Request::KlogPrint { msg } => Some(*msg),
            Request::RequestChannel { name } => Some(*name),
            Request::RegisterChannelListener { name } => Some(*name),
            _ => None,
        }
    }

    /// Lays the request out as method and argument words. `text` is the
    /// address of the request's text; a request without text ignores it.
    pub fn encode(&self, text: usize) -> (call: SysCall)
        ensures
            call == self.spec_encode(text),
    {
        let method = self.method();
        match self {
            Request::KlogPrint { msg } => SysCall { method, a: text, b: msg.len(), c: 0 },
            Request::GetTime => SysCall { method, a: 0, b: 0, c: 0 },
            Request::RequestChannel { name } => SysCall { method, a: text, b: name.len(), c: 0 },
            Request::RegisterChannelListener { name } => SysCall {
                method,
                a: text,
                b: name.len(),
                c: 0,
            },
            Request::WaitOne { handle, mask } => SysCall {
                method,
                a: *handle as usize,
                b: *mask as usize,
                c: 0,
            },
            Request::CloseHandle { handle } => SysCall { method, a: *handle as usize, b: 0, c: 0 },
            Request::Abort { code } => SysCall {
                method,
                a: #[verifier::truncate] (*code as usize),
                b: 0,
                c: 0,
            },
            Request::AcceptChannel { listener } => SysCall {
                method,
                a: *listener as usize,
                b: 0,
                c: 0,
            },
            Request::CreatePollSet => SysCall { method, a: 0, b: 0, c: 0 },
        }
    }
}

/// The word that carries an exit code is the code itself where the code
/// is not negative, and reads back as the code in every case.
pub proof fn lemma_exit_word_carries_code(code: isize)
    ensures
        code >= 0 ==> code as usize == code,
        (code as usize) as isize == code,
{
    assert((code as usize) as isize == code) by (bit_vector);
}

impl SysCall {
    /// The register image of the call: the arguments in the first three
    /// registers, the method's number in the fourth.
    pub fn registers(&self) -> (r: (usize, usize, usize, usize))
        ensures
            r == (self.a, self.b, self.c, self.method.spec_number() as usize),
    {
        (self.a, self.b, self.c, self.method.number())
    }
}

/// Builds the request that writes one debug line to the kernel log.
/// Deprecated with the kernel method it names.
pub fn klog_print<'a>(msg: &'a str) -> (request: Request<'a>)
    ensures
        request == (Request::KlogPrint { msg }),
{
    Request::KlogPrint { msg }
}

/// Builds the request that ends the process with `retval` as its exit
/// status. The kernel does not answer it.
pub fn abort(retval: isize) -> (request: Request<'static>)
    ensures
        request == (Request::Abort { code: retval }),
{
    Request::Abort { code: retval }
}

} // verus!
