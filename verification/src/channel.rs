//! The one-shot channel between the two processes, in its two variants.

use vstd::prelude::*;
use vstd::string::StringExecFns;

verus! {

/// Permission bits of the special file behind a named channel.
pub const FIFO_MODE: u32 = 0o660;

/// Stands for the system's error code where none can be retrieved.
pub const UNKNOWN_OS_ERROR: i32 = -1;

/// The two interchangeable kinds of channel.
#[derive(Clone, Copy, Debug, PartialEq, Eq)]
pub enum ChannelVariant {
    /// A FIFO special file in a fresh temporary directory.
    Named,
    /// A pipe pair that lives in the kernel only.
    Anonymous,
}

/// The character that stands for a decimal digit.
pub open spec fn digit_char(d: nat) -> char
    recommends
        d < 10,
{
    if d == 0 {
        '0'
    } else if d == 1 {
        '1'
    } else if d == 2 {
        '2'
    } else if d == 3 {
        '3'
    } else if d == 4 {
        '4'
    } else if d == 5 {
        '5'
    } else if d == 6 {
        '6'
    } else if d == 7 {
        '7'
    } else if d == 8 {
        '8'
    } else {
        '9'
    }
}

/// The decimal numeral of `n`, without sign or leading zeros.
pub open spec fn decimal(n: nat) -> Seq<char>
    decreases n,
{
    if n < 10 {
        seq![digit_char(n)]
    } else {
        decimal(n / 10).push(digit_char(n % 10))
    }
}

fn digit_text(d: u32) -> (text: &'static str)
    requires
        d < 10,
    ensures
        text@ == seq![digit_char(d as nat)],
{
    proof {
        reveal_strlit("0");
        reveal_strlit("1");
        reveal_strlit("2");
        reveal_strlit("3");
        reveal_strlit("4");
        reveal_strlit("5");
        reveal_strlit("6");
        reveal_strlit("7");
        reveal_strlit("8");
        reveal_strlit("9");
    }
    let text = if d == 0 {
        "0"
    } else if d == 1 {
        "1"
    } else if d == 2 {
        "2"
    } else if d == 3 {
        "3"
    } else if d == 4 {
        "4"
    } else if d == 5 {
        "5"
    } else if d == 6 {
        "6"
    } else if d == 7 {
        "7"
    } else if d == 8 {
        "8"
    } else {
        "9"
    };
    assert(text@ =~= seq![digit_char(d as nat)]);
    text
}

fn append_decimal(text: &mut String, n: u32)
    ensures
        final(text)@ == old(text)@ + decimal(n as nat),
    decreases n,
{
    if n >= 10 {
        append_decimal(text, n / 10);
    }
    text.append(digit_text(n % 10));
    assert(text@ =~= old(text)@ + decimal(n as nat));
}

/// Where the special file of a named channel lies: in `directory`, under the
/// decimal numeral of the id of the process that made it.
#[derive(Clone, Debug, PartialEq, Eq)]
pub struct FifoPath {
    /// The temporary directory made for this run.
    pub directory: String,
    /// The id of the process that creates the channel.
    pub pid: u32,
}

impl FifoPath {
    /// The path as text.
    pub open spec fn text(self) -> Seq<char> {
        self.directory@ + seq!['/'] + decimal(self.pid as nat)
    }

    /// The path as text, for the system calls that take one.
    pub fn render(&self) -> (text: String)
        ensures
            text@ == self.text(),
    {
        proof {
            reveal_strlit("/");
        }
        let mut text = self.directory.clone();
        text.append("/");
        append_decimal(&mut text, self.pid);
        assert(text@ =~= self.text());
        text
    }

    /// A second copy of the path.
    pub fn duplicate(&self) -> (copy: FifoPath)
        ensures
            copy == *self,
    {
        FifoPath { directory: self.directory.clone(), pid: self.pid }
    }
}

/// One end of a channel, as the process that uses it reaches it.
#[derive(Clone, Debug, PartialEq, Eq)]
pub enum Endpoint {
    /// An open descriptor.
    Descriptor(i32),
    /// A special file still to be opened.
    Fifo(FifoPath),
}

/// A channel with a read end and a write end.
#[derive(Clone, Debug, PartialEq, Eq)]
pub enum Channel {
    /// A FIFO special file; each side opens it when it needs it.
    Named { path: FifoPath },
    /// A pipe pair; both descriptors are open in the process that made it and
    /// in every process forked from it.
    Anonymous { read_fd: i32, write_fd: i32 },
}

/// The system refused to create a channel.
#[derive(Clone, Copy, Debug, PartialEq, Eq)]
pub struct ChannelError {
    /// The system's error code, or [`UNKNOWN_OS_ERROR`].
    pub code: i32,
}

impl ChannelError {
    /// The error for a refusal with the given system error code, if one
    /// could be retrieved.
    pub open spec fn of_os(os_error: Option<i32>) -> ChannelError {
        ChannelError {
            code: match os_error {
                Some(code) => code,
                None => UNKNOWN_OS_ERROR,
            },
        }
    }

    /// Records a refusal.
    pub fn from_os(os_error: Option<i32>) -> (error: ChannelError)
        ensures
            error == ChannelError::of_os(os_error),
    {
        match os_error {
            Some(code) => ChannelError { code },
            None => ChannelError { code: UNKNOWN_OS_ERROR },
        }
    }
}

impl Channel {
    /// What a request for a pipe pair yielded: the call returned `status`; on
    /// success it stored the read descriptor and then the write descriptor in
    /// `fds`.
    pub open spec fn of_pipe(status: i32, fds: [i32; 2], os_error: Option<i32>) -> Result<
        Channel,
        ChannelError,
    > {
        if status == 0 {
            Ok(Channel::Anonymous { read_fd: fds[0], write_fd: fds[1] })
        } else {
            Err(ChannelError::of_os(os_error))
        }
    }

    /// Reads the outcome of a request for a pipe pair.
    pub fn from_pipe(status: i32, fds: [i32; 2], os_error: Option<i32>) -> (created: Result<
        Channel,
        ChannelError,
    >)
        ensures
            created == Channel::of_pipe(status, fds, os_error),
    {
        if status == 0 {
            Ok(Channel::Anonymous { read_fd: fds[0], write_fd: fds[1] })
        } else {
            Err(ChannelError::from_os(os_error))
        }
    }

    /// What a request to create the special file at `path` yielded: the call
    /// returned `status`.
    pub open spec fn of_fifo(status: i32, path: FifoPath, os_error: Option<i32>) -> Result<
        Channel,
        ChannelError,
    > {
        if status == 0 {
            Ok(Channel::Named { path })
        } else {
            Err(ChannelError::of_os(os_error))
        }
    }

    /// Reads the outcome of a request to create the special file at `path`.
    pub fn from_fifo(status: i32, path: FifoPath, os_error: Option<i32>) -> (created: Result<
        Channel,
        ChannelError,
    >)
        ensures
            created == Channel::of_fifo(status, path, os_error),
    {
        if status == 0 {
            Ok(Channel::Named { path })
        } else {
            Err(ChannelError::from_os(os_error))
        }
    }

    /// The kind of this channel.
    pub open spec fn variant_of(self) -> ChannelVariant {
        match self {
            Channel::Named { .. } => ChannelVariant::Named,
            Channel::Anonymous { .. } => ChannelVariant::Anonymous,
        }
    }

    /// The kind of this channel.
    pub fn variant(&self) -> (variant: ChannelVariant)
        ensures
            variant == self.variant_of(),
    {
        match self {
            Channel::Named { .. } => ChannelVariant::Named,
            Channel::Anonymous { .. } => ChannelVariant::Anonymous,
        }
    }

    /// The end that the parent reads from.
    pub open spec fn read_end_of(self) -> Endpoint {
        match self {
            Channel::Named { path } => Endpoint::Fifo(path),
            Channel::Anonymous { read_fd, .. } => Endpoint::Descriptor(read_fd),
        }
    }

    /// The end that the parent reads from.
    pub fn read_end(&self) -> (end: Endpoint)
        ensures
            end == self.read_end_of(),
    {
        match self {
            Channel::Named { path } => Endpoint::Fifo(path.duplicate()),
            Channel::Anonymous { read_fd, .. } => Endpoint::Descriptor(*read_fd),
        }
    }

    /// The end that the child writes to.
    pub open spec fn write_end_of(self) -> Endpoint {
        match self {
            Channel::Named { path } => Endpoint::Fifo(path),
            Channel::Anonymous { write_fd, .. } => Endpoint::Descriptor(write_fd),
        }
    }

    /// The end that the child writes to.
    pub fn write_end(&self) -> (end: Endpoint)
        ensures
            end == self.write_end_of(),
    {
        match self {
            Channel::Named { path } => Endpoint::Fifo(path.duplicate()),
            Channel::Anonymous { write_fd, .. } => Endpoint::Descriptor(*write_fd),
        }
    }
}

} // verus!
