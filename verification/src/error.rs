//! The failures of the subsystem and the text of each.

use vstd::prelude::*;

verus! {

/// Why a registration failed.
#[derive(Clone, Copy, Debug, PartialEq, Eq, Structural)]
pub enum NotifierError {
    /// The platform refused to create the client or the self-test endpoint.
    /// Carries the platform's status code as it came.
    Platform(i32),
    /// A handshake message could not be passed between the notifier thread and
    /// the caller, or arrived out of turn.
    Communication,
    /// The self-test notification did not arrive in time, or the self-test
    /// endpoint was not among the visible endpoints.
    SanityCheck,
    /// The client handle was asked for after the subsystem had been started.
    AlreadyInitialized,
}

/// The character of one decimal digit; `d` is meant to be below ten.
pub open spec fn digit_char(d: nat) -> char {
    if d == 0 {
        '0'
    } else if d == 1 {
        '1'
    } else if d == 2 {
        '2'
    } else if d == 3 {
        '3'
    } else if d == 4 {
        '4'
    } else if d == 5 {
        '5'
    } else if d == 6 {
        '6'
    } else if d == 7 {
        '7'
    } else if d == 8 {
        '8'
    } else {
        '9'
    }
}

/// The decimal digits of `n`, most significant first, without leading zeros.
pub open spec fn digits(n: nat) -> Seq<char>
    decreases n,
{
    if n < 10 {
        seq![digit_char(n)]
    } else {
        digits(n / 10).push(digit_char(n % 10))
    }
}

/// `n` in decimal, with a minus sign in front of a negative number.
pub open spec fn decimal(n: int) -> Seq<char> {
    if n < 0 {
        seq!['-'] + digits((-n) as nat)
    } else {
        digits(n as nat)
    }
}

/// The text in front of a platform status code.
pub open spec fn status_prefix() -> Seq<char> {
    "OSStatus "@
}

/// The text of a failed sanity check. It names the usual cause: a client was
/// created elsewhere in the process before this subsystem was started.
pub open spec fn sanity_check_text() -> Seq<char> {
    "MIDIClientCreate was called before receive_device_updates. This often occurs when using midir::MidiInput::new, which prematurely sets the thread for receiving MIDI device notifications."@
}

/// The text of a failed exchange between the two threads.
pub open spec fn communication_text() -> Seq<char> {
    "unable to communicate between notifier and main thread"@
}

/// The text given to a caller that asks for the client handle too late.
pub open spec fn already_initialized_text() -> Seq<char> {
    "Client was already initialized"@
}

fn digit_str(d: u32) -> (s: &'static str)
    requires
        d < 10,
    ensures
        s@ == seq![digit_char(d as nat)],
{
    proof {
        reveal_strlit("0");
        reveal_strlit("1");
        reveal_strlit("2");
        reveal_strlit("3");
        reveal_strlit("4");
        reveal_strlit("5");
        reveal_strlit("6");
        reveal_strlit("7");
        reveal_strlit("8");
        reveal_strlit("9");
    }
    let s = if d == 0 {
        "0"
    } else if d == 1 {
        "1"
    } else if d == 2 {
        "2"
    } else if d == 3 {
        "3"
    } else if d == 4 {
        "4"
    } else if d == 5 {
        "5"
    } else if d == 6 {
        "6"
    } else if d == 7 {
        "7"
    } else if d == 8 {
        "8"
    } else {
        "9"
    };
    assert(s@ =~= seq![digit_char(d as nat)]);
    s
}

fn push_digits(out: &mut String, n: u32)
    ensures
        final(out)@ == old(out)@ + digits(n as nat),
    decreases n,
{
    if n >= 10 {
        push_digits(out, n / 10);
    }
    out.append(digit_str(n % 10));
    assert(out@ =~= old(out)@ + digits(n as nat));
}

/// Text for a platform status code: `OSStatus`, a space, and the code in
/// decimal.
pub fn osstatus_error(osstatus: i32) -> (text: String)
    ensures
        text@ == status_prefix() + decimal(osstatus as int),
{
    let mut text = String::from_str("OSStatus ");
    if osstatus < 0 {
        text.append("-");
        proof {
            reveal_strlit("-");
        }
        let magnitude: u32 = (-(osstatus as i64)) as u32;
        push_digits(&mut text, magnitude);
    } else {
        push_digits(&mut text, osstatus as u32);
    }
    assert(text@ =~= status_prefix() + decimal(osstatus as int));
    text
}

impl NotifierError {
    /// What `message` returns.
    pub open spec fn spec_message(self) -> Seq<char> {
        match self {
            NotifierError::Platform(status) => status_prefix() + decimal(status as int),
            NotifierError::Communication => communication_text(),
            NotifierError::SanityCheck => sanity_check_text(),
            NotifierError::AlreadyInitialized => already_initialized_text(),
        }
    }

    /// The text of this failure, for people.
    pub fn message(&self) -> (text: String)
        ensures
            text@ == self.spec_message(),
    {
        match self {
            NotifierError::Platform(status) => osstatus_error(*status),
            NotifierError::Communication => String::from_str(
                "unable to communicate between notifier and main thread",
            ),
            NotifierError::SanityCheck => String::from_str(
                "MIDIClientCreate was called before receive_device_updates. This often occurs when using midir::MidiInput::new, which prematurely sets the thread for receiving MIDI device notifications.",
            ),
            NotifierError::AlreadyInitialized => String::from_str("Client was already initialized"),
        }
    }
}

} // verus!
