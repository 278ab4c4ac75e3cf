use vstd::prelude::*;
use crate::relay::{pins, relay_line};
use crate::text::{parse_u8_trimmed, trimmed, u8_of_text};

verus! {

/// A length of time: whole seconds and the nanoseconds beyond them.
#[derive(Clone, Copy, Debug, PartialEq, Eq, Structural)]
pub struct Span {
    pub secs: u64,
    pub nanos: u32,
}

/// Why an invocation was refused.
#[derive(Clone, Copy, Debug, PartialEq, Eq, Structural)]
pub enum ArgError {
    /// Not exactly two arguments after the program name.
    WrongCount,
    /// The relay argument is not a small unsigned number.
    BadRelay,
    /// The duration argument is not a non-negative, finite number of seconds.
    BadSeconds,
    /// The relay number is not one of the board's relays.
    UnknownRelay,
}

impl ArgError {
    pub open spec fn code_spec(self) -> i32 {
        match self {
            ArgError::WrongCount => 1,
            ArgError::BadRelay => 2,
            ArgError::BadSeconds => 3,
            ArgError::UnknownRelay => 4,
        }
    }

    /// The process exit status for this error.
    pub fn exit_code(&self) -> (r: i32)
        ensures
            r == self.code_spec(),
    {
        match self {
            ArgError::WrongCount => 1,
            ArgError::BadRelay => 2,
            ArgError::BadSeconds => 3,
            ArgError::UnknownRelay => 4,
        }
    }

    pub open spec fn message_spec(self) -> Seq<char> {
        match self {
            ArgError::WrongCount => "Exactly 2 arguments expected"@,
            ArgError::BadRelay => "Invalid Pin Argument"@,
            ArgError::BadSeconds => "Invalid Seconds Argument"@,
            ArgError::UnknownRelay => "Invalid Relay"@,
        }
    }

    /// The message shown after `Error: ` for this error.
    pub fn message(&self) -> (r: &'static str)
        ensures
            r@ == self.message_spec(),
    {
        match self {
            ArgError::WrongCount => "Exactly 2 arguments expected",
            ArgError::BadRelay => "Invalid Pin Argument",
            ArgError::BadSeconds => "Invalid Seconds Argument",
            ArgError::UnknownRelay => "Invalid Relay",
        }
    }
}

/// A checked invocation: the relay asked for, its line, and how long to hold
/// it high.
#[derive(Clone, Copy, Debug, PartialEq, Eq, Structural)]
pub struct Invocation {
    pub relay: u8,
    pub pin: u8,
    pub span: Span,
}

/// What checking the argument vector `args` (program name first) gives, when
/// the duration argument reads as `seconds`.
pub open spec fn invocation_of(args: Seq<Seq<char>>, seconds: Option<Span>) -> Result<
    Invocation,
    ArgError,
> {
    if args.len() != 3 {
        Err(ArgError::WrongCount)
    } else {
        match u8_of_text(trimmed(args[1])) {
            None => Err(ArgError::BadRelay),
            Some(relay) => match seconds {
                None => Err(ArgError::BadSeconds),
                Some(span) => match relay_line(relay) {
                    None => Err(ArgError::UnknownRelay),
                    Some(pin) => Ok(Invocation { relay, pin, span }),
                },
            },
        }
    }
}

pub open spec fn arg_texts(args: Seq<String>) -> Seq<Seq<char>> {
    args.map_values(|a: String| a@)
}

/// Checks the argument vector `args` (program name first). `seconds` is what
/// the duration argument, the third entry, reads as: `None` where it is
/// missing, not a number, negative or not finite. The checks come in the
/// order count, relay text, duration, relay number; the first that fails
/// decides the error.
pub fn check_invocation(args: &Vec<String>, seconds: Option<Span>) -> (r: Result<
    Invocation,
    ArgError,
>)
    ensures
        r == invocation_of(arg_texts(args@), seconds),
{
    if args.len() != 3 {
        return Err(ArgError::WrongCount);
    }
    let relay = match parse_u8_trimmed(args[1].as_str()) {
        None => {
            return Err(ArgError::BadRelay);
        },
        Some(n) => n,
    };
    let span = match seconds {
        None => {
            return Err(ArgError::BadSeconds);
        },
        Some(s) => s,
    };
    match pins(relay) {
        Ok(pin) => Ok(Invocation { relay, pin, span }),
        Err(_) => Err(ArgError::UnknownRelay),
    }
}

/// Each kind of malformed invocation is refused with its own status, and a
/// refused invocation yields no `Invocation`, so no run starts and no line is
/// written: a wrong argument count gives 1, an unreadable relay 2, an
/// unreadable (missing, negative or non-finite) duration 3 and a relay off the
/// board 4.
pub proof fn lemma_refusals(args: Seq<Seq<char>>, seconds: Option<Span>)
    ensures
        args.len() != 3 ==> invocation_of(args, seconds) == Err::<Invocation, ArgError>(
            ArgError::WrongCount,
        ) && ArgError::WrongCount.code_spec() == 1,
        args.len() == 3 && u8_of_text(trimmed(args[1])) is None ==> invocation_of(args, seconds)
            == Err::<Invocation, ArgError>(ArgError::BadRelay) && ArgError::BadRelay.code_spec()
            == 2,
        args.len() == 3 && u8_of_text(trimmed(args[1])) is Some && seconds is None
            ==> invocation_of(args, seconds) == Err::<Invocation, ArgError>(ArgError::BadSeconds)
            && ArgError::BadSeconds.code_spec() == 3,
        args.len() == 3 && seconds is Some && u8_of_text(trimmed(args[1])) is Some && !(1
            <= u8_of_text(trimmed(args[1]))->Some_0 <= 3) ==> invocation_of(args, seconds) == Err::<Invocation, ArgError>(
            ArgError::UnknownRelay,
        ) && ArgError::UnknownRelay.code_spec() == 4,
        invocation_of(args, seconds) is Ok <==> (args.len() == 3 && seconds is Some && u8_of_text(
            trimmed(args[1]),
        ) is Some && 1 <= u8_of_text(trimmed(args[1]))->Some_0 <= 3),
{
}

} // verus!
