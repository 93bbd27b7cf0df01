//! The command vocabulary and the request as a caller states it.

use vstd::prelude::*;

verus! {

/// One of the four operations on a session's stack.
#[derive(Clone, Copy, Debug, PartialEq, Eq, Structural)]
pub enum Cmd {
    Push,
    Pop,
    Peek,
    Dirs,
}

/// What a caller asks for: an operation, the session it is meant for, and a
/// path, which is empty where the operation takes none.
#[derive(Clone, Debug, PartialEq, Eq)]
pub struct Expression {
    pub cmd: Cmd,
    pub session_id: String,
    pub path: String,
}

/// Why a command is not understood.
#[derive(Clone, Copy, Debug, PartialEq, Eq, Structural)]
pub enum CmdError {
    InvalidExpression,
}

/// The command that a wire code stands for, if it stands for one.
pub open spec fn cmd_of_code(c: char) -> Option<Cmd> {
    if c == '\x01' {
        Some(Cmd::Push)
    } else if c == '\x02' {
        Some(Cmd::Pop)
    } else if c == '\x03' {
        Some(Cmd::Peek)
    } else if c == '\x04' {
        Some(Cmd::Dirs)
    } else {
        None
    }
}

impl CmdError {
    /// The name under which this error is printed.
    pub open spec fn name(self) -> Seq<char> {
        "InvalidExpression"@
    }

    /// The printed name of the error, as an owned string.
    pub fn to_string(&self) -> (s: String)
        ensures
            s@ == self.name(),
    {
        "InvalidExpression".to_owned()
    }
}

impl Cmd {
    /// The one-character wire code of this command.
    pub open spec fn code(self) -> char {
        match self {
            Cmd::Push => '\x01',
            Cmd::Pop => '\x02',
            Cmd::Peek => '\x03',
            Cmd::Dirs => '\x04',
        }
    }

    /// The spelling under which a shell user invokes this command.
    pub open spec fn spelling(self) -> Seq<char> {
        match self {
            Cmd::Push => "pushd"@,
            Cmd::Pop => "popd"@,
            Cmd::Peek => "peekd"@,
            Cmd::Dirs => "dirs"@,
        }
    }

    /// The name under which this command is printed.
    pub open spec fn name(self) -> Seq<char> {
        match self {
            Cmd::Push => "Push"@,
            Cmd::Pop => "Pop"@,
            Cmd::Peek => "Peek"@,
            Cmd::Dirs => "Dirs"@,
        }
    }

    /// Reads a wire code: the command it stands for, or an error for any
    /// other character.
    pub fn from_char(c: char) -> (r: Result<Cmd, CmdError>)
        ensures
            match cmd_of_code(c) {
                Some(cmd) => r == Ok::<Cmd, CmdError>(cmd),
                None => r == Err::<Cmd, CmdError>(CmdError::InvalidExpression),
            },
    {
        match c {
            '\x01' => Ok(Cmd::Push),
            '\x02' => Ok(Cmd::Pop),
            '\x03' => Ok(Cmd::Peek),
            '\x04' => Ok(Cmd::Dirs),
            _ => Err(CmdError::InvalidExpression),
        }
    }

    /// The wire code of this command.
    pub fn to_char(&self) -> (c: char)
        ensures
            c == self.code(),
    {
        match self {
            Cmd::Push => '\x01',
            Cmd::Pop => '\x02',
            Cmd::Peek => '\x03',
            Cmd::Dirs => '\x04',
        }
    }

    /// The printed name of the command, as an owned string.
    pub fn to_string(&self) -> (s: String)
        ensures
            s@ == self.name(),
    {
        match self {
            Cmd::Push => "Push".to_owned(),
            Cmd::Pop => "Pop".to_owned(),
            Cmd::Peek => "Peek".to_owned(),
            Cmd::Dirs => "Dirs".to_owned(),
        }
    }
}

/// The wire codes and the commands stand for each other, one for one.
pub proof fn codes_are_one_for_one(cmd: Cmd, c: char)
    ensures
        cmd_of_code(cmd.code()) == Some(cmd),
        cmd_of_code(c) == Some(cmd) <==> c == cmd.code(),
{
}

/// The command that a shell user's spelling stands for, if it stands for one.
pub open spec fn cmd_of_spelling(input: Seq<char>) -> Option<Cmd> {
    if input == "pushd"@ {
        Some(Cmd::Push)
    } else if input == "popd"@ {
        Some(Cmd::Pop)
    } else if input == "peekd"@ {
        Some(Cmd::Peek)
    } else if input == "dirs"@ {
        Some(Cmd::Dirs)
    } else {
        None
    }
}

/// Each command is found again by its spelling.
pub proof fn spellings_are_told_apart(cmd: Cmd)
    ensures
        cmd_of_spelling(cmd.spelling()) == Some(cmd),
{
    reveal_strlit("pushd");
    reveal_strlit("popd");
    reveal_strlit("peekd");
    reveal_strlit("dirs");
    assert("pushd"@.len() == 5 && "popd"@.len() == 4);
    assert("pushd"@[1] == 'u' && "peekd"@[1] == 'e');
    assert("popd"@[0] == 'p' && "dirs"@[0] == 'd');
}

impl core::str::FromStr for Cmd {
    type Err = ();

    /// Reads a shell user's spelling of a command.
    fn from_str(input: &str) -> (r: Result<Cmd, ()>)
        ensures
            match cmd_of_spelling(input@) {
                Some(cmd) => r == Ok::<Cmd, ()>(cmd),
                None => r is Err,
            },
    {
        if *input == *"pushd" {
            Ok(Cmd::Push)
        } else if *input == *"popd" {
            Ok(Cmd::Pop)
        } else if *input == *"peekd" {
            Ok(Cmd::Peek)
        } else if *input == *"dirs" {
            Ok(Cmd::Dirs)
        } else {
            Err(())
        }
    }
}

/// The printed names tell the commands apart: only `Push` prints as `Push`.
pub proof fn names_are_told_apart(cmd: Cmd)
    ensures
        (cmd.name() == Cmd::Push.name()) == (cmd == Cmd::Push),
{
    reveal_strlit("Push");
    reveal_strlit("Pop");
    reveal_strlit("Peek");
    reveal_strlit("Dirs");
    assert("Push"@.len() == 4 && "Pop"@.len() == 3);
    assert("Push"@[1] == 'u' && "Peek"@[1] == 'e');
    assert("Push"@[0] == 'P' && "Dirs"@[0] == 'D');
}

/// Whether the command printed as `cmd` takes no path: true of every name but
/// that of `Push`.
pub fn is_path_free(cmd: &String) -> (b: bool)
    ensures
        b == (cmd@ != Cmd::Push.name()),
{
    *cmd != Cmd::Push.to_string()
}

} // verus!
