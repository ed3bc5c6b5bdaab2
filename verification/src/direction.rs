//! The requested direction of travel and how it is read from the command line.

use vstd::prelude::*;

verus! {

/// One of the two ways to move along the workspaces of the active display.
#[derive(Clone, Copy, Debug, PartialEq, Eq, Structural)]
pub enum Direction {
    Previous,
    Next,
}

impl Direction {
    /// The relative offset that stands for the direction: -1 backwards, +1 forwards.
    pub open spec fn spec_step(self) -> i32 {
        match self {
            Direction::Previous => -1i32,
            Direction::Next => 1i32,
        }
    }

    /// The direction that a command-line argument names, if it names one.
    pub open spec fn named_by(argument: Seq<char>) -> Option<Direction> {
        if argument == "previous"@ {
            Some(Direction::Previous)
        } else if argument == "next"@ {
            Some(Direction::Next)
        } else {
            None
        }
    }

    /// The relative offset that stands for the direction.
    #[verifier::when_used_as_spec(spec_step)]
    pub fn step(self) -> (step: i32)
        ensures
            step == self.spec_step(),
    {
        match self {
            Direction::Previous => -1,
            Direction::Next => 1,
        }
    }

    /// Reads a direction from one argument: `previous` or `next`, nothing else.
    pub fn from_argument(argument: &str) -> (direction: Option<Direction>)
        ensures
            direction == Direction::named_by(argument@),
    {
        let value: String = argument.to_owned();
        if value == String::from_str("previous") {
            Some(Direction::Previous)
        } else if value == String::from_str("next") {
            Some(Direction::Next)
        } else {
            None
        }
    }
}

/// A command-line argument that names no direction.
#[derive(Debug)]
pub struct InvalidArgument {
    /// The argument as it was given.
    pub value: String,
}

impl InvalidArgument {
    /// The text of the diagnostic for an argument.
    pub open spec fn message_for(value: Seq<char>) -> Seq<char> {
        "Invalid argument: "@ + value
    }

    /// The diagnostic shown to the user.
    pub fn message(&self) -> (message: String)
        ensures
            message@ == Self::message_for(self.value@),
    {
        String::from_str("Invalid argument: ").concat(self.value.as_str())
    }

    /// The status with which a process that was given this argument ends.
    pub fn exit_status(&self) -> (status: i32)
        ensures
            status == 1,
    {
        1
    }
}

/// The positional arguments as one text, a single space between neighbours.
pub open spec fn joined(arguments: Seq<Seq<char>>) -> Seq<char>
    decreases arguments.len(),
{
    if arguments.len() == 0 {
        Seq::empty()
    } else if arguments.len() == 1 {
        arguments[0]
    } else {
        joined(arguments.drop_last()) + seq![' '] + arguments.last()
    }
}

/// Joins the positional arguments with single spaces.
pub fn join_arguments(arguments: &Vec<String>) -> (text: String)
    ensures
        text@ == joined(arguments.deep_view()),
{
    let mut text = String::new();
    let mut i: usize = 0;
    while i < arguments.len()
        invariant
            i <= arguments.len(),
            text@ == joined(arguments.deep_view().take(i as int)),
        decreases arguments.len() - i,
    {
        if i > 0 {
            proof {
                reveal_strlit(" ");
                assert(" "@ =~= seq![' ']);
            }
            text.append(" ");
        }
        text.append(arguments[i].as_str());
        proof {
            let before = arguments.deep_view().take(i as int);
            let after = arguments.deep_view().take(i + 1);
            assert(after.drop_last() =~= before);
            assert(after.last() == arguments[i as int]@);
        }
        i += 1;
    }
    proof {
        assert(arguments.deep_view().take(i as int) =~= arguments.deep_view());
    }
    text
}

/// Reads the direction from the positional arguments of an invocation.
///
/// The arguments are joined with single spaces and the result has to be
/// exactly `previous` or `next`; anything else is handed back as invalid.
pub fn parse_argument(arguments: &Vec<String>) -> (parsed: Result<Direction, InvalidArgument>)
    ensures
        (match parsed {
            Ok(direction) => Direction::named_by(joined(arguments.deep_view())) == Some(direction),
            Err(invalid) => {
                &&& Direction::named_by(joined(arguments.deep_view())) is None
                &&& invalid.value@ == joined(arguments.deep_view())
            },
        }),
{
    let value = join_arguments(arguments);
    match Direction::from_argument(value.as_str()) {
        Some(direction) => Ok(direction),
        None => Err(InvalidArgument { value }),
    }
}

} // verus!
