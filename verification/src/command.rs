//! A named, described, zero-argument unit of work.

use vstd::prelude::*;
use vstd::string::StringExecFns;

verus! {

/// The two-line human-readable description of a command.
pub open spec fn describe_spec(name: Seq<char>, description: Seq<char>) -> Seq<char> {
    "Command Name:     "@ + name + "\nDescription:    '"@ + description + "' "@
}

/// An immutable command value: a non-empty name, a free-text description, and
/// a zero-argument action. The action's type is left to the caller; nothing
/// here invokes it.
pub struct Command<A> {
    name: String,
    description: String,
    action: A,
}

impl<A> Command<A> {
    /// The command's name, as a sequence of characters.
    pub closed spec fn name_spec(self) -> Seq<char> {
        self.name@
    }

    /// The command's description, as a sequence of characters.
    pub closed spec fn description_spec(self) -> Seq<char> {
        self.description@
    }

    /// The command's action value.
    pub closed spec fn action_spec(self) -> A {
        self.action
    }

    /// A well-formed command has a non-empty name.
    pub open spec fn wf(self) -> bool {
        self.name_spec().len() > 0
    }

    /// Constructs a command. The fields never change afterwards.
    pub fn new(name: String, description: String, action: A) -> (c: Self)
        requires
            name@.len() > 0,
        ensures
            c.name_spec() == name@,
            c.description_spec() == description@,
            c.action_spec() == action,
            c.wf(),
    {
        Command { name, description, action }
    }

    /// The command's name.
    pub fn name(&self) -> (r: &String)
        ensures
            r@ == self.name_spec(),
    {
        &self.name
    }

    /// The command's description.
    pub fn description(&self) -> (r: &String)
        ensures
            r@ == self.description_spec(),
    {
        &self.description
    }

    /// Borrows the command's action.
    pub fn action(&self) -> (r: &A)
        ensures
            *r == self.action_spec(),
    {
        &self.action
    }

    /// Consumes the command, handing out its action.
    pub fn into_action(self) -> (r: A)
        ensures
            r == self.action_spec(),
    {
        self.action
    }

    /// The two-line rendering: the name line, then the description line.
    pub fn describe(&self) -> (r: String)
        ensures
            r@ == describe_spec(self.name_spec(), self.description_spec()),
    {
        let mut s = String::from_str("Command Name:     ");
        s.append(self.name.as_str());
        s.append("\nDescription:    '");
        s.append(self.description.as_str());
        s.append("' ");
        s
    }
}

} // verus!
