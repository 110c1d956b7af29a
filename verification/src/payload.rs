//! The opaque argument payload carried by an inbound invocation.
//!
//! A payload is either a flat list of named arguments, or a sub-command
//! invocation: a sub-command name together with the arguments meant for that
//! sub-command. The embedding application converts the platform's wire
//! representation into this form before dispatching.

use vstd::prelude::*;

verus! {

/// One argument value of an invocation.
#[derive(Clone, Debug, PartialEq, Eq)]
pub enum ArgValue {
    /// A signed integer argument.
    IntArg(i64),
    /// A text argument.
    StrArg(String),
    /// A boolean argument.
    BoolArg(bool),
    /// A reference to a platform user, by numeric id.
    UserArg(u64),
}

/// A named argument of an invocation.
#[derive(Clone, Debug, PartialEq, Eq)]
pub struct Arg {
    pub name: String,
    pub value: ArgValue,
}

/// The raw argument payload of one inbound invocation.
#[derive(Clone, Debug, PartialEq, Eq)]
pub enum Payload {
    /// A plain command invocation: just named arguments.
    Args(Vec<Arg>),
    /// A grouped invocation: the sub-command name and its arguments.
    Sub { name: String, args: Vec<Arg> },
}

/// The value of the first argument called `name`, if any.
pub open spec fn spec_find_arg(args: Seq<Arg>, name: Seq<char>) -> Option<ArgValue>
    decreases args.len(),
{
    if args.len() == 0 {
        None
    } else if args[0].name@ == name {
        Some(args[0].value)
    } else {
        spec_find_arg(args.drop_first(), name)
    }
}

/// Looks an argument up by name, returning the first match.
pub fn find_arg<'a>(args: &'a Vec<Arg>, name: &String) -> (r: Option<&'a ArgValue>)
    ensures
        match r {
            Some(v) => spec_find_arg(args@, name@) == Some(*v),
            None => spec_find_arg(args@, name@) is None,
        },
{
    let n = args.len();
    assert(args@.skip(0) =~= args@);
    for i in 0..n
        invariant
            n == args@.len(),
            spec_find_arg(args@, name@) == spec_find_arg(args@.skip(i as int), name@),
    {
        assert(args@.skip(i as int).drop_first() =~= args@.skip(i + 1));
        let a = &args[i];
        if a.name == *name {
            assert(args@.skip(i as int)[0] == args@[i as int]);
            return Some(&a.value);
        }
    }
    assert(args@.skip(n as int) =~= Seq::<Arg>::empty());
    None
}

} // verus!
