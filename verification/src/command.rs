//! A program invocation as plain data: the program and its arguments.
use crate::text::{string_views, owned};
use vstd::prelude::*;

verus! {

/// A command to run: a program and its argument list.
#[derive(Debug)]
pub struct CommandLine {
    pub program: String,
    pub args: Vec<String>,
}

impl View for CommandLine {
    type V = (Seq<char>, Seq<Seq<char>>);

    open spec fn view(&self) -> (Seq<char>, Seq<Seq<char>>) {
        (self.program@, string_views(self.args@))
    }
}

impl CommandLine {
    /// A command that runs `program` with no arguments.
    pub fn new(program: &str) -> (r: Self)
        ensures
            r@ == (program@, Seq::<Seq<char>>::empty()),
    {
        let r = CommandLine { program: owned(program), args: Vec::new() };
        assert(r@.1 =~= Seq::<Seq<char>>::empty());
        r
    }

    /// Appends one argument.
    pub fn arg(&mut self, a: String)
        ensures
            final(self)@ == (old(self)@.0, old(self)@.1.push(a@)),
    {
        self.args.push(a);
        assert(string_views(self.args@) =~= string_views(old(self).args@).push(a@));
    }

    /// Appends one argument given as a string slice.
    pub fn arg_str(&mut self, a: &str)
        ensures
            final(self)@ == (old(self)@.0, old(self)@.1.push(a@)),
    {
        self.arg(owned(a));
    }
}

} // verus!
