//! The state one parse invocation owns exclusively: the token stream, the
//! configuration it was started with, and the attribute groups collected
//! ahead of the declaration being parsed.

use vstd::prelude::*;
use vstd::string::StringExecFns;

use crate::ast::AttributeGroup;
use crate::stream::TokenStream;

verus! {

pub struct State {
    pub stream: TokenStream,
    /// When set, explicit return-type annotations are mandatory on
    /// functions and methods.
    pub force_type_strings: bool,
    /// Attribute groups collected ahead of the declaration being parsed;
    /// drained into the node the declaration builds.
    pub attributes: Vec<AttributeGroup>,
}

impl State {
    pub open spec fn wf(self) -> bool {
        self.stream.wf()
    }

    pub fn new(stream: TokenStream, force_type_strings: bool) -> (s: State)
        ensures
            s.stream == stream,
            s.force_type_strings == force_type_strings,
            s.attributes@.len() == 0,
    {
        State { stream, force_type_strings, attributes: Vec::new() }
    }

    /// The fully qualified form of `name` in the current scope.  This core
    /// tracks no namespaces, so the name is returned as given.
    pub fn named(&self, name: &str) -> (r: String)
        ensures
            r@ == name@,
    {
        String::from_str(name)
    }

    /// Drain the attribute groups collected so far.
    pub fn get_attributes(&mut self) -> (r: Vec<AttributeGroup>)
        ensures
            r@ == old(self).attributes@,
            final(self).attributes@.len() == 0,
            final(self).stream == old(self).stream,
            final(self).force_type_strings == old(self).force_type_strings,
    {
        let mut out: Vec<AttributeGroup> = Vec::new();
        core::mem::swap(&mut self.attributes, &mut out);
        out
    }
}

/// The parts of the state a token-consuming primitive never touches.
pub open spec fn env_unchanged(pre: State, post: State) -> bool {
    &&& post.force_type_strings == pre.force_type_strings
    &&& post.attributes@ == pre.attributes@
}

} // verus!
