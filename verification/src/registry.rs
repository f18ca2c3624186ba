//! The runtime registry: owns every connection handle the script created,
//! resolves requested prompt patterns against the registry-wide default, and
//! tears all connections down, in reverse creation order, exactly once at
//! script end.

use vstd::prelude::*;
use vstd::pervasive::unreached;
use crate::connection::{spec_close, Connection};
use crate::prompt::{regex_valid, Prompt};

verus! {

/// The registry of live connections and the default prompt pattern.
pub struct Registry {
    /// The prompt used when a connection request names none.
    pub default_prompt: Prompt,
    /// Every handle created, in creation order.
    pub connections: Vec<Connection>,
}

impl Registry {
    /// Every held connection is well formed.
    pub open spec fn wf(self) -> bool {
        forall|i: int|
            0 <= i < self.connections@.len() ==> (#[trigger] self.connections@[i]).wf()
    }

    /// An empty registry with the default prompt pattern `\$ `.  `None` would
    /// mean that pattern failed to compile, which the regex syntax rules
    /// exclude.
    pub fn new() -> (r: Option<Registry>)
        ensures
            r is Some <==> regex_valid("\\$ "@),
            r matches Some(reg) ==> reg.wf() && reg.default_prompt@ == "\\$ "@
                && reg.connections@.len() == 0,
    {
        match Prompt::new("\\$ ") {
            Some(p) => Some(Registry { default_prompt: p, connections: Vec::new() }),
            None => None,
        }
    }

    /// The prompt a new connection starts with: the requested pattern when
    /// given and valid, the registry default when none is given, and an error
    /// — the connection is then created failed — when the requested pattern
    /// does not compile.
    pub fn resolve_prompt(&self, requested: Option<String>) -> (r: Result<Prompt, String>)
        ensures
            requested is None ==> (r matches Ok(p) && p@ == self.default_prompt@),
            requested matches Some(q) ==> {
                &&& (regex_valid(q@) ==> (r matches Ok(p) && p@ == q@))
                &&& (!regex_valid(q@) ==> (r matches Err(m) && m@ == "Bad optional prompt"@))
            },
    {
        match requested {
            Some(q) => {
                match Prompt::new(q.as_str()) {
                    Some(p) => Ok(p),
                    None => Err(String::from_str("Bad optional prompt")),
                }
            },
            None => Ok(self.default_prompt.duplicate()),
        }
    }

    /// Tracks a newly created handle.
    pub fn register(&mut self, c: Connection)
        requires
            old(self).wf(),
            c.wf(),
        ensures
            final(self).wf(),
            final(self).connections@ == old(self).connections@.push(c),
            final(self).default_prompt == old(self).default_prompt,
    {
        self.connections.push(c);
    }

    /// How many handles the registry holds.
    pub fn connection_count(&self) -> (n: usize)
        ensures
            n == self.connections@.len(),
    {
        self.connections.len()
    }

    /// Closes every connection, in reverse creation order, and empties the
    /// registry; the closed handles are returned in the order they were
    /// closed.  This is the only teardown path and runs exactly once at
    /// script end.
    pub fn close_all(&mut self) -> (closed: Vec<Connection>)
        requires
            old(self).wf(),
        ensures
            final(self).wf(),
            final(self).connections@.len() == 0,
            final(self).default_prompt == old(self).default_prompt,
            closed@.len() == old(self).connections@.len(),
            forall|i: int|
                0 <= i < closed@.len() ==> closed@[i] == spec_close(
                    old(self).connections@[old(self).connections@.len() - 1 - i],
                ),
    {
        let ghost orig = self.connections@;
        let mut closed: Vec<Connection> = Vec::new();
        while self.connections.len() > 0
            invariant
                self.connections@ =~= orig.take(self.connections@.len() as int),
                closed@.len() + self.connections@.len() == orig.len(),
                forall|i: int|
                    0 <= i < closed@.len() ==> closed@[i] == spec_close(
                        orig[orig.len() - 1 - i],
                    ),
                forall|i: int|
                    0 <= i < self.connections@.len() ==> (#[trigger] self.connections@[i]).wf(),
                self.default_prompt == old(self).default_prompt,
                orig == old(self).connections@,
            decreases self.connections@.len(),
        {
            let popped = self.connections.pop();
            let mut c = match popped {
                Some(c) => c,
                None => unreached(),
            };
            proof {
                assert(orig.take((self.connections@.len() + 1) as int).last() == orig[self.connections@.len() as int]);
                assert(self.connections@ =~= orig.take(self.connections@.len() as int));
            }
            c.close();
            closed.push(c);
        }
        closed
    }
}

} // verus!
