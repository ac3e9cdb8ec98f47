use vstd::prelude::*;

use crate::errors::{EnvironmentErrorType, LoxResult};
use crate::table::{table_find, table_get, table_map, table_set};
use crate::token::Token;
use crate::value::Value;

verus! {

/// One runtime frame: a name table and the index of the enclosing frame.
pub struct Frame {
    pub parent: Option<usize>,
    pub entries: Vec<(String, Value)>,
}

impl Frame {
    /// The bindings this frame holds, as a map.
    pub open spec fn map(self) -> Map<Seq<char>, Value> {
        table_map(self.entries@)
    }
}

/// The runtime environment: every frame ever created, in creation order.
/// A frame refers to its enclosing frame by index; since the enclosing frame
/// always exists first, parent indices point strictly downwards, so frames
/// form a forest rooted at the global frame 0 and chains cannot cycle.
/// Closures keep a frame alive simply by keeping its index.
pub struct Environment {
    pub frames: Vec<Frame>,
}

impl Environment {
    pub open spec fn wf(self) -> bool {
        &&& self.frames@.len() >= 1
        &&& self.frames@[0].parent is None
        &&& forall|i: int|
            0 <= i < self.frames@.len() ==> match (#[trigger] self.frames@[i]).parent {
                Some(p) => p < i,
                None => true,
            }
    }

    /// The value a name denotes when looked up from frame `f` outwards
    /// through the enclosing chain.
    pub open spec fn chain_lookup(self, f: int, name: Seq<char>) -> Option<Value>
        decreases f,
    {
        if 0 <= f < self.frames@.len() {
            if self.frames@[f].map().contains_key(name) {
                Some(self.frames@[f].map()[name])
            } else {
                match self.frames@[f].parent {
                    Some(p) => if p < f {
                        self.chain_lookup(p as int, name)
                    } else {
                        None
                    },
                    None => None,
                }
            }
        } else {
            None
        }
    }

    /// The frame that settles a name looked up from `f` outwards, or -1.
    pub open spec fn chain_target(self, f: int, name: Seq<char>) -> int
        decreases f,
    {
        if 0 <= f < self.frames@.len() {
            if self.frames@[f].map().contains_key(name) {
                f
            } else {
                match self.frames@[f].parent {
                    Some(p) => if p < f {
                        self.chain_target(p as int, name)
                    } else {
                        -1
                    },
                    None => -1,
                }
            }
        } else {
            -1
        }
    }

    /// How `chain_lookup` and `chain_target` relate.
    pub proof fn lemma_chain(self, f: int, name: Seq<char>)
        ensures
            self.chain_target(f, name) == -1 <==> self.chain_lookup(f, name) is None,
            self.chain_target(f, name) >= 0 ==> {
                let t = self.chain_target(f, name);
                &&& t < self.frames@.len()
                &&& self.frames@[t].map().contains_key(name)
                &&& self.chain_lookup(f, name) == Some(self.frames@[t].map()[name])
            },
        decreases f,
    {
        if 0 <= f < self.frames@.len() && !self.frames@[f].map().contains_key(name) {
            match self.frames@[f].parent {
                Some(p) => {
                    if p < f {
                        self.lemma_chain(p as int, name);
                    }
                },
                None => {},
            }
        }
    }

    /// The frame reached after exactly `d` hops to enclosing frames, or -1
    /// if the chain runs out first.
    pub open spec fn ancestor_spec(self, f: int, d: int) -> int
        decreases d,
    {
        if !(0 <= f < self.frames@.len()) {
            -1
        } else if d <= 0 {
            f
        } else {
            match self.frames@[f].parent {
                Some(p) => self.ancestor_spec(p as int, d - 1),
                None => -1,
            }
        }
    }

    /// A fresh environment holding only the empty global frame.
    pub fn new() -> (e: Environment)
        ensures
            e.wf(),
            e.frames@.len() == 1,
            e.frames@[0].parent is None,
            e.frames@[0].map() == Map::<Seq<char>, Value>::empty(),
    {
        let mut frames: Vec<Frame> = Vec::new();
        frames.push(Frame { parent: None, entries: Vec::new() });
        Environment { frames }
    }

    /// Creates a frame enclosed by `parent` and returns its index.
    pub fn from_enclosing(&mut self, parent: usize) -> (f: usize)
        requires
            old(self).wf(),
            parent < old(self).frames@.len(),
        ensures
            final(self).wf(),
            f == old(self).frames@.len(),
            final(self).frames@.len() == old(self).frames@.len() + 1,
            forall|i: int|
                0 <= i < old(self).frames@.len() ==> final(self).frames@[i] == old(
                    self,
                ).frames@[i],
            final(self).frames@[f as int].parent == Some(parent),
            final(self).frames@[f as int].map() == Map::<Seq<char>, Value>::empty(),
    {
        let f = self.frames.len();
        self.frames.push(Frame { parent: Some(parent), entries: Vec::new() });
        f
    }

    /// Binds `name` to `value` in frame `f`, shadowing or replacing any
    /// earlier binding there.
    pub fn define(&mut self, f: usize, name: &String, value: Value)
        requires
            old(self).wf(),
            f < old(self).frames@.len(),
        ensures
            final(self).wf(),
            final(self).frames@.len() == old(self).frames@.len(),
            forall|i: int|
                0 <= i < old(self).frames@.len() && i != f ==> final(self).frames@[i] == old(
                    self,
                ).frames@[i],
            final(self).frames@[f as int].parent == old(self).frames@[f as int].parent,
            final(self).frames@[f as int].map() == old(self).frames@[f as int].map().insert(
                name@,
                value,
            ),
    {
        let fr = &mut self.frames[f];
        table_set(&mut fr.entries, name, value);
    }

    /// Reads `name` from frame `f`, then from its enclosing frames.
    pub fn get(&self, f: usize, token: &Token) -> (r: Result<Value, LoxResult>)
        requires
            self.wf(),
            f < self.frames@.len(),
        ensures
            match self.chain_lookup(f as int, token.lexeme@) {
                Some(v) => r == Ok::<Value, LoxResult>(v),
                None => r matches Err(e) && e.is_unknown_variable(),
            },
    {
        let mut cur = f;
        loop
            invariant
                self.wf(),
                cur < self.frames@.len(),
                self.chain_lookup(f as int, token.lexeme@) == self.chain_lookup(
                    cur as int,
                    token.lexeme@,
                ),
            decreases cur,
        {
            match table_get(&self.frames[cur].entries, &token.lexeme) {
                Some(v) => {
                    return Ok(v.clone());
                },
                None => {
                    match self.frames[cur].parent {
                        Some(p) => {
                            cur = p;
                        },
                        None => {
                            return Err(unknown_variable(token));
                        },
                    }
                },
            }
        }
    }

    /// The frame exactly `distance` hops out from `f`.
    fn ancestor(&self, f: usize, distance: usize) -> (r: Result<usize, LoxResult>)
        requires
            self.wf(),
            f < self.frames@.len(),
        ensures
            match r {
                Ok(t) => t as int == self.ancestor_spec(f as int, distance as int) && t
                    < self.frames@.len(),
                Err(e) => self.ancestor_spec(f as int, distance as int) < 0
                    && e.is_unknown_variable(),
            },
    {
        let mut cur = f;
        let mut k: usize = 0;
        while k < distance
            invariant
                self.wf(),
                cur < self.frames@.len(),
                k <= distance,
                self.ancestor_spec(f as int, distance as int) == self.ancestor_spec(
                    cur as int,
                    distance - k,
                ),
            decreases distance - k,
        {
            match self.frames[cur].parent {
                Some(p) => {
                    cur = p;
                    k = k + 1;
                },
                None => {
                    return Err(unknown_variable_at());
                },
            }
        }
        Ok(cur)
    }

    /// Reads `name` from the own table of the frame exactly `distance` hops
    /// out from `f`, without further recursion.
    pub fn get_at(&self, f: usize, distance: usize, name: &Token) -> (r: Result<Value, LoxResult>)
        requires
            self.wf(),
            f < self.frames@.len(),
        ensures
            ({
                let t = self.ancestor_spec(f as int, distance as int);
                if t >= 0 && self.frames@[t].map().contains_key(name.lexeme@) {
                    r == Ok::<Value, LoxResult>(self.frames@[t].map()[name.lexeme@])
                } else {
                    r matches Err(e) && e.is_unknown_variable()
                }
            }),
    {
        let t = match self.ancestor(f, distance) {
            Ok(t) => t,
            Err(e) => {
                return Err(e);
            },
        };
        match table_get(&self.frames[t].entries, &name.lexeme) {
            Some(v) => Ok(v.clone()),
            None => Err(unknown_variable(name)),
        }
    }

    /// Assigns to the nearest visible binding of `name`; assignment never
    /// creates a binding.
    #[verifier::loop_isolation(false)]
    pub fn assign(&mut self, f: usize, token: &Token, value: Value) -> (r: Result<(), LoxResult>)
        requires
            old(self).wf(),
            f < old(self).frames@.len(),
        ensures
            final(self).wf(),
            final(self).frames@.len() == old(self).frames@.len(),
            r is Ok <==> old(self).chain_lookup(f as int, token.lexeme@) is Some,
            ({
                let t = old(self).chain_target(f as int, token.lexeme@);
                if t >= 0 {
                    &&& r is Ok
                    &&& forall|i: int|
                        0 <= i < old(self).frames@.len() && i != t ==> final(self).frames@[i]
                            == old(self).frames@[i]
                    &&& final(self).frames@[t].parent == old(self).frames@[t].parent
                    &&& final(self).frames@[t].map() == old(self).frames@[t].map().insert(
                        token.lexeme@,
                        value,
                    )
                } else {
                    &&& r matches Err(e) && e.is_unknown_variable()
                    &&& *final(self) == *old(self)
                }
            }),
    {
        proof {
            old(self).lemma_chain(f as int, token.lexeme@);
        }
        let mut cur = f;
        loop
            invariant
                self.wf(),
                *self == *old(self),
                cur < self.frames@.len(),
                old(self).chain_target(f as int, token.lexeme@) == old(self).chain_target(
                    cur as int,
                    token.lexeme@,
                ),
            decreases cur,
        {
            match table_find(&self.frames[cur].entries, &token.lexeme) {
                Some(_) => {
                    let fr = &mut self.frames[cur];
                    table_set(&mut fr.entries, &token.lexeme, value);
                    return Ok(());
                },
                None => {
                    match self.frames[cur].parent {
                        Some(p) => {
                            cur = p;
                        },
                        None => {
                            return Err(unknown_variable(token));
                        },
                    }
                },
            }
        }
    }

    /// Assigns into the own table of the frame exactly `distance` hops out
    /// from `f`; the binding must already exist there.
    pub fn assign_at(&mut self, f: usize, distance: usize, name: &Token, value: Value) -> (r:
        Result<(), LoxResult>)
        requires
            old(self).wf(),
            f < old(self).frames@.len(),
        ensures
            final(self).wf(),
            final(self).frames@.len() == old(self).frames@.len(),
            ({
                let t = old(self).ancestor_spec(f as int, distance as int);
                if t >= 0 && old(self).frames@[t].map().contains_key(name.lexeme@) {
                    &&& r is Ok
                    &&& forall|i: int|
                        0 <= i < old(self).frames@.len() && i != t ==> final(self).frames@[i]
                            == old(self).frames@[i]
                    &&& final(self).frames@[t].parent == old(self).frames@[t].parent
                    &&& final(self).frames@[t].map() == old(self).frames@[t].map().insert(
                        name.lexeme@,
                        value,
                    )
                } else {
                    &&& r matches Err(e) && e.is_unknown_variable()
                    &&& *final(self) == *old(self)
                }
            }),
    {
        let t = match self.ancestor(f, distance) {
            Ok(t) => t,
            Err(e) => {
                return Err(e);
            },
        };
        match table_find(&self.frames[t].entries, &name.lexeme) {
            Some(_) => {
                let fr = &mut self.frames[t];
                table_set(&mut fr.entries, &name.lexeme, value);
                Ok(())
            },
            None => Err(unknown_variable(name)),
        }
    }
}

/// The runtime error for a name with no visible binding; its diagnostic
/// carries the reference's location.
fn unknown_variable(token: &Token) -> (e: LoxResult)
    ensures
        e.is_unknown_variable(),
{
    let msg = crate::errors::location(token).concat(" -> No such variable '").concat(
        token.lexeme.as_str(),
    ).concat("'.");
    LoxResult::Environment { error_type: EnvironmentErrorType::UnknownVariable, msg }
}

/// The runtime error for a scope-depth walk that ran out of frames; the
/// resolver's depths make this unreachable from resolved programs.
fn unknown_variable_at() -> (e: LoxResult)
    ensures
        e.is_unknown_variable(),
{
    let msg = "No enclosing scope at this depth.".to_owned();
    LoxResult::Environment { error_type: EnvironmentErrorType::UnknownVariable, msg }
}

} // verus!
