use crate::error::{Error, ErrorV};
use crate::value::{ValV, Value};
use vstd::prelude::*;

verus! {

broadcast use vstd::std_specs::vec::group_vec_axioms;

/// One frame of the lexical environment chain: bindings local to one scope,
/// and the enclosing scope. Lookup walks innermost-first; a binding added
/// later in the same frame shadows an earlier one of the same name.
#[derive(Debug)]
pub struct Env {
    pub frame: Vec<(String, Value)>,
    pub parent: Option<Box<Env>>,
}

/// The mathematical model of an environment chain.
pub struct EnvV {
    pub frame: Seq<(Seq<char>, ValV)>,
    pub parent: Option<Box<EnvV>>,
}

pub open spec fn view_frame(s: Seq<(String, Value)>) -> Seq<(Seq<char>, ValV)>
    decreases s,
{
    if s.len() == 0 {
        Seq::empty()
    } else {
        view_frame(s.drop_last()).push((s.last().0@, s.last().1.to_view()))
    }
}

pub proof fn lemma_view_frame(s: Seq<(String, Value)>)
    ensures
        view_frame(s).len() == s.len(),
        forall|i: int| 0 <= i < s.len() ==> view_frame(s)[i] == (s[i].0@, s[i].1.to_view()),
    decreases s.len(),
{
    if s.len() > 0 {
        lemma_view_frame(s.drop_last());
    }
}

impl Env {
    pub open spec fn to_view(&self) -> EnvV
        decreases self,
    {
        EnvV {
            frame: view_frame(self.frame@),
            parent: match self.parent {
                Option::Some(p) => Option::Some(Box::new(p.to_view())),
                Option::None => Option::None,
            },
        }
    }
}

impl View for Env {
    type V = EnvV;

    open spec fn view(&self) -> EnvV {
        self.to_view()
    }
}

/// The first binding of `name` in one frame, scanning newest-first.
pub open spec fn sem_frame_lookup(f: Seq<(Seq<char>, ValV)>, name: Seq<char>) -> Option<ValV>
    decreases f.len(),
{
    if f.len() == 0 {
        Option::None
    } else if f.last().0 == name {
        Option::Some(f.last().1)
    } else {
        sem_frame_lookup(f.drop_last(), name)
    }
}

/// Lookup walks from the innermost frame outward and returns the first match.
pub open spec fn sem_lookup(env: EnvV, name: Seq<char>) -> Option<ValV>
    decreases env,
{
    match sem_frame_lookup(env.frame, name) {
        Option::Some(v) => Option::Some(v),
        Option::None => match env.parent {
            Option::Some(p) => sem_lookup(*p, name),
            Option::None => Option::None,
        },
    }
}

/// A child scope holding a single binding, as `let` uses.
pub open spec fn child_env(env: EnvV, name: Seq<char>, v: ValV) -> EnvV {
    EnvV { frame: seq![(name, v)], parent: Option::Some(Box::new(env)) }
}

/// The empty lexical chain: one empty frame, no parent. Top-level forms are
/// evaluated in it, next to the global frame.
pub open spec fn empty_envv() -> EnvV {
    EnvV { frame: Seq::<(Seq<char>, ValV)>::empty(), parent: Option::None }
}

/// Scoped lookup: the lexical chain first, innermost frame outward, then the
/// global environment. The global environment is consulted anew on every
/// evaluation, so a top-level definition is seen by every later call, also
/// from closures that were created before it was defined.
pub open spec fn sem_lookup_scoped(genv: EnvV, env: EnvV, name: Seq<char>) -> Option<ValV> {
    match sem_lookup(env, name) {
        Option::Some(v) => Option::Some(v),
        Option::None => sem_lookup(genv, name),
    }
}

impl Env {
    /// The root environment: one empty frame, no parent.
    pub fn new() -> (r: Env)
        ensures
            r.to_view() == (EnvV { frame: Seq::<(Seq<char>, ValV)>::empty(), parent: Option::None }),
    {
        let e = Env { frame: Vec::new(), parent: Option::None };
        proof {
            assert(e.frame@.len() == 0);
            assert(view_frame(e.frame@) =~= Seq::<(Seq<char>, ValV)>::empty());
            assert(e.to_view().frame == Seq::<(Seq<char>, ValV)>::empty());
            assert(e.to_view().parent == Option::<Box<EnvV>>::None);
        }
        e
    }

    /// A fresh frame whose lookups fall back to `parent`.
    pub fn new_child(parent: &Env) -> (r: Env)
        ensures
            r.to_view() == (EnvV {
                frame: Seq::<(Seq<char>, ValV)>::empty(),
                parent: Option::Some(Box::new(parent.to_view())),
            }),
    {
        let d = parent.duplicate();
        let e = Env { frame: Vec::new(), parent: Option::Some(Box::new(d)) };
        proof {
            assert(view_frame(e.frame@) =~= Seq::<(Seq<char>, ValV)>::empty());
            assert(e.to_view().frame == Seq::<(Seq<char>, ValV)>::empty());
            assert(e.to_view().parent == Option::Some(Box::new(d.to_view())));
            assert(d.to_view() == parent.to_view());
        }
        e
    }

    /// Inserts a binding into this frame only; an ancestor is never touched.
    /// A later binding of the same name shadows the earlier one.
    pub fn define(&mut self, name: String, value: Value)
        ensures
            final(self).to_view() == (EnvV {
                frame: old(self).to_view().frame.push((name@, value.to_view())),
                parent: old(self).to_view().parent,
            }),
    {
        let ghost old_frame = self.frame@;
        let ghost old_parent = self.parent;
        self.frame.push((name, value));
        proof {
            assert(self.frame@ == old_frame.push((name, value)));
            assert(self.frame@.drop_last() =~= old_frame);
            assert(self.frame@.last() == (name, value));
            assert(view_frame(self.frame@) == view_frame(old_frame).push(
                (name@, value.to_view()),
            ));
            assert(self.to_view().frame == old(self).to_view().frame.push(
                (name@, value.to_view()),
            ));
            assert(self.parent == old_parent);
            assert(self.to_view().parent == old(self).to_view().parent);
        }
    }

    /// A structural copy with the same model.
    pub fn duplicate(&self) -> (r: Env)
        ensures
            r.to_view() == self.to_view(),
        decreases *self,
    {
        let mut frame: Vec<(String, Value)> = Vec::new();
        let mut i: usize = 0;
        while i < self.frame.len()
            invariant
                i <= self.frame.len(),
                frame@.len() == i as int,
                forall|j: int| 0 <= j < i ==> frame@[j].0 == self.frame@[j].0
                    && frame@[j].1.to_view() == self.frame@[j].1.to_view(),
            decreases self.frame.len() - i,
        {
            proof {
                assert(decreases_to!(*self => self.frame));
                assert(decreases_to!(self.frame => self.frame@));
                assert(decreases_to!(self.frame@ => self.frame@[i as int]));
                assert(decreases_to!(self.frame@[i as int] => self.frame@[i as int].1));
            }
            let entry = &self.frame[i];
            let name = entry.0.clone();
            let val = entry.1.duplicate();
            frame.push((name, val));
            i = i + 1;
        }
        let parent: Option<Box<Env>> = match &self.parent {
            Option::Some(p) => Option::Some(Box::new((**p).duplicate())),
            Option::None => Option::None,
        };
        proof {
            lemma_view_frame(frame@);
            lemma_view_frame(self.frame@);
            assert(view_frame(frame@) =~= view_frame(self.frame@));
        }
        Env { frame, parent }
    }

    /// Finds `name`, innermost frame first; `UnboundSymbol` when it is absent
    /// from every frame up to and including the root.
    pub fn lookup(&self, name: &String) -> (r: Result<Value, Error>)
        ensures
            match r {
                Result::Ok(v) => sem_lookup(self.to_view(), name@) == Option::Some(v.to_view()),
                Result::Err(e) => sem_lookup(self.to_view(), name@) == Option::<ValV>::None
                    && e.to_view() == (ErrorV::UnboundSymbol { name: name@ }),
            },
        decreases *self,
    {
        let ghost s = self.frame@;
        let mut i: usize = self.frame.len();
        proof {
            assert(s.subrange(0, s.len() as int) =~= s);
        }
        while i > 0
            invariant
                i <= self.frame.len(),
                s == self.frame@,
                sem_frame_lookup(view_frame(s.subrange(0, i as int)), name@) == sem_frame_lookup(
                    view_frame(s),
                    name@,
                ),
            decreases i,
        {
            i = i - 1;
            let entry = &self.frame[i];
            proof {
                let sub1 = s.subrange(0, i as int + 1);
                let fsub0 = view_frame(s.subrange(0, i as int));
                let pair_v = (s[i as int].0@, s[i as int].1.to_view());
                assert(sub1.drop_last() =~= s.subrange(0, i as int));
                assert(sub1.last() == s[i as int]);
                assert(view_frame(sub1) == fsub0.push(pair_v));
                assert(view_frame(sub1).last() == pair_v);
                assert(view_frame(sub1).drop_last() =~= fsub0);
                if s[i as int].0@ == name@ {
                    assert(sem_frame_lookup(view_frame(sub1), name@) == Option::Some(pair_v.1));
                } else {
                    assert(sem_frame_lookup(view_frame(sub1), name@) == sem_frame_lookup(
                        fsub0,
                        name@,
                    ));
                }
            }
            if entry.0 == *name {
                return Result::Ok(entry.1.duplicate());
            }
        }
        proof {
            assert(s.subrange(0, 0) =~= Seq::<(String, Value)>::empty());
            assert(view_frame(s.subrange(0, 0)) =~= Seq::<(Seq<char>, ValV)>::empty());
            assert(sem_frame_lookup(view_frame(s), name@) == Option::<ValV>::None);
        }
        match &self.parent {
            Option::Some(p) => {
                proof {
                    assert(decreases_to!(*self => self.parent));
                }
                (**p).lookup(name)
            }
            Option::None => Result::Err(Error::UnboundSymbol { name: name.clone() }),
        }
    }
}

} // verus!
