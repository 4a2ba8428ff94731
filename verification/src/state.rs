//! The scope chain and the function table.
//!
//! A `ProgState` is one frame: an ordered list of variable bindings in which
//! a lookup returns the first match and an insertion replaces or appends.
//! A `ProgStates` is the chain of frames, the head (index 0) innermost;
//! lookup scans head to tail, insertion targets the head frame. A `FuncDic`
//! is the registry of declared functions, keyed by name.

use vstd::prelude::*;

use crate::assoc::{assoc_get, assoc_set, lemma_assoc_get_found, lemma_assoc_get_missing,
    lemma_assoc_set_found, lemma_assoc_set_missing};
use crate::ast::{view_stmt, PistoletAST, SpecAst};
use crate::value::{RuntimeErr, ValueBind};

verus! {

/// One frame of bindings in the ghost model.
pub type SpecFrame = Seq<(Seq<char>, ValueBind)>;

/// The ghost model of the whole chain, head frame first.
pub type SpecChain = Seq<SpecFrame>;

/// One frame: variable name to binding, first match authoritative.
pub struct ProgState {
    pub vars: Vec<(String, ValueBind)>,
}

impl ProgState {
    /// The frame as an association sequence over character sequences.
    pub open spec fn view(&self) -> SpecFrame {
        self.vars@.map_values(|p: (String, ValueBind)| (p.0@, p.1))
    }

    /// A fresh, empty frame.
    pub fn new() -> (r: ProgState)
        ensures
            r@ == Seq::<(Seq<char>, ValueBind)>::empty(),
    {
        let r = ProgState { vars: Vec::new() };
        proof {
            assert(r@ =~= Seq::<(Seq<char>, ValueBind)>::empty());
        }
        r
    }

    /// Bind `var_name` in this frame: replace its first entry or append one.
    pub fn insert(&mut self, var_name: String, var_value: ValueBind)
        ensures
            final(self)@ == assoc_set(old(self)@, var_name@, var_value),
    {
        let ghost orig = self@;
        let mut idx: Option<usize> = None;
        let mut i: usize = 0;
        while i < self.vars.len() && idx.is_none()
            invariant
                i <= self.vars.len(),
                match idx {
                    Some(j) => j < self.vars.len() && self@[j as int].0 == var_name@
                        && (forall|t: int| 0 <= t < j ==> self@[t].0 != var_name@),
                    None => forall|t: int| 0 <= t < i ==> self@[t].0 != var_name@,
                },
            decreases self.vars.len() - i + (if idx is Some { 0int } else { 1int }),
        {
            if self.vars[i].0 == var_name {
                proof {
                    assert(self@[i as int].0 == self.vars@[i as int].0@);
                }
                idx = Some(i);
            } else {
                i = i + 1;
            }
        }
        proof {
            assert(idx is None ==> i == self.vars.len());
        }
        match idx {
            Some(j) => {
                proof {
                    lemma_assoc_set_found(orig, var_name@, var_value, j as int);
                }
                self.vars.remove(j);
                self.vars.insert(j, (var_name, var_value));
                proof {
                    assert(self@ =~~= orig.update(j as int, (var_name@, var_value)));
                }
            },
            None => {
                proof {
                    lemma_assoc_set_missing(self@, var_name@, var_value);
                }
                self.vars.push((var_name, var_value));
                proof {
                    assert(self@ =~~= orig.push((var_name@, var_value)));
                }
            },
        }
    }

    /// The first binding of `var_name` in this frame, if any.
    pub fn get(&self, var_name: &String) -> (r: Option<ValueBind>)
        ensures
            r == assoc_get(self@, var_name@),
    {
        let mut i: usize = 0;
        while i < self.vars.len()
            invariant
                i <= self.vars.len(),
                forall|j: int| 0 <= j < i ==> self@[j].0 != var_name@,
            decreases self.vars.len() - i,
        {
            if self.vars[i].0 == *var_name {
                proof {
                    lemma_assoc_get_found(self@, var_name@, i as int);
                }
                return Some(self.vars[i].1);
            }
            i = i + 1;
        }
        proof {
            lemma_assoc_get_missing(self@, var_name@);
        }
        None
    }
}

/// Look `k` up frame by frame, head first; the first frame that binds it
/// answers.
pub open spec fn chain_lookup(chain: SpecChain, k: Seq<char>) -> Option<ValueBind>
    decreases chain.len(),
{
    if chain.len() == 0 {
        None
    } else {
        match assoc_get(chain[0], k) {
            Some(v) => Some(v),
            None => chain_lookup(chain.subrange(1, chain.len() as int), k),
        }
    }
}

/// The chain with its head frame removed; an empty chain stays empty.
pub open spec fn chain_tail(chain: SpecChain) -> SpecChain {
    if chain.len() == 0 {
        chain
    } else {
        chain.subrange(1, chain.len() as int)
    }
}

/// Bind `k` in the head frame; an empty chain stays empty.
pub open spec fn chain_bind(chain: SpecChain, k: Seq<char>, v: ValueBind) -> SpecChain {
    if chain.len() == 0 {
        chain
    } else {
        chain.update(0, assoc_set(chain[0], k, v))
    }
}

/// The scope chain: a stack of frames, the head innermost. It starts with
/// one (global) frame, and the evaluator pops exactly what it pushes.
pub struct ProgStates {
    pub states: Vec<ProgState>,
}

impl ProgStates {
    /// The chain as a sequence of ghost frames, head first.
    pub open spec fn view(&self) -> SpecChain {
        self.states@.map_values(|p: ProgState| p@)
    }

    /// A fresh chain holding one empty (global) frame.
    pub fn new() -> (r: ProgStates)
        ensures
            r@ =~= seq![Seq::<(Seq<char>, ValueBind)>::empty()],
    {
        let mut states: Vec<ProgState> = Vec::new();
        states.push(ProgState::new());
        ProgStates { states }
    }

    /// Push `state` as the new head (innermost) frame.
    pub fn push_front(&mut self, state: ProgState)
        ensures
            final(self)@ == seq![state@] + old(self)@,
    {
        self.states.insert(0, state);
        proof {
            assert(self@ =~= seq![state@] + old(self)@);
        }
    }

    /// Push `state` as the new outermost frame.
    pub fn push_back(&mut self, state: ProgState)
        ensures
            final(self)@ == old(self)@.push(state@),
    {
        self.states.push(state);
        proof {
            assert(self@ =~= old(self)@.push(state@));
        }
    }

    /// Remove the head frame; on an empty chain, do nothing.
    pub fn pop_front(&mut self)
        ensures
            final(self)@ == chain_tail(old(self)@),
    {
        if self.states.len() > 0 {
            self.states.remove(0);
            proof {
                assert(self@ =~= chain_tail(old(self)@));
            }
        }
    }

    /// Scan the chain head to tail for the first binding of `name`.
    pub fn find_var(&self, name: String) -> (r: Result<ValueBind, RuntimeErr>)
        ensures
            r == match chain_lookup(self@, name@) {
                Some(vb) => Result::<ValueBind, RuntimeErr>::Ok(vb),
                None => Result::<ValueBind, RuntimeErr>::Err(RuntimeErr::VarUsedBeforeDefine),
            },
    {
        proof {
            assert(self@.subrange(0, self@.len() as int) =~= self@);
        }
        let mut i: usize = 0;
        while i < self.states.len()
            invariant
                i <= self.states.len(),
                chain_lookup(self@, name@) == chain_lookup(
                    self@.subrange(i as int, self@.len() as int),
                    name@,
                ),
            decreases self.states.len() - i,
        {
            let r0 = self.states[i].get(&name);
            proof {
                assert(self@.subrange(i as int, self@.len() as int)[0] == self@[i as int]);
                assert(self@.subrange(i as int, self@.len() as int).subrange(
                    1,
                    self@.len() - i as int,
                ) =~= self@.subrange(i as int + 1, self@.len() as int));
            }
            match r0 {
                Some(vb) => {
                    return Ok(vb);
                },
                None => {
                },
            }
            i = i + 1;
        }
        proof {
            assert(self@.subrange(self@.len() as int, self@.len() as int).len() == 0);
        }
        Err(RuntimeErr::VarUsedBeforeDefine)
    }

    /// Bind `var_name` in the head frame, shadowing any outer binding.
    pub fn insert(&mut self, var_name: String, var_value: ValueBind)
        ensures
            final(self)@ == chain_bind(old(self)@, var_name@, var_value),
    {
        if self.states.len() > 0 {
            let mut head = self.states.remove(0);
            head.insert(var_name, var_value);
            self.states.insert(0, head);
            proof {
                assert(self@ =~= chain_bind(old(self)@, var_name@, var_value));
            }
        }
    }
}

/// One registered function: parameter list, return type, body.
pub struct FunEntry {
    pub params: PistoletAST,
    pub ret_ty: String,
    pub body: PistoletAST,
}

/// Ghost mirror of a registered function.
#[verifier::ext_equal]
pub ghost struct SpecFunEntry {
    pub params: SpecAst,
    pub ret_ty: Seq<char>,
    pub body: SpecAst,
}

impl FunEntry {
    /// The entry as its ghost mirror.
    pub open spec fn view(&self) -> SpecFunEntry {
        SpecFunEntry { params: view_stmt(self.params), ret_ty: self.ret_ty@, body: view_stmt(self.body) }
    }
}

/// The ghost model of the function table.
pub type SpecFuncs = Seq<(Seq<char>, SpecFunEntry)>;

/// The function table: name to registered function, a re-declaration
/// overwriting the previous entry.
pub struct FuncDic {
    pub funcs: Vec<(String, FunEntry)>,
}

impl FuncDic {
    /// The table as an association sequence of ghost entries.
    pub open spec fn view(&self) -> SpecFuncs {
        self.funcs@.map_values(|p: (String, FunEntry)| (p.0@, p.1@))
    }

    /// A fresh, empty table.
    pub fn new() -> (r: FuncDic)
        ensures
            r@ == Seq::<(Seq<char>, SpecFunEntry)>::empty(),
    {
        let r = FuncDic { funcs: Vec::new() };
        proof {
            assert(r@ =~= Seq::<(Seq<char>, SpecFunEntry)>::empty());
        }
        r
    }

    /// Register a function under `func_name`, overwriting any previous
    /// entry; always succeeds.
    pub fn func_insert(
        &mut self,
        func_name: String,
        para_list: PistoletAST,
        return_type: String,
        func_body: PistoletAST,
    )
        ensures
            final(self)@ == assoc_set(
                old(self)@,
                func_name@,
                SpecFunEntry {
                    params: view_stmt(para_list),
                    ret_ty: return_type@,
                    body: view_stmt(func_body),
                },
            ),
    {
        let entry = FunEntry { params: para_list, ret_ty: return_type, body: func_body };
        let ghost orig = self@;
        let ghost gentry = entry@;
        let mut idx: Option<usize> = None;
        let mut i: usize = 0;
        while i < self.funcs.len() && idx.is_none()
            invariant
                i <= self.funcs.len(),
                match idx {
                    Some(j) => j < self.funcs.len() && self@[j as int].0 == func_name@
                        && (forall|t: int| 0 <= t < j ==> self@[t].0 != func_name@),
                    None => forall|t: int| 0 <= t < i ==> self@[t].0 != func_name@,
                },
            decreases self.funcs.len() - i + (if idx is Some { 0int } else { 1int }),
        {
            if self.funcs[i].0 == func_name {
                proof {
                    assert(self@[i as int].0 == self.funcs@[i as int].0@);
                }
                idx = Some(i);
            } else {
                i = i + 1;
            }
        }
        proof {
            assert(idx is None ==> i == self.funcs.len());
        }
        match idx {
            Some(j) => {
                proof {
                    lemma_assoc_set_found(orig, func_name@, gentry, j as int);
                }
                self.funcs.remove(j);
                self.funcs.insert(j, (func_name, entry));
                proof {
                    assert(self@ =~~= orig.update(j as int, (func_name@, gentry)));
                }
            },
            None => {
                proof {
                    lemma_assoc_set_missing(self@, func_name@, gentry);
                }
                self.funcs.push((func_name, entry));
                proof {
                    assert(self@ =~~= orig.push((func_name@, gentry)));
                }
            },
        }
    }

    /// The entry registered under `func_name`, copied out, if any.
    pub fn lookup(&self, func_name: &String) -> (r: Option<FunEntry>)
        ensures
            match r {
                Some(entry) => assoc_get(self@, func_name@) == Some(entry@),
                None => assoc_get(self@, func_name@) is None,
            },
    {
        let mut i: usize = 0;
        while i < self.funcs.len()
            invariant
                i <= self.funcs.len(),
                forall|j: int| 0 <= j < i ==> self@[j].0 != func_name@,
            decreases self.funcs.len() - i,
        {
            if self.funcs[i].0 == *func_name {
                proof {
                    lemma_assoc_get_found(self@, func_name@, i as int);
                }
                let found = &self.funcs[i].1;
                let entry = FunEntry {
                    params: crate::ast::clone_ast(&found.params),
                    ret_ty: found.ret_ty.clone(),
                    body: crate::ast::clone_ast(&found.body),
                };
                return Some(entry);
            }
            i = i + 1;
        }
        proof {
            lemma_assoc_get_missing(self@, func_name@);
        }
        None
    }
}

} // verus!
