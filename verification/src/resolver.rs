use vstd::prelude::*;

use crate::ast::{Expr, FunctionDecl, Stmt};
use crate::errors::{LoxResult, ResolverErrorType};
use crate::table::{table_find, table_map, table_set};
use crate::token::Token;

verus! {

broadcast use vstd::std_specs::vec::axiom_spec_len;

/// What kind of function body the resolver is inside.
#[derive(Clone, Copy, PartialEq, Eq, Structural, Debug)]
pub enum FunctionType {
    NoFunction,
    InFunction,
    InMethod,
    InInitializer,
}

/// What kind of class body the resolver is inside.
#[derive(Clone, Copy, PartialEq, Eq, Structural, Debug)]
pub enum ClassType {
    NoClass,
    InClass,
    InSubclass,
}

/// The lexical depth at which `name` is visible in a scope stack whose last
/// element is the innermost scope: 0 for the innermost scope that mentions
/// it, and nothing when no scope does (the name is then global).
pub open spec fn depth_of(scopes: Seq<Vec<(String, bool)>>, name: Seq<char>) -> Option<int>
    decreases scopes.len(),
{
    if scopes.len() == 0 {
        None
    } else if table_map(scopes.last()@).contains_key(name) {
        Some(0int)
    } else {
        match depth_of(scopes.drop_last(), name) {
            Some(d) => Some(d + 1),
            None => None,
        }
    }
}

/// Whether the innermost scope holds `name` declared but not yet defined,
/// which is exactly the state of a variable inside its own initialiser.
pub open spec fn declared_unfinished(scopes: Seq<Vec<(String, bool)>>, name: Seq<char>) -> bool {
    &&& scopes.len() > 0
    &&& table_map(scopes.last()@).contains_key(name)
    &&& table_map(scopes.last()@)[name] == false
}

/// The static-analysis pass: one walk over the tree that fills the
/// depth side table (`locals`) and enforces the scope rules. It never
/// evaluates anything.
pub struct Resolver {
    /// The stack of open lexical scopes; absent names are global. Each
    /// scope maps a name to whether its initialiser has finished.
    pub scopes: Vec<Vec<(String, bool)>>,
    pub current_function: FunctionType,
    pub current_class: ClassType,
    /// The depth side table, indexed by the parser's slot numbers.
    pub locals: Vec<Option<usize>>,
}

impl Resolver {
    /// A resolver for a program whose parse handed out `n_slots` slots;
    /// every reference starts out unresolved, that is global.
    pub fn new(n_slots: usize) -> (r: Resolver)
        ensures
            r.scopes@.len() == 0,
            r.current_function == FunctionType::NoFunction,
            r.current_class == ClassType::NoClass,
            r.locals@.len() == n_slots,
            forall|i: int| 0 <= i < n_slots ==> r.locals@[i] is None,
    {
        let mut locals: Vec<Option<usize>> = Vec::new();
        let mut i: usize = 0;
        while i < n_slots
            invariant
                i <= n_slots,
                locals@.len() == i,
                forall|j: int| 0 <= j < i ==> locals@[j] is None,
            decreases n_slots - i,
        {
            locals.push(None);
            i = i + 1;
        }
        Resolver {
            scopes: Vec::new(),
            current_function: FunctionType::NoFunction,
            current_class: ClassType::NoClass,
            locals,
        }
    }

    /// Hands the finished side table to the evaluator.
    pub fn into_locals(self) -> (r: Vec<Option<usize>>)
        ensures
            r == self.locals,
    {
        self.locals
    }

    fn begin_scope(&mut self)
        ensures
            final(self).scopes@.len() == old(self).scopes@.len() + 1,
            forall|i: int|
                0 <= i < old(self).scopes@.len() ==> final(self).scopes@[i] == old(
                    self,
                ).scopes@[i],
            final(self).current_function == old(self).current_function,
            final(self).current_class == old(self).current_class,
            final(self).locals == old(self).locals,
            final(self).scopes@.last()@ == Seq::<(String, bool)>::empty(),
    {
        let v: Vec<(String, bool)> = Vec::new();
        self.scopes.push(v);
    }

    fn end_scope(&mut self)
        requires
            old(self).scopes@.len() > 0,
        ensures
            final(self).scopes@ == old(self).scopes@.drop_last(),
            final(self).scopes@.len() == old(self).scopes@.len() - 1,
            final(self).current_function == old(self).current_function,
            final(self).current_class == old(self).current_class,
            final(self).locals == old(self).locals,
    {
        self.scopes.pop();
    }

    /// Declares `name` in the innermost scope, not yet defined. Declaring a
    /// name twice in the same local scope is the re-declaration error; the
    /// global scope is not on the stack, so globals are exempt.
    fn declare(&mut self, name: &Token) -> (r: Result<(), LoxResult>)
        ensures
            final(self).current_function == old(self).current_function,
            final(self).current_class == old(self).current_class,
            final(self).locals == old(self).locals,
            final(self).scopes@.len() == old(self).scopes@.len(),
            r matches Err(e) ==> e is Resolver,
            old(self).scopes@.len() == 0 ==> r is Ok && final(self).scopes@ == old(self).scopes@,
            old(self).scopes@.len() > 0 ==> {
                if table_map(old(self).scopes@.last()@).contains_key(name.lexeme@) {
                    &&& r matches Err(e) && e.is_resolver(ResolverErrorType::VariableAlreadyExists)
                    &&& final(self).scopes@ == old(self).scopes@
                } else {
                    &&& r is Ok
                    &&& forall|i: int|
                        0 <= i < old(self).scopes@.len() - 1 ==> final(self).scopes@[i] == old(
                            self,
                        ).scopes@[i]
                    &&& table_map(final(self).scopes@.last()@) == table_map(
                        old(self).scopes@.last()@,
                    ).insert(name.lexeme@, false)
                }
            },
    {
        let n = self.scopes.len();
        if n == 0 {
            return Ok(());
        }
        match table_find(&self.scopes[n - 1], &name.lexeme) {
            Some(_) => Err(
                LoxResult::Resolver {
                    token: name.dup(),
                    error_type: ResolverErrorType::VariableAlreadyExists,
                },
            ),
            None => {
                let top = &mut self.scopes[n - 1];
                table_set(top, &name.lexeme, false);
                Ok(())
            },
        }
    }

    /// Marks `name` as defined in the innermost scope: its initialiser has
    /// been resolved and reads of it are legal from here on.
    fn define_name(&mut self, name: &Token)
        ensures
            final(self).current_function == old(self).current_function,
            final(self).current_class == old(self).current_class,
            final(self).locals == old(self).locals,
            final(self).scopes@.len() == old(self).scopes@.len(),
            old(self).scopes@.len() == 0 ==> final(self).scopes@ == old(self).scopes@,
            old(self).scopes@.len() > 0 ==> {
                &&& forall|i: int|
                    0 <= i < old(self).scopes@.len() - 1 ==> final(self).scopes@[i] == old(
                        self,
                    ).scopes@[i]
                &&& table_map(final(self).scopes@.last()@) == table_map(
                    old(self).scopes@.last()@,
                ).insert(name.lexeme@, true)
            },
    {
        let n = self.scopes.len();
        if n == 0 {
            return ;
        }
        let top = &mut self.scopes[n - 1];
        table_set(top, &name.lexeme, true);
    }

    /// Defines a fixed name (such as `this` or `super`) in the innermost
    /// scope.
    fn define_fixed(&mut self, name: &str)
        requires
            old(self).scopes@.len() > 0,
        ensures
            final(self).current_function == old(self).current_function,
            final(self).current_class == old(self).current_class,
            final(self).locals == old(self).locals,
            final(self).scopes@.len() == old(self).scopes@.len(),
            forall|i: int|
                0 <= i < old(self).scopes@.len() - 1 ==> final(self).scopes@[i] == old(
                    self,
                ).scopes@[i],
            table_map(final(self).scopes@.last()@) == table_map(
                old(self).scopes@.last()@,
            ).insert(name@, true),
    {
        let n = self.scopes.len();
        let top = &mut self.scopes[n - 1];
        let owned = name.to_owned();
        table_set(top, &owned, true);
    }

    /// Records in the side table how many scopes up from the innermost one
    /// `name` is visible at `slot`; a name in no open scope stays
    /// unresolved and is read from the global frame at run time.
    #[verifier::loop_isolation(false)]
    fn resolve_local(&mut self, slot: usize, name: &Token)
        ensures
            final(self).scopes@ == old(self).scopes@,
            final(self).current_function == old(self).current_function,
            final(self).current_class == old(self).current_class,
            final(self).locals@.len() == old(self).locals@.len(),
            forall|i: int|
                0 <= i < old(self).locals@.len() && i != slot ==> final(self).locals@[i] == old(
                    self,
                ).locals@[i],
            slot < old(self).locals@.len() ==> final(self).locals@[slot as int] == match depth_of(
                old(self).scopes@,
                name.lexeme@,
            ) {
                Some(d) => Some(d as usize),
                None => old(self).locals@[slot as int],
            },
    {
        let n = self.scopes.len();
        proof {
            assert(old(self).scopes@.subrange(0, n as int) =~= old(self).scopes@);
        }
        let mut k: usize = 0;
        while k < n
            invariant
                k <= n,
                n == self.scopes@.len(),
                *self == *old(self),
                depth_of(old(self).scopes@, name.lexeme@) == match depth_of(
                    old(self).scopes@.subrange(0, n - k as int),
                    name.lexeme@,
                ) {
                    Some(d) => Some(d + k),
                    None => None::<int>,
                },
            decreases n - k,
        {
            let ghost pre = old(self).scopes@.subrange(0, n - k as int);
            proof {
                assert(pre.last() == old(self).scopes@[n - k - 1]);
                assert(pre.drop_last() =~= old(self).scopes@.subrange(0, n - k - 1));
            }
            let idx = n - 1 - k;
            match table_find(&self.scopes[idx], &name.lexeme) {
                Some(_) => {
                    if slot < self.locals.len() {
                        self.locals[slot] = Some(k);
                    }
                    return ;
                },
                None => {},
            }
            k = k + 1;
        }
        proof {
            assert(old(self).scopes@.subrange(0, 0).len() == 0);
        }
    }

    /// Resolves a whole program or a statement list; the first violated
    /// scope rule aborts the walk with its error.
    #[verifier::loop_isolation(false)]
    pub fn resolve_stmts(&mut self, stmts: &Vec<Stmt>) -> (r: Result<(), LoxResult>)
        ensures
            final(self).locals@.len() == old(self).locals@.len(),
            final(self).current_function == old(self).current_function,
            final(self).current_class == old(self).current_class,
            r is Ok ==> final(self).scopes@.len() == old(self).scopes@.len(),
            r matches Err(e) ==> e is Resolver,
            stmts@.len() == 0 ==> r is Ok && *final(self) == *old(self),
            (stmts@.len() > 0 && stmts@[0] is Return && old(self).current_function
                == FunctionType::NoFunction) ==> (r matches Err(e) && e.is_resolver(
                ResolverErrorType::TopLevelReturn,
            )),
            (stmts@.len() > 0 && stmts@[0] is Return && stmts@[0]->Return_value is Some && old(
                self,
            ).current_function == FunctionType::InInitializer) ==> (r matches Err(e)
                && e.is_resolver(ResolverErrorType::ReturnFromInit)),
            (stmts@.len() > 0 && stmts@[0] is Var && old(self).scopes@.len() > 0 && table_map(
                old(self).scopes@.last()@,
            ).contains_key(stmts@[0]->Var_name.lexeme@)) ==> (r matches Err(e) && e.is_resolver(
                ResolverErrorType::VariableAlreadyExists,
            )),
            (stmts@.len() > 0 && stmts@[0] is Class && stmts@[0]->Class_superclass_name is Some
                && stmts@[0]->Class_superclass_name.unwrap().lexeme@
                == stmts@[0]->Class_name.lexeme@) ==> (r matches Err(e) && e.is_resolver(
                ResolverErrorType::ClassInheritItself,
            )),
            (stmts@.len() > 0 && stmts@[0] is Print && stmts@[0]->Print_expression is This && old(
                self,
            ).current_class == ClassType::NoClass) ==> (r matches Err(e) && e.is_resolver(
                ResolverErrorType::ThisOutsideClass,
            )),
            (stmts@.len() > 0 && stmts@[0] is Expression && stmts@[0]->Expression_expression
                is This && old(self).current_class == ClassType::NoClass) ==> (r matches Err(e)
                && e.is_resolver(ResolverErrorType::ThisOutsideClass)),
            ({
                let e0 = stmts@[0]->Expression_expression;
                (stmts@.len() == 1 && stmts@[0] is Expression && e0 is Variable
                    && !declared_unfinished(old(self).scopes@, e0->Variable_name.lexeme@)) ==> {
                    &&& r is Ok
                    &&& (e0->Variable_slot < old(self).locals@.len() ==> final(self).locals@[e0->Variable_slot as int] == match depth_of(
                        old(self).scopes@,
                        e0->Variable_name.lexeme@,
                    ) {
                        Some(d) => Some(d as usize),
                        None => old(self).locals@[e0->Variable_slot as int],
                    })
                }
            }),
            (stmts@.len() >= 2 && stmts@[0] is Var && stmts@[0]->Var_initializer is None
                && stmts@[1] is Var && stmts@[1]->Var_name.lexeme@ == stmts@[0]->Var_name.lexeme@
                && old(self).scopes@.len() > 0 && !table_map(
                old(self).scopes@.last()@,
            ).contains_key(stmts@[0]->Var_name.lexeme@)) ==> (r matches Err(e) && e.is_resolver(
                ResolverErrorType::VariableAlreadyExists,
            )),
            (stmts@.len() > 0 && stmts@[0] is Class && stmts@[0]->Class_superclass_name is None
                && old(self).scopes@.len() == 0 && stmts@[0]->Class_methods@.len() > 0
                && stmts@[0]->Class_methods@[0].name.lexeme@ == "init"@
                && stmts@[0]->Class_methods@[0].params@.len() == 0
                && stmts@[0]->Class_methods@[0].body@.len() > 0
                && stmts@[0]->Class_methods@[0].body@[0] is Return
                && stmts@[0]->Class_methods@[0].body@[0]->Return_value is Some) ==> (r matches
                Err(e) && e.is_resolver(ResolverErrorType::ReturnFromInit)),
        decreases *stmts, 0int,
    {
        let mut i: usize = 0;
        while i < stmts.len()
            invariant
                i <= stmts@.len(),
                self.locals@.len() == old(self).locals@.len(),
                self.current_function == old(self).current_function,
                self.current_class == old(self).current_class,
                self.scopes@.len() == old(self).scopes@.len(),
                i == 0 ==> *self == *old(self),
                i >= 1 ==> !(stmts@[0] is Return && old(self).current_function
                    == FunctionType::NoFunction),
                i >= 1 ==> !(stmts@[0] is Return && stmts@[0]->Return_value is Some && old(
                    self,
                ).current_function == FunctionType::InInitializer),
                i >= 1 ==> !(stmts@[0] is Var && old(self).scopes@.len() > 0 && table_map(
                    old(self).scopes@.last()@,
                ).contains_key(stmts@[0]->Var_name.lexeme@)),
                i >= 1 ==> !(stmts@[0] is Class && stmts@[0]->Class_superclass_name is Some
                    && stmts@[0]->Class_superclass_name.unwrap().lexeme@
                    == stmts@[0]->Class_name.lexeme@),
                i >= 1 ==> !(stmts@[0] is Print && stmts@[0]->Print_expression is This && old(
                    self,
                ).current_class == ClassType::NoClass),
                i >= 1 ==> !(stmts@[0] is Expression && stmts@[0]->Expression_expression is This
                    && old(self).current_class == ClassType::NoClass),
                i >= 1 ==> !(stmts@[0] is Class && stmts@[0]->Class_superclass_name is None
                    && old(self).scopes@.len() == 0 && stmts@[0]->Class_methods@.len() > 0
                    && stmts@[0]->Class_methods@[0].name.lexeme@ == "init"@
                    && stmts@[0]->Class_methods@[0].params@.len() == 0
                    && stmts@[0]->Class_methods@[0].body@.len() > 0
                    && stmts@[0]->Class_methods@[0].body@[0] is Return
                    && stmts@[0]->Class_methods@[0].body@[0]->Return_value is Some),
                (stmts@.len() >= 2 && stmts@[0] is Var && stmts@[0]->Var_initializer is None
                    && old(self).scopes@.len() > 0 && !table_map(
                    old(self).scopes@.last()@,
                ).contains_key(stmts@[0]->Var_name.lexeme@) && i == 1) ==> table_map(
                    self.scopes@.last()@,
                ) == table_map(old(self).scopes@.last()@).insert(
                    stmts@[0]->Var_name.lexeme@,
                    true,
                ),
                ({
                    let e0 = stmts@[0]->Expression_expression;
                    (stmts@.len() == 1 && stmts@[0] is Expression && e0 is Variable
                        && !declared_unfinished(old(self).scopes@, e0->Variable_name.lexeme@)
                        && i == 1) ==> (e0->Variable_slot < old(self).locals@.len() ==> self.locals@[e0->Variable_slot as int] == match depth_of(
                        old(self).scopes@,
                        e0->Variable_name.lexeme@,
                    ) {
                        Some(d) => Some(d as usize),
                        None => old(self).locals@[e0->Variable_slot as int],
                    })
                }),
                i >= 2 ==> !(stmts@.len() >= 2 && stmts@[0] is Var
                    && stmts@[0]->Var_initializer is None && stmts@[1] is Var
                    && stmts@[1]->Var_name.lexeme@ == stmts@[0]->Var_name.lexeme@ && old(
                    self,
                ).scopes@.len() > 0 && !table_map(old(self).scopes@.last()@).contains_key(
                    stmts@[0]->Var_name.lexeme@,
                )),
            decreases stmts@.len() - i,
        {
            proof {
                broadcast use vstd::seq::axiom_seq_index_decreases;

                assert(decreases_to!(*stmts => stmts@));
                assert(decreases_to!(stmts@ => stmts@[i as int]));
            }
            match self.resolve_stmt(&stmts[i]) {
                Ok(()) => {},
                Err(e) => {
                    return Err(e);
                },
            }
            i = i + 1;
        }
        Ok(())
    }

    /// Resolves one statement, enforcing the statement-level scope rules:
    /// no re-declaration in a local scope, no `return` at the top level, no
    /// `return` with a value from an initialiser, and no class inheriting
    /// from itself.
    #[verifier::loop_isolation(false)]
    fn resolve_stmt(&mut self, s: &Stmt) -> (r: Result<(), LoxResult>)
        ensures
            final(self).locals@.len() == old(self).locals@.len(),
            final(self).current_function == old(self).current_function,
            final(self).current_class == old(self).current_class,
            r is Ok ==> final(self).scopes@.len() == old(self).scopes@.len(),
            r matches Err(e) ==> e is Resolver,
            (s matches Stmt::Var { name, .. } && old(self).scopes@.len() > 0 && table_map(
                old(self).scopes@.last()@,
            ).contains_key(name.lexeme@)) ==> (r matches Err(e) && e.is_resolver(
                ResolverErrorType::VariableAlreadyExists,
            )),
            (s matches Stmt::Return { .. } && old(self).current_function
                == FunctionType::NoFunction) ==> (r matches Err(e) && e.is_resolver(
                ResolverErrorType::TopLevelReturn,
            )),
            (s matches Stmt::Return { value: Some(_), .. } && old(self).current_function
                == FunctionType::InInitializer) ==> (r matches Err(e) && e.is_resolver(
                ResolverErrorType::ReturnFromInit,
            )),
            (s matches Stmt::Class { name, superclass_name: Some(sc), .. } && sc.lexeme@
                == name.lexeme@) ==> (r matches Err(e) && e.is_resolver(
                ResolverErrorType::ClassInheritItself,
            )),
            s matches Stmt::Var { name, initializer } ==> ((initializer is None && old(
                self,
            ).scopes@.len() > 0 && !table_map(old(self).scopes@.last()@).contains_key(
                name.lexeme@,
            )) ==> {
                &&& r is Ok
                &&& final(self).scopes@.len() == old(self).scopes@.len()
                &&& forall|j: int|
                    0 <= j < old(self).scopes@.len() - 1 ==> final(self).scopes@[j] == old(self).scopes@[j]
                &&& table_map(final(self).scopes@.last()@) == table_map(
                    old(self).scopes@.last()@,
                ).insert(name.lexeme@, true)
                &&& final(self).locals == old(self).locals
            }),
            s matches Stmt::Print { expression } ==> ((expression is This && old(
                self,
            ).current_class == ClassType::NoClass) ==> (r matches Err(e) && e.is_resolver(
                ResolverErrorType::ThisOutsideClass,
            ))),
            s matches Stmt::Expression { expression } ==> (expression matches Expr::Variable {
                name,
                slot,
            } ==> (!declared_unfinished(old(self).scopes@, name.lexeme@) ==> {
                &&& r is Ok
                &&& final(self).scopes@ == old(self).scopes@
                &&& (slot < old(self).locals@.len() ==> final(self).locals@[slot as int]
                    == match depth_of(old(self).scopes@, name.lexeme@) {
                    Some(d) => Some(d as usize),
                    None => old(self).locals@[slot as int],
                })
            })),
            s matches Stmt::Expression { expression } ==> ((expression is This && old(
                self,
            ).current_class == ClassType::NoClass) ==> (r matches Err(e) && e.is_resolver(
                ResolverErrorType::ThisOutsideClass,
            ))),
            s matches Stmt::Block { statements } ==> ((statements@.len() >= 2 && statements@[0]
                is Var && statements@[0]->Var_initializer is None && statements@[1] is Var
                && statements@[1]->Var_name.lexeme@ == statements@[0]->Var_name.lexeme@) ==> (r
                matches Err(e) && e.is_resolver(ResolverErrorType::VariableAlreadyExists))),
            s matches Stmt::Class { name, superclass_name, superclass_slot, methods } ==> ((
            superclass_name is None && old(self).scopes@.len() == 0 && methods@.len() > 0
                && methods@[0].name.lexeme@ == "init"@ && methods@[0].params@.len() == 0
                && methods@[0].body@.len() > 0 && methods@[0].body@[0] is Return
                && methods@[0].body@[0]->Return_value is Some) ==> (r matches Err(e)
                && e.is_resolver(ResolverErrorType::ReturnFromInit))),
        decreases *s, 1int,
    {
        match s {
            Stmt::Expression { expression } => self.resolve_expr(expression),
            Stmt::Print { expression } => self.resolve_expr(expression),
            Stmt::Var { name, initializer } => {
                match self.declare(name) {
                    Ok(()) => {},
                    Err(e) => {
                        return Err(e);
                    },
                }
                match initializer {
                    Some(init) => {
                        match self.resolve_expr(init) {
                            Ok(()) => {},
                            Err(e) => {
                                return Err(e);
                            },
                        }
                    },
                    None => {},
                }
                self.define_name(name);
                Ok(())
            },
            Stmt::Block { statements } => {
                self.begin_scope();
                proof {
                    assert(decreases_to!(*s => s->Block_statements));
                }
                match self.resolve_stmts(statements) {
                    Ok(()) => {},
                    Err(e) => {
                        return Err(e);
                    },
                }
                self.end_scope();
                Ok(())
            },
            Stmt::If { condition, then_branch, else_branch } => {
                match self.resolve_expr(condition) {
                    Ok(()) => {},
                    Err(e) => {
                        return Err(e);
                    },
                }
                match self.resolve_stmt(then_branch) {
                    Ok(()) => {},
                    Err(e) => {
                        return Err(e);
                    },
                }
                match else_branch {
                    Some(eb) => self.resolve_stmt(eb),
                    None => Ok(()),
                }
            },
            Stmt::While { condition, body } => {
                match self.resolve_expr(condition) {
                    Ok(()) => {},
                    Err(e) => {
                        return Err(e);
                    },
                }
                self.resolve_stmt(body)
            },
            Stmt::Function { decl } => {
                match self.declare(&decl.name) {
                    Ok(()) => {},
                    Err(e) => {
                        return Err(e);
                    },
                }
                self.define_name(&decl.name);
                proof {
                    assert(decreases_to!(*s => s->Function_decl));
                }
                self.resolve_function(decl, FunctionType::InFunction)
            },
            Stmt::Return { keyword, value } => {
                if matches!(self.current_function, FunctionType::NoFunction) {
                    return Err(
                        LoxResult::Resolver {
                            token: keyword.dup(),
                            error_type: ResolverErrorType::TopLevelReturn,
                        },
                    );
                }
                match value {
                    Some(v) => {
                        if matches!(self.current_function, FunctionType::InInitializer) {
                            return Err(
                                LoxResult::Resolver {
                                    token: keyword.dup(),
                                    error_type: ResolverErrorType::ReturnFromInit,
                                },
                            );
                        }
                        self.resolve_expr(v)
                    },
                    None => Ok(()),
                }
            },
            Stmt::Class { name, superclass_name, superclass_slot, methods } => {
                if let Some(sc) = superclass_name {
                    if sc.lexeme == name.lexeme {
                        return Err(
                            LoxResult::Resolver {
                                token: sc.dup(),
                                error_type: ResolverErrorType::ClassInheritItself,
                            },
                        );
                    }
                }
                match self.declare(name) {
                    Ok(()) => {},
                    Err(e) => {
                        return Err(e);
                    },
                }
                self.define_name(name);
                let enclosing = self.current_class;
                self.current_class = ClassType::InClass;
                let has_super = match superclass_name {
                    Some(sc) => {
                        self.current_class = ClassType::InSubclass;
                        self.resolve_local(*superclass_slot, sc);
                        self.begin_scope();
                        self.define_fixed("super");
                        true
                    },
                    None => false,
                };
                self.begin_scope();
                self.define_fixed("this");
                let mut i: usize = 0;
                loop
                    invariant
                        i <= methods@.len(),
                        i >= 1 ==> !(superclass_name is None && old(self).scopes@.len() == 0
                            && methods@.len() > 0 && methods@[0].name.lexeme@ == "init"@
                            && methods@[0].params@.len() == 0 && methods@[0].body@.len() > 0
                            && methods@[0].body@[0] is Return
                            && methods@[0].body@[0]->Return_value is Some),
                        self.locals@.len() == old(self).locals@.len(),
                        self.current_function == old(self).current_function,
                        self.current_class == if has_super {
                            ClassType::InSubclass
                        } else {
                            ClassType::InClass
                        },
                        self.scopes@.len() == old(self).scopes@.len() + 1 + (if has_super {
                            1int
                        } else {
                            0int
                        }),
                    decreases methods@.len() - i,
                {
                    if i >= methods.len() {
                        break ;
                    }
                    proof {
                        broadcast use vstd::seq::axiom_seq_index_decreases;

                        assert(decreases_to!(*s => s->Class_methods));
                        assert(decreases_to!(s->Class_methods => s->Class_methods@));
                        assert(decreases_to!(s->Class_methods@ => s->Class_methods@[i as int]));
                    }
                    let m = &methods[i];
                    let is_init = m.name.lexeme == "init".to_owned();
                    let ftype = if is_init {
                        FunctionType::InInitializer
                    } else {
                        FunctionType::InMethod
                    };
                    match self.resolve_function(m, ftype) {
                        Ok(()) => {},
                        Err(e) => {
                            self.current_class = enclosing;
                            return Err(e);
                        },
                    }
                    i = i + 1;
                }
                self.end_scope();
                if has_super {
                    self.end_scope();
                }
                self.current_class = enclosing;
                Ok(())
            },
        }
    }

    /// Resolves a function or method body in a fresh scope holding its
    /// parameters, with the function context set to `ftype` for the
    /// duration.
    #[verifier::loop_isolation(false)]
    fn resolve_function(&mut self, decl: &FunctionDecl, ftype: FunctionType) -> (r: Result<
        (),
        LoxResult,
    >)
        ensures
            final(self).locals@.len() == old(self).locals@.len(),
            final(self).current_function == old(self).current_function,
            final(self).current_class == old(self).current_class,
            r is Ok ==> final(self).scopes@.len() == old(self).scopes@.len(),
            r matches Err(e) ==> e is Resolver,
            (ftype == FunctionType::InInitializer && decl.params@.len() == 0 && decl.body@.len()
                > 0 && decl.body@[0] is Return && decl.body@[0]->Return_value is Some) ==> (r
                matches Err(e) && e.is_resolver(ResolverErrorType::ReturnFromInit)),
        decreases *decl, 2int,
    {
        let enclosing = self.current_function;
        self.current_function = ftype;
        self.begin_scope();
        let mut i: usize = 0;
        while i < decl.params.len()
            invariant
                i <= decl.params@.len(),
                self.locals@.len() == old(self).locals@.len(),
                self.current_function == ftype,
                self.current_class == old(self).current_class,
                self.scopes@.len() == old(self).scopes@.len() + 1,
            decreases decl.params@.len() - i,
        {
            match self.declare(&decl.params[i]) {
                Ok(()) => {},
                Err(e) => {
                    self.current_function = enclosing;
                    return Err(e);
                },
            }
            self.define_name(&decl.params[i]);
            i = i + 1;
        }
        proof {
            assert(decreases_to!(*decl => decl.body));
        }
        let r = self.resolve_stmts(&decl.body);
        match r {
            Ok(()) => {},
            Err(e) => {
                self.current_function = enclosing;
                return Err(e);
            },
        }
        self.end_scope();
        self.current_function = enclosing;
        Ok(())
    }

    /// Resolves one expression, enforcing the expression-level rules: no
    /// read of a variable inside its own initialiser, no `this` outside a
    /// class, and no `super` outside a subclass.
    #[verifier::loop_isolation(false)]
    fn resolve_expr(&mut self, e: &Expr) -> (r: Result<(), LoxResult>)
        ensures
            final(self).locals@.len() == old(self).locals@.len(),
            final(self).current_function == old(self).current_function,
            final(self).current_class == old(self).current_class,
            r is Ok ==> final(self).scopes@.len() == old(self).scopes@.len(),
            r matches Err(err) ==> err is Resolver,
            e matches Expr::Variable { name, slot } ==> {
                if declared_unfinished(old(self).scopes@, name.lexeme@) {
                    r matches Err(err) && err.is_resolver(ResolverErrorType::VariableNotInitialized)
                } else {
                    &&& r is Ok
                    &&& final(self).scopes@ == old(self).scopes@
                    &&& (slot < old(self).locals@.len() ==> final(self).locals@[slot as int]
                        == match depth_of(old(self).scopes@, name.lexeme@) {
                        Some(d) => Some(d as usize),
                        None => old(self).locals@[slot as int],
                    })
                }
            },
            e matches Expr::This { keyword, slot } ==> {
                if old(self).current_class == ClassType::NoClass {
                    r matches Err(err) && err.is_resolver(ResolverErrorType::ThisOutsideClass)
                } else {
                    &&& r is Ok
                    &&& final(self).scopes@ == old(self).scopes@
                    &&& (slot < old(self).locals@.len() ==> final(self).locals@[slot as int]
                        == match depth_of(old(self).scopes@, keyword.lexeme@) {
                        Some(d) => Some(d as usize),
                        None => old(self).locals@[slot as int],
                    })
                }
            },
            (e matches Expr::Super { .. } && old(self).current_class != ClassType::InSubclass)
                ==> (r matches Err(err) && err.is_resolver(
                ResolverErrorType::SuperOutsideSubclass,
            )),
        decreases *e, 0int,
    {
        match e {
            Expr::Literal { value } => Ok(()),
            Expr::Grouping { expression } => self.resolve_expr(expression),
            Expr::Unary { operator, right } => self.resolve_expr(right),
            Expr::Binary { left, operator, right } => {
                match self.resolve_expr(left) {
                    Ok(()) => {},
                    Err(err) => {
                        return Err(err);
                    },
                }
                self.resolve_expr(right)
            },
            Expr::Logical { left, operator, right } => {
                match self.resolve_expr(left) {
                    Ok(()) => {},
                    Err(err) => {
                        return Err(err);
                    },
                }
                self.resolve_expr(right)
            },
            Expr::Variable { name, slot } => {
                let n = self.scopes.len();
                if n > 0 {
                    match table_find(&self.scopes[n - 1], &name.lexeme) {
                        Some(j) => {
                            if !self.scopes[n - 1][j].1 {
                                return Err(
                                    LoxResult::Resolver {
                                        token: name.dup(),
                                        error_type: ResolverErrorType::VariableNotInitialized,
                                    },
                                );
                            }
                        },
                        None => {},
                    }
                }
                self.resolve_local(*slot, name);
                Ok(())
            },
            Expr::Assign { name, value, slot } => {
                match self.resolve_expr(value) {
                    Ok(()) => {},
                    Err(err) => {
                        return Err(err);
                    },
                }
                self.resolve_local(*slot, name);
                Ok(())
            },
            Expr::Call { callee, paren, arguments } => {
                match self.resolve_expr(callee) {
                    Ok(()) => {},
                    Err(err) => {
                        return Err(err);
                    },
                }
                let mut i: usize = 0;
                while i < arguments.len()
                    invariant
                        i <= arguments@.len(),
                        self.locals@.len() == old(self).locals@.len(),
                        self.current_function == old(self).current_function,
                        self.current_class == old(self).current_class,
                        self.scopes@.len() == old(self).scopes@.len(),
                    decreases arguments@.len() - i,
                {
                    proof {
                        broadcast use vstd::seq::axiom_seq_index_decreases;

                        assert(decreases_to!(*e => e->Call_arguments));
                        assert(decreases_to!(e->Call_arguments => e->Call_arguments@));
                        assert(decreases_to!(e->Call_arguments@ => e->Call_arguments@[i as int]));
                    }
                    match self.resolve_expr(&arguments[i]) {
                        Ok(()) => {},
                        Err(err) => {
                            return Err(err);
                        },
                    }
                    i = i + 1;
                }
                Ok(())
            },
            Expr::Get { object, name } => self.resolve_expr(object),
            Expr::SetProp { object, name, value } => {
                match self.resolve_expr(value) {
                    Ok(()) => {},
                    Err(err) => {
                        return Err(err);
                    },
                }
                self.resolve_expr(object)
            },
            Expr::This { keyword, slot } => {
                if matches!(self.current_class, ClassType::NoClass) {
                    return Err(
                        LoxResult::Resolver {
                            token: keyword.dup(),
                            error_type: ResolverErrorType::ThisOutsideClass,
                        },
                    );
                }
                self.resolve_local(*slot, keyword);
                Ok(())
            },
            Expr::Super { keyword, method, slot } => {
                if !matches!(self.current_class, ClassType::InSubclass) {
                    return Err(
                        LoxResult::Resolver {
                            token: keyword.dup(),
                            error_type: ResolverErrorType::SuperOutsideSubclass,
                        },
                    );
                }
                self.resolve_local(*slot, keyword);
                Ok(())
            },
        }
    }
}

} // verus!
