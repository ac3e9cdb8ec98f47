use vstd::prelude::*;
use vstd::string::*;

use crate::ast::{Expr, FunctionDecl, Stmt};
use crate::environment::Environment;
use crate::errors::{LoxResult, RuntimeErrorType};
use crate::num;
use crate::table::{table_get, table_map, table_set};
use crate::token::{Object, Token, TokenType};
use crate::value::{truthy, FunValue, NativeFn, Value};

verus! {

broadcast use vstd::std_specs::vec::axiom_spec_len;

/// A function declaration as stored at run time: the declaration itself and
/// whether it is a class initialiser.
pub struct FunDef {
    pub decl: FunctionDecl,
    pub is_init: bool,
}

/// A class as stored at run time. A superclass is the index of an earlier
/// class; methods pair each name with its function value, whose closure is
/// the environment the class was declared in (plus the `super` frame).
pub struct ClassDef {
    pub name: String,
    pub superclass: Option<usize>,
    pub methods: Vec<(String, FunValue)>,
}

/// An object: its class and its fields. Fields are created by assignment
/// and, on a property read, shadow methods.
pub struct InstanceData {
    pub class: usize,
    pub fields: Vec<(String, Value)>,
}

/// The value a literal token denotes.
pub open spec fn object_value(o: Object) -> Value {
    match o {
        Object::Num(b) => Value::Num(b),
        Object::Str(s) => Value::Str(s),
        Object::Nil => Value::Nil,
        Object::True => Value::True,
        Object::False => Value::False,
    }
}

/// The value of an expression that is a filled literal, known without
/// evaluating anything.
pub open spec fn lit_of(e: Expr) -> Option<Value> {
    match e {
        Expr::Literal { value } => match value {
            Some(o) => Some(object_value(o)),
            None => None,
        },
        _ => None,
    }
}

/// The method a class provides under `name`, found on the class itself or
/// up its superclass chain; `fuel` bounds the walk.
pub open spec fn method_lookup(
    classes: Seq<ClassDef>,
    c: int,
    name: Seq<char>,
    fuel: nat,
) -> Option<FunValue>
    decreases fuel,
{
    if fuel == 0 || !(0 <= c < classes.len()) {
        None
    } else if table_map(classes[c].methods@).contains_key(name) {
        Some(table_map(classes[c].methods@)[name])
    } else {
        match classes[c].superclass {
            Some(s) => method_lookup(classes, s as int, name, (fuel - 1) as nat),
            None => None,
        }
    }
}

/// The tree-walking evaluator. It owns the whole runtime state: the frame
/// arena, the current-frame slot, the resolver's depth side table, the
/// stores that give functions, classes and instances their identity, and
/// the output collected from `print` statements.
pub struct Interpreter {
    pub environment: Environment,
    /// The current-environment slot: the frame statements execute in.
    pub cur: usize,
    /// The resolver's side table: lexical depth by reference slot.
    pub locals: Vec<Option<usize>>,
    pub funs: Vec<FunDef>,
    pub classes: Vec<ClassDef>,
    pub instances: Vec<InstanceData>,
    /// Lines written by `print`, in order.
    pub output: Vec<String>,
}

impl Interpreter {
    pub open spec fn wf(self) -> bool {
        &&& self.environment.wf()
        &&& self.cur < self.environment.frames@.len()
    }

    /// The frame discipline every evaluation step obeys: the environment
    /// stays well formed, the current-environment slot is restored, frames
    /// and stores only grow, and the side table is untouched.
    pub open spec fn preserved(pre: Interpreter, post: Interpreter) -> bool {
        &&& post.environment.wf()
        &&& post.cur == pre.cur
        &&& post.environment.frames@.len() >= pre.environment.frames@.len()
        &&& post.locals == pre.locals
        &&& post.funs@.len() >= pre.funs@.len()
        &&& post.classes@.len() >= pre.classes@.len()
        &&& post.instances@.len() >= pre.instances@.len()
        &&& post.output@.len() >= pre.output@.len()
    }

    /// The resolved depth of a reference slot; an unresolved slot reads the
    /// global frame.
    pub open spec fn slot_depth(self, slot: usize) -> Option<usize> {
        if slot < self.locals@.len() {
            self.locals@[slot as int]
        } else {
            None
        }
    }

    /// A fresh interpreter: one global frame, holding the `clock` builtin.
    pub fn new(locals: Vec<Option<usize>>) -> (it: Interpreter)
        ensures
            it.wf(),
            it.cur == 0,
            it.locals == locals,
            it.output@.len() == 0,
    {
        let mut environment = Environment::new();
        let clock_name = "clock".to_owned();
        environment.define(0, &clock_name, Value::Native(NativeFn::Clock));
        Interpreter {
            environment,
            cur: 0,
            locals,
            funs: Vec::new(),
            classes: Vec::new(),
            instances: Vec::new(),
            output: Vec::new(),
        }
    }

    /// Only `nil` and `false` are falsy.
    pub fn is_truthy(&self, obj: &Value) -> (r: bool)
        ensures
            r == truthy(*obj),
    {
        match obj {
            Value::Nil => false,
            Value::False => false,
            _ => true,
        }
    }

    /// Runs a program: executes its statements in order, stopping at the
    /// first error. The current-environment slot is back at its starting
    /// value afterwards, whatever happened.
    #[verifier::loop_isolation(false)]
    pub fn interpret(&mut self, statements: &Vec<Stmt>) -> (r: Result<(), LoxResult>)
        requires
            old(self).wf(),
        ensures
            final(self).wf(),
            Self::preserved(*old(self), *final(self)),
            r matches Err(e) ==> (e is Runtime || e is Environment || e is ReturnValue),
            statements@.len() == 0 ==> r is Ok && *final(self) == *old(self),
            (statements@.len() == 1 && statements@[0] is Var && statements@[0]->Var_initializer
                is None) ==> {
                &&& r is Ok
                &&& final(self).environment.frames@.len() == old(self).environment.frames@.len()
                &&& final(self).environment.frames@[old(self).cur as int].map() == old(
                    self,
                ).environment.frames@[old(self).cur as int].map().insert(
                    statements@[0]->Var_name.lexeme@,
                    Value::Nil,
                )
            },
            (statements@.len() == 1 && statements@[0] is Print && lit_of(
                statements@[0]->Print_expression,
            ) is Some) ==> {
                &&& r is Ok
                &&& final(self).output@.len() == old(self).output@.len() + 1
                &&& final(self).output@.last()@ == old(self).text_of_value(
                    lit_of(statements@[0]->Print_expression).unwrap(),
                )
            },
            (statements@.len() == 1 && statements@[0] is Var && statements@[0]->Var_initializer
                is Some && lit_of(statements@[0]->Var_initializer.unwrap()) is Some) ==> {
                &&& r is Ok
                &&& final(self).environment.frames@.len() == old(self).environment.frames@.len()
                &&& final(self).environment.frames@[old(self).cur as int].map() == old(
                    self,
                ).environment.frames@[old(self).cur as int].map().insert(
                    statements@[0]->Var_name.lexeme@,
                    lit_of(statements@[0]->Var_initializer.unwrap()).unwrap(),
                )
            },
    {
        let mut i: usize = 0;
        while i < statements.len()
            invariant
                i <= statements@.len(),
                self.wf(),
                Self::preserved(*old(self), *self),
                i == 0 ==> *self == *old(self),
                (statements@.len() == 1 && statements@[0] is Var
                    && statements@[0]->Var_initializer is None && i == 1) ==> {
                    &&& self.environment.frames@.len() == old(self).environment.frames@.len()
                    &&& self.environment.frames@[old(self).cur as int].map() == old(
                        self,
                    ).environment.frames@[old(self).cur as int].map().insert(
                        statements@[0]->Var_name.lexeme@,
                        Value::Nil,
                    )
                },
                (statements@.len() == 1 && statements@[0] is Print && lit_of(
                    statements@[0]->Print_expression,
                ) is Some && i == 1) ==> {
                    &&& self.output@.len() == old(self).output@.len() + 1
                    &&& self.output@.last()@ == old(self).text_of_value(
                        lit_of(statements@[0]->Print_expression).unwrap(),
                    )
                },
                (statements@.len() == 1 && statements@[0] is Var
                    && statements@[0]->Var_initializer is Some && lit_of(
                    statements@[0]->Var_initializer.unwrap(),
                ) is Some && i == 1) ==> {
                    &&& self.environment.frames@.len() == old(self).environment.frames@.len()
                    &&& self.environment.frames@[old(self).cur as int].map() == old(
                        self,
                    ).environment.frames@[old(self).cur as int].map().insert(
                        statements@[0]->Var_name.lexeme@,
                        lit_of(statements@[0]->Var_initializer.unwrap()).unwrap(),
                    )
                },
            decreases statements@.len() - i,
        {
            match self.execute(&statements[i], u64::MAX) {
                Ok(()) => {},
                Err(e) => {
                    return Err(e);
                },
            }
            i = i + 1;
        }
        Ok(())
    }

    /// Executes one statement.
    ///
    /// A function declaration binds the function's name, in the current
    /// frame, to a fresh function value whose closure is exactly the
    /// current frame — the lexical environment in effect at the definition
    /// site, never a caller's.
    #[verifier::loop_isolation(false)]
    pub fn execute(&mut self, stmt: &Stmt, fuel: u64) -> (r: Result<(), LoxResult>)
        requires
            old(self).wf(),
        ensures
            final(self).wf(),
            Self::preserved(*old(self), *final(self)),
            r matches Err(e) ==> (e is Runtime || e is Environment || e is ReturnValue),
            (*stmt is Var && stmt->Var_initializer is Some && lit_of(
                stmt->Var_initializer.unwrap(),
            ) is Some && fuel > 1) ==> {
                &&& r is Ok
                &&& final(self).environment.frames@.len() == old(self).environment.frames@.len()
                &&& forall|i: int|
                    0 <= i < old(self).environment.frames@.len() && i != old(self).cur ==> final(self).environment.frames@[i] == old(self).environment.frames@[i]
                &&& final(self).environment.frames@[old(self).cur as int].map() == old(
                    self,
                ).environment.frames@[old(self).cur as int].map().insert(
                    stmt->Var_name.lexeme@,
                    lit_of(stmt->Var_initializer.unwrap()).unwrap(),
                )
                &&& final(self).output == old(self).output
            },
            (*stmt is Print && r is Ok) ==> final(self).output@.len() >= old(self).output@.len()
                + 1,
            (*stmt is Print && lit_of(stmt->Print_expression) is Some && fuel > 1) ==> {
                &&& r is Ok
                &&& final(self).output@.len() == old(self).output@.len() + 1
                &&& final(self).output@.last()@ == old(self).text_of_value(
                    lit_of(stmt->Print_expression).unwrap(),
                )
                &&& final(self).environment == old(self).environment
            },
            (*stmt is Var && stmt->Var_initializer is None && fuel > 0) ==> {
                &&& r is Ok
                &&& final(self).environment.frames@.len() == old(self).environment.frames@.len()
                &&& forall|i: int|
                    0 <= i < old(self).environment.frames@.len() && i != old(self).cur ==> final(self).environment.frames@[i] == old(self).environment.frames@[i]
                &&& final(self).environment.frames@[old(self).cur as int].map() == old(
                    self,
                ).environment.frames@[old(self).cur as int].map().insert(
                    stmt->Var_name.lexeme@,
                    Value::Nil,
                )
            },
            (*stmt is Function && fuel > 0) ==> {
                &&& r is Ok
                &&& final(self).funs@.len() == old(self).funs@.len() + 1
                &&& final(self).funs@[old(self).funs@.len() as int].is_init == false
                &&& final(self).environment.frames@.len() == old(
                    self,
                ).environment.frames@.len()
                &&& forall|i: int|
                    0 <= i < old(self).environment.frames@.len() && i != old(self).cur ==> final(self).environment.frames@[i] == old(self).environment.frames@[i]
                &&& final(self).environment.frames@[old(self).cur as int].map() == old(
                    self,
                ).environment.frames@[old(self).cur as int].map().insert(
                    stmt->Function_decl.name.lexeme@,
                    Value::Fun(
                        FunValue { decl: old(self).funs@.len() as usize, closure: old(self).cur },
                    ),
                )
            },
        decreases fuel,
    {
        if fuel == 0 {
            return Err(step_limit_error());
        }
        match stmt {
            Stmt::Expression { expression } => {
                match self.evaluate(expression, fuel - 1) {
                    Ok(_) => Ok(()),
                    Err(e) => Err(e),
                }
            },
            Stmt::Print { expression } => {
                let v = match self.evaluate(expression, fuel - 1) {
                    Ok(v) => v,
                    Err(e) => {
                        return Err(e);
                    },
                };
                let line = self.stringify(&v);
                self.output.push(line);
                Ok(())
            },
            Stmt::Var { name, initializer } => {
                let value = match initializer {
                    Some(init) => match self.evaluate(init, fuel - 1) {
                        Ok(v) => v,
                        Err(e) => {
                            return Err(e);
                        },
                    },
                    None => Value::Nil,
                };
                let cur = self.cur;
                self.environment.define(cur, &name.lexeme, value);
                Ok(())
            },
            Stmt::Block { statements } => {
                let cur = self.cur;
                let f = self.environment.from_enclosing(cur);
                self.execute_block(statements, f, fuel - 1)
            },
            Stmt::If { condition, then_branch, else_branch } => {
                let c = match self.evaluate(condition, fuel - 1) {
                    Ok(v) => v,
                    Err(e) => {
                        return Err(e);
                    },
                };
                if self.is_truthy(&c) {
                    self.execute(then_branch, fuel - 1)
                } else {
                    match else_branch {
                        Some(eb) => self.execute(eb, fuel - 1),
                        None => Ok(()),
                    }
                }
            },
            Stmt::While { condition, body } => {
                let mut f = fuel;
                loop
                    invariant
                        self.wf(),
                        f <= fuel,
                        Self::preserved(*old(self), *self),
                    decreases f,
                {
                    if f == 0 {
                        return Err(step_limit_error());
                    }
                    f = f - 1;
                    let c = match self.evaluate(condition, f) {
                        Ok(v) => v,
                        Err(e) => {
                            return Err(e);
                        },
                    };
                    if !self.is_truthy(&c) {
                        return Ok(());
                    }
                    match self.execute(body, f) {
                        Ok(()) => {},
                        Err(e) => {
                            return Err(e);
                        },
                    }
                }
            },
            Stmt::Function { decl } => {
                let fv = self.make_function(decl, false);
                let cur = self.cur;
                let name = decl.name.lexeme.clone();
                self.environment.define(cur, &name, Value::Fun(fv));
                Ok(())
            },
            Stmt::Return { keyword, value } => {
                let v = match value {
                    Some(e) => match self.evaluate(e, fuel - 1) {
                        Ok(v) => v,
                        Err(e) => {
                            return Err(e);
                        },
                    },
                    None => Value::Nil,
                };
                // The non-error control signal that unwinds to the
                // enclosing call.
                Err(LoxResult::ReturnValue { value: v })
            },
            Stmt::Class { name, superclass_name, superclass_slot, methods } => {
                self.execute_class(name, superclass_name, *superclass_slot, methods, fuel - 1)
            },
        }
    }

    /// Executes a class declaration: evaluates the superclass reference if
    /// there is one, closes every method over the declaration environment
    /// (with a `super` frame in between when there is a superclass), and
    /// binds the class's name in the current frame.
    #[verifier::loop_isolation(false)]
    fn execute_class(
        &mut self,
        name: &Token,
        superclass_name: &Option<Token>,
        superclass_slot: usize,
        methods: &Vec<FunctionDecl>,
        fuel: u64,
    ) -> (r: Result<(), LoxResult>)
        requires
            old(self).wf(),
        ensures
            final(self).wf(),
            Self::preserved(*old(self), *final(self)),
            r matches Err(e) ==> (e is Runtime || e is Environment),
        decreases fuel,
    {
        let superclass: Option<usize> = match superclass_name {
            Some(sc) => {
                let v = match self.lookup_variable(sc, superclass_slot) {
                    Ok(v) => v,
                    Err(e) => {
                        return Err(e);
                    },
                };
                match v {
                    Value::Class(s) => Some(s),
                    _ => {
                        return Err(runtime_error(sc, RuntimeErrorType::InvalidCallObjectType));
                    },
                }
            },
            None => None,
        };
        let cur = self.cur;
        self.environment.define(cur, &name.lexeme, Value::Nil);
        let method_env = match superclass {
            Some(s) => {
                let f = self.environment.from_enclosing(cur);
                let super_name = "super".to_owned();
                self.environment.define(f, &super_name, Value::Class(s));
                f
            },
            None => cur,
        };
        let mut table: Vec<(String, FunValue)> = Vec::new();
        let mut i: usize = 0;
        while i < methods.len()
            invariant
                self.wf(),
                Self::preserved(*old(self), *self),
                method_env < self.environment.frames@.len(),
            decreases methods@.len() - i,
        {
            let m = &methods[i];
            let is_init = m.name.lexeme == "init".to_owned();
            let fv = self.make_function_at(m, is_init, method_env);
            let mname = m.name.lexeme.clone();
            table_set(&mut table, &mname, fv);
            i = i + 1;
        }
        let cid = self.classes.len();
        let cname = name.lexeme.clone();
        self.classes.push(ClassDef { name: cname, superclass, methods: table });
        self.environment.define(cur, &name.lexeme, Value::Class(cid));
        Ok(())
    }

    /// Creates the runtime function for a declaration; its closure is the
    /// current frame.
    fn make_function(&mut self, decl: &FunctionDecl, is_init: bool) -> (fv: FunValue)
        requires
            old(self).wf(),
        ensures
            final(self).wf(),
            Self::preserved(*old(self), *final(self)),
            final(self).environment == old(self).environment,
            final(self).cur == old(self).cur,
            final(self).classes == old(self).classes,
            final(self).instances == old(self).instances,
            final(self).output == old(self).output,
            final(self).funs@.len() == old(self).funs@.len() + 1,
            final(self).funs@[old(self).funs@.len() as int].is_init == is_init,
            final(self).funs@[old(self).funs@.len() as int].decl.name == decl.name,
            final(self).funs@[old(self).funs@.len() as int].decl.params@ == decl.params@,
            fv.decl == old(self).funs@.len(),
            fv.closure == old(self).cur,
    {
        let cur = self.cur;
        self.make_function_at(decl, is_init, cur)
    }

    /// Creates the runtime function for a declaration, closing over the
    /// given frame.
    fn make_function_at(&mut self, decl: &FunctionDecl, is_init: bool, closure: usize) -> (fv:
        FunValue)
        requires
            old(self).wf(),
        ensures
            final(self).wf(),
            Self::preserved(*old(self), *final(self)),
            final(self).environment == old(self).environment,
            final(self).cur == old(self).cur,
            final(self).classes == old(self).classes,
            final(self).instances == old(self).instances,
            final(self).output == old(self).output,
            final(self).funs@.len() == old(self).funs@.len() + 1,
            final(self).funs@[old(self).funs@.len() as int].is_init == is_init,
            final(self).funs@[old(self).funs@.len() as int].decl.name == decl.name,
            final(self).funs@[old(self).funs@.len() as int].decl.params@ == decl.params@,
            fv.decl == old(self).funs@.len(),
            fv.closure == closure,
    {
        let id = self.funs.len();
        self.funs.push(FunDef { decl: decl.clone(), is_init });
        FunValue { decl: id, closure }
    }

    /// Executes statements with the current-environment slot swapped to
    /// `env_id` for the duration; the slot is restored on every exit path —
    /// normal completion, a runtime error, or the `return` signal.
    #[verifier::loop_isolation(false)]
    pub fn execute_block(&mut self, statements: &Vec<Stmt>, env_id: usize, fuel: u64) -> (r: Result<
        (),
        LoxResult,
    >)
        requires
            old(self).wf(),
            env_id < old(self).environment.frames@.len(),
        ensures
            final(self).wf(),
            Self::preserved(*old(self), *final(self)),
            r matches Err(e) ==> (e is Runtime || e is Environment || e is ReturnValue),
            statements@.len() == 0 ==> r is Ok && *final(self) == *old(self),
            (statements@.len() == 1 && statements@[0] is Var && statements@[0]->Var_initializer
                is None && fuel > 1) ==> {
                &&& r is Ok
                &&& final(self).environment.frames@.len() == old(self).environment.frames@.len()
                &&& forall|i: int|
                    0 <= i < old(self).environment.frames@.len() && i != env_id ==> final(self).environment.frames@[i] == old(self).environment.frames@[i]
                &&& final(self).environment.frames@[env_id as int].map() == old(
                    self,
                ).environment.frames@[env_id as int].map().insert(
                    statements@[0]->Var_name.lexeme@,
                    Value::Nil,
                )
            },
            (statements@.len() == 1 && statements@[0] is Print && lit_of(
                statements@[0]->Print_expression,
            ) is Some && fuel > 2) ==> {
                &&& r is Ok
                &&& final(self).output@.len() == old(self).output@.len() + 1
                &&& final(self).output@.last()@ == old(self).text_of_value(
                    lit_of(statements@[0]->Print_expression).unwrap(),
                )
            },
        decreases fuel,
    {
        let prev = self.cur;
        self.cur = env_id;
        let mut result: Result<(), LoxResult> = Ok(());
        let mut i: usize = 0;
        while i < statements.len() && result.is_ok()
            invariant
                i <= statements@.len(),
                self.environment.wf(),
                self.cur == env_id,
                env_id < self.environment.frames@.len(),
                self.environment.frames@.len() >= old(self).environment.frames@.len(),
                self.locals == old(self).locals,
                self.funs@.len() >= old(self).funs@.len(),
                self.classes@.len() >= old(self).classes@.len(),
                self.instances@.len() >= old(self).instances@.len(),
                self.output@.len() >= old(self).output@.len(),
                (i == 0 && result is Ok) ==> *self == (Interpreter { cur: env_id, ..*old(self) }),
                result matches Err(e) ==> (e is Runtime || e is Environment || e is ReturnValue),
                statements@.len() == 0 ==> result is Ok,
                (statements@.len() == 1 && statements@[0] is Var
                    && statements@[0]->Var_initializer is None && fuel > 1 && i == 0) ==> result
                    is Ok,
                (statements@.len() == 1 && statements@[0] is Print && lit_of(
                    statements@[0]->Print_expression,
                ) is Some && fuel > 2 && i == 0) ==> result is Ok,
                (statements@.len() == 1 && statements@[0] is Var
                    && statements@[0]->Var_initializer is None && fuel > 1 && i == 1) ==> {
                    &&& result is Ok
                    &&& self.environment.frames@.len() == old(self).environment.frames@.len()
                    &&& forall|j: int|
                        0 <= j < old(self).environment.frames@.len() && j != env_id
                            ==> self.environment.frames@[j] == old(self).environment.frames@[j]
                    &&& self.environment.frames@[env_id as int].map() == old(
                        self,
                    ).environment.frames@[env_id as int].map().insert(
                        statements@[0]->Var_name.lexeme@,
                        Value::Nil,
                    )
                },
                (statements@.len() == 1 && statements@[0] is Print && lit_of(
                    statements@[0]->Print_expression,
                ) is Some && fuel > 2 && i == 1) ==> {
                    &&& result is Ok
                    &&& self.output@.len() == old(self).output@.len() + 1
                    &&& self.output@.last()@ == old(self).text_of_value(
                        lit_of(statements@[0]->Print_expression).unwrap(),
                    )
                },
            decreases statements@.len() - i + (if result is Ok {
                1int
            } else {
                0int
            }),
        {
            if fuel == 0 {
                result = Err(step_limit_error());
            } else {
                match self.execute(&statements[i], fuel - 1) {
                    Ok(()) => {
                        i = i + 1;
                    },
                    Err(e) => {
                        result = Err(e);
                    },
                }
            }
        }
        self.cur = prev;
        result
    }

    /// Reads a variable reference: a resolved slot walks exactly its depth
    /// and reads that frame's own table; an unresolved one reads the global
    /// frame. A frame that lacks the name is the unknown-variable error.
    pub fn lookup_variable(&self, name: &Token, slot: usize) -> (r: Result<Value, LoxResult>)
        requires
            self.wf(),
        ensures
            match self.slot_depth(slot) {
                Some(d) => ({
                    let t = self.environment.ancestor_spec(self.cur as int, d as int);
                    if t >= 0 && self.environment.frames@[t].map().contains_key(name.lexeme@) {
                        r == Ok::<Value, LoxResult>(
                            self.environment.frames@[t].map()[name.lexeme@],
                        )
                    } else {
                        r matches Err(e) && e.is_unknown_variable()
                    }
                }),
                None => match self.environment.chain_lookup(0, name.lexeme@) {
                    Some(v) => r == Ok::<Value, LoxResult>(v),
                    None => r matches Err(e) && e.is_unknown_variable(),
                },
            },
    {
        let d: Option<usize> = if slot < self.locals.len() {
            self.locals[slot]
        } else {
            None
        };
        match d {
            Some(dd) => self.environment.get_at(self.cur, dd, name),
            None => self.environment.get(0, name),
        }
    }

    /// Writes a variable reference, mirroring `lookup_variable`; assignment
    /// never creates a binding.
    fn assign_variable(&mut self, name: &Token, slot: usize, value: Value) -> (r: Result<
        (),
        LoxResult,
    >)
        requires
            old(self).wf(),
        ensures
            final(self).wf(),
            Self::preserved(*old(self), *final(self)),
            final(self).environment.frames@.len() == old(self).environment.frames@.len(),
            final(self).funs == old(self).funs,
            final(self).classes == old(self).classes,
            final(self).instances == old(self).instances,
            final(self).output == old(self).output,
            r matches Err(e) ==> e.is_unknown_variable(),
    {
        let d: Option<usize> = if slot < self.locals.len() {
            self.locals[slot]
        } else {
            None
        };
        let cur = self.cur;
        match d {
            Some(dd) => self.environment.assign_at(cur, dd, name, value),
            None => self.environment.assign(0, name, value),
        }
    }

    /// Evaluates one expression to a value. The `return` signal never
    /// escapes an expression: it is caught at the function-call boundary
    /// inside, so an `Err` here is always a real error.
    #[verifier::loop_isolation(false)]
    pub fn evaluate(&mut self, expr: &Expr, fuel: u64) -> (r: Result<Value, LoxResult>)
        requires
            old(self).wf(),
        ensures
            final(self).wf(),
            Self::preserved(*old(self), *final(self)),
            r matches Err(e) ==> e.is_error(),
            r matches Err(e) ==> (e is Runtime || e is Environment),
            (fuel > 0 && *expr is Literal && expr->Literal_value is Some) ==> r == Ok::<
                Value,
                LoxResult,
            >(object_value(expr->Literal_value.unwrap())),
            (fuel > 0 && *expr is Literal) ==> *final(self) == *old(self),
            (fuel > 1 && *expr is Call && expr->Call_arguments@.len() == 0 && lit_of(
                *expr->Call_callee,
            ) is Some) ==> (r matches Err(e) && e.is_runtime(
                RuntimeErrorType::InvalidCallObjectType,
            )),
            (fuel > 1 && *expr is Logical && expr->Logical_operator.ttype == TokenType::Or
                && lit_of(*expr->Logical_left) is Some && truthy(
                lit_of(*expr->Logical_left).unwrap(),
            )) ==> r == Ok::<Value, LoxResult>(lit_of(*expr->Logical_left).unwrap()) && *final(self) == *old(self),
            (fuel > 1 && *expr is Logical && expr->Logical_operator.ttype != TokenType::Or
                && lit_of(*expr->Logical_left) is Some && !truthy(
                lit_of(*expr->Logical_left).unwrap(),
            )) ==> r == Ok::<Value, LoxResult>(lit_of(*expr->Logical_left).unwrap()) && *final(self) == *old(self),
            (fuel > 1 && *expr is Logical && expr->Logical_operator.ttype == TokenType::Or
                && lit_of(*expr->Logical_left) is Some && !truthy(
                lit_of(*expr->Logical_left).unwrap(),
            ) && lit_of(*expr->Logical_right) is Some) ==> r == Ok::<Value, LoxResult>(
                lit_of(*expr->Logical_right).unwrap(),
            ),
            (fuel > 1 && *expr is Logical && expr->Logical_operator.ttype != TokenType::Or
                && lit_of(*expr->Logical_left) is Some && truthy(
                lit_of(*expr->Logical_left).unwrap(),
            ) && lit_of(*expr->Logical_right) is Some) ==> r == Ok::<Value, LoxResult>(
                lit_of(*expr->Logical_right).unwrap(),
            ),
        decreases fuel,
    {
        if fuel == 0 {
            return Err(step_limit_error());
        }
        match expr {
            Expr::Literal { value } => {
                match value {
                    Some(o) => Ok(object_to_value(o)),
                    None => Err(
                        LoxResult::Runtime {
                            token: Token::eof(0, 0),
                            error_type: RuntimeErrorType::UnreachableCode,
                        },
                    ),
                }
            },
            Expr::Grouping { expression } => self.evaluate(expression, fuel - 1),
            Expr::Unary { operator, right } => {
                let rv = match self.evaluate(right, fuel - 1) {
                    Ok(v) => v,
                    Err(e) => {
                        return Err(e);
                    },
                };
                apply_unary(operator, &rv)
            },
            Expr::Binary { left, operator, right } => {
                let lv = match self.evaluate(left, fuel - 1) {
                    Ok(v) => v,
                    Err(e) => {
                        return Err(e);
                    },
                };
                let rv = match self.evaluate(right, fuel - 1) {
                    Ok(v) => v,
                    Err(e) => {
                        return Err(e);
                    },
                };
                apply_binary(operator, &lv, &rv)
            },
            Expr::Logical { left, operator, right } => {
                let lv = match self.evaluate(left, fuel - 1) {
                    Ok(v) => v,
                    Err(e) => {
                        return Err(e);
                    },
                };
                // Short circuit: the operand itself is returned, never a
                // boolean made from it.
                if matches!(operator.ttype, TokenType::Or) {
                    if self.is_truthy(&lv) {
                        return Ok(lv);
                    }
                } else {
                    if !self.is_truthy(&lv) {
                        return Ok(lv);
                    }
                }
                self.evaluate(right, fuel - 1)
            },
            Expr::Variable { name, slot } => self.lookup_variable(name, *slot),
            Expr::Assign { name, value, slot } => {
                let v = match self.evaluate(value, fuel - 1) {
                    Ok(v) => v,
                    Err(e) => {
                        return Err(e);
                    },
                };
                match self.assign_variable(name, *slot, v.clone()) {
                    Ok(()) => Ok(v),
                    Err(e) => Err(e),
                }
            },
            Expr::Call { callee, paren, arguments } => {
                let cv = match self.evaluate(callee, fuel - 1) {
                    Ok(v) => v,
                    Err(e) => {
                        return Err(e);
                    },
                };
                let mut args: Vec<Value> = Vec::new();
                let mut i: usize = 0;
                while i < arguments.len()
                    invariant
                        self.wf(),
                        Self::preserved(*old(self), *self),
                    decreases arguments@.len() - i,
                {
                    match self.evaluate(&arguments[i], fuel - 1) {
                        Ok(v) => args.push(v),
                        Err(e) => {
                            return Err(e);
                        },
                    }
                    i = i + 1;
                }
                match cv {
                    Value::Fun(fv) => self.call_function(fv, args, paren, fuel - 1),
                    Value::Class(c) => self.call_class(c, args, paren, fuel - 1),
                    Value::Native(n) => self.call_native(n, args, paren),
                    _ => Err(runtime_error(paren, RuntimeErrorType::InvalidCallObjectType)),
                }
            },
            Expr::Get { object, name } => {
                let ov = match self.evaluate(object, fuel - 1) {
                    Ok(v) => v,
                    Err(e) => {
                        return Err(e);
                    },
                };
                match ov {
                    Value::Instance(inst) => self.get_property(inst, name),
                    _ => Err(runtime_error(name, RuntimeErrorType::UndefinedProperty)),
                }
            },
            Expr::SetProp { object, name, value } => {
                let ov = match self.evaluate(object, fuel - 1) {
                    Ok(v) => v,
                    Err(e) => {
                        return Err(e);
                    },
                };
                let inst = match ov {
                    Value::Instance(i) => i,
                    _ => {
                        return Err(runtime_error(name, RuntimeErrorType::UndefinedProperty));
                    },
                };
                let v = match self.evaluate(value, fuel - 1) {
                    Ok(v) => v,
                    Err(e) => {
                        return Err(e);
                    },
                };
                if inst < self.instances.len() {
                    let data = &mut self.instances[inst];
                    table_set(&mut data.fields, &name.lexeme, v.clone());
                    Ok(v)
                } else {
                    Err(runtime_error(name, RuntimeErrorType::UndefinedProperty))
                }
            },
            Expr::This { keyword, slot } => self.lookup_variable(keyword, *slot),
            Expr::Super { keyword, method, slot } => self.eval_super(keyword, method, *slot),
        }
    }

    /// Reads a property: a field if the instance has one, else the method
    /// found on its class chain, bound to the instance.
    fn get_property(&mut self, inst: usize, name: &Token) -> (r: Result<Value, LoxResult>)
        requires
            old(self).wf(),
        ensures
            final(self).wf(),
            Self::preserved(*old(self), *final(self)),
            r matches Err(e) ==> e.is_error(),
            r matches Err(e) ==> (e is Runtime || e is Environment),
    {
        if inst >= self.instances.len() {
            return Err(runtime_error(name, RuntimeErrorType::UndefinedProperty));
        }
        match table_get(&self.instances[inst].fields, &name.lexeme) {
            Some(v) => {
                return Ok(v.clone());
            },
            None => {},
        }
        let class = self.instances[inst].class;
        match self.find_method(class, &name.lexeme) {
            Some(m) => {
                let bound = self.bind_method(m, inst);
                match bound {
                    Ok(b) => Ok(Value::Fun(b)),
                    Err(e) => Err(e),
                }
            },
            None => Err(runtime_error(name, RuntimeErrorType::UndefinedProperty)),
        }
    }

    /// Evaluates `super.method`: the superclass sits at the reference's
    /// depth, the receiver one frame nearer, and the method is looked up on
    /// the superclass chain and bound to the receiver.
    fn eval_super(&mut self, keyword: &Token, method: &Token, slot: usize) -> (r: Result<
        Value,
        LoxResult,
    >)
        requires
            old(self).wf(),
        ensures
            final(self).wf(),
            Self::preserved(*old(self), *final(self)),
            r matches Err(e) ==> e.is_error(),
            r matches Err(e) ==> (e is Runtime || e is Environment),
    {
        let d = match if slot < self.locals.len() {
            self.locals[slot]
        } else {
            None
        } {
            Some(d) => d,
            None => {
                return Err(runtime_error(keyword, RuntimeErrorType::UnreachableCode));
            },
        };
        let cur = self.cur;
        let superclass = match self.environment.get_at(cur, d, keyword) {
            Ok(Value::Class(s)) => s,
            Ok(_) => {
                return Err(runtime_error(keyword, RuntimeErrorType::UnreachableCode));
            },
            Err(e) => {
                return Err(e);
            },
        };
        if d == 0 {
            return Err(runtime_error(keyword, RuntimeErrorType::UnreachableCode));
        }
        let this_token = Token::identifier(0, 0, 0, TokenType::This, "this");
        let receiver = match self.environment.get_at(cur, d - 1, &this_token) {
            Ok(Value::Instance(i)) => i,
            Ok(_) => {
                return Err(runtime_error(keyword, RuntimeErrorType::UnreachableCode));
            },
            Err(e) => {
                return Err(e);
            },
        };
        match self.find_method(superclass, &method.lexeme) {
            Some(m) => {
                match self.bind_method(m, receiver) {
                    Ok(b) => Ok(Value::Fun(b)),
                    Err(e) => Err(e),
                }
            },
            None => Err(runtime_error(method, RuntimeErrorType::UndefinedProperty)),
        }
    }

    /// Finds a method by walking the superclass chain.
    #[verifier::loop_isolation(false)]
    fn find_method(&self, class: usize, name: &String) -> (r: Option<FunValue>)
        ensures
            r == method_lookup(
                self.classes@,
                class as int,
                name@,
                (self.classes@.len() + 1) as nat,
            ),
    {
        let n = self.classes.len();
        let mut c = class;
        let mut steps: usize = 0;
        loop
            invariant
                steps <= n,
                method_lookup(self.classes@, class as int, name@, (n + 1) as nat) == method_lookup(
                    self.classes@,
                    c as int,
                    name@,
                    (n + 1 - steps) as nat,
                ),
            decreases n - steps,
        {
            if c >= n {
                return None;
            }
            match table_get(&self.classes[c].methods, name) {
                Some(fv) => {
                    return Some(*fv);
                },
                None => {},
            }
            match self.classes[c].superclass {
                Some(s) => {
                    if steps >= n {
                        // A chain longer than the class store is malformed
                        // and holds no further method.
                        proof {
                            reveal_with_fuel(method_lookup, 2);
                        }
                        return None;
                    }
                    steps = steps + 1;
                    c = s;
                },
                None => {
                    return None;
                },
            }
        }
    }

    /// How a method binding changes the state: one fresh frame enclosing
    /// the method's closure, holding exactly `this` bound to the receiver,
    /// everything else untouched; the bound method shares the declaration
    /// and closes over that frame.
    pub open spec fn bind_post(
        pre: Interpreter,
        post: Interpreter,
        m: FunValue,
        inst: usize,
        fv: FunValue,
    ) -> bool {
        &&& fv.decl == m.decl
        &&& fv.closure == pre.environment.frames@.len()
        &&& post.environment.frames@.len() == pre.environment.frames@.len() + 1
        &&& forall|i: int|
            0 <= i < pre.environment.frames@.len() ==> post.environment.frames@[i]
                == pre.environment.frames@[i]
        &&& post.environment.frames@[fv.closure as int].parent == Some(m.closure)
        &&& post.environment.frames@[fv.closure as int].map() == Map::<
            Seq<char>,
            Value,
        >::empty().insert("this"@, Value::Instance(inst))
        &&& post.cur == pre.cur
        &&& post.locals == pre.locals
        &&& post.funs == pre.funs
        &&& post.classes == pre.classes
        &&& post.instances == pre.instances
        &&& post.output == pre.output
    }

    /// Binds a method to a receiver: a fresh function value whose closure
    /// is a new frame defining `this` as the receiver.
    fn bind_method(&mut self, m: FunValue, inst: usize) -> (r: Result<FunValue, LoxResult>)
        requires
            old(self).wf(),
        ensures
            final(self).wf(),
            Self::preserved(*old(self), *final(self)),
            r matches Err(e) ==> e.is_error(),
            r matches Err(e) ==> (e is Runtime || e is Environment),
            r matches Ok(fv) ==> Self::bind_post(*old(self), *final(self), m, inst, fv),
    {
        if m.closure >= self.environment.frames.len() {
            return Err(
                LoxResult::Runtime {
                    token: Token::eof(0, 0),
                    error_type: RuntimeErrorType::UnreachableCode,
                },
            );
        }
        let f = self.environment.from_enclosing(m.closure);
        let this_name = "this".to_owned();
        self.environment.define(f, &this_name, Value::Instance(inst));
        Ok(FunValue { decl: m.decl, closure: f })
    }

    /// Calls a user function: a fresh frame enclosing the function's
    /// closure binds the parameters, the body runs there, and the `return`
    /// signal is caught here. An initialiser's result is always the `this`
    /// of its closure frame, whatever its body returned.
    #[verifier::loop_isolation(false)]
    fn call_function(&mut self, fv: FunValue, args: Vec<Value>, paren: &Token, fuel: u64) -> (r:
        Result<Value, LoxResult>)
        requires
            old(self).wf(),
        ensures
            final(self).wf(),
            Self::preserved(*old(self), *final(self)),
            r matches Err(e) ==> e.is_error(),
            r matches Err(e) ==> (e is Runtime || e is Environment),
            ({
                let cl = final(self).environment.frames@[fv.closure as int].map();
                (r is Ok && fv.decl < old(self).funs@.len() && old(
                    self,
                ).funs@[fv.decl as int].is_init && fv.closure < old(
                    self,
                ).environment.frames@.len()) ==> cl.contains_key("this"@) && r == Ok::<
                    Value,
                    LoxResult,
                >(cl["this"@])
            }),
        decreases fuel,
    {
        if fuel == 0 {
            return Err(step_limit_error());
        }
        if fv.decl >= self.funs.len() || fv.closure >= self.environment.frames.len() {
            return Err(runtime_error(paren, RuntimeErrorType::InvalidCallObjectType));
        }
        let is_init = self.funs[fv.decl].is_init;
        let arity = self.funs[fv.decl].decl.params.len();
        if args.len() != arity {
            return Err(runtime_error(paren, RuntimeErrorType::InvalidArgsCount));
        }
        let f = self.environment.from_enclosing(fv.closure);
        let mut i: usize = 0;
        while i < args.len()
            invariant
                self.wf(),
                Self::preserved(*old(self), *self),
                f < self.environment.frames@.len(),
                fv.decl < self.funs@.len(),
                i <= args@.len(),
                args@.len() == self.funs@[fv.decl as int].decl.params@.len(),
                self.funs@[fv.decl as int].is_init == is_init,
                fv.closure < old(self).environment.frames@.len(),
            decreases args@.len() - i,
        {
            let pname = self.funs[fv.decl].decl.params[i].lexeme.clone();
            let v = args[i].clone();
            self.environment.define(f, &pname, v);
            i = i + 1;
        }
        let body = self.funs[fv.decl].decl.body.clone();
        let outcome = self.execute_block(&body, f, fuel - 1);
        let this_token = Token::identifier(0, 0, 0, TokenType::This, "this");
        match outcome {
            Ok(()) => {
                if is_init {
                    let cur2 = fv.closure;
                    self.environment.get_at(cur2, 0, &this_token)
                } else {
                    Ok(Value::Nil)
                }
            },
            Err(LoxResult::ReturnValue { value }) => {
                if is_init {
                    let cur2 = fv.closure;
                    self.environment.get_at(cur2, 0, &this_token)
                } else {
                    Ok(value)
                }
            },
            Err(e) => Err(e),
        }
    }

    /// Calls a class as its constructor: allocates the instance, and runs
    /// `init` bound to it when the class has one; the call always yields
    /// the new instance.
    fn call_class(&mut self, class: usize, args: Vec<Value>, paren: &Token, fuel: u64) -> (r:
        Result<Value, LoxResult>)
        requires
            old(self).wf(),
        ensures
            final(self).wf(),
            Self::preserved(*old(self), *final(self)),
            r matches Err(e) ==> e.is_error(),
            r matches Err(e) ==> (e is Runtime || e is Environment),
        decreases fuel,
    {
        if fuel == 0 {
            return Err(step_limit_error());
        }
        if class >= self.classes.len() {
            return Err(runtime_error(paren, RuntimeErrorType::InvalidCallObjectType));
        }
        let inst = self.instances.len();
        self.instances.push(InstanceData { class, fields: Vec::new() });
        let init_name = "init".to_owned();
        match self.find_method(class, &init_name) {
            Some(m) => {
                let bound = match self.bind_method(m, inst) {
                    Ok(b) => b,
                    Err(e) => {
                        return Err(e);
                    },
                };
                match self.call_function(bound, args, paren, fuel - 1) {
                    Ok(_) => Ok(Value::Instance(inst)),
                    Err(e) => Err(e),
                }
            },
            None => {
                if args.len() != 0 {
                    Err(runtime_error(paren, RuntimeErrorType::InvalidArgsCount))
                } else {
                    Ok(Value::Instance(inst))
                }
            },
        }
    }

    /// Calls a built-in: `clock` takes no arguments and returns the wall
    /// time in whole seconds as a number.
    fn call_native(&mut self, n: NativeFn, args: Vec<Value>, paren: &Token) -> (r: Result<
        Value,
        LoxResult,
    >)
        requires
            old(self).wf(),
        ensures
            final(self).wf(),
            Self::preserved(*old(self), *final(self)),
            r matches Err(e) ==> e.is_error(),
            r matches Err(e) ==> (e is Runtime || e is Environment),
            (n == NativeFn::Clock && args@.len() == 0) ==> (r matches Ok(v) && v matches
                Value::Num(b) && exists|s: u64| b == num::bits_of_whole(s)),
    {
        match n {
            NativeFn::Clock => {
                if args.len() != 0 {
                    return Err(runtime_error(paren, RuntimeErrorType::InvalidArgsCount));
                }
                let secs = num::clock_seconds();
                let b = num::num_of_whole(secs);
                proof {
                    assert(b == num::bits_of_whole(secs));
                }
                Ok(Value::Num(b))
            },
        }
    }

    /// The printed form of a value.
    pub open spec fn text_of_value(self, v: Value) -> Seq<char> {
        match v {
            Value::Nil => "nil"@,
            Value::True => "true"@,
            Value::False => "false"@,
            Value::Num(b) => num::text_of_bits(b),
            Value::Str(s) => s@,
            Value::Fun(fv) => "<fn "@ + (if fv.decl < self.funs@.len() {
                self.funs@[fv.decl as int].decl.name.lexeme@
            } else {
                Seq::<char>::empty()
            }) + ">"@,
            Value::Class(c) => "<class "@ + (if c < self.classes@.len() {
                self.classes@[c as int].name@
            } else {
                Seq::<char>::empty()
            }) + ">"@,
            Value::Instance(i) => "<"@ + (if i < self.instances@.len()
                && self.instances@[i as int].class < self.classes@.len() {
                self.classes@[self.instances@[i as int].class as int].name@
            } else {
                Seq::<char>::empty()
            }) + " instance>"@,
            Value::Native(n) => "<native fn>"@,
        }
    }

    /// Renders a value the way `print` writes it: `nil`, `true`/`false`,
    /// a number's decimal form, a string's contents, and the bracketed
    /// forms for functions, classes and instances.
    pub fn stringify(&self, v: &Value) -> (r: String)
        ensures
            r@ == self.text_of_value(*v),
    {
        match v {
            Value::Nil => "nil".to_owned(),
            Value::True => "true".to_owned(),
            Value::False => "false".to_owned(),
            Value::Num(b) => num::num_to_text(*b),
            Value::Str(s) => s.clone(),
            Value::Fun(fv) => {
                let mid: String = if fv.decl < self.funs.len() {
                    self.funs[fv.decl].decl.name.lexeme.clone()
                } else {
                    String::new()
                };
                "<fn ".to_owned().concat(mid.as_str()).concat(">")
            },
            Value::Class(c) => {
                let mid: String = if *c < self.classes.len() {
                    self.classes[*c].name.clone()
                } else {
                    String::new()
                };
                "<class ".to_owned().concat(mid.as_str()).concat(">")
            },
            Value::Instance(i) => {
                let mid: String = if *i < self.instances.len() && self.instances[*i].class
                    < self.classes.len() {
                    self.classes[self.instances[*i].class].name.clone()
                } else {
                    String::new()
                };
                "<".to_owned().concat(mid.as_str()).concat(" instance>")
            },
            Value::Native(n) => "<native fn>".to_owned(),
        }
    }
}

/// The value of a literal as a runtime value.
fn object_to_value(o: &Object) -> (v: Value)
    ensures
        v == object_value(*o),
{
    match o {
        Object::Num(b) => Value::Num(*b),
        Object::Str(s) => Value::Str(s.clone()),
        Object::Nil => Value::Nil,
        Object::True => Value::True,
        Object::False => Value::False,
    }
}

/// What a unary operator yields: `-` needs a number; `!` negates
/// truthiness.
pub open spec fn unary_result(op: TokenType, v: Value) -> Result<Value, RuntimeErrorType> {
    match op {
        TokenType::Minus => match v {
            Value::Num(b) => Ok(Value::Num(num::neg_bits(b))),
            _ => Err(RuntimeErrorType::ExpectedNumberOperand),
        },
        TokenType::Bang => Ok(
            if truthy(v) {
                Value::False
            } else {
                Value::True
            },
        ),
        _ => Err(RuntimeErrorType::UnreachableCode),
    }
}

/// Applies a unary operator.
fn apply_unary(operator: &Token, v: &Value) -> (r: Result<Value, LoxResult>)
    ensures
        match unary_result(operator.ttype, *v) {
            Ok(out) => r == Ok::<Value, LoxResult>(out),
            Err(t) => r matches Err(e) && e.is_runtime(t),
        },
{
    match operator.ttype {
        TokenType::Minus => match v {
            Value::Num(b) => Ok(Value::Num(num::num_neg(*b))),
            _ => Err(runtime_error(operator, RuntimeErrorType::ExpectedNumberOperand)),
        },
        TokenType::Bang => {
            let t = !(matches!(v, Value::Nil) || matches!(v, Value::False));
            Ok(Value::from_bool(!t))
        },
        _ => Err(runtime_error(operator, RuntimeErrorType::UnreachableCode)),
    }
}

/// What a binary operator yields. Arithmetic and ordering need two
/// numbers; equality works on any two values with no implicit conversion.
/// The string case of `+` is stated separately on `apply_binary`, since a
/// specification cannot build the concatenated string value itself.
pub open spec fn binary_result(op: TokenType, a: Value, b: Value) -> Result<
    Value,
    RuntimeErrorType,
> {
    match op {
        TokenType::Minus => match (a, b) {
            (Value::Num(x), Value::Num(y)) => Ok(Value::Num(num::sub_bits(x, y))),
            _ => Err(RuntimeErrorType::ExpectedNumberOperands),
        },
        TokenType::Slash => match (a, b) {
            (Value::Num(x), Value::Num(y)) => Ok(Value::Num(num::div_bits(x, y))),
            _ => Err(RuntimeErrorType::ExpectedNumberOperands),
        },
        TokenType::Star => match (a, b) {
            (Value::Num(x), Value::Num(y)) => Ok(Value::Num(num::mul_bits(x, y))),
            _ => Err(RuntimeErrorType::ExpectedNumberOperands),
        },
        TokenType::Plus => match (a, b) {
            (Value::Num(x), Value::Num(y)) => Ok(Value::Num(num::add_bits(x, y))),
            _ => Err(RuntimeErrorType::ExpectedAddableOperands),
        },
        TokenType::Greater => match (a, b) {
            (Value::Num(x), Value::Num(y)) => Ok(
                if num::gt_bits(x, y) {
                    Value::True
                } else {
                    Value::False
                },
            ),
            _ => Err(RuntimeErrorType::ExpectedNumberOperands),
        },
        TokenType::GreaterEqual => match (a, b) {
            (Value::Num(x), Value::Num(y)) => Ok(
                if num::ge_bits(x, y) {
                    Value::True
                } else {
                    Value::False
                },
            ),
            _ => Err(RuntimeErrorType::ExpectedNumberOperands),
        },
        TokenType::Less => match (a, b) {
            (Value::Num(x), Value::Num(y)) => Ok(
                if num::lt_bits(x, y) {
                    Value::True
                } else {
                    Value::False
                },
            ),
            _ => Err(RuntimeErrorType::ExpectedNumberOperands),
        },
        TokenType::LessEqual => match (a, b) {
            (Value::Num(x), Value::Num(y)) => Ok(
                if num::le_bits(x, y) {
                    Value::True
                } else {
                    Value::False
                },
            ),
            _ => Err(RuntimeErrorType::ExpectedNumberOperands),
        },
        TokenType::BangEqual => Ok(
            if crate::value::val_eq(a, b) {
                Value::False
            } else {
                Value::True
            },
        ),
        TokenType::EqualEqual => Ok(
            if crate::value::val_eq(a, b) {
                Value::True
            } else {
                Value::False
            },
        ),
        _ => Err(RuntimeErrorType::UnreachableCode),
    }
}

/// Applies a binary operator.
fn apply_binary(operator: &Token, a: &Value, b: &Value) -> (r: Result<Value, LoxResult>)
    ensures
        (operator.ttype == TokenType::Plus && *a is Str && *b is Str) ==> (r matches Ok(v) && v
            matches Value::Str(s) && s@ == a->Str_0@ + b->Str_0@),
        !(operator.ttype == TokenType::Plus && *a is Str && *b is Str) ==> match binary_result(
            operator.ttype,
            *a,
            *b,
        ) {
            Ok(out) => r == Ok::<Value, LoxResult>(out),
            Err(t) => r matches Err(e) && e.is_runtime(t),
        },
{
    match operator.ttype {
        TokenType::Minus => match (a, b) {
            (Value::Num(x), Value::Num(y)) => Ok(Value::Num(num::num_sub(*x, *y))),
            _ => Err(runtime_error(operator, RuntimeErrorType::ExpectedNumberOperands)),
        },
        TokenType::Slash => match (a, b) {
            (Value::Num(x), Value::Num(y)) => Ok(Value::Num(num::num_div(*x, *y))),
            _ => Err(runtime_error(operator, RuntimeErrorType::ExpectedNumberOperands)),
        },
        TokenType::Star => match (a, b) {
            (Value::Num(x), Value::Num(y)) => Ok(Value::Num(num::num_mul(*x, *y))),
            _ => Err(runtime_error(operator, RuntimeErrorType::ExpectedNumberOperands)),
        },
        TokenType::Plus => match (a, b) {
            (Value::Num(x), Value::Num(y)) => Ok(Value::Num(num::num_add(*x, *y))),
            (Value::Str(x), Value::Str(y)) => Ok(Value::Str(x.clone().concat(y.as_str()))),
            _ => Err(runtime_error(operator, RuntimeErrorType::ExpectedAddableOperands)),
        },
        TokenType::Greater => match (a, b) {
            (Value::Num(x), Value::Num(y)) => Ok(Value::from_bool(num::num_gt(*x, *y))),
            _ => Err(runtime_error(operator, RuntimeErrorType::ExpectedNumberOperands)),
        },
        TokenType::GreaterEqual => match (a, b) {
            (Value::Num(x), Value::Num(y)) => Ok(Value::from_bool(num::num_ge(*x, *y))),
            _ => Err(runtime_error(operator, RuntimeErrorType::ExpectedNumberOperands)),
        },
        TokenType::Less => match (a, b) {
            (Value::Num(x), Value::Num(y)) => Ok(Value::from_bool(num::num_lt(*x, *y))),
            _ => Err(runtime_error(operator, RuntimeErrorType::ExpectedNumberOperands)),
        },
        TokenType::LessEqual => match (a, b) {
            (Value::Num(x), Value::Num(y)) => Ok(Value::from_bool(num::num_le(*x, *y))),
            _ => Err(runtime_error(operator, RuntimeErrorType::ExpectedNumberOperands)),
        },
        TokenType::BangEqual => Ok(Value::from_bool(!a.equals(b))),
        TokenType::EqualEqual => Ok(Value::from_bool(a.equals(b))),
        _ => Err(runtime_error(operator, RuntimeErrorType::UnreachableCode)),
    }
}

/// A runtime error at the given token.
fn runtime_error(token: &Token, error_type: RuntimeErrorType) -> (e: LoxResult)
    ensures
        e.is_runtime(error_type),
        e.is_error(),
{
    LoxResult::Runtime { token: token.dup(), error_type }
}

/// Binding the same method to the same receiver twice yields callables
/// that behave identically: they share one declaration, and their closure
/// frames enclose the same environment and hold exactly the same bindings,
/// so running either on the same arguments runs the same body in equal
/// environments.
pub proof fn lemma_bind_idempotent(
    s0: Interpreter,
    s1: Interpreter,
    s2: Interpreter,
    m: FunValue,
    inst: usize,
    fv1: FunValue,
    fv2: FunValue,
)
    requires
        Interpreter::bind_post(s0, s1, m, inst, fv1),
        Interpreter::bind_post(s1, s2, m, inst, fv2),
    ensures
        fv1.decl == fv2.decl,
        s2.environment.frames@[fv1.closure as int].parent == s2.environment.frames@[fv2.closure
            as int].parent,
        s2.environment.frames@[fv1.closure as int].map() == s2.environment.frames@[fv2.closure
            as int].map(),
        s2.funs == s0.funs,
{
}

/// An initialiser's closure frame binds `this` to the instance it was
/// bound to; with `call_function`'s contract — an initialiser call that
/// returns normally yields the `this` of its closure frame — an explicit
/// `init` call on an instance yields that instance, whatever the body's
/// `return` statements did.
pub proof fn lemma_init_binding(
    s0: Interpreter,
    s1: Interpreter,
    m: FunValue,
    inst: usize,
    fv: FunValue,
)
    requires
        Interpreter::bind_post(s0, s1, m, inst, fv),
    ensures
        s1.environment.frames@[fv.closure as int].map().contains_key("this"@),
        s1.environment.frames@[fv.closure as int].map()["this"@] == Value::Instance(inst),
{
}

/// The error that ends an execution whose step budget ran out; under the
/// budget the driver passes it never occurs.
fn step_limit_error() -> (e: LoxResult)
    ensures
        e.is_runtime(RuntimeErrorType::StepLimitReached),
        e.is_error(),
{
    LoxResult::Runtime {
        token: Token::eof(0, 0),
        error_type: RuntimeErrorType::StepLimitReached,
    }
}

} // verus!
