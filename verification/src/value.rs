use vstd::prelude::*;

use crate::num::eq_bits;

verus! {

/// A user function value: the index of its declaration in the interpreter's
/// declaration store, and the frame it closes over.
#[derive(Clone, Copy, PartialEq, Eq, Structural, Debug)]
pub struct FunValue {
    pub decl: usize,
    pub closure: usize,
}

/// The built-in callables the interpreter predefines.
#[derive(Clone, Copy, PartialEq, Eq, Structural, Debug)]
pub enum NativeFn {
    Clock,
}

/// A runtime value. Numbers carry the bit pattern of an IEEE-754 double;
/// functions, classes and instances carry indices into the interpreter's
/// stores, so that copies of one value share identity.
#[derive(Debug)]
pub enum Value {
    Nil,
    True,
    False,
    Num(u64),
    Str(String),
    Fun(FunValue),
    Class(usize),
    Instance(usize),
    Native(NativeFn),
}

impl Clone for Value {
    fn clone(&self) -> (res: Self)
        ensures
            res == *self,
    {
        match self {
            Value::Nil => Value::Nil,
            Value::True => Value::True,
            Value::False => Value::False,
            Value::Num(b) => Value::Num(*b),
            Value::Str(s) => Value::Str(s.clone()),
            Value::Fun(f) => Value::Fun(*f),
            Value::Class(c) => Value::Class(*c),
            Value::Instance(i) => Value::Instance(*i),
            Value::Native(n) => Value::Native(*n),
        }
    }
}

/// Language equality: structural on nil, booleans and strings, IEEE-754 on
/// numbers, identity on functions, classes and instances. There are no
/// implicit conversions, so values of different shapes are unequal.
pub open spec fn val_eq(a: Value, b: Value) -> bool {
    match a {
        Value::Nil => b is Nil,
        Value::True => b is True,
        Value::False => b is False,
        Value::Num(x) => b matches Value::Num(y) && eq_bits(x, y),
        Value::Str(x) => b matches Value::Str(y) && x@ == y@,
        Value::Fun(x) => b matches Value::Fun(y) && x == y,
        Value::Class(x) => b matches Value::Class(y) && x == y,
        Value::Instance(x) => b matches Value::Instance(y) && x == y,
        Value::Native(x) => b matches Value::Native(y) && x == y,
    }
}

/// Only `nil` and `false` are falsy; everything else, `0` and `""` included,
/// is truthy.
pub open spec fn truthy(v: Value) -> bool {
    !(v is Nil || v is False)
}

impl Value {
    pub fn from_bool(b: bool) -> (v: Value)
        ensures
            v == if b {
                Value::True
            } else {
                Value::False
            },
    {
        if b {
            Value::True
        } else {
            Value::False
        }
    }

    /// Decides language equality between two values.
    pub fn equals(&self, other: &Value) -> (r: bool)
        ensures
            r == val_eq(*self, *other),
    {
        match self {
            Value::Nil => match other { Value::Nil => true, _ => false },
            Value::True => match other { Value::True => true, _ => false },
            Value::False => match other { Value::False => true, _ => false },
            Value::Num(x) => match other {
                Value::Num(y) => crate::num::num_eq(*x, *y),
                _ => false,
            },
            Value::Str(x) => match other {
                Value::Str(y) => *x == *y,
                _ => false,
            },
            Value::Fun(x) => match other {
                Value::Fun(y) => x.decl == y.decl && x.closure == y.closure,
                _ => false,
            },
            Value::Class(x) => match other {
                Value::Class(y) => x == y,
                _ => false,
            },
            Value::Instance(x) => match other {
                Value::Instance(y) => x == y,
                _ => false,
            },
            Value::Native(x) => match other {
                Value::Native(y) => x == y,
                _ => false,
            },
        }
    }
}

} // verus!
