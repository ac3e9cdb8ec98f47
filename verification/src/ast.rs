use vstd::prelude::*;

use crate::token::{Object, Token};

verus! {

// Variable, assignment, `this` and `super` nodes each carry a `slot`: a
// number the parser hands out one-to-one over such references. The resolver
// records the lexical depth of slot `s` at index `s` of its side table, and
// the evaluator reads it back there, which keeps one resolved reference
// matched with exactly one runtime lookup.

/// An expression node.
#[derive(Debug)]
#[verifier::ext_equal]
pub enum Expr {
    Literal { value: Option<Object> },
    Grouping { expression: Box<Expr> },
    Unary { operator: Token, right: Box<Expr> },
    Binary { left: Box<Expr>, operator: Token, right: Box<Expr> },
    Logical { left: Box<Expr>, operator: Token, right: Box<Expr> },
    Variable { name: Token, slot: usize },
    Assign { name: Token, value: Box<Expr>, slot: usize },
    Call { callee: Box<Expr>, paren: Token, arguments: Vec<Expr> },
    Get { object: Box<Expr>, name: Token },
    SetProp { object: Box<Expr>, name: Token, value: Box<Expr> },
    This { keyword: Token, slot: usize },
    Super { keyword: Token, method: Token, slot: usize },
}

/// A function or method declaration: name, parameters and body.
#[derive(Debug)]
#[verifier::ext_equal]
pub struct FunctionDecl {
    pub name: Token,
    pub params: Vec<Token>,
    pub body: Vec<Stmt>,
}

/// A statement node. `for` loops do not appear: the parser lowers them to
/// an equivalent block around a `while`.
#[derive(Debug)]
#[verifier::ext_equal]
pub enum Stmt {
    Expression { expression: Expr },
    Print { expression: Expr },
    Var { name: Token, initializer: Option<Expr> },
    Block { statements: Vec<Stmt> },
    If { condition: Expr, then_branch: Box<Stmt>, else_branch: Option<Box<Stmt>> },
    While { condition: Expr, body: Box<Stmt> },
    Function { decl: FunctionDecl },
    Return { keyword: Token, value: Option<Expr> },
    Class {
        name: Token,
        superclass_name: Option<Token>,
        superclass_slot: usize,
        methods: Vec<FunctionDecl>,
    },
}

impl Clone for Expr {
    fn clone(&self) -> (res: Self)
        decreases *self,
    {
        let res = match self {
            Expr::Literal { value } => Expr::Literal {
                value: match value {
                    Some(o) => Some(o.clone()),
                    None => None,
                },
            },
            Expr::Grouping { expression } => Expr::Grouping {
                expression: Box::new((**expression).clone()),
            },
            Expr::Unary { operator, right } => Expr::Unary {
                operator: operator.clone(),
                right: Box::new((**right).clone()),
            },
            Expr::Binary { left, operator, right } => Expr::Binary {
                left: Box::new((**left).clone()),
                operator: operator.clone(),
                right: Box::new((**right).clone()),
            },
            Expr::Logical { left, operator, right } => Expr::Logical {
                left: Box::new((**left).clone()),
                operator: operator.clone(),
                right: Box::new((**right).clone()),
            },
            Expr::Variable { name, slot } => Expr::Variable { name: name.clone(), slot: *slot },
            Expr::Assign { name, value, slot } => Expr::Assign {
                name: name.clone(),
                value: Box::new((**value).clone()),
                slot: *slot,
            },
            Expr::Call { callee, paren, arguments } => Expr::Call {
                callee: Box::new((**callee).clone()),
                paren: paren.clone(),
                arguments: clone_exprs(arguments),
            },
            Expr::Get { object, name } => Expr::Get {
                object: Box::new((**object).clone()),
                name: name.clone(),
            },
            Expr::SetProp { object, name, value } => Expr::SetProp {
                object: Box::new((**object).clone()),
                name: name.clone(),
                value: Box::new((**value).clone()),
            },
            Expr::This { keyword, slot } => Expr::This { keyword: keyword.clone(), slot: *slot },
            Expr::Super { keyword, method, slot } => Expr::Super {
                keyword: keyword.clone(),
                method: method.clone(),
                slot: *slot,
            },
        };
        res
    }
}

/// An element-wise copy of an expression list.
#[verifier::loop_isolation(false)]
fn clone_exprs(v: &Vec<Expr>) -> (res: Vec<Expr>)
    ensures
        res@.len() == v@.len(),
    decreases *v,
{
    let mut out: Vec<Expr> = Vec::new();
    let mut i: usize = 0;
    while i < v.len()
        invariant
            i <= v@.len(),
            out@.len() == i,
        decreases v@.len() - i,
    {
        proof {
            broadcast use vstd::seq::axiom_seq_index_decreases;

            assert(decreases_to!(*v => v@));
            assert(decreases_to!(v@ => v@[i as int]));
        }
        out.push(v[i].clone());
        i = i + 1;
    }
    out
}

impl Clone for FunctionDecl {
    fn clone(&self) -> (res: Self)
        ensures
            res.name == self.name,
            res.params@ == self.params@,
            res.body@.len() == self.body@.len(),
        decreases *self,
    {
        FunctionDecl {
            name: self.name.clone(),
            params: clone_tokens(&self.params),
            body: clone_stmts(&self.body),
        }
    }
}

/// An element-wise copy of a token list.
#[verifier::loop_isolation(false)]
fn clone_tokens(v: &Vec<Token>) -> (res: Vec<Token>)
    ensures
        res@ == v@,
{
    let mut out: Vec<Token> = Vec::new();
    let mut i: usize = 0;
    while i < v.len()
        invariant
            i <= v@.len(),
            out@ =~= v@.subrange(0, i as int),
        decreases v@.len() - i,
    {
        out.push(v[i].clone());
        i = i + 1;
    }
    proof {
        assert(out@ =~= v@);
    }
    out
}

/// An element-wise copy of a statement list.
#[verifier::loop_isolation(false)]
fn clone_stmts(v: &Vec<Stmt>) -> (res: Vec<Stmt>)
    ensures
        res@.len() == v@.len(),
    decreases *v,
{
    let mut out: Vec<Stmt> = Vec::new();
    let mut i: usize = 0;
    while i < v.len()
        invariant
            i <= v@.len(),
            out@.len() == i,
        decreases v@.len() - i,
    {
        proof {
            broadcast use vstd::seq::axiom_seq_index_decreases;

            assert(decreases_to!(*v => v@));
            assert(decreases_to!(v@ => v@[i as int]));
        }
        out.push(v[i].clone());
        i = i + 1;
    }
    out
}

/// An element-wise copy of a method list.
#[verifier::loop_isolation(false)]
fn clone_decls(v: &Vec<FunctionDecl>) -> (res: Vec<FunctionDecl>)
    ensures
        res@.len() == v@.len(),
    decreases *v,
{
    let mut out: Vec<FunctionDecl> = Vec::new();
    let mut i: usize = 0;
    while i < v.len()
        invariant
            i <= v@.len(),
            out@.len() == i,
        decreases v@.len() - i,
    {
        proof {
            broadcast use vstd::seq::axiom_seq_index_decreases;

            assert(decreases_to!(*v => v@));
            assert(decreases_to!(v@ => v@[i as int]));
        }
        out.push(v[i].clone());
        i = i + 1;
    }
    out
}

impl Clone for Stmt {
    fn clone(&self) -> (res: Self)
        decreases *self,
    {
        let res = match self {
            Stmt::Expression { expression } => Stmt::Expression { expression: expression.clone() },
            Stmt::Print { expression } => Stmt::Print { expression: expression.clone() },
            Stmt::Var { name, initializer } => Stmt::Var {
                name: name.clone(),
                initializer: match initializer {
                    Some(e) => Some(e.clone()),
                    None => None,
                },
            },
            Stmt::Block { statements } => Stmt::Block { statements: clone_stmts(statements) },
            Stmt::If { condition, then_branch, else_branch } => Stmt::If {
                condition: condition.clone(),
                then_branch: Box::new((**then_branch).clone()),
                else_branch: match else_branch {
                    Some(s) => Some(Box::new((**s).clone())),
                    None => None,
                },
            },
            Stmt::While { condition, body } => Stmt::While {
                condition: condition.clone(),
                body: Box::new((**body).clone()),
            },
            Stmt::Function { decl } => Stmt::Function { decl: decl.clone() },
            Stmt::Return { keyword, value } => Stmt::Return {
                keyword: keyword.clone(),
                value: match value {
                    Some(e) => Some(e.clone()),
                    None => None,
                },
            },
            Stmt::Class { name, superclass_name, superclass_slot, methods } => Stmt::Class {
                name: name.clone(),
                superclass_name: match superclass_name {
                    Some(t) => Some(t.clone()),
                    None => None,
                },
                superclass_slot: *superclass_slot,
                methods: clone_decls(methods),
            },
        };
        res
    }
}

} // verus!
