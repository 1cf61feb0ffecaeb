//! The syntax tree, and the mathematical model of each node.

use vstd::prelude::*;

verus! {

/// An expression: an unsigned integer literal.
#[derive(Debug, Clone, Copy, PartialEq, Eq)]
pub struct Expression {
    pub int: u32,
}

/// A statement: `return <expression>;`.
#[derive(Debug, Clone, Copy, PartialEq, Eq)]
pub struct Statement {
    pub expression: Expression,
}

/// A function: `int <id>() { <statement> }`.
#[derive(Debug, PartialEq, Eq)]
pub struct Function {
    pub id: String,
    pub statement: Statement,
}

/// A program: exactly one function.
#[derive(Debug, PartialEq, Eq)]
pub struct Program {
    pub function: Function,
}

/// What an expression denotes: the value of its literal.
pub struct ExpressionModel {
    pub int: nat,
}

/// What a statement denotes.
pub struct StatementModel {
    pub expression: ExpressionModel,
}

/// What a function denotes: its name as a sequence of characters, and its
/// statement.
pub struct FunctionModel {
    pub id: Seq<char>,
    pub statement: StatementModel,
}

/// What a program denotes.
pub struct ProgramModel {
    pub function: FunctionModel,
}

impl View for Expression {
    type V = ExpressionModel;

    open spec fn view(&self) -> ExpressionModel {
        ExpressionModel { int: self.int as nat }
    }
}

impl View for Statement {
    type V = StatementModel;

    open spec fn view(&self) -> StatementModel {
        StatementModel { expression: self.expression@ }
    }
}

impl View for Function {
    type V = FunctionModel;

    open spec fn view(&self) -> FunctionModel {
        FunctionModel { id: self.id@, statement: self.statement@ }
    }
}

impl View for Program {
    type V = ProgramModel;

    open spec fn view(&self) -> ProgramModel {
        ProgramModel { function: self.function@ }
    }
}

impl Clone for Function {
    fn clone(&self) -> (copy: Function)
        ensures
            copy == *self,
    {
        Function { id: self.id.clone(), statement: self.statement }
    }
}

impl Clone for Program {
    fn clone(&self) -> (copy: Program)
        ensures
            copy == *self,
    {
        Program { function: self.function.clone() }
    }
}

} // verus!
