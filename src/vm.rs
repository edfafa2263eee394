//! The operation vocabulary of the virtual machine that runs program trees.
//! The evolution engine only stores and copies these values.
use vstd::prelude::*;

verus! {

/// A register address; addresses from `STACK_START` on name stack slots.
pub type Reg = u8;

/// Register addresses at or above this value denote stack slots.
pub const STACK_START: u8 = 100;

#[derive(Clone, Copy, Debug, PartialEq, Eq)]
pub enum UnaryOperation {
    Not,
    Negate,
    Increment,
    Decrement,
}

#[derive(Clone, Copy, Debug, PartialEq, Eq)]
pub enum BinaryOperation {
    Add,
    Subtract,
    Multiply,
    Divide,
    Modulo,
    And,
    Or,
}

#[derive(Clone, Copy, Debug, PartialEq, Eq)]
pub enum TurtleOperation {
    Forward,
    Back,
    Left,
    Right,
    Up,
    Down,
    Place,
}

/// Where a value is read from.
#[derive(Clone, Copy, Debug, PartialEq, Eq)]
pub enum Source {
    Constant(u8),
    Register(Reg),
}

} // verus!
