//! Internal representation of a structured query language.
//!
//! The verified part holds the enumerations of logical operators and
//! comparison operators, together with their text forms and the function
//! classification used when validating queries.

use vstd::prelude::*;
use vstd::string::StringExecFns;

verus! {

/// Enumerator of the logical operations
#[derive(Debug, Clone, Copy, PartialEq, Eq, Hash, Structural)]
pub enum Operator {
    /// Logical AND operation
    And,
    /// Logical OR operation
    Or,
    /// Logical NOT operation
    Not,
}

impl Operator {
    /// The text form of each logical operator.
    pub open spec fn spec_str(self) -> Seq<char> {
        match self {
            Operator::And => "and"@,
            Operator::Or => "or"@,
            Operator::Not => "not"@,
        }
    }

    /// Render the operator as text.
    pub fn to_string(&self) -> (r: String)
        ensures
            r@ == self.spec_str(),
    {
        match self {
            Operator::And => String::from_str("and"),
            Operator::Or => String::from_str("or"),
            Operator::Not => String::from_str("not"),
        }
    }
}

/// Enumerator of the comparison operators
#[derive(Debug, Clone, Copy, PartialEq, Eq, Hash, Structural)]
pub enum Comparator {
    /// Equal to
    Eq,
    /// Not equal to
    Ne,
    /// Greater than
    Gt,
    /// Greater than or equal to
    Gte,
    /// Less than
    Lt,
    /// Less than or equal to
    Lte,
    /// Contains
    Contain,
    /// Like (pattern matching)
    Like,
    /// In a set of values
    In,
    /// Not in a set of values
    Nin,
}

impl Comparator {
    /// The text form of each comparison operator.
    pub open spec fn spec_str(self) -> Seq<char> {
        match self {
            Comparator::Eq => "eq"@,
            Comparator::Ne => "ne"@,
            Comparator::Gt => "gt"@,
            Comparator::Gte => "gte"@,
            Comparator::Lt => "lt"@,
            Comparator::Lte => "lte"@,
            Comparator::Contain => "contain"@,
            Comparator::Like => "like"@,
            Comparator::In => "in"@,
            Comparator::Nin => "nin"@,
        }
    }

    /// Render the comparator as text.
    pub fn to_string(&self) -> (r: String)
        ensures
            r@ == self.spec_str(),
    {
        match self {
            Comparator::Eq => String::from_str("eq"),
            Comparator::Ne => String::from_str("ne"),
            Comparator::Gt => String::from_str("gt"),
            Comparator::Gte => String::from_str("gte"),
            Comparator::Lt => String::from_str("lt"),
            Comparator::Lte => String::from_str("lte"),
            Comparator::Contain => String::from_str("contain"),
            Comparator::Like => String::from_str("like"),
            Comparator::In => String::from_str("in"),
            Comparator::Nin => String::from_str("nin"),
        }
    }
}

/// Trait for functions that can be validated
pub trait Function {
    /// Get as operator if this is an operator
    fn as_operator(&self) -> Option<Operator>;

    /// Get as comparator if this is a comparator
    fn as_comparator(&self) -> Option<Comparator>;
}

impl Function for Operator {
    /// An operator is an operator.
    fn as_operator(&self) -> (r: Option<Operator>)
        ensures
            r == Some(*self),
    {
        Some(*self)
    }

    /// An operator is not a comparator.
    fn as_comparator(&self) -> (r: Option<Comparator>)
        ensures
            r is None,
    {
        None
    }
}

impl Function for Comparator {
    /// A comparator is not an operator.
    fn as_operator(&self) -> (r: Option<Operator>)
        ensures
            r is None,
    {
        None
    }

    /// A comparator is a comparator.
    fn as_comparator(&self) -> (r: Option<Comparator>)
        ensures
            r == Some(*self),
    {
        Some(*self)
    }
}

} // verus!
