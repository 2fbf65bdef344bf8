//! The ways a benchmark run can fail.
use vstd::prelude::*;

verus! {

/// A fatal condition. None of them is transient, so none is retried.
#[derive(Clone, Copy, Debug, PartialEq, Eq, Structural)]
pub enum BenchError {
    /// A numeric argument is not a decimal number that fits the machine word.
    ConfigParseError,
    /// The acceleration mode is none of the known ones.
    UnsupportedAccelMode,
    /// A scalar buffer whose length is no multiple of the lane width was to be packed.
    ShapeError,
    /// A kernel was handed an operand in the form it does not work on.
    TypeMismatch,
}

impl BenchError {
    /// The text of `describe`, character by character.
    pub open spec fn description(self) -> Seq<char> {
        match self {
            BenchError::ConfigParseError => "a numeric argument does not parse"@,
            BenchError::UnsupportedAccelMode => "the acceleration mode is neither 'none' nor 'lanes4'"@,
            BenchError::ShapeError => "the buffer length is not divisible by the lane width"@,
            BenchError::TypeMismatch => "the kernel was given an operand in the wrong form"@,
        }
    }

    /// A message for the person who started the run.
    pub fn describe(self) -> (text: &'static str)
        ensures
            text@ == self.description(),
    {
        match self {
            BenchError::ConfigParseError => "a numeric argument does not parse",
            BenchError::UnsupportedAccelMode => "the acceleration mode is neither 'none' nor 'lanes4'",
            BenchError::ShapeError => "the buffer length is not divisible by the lane width",
            BenchError::TypeMismatch => "the kernel was given an operand in the wrong form",
        }
    }
}

} // verus!
