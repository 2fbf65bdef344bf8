//! The configuration of a run.
use vstd::prelude::*;
use crate::decimal::{parse_count, word_count_of};
use crate::error::BenchError;

verus! {

/// The dimension of a run whose arguments name none.
pub const DEFAULT_DIM: usize = 128;

/// The number of iterations of a run whose arguments name none.
pub const DEFAULT_ITERS: usize = 10;

/// Which kernel a run times, and with it the form of its operands.
#[derive(Clone, Copy, Debug, PartialEq, Eq, Structural)]
pub enum AccelMode {
    /// `none`: the scalar kernel on buffers in scalar form.
    Serial,
    /// `lanes4`: the vectorized kernel on buffers in lane form.
    Lanes4,
}

/// The mode that a name stands for. Only `none` and `lanes4` are names of modes.
pub open spec fn mode_of(name: Seq<char>) -> Result<AccelMode, BenchError> {
    if name == "none"@ {
        Ok(AccelMode::Serial)
    } else if name == "lanes4"@ {
        Ok(AccelMode::Lanes4)
    } else {
        Err(BenchError::UnsupportedAccelMode)
    }
}

/// The count that an argument gives: its default where it is absent, else
/// what its text stands for, if that fits the machine word.
pub open spec fn count_arg(arg: Option<&str>, default: usize) -> Option<usize> {
    match arg {
        Some(text) => word_count_of(text@),
        None => Some(default),
    }
}

impl AccelMode {
    /// Reads the name of a mode.
    pub fn parse(name: &str) -> (r: Result<AccelMode, BenchError>)
        ensures
            r == mode_of(name@),
    {
        let name = String::from_str(name);
        if name == String::from_str("none") {
            Ok(AccelMode::Serial)
        } else if name == String::from_str("lanes4") {
            Ok(AccelMode::Lanes4)
        } else {
            Err(BenchError::UnsupportedAccelMode)
        }
    }
}

/// What a run is asked to do. The driver reads it once, when it is configured.
pub struct BmarkConfig {
    /// The dimension `N` of the square `N x N` buffers.
    pub mat_dim: usize,
    /// The name of the acceleration mode, as it was given.
    pub accel: String,
    /// The number of timed kernel calls.
    pub iters: usize,
}

impl BmarkConfig {
    /// The configuration of these three values, none of them examined.
    pub fn new(mat_dim: usize, accel: String, iters: usize) -> (cfg: Self)
        ensures
            cfg.mat_dim == mat_dim,
            cfg.accel == accel,
            cfg.iters == iters,
    {
        Self { mat_dim: mat_dim, accel: accel, iters: iters }
    }

    /// The configuration that the three arguments of the command line give.
    /// An absent argument has its default: dimension 128, mode `none`, 10
    /// iterations. The name of the mode is taken as it is. The two counts
    /// must parse, or the answer is `ConfigParseError`.
    pub fn from_args(size: Option<&str>, accel: Option<&str>, iters: Option<&str>) -> (r:
        Result<Self, BenchError>)
        ensures
            match (count_arg(size, DEFAULT_DIM), count_arg(iters, DEFAULT_ITERS)) {
                (Some(d), Some(n)) => {
                    &&& r is Ok
                    &&& r->Ok_0.mat_dim == d
                    &&& r->Ok_0.iters == n
                    &&& r->Ok_0.accel@ == match accel {
                        Some(name) => name@,
                        None => "none"@,
                    }
                },
                _ => r is Err && r->Err_0 == BenchError::ConfigParseError,
            },
    {
        let mat_dim: usize = match size {
            Some(text) => match parse_count(text) {
                Ok(d) => d,
                Err(e) => {
                    return Err(e);
                },
            },
            None => DEFAULT_DIM,
        };
        let iters: usize = match iters {
            Some(text) => match parse_count(text) {
                Ok(n) => n,
                Err(e) => {
                    return Err(e);
                },
            },
            None => DEFAULT_ITERS,
        };
        let accel: String = match accel {
            Some(name) => String::from_str(name),
            None => String::from_str("none"),
        };
        Ok(BmarkConfig::new(mat_dim, accel, iters))
    }

    /// A run of this configuration has an average and buffers that the
    /// machine can index: there is at least one iteration, and `mat_dim`
    /// squared fits the machine word.
    pub open spec fn runnable(&self) -> bool {
        self.iters > 0 && self.mat_dim * self.mat_dim <= usize::MAX
    }

    /// Tests `runnable`.
    pub fn is_runnable(&self) -> (b: bool)
        ensures
            b == self.runnable(),
    {
        self.iters > 0 && self.mat_dim.checked_mul(self.mat_dim).is_some()
    }

    /// The mode that the configuration names.
    pub fn mode(&self) -> (r: Result<AccelMode, BenchError>)
        ensures
            r == mode_of(self.accel@),
    {
        AccelMode::parse(self.accel.as_str())
    }
}

} // verus!
