//! The protocol of a run, as a state machine.
//!
//! The driver decides; its caller does what no verified code can do: it
//! reads the clock around each call of `invoke`, hands the duration to
//! `record`, and prints the lines it is given.
use vstd::prelude::*;
use crate::buffer::KernelType;
use crate::config::{mode_of, AccelMode, BmarkConfig};
use crate::error::BenchError;
use crate::kernels::{lane_callable, lane_sum, scalar_callable, scalar_sum, sum_f32x4, sum_serial};
use crate::lanes::{pack, vec_to_f32x4};
use crate::pattern::{build_vec, pattern};
use crate::report::{
    iteration_line,
    iteration_text,
    summary_line,
    summary_text,
    total_micros,
    total_of,
};

verus! {

/// Where a run stands.
#[derive(Clone, Copy, Debug, PartialEq, Eq, Structural)]
pub enum Phase {
    /// Waiting for the configuration.
    Configuring,
    /// The configuration is accepted; the operands are not built yet.
    Preparing,
    /// The operands are built, and not every iteration has been timed.
    Running,
    /// Every iteration has been timed; the summary has not been drawn.
    Aggregating,
    /// The run is over, by its summary or by a fatal error. Nothing is accepted here.
    Done,
}

/// What a driver stands for: its phase, what it was configured with, and
/// the durations recorded so far, in microseconds.
pub struct DriverView {
    /// Where the run stands.
    pub phase: Phase,
    /// The kernel that is timed.
    pub mode: AccelMode,
    /// The dimension of the operands.
    pub dim: usize,
    /// The number of kernel calls to time.
    pub iters: usize,
    /// The duration of each kernel call timed so far, the first one first.
    pub samples: Seq<u64>,
}

/// The driver of one run. It owns the two operands and the samples.
pub struct Driver {
    phase: Phase,
    mode: AccelMode,
    dim: usize,
    iters: usize,
    a: KernelType,
    b: KernelType,
    samples: Vec<u64>,
}

impl View for Driver {
    type V = DriverView;

    closed spec fn view(&self) -> DriverView {
        DriverView {
            phase: self.phase,
            mode: self.mode,
            dim: self.dim,
            iters: self.iters,
            samples: self.samples@,
        }
    }
}

/// `operand` is the input pattern of dimension `dim` in the form that `mode` works on.
pub open spec fn is_operand(operand: &KernelType, mode: AccelMode, dim: usize) -> bool {
    match mode {
        AccelMode::Serial => operand is F32Vec && operand.scalars() == pattern(dim),
        AccelMode::Lanes4 => operand is F32x4Vec && operand.lanes() == pack(pattern(dim)),
    }
}

/// The input pattern of dimension `dim` can be had in the form that `mode`
/// works on: a scalar run takes any, a lane run one that packs.
pub open spec fn shape_fits(mode: AccelMode, dim: usize) -> bool {
    mode == AccelMode::Serial || pattern(dim).len() % 4 == 0
}

/// The addition that `mode` selects may be called on the input pattern of
/// dimension `dim` for both operands.
pub open spec fn callable_on_pattern<F: Fn(u32, u32) -> u32, G: Fn([u32; 4], [u32; 4]) -> [u32; 4]>(
    mode: AccelMode,
    dim: usize,
    add1: F,
    add4: G,
) -> bool {
    match mode {
        AccelMode::Serial => scalar_callable(add1, pattern(dim), pattern(dim)),
        AccelMode::Lanes4 => lane_callable(add4, pack(pattern(dim)), pack(pattern(dim))),
    }
}

/// `result` is what the kernel that `mode` selects can give on the input
/// pattern of dimension `dim` for both operands.
pub open spec fn is_sum_of_pattern<F: Fn(u32, u32) -> u32, G: Fn([u32; 4], [u32; 4]) -> [u32; 4]>(
    result: &KernelType,
    mode: AccelMode,
    dim: usize,
    add1: F,
    add4: G,
) -> bool {
    match mode {
        AccelMode::Serial => result is F32Vec && scalar_sum(
            add1,
            pattern(dim),
            pattern(dim),
            result.scalars(),
        ),
        AccelMode::Lanes4 => result is F32x4Vec && lane_sum(
            add4,
            pack(pattern(dim)),
            pack(pattern(dim)),
            result.lanes(),
        ),
    }
}

/// The phase after a sample was recorded as number `taken` of `iters`.
pub open spec fn phase_after(taken: nat, iters: nat) -> Phase {
    if taken >= iters {
        Phase::Aggregating
    } else {
        Phase::Running
    }
}

impl Driver {
    /// What holds of a driver at every moment.
    pub closed spec fn wf(&self) -> bool {
        match self.phase {
            Phase::Configuring => self.samples@.len() == 0,
            Phase::Preparing => {
                &&& self.samples@.len() == 0
                &&& self.iters > 0
                &&& self.dim * self.dim <= usize::MAX
            },
            Phase::Running => {
                &&& self.samples@.len() < self.iters
                &&& self.dim * self.dim <= usize::MAX
                &&& is_operand(&self.a, self.mode, self.dim)
                &&& is_operand(&self.b, self.mode, self.dim)
            },
            Phase::Aggregating => {
                &&& self.samples@.len() == self.iters
                &&& self.iters > 0
                &&& is_operand(&self.a, self.mode, self.dim)
                &&& is_operand(&self.b, self.mode, self.dim)
            },
            Phase::Done => true,
        }
    }

    /// A driver that waits for its configuration.
    pub fn new() -> (d: Driver)
        ensures
            d.wf(),
            d@.phase == Phase::Configuring,
            d@.samples.len() == 0,
    {
        Driver {
            phase: Phase::Configuring,
            mode: AccelMode::Serial,
            dim: 0,
            iters: 0,
            a: KernelType::F32Vec(Vec::new()),
            b: KernelType::F32Vec(Vec::new()),
            samples: Vec::new(),
        }
    }

    /// The phase the driver is in.
    pub fn phase(&self) -> (p: Phase)
        ensures
            p == self@.phase,
    {
        self.phase
    }

    /// Takes the configuration. The name of the mode is checked here, before
    /// anything is built: an unknown one ends the run. In any phase but
    /// `Configuring` the call changes nothing and answers with the phase.
    pub fn configure(&mut self, cfg: &BmarkConfig) -> (r: Result<Phase, BenchError>)
        requires
            old(self).wf(),
            old(self)@.phase == Phase::Configuring ==> cfg.runnable(),
        ensures
            final(self).wf(),
            old(self)@.phase != Phase::Configuring ==> {
                &&& r == Ok::<Phase, BenchError>(old(self)@.phase)
                &&& final(self)@ == old(self)@
            },
            old(self)@.phase == Phase::Configuring ==> match mode_of(cfg.accel@) {
                Ok(mode) => {
                    &&& r == Ok::<Phase, BenchError>(Phase::Preparing)
                    &&& final(self)@ == (DriverView {
                        phase: Phase::Preparing,
                        mode: mode,
                        dim: cfg.mat_dim,
                        iters: cfg.iters,
                        samples: Seq::empty(),
                    })
                },
                Err(e) => {
                    &&& r == Err::<Phase, BenchError>(e)
                    &&& final(self)@ == (DriverView { phase: Phase::Done, ..old(self)@ })
                },
            },
    {
        if self.phase != Phase::Configuring {
            return Ok(self.phase);
        }
        match cfg.mode() {
            Ok(mode) => {
                self.mode = mode;
                self.dim = cfg.mat_dim;
                self.iters = cfg.iters;
                self.phase = Phase::Preparing;
                assert(self@.samples =~= Seq::empty());
                Ok(Phase::Preparing)
            },
            Err(e) => {
                self.phase = Phase::Done;
                Err(e)
            },
        }
    }

    /// Builds the two operands, each the input pattern, and packs them where
    /// the mode works on lanes. A pattern that cannot be packed ends the run
    /// with `ShapeError`. In any phase but `Preparing` the call changes
    /// nothing and answers with the phase.
    pub fn prepare(&mut self) -> (r: Result<Phase, BenchError>)
        requires
            old(self).wf(),
        ensures
            final(self).wf(),
            old(self)@.phase != Phase::Preparing ==> {
                &&& r == Ok::<Phase, BenchError>(old(self)@.phase)
                &&& final(self)@ == old(self)@
            },
            old(self)@.phase == Phase::Preparing ==> if shape_fits(
                old(self)@.mode,
                old(self)@.dim,
            ) {
                &&& r == Ok::<Phase, BenchError>(Phase::Running)
                &&& final(self)@ == (DriverView { phase: Phase::Running, ..old(self)@ })
            } else {
                &&& r == Err::<Phase, BenchError>(BenchError::ShapeError)
                &&& final(self)@ == (DriverView { phase: Phase::Done, ..old(self)@ })
            },
    {
        if self.phase != Phase::Preparing {
            return Ok(self.phase);
        }
        let a: Vec<u32> = build_vec(self.dim);
        let b: Vec<u32> = build_vec(self.dim);
        match self.mode {
            AccelMode::Serial => {
                self.a = KernelType::F32Vec(a);
                self.b = KernelType::F32Vec(b);
            },
            AccelMode::Lanes4 => {
                let simd_a = match vec_to_f32x4(&a) {
                    Ok(lanes) => lanes,
                    Err(e) => {
                        self.phase = Phase::Done;
                        return Err(e);
                    },
                };
                let simd_b = match vec_to_f32x4(&b) {
                    Ok(lanes) => lanes,
                    Err(e) => {
                        self.phase = Phase::Done;
                        return Err(e);
                    },
                };
                self.a = KernelType::F32x4Vec(simd_a);
                self.b = KernelType::F32x4Vec(simd_b);
            },
        }
        self.phase = Phase::Running;
        Ok(Phase::Running)
    }

    /// One call of the kernel that the mode selects, on the two operands:
    /// what the caller times. The operands are in the form of that kernel,
    /// so the call never ends in `TypeMismatch`. Outside `Running` nothing
    /// is called.
    pub fn invoke<F: Fn(u32, u32) -> u32, G: Fn([u32; 4], [u32; 4]) -> [u32; 4]>(
        &self,
        add1: F,
        add4: G,
    ) -> (r: Option<KernelType>)
        requires
            self.wf(),
            self@.phase == Phase::Running ==> callable_on_pattern(
                self@.mode,
                self@.dim,
                add1,
                add4,
            ),
        ensures
            self@.phase != Phase::Running ==> r is None,
            self@.phase == Phase::Running ==> r is Some && is_sum_of_pattern(
                &r->0,
                self@.mode,
                self@.dim,
                add1,
                add4,
            ),
    {
        if self.phase != Phase::Running {
            return None;
        }
        proof {
            // Both operands are the pattern, on which the caller has met
            // what the additions require.
            match self.mode {
                AccelMode::Serial => {
                    assert(self.a.scalars() == pattern(self@.dim));
                    assert(self.b.scalars() == pattern(self@.dim));
                },
                AccelMode::Lanes4 => {
                    assert(self.a.lanes() == pack(pattern(self@.dim)));
                    assert(self.b.lanes() == pack(pattern(self@.dim)));
                },
            }
        }
        let r = match self.mode {
            AccelMode::Serial => sum_serial(&self.a, &self.b, self.dim, add1),
            AccelMode::Lanes4 => sum_f32x4(&self.a, &self.b, self.dim, add4),
        };
        match r {
            Ok(c) => Some(c),
            Err(_) => None,
        }
    }

    /// The two operands. From the moment they are built until the summary
    /// is drawn they are the input pattern in the form of the mode, whatever
    /// has been invoked or recorded in between.
    pub fn operands(&self) -> (r: (&KernelType, &KernelType))
        requires
            self.wf(),
        ensures
            self@.phase == Phase::Running || self@.phase == Phase::Aggregating ==> {
                &&& is_operand(r.0, self@.mode, self@.dim)
                &&& is_operand(r.1, self@.mode, self@.dim)
            },
    {
        (&self.a, &self.b)
    }

    /// Takes the duration of the kernel call just made, in microseconds, and
    /// gives the line to print for it. After the last iteration the driver
    /// goes on to `Aggregating`. Outside `Running` nothing is taken.
    pub fn record(&mut self, micros: u64) -> (r: Option<String>)
        requires
            old(self).wf(),
        ensures
            final(self).wf(),
            old(self)@.phase != Phase::Running ==> r is None && final(self)@ == old(self)@,
            old(self)@.phase == Phase::Running ==> {
                &&& r is Some
                &&& r->0@ == iteration_text(old(self)@.samples.len(), micros as nat)
                &&& final(self)@ == (DriverView {
                    phase: phase_after(old(self)@.samples.len() + 1, old(self)@.iters as nat),
                    samples: old(self)@.samples.push(micros),
                    ..old(self)@
                })
            },
    {
        if self.phase != Phase::Running {
            return None;
        }
        let i: usize = self.samples.len();
        self.samples.push(micros);
        if self.samples.len() >= self.iters {
            self.phase = Phase::Aggregating;
        }
        Some(iteration_line(i, micros))
    }

    /// The sum of the samples recorded so far, in microseconds.
    pub fn total(&self) -> (total: u128)
        ensures
            total == total_of(self@.samples),
    {
        total_micros(&self.samples)
    }

    /// Draws the summary: the sum of all samples, and that sum divided by
    /// the number of iterations, rounded down. The run is over with it.
    /// Outside `Aggregating` nothing is drawn.
    pub fn summary(&mut self) -> (r: Option<String>)
        requires
            old(self).wf(),
        ensures
            final(self).wf(),
            old(self)@.phase != Phase::Aggregating ==> r is None && final(self)@ == old(self)@,
            old(self)@.phase == Phase::Aggregating ==> {
                &&& r is Some
                &&& r->0@ == summary_text(
                    total_of(old(self)@.samples),
                    total_of(old(self)@.samples) / (old(self)@.iters as nat),
                )
                &&& final(self)@ == (DriverView { phase: Phase::Done, ..old(self)@ })
            },
    {
        if self.phase != Phase::Aggregating {
            return None;
        }
        let total: u128 = total_micros(&self.samples);
        let average: u128 = total / (self.iters as u128);
        self.phase = Phase::Done;
        Some(summary_line(total, average))
    }

    /// A run times exactly as many kernel calls as it was configured with:
    /// while it is `Running` some are left, and once it is `Aggregating`
    /// there is a sample for each, and at least one.
    pub proof fn lemma_sample_count(&self)
        requires
            self.wf(),
        ensures
            self@.phase == Phase::Configuring ==> self@.samples.len() == 0,
            self@.phase == Phase::Preparing ==> self@.samples.len() == 0,
            self@.phase == Phase::Running ==> self@.samples.len() < self@.iters,
            self@.phase == Phase::Aggregating ==> 0 < self@.samples.len() == self@.iters,
    {
    }
}

} // verus!
