//! The operand and result type of the kernels.
use vstd::prelude::*;

verus! {

/// A numeric buffer in one of its two forms. Each element is the bit pattern
/// of a single-precision value.
#[derive(Debug, PartialEq, Eq)]
pub enum KernelType {
    /// Scalar form: one value after the other.
    F32Vec(Vec<u32>),
    /// Lane form: groups of four consecutive values.
    F32x4Vec(Vec<[u32; 4]>),
}

impl KernelType {
    /// The values of a buffer in scalar form; empty for one in lane form.
    pub open spec fn scalars(&self) -> Seq<u32> {
        match self {
            KernelType::F32Vec(v) => v@,
            KernelType::F32x4Vec(_) => Seq::empty(),
        }
    }

    /// The lanes of a buffer in lane form; empty for one in scalar form.
    pub open spec fn lanes(&self) -> Seq<[u32; 4]> {
        match self {
            KernelType::F32Vec(_) => Seq::empty(),
            KernelType::F32x4Vec(v) => v@,
        }
    }

    /// The number of items the buffer holds: values in scalar form, lanes in lane form.
    pub open spec fn spec_len(&self) -> usize {
        match self {
            KernelType::F32Vec(v) => v.len(),
            KernelType::F32x4Vec(v) => v.len(),
        }
    }

    /// The number of items the buffer holds: values in scalar form, lanes in lane form.
    #[verifier::when_used_as_spec(spec_len)]
    pub fn len(&self) -> (n: usize)
        ensures
            n == self.spec_len(),
    {
        match self {
            KernelType::F32Vec(v) => v.len(),
            KernelType::F32x4Vec(v) => v.len(),
        }
    }
}

impl Clone for KernelType {
    /// A buffer of its own with the same form and the same contents.
    fn clone(&self) -> (copy: Self)
        ensures
            copy is F32Vec <==> self is F32Vec,
            copy.scalars() == self.scalars(),
            copy.lanes() == self.lanes(),
    {
        match self {
            KernelType::F32Vec(v) => {
                let c = v.clone();
                KernelType::F32Vec(c)
            },
            KernelType::F32x4Vec(v) => {
                let mut c: Vec<[u32; 4]> = Vec::with_capacity(v.len());
                let mut j: usize = 0;
                while j < v.len()
                    invariant
                        j <= v.len(),
                        c@ == v@.take(j as int),
                    decreases v.len() - j,
                {
                    c.push(v[j]);
                    j += 1;
                }
                KernelType::F32x4Vec(c)
            },
        }
    }
}

} // verus!
