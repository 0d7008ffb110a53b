//! The two families that a task is most often about.

use crate::local_fractal::Kernel;
use crate::shared_structs::FractalDescriptor;
use vstd::prelude::*;

verus! {

/// The Julia family.
#[derive(Debug, Clone, Copy, PartialEq, Eq, Structural)]
pub struct FractalJulia {}

impl FractalJulia {
    /// The Julia family.
    pub fn new() -> (f: FractalJulia)
        ensures
            f == (FractalJulia {  }),
    {
        FractalJulia {  }
    }

    /// The Julia kernel for a Julia descriptor; nothing for another family.
    pub fn kernel(&self, descriptor: &FractalDescriptor) -> (k: Option<Kernel>)
        ensures
            k == match *descriptor {
                FractalDescriptor::Julia(d) => Some(Kernel::Julia(d)),
                _ => None,
            },
    {
        match descriptor {
            FractalDescriptor::Julia(d) => Some(Kernel::Julia(*d)),
            _ => None,
        }
    }
}

/// The Mandelbrot family.
#[derive(Debug, Clone, Copy, PartialEq, Eq, Structural)]
pub struct FractalMandelbrot {}

impl FractalMandelbrot {
    /// The Mandelbrot family.
    pub fn new() -> (f: FractalMandelbrot)
        ensures
            f == (FractalMandelbrot {  }),
    {
        FractalMandelbrot {  }
    }

    /// The Mandelbrot kernel, whatever the descriptor.
    pub fn kernel(&self, descriptor: &FractalDescriptor) -> (k: Kernel)
        ensures
            k == Kernel::Mandelbrot,
    {
        Kernel::Mandelbrot
    }
}

} // verus!
