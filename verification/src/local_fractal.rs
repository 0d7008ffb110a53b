//! Choosing the kernel for a fractal, and the fragments that show each
//! family at its best.
//!
//! A descriptor says which family is wanted; the kernel says how that family
//! is iterated: where the iteration starts, when it stops, and under which
//! name its picture is kept. The arithmetic itself is done by the caller.

use crate::shared_structs::{
    Complex, FractalDescriptor, IteratedSinZDescriptor, JuliaDescriptor, MandelbrotDescriptor,
    NewtonRaphsonZ3Descriptor, NewtonRaphsonZ4Descriptor, NovaNewtonRaphsonZ3Descriptor,
    NovaNewtonRaphsonZ4Descriptor, Point, Range, Resolution,
};
use vstd::prelude::*;

verus! {

/// Bits of the binary64 number `4.0`: the squared escape radius of the
/// Mandelbrot iteration.
pub const MANDELBROT_THRESHOLD: u64 = 0x4010_0000_0000_0000;

/// Bits of the binary64 number `50.0`: the squared escape radius of the
/// iterated sine.
pub const SIN_Z_THRESHOLD: u64 = 0x4049_0000_0000_0000;

/// Bits of the binary64 number `1e-6`: how close Newton's method must come.
pub const NEWTON_EPSILON: u64 = 0x3eb0_c6f7_a0b5_ed8d;

/// The degree of the polynomial `z^n - 1` that Newton's method is run on.
#[derive(Debug, Clone, Copy, PartialEq, Eq, Structural)]
pub enum Degree {
    Three,
    Four,
}

/// Where a kernel starts its iteration.
#[derive(Debug, Clone, Copy, PartialEq, Eq, Structural)]
pub enum Start {
    /// At the pixel's point of the plane.
    Pixel,
    /// At zero; the pixel's point is the constant that is added.
    Zero,
    /// At one; the pixel's point is the shift that is added.
    One,
}

/// How a fractal family is iterated.
#[derive(Debug, Clone, Copy, PartialEq, Eq, Structural)]
pub enum Kernel {
    /// `z <- z^2 + c` until `|z|^2` reaches the threshold.
    Julia(JuliaDescriptor),
    /// `z <- z^2 + c` with `c` the pixel, until `|z|^2` exceeds four.
    Mandelbrot,
    /// `z <- sin(z) * c` until `|z|^2` exceeds fifty.
    IteratedSinZ(IteratedSinZDescriptor),
    /// Newton's method on `z^n - 1`, until `|z^n - 1|^2` is small.
    Newton(Degree),
    /// Newton's method on `z^n - 1` shifted by the pixel, until a step is
    /// small.
    NovaNewton(Degree),
}

impl Kernel {
    /// The kernel that a descriptor asks for.
    pub open spec fn of_spec(descriptor: FractalDescriptor) -> Kernel {
        match descriptor {
            FractalDescriptor::Julia(d) => Kernel::Julia(d),
            FractalDescriptor::Mandelbrot(_) => Kernel::Mandelbrot,
            FractalDescriptor::IteratedSinZ(d) => Kernel::IteratedSinZ(d),
            FractalDescriptor::NewtonRaphsonZ3(_) => Kernel::Newton(Degree::Three),
            FractalDescriptor::NewtonRaphsonZ4(_) => Kernel::Newton(Degree::Four),
            FractalDescriptor::NovaNewtonZ3(_) => Kernel::NovaNewton(Degree::Three),
            FractalDescriptor::NovaNewtonZ4(_) => Kernel::NovaNewton(Degree::Four),
        }
    }

    /// Where the kernel starts.
    pub open spec fn start_spec(self) -> Start {
        match self {
            Kernel::Mandelbrot => Start::Zero,
            Kernel::NovaNewton(_) => Start::One,
            _ => Start::Pixel,
        }
    }

    /// The squared radius beyond which an escape-time kernel stops, as
    /// binary64 bits; `None` for Newton's method.
    pub open spec fn threshold_spec(self) -> Option<u64> {
        match self {
            Kernel::Julia(d) => Some(d.divergence_threshold_square),
            Kernel::Mandelbrot => Some(MANDELBROT_THRESHOLD),
            Kernel::IteratedSinZ(_) => Some(SIN_Z_THRESHOLD),
            _ => None,
        }
    }

    /// The distance below which Newton's method stops, as binary64 bits;
    /// `None` for an escape-time kernel.
    pub open spec fn epsilon_spec(self) -> Option<u64> {
        match self {
            Kernel::Newton(_) | Kernel::NovaNewton(_) => Some(NEWTON_EPSILON),
            _ => None,
        }
    }

    /// The name under which the family's picture is kept.
    pub open spec fn image_name_spec(self) -> Seq<char> {
        match self {
            Kernel::Julia(_) => "julia"@,
            Kernel::Mandelbrot => "mandelbrot"@,
            Kernel::IteratedSinZ(_) => "iterated_sin_z_fractal"@,
            Kernel::Newton(Degree::Three) => "newton_fractal_z3"@,
            Kernel::Newton(Degree::Four) => "newton_fractal_z4"@,
            Kernel::NovaNewton(Degree::Three) => "nova_newton_fractal_z3"@,
            Kernel::NovaNewton(Degree::Four) => "nova_newton_fractal_z4"@,
        }
    }

    /// Chooses the kernel for a descriptor.
    pub fn of(descriptor: &FractalDescriptor) -> (k: Kernel)
        ensures
            k == Self::of_spec(*descriptor),
    {
        match descriptor {
            FractalDescriptor::Julia(d) => Kernel::Julia(*d),
            FractalDescriptor::Mandelbrot(_) => Kernel::Mandelbrot,
            FractalDescriptor::IteratedSinZ(d) => Kernel::IteratedSinZ(*d),
            FractalDescriptor::NewtonRaphsonZ3(_) => Kernel::Newton(Degree::Three),
            FractalDescriptor::NewtonRaphsonZ4(_) => Kernel::Newton(Degree::Four),
            FractalDescriptor::NovaNewtonZ3(_) => Kernel::NovaNewton(Degree::Three),
            FractalDescriptor::NovaNewtonZ4(_) => Kernel::NovaNewton(Degree::Four),
        }
    }

    /// Where the kernel starts its iteration.
    pub fn start(&self) -> (s: Start)
        ensures
            s == self.start_spec(),
    {
        match self {
            Kernel::Mandelbrot => Start::Zero,
            Kernel::NovaNewton(_) => Start::One,
            _ => Start::Pixel,
        }
    }

    /// The squared escape radius, for the kernels that have one.
    pub fn threshold(&self) -> (t: Option<u64>)
        ensures
            t == self.threshold_spec(),
    {
        match self {
            Kernel::Julia(d) => Some(d.divergence_threshold_square),
            Kernel::Mandelbrot => Some(MANDELBROT_THRESHOLD),
            Kernel::IteratedSinZ(_) => Some(SIN_Z_THRESHOLD),
            _ => None,
        }
    }

    /// The convergence distance, for the kernels that have one.
    pub fn epsilon(&self) -> (e: Option<u64>)
        ensures
            e == self.epsilon_spec(),
    {
        match self {
            Kernel::Newton(_) => Some(NEWTON_EPSILON),
            Kernel::NovaNewton(_) => Some(NEWTON_EPSILON),
            _ => None,
        }
    }

    /// The name under which the family's picture is kept.
    pub fn image_name(&self) -> (name: &'static str)
        ensures
            name@ == self.image_name_spec(),
    {
        match self {
            Kernel::Julia(_) => "julia",
            Kernel::Mandelbrot => "mandelbrot",
            Kernel::IteratedSinZ(_) => "iterated_sin_z_fractal",
            Kernel::Newton(Degree::Three) => "newton_fractal_z3",
            Kernel::Newton(Degree::Four) => "newton_fractal_z4",
            Kernel::NovaNewton(Degree::Three) => "nova_newton_fractal_z3",
            Kernel::NovaNewton(Degree::Four) => "nova_newton_fractal_z4",
        }
    }
}

/// A Nova-Newton kernel starts at one whatever the pixel, and no other
/// kernel does.
pub proof fn lemma_nova_starts_at_one(descriptor: FractalDescriptor)
    ensures
        Kernel::of_spec(descriptor).start_spec() == Start::One <==> (descriptor
            is NovaNewtonZ3 || descriptor is NovaNewtonZ4),
{
}

/// A picture to compute on this machine: the fragment, the kernel that was
/// chosen for its fractal, and the iteration budget.
#[derive(Debug, Clone, Copy, PartialEq, Eq, Structural)]
pub struct RenderJob {
    pub resolution: Resolution,
    pub range: Range,
    pub kernel: Kernel,
    pub max_iterations: i32,
}

/// The range from `(min_x, min_y)` to `(max_x, max_y)`, from bit patterns.
pub open spec fn range_of(min_x: u64, min_y: u64, max_x: u64, max_y: u64) -> Range {
    Range { min: Point { x: min_x, y: min_y }, max: Point { x: max_x, y: max_y } }
}

/// The range from `(-4, -3)` to `(4, 3)`.
pub open spec fn wide_range() -> Range {
    range_of(
        0xc010_0000_0000_0000,
        0xc008_0000_0000_0000,
        0x4010_0000_0000_0000,
        0x4008_0000_0000_0000,
    )
}

/// The range from `(-2, -1.25)` to `(1, 1.25)`.
pub open spec fn mandelbrot_range() -> Range {
    range_of(
        0xc000_0000_0000_0000,
        0xbff4_0000_0000_0000,
        0x3ff0_0000_0000_0000,
        0x3ff4_0000_0000_0000,
    )
}

/// The range from `(-2, -1.5)` to `(2, 1.5)`.
pub open spec fn nova_z3_range() -> Range {
    range_of(
        0xc000_0000_0000_0000,
        0xbff8_0000_0000_0000,
        0x4000_0000_0000_0000,
        0x3ff8_0000_0000_0000,
    )
}

/// The range from `(-2.5, -1.5)` to `(2, 1.5)`.
pub open spec fn nova_z4_range() -> Range {
    range_of(
        0xc004_0000_0000_0000,
        0xbff8_0000_0000_0000,
        0x4000_0000_0000_0000,
        0x3ff8_0000_0000_0000,
    )
}

/// The Julia set of `c = -0.9 + 0.27015i` with squared escape radius four.
pub open spec fn julia_preset() -> FractalDescriptor {
    FractalDescriptor::Julia(
        JuliaDescriptor {
            c: Complex { re: 0xbfec_cccc_cccc_cccd, im: 0x3fd1_4a23_39c0_ebee },
            divergence_threshold_square: 0x4010_0000_0000_0000,
        },
    )
}

/// The iterated sine with `c = 0.2 + i`.
pub open spec fn sin_z_preset() -> FractalDescriptor {
    FractalDescriptor::IteratedSinZ(
        IteratedSinZDescriptor {
            c: Complex { re: 0x3fc9_9999_9999_999a, im: 0x3ff0_0000_0000_0000 },
        },
    )
}

/// What [`generate_fractal_locally`] returns.
pub open spec fn render_job(
    resolution: Resolution,
    range: Range,
    descriptor: FractalDescriptor,
    max_iterations: i32,
) -> RenderJob {
    RenderJob { resolution, range, kernel: Kernel::of_spec(descriptor), max_iterations }
}

/// The seven pictures, in the order in which they are drawn.
pub open spec fn all_jobs(resolution: Resolution, max_iterations: i32) -> Seq<RenderJob> {
    seq![
        render_job(resolution, wide_range(), julia_preset(), max_iterations),
        render_job(resolution, wide_range(), sin_z_preset(), max_iterations),
        render_job(
            resolution,
            mandelbrot_range(),
            FractalDescriptor::Mandelbrot(MandelbrotDescriptor {  }),
            max_iterations,
        ),
        render_job(
            resolution,
            wide_range(),
            FractalDescriptor::NewtonRaphsonZ3(NewtonRaphsonZ3Descriptor {  }),
            max_iterations,
        ),
        render_job(
            resolution,
            wide_range(),
            FractalDescriptor::NewtonRaphsonZ4(NewtonRaphsonZ4Descriptor {  }),
            max_iterations,
        ),
        render_job(
            resolution,
            nova_z3_range(),
            FractalDescriptor::NovaNewtonZ3(NovaNewtonRaphsonZ3Descriptor {  }),
            max_iterations,
        ),
        render_job(
            resolution,
            nova_z4_range(),
            FractalDescriptor::NovaNewtonZ4(NovaNewtonRaphsonZ4Descriptor {  }),
            max_iterations,
        ),
    ]
}

/// The ranges of the seven pictures are well formed, and so are the
/// parameters of their fractals.
pub proof fn lemma_presets_wf()
    ensures
        wide_range().wf(),
        mandelbrot_range().wf(),
        nova_z3_range().wf(),
        nova_z4_range().wf(),
        julia_preset().wf(),
        sin_z_preset().wf(),
{
}

/// Makes the range from `(min_x, min_y)` to `(max_x, max_y)`.
fn make_range(min_x: u64, min_y: u64, max_x: u64, max_y: u64) -> (r: Range)
    ensures
        r == range_of(min_x, min_y, max_x, max_y),
{
    Range { min: Point { x: min_x, y: min_y }, max: Point { x: max_x, y: max_y } }
}

/// Prepares the picture of one fractal over one range: chooses the kernel
/// that the descriptor asks for.
pub fn generate_fractal_locally(
    resolution: &Resolution,
    range: &Range,
    fractal_descriptor: FractalDescriptor,
    max_iterations: i32,
) -> (job: RenderJob)
    ensures
        job == render_job(*resolution, *range, fractal_descriptor, max_iterations),
{
    RenderJob {
        resolution: *resolution,
        range: *range,
        kernel: Kernel::of(&fractal_descriptor),
        max_iterations,
    }
}

/// Prepares the picture of the Julia set of `c = -0.9 + 0.27015i` over the
/// range from `(-4, -3)` to `(4, 3)`.
pub fn generate_julia_fractal_with_defined_range_and_descriptor(
    resolution: &Resolution,
    max_iterations: i32,
) -> (job: RenderJob)
    ensures
        job == render_job(*resolution, wide_range(), julia_preset(), max_iterations),
{
    let range = make_range(
        0xc010_0000_0000_0000,
        0xc008_0000_0000_0000,
        0x4010_0000_0000_0000,
        0x4008_0000_0000_0000,
    );
    let descriptor = JuliaDescriptor {
        c: Complex { re: 0xbfec_cccc_cccc_cccd, im: 0x3fd1_4a23_39c0_ebee },
        divergence_threshold_square: 0x4010_0000_0000_0000,
    };
    generate_fractal_locally(
        resolution,
        &range,
        FractalDescriptor::Julia(descriptor),
        max_iterations,
    )
}

/// Prepares the picture of the Mandelbrot set over the range from
/// `(-2, -1.25)` to `(1, 1.25)`.
pub fn generate_mandelbrot_fractal_with_defined_range(
    resolution: &Resolution,
    max_iterations: i32,
) -> (job: RenderJob)
    ensures
        job == render_job(
            *resolution,
            mandelbrot_range(),
            FractalDescriptor::Mandelbrot(MandelbrotDescriptor {  }),
            max_iterations,
        ),
{
    let range = make_range(
        0xc000_0000_0000_0000,
        0xbff4_0000_0000_0000,
        0x3ff0_0000_0000_0000,
        0x3ff4_0000_0000_0000,
    );
    generate_fractal_locally(
        resolution,
        &range,
        FractalDescriptor::Mandelbrot(MandelbrotDescriptor {  }),
        max_iterations,
    )
}

/// Prepares the picture of the iterated sine with `c = 0.2 + i` over the
/// range from `(-4, -3)` to `(4, 3)`.
pub fn generate_iterated_sin_z_fractal_with_defined_range_and_descriptor(
    resolution: &Resolution,
    max_iterations: i32,
) -> (job: RenderJob)
    ensures
        job == render_job(*resolution, wide_range(), sin_z_preset(), max_iterations),
{
    let range = make_range(
        0xc010_0000_0000_0000,
        0xc008_0000_0000_0000,
        0x4010_0000_0000_0000,
        0x4008_0000_0000_0000,
    );
    let descriptor = IteratedSinZDescriptor {
        c: Complex { re: 0x3fc9_9999_9999_999a, im: 0x3ff0_0000_0000_0000 },
    };
    generate_fractal_locally(
        resolution,
        &range,
        FractalDescriptor::IteratedSinZ(descriptor),
        max_iterations,
    )
}

/// Prepares the picture of Newton's method on `z^3 - 1` over the range from
/// `(-4, -3)` to `(4, 3)`.
pub fn generate_newton_z3_fractal_with_defined_range(
    resolution: &Resolution,
    max_iterations: i32,
) -> (job: RenderJob)
    ensures
        job == render_job(
            *resolution,
            wide_range(),
            FractalDescriptor::NewtonRaphsonZ3(NewtonRaphsonZ3Descriptor {  }),
            max_iterations,
        ),
{
    let range = make_range(
        0xc010_0000_0000_0000,
        0xc008_0000_0000_0000,
        0x4010_0000_0000_0000,
        0x4008_0000_0000_0000,
    );
    generate_fractal_locally(
        resolution,
        &range,
        FractalDescriptor::NewtonRaphsonZ3(NewtonRaphsonZ3Descriptor {  }),
        max_iterations,
    )
}

/// Prepares the picture of Newton's method on `z^4 - 1` over the range from
/// `(-4, -3)` to `(4, 3)`.
pub fn generate_newton_z4_fractal_with_defined_range(
    resolution: &Resolution,
    max_iterations: i32,
) -> (job: RenderJob)
    ensures
        job == render_job(
            *resolution,
            wide_range(),
            FractalDescriptor::NewtonRaphsonZ4(NewtonRaphsonZ4Descriptor {  }),
            max_iterations,
        ),
{
    let range = make_range(
        0xc010_0000_0000_0000,
        0xc008_0000_0000_0000,
        0x4010_0000_0000_0000,
        0x4008_0000_0000_0000,
    );
    generate_fractal_locally(
        resolution,
        &range,
        FractalDescriptor::NewtonRaphsonZ4(NewtonRaphsonZ4Descriptor {  }),
        max_iterations,
    )
}

/// Prepares the picture of the shifted Newton's method on `z^3 - 1` over
/// the range from `(-2, -1.5)` to `(2, 1.5)`.
pub fn generate_nova_newton_z3_fractal_with_defined_range(
    resolution: &Resolution,
    max_iterations: i32,
) -> (job: RenderJob)
    ensures
        job == render_job(
            *resolution,
            nova_z3_range(),
            FractalDescriptor::NovaNewtonZ3(NovaNewtonRaphsonZ3Descriptor {  }),
            max_iterations,
        ),
{
    let range = make_range(
        0xc000_0000_0000_0000,
        0xbff8_0000_0000_0000,
        0x4000_0000_0000_0000,
        0x3ff8_0000_0000_0000,
    );
    generate_fractal_locally(
        resolution,
        &range,
        FractalDescriptor::NovaNewtonZ3(NovaNewtonRaphsonZ3Descriptor {  }),
        max_iterations,
    )
}

/// Prepares the picture of the shifted Newton's method on `z^4 - 1` over
/// the range from `(-2.5, -1.5)` to `(2, 1.5)`.
pub fn generate_nova_newton_z4_fractal_with_defined_range(
    resolution: &Resolution,
    max_iterations: i32,
) -> (job: RenderJob)
    ensures
        job == render_job(
            *resolution,
            nova_z4_range(),
            FractalDescriptor::NovaNewtonZ4(NovaNewtonRaphsonZ4Descriptor {  }),
            max_iterations,
        ),
{
    let range = make_range(
        0xc004_0000_0000_0000,
        0xbff8_0000_0000_0000,
        0x4000_0000_0000_0000,
        0x3ff8_0000_0000_0000,
    );
    generate_fractal_locally(
        resolution,
        &range,
        FractalDescriptor::NovaNewtonZ4(NovaNewtonRaphsonZ4Descriptor {  }),
        max_iterations,
    )
}

/// Prepares the seven pictures, one per family, in the order Julia, iterated
/// sine, Mandelbrot, Newton on `z^3 - 1` and on `z^4 - 1`, shifted Newton on
/// `z^3 - 1` and on `z^4 - 1`.
pub fn generate_all_fractal_models_locally(resolution: &Resolution, max_iterations: i32) -> (jobs:
    Vec<RenderJob>)
    ensures
        jobs@ == all_jobs(*resolution, max_iterations),
{
    let mut jobs: Vec<RenderJob> = Vec::new();
    jobs.push(generate_julia_fractal_with_defined_range_and_descriptor(resolution, max_iterations));
    jobs.push(
        generate_iterated_sin_z_fractal_with_defined_range_and_descriptor(
            resolution,
            max_iterations,
        ),
    );
    jobs.push(generate_mandelbrot_fractal_with_defined_range(resolution, max_iterations));
    jobs.push(generate_newton_z3_fractal_with_defined_range(resolution, max_iterations));
    jobs.push(generate_newton_z4_fractal_with_defined_range(resolution, max_iterations));
    jobs.push(generate_nova_newton_z3_fractal_with_defined_range(resolution, max_iterations));
    jobs.push(generate_nova_newton_z4_fractal_with_defined_range(resolution, max_iterations));
    assert(jobs@ =~= all_jobs(*resolution, max_iterations));
    jobs
}

} // verus!
