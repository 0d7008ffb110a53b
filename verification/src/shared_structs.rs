//! The values that tasks and results are made of.
//!
//! Real numbers are held as IEEE-754 bit patterns: coordinates and fractal
//! parameters as binary64, intensities as binary32.

use crate::error::ProtocolError;
use crate::ieee::{
    double_is_finite, double_is_positive, double_less, in_unit_interval_single, is_finite_double,
    is_finite_single, is_non_negative_single, is_positive_double, less_double,
    single_in_unit_interval, single_is_finite, single_is_non_negative, SINGLE_ONE, SINGLE_ZERO,
};
use crate::json::{
    field, field_double, field_double_spec, field_spec, field_u16, field_u16_spec, field_u32,
    field_u32_spec, json_member, member,
};
use vstd::prelude::*;

verus! {

/// A point of the plane. Both coordinates are binary64 bit patterns.
#[derive(Debug, Clone, Copy, PartialEq, Eq, Structural)]
pub struct Point {
    pub x: u64,
    pub y: u64,
}

impl Point {
    /// Both coordinates are finite.
    pub open spec fn is_finite(self) -> bool {
        double_is_finite(self.x) && double_is_finite(self.y)
    }

    /// What [`Point::from_value`] makes of a document.
    pub open spec fn from_value_spec(v: serde_json::Value) -> Result<Point, ProtocolError> {
        match field_double_spec(v, "x"@) {
            Err(e) => Err(e),
            Ok(x) => match field_double_spec(v, "y"@) {
                Err(e) => Err(e),
                Ok(y) => Ok(Point { x, y }),
            },
        }
    }

    /// Reads a point from an object with the numbers `x` and `y`.
    pub fn from_value(v: &serde_json::Value) -> (r: Result<Point, ProtocolError>)
        ensures
            r == Self::from_value_spec(*v),
    {
        let x = field_double(v, "x")?;
        let y = field_double(v, "y")?;
        Ok(Point { x, y })
    }
}

/// A rectangle of the plane, from its lower corner to its upper corner.
#[derive(Debug, Clone, Copy, PartialEq, Eq, Structural)]
pub struct Range {
    pub min: Point,
    pub max: Point,
}

impl Range {
    /// The corners are finite and the lower corner is strictly below the
    /// upper one on both axes.
    pub open spec fn wf(self) -> bool {
        double_less(self.min.x, self.max.x) && double_less(self.min.y, self.max.y)
    }

    /// A well-formed range has finite corners.
    pub proof fn lemma_wf_finite(self)
        requires
            self.wf(),
        ensures
            self.min.is_finite(),
            self.max.is_finite(),
    {
    }

    /// Tells whether the range is well formed.
    pub fn is_valid(&self) -> (r: bool)
        ensures
            r == self.wf(),
    {
        less_double(self.min.x, self.max.x) && less_double(self.min.y, self.max.y)
    }

    /// What [`Range::from_value`] makes of a document.
    pub open spec fn from_value_spec(v: serde_json::Value) -> Result<Range, ProtocolError> {
        match field_spec(v, "min"@) {
            Err(e) => Err(e),
            Ok(lower) => match Point::from_value_spec(lower) {
                Err(e) => Err(e),
                Ok(min) => match field_spec(v, "max"@) {
                    Err(e) => Err(e),
                    Ok(upper) => match Point::from_value_spec(upper) {
                        Err(e) => Err(e),
                        Ok(max) => Ok(Range { min, max }),
                    },
                },
            },
        }
    }

    /// Reads a range from an object with the points `min` and `max`.
    pub fn from_value(v: &serde_json::Value) -> (r: Result<Range, ProtocolError>)
        ensures
            r == Self::from_value_spec(*v),
    {
        let min = Point::from_value(field(v, "min")?)?;
        let max = Point::from_value(field(v, "max")?)?;
        Ok(Range { min, max })
    }
}

/// The size of a fragment in pixels: `nx` columns and `ny` rows.
#[derive(Debug, Clone, Copy, PartialEq, Eq, Structural)]
pub struct Resolution {
    pub nx: u16,
    pub ny: u16,
}

impl Resolution {
    /// There is at least one column and one row.
    pub open spec fn wf(self) -> bool {
        self.nx >= 1 && self.ny >= 1
    }

    /// The number of pixels of the fragment.
    pub open spec fn pixels(self) -> nat {
        (self.nx as nat) * (self.ny as nat)
    }

    /// Tells whether the resolution is well formed.
    pub fn is_valid(&self) -> (r: bool)
        ensures
            r == self.wf(),
    {
        self.nx >= 1 && self.ny >= 1
    }

    /// The number of pixels of the fragment: columns times rows.
    pub fn pixel_count(&self) -> (n: u32)
        ensures
            n == self.pixels(),
    {
        let nx: u32 = self.nx as u32;
        let ny: u32 = self.ny as u32;
        assert(nx * ny <= 0xffff * 0xffff) by (nonlinear_arith)
            requires
                nx <= 0xffff,
                ny <= 0xffff,
        ;
        nx * ny
    }

    /// What [`Resolution::from_value`] makes of a document.
    pub open spec fn from_value_spec(v: serde_json::Value) -> Result<Resolution, ProtocolError> {
        match field_u16_spec(v, "nx"@) {
            Err(e) => Err(e),
            Ok(nx) => match field_u16_spec(v, "ny"@) {
                Err(e) => Err(e),
                Ok(ny) => Ok(Resolution { nx, ny }),
            },
        }
    }

    /// Reads a resolution from an object with the integers `nx` and `ny`.
    pub fn from_value(v: &serde_json::Value) -> (r: Result<Resolution, ProtocolError>)
        ensures
            r == Self::from_value_spec(*v),
    {
        let nx = field_u16(v, "nx")?;
        let ny = field_u16(v, "ny")?;
        Ok(Resolution { nx, ny })
    }
}

/// A run of `count` bytes that starts `offset` bytes into a binary section.
#[derive(Debug, Clone, Copy, PartialEq, Eq, Structural)]
pub struct U8Data {
    pub offset: u32,
    pub count: u32,
}

impl U8Data {
    /// What [`U8Data::from_value`] makes of a document.
    pub open spec fn from_value_spec(v: serde_json::Value) -> Result<U8Data, ProtocolError> {
        match field_u32_spec(v, "offset"@) {
            Err(e) => Err(e),
            Ok(offset) => match field_u32_spec(v, "count"@) {
                Err(e) => Err(e),
                Ok(count) => Ok(U8Data { offset, count }),
            },
        }
    }

    /// Reads a run of bytes from an object with the integers `offset` and
    /// `count`.
    pub fn from_value(v: &serde_json::Value) -> (r: Result<U8Data, ProtocolError>)
        ensures
            r == Self::from_value_spec(*v),
    {
        let offset = field_u32(v, "offset")?;
        let count = field_u32(v, "count")?;
        Ok(U8Data { offset, count })
    }
}

/// A run of `count` pixels that starts `offset` bytes into a binary section.
#[derive(Debug, Clone, Copy, PartialEq, Eq, Structural)]
pub struct PixelData {
    pub offset: u32,
    pub count: u32,
}

impl PixelData {
    /// What [`PixelData::from_value`] makes of a document.
    pub open spec fn from_value_spec(v: serde_json::Value) -> Result<PixelData, ProtocolError> {
        match field_u32_spec(v, "offset"@) {
            Err(e) => Err(e),
            Ok(offset) => match field_u32_spec(v, "count"@) {
                Err(e) => Err(e),
                Ok(count) => Ok(PixelData { offset, count }),
            },
        }
    }

    /// Reads a run of pixels from an object with the integers `offset` and
    /// `count`.
    pub fn from_value(v: &serde_json::Value) -> (r: Result<PixelData, ProtocolError>)
        ensures
            r == Self::from_value_spec(*v),
    {
        let offset = field_u32(v, "offset")?;
        let count = field_u32(v, "count")?;
        Ok(PixelData { offset, count })
    }
}

/// A complex number. Both parts are binary64 bit patterns.
#[derive(Debug, Clone, Copy, PartialEq, Eq, Structural)]
pub struct Complex {
    pub re: u64,
    pub im: u64,
}

impl Complex {
    /// Both parts are finite.
    pub open spec fn is_finite(self) -> bool {
        double_is_finite(self.re) && double_is_finite(self.im)
    }

    /// The complex number with the given parts.
    pub fn new(re: u64, im: u64) -> (c: Complex)
        ensures
            c == (Complex { re, im }),
    {
        Complex { re, im }
    }

    /// Tells whether both parts are finite.
    pub fn is_valid(&self) -> (r: bool)
        ensures
            r == self.is_finite(),
    {
        is_finite_double(self.re) && is_finite_double(self.im)
    }

    /// What [`Complex::from_value`] makes of a document.
    pub open spec fn from_value_spec(v: serde_json::Value) -> Result<Complex, ProtocolError> {
        match field_double_spec(v, "re"@) {
            Err(e) => Err(e),
            Ok(re) => match field_double_spec(v, "im"@) {
                Err(e) => Err(e),
                Ok(im) => Ok(Complex { re, im }),
            },
        }
    }

    /// Reads a complex number from an object with the numbers `re` and `im`.
    pub fn from_value(v: &serde_json::Value) -> (r: Result<Complex, ProtocolError>)
        ensures
            r == Self::from_value_spec(*v),
    {
        let re = field_double(v, "re")?;
        let im = field_double(v, "im")?;
        Ok(Complex { re, im })
    }
}

/// Parameters of the family `z <- z^2 + c`, iterated from the pixel.
#[derive(Debug, Clone, Copy, PartialEq, Eq, Structural)]
pub struct JuliaDescriptor {
    pub c: Complex,
    pub divergence_threshold_square: u64,
}

impl JuliaDescriptor {
    /// What [`JuliaDescriptor::from_value`] makes of a document.
    pub open spec fn from_value_spec(v: serde_json::Value) -> Result<
        JuliaDescriptor,
        ProtocolError,
    > {
        match field_spec(v, "c"@) {
            Err(e) => Err(e),
            Ok(param) => match Complex::from_value_spec(param) {
                Err(e) => Err(e),
                Ok(c) => match field_double_spec(v, "divergence_threshold_square"@) {
                    Err(e) => Err(e),
                    Ok(divergence_threshold_square) => Ok(
                        JuliaDescriptor { c, divergence_threshold_square },
                    ),
                },
            },
        }
    }

    /// Reads Julia parameters from an object with the complex number `c` and
    /// the number `divergence_threshold_square`.
    pub fn from_value(v: &serde_json::Value) -> (r: Result<JuliaDescriptor, ProtocolError>)
        ensures
            r == Self::from_value_spec(*v),
    {
        let c = Complex::from_value(field(v, "c")?)?;
        let divergence_threshold_square = field_double(v, "divergence_threshold_square")?;
        Ok(JuliaDescriptor { c, divergence_threshold_square })
    }
}

/// Parameters of the family `z <- sin(z) * c`, iterated from the pixel.
#[derive(Debug, Clone, Copy, PartialEq, Eq, Structural)]
pub struct IteratedSinZDescriptor {
    pub c: Complex,
}

impl IteratedSinZDescriptor {
    /// What [`IteratedSinZDescriptor::from_value`] makes of a document.
    pub open spec fn from_value_spec(v: serde_json::Value) -> Result<
        IteratedSinZDescriptor,
        ProtocolError,
    > {
        match field_spec(v, "c"@) {
            Err(e) => Err(e),
            Ok(param) => match Complex::from_value_spec(param) {
                Err(e) => Err(e),
                Ok(c) => Ok(IteratedSinZDescriptor { c }),
            },
        }
    }

    /// Reads the parameter from an object with the complex number `c`.
    pub fn from_value(v: &serde_json::Value) -> (r: Result<IteratedSinZDescriptor, ProtocolError>)
        ensures
            r == Self::from_value_spec(*v),
    {
        let c = Complex::from_value(field(v, "c")?)?;
        Ok(IteratedSinZDescriptor { c })
    }
}

/// The family `z <- z^2 + c` with `c` the pixel, iterated from zero.
#[derive(Debug, Clone, Copy, PartialEq, Eq, Structural)]
pub struct MandelbrotDescriptor {}

/// Newton's method on `z^3 - 1`.
#[derive(Debug, Clone, Copy, PartialEq, Eq, Structural)]
pub struct NewtonRaphsonZ3Descriptor {}

/// Newton's method on `z^4 - 1`.
#[derive(Debug, Clone, Copy, PartialEq, Eq, Structural)]
pub struct NewtonRaphsonZ4Descriptor {}

/// Newton's method on `z^3 - 1`, shifted by the pixel at every step.
#[derive(Debug, Clone, Copy, PartialEq, Eq, Structural)]
pub struct NovaNewtonRaphsonZ3Descriptor {}

/// Newton's method on `z^4 - 1`, shifted by the pixel at every step.
#[derive(Debug, Clone, Copy, PartialEq, Eq, Structural)]
pub struct NovaNewtonRaphsonZ4Descriptor {}

/// Which fractal family a task asks for, with the family's parameters.
#[derive(Debug, Clone, Copy, PartialEq, Eq, Structural)]
pub enum FractalDescriptor {
    Julia(JuliaDescriptor),
    IteratedSinZ(IteratedSinZDescriptor),
    Mandelbrot(MandelbrotDescriptor),
    NewtonRaphsonZ3(NewtonRaphsonZ3Descriptor),
    NewtonRaphsonZ4(NewtonRaphsonZ4Descriptor),
    NovaNewtonZ3(NovaNewtonRaphsonZ3Descriptor),
    NovaNewtonZ4(NovaNewtonRaphsonZ4Descriptor),
}

impl FractalDescriptor {
    /// The parameters are finite, and a Julia threshold is greater than zero.
    pub open spec fn wf(self) -> bool {
        match self {
            FractalDescriptor::Julia(d) => d.c.is_finite() && double_is_positive(
                d.divergence_threshold_square,
            ),
            FractalDescriptor::IteratedSinZ(d) => d.c.is_finite(),
            _ => true,
        }
    }

    /// Tells whether the descriptor is well formed.
    pub fn is_valid(&self) -> (r: bool)
        ensures
            r == self.wf(),
    {
        match self {
            FractalDescriptor::Julia(d) => d.c.is_valid() && is_positive_double(
                d.divergence_threshold_square,
            ),
            FractalDescriptor::IteratedSinZ(d) => d.c.is_valid(),
            _ => true,
        }
    }

    /// How many of the seven family names are members of `v`.
    pub open spec fn families_named(v: serde_json::Value) -> nat {
        named(v, "Julia"@) + named(v, "IteratedSinZ"@) + named(v, "Mandelbrot"@) + named(
            v,
            "NewtonRaphsonZ3"@,
        ) + named(v, "NewtonRaphsonZ4"@) + named(v, "NovaNewtonZ3"@) + named(v, "NovaNewtonZ4"@)
    }

    /// What [`FractalDescriptor::from_value`] makes of a document: the one
    /// family that the object names, with its parameters.
    pub open spec fn from_value_spec(v: serde_json::Value) -> Result<
        FractalDescriptor,
        ProtocolError,
    > {
        if Self::families_named(v) != 1 {
            Err(ProtocolError::UnknownDescriptor)
        } else if json_member(v, "Julia"@) is Some {
            match JuliaDescriptor::from_value_spec(json_member(v, "Julia"@)->Some_0) {
                Err(e) => Err(e),
                Ok(d) => Ok(FractalDescriptor::Julia(d)),
            }
        } else if json_member(v, "IteratedSinZ"@) is Some {
            match IteratedSinZDescriptor::from_value_spec(
                json_member(v, "IteratedSinZ"@)->Some_0,
            ) {
                Err(e) => Err(e),
                Ok(d) => Ok(FractalDescriptor::IteratedSinZ(d)),
            }
        } else if json_member(v, "Mandelbrot"@) is Some {
            Ok(FractalDescriptor::Mandelbrot(MandelbrotDescriptor {  }))
        } else if json_member(v, "NewtonRaphsonZ3"@) is Some {
            Ok(FractalDescriptor::NewtonRaphsonZ3(NewtonRaphsonZ3Descriptor {  }))
        } else if json_member(v, "NewtonRaphsonZ4"@) is Some {
            Ok(FractalDescriptor::NewtonRaphsonZ4(NewtonRaphsonZ4Descriptor {  }))
        } else if json_member(v, "NovaNewtonZ3"@) is Some {
            Ok(FractalDescriptor::NovaNewtonZ3(NovaNewtonRaphsonZ3Descriptor {  }))
        } else {
            Ok(FractalDescriptor::NovaNewtonZ4(NovaNewtonRaphsonZ4Descriptor {  }))
        }
    }

    /// Reads a descriptor from an object whose single family member names
    /// the family: `{"Julia":{..}}`, `{"Mandelbrot":{}}` and so on. An object
    /// that names no family, or more than one, is refused.
    pub fn from_value(v: &serde_json::Value) -> (r: Result<FractalDescriptor, ProtocolError>)
        ensures
            r == Self::from_value_spec(*v),
    {
        let julia = member(v, "Julia");
        let sin_z = member(v, "IteratedSinZ");
        let mandelbrot = member(v, "Mandelbrot");
        let newton_z3 = member(v, "NewtonRaphsonZ3");
        let newton_z4 = member(v, "NewtonRaphsonZ4");
        let nova_z3 = member(v, "NovaNewtonZ3");
        let nova_z4 = member(v, "NovaNewtonZ4");
        let count: u8 = present(&julia) + present(&sin_z) + present(&mandelbrot) + present(
            &newton_z3,
        ) + present(&newton_z4) + present(&nova_z3) + present(&nova_z4);
        if count != 1 {
            return Err(ProtocolError::UnknownDescriptor);
        }
        if let Some(body) = julia {
            Ok(FractalDescriptor::Julia(JuliaDescriptor::from_value(body)?))
        } else if let Some(body) = sin_z {
            Ok(FractalDescriptor::IteratedSinZ(IteratedSinZDescriptor::from_value(body)?))
        } else if mandelbrot.is_some() {
            Ok(FractalDescriptor::Mandelbrot(MandelbrotDescriptor {  }))
        } else if newton_z3.is_some() {
            Ok(FractalDescriptor::NewtonRaphsonZ3(NewtonRaphsonZ3Descriptor {  }))
        } else if newton_z4.is_some() {
            Ok(FractalDescriptor::NewtonRaphsonZ4(NewtonRaphsonZ4Descriptor {  }))
        } else if nova_z3.is_some() {
            Ok(FractalDescriptor::NovaNewtonZ3(NovaNewtonRaphsonZ3Descriptor {  }))
        } else {
            Ok(FractalDescriptor::NovaNewtonZ4(NovaNewtonRaphsonZ4Descriptor {  }))
        }
    }
}

/// One where `v` has a member under `key`, zero where it has none.
pub open spec fn named(v: serde_json::Value, key: Seq<char>) -> nat {
    if json_member(v, key) is Some {
        1
    } else {
        0
    }
}

/// One where a member was found, zero where none was.
fn present(found: &Option<&serde_json::Value>) -> (n: u8)
    ensures
        n == if found is Some {
            1nat
        } else {
            0nat
        },
{
    if found.is_some() {
        1
    } else {
        0
    }
}

/// What a kernel reports for one pixel. Both fields are binary32 bit
/// patterns: `zn` measures the last iterate, `count` is the share of the
/// iteration budget that was used.
#[derive(Debug, Clone, Copy, PartialEq, Eq, Structural)]
pub struct PixelIntensity {
    pub zn: u32,
    pub count: u32,
}

impl PixelIntensity {
    /// Both fields are finite.
    pub open spec fn is_finite(self) -> bool {
        single_is_finite(self.zn) && single_is_finite(self.count)
    }

    /// Both fields are finite, `zn` is zero or more, and `count` lies between
    /// zero and one.
    pub open spec fn wf(self) -> bool {
        single_is_non_negative(self.zn) && single_in_unit_interval(self.count)
    }

    /// The pixel that stands for a degenerate computation: `zn` zero and
    /// `count` one.
    pub open spec fn degenerate() -> PixelIntensity {
        PixelIntensity { zn: SINGLE_ZERO, count: SINGLE_ONE }
    }

    /// The pixel itself where it is finite, the degenerate pixel otherwise.
    pub open spec fn clamped(self) -> PixelIntensity {
        if self.is_finite() {
            self
        } else {
            Self::degenerate()
        }
    }

    /// The pixel with the given fields.
    pub fn new(zn: u32, count: u32) -> (p: PixelIntensity)
        ensures
            p == (PixelIntensity { zn, count }),
    {
        PixelIntensity { zn, count }
    }

    /// Tells whether both fields are finite.
    pub fn has_finite_fields(&self) -> (r: bool)
        ensures
            r == self.is_finite(),
    {
        is_finite_single(self.zn) && is_finite_single(self.count)
    }

    /// Tells whether the pixel is well formed.
    pub fn is_valid(&self) -> (r: bool)
        ensures
            r == self.wf(),
    {
        is_non_negative_single(self.zn) && in_unit_interval_single(self.count)
    }

    /// Replaces a pixel that holds an infinity or a NaN by the degenerate
    /// pixel, and leaves every other pixel as it is.
    pub fn clamp(self) -> (p: PixelIntensity)
        ensures
            p == self.clamped(),
            p.is_finite(),
    {
        if self.has_finite_fields() {
            self
        } else {
            PixelIntensity { zn: SINGLE_ZERO, count: SINGLE_ONE }
        }
    }
}

/// A well-formed pixel is finite, and the degenerate pixel is well formed.
pub proof fn lemma_pixel_wf()
    ensures
        PixelIntensity::degenerate().wf(),
        forall|p: PixelIntensity| #[trigger] p.wf() ==> p.is_finite(),
        forall|p: PixelIntensity| #[trigger] p.clamped().is_finite(),
{
}

} // verus!
