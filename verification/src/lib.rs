//! The worker side of a distributed fractal renderer.
//!
//! A server cuts a picture into fragments and hands each to a worker; the
//! worker computes the fragment's pixels and hands them back. This library
//! holds what both sides must agree on: the envelope that frames every
//! message, the three kinds of message, the order of the pixels of a
//! fragment, and the steps of a worker's session. Real numbers are carried
//! as IEEE-754 bit patterns; the arithmetic on them is left to the caller.

pub mod client;
pub mod error;
pub mod fractal;
pub mod fragment_request;
pub mod fragment_result;
pub mod fragment_task;
pub mod frame;
pub mod generator;
pub mod ieee;
pub mod json;
pub mod local_fractal;
pub mod server;
pub mod shared_structs;
pub mod worker;

pub use client::Client;
pub use error::ProtocolError;
pub use fractal::{FractalJulia, FractalMandelbrot};
pub use fragment_request::{FragmentRequest, FragmentRequestBuilder, RequestError};
pub use fragment_result::{FragmentResult, FragmentResultBuilder, ResultError, ResultMessage};
pub use fragment_task::{FragmentTask, FragmentTaskId};
pub use frame::{decode_frame, encode_frame, Frame, FrameError, FrameHeader};
pub use generator::{generate, generate_pixels};
pub use local_fractal::{
    generate_all_fractal_models_locally, generate_fractal_locally,
    generate_iterated_sin_z_fractal_with_defined_range_and_descriptor,
    generate_julia_fractal_with_defined_range_and_descriptor,
    generate_mandelbrot_fractal_with_defined_range, generate_newton_z3_fractal_with_defined_range,
    generate_newton_z4_fractal_with_defined_range,
    generate_nova_newton_z3_fractal_with_defined_range,
    generate_nova_newton_z4_fractal_with_defined_range, Degree, Kernel, RenderJob, Start,
};
pub use server::Server;
pub use shared_structs::{
    Complex, FractalDescriptor, IteratedSinZDescriptor, JuliaDescriptor, MandelbrotDescriptor,
    NewtonRaphsonZ3Descriptor, NewtonRaphsonZ4Descriptor, NovaNewtonRaphsonZ3Descriptor,
    NovaNewtonRaphsonZ4Descriptor, PixelData, PixelIntensity, Point, Range, Resolution, U8Data,
};
pub use worker::{StopReason, Worker, WorkerAction, WorkerEvent, WorkerState};
