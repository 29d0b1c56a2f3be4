//! Signal conditioning for surface electromyography: a chain of three filter
//! stages (power-line notch, low-pass, high-pass) for one channel, with the
//! coefficients of every supported configuration.
//!
//! Coefficients are kept as integers in ten-thousandths, so that every table
//! entry is exact. The chain is generic in the sample type: it holds what
//! each stage remembers and decides which stages run, in which order, on
//! which coefficients and on which memory. The arithmetic of a section is
//! supplied by the caller as a kernel over its own sample type.

pub mod behaviour;
pub mod chain;
pub mod coefficients;
pub mod frequency;
pub mod section;

pub use chain::EMGFilters;
pub use frequency::NotchFrequency;
pub use frequency::SampleFrequency;
pub use section::Filter2nd;
pub use section::Filter4th;
pub use section::FilterType;
