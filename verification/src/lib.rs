//! Spectral-residual anomaly detection for univariate time series: the sample
//! model, the window and padding layouts, and the staged detector that puts
//! them together.

pub mod sample;
pub mod layout;
pub mod convolver;
pub mod error;
pub mod extrapolator;
pub mod thresholder;
pub mod detector;
