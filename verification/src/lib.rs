//! Computation of CRT/flat-panel display timings after the VESA Coordinated
//! Video Timings (CVT) formula: from a requested resolution, refresh rate and
//! blanking strategy it derives the pixel clock, the horizontal and vertical
//! blanking geometry, the sync polarities and the scan frequencies, and can
//! render the result as an X-server modeline.
//!
//! All arithmetic is exact: the refresh rate is taken in millihertz, the
//! derived frequencies are stored in hundredths of a hertz, and the scan
//! periods as exact rationals, so every quantity of the formula is an
//! integer or a ratio of integers and every step is verified.

pub mod arith;
pub mod aspect;
pub mod laws;
pub mod model;
pub mod modeline;
pub mod timing;

pub use aspect::{classify, AspectRatio};
pub use model::BlankingMode;
pub use timing::{CvtError, CvtTimings, Ratio};
