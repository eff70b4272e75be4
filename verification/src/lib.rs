//! Color-distribution analysis of an image in a perceptual color space.
//!
//! A color space splits a color into three coordinates. One of them is
//! sliced: a parameter selects a value on it, and the user scrubs that value
//! up and down. For an image the crate computes the scrub histogram, which
//! counts all pixels along the sliced axis, and a bar chart over the other
//! two axes, which counts the pixels that lie away from the slice, as a mesh
//! of one column for each cell.
//!
//! Every quantity that a color space measures is held as a fixed-point
//! integer counting thousandths: of a degree on a hue axis, of a percent on a
//! saturation, value or lightness axis, and of the whole for a fraction.
//! All arithmetic on them is exact. Turning a pixel's color into its
//! coordinates is floating-point work and is left to the caller, who hands in
//! the converted image as a [`pixels::PixelGrid`].
//!
//! - [`quantize`]: bins of an axis.
//! - [`parameter`]: the slice parameter and its bounds.
//! - [`pixels`]: converted pixels and images.
//! - [`mesh`]: the columns of the bar chart.
//! - [`providers`]: the four color spaces and the histograms they share.
//! - [`controls`]: what the keys and the mouse do to the slice.
//! - [`scene`]: the row of bars that shows the scrub histogram.
//! - [`cli`]: the arguments of the program.

pub mod cli;
pub mod controls;
pub mod mesh;
pub mod parameter;
pub mod pixels;
pub mod providers;
pub mod quantize;
pub mod scene;
