//! The size of the preview window, from the kind of content and what the
//! display reports.
//!
//! Sizes are exact fractions of a pixel, so that nothing is rounded before
//! the window is made.

use crate::text::text_equals;
use vstd::prelude::*;

verus! {

/// The pixel density at which nothing is scaled.
pub const BASE_DPI: i32 = 96;

/// What a display reports: its resolution in pixels, and its pixel density in
/// dots per inch. A display at 96 dots per inch has the scale factor 1.
#[derive(Clone, Copy, Debug, PartialEq, Eq, Structural)]
pub struct MonitorInfo {
    pub width: i32,
    pub height: i32,
    pub dpi: i32,
}

impl Default for MonitorInfo {
    /// What stands for a display of which nothing is known.
    fn default() -> (monitor: Self)
        ensures
            monitor == (MonitorInfo { width: 0, height: 0, dpi: 0 }),
    {
        MonitorInfo { width: 0, height: 0, dpi: 0 }
    }
}

/// A length in pixels, as the fraction `numerator / denominator`.
#[derive(Clone, Copy, Debug, PartialEq, Eq, Structural)]
pub struct Length {
    pub numerator: i64,
    pub denominator: i64,
}

/// The size of a window.
#[derive(Clone, Copy, Debug, PartialEq, Eq, Structural)]
pub struct WindowSize {
    pub width: Length,
    pub height: Length,
}

/// A whole number of pixels.
pub open spec fn pixels(n: int) -> Length {
    Length { numerator: n as i64, denominator: 1 }
}

/// Four fifths of `n` pixels.
pub open spec fn four_fifths(n: int) -> Length {
    Length { numerator: (4 * n) as i64, denominator: 5 }
}

/// `size` divided by the scale factor of a display of `dpi` dots per inch.
pub open spec fn scaled(size: Length, dpi: int) -> Length {
    Length {
        numerator: (size.numerator * BASE_DPI) as i64,
        denominator: (size.denominator * dpi) as i64,
    }
}

/// The size of the preview window before scaling. Where the display reports
/// no width, it is 1000 by 600; else audio gets 560 by 200 whatever the
/// display, and anything else four fifths of the display each way.
pub open spec fn unscaled_size_of(file_type: Seq<char>, monitor: MonitorInfo) -> WindowSize {
    if monitor.width <= 0 {
        WindowSize { width: pixels(1000), height: pixels(600) }
    } else if file_type == "Audio"@ {
        WindowSize { width: pixels(560), height: pixels(200) }
    } else {
        WindowSize {
            width: four_fifths(monitor.width as int),
            height: four_fifths(monitor.height as int),
        }
    }
}

/// The size of the preview window for a file of the kind named `file_type`
/// on the display `monitor`: the unscaled size, divided by the scale factor
/// where that is above 1.
pub open spec fn window_size_of(file_type: Seq<char>, monitor: MonitorInfo) -> WindowSize {
    let plain = unscaled_size_of(file_type, monitor);
    if monitor.dpi > BASE_DPI {
        WindowSize {
            width: scaled(plain.width, monitor.dpi as int),
            height: scaled(plain.height, monitor.dpi as int),
        }
    } else {
        plain
    }
}

/// `size` divided by the scale factor of a display of `dpi` dots per inch.
pub fn get_scaled_size(size: Length, dpi: i32) -> (result: Length)
    requires
        dpi > 0,
        -0x1_0000_0000_0000 <= size.numerator <= 0x1_0000_0000_0000,
        0 < size.denominator <= 0x1_0000_0000,
    ensures
        result == scaled(size, dpi as int),
        result.denominator > 0,
        result.numerator * size.denominator * dpi == size.numerator * BASE_DPI
            * result.denominator,
{
    assert(0 < size.denominator * dpi <= 0x1_0000_0000 * 0x7fff_ffff) by (nonlinear_arith)
        requires
            0 < size.denominator <= 0x1_0000_0000,
            0 < dpi <= 0x7fff_ffff,
    ;
    let numerator: i64 = size.numerator * 96;
    let denominator: i64 = size.denominator * (dpi as i64);
    assert(numerator * size.denominator * dpi == size.numerator * 96 * denominator)
        by (nonlinear_arith)
        requires
            numerator == size.numerator * 96,
            denominator == size.denominator * dpi,
    ;
    Length { numerator, denominator }
}

/// The size of the preview window for a file of the kind named `file_type`
/// on the display `monitor`.
pub fn calc_window_size(file_type: &str, monitor: &MonitorInfo) -> (size: WindowSize)
    ensures
        size == window_size_of(file_type@, *monitor),
        size.width.denominator > 0,
        size.height.denominator > 0,
{
    let mut width = Length { numerator: 1000, denominator: 1 };
    let mut height = Length { numerator: 600, denominator: 1 };
    if monitor.width > 0 {
        if text_equals(file_type, "Audio") {
            width = Length { numerator: 560, denominator: 1 };
            height = Length { numerator: 200, denominator: 1 };
        } else {
            width = Length { numerator: 4 * (monitor.width as i64), denominator: 5 };
            height = Length { numerator: 4 * (monitor.height as i64), denominator: 5 };
        }
    }
    if monitor.dpi > BASE_DPI {
        width = get_scaled_size(width, monitor.dpi);
        height = get_scaled_size(height, monitor.dpi);
    }
    WindowSize { width, height }
}

} // verus!
