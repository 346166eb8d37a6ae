//! The constants an editor is built with: shape size, port and connector
//! geometry, and the thresholds of gesture recognition. All lengths are in
//! the logical units of the coordinates.

use vstd::prelude::*;

verus! {

/// Read-only settings of one editor, supplied at construction.
#[derive(Clone, Copy, Debug, PartialEq, Eq, Structural)]
pub struct Config {
    /// Width of every shape.
    pub shape_width: u32,
    /// Height of every shape.
    pub shape_height: u32,
    /// Horizontal distance of both ports from a shape's left edge.
    pub port_offset: u32,
    /// A press within this distance of a port grabs the port.
    pub port_click_radius: u32,
    /// A pointer within this distance of a port makes the port grow.
    pub port_hover_distance: u32,
    /// Horizontal distance of a connector's control points from its anchors.
    pub curve_offset: u32,
    /// A press within this distance of a sampled curve point selects the
    /// connector.
    pub connector_hit_radius: u32,
    /// Number of evenly spaced curve points that a connector is tested at.
    pub connector_samples: u16,
    /// Longest time between the two presses of a double-click, in
    /// milliseconds.
    pub double_click_delay_ms: u64,
    /// Longest distance between the two presses of a double-click.
    pub double_click_distance: u32,
    /// Whether Backspace deletes the selection as Delete does.
    pub backspace_deletes: bool,
}

impl Config {
    /// The settings of the stock editor, one unit being one pixel.
    pub open spec fn standard() -> Config {
        Config {
            shape_width: 120,
            shape_height: 70,
            port_offset: 15,
            port_click_radius: 8,
            port_hover_distance: 15,
            curve_offset: 40,
            connector_hit_radius: 8,
            connector_samples: 11,
            double_click_delay_ms: 500,
            double_click_distance: 10,
            backspace_deletes: true,
        }
    }
}

impl Default for Config {
    fn default() -> (c: Config)
        ensures
            c == Config::standard(),
    {
        Config {
            shape_width: 120,
            shape_height: 70,
            port_offset: 15,
            port_click_radius: 8,
            port_hover_distance: 15,
            curve_offset: 40,
            connector_hit_radius: 8,
            connector_samples: 11,
            double_click_delay_ms: 500,
            double_click_distance: 10,
            backspace_deletes: true,
        }
    }
}

} // verus!
