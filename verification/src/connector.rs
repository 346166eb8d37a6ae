//! Shape outlines, ports, and the curve of a connector between two shapes,
//! with the sampled hit test that selects a connector.

use crate::config::Config;
use crate::geometry::{bezier_point, cubic_bezier_point, within, within_radius, Point, Rect};
use vstd::prelude::*;

verus! {

/// Which of a shape's two ports.
#[derive(Clone, Copy, Debug, PartialEq, Eq, Structural)]
pub enum PortKind {
    /// On the bottom edge; connectors leave here.
    Outgoing,
    /// On the top edge; connectors arrive here.
    Incoming,
}

/// The four points that define a connector's cubic curve.
#[derive(Clone, Copy, Debug, PartialEq, Eq, Structural)]
pub struct Curve {
    /// First anchor: the outgoing port of the source shape.
    pub p0: Point,
    /// Control point of the first anchor.
    pub p1: Point,
    /// Control point of the last anchor.
    pub p2: Point,
    /// Last anchor: the incoming port of the target shape.
    pub p3: Point,
}

/// The outline of a shape centered at `center`.
pub open spec fn rect_of(center: Point, config: Config) -> Rect {
    Rect {
        left: (center.x - config.shape_width / 2) as i64,
        top: (center.y - config.shape_height / 2) as i64,
        width: config.shape_width,
        height: config.shape_height,
    }
}

/// The position of a port of a shape centered at `center`.
pub open spec fn port_of(center: Point, kind: PortKind, config: Config) -> Point {
    Point {
        x: (center.x - config.shape_width / 2 + config.port_offset) as i64,
        y: match kind {
            PortKind::Outgoing => (center.y + config.shape_height / 2) as i64,
            PortKind::Incoming => (center.y - config.shape_height / 2) as i64,
        },
    }
}

/// The curve between two anchors: each control point is level with its
/// anchor and `offset` away from it, the first one toward the side on which
/// the last anchor lies and the second one the opposite way.
pub open spec fn curve_between(a0: Point, a3: Point, offset: u32) -> Curve {
    let push: int = if a3.x > a0.x { offset as int } else { -(offset as int) };
    Curve {
        p0: a0,
        p1: Point { x: (a0.x + push) as i64, y: a0.y },
        p2: Point { x: (a3.x - push) as i64, y: a3.y },
        p3: a3,
    }
}

/// The curve of a connector from the shape centered at `from` to the one
/// centered at `to`.
pub open spec fn curve_of(from: Point, to: Point, config: Config) -> Curve {
    curve_between(
        port_of(from, PortKind::Outgoing, config),
        port_of(to, PortKind::Incoming, config),
        config.curve_offset,
    )
}

/// The denominator of the curve parameter when `samples` points are spread
/// evenly from one anchor to the other.
pub open spec fn sample_steps(samples: u16) -> int {
    if samples <= 1 {
        1
    } else {
        samples - 1
    }
}

/// The `j`-th of `samples` evenly spaced points of the curve.
pub open spec fn sample_of(curve: Curve, j: int, samples: u16) -> Point {
    bezier_point(curve.p0, curve.p1, curve.p2, curve.p3, j, sample_steps(samples))
}

/// Some sampled point of the curve lies within `radius` of `p`.
pub open spec fn curve_near(curve: Curve, p: Point, samples: u16, radius: u32) -> bool {
    exists|j: int| 0 <= j < samples && #[trigger] within(p, sample_of(curve, j, samples), radius)
}

/// The outline of a shape centered at `center`.
pub fn shape_rect(center: Point, config: &Config) -> (r: Rect)
    requires
        center.on_canvas(),
    ensures
        r == rect_of(center, *config),
        r.left == center.x - config.shape_width / 2,
        r.top == center.y - config.shape_height / 2,
{
    Rect {
        left: center.x - (config.shape_width / 2) as i64,
        top: center.y - (config.shape_height / 2) as i64,
        width: config.shape_width,
        height: config.shape_height,
    }
}

/// The position of a port of a shape centered at `center`.
pub fn port_point(center: Point, kind: PortKind, config: &Config) -> (p: Point)
    requires
        center.on_canvas(),
    ensures
        p == port_of(center, kind, *config),
        p.x == center.x - config.shape_width / 2 + config.port_offset,
        kind == PortKind::Outgoing ==> p.y == center.y + config.shape_height / 2,
        kind == PortKind::Incoming ==> p.y == center.y - config.shape_height / 2,
{
    let half_height: i64 = (config.shape_height / 2) as i64;
    let x: i64 = center.x - (config.shape_width / 2) as i64 + config.port_offset as i64;
    let y: i64 = match kind {
        PortKind::Outgoing => center.y + half_height,
        PortKind::Incoming => center.y - half_height,
    };
    Point { x, y }
}

/// The curve of a connector from the shape centered at `from` to the one
/// centered at `to`.
pub fn connector_curve(from: Point, to: Point, config: &Config) -> (c: Curve)
    requires
        from.on_canvas(),
        to.on_canvas(),
    ensures
        c == curve_of(from, to, *config),
{
    let a0 = port_point(from, PortKind::Outgoing, config);
    let a3 = port_point(to, PortKind::Incoming, config);
    let offset: i64 = config.curve_offset as i64;
    if a3.x > a0.x {
        Curve {
            p0: a0,
            p1: Point { x: a0.x + offset, y: a0.y },
            p2: Point { x: a3.x - offset, y: a3.y },
            p3: a3,
        }
    } else {
        Curve {
            p0: a0,
            p1: Point { x: a0.x - offset, y: a0.y },
            p2: Point { x: a3.x + offset, y: a3.y },
            p3: a3,
        }
    }
}

/// The `j`-th of `samples` evenly spaced points of the curve.
pub fn curve_sample(curve: &Curve, j: u16, samples: u16) -> (p: Point)
    requires
        j < samples,
    ensures
        p == sample_of(*curve, j as int, samples),
{
    let steps: u16 = if samples <= 1 { 1 } else { samples - 1 };
    cubic_bezier_point(curve.p0, curve.p1, curve.p2, curve.p3, j, steps)
}

/// Whether a press at `p` lands on the curve: whether one of `samples`
/// evenly spaced curve points lies within `radius` of `p`.
pub fn curve_hit(curve: &Curve, p: Point, samples: u16, radius: u32) -> (hit: bool)
    ensures
        hit == curve_near(*curve, p, samples, radius),
{
    let mut j: u16 = 0;
    while j < samples
        invariant
            j <= samples,
            forall|k: int| 0 <= k < j ==> !#[trigger] within(p, sample_of(*curve, k, samples), radius),
        decreases samples - j,
    {
        let s = curve_sample(curve, j, samples);
        if within_radius(p, s, radius) {
            return true;
        }
        j = j + 1;
    }
    false
}

} // verus!
