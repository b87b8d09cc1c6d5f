//! Direct tests of the polygon accumulator: merging and resolving,
//! rejection, idempotence, bounds, emptiness and clearing.

use gerber_layer::layer::{Bounds, Layer, Rgba};
use gerber_layer::Vec2;

const UNIT: i64 = 1_000_000;

fn black() -> Rgba {
    Rgba { r: 0, g: 0, b: 0, a: 255 }
}

fn square(cx: i64, cy: i64, half: i64) -> Vec<Vec2> {
    vec![
        Vec2 { x: cx - half, y: cy - half },
        Vec2 { x: cx + half, y: cy - half },
        Vec2 { x: cx + half, y: cy + half },
        Vec2 { x: cx - half, y: cy + half },
    ]
}

fn rect(x0: i64, y0: i64, x1: i64, y1: i64) -> Vec<Vec2> {
    vec![
        Vec2 { x: x0, y: y0 },
        Vec2 { x: x1, y: y0 },
        Vec2 { x: x1, y: y1 },
        Vec2 { x: x0, y: y1 },
    ]
}

#[test]
fn fresh_layer_is_empty_with_zero_bounds() {
    let layer = Layer::new(black());
    assert!(layer.empty());
    assert!(layer.paths().is_empty());
    assert_eq!(layer.get_bounds(), Bounds { x: 0, y: 0, width: 0, height: 0 });
    let by_default = Layer::default();
    assert!(by_default.empty());
    assert_eq!(by_default.color(), black());
}

#[test]
fn union_is_idempotent_on_identical_geometry() {
    let mut layer = Layer::new(black());
    let shapes = vec![square(0, 0, UNIT), square(5 * UNIT, 0, UNIT)];
    assert!(layer.union(&shapes).is_ok());
    let after_once: Vec<Vec<Vec2>> = layer.primitives().clone();
    let resolved_once = layer.paths().len();
    assert!(layer.union(&shapes).is_ok());
    assert_eq!(layer.primitives(), &after_once);
    assert_eq!(layer.primitives().len(), 2);
    // unioning the same region again leaves the same two outlines
    assert_eq!(layer.paths().len(), resolved_once);
    assert_eq!(layer.paths().len(), 2);
}

#[test]
fn union_resolves_overlapping_shapes_to_one_outline() {
    let mut layer = Layer::new(black());
    let shapes = vec![rect(0, 0, 2 * UNIT, UNIT), rect(UNIT, 0, 3 * UNIT, UNIT)];
    assert!(layer.union(&shapes).is_ok());
    // both primitives are recorded, but the region they cover is one box
    assert_eq!(layer.primitives().len(), 2);
    assert_eq!(layer.paths().len(), 1);
    let outline = &layer.paths()[0];
    // the merged region is the box [0, 3] x [0, 1]: its corners are on
    // the outline and no vertex leaves it
    for corner in [
        Vec2 { x: 0, y: 0 },
        Vec2 { x: 3 * UNIT, y: 0 },
        Vec2 { x: 3 * UNIT, y: UNIT },
        Vec2 { x: 0, y: UNIT },
    ] {
        assert!(outline.contains(&corner));
    }
    for v in outline {
        assert!(0 <= v.x && v.x <= 3 * UNIT && 0 <= v.y && v.y <= UNIT);
    }
}

#[test]
fn union_outcome_is_deterministic() {
    let shapes = vec![rect(0, 0, 2 * UNIT, UNIT), rect(UNIT, 0, 3 * UNIT, UNIT)];
    let mut first = Layer::new(black());
    let mut second = Layer::new(black());
    assert!(first.union(&shapes).is_ok());
    assert!(second.union(&shapes).is_ok());
    assert_eq!(first.primitives(), second.primitives());
    assert_eq!(first.paths(), second.paths());
    assert_eq!(first.get_bounds(), second.get_bounds());
}

#[test]
fn union_rejects_degenerate_rings_atomically() {
    let mut layer = Layer::new(black());
    assert!(layer.union(&vec![square(0, 0, UNIT)]).is_ok());
    // a two-vertex ring poisons the whole batch
    let bad = vec![
        square(5 * UNIT, 0, UNIT),
        vec![Vec2 { x: 0, y: 0 }, Vec2 { x: UNIT, y: 0 }],
    ];
    let before_primitives = layer.primitives().clone();
    let before_paths = layer.paths().clone();
    let result = layer.union(&bad);
    assert_eq!(result, Err(gerber_layer::command::InterpretError::UnionFailure));
    assert_eq!(layer.primitives(), &before_primitives);
    assert_eq!(layer.paths(), &before_paths);
}

#[test]
fn union_rejects_vertices_out_of_range() {
    let mut layer = Layer::new(black());
    let too_far = vec![vec![
        Vec2 { x: 0, y: 0 },
        Vec2 { x: 3_000_000_000_000, y: 0 },
        Vec2 { x: 0, y: 3_000_000_000_000 },
    ]];
    assert!(layer.union(&too_far).is_err());
    assert!(layer.empty());
    assert!(layer.paths().is_empty());
}

#[test]
fn union_skips_empty_rings() {
    let mut layer = Layer::new(black());
    let shapes = vec![Vec::new(), square(0, 0, UNIT), Vec::new()];
    assert!(layer.union(&shapes).is_ok());
    assert_eq!(layer.primitives().len(), 1);
    assert_eq!(layer.paths().len(), 1);
}

#[test]
fn bounds_grow_monotonically_under_union() {
    let mut layer = Layer::new(black());
    assert!(layer.union(&vec![square(0, 0, UNIT)]).is_ok());
    let b1 = layer.get_bounds();
    assert_eq!(b1, Bounds { x: -UNIT, y: -UNIT, width: 2 * UNIT, height: 2 * UNIT });
    assert!(layer.union(&vec![square(10 * UNIT, 10 * UNIT, UNIT)]).is_ok());
    let b2 = layer.get_bounds();
    // the old box is fully inside the new one
    assert!(b2.x <= b1.x && b2.y <= b1.y);
    assert!(b1.x + b1.width <= b2.x + b2.width);
    assert!(b1.y + b1.height <= b2.y + b2.height);
    assert_eq!(b2, Bounds { x: -UNIT, y: -UNIT, width: 12 * UNIT, height: 12 * UNIT });
}

#[test]
fn clear_empties_but_keeps_color() {
    let color = Rgba { r: 1, g: 2, b: 3, a: 4 };
    let mut layer = Layer::new(color);
    assert!(layer.union(&vec![square(0, 0, UNIT)]).is_ok());
    assert!(!layer.empty());
    assert!(!layer.paths().is_empty());
    layer.clear();
    assert!(layer.empty());
    assert!(layer.paths().is_empty());
    assert_eq!(layer.color(), color);
    assert_eq!(layer.get_bounds(), Bounds { x: 0, y: 0, width: 0, height: 0 });
}

#[test]
fn bounds_cover_every_ring() {
    let mut layer = Layer::new(black());
    let shapes = vec![
        square(-3 * UNIT, 2 * UNIT, UNIT),
        square(4 * UNIT, -5 * UNIT, UNIT / 2),
    ];
    assert!(layer.union(&shapes).is_ok());
    let b = layer.get_bounds();
    assert_eq!(
        b,
        Bounds {
            x: -4 * UNIT,
            y: -5 * UNIT - UNIT / 2,
            width: 4 * UNIT + UNIT / 2 + 4 * UNIT,
            height: 3 * UNIT + 5 * UNIT + UNIT / 2,
        }
    );
    for ring in layer.primitives() {
        for v in ring {
            assert!(b.x <= v.x && v.x <= b.x + b.width);
            assert!(b.y <= v.y && v.y <= b.y + b.height);
        }
    }
}
