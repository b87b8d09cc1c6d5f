//! End-to-end interpretation scenarios: whole command streams through
//! `Layer::from_gerber`, checked against exact geometry and error lists.

use gerber_layer::aperture::{Aperture, ApertureCatalog};
use gerber_layer::command::{CommandDoc, InterpolationMode, InterpretError, PlottingCommand};
use gerber_layer::geom::{Coord, Vec2};
use gerber_layer::layer::{Bounds, Layer, Rgba};

const UNIT: i64 = 1_000_000;

fn red() -> Rgba {
    Rgba { r: 255, g: 0, b: 0, a: 255 }
}

fn doc(apertures: Vec<(i32, Aperture)>, commands: Vec<PlottingCommand>) -> CommandDoc {
    let mut catalog = ApertureCatalog::new();
    for (id, ap) in apertures {
        assert!(catalog.insert(id, ap));
    }
    let mut doc = CommandDoc::new(catalog);
    for cmd in commands {
        doc.push(cmd);
    }
    assert!(doc.commands_wf_check());
    doc
}

#[test]
fn scenario_stroke_with_round_caps() {
    let d = doc(
        vec![(1, Aperture::Circle { diameter: 2 * UNIT })],
        vec![
            PlottingCommand::SelectAperture(1),
            PlottingCommand::Move(Coord::new(0, 0)),
            PlottingCommand::Interpolate(Coord::new(10 * UNIT, 0), None),
        ],
    );
    let (layer, errors) = Layer::from_gerber(&d, red());
    assert!(errors.is_empty());
    assert!(!layer.empty());
    // one stroke rectangle plus the two endpoint circles
    assert_eq!(layer.primitives().len(), 3);
    // the three overlapping shapes resolve to a single outline
    assert_eq!(layer.paths().len(), 1);
    let stroke = &layer.primitives()[0];
    assert_eq!(
        stroke,
        &vec![
            Vec2 { x: 0, y: -UNIT },
            Vec2 { x: 10 * UNIT, y: -UNIT },
            Vec2 { x: 10 * UNIT, y: UNIT },
            Vec2 { x: 0, y: UNIT },
        ]
    );
    let cap_start = &layer.primitives()[1];
    assert_eq!(cap_start.len(), 100);
    // the cardinal vertices of the start cap are exact
    assert_eq!(cap_start[0], Vec2 { x: UNIT, y: 0 });
    assert_eq!(cap_start[25], Vec2 { x: 0, y: UNIT });
    assert_eq!(cap_start[50], Vec2 { x: -UNIT, y: 0 });
    assert_eq!(cap_start[75], Vec2 { x: 0, y: -UNIT });
    let cap_end = &layer.primitives()[2];
    assert_eq!(cap_end[0], Vec2 { x: 11 * UNIT, y: 0 });
    assert_eq!(
        layer.get_bounds(),
        Bounds { x: -UNIT, y: -UNIT, width: 12 * UNIT, height: 2 * UNIT }
    );
}

#[test]
fn scenario_rectangle_flash() {
    let d = doc(
        vec![(2, Aperture::Rectangle { x: 4 * UNIT, y: 4 * UNIT })],
        vec![
            PlottingCommand::SelectAperture(2),
            PlottingCommand::Flash(Coord::new(5 * UNIT, 5 * UNIT)),
        ],
    );
    let (layer, errors) = Layer::from_gerber(&d, red());
    assert!(errors.is_empty());
    assert_eq!(layer.primitives().len(), 1);
    assert_eq!(
        layer.primitives()[0],
        vec![
            Vec2 { x: 3 * UNIT, y: 3 * UNIT },
            Vec2 { x: 7 * UNIT, y: 3 * UNIT },
            Vec2 { x: 7 * UNIT, y: 7 * UNIT },
            Vec2 { x: 3 * UNIT, y: 7 * UNIT },
        ]
    );
    // the resolved union of a single box is that box again
    assert_eq!(layer.paths().len(), 1);
    let resolved = &layer.paths()[0];
    assert_eq!(resolved.len(), 4);
    for corner in [
        Vec2 { x: 3 * UNIT, y: 3 * UNIT },
        Vec2 { x: 7 * UNIT, y: 3 * UNIT },
        Vec2 { x: 7 * UNIT, y: 7 * UNIT },
        Vec2 { x: 3 * UNIT, y: 7 * UNIT },
    ] {
        assert!(resolved.contains(&corner));
    }
    assert_eq!(
        layer.get_bounds(),
        Bounds { x: 3 * UNIT, y: 3 * UNIT, width: 4 * UNIT, height: 4 * UNIT }
    );
}

#[test]
fn scenario_flash_without_aperture() {
    let d = doc(vec![], vec![PlottingCommand::Flash(Coord::new(0, 0))]);
    let (layer, errors) = Layer::from_gerber(&d, red());
    assert!(layer.empty());
    assert_eq!(errors, vec![InterpretError::NoApertureSelected]);
    assert_eq!(layer.get_bounds(), Bounds { x: 0, y: 0, width: 0, height: 0 });
}

#[test]
fn scenario_zero_length_stroke() {
    let d = doc(
        vec![(3, Aperture::Circle { diameter: 2 * UNIT })],
        vec![
            PlottingCommand::SelectAperture(3),
            PlottingCommand::Move(Coord::new(0, 0)),
            PlottingCommand::Interpolate(Coord::new(0, 0), None),
        ],
    );
    let (layer, errors) = Layer::from_gerber(&d, red());
    // no stroke to draw; the two identical end caps merge into one ring
    assert!(errors.is_empty());
    assert_eq!(layer.primitives().len(), 1);
    assert_eq!(layer.primitives()[0].len(), 100);
    assert_eq!(layer.paths().len(), 1);
    assert_eq!(
        layer.get_bounds(),
        Bounds { x: -UNIT, y: -UNIT, width: 2 * UNIT, height: 2 * UNIT }
    );
}

#[test]
fn unknown_aperture_then_flash_advances_position() {
    let d = doc(
        vec![(7, Aperture::Circle { diameter: 2 * UNIT })],
        vec![
            PlottingCommand::SelectAperture(9),
            PlottingCommand::Flash(Coord::new(5 * UNIT, 5 * UNIT)),
            PlottingCommand::SelectAperture(7),
            // an empty coordinate flashes at the carried position
            PlottingCommand::Flash(Coord { x: None, y: None }),
        ],
    );
    let (layer, errors) = Layer::from_gerber(&d, red());
    assert_eq!(
        errors,
        vec![InterpretError::UnknownApertureId(9), InterpretError::NoApertureSelected]
    );
    // the first flash produced nothing, but it moved the position: the
    // second flash lands at (5, 5)
    assert_eq!(layer.primitives().len(), 1);
    assert_eq!(
        layer.get_bounds(),
        Bounds { x: 4 * UNIT, y: 4 * UNIT, width: 2 * UNIT, height: 2 * UNIT }
    );
}

#[test]
fn flash_order_is_irrelevant_up_to_ring_order() {
    let ap = vec![(1, Aperture::Rectangle { x: 2 * UNIT, y: 2 * UNIT })];
    let fwd = doc(
        ap.clone(),
        vec![
            PlottingCommand::SelectAperture(1),
            PlottingCommand::Flash(Coord::new(0, 0)),
            PlottingCommand::Flash(Coord::new(10 * UNIT, 0)),
        ],
    );
    let rev = doc(
        ap,
        vec![
            PlottingCommand::SelectAperture(1),
            PlottingCommand::Flash(Coord::new(10 * UNIT, 0)),
            PlottingCommand::Flash(Coord::new(0, 0)),
        ],
    );
    let (layer_fwd, e1) = Layer::from_gerber(&fwd, red());
    let (layer_rev, e2) = Layer::from_gerber(&rev, red());
    assert!(e1.is_empty() && e2.is_empty());
    assert_eq!(layer_fwd.primitives().len(), layer_rev.primitives().len());
    for ring in layer_fwd.primitives() {
        assert!(layer_rev.primitives().contains(ring));
    }
    assert_eq!(layer_fwd.paths().len(), layer_rev.paths().len());
    assert_eq!(layer_fwd.get_bounds(), layer_rev.get_bounds());
}

#[test]
fn modal_coordinates_keep_the_unspecified_axis() {
    let d = doc(
        vec![(1, Aperture::Rectangle { x: 2 * UNIT, y: 2 * UNIT })],
        vec![
            PlottingCommand::SelectAperture(1),
            PlottingCommand::Move(Coord::new(3 * UNIT, 4 * UNIT)),
            // only x given: y stays at 4
            PlottingCommand::Flash(Coord { x: Some(8 * UNIT), y: None }),
        ],
    );
    let (layer, errors) = Layer::from_gerber(&d, red());
    assert!(errors.is_empty());
    assert_eq!(
        layer.get_bounds(),
        Bounds { x: 7 * UNIT, y: 3 * UNIT, width: 2 * UNIT, height: 2 * UNIT }
    );
}

#[test]
fn circular_interpolation_is_reported_not_drawn() {
    let d = doc(
        vec![(1, Aperture::Circle { diameter: 2 * UNIT })],
        vec![
            PlottingCommand::SelectAperture(1),
            PlottingCommand::SetInterpolationMode(InterpolationMode::ClockwiseCircular),
            PlottingCommand::Interpolate(Coord::new(5 * UNIT, 5 * UNIT), None),
            PlottingCommand::SetInterpolationMode(InterpolationMode::Linear),
            // position advanced to (5, 5) even though the arc was skipped
            PlottingCommand::Flash(Coord { x: None, y: None }),
        ],
    );
    let (layer, errors) = Layer::from_gerber(&d, red());
    assert_eq!(errors, vec![InterpretError::UnsupportedInterpolationMode]);
    assert_eq!(layer.primitives().len(), 1);
    assert_eq!(
        layer.get_bounds(),
        Bounds { x: 4 * UNIT, y: 4 * UNIT, width: 2 * UNIT, height: 2 * UNIT }
    );
}

#[test]
fn unsupported_commands_are_reported_and_skipped() {
    let d = doc(
        vec![],
        vec![
            PlottingCommand::RegionMode,
            PlottingCommand::QuadrantMode,
            PlottingCommand::Comment,
            PlottingCommand::Extended,
            PlottingCommand::EndOfFile,
        ],
    );
    let (layer, errors) = Layer::from_gerber(&d, red());
    assert!(layer.empty());
    assert_eq!(
        errors,
        vec![
            InterpretError::UnsupportedCommand,
            InterpretError::UnsupportedCommand,
            InterpretError::UnsupportedCommand,
        ]
    );
}

#[test]
fn polygon_aperture_strokes_with_fallback_thickness() {
    let d = doc(
        vec![(4, Aperture::Polygon)],
        vec![
            PlottingCommand::SelectAperture(4),
            PlottingCommand::Move(Coord::new(0, 0)),
            PlottingCommand::Interpolate(Coord::new(10 * UNIT, 0), None),
        ],
    );
    let (layer, errors) = Layer::from_gerber(&d, red());
    // thickness falls back to one unit (reported), and the end caps
    // cannot be rasterized (reported)
    assert_eq!(
        errors,
        vec![InterpretError::UnsupportedAperture, InterpretError::UnsupportedAperture]
    );
    assert_eq!(layer.primitives().len(), 1);
    assert_eq!(
        layer.primitives()[0],
        vec![
            Vec2 { x: 0, y: -UNIT / 2 },
            Vec2 { x: 10 * UNIT, y: -UNIT / 2 },
            Vec2 { x: 10 * UNIT, y: UNIT / 2 },
            Vec2 { x: 0, y: UNIT / 2 },
        ]
    );
}

#[test]
fn obround_degenerates_to_circle_or_fails() {
    let round = doc(
        vec![(1, Aperture::Obround { x: 2 * UNIT, y: 2 * UNIT })],
        vec![
            PlottingCommand::SelectAperture(1),
            PlottingCommand::Flash(Coord::new(0, 0)),
        ],
    );
    let (layer, errors) = Layer::from_gerber(&round, red());
    assert!(errors.is_empty());
    assert_eq!(layer.primitives().len(), 1);
    assert_eq!(layer.primitives()[0].len(), 100);

    let oblong = doc(
        vec![(1, Aperture::Obround { x: 2 * UNIT, y: 4 * UNIT })],
        vec![
            PlottingCommand::SelectAperture(1),
            PlottingCommand::Flash(Coord::new(0, 0)),
        ],
    );
    let (layer, errors) = Layer::from_gerber(&oblong, red());
    assert!(layer.empty());
    assert_eq!(errors, vec![InterpretError::UnsupportedAperture]);
}

#[test]
fn interpolate_without_aperture_is_skipped() {
    let d = doc(
        vec![],
        vec![
            PlottingCommand::Move(Coord::new(0, 0)),
            PlottingCommand::Interpolate(Coord::new(10 * UNIT, 0), None),
        ],
    );
    let (layer, errors) = Layer::from_gerber(&d, red());
    assert!(layer.empty());
    assert_eq!(errors, vec![InterpretError::NoApertureSelected]);
}

#[test]
fn from_gerber_sets_the_color() {
    let d = doc(vec![], vec![]);
    let blue = Rgba { r: 0, g: 0, b: 255, a: 255 };
    let (layer, errors) = Layer::from_gerber(&d, blue);
    assert!(errors.is_empty());
    assert!(layer.empty());
    assert_eq!(layer.color(), blue);
}

#[test]
fn repeated_flash_at_same_spot_stores_one_ring() {
    let d = doc(
        vec![(1, Aperture::Circle { diameter: 2 * UNIT })],
        vec![
            PlottingCommand::SelectAperture(1),
            PlottingCommand::Flash(Coord::new(0, 0)),
            PlottingCommand::Flash(Coord::new(0, 0)),
        ],
    );
    let (layer, errors) = Layer::from_gerber(&d, red());
    assert!(errors.is_empty());
    assert_eq!(layer.primitives().len(), 1);
    assert_eq!(layer.paths().len(), 1);
}

#[test]
fn interpretation_is_deterministic() {
    let build = || {
        doc(
            vec![(1, Aperture::Circle { diameter: 2 * UNIT })],
            vec![
                PlottingCommand::SelectAperture(1),
                PlottingCommand::Move(Coord::new(0, 0)),
                PlottingCommand::Interpolate(Coord::new(10 * UNIT, 0), None),
                PlottingCommand::Flash(Coord::new(5 * UNIT, 5 * UNIT)),
            ],
        )
    };
    let (first, e1) = Layer::from_gerber(&build(), red());
    let (second, e2) = Layer::from_gerber(&build(), red());
    assert_eq!(e1, e2);
    assert_eq!(first.primitives(), second.primitives());
    assert_eq!(first.paths(), second.paths());
    assert_eq!(first.get_bounds(), second.get_bounds());
}

#[test]
fn catalog_rejects_malformed_apertures() {
    let mut catalog = ApertureCatalog::new();
    assert!(!catalog.insert(1, Aperture::Circle { diameter: -5 }));
    assert!(catalog.get(1).is_none());
    assert!(catalog.insert(1, Aperture::Circle { diameter: 5 }));
    assert_eq!(catalog.get(1), Some(&Aperture::Circle { diameter: 5 }));
    assert_eq!(catalog.len(), 1);
}

#[test]
fn command_stream_bound_check() {
    let mut d = CommandDoc::new(ApertureCatalog::new());
    d.push(PlottingCommand::Move(Coord::new(5, 5)));
    assert!(d.commands_wf_check());
    d.push(PlottingCommand::Flash(Coord::new(2_000_000_000_000, 0)));
    assert!(!d.commands_wf_check());
}
