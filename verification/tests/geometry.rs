use guiorder::common::GuiAnalysis;
use guiorder::document;
use guiorder::document::{Axis, Interval, Point};
use guiorder::error::{ConversionError, ErrorKind};
use guiorder::geometry::{
    change_from_infinity, dragged_span, CuboidParams, CylinderParams, GeomReferenceType,
    GeomSelection, GeomSelectionParams, SphereParams,
};
use guiorder::scalar::Scalar;

fn scalar(x: f32) -> Scalar {
    Scalar::from_bits(x.to_bits())
}

fn value(x: Scalar) -> f32 {
    f32::from_bits(x.to_bits())
}

fn close(a: Scalar, b: f32) -> bool {
    (value(a) - b).abs() <= 1e-6
}

fn point(x: f32, y: f32, z: f32) -> Point {
    Point { x: scalar(x), y: scalar(y), z: scalar(z) }
}

fn interval(start: f32, end: f32) -> Interval {
    Interval { start: scalar(start), end: scalar(end) }
}

fn cuboid(
    reference: document::GeomReference,
    xdim: [f32; 2],
    ydim: [f32; 2],
    zdim: [f32; 2],
) -> document::Geometry {
    document::Geometry::Cuboid {
        reference,
        xdim: interval(xdim[0], xdim[1]),
        ydim: interval(ydim[0], ydim[1]),
        zdim: interval(zdim[0], zdim[1]),
    }
}

fn cylinder(
    reference: document::GeomReference,
    radius: f32,
    span: [f32; 2],
    orientation: Axis,
) -> document::Geometry {
    document::Geometry::Cylinder {
        reference,
        radius: scalar(radius),
        span: interval(span[0], span[1]),
        orientation,
    }
}

fn sphere(reference: document::GeomReference, radius: f32) -> document::Geometry {
    document::Geometry::Sphere { reference, radius: scalar(radius) }
}

fn reference_to_engine(reference: &document::GeomReference) -> gorder::input::GeomReference {
    match reference {
        document::GeomReference::Point(p) => gorder::input::GeomReference::Point(
            gorder::prelude::Vector3D::new(value(p.x), value(p.y), value(p.z)),
        ),
        document::GeomReference::Selection(s) => gorder::input::GeomReference::Selection(s.clone()),
        document::GeomReference::Center => gorder::input::GeomReference::Center,
    }
}

/// What the engine answers to a geometry.
fn engine_reply(draft: &Option<document::Geometry>) -> Option<String> {
    match draft {
        None => None,
        Some(document::Geometry::Cuboid { reference, xdim, ydim, zdim }) => {
            gorder::input::Geometry::cuboid(
                reference_to_engine(reference),
                [value(xdim.start), value(xdim.end)],
                [value(ydim.start), value(ydim.end)],
                [value(zdim.start), value(zdim.end)],
            )
            .err()
            .map(|e| e.to_string())
        }
        Some(document::Geometry::Cylinder { reference, radius, span, orientation }) => {
            gorder::input::Geometry::cylinder(
                reference_to_engine(reference),
                value(*radius),
                [value(span.start), value(span.end)],
                match orientation {
                    Axis::X => gorder::input::Axis::X,
                    Axis::Y => gorder::input::Axis::Y,
                    Axis::Z => gorder::input::Axis::Z,
                },
            )
            .err()
            .map(|e| e.to_string())
        }
        Some(document::Geometry::Sphere { reference, radius }) => {
            gorder::input::Geometry::sphere(reference_to_engine(reference), value(*radius))
                .err()
                .map(|e| e.to_string())
        }
    }
}

fn exported_geometry(params: &GuiAnalysis) -> Result<Option<document::Geometry>, ConversionError> {
    let draft = params.geom_selection_params.draft(params.geom_selection);
    params.geom_selection_params.to_document(params.geom_selection, &engine_reply(&draft))
}

#[test]
fn gorder_to_guiorder_ref_point() {
    assert_eq!(
        GeomReferenceType::from_document(&document::GeomReference::Point(point(5.0, 2.5, 3.5))),
        GeomReferenceType::Point
    );
}

#[test]
fn gorder_to_guiorder_ref_center() {
    assert_eq!(
        GeomReferenceType::from_document(&document::GeomReference::Center),
        GeomReferenceType::Center
    );
}

#[test]
fn gorder_to_guiorder_ref_selection() {
    assert_eq!(
        GeomReferenceType::from_document(&document::GeomReference::Selection(String::from(
            "@protein"
        ))),
        GeomReferenceType::Selection
    );
}

#[test]
fn gorder_to_guiorder_geometry_type_none() {
    assert_eq!(GeomSelection::from_document(&None), GeomSelection::WholeSystem);
}

#[test]
fn gorder_to_guiorder_geometry_type_cuboid() {
    assert_eq!(
        GeomSelection::from_document(&Some(cuboid(
            document::GeomReference::Point(point(5.0, 2.5, 3.5)),
            [-3.0, 2.0],
            [-2.0, 0.0],
            [0.0, 4.0],
        ))),
        GeomSelection::Cuboid
    );
}

#[test]
fn gorder_to_guiorder_geometry_type_cylinder() {
    assert_eq!(
        GeomSelection::from_document(&Some(cylinder(
            document::GeomReference::Selection(String::from("@protein")),
            2.0,
            [0.0, f32::INFINITY],
            Axis::Z,
        ))),
        GeomSelection::Cylinder
    );
}

#[test]
fn gorder_to_guiorder_geometry_type_sphere() {
    assert_eq!(
        GeomSelection::from_document(&Some(sphere(document::GeomReference::Center, 5.0))),
        GeomSelection::Sphere
    );
}

#[test]
fn gorder_to_guiorder_geometry_params_cuboid() {
    let params = GeomSelectionParams::from_document(&Some(cuboid(
        document::GeomReference::Point(point(5.0, 2.5, 3.5)),
        [-3.0, 2.0],
        [-2.5, f32::INFINITY],
        [0.0, 4.35],
    )));

    assert_eq!(params.reference_type, GeomReferenceType::Point);
    assert!(close(params.ref_point.x, 5.0));
    assert!(close(params.ref_point.y, 2.5));
    assert!(close(params.ref_point.z, 3.5));

    assert!(close(params.cuboid.minx, -3.0));
    assert!(close(params.cuboid.maxx, 2.0));
    assert!(close(params.cuboid.miny, -2.5));
    assert!(value(params.cuboid.maxy).is_infinite());
    assert!(close(params.cuboid.minz, 0.0));
    assert!(close(params.cuboid.maxz, 4.35));
}

#[test]
fn gorder_to_guiorder_geometry_params_cylinder() {
    let params = GeomSelectionParams::from_document(&Some(cylinder(
        document::GeomReference::Selection(String::from("@protein")),
        2.0,
        [-1.0, f32::INFINITY],
        Axis::Z,
    )));

    assert_eq!(params.reference_type, GeomReferenceType::Selection);
    assert_eq!(params.ref_selection, String::from("@protein"));

    assert!(close(params.cylinder.radius, 2.0));
    assert!(close(params.cylinder.start, -1.0));
    assert!(value(params.cylinder.end).is_infinite());
    assert_eq!(params.cylinder.orientation, Axis::Z);
}

#[test]
fn gorder_to_guiorder_geometry_params_sphere() {
    let params =
        GeomSelectionParams::from_document(&Some(sphere(document::GeomReference::Center, 5.0)));

    assert_eq!(params.reference_type, GeomReferenceType::Center);
    assert!(close(params.sphere.radius, 5.0));
}

#[test]
fn guiorder_to_gorder_ref_point() {
    let params = GeomSelectionParams {
        reference_type: GeomReferenceType::Point,
        ref_point: point(5.0, -3.2, 1.8),
        ..Default::default()
    };

    let converted = params.reference();
    match converted {
        document::GeomReference::Point(point) => {
            assert!(close(point.x, 5.0));
            assert!(close(point.y, -3.2));
            assert!(close(point.z, 1.8));
        }
        _ => panic!("Invalid GeomReference returned."),
    }
}

#[test]
fn guiorder_to_gorder_ref_center() {
    let params =
        GeomSelectionParams { reference_type: GeomReferenceType::Center, ..Default::default() };

    let converted = params.reference();
    assert!(matches!(converted, document::GeomReference::Center));
}

#[test]
fn guiorder_to_gorder_ref_selection() {
    let params = GeomSelectionParams {
        reference_type: GeomReferenceType::Selection,
        ref_selection: String::from("@protein"),
        ..Default::default()
    };

    let converted = params.reference();
    match converted {
        document::GeomReference::Selection(query) => {
            assert_eq!(query, String::from("@protein"));
        }
        _ => panic!("Invalid GeomReference returned."),
    }
}

#[test]
fn guiorder_to_gorder_no_geometry() {
    let params = GuiAnalysis { geom_selection: GeomSelection::WholeSystem, ..Default::default() };

    let converted = exported_geometry(&params).unwrap();
    assert!(converted.is_none());
}

#[test]
fn guiorder_to_gorder_cuboid_geometry() {
    let params = GuiAnalysis {
        geom_selection: GeomSelection::Cuboid,
        geom_selection_params: GeomSelectionParams {
            cuboid: CuboidParams {
                minx: scalar(f32::NEG_INFINITY),
                maxx: scalar(6.3),
                miny: scalar(-3.5),
                maxy: scalar(-1.4),
                minz: scalar(0.0),
                maxz: scalar(f32::INFINITY),
            },
            ref_point: point(5.0, -3.2, 1.8),
            reference_type: GeomReferenceType::Point,
            ..Default::default()
        },
        ..Default::default()
    };

    let converted_geometry = exported_geometry(&params).unwrap().unwrap();

    match converted_geometry {
        document::Geometry::Cuboid { reference, xdim, ydim, zdim } => {
            match reference {
                document::GeomReference::Point(p) => {
                    assert!(close(p.x, 5.0));
                    assert!(close(p.y, -3.2));
                    assert!(close(p.z, 1.8));
                }
                _ => panic!("Invalid GeomReference returned."),
            }

            assert!(value(xdim.start).is_infinite());
            assert!(close(xdim.end, 6.3));
            assert!(close(ydim.start, -3.5));
            assert!(close(ydim.end, -1.4));
            assert!(close(zdim.start, 0.0));
            assert!(value(zdim.end).is_infinite());
        }
        _ => panic!("Invalid geometry."),
    }
}

#[test]
fn guiorder_to_gorder_cylinder_geometry() {
    let params = GuiAnalysis {
        geom_selection: GeomSelection::Cylinder,
        geom_selection_params: GeomSelectionParams {
            cylinder: CylinderParams {
                radius: scalar(2.56),
                start: scalar(f32::NEG_INFINITY),
                end: scalar(1.7),
                orientation: Axis::X,
            },
            ref_selection: String::from("@protein"),
            reference_type: GeomReferenceType::Selection,
            ..Default::default()
        },
        ..Default::default()
    };

    let converted_geometry = exported_geometry(&params).unwrap().unwrap();

    match converted_geometry {
        document::Geometry::Cylinder { reference, radius, span, orientation } => {
            match reference {
                document::GeomReference::Selection(query) => {
                    assert_eq!(&query, &String::from("@protein"));
                }
                _ => panic!("Invalid GeomReference returned."),
            }

            assert!(close(radius, 2.56));
            assert!(value(span.start).is_infinite());
            assert!(close(span.end, 1.7));
            assert_eq!(orientation, Axis::X);
        }
        _ => panic!("Invalid geometry."),
    }
}

#[test]
fn guiorder_to_gorder_sphere_geometry() {
    let params = GuiAnalysis {
        geom_selection: GeomSelection::Sphere,
        geom_selection_params: GeomSelectionParams {
            sphere: SphereParams { radius: scalar(1.43) },
            reference_type: GeomReferenceType::Center,
            ..Default::default()
        },
        ..Default::default()
    };

    let converted_geometry = exported_geometry(&params).unwrap().unwrap();

    match converted_geometry {
        document::Geometry::Sphere { reference, radius } => {
            assert!(matches!(reference, document::GeomReference::Center));
            assert!(close(radius, 1.43));
        }
        _ => panic!("Invalid geometry."),
    }
}

#[test]
fn geometry_defaults() {
    let params = GeomSelectionParams::default();
    assert_eq!(value(params.cuboid.minx), f32::NEG_INFINITY);
    assert_eq!(value(params.cuboid.maxx), f32::INFINITY);
    assert_eq!(value(params.cuboid.miny), f32::NEG_INFINITY);
    assert_eq!(value(params.cuboid.maxy), f32::INFINITY);
    assert_eq!(value(params.cuboid.minz), f32::NEG_INFINITY);
    assert_eq!(value(params.cuboid.maxz), f32::INFINITY);
    assert_eq!(value(params.cylinder.radius), 5.0);
    assert_eq!(value(params.cylinder.start), f32::NEG_INFINITY);
    assert_eq!(value(params.cylinder.end), f32::INFINITY);
    assert_eq!(params.cylinder.orientation, Axis::Z);
    assert_eq!(value(params.sphere.radius), 5.0);
    assert_eq!(params.reference_type, GeomReferenceType::Point);
    assert_eq!(value(params.ref_point.x), 0.0);
    assert_eq!(value(params.ref_point.y), 0.0);
    assert_eq!(value(params.ref_point.z), 0.0);
    assert_eq!(params.ref_selection, "");
    assert_eq!(GeomSelection::default(), GeomSelection::WholeSystem);
}

#[test]
fn geometry_labels() {
    assert_eq!(GeomSelection::WholeSystem.to_string(), "");
    assert_eq!(GeomSelection::Cuboid.to_string(), "cuboid");
    assert_eq!(GeomSelection::Cylinder.to_string(), "cylinder");
    assert_eq!(GeomSelection::Sphere.to_string(), "sphere");
}

#[test]
fn geometry_sanity() {
    let mut params = GuiAnalysis::default();
    assert!(params.check_geometry_sanity());

    params.geom_selection = GeomSelection::Cuboid;
    assert!(params.check_geometry_sanity());

    params.geom_selection = GeomSelection::Cylinder;
    assert!(params.check_geometry_sanity());
    params.geom_selection_params.cylinder.radius = scalar(0.0);
    assert!(!params.check_geometry_sanity());
    params.geom_selection_params.cylinder.radius = scalar(1.5);
    assert!(params.check_geometry_sanity());

    params.geom_selection = GeomSelection::Sphere;
    params.geom_selection_params.sphere.radius = scalar(0.0);
    assert!(!params.check_geometry_sanity());
    params.geom_selection_params.sphere.radius = scalar(2.0);
    assert!(params.check_geometry_sanity());

    params.geom_selection_params.reference_type = GeomReferenceType::Selection;
    assert!(!params.check_geometry_sanity());
    params.geom_selection_params.ref_selection = String::from("@protein");
    assert!(params.check_geometry_sanity());

    params.geom_selection_params.ref_selection = String::new();
    params.geom_selection_params.reference_type = GeomReferenceType::Center;
    assert!(params.check_geometry_sanity());

    // the reference is not looked at where the whole system is selected
    params.geom_selection_params.reference_type = GeomReferenceType::Selection;
    params.geom_selection = GeomSelection::WholeSystem;
    assert!(params.check_geometry_sanity());
}

#[test]
fn geometry_that_the_engine_refuses_is_refused() {
    let mut params = GuiAnalysis { geom_selection: GeomSelection::Cuboid, ..Default::default() };
    params.geom_selection_params.cuboid.miny = scalar(2.0);
    params.geom_selection_params.cuboid.maxy = scalar(1.0);
    let error = exported_geometry(&params).unwrap_err();
    assert_eq!(error.kind(), ErrorKind::InvalidGeometryParams);
    // the detail is the message of the engine, with both values
    let message = gorder::input::Geometry::cuboid(
        gorder::input::GeomReference::origin(),
        [f32::NEG_INFINITY, f32::INFINITY],
        [2.0, 1.0],
        [f32::NEG_INFINITY, f32::INFINITY],
    )
    .unwrap_err()
    .to_string();
    assert!(message.contains("the first value for dimension ('2' nm)"));
    assert!(message.contains("is higher than the second value for dimension ('1' nm)"));
    assert_eq!(
        error.to_string(),
        format!(
            "error: could not convert geometry parameters into gorder structure (details: {})",
            message
        )
    );

    let mut params = GuiAnalysis { geom_selection: GeomSelection::Cylinder, ..Default::default() };
    params.geom_selection_params.cylinder.radius = scalar(-1.0);
    match exported_geometry(&params) {
        Err(ConversionError::InvalidGeometryParams(detail)) => {
            assert!(detail.contains("'-1' but it must be non-negative"))
        }
        _ => panic!("Invalid result returned."),
    }
    params.geom_selection_params.cylinder.radius = scalar(1.0);
    params.geom_selection_params.cylinder.start = scalar(3.0);
    params.geom_selection_params.cylinder.end = scalar(2.0);
    match exported_geometry(&params) {
        Err(ConversionError::InvalidGeometryParams(detail)) => {
            assert!(detail.contains("the first value for span ('3' nm)"));
            assert!(detail.contains("is higher than the second value for span ('2' nm)"));
        }
        _ => panic!("Invalid result returned."),
    }

    let mut params = GuiAnalysis { geom_selection: GeomSelection::Sphere, ..Default::default() };
    params.geom_selection_params.sphere.radius = scalar(-0.5);
    assert!(matches!(
        exported_geometry(&params),
        Err(ConversionError::InvalidGeometryParams(_))
    ));
}

#[test]
fn geometry_with_a_radius_of_zero_is_refused() {
    for radius in [0.0f32, -0.0] {
        let mut params =
            GuiAnalysis { geom_selection: GeomSelection::Cylinder, ..Default::default() };
        params.geom_selection_params.cylinder.radius = scalar(radius);
        // the engine takes it, the editor does not write it
        assert!(engine_reply(&params.geom_selection_params.draft(params.geom_selection)).is_none());
        match exported_geometry(&params) {
            Err(ConversionError::InvalidGeometryParams(detail)) => assert_eq!(
                detail,
                "the specified radius for the geometry selection must be greater than 0"
            ),
            _ => panic!("A cylinder of radius zero should be refused."),
        }

        let mut params =
            GuiAnalysis { geom_selection: GeomSelection::Sphere, ..Default::default() };
        params.geom_selection_params.sphere.radius = scalar(radius);
        match exported_geometry(&params) {
            Err(error) => {
                assert_eq!(error.kind(), ErrorKind::InvalidGeometryParams);
                assert_eq!(
                    error.to_string(),
                    "error: could not convert geometry parameters into gorder structure (details: the specified radius for the geometry selection must be greater than 0)"
                );
            }
            Ok(_) => panic!("A sphere of radius zero should be refused."),
        }

        // the radius of a shape that is not selected is not looked at
        params.geom_selection = GeomSelection::Cuboid;
        assert!(exported_geometry(&params).is_ok());
        params.geom_selection = GeomSelection::WholeSystem;
        assert!(exported_geometry(&params).unwrap().is_none());
    }
}

#[test]
fn geometry_is_refused_by_the_library_where_no_answer_of_the_engine_is_at_hand() {
    let mut params = GeomSelectionParams::default();
    params.cuboid.minx = scalar(1.0);
    params.cuboid.maxx = scalar(0.5);
    match params.to_document(GeomSelection::Cuboid, &None) {
        Err(ConversionError::InvalidGeometryParams(detail)) => assert_eq!(
            detail,
            "the first value for dimension is higher than the second value for dimension"
        ),
        _ => panic!("Invalid result returned."),
    }
    params.cylinder.start = scalar(1.0);
    params.cylinder.end = scalar(0.5);
    match params.to_document(GeomSelection::Cylinder, &None) {
        Err(ConversionError::InvalidGeometryParams(detail)) => {
            assert_eq!(detail, "the first value for span is higher than the second value for span")
        }
        _ => panic!("Invalid result returned."),
    }

    // a refusal of the engine is handed on as it came
    let params = GeomSelectionParams::default();
    let reply = Some(String::from("refused by the engine"));
    match params.to_document(GeomSelection::Sphere, &reply) {
        Err(ConversionError::InvalidGeometryParams(detail)) => {
            assert_eq!(detail, "refused by the engine")
        }
        _ => panic!("Invalid result returned."),
    }
    // the whole system is not put to the engine
    assert!(params.to_document(GeomSelection::WholeSystem, &reply).unwrap().is_none());
}

#[test]
fn geometry_agrees_with_the_engine() {
    let values = [
        f32::NEG_INFINITY,
        -2.5,
        -0.0,
        0.0,
        1.0e-20,
        1.0,
        3.5,
        f32::INFINITY,
        f32::NAN,
    ];
    for a in values {
        for b in values {
            // with or without the answer of the engine, a span is refused
            // exactly where the engine refuses it
            let mut params = GeomSelectionParams::default();
            params.cuboid.minz = scalar(a);
            params.cuboid.maxz = scalar(b);
            let engine = gorder::input::Geometry::cuboid(
                gorder::input::GeomReference::center(),
                [f32::NEG_INFINITY, f32::INFINITY],
                [f32::NEG_INFINITY, f32::INFINITY],
                [a, b],
            );
            assert_eq!(params.to_document(GeomSelection::Cuboid, &None).is_ok(), engine.is_ok());
            let reply = engine_reply(&params.draft(GeomSelection::Cuboid));
            assert_eq!(reply.is_none(), engine.is_ok());
            assert_eq!(params.to_document(GeomSelection::Cuboid, &reply).is_ok(), engine.is_ok());

            let mut params = GeomSelectionParams::default();
            params.cylinder.start = scalar(a);
            params.cylinder.end = scalar(b);
            let engine = gorder::input::Geometry::cylinder(
                gorder::input::GeomReference::center(),
                5.0,
                [a, b],
                gorder::input::Axis::Z,
            );
            assert_eq!(params.to_document(GeomSelection::Cylinder, &None).is_ok(), engine.is_ok());
        }

        // a radius is refused where the engine refuses it, and at zero
        let zero = a == 0.0;
        let mut params = GeomSelectionParams::default();
        params.cylinder.radius = scalar(a);
        let engine = gorder::input::Geometry::cylinder(
            gorder::input::GeomReference::center(),
            a,
            [f32::NEG_INFINITY, f32::INFINITY],
            gorder::input::Axis::Z,
        );
        assert_eq!(
            params.to_document(GeomSelection::Cylinder, &None).is_ok(),
            engine.is_ok() && !zero
        );

        let mut params = GeomSelectionParams::default();
        params.sphere.radius = scalar(a);
        let engine = gorder::input::Geometry::sphere(gorder::input::GeomReference::center(), a);
        assert_eq!(params.to_document(GeomSelection::Sphere, &None).is_ok(), engine.is_ok() && !zero);
    }
}

#[test]
fn dragging_from_infinity() {
    let infinity = scalar(f32::INFINITY);
    let target = scalar(1.5);
    assert_eq!(change_from_infinity(true, infinity, target), target);
    assert_eq!(change_from_infinity(false, infinity, target), infinity);
    assert_eq!(change_from_infinity(true, scalar(f32::NEG_INFINITY), target), target);
    assert_eq!(change_from_infinity(true, scalar(3.0), target), scalar(3.0));

    let unbounded = interval(f32::NEG_INFINITY, f32::INFINITY);
    assert_eq!(dragged_span(unbounded, false, false), unbounded);
    assert_eq!(dragged_span(unbounded, true, false), interval(0.0, f32::INFINITY));
    assert_eq!(dragged_span(unbounded, false, true), interval(f32::NEG_INFINITY, 0.0));
    assert_eq!(dragged_span(unbounded, true, true), interval(0.0, 0.0));
    assert_eq!(dragged_span(interval(2.5, f32::INFINITY), false, true), interval(2.5, 2.5));
    assert_eq!(dragged_span(interval(2.5, 4.0), true, true), interval(2.5, 4.0));
}
