use guiorder::common::{GuiAnalysis, MembraneNormal};
use guiorder::document;
use guiorder::error::{ConversionError, ErrorKind};
use guiorder::membrane_normal::{
    normal_draft, normal_to_document, normals_file, DynamicNormalParams,
};
use guiorder::scalar::Scalar;

fn scalar(x: f32) -> Scalar {
    Scalar::from_bits(x.to_bits())
}

fn close(a: Scalar, b: f32) -> bool {
    (f32::from_bits(a.to_bits()) - b).abs() <= 1e-6
}

/// What the engine answers to the dynamic normal of the state.
fn engine_reply(params: &GuiAnalysis) -> Option<String> {
    match normal_draft(
        params.membrane_normal,
        &params.dynamic_normal_params,
        &params.from_file_normals,
    ) {
        document::MembraneNormal::Dynamic { heads, radius } => {
            gorder::input::DynamicNormal::new(&heads, f32::from_bits(radius.to_bits()))
                .err()
                .map(|e| e.to_string())
        }
        _ => None,
    }
}

fn exported_normal(params: &GuiAnalysis) -> Result<document::MembraneNormal, ConversionError> {
    normal_to_document(
        params.membrane_normal,
        &params.dynamic_normal_params,
        &params.from_file_normals,
        &engine_reply(params),
    )
}

#[test]
fn gorder_to_guiorder_dynamic_normal_params() {
    let params = DynamicNormalParams::try_from_document(&document::MembraneNormal::Dynamic {
        heads: String::from("name P"),
        radius: scalar(2.5),
    })
    .unwrap();

    assert_eq!(params.heads, String::from("name P"));
    assert!(close(params.radius, 2.5));
}

#[test]
fn guiorder_to_gorder_membrane_normal_z() {
    let params = GuiAnalysis { membrane_normal: MembraneNormal::Z, ..Default::default() };

    match exported_normal(&params).unwrap() {
        document::MembraneNormal::Static(axis) => {
            assert!(matches!(axis, document::Axis::Z));
        }
        _ => panic!("Invalid membrane normal."),
    }
}

#[test]
fn guiorder_to_gorder_membrane_normal_y() {
    let params = GuiAnalysis { membrane_normal: MembraneNormal::Y, ..Default::default() };

    match exported_normal(&params).unwrap() {
        document::MembraneNormal::Static(axis) => {
            assert!(matches!(axis, document::Axis::Y));
        }
        _ => panic!("Invalid membrane normal."),
    }
}

#[test]
fn guiorder_to_gorder_membrane_normal_x() {
    let params = GuiAnalysis { membrane_normal: MembraneNormal::X, ..Default::default() };

    match exported_normal(&params).unwrap() {
        document::MembraneNormal::Static(axis) => {
            assert!(matches!(axis, document::Axis::X));
        }
        _ => panic!("Invalid membrane normal."),
    }
}

#[test]
fn guiorder_to_gorder_membrane_normal_dynamic() {
    let params = GuiAnalysis {
        membrane_normal: MembraneNormal::Dynamic,
        dynamic_normal_params: DynamicNormalParams {
            heads: String::from("name P"),
            radius: scalar(1.75),
        },
        ..Default::default()
    };

    match exported_normal(&params).unwrap() {
        document::MembraneNormal::Dynamic { heads, radius } => {
            assert_eq!(&heads, &String::from("name P"));
            assert!(close(radius, 1.75));
        }
        _ => panic!("Invalid membrane normal."),
    }
}

#[test]
fn guiorder_to_gorder_membrane_normal_from_file() {
    let params = GuiAnalysis {
        membrane_normal: MembraneNormal::FromFile,
        from_file_normals: String::from("normals.yaml"),
        ..Default::default()
    };

    match exported_normal(&params).unwrap() {
        document::MembraneNormal::FromFile(file) => {
            assert_eq!(file, String::from("normals.yaml"));
        }
        _ => panic!("Invalid membrane normal."),
    }
}

#[test]
fn dynamic_normal_defaults() {
    let params = DynamicNormalParams::default();
    assert_eq!(params.heads, "");
    assert_eq!(params.radius.to_bits(), 2.0f32.to_bits());

    let params =
        DynamicNormalParams::try_from_document(&document::MembraneNormal::Static(document::Axis::X))
            .unwrap();
    assert_eq!(params.heads, "");
    assert_eq!(params.radius.to_bits(), 2.0f32.to_bits());

    let params = DynamicNormalParams::try_from_document(&document::MembraneNormal::FromFile(
        String::from("normals.yaml"),
    ))
    .unwrap();
    assert_eq!(params.radius.to_bits(), 2.0f32.to_bits());
    assert!(matches!(
        DynamicNormalParams::try_from_document(&document::MembraneNormal::FromMap),
        Err(ConversionError::FromMapNormals)
    ));
}

#[test]
fn normals_file_is_read_from_a_file_normal_only() {
    assert_eq!(
        normals_file(&document::MembraneNormal::FromFile(String::from("normals.yaml"))),
        "normals.yaml"
    );
    assert_eq!(normals_file(&document::MembraneNormal::Static(document::Axis::Z)), "");
    assert_eq!(
        normals_file(&document::MembraneNormal::Dynamic {
            heads: String::from("name P"),
            radius: scalar(2.0)
        }),
        ""
    );
}

#[test]
fn dynamic_normal_with_zero_or_negative_radius_is_refused() {
    for radius in [0.0f32, -0.0, -1.5, f32::NEG_INFINITY] {
        let params = GuiAnalysis {
            membrane_normal: MembraneNormal::Dynamic,
            dynamic_normal_params: DynamicNormalParams {
                heads: String::from("name P"),
                radius: scalar(radius),
            },
            ..Default::default()
        };
        let error = exported_normal(&params).unwrap_err();
        assert_eq!(error.kind(), ErrorKind::InvalidMembraneNormal);
        // the detail is the message of the engine, whole
        let message = gorder::input::DynamicNormal::new("name P", radius).unwrap_err().to_string();
        assert!(message.contains("must be larger than 0"));
        assert_eq!(
            error.to_string(),
            format!(
                "error: could not convert membrane normal parameters into gorder structure (details: {})",
                message
            )
        );
        match error {
            ConversionError::InvalidMembraneNormal(detail) => assert_eq!(detail, message),
            _ => panic!("Invalid error returned."),
        }
    }
}

#[test]
fn dynamic_normal_is_refused_by_the_library_where_no_answer_of_the_engine_is_at_hand() {
    let params = DynamicNormalParams { heads: String::from("name P"), radius: scalar(0.0) };
    match normal_to_document(MembraneNormal::Dynamic, &params, &String::new(), &None) {
        Err(ConversionError::InvalidMembraneNormal(detail)) => assert_eq!(
            detail,
            "the specified radius for dynamic membrane normal calculation must be larger than 0"
        ),
        _ => panic!("Invalid result returned."),
    }

    // a refusal of the engine is handed on as it came
    let params = DynamicNormalParams { heads: String::from("name P"), radius: scalar(2.0) };
    let reply = Some(String::from("refused by the engine"));
    match normal_to_document(MembraneNormal::Dynamic, &params, &String::new(), &reply) {
        Err(ConversionError::InvalidMembraneNormal(detail)) => {
            assert_eq!(detail, "refused by the engine")
        }
        _ => panic!("Invalid result returned."),
    }

    // only a dynamic normal is put to the engine
    assert!(normal_to_document(MembraneNormal::Z, &params, &String::new(), &reply).is_ok());
}

#[test]
fn dynamic_normal_radius_agrees_with_the_engine() {
    for radius in [1.0e-30f32, 0.5, 2.0, f32::INFINITY, f32::NAN, f32::MIN_POSITIVE] {
        let params = GuiAnalysis {
            membrane_normal: MembraneNormal::Dynamic,
            dynamic_normal_params: DynamicNormalParams {
                heads: String::from("name P"),
                radius: scalar(radius),
            },
            ..Default::default()
        };
        assert_eq!(
            exported_normal(&params).is_ok(),
            gorder::input::DynamicNormal::new("name P", radius).is_ok()
        );
    }
}

#[test]
fn membrane_normal_sanity() {
    let mut params = GuiAnalysis::default();
    assert!(params.check_membrane_normal_sanity());

    params.membrane_normal = MembraneNormal::Dynamic;
    assert!(!params.check_membrane_normal_sanity());
    params.dynamic_normal_params.heads = String::from("name P");
    assert!(params.check_membrane_normal_sanity());
    params.dynamic_normal_params.radius = scalar(0.0);
    assert!(!params.check_membrane_normal_sanity());
    params.dynamic_normal_params.radius = scalar(f32::NAN);
    assert!(!params.check_membrane_normal_sanity());
    params.dynamic_normal_params.radius = scalar(0.1);
    assert!(params.check_membrane_normal_sanity());

    params.membrane_normal = MembraneNormal::FromFile;
    assert!(!params.check_membrane_normal_sanity());
    params.from_file_normals = String::from("normals.yaml");
    assert!(params.check_membrane_normal_sanity());
}
