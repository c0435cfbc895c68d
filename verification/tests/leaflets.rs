use guiorder::common::{GuiAnalysis, MembraneNormal};
use guiorder::document;
use guiorder::document::{Axis, Frequency};
use guiorder::error::{ConversionError, ErrorKind};
use guiorder::leaflets::{
    convert_axis_option, frequency_from_raw, imported_frequency, raw_frequency,
    LeafletClassification, LeafletClassificationParams, LeafletClusteringParams,
    LeafletFromFileParams, LeafletFromNdxParams, LeafletGlobalParams, LeafletIndividualParams,
    LeafletLocalParams, RawFrequency,
};
use guiorder::scalar::Scalar;

fn scalar(x: f32) -> Scalar {
    Scalar::from_bits(x.to_bits())
}

fn close(a: Scalar, b: f32) -> bool {
    (f32::from_bits(a.to_bits()) - b).abs() <= 1e-6
}

/// What the engine answers to the radius of the local method: it panics on
/// a radius that is not above zero, with this message.
fn local_reply(params: &LeafletClassificationParams, method: LeafletClassification) -> Option<String> {
    let radius = f32::from_bits(params.local_params.radius.to_bits());
    if method == LeafletClassification::Local && radius <= 0.0 {
        Some(format!("Radius must be greater than 0, not `{}`.", radius))
    } else {
        None
    }
}

/// The leaflet block of the document, written with the answer of the engine.
fn export(
    params: &LeafletClassificationParams,
    method: LeafletClassification,
) -> Result<Option<document::LeafletClassification>, ConversionError> {
    params.to_document(method, &local_reply(params, method))
}

fn global(membrane: &str, heads: &str) -> document::LeafletClassification {
    document::LeafletClassification::Global {
        membrane: membrane.to_string(),
        heads: heads.to_string(),
        frequency: Frequency::Every(1),
        membrane_normal: None,
    }
}

fn local(membrane: &str, heads: &str, radius: f32) -> document::LeafletClassification {
    document::LeafletClassification::Local {
        membrane: membrane.to_string(),
        heads: heads.to_string(),
        radius: scalar(radius),
        frequency: Frequency::Every(1),
        membrane_normal: None,
    }
}

fn individual(heads: &str, methyls: &str) -> document::LeafletClassification {
    document::LeafletClassification::Individual {
        heads: heads.to_string(),
        methyls: methyls.to_string(),
        frequency: Frequency::Every(1),
        membrane_normal: None,
    }
}

fn clustering(heads: &str) -> document::LeafletClassification {
    document::LeafletClassification::Clustering {
        heads: heads.to_string(),
        frequency: Frequency::Every(1),
    }
}

fn from_file(file: &str) -> document::LeafletClassification {
    document::LeafletClassification::FromFile {
        file: file.to_string(),
        frequency: Frequency::Every(1),
    }
}

fn from_ndx(
    ndx: &[&str],
    heads: &str,
    upper_leaflet: &str,
    lower_leaflet: &str,
) -> document::LeafletClassification {
    document::LeafletClassification::FromNdx {
        ndx: ndx.iter().map(|x| x.to_string()).collect(),
        heads: heads.to_string(),
        upper_leaflet: upper_leaflet.to_string(),
        lower_leaflet: lower_leaflet.to_string(),
        frequency: Frequency::Every(1),
    }
}

fn with_frequency(
    method: document::LeafletClassification,
    frequency: Frequency,
) -> document::LeafletClassification {
    match method {
        document::LeafletClassification::Global { membrane, heads, membrane_normal, .. } => {
            document::LeafletClassification::Global { membrane, heads, frequency, membrane_normal }
        }
        document::LeafletClassification::Local {
            membrane, heads, radius, membrane_normal, ..
        } => document::LeafletClassification::Local {
            membrane,
            heads,
            radius,
            frequency,
            membrane_normal,
        },
        document::LeafletClassification::Individual { heads, methyls, membrane_normal, .. } => {
            document::LeafletClassification::Individual {
                heads,
                methyls,
                frequency,
                membrane_normal,
            }
        }
        document::LeafletClassification::FromFile { file, .. } => {
            document::LeafletClassification::FromFile { file, frequency }
        }
        document::LeafletClassification::FromMap { .. } => {
            document::LeafletClassification::FromMap { frequency }
        }
        document::LeafletClassification::FromNdx {
            heads, ndx, upper_leaflet, lower_leaflet, ..
        } => document::LeafletClassification::FromNdx {
            heads,
            ndx,
            upper_leaflet,
            lower_leaflet,
            frequency,
        },
        document::LeafletClassification::Clustering { heads, .. } => {
            document::LeafletClassification::Clustering { heads, frequency }
        }
    }
}

fn with_membrane_normal(
    method: document::LeafletClassification,
    axis: Axis,
) -> document::LeafletClassification {
    match method {
        document::LeafletClassification::Global { membrane, heads, frequency, .. } => {
            document::LeafletClassification::Global {
                membrane,
                heads,
                frequency,
                membrane_normal: Some(axis),
            }
        }
        document::LeafletClassification::Local { membrane, heads, radius, frequency, .. } => {
            document::LeafletClassification::Local {
                membrane,
                heads,
                radius,
                frequency,
                membrane_normal: Some(axis),
            }
        }
        document::LeafletClassification::Individual { heads, methyls, frequency, .. } => {
            document::LeafletClassification::Individual {
                heads,
                methyls,
                frequency,
                membrane_normal: Some(axis),
            }
        }
        other => other,
    }
}

#[test]
fn convert_classification_type() {
    assert_eq!(
        LeafletClassification::try_from_document(&None).unwrap(),
        LeafletClassification::NoAssignment
    );

    assert_eq!(
        LeafletClassification::try_from_document(&Some(global("@membrane", "name P"))).unwrap(),
        LeafletClassification::Global
    );

    assert_eq!(
        LeafletClassification::try_from_document(&Some(local("@membrane", "name P", 2.5)))
            .unwrap(),
        LeafletClassification::Local
    );

    assert_eq!(
        LeafletClassification::try_from_document(&Some(individual("name P", "name C218 C316",)))
            .unwrap(),
        LeafletClassification::Individual
    );

    assert_eq!(
        LeafletClassification::try_from_document(&Some(clustering("name P"))).unwrap(),
        LeafletClassification::Clustering
    );

    assert_eq!(
        LeafletClassification::try_from_document(&Some(from_file("leaflets.yaml"))).unwrap(),
        LeafletClassification::FromFile
    );

    assert_eq!(
        LeafletClassification::try_from_document(&Some(from_ndx(
            &["leaflets1.ndx", "leaflets2.ndx", "leaflets3.ndx"],
            "name P",
            "UpperLeaflet",
            "LowerLeaflet"
        )))
        .unwrap(),
        LeafletClassification::FromNdx
    );
}

#[test]
fn convert_classification_params() {
    let params =
        LeafletClassificationParams::try_from_document(&Some(global("@membrane", "name P")))
            .unwrap();

    assert_eq!(params.global_params.membrane, String::from("@membrane"));
    assert_eq!(params.global_params.heads, String::from("name P"));
    assert_eq!(params.frequency, Frequency::Every(1));
    assert!(params.membrane_normal.is_none());

    let params = LeafletClassificationParams::try_from_document(&Some(with_frequency(
        local("@membrane", "name P", 2.5),
        Frequency::Once,
    )))
    .unwrap();

    assert_eq!(params.local_params.membrane, String::from("@membrane"));
    assert_eq!(params.local_params.heads, String::from("name P"));
    assert!(close(params.local_params.radius, 2.5));
    // an assignment that is made once is read as one that is made every frame
    assert_eq!(params.frequency, Frequency::Every(1));
    assert!(params.membrane_normal.is_none());

    let params = LeafletClassificationParams::try_from_document(&Some(with_membrane_normal(
        individual("name P", "name C218 C316"),
        Axis::Y,
    )))
    .unwrap();

    assert_eq!(params.individual_params.heads, String::from("name P"));
    assert_eq!(params.individual_params.methyls, String::from("name C218 C316"));
    assert_eq!(params.frequency, Frequency::Every(1));
    assert_eq!(params.membrane_normal, Some(MembraneNormal::Y));

    let params = LeafletClassificationParams::try_from_document(&Some(with_frequency(
        clustering("name P"),
        Frequency::Once,
    )))
    .unwrap();

    assert_eq!(params.clustering_params.heads, String::from("name P"));
    // an assignment that is made once is read as one that is made every frame
    assert_eq!(params.frequency, Frequency::Every(1));

    let params =
        LeafletClassificationParams::try_from_document(&Some(from_file("leaflets.yaml"))).unwrap();

    assert_eq!(params.from_file_params.file, String::from("leaflets.yaml"));
    assert_eq!(params.frequency, Frequency::Every(1));

    let params = LeafletClassificationParams::try_from_document(&Some(with_frequency(
        from_ndx(
            &["leaflets1.ndx", "leaflets2.ndx", "leaflets3.ndx"],
            "name P",
            "UpperLeaflet",
            "LowerLeaflet",
        ),
        Frequency::Every(5),
    )))
    .unwrap();

    assert_eq!(
        params.from_ndx_params.ndx,
        vec![
            String::from("leaflets1.ndx"),
            String::from("leaflets2.ndx"),
            String::from("leaflets3.ndx")
        ]
    );
    assert_eq!(params.from_ndx_params.heads, String::from("name P"));
    assert_eq!(params.from_ndx_params.upper_leaflet, String::from("UpperLeaflet"));
    assert_eq!(params.from_ndx_params.lower_leaflet, String::from("LowerLeaflet"));
    assert_eq!(params.frequency, Frequency::Every(5));
}

#[test]
fn leaflets_given_inline_are_refused() {
    let inline = Some(document::LeafletClassification::FromMap { frequency: Frequency::Every(1) });
    assert!(matches!(
        LeafletClassification::try_from_document(&inline),
        Err(ConversionError::FromMapLeaflets)
    ));
    match LeafletClassificationParams::try_from_document(&inline) {
        Err(error) => {
            assert_eq!(error.kind(), ErrorKind::FromMapLeaflets);
            assert_eq!(
                error.to_string(),
                "error: guiorder does not support inline specification of leaflet assignment"
            );
        }
        Ok(_) => panic!("Inline leaflets should be refused."),
    }
}

#[test]
fn leaflet_defaults() {
    let params = LeafletClassificationParams::default();
    assert_eq!(params.frequency, Frequency::Every(1));
    assert!(params.membrane_normal.is_none());
    assert_eq!(params.local_params.radius.to_bits(), 2.5f32.to_bits());
    assert!(params.from_ndx_params.ndx.is_empty());
    assert_eq!(LeafletClassification::default(), LeafletClassification::NoAssignment);
    assert_eq!(RawFrequency::default(), RawFrequency::Every);

    let params = LeafletClassificationParams::try_from_document(&None).unwrap();
    assert_eq!(params.frequency, Frequency::Every(1));
    assert_eq!(params.global_params.heads, "");
}

#[test]
fn leaflet_labels() {
    assert_eq!(LeafletClassification::NoAssignment.to_string(), "");
    assert_eq!(LeafletClassification::Global.to_string(), "global");
    assert_eq!(LeafletClassification::Local.to_string(), "local");
    assert_eq!(LeafletClassification::Individual.to_string(), "individual");
    assert_eq!(LeafletClassification::Clustering.to_string(), "clustering");
    assert_eq!(LeafletClassification::FromFile.to_string(), "leaflet assignment file");
    assert_eq!(LeafletClassification::FromNdx.to_string(), "NDX files");
}

#[test]
fn axis_option_is_converted() {
    assert_eq!(convert_axis_option(None), None);
    assert_eq!(convert_axis_option(Some(Axis::X)), Some(MembraneNormal::X));
    assert_eq!(convert_axis_option(Some(Axis::Y)), Some(MembraneNormal::Y));
    assert_eq!(convert_axis_option(Some(Axis::Z)), Some(MembraneNormal::Z));
}

#[test]
fn frequency_choices() {
    assert_eq!(raw_frequency(Frequency::Once), (RawFrequency::Once, 0));
    assert_eq!(raw_frequency(Frequency::Every(1)), (RawFrequency::Every, 1));
    assert_eq!(raw_frequency(Frequency::Every(2)), (RawFrequency::EveryN, 2));
    assert_eq!(raw_frequency(Frequency::Every(25)), (RawFrequency::EveryN, 25));

    assert_eq!(frequency_from_raw(RawFrequency::Once, 0), Frequency::Once);
    assert_eq!(frequency_from_raw(RawFrequency::Once, 7), Frequency::Once);
    assert_eq!(frequency_from_raw(RawFrequency::Every, 1), Frequency::Every(1));
    assert_eq!(frequency_from_raw(RawFrequency::Every, 9), Frequency::Every(1));
    assert_eq!(frequency_from_raw(RawFrequency::EveryN, 0), Frequency::Every(2));
    assert_eq!(frequency_from_raw(RawFrequency::EveryN, 1), Frequency::Every(2));
    assert_eq!(frequency_from_raw(RawFrequency::EveryN, 2), Frequency::Every(2));
    assert_eq!(frequency_from_raw(RawFrequency::EveryN, 40), Frequency::Every(40));

    for frequency in [Frequency::Once, Frequency::Every(1), Frequency::Every(3)] {
        let (raw, n) = raw_frequency(frequency);
        assert_eq!(frequency_from_raw(raw, n), frequency);
    }
}

#[test]
fn once_and_every_frame_are_read_alike_and_written_as_every_frame() {
    assert_eq!(imported_frequency(Frequency::Once), Frequency::Every(1));
    assert_eq!(imported_frequency(Frequency::Every(1)), Frequency::Every(1));
    assert_eq!(imported_frequency(Frequency::Every(4)), Frequency::Every(4));

    for frequency in [Frequency::Once, Frequency::Every(1)] {
        let document = Some(with_frequency(global("@membrane", "name P"), frequency));
        let method = LeafletClassification::try_from_document(&document).unwrap();
        let params = LeafletClassificationParams::try_from_document(&document).unwrap();
        assert_eq!(raw_frequency(params.frequency), (RawFrequency::Every, 1));
        match export(&params, method).unwrap() {
            Some(document::LeafletClassification::Global { frequency, .. }) => {
                assert_eq!(frequency, Frequency::Every(1))
            }
            _ => panic!("Invalid leaflet classification returned."),
        }
    }
}

#[test]
fn leaflets_are_written_for_the_selected_method_only() {
    let params = LeafletClassificationParams {
        global_params: LeafletGlobalParams {
            membrane: String::from("@membrane"),
            heads: String::from("name P"),
        },
        local_params: LeafletLocalParams {
            membrane: String::from("@membrane"),
            heads: String::from("name PO4"),
            radius: scalar(3.0),
        },
        individual_params: LeafletIndividualParams {
            heads: String::from("name P"),
            methyls: String::from("name C218 C316"),
        },
        clustering_params: LeafletClusteringParams { heads: String::from("name P") },
        from_file_params: LeafletFromFileParams { file: String::from("leaflets.yaml") },
        from_ndx_params: LeafletFromNdxParams {
            heads: String::from("name P"),
            ndx: vec![String::from("a.ndx"), String::from("b.ndx")],
            upper_leaflet: String::from("Upper"),
            lower_leaflet: String::from("Lower"),
        },
        frequency: Frequency::Every(10),
        membrane_normal: Some(MembraneNormal::X),
    };

    assert!(export(&params, LeafletClassification::NoAssignment).unwrap().is_none());

    match export(&params, LeafletClassification::Global).unwrap().unwrap() {
        document::LeafletClassification::Global { membrane, heads, frequency, membrane_normal } => {
            assert_eq!(membrane, "@membrane");
            assert_eq!(heads, "name P");
            assert_eq!(frequency, Frequency::Every(10));
            assert_eq!(membrane_normal, Some(Axis::X));
        }
        _ => panic!("Invalid leaflet classification returned."),
    }
    match export(&params, LeafletClassification::Local).unwrap().unwrap() {
        document::LeafletClassification::Local {
            membrane,
            heads,
            radius,
            frequency,
            membrane_normal,
        } => {
            assert_eq!(membrane, "@membrane");
            assert_eq!(heads, "name PO4");
            assert_eq!(radius, scalar(3.0));
            assert_eq!(frequency, Frequency::Every(10));
            assert_eq!(membrane_normal, Some(Axis::X));
        }
        _ => panic!("Invalid leaflet classification returned."),
    }
    match export(&params, LeafletClassification::Individual).unwrap().unwrap() {
        document::LeafletClassification::Individual {
            heads,
            methyls,
            frequency,
            membrane_normal,
        } => {
            assert_eq!(heads, "name P");
            assert_eq!(methyls, "name C218 C316");
            assert_eq!(frequency, Frequency::Every(10));
            assert_eq!(membrane_normal, Some(Axis::X));
        }
        _ => panic!("Invalid leaflet classification returned."),
    }
    match export(&params, LeafletClassification::Clustering).unwrap().unwrap() {
        document::LeafletClassification::Clustering { heads, frequency } => {
            assert_eq!(heads, "name P");
            assert_eq!(frequency, Frequency::Every(10));
        }
        _ => panic!("Invalid leaflet classification returned."),
    }
    match export(&params, LeafletClassification::FromFile).unwrap().unwrap() {
        document::LeafletClassification::FromFile { file, frequency } => {
            assert_eq!(file, "leaflets.yaml");
            assert_eq!(frequency, Frequency::Every(10));
        }
        _ => panic!("Invalid leaflet classification returned."),
    }
    match export(&params, LeafletClassification::FromNdx).unwrap().unwrap() {
        document::LeafletClassification::FromNdx {
            heads,
            ndx,
            upper_leaflet,
            lower_leaflet,
            frequency,
        } => {
            assert_eq!(heads, "name P");
            assert_eq!(ndx, vec![String::from("a.ndx"), String::from("b.ndx")]);
            assert_eq!(upper_leaflet, "Upper");
            assert_eq!(lower_leaflet, "Lower");
            assert_eq!(frequency, Frequency::Every(10));
        }
        _ => panic!("Invalid leaflet classification returned."),
    }
}

#[test]
fn leaflets_that_the_engine_refuses_are_refused() {
    let mut params = LeafletClassificationParams::default();
    params.local_params.radius = scalar(0.0);
    // with the answer of the engine the detail is the engine's message
    match export(&params, LeafletClassification::Local) {
        Err(ConversionError::InvalidAnalysisParams(detail)) => {
            assert_eq!(detail, "Radius must be greater than 0, not `0`.")
        }
        _ => panic!("Invalid result returned."),
    }
    // without it the library refuses with a detail of its own
    match params.to_document(LeafletClassification::Local, &None) {
        Err(ConversionError::InvalidAnalysisParams(detail)) => {
            assert_eq!(detail, "radius for the local leaflet assignment must be greater than 0")
        }
        _ => panic!("Invalid result returned."),
    }
    // the answer is looked at for the local method only
    let reply = Some(String::from("refused by the engine"));
    assert!(params.to_document(LeafletClassification::Global, &reply).is_ok());
    params.local_params.radius = scalar(2.5);
    match params.to_document(LeafletClassification::Local, &reply) {
        Err(ConversionError::InvalidAnalysisParams(detail)) => {
            assert_eq!(detail, "refused by the engine")
        }
        _ => panic!("Invalid result returned."),
    }
    // the radius of the local method is not looked at for another method
    params.local_params.radius = scalar(0.0);
    assert!(export(&params, LeafletClassification::Global).is_ok());

    let mut params = LeafletClassificationParams::default();
    params.frequency = Frequency::Every(0);
    match export(&params, LeafletClassification::Clustering) {
        Err(ConversionError::InvalidAnalysisParams(detail)) => {
            assert!(detail.contains("frequency has to be at least 1"))
        }
        _ => panic!("Invalid result returned."),
    }
    assert!(export(&params, LeafletClassification::NoAssignment).unwrap().is_none());

    let mut params = LeafletClassificationParams::default();
    params.membrane_normal = Some(MembraneNormal::Dynamic);
    match export(&params, LeafletClassification::Individual) {
        Err(ConversionError::InvalidAnalysisParams(detail)) => assert_eq!(
            detail,
            "membrane normal for the leaflet assignment must be one of the axes x, y, z"
        ),
        _ => panic!("Invalid result returned."),
    }
    // a method that takes no normal does not look at it
    assert!(export(&params, LeafletClassification::Clustering).is_ok());
}

#[test]
fn group_sanity_checks() {
    let mut global_params = LeafletGlobalParams::default();
    assert!(!global_params.sanity_check());
    global_params.membrane = String::from("@membrane");
    assert!(!global_params.sanity_check());
    global_params.heads = String::from("name P");
    assert!(global_params.sanity_check());

    let mut local_params = LeafletLocalParams::default();
    assert!(!local_params.sanity_check());
    local_params.membrane = String::from("@membrane");
    local_params.heads = String::from("name P");
    assert!(local_params.sanity_check());
    local_params.radius = scalar(0.0);
    assert!(!local_params.sanity_check());
    local_params.radius = scalar(-2.0);
    assert!(!local_params.sanity_check());
    local_params.radius = scalar(0.25);
    assert!(local_params.sanity_check());

    let mut individual_params = LeafletIndividualParams::default();
    assert!(!individual_params.sanity_check());
    individual_params.heads = String::from("name P");
    assert!(!individual_params.sanity_check());
    individual_params.methyls = String::from("name C218 C316");
    assert!(individual_params.sanity_check());

    let mut clustering_params = LeafletClusteringParams::default();
    assert!(!clustering_params.sanity_check());
    clustering_params.heads = String::from("name P");
    assert!(clustering_params.sanity_check());

    let mut from_file_params = LeafletFromFileParams::default();
    assert!(!from_file_params.sanity_check());
    from_file_params.file = String::from("leaflets.yaml");
    assert!(from_file_params.sanity_check());

    let mut from_ndx_params = LeafletFromNdxParams::default();
    assert!(!from_ndx_params.sanity_check());
    from_ndx_params.heads = String::from("name P");
    from_ndx_params.upper_leaflet = String::from("Upper");
    from_ndx_params.lower_leaflet = String::from("Lower");
    // no NDX file yet
    assert!(!from_ndx_params.sanity_check());
    from_ndx_params.ndx = vec![String::from("a.ndx"), String::new()];
    assert!(!from_ndx_params.sanity_check());
    from_ndx_params.ndx = vec![String::from("a.ndx"), String::from("b.ndx")];
    assert!(from_ndx_params.sanity_check());
    from_ndx_params.lower_leaflet = String::new();
    assert!(!from_ndx_params.sanity_check());
}

#[test]
fn dynamic_normal_asks_for_an_explicit_leaflet_normal() {
    let mut params = GuiAnalysis {
        membrane_normal: MembraneNormal::Dynamic,
        leaflet_classification_method: LeafletClassification::Global,
        ..Default::default()
    };
    params.leaflet_classification_params.global_params = LeafletGlobalParams {
        membrane: String::from("@membrane"),
        heads: String::from("name P"),
    };
    assert!(!params.check_leaflets_sanity());
    assert!(params.leaflet_classification_params.normal_must_be_set(params.membrane_normal));
    assert_eq!(
        params.leaflet_classification_params.shown_normal(params.membrane_normal),
        MembraneNormal::Dynamic
    );

    params.leaflet_classification_params.set_normal(Axis::Z);
    assert_eq!(params.leaflet_classification_params.membrane_normal, Some(MembraneNormal::Z));
    assert!(params.check_leaflets_sanity());
    assert!(!params.leaflet_classification_params.normal_must_be_set(params.membrane_normal));
    assert_eq!(
        params.leaflet_classification_params.shown_normal(params.membrane_normal),
        MembraneNormal::Z
    );

    // a method that takes no normal needs none
    params.leaflet_classification_params.membrane_normal = None;
    params.leaflet_classification_method = LeafletClassification::Clustering;
    params.leaflet_classification_params.clustering_params.heads = String::from("name P");
    assert!(params.check_leaflets_sanity());

    // a static global normal is used where no explicit one is set
    params.leaflet_classification_method = LeafletClassification::Global;
    params.membrane_normal = MembraneNormal::Y;
    assert!(params.check_leaflets_sanity());
    assert_eq!(
        params.leaflet_classification_params.shown_normal(params.membrane_normal),
        MembraneNormal::Y
    );
    params.membrane_normal = MembraneNormal::FromFile;
    assert!(params.check_leaflets_sanity());
    assert!(params.leaflet_classification_params.normal_must_be_set(params.membrane_normal));
}

#[test]
fn leaflets_global_with_empty_heads_is_invalid() {
    let mut params = GuiAnalysis {
        leaflet_classification_method: LeafletClassification::Global,
        ..Default::default()
    };
    params.leaflet_classification_params.global_params.membrane = String::from("@membrane");
    assert!(!params.check_leaflets_sanity());
    params.leaflet_classification_params.global_params.heads = String::from("name P");
    assert!(params.check_leaflets_sanity());
}
