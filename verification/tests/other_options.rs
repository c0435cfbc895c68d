use guiorder::document;
use guiorder::other_options::OtherParams;
use guiorder::scalar::Scalar;

#[test]
fn convert_other_options() {
    let analysis = document::Analysis {
        structure: String::from("tests/files/pcpepg.tpr"),
        bonds: None,
        trajectory: vec![String::from("tests/files/pcpepg.xtc")],
        index: None,
        output_yaml: None,
        output_tab: None,
        output_xvg: None,
        output_csv: None,
        analysis_type: document::AnalysisType::AAOrder {
            heavy_atoms: String::from("@membrane and element name carbon"),
            hydrogens: String::from("@membrane and element name hydrogen"),
        },
        membrane_normal: document::MembraneNormal::Static(document::Axis::Z),
        begin: Scalar::from_bits(0.0f32.to_bits()),
        end: Scalar::from_bits(f32::INFINITY.to_bits()),
        step: 1,
        min_samples: 10,
        n_threads: 8,
        leaflets: None,
        map: None,
        estimate_error: None,
        geometry: None,
        handle_pbc: false,
        silent: true,
        overwrite: true,
    };

    let params = OtherParams::from_document(&analysis);
    assert_eq!(params.min_samples, 10);
    assert!(!params.handle_pbc);
    assert!(params.silent);
    assert!(params.overwrite);
    assert_eq!(params.n_threads, 8);
}

#[test]
fn other_options_defaults() {
    let params = OtherParams::default();
    assert_eq!(params.min_samples, 1);
    assert_eq!(params.n_threads, 1);
    assert!(params.handle_pbc);
    assert!(!params.overwrite);
    assert!(!params.silent);
    assert!(!params.uses_several_threads());
    assert!(OtherParams { n_threads: 2, ..params }.uses_several_threads());
}
