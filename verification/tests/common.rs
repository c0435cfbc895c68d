use guiorder::common::MembraneNormal;
use guiorder::document;
use guiorder::error::ConversionError;
use guiorder::scalar::Scalar;

#[test]
fn convert_axis() {
    assert_eq!(MembraneNormal::from_axis(document::Axis::X), MembraneNormal::X);

    assert_eq!(MembraneNormal::from_axis(document::Axis::Y), MembraneNormal::Y);

    assert_eq!(MembraneNormal::from_axis(document::Axis::Z), MembraneNormal::Z);
}

#[test]
fn convert_normal() {
    assert_eq!(
        MembraneNormal::try_from_document(&document::MembraneNormal::Static(document::Axis::Z))
            .unwrap(),
        MembraneNormal::Z
    );

    assert_eq!(
        MembraneNormal::try_from_document(&document::MembraneNormal::Dynamic {
            heads: String::from("name P"),
            radius: Scalar::from_bits(2.0f32.to_bits()),
        })
        .unwrap(),
        MembraneNormal::Dynamic
    );

    assert_eq!(
        MembraneNormal::try_from_document(&document::MembraneNormal::FromFile(String::from(
            "normals.yaml"
        )))
        .unwrap(),
        MembraneNormal::FromFile,
    );
}

#[test]
fn convert_normal_given_inline_is_refused() {
    match MembraneNormal::try_from_document(&document::MembraneNormal::FromMap) {
        Err(ConversionError::FromMapNormals) => (),
        _ => panic!("Inline membrane normals should be refused."),
    }
}

#[test]
fn axis_of_a_normal() {
    assert_eq!(MembraneNormal::X.axis(), Some(document::Axis::X));
    assert_eq!(MembraneNormal::Y.axis(), Some(document::Axis::Y));
    assert_eq!(MembraneNormal::Z.axis(), Some(document::Axis::Z));
    assert_eq!(MembraneNormal::Dynamic.axis(), None);
    assert_eq!(MembraneNormal::FromFile.axis(), None);
    assert_eq!(MembraneNormal::default(), MembraneNormal::Z);
}
