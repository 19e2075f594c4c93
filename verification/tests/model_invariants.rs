use cad2robot_core::model::SCALE_MM_TO_M;
use cad2robot_core::{JointType, Metadata, RobotModel};

#[test]
fn root_model_has_sane_defaults() {
    let model = RobotModel::new("demo");
    assert_eq!(model.links.len(), 0);
    assert_eq!(model.joints.len(), 0);
    assert!((f64::from_bits(model.meta.scale_factor) - 0.001).abs() < 1e-12);
}

#[test]
fn new_model_takes_its_name_and_default_metadata() {
    let model = RobotModel::new("test_robot");
    assert_eq!(model.meta.robot_name, "test_robot");
    assert_eq!(model.meta.notes, "");
    assert_eq!(model.root_link_id, "");
    assert_eq!(f64::from_bits(model.meta.scale_factor), 0.001);
}

#[test]
fn metadata_default_is_millimetres_to_metres() {
    let meta = Metadata::default();
    assert_eq!(meta.scale_factor, SCALE_MM_TO_M);
    assert_eq!(f64::from_bits(SCALE_MM_TO_M), 0.001);
    assert_eq!(meta.robot_name, "my_robot");
    assert!(meta.notes.is_empty());
}

#[test]
fn joint_types_compare_by_variant() {
    assert_eq!(JointType::Revolute, JointType::Revolute);
    assert_ne!(JointType::Fixed, JointType::Continuous);
    assert_eq!(JointType::Prismatic.clone(), JointType::Prismatic);
}
