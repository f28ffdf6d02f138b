use jhtensor::tensor::Activation;

#[test]
fn test_to_shader_flag() {
    assert_eq!(Activation::Linear.to_shader_flag(), 0);
    assert_eq!(Activation::ReLU.to_shader_flag(), 1);
}
