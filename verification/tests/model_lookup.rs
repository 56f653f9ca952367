use music_separator::error::AppError;
use music_separator::model_data::{find_by_name, ModelParams};

fn sample_params() -> Vec<ModelParams> {
    vec![
        ModelParams {
            compensate_bits: 1.021_f32.to_bits(),
            mdx_dim_f_set: 3072,
            mdx_dim_t_set: 8,
            mdx_n_fft_scale_set: 7680,
            primary_stem: "Vocals".to_string(),
            name: "UVR-MDX-NET-Voc_FT.onnx".to_string(),
        },
        ModelParams {
            compensate_bits: 1.035_f32.to_bits(),
            mdx_dim_f_set: 2048,
            mdx_dim_t_set: 8,
            mdx_n_fft_scale_set: 5120,
            primary_stem: "Instrumental".to_string(),
            name: "UVR_MDXNET_KARA_2.onnx".to_string(),
        },
    ]
}

#[test]
fn find_by_name_returns_matching_model() {
    let params = sample_params();
    let found = find_by_name(&params, "UVR-MDX-NET-Voc_FT.onnx").expect("should find");
    assert_eq!(found.name, "UVR-MDX-NET-Voc_FT.onnx");
    assert_eq!(f32::from_bits(found.compensate_bits), 1.021);
}

#[test]
fn find_by_name_unknown_returns_model_not_in_registry() {
    let params = sample_params();
    let err = find_by_name(&params, "missing.onnx").expect_err("should not find");
    assert!(matches!(err, AppError::ModelNotInRegistry(name) if name == "missing.onnx"));
}

#[test]
fn find_by_name_takes_the_first_of_duplicate_names() {
    let mut params = sample_params();
    let mut dup = params[0].clone();
    dup.mdx_dim_f_set = 1;
    params.push(dup);
    let found = find_by_name(&params, "UVR-MDX-NET-Voc_FT.onnx").unwrap();
    assert_eq!(found.mdx_dim_f_set, 3072);
}

#[test]
fn find_by_name_in_empty_registry_fails() {
    let params: Vec<ModelParams> = Vec::new();
    assert!(matches!(
        find_by_name(&params, "a.onnx"),
        Err(AppError::ModelNotInRegistry(n)) if n == "a.onnx"
    ));
}
