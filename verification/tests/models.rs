use aurisd::autoconnect::model_bytes;
use aurisd::models::{model_id, model_name};

#[test]
fn required_models_present() {
    for id in [
        "2002", "200F", "2013", "2019", "201B", "200E", "2014", "2024", "200A", "201F",
    ] {
        assert!(model_name(id).is_some(), "missing model {id}");
    }
    assert_eq!(model_name("201b"), Some("AirPods 4 (ANC)"));
    assert_eq!(model_name("FFFF"), None);
}

#[test]
fn model_id_is_uppercase_hex() {
    assert_eq!(model_id(0x201B), "201B");
    assert_eq!(model_id(0x2002), "2002");
}

#[test]
fn a_model_id_reads_back_as_its_product() {
    for product in [0, 0x1b, 0x0a0f, 0x2014, 0x201b, 0xffff] {
        let id = model_id(product);
        let bytes = [(product % 256) as u8, (product / 256) as u8];
        assert_eq!(model_bytes(&id), bytes);
        assert_eq!(model_bytes(&format!("\t{} \u{3000}", id.to_lowercase())), bytes);
    }
    assert_eq!(model_bytes(&model_id(0x10000)), [0x1b, 0x20]);
}
