//! Data-URL parsing, base64 decoding and stored-path construction.

use onboarding::file_service::FileService;
use onboarding::generic_service::GenericService;

#[test]
fn a_well_formed_data_url_splits_into_format_and_payload() {
    let parsed = FileService::parse_data_url("data:image/png;base64,AQID").unwrap();
    assert_eq!(parsed.0, "png");
    assert_eq!(parsed.1, "AQID");
    let parsed = FileService::parse_data_url("data:image/jpeg;base64,/9j/4A==").unwrap();
    assert_eq!(parsed.0, "jpeg");
    assert_eq!(parsed.1, "/9j/4A==");
}

#[test]
fn inputs_without_a_comma_are_invalid_input() {
    let e = FileService::parse_data_url("data:image/png;base64").unwrap_err();
    assert_eq!(e, "Invalid base64 input");
}

#[test]
fn inputs_without_the_image_prefix_are_an_invalid_format() {
    let e = FileService::parse_data_url("data:text/plain;base64,AQID").unwrap_err();
    assert_eq!(e, "Invalid base64 format");
    let e = FileService::parse_data_url("x,AQID").unwrap_err();
    assert_eq!(e, "Invalid base64 format");
    let e = FileService::parse_data_url("data:image/png,AQID").unwrap_err();
    assert_eq!(e, "Invalid base64 format");
}

#[test]
fn the_payload_decodes_through_real_base64() {
    let decoded = FileService::decode_base64_image("data:image/png;base64,AQID").unwrap();
    assert_eq!(decoded.0, "png");
    assert_eq!(decoded.1, vec![1u8, 2, 3]);
    let decoded = FileService::decode_base64_image("data:image/gif;base64,aGVsbG8=").unwrap();
    assert_eq!(decoded.1, b"hello".to_vec());
}

#[test]
fn an_undecodable_payload_is_a_decode_error() {
    let e = FileService::decode_base64_image("data:image/png;base64,!!!").unwrap_err();
    assert_eq!(e, "Base64 decode error");
}

#[test]
fn the_relative_path_is_folder_name_time_and_format() {
    let folder = GenericService::random_string_by_suffix(30, "ayu@example.com", "KTP");
    let path = FileService::build_relative_path("ayu@example.com", "KTP", "20240102", "093015", "png");
    assert_eq!(path, format!("{}20240102/KTP-093015.png", folder));
}
