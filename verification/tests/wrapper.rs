use lightgbm_rust::Booster;
use lightgbm_rust::LightGBMError;
use lightgbm_rust::predict_type;
use lightgbm_rust::C_API_DTYPE_FLOAT32;
use lightgbm_rust::C_API_DTYPE_FLOAT64;

fn booster(handle: usize) -> Booster {
    Booster::load_from_native(0, handle, "").unwrap()
}

#[test]
fn check_return_value_zero_is_ok() {
    assert!(LightGBMError::check_return_value(0, "").is_ok());
}

#[test]
fn check_return_value_nonzero_is_err_with_last_error() {
    let e = LightGBMError::check_return_value(-1, "native exploded").unwrap_err();
    assert_eq!(e.description, "native exploded");
    let e = LightGBMError::check_return_value(7, "other failure").unwrap_err();
    assert_eq!(e.description, "other failure");
}

#[test]
fn load_from_native_success_keeps_handle() {
    let b = Booster::load_from_native(0, 42, "").unwrap();
    assert_eq!(b.handle(), 42);
}

#[test]
fn load_from_native_failure_carries_message() {
    let e = Booster::load_from_native(1, 0, "could not parse model").unwrap_err();
    assert_eq!(e.description, "could not parse model");
}

#[test]
fn count_from_native_returns_value_on_success() {
    assert_eq!(Booster::count_from_native(0, 13, "").unwrap(), 13);
    let e = Booster::count_from_native(2, 13, "no model").unwrap_err();
    assert_eq!(e.description, "no model");
}

#[test]
fn load_accepts_plain_path() {
    let t = Booster::load("model.txt").unwrap();
    assert_eq!(t.as_bytes(), b"model.txt");
}

#[test]
fn load_rejects_nul_in_path() {
    let e = Booster::load("model\0.txt").unwrap_err();
    assert_eq!(e.description, "Path contains NUL byte");
}

#[test]
fn load_from_string_accepts_model_text() {
    let t = Booster::load_from_string("tree\nversion=v3\n").unwrap();
    assert_eq!(t.as_bytes(), b"tree\nversion=v3\n");
}

#[test]
fn load_from_string_keeps_multibyte_text() {
    let t = Booster::load_from_string("tr\u{e9}e \u{10348}").unwrap();
    assert_eq!(t.as_bytes(), "tr\u{e9}e \u{10348}".as_bytes());
}

#[test]
fn load_from_string_rejects_embedded_nul() {
    let e = Booster::load_from_string("tree\0version").unwrap_err();
    assert_eq!(e.description, "Model string contains NUL byte");
}

#[test]
fn load_from_buffer_accepts_utf8_text() {
    let t = Booster::load_from_buffer(b"tree\nversion=v3\n").unwrap();
    assert_eq!(t.as_bytes(), b"tree\nversion=v3\n");
    assert_eq!(t.into_bytes(), b"tree\nversion=v3\n".to_vec());
}

#[test]
fn load_from_buffer_rejects_invalid_utf8() {
    let e = Booster::load_from_buffer(&[0xff, 0xfe, 0x00]).unwrap_err();
    assert_eq!(e.description, "Invalid UTF-8 in model buffer");
}

#[test]
fn load_from_buffer_decode_check_comes_first() {
    // A buffer that is both undecodable and NUL-carrying fails as a decode
    // error: the NUL check is never reached.
    let e = Booster::load_from_buffer(&[b'a', 0x00, 0x80]).unwrap_err();
    assert_eq!(e.description, "Invalid UTF-8 in model buffer");
}

#[test]
fn load_from_buffer_rejects_embedded_nul() {
    let e = Booster::load_from_buffer(b"tree\0version").unwrap_err();
    assert_eq!(e.description, "Model string contains NUL byte");
}

#[test]
fn predict_builds_the_native_call() {
    let b = booster(42);
    let call = b.predict(4, 1, 4, predict_type::NORMAL).unwrap();
    assert_eq!(call.handle, 42);
    assert_eq!(call.data_type, C_API_DTYPE_FLOAT64);
    assert_eq!(call.num_rows, 1);
    assert_eq!(call.num_cols, 4);
    assert_eq!(call.is_row_major, 1);
    assert_eq!(call.predict_type, 0);
    assert_eq!(call.start_iteration, 0);
    assert_eq!(call.num_iteration, -1);
}

#[test]
fn predict_leaf_index_call_differs_only_in_kind() {
    let b = booster(42);
    let call = b.predict(4, 1, 4, predict_type::LEAF_INDEX).unwrap();
    assert_eq!(call.predict_type, 2);
    assert_eq!(call.data_type, C_API_DTYPE_FLOAT64);
}

#[test]
fn predict_f32_uses_the_f32_type_tag() {
    let b = booster(7);
    let call = b.predict_f32(6, 2, 3, predict_type::RAW_SCORE).unwrap();
    assert_eq!(call.data_type, C_API_DTYPE_FLOAT32);
    assert_eq!(call.num_rows, 2);
    assert_eq!(call.num_cols, 3);
    assert_eq!(call.predict_type, 1);
}

#[test]
fn predict_rejects_size_mismatch() {
    let b = booster(42);
    let e = b.predict(3, 1, 4, 0).unwrap_err();
    assert_eq!(
        e.description,
        "Input data size mismatch: expected 4 elements (1x4), got 3"
    );
}

#[test]
fn predict_rejects_empty_buffer_for_nonempty_shape() {
    let b = booster(42);
    let e = b.predict(0, 2, 2, 0).unwrap_err();
    assert_eq!(
        e.description,
        "Input data size mismatch: expected 4 elements (2x2), got 0"
    );
}

#[test]
fn predict_accepts_empty_matrix() {
    let b = booster(42);
    let call = b.predict(0, 0, 0, 0).unwrap();
    assert_eq!(call.num_rows, 0);
    assert_eq!(call.num_cols, 0);
}

#[test]
fn predict_rejects_negative_dimensions() {
    let b = booster(42);
    let e = b.predict(4, -1, 4, 0).unwrap_err();
    assert_eq!(
        e.description,
        "Invalid data dimensions: num_rows (-1) and num_cols (4) must be non-negative"
    );
    let e = b.predict(0, -1, 0, 0).unwrap_err();
    assert_eq!(
        e.description,
        "Invalid data dimensions: num_rows (-1) and num_cols (0) must be non-negative"
    );
}

#[test]
fn predict_checks_the_product_with_checked_arithmetic() {
    // The largest product two i32 counts can form; it must be computed
    // without overflow and reported exactly.
    let b = booster(42);
    let e = b.predict(1, i32::MAX, i32::MAX, 0).unwrap_err();
    assert_eq!(
        e.description,
        "Input data size mismatch: expected 4611686014132420609 elements (2147483647x2147483647), got 1"
    );
}

#[test]
fn predict_f32_validates_like_predict() {
    let b = booster(42);
    let e = b.predict_f32(5, 2, 2, 0).unwrap_err();
    assert_eq!(
        e.description,
        "Input data size mismatch: expected 4 elements (2x2), got 5"
    );
}

#[test]
fn errors_compare_by_description() {
    let a = LightGBMError::check_return_value(1, "same").unwrap_err();
    let b = LightGBMError::check_return_value(2, "same").unwrap_err();
    let c = LightGBMError::check_return_value(1, "other").unwrap_err();
    assert_eq!(a, b);
    assert_ne!(a, c);
}

#[test]
fn predict_type_constants_match_the_native_convention() {
    assert_eq!(predict_type::NORMAL, 0);
    assert_eq!(predict_type::RAW_SCORE, 1);
    assert_eq!(predict_type::LEAF_INDEX, 2);
    assert_eq!(predict_type::CONTRIB, 3);
}
