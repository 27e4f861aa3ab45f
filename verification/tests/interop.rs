use noise_engine_native::interop_array::{
    interop_interop_array_test_unmanaged_create, interop_interop_array_test_unmanaged_destroy,
    interop_interop_array_test_unmanaged_read, interop_interop_array_test_unmanaged_write,
    InteropArray,
};
use noise_engine_native::interop_read_only_span::InteropReadOnlySpan;
use noise_engine_native::interop_result::{
    classify_backend_code, InteropError, InteropErrorKind, InteropResult,
};

#[test]
fn span_round_trip_preserves_pointer_and_length() {
    let data: Vec<u64> = vec![10, 20, 30, 40];
    let original: &[u64] = &data;
    let span = InteropReadOnlySpan::from(original);
    assert_eq!(span.len(), 4);
    assert!(!span.is_empty());
    let back: &[u64] = span.into();
    assert_eq!(back.as_ptr(), original.as_ptr());
    assert_eq!(back.len(), original.len());
    assert_eq!(back, original);
}

#[test]
fn span_over_empty_slice_is_empty() {
    let data: Vec<i32> = Vec::new();
    let span = InteropReadOnlySpan::from(&data[..]);
    assert_eq!(span.len(), 0);
    assert!(span.is_empty());
}

#[test]
fn array_write_then_read_round_trip() {
    let mut array: InteropArray<i32> = InteropArray::new(3, 0);
    array.write(1, 42);
    assert_eq!(array.read(1), 42);
    assert_eq!(array.read(0), 0);
    assert_eq!(array.read(2), 0);
    array.destroy();
}

#[test]
fn array_scenario_create_five_write_read_destroy() {
    let mut array: InteropArray<i32> = InteropArray::new(5, 0);
    assert_eq!(array.len(), 5);
    for i in 0..5 {
        array.write(i, i);
    }
    for i in 0..5 {
        assert_eq!(array.read(i), i);
    }
    array.destroy();
}

#[test]
fn array_repeated_create_destroy_cycles() {
    for _ in 0..200 {
        let array: InteropArray<u64> = InteropArray::new(1024, 7);
        assert_eq!(array.len(), 1024);
        array.destroy();
    }
    let empty: InteropArray<u64> = InteropArray::new(0, 0);
    assert_eq!(empty.len(), 0);
    empty.destroy();
}

#[test]
fn array_out_of_bounds_is_rejected_not_mangled() {
    let mut array: InteropArray<i32> = InteropArray::new(2, 5);
    assert_eq!(array.try_read(-1), None);
    assert_eq!(array.try_read(2), None);
    assert_eq!(array.try_read(i32::MAX), None);
    assert_eq!(array.try_read(0), Some(5));
    assert!(!array.try_write(-1, 9));
    assert!(!array.try_write(2, 9));
    assert!(array.try_write(1, 9));
    assert_eq!(array.read(1), 9);
    array.destroy();
}

#[test]
fn array_as_slice_reflects_contents() {
    let mut array: InteropArray<i32> = InteropArray::new(3, 1);
    array.write(2, 8);
    assert_eq!(array.as_slice(), &[1, 1, 8]);
    let span = array.as_span();
    assert_eq!(span.len(), 3);
    let viewed: &[i32] = span.into();
    assert_eq!(viewed, &[1, 1, 8]);
}

#[test]
fn unmanaged_entry_points_round_trip() {
    let mut array = interop_interop_array_test_unmanaged_create(4);
    for i in 0..4 {
        assert_eq!(interop_interop_array_test_unmanaged_read(&array, i), i);
    }
    interop_interop_array_test_unmanaged_write(&mut array, 2, 77);
    assert_eq!(interop_interop_array_test_unmanaged_read(&array, 2), 77);
    interop_interop_array_test_unmanaged_destroy(array);
}

#[test]
fn result_with_ok_is_success_and_yields_value() {
    let r: InteropResult<i32> = InteropResult::with_ok(31);
    assert!(r.is_ok());
    assert_eq!(r.into_ok(), 31);
}

#[test]
fn result_with_err_is_failure_and_keeps_kind() {
    let r: InteropResult<i32> = InteropResult::with_err(InteropError::from_backend(-4));
    assert!(!r.is_ok());
    let e = r.into_err();
    assert_eq!(e.kind, InteropErrorKind::DeviceLost);
    assert_eq!(e.backend_code, -4);
}

#[test]
fn classification_covers_each_backend_code() {
    assert_eq!(classify_backend_code(-1), InteropErrorKind::OutOfHostMemory);
    assert_eq!(classify_backend_code(-2), InteropErrorKind::OutOfDeviceMemory);
    assert_eq!(classify_backend_code(-3), InteropErrorKind::InitializationFailed);
    assert_eq!(classify_backend_code(-4), InteropErrorKind::DeviceLost);
    assert_eq!(classify_backend_code(-5), InteropErrorKind::MemoryMapFailed);
    assert_eq!(classify_backend_code(-6), InteropErrorKind::LayerNotPresent);
    assert_eq!(classify_backend_code(-7), InteropErrorKind::ExtensionNotPresent);
    assert_eq!(classify_backend_code(-8), InteropErrorKind::FeatureNotPresent);
    assert_eq!(classify_backend_code(-9), InteropErrorKind::IncompatibleDriver);
    assert_eq!(classify_backend_code(-10), InteropErrorKind::TooManyObjects);
    assert_eq!(classify_backend_code(-11), InteropErrorKind::FormatNotSupported);
    assert_eq!(classify_backend_code(0), InteropErrorKind::Unknown);
    assert_eq!(classify_backend_code(-100), InteropErrorKind::Unknown);
}

#[test]
fn validation_error_has_no_backend_code() {
    let e = InteropError::validation("rejected");
    assert_eq!(e.kind, InteropErrorKind::Validation);
    assert_eq!(e.backend_code, 0);
    assert_eq!(e.message, "rejected");
}
