use paimon::blob_ffi::{check_descriptors, check_slice_arg, seek_target, PaimonErrorCode, SeekTarget};

#[test]
fn seek_whence_maps_to_target() {
    assert_eq!(seek_target(5, 0).unwrap(), SeekTarget::Start(5));
    assert_eq!(seek_target(-5, 1).unwrap(), SeekTarget::Current(-5));
    assert_eq!(seek_target(-2, 2).unwrap(), SeekTarget::End(-2));
    let err = seek_target(-1, 0).unwrap_err();
    assert_eq!(err.code, PaimonErrorCode::InvalidInput);
    assert_eq!(err.message, "invalid blob stream seek");
    assert!(seek_target(0, 3).is_err());
    assert!(seek_target(0, -1).is_err());
}

#[test]
fn null_pointer_only_for_empty_slices() {
    assert!(check_slice_arg(0, true, "options").is_ok());
    assert!(check_slice_arg(3, false, "options").is_ok());
    let err = check_slice_arg(3, true, "buffer").unwrap_err();
    assert_eq!(err.message, "null pointer passed for `buffer`");
}

#[test]
fn first_bad_descriptor_is_named() {
    assert!(check_descriptors(&vec![(0, true), (4, false)]).is_ok());
    let err = check_descriptors(&vec![(0, true), (2, false), (3, true), (1, true)]).unwrap_err();
    assert_eq!(err.code, PaimonErrorCode::InvalidInput);
    assert_eq!(err.message, "null data pointer for BlobDescriptor input index 2, URI unavailable");
}
