use matbridge::buffer::ImageBuf;
use matbridge::convert::{ToImage, ToMat};
use matbridge::format::{MatElem, PixelFormat, DEPTH_U8};
use matbridge::mat::{MatError, MatRef};
use matbridge::Error;

const FORMATS: [PixelFormat; 4] = [
    PixelFormat::Luma8,
    PixelFormat::LumaA8,
    PixelFormat::Rgb8,
    PixelFormat::Rgba8,
];

#[test]
fn channel_counts() {
    assert_eq!(PixelFormat::Luma8.channels(), 1);
    assert_eq!(PixelFormat::LumaA8.channels(), 2);
    assert_eq!(PixelFormat::Rgb8.channels(), 3);
    assert_eq!(PixelFormat::Rgba8.channels(), 4);
}

#[test]
fn descriptor_matches_format() {
    for format in FORMATS {
        let elem = format.mat_elem();
        assert_eq!(elem.depth, DEPTH_U8);
        assert_eq!(elem.channels, format.channels() as i32);
    }
}

#[test]
fn round_trip_all_formats() {
    for format in FORMATS {
        let width: u32 = 3;
        let height: u32 = 2;
        let len = (width * height * format.channels() as u32) as usize;
        let bytes: Vec<u8> = (0..len).map(|i| (i * 7 + 1) as u8).collect();
        let buf = ImageBuf::from_raw(width, height, format, bytes.clone()).unwrap();

        let mat = buf.as_mat().unwrap();
        let back = mat.as_image(format).unwrap();

        assert_eq!(back.width(), width);
        assert_eq!(back.height(), height);
        assert_eq!(back.as_raw(), bytes.as_slice());
    }
}

#[test]
fn copy_to_matrix_independent_of_source() {
    let bytes = vec![1u8, 2, 3, 4, 5, 6];
    let mut buf = ImageBuf::from_raw(2, 1, PixelFormat::Rgb8, bytes.clone()).unwrap();

    let mat = buf.to_mat().unwrap();
    buf.put_byte(0, 99);
    buf.put_byte(5, 98);

    assert_eq!(buf.as_raw()[0], 99);
    assert_eq!(mat.data_bytes(), bytes.as_slice());
}

#[test]
fn borrow_as_matrix_2x1_rgb() {
    let bytes = vec![10u8, 20, 30, 40, 50, 60];
    let buf = ImageBuf::from_raw(2, 1, PixelFormat::Rgb8, bytes.clone()).unwrap();

    let mat = buf.as_mat().unwrap();
    assert_eq!(mat.rows(), 1);
    assert_eq!(mat.cols(), 2);
    assert_eq!(mat.elem().channels, 3);
    assert_eq!(mat.data_bytes(), bytes.as_slice());
}

#[test]
fn dimension_mismatch_reported() {
    let bytes = vec![1u8, 2, 3];
    let mat =
        MatRef::new_rows_cols_with_data(1, 1, PixelFormat::Rgb8.mat_elem(), &bytes).unwrap();

    let err = mat.as_image(PixelFormat::Rgba8).unwrap_err();
    match err {
        Error::DimensionMissmatch(actual, channels, width, height) => {
            assert_eq!(actual, 3);
            assert_eq!(channels as i32 * width * height, 4);
            assert_eq!((channels, width, height), (4, 1, 1));
        }
        other => panic!("expected a dimension mismatch, got {other:?}"),
    }
}

#[test]
fn borrow_as_image_2x3_succeeds() {
    let bytes: Vec<u8> = (0..18u8).collect();
    let mat =
        MatRef::new_rows_cols_with_data(2, 3, PixelFormat::Rgb8.mat_elem(), &bytes).unwrap();

    let img = mat.as_image(PixelFormat::Rgb8).unwrap();
    assert_eq!(img.width(), 3);
    assert_eq!(img.height(), 2);
    assert_eq!(img.as_raw(), bytes.as_slice());
}

#[test]
fn copy_to_image_owns_its_bytes() {
    let bytes = vec![9u8, 8, 7, 6];
    let mat =
        MatRef::new_rows_cols_with_data(1, 1, PixelFormat::Rgba8.mat_elem(), &bytes).unwrap();

    let img = mat.to_image(PixelFormat::Rgba8).unwrap();
    drop(mat);
    drop(bytes);

    assert_eq!(img.dimensions(), (1, 1));
    assert_eq!(img.format(), PixelFormat::Rgba8);
    assert_eq!(img.as_raw(), &[9, 8, 7, 6]);
}

#[test]
fn image_ref_from_raw_checks_length() {
    let bytes = [7u8, 7, 7, 7];
    let img = matbridge::buffer::ImageRef::from_raw(2, 1, PixelFormat::LumaA8, &bytes).unwrap();
    assert_eq!(img.dimensions(), (2, 1));
    assert_eq!(img.as_raw(), &bytes);
    assert!(matbridge::buffer::ImageRef::from_raw(2, 1, PixelFormat::Rgb8, &bytes).is_none());
}

#[test]
fn from_raw_requires_exact_length() {
    assert!(ImageBuf::from_raw(2, 2, PixelFormat::Rgb8, vec![0; 12]).is_some());
    assert!(ImageBuf::from_raw(2, 2, PixelFormat::Rgb8, vec![0; 11]).is_none());
    assert!(ImageBuf::from_raw(2, 2, PixelFormat::Rgb8, vec![0; 13]).is_none());
    assert!(ImageBuf::from_raw(0, 5, PixelFormat::Luma8, Vec::new()).is_some());
}

#[test]
fn matrix_constructor_rejects_bad_input() {
    let bytes = vec![0u8; 6];
    let elem = PixelFormat::Rgb8.mat_elem();

    assert_eq!(
        MatRef::new_rows_cols_with_data(-1, 2, elem, &bytes).unwrap_err(),
        MatError::BadSize
    );
    assert_eq!(
        MatRef::new_rows_cols_with_data(2, -7, elem, &bytes).unwrap_err(),
        MatError::BadSize
    );
    assert_eq!(
        MatRef::new_rows_cols_with_data(1, 1, MatElem { depth: DEPTH_U8, channels: 0 }, &bytes)
            .unwrap_err(),
        MatError::BadSize
    );
    assert_eq!(
        MatRef::new_rows_cols_with_data(1, 1, MatElem { depth: 7, channels: 3 }, &bytes)
            .unwrap_err(),
        MatError::BadSize
    );
    assert_eq!(
        MatRef::new_rows_cols_with_data(2, 2, elem, &bytes).unwrap_err(),
        MatError::SizeMismatch
    );
}

#[test]
fn oversized_buffer_cannot_become_matrix() {
    let buf = ImageBuf::from_raw(1 << 31, 0, PixelFormat::Luma8, Vec::new()).unwrap();
    assert_eq!(buf.as_mat().unwrap_err(), Error::Opencv(MatError::BadSize));
    assert_eq!(buf.to_mat().unwrap_err(), Error::Opencv(MatError::BadSize));
}

#[test]
fn to_image_reports_mismatch_like_as_image() {
    let bytes = vec![0u8; 8];
    let mat =
        MatRef::new_rows_cols_with_data(2, 2, PixelFormat::LumaA8.mat_elem(), &bytes).unwrap();
    let owned = mat.try_clone().unwrap();

    let err = owned.to_image(PixelFormat::Rgb8).unwrap_err();
    assert_eq!(err, Error::DimensionMissmatch(8, 3, 2, 2));
}
