use txkit::image::ImageDataType;
use txkit::image::ImageDataTypeGpuExt;
use txkit::image::ImageDim;
use txkit::image::ImageDimGpuExt;
use txkit::image::ImageDimensions;

#[test]
fn a_plane_has_one_layer() {
    let dim = ImageDim::new(16, 8, 4);
    assert_eq!((dim.width, dim.height, dim.depth, dim.channels), (16, 8, 1, 4));
}

#[test]
fn a_line_has_one_row_and_one_layer() {
    let dim = ImageDim::new_1d(16, 3);
    assert_eq!((dim.width, dim.height, dim.depth, dim.channels), (16, 1, 1, 3));
}

#[test]
fn a_volume_keeps_its_axes() {
    let dim = ImageDimensions::new_3d(2u8, 3u8, 4u8, 1u8);
    assert_eq!((dim.width, dim.height, dim.depth, dim.channels), (2, 3, 4, 1));
}

#[test]
fn storage_orders_layers_rows_columns_channels() {
    let dim = ImageDim::new_3d(2, 3, 4, 5);
    assert_eq!(dim.into_nd_array_dim(), (4, 3, 2, 5));
    let back = ImageDim::from((4, 3, 2, 5));
    assert_eq!((back.width, back.height, back.depth, back.channels), (2, 3, 4, 5));
}

#[test]
fn an_element_takes_one_byte_or_four() {
    assert_eq!(ImageDataType::UInt8.byte_size(), 1);
    assert_eq!(ImageDataType::Float32.byte_size(), 4);
}

#[test]
fn the_driver_knows_the_element_types() {
    assert_eq!(ImageDataType::UInt8.format_type(), 0x1401);
    assert_eq!(ImageDataType::Float32.format_type(), 0x1406);
}

#[test]
fn sized_formats_of_bytes() {
    let formats: Vec<Option<i32>> = (0..6)
        .map(|c| ImageDim::new(4, 4, c).internal_format(ImageDataType::UInt8))
        .collect();
    assert_eq!(
        formats,
        vec![None, Some(0x8229), Some(0x822B), Some(0x8051), Some(0x8058), None]
    );
}

#[test]
fn sized_formats_of_single_precision() {
    let formats: Vec<Option<i32>> = (0..6)
        .map(|c| ImageDim::new(4, 4, c).internal_format(ImageDataType::Float32))
        .collect();
    assert_eq!(
        formats,
        vec![None, Some(0x822E), Some(0x8230), Some(0x8815), Some(0x8814), None]
    );
}

#[test]
fn transfer_formats() {
    let formats: Vec<Option<u32>> =
        (0..6).map(|c| ImageDim::new(4, 4, c).unsized_format()).collect();
    assert_eq!(
        formats,
        vec![None, Some(0x1903), Some(0x8227), Some(0x1907), Some(0x1908), None]
    );
    assert_eq!(ImageDim::new(4, 4, 17).unsized_format(), None);
}

#[test]
fn the_resolution_is_width_height_depth() {
    assert_eq!(ImageDim::new_3d(7, 5, 3, 4).into_cgmath(), (7, 5, 3));
}
