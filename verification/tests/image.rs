use rnote::image::{
    assert_image, concat_images, image_into_encoded_bytes, Image, ImageError, ImageMemoryFormat, ImageOutputFormat,
    PlacedImage,
};

fn rgba(data: Vec<u8>, w: u32, h: u32) -> Image {
    Image { data, pixel_width: w, pixel_height: h, memory_format: ImageMemoryFormat::R8g8b8a8Premultiplied }
}

#[test]
fn bgra_data_has_blue_and_red_swapped() {
    let img = Image {
        data: vec![1, 2, 3, 4, 5, 6, 7, 8],
        pixel_width: 2,
        pixel_height: 1,
        memory_format: ImageMemoryFormat::B8g8r8a8Premultiplied,
    };
    let buf = img.to_imgbuf().unwrap();
    assert_eq!(buf.width, 2);
    assert_eq!(buf.height, 1);
    assert_eq!(buf.data, vec![3, 2, 1, 4, 7, 6, 5, 8]);
}

#[test]
fn rgba_data_is_taken_as_it_is() {
    let buf = rgba(vec![9, 8, 7, 6], 1, 1).to_imgbuf().unwrap();
    assert_eq!(buf.data, vec![9, 8, 7, 6]);
}

#[test]
fn short_data_is_refused() {
    let img = rgba(vec![0; 8], 2, 2);
    assert_eq!(img.to_imgbuf().err(), Some(ImageError::BufferTooSmall));
}

#[test]
fn assert_image_checks_width_and_length() {
    assert_eq!(assert_image(&rgba(vec![0; 16], 2, 2)), Ok(()));
    assert_eq!(assert_image(&rgba(vec![0; 12], 2, 2)), Err(ImageError::InvalidImageData));
    assert_eq!(assert_image(&rgba(vec![0; 20], 2, 2)), Err(ImageError::InvalidImageData));
    assert_eq!(assert_image(&rgba(Vec::new(), 0, 3)), Err(ImageError::InvalidImageData));
}

#[test]
fn concat_places_opaque_images_side_by_side() {
    let left = PlacedImage { image: rgba(vec![10, 20, 30, 255], 1, 1), x: 0, y: 0 };
    let right = PlacedImage {
        image: Image {
            data: vec![30, 20, 10, 255],
            pixel_width: 1,
            pixel_height: 1,
            memory_format: ImageMemoryFormat::B8g8r8a8Premultiplied,
        },
        x: 1,
        y: 0,
    };
    let out = concat_images(vec![left, right], 2, 1).unwrap();
    assert_eq!(out.pixel_width, 2);
    assert_eq!(out.pixel_height, 1);
    assert_eq!(out.memory_format, ImageMemoryFormat::R8g8b8a8Premultiplied);
    assert_eq!(out.data, vec![10, 20, 30, 255, 10, 20, 30, 255]);
}

#[test]
fn concat_later_images_land_on_top_and_are_clipped() {
    let under = PlacedImage { image: rgba(vec![1, 1, 1, 255, 2, 2, 2, 255], 2, 1), x: 0, y: 0 };
    let over = PlacedImage { image: rgba(vec![5, 5, 5, 255, 6, 6, 6, 255], 2, 1), x: 1, y: 0 };
    let transparent = PlacedImage { image: rgba(vec![7, 7, 7, 0], 1, 1), x: 0, y: 0 };
    let out = concat_images(vec![under, over, transparent], 2, 1).unwrap();
    assert_eq!(out.data, vec![1, 1, 1, 255, 5, 5, 5, 255]);
}

#[test]
fn concat_of_nothing_is_transparent() {
    let out = concat_images(Vec::new(), 2, 2).unwrap();
    assert_eq!(out.data, vec![0; 16]);
}

#[test]
fn concat_fails_on_a_short_image() {
    let good = PlacedImage { image: rgba(vec![1, 2, 3, 255], 1, 1), x: 0, y: 0 };
    let bad = PlacedImage { image: rgba(vec![1, 2, 3], 1, 1), x: 0, y: 0 };
    assert_eq!(concat_images(vec![good, bad], 1, 1).err(), Some(ImageError::BufferTooSmall));
}

#[test]
fn encodes_png() {
    let bytes = image_into_encoded_bytes(rgba(vec![255, 0, 0, 255], 1, 1), ImageOutputFormat::Png).unwrap();
    assert_eq!(&bytes[..8], &[137, 80, 78, 71, 13, 10, 26, 10]);
}

#[test]
fn encodes_jpeg_and_bmp() {
    let jpeg = image_into_encoded_bytes(rgba(vec![0, 0, 255, 255], 1, 1), ImageOutputFormat::Jpeg).unwrap();
    assert_eq!(&jpeg[..2], &[0xFF, 0xD8]);
    let bmp = image_into_encoded_bytes(rgba(vec![0, 255, 0, 255], 1, 1), ImageOutputFormat::Bmp).unwrap();
    assert_eq!(&bmp[..2], b"BM");
}

#[test]
fn encoding_refuses_short_data() {
    let res = image_into_encoded_bytes(rgba(vec![1, 2], 1, 1), ImageOutputFormat::Png);
    assert_eq!(res, Err(ImageError::BufferTooSmall));
}

#[test]
fn extra_bytes_past_the_pixels_are_not_part_of_the_image() {
    let img = rgba(vec![1, 2, 3, 4, 5, 6, 7, 8], 1, 1);
    assert_eq!(img.to_imgbuf().unwrap().data, vec![1, 2, 3, 4]);
    let png = image_into_encoded_bytes(rgba(vec![1, 2, 3, 255, 9, 9, 9, 9], 1, 1), ImageOutputFormat::Png).unwrap();
    assert_eq!(&png[..4], &[137, 80, 78, 71]);
    let bmp = image_into_encoded_bytes(rgba(vec![1, 2, 3, 255, 9], 1, 1), ImageOutputFormat::Bmp).unwrap();
    assert_eq!(&bmp[..2], b"BM");
}

#[test]
fn concat_output_holds_exactly_the_pixels() {
    let big = PlacedImage { image: rgba(vec![1; 40], 2, 2), x: 0, y: 0 };
    let out = concat_images(vec![big], 3, 2).unwrap();
    assert_eq!(out.data.len(), 24);
}

#[test]
fn bitmap_sizes_are_decoded() {
    let png = image_into_encoded_bytes(rgba(vec![0; 24], 3, 2), ImageOutputFormat::Png).unwrap();
    assert_eq!(rnote::image::bitmap_image_size(&png), Some((3, 2)));
    assert_eq!(rnote::image::bitmap_image_size(&[1, 2, 3]), None);
}
