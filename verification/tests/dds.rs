use mbx::dgl::{BitmapFormat, GBitmap};
use mbx::gl::{CompressedFormat, GlCall, TextureFilter, TextureWrap};
use mbx::speed_boostair::dds_loader::{
    can_upload, dds_bitmap_format, do_read_dds, my_create_gl_name, my_extrude_mip_levels,
    swap_channels, DdsError, TextureLayout,
};
use mbx::speed_boostair::dds_types::{
    Header, PixelFormat, DDS_ALPHA, DDS_FOURCC, DDS_LUMINANCE, DDS_MAGIC, DDS_RGB, DDS_RGBA,
};

fn words(values: &[u32]) -> Vec<u8> {
    let mut out = Vec::new();
    for v in values {
        out.extend_from_slice(&v.to_le_bytes());
    }
    out
}

fn format_words(format: &PixelFormat) -> [u32; 8] {
    [
        format.size,
        format.flags,
        format.fourcc,
        format.bits,
        format.r_mask,
        format.g_mask,
        format.b_mask,
        format.a_mask,
    ]
}

fn file(flags: u32, width: u32, height: u32, mips: u32, format: &PixelFormat, pixels: usize) -> Vec<u8> {
    let mut out = DDS_MAGIC.to_vec();
    out.extend(words(&[124, flags, height, width, 0, 0, mips]));
    out.extend(words(&[0; 11]));
    out.extend(words(&format_words(format)));
    out.extend(words(&[0x1000, 0, 0, 0, 0]));
    assert_eq!(out.len(), 128);
    out.extend((0..pixels).map(|i| i as u8));
    out
}

fn rgb() -> PixelFormat {
    PixelFormat::raw(DDS_RGB, 24, 0xff0000, 0x00ff00, 0x0000ff, 0)
}

#[test]
fn four_characters_make_a_code() {
    let dxt1 = PixelFormat::fourcc(b"DXT1");
    assert_eq!(dxt1.fourcc, 0x31545844);
    assert_eq!(dxt1.flags, DDS_FOURCC);
    assert_eq!(dxt1.size, 32);
    assert_eq!((dxt1.bits, dxt1.r_mask, dxt1.g_mask, dxt1.b_mask, dxt1.a_mask), (0, 0, 0, 0, 0));
    let a8 = PixelFormat::raw(DDS_ALPHA, 8, 1, 2, 3, 0xff);
    assert_eq!(
        a8,
        PixelFormat {
            size: 32,
            flags: 2,
            fourcc: 0,
            bits: 8,
            r_mask: 1,
            g_mask: 2,
            b_mask: 3,
            a_mask: 0xff
        }
    );
    let bytes = words(&format_words(&dxt1));
    assert_eq!(PixelFormat::read(&bytes, 0), dxt1);
}

#[test]
fn pixel_formats_map_to_bitmap_formats() {
    let cases = [
        (rgb(), BitmapFormat::Rgb),
        (PixelFormat::raw(DDS_RGBA, 32, 0xff0000, 0xff00, 0xff, 0xff000000), BitmapFormat::Rgba),
        (PixelFormat::raw(DDS_ALPHA, 8, 0, 0, 0, 0xff), BitmapFormat::Alpha),
        (PixelFormat::raw(DDS_RGB, 16, 0xf800, 0x07e0, 0x001f, 0), BitmapFormat::Rgb565),
        (PixelFormat::raw(DDS_RGBA, 16, 0x7c00, 0x03e0, 0x001f, 0x8000), BitmapFormat::Rgb5551),
        (PixelFormat::raw(DDS_LUMINANCE, 8, 0xff, 0, 0, 0), BitmapFormat::Luminance),
        (PixelFormat::fourcc(b"DXT1"), BitmapFormat::XDxt1),
        (PixelFormat::fourcc(b"DXT3"), BitmapFormat::XDxt3),
        (PixelFormat::fourcc(b"DXT5"), BitmapFormat::XDxt5),
        (PixelFormat::fourcc(b"BC5S"), BitmapFormat::XBc5S),
        (PixelFormat::fourcc(b"BC5U"), BitmapFormat::XBc5U),
        (PixelFormat::fourcc(b"ATI2"), BitmapFormat::XBc5U),
    ];
    for (format, expected) in cases {
        assert_eq!(dds_bitmap_format(&format), Ok(expected));
    }
    assert_eq!(dds_bitmap_format(&PixelFormat::fourcc(b"DXT2")), Err("unsupported texture format"));
    let mut odd = rgb();
    odd.size = 0;
    assert_eq!(dds_bitmap_format(&odd), Err("unsupported texture format"));
    let mut odd = PixelFormat::fourcc(b"DXT1");
    odd.bits = 1;
    assert!(dds_bitmap_format(&odd).is_err());
    for code in 0..13 {
        assert_eq!(BitmapFormat::from_raw(code).unwrap().raw(), code);
    }
    assert_eq!(BitmapFormat::from_raw(13), None);
    assert_eq!(BitmapFormat::XBc5U.raw(), 12);
}

#[test]
fn texture_size_counts_pixels_or_blocks() {
    assert_eq!(TextureLayout::Pixels(3).data_size(4, 5), 60);
    assert_eq!(TextureLayout::Pixels(4).data_size(0, 5), 0);
    assert_eq!(TextureLayout::Blocks(8).data_size(4, 4), 8);
    assert_eq!(TextureLayout::Blocks(8).data_size(5, 4), 16);
    assert_eq!(TextureLayout::Blocks(16).data_size(9, 13), 3 * 4 * 16);
    assert_eq!(TextureLayout::Blocks(16).data_size(1, 1), 16);
    assert_eq!(TextureLayout::Blocks(16).data_size(0, 1), 0);
    assert_eq!(TextureLayout::Pixels(3).checked_data_size(4, 5), Some(60));
    assert_eq!(TextureLayout::Pixels(1).checked_data_size(65536, 65535), Some(0xffff_0000));
    assert_eq!(TextureLayout::Pixels(1).checked_data_size(65536, 65536), None);
    assert_eq!(TextureLayout::Pixels(0).checked_data_size(u32::MAX, u32::MAX), Some(0));
    assert_eq!(TextureLayout::Pixels(usize::MAX).checked_data_size(1, 1), None);
    assert_eq!(TextureLayout::Blocks(16).checked_data_size(u32::MAX, u32::MAX), None);
    assert_eq!(TextureLayout::Blocks(16).checked_data_size(u32::MAX, 1), None);
    assert_eq!(TextureLayout::Blocks(2).checked_data_size(u32::MAX, 1), Some(0x8000_0000));
    assert_eq!(TextureLayout::from(BitmapFormat::Rgb), TextureLayout::Pixels(3));
    assert_eq!(TextureLayout::from(BitmapFormat::Rgb565), TextureLayout::Pixels(2));
    assert_eq!(TextureLayout::from(BitmapFormat::XDxt1), TextureLayout::Blocks(8));
    assert_eq!(TextureLayout::from(BitmapFormat::XBc5S), TextureLayout::Blocks(16));
}

#[test]
fn red_and_blue_change_places_in_whole_pixels() {
    let mut data = vec![1, 2, 3, 4, 5, 6, 7, 8];
    swap_channels(&mut data, 3);
    assert_eq!(data, [3, 2, 1, 6, 5, 4, 7, 8]);
    let mut data = vec![1, 2, 3, 4, 5, 6, 7, 8];
    swap_channels(&mut data, 4);
    assert_eq!(data, [3, 2, 1, 4, 7, 6, 5, 8]);
    let mut data = vec![1, 2];
    swap_channels(&mut data, 3);
    assert_eq!(data, [1, 2]);
    let mut data: Vec<u8> = vec![];
    swap_channels(&mut data, 5);
    assert!(data.is_empty());
}

#[test]
fn surface_with_three_levels_is_read() {
    let data = file(0x1007 | 0x20000, 4, 4, 3, &rgb(), 63);
    let bitmap = do_read_dds(&data).unwrap();
    assert_eq!(bitmap.format, BitmapFormat::Rgb);
    assert_eq!((bitmap.width, bitmap.height), (4, 4));
    assert_eq!(bitmap.bytes_per_pixel, 3);
    assert_eq!(bitmap.num_mip_levels, 3);
    assert_eq!(bitmap.mip_level_offsets, [0, 48, 60, 0, 0, 0, 0, 0, 0, 0]);
    assert_eq!(bitmap.byte_size, 63);
    assert_eq!(bitmap.bits.len(), 63);
    assert_eq!(bitmap.bits[0..6], [2, 1, 0, 5, 4, 3]);
    assert_eq!(bitmap.bits[60..63], [62, 61, 60]);
    assert_eq!(bitmap.palette, 0);
    assert_eq!((bitmap.mip_width(1), bitmap.mip_height(2)), (2, 1));
    assert_eq!(bitmap.mip_bits(1), 48);

    let header = Header::read(&data, 4);
    assert_eq!((header.size, header.flags, header.width, header.mip_map_count), (124, 0x21007, 4, 3));
    assert_eq!(header.format, rgb());
    assert_eq!(header.caps, 0x1000);
    assert_eq!(header.reserved, [0; 11]);

    let longer = file(0x1007 | 0x20000, 4, 4, 3, &rgb(), 70);
    assert_eq!(do_read_dds(&longer).unwrap().bits, bitmap.bits);
}

#[test]
fn levels_are_counted_only_when_the_header_says_so() {
    let data = file(0x1007, 4, 4, 3, &rgb(), 48);
    let bitmap = do_read_dds(&data).unwrap();
    assert_eq!((bitmap.num_mip_levels, bitmap.byte_size), (1, 48));
    let data = file(0x1007 | 0x20000, 4, 4, 0, &rgb(), 48);
    assert_eq!(do_read_dds(&data).unwrap().num_mip_levels, 1);
    let data = file(0x1007 | 0x20000, 4, 4, 40, &rgb(), 63);
    let bitmap = do_read_dds(&data).unwrap();
    assert_eq!(bitmap.num_mip_levels, 10);
    assert_eq!(bitmap.mip_level_offsets, [0, 48, 60, 63, 63, 63, 63, 63, 63, 63]);

    let dxt = file(0x1007 | 0x20000, 8, 8, 2, &PixelFormat::fourcc(b"DXT1"), 40);
    let bitmap = do_read_dds(&dxt).unwrap();
    assert_eq!(bitmap.format, BitmapFormat::XDxt1);
    assert_eq!(bitmap.bytes_per_pixel, 0);
    assert_eq!(bitmap.mip_level_offsets[0..3], [0, 32, 0]);
    assert_eq!(bitmap.byte_size, 40);
    assert_eq!(bitmap.bits, (0..40).collect::<Vec<u8>>());
}

#[test]
fn surface_is_refused_for_its_first_fault() {
    let good = file(0x1007, 4, 4, 1, &rgb(), 48);
    assert_eq!(do_read_dds(&good[..3]), Err(DdsError::UnexpectedEof));
    assert_eq!(do_read_dds(&good[..127]), Err(DdsError::UnexpectedEof));
    assert_eq!(do_read_dds(&good[..175]), Err(DdsError::UnexpectedEof));
    let mut bad = good.clone();
    bad[3] = b'!';
    assert_eq!(do_read_dds(&bad), Err(DdsError::BadMagic));
    assert_eq!(do_read_dds(&bad[..4]), Err(DdsError::BadMagic));
    let mut bad = good.clone();
    bad[4] = 123;
    assert_eq!(do_read_dds(&bad), Err(DdsError::UnrecognizedHeaderSize));
    assert_eq!(do_read_dds(&file(0x1006, 4, 4, 1, &rgb(), 48)), Err(DdsError::MissingTextureInfo));
    assert_eq!(do_read_dds(&file(0x801007, 4, 4, 1, &rgb(), 48)), Err(DdsError::NotFlat));
    let mut bad = good.clone();
    bad[112] = 1;
    assert_eq!(do_read_dds(&bad), Err(DdsError::NotFlat));
    assert_eq!(do_read_dds(&file(0x1007, 0, 4, 1, &rgb(), 48)), Err(DdsError::InvalidSize));
    assert_eq!(do_read_dds(&file(0x1007, 4, 0, 1, &rgb(), 48)), Err(DdsError::InvalidSize));
    assert_eq!(
        do_read_dds(&file(0x1007, 4, 4, 1, &PixelFormat::fourcc(b"DXT2"), 48)),
        Err(DdsError::UnsupportedFormat)
    );
    assert_eq!(
        do_read_dds(&file(0x1007, 65536, 65536, 1, &rgb(), 48)),
        Err(DdsError::TooLarge)
    );
    assert_eq!(DdsError::BadMagic.message(), "bad magic");
    assert_eq!(DdsError::UnrecognizedHeaderSize.message(), "unrecognized header size");
    assert_eq!(DdsError::MissingTextureInfo.message(), "missing texture information");
    assert_eq!(
        DdsError::NotFlat.message(),
        "volumetric and cubemap textures are not supported"
    );
    assert_eq!(DdsError::InvalidSize.message(), "invalid texture size");
    assert_eq!(DdsError::UnsupportedFormat.message(), "unsupported texture format");
}

#[test]
fn compressed_bitmap_is_uploaded_level_by_level() {
    let dxt = file(0x1007 | 0x20000, 8, 8, 3, &PixelFormat::fourcc(b"DXT5"), 16 * 4 + 16 + 16);
    let bitmap = do_read_dds(&dxt).unwrap();
    assert!(can_upload(&bitmap, 1));
    let (calls, width, height) = my_create_gl_name(&bitmap, true, 1, false).unwrap();
    assert_eq!((width, height), (4, 4));
    let format = CompressedFormat::RgbaS3tcDxt5;
    assert_eq!(
        calls,
        vec![
            GlCall::GenAndBindTexture,
            GlCall::CompressedTexImage2D { level: 0, format, width: 4, height: 4, size: 16, offset: 64 },
            GlCall::CompressedTexImage2D { level: 1, format, width: 2, height: 2, size: 16, offset: 80 },
            GlCall::MinFilter { filter: TextureFilter::LinearMipmapLinear },
            GlCall::MagFilter { filter: TextureFilter::Linear },
            GlCall::WrapS { wrap: TextureWrap::ClampToEdge },
            GlCall::WrapT { wrap: TextureWrap::ClampToEdge },
        ]
    );
    let (calls, _, _) = my_create_gl_name(&bitmap, false, 2, false).unwrap();
    assert_eq!(calls.len(), 6);
    assert_eq!(calls[2], GlCall::MinFilter { filter: TextureFilter::Linear });
    assert_eq!(calls[4], GlCall::WrapS { wrap: TextureWrap::Repeat });
    let (calls, width, _) = my_create_gl_name(&bitmap, false, 3, true).unwrap();
    assert_eq!(width, 1);
    assert_eq!(
        calls[0..3],
        [
            GlCall::GenAndBindTexture,
            GlCall::MinFilter { filter: TextureFilter::Nearest },
            GlCall::MagFilter { filter: TextureFilter::Nearest },
        ]
    );
    assert!(!can_upload(&bitmap, 4));
    assert!(!my_extrude_mip_levels(&bitmap));

    let plain = do_read_dds(&file(0x1007, 4, 4, 1, &rgb(), 48)).unwrap();
    assert_eq!(my_create_gl_name(&plain, true, 0, false), None);
    assert!(my_extrude_mip_levels(&plain));
    let with_levels = do_read_dds(&file(0x21007, 4, 4, 2, &rgb(), 60)).unwrap();
    assert!(!my_extrude_mip_levels(&with_levels));
    let mut many = GBitmap::empty();
    many.format = BitmapFormat::XDxt1;
    many.num_mip_levels = 11;
    assert!(!can_upload(&many, 0));
    let empty = GBitmap::empty();
    assert_eq!((empty.width, empty.byte_size, empty.num_mip_levels), (0, 0, 0));
    assert_eq!(empty.format, BitmapFormat::Palettized);
}
