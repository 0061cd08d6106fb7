use mbx::speed_boostair::accel::{
    cha_extension, count_faces, load_accelerator, my_compute_accelerator, save_accelerator, AccelAction,
    AccelEvent, AccelState, ChaError, EmitString, CHA_MAGIC, CHA_VERSION,
};
use mbx::speed_boostair::io::{
    i32_at, read_array, read_signed, read_val, u32_at, write_array, write_signed, write_val,
    ByteStream, IoError,
};
use mbx::ts::ConvexHullAccelerator;

const ROW0: [u8; 10] = [1, 5, 1, 0, 1, 1, 0, 9, 9, 9];
const ROW1: [u8; 3] = [0, 0, 0];

fn point(seed: u8) -> Vec<u8> {
    (0..12).map(|i| seed + i).collect()
}

fn sample() -> Vec<u8> {
    let mut out = CHA_MAGIC.to_vec();
    out.extend(2u32.to_le_bytes());
    out.extend(2i32.to_le_bytes());
    out.extend(point(10));
    out.extend(point(30));
    out.extend(1i32.to_le_bytes());
    out.extend(point(50));
    out.extend(10u32.to_le_bytes());
    out.extend(ROW0);
    out.extend(3u32.to_le_bytes());
    out.extend(ROW1);
    out
}

fn accelerator() -> ConvexHullAccelerator {
    let mut verts = point(10);
    verts.extend(point(30));
    ConvexHullAccelerator {
        num_verts: 2,
        vertex_list: verts,
        normal_list: point(50),
        emit_strings: vec![ROW0.to_vec(), ROW1.to_vec()],
    }
}

#[test]
fn numbers_are_read_lowest_byte_first() {
    let bytes = [0x78, 0x56, 0x34, 0x12, 0xff, 0xff, 0xff, 0xff, 0, 0, 0, 0x80];
    assert_eq!(u32_at(&bytes, 0), 0x12345678);
    assert_eq!(u32_at(&bytes, 1), 0xff123456);
    assert_eq!(i32_at(&bytes, 4), -1);
    assert_eq!(i32_at(&bytes, 8), i32::MIN);
    assert_eq!(i32_at(&bytes, 0), 0x12345678);
    let mut stream = ByteStream::new(&bytes);
    assert_eq!(read_val(&mut stream), Ok(0x12345678));
    assert_eq!(stream.pos(), 4);
    assert_eq!(read_signed(&mut stream), Ok(-1));
    assert_eq!(read_array(&mut stream, 2, 2), Ok(vec![0, 0, 0, 0x80]));
    assert_eq!(stream.pos(), 12);
    assert_eq!(read_val(&mut stream), Err(IoError::UnexpectedEof));
    assert_eq!(read_array(&mut stream, 1, 0), Ok(vec![]));
    assert_eq!(read_array(&mut stream, 1, 1), Err(IoError::UnexpectedEof));
    assert_eq!(read_array(&mut stream, usize::MAX, 2), Err(IoError::InvalidInput));
    assert_eq!(stream.pos(), 12);
    let mut short = ByteStream::new(&bytes[..3]);
    assert_eq!(read_signed(&mut short), Err(IoError::UnexpectedEof));
    assert_eq!(short.pos(), 0);
    assert_eq!(short.read_exact(3).map(|b| b.to_vec()), Ok(vec![0x78, 0x56, 0x34]));
}

#[test]
fn numbers_are_written_as_they_are_read() {
    let mut out = vec![9];
    write_val(&mut out, 0x12345678);
    write_signed(&mut out, -2);
    write_signed(&mut out, i32::MIN);
    write_signed(&mut out, 5);
    write_array(&mut out, &[1, 2, 3]);
    assert_eq!(
        out,
        [9, 0x78, 0x56, 0x34, 0x12, 0xfe, 0xff, 0xff, 0xff, 0, 0, 0, 0x80, 5, 0, 0, 0, 1, 2, 3]
    );
    assert_eq!(i32_at(&out, 5), -2);
    assert_eq!(i32_at(&out, 9), i32::MIN);
}

#[test]
fn row_splits_into_its_three_lists() {
    let row = EmitString::from_row(&ROW0).unwrap();
    assert_eq!(row.verts, [5]);
    assert_eq!(row.edges, [0, 1]);
    assert_eq!(row.faces, [0, 9, 9, 9]);
    assert_eq!(row.total_size(), 10);
    let row = EmitString::from_row(&ROW1).unwrap();
    assert_eq!((row.verts.len(), row.edges.len(), row.faces.len()), (0, 0, 0));
    assert_eq!(row.total_size(), 3);
    let padded = [2, 7, 8, 0, 2, 3, 1, 2, 3, 4, 2, 9, 9, 9, 77, 77];
    let row = EmitString::from_row(&padded).unwrap();
    assert_eq!(row.faces, [3, 1, 2, 3, 4, 2, 9, 9]);
    assert_eq!(row.total_size(), 13);
    assert!(EmitString::from_row(&[]).is_none());
    assert!(EmitString::from_row(&[1]).is_none());
    assert!(EmitString::from_row(&[0, 1, 0]).is_none());
    assert!(EmitString::from_row(&[0, 0, 1, 0, 0]).is_none());
    assert!(EmitString::from_row(&ROW0[..9]).is_none());
}

#[test]
fn faces_are_counted_from_the_greatest_named() {
    assert_eq!(count_faces(&[]), 0);
    let none = EmitString::from_row(&ROW1).unwrap();
    assert_eq!(count_faces(&[none, none]), 0);
    let zero = EmitString::from_row(&ROW0).unwrap();
    assert_eq!(count_faces(&[none, zero]), 1);
    let faces = [3, 200, 200, 200, 7, 0, 0, 0, 5];
    let odd = EmitString { verts: &[], edges: &[], faces: &faces };
    assert_eq!(count_faces(&[odd]), 8);
    assert_eq!(count_faces(&[zero, odd, none]), 8);
    let top = EmitString { verts: &[], edges: &[], faces: &[255] };
    assert_eq!(count_faces(&[odd, top]), 256);
}

#[test]
fn accelerator_file_is_read() {
    assert_eq!(load_accelerator(&sample()), Ok(accelerator()));
    let mut longer = sample();
    longer.extend([1, 2, 3]);
    assert_eq!(load_accelerator(&longer), Ok(accelerator()));
    let empty: Vec<u8> = [&CHA_MAGIC[..], &[2, 0, 0, 0, 0, 0, 0, 0, 0, 0, 0, 0]].concat();
    assert_eq!(
        load_accelerator(&empty),
        Ok(ConvexHullAccelerator {
            num_verts: 0,
            vertex_list: vec![],
            normal_list: vec![],
            emit_strings: vec![],
        })
    );
    assert_eq!(CHA_VERSION, 2);
}

#[test]
fn accelerator_file_is_refused_for_its_first_fault() {
    let good = sample();
    let eof = Err(ChaError::Io(IoError::UnexpectedEof));
    for cut in [0, 3, 7, 11, 12, 35, 39, 51, 55, 65, 66, 69, 72] {
        assert_eq!(load_accelerator(&good[..cut]), eof, "cut at {}", cut);
    }
    let mut bad = good.clone();
    bad[0] = b'X';
    assert_eq!(load_accelerator(&bad), Err(ChaError::BadMagic));
    let mut bad = good.clone();
    bad[4] = 3;
    assert_eq!(load_accelerator(&bad), Err(ChaError::UnsupportedVersion));
    let mut bad = good.clone();
    bad[11] = 0x80;
    assert_eq!(load_accelerator(&bad), Err(ChaError::BadVertexCount));
    let mut bad = good.clone();
    bad[39] = 0xff;
    assert_eq!(load_accelerator(&bad), Err(ChaError::BadFaceCount));
    let mut bad = good.clone();
    bad[66] = 2;
    assert_eq!(load_accelerator(&bad), Err(ChaError::BadRowSize));
    let mut bad = good.clone();
    bad[52] = 2;
    assert_eq!(load_accelerator(&bad), Err(ChaError::BadRowSize));
    assert_eq!(ChaError::BadMagic.message(), "bad magic");
    assert_eq!(ChaError::UnsupportedVersion.message(), "unsupported version");
    assert_eq!(ChaError::BadVertexCount.message(), "bad vertex count");
    assert_eq!(ChaError::BadFaceCount.message(), "bad face count");
    assert_eq!(ChaError::BadRowSize.message(), "bad emission strings row size");
}

#[test]
fn accelerator_is_written_as_it_is_read() {
    assert_eq!(save_accelerator(&accelerator()), Some(sample()));
    let mut roomy = accelerator();
    roomy.normal_list.extend(point(70));
    roomy.emit_strings[1].extend([42, 42]);
    assert_eq!(save_accelerator(&roomy), Some(sample()));
    assert_eq!(load_accelerator(&save_accelerator(&roomy).unwrap()), Ok(accelerator()));

    let mut bad = accelerator();
    bad.num_verts = 3;
    assert_eq!(save_accelerator(&bad), None);
    let mut bad = accelerator();
    bad.num_verts = -1;
    assert_eq!(save_accelerator(&bad), None);
    let mut bad = accelerator();
    bad.vertex_list.pop();
    assert_eq!(save_accelerator(&bad), None);
    let mut bad = accelerator();
    bad.emit_strings[0].pop();
    assert_eq!(save_accelerator(&bad), None);
    let mut bad = accelerator();
    bad.normal_list.pop();
    assert_eq!(save_accelerator(&bad), None);
    let mut bad = accelerator();
    bad.emit_strings[0][6] = 1;
    assert_eq!(save_accelerator(&bad), None);
}

#[test]
fn accelerator_is_loaded_computed_or_left_alone() {
    let inspected = |has_path, has_name, built, dts_mtime, cha_mtime| AccelEvent::Inspected {
        has_path,
        has_name,
        built,
        dts_mtime,
        cha_mtime,
    };
    let step = my_compute_accelerator;
    let begin = AccelState::Begin;
    let original = Some((AccelState::Done, AccelAction::CallOriginal));
    assert_eq!(step(begin, inspected(false, true, false, Some(1), Some(2))), original);
    assert_eq!(step(begin, inspected(true, false, true, None, None)), original);
    assert_eq!(
        step(begin, inspected(true, true, true, Some(1), Some(2))),
        Some((AccelState::Done, AccelAction::Return))
    );
    let load = Some((AccelState::Loading, AccelAction::Load));
    assert_eq!(step(begin, inspected(true, true, false, Some(1), Some(2))), load);
    assert_eq!(step(begin, inspected(true, true, false, Some(2), Some(2))), load);
    let compute = Some((AccelState::Computing, AccelAction::CallOriginal));
    assert_eq!(step(begin, inspected(true, true, false, Some(3), Some(2))), compute);
    assert_eq!(step(begin, inspected(true, true, false, None, Some(2))), compute);
    assert_eq!(step(begin, inspected(true, true, false, Some(2), None)), compute);
    assert_eq!(
        step(AccelState::Loading, AccelEvent::Loaded { ok: true }),
        Some((AccelState::Done, AccelAction::Install))
    );
    assert_eq!(step(AccelState::Loading, AccelEvent::Loaded { ok: false }), compute);
    assert_eq!(
        step(AccelState::Computing, AccelEvent::Computed { built: true }),
        Some((AccelState::Saving, AccelAction::Save))
    );
    assert_eq!(
        step(AccelState::Computing, AccelEvent::Computed { built: false }),
        Some((AccelState::Done, AccelAction::Return))
    );
    for ok in [true, false] {
        assert_eq!(
            step(AccelState::Saving, AccelEvent::Saved { ok }),
            Some((AccelState::Done, AccelAction::Return))
        );
        assert_eq!(step(AccelState::Done, AccelEvent::Saved { ok }), None);
        assert_eq!(step(begin, AccelEvent::Loaded { ok }), None);
    }
    assert_eq!(step(AccelState::Loading, AccelEvent::Computed { built: true }), None);
    assert_eq!(cha_extension(3), "dts.3.cha");
    assert_eq!(cha_extension(0), "dts.0.cha");
    assert_eq!(cha_extension(-12), "dts.-12.cha");
}
