use mbx::dgl::{tge_allocate_bitmap, tge_create_gl_name, GBitmap, TextureObject};
use mbx::engine_core::{
    tge_register_extension, tge_resource_manager, ResManager, SeekFrom, SeekPlan, Stream,
    StreamError, StreamStatus,
};
use mbx::game::Marble;
use mbx::interop::Value;
use mbx::gl::{get_proc_address, GlCall, Loader, TextureFilter};
use mbx::interop::{Platform, TgeAddr, Vtable};
use mbx::rust_plugin::{add_values, rustAdd, rustReverse, tge_create_window};
use mbx::texture_size_fix::{
    fix_texture, my_allocate_bitmap, my_create_gl_name, Patch, MAX_PNG_HEIGHT, PNG_TOO_TALL,
};
use mbx::ts::tge_compute_accelerator;

fn bitmap(width: u32, height: u32, levels: u32) -> GBitmap {
    let mut b = GBitmap::empty();
    b.width = width;
    b.height = height;
    b.num_mip_levels = levels;
    b
}

fn texture(name: u32, small: u32) -> TextureObject {
    TextureObject {
        next: 0,
        prev: 0,
        hash_next: 0,
        gl_texture_name: name,
        gl_texture_name_small: small,
        texture_key: 0,
        bitmap: 0,
        texture_width: 0,
        texture_height: 0,
        bitmap_width: 0,
        bitmap_height: 0,
        downloaded_width: 0,
        downloaded_height: 0,
        texture_type: 3,
        filter_nearest: false,
        clamp: false,
        holding: false,
        ref_count: 1,
    }
}

fn mipmaps(name: u32) -> Vec<GlCall> {
    vec![
        GlCall::BindTexture { name },
        GlCall::GenerateMipmap,
        GlCall::MinFilter { filter: TextureFilter::LinearMipmapLinear },
        GlCall::BindTexture { name: 0 },
    ]
}

#[test]
fn stream_reports_its_status() {
    let stream = Stream::new(0x8000, StreamStatus::Eos);
    assert_eq!(stream.status(), StreamStatus::Eos);
    assert_eq!(stream.vtable(), 0x8000);
    assert!(!stream.reads());
    for status in [
        StreamStatus::Okay,
        StreamStatus::IoError,
        StreamStatus::IllegalCall,
        StreamStatus::Closed,
        StreamStatus::UnknownError,
    ] {
        assert!(Stream::new(0, status).reads());
        assert_eq!(Stream::new(0, status).status(), status);
    }
    assert_eq!(Stream::read(10, true, 25), Ok(15));
    assert_eq!(Stream::read(10, true, 10), Ok(0));
    assert_eq!(Stream::read(10, false, 3), Err(StreamError::ReadFailed));
    assert_eq!(Stream::write(8, true), Ok(8));
    assert_eq!(Stream::write(8, false), Err(StreamError::WriteFailed));
    assert_eq!(StreamError::ReadFailed.message(), "TGE stream read failed");
    assert_eq!(StreamError::SeekFailed.message(), "TGE stream seek failed");
    assert_eq!(StreamError::WriteFailed.message(), "TGE stream write failed");
}

#[test]
fn seek_counts_in_thirty_two_bits() {
    assert_eq!(Stream::seek(SeekFrom::Start(7), 100, 200), SeekPlan::Move(7));
    assert_eq!(Stream::seek(SeekFrom::Start(0x1_0000_0005), 100, 200), SeekPlan::Move(5));
    assert_eq!(Stream::seek(SeekFrom::Current(0), 100, 200), SeekPlan::Tell);
    assert_eq!(Stream::seek(SeekFrom::Current(5), 100, 200), SeekPlan::Move(105));
    assert_eq!(Stream::seek(SeekFrom::Current(-5), 100, 200), SeekPlan::Move(95));
    assert_eq!(Stream::seek(SeekFrom::Current(-101), 100, 200), SeekPlan::Move(u32::MAX));
    assert_eq!(Stream::seek(SeekFrom::End(-1), 100, 200), SeekPlan::Move(199));
    assert_eq!(Stream::seek(SeekFrom::End(0), 100, 200), SeekPlan::Move(200));
    assert_eq!(Stream::seek(SeekFrom::End(1), 100, u32::MAX), SeekPlan::Move(0));
    assert_eq!(Stream::seek_result(SeekPlan::Tell, 100, false), Ok(100));
    assert_eq!(Stream::seek_result(SeekPlan::Move(7), 100, true), Ok(7));
    assert_eq!(Stream::seek_result(SeekPlan::Move(7), 100, false), Err(StreamError::SeekFailed));
}

#[test]
fn engine_functions_stand_where_each_build_has_them() {
    assert_eq!(tge_register_extension(Platform::Windows), TgeAddr(0x408f21));
    assert_eq!(tge_register_extension(Platform::MacOs), TgeAddr(0x4b810));
    let call = ResManager::register_extension(0x100, 0x200, 0x300, Platform::Windows);
    assert_eq!(call.function, 0x408f21);
    assert_eq!(
        call.args,
        vec![Value::Address(0x100), Value::Null, Value::Address(0x200), Value::Address(0x300)]
    );
    let call = ResManager::register_extension(0x100, 0x200, 0x300, Platform::MacOs);
    assert_eq!(call.function, 0x4b810);
    assert_eq!(call.args.len(), 3);
    assert_eq!(Marble::velocity(0x5000, Platform::Windows), Some(0x5a00));
    assert_eq!(Marble::velocity(0x5000, Platform::MacOs), Some(0x59ec));
    assert_eq!(Marble::velocity(usize::MAX, Platform::MacOs), None);
    assert_eq!(tge_resource_manager(Platform::Windows), TgeAddr(0x6a4064));
    assert_eq!(tge_allocate_bitmap(Platform::MacOs), TgeAddr(0x5ae00));
    assert_eq!(tge_create_gl_name(Platform::Windows), TgeAddr(0x40265d));
    assert_eq!(tge_compute_accelerator(Platform::MacOs), TgeAddr(0x1cc530));
    assert_eq!(tge_create_window(Platform::Windows), TgeAddr(0x4065a0));
    assert_eq!(tge_create_window(Platform::MacOs), TgeAddr(0));
    assert_eq!(Patch::HeightCompare.address(Platform::Windows), TgeAddr(0x451a56));
    assert_eq!(Patch::ErrorMessage.address(Platform::MacOs), TgeAddr(0x601e4));
    assert_eq!(Patch::RowPointers1.address(Platform::Windows), TgeAddr(0x451a86));
    assert_eq!(Patch::RowPointers2.address(Platform::MacOs), TgeAddr(0x60124));
    assert_eq!(PNG_TOO_TALL, format!("Error, cannot load pngs taller than {} pixels!", MAX_PNG_HEIGHT));
}

#[test]
fn large_bitmaps_get_their_levels_from_the_graphics_library() {
    assert!(my_allocate_bitmap(511, 511, true));
    assert!(!my_allocate_bitmap(512, 511, true));
    assert!(!my_allocate_bitmap(511, 512, true));
    assert!(!my_allocate_bitmap(16, 16, false));

    assert_eq!(fix_texture(9, &bitmap(1024, 16, 1), 3), mipmaps(9));
    assert_eq!(fix_texture(9, &bitmap(16, 513, 0), 7), mipmaps(9));
    for texture_type in 0..3 {
        assert_eq!(fix_texture(9, &bitmap(1024, 1024, 1), texture_type), vec![]);
    }
    assert_eq!(fix_texture(9, &bitmap(512, 512, 1), 3), vec![]);
    assert_eq!(fix_texture(9, &bitmap(1024, 1024, 2), 3), vec![]);

    let big = bitmap(1024, 1024, 1);
    assert_eq!(my_create_gl_name(false, &big, 3, &texture(4, 5)), (false, vec![]));
    let both = [mipmaps(4), mipmaps(5)].concat();
    assert_eq!(my_create_gl_name(true, &big, 3, &texture(4, 5)), (true, both));
    assert_eq!(my_create_gl_name(true, &big, 3, &texture(0, 5)), (true, mipmaps(5)));
    assert_eq!(my_create_gl_name(true, &big, 3, &texture(4, 0)), (true, mipmaps(4)));
    assert_eq!(my_create_gl_name(true, &big, 3, &texture(0, 0)), (true, vec![]));
    assert_eq!(my_create_gl_name(true, &bitmap(8, 8, 1), 3, &texture(4, 5)), (true, vec![]));
}

#[test]
fn sample_commands_add_and_reverse() {
    let args = |a: &str, b: &str| vec!["rustAdd".to_string(), a.to_string(), b.to_string()];
    assert_eq!(rustAdd(&args("2", "40")), Some(42));
    assert_eq!(rustAdd(&args("-5", "+7")), Some(2));
    assert_eq!(rustAdd(&args("x", "7")), Some(7));
    assert_eq!(rustAdd(&args("1.5", "")), Some(0));
    assert_eq!(rustAdd(&args("2147483647", "1")), None);
    assert_eq!(rustAdd(&args("2147483648", "1")), Some(1));
    assert_eq!(rustAdd(&vec!["rustAdd".to_string(), "1".to_string()]), None);
    assert_eq!(add_values(-3, 5), 2);
    assert_eq!(rustReverse("hello"), vec!['o', 'l', 'l', 'e', 'h']);
    assert_eq!(rustReverse("né"), vec!['é', 'n']);
    assert_eq!(rustReverse(""), Vec::<char>::new());
}

#[test]
fn graphics_functions_are_looked_up_once() {
    let mut loader = Loader::new();
    assert!(loader.init());
    assert!(!loader.init());
    assert!(!loader.init());
    assert_eq!(get_proc_address(0x10, 0x20), 0x10);
    assert_eq!(get_proc_address(0, 0x20), 0x20);
    assert_eq!(get_proc_address(0, 0), 0);
}
