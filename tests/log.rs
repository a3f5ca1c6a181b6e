use ngx::log::{
    check_mask, write_fmt, DebugMask, LogBuf, LOG_BUFFER_SIZE, NGX_LOG_DEBUG_ALL, NGX_LOG_DEBUG_FIRST,
    NGX_LOG_DEBUG_HTTP, NGX_LOG_DEBUG_LAST,
};

#[test]
fn test_mask_lower_bound() {
    assert!(<DebugMask as Into<u32>>::into(DebugMask::Core) == NGX_LOG_DEBUG_FIRST);
}

#[test]
fn test_mask_upper_bound() {
    assert!(<DebugMask as Into<u32>>::into(DebugMask::Stream) == NGX_LOG_DEBUG_LAST);
}

#[test]
fn test_check_mask() {
    struct MockLog {
        log_level: usize,
    }
    let mock = MockLog { log_level: 16 };

    let mut r = check_mask(DebugMask::Core, mock.log_level);
    assert!(r);

    r = check_mask(DebugMask::Alloc, mock.log_level);
    assert!(!r);
}

#[test]
fn log_buffer() {
    let mut buf = LogBuf::new(32);
    let words = ["Hello", "World"];

    // normal write
    buf.append(format!("{} {}!", words[0], words[1]).as_bytes());
    assert_eq!(std::str::from_utf8(buf.filled()), Ok("Hello World!"));

    // overflow results in truncated output
    buf.append(format!(" This is a test, {}", usize::MAX).as_bytes());
    assert_eq!(std::str::from_utf8(buf.filled()), Ok("Hello World! This is a test, 184"));

    // and any following writes are still safe
    buf.append(format!("test").as_bytes());
    assert_eq!(std::str::from_utf8(buf.filled()), Ok("Hello World! This is a test, 184"));
}

#[test]
fn mask_conversions_round_trip() {
    for m in [
        DebugMask::Core,
        DebugMask::Alloc,
        DebugMask::Mutex,
        DebugMask::Event,
        DebugMask::Http,
        DebugMask::Mail,
        DebugMask::Stream,
        DebugMask::All,
    ] {
        let bits: u32 = m.into();
        assert_eq!(DebugMask::try_from(bits), Ok(m));
    }
    assert_eq!(u32::from(DebugMask::Http), NGX_LOG_DEBUG_HTTP);
    assert_eq!(u32::from(DebugMask::All), NGX_LOG_DEBUG_ALL);
    assert_eq!(DebugMask::try_from(3u32), Err(0));
}

#[test]
fn check_mask_all_matches_any_debug_level() {
    assert!(check_mask(DebugMask::All, 0x100));
    assert!(check_mask(DebugMask::Http, 0x100 | 0x010));
    assert!(!check_mask(DebugMask::Http, 0x010));
    assert!(!check_mask(DebugMask::All, 0));
}

#[test]
fn write_fmt_cuts_at_capacity() {
    assert_eq!(write_fmt(5, "Hello World"), b"Hello".to_vec());
    assert_eq!(write_fmt(32, "short"), b"short".to_vec());
    assert_eq!(write_fmt(0, "x"), Vec::<u8>::new());
    assert_eq!(LOG_BUFFER_SIZE, 2016);
}
