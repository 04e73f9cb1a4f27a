use psx::panic_report::{
    message, panic_screen, pretty_call, printf_call, Depth, PanicLocation, VideoMode,
};

fn location() -> Option<PanicLocation<'static>> {
    Some(PanicLocation { file: b"src/main.rs", line: 12, column: 5 })
}

fn args(a: Option<(u32, u32)>) -> Vec<u32> {
    match a {
        Some((x, y)) => vec![x, y],
        None => vec![],
    }
}

fn printf_calls(location: &Option<PanicLocation>, msg: &[u8]) -> Vec<(Vec<u8>, Vec<u32>)> {
    let mut out = Vec::new();
    let mut i = 0;
    while let Some(c) = printf_call(location, msg, i) {
        out.push((c.format.to_vec(), args(c.args)));
        i += 1;
    }
    out
}

fn pretty_calls(location: &Option<PanicLocation>, msg: &[u8]) -> Vec<(Vec<u8>, Vec<u32>, bool)> {
    let mut out = Vec::new();
    let mut i = 0;
    while let Some(c) = pretty_call(location, msg, i) {
        out.push((c.text.to_vec(), args(c.args), c.newline));
        i += 1;
    }
    out
}

#[test]
fn message_is_the_panic_text() {
    assert_eq!(message(Some("index out of bounds")), b"index out of bounds");
    assert_eq!(message(Some("")), b"");
}

#[test]
fn message_without_plain_text_is_the_default() {
    assert_eq!(message(None), b"Panic message contained formatted arguments\0");
}

#[test]
fn printf_report_with_location() {
    let calls = printf_calls(&location(), b"oops");
    assert_eq!(calls.len(), 5);
    assert_eq!(calls[0], (b"Panicked at \0".to_vec(), vec![]));
    assert_eq!(calls[1], (b"src/main.rs".to_vec(), vec![]));
    assert_eq!(calls[2], (b":%d:%d\n\0".to_vec(), vec![12, 5]));
    assert_eq!(calls[3], (b"oops".to_vec(), vec![]));
    assert_eq!(calls[4], (b"\n\0".to_vec(), vec![]));
}

#[test]
fn printf_report_without_location() {
    let calls = printf_calls(&None, b"oops");
    assert_eq!(calls.len(), 3);
    assert_eq!(calls[0], (b"Panicked at unknown location\n\0".to_vec(), vec![]));
    assert_eq!(calls[1], (b"oops".to_vec(), vec![]));
    assert_eq!(calls[2], (b"\n\0".to_vec(), vec![]));
}

#[test]
fn printf_report_ends_after_its_calls() {
    assert!(printf_call(&location(), b"m", 5).is_none());
    assert!(printf_call(&location(), b"m", usize::MAX).is_none());
    assert!(printf_call(&None, b"m", 3).is_none());
}

#[test]
fn printf_report_borrows_file_and_message() {
    let file: &[u8] = b"lib.rs";
    let msg: &[u8] = b"boom";
    let loc = Some(PanicLocation { file, line: 1, column: 2 });
    assert_eq!(printf_call(&loc, msg, 1).unwrap().format.as_ptr(), file.as_ptr());
    assert_eq!(printf_call(&loc, msg, 3).unwrap().format.as_ptr(), msg.as_ptr());
}

#[test]
fn printf_report_with_default_message() {
    let calls = printf_calls(&None, message(None));
    assert_eq!(calls[1].0, b"Panic message contained formatted arguments\0");
}

#[test]
fn pretty_report_with_location() {
    let lines = pretty_calls(&location(), b"oops");
    assert_eq!(lines.len(), 4);
    assert_eq!(lines[0], (b"Panicked at ".to_vec(), vec![], false));
    assert_eq!(lines[1], (b"src/main.rs".to_vec(), vec![], false));
    assert_eq!(lines[2], (b":{}:{}".to_vec(), vec![12, 5], true));
    assert_eq!(lines[3], (b"oops".to_vec(), vec![], true));
}

#[test]
fn pretty_report_without_location() {
    let lines = pretty_calls(&None, b"oops");
    assert_eq!(lines.len(), 2);
    assert_eq!(lines[0], (b"Panicked at unknown location".to_vec(), vec![], true));
    assert_eq!(lines[1], (b"oops".to_vec(), vec![], true));
    assert!(pretty_call(&None, b"oops", 2).is_none());
}

#[test]
fn pretty_report_screen_setup() {
    let s = panic_screen();
    assert_eq!(s.display_buffer, (0, 0));
    assert_eq!(s.draw_buffer, (0, 240));
    assert_eq!(s.resolution, (320, 240));
    assert!(matches!(s.video_mode, VideoMode::NTSC));
    assert!(matches!(s.depth, Depth::High));
    assert!(!s.interlaced);
    assert_eq!(s.text_origin, (0, 0));
    assert_eq!(s.text_offset, (0, 0));
    assert_eq!(s.text_size, (320, 240));
    assert_eq!(s.framebuffer_background, None);
    assert_eq!(s.text_background, None);
}

#[test]
fn reports_agree_on_location_and_message() {
    let p = printf_calls(&location(), b"msg");
    let s = pretty_calls(&location(), b"msg");
    assert_eq!(s.len(), p.len() - 1);
    assert_eq!(s[1].0, p[1].0);
    assert_eq!(s[2].1, p[2].1);
    assert_eq!(s[3].0, p[3].0);
}

#[test]
fn literal_formats_are_c_strings() {
    for (f, _) in printf_calls(&location(), b"m") {
        if f != b"src/main.rs" && f != b"m" {
            assert_eq!(*f.last().unwrap(), 0);
            assert_eq!(f.iter().filter(|&&b| b == 0).count(), 1);
        }
    }
}
