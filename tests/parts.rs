use triangle::err::{self, Error};
use triangle::info_log::{log_capacity, log_text};
use triangle::scene::{buffer_bytes, keep_running, vertex_attributes, viewport_size, Attribute, InputEvent};
use triangle::source::source_buffer;

#[test]
fn source_buffer_appends_terminator() {
    assert_eq!(source_buffer("abc").unwrap(), vec![97, 98, 99, 0]);
    assert_eq!(source_buffer("").unwrap(), vec![0]);
}

#[test]
fn source_buffer_refuses_zero_byte() {
    assert!(matches!(source_buffer("a\0b"), Err(Error::Other { .. })));
}

#[test]
fn log_capacity_from_report() {
    assert_eq!(log_capacity(-1), 0);
    assert_eq!(log_capacity(0), 0);
    assert_eq!(log_capacity(12), 12);
    assert_eq!(log_capacity(i32::MAX), i32::MAX as usize);
}

#[test]
fn log_text_stops_at_terminator() {
    assert_eq!(log_text(&b"error\0junk".to_vec()), "error");
    assert_eq!(log_text(&b"no terminator".to_vec()), "no terminator");
    assert_eq!(log_text(&vec![0, 65]), "");
    assert_eq!(log_text(&Vec::new()), "");
}

#[test]
fn log_text_replaces_invalid_bytes() {
    assert_eq!(log_text(&vec![0xff, 0x41, 0]), "\u{FFFD}A");
}

#[test]
fn viewport_fits() {
    assert_eq!(viewport_size(1080, 720).unwrap(), (1080, 720));
    assert_eq!(viewport_size(i32::MAX as u32, 0).unwrap(), (i32::MAX, 0));
}

#[test]
fn viewport_too_wide_or_tall() {
    assert_eq!(
        viewport_size(u32::MAX, u32::MAX).unwrap_err(),
        Error::Other { message: "Window width too large".to_string() }
    );
    assert_eq!(
        viewport_size(1, 1 << 31).unwrap_err(),
        Error::Other { message: "Window height too large".to_string() }
    );
}

#[test]
fn buffer_size_of_triangle() {
    assert_eq!(buffer_bytes(18), Some(72));
    assert_eq!(buffer_bytes(0), Some(0));
    assert_eq!(buffer_bytes(usize::MAX), None);
}

#[test]
fn interleaved_layout() {
    assert_eq!(
        vertex_attributes(),
        vec![
            Attribute { index: 0, components: 3, stride: 24, offset: 0 },
            Attribute { index: 1, components: 3, stride: 24, offset: 12 },
        ]
    );
}

#[test]
fn loop_stops_on_quit() {
    assert!(keep_running(&Vec::new()));
    assert!(keep_running(&vec![InputEvent::Other, InputEvent::Other]));
    assert!(!keep_running(&vec![InputEvent::Other, InputEvent::Quit]));
}

#[test]
fn generic_error_message() {
    let e = err::new("no window");
    assert_eq!(e, Error::Other { message: "no window".to_string() });
    assert_eq!(e.message(), "no window");
}
