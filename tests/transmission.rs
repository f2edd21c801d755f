use led_matrix_daemon::config::PortDto;
use led_matrix_daemon::gray_image::GrayImage;
use led_matrix_daemon::port::{DisplayError, Port};
use led_matrix_daemon::transmission::{Action, Event, Failure, Transmission, TransportError};

fn port(keep_open: bool, wait_delay_ms: Option<u64>) -> Port {
    Port::try_from(PortDto {
        path: "/dev/ttyACM1".to_string(),
        baud_rate: 115200,
        timeout_ms: 2000,
        wait_delay_ms,
        keep_open,
    })
}

fn image(width: u32, height: u32) -> GrayImage {
    let pixels: Vec<u8> = (0..width * height).map(|i| (i * 7 % 251) as u8).collect();
    GrayImage::new(width, height, pixels).unwrap()
}

#[test]
fn wrong_size_image_is_refused_before_any_write() {
    let p = port(true, None);
    for (w, h) in [(8, 34), (9, 33), (34, 9), (0, 0), (10, 34)] {
        match p.display_gray_image(&image(w, h)) {
            Err(DisplayError::WrongSize { width, height }) => {
                assert_eq!((width, height), (w, h));
            }
            Ok(_) => panic!("a {w}x{h} image was accepted"),
        }
    }
    assert!(!p.connected());
}

#[test]
fn nine_columns_then_one_commit() {
    let img = image(9, 34);
    let p = port(true, None);
    let tx = p.display_gray_image(&img).unwrap();
    assert_eq!(tx.frame_count(), 10);
    for col in 0..9 {
        let frame = tx.frame(col);
        assert_eq!(frame.len(), 38);
        assert_eq!(&frame[..4], &[0x32, 0xAC, 0x07, col as u8]);
        for row in 0..34 {
            assert_eq!(frame[4 + row], img.get_pixel(col as u32, row as u32));
        }
    }
    assert_eq!(tx.frame(9), &vec![0x32, 0xAC, 0x08]);
}

#[test]
fn nothing_is_written_after_the_commit() {
    let img = image(9, 34);
    let mut p = port(true, None);
    let mut tx = p.display_gray_image(&img).unwrap();
    assert_eq!(tx.pending(), Action::Open);
    assert_eq!(tx.step(&mut p, Event::Opened), Action::Write(0));
    for i in 1..10 {
        assert_eq!(tx.step(&mut p, Event::Written), Action::Write(i));
    }
    assert_eq!(tx.step(&mut p, Event::Written), Action::Done);
    for e in [Event::Written, Event::Opened, Event::Closed, Event::Slept] {
        assert_eq!(tx.step(&mut p, e), Action::Done);
    }
}

#[test]
fn connection_held_skips_open() {
    let img = image(9, 34);
    let mut p = port(true, None);
    let mut first = p.display_gray_image(&img).unwrap();
    first.step(&mut p, Event::Opened);
    assert!(p.connected());
    let second = p.display_gray_image(&img).unwrap();
    assert_eq!(second.pending(), Action::Write(0));
}

#[test]
fn unhealthy_write_forces_fresh_open() {
    let img = image(9, 34);
    let mut p = port(true, None);
    let mut tx = p.display_gray_image(&img).unwrap();
    tx.step(&mut p, Event::Opened);
    tx.step(&mut p, Event::Written);
    assert_eq!(tx.step(&mut p, Event::WriteFailed(Failure::Unhealthy)), Action::Close);
    assert!(!p.connected());
    assert_eq!(
        tx.step(&mut p, Event::Closed),
        Action::Failed(TransportError::Write(Failure::Unhealthy))
    );
    let next = p.display_gray_image(&img).unwrap();
    assert_eq!(next.pending(), Action::Open);
}

#[test]
fn other_write_error_keeps_connection() {
    let img = image(9, 34);
    let mut p = port(true, None);
    let mut tx = p.display_gray_image(&img).unwrap();
    tx.step(&mut p, Event::Opened);
    assert_eq!(
        tx.step(&mut p, Event::WriteFailed(Failure::Io)),
        Action::Failed(TransportError::Write(Failure::Io))
    );
    assert!(p.connected());
    assert_eq!(p.display_gray_image(&img).unwrap().pending(), Action::Write(0));
}

#[test]
fn unhealthy_read_forces_fresh_open() {
    let mut p = port(true, None);
    let mut tx = p.get_device_version();
    tx.step(&mut p, Event::Opened);
    assert_eq!(tx.step(&mut p, Event::Written), Action::Read(32));
    assert_eq!(tx.step(&mut p, Event::ReadFailed(Failure::Unhealthy)), Action::Close);
    assert!(!p.connected());
    assert_eq!(
        tx.step(&mut p, Event::Closed),
        Action::Failed(TransportError::Read(Failure::Unhealthy))
    );
    assert_eq!(p.get_device_version().pending(), Action::Open);
}

#[test]
fn open_failure_without_delay_fails_at_once() {
    let mut p = port(true, None);
    let mut tx = p.get_device_version();
    assert_eq!(tx.step(&mut p, Event::OpenFailed), Action::Failed(TransportError::Open));
    assert!(!p.connected());
}

#[test]
fn open_failure_with_delay_retries() {
    let mut p = port(true, Some(250));
    let mut tx = p.get_device_version();
    for _ in 0..5 {
        assert_eq!(tx.step(&mut p, Event::OpenFailed), Action::Sleep(250));
        assert_eq!(tx.step(&mut p, Event::Slept), Action::Open);
    }
    assert_eq!(tx.step(&mut p, Event::Opened), Action::Write(0));
    assert!(p.connected());
}

#[test]
fn not_keeping_open_closes_after_each_frame() {
    let mut p = port(false, None);
    let frames = vec![vec![0x32, 0xAC, 0x08], vec![0x32, 0xAC, 0x08]];
    let mut tx = Transmission::new(frames, 0, &p);
    assert_eq!(tx.pending(), Action::Open);
    assert_eq!(tx.step(&mut p, Event::Opened), Action::Write(0));
    assert_eq!(tx.step(&mut p, Event::Written), Action::Close);
    assert!(!p.connected());
    assert_eq!(tx.step(&mut p, Event::Closed), Action::Open);
    assert_eq!(tx.step(&mut p, Event::Opened), Action::Write(1));
    assert_eq!(tx.step(&mut p, Event::Written), Action::Close);
    assert_eq!(tx.step(&mut p, Event::Closed), Action::Done);
    assert!(!p.connected());
}

#[test]
fn unexpected_event_changes_nothing() {
    let mut p = port(true, Some(5));
    let mut tx = p.get_device_version();
    assert_eq!(tx.step(&mut p, Event::Written), Action::Open);
    assert_eq!(tx.step(&mut p, Event::Closed), Action::Open);
    assert!(!p.connected());
}

#[test]
fn explicit_close_is_idempotent() {
    let mut p = port(true, None);
    p.close();
    assert!(!p.connected());
    let mut tx = p.get_device_version();
    tx.step(&mut p, Event::Opened);
    assert!(p.connected());
    p.close();
    p.close();
    assert!(!p.connected());
}
