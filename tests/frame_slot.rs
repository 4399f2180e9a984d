use gstreamer_iced::{FrameData, FrameSlot, GStreamerMessage};

fn frame(fill: u8, width: u32, height: u32) -> FrameData {
    FrameData { pixels: vec![fill; (width * height * 4) as usize], width, height }
}

#[test]
fn fresh_slot_reads_empty() {
    let slot = FrameSlot::new();
    assert!(slot.read().is_none());
}

#[test]
fn last_write_wins() {
    let mut slot = FrameSlot::new();
    slot.write(frame(1, 2, 2));
    slot.write(frame(2, 3, 1));
    slot.write(frame(7, 1, 2));
    let f = slot.read().unwrap();
    assert_eq!(f.width, 1);
    assert_eq!(f.height, 2);
    assert_eq!(f.pixels, vec![7u8; 8]);
}

#[test]
fn read_leaves_frame_in_place() {
    let mut slot = FrameSlot::new();
    slot.write(frame(9, 1, 1));
    let a = slot.read().unwrap();
    let b = slot.read().unwrap();
    assert_eq!(a.pixels, b.pixels);
    assert_eq!(b.pixels, vec![9u8; 4]);
}

#[test]
fn from_sample_checks_dimensions() {
    let ok = FrameData::from_sample(vec![0u8; 24], 3, 2).unwrap();
    assert_eq!((ok.width, ok.height, ok.pixels.len()), (3, 2, 24));
    assert!(FrameData::from_sample(vec![0u8; 23], 3, 2).is_none());
    assert!(FrameData::from_sample(vec![0u8; 0], -1, 0).is_none());
    assert!(FrameData::from_sample(vec![0u8; 0], 0, 5).is_some());
}

#[test]
fn accept_sample_writes_and_notifies() {
    let mut slot = FrameSlot::new();
    let pixels: Vec<u8> = (0u8..8).collect();
    assert_eq!(slot.accept_sample(pixels.clone(), 2, 1), Some(GStreamerMessage::FrameUpdate));
    assert_eq!(slot.read().unwrap().pixels, pixels);
}

#[test]
fn accept_sample_drops_malformed() {
    let mut slot = FrameSlot::new();
    slot.write(frame(5, 1, 1));
    assert_eq!(slot.accept_sample(vec![1u8; 3], 1, 1), None);
    assert_eq!(slot.read().unwrap().pixels, vec![5u8; 4]);
}

#[test]
fn read_frame_has_rgba_length() {
    let mut slot = FrameSlot::new();
    slot.accept_sample(vec![3u8; 4 * 5 * 4], 4, 5);
    let f = slot.read().unwrap();
    assert_eq!(f.pixels.len(), (f.width * f.height * 4) as usize);
}
