use gb_core::pacing::{Frame, FramePacer, FPS};

#[test]
fn a_frame_is_due_every_sixtieth_of_a_second() {
    assert_eq!(FPS, 60);
    let mut pacer = FramePacer::new();
    assert_eq!(pacer.poll(0), Frame::Wait(16));
    assert_eq!(pacer.poll(15), Frame::Wait(1));
    assert_eq!(pacer.last, 0);
    assert_eq!(pacer.poll(16), Frame::Draw);
    assert_eq!(pacer.last, 16);
    assert_eq!(pacer.poll(16), Frame::Wait(16));
    assert_eq!(pacer.poll(20), Frame::Wait(12));
    assert_eq!(pacer.poll(1000), Frame::Draw);
    assert_eq!(pacer.last, 1000);
}
