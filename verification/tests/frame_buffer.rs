use std::cell::Cell;
use std::rc::Rc;

use render_baby::frame::Frame;
use render_baby::frame_buffer::{last_frame_answer, BufferCommand, FrameDelivery, FrameIterator, Provider};

struct Counting {
    left: usize,
    destroyed: Rc<Cell<bool>>,
}

impl FrameIterator for Counting {
    type Error = String;

    fn more_frames(&self) -> bool {
        self.left > 0
    }

    fn renders(&self, after: &Self, result: Result<Frame, String>) -> bool {
        match result {
            Ok(f) => self.left > 0 && after.left + 1 == self.left && f.pixels == vec![after.left as u8, 0, 0, 255],
            Err(_) => self.left == 0 && after.left == 0,
        }
    }

    fn destroys(&self, after: &Self) -> bool {
        after.left == self.left && after.destroyed.get()
    }

    fn has_next(&self) -> bool {
        self.left > 0
    }

    fn next(&mut self) -> Result<Frame, String> {
        if self.left == 0 {
            return Err("No more frames available".to_string());
        }
        self.left -= 1;
        Ok(Frame::new(1, 1, vec![self.left as u8, 0, 0, 255]))
    }

    fn destroy(&mut self) {
        self.destroyed.set(true);
    }
}

fn counting(left: usize) -> (Counting, Rc<Cell<bool>>) {
    let flag = Rc::new(Cell::new(false));
    (Counting { left, destroyed: flag.clone() }, flag)
}

#[test]
fn provider_set_and_reset() {
    let mut p: Provider<Counting> = Provider::new();
    assert!(p.is_none());
    assert!(!p.has_provider());
    p.set(counting(2).0);
    assert!(p.is_some());
    assert!(p.has_provider());
    p.reset();
    assert!(p.is_none());
    assert!(!p.has_provider());
}

#[test]
fn provider_dismisses_exhausted_iterator() {
    let mut p: Provider<Counting> = Provider::new();
    p.set(counting(0).0);
    assert!(p.is_none());
    assert!(!p.has_provider());
}

#[test]
fn provider_destroy_keeps_flag() {
    let mut p: Provider<Counting> = Provider::new();
    let (it, destroyed) = counting(2);
    p.set(it);
    p.destroy();
    assert!(destroyed.get());
    assert!(p.is_none());
    assert!(p.has_provider());
}

#[test]
fn worker_produces_all_frames_then_goes_idle() {
    let mut p: Provider<Counting> = Provider::new();
    assert!(p.handle_idle(Some(BufferCommand::Provide(counting(2).0))));
    let (f, last) = p.produce();
    assert_eq!(f.unwrap().pixels[0], 1);
    assert!(!last);
    assert_eq!(p.after_frame(last, true, true, None), FrameDelivery { store_as_last: false, send: true });
    let (f, last) = p.produce();
    assert_eq!(f.unwrap().pixels[0], 0);
    assert!(last);
    assert!(p.is_none());
    assert!(!p.has_provider());
    assert_eq!(p.after_frame(last, true, true, None), FrameDelivery { store_as_last: true, send: true });
    assert!(!p.handle_idle(None));
}

#[test]
fn worker_command_drops_frame_and_stores_it() {
    let mut p: Provider<Counting> = Provider::new();
    p.set(counting(5).0);
    let (_f, last) = p.produce();
    let d = p.after_frame(last, true, true, Some(BufferCommand::StopCurrentProvider));
    assert_eq!(d, FrameDelivery { store_as_last: true, send: false });
    assert!(p.is_none());
    assert!(!p.has_provider());
}

#[test]
fn worker_switches_provider() {
    let mut p: Provider<Counting> = Provider::new();
    p.set(counting(5).0);
    let (_f, last) = p.produce();
    let d = p.after_frame(last, true, false, Some(BufferCommand::Provide(counting(1).0)));
    assert_eq!(d, FrameDelivery { store_as_last: false, send: false });
    assert!(p.is_some());
    assert!(p.has_provider());
}

#[test]
fn worker_idle_stop_is_ignored() {
    let mut p: Provider<Counting> = Provider::new();
    assert!(p.handle_idle(Some(BufferCommand::StopCurrentProvider)));
    assert!(p.is_none());
}

#[test]
fn last_frame_answer_follows_flag() {
    let stored = Some(Frame::new(1, 1, vec![1, 2, 3, 4]));
    let a = last_frame_answer(true, &stored).unwrap().unwrap();
    assert_eq!(a.pixels, vec![1, 2, 3, 4]);
    assert!(last_frame_answer(true, &None).unwrap().is_none());
    assert!(last_frame_answer(false, &stored).is_err());
}

#[test]
fn iterator_without_frames_is_dropped_on_arrival() {
    let mut p: Provider<Counting> = Provider::new();
    assert!(p.handle_idle(Some(BufferCommand::Provide(counting(0).0))));
    assert!(p.is_none());
    assert!(!p.has_provider());
    p.set(counting(0).0);
    assert!(p.is_none());
    p.set(counting(3).0);
    assert!(p.is_some());
    assert!(p.has_provider());
}
