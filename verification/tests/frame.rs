use render_baby::frame::{Frame, Image, RenderOutput, SizeMismatch};

#[test]
fn frame_size_and_validation() {
    let f = Frame::new(2, 3, vec![0; 24]);
    assert_eq!(f.expected_size(), 24);
    assert!(f.validate().is_ok());
    let g = Frame::new(2, 3, vec![0; 23]);
    assert_eq!(g.validate(), Err(SizeMismatch { expected: 24, got: 23 }));
}

#[test]
fn render_output_size_and_validation() {
    let o = RenderOutput::new(1, 1, vec![1, 2, 3, 4]);
    assert_eq!(o.expected_size(), 4);
    assert!(o.validate().is_ok());
    let p = RenderOutput::new(4, 1, vec![]);
    assert_eq!(p.validate(), Err(SizeMismatch { expected: 16, got: 0 }));
}

#[test]
fn image_keeps_fields() {
    let i = Image::new(3, 5, vec![9, 9]);
    assert_eq!(i.width(), 3);
    assert_eq!(i.height(), 5);
    assert_eq!(i.pixels(), &vec![9, 9]);
}

#[test]
fn mismatch_messages() {
    let o = RenderOutput::new(2, 1, vec![0u8; 7]);
    let e = o.validate().unwrap_err();
    assert_eq!(e.render_output_message(), "RenderOutput pixel size mismatch: expected 8 bytes, got 7");
    let f = Frame::new(10, 3, vec![0u8; 121]);
    let e = f.validate().unwrap_err();
    assert_eq!(e.frame_message(), "Frame pixel size mismatch: expected 120 bytes, got 121");
    assert_eq!(SizeMismatch { expected: 0, got: 1009 }.message("X"), "X pixel size mismatch: expected 0 bytes, got 1009");
}
