//! Rendered images: RGBA8 pixel buffers with their size.
use vstd::prelude::*;
use vstd::string::StringExecFns;

verus! {

/// Size in bytes that an RGBA8 image of `width` x `height` pixels takes.
pub open spec fn rgba_len(width: int, height: int) -> int {
    width * height * 4
}

/// An image's pixel buffer does not match its size.
#[derive(Clone, Copy, Debug, PartialEq, Eq, Structural)]
pub struct SizeMismatch {
    /// Bytes that the size calls for.
    pub expected: usize,
    /// Bytes that the buffer holds.
    pub got: usize,
}

/// The character of decimal digit `d`.
pub open spec fn digit_char(d: nat) -> char {
    if d == 0 {
        '0'
    } else if d == 1 {
        '1'
    } else if d == 2 {
        '2'
    } else if d == 3 {
        '3'
    } else if d == 4 {
        '4'
    } else if d == 5 {
        '5'
    } else if d == 6 {
        '6'
    } else if d == 7 {
        '7'
    } else if d == 8 {
        '8'
    } else {
        '9'
    }
}

/// The decimal notation of `n`, without leading zeros.
pub open spec fn decimal(n: nat) -> Seq<char>
    decreases n,
{
    if n < 10 {
        seq![digit_char(n)]
    } else {
        decimal(n / 10).push(digit_char(n % 10))
    }
}

/// The text of a pixel size mismatch of an image of kind `kind` ("Frame" or
/// "RenderOutput").
pub open spec fn mismatch_text(kind: Seq<char>, expected: nat, got: nat) -> Seq<char> {
    kind + " pixel size mismatch: expected "@ + decimal(expected) + " bytes, got "@ + decimal(got)
}

fn digit_str(d: usize) -> (r: &'static str)
    requires
        d < 10,
    ensures
        r@ == seq![digit_char(d as nat)],
{
    proof {
        reveal_strlit("0");
        reveal_strlit("1");
        reveal_strlit("2");
        reveal_strlit("3");
        reveal_strlit("4");
        reveal_strlit("5");
        reveal_strlit("6");
        reveal_strlit("7");
        reveal_strlit("8");
        reveal_strlit("9");
    }
    if d == 0 {
        "0"
    } else if d == 1 {
        "1"
    } else if d == 2 {
        "2"
    } else if d == 3 {
        "3"
    } else if d == 4 {
        "4"
    } else if d == 5 {
        "5"
    } else if d == 6 {
        "6"
    } else if d == 7 {
        "7"
    } else if d == 8 {
        "8"
    } else {
        "9"
    }
}

/// Appends the decimal notation of `n` to `s`.
fn push_decimal(s: &mut String, n: usize)
    ensures
        final(s)@ == old(s)@ + decimal(n as nat),
    decreases n,
{
    if n < 10 {
        s.append(digit_str(n));
    } else {
        push_decimal(s, n / 10);
        s.append(digit_str(n % 10));
        proof {
            assert(old(s)@ + decimal((n / 10) as nat) + seq![digit_char((n % 10) as nat)]
                =~= old(s)@ + decimal(n as nat));
        }
    }
}

impl SizeMismatch {
    /// The text of the mismatch for an image of kind `kind`:
    /// "`kind` pixel size mismatch: expected `expected` bytes, got `got`".
    pub fn message(&self, kind: &str) -> (r: String)
        ensures
            r@ == mismatch_text(kind@, self.expected as nat, self.got as nat),
    {
        let mut s = String::from_str(kind);
        s.append(" pixel size mismatch: expected ");
        push_decimal(&mut s, self.expected);
        s.append(" bytes, got ");
        push_decimal(&mut s, self.got);
        s
    }

    /// The text of the mismatch found by [`Frame::validate`].
    pub fn frame_message(&self) -> (r: String)
        ensures
            r@ == mismatch_text("Frame"@, self.expected as nat, self.got as nat),
    {
        self.message("Frame")
    }

    /// The text of the mismatch found by [`RenderOutput::validate`].
    pub fn render_output_message(&self) -> (r: String)
        ensures
            r@ == mismatch_text("RenderOutput"@, self.expected as nat, self.got as nat),
    {
        self.message("RenderOutput")
    }
}

/// A single image rendered by a render engine.
#[derive(Clone, Debug)]
pub struct Frame {
    /// Width of the image in pixels.
    pub width: usize,
    /// Height of the image in pixels.
    pub height: usize,
    /// RGBA8 pixel data.
    pub pixels: Vec<u8>,
}

impl Frame {
    /// Creates a frame; the pixel buffer is not checked against the size.
    pub fn new(width: usize, height: usize, pixels: Vec<u8>) -> (r: Self)
        ensures
            r.width == width,
            r.height == height,
            r.pixels@ == pixels@,
    {
        Frame { width, height, pixels }
    }

    /// Size of the image in bytes.
    pub fn expected_size(&self) -> (r: usize)
        requires
            rgba_len(self.width as int, self.height as int) <= usize::MAX,
        ensures
            r == rgba_len(self.width as int, self.height as int),
    {
        proof {
            assert(self.width * self.height <= self.width * self.height * 4) by (nonlinear_arith);
        }
        self.width * self.height * 4
    }

    /// Checks that the pixel buffer holds exactly `width * height * 4` bytes.
    pub fn validate(&self) -> (r: Result<(), SizeMismatch>)
        requires
            rgba_len(self.width as int, self.height as int) <= usize::MAX,
        ensures
            self.pixels@.len() == rgba_len(self.width as int, self.height as int) ==> r is Ok,
            self.pixels@.len() != rgba_len(self.width as int, self.height as int) ==> r == Err::<
                (),
                SizeMismatch,
            >(
                SizeMismatch {
                    expected: rgba_len(self.width as int, self.height as int) as usize,
                    got: self.pixels@.len() as usize,
                },
            ),
    {
        let expected = self.expected_size();
        if self.pixels.len() != expected {
            return Err(SizeMismatch { expected, got: self.pixels.len() });
        }
        Ok(())
    }
}

/// The pixels of a finished render, as handed to the user interface.
#[derive(Clone, Debug)]
pub struct RenderOutput {
    pub width: usize,
    pub height: usize,
    /// RGBA8 pixel data.
    pub pixels: Vec<u8>,
}

impl RenderOutput {
    /// Creates an output; the pixel buffer is not checked against the size.
    pub fn new(width: usize, height: usize, pixels: Vec<u8>) -> (r: Self)
        ensures
            r.width == width,
            r.height == height,
            r.pixels@ == pixels@,
    {
        RenderOutput { width, height, pixels }
    }

    /// Size of the image in bytes.
    pub fn expected_size(&self) -> (r: usize)
        requires
            rgba_len(self.width as int, self.height as int) <= usize::MAX,
        ensures
            r == rgba_len(self.width as int, self.height as int),
    {
        proof {
            assert(self.width * self.height <= self.width * self.height * 4) by (nonlinear_arith);
        }
        self.width * self.height * 4
    }

    /// Checks that the pixel buffer holds exactly `width * height * 4` bytes.
    pub fn validate(&self) -> (r: Result<(), SizeMismatch>)
        requires
            rgba_len(self.width as int, self.height as int) <= usize::MAX,
        ensures
            self.pixels@.len() == rgba_len(self.width as int, self.height as int) ==> r is Ok,
            self.pixels@.len() != rgba_len(self.width as int, self.height as int) ==> r == Err::<
                (),
                SizeMismatch,
            >(
                SizeMismatch {
                    expected: rgba_len(self.width as int, self.height as int) as usize,
                    got: self.pixels@.len() as usize,
                },
            ),
    {
        let expected = self.expected_size();
        if self.pixels.len() != expected {
            return Err(SizeMismatch { expected, got: self.pixels.len() });
        }
        Ok(())
    }
}

/// An image to show in an image area.
pub struct Image {
    width: usize,
    height: usize,
    pixels: Vec<u8>,
}

impl View for Image {
    /// Width, height and RGBA8 pixels.
    type V = (usize, usize, Seq<u8>);

    closed spec fn view(&self) -> (usize, usize, Seq<u8>) {
        (self.width, self.height, self.pixels@)
    }
}

impl Image {
    /// Creates an image from its size and RGBA8 pixels.
    pub fn new(width: usize, height: usize, pixels: Vec<u8>) -> (r: Self)
        ensures
            r@ == (width, height, pixels@),
    {
        Image { width, height, pixels }
    }

    /// Width in pixels.
    pub fn width(&self) -> (r: usize)
        ensures
            r == self@.0,
    {
        self.width
    }

    /// Height in pixels.
    pub fn height(&self) -> (r: usize)
        ensures
            r == self@.1,
    {
        self.height
    }

    /// RGBA8 pixels.
    pub fn pixels(&self) -> (r: &Vec<u8>)
        ensures
            r@ == self@.2,
    {
        &self.pixels
    }
}

} // verus!
