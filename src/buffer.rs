//! A fixed-shape buffer of interleaved 8-bit samples.
use vstd::prelude::*;

verus! {

/// Width and height of an image, in pixels.
#[derive(Clone, Copy, Debug, PartialEq, Eq, Structural)]
pub struct ImageSize {
    pub width: usize,
    pub height: usize,
}

/// Number of samples that an image of `size` with `channels` channels holds.
pub open spec fn sample_count(size: ImageSize, channels: usize) -> int {
    size.width * size.height * channels
}

/// Errors raised when a pixel buffer is built.
#[derive(Clone, Copy, Debug, PartialEq, Eq, Structural)]
pub enum ShapeError {
    /// The number of samples given (the field) is not `width * height * channels`.
    ShapeMismatch(usize),
    /// `width * height * channels` does not fit in memory addresses.
    SizeOverflow,
}

/// What an image is: its size and its samples, row by row, channels interleaved.
pub struct ImageView {
    pub size: ImageSize,
    pub data: Seq<u8>,
}

/// An image of `C` interleaved channels of 8-bit samples, with rows stored
/// one after another and no padding between them.
#[derive(Debug)]
pub struct Image<const C: usize> {
    size: ImageSize,
    data: Vec<u8>,
}

impl<const C: usize> View for Image<C> {
    type V = ImageView;

    closed spec fn view(&self) -> ImageView {
        ImageView { size: self.size, data: self.data@ }
    }
}

/// Computes `width * height * channels`, or `None` where it overflows `usize`.
pub fn checked_sample_count(size: ImageSize, channels: usize) -> (r: Option<usize>)
    ensures
        r is Some <==> sample_count(size, channels) <= usize::MAX,
        r is Some ==> r->0 == sample_count(size, channels),
{
    if channels == 0 {
        return Some(0);
    }
    match size.width.checked_mul(size.height) {
        None => {
            assert(size.width * size.height * channels > usize::MAX) by (nonlinear_arith)
                requires
                    size.width * size.height > usize::MAX,
                    channels >= 1,
            {}
            None
        },
        Some(px) => px.checked_mul(channels),
    }
}

impl<const C: usize> Clone for Image<C> {
    fn clone(&self) -> (r: Self)
        ensures
            r@ == self@,
    {
        proof {
            use_type_invariant(self);
        }
        Image { size: self.size, data: self.data.clone() }
    }
}

impl<const C: usize> Image<C> {
    #[verifier::type_invariant]
    spec fn shape_holds(self) -> bool {
        self.data@.len() == sample_count(self.size, C)
    }

    /// Builds an image of `size` from its samples; fails unless there are
    /// exactly `width * height * C` of them.
    pub fn new(size: ImageSize, data: Vec<u8>) -> (r: Result<Self, ShapeError>)
        ensures
            data@.len() == sample_count(size, C) <==> r is Ok,
            r matches Ok(img) ==> img@.size == size && img@.data == data@,
            r matches Err(e) ==> e == ShapeError::ShapeMismatch(data@.len() as usize),
    {
        match checked_sample_count(size, C) {
            Some(n) => {
                if data.len() == n {
                    Ok(Image { size, data })
                } else {
                    Err(ShapeError::ShapeMismatch(data.len()))
                }
            },
            None => Err(ShapeError::ShapeMismatch(data.len())),
        }
    }

    /// Builds an image of `size` whose every sample is `val`; fails where
    /// `width * height * C` overflows `usize`.
    pub fn from_size_val(size: ImageSize, val: u8) -> (r: Result<Self, ShapeError>)
        ensures
            r is Ok <==> sample_count(size, C) <= usize::MAX,
            r matches Ok(img) ==> img@.size == size && img@.data == Seq::new(
                sample_count(size, C) as nat,
                |i: int| val,
            ),
            r matches Err(e) ==> e == ShapeError::SizeOverflow,
    {
        let n = match checked_sample_count(size, C) {
            Some(n) => n,
            None => return Err(ShapeError::SizeOverflow),
        };
        let mut data: Vec<u8> = Vec::with_capacity(n);
        let mut i: usize = 0;
        while i < n
            invariant
                i <= n,
                data@ == Seq::new(i as nat, |j: int| val),
            decreases n - i,
        {
            data.push(val);
            i = i + 1;
        }
        assert(data@ =~= Seq::new(n as nat, |j: int| val));
        Ok(Image { size, data })
    }

    /// The image's size in pixels.
    pub fn size(&self) -> (r: ImageSize)
        ensures
            r == self@.size,
    {
        self.size
    }

    /// The number of columns, which is the width.
    pub fn width(&self) -> (r: usize)
        ensures
            r == self@.size.width,
    {
        self.size.width
    }

    /// The number of rows, which is the height.
    pub fn height(&self) -> (r: usize)
        ensures
            r == self@.size.height,
    {
        self.size.height
    }

    /// The number of columns, which is the width.
    pub fn cols(&self) -> (r: usize)
        ensures
            r == self@.size.width,
    {
        self.size.width
    }

    /// The number of rows, which is the height.
    pub fn rows(&self) -> (r: usize)
        ensures
            r == self@.size.height,
    {
        self.size.height
    }

    /// The number of interleaved channels per pixel.
    pub fn num_channels(&self) -> (r: usize)
        ensures
            r == C,
    {
        C
    }

    /// The samples, row by row; their number is `width * height * C`.
    pub fn as_slice(&self) -> (r: &[u8])
        ensures
            r@ == self@.data,
            r@.len() == sample_count(self@.size, C),
    {
        proof {
            use_type_invariant(self);
        }
        self.data.as_slice()
    }

    /// Gives up the image and hands back its samples.
    pub fn into_vec(self) -> (r: Vec<u8>)
        ensures
            r@ == self@.data,
            r@.len() == sample_count(self@.size, C),
    {
        proof {
            use_type_invariant(&self);
        }
        self.data
    }
}

} // verus!
