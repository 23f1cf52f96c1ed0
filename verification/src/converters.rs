//! Conversions of image data into tensors.
use vstd::prelude::*;
use vstd::arithmetic::div_mod::{
    lemma_div_pos_is_pos, lemma_fundamental_div_mod, lemma_mod_pos_bound, lemma_multiply_divide_lt,
};
use crate::error::InferenceError;
use crate::ieee::{single_from_byte_fraction, single_of_byte_fraction};
use crate::tensor::{
    checked_shape_product, lemma_product_triple, words32_to_bytes, DataType, Tensor,
    TensorView,
};

verus! {

/// The patterns of the 32-bit floats nearest to the bytes of an image, each
/// taken as a fraction of 255.
pub open spec fn pixel_bits(data: Seq<u8>) -> Seq<u32> {
    Seq::new(data.len(), |i: int| single_of_byte_fraction(data[i]))
}

/// The place of a pixel's channel in an image ordered by height, width and
/// channel.
pub open spec fn hwc_offset(h: int, w: int, c: int, width: int, channels: int) -> int {
    (h * width + w) * channels + c
}

/// The place of a pixel's channel in an image ordered by channel, height and
/// width.
pub open spec fn chw_offset(h: int, w: int, c: int, height: int, width: int) -> int {
    (c * height + h) * width + w
}

/// Byte `b` of element `element` of a buffer of four-byte elements.
pub open spec fn byte_at(data: Seq<u8>, element: int, b: int) -> u8 {
    data[4 * element + b]
}

/// Whether a place comes before another in an image ordered by channel,
/// height and width.
pub open spec fn precedes(cc: int, hh: int, ww: int, c: int, h: int, w: int) -> bool {
    cc < c || (cc == c && (hh < h || (hh == h && ww < w)))
}

/// Whether a buffer ordered by channel, height and width holds, up to a
/// place, the elements of a buffer ordered by height, width and channel.
pub open spec fn same_pixels_before(
    hwc: Seq<u8>,
    chw: Seq<u8>,
    height: int,
    width: int,
    channels: int,
    c: int,
    h: int,
    w: int,
) -> bool {
    forall|hh: int, ww: int, cc: int, b: int|
        0 <= hh < height && 0 <= ww < width && 0 <= cc < channels && 0 <= b < 4 && precedes(
            cc,
            hh,
            ww,
            c,
            h,
            w,
        ) ==> #[trigger] byte_at(chw, chw_offset(hh, ww, cc, height, width), b) == byte_at(
            hwc,
            hwc_offset(hh, ww, cc, width, channels),
            b,
        )
}

/// Whether a buffer ordered by height, width and channel holds, up to a
/// place, the elements of a buffer ordered by channel, height and width.
pub open spec fn same_pixels_filled(
    hwc: Seq<u8>,
    chw: Seq<u8>,
    height: int,
    width: int,
    channels: int,
    h: int,
    w: int,
    c: int,
) -> bool {
    forall|hh: int, ww: int, cc: int, b: int|
        0 <= hh < height && 0 <= ww < width && 0 <= cc < channels && 0 <= b < 4 && precedes(
            hh,
            ww,
            cc,
            h,
            w,
            c,
        ) ==> #[trigger] byte_at(hwc, hwc_offset(hh, ww, cc, width, channels), b) == byte_at(
            chw,
            chw_offset(hh, ww, cc, height, width),
            b,
        )
}

/// Whether two buffers of four-byte elements hold the same image, the one
/// ordered by height, width and channel, the other by channel, height and
/// width.
pub open spec fn same_pixels(hwc: Seq<u8>, chw: Seq<u8>, height: int, width: int, channels: int)
    -> bool {
    &&& hwc.len() == 4 * (height * width * channels)
    &&& chw.len() == hwc.len()
    &&& same_pixels_before(hwc, chw, height, width, channels, channels, 0, 0)
}

/// A place in an image ordered by height, width and channel lies within the
/// image.
pub proof fn lemma_hwc_bound(h: int, w: int, c: int, height: int, width: int, channels: int)
    requires
        0 <= h < height,
        0 <= w < width,
        0 <= c < channels,
    ensures
        0 <= h * width <= h * width + w < height * width,
        height * width <= height * width * channels,
        0 <= hwc_offset(h, w, c, width, channels) < height * width * channels,
{
    assert(0 <= h * width) by (nonlinear_arith)
        requires
            0 <= h,
            0 <= width,
    ;
    assert(height * width <= height * width * channels) by (nonlinear_arith)
        requires
            0 <= height,
            0 <= width,
            1 <= channels,
    ;
    assert(0 <= h * width + w < height * width) by (nonlinear_arith)
        requires
            0 <= h < height,
            0 <= w < width,
    ;
    let row = h * width + w;
    let rows = height * width;
    assert(0 <= row * channels + c < rows * channels) by (nonlinear_arith)
        requires
            0 <= row < rows,
            0 <= c < channels,
    ;
}

/// A place in an image ordered by channel, height and width lies within the
/// image.
pub proof fn lemma_chw_bound(h: int, w: int, c: int, height: int, width: int, channels: int)
    requires
        0 <= h < height,
        0 <= w < width,
        0 <= c < channels,
    ensures
        0 <= c * height <= c * height + h < channels * height,
        channels * height <= height * width * channels,
        0 <= (c * height + h) * width,
        0 <= chw_offset(h, w, c, height, width) < height * width * channels,
{
    lemma_hwc_bound(c, h, w, channels, height, width);
    assert(channels * height * width == height * width * channels) by (nonlinear_arith);
    let row = c * height + h;
    assert(0 <= row * width) by (nonlinear_arith)
        requires
            0 <= row,
            0 <= width,
    ;
}

/// A place in an image ordered by channel, height and width lies before
/// every place that comes after it.
#[verifier::rlimit(50)]
pub proof fn lemma_chw_order(
    hh: int,
    ww: int,
    cc: int,
    h: int,
    w: int,
    c: int,
    height: int,
    width: int,
)
    requires
        0 <= hh < height,
        0 <= ww < width,
        0 <= cc,
        0 <= h <= height,
        0 <= w <= width,
        0 <= c,
        precedes(cc, hh, ww, c, h, w),
    ensures
        0 <= chw_offset(hh, ww, cc, height, width) < chw_offset(h, w, c, height, width),
{
    let a = cc * height + hh;
    let b = c * height + h;
    assert(0 <= a && a <= b && (a == b ==> ww < w)) by (nonlinear_arith)
        requires
            a == cc * height + hh,
            b == c * height + h,
            0 <= hh < height,
            0 <= h <= height,
            0 <= cc,
            0 <= c,
            cc < c || (cc == c && (hh < h || (hh == h && ww < w))),
    ;
    assert(0 <= a * width + ww < b * width + w) by (nonlinear_arith)
        requires
            0 <= a <= b,
            a == b ==> ww < w,
            0 <= ww < width,
            0 <= w <= width,
    ;
}

/// Every element of an image ordered by height, width and channel is the
/// channel of a pixel.
#[verifier::rlimit(50)]
pub proof fn lemma_hwc_covers(element: int, height: int, width: int, channels: int)
    requires
        0 <= element < height * width * channels,
        0 <= height,
        0 <= width,
        0 <= channels,
    ensures
        0 <= element / channels / width < height,
        0 <= element / channels % width < width,
        0 <= element % channels < channels,
        hwc_offset(
            element / channels / width,
            element / channels % width,
            element % channels,
            width,
            channels,
        ) == element,
{
    assert(channels > 0 && width > 0 && height > 0) by (nonlinear_arith)
        requires
            0 <= element < height * width * channels,
            0 <= height,
            0 <= width,
            0 <= channels,
    ;
    let row = element / channels;
    lemma_fundamental_div_mod(element, channels);
    lemma_mod_pos_bound(element, channels);
    lemma_div_pos_is_pos(element, channels);
    assert(height * width * channels == channels * (height * width)) by (nonlinear_arith);
    lemma_multiply_divide_lt(element, channels, height * width);
    lemma_fundamental_div_mod(row, width);
    lemma_mod_pos_bound(row, width);
    lemma_div_pos_is_pos(row, width);
    assert(height * width == width * height) by (nonlinear_arith);
    lemma_multiply_divide_lt(row, width, height);
    assert((row / width) * width + row % width == row) by (nonlinear_arith)
        requires
            row == width * (row / width) + row % width,
    ;
    assert(row * channels + element % channels == element) by (nonlinear_arith)
        requires
            element == channels * row + element % channels,
    ;
}

/// An image ordered by channel, height and width stands for one image only:
/// two buffers ordered by height, width and channel that hold its pixels are
/// equal. So to reorder an image and to reorder the result back gives the
/// image again.
#[verifier::rlimit(50)]
pub proof fn lemma_reordering_round_trip(
    first: Seq<u8>,
    second: Seq<u8>,
    chw: Seq<u8>,
    height: int,
    width: int,
    channels: int,
)
    requires
        0 <= height,
        0 <= width,
        0 <= channels,
        same_pixels(first, chw, height, width, channels),
        same_pixels(second, chw, height, width, channels),
    ensures
        first == second,
{
    assert forall|k: int| 0 <= k < first.len() implies first[k] == second[k] by {
        let element = k / 4;
        let b = k % 4;
        assert(0 <= element < height * width * channels);
        lemma_hwc_covers(element, height, width, channels);
        let h = element / channels / width;
        let w = element / channels % width;
        let c = element % channels;
        assert(precedes(c, h, w, channels, 0, 0));
        let there = chw_offset(h, w, c, height, width);
        assert(byte_at(chw, there, b) == byte_at(first, hwc_offset(h, w, c, width, channels), b));
        assert(byte_at(chw, there, b) == byte_at(second, hwc_offset(h, w, c, width, channels), b));
        assert(4 * element + b == k);
    }
    assert(first =~= second);
}

/// Conversions of image data into tensors.
pub struct TensorConverter;

impl TensorConverter {
    /// The tensor of an image whose bytes are ordered by height, width and
    /// channel: 32-bit floats between zero and one, each nearest to its byte
    /// divided by 255, in the shape of the image. Fails with
    /// `InvalidTensorData` exactly when the number of bytes is not the
    /// product of the three sizes.
    pub fn from_image_hwc(data: Vec<u8>, height: usize, width: usize, channels: usize) -> (r:
        Result<Tensor, InferenceError>)
        ensures
            r is Ok <==> data@.len() == height * width * channels,
            r matches Ok(t) ==> t@ == (TensorView {
                data: words32_to_bytes(pixel_bits(data@)),
                shape: seq![height, width, channels],
                data_type: DataType::F32,
            }),
            r matches Err(e) ==> e is InvalidTensorData,
    {
        Self::from_image(data, height, width, channels)
    }

    /// The tensor of an image whose bytes are ordered by channel, height and
    /// width; see [`TensorConverter::from_image_hwc`].
    pub fn from_image_chw(data: Vec<u8>, channels: usize, height: usize, width: usize) -> (r:
        Result<Tensor, InferenceError>)
        ensures
            r is Ok <==> data@.len() == channels * height * width,
            r matches Ok(t) ==> t@ == (TensorView {
                data: words32_to_bytes(pixel_bits(data@)),
                shape: seq![channels, height, width],
                data_type: DataType::F32,
            }),
            r matches Err(e) ==> e is InvalidTensorData,
    {
        Self::from_image(data, channels, height, width)
    }

    /// The tensor of image bytes in a shape of three sizes.
    fn from_image(data: Vec<u8>, first: usize, second: usize, third: usize) -> (r: Result<
        Tensor,
        InferenceError,
    >)
        ensures
            r is Ok <==> data@.len() == first * second * third,
            r matches Ok(t) ==> t@ == (TensorView {
                data: words32_to_bytes(pixel_bits(data@)),
                shape: seq![first, second, third],
                data_type: DataType::F32,
            }),
            r matches Err(e) ==> e is InvalidTensorData,
    {
        let mut shape: Vec<usize> = Vec::new();
        shape.push(first);
        shape.push(second);
        shape.push(third);
        proof {
            assert(shape@ =~= seq![first, second, third]);
            lemma_product_triple(first, second, third);
        }
        if checked_shape_product(shape.as_slice()) != Some(data.len()) {
            return Err(
                InferenceError::invalid_tensor_data("Image data size doesn't match dimensions"),
            );
        }
        let mut bits: Vec<u32> = Vec::new();
        let mut i: usize = 0;
        while i < data.len()
            invariant
                i <= data@.len(),
                bits@.len() == i,
                forall|j: int| 0 <= j < i ==> bits@[j] == single_of_byte_fraction(data@[j]),
            decreases data@.len() - i,
        {
            bits.push(single_from_byte_fraction(data[i]));
            i += 1;
        }
        assert(bits@ =~= pixel_bits(data@));
        Tensor::from_f32_bits(bits, shape)
    }

    /// Reorders an image of 32-bit floats from height, width, channel to
    /// channel, height, width. Fails with `InvalidTensorData` exactly when
    /// the tensor has not three dimensions or holds another element type.
    #[verifier::rlimit(50)]
    pub fn hwc_to_chw(tensor: &Tensor) -> (r: Result<Tensor, InferenceError>)
        ensures
            r is Ok <==> tensor@.shape.len() == 3 && tensor@.data_type == DataType::F32,
            r matches Ok(t) ==> {
                &&& t@.data_type == DataType::F32
                &&& t@.shape == seq![tensor@.shape[2], tensor@.shape[0], tensor@.shape[1]]
                &&& same_pixels(
                    tensor@.data,
                    t@.data,
                    tensor@.shape[0] as int,
                    tensor@.shape[1] as int,
                    tensor@.shape[2] as int,
                )
            },
            r matches Err(e) ==> e is InvalidTensorData,
    {
        if tensor.ndim() != 3 {
            return Err(
                InferenceError::invalid_tensor_data("Expected 3D tensor for HWC to CHW conversion"),
            );
        }
        if *tensor.data_type() != DataType::F32 {
            return Err(InferenceError::invalid_tensor_data("Cannot convert to f32 vector"));
        }
        let shape = tensor.shape();
        let height = shape[0];
        let width = shape[1];
        let channels = shape[2];
        let data = tensor.data();
        let size = data.len();
        proof {
            assert(shape@ =~= seq![height, width, channels]);
            lemma_product_triple(height, width, channels);
        }
        let mut out: Vec<u8> = Vec::new();
        let mut c: usize = 0;
        proof {
            assert(chw_offset(0, 0, 0, height as int, width as int) == 0) by (nonlinear_arith);
        }
        while c < channels
            invariant
                c <= channels,
                data@.len() == 4 * (height * width * channels),
                data@.len() <= usize::MAX,
                out@.len() == 4 * chw_offset(0, 0, c as int, height as int, width as int),
                same_pixels_before(
                    data@,
                    out@,
                    height as int,
                    width as int,
                    channels as int,
                    c as int,
                    0,
                    0,
                ),
            decreases channels - c,
        {
            let mut h: usize = 0;
            while h < height
                invariant
                    c < channels,
                    h <= height,
                    data@.len() == 4 * (height * width * channels),
                    data@.len() <= usize::MAX,
                    out@.len() == 4 * chw_offset(h as int, 0, c as int, height as int, width as int),
                    same_pixels_before(
                        data@,
                        out@,
                        height as int,
                        width as int,
                        channels as int,
                        c as int,
                        h as int,
                        0,
                    ),
                decreases height - h,
            {
                let mut w: usize = 0;
                while w < width
                    invariant
                        c < channels,
                        h < height,
                        w <= width,
                        data@.len() == 4 * (height * width * channels),
                        data@.len() <= usize::MAX,
                    data@.len() <= usize::MAX,
                        out@.len() == 4 * chw_offset(
                            h as int,
                            w as int,
                            c as int,
                            height as int,
                            width as int,
                        ),
                        same_pixels_before(
                            data@,
                            out@,
                            height as int,
                            width as int,
                            channels as int,
                            c as int,
                            h as int,
                            w as int,
                        ),
                    decreases width - w,
                {
                    proof {
                        lemma_hwc_bound(
                            h as int,
                            w as int,
                            c as int,
                            height as int,
                            width as int,
                            channels as int,
                        );
                    }
                    let element: usize = (h * width + w) * channels + c;
                    let ghost before = out@;
                    out.push(data[4 * element]);
                    out.push(data[4 * element + 1]);
                    out.push(data[4 * element + 2]);
                    out.push(data[4 * element + 3]);
                    proof {
                        let here = chw_offset(
                            h as int,
                            w as int,
                            c as int,
                            height as int,
                            width as int,
                        );
                        assert forall|hh: int, ww: int, cc: int, b: int|
                            0 <= hh < height && 0 <= ww < width && 0 <= cc < channels && 0 <= b < 4
                                && precedes(
                                cc,
                                hh,
                                ww,
                                c as int,
                                h as int,
                                w + 1,
                            ) implies #[trigger] byte_at(
                            out@,
                            chw_offset(hh, ww, cc, height as int, width as int),
                            b,
                        ) == byte_at(
                            data@,
                            hwc_offset(hh, ww, cc, width as int, channels as int),
                            b,
                        ) by {
                            if cc == c && hh == h && ww == w {
                                assert(out@[4 * here + b] == data@[4 * element + b]);
                            } else {
                                assert(precedes(cc, hh, ww, c as int, h as int, w as int));
                                lemma_chw_order(
                                    hh,
                                    ww,
                                    cc,
                                    h as int,
                                    w as int,
                                    c as int,
                                    height as int,
                                    width as int,
                                );
                                let there = chw_offset(hh, ww, cc, height as int, width as int);
                                assert(out@[4 * there + b] == before[4 * there + b]);
                                assert(byte_at(before, there, b) == byte_at(
                                    data@,
                                    hwc_offset(hh, ww, cc, width as int, channels as int),
                                    b,
                                ));
                            }
                        }
                    }
                    w += 1;
                }
                proof {
                    assert(chw_offset(h as int, width as int, c as int, height as int, width as int)
                        == chw_offset(h + 1, 0, c as int, height as int, width as int))
                        by (nonlinear_arith);
                }
                h += 1;
            }
            proof {
                assert(chw_offset(height as int, 0, c as int, height as int, width as int)
                    == chw_offset(0, 0, c + 1, height as int, width as int)) by (nonlinear_arith);
            }
            c += 1;
        }
        proof {
            assert(chw_offset(0, 0, channels as int, height as int, width as int) == height * width
                * channels) by (nonlinear_arith);
        }
        let mut new_shape: Vec<usize> = Vec::new();
        new_shape.push(channels);
        new_shape.push(height);
        new_shape.push(width);
        proof {
            assert(new_shape@ =~= seq![channels, height, width]);
            lemma_product_triple(channels, height, width);
            assert(channels * height * width == height * width * channels) by (nonlinear_arith);
        }
        Tensor::new(out, new_shape, DataType::F32)
    }

    /// Reorders an image of 32-bit floats from channel, height, width to
    /// height, width, channel. Fails with `InvalidTensorData` exactly when
    /// the tensor has not three dimensions or holds another element type.
    #[verifier::rlimit(50)]
    pub fn chw_to_hwc(tensor: &Tensor) -> (r: Result<Tensor, InferenceError>)
        ensures
            r is Ok <==> tensor@.shape.len() == 3 && tensor@.data_type == DataType::F32,
            r matches Ok(t) ==> {
                &&& t@.data_type == DataType::F32
                &&& t@.shape == seq![tensor@.shape[1], tensor@.shape[2], tensor@.shape[0]]
                &&& same_pixels(
                    t@.data,
                    tensor@.data,
                    tensor@.shape[1] as int,
                    tensor@.shape[2] as int,
                    tensor@.shape[0] as int,
                )
            },
            r matches Err(e) ==> e is InvalidTensorData,
    {
        if tensor.ndim() != 3 {
            return Err(
                InferenceError::invalid_tensor_data("Expected 3D tensor for CHW to HWC conversion"),
            );
        }
        if *tensor.data_type() != DataType::F32 {
            return Err(InferenceError::invalid_tensor_data("Cannot convert to f32 vector"));
        }
        let shape = tensor.shape();
        let channels = shape[0];
        let height = shape[1];
        let width = shape[2];
        let data = tensor.data();
        let size = data.len();
        proof {
            assert(shape@ =~= seq![channels, height, width]);
            lemma_product_triple(channels, height, width);
            assert(size == (channels * height * width) * 4);
            assert((channels * height * width) * 4 == 4 * (height * width * channels))
                by (nonlinear_arith);
            assert(hwc_offset(0, 0, 0, width as int, channels as int) == 0) by (nonlinear_arith);
        }
        let mut out: Vec<u8> = Vec::new();
        let mut h: usize = 0;
        while h < height
            invariant
                h <= height,
                data@.len() == 4 * (height * width * channels),
                data@.len() <= usize::MAX,
                out@.len() == 4 * hwc_offset(h as int, 0, 0, width as int, channels as int),
                same_pixels_filled(
                    out@,
                    data@,
                    height as int,
                    width as int,
                    channels as int,
                    h as int,
                    0,
                    0,
                ),
            decreases height - h,
        {
            let mut w: usize = 0;
            while w < width
                invariant
                    h < height,
                    w <= width,
                    data@.len() == 4 * (height * width * channels),
                    data@.len() <= usize::MAX,
                    out@.len() == 4 * hwc_offset(
                        h as int,
                        w as int,
                        0,
                        width as int,
                        channels as int,
                    ),
                    same_pixels_filled(
                        out@,
                        data@,
                        height as int,
                        width as int,
                        channels as int,
                        h as int,
                        w as int,
                        0,
                    ),
                decreases width - w,
            {
                let mut c: usize = 0;
                while c < channels
                    invariant
                        h < height,
                        w < width,
                        c <= channels,
                        data@.len() == 4 * (height * width * channels),
                        data@.len() <= usize::MAX,
                        out@.len() == 4 * hwc_offset(
                            h as int,
                            w as int,
                            c as int,
                            width as int,
                            channels as int,
                        ),
                        same_pixels_filled(
                            out@,
                            data@,
                            height as int,
                            width as int,
                            channels as int,
                            h as int,
                            w as int,
                            c as int,
                        ),
                    decreases channels - c,
                {
                    proof {
                        lemma_chw_bound(
                            h as int,
                            w as int,
                            c as int,
                            height as int,
                            width as int,
                            channels as int,
                        );
                    }
                    let element: usize = (c * height + h) * width + w;
                    let ghost before = out@;
                    out.push(data[4 * element]);
                    out.push(data[4 * element + 1]);
                    out.push(data[4 * element + 2]);
                    out.push(data[4 * element + 3]);
                    proof {
                        let here = hwc_offset(
                            h as int,
                            w as int,
                            c as int,
                            width as int,
                            channels as int,
                        );
                        assert forall|hh: int, ww: int, cc: int, b: int|
                            0 <= hh < height && 0 <= ww < width && 0 <= cc < channels && 0 <= b < 4
                                && precedes(
                                hh,
                                ww,
                                cc,
                                h as int,
                                w as int,
                                c + 1,
                            ) implies #[trigger] byte_at(
                            out@,
                            hwc_offset(hh, ww, cc, width as int, channels as int),
                            b,
                        ) == byte_at(
                            data@,
                            chw_offset(hh, ww, cc, height as int, width as int),
                            b,
                        ) by {
                            if cc == c && hh == h && ww == w {
                                assert(out@[4 * here + b] == data@[4 * element + b]);
                            } else {
                                assert(precedes(hh, ww, cc, h as int, w as int, c as int));
                                lemma_chw_order(
                                    ww,
                                    cc,
                                    hh,
                                    w as int,
                                    c as int,
                                    h as int,
                                    width as int,
                                    channels as int,
                                );
                                let there = hwc_offset(hh, ww, cc, width as int, channels as int);
                                assert(there == chw_offset(
                                    ww,
                                    cc,
                                    hh,
                                    width as int,
                                    channels as int,
                                ));
                                assert(here == chw_offset(
                                    w as int,
                                    c as int,
                                    h as int,
                                    width as int,
                                    channels as int,
                                ));
                                assert(out@[4 * there + b] == before[4 * there + b]);
                                assert(byte_at(before, there, b) == byte_at(
                                    data@,
                                    chw_offset(hh, ww, cc, height as int, width as int),
                                    b,
                                ));
                            }
                        }
                    }
                    c += 1;
                }
                proof {
                    assert(hwc_offset(
                        h as int,
                        w as int,
                        channels as int,
                        width as int,
                        channels as int,
                    ) == hwc_offset(h as int, w + 1, 0, width as int, channels as int))
                        by (nonlinear_arith);
                }
                w += 1;
            }
            proof {
                assert(hwc_offset(h as int, width as int, 0, width as int, channels as int)
                    == hwc_offset(h + 1, 0, 0, width as int, channels as int)) by (nonlinear_arith);
            }
            h += 1;
        }
        proof {
            assert(hwc_offset(height as int, 0, 0, width as int, channels as int) == height * width
                * channels) by (nonlinear_arith);
            assert forall|hh: int, ww: int, cc: int, b: int|
                0 <= hh < height && 0 <= ww < width && 0 <= cc < channels && 0 <= b < 4
                    && precedes(cc, hh, ww, channels as int, 0, 0) implies #[trigger] byte_at(
                data@,
                chw_offset(hh, ww, cc, height as int, width as int),
                b,
            ) == byte_at(out@, hwc_offset(hh, ww, cc, width as int, channels as int), b) by {
                assert(precedes(hh, ww, cc, height as int, 0, 0));
                assert(byte_at(out@, hwc_offset(hh, ww, cc, width as int, channels as int), b)
                    == byte_at(data@, chw_offset(hh, ww, cc, height as int, width as int), b));
            }
        }
        let mut new_shape: Vec<usize> = Vec::new();
        new_shape.push(height);
        new_shape.push(width);
        new_shape.push(channels);
        proof {
            assert(new_shape@ =~= seq![height, width, channels]);
            lemma_product_triple(height, width, channels);
        }
        Tensor::new(out, new_shape, DataType::F32)
    }
}

} // verus!
