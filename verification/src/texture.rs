use vstd::prelude::*;

verus! {

/// How a texture is sampled between texel centres.
pub enum SampleType {
    Point,
    Linear,
}

/// The closed set of texel layouts a backend has to map to a native pixel
/// format: signed or unsigned integers of 8, 16 or 32 bits in one channel,
/// 8-bit unsigned in four channels, and 32-bit floating point in one or four
/// channels.
#[allow(non_camel_case_types)]
#[derive(PartialEq, Eq, Structural)]
pub enum TextureFormatClass {
    Unsigned8_1,
    Unsigned8_4,
    Unsigned16_1,
    Unsigned32_1,
    Signed8_1,
    Signed16_1,
    Signed32_1,
    Float32_1,
    Float32_4,
}

/// A texel type, tagged with the class a backend uploads it as.
pub trait TextureFormat {
    const CLASS: TextureFormatClass;
}

impl TextureFormat for u8 {
    const CLASS: TextureFormatClass = TextureFormatClass::Unsigned8_1;
}

impl TextureFormat for u16 {
    const CLASS: TextureFormatClass = TextureFormatClass::Unsigned16_1;
}

impl TextureFormat for u32 {
    const CLASS: TextureFormatClass = TextureFormatClass::Unsigned32_1;
}

impl TextureFormat for i8 {
    const CLASS: TextureFormatClass = TextureFormatClass::Signed8_1;
}

impl TextureFormat for i16 {
    const CLASS: TextureFormatClass = TextureFormatClass::Signed16_1;
}

impl TextureFormat for i32 {
    const CLASS: TextureFormatClass = TextureFormatClass::Signed32_1;
}

/// Which class each built-in integer texel type is uploaded as: the class of
/// its signedness and width, in one channel.
pub proof fn integer_texel_classes()
    ensures
        <u8 as TextureFormat>::CLASS == TextureFormatClass::Unsigned8_1,
        <u16 as TextureFormat>::CLASS == TextureFormatClass::Unsigned16_1,
        <u32 as TextureFormat>::CLASS == TextureFormatClass::Unsigned32_1,
        <i8 as TextureFormat>::CLASS == TextureFormatClass::Signed8_1,
        <i16 as TextureFormat>::CLASS == TextureFormatClass::Signed16_1,
        <i32 as TextureFormat>::CLASS == TextureFormatClass::Signed32_1,
{
}

/// A rectangle of texels inside a two-dimensional texture, given by its
/// top-left corner and its extent.
#[derive(Clone, Copy)]
pub struct UpdateRegion {
    left: usize,
    top: usize,
    width: usize,
    height: usize,
}

/// The mathematical content of an [`UpdateRegion`].
pub ghost struct RegionView {
    pub left: nat,
    pub top: nat,
    pub width: nat,
    pub height: nat,
}

impl View for UpdateRegion {
    type V = RegionView;

    closed spec fn view(&self) -> RegionView {
        RegionView {
            left: self.left as nat,
            top: self.top as nat,
            width: self.width as nat,
            height: self.height as nat,
        }
    }
}

impl UpdateRegion {
    pub fn new(left: usize, top: usize, width: usize, height: usize) -> (region: Self)
        ensures
            region@ == (RegionView {
                left: left as nat,
                top: top as nat,
                width: width as nat,
                height: height as nat,
            }),
    {
        UpdateRegion { left, top, width, height }
    }

    pub fn left(&self) -> (left: usize)
        ensures
            left == self@.left,
    {
        self.left
    }

    pub fn top(&self) -> (top: usize)
        ensures
            top == self@.top,
    {
        self.top
    }

    pub fn width(&self) -> (width: usize)
        ensures
            width == self@.width,
    {
        self.width
    }

    pub fn height(&self) -> (height: usize)
        ensures
            height == self@.height,
    {
        self.height
    }
}

} // verus!
