//! The window's icon.

use vstd::prelude::*;

verus! {

/// An image of `width` by `height` pixels, four bytes to the pixel: red,
/// green, blue, alpha.
pub struct Icon {
    data: Vec<u8>,
    width: u32,
    height: u32,
}

/// What an icon holds.
pub struct IconView {
    pub data: Seq<u8>,
    pub width: u32,
    pub height: u32,
}

impl IconView {
    /// There are four bytes for each pixel and no others.
    pub open spec fn wf(self) -> bool {
        self.data.len() == 4 * self.width * self.height
    }
}

impl View for Icon {
    type V = IconView;

    closed spec fn view(&self) -> IconView {
        IconView { data: self.data@, width: self.width, height: self.height }
    }
}

impl Icon {
    #[verifier::type_invariant]
    pub open spec fn inv(self) -> bool {
        self@.wf()
    }

    /// Makes an icon of pixel data, if there is exactly as much of it as the
    /// dimensions ask for.
    pub fn from_rgba(data: Vec<u8>, width: u32, height: u32) -> (r: Option<Icon>)
        ensures
            r is Some <==> data@.len() == 4 * width * height,
            r matches Some(icon) ==> icon@ == (IconView { data: data@, width, height }),
    {
        assert(4 * width * height <= 4 * 0xffff_ffff * 0xffff_ffff) by (nonlinear_arith)
            requires
                0 <= width <= 0xffff_ffff,
                0 <= height <= 0xffff_ffff,
        ;
        let wanted: u128 = 4 * (width as u128) * (height as u128);
        if data.len() as u128 == wanted {
            Some(Icon { data, width, height })
        } else {
            None
        }
    }

    /// Makes an icon of the buffer of an image: of the pixel data that the
    /// buffer starts with, if it holds as much as the dimensions ask for.
    /// What the buffer holds behind the pixels is dropped.
    pub fn from_buffer(data: Vec<u8>, width: u32, height: u32) -> (r: Option<Icon>)
        ensures
            r is Some <==> data@.len() >= 4 * width * height,
            r matches Some(icon) ==> icon@ == (IconView {
                data: data@.subrange(0, 4 * width * height),
                width,
                height,
            }),
    {
        assert(4 * width * height <= 4 * 0xffff_ffff * 0xffff_ffff) by (nonlinear_arith)
            requires
                0 <= width <= 0xffff_ffff,
                0 <= height <= 0xffff_ffff,
        ;
        let wanted: u128 = 4 * (width as u128) * (height as u128);
        if data.len() as u128 >= wanted {
            let mut data = data;
            data.truncate(wanted as usize);
            Some(Icon { data, width, height })
        } else {
            None
        }
    }

    pub fn width(&self) -> (r: u32)
        ensures
            r == self@.width,
    {
        self.width
    }

    pub fn height(&self) -> (r: u32)
        ensures
            r == self@.height,
    {
        self.height
    }

    /// The pixel data, row by row from the top.
    pub fn data(&self) -> (r: &Vec<u8>)
        ensures
            r@ == self@.data,
            r@.len() == 4 * self@.width * self@.height,
    {
        proof {
            use_type_invariant(self);
        }
        &self.data
    }

    /// Gives up the pixel data, with the width and the height.
    pub fn into_rgba(self) -> (r: (Vec<u8>, u32, u32))
        ensures
            r.0@ == self@.data,
            r.1 == self@.width,
            r.2 == self@.height,
            r.0@.len() == 4 * r.1 * r.2,
    {
        proof {
            use_type_invariant(&self);
        }
        (self.data, self.width, self.height)
    }
}

} // verus!
