use vstd::prelude::*;
use crate::text::{decimal, push_decimal, push_str};
use crate::error::{Error, ErrorView};

verus! {

/// Positive, even pixel dimensions, suitable for the H.264/yuv420p output.
#[derive(Clone, Copy, Debug, PartialEq, Eq, Structural)]
pub struct Size {
    width: u32,
    height: u32,
}

/// Whether a pair of dimensions can be encoded: both positive and even.
pub open spec fn valid_dimensions(width: u32, height: u32) -> bool {
    width > 0 && height > 0 && width % 2 == 0 && height % 2 == 0
}

/// `WIDTHxHEIGHT`, in decimal.
pub open spec fn size_text(s: Size) -> Seq<char> {
    decimal(s.spec_width() as nat).push('x') + decimal(s.spec_height() as nat)
}

impl Size {
    pub closed spec fn spec_width(self) -> u32 {
        self.width
    }

    pub closed spec fn spec_height(self) -> u32 {
        self.height
    }

    /// Every size is positive and even; only `new` makes one.
    #[verifier::type_invariant]
    spec fn wf(self) -> bool {
        valid_dimensions(self.width, self.height)
    }

    /// Accepts only positive, even dimensions.
    pub fn new(width: u32, height: u32) -> (res: Result<Size, Error>)
        ensures
            res is Ok <==> valid_dimensions(width, height),
            res matches Ok(s) ==> s.spec_width() == width && s.spec_height() == height,
            res matches Err(e) ==> e@ == ErrorView::Invalid("display dimensions must be positive and even"@),
    {
        if width == 0 || height == 0 || width % 2 != 0 || height % 2 != 0 {
            return Err(Error::Invalid(String::from_str("display dimensions must be positive and even")));
        }
        Ok(Size { width, height })
    }

    /// Every size has positive, even dimensions, whoever holds it.
    pub fn dimensions(&self) -> (d: (u32, u32))
        ensures
            d == (self.spec_width(), self.spec_height()),
            valid_dimensions(d.0, d.1),
    {
        proof {
            use_type_invariant(self);
        }
        (self.width, self.height)
    }

    pub fn width(&self) -> (w: u32)
        ensures
            w == self.spec_width(),
            w > 0 && w % 2 == 0,
    {
        proof {
            use_type_invariant(self);
        }
        self.width
    }

    pub fn height(&self) -> (h: u32)
        ensures
            h == self.spec_height(),
            h > 0 && h % 2 == 0,
    {
        proof {
            use_type_invariant(self);
        }
        self.height
    }

    /// Renders `WIDTHxHEIGHT`.
    pub fn to_string(&self) -> (s: String)
        ensures
            s@ == size_text(*self),
    {
        let mut s = String::new();
        push_decimal(&mut s, self.width as u128);
        push_str(&mut s, "x");
        proof {
            reveal_strlit("x");
        }
        push_decimal(&mut s, self.height as u128);
        s
    }
}

} // verus!
