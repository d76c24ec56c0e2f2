//! Identifiers and small value types shared by every layer.

pub mod register_request;

use vstd::prelude::*;

verus! {

/// Identifier of an input stream, chosen by the client.
#[derive(Debug, PartialEq, Eq, Hash)]
pub struct InputId(pub String);

/// Identifier of an output stream, chosen by the client.
#[derive(Debug, PartialEq, Eq, Hash)]
pub struct OutputId(pub String);

/// Identifier of a renderer (shader, web renderer instance or image).
#[derive(Debug, PartialEq, Eq, Hash)]
pub struct RendererId(pub String);

impl View for InputId {
    type V = Seq<char>;

    open spec fn view(&self) -> Seq<char> {
        self.0@
    }
}

impl View for OutputId {
    type V = Seq<char>;

    open spec fn view(&self) -> Seq<char> {
        self.0@
    }
}

impl View for RendererId {
    type V = Seq<char>;

    open spec fn view(&self) -> Seq<char> {
        self.0@
    }
}

impl Clone for InputId {
    fn clone(&self) -> (copy: Self)
        ensures
            copy == *self,
    {
        InputId(self.0.clone())
    }
}

impl Clone for OutputId {
    fn clone(&self) -> (copy: Self)
        ensures
            copy == *self,
    {
        OutputId(self.0.clone())
    }
}

impl Clone for RendererId {
    fn clone(&self) -> (copy: Self)
        ensures
            copy == *self,
    {
        RendererId(self.0.clone())
    }
}

impl InputId {
    /// Identifiers are equal when their text is.
    pub fn same(&self, other: &InputId) -> (equal: bool)
        ensures
            equal == (self@ == other@),
    {
        self.0 == other.0
    }
}

impl OutputId {
    /// Identifiers are equal when their text is.
    pub fn same(&self, other: &OutputId) -> (equal: bool)
        ensures
            equal == (self@ == other@),
    {
        self.0 == other.0
    }
}

impl RendererId {
    /// Identifiers are equal when their text is.
    pub fn same(&self, other: &RendererId) -> (equal: bool)
        ensures
            equal == (self@ == other@),
    {
        self.0 == other.0
    }
}

/// Size of a picture in pixels.
#[derive(Debug, Clone, Copy, PartialEq, Eq, Structural)]
pub struct Resolution {
    pub width: usize,
    pub height: usize,
}

impl Resolution {
    /// The encoder only takes pictures whose sides are both even.
    pub open spec fn is_even(self) -> bool {
        self.width % 2 == 0 && self.height % 2 == 0
    }

    pub fn has_even_sides(&self) -> (even: bool)
        ensures
            even == self.is_even(),
    {
        self.width % 2 == 0 && self.height % 2 == 0
    }
}

/// Output frame rate as the rational `num / den` frames per second.
#[derive(Debug, Clone, Copy, PartialEq, Eq, Structural)]
pub struct Framerate {
    pub num: u32,
    pub den: u32,
}

impl Framerate {
    /// A frame rate is usable when it is a positive rational.
    pub open spec fn is_valid(self) -> bool {
        self.num > 0 && self.den > 0
    }

    pub fn check_valid(&self) -> (valid: bool)
        ensures
            valid == self.is_valid(),
    {
        self.num > 0 && self.den > 0
    }
}

} // verus!
