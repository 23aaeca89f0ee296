//! Images that a method reads through the units of the device.

use vstd::prelude::*;

verus! {

/// Number of texture units, and of image units.
pub const UNIT_COUNT: usize = 32;

/// What is bound to a unit.
#[derive(Debug, Clone, Copy, PartialEq, Eq, Structural)]
pub enum ImageBinding {
    /// Nothing.
    Unbound,
    /// The image on the device whose texture has this name.
    Image(u32),
}

/// The images bound to the texture units and to the image units.
pub struct ImageIo {
    texture_bindings: Vec<ImageBinding>,
    image_bindings: Vec<ImageBinding>,
}

/// What an `ImageIo` holds: a binding for each unit.
pub struct ImageIoState {
    pub texture_bindings: Seq<ImageBinding>,
    pub image_bindings: Seq<ImageBinding>,
}

impl ImageIoState {
    pub open spec fn wf(self) -> bool {
        self.texture_bindings.len() == UNIT_COUNT && self.image_bindings.len() == UNIT_COUNT
    }

    /// Nothing is bound to any unit.
    pub open spec fn empty() -> ImageIoState {
        ImageIoState {
            texture_bindings: Seq::new(UNIT_COUNT as nat, |i: int| ImageBinding::Unbound),
            image_bindings: Seq::new(UNIT_COUNT as nat, |i: int| ImageBinding::Unbound),
        }
    }
}

impl View for ImageIo {
    type V = ImageIoState;

    closed spec fn view(&self) -> ImageIoState {
        ImageIoState {
            texture_bindings: self.texture_bindings@,
            image_bindings: self.image_bindings@,
        }
    }
}

fn unbound() -> (r: Vec<ImageBinding>)
    ensures
        r@ == Seq::new(UNIT_COUNT as nat, |i: int| ImageBinding::Unbound),
{
    let mut r: Vec<ImageBinding> = Vec::new();
    let mut i: usize = 0;
    while i < UNIT_COUNT
        invariant
            i <= UNIT_COUNT,
            r@.len() == i,
            forall|j: int| 0 <= j < i ==> r@[j] == ImageBinding::Unbound,
        decreases UNIT_COUNT - i,
    {
        r.push(ImageBinding::Unbound);
        i += 1;
    }
    assert(r@ =~= Seq::new(UNIT_COUNT as nat, |i: int| ImageBinding::Unbound));
    r
}

fn replace(bindings: &mut Vec<ImageBinding>, index: usize, binding: ImageBinding)
    requires
        index < old(bindings)@.len(),
    ensures
        final(bindings)@ == old(bindings)@.update(index as int, binding),
    no_unwind
{
    bindings[index] = binding;
}

impl ImageIo {
    #[verifier::type_invariant]
    spec fn inv(self) -> bool {
        self.texture_bindings@.len() == UNIT_COUNT && self.image_bindings@.len() == UNIT_COUNT
    }

    /// Bindings with nothing bound.
    pub fn new() -> (r: Self)
        ensures
            r@ == ImageIoState::empty(),
            r@.wf(),
    {
        ImageIo { texture_bindings: unbound(), image_bindings: unbound() }
    }

    /// What is bound to a texture unit.
    pub fn get_texture_binding(&self, index: usize) -> (r: ImageBinding)
        requires
            index < UNIT_COUNT,
        ensures
            r == self@.texture_bindings[index as int],
            self@.wf(),
    {
        proof {
            use_type_invariant(self);
        }
        self.texture_bindings[index]
    }

    /// Binds to a texture unit.
    pub fn set_texture_binding(&mut self, index: usize, binding: ImageBinding)
        requires
            index < UNIT_COUNT,
        ensures
            final(self)@ == (ImageIoState {
                texture_bindings: old(self)@.texture_bindings.update(index as int, binding),
                ..old(self)@
            }),
            final(self)@.wf(),
    {
        proof {
            use_type_invariant(&*self);
        }
        replace(&mut self.texture_bindings, index, binding);
    }

    /// What is bound to an image unit.
    pub fn get_image_binding(&self, index: usize) -> (r: ImageBinding)
        requires
            index < UNIT_COUNT,
        ensures
            r == self@.image_bindings[index as int],
            self@.wf(),
    {
        proof {
            use_type_invariant(self);
        }
        self.image_bindings[index]
    }

    /// Binds to an image unit.
    pub fn set_image_binding(&mut self, index: usize, binding: ImageBinding)
        requires
            index < UNIT_COUNT,
        ensures
            final(self)@ == (ImageIoState {
                image_bindings: old(self)@.image_bindings.update(index as int, binding),
                ..old(self)@
            }),
            final(self)@.wf(),
    {
        proof {
            use_type_invariant(&*self);
        }
        replace(&mut self.image_bindings, index, binding);
    }
}

/// A binding that was set is the one that is read, and the other units
/// keep theirs.
pub proof fn lemma_binding_set_then_get(
    io: ImageIoState,
    index: int,
    other: int,
    binding: ImageBinding,
)
    requires
        io.wf(),
        0 <= index < UNIT_COUNT,
        0 <= other < UNIT_COUNT,
    ensures
        io.texture_bindings.update(index, binding)[index] == binding,
        other != index ==> io.texture_bindings.update(index, binding)[other]
            == io.texture_bindings[other],
        io.image_bindings.update(index, binding)[index] == binding,
        other != index ==> io.image_bindings.update(index, binding)[other]
            == io.image_bindings[other],
{
}

} // verus!
