//! A uniform value together with the GPU resources that carry it.

use vstd::prelude::*;

verus! {

/// A uniform value of type `T`, the buffer `B` that holds its image on the
/// GPU, and the bind group `G` through which the shader stages see that
/// buffer. The two handles are fixed when the binding is made; only the value
/// changes afterwards.
#[derive(Debug)]
pub struct UniformBinding<T, B, G> {
    uniform: T,
    buffer: B,
    bind_group: G,
}

impl<T, B, G> UniformBinding<T, B, G> {
    /// The value the binding holds.
    pub closed spec fn value(self) -> T {
        self.uniform
    }

    /// The buffer the binding was made with.
    pub closed spec fn buffer_handle(self) -> B {
        self.buffer
    }

    /// The bind group the binding was made with.
    pub closed spec fn bind_group_handle(self) -> G {
        self.bind_group
    }

    /// Joins a value with the buffer that was filled from it and the bind
    /// group that was made over that buffer.
    pub fn new(uniform: T, buffer: B, bind_group: G) -> (binding: Self)
        ensures
            binding.value() == uniform,
            binding.buffer_handle() == buffer,
            binding.bind_group_handle() == bind_group,
    {
        Self { uniform, buffer, bind_group }
    }

    /// Read access to the value.
    pub fn uniform(&self) -> (uniform: &T)
        ensures
            *uniform == self.value(),
    {
        &self.uniform
    }

    /// Write access to the value. Whatever the caller writes through the
    /// reference becomes the binding's value; the handles stay as they are.
    pub fn uniform_mut(&mut self) -> (uniform: &mut T)
        ensures
            *uniform == old(self).value(),
            final(self).value() == *final(uniform),
            final(self).buffer_handle() == old(self).buffer_handle(),
            final(self).bind_group_handle() == old(self).bind_group_handle(),
    {
        &mut self.uniform
    }

    /// The buffer whose contents the next upload replaces.
    pub fn buffer(&self) -> (buffer: &B)
        ensures
            *buffer == self.buffer_handle(),
    {
        &self.buffer
    }

    /// The bind group to attach at draw time.
    pub fn bind_group(&self) -> (bind_group: &G)
        ensures
            *bind_group == self.bind_group_handle(),
    {
        &self.bind_group
    }
}

} // verus!
