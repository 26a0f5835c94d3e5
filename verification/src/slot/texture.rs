//! Binding textures, and working on the texture that is bound.
use core::marker::PhantomData;
use vstd::prelude::*;

use crate::bound::Bound;
use crate::call::{plain, Call, Data, Float, Queue};
use crate::gl;
use crate::gl::types::{GLenum, GLint, GLsizei};
use crate::names_of;
use crate::nonzero::NonZeroU32;
use crate::sealed::Named;
use crate::state::CompareFunc;
use crate::texture::{
    Cube, D2Array, DeletionToken, DepthStencilMode, Dimensionality, Filter, InternalFormat,
    Stateless, Swizzle, Texture, Wrap, D2, D3,
};
use crate::{GLEnum, ThinGLObject};

verus! {

/// The token of a texture binding: the entry points that work on the
/// texture bound to the target of `Dim`.
pub struct Active<Dim: Dimensionality>(pub(crate) PhantomData<Dim>);

/// The call that sets a parameter of the texture bound to `target` to a
/// constant.
pub open spec fn parameter(target: GLenum, pname: GLenum, param: GLenum) -> (Call, Data) {
    plain(Call::TexParameteri { target, pname, param: param as GLint })
}

/// The constant of a minifying filter: how texels are chosen within a mip
/// level, and whether and how between mip levels.
pub open spec fn min_filter_constant(texel: Filter, mip: Option<Filter>) -> GLenum {
    match mip {
        None => match texel {
            Filter::Nearest => gl::NEAREST,
            Filter::Linear => gl::LINEAR,
        },
        Some(mip) => {
            let within: int = match texel {
                Filter::Nearest => 0,
                Filter::Linear => 1,
            };
            let between: int = match mip {
                Filter::Nearest => 0,
                Filter::Linear => 2,
            };
            (gl::NEAREST_MIPMAP_NEAREST + within + between) as GLenum
        },
    }
}

/// The constant of a magnifying filter.
pub open spec fn mag_filter_constant(texel: Filter) -> GLenum {
    match texel {
        Filter::Nearest => gl::NEAREST,
        Filter::Linear => gl::LINEAR,
    }
}

/// The largest mip level that the driver knows of.
pub const MAX_LEVEL: u32 = 1000;

impl Bound<u32> {
    /// The base level of a range of mip levels that starts at this bound.
    pub open spec fn base_level(&self) -> u32 {
        match self {
            Bound::Unbounded => 0,
            Bound::Excluded(n) => if *n == u32::MAX {
                u32::MAX
            } else {
                (n + 1) as u32
            },
            Bound::Included(n) => *n,
        }
    }

    /// The level that is handed to the driver as the last of a range of mip
    /// levels that ends at this bound.
    pub open spec fn max_level(&self) -> u32 {
        match self {
            Bound::Unbounded => MAX_LEVEL,
            Bound::Excluded(n) => if *n == u32::MAX {
                u32::MAX
            } else {
                (n + 1) as u32
            },
            Bound::Included(n) => *n,
        }
    }
}

impl<Dim: Dimensionality> Active<Dim> {
    fn tex_parameter_enum(queue: &mut Queue, pname: GLenum, param: GLenum)
        ensures
            final(queue)@ == old(queue)@.push(parameter(Dim::TARGET, pname, param)),
    {
        queue.push(Call::TexParameteri { target: Dim::TARGET, pname, param: param as GLint });
    }

    /// Chooses the source of each of the four channels of a sampled texel:
    /// red, green, blue and alpha, in that order.
    pub fn swizzle(&mut self, queue: &mut Queue, swizzle: [Swizzle; 4]) -> (this: &mut Self)
        ensures
            final(queue)@ == old(queue)@.push(
                parameter(Dim::TARGET, gl::TEXTURE_SWIZZLE_R, swizzle[0].constant()),
            ).push(parameter(Dim::TARGET, gl::TEXTURE_SWIZZLE_G, swizzle[1].constant())).push(
                parameter(Dim::TARGET, gl::TEXTURE_SWIZZLE_B, swizzle[2].constant()),
            ).push(parameter(Dim::TARGET, gl::TEXTURE_SWIZZLE_A, swizzle[3].constant())),
    {
        let r = swizzle[0].as_gl();
        let g = swizzle[1].as_gl();
        let b = swizzle[2].as_gl();
        let a = swizzle[3].as_gl();
        Self::tex_parameter_enum(queue, gl::TEXTURE_SWIZZLE_R, r);
        Self::tex_parameter_enum(queue, gl::TEXTURE_SWIZZLE_G, g);
        Self::tex_parameter_enum(queue, gl::TEXTURE_SWIZZLE_B, b);
        Self::tex_parameter_enum(queue, gl::TEXTURE_SWIZZLE_A, a);
        self
    }

    /// Chooses the filter for a texture that is drawn smaller: `texel` within
    /// a mip level, and `mip` between mip levels, where there is one.
    pub fn min_filter(&mut self, queue: &mut Queue, texel: Filter, mip: Option<Filter>) -> (this:
        &mut Self)
        ensures
            final(queue)@ == old(queue)@.push(
                parameter(Dim::TARGET, gl::TEXTURE_MIN_FILTER, min_filter_constant(texel, mip)),
            ),
    {
        let filter = match (texel, mip) {
            (Filter::Nearest, None) => gl::NEAREST,
            (Filter::Linear, None) => gl::LINEAR,
            (Filter::Nearest, Some(Filter::Nearest)) => gl::NEAREST_MIPMAP_NEAREST,
            (Filter::Nearest, Some(Filter::Linear)) => gl::NEAREST_MIPMAP_LINEAR,
            (Filter::Linear, Some(Filter::Nearest)) => gl::LINEAR_MIPMAP_NEAREST,
            (Filter::Linear, Some(Filter::Linear)) => gl::LINEAR_MIPMAP_LINEAR,
        };
        Self::tex_parameter_enum(queue, gl::TEXTURE_MIN_FILTER, filter);
        self
    }

    /// Chooses the filter for a texture that is drawn larger.
    pub fn mag_filter(&mut self, queue: &mut Queue, texel: Filter) -> (this: &mut Self)
        ensures
            final(queue)@ == old(queue)@.push(
                parameter(Dim::TARGET, gl::TEXTURE_MAG_FILTER, mag_filter_constant(texel)),
            ),
    {
        let filter = match texel {
            Filter::Nearest => gl::NEAREST,
            Filter::Linear => gl::LINEAR,
        };
        Self::tex_parameter_enum(queue, gl::TEXTURE_MAG_FILTER, filter);
        self
    }

    /// Lets sampling compare the reference with the texel by `mode`, or, for
    /// `None`, switches comparison off.
    pub fn compare_mode(&mut self, queue: &mut Queue, mode: Option<CompareFunc>) -> (this:
        &mut Self)
        ensures
            final(queue)@ == match mode {
                Some(func) => old(queue)@.push(
                    parameter(Dim::TARGET, gl::TEXTURE_COMPARE_MODE, gl::COMPARE_REF_TO_TEXTURE),
                ).push(parameter(Dim::TARGET, gl::TEXTURE_COMPARE_FUNC, func.constant())),
                None => old(queue)@.push(
                    parameter(Dim::TARGET, gl::TEXTURE_COMPARE_MODE, gl::NONE),
                ),
            },
    {
        if let Some(mode) = mode {
            Self::tex_parameter_enum(
                queue,
                gl::TEXTURE_COMPARE_MODE,
                gl::COMPARE_REF_TO_TEXTURE,
            );
            Self::tex_parameter_enum(queue, gl::TEXTURE_COMPARE_FUNC, mode.as_gl());
        } else {
            Self::tex_parameter_enum(queue, gl::TEXTURE_COMPARE_MODE, gl::NONE);
        }
        self
    }

    /// Chooses what coordinates outside the image refer to, along the first,
    /// second and third axis.
    pub fn wrap(&mut self, queue: &mut Queue, mode: [Wrap; 3]) -> (this: &mut Self)
        ensures
            final(queue)@ == old(queue)@.push(
                parameter(Dim::TARGET, gl::TEXTURE_WRAP_S, mode[0].constant()),
            ).push(parameter(Dim::TARGET, gl::TEXTURE_WRAP_T, mode[1].constant())).push(
                parameter(Dim::TARGET, gl::TEXTURE_WRAP_R, mode[2].constant()),
            ),
    {
        let s = mode[0].as_gl();
        let t = mode[1].as_gl();
        let r = mode[2].as_gl();
        Self::tex_parameter_enum(queue, gl::TEXTURE_WRAP_S, s);
        Self::tex_parameter_enum(queue, gl::TEXTURE_WRAP_T, t);
        Self::tex_parameter_enum(queue, gl::TEXTURE_WRAP_R, r);
        self
    }

    /// Tells the driver which mip levels, one after another, have contents.
    /// Levels that the texture does not have are passed over when it is
    /// sampled.
    pub fn level_range(&mut self, queue: &mut Queue, start: Bound<u32>, end: Bound<u32>) -> (this:
        &mut Self)
        ensures
            final(queue)@ == old(queue)@.push(
                plain(
                    Call::TexParameteri {
                        target: Dim::TARGET,
                        pname: gl::TEXTURE_BASE_LEVEL,
                        param: start.base_level() as GLint,
                    },
                ),
            ).push(
                plain(
                    Call::TexParameteri {
                        target: Dim::TARGET,
                        pname: gl::TEXTURE_MAX_LEVEL,
                        param: end.max_level() as GLint,
                    },
                ),
            ),
    {
        let min = match start {
            Bound::Unbounded => 0,
            Bound::Excluded(n) => n.saturating_add(1),
            Bound::Included(n) => n,
        };
        let max = match end {
            Bound::Unbounded => MAX_LEVEL,
            Bound::Excluded(n) => n.saturating_add(1),
            Bound::Included(n) => n,
        };
        queue.push(
            Call::TexParameteri {
                target: Dim::TARGET,
                pname: gl::TEXTURE_BASE_LEVEL,
                param: min as GLint,
            },
        );
        queue.push(
            Call::TexParameteri {
                target: Dim::TARGET,
                pname: gl::TEXTURE_MAX_LEVEL,
                param: max as GLint,
            },
        );
        self
    }

    /// Keeps the level of detail that sampling computes between `min` and
    /// `max`. Levels that the texture does not have are passed over when it
    /// is sampled.
    pub fn lod_range(&mut self, queue: &mut Queue, min: Float, max: Float) -> (this: &mut Self)
        ensures
            final(queue)@ == old(queue)@.push(
                plain(
                    Call::TexParameterf {
                        target: Dim::TARGET,
                        pname: gl::TEXTURE_MIN_LOD,
                        param: min,
                    },
                ),
            ).push(
                plain(
                    Call::TexParameterf {
                        target: Dim::TARGET,
                        pname: gl::TEXTURE_MAX_LOD,
                        param: max,
                    },
                ),
            ),
    {
        queue.push(
            Call::TexParameterf { target: Dim::TARGET, pname: gl::TEXTURE_MIN_LOD, param: min },
        );
        queue.push(
            Call::TexParameterf { target: Dim::TARGET, pname: gl::TEXTURE_MAX_LOD, param: max },
        );
        self
    }

    /// Chooses whether sampling a combined depth-stencil texture returns the
    /// depth or the stencil.
    pub fn depth_stencil_mode(&mut self, queue: &mut Queue, mode: DepthStencilMode) -> (this:
        &mut Self)
        ensures
            final(queue)@ == old(queue)@.push(
                parameter(Dim::TARGET, gl::DEPTH_STENCIL_TEXTURE_MODE, mode.constant()),
            ),
    {
        Self::tex_parameter_enum(queue, gl::DEPTH_STENCIL_TEXTURE_MODE, mode.as_gl());
        self
    }
}

impl Active<D2> {
    /// Gives the texture its storage: `levels` mip levels of the given format,
    /// the largest of the given size.
    pub fn storage(
        &mut self,
        queue: &mut Queue,
        levels: NonZeroU32,
        format: InternalFormat,
        width: NonZeroU32,
        height: NonZeroU32,
    ) -> (this: &mut Self)
        requires
            levels@ <= GLsizei::MAX,
            width@ <= GLsizei::MAX,
            height@ <= GLsizei::MAX,
        ensures
            final(queue)@ == old(queue)@.push(
                plain(
                    Call::TexStorage2D {
                        target: D2::TARGET,
                        levels: levels@ as GLsizei,
                        internalformat: format.constant(),
                        width: width@ as GLsizei,
                        height: height@ as GLsizei,
                    },
                ),
            ),
    {
        queue.push(
            Call::TexStorage2D {
                target: D2::TARGET,
                levels: levels.get() as GLsizei,
                internalformat: format.as_gl(),
                width: width.get() as GLsizei,
                height: height.get() as GLsizei,
            },
        );
        self
    }
}

/// A binding target of textures.
pub struct Slot<Dim: Dimensionality> {
    pub(crate) active: Active<Dim>,
}

impl<Dim: Dimensionality> Slot<Dim> {
    pub(crate) fn new() -> Self {
        Slot { active: Active(PhantomData) }
    }

    /// Binds a texture to this slot.
    pub fn bind(&mut self, queue: &mut Queue, texture: &Texture<Dim>) -> (active: &mut Active<Dim>)
        ensures
            final(queue)@ == old(queue)@.push(
                plain(Call::BindTexture { target: Dim::TARGET, texture: texture.named() }),
            ),
    {
        queue.push(Call::BindTexture { target: Dim::TARGET, texture: texture.name().get() });
        &mut self.active
    }

    /// Binds a texture that has no state yet, which makes it a texture of
    /// the dimensionality of this slot.
    pub fn initialize(&mut self, queue: &mut Queue, texture: Stateless) -> (bound: (
        Texture<Dim>,
        &mut Active<Dim>,
    ))
        ensures
            bound.0.named() == texture.named(),
            final(queue)@ == old(queue)@.push(
                plain(Call::BindTexture { target: Dim::TARGET, texture: texture.named() }),
            ),
    {
        let texture: Texture<Dim> = Texture::adopt(texture.into_name());
        let bind = self.bind(queue, &texture);
        (texture, bind)
    }

    /// Takes over whatever is bound, which may be the default texture.
    #[must_use]
    pub fn inherit(&self) -> &Active<Dim> {
        &self.active
    }

    /// Takes over whatever is bound, which may be the default texture.
    #[must_use]
    pub fn inherit_mut(&mut self) -> &mut Active<Dim> {
        &mut self.active
    }

    /// Deletes textures. Where one of them was bound to this slot, the slot
    /// holds the default texture afterwards.
    pub fn delete<const N: usize>(&mut self, queue: &mut Queue, textures: [Texture<Dim>; N])
        requires
            N <= GLsizei::MAX,
        ensures
            final(queue)@ == old(queue)@.push(
                (Call::DeleteTextures { n: N as GLsizei }, Data::Words(names_of(textures@))),
            ),
    {
        crate::gl_delete_with(queue, Call::DeleteTextures { n: N as GLsizei }, textures)
    }
}

pub type Slot2D = Slot<D2>;

pub type Slot2DArray = Slot<D2Array>;

pub type Slot3D = Slot<D3>;

pub type SlotCube = Slot<Cube>;

/// The binding targets of textures.
pub struct Slots {
    /// `TEXTURE_2D`
    pub d2: Slot2D,
    /// `TEXTURE_3D`
    pub d3: Slot3D,
    /// `TEXTURE_2D_ARRAY`
    pub d2_array: Slot2DArray,
    /// `TEXTURE_CUBE_MAP`
    pub cube: SlotCube,
}

impl Slots {
    /// Makes the texture unit `slot` the one that binds apply to. Every unit
    /// has bindings of its own for all targets, so no token of a texture
    /// binding outlives this call.
    pub fn unit(&mut self, queue: &mut Queue, slot: u32) -> (this: &mut Self)
        requires
            gl::TEXTURE0 + slot <= u32::MAX,
        ensures
            final(queue)@ == old(queue)@.push(
                plain(Call::ActiveTexture { texture: (gl::TEXTURE0 + slot) as GLenum }),
            ),
    {
        queue.push(Call::ActiveTexture { texture: gl::TEXTURE0 + slot });
        self
    }

    /// Deletes textures of any dimensionality. A slot that one of them was
    /// bound to holds the default texture afterwards.
    ///
    /// `DeletionToken::from` makes the token of a texture. To delete textures
    /// through the slot of their dimensionality leaves the other bindings
    /// known.
    pub fn delete<const N: usize>(&mut self, queue: &mut Queue, textures: [DeletionToken; N])
        requires
            N <= GLsizei::MAX,
        ensures
            final(queue)@ == old(queue)@.push(
                (Call::DeleteTextures { n: N as GLsizei }, Data::Words(names_of(textures@))),
            ),
    {
        crate::gl_delete_with(queue, Call::DeleteTextures { n: N as GLsizei }, textures)
    }
}

} // verus!
