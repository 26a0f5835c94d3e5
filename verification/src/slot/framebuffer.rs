//! Binding framebuffers, checking their completeness, and working on the
//! framebuffer that is bound.
use core::marker::PhantomData;
use vstd::prelude::*;

use crate::call::{plain, Call, Data, Payload, Queue};
use crate::framebuffer::{Attachment, Buffer, Complete, DefaultBuffer, Incomplete};
use crate::gl;
use crate::gl::types::{GLbitfield, GLenum, GLint, GLsizei};
use crate::names_of;
use crate::sealed::{Named, Sealed};
use crate::slot::marker::{Defaultness, IsDefault, NotDefault, Unknown};
use crate::texture::{Dimensionality, Filter, InternalFormat, Texture2D, D2};
use crate::{GLEnum, ThinGLObject};

verus! {

/// The constants of some options, in their order.
pub open spec fn constants<T: GLEnum>(options: Seq<T>) -> Seq<GLenum> {
    Seq::new(options.len(), |i: int| options[i].constant())
}

/// Whether no value occurs twice.
pub open spec fn all_unique(values: Seq<GLenum>) -> bool {
    forall|i: int, j: int| 0 <= i < j < values.len() ==> values[i] != values[j]
}

/// Whether no option occurs twice in the slice. Takes time in the square of
/// the length, which is right for the few buffers of a framebuffer.
pub fn is_all_unique<T: GLEnum>(slice: &[T]) -> (unique: bool)
    ensures
        unique == all_unique(constants(slice@)),
{
    let ghost values = constants(slice@);
    let mut i: usize = 0;
    while i < slice.len()
        invariant
            i <= slice.len(),
            values == constants(slice@),
            forall|a: int, b: int| 0 <= a < i && a < b < values.len() ==> values[a] != values[b],
        decreases slice.len() - i,
    {
        let here = slice[i].as_gl();
        let mut j: usize = i + 1;
        while j < slice.len()
            invariant
                i < j <= slice.len(),
                values == constants(slice@),
                here == values[i as int],
                forall|b: int| i < b < j ==> values[i as int] != values[b],
            decreases slice.len() - j,
        {
            if slice[j].as_gl() == here {
                assert(values[i as int] == values[j as int]);
                return false;
            }
            j += 1;
        }
        i += 1;
    }
    true
}

/// The two binding targets of framebuffers, [`Draw`] and [`Read`].
pub trait Target: Sealed {
    const TARGET: GLenum;
}

/// Marker for `GL_DRAW_FRAMEBUFFER`.
#[derive(Debug)]
pub struct Draw;

impl Sealed for Draw {

}

impl Target for Draw {
    const TARGET: GLenum = gl::DRAW_FRAMEBUFFER;
}

/// Marker for `GL_READ_FRAMEBUFFER`.
#[derive(Debug)]
pub struct Read;

impl Sealed for Read {

}

impl Target for Read {
    const TARGET: GLenum = gl::READ_FRAMEBUFFER;
}

/// Each marker of a framebuffer target stands for the constant of its name.
pub proof fn lemma_targets()
    ensures
        Draw::TARGET == gl::DRAW_FRAMEBUFFER,
        Read::TARGET == gl::READ_FRAMEBUFFER,
{
}

/// The aspects of a framebuffer that an operation touches: any of color,
/// depth and stencil.
#[derive(Clone, Copy, Debug, PartialEq, Eq)]
pub struct AspectMask {
    bits: GLbitfield,
}

impl View for AspectMask {
    type V = GLbitfield;

    closed spec fn view(&self) -> GLbitfield {
        self.bits
    }
}

/// The bits of the three aspects together.
pub const ALL_ASPECTS: GLbitfield = 0x4500;

impl AspectMask {
    #[verifier::type_invariant]
    spec fn known(self) -> bool {
        self.bits & !ALL_ASPECTS == 0
    }

    /// No aspect.
    pub fn empty() -> (mask: Self)
        ensures
            mask@ == 0,
    {
        assert(0u32 & !0x4500u32 == 0) by (bit_vector);
        AspectMask { bits: 0 }
    }

    /// The color attachments in use: those chosen as draw buffers where the
    /// mask is used to write, the read buffer where it is used to read.
    pub fn color() -> (mask: Self)
        ensures
            mask@ == gl::COLOR_BUFFER_BIT,
    {
        assert(0x4000u32 & !0x4500u32 == 0) by (bit_vector);
        AspectMask { bits: gl::COLOR_BUFFER_BIT }
    }

    /// The depth attachment, if there is one.
    pub fn depth() -> (mask: Self)
        ensures
            mask@ == gl::DEPTH_BUFFER_BIT,
    {
        assert(0x0100u32 & !0x4500u32 == 0) by (bit_vector);
        AspectMask { bits: gl::DEPTH_BUFFER_BIT }
    }

    /// The stencil attachment, if there is one.
    pub fn stencil() -> (mask: Self)
        ensures
            mask@ == gl::STENCIL_BUFFER_BIT,
    {
        assert(0x0400u32 & !0x4500u32 == 0) by (bit_vector);
        AspectMask { bits: gl::STENCIL_BUFFER_BIT }
    }

    /// The mask of the given bits; `None` if and only if a bit among them
    /// belongs to no aspect.
    pub fn from_bits(bits: GLbitfield) -> (mask: Option<Self>)
        ensures
            mask is Some <==> bits & !ALL_ASPECTS == 0,
            mask matches Some(mask) ==> mask@ == bits,
    {
        if bits & !ALL_ASPECTS == 0 {
            Some(AspectMask { bits })
        } else {
            None
        }
    }

    /// The bits of the mask. None of them lies outside the three aspects.
    pub fn bits(&self) -> (bits: GLbitfield)
        ensures
            bits == self@,
            bits & !ALL_ASPECTS == 0,
    {
        proof {
            use_type_invariant(self);
        }
        self.bits
    }

    /// Whether the mask holds no aspect.
    pub fn is_empty(&self) -> (empty: bool)
        ensures
            empty == (self@ == 0),
    {
        self.bits == 0
    }

    /// Whether the mask holds every aspect of `other`.
    pub fn contains(&self, other: Self) -> (contains: bool)
        ensures
            contains == (self@ & other@ == other@),
    {
        self.bits & other.bits == other.bits
    }

    /// The aspects of both masks.
    pub fn union(self, other: Self) -> (mask: Self)
        ensures
            mask@ == self@ | other@,
    {
        proof {
            use_type_invariant(&self);
            use_type_invariant(&other);
        }
        let a = self.bits;
        let b = other.bits;
        assert((a | b) & !0x4500u32 == 0) by (bit_vector)
            requires
                a & !0x4500u32 == 0,
                b & !0x4500u32 == 0,
        ;
        AspectMask { bits: a | b }
    }
}

impl core::ops::BitOr for AspectMask {
    type Output = AspectMask;

    /// The aspects of both masks.
    fn bitor(self, other: AspectMask) -> (mask: AspectMask)
        ensures
            mask@ == self@ | other@,
    {
        self.union(other)
    }
}

impl vstd::std_specs::ops::BitOrSpecImpl for AspectMask {
    open spec fn obeys_bitor_spec() -> bool {
        true
    }

    open spec fn bitor_req(self, other: AspectMask) -> bool {
        true
    }

    open spec fn bitor_spec(self, other: AspectMask) -> AspectMask {
        joined(self, other)
    }
}

/// The mask of the aspects of both masks.
pub closed spec fn joined(a: AspectMask, b: AspectMask) -> AspectMask {
    AspectMask { bits: a.bits | b.bits }
}

/// A rectangle of a blit. Which corner `from` is does not matter, as long as
/// the rectangles read and written agree; where one mirrors the other, the
/// image is flipped.
#[derive(Clone, Copy, Debug)]
pub struct BlitRectangle {
    /// The lower bound, which the rectangle holds.
    pub from: [i32; 2],
    /// The upper bound, which the rectangle does not hold.
    pub to_exclusive: [i32; 2],
}

/// What a blit copies, from where to where.
#[derive(Clone, Copy, Debug)]
pub struct BlitInfo {
    pub read: BlitRectangle,
    pub write: BlitRectangle,
    /// The filter for the color planes where the image is enlarged.
    pub filter: Filter,
    /// The aspects to copy. With depth or stencil among them, `filter` must
    /// be `Nearest`.
    pub mask: AspectMask,
}

/// The constant of a filter that does not look at mip levels.
pub open spec fn filter_constant(filter: Filter) -> GLenum {
    match filter {
        Filter::Linear => gl::LINEAR,
        Filter::Nearest => gl::NEAREST,
    }
}

/// The queue after a blit was asked for: one call longer, or as it was where
/// the mask holds no aspect.
pub open spec fn blitted(queue: Seq<(Call, Data)>, info: BlitInfo) -> Seq<(Call, Data)> {
    if info.mask@ == 0 {
        queue
    } else {
        queue.push(
            plain(
                Call::BlitFramebuffer {
                    src_x0: info.read.from[0],
                    src_y0: info.read.from[1],
                    src_x1: info.read.to_exclusive[0],
                    src_y1: info.read.to_exclusive[1],
                    dst_x0: info.write.from[0],
                    dst_y0: info.write.from[1],
                    dst_x1: info.write.to_exclusive[0],
                    dst_y1: info.write.to_exclusive[1],
                    mask: info.mask@,
                    filter: filter_constant(info.filter),
                },
            ),
        )
    }
}

/// The token of a framebuffer binding: the entry points that work on the
/// framebuffer bound to `Slot`.
#[derive(Debug)]
pub struct Active<'slot, Slot, Default: Defaultness, Completeness>(
    PhantomData<&'slot ()>,
    PhantomData<(Default, Slot, Completeness)>,
);

impl<T: Target> Active<'_, T, NotDefault, Incomplete> {
    /// Attaches a level of a two-dimensional texture to the framebuffer.
    pub fn texture_2d(
        &self,
        queue: &mut Queue,
        texture: &Texture2D,
        attachment: Attachment,
        mip_level: u32,
    ) -> (this: &Self)
        requires
            mip_level <= GLint::MAX,
        ensures
            final(queue)@ == old(queue)@.push(
                plain(
                    Call::FramebufferTexture2D {
                        target: T::TARGET,
                        attachment: attachment.constant(),
                        textarget: D2::TARGET,
                        texture: texture.named(),
                        level: mip_level as GLint,
                    },
                ),
            ),
    {
        queue.push(
            Call::FramebufferTexture2D {
                target: T::TARGET,
                attachment: attachment.as_gl(),
                textarget: D2::TARGET,
                texture: texture.name().get(),
                level: mip_level as GLint,
            },
        );
        self
    }
}

impl<AnyDefaultness: Defaultness> Active<'_, Draw, AnyDefaultness, Complete> {
    /// Blits from the framebuffer bound for reading into this one: its read
    /// buffer is copied to each draw buffer of this one. Nothing is queued
    /// where the mask holds no aspect.
    ///
    /// Where the read buffer and a draw buffer are the same image and the
    /// rectangles overlap, what is written is undefined: the caller sees to
    /// it that they do not.
    pub fn blit_from<OtherDefaultness: Defaultness>(
        &self,
        queue: &mut Queue,
        _from: &Active<'_, Read, OtherDefaultness, Complete>,
        info: &BlitInfo,
    ) -> (this: &Self)
        ensures
            final(queue)@ == blitted(old(queue)@, *info),
    {
        if info.mask.is_empty() {
            return self;
        }
        queue.push(
            Call::BlitFramebuffer {
                src_x0: info.read.from[0],
                src_y0: info.read.from[1],
                src_x1: info.read.to_exclusive[0],
                src_y1: info.read.to_exclusive[1],
                dst_x0: info.write.from[0],
                dst_y0: info.write.from[1],
                dst_x1: info.write.to_exclusive[0],
                dst_y1: info.write.to_exclusive[1],
                mask: info.mask.bits(),
                filter: match info.filter {
                    Filter::Linear => gl::LINEAR,
                    Filter::Nearest => gl::NEAREST,
                },
            },
        );
        self
    }

    /// Clears the color, depth and stencil buffers that the mask names, to
    /// the clear values of the context. Aspects that the framebuffer lacks
    /// are passed over; of the color buffers only the draw buffers are
    /// cleared. Nothing is queued where the mask holds no aspect.
    pub fn clear(&self, queue: &mut Queue, mask: AspectMask) -> (this: &Self)
        ensures
            final(queue)@ == if mask@ == 0 {
                old(queue)@
            } else {
                old(queue)@.push(plain(Call::Clear { mask: mask@ }))
            },
    {
        if mask.is_empty() {
            return self;
        }
        queue.push(Call::Clear { mask: mask.bits() });
        self
    }
}

impl<AnyDefaultness: Defaultness> Active<'_, Read, AnyDefaultness, Complete> {
    /// Blits from this framebuffer into the one bound for drawing: see
    /// [`Active::blit_from`], of which this is the mirror image.
    pub fn blit_to<OtherDefaultness: Defaultness>(
        &self,
        queue: &mut Queue,
        other: &Active<'_, Draw, OtherDefaultness, Complete>,
        info: &BlitInfo,
    ) -> (this: &Self)
        ensures
            final(queue)@ == blitted(old(queue)@, *info),
    {
        other.blit_from(queue, self, info);
        self
    }

    /// Copies texels of the read buffer into a part of a level of the bound
    /// texture: `size` texels from `source_offset` on go to
    /// `destination_offset`. `[0, 0]` is the lower left corner.
    ///
    /// Texels taken from beyond the read buffer are undefined, and so is a
    /// later read of them from the texture.
    pub fn copy_subimage_to(
        &self,
        queue: &mut Queue,
        _to: &crate::slot::texture::Active<D2>,
        level: u32,
        source_offset: [i32; 2],
        destination_offset: [u32; 2],
        size: [u32; 2],
    ) -> (this: &Self)
        requires
            level <= GLint::MAX,
            destination_offset[0] <= GLint::MAX,
            destination_offset[1] <= GLint::MAX,
            size[0] <= GLsizei::MAX,
            size[1] <= GLsizei::MAX,
        ensures
            final(queue)@ == old(queue)@.push(
                plain(
                    Call::CopyTexSubImage2D {
                        target: D2::TARGET,
                        level: level as GLint,
                        xoffset: destination_offset[0] as GLint,
                        yoffset: destination_offset[1] as GLint,
                        x: source_offset[0],
                        y: source_offset[1],
                        width: size[0] as GLsizei,
                        height: size[1] as GLsizei,
                    },
                ),
            ),
    {
        queue.push(
            Call::CopyTexSubImage2D {
                target: D2::TARGET,
                level: level as GLint,
                xoffset: destination_offset[0] as GLint,
                yoffset: destination_offset[1] as GLint,
                x: source_offset[0],
                y: source_offset[1],
                width: size[0] as GLsizei,
                height: size[1] as GLsizei,
            },
        );
        self
    }

    /// Copies texels of the read buffer into a whole level of the bound
    /// texture, which gets the size `size` and the format `internal_format`.
    /// `[0, 0]` is the lower left corner.
    ///
    /// Texels taken from beyond the read buffer are undefined, and so is a
    /// later read of them from the texture.
    pub fn copy_image_to(
        &self,
        queue: &mut Queue,
        _to: &crate::slot::texture::Active<D2>,
        level: u32,
        internal_format: InternalFormat,
        source_offset: [i32; 2],
        size: [u32; 2],
    ) -> (this: &Self)
        requires
            level <= GLint::MAX,
            size[0] <= GLsizei::MAX,
            size[1] <= GLsizei::MAX,
        ensures
            final(queue)@ == old(queue)@.push(
                plain(
                    Call::CopyTexImage2D {
                        target: D2::TARGET,
                        level: level as GLint,
                        internalformat: internal_format.constant(),
                        x: source_offset[0],
                        y: source_offset[1],
                        width: size[0] as GLsizei,
                        height: size[1] as GLsizei,
                        border: 0,
                    },
                ),
            ),
    {
        queue.push(
            Call::CopyTexImage2D {
                target: D2::TARGET,
                level: level as GLint,
                internalformat: internal_format.as_gl(),
                x: source_offset[0],
                y: source_offset[1],
                width: size[0] as GLsizei,
                height: size[1] as GLsizei,
                border: 0,
            },
        );
        self
    }
}

/// Queues the choice of draw buffers.
fn choose_draw_buffers<T: GLEnum>(queue: &mut Queue, buffers: &[T])
    requires
        buffers@.len() <= GLsizei::MAX,
    ensures
        final(queue)@ == old(queue)@.push(
            (Call::DrawBuffers { n: buffers@.len() as GLsizei }, Data::Words(constants(buffers@))),
        ),
{
    let mut words: Vec<u32> = Vec::new();
    let mut i: usize = 0;
    while i < buffers.len()
        invariant
            i <= buffers.len(),
            words@.len() == i,
            forall|j: int| 0 <= j < i ==> words@[j] == buffers@[j].constant(),
        decreases buffers.len() - i,
    {
        words.push(buffers[i].as_gl());
        i += 1;
    }
    assert(words@ =~= constants(buffers@));
    queue.push_with(Call::DrawBuffers { n: buffers.len() as GLsizei }, Payload::Words(words));
}

impl<AnyCompleteness> Active<'_, Draw, NotDefault, AnyCompleteness> {
    /// Sends the outputs of the fragment shader to buffers: output 0 to
    /// `buffers[0]`, and so on. Outputs beyond the slice go nowhere.
    ///
    /// No buffer may occur twice in the slice.
    pub fn draw_buffers(&self, queue: &mut Queue, buffers: &[Buffer]) -> (this: &Self)
        requires
            all_unique(constants(buffers@)),
            buffers@.len() <= GLsizei::MAX,
        ensures
            final(queue)@ == old(queue)@.push(
                (
                    Call::DrawBuffers { n: buffers@.len() as GLsizei },
                    Data::Words(constants(buffers@)),
                ),
            ),
    {
        choose_draw_buffers(queue, buffers);
        self
    }
}

impl Active<'_, Draw, IsDefault, Complete> {
    /// Sends the outputs of the fragment shader to buffers: output 0 to
    /// `buffers[0]`, and so on. Outputs beyond the slice go nowhere.
    ///
    /// No buffer may occur twice in the slice.
    pub fn draw_buffers(&self, queue: &mut Queue, buffers: &[DefaultBuffer]) -> (this: &Self)
        requires
            all_unique(constants(buffers@)),
            buffers@.len() <= GLsizei::MAX,
        ensures
            final(queue)@ == old(queue)@.push(
                (
                    Call::DrawBuffers { n: buffers@.len() as GLsizei },
                    Data::Words(constants(buffers@)),
                ),
            ),
    {
        choose_draw_buffers(queue, buffers);
        self
    }

    /// Chooses the buffer that pixels are read from.
    pub fn read_buffer(&self, queue: &mut Queue, buffer: DefaultBuffer) -> (this: &Self)
        ensures
            final(queue)@ == old(queue)@.push(plain(Call::ReadBuffer { src: buffer.constant() })),
    {
        queue.push(Call::ReadBuffer { src: buffer.as_gl() });
        self
    }
}

impl<AnyCompleteness> Active<'_, Read, NotDefault, AnyCompleteness> {
    /// Chooses the buffer that pixels are read from.
    pub fn read_buffer(&self, queue: &mut Queue, buffer: Buffer) -> (this: &Self)
        ensures
            final(queue)@ == old(queue)@.push(plain(Call::ReadBuffer { src: buffer.constant() })),
    {
        queue.push(Call::ReadBuffer { src: buffer.as_gl() });
        self
    }
}

/// A framebuffer that failed its completeness check.
#[derive(Debug)]
#[must_use]
pub struct IncompleteError<'slot, Slot> {
    /// The token of the framebuffer, which is bound although it is incomplete.
    pub active: Active<'slot, Slot, NotDefault, Incomplete>,
    /// The framebuffer, given back.
    pub framebuffer: Incomplete,
    pub kind: IncompleteErrorKind,
}

/// Why a framebuffer is incomplete.
#[derive(Clone, Copy, Debug, PartialEq, Eq, Structural)]
pub enum IncompleteErrorKind {
    /// The driver failed, or reported a status that is not known here.
    Unspecified,
    /// An attachment is itself incomplete.
    Attachment,
    /// The framebuffer has no attachment.
    MissingAttachment,
    /// The depth and stencil attachments are different images, or the
    /// combination of formats is one that the implementation refuses.
    Unsupported,
    /// The attachments do not all have the same number of samples.
    Multisample,
    /// Some attachments are layered and others are not, or the attached
    /// textures are not all of one target.
    LayerTargets,
}

impl IncompleteErrorKind {
    /// The status that reports this kind; zero for `Unspecified`, which no
    /// single status reports.
    pub open spec fn status(&self) -> GLenum {
        match self {
            IncompleteErrorKind::Unspecified => 0,
            IncompleteErrorKind::Attachment => gl::FRAMEBUFFER_INCOMPLETE_ATTACHMENT,
            IncompleteErrorKind::MissingAttachment => gl::FRAMEBUFFER_INCOMPLETE_MISSING_ATTACHMENT,
            IncompleteErrorKind::Unsupported => gl::FRAMEBUFFER_UNSUPPORTED,
            IncompleteErrorKind::Multisample => gl::FRAMEBUFFER_INCOMPLETE_MULTISAMPLE,
            IncompleteErrorKind::LayerTargets => gl::FRAMEBUFFER_INCOMPLETE_LAYER_TARGETS,
        }
    }

    /// The kind that a status reports: the one with that status, and
    /// `Unspecified` where there is none.
    pub open spec fn of_status(status: GLenum) -> Self {
        if status == gl::FRAMEBUFFER_INCOMPLETE_ATTACHMENT {
            IncompleteErrorKind::Attachment
        } else if status == gl::FRAMEBUFFER_INCOMPLETE_MISSING_ATTACHMENT {
            IncompleteErrorKind::MissingAttachment
        } else if status == gl::FRAMEBUFFER_UNSUPPORTED {
            IncompleteErrorKind::Unsupported
        } else if status == gl::FRAMEBUFFER_INCOMPLETE_MULTISAMPLE {
            IncompleteErrorKind::Multisample
        } else if status == gl::FRAMEBUFFER_INCOMPLETE_LAYER_TARGETS {
            IncompleteErrorKind::LayerTargets
        } else {
            IncompleteErrorKind::Unspecified
        }
    }

    /// A kind other than `Unspecified` is the one that its own status
    /// reports, and a status reports a kind other than `Unspecified` only
    /// where it is the status of that kind.
    pub proof fn lemma_of_status(kind: Self, status: GLenum)
        ensures
            kind != IncompleteErrorKind::Unspecified ==> Self::of_status(kind.status()) == kind,
            Self::of_status(status) != IncompleteErrorKind::Unspecified ==> Self::of_status(
                status,
            ).status() == status,
            Self::of_status(gl::FRAMEBUFFER_COMPLETE) == IncompleteErrorKind::Unspecified,
    {
    }

    /// The kind that a status of the driver reports.
    #[must_use]
    pub fn from_gl(gl: GLenum) -> (kind: Self)
        ensures
            kind == Self::of_status(gl),
    {
        match gl {
            gl::FRAMEBUFFER_INCOMPLETE_ATTACHMENT => Self::Attachment,
            gl::FRAMEBUFFER_INCOMPLETE_MISSING_ATTACHMENT => Self::MissingAttachment,
            gl::FRAMEBUFFER_UNSUPPORTED => Self::Unsupported,
            gl::FRAMEBUFFER_INCOMPLETE_MULTISAMPLE => Self::Multisample,
            gl::FRAMEBUFFER_INCOMPLETE_LAYER_TARGETS => Self::LayerTargets,
            _ => Self::Unspecified,
        }
    }
}

/// A completeness check that waits for the driver's status.
#[must_use]
pub struct Checking<'slot, T: Target> {
    active: Active<'slot, T, NotDefault, Incomplete>,
    framebuffer: Incomplete,
}

impl<'slot, T: Target> Checking<'slot, T> {
    /// The name of the framebuffer that is checked.
    pub closed spec fn named(&self) -> u32 {
        self.framebuffer.named()
    }

    /// What a status says of a framebuffer: `None` that it is complete, and
    /// else the kind of its fault.
    pub open spec fn verdict(status: GLenum) -> Option<IncompleteErrorKind> {
        if status == gl::FRAMEBUFFER_COMPLETE {
            None
        } else {
            Some(IncompleteErrorKind::of_status(status))
        }
    }

    /// Completes the check with the status that the driver returned: the
    /// framebuffer as a complete one where the status says so, and else the
    /// framebuffer as it was, with the kind of fault that the status reports.
    pub fn answer(self, status: GLenum) -> (result: Result<
        (Complete, Active<'slot, T, NotDefault, Complete>),
        IncompleteError<'slot, T>,
    >)
        ensures
            result is Ok <==> Self::verdict(status) is None,
            result matches Ok((complete, _)) ==> complete.named() == self.named(),
            result matches Err(error) ==> error.framebuffer.named() == self.named() && Some(
                error.kind,
            ) == Self::verdict(status),
    {
        if status == gl::FRAMEBUFFER_COMPLETE {
            Ok((self.framebuffer.into_complete_unchecked(), Active(PhantomData, PhantomData)))
        } else {
            Err(
                IncompleteError {
                    active: self.active,
                    kind: IncompleteErrorKind::from_gl(status),
                    framebuffer: self.framebuffer,
                },
            )
        }
    }
}

/// A binding target of framebuffers.
pub struct Slot<T: Target>(pub(crate) PhantomData<T>);

impl<T: Target> Slot<T> {
    /// Binds a framebuffer of the application's to this slot.
    pub fn bind(&mut self, queue: &mut Queue, framebuffer: &Incomplete) -> (active: Active<
        '_,
        T,
        NotDefault,
        Incomplete,
    >)
        ensures
            final(queue)@ == old(queue)@.push(
                plain(
                    Call::BindFramebuffer { target: T::TARGET, framebuffer: framebuffer.named() },
                ),
            ),
    {
        queue.push(
            Call::BindFramebuffer { target: T::TARGET, framebuffer: framebuffer.name().get() },
        );
        Active(PhantomData, PhantomData)
    }

    /// Binds a complete framebuffer of the application's to this slot.
    pub fn bind_complete(&mut self, queue: &mut Queue, framebuffer: &Complete) -> (active: Active<
        '_,
        T,
        NotDefault,
        Complete,
    >)
        ensures
            final(queue)@ == old(queue)@.push(
                plain(
                    Call::BindFramebuffer { target: T::TARGET, framebuffer: framebuffer.named() },
                ),
            ),
    {
        queue.push(
            Call::BindFramebuffer { target: T::TARGET, framebuffer: framebuffer.name().get() },
        );
        Active(PhantomData, PhantomData)
    }

    /// Binds the framebuffer and asks the driver whether it is complete. The
    /// answer decides: see [`Checking::answer`].
    pub fn try_complete(&mut self, queue: &mut Queue, framebuffer: Incomplete) -> (checking:
        Checking<'_, T>)
        ensures
            checking.named() == framebuffer.named(),
            final(queue)@ == old(queue)@.push(
                plain(
                    Call::BindFramebuffer { target: T::TARGET, framebuffer: framebuffer.named() },
                ),
            ).push(plain(Call::CheckFramebufferStatus { target: T::TARGET })),
    {
        let active = self.bind(queue, &framebuffer);
        queue.push(Call::CheckFramebufferStatus { target: T::TARGET });
        Checking { active, framebuffer }
    }

    /// Binds the default framebuffer, zero, to this slot.
    pub fn bind_default(&mut self, queue: &mut Queue) -> (active: Active<
        '_,
        T,
        IsDefault,
        Complete,
    >)
        ensures
            final(queue)@ == old(queue)@.push(
                plain(Call::BindFramebuffer { target: T::TARGET, framebuffer: 0 }),
            ),
    {
        queue.push(Call::BindFramebuffer { target: T::TARGET, framebuffer: 0 });
        Active(PhantomData, PhantomData)
    }

    /// Takes over whatever is bound, which may be the default framebuffer.
    /// Less can be done with a binding of which that is not known.
    #[must_use]
    pub fn inherit(&self) -> Active<'_, T, Unknown, Unknown> {
        Active(PhantomData, PhantomData)
    }
}

/// The binding targets of framebuffers.
pub struct Slots {
    pub draw: Slot<Draw>,
    pub read: Slot<Read>,
}

impl Slots {
    /// Binds a framebuffer to the read slot and the draw slot at once.
    pub fn bind(&mut self, queue: &mut Queue, framebuffer: &Incomplete) -> (active: (
        Active<'_, Read, NotDefault, Incomplete>,
        Active<'_, Draw, NotDefault, Incomplete>,
    ))
        ensures
            final(queue)@ == old(queue)@.push(
                plain(
                    Call::BindFramebuffer {
                        target: gl::FRAMEBUFFER,
                        framebuffer: framebuffer.named(),
                    },
                ),
            ),
    {
        queue.push(
            Call::BindFramebuffer { target: gl::FRAMEBUFFER, framebuffer: framebuffer.name().get() },
        );
        (Active(PhantomData, PhantomData), Active(PhantomData, PhantomData))
    }

    /// Binds a complete framebuffer to the read slot and the draw slot at
    /// once.
    pub fn bind_complete(&mut self, queue: &mut Queue, framebuffer: &Complete) -> (active: (
        Active<'_, Read, NotDefault, Complete>,
        Active<'_, Draw, NotDefault, Complete>,
    ))
        ensures
            final(queue)@ == old(queue)@.push(
                plain(
                    Call::BindFramebuffer {
                        target: gl::FRAMEBUFFER,
                        framebuffer: framebuffer.named(),
                    },
                ),
            ),
    {
        queue.push(
            Call::BindFramebuffer { target: gl::FRAMEBUFFER, framebuffer: framebuffer.name().get() },
        );
        (Active(PhantomData, PhantomData), Active(PhantomData, PhantomData))
    }

    /// Binds the default framebuffer to the read slot and the draw slot at
    /// once.
    pub fn bind_default(&mut self, queue: &mut Queue) -> (active: (
        Active<'_, Read, IsDefault, Complete>,
        Active<'_, Draw, IsDefault, Complete>,
    ))
        ensures
            final(queue)@ == old(queue)@.push(
                plain(Call::BindFramebuffer { target: gl::FRAMEBUFFER, framebuffer: 0 }),
            ),
    {
        queue.push(Call::BindFramebuffer { target: gl::FRAMEBUFFER, framebuffer: 0 });
        (Active(PhantomData, PhantomData), Active(PhantomData, PhantomData))
    }

    /// Deletes framebuffers. A slot that one of them was bound to holds the
    /// default framebuffer afterwards.
    ///
    /// A [`Complete`] framebuffer is deleted as the incomplete one that
    /// `Incomplete::from` makes of it.
    pub fn delete<const N: usize>(&mut self, queue: &mut Queue, framebuffers: [Incomplete; N])
        requires
            N <= GLsizei::MAX,
        ensures
            final(queue)@ == old(queue)@.push(
                (
                    Call::DeleteFramebuffers { n: N as GLsizei },
                    Data::Words(names_of(framebuffers@)),
                ),
            ),
    {
        crate::gl_delete_with(queue, Call::DeleteFramebuffers { n: N as GLsizei }, framebuffers)
    }
}

} // verus!
