//! What the OpenGL render manager keeps on the GL side: the framebuffer that
//! groups a color and a depth buffer, and, per eye, the color buffer it hands
//! to OSVR for presenting and the depth buffer it draws with.
use vstd::prelude::*;

verus! {

/// OSVR's description of one render buffer: a GL color buffer (texture) name
/// and a GL depth-stencil buffer name.
#[derive(Clone, Copy, Debug, PartialEq, Eq, Structural)]
pub struct RenderBuffer {
    pub color_buffer_name: u32,
    pub depth_stencil_buffer_name: u32,
}

/// The model of a render manager's GL bookkeeping.
#[verifier::ext_equal]
pub struct RenderManagerView {
    pub frame_buffer: u32,
    pub color_buffers: Seq<RenderBuffer>,
    pub depth_buffers: Seq<u32>,
}

impl RenderManagerView {
    /// The shape every render manager keeps: the color buffers run ahead of
    /// the depth buffers by at most the one eye whose depth buffer is being
    /// made, and the buffer descriptions kept for presenting name no depth
    /// buffer (they are stored before the eye's depth buffer exists).
    pub open spec fn well_formed(self) -> bool {
        &&& self.depth_buffers.len() <= self.color_buffers.len()
        &&& self.color_buffers.len() <= self.depth_buffers.len() + 1
        &&& forall|i: int|
            0 <= i < self.color_buffers.len() ==> #[trigger] self.color_buffers[i].depth_stencil_buffer_name
                == 0u32
    }

    /// Every eye has both its buffers.
    pub open spec fn balanced(self) -> bool {
        self.color_buffers.len() == self.depth_buffers.len()
    }
}

/// The GL bookkeeping of a render manager.
pub struct RenderManager {
    frame_buffer: u32,
    color_buffers: Vec<RenderBuffer>,
    depth_buffers: Vec<u32>,
}

impl View for RenderManager {
    type V = RenderManagerView;

    closed spec fn view(&self) -> RenderManagerView {
        RenderManagerView {
            frame_buffer: self.frame_buffer,
            color_buffers: self.color_buffers@,
            depth_buffers: self.depth_buffers@,
        }
    }
}

/// One GL object that a render manager gives back when it is dropped.
#[derive(Clone, Copy, Debug, PartialEq, Eq, Structural)]
pub enum Release {
    DeleteFramebuffer { name: u32 },
    DeleteTexture { name: u32 },
    DeleteRenderbuffer { name: u32 },
}

/// What dropping a render manager releases, in order: its framebuffer, then
/// for each eye its color texture and its depth renderbuffer.
pub open spec fn release_sequence(m: RenderManagerView) -> Seq<Release> {
    seq![Release::DeleteFramebuffer { name: m.frame_buffer }] + Seq::new(
        2 * m.color_buffers.len(),
        |k: int|
            if k % 2 == 0 {
                Release::DeleteTexture { name: m.color_buffers[k / 2].color_buffer_name }
            } else {
                Release::DeleteRenderbuffer { name: m.depth_buffers[k / 2] }
            },
    )
}

impl RenderManager {
    /// A render manager that has registered nothing yet: framebuffer name 0
    /// and no buffers.
    pub fn new() -> (m: RenderManager)
        ensures
            m@.frame_buffer == 0,
            m@.color_buffers == Seq::<RenderBuffer>::empty(),
            m@.depth_buffers == Seq::<u32>::empty(),
            m@.well_formed(),
            m@.balanced(),
    {
        RenderManager { frame_buffer: 0, color_buffers: Vec::new(), depth_buffers: Vec::new() }
    }

    pub fn frame_buffer(&self) -> (name: u32)
        ensures
            name == self@.frame_buffer,
    {
        self.frame_buffer
    }

    /// How many color buffers the manager keeps.
    pub fn color_buffer_count(&self) -> (n: usize)
        ensures
            n == self@.color_buffers.len(),
    {
        self.color_buffers.len()
    }

    /// How many depth buffers the manager keeps.
    pub fn depth_buffer_count(&self) -> (n: usize)
        ensures
            n == self@.depth_buffers.len(),
    {
        self.depth_buffers.len()
    }

    /// The description of eye `eye`'s color buffer, as it is presented.
    pub fn color_buffer(&self, eye: usize) -> (b: RenderBuffer)
        requires
            eye < self@.color_buffers.len(),
        ensures
            b == self@.color_buffers[eye as int],
    {
        self.color_buffers[eye]
    }

    /// The name of eye `eye`'s depth buffer.
    pub fn depth_buffer(&self, eye: usize) -> (name: u32)
        requires
            eye < self@.depth_buffers.len(),
        ensures
            name == self@.depth_buffers[eye as int],
    {
        self.depth_buffers[eye]
    }

    pub(crate) fn set_frame_buffer(&mut self, name: u32)
        ensures
            final(self)@ == (RenderManagerView { frame_buffer: name, ..old(self)@ }),
    {
        self.frame_buffer = name;
    }

    pub(crate) fn push_color_buffer(&mut self, buffer: RenderBuffer)
        ensures
            final(self)@ == (RenderManagerView {
                color_buffers: old(self)@.color_buffers.push(buffer),
                ..old(self)@
            }),
    {
        self.color_buffers.push(buffer);
    }

    pub(crate) fn push_depth_buffer(&mut self, name: u32)
        ensures
            final(self)@ == (RenderManagerView {
                depth_buffers: old(self)@.depth_buffers.push(name),
                ..old(self)@
            }),
    {
        self.depth_buffers.push(name);
    }

    /// The GL objects to delete when the manager is dropped, in the order the
    /// manager deletes them. Each eye's depth buffer is looked up by the
    /// eye's index, so there must be one for every color buffer.
    pub fn release_plan(&self) -> (plan: Vec<Release>)
        requires
            self@.color_buffers.len() <= self@.depth_buffers.len(),
        ensures
            plan@ == release_sequence(self@),
    {
        let mut plan: Vec<Release> = Vec::new();
        plan.push(Release::DeleteFramebuffer { name: self.frame_buffer });
        let n = self.color_buffers.len();
        let ghost target = release_sequence(self@);
        let mut i: usize = 0;
        while i < n
            invariant
                n == self@.color_buffers.len(),
                n <= self@.depth_buffers.len(),
                i <= n,
                target == release_sequence(self@),
                plan@ == target.take(1 + 2 * i),
            decreases n - i,
        {
            plan.push(Release::DeleteTexture { name: self.color_buffers[i].color_buffer_name });
            plan.push(Release::DeleteRenderbuffer { name: self.depth_buffers[i] });
            proof {
                assert(target[1 + 2 * i] == Release::DeleteTexture {
                    name: self@.color_buffers[i as int].color_buffer_name,
                }) by {
                    assert((2 * i) % 2 == 0) by (nonlinear_arith);
                    assert((2 * i) / 2 == i) by (nonlinear_arith);
                }
                assert(target[2 + 2 * i] == Release::DeleteRenderbuffer {
                    name: self@.depth_buffers[i as int],
                }) by {
                    assert((2 * i + 1) % 2 == 1) by (nonlinear_arith);
                    assert((2 * i + 1) / 2 == i) by (nonlinear_arith);
                }
                assert(plan@ == target.take(1 + 2 * (i + 1)));
            }
            i += 1;
        }
        proof {
            assert(target.len() == 1 + 2 * n);
            assert(target.take(1 + 2 * n) == target);
        }
        plan
    }
}

} // verus!
