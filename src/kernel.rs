//! The render surface: an ordered list of drawable objects, a clear color,
//! and the queue of backend commands that its operations produce.
use vstd::prelude::*;
use crate::gl::{GlCommand, PrimitiveKind, Rgba};
use crate::object::{BuildError, Builder, ObjectView, RenderObject};

verus! {

/// What a surface holds, as values.
pub struct SurfaceState {
    pub objects: Seq<ObjectView>,
    pub clear_color: Rgba,
    /// Commands produced and not yet taken by the host, oldest first.
    pub commands: Seq<GlCommand>,
}

/// The commands that bind one vertex buffer and enable its attribute.
pub open spec fn slot_commands(location: u32, buffer: u32) -> Seq<GlCommand> {
    seq![GlCommand::BindBuffer(buffer), GlCommand::EnableAttribute(location)]
}

/// The binding commands of the first `n` slots of an object, in slot order.
pub open spec fn bindings(o: ObjectView, n: nat) -> Seq<GlCommand>
    decreases n,
{
    if n == 0 {
        Seq::empty()
    } else {
        bindings(o, (n - 1) as nat) + slot_commands(o.slots[n - 1], o.buffers[n - 1])
    }
}

/// One draw of `count` vertices from the first vertex.
pub open spec fn draw_command(kind: PrimitiveKind, count: nat) -> GlCommand {
    GlCommand::DrawArrays { kind, first: 0, count: count as usize }
}

/// Drawing one object: its program first, then each slot's buffer and
/// attribute, then one draw call.
pub open spec fn object_commands(o: ObjectView) -> Seq<GlCommand> {
    seq![GlCommand::UseProgram(o.program)] + bindings(o, o.slots.len()) + seq![
        draw_command(o.kind, o.vertex_count),
    ]
}

/// Drawing the first `n` objects, in insertion order.
pub open spec fn present_commands(objects: Seq<ObjectView>, n: nat) -> Seq<GlCommand>
    decreases n,
{
    if n == 0 {
        Seq::empty()
    } else {
        present_commands(objects, (n - 1) as nat) + object_commands(objects[n - 1])
    }
}

/// Releasing one object: each of its buffers, then its program.
pub open spec fn object_release(o: ObjectView) -> Seq<GlCommand> {
    o.buffers.map_values(|b: u32| GlCommand::DeleteBuffer(b)).push(GlCommand::DeleteProgram(o.program))
}

/// Releasing the first `n` objects, in insertion order.
pub open spec fn release_commands(objects: Seq<ObjectView>, n: nat) -> Seq<GlCommand>
    decreases n,
{
    if n == 0 {
        Seq::empty()
    } else {
        release_commands(objects, (n - 1) as nat) + object_release(objects[n - 1])
    }
}

impl SurfaceState {
    /// A fresh surface of the given pixel size.
    pub open spec fn initial(width: usize, height: usize) -> SurfaceState {
        SurfaceState {
            objects: Seq::empty(),
            clear_color: Rgba { r: 0, g: 0, b: 0, a: crate::gl::ONE_BITS },
            commands: seq![
                GlCommand::Viewport { width, height },
                GlCommand::SetClearColor(Rgba { r: 0, g: 0, b: 0, a: crate::gl::ONE_BITS }),
            ],
        }
    }

    pub open spec fn with_clear_color(self, color: Rgba) -> SurfaceState {
        SurfaceState {
            clear_color: color,
            commands: self.commands.push(GlCommand::SetClearColor(color)),
            ..self
        }
    }

    pub open spec fn cleared(self) -> SurfaceState {
        SurfaceState { commands: self.commands.push(GlCommand::Clear(self.clear_color)), ..self }
    }

    pub open spec fn resized(self, width: usize, height: usize) -> SurfaceState {
        SurfaceState {
            commands: self.commands.push(GlCommand::Viewport { width, height }),
            ..self
        }
    }

    pub open spec fn added(self, o: ObjectView) -> SurfaceState {
        SurfaceState { objects: self.objects.push(o), ..self }
    }

    pub open spec fn presented(self) -> SurfaceState {
        SurfaceState {
            commands: self.commands + present_commands(self.objects, self.objects.len()),
            ..self
        }
    }

    pub open spec fn released(self) -> SurfaceState {
        SurfaceState {
            objects: Seq::empty(),
            commands: self.commands + release_commands(self.objects, self.objects.len()),
            ..self
        }
    }

    pub open spec fn drained(self) -> SurfaceState {
        SurfaceState { commands: Seq::empty(), ..self }
    }
}

/// A render surface bound to one backend context.
pub struct Context {
    pub elements: Vec<RenderObject>,
    clear_color: Rgba,
    commands: Vec<GlCommand>,
}

impl View for Context {
    type V = SurfaceState;

    closed spec fn view(&self) -> SurfaceState {
        SurfaceState {
            objects: self.elements@.map_values(|o: RenderObject| o@),
            clear_color: self.clear_color,
            commands: self.commands@,
        }
    }
}

impl Context {
    /// A surface of the given pixel size: the viewport covers it and the
    /// clear color is opaque black.
    pub fn new(width: usize, height: usize) -> (r: Context)
        ensures
            r@ == SurfaceState::initial(width, height),
    {
        let black = Rgba::black();
        let r = Context {
            elements: Vec::new(),
            clear_color: black,
            commands: vec![GlCommand::Viewport { width, height }, GlCommand::SetClearColor(black)],
        };
        assert(r@.objects =~= Seq::<ObjectView>::empty());
        r
    }

    /// The current clear color.
    pub fn clear_color(&self) -> (r: Rgba)
        ensures
            r == self@.clear_color,
    {
        self.clear_color
    }

    /// Makes `color` the clear color and forwards it to the backend.
    pub fn set_clear_color(&mut self, color: Rgba)
        ensures
            final(self)@ == old(self)@.with_clear_color(color),
    {
        self.clear_color = color;
        self.commands.push(GlCommand::SetClearColor(color));
    }

    /// Clears the color buffer to the current clear color.
    pub fn clear(&mut self)
        ensures
            final(self)@ == old(self)@.cleared(),
    {
        self.commands.push(GlCommand::Clear(self.clear_color));
    }

    /// Sets the viewport to the new pixel size; objects are left as they are.
    pub fn resize(&mut self, width: usize, height: usize)
        ensures
            final(self)@ == old(self)@.resized(width, height),
    {
        self.commands.push(GlCommand::Viewport { width, height });
    }

    /// Appends an object; the surface owns it from now on.
    pub fn add(&mut self, object: RenderObject)
        ensures
            final(self)@ == old(self)@.added(object@),
    {
        self.elements.push(object);
        assert(self@.objects =~= old(self)@.objects.push(object@));
    }

    /// Ends a finished build session: adds its object, or returns the error
    /// that stopped it and leaves the surface as it was.
    pub fn create_render_object(&mut self, session: Builder) -> (r: Result<(), BuildError>)
        requires
            session@.wf(),
            session@.request is Finished,
        ensures
            match session@.failure {
                Some(e) => r == Err::<(), BuildError>(e) && final(self)@ == old(self)@,
                None => r is Ok && final(self)@ == old(self)@.added(session@.object()),
            },
    {
        match session.finish() {
            Ok(object) => {
                self.add(object);
                Ok(())
            },
            Err(e) => Err(e),
        }
    }

    /// Draws every object in insertion order: for each, its program, then
    /// each slot's buffer and attribute, then one draw call.
    pub fn draw(&mut self)
        ensures
            final(self)@ == old(self)@.presented(),
    {
        let ghost objects = self@.objects;
        let n = self.elements.len();
        let mut i: usize = 0;
        while i < n
            invariant
                n == self.elements@.len(),
                i <= n,
                self.elements@ == old(self).elements@,
                objects == self@.objects,
                self@.clear_color == old(self)@.clear_color,
                objects == old(self)@.objects,
                self@.commands == old(self)@.commands + present_commands(objects, i as nat),
            decreases n - i,
        {
            let o = &self.elements[i];
            let ghost ov = o@;
            assert(ov == objects[i as int]);
            let slots = o.attributes();
            let buffers = o.buffers();
            let ghost before = self.commands@;
            self.commands.push(GlCommand::UseProgram(o.shader_program()));
            let mut j: usize = 0;
            while j < slots.len()
                invariant
                    j <= slots@.len(),
                    slots@ == ov.slots,
                    buffers@ == ov.buffers,
                    buffers@.len() == slots@.len(),
                    self.elements@ == old(self).elements@,
                    self.clear_color == old(self).clear_color,
                    self.commands@ == before + seq![GlCommand::UseProgram(ov.program)] + bindings(
                        ov,
                        j as nat,
                    ),
                decreases slots@.len() - j,
            {
                self.commands.push(GlCommand::BindBuffer(buffers[j]));
                self.commands.push(GlCommand::EnableAttribute(slots[j]));
                proof {
                    assert(bindings(ov, (j + 1) as nat) == bindings(ov, j as nat) + slot_commands(
                        ov.slots[j as int],
                        ov.buffers[j as int],
                    ));
                }
                assert(self.commands@ =~= before + seq![GlCommand::UseProgram(ov.program)]
                    + bindings(ov, (j + 1) as nat));
                j = j + 1;
            }
            self.commands.push(
                GlCommand::DrawArrays { kind: o.draw_type(), first: 0, count: o.vertex_count() },
            );
            assert(present_commands(objects, (i + 1) as nat) == present_commands(objects, i as nat)
                + object_commands(ov));
            assert(self.commands@ =~= old(self)@.commands + present_commands(objects, (i + 1) as nat));
            i = i + 1;
        }
        assert(self@ =~= old(self)@.presented());
    }

    /// Removes every object and releases its buffers and program, in
    /// insertion order; the surface is then empty.
    pub fn release(&mut self)
        ensures
            final(self)@ == old(self)@.released(),
    {
        let ghost objects = self@.objects;
        let n = self.elements.len();
        let mut i: usize = 0;
        while i < n
            invariant
                n == self.elements@.len(),
                i <= n,
                self.elements@ == old(self).elements@,
                objects == self@.objects,
                objects == old(self)@.objects,
                self.clear_color == old(self).clear_color,
                self.commands@ == old(self)@.commands + release_commands(objects, i as nat),
            decreases n - i,
        {
            let o = &self.elements[i];
            let ghost ov = o@;
            assert(ov == objects[i as int]);
            let buffers = o.buffers();
            let ghost before = self.commands@;
            let mut j: usize = 0;
            while j < buffers.len()
                invariant
                    j <= buffers@.len(),
                    buffers@ == ov.buffers,
                    self.elements@ == old(self).elements@,
                    self.clear_color == old(self).clear_color,
                    self.commands@ == before + ov.buffers.take(j as int).map_values(
                        |b: u32| GlCommand::DeleteBuffer(b),
                    ),
                decreases buffers@.len() - j,
            {
                self.commands.push(GlCommand::DeleteBuffer(buffers[j]));
                assert(ov.buffers.take((j + 1) as int) =~= ov.buffers.take(j as int).push(
                    ov.buffers[j as int],
                ));
                assert(self.commands@ =~= before + ov.buffers.take((j + 1) as int).map_values(
                    |b: u32| GlCommand::DeleteBuffer(b),
                ));
                j = j + 1;
            }
            assert(ov.buffers.take(j as int) =~= ov.buffers);
            self.commands.push(GlCommand::DeleteProgram(o.shader_program()));
            assert(self.commands@ =~= old(self)@.commands + release_commands(objects, (i + 1) as nat));
            i = i + 1;
        }
        self.elements = Vec::new();
        assert(self@.objects =~= Seq::<ObjectView>::empty());
        assert(self@.commands == old(self)@.released().commands);
        assert(self@ =~= old(self)@.released());
    }

    /// Hands the queued commands to the host, oldest first, and empties the queue.
    pub fn take_commands(&mut self) -> (r: Vec<GlCommand>)
        ensures
            r@ == old(self)@.commands,
            final(self)@ == old(self)@.drained(),
    {
        let mut taken: Vec<GlCommand> = Vec::new();
        std::mem::swap(&mut taken, &mut self.commands);
        taken
    }
}

/// Clearing twice with nothing in between asks the backend for the same
/// clear, with the same color, both times, and leaves the color as it was.
pub proof fn lemma_clear_twice_same_color(s: SurfaceState)
    ensures
        s.cleared().cleared().commands == s.commands + seq![
            GlCommand::Clear(s.clear_color),
            GlCommand::Clear(s.clear_color),
        ],
        s.cleared().cleared().clear_color == s.clear_color,
        s.cleared().cleared().objects == s.objects,
{
    assert(s.cleared().cleared().commands =~= s.commands + seq![
        GlCommand::Clear(s.clear_color),
        GlCommand::Clear(s.clear_color),
    ]);
}

} // verus!
