//! The frame plan: graphics operations recorded as plain values, and the
//! scoped binding guard that keeps activations and deactivations paired.
use vstd::prelude::*;

verus! {

/// An object that can be made current in the graphics context.
#[derive(Clone, Copy, Debug, PartialEq, Eq, Structural)]
pub enum BindTarget {
    /// A linked shader program, by native handle.
    Program(u32),
    /// A vertex array object, by native handle.
    VertexArray(u32),
    /// A texture, by the identifier the executor knows it under.
    Texture(u32),
}

/// A value uploaded to a shader uniform.
#[derive(Clone, Copy, Debug, PartialEq, Eq, Structural)]
pub enum UniformValue {
    /// The viewport resolution in pixels.
    Resolution { width: u32, height: u32 },
    /// The engine's fixed perspective projection.
    Projection,
    /// The look-at view of the camera pose supplied with the frame.
    View,
    /// A sampler reading from the given texture unit.
    Sampler(u32),
    /// A translation to the origin of grid cell (x, y), that is to world
    /// position (x * CELL_SIZE, y * CELL_SIZE, 0).
    CellOrigin { x: usize, y: usize },
}

/// One operation on the graphics context.
#[derive(Clone, Copy, Debug, PartialEq, Eq, Structural)]
pub enum GlCommand {
    Activate(BindTarget),
    Deactivate(BindTarget),
    /// Upload a value to a uniform location that the program declares.
    Upload { location: i32, value: UniformValue },
    /// Make the given texture unit the active one.
    SelectTextureUnit(u32),
    /// Indexed triangle draw of the bound vertex array.
    DrawElements { count: u32 },
}

/// The commands for uploading `value` to `location`: nothing when the
/// location is negative, the sentinel for a uniform the program lacks.
pub open spec fn upload_commands(location: i32, value: UniformValue) -> Seq<GlCommand> {
    if location < 0 {
        seq![]
    } else {
        seq![GlCommand::Upload { location, value }]
    }
}

/// Records commands in order, and tracks which guards are open.
pub struct CommandQueue {
    commands: Vec<GlCommand>,
    open: Ghost<Seq<BindTarget>>,
}

impl View for CommandQueue {
    type V = Seq<GlCommand>;

    closed spec fn view(&self) -> Seq<GlCommand> {
        self.commands@
    }
}

impl CommandQueue {
    /// The targets of the guards that are open, innermost last.
    pub closed spec fn open_binds(&self) -> Seq<BindTarget> {
        self.open@
    }

    pub fn new() -> (r: CommandQueue)
        ensures
            r@ == Seq::<GlCommand>::empty(),
            r.open_binds() == Seq::<BindTarget>::empty(),
    {
        CommandQueue { commands: Vec::new(), open: Ghost(Seq::empty()) }
    }

    /// The commands recorded so far.
    pub fn commands(&self) -> (r: &Vec<GlCommand>)
        ensures
            r@ == self@,
    {
        &self.commands
    }

    pub fn into_commands(self) -> (r: Vec<GlCommand>)
        ensures
            r@ == self@,
    {
        self.commands
    }

    /// Uploads `value` to `location`; a negative location, which the
    /// program reports for a uniform it does not declare, records nothing.
    pub fn upload(&mut self, location: i32, value: UniformValue)
        ensures
            final(self)@ == old(self)@ + upload_commands(location, value),
            final(self).open_binds() == old(self).open_binds(),
    {
        if location >= 0 {
            self.commands.push(GlCommand::Upload { location, value });
        }
    }

    pub fn select_texture_unit(&mut self, unit: u32)
        ensures
            final(self)@ == old(self)@.push(GlCommand::SelectTextureUnit(unit)),
            final(self).open_binds() == old(self).open_binds(),
    {
        self.commands.push(GlCommand::SelectTextureUnit(unit));
    }

    pub fn draw_elements(&mut self, count: u32)
        ensures
            final(self)@ == old(self)@.push(GlCommand::DrawElements { count }),
            final(self).open_binds() == old(self).open_binds(),
    {
        self.commands.push(GlCommand::DrawElements { count });
    }
}

/// A resource that can be made current in the graphics context.
pub trait GlBindable {
    spec fn target(&self) -> BindTarget;

    fn bind_target(&self) -> (r: BindTarget)
        ensures
            r == self.target(),
    ;
}

/// A scoped binding: the object is activated when the guard is acquired and
/// deactivated when it is released. Guards nest; the innermost one must be
/// released first.
///
/// Release is an explicit call that consumes the guard, so it happens at
/// most once. That it happens at all is checked through the queue's open
/// binds: a function that ends with `open_binds()` as it found them has
/// released every guard it acquired, on each of its exit paths. Verified
/// code does not unwind, so those paths are its returns. The world
/// renderer's contract states exactly that.
pub struct Bind<'a, T: GlBindable> {
    object: &'a T,
    depth: Ghost<nat>,
}

impl<'a, T: GlBindable> Bind<'a, T> {
    pub closed spec fn object(&self) -> &'a T {
        self.object
    }

    /// The number of guards that were open when this one was acquired.
    pub closed spec fn depth(&self) -> nat {
        self.depth@
    }

    /// Activates `object` and returns the guard that will deactivate it.
    pub fn new(queue: &mut CommandQueue, object: &'a T) -> (r: Self)
        ensures
            final(queue)@ == old(queue)@.push(GlCommand::Activate(object.target())),
            final(queue).open_binds() == old(queue).open_binds().push(object.target()),
            r.object() == object,
            r.depth() == old(queue).open_binds().len(),
    {
        let target = object.bind_target();
        queue.commands.push(GlCommand::Activate(target));
        let ghost depth = queue.open@.len();
        queue.open = Ghost(queue.open@.push(target));
        Bind { object, depth: Ghost(depth) }
    }

    /// Deactivates the guarded object. Only the innermost open guard can be
    /// released, and releasing consumes it, so each activation is undone
    /// exactly once and in reverse order.
    pub fn release(self, queue: &mut CommandQueue)
        requires
            old(queue).open_binds().len() == self.depth() + 1,
        ensures
            final(queue)@ == old(queue)@.push(GlCommand::Deactivate(self.object().target())),
            final(queue).open_binds() == old(queue).open_binds().drop_last(),
    {
        let target = self.object.bind_target();
        queue.commands.push(GlCommand::Deactivate(target));
        queue.open = Ghost(queue.open@.drop_last());
    }
}

} // verus!
