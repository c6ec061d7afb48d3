//! The world renderer: turns the dungeon grid into the frame's command plan,
//! and the engine facade that owns it.
use vstd::prelude::*;
use crate::commands::{
    upload_commands, Bind, CommandQueue, GlBindable, GlCommand, UniformValue,
};
use crate::geometry::{
    GlTexture, GlVertexArray, A_POSITION, A_TEX_COORD, FLOOR_INDEX_COUNT, WALL_INDEX_COUNT,
};
use crate::grid::{DungeonCell, DungeonFloor};
use crate::registry::{
    element_registry, element_slots, model_registry, model_slots, ElementRegistry, ModelRegistry,
};
use crate::shader::{GlShaderProgram, Uniforms};

verus! {

/// Side length of one grid cell in world units.
pub const CELL_SIZE: u32 = 2;

/// Viewport resolution uploaded each frame.
pub const RESOLUTION_WIDTH: u32 = 800;

pub const RESOLUTION_HEIGHT: u32 = 600;

/// The texture unit the world textures are sampled from.
pub const TEXTURE_UNIT: u32 = 0;

/// The GPU resources of the world: one program, and a vertex array and a
/// texture for each kind of drawn cell.
pub struct DungeonGraphics {
    pub wall_texture: GlTexture,
    pub floor_texture: GlTexture,
    pub shader_program: GlShaderProgram,
    pub uniforms: Uniforms,
    pub a_position: u32,
    pub a_tex_coord: u32,
    pub wall_vertex_array: GlVertexArray,
    pub floor_vertex_array: GlVertexArray,
}

/// Binds a vertex array and a texture, draws all of the array's indices,
/// and unbinds both, innermost first.
pub open spec fn draw_commands(vertex_array: GlVertexArray, texture: GlTexture) -> Seq<GlCommand> {
    seq![
        GlCommand::Activate(vertex_array.target()),
        GlCommand::Activate(texture.target()),
        GlCommand::DrawElements { count: vertex_array.spec_index_count() },
        GlCommand::Deactivate(texture.target()),
        GlCommand::Deactivate(vertex_array.target()),
    ]
}

/// The commands for cell (x, y): its model translation, then the draw of
/// its geometry if it has any.
pub open spec fn cell_commands(g: &DungeonGraphics, world: &DungeonFloor, x: int, y: int) -> Seq<
    GlCommand,
> {
    upload_commands(g.uniforms.u_model_matrix, UniformValue::CellOrigin { x: x as usize, y: y as usize })
        + match world.cell(x, y) {
        DungeonCell::Floor => draw_commands(g.floor_vertex_array, g.floor_texture),
        DungeonCell::Wall => draw_commands(g.wall_vertex_array, g.wall_texture),
        _ => Seq::empty(),
    }
}

/// The commands for cells (0, y) through (n - 1, y) of row y.
pub open spec fn row_commands(g: &DungeonGraphics, world: &DungeonFloor, y: int, n: int) -> Seq<
    GlCommand,
>
    decreases n,
{
    if n <= 0 {
        Seq::empty()
    } else {
        row_commands(g, world, y, n - 1) + cell_commands(g, world, n - 1, y)
    }
}

/// The commands for the full rows 0 through m - 1: the cells in row-major
/// order, which is the order they are stored in.
pub open spec fn grid_commands(g: &DungeonGraphics, world: &DungeonFloor, m: int) -> Seq<
    GlCommand,
>
    decreases m,
{
    if m <= 0 {
        Seq::empty()
    } else {
        grid_commands(g, world, m - 1) + row_commands(g, world, m - 1, world.width as int)
    }
}

/// Binds the program and uploads the per-frame uniforms.
pub open spec fn frame_prelude(g: &DungeonGraphics) -> Seq<GlCommand> {
    seq![GlCommand::Activate(g.shader_program.target())]
        + upload_commands(
        g.uniforms.u_resolution,
        UniformValue::Resolution { width: RESOLUTION_WIDTH, height: RESOLUTION_HEIGHT },
    ) + upload_commands(g.uniforms.u_projection_matrix, UniformValue::Projection)
        + upload_commands(g.uniforms.u_view_matrix, UniformValue::View)
        + upload_commands(g.uniforms.u_texture0, UniformValue::Sampler(TEXTURE_UNIT))
        + seq![GlCommand::SelectTextureUnit(TEXTURE_UNIT)]
}

/// The whole frame: prelude, every cell row by row, then the program is
/// unbound.
pub open spec fn frame_commands(g: &DungeonGraphics, world: &DungeonFloor) -> Seq<GlCommand> {
    frame_prelude(g) + grid_commands(g, world, world.height as int) + seq![
        GlCommand::Deactivate(g.shader_program.target()),
    ]
}

impl DungeonGraphics {
    /// The vertex arrays hold the world meshes: the wall prism's and the
    /// floor quad's indices.
    pub open spec fn wf(&self) -> bool {
        self.wall_vertex_array.spec_index_count() == WALL_INDEX_COUNT
            && self.floor_vertex_array.spec_index_count() == FLOOR_INDEX_COUNT
    }

    /// Assembles the world resources; the attribute slots are the engine's
    /// position and texture-coordinate slots.
    pub fn new(
        shader_program: GlShaderProgram,
        uniforms: Uniforms,
        wall_vertex_array: GlVertexArray,
        floor_vertex_array: GlVertexArray,
        wall_texture: GlTexture,
        floor_texture: GlTexture,
    ) -> (r: DungeonGraphics)
        requires
            wall_vertex_array.spec_index_count() == WALL_INDEX_COUNT,
            floor_vertex_array.spec_index_count() == FLOOR_INDEX_COUNT,
        ensures
            r.wf(),
            r.shader_program == shader_program,
            r.uniforms == uniforms,
            r.wall_vertex_array == wall_vertex_array,
            r.floor_vertex_array == floor_vertex_array,
            r.wall_texture == wall_texture,
            r.floor_texture == floor_texture,
            r.a_position == A_POSITION,
            r.a_tex_coord == A_TEX_COORD,
    {
        DungeonGraphics {
            wall_texture,
            floor_texture,
            shader_program,
            uniforms,
            a_position: A_POSITION,
            a_tex_coord: A_TEX_COORD,
            wall_vertex_array,
            floor_vertex_array,
        }
    }

    fn render_cell(&self, world: &DungeonFloor, x: usize, y: usize, queue: &mut CommandQueue)
        requires
            world.wf(),
            world.in_bounds(x as int, y as int),
        ensures
            final(queue)@ == old(queue)@ + cell_commands(self, world, x as int, y as int),
            final(queue).open_binds() == old(queue).open_binds(),
    {
        queue.upload(self.uniforms.u_model_matrix, UniformValue::CellOrigin { x, y });
        match world.get(x, y) {
            DungeonCell::Floor => {
                self.draw(&self.floor_vertex_array, &self.floor_texture, queue);
            },
            DungeonCell::Wall => {
                self.draw(&self.wall_vertex_array, &self.wall_texture, queue);
            },
            _ => {},
        }
        assert(queue@ =~= old(queue)@ + cell_commands(self, world, x as int, y as int));
    }

    fn draw(&self, vertex_array: &GlVertexArray, texture: &GlTexture, queue: &mut CommandQueue)
        ensures
            final(queue)@ == old(queue)@ + draw_commands(*vertex_array, *texture),
            final(queue).open_binds() == old(queue).open_binds(),
    {
        let vertex_bind = Bind::new(queue, vertex_array);
        let texture_bind = Bind::new(queue, texture);
        queue.draw_elements(vertex_array.index_count());
        texture_bind.release(queue);
        vertex_bind.release(queue);
        assert(queue@ =~= old(queue)@ + draw_commands(*vertex_array, *texture));
        assert(queue.open_binds() =~= old(queue).open_binds());
    }

    /// Records one frame of the world: the program is bound for the whole
    /// frame, every cell, row by row, gets its model translation, and each Floor or Wall
    /// cell one draw between its geometry and texture binds. Every bind is
    /// undone by the end.
    pub fn render_world(&self, world: &DungeonFloor, queue: &mut CommandQueue)
        requires
            world.wf(),
        ensures
            final(queue)@ == old(queue)@ + frame_commands(self, world),
            final(queue).open_binds() == old(queue).open_binds(),
    {
        let program_bind = Bind::new(queue, &self.shader_program);
        queue.upload(
            self.uniforms.u_resolution,
            UniformValue::Resolution { width: RESOLUTION_WIDTH, height: RESOLUTION_HEIGHT },
        );
        queue.upload(self.uniforms.u_projection_matrix, UniformValue::Projection);
        queue.upload(self.uniforms.u_view_matrix, UniformValue::View);
        queue.upload(self.uniforms.u_texture0, UniformValue::Sampler(TEXTURE_UNIT));
        queue.select_texture_unit(TEXTURE_UNIT);
        let ghost start = queue@;
        let ghost inner = queue.open_binds();
        assert(start =~= old(queue)@ + frame_prelude(self));
        let h = world.height;
        let mut y: usize = 0;
        while y < h
            invariant
                world.wf(),
                h == world.height,
                0 <= y <= h,
                queue@ == start + grid_commands(self, world, y as int),
                queue.open_binds() == inner,
                inner.len() == program_bind.depth() + 1,
            decreases h - y,
        {
            let mut x: usize = 0;
            while x < world.width
                invariant
                    world.wf(),
                    h == world.height,
                    0 <= y < h,
                    0 <= x <= world.width,
                    queue@ == start + grid_commands(self, world, y as int) + row_commands(
                        self,
                        world,
                        y as int,
                        x as int,
                    ),
                    queue.open_binds() == inner,
                decreases world.width - x,
            {
                self.render_cell(world, x, y, queue);
                assert(queue@ =~= start + grid_commands(self, world, y as int) + row_commands(
                    self,
                    world,
                    y as int,
                    x + 1,
                ));
                x = x + 1;
            }
            assert(queue@ =~= start + grid_commands(self, world, y + 1));
            y = y + 1;
        }
        program_bind.release(queue);
        assert(queue@ =~= old(queue)@ + frame_commands(self, world));
    }
}

/// Initial room in each registry.
pub const REGISTRY_CAPACITY: usize = 16;

/// The rendering facade: owns the world resources, produces each frame's
/// command plan, and keeps registries of models and placed elements for
/// objects other than the grid.
pub struct GlEngine {
    pub world_graphics: DungeonGraphics,
    pub models: ModelRegistry,
    pub render_elements: ElementRegistry,
}

impl GlEngine {
    /// An engine drawing with `world_graphics`, with empty registries.
    pub fn new(world_graphics: DungeonGraphics) -> (r: GlEngine)
        ensures
            r.world_graphics == world_graphics,
            model_slots(r.models).dom() == Set::<u64>::empty(),
            element_slots(r.render_elements).dom() == Set::<u64>::empty(),
    {
        GlEngine {
            world_graphics,
            models: model_registry(REGISTRY_CAPACITY),
            render_elements: element_registry(REGISTRY_CAPACITY),
        }
    }

    /// The commands that draw `world` for one frame.
    pub fn render(&self, world: &DungeonFloor) -> (r: Vec<GlCommand>)
        requires
            world.wf(),
        ensures
            r@ == frame_commands(&self.world_graphics, world),
    {
        let mut queue = CommandQueue::new();
        self.world_graphics.render_world(world, &mut queue);
        assert(queue@ =~= frame_commands(&self.world_graphics, world));
        queue.into_commands()
    }
}

} // verus!
