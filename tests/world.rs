use totw_render::commands::{BindTarget, GlCommand, UniformValue};
use totw_render::geometry::{floor_mesh, wall_mesh, GlTexture, GlVertexArray};
use totw_render::grid::{experimental_map, DungeonCell, DungeonFloor};
use totw_render::shader::{BuildOutcome, GlShaderProgram, Uniforms};
use totw_render::world::{DungeonGraphics, GlEngine, CELL_SIZE};

const PROGRAM: u32 = 11;
const WALL_VA: u32 = 21;
const FLOOR_VA: u32 = 22;
const WALL_TEX: u32 = 1;
const FLOOR_TEX: u32 = 2;

fn uniforms() -> Uniforms {
    Uniforms {
        u_model_matrix: 0,
        u_view_matrix: 1,
        u_projection_matrix: 2,
        u_resolution: 3,
        u_texture0: 4,
        u_texture1: -1,
    }
}

fn engine(u: Uniforms) -> GlEngine {
    let program = match GlShaderProgram::from_link_status(PROGRAM, 1) {
        BuildOutcome::Ready(p) => p,
        other => panic!("unexpected {:?}", other),
    };
    let wall = GlVertexArray::from_handles(WALL_VA, 31, 41, wall_mesh().indices.len() as u32);
    let floor = GlVertexArray::from_handles(FLOOR_VA, 32, 42, floor_mesh().indices.len() as u32);
    GlEngine::new(DungeonGraphics::new(
        program,
        u,
        wall,
        floor,
        GlTexture { id: WALL_TEX },
        GlTexture { id: FLOOR_TEX },
    ))
}

fn draws(cmds: &[GlCommand]) -> Vec<(usize, u32)> {
    cmds.iter()
        .enumerate()
        .filter_map(|(i, c)| match c {
            GlCommand::DrawElements { count } => Some((i, *count)),
            _ => None,
        })
        .collect()
}

#[test]
fn single_floor_cell_draws_the_floor_quad() {
    let world = DungeonFloor { width: 1, height: 1, cells: vec![DungeonCell::Floor] };
    let cmds = engine(uniforms()).render(&world);
    let d = draws(&cmds);
    assert_eq!(d.len(), 1);
    let (i, count) = d[0];
    assert_eq!(count, 6);
    assert_eq!(cmds[i - 2], GlCommand::Activate(BindTarget::VertexArray(FLOOR_VA)));
    assert_eq!(cmds[i - 1], GlCommand::Activate(BindTarget::Texture(FLOOR_TEX)));
    assert_eq!(cmds[i + 1], GlCommand::Deactivate(BindTarget::Texture(FLOOR_TEX)));
    assert_eq!(cmds[i + 2], GlCommand::Deactivate(BindTarget::VertexArray(FLOOR_VA)));
}

#[test]
fn wall_then_empty_draws_one_wall_at_origin() {
    let world = DungeonFloor {
        width: 2,
        height: 1,
        cells: vec![DungeonCell::Wall, DungeonCell::Empty],
    };
    let cmds = engine(uniforms()).render(&world);
    let d = draws(&cmds);
    assert_eq!(d.len(), 1);
    let (i, count) = d[0];
    assert_eq!(count, 24);
    assert_eq!(cmds[i - 2], GlCommand::Activate(BindTarget::VertexArray(WALL_VA)));
    assert_eq!(cmds[i - 1], GlCommand::Activate(BindTarget::Texture(WALL_TEX)));
    assert_eq!(
        cmds[i - 3],
        GlCommand::Upload { location: 0, value: UniformValue::CellOrigin { x: 0, y: 0 } }
    );
    assert_eq!(CELL_SIZE, 2);
    // The empty cell still gets its translation, and nothing else.
    let n = cmds.len();
    assert_eq!(
        cmds[n - 2],
        GlCommand::Upload { location: 0, value: UniformValue::CellOrigin { x: 1, y: 0 } }
    );
    assert_eq!(cmds[n - 1], GlCommand::Deactivate(BindTarget::Program(PROGRAM)));
}

#[test]
fn whole_frame_for_a_floor_cell() {
    let world = DungeonFloor { width: 1, height: 1, cells: vec![DungeonCell::Floor] };
    let cmds = engine(uniforms()).render(&world);
    assert_eq!(
        cmds,
        vec![
            GlCommand::Activate(BindTarget::Program(PROGRAM)),
            GlCommand::Upload {
                location: 3,
                value: UniformValue::Resolution { width: 800, height: 600 },
            },
            GlCommand::Upload { location: 2, value: UniformValue::Projection },
            GlCommand::Upload { location: 1, value: UniformValue::View },
            GlCommand::Upload { location: 4, value: UniformValue::Sampler(0) },
            GlCommand::SelectTextureUnit(0),
            GlCommand::Upload { location: 0, value: UniformValue::CellOrigin { x: 0, y: 0 } },
            GlCommand::Activate(BindTarget::VertexArray(FLOOR_VA)),
            GlCommand::Activate(BindTarget::Texture(FLOOR_TEX)),
            GlCommand::DrawElements { count: 6 },
            GlCommand::Deactivate(BindTarget::Texture(FLOOR_TEX)),
            GlCommand::Deactivate(BindTarget::VertexArray(FLOOR_VA)),
            GlCommand::Deactivate(BindTarget::Program(PROGRAM)),
        ]
    );
}

#[test]
fn undeclared_uniforms_get_no_upload() {
    let mut u = uniforms();
    u.u_view_matrix = -1;
    u.u_model_matrix = -1;
    let world = DungeonFloor { width: 1, height: 1, cells: vec![DungeonCell::Wall] };
    let cmds = engine(u).render(&world);
    assert!(!cmds.iter().any(|c| matches!(c, GlCommand::Upload { location: -1, .. })));
    assert!(!cmds.iter().any(|c| matches!(c, GlCommand::Upload { value: UniformValue::View, .. })));
    assert_eq!(draws(&cmds).len(), 1);
}

#[test]
fn draw_count_matches_floor_and_wall_cells() {
    let world = experimental_map();
    let cmds = engine(uniforms()).render(&world);
    let drawn = world
        .cells
        .iter()
        .filter(|c| matches!(c, DungeonCell::Floor | DungeonCell::Wall))
        .count();
    assert_eq!(draws(&cmds).len(), drawn);
    let uploads = cmds
        .iter()
        .filter(|c| matches!(c, GlCommand::Upload { value: UniformValue::CellOrigin { .. }, .. }))
        .count();
    assert_eq!(uploads, 100);
}

#[test]
fn doors_and_empty_cells_are_not_drawn() {
    let world = DungeonFloor {
        width: 3,
        height: 1,
        cells: vec![DungeonCell::Door, DungeonCell::OpenDoor, DungeonCell::Empty],
    };
    let cmds = engine(uniforms()).render(&world);
    assert!(draws(&cmds).is_empty());
}

#[test]
fn empty_grid_binds_and_unbinds_the_program() {
    let world = DungeonFloor { width: 0, height: 5, cells: vec![] };
    let cmds = engine(uniforms()).render(&world);
    assert_eq!(cmds.first(), Some(&GlCommand::Activate(BindTarget::Program(PROGRAM))));
    assert_eq!(cmds.last(), Some(&GlCommand::Deactivate(BindTarget::Program(PROGRAM))));
    assert_eq!(cmds.len(), 7);
}

#[test]
fn cells_are_visited_row_by_row() {
    let world = DungeonFloor {
        width: 2,
        height: 2,
        cells: vec![DungeonCell::Empty; 4],
    };
    let cmds = engine(uniforms()).render(&world);
    let origins: Vec<(usize, usize)> = cmds
        .iter()
        .filter_map(|c| match c {
            GlCommand::Upload { value: UniformValue::CellOrigin { x, y }, .. } => Some((*x, *y)),
            _ => None,
        })
        .collect();
    assert_eq!(origins, vec![(0, 0), (1, 0), (0, 1), (1, 1)]);
}

#[test]
fn test_level_draws_each_floor_and_wall_once() {
    let world = experimental_map();
    let count = |k: DungeonCell| world.cells.iter().filter(|c| **c == k).count();
    assert_eq!(count(DungeonCell::Floor), 39);
    assert_eq!(count(DungeonCell::Wall), 37);
    assert_eq!(count(DungeonCell::Empty), 24);
    let cmds = engine(uniforms()).render(&world);
    let d = draws(&cmds);
    assert_eq!(d.len(), 76);
    assert_eq!(d.iter().filter(|(_, n)| *n == 6).count(), 39);
    assert_eq!(d.iter().filter(|(_, n)| *n == 24).count(), 37);
}

#[test]
fn missing_uniforms_leave_binds_and_draws_unchanged() {
    let world = experimental_map();
    let all = engine(uniforms()).render(&world);
    let none = engine(Uniforms {
        u_model_matrix: -1,
        u_view_matrix: -1,
        u_projection_matrix: -1,
        u_resolution: -1,
        u_texture0: -1,
        u_texture1: -1,
    })
    .render(&world);
    assert!(!none.iter().any(|c| matches!(c, GlCommand::Upload { .. })));
    let strip = |v: &Vec<GlCommand>| -> Vec<GlCommand> {
        v.iter().filter(|c| !matches!(c, GlCommand::Upload { .. })).cloned().collect()
    };
    assert_eq!(strip(&all), none);
}
