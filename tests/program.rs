use totw_render::commands::{BindTarget, GlCommand};
use totw_render::geometry::{GlTexture, GlVertexArray, A_POSITION, A_TEX_COORD};
use totw_render::grid::experimental_map;
use totw_render::shader::{
    world_attrib_bindings, BuildOutcome, GlShader, GlShaderProgram, LinkStep, ShaderStage, Uniforms,
};
use totw_render::world::{DungeonGraphics, GlEngine};

fn shader(stage: ShaderStage, handle: u32) -> GlShader {
    match GlShader::from_compile_status(stage, handle, 1) {
        BuildOutcome::Ready(s) => s,
        other => panic!("unexpected {:?}", other),
    }
}

#[test]
fn link_plan_attaches_binds_then_links() {
    let shaders = vec![shader(ShaderStage::Vertex, 3), shader(ShaderStage::Fragment, 4)];
    let bindings = world_attrib_bindings();
    assert_eq!(bindings, vec![(A_POSITION, "a_position\0"), (A_TEX_COORD, "a_tex_coord\0")]);
    assert_eq!(
        GlShaderProgram::link_steps(9, &shaders, &bindings),
        vec![
            LinkStep::Attach { program: 9, shader: 3 },
            LinkStep::Attach { program: 9, shader: 4 },
            LinkStep::BindAttribLocation { program: 9, slot: 0, binding: 0 },
            LinkStep::BindAttribLocation { program: 9, slot: 1, binding: 1 },
            LinkStep::Link { program: 9 },
        ]
    );
    let program = match GlShaderProgram::from_link_status(9, 1) {
        BuildOutcome::Ready(p) => p,
        other => panic!("unexpected {:?}", other),
    };
    assert_eq!(
        program.detach_steps(&shaders),
        vec![
            LinkStep::Detach { program: 9, shader: 3 },
            LinkStep::Detach { program: 9, shader: 4 },
        ]
    );
}

#[test]
fn link_plan_without_shaders_or_bindings() {
    assert_eq!(GlShaderProgram::link_steps(2, &[], &[]), vec![LinkStep::Link { program: 2 }]);
}

#[test]
fn frame_binds_are_nested() {
    let program = match GlShaderProgram::from_link_status(5, 1) {
        BuildOutcome::Ready(p) => p,
        other => panic!("unexpected {:?}", other),
    };
    let u = Uniforms {
        u_model_matrix: 0,
        u_view_matrix: -1,
        u_projection_matrix: 1,
        u_resolution: -1,
        u_texture0: 2,
        u_texture1: -1,
    };
    let engine = GlEngine::new(DungeonGraphics::new(
        program,
        u,
        GlVertexArray::from_handles(6, 7, 8, 24),
        GlVertexArray::from_handles(9, 10, 11, 6),
        GlTexture { id: 0 },
        GlTexture { id: 1 },
    ));
    let cmds = engine.render(&experimental_map());
    let mut open: Vec<BindTarget> = Vec::new();
    let mut activations = 0;
    for c in &cmds {
        match c {
            GlCommand::Activate(t) => {
                open.push(*t);
                activations += 1;
            }
            GlCommand::Deactivate(t) => assert_eq!(open.pop(), Some(*t)),
            GlCommand::Upload { location, .. } => assert!(*location >= 0),
            _ => {}
        }
    }
    assert!(open.is_empty());
    // The program, then two binds per drawn cell.
    let drawn = cmds.iter().filter(|c| matches!(c, GlCommand::DrawElements { .. })).count();
    assert_eq!(activations, 1 + 2 * drawn);
}
