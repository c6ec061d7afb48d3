use totw_render::commands::{Bind, BindTarget, CommandQueue, GlCommand, UniformValue};
use totw_render::geometry::{
    floor_mesh, wall_mesh, AttribPointer, GlTexture, GlVertexArray, LayoutError, VertexLayout,
    A_POSITION, A_TEX_COORD,
};
use totw_render::shader::{
    shader_stage, starts_with, BuildOutcome, GlShader, GlShaderProgram, ProgramAttribs,
    ShaderError, ShaderStage,
};

#[test]
fn layout_offsets_follow_declaration_order() {
    let l = VertexLayout::from_attributes(20, &[(0, 3), (1, 2)]);
    assert_eq!(l.stride, 5);
    assert_eq!(
        l.pointers,
        vec![
            AttribPointer { slot: 0, size: 3, offset: 0 },
            AttribPointer { slot: 1, size: 2, offset: 3 },
        ]
    );
}

#[test]
fn layout_refuses_partial_records() {
    assert_eq!(
        VertexLayout::check(21, &[(0, 3), (1, 2)]).unwrap_err(),
        LayoutError::Misaligned { len: 21, stride: 5 }
    );
}

#[test]
fn layout_refuses_empty_stride() {
    assert_eq!(VertexLayout::check(0, &[]).unwrap_err(), LayoutError::EmptyStride);
    assert_eq!(VertexLayout::check(4, &[(2, 0)]).unwrap_err(), LayoutError::EmptyStride);
}

#[test]
fn layout_of_empty_data_is_fine() {
    assert_eq!(VertexLayout::check(0, &[(4, 4)]), Ok(4));
    assert_eq!(VertexLayout::check(20, &[(0, 3), (1, 2)]), Ok(5));
    let l = VertexLayout::from_attributes(0, &[(4, 4)]);
    assert_eq!(l.stride, 4);
    assert_eq!(l.pointers, vec![AttribPointer { slot: 4, size: 4, offset: 0 }]);
}

#[test]
fn meshes_fit_their_layout() {
    for (mesh, verts, idx) in [(floor_mesh(), 4, 6), (wall_mesh(), 10, 24)] {
        assert_eq!(mesh.attributes, vec![(A_POSITION, 3), (A_TEX_COORD, 2)]);
        assert!(VertexLayout::check(mesh.vertices.len(), &mesh.attributes).is_ok());
        let l = VertexLayout::from_attributes(mesh.vertices.len(), &mesh.attributes);
        assert_eq!(mesh.vertices.len() / l.stride, verts);
        assert_eq!(mesh.indices.len(), idx);
        assert!(mesh.indices.iter().all(|&i| (i as usize) < verts));
    }
}

#[test]
fn shader_header_selects_stage() {
    assert_eq!(
        shader_stage(b"///totw vertex_shader\nvoid main() {}"),
        Ok(ShaderStage::Vertex)
    );
    assert_eq!(shader_stage(b"///totw fragment_shader\n"), Ok(ShaderStage::Fragment));
}

#[test]
fn shader_without_marker_is_unrecognized() {
    let r = shader_stage(b"#version 330\nvoid main() {}");
    assert_eq!(r, Err(ShaderError::UnrecognizedType));
    assert_eq!(r.unwrap_err().message(), "Unrecognized shader type.");
    assert_eq!(shader_stage(b""), Err(ShaderError::UnrecognizedType));
    assert_eq!(shader_stage(b"///totw vertex"), Err(ShaderError::UnrecognizedType));
}

#[test]
fn prefix_check() {
    assert!(starts_with(b"abc", b"ab"));
    assert!(starts_with(b"abc", b""));
    assert!(!starts_with(b"ab", b"abc"));
    assert!(!starts_with(b"abc", b"ac"));
}

#[test]
fn compile_status_decides_ownership() {
    assert!(matches!(GlShader::from_compile_status(ShaderStage::Vertex, 0, 1), BuildOutcome::NotCreated));
    assert!(matches!(GlShader::from_compile_status(ShaderStage::Vertex, 7, 0), BuildOutcome::Failed(7)));
    match GlShader::from_compile_status(ShaderStage::Fragment, 7, 1) {
        BuildOutcome::Ready(s) => {
            assert_eq!(s.handle(), 7);
            assert_eq!(s.stage(), ShaderStage::Fragment);
        }
        other => panic!("unexpected {:?}", other),
    }
}

#[test]
fn link_with_two_shaders_succeeds() {
    let shaders: Vec<u32> = [ShaderStage::Vertex, ShaderStage::Fragment]
        .iter()
        .zip([3u32, 4])
        .map(|(st, h)| match GlShader::from_compile_status(*st, h, 1) {
            BuildOutcome::Ready(s) => s.handle(),
            other => panic!("unexpected {:?}", other),
        })
        .collect();
    assert_eq!(shaders, vec![3, 4]);
    match GlShaderProgram::from_link_status(9, 1) {
        BuildOutcome::Ready(p) => assert_eq!(p.handle(), 9),
        other => panic!("unexpected {:?}", other),
    }
    assert!(matches!(GlShaderProgram::from_link_status(9, 0), BuildOutcome::Failed(9)));
    assert!(matches!(GlShaderProgram::from_link_status(0, 1), BuildOutcome::NotCreated));
}

#[test]
fn detach_releases_once() {
    let mut s = match GlShader::from_compile_status(ShaderStage::Vertex, 5, 1) {
        BuildOutcome::Ready(s) => s,
        other => panic!("unexpected {:?}", other),
    };
    assert_eq!(s.detach(), 5);
    assert_eq!(s.detach(), 0);
    let mut p = match GlShaderProgram::from_link_status(8, 1) {
        BuildOutcome::Ready(p) => p,
        other => panic!("unexpected {:?}", other),
    };
    assert_eq!(p.detach(), 8);
    assert_eq!(p.detach(), 0);
    let mut va = GlVertexArray::from_handles(2, 3, 4, 6);
    assert_eq!(va.detach(), Some((2, 3, 4)));
    assert_eq!(va.detach(), None);
    assert_eq!(va.index_count(), 6);
}

#[test]
fn attribute_slots() {
    assert_eq!(u32::from(ProgramAttribs::Position), 0);
    assert_eq!(u32::from(ProgramAttribs::Normal), 1);
    assert_eq!(ProgramAttribs::Color.slot(), 2);
    assert_eq!(ProgramAttribs::TexCoord0.slot(), 3);
    assert_eq!(ProgramAttribs::TexCoord1.slot(), 4);
}

#[test]
fn nested_guards_unbind_in_reverse_order() {
    let va = GlVertexArray::from_handles(2, 3, 4, 6);
    let tex = GlTexture { id: 1 };
    let mut q = CommandQueue::new();
    let outer = Bind::new(&mut q, &va);
    let inner = Bind::new(&mut q, &tex);
    q.draw_elements(6);
    inner.release(&mut q);
    outer.release(&mut q);
    assert_eq!(
        q.into_commands(),
        vec![
            GlCommand::Activate(BindTarget::VertexArray(2)),
            GlCommand::Activate(BindTarget::Texture(1)),
            GlCommand::DrawElements { count: 6 },
            GlCommand::Deactivate(BindTarget::Texture(1)),
            GlCommand::Deactivate(BindTarget::VertexArray(2)),
        ]
    );
}

#[test]
fn upload_to_missing_uniform_is_skipped() {
    let mut q = CommandQueue::new();
    q.upload(-1, UniformValue::View);
    assert!(q.commands().is_empty());
    q.upload(0, UniformValue::View);
    assert_eq!(q.commands(), &vec![GlCommand::Upload { location: 0, value: UniformValue::View }]);
}

#[test]
fn mesh_data() {
    let f = floor_mesh();
    assert_eq!(f.indices, vec![0, 1, 2, 0, 2, 3]);
    assert_eq!(&f.vertices[5..10], &[2, 0, 0, 1, 0]);
    let w = wall_mesh();
    assert_eq!(&w.indices[..6], &[0, 1, 2, 0, 2, 3]);
    assert_eq!(&w.indices[18..], &[6, 8, 9, 6, 9, 7]);
    assert_eq!(&w.vertices[45..], &[0, 0, 2, 4, 1]);
}

#[test]
fn released_vertex_array_stays_released() {
    let mut va = GlVertexArray::from_handles(0, 5, 6, 24);
    assert_eq!(va.detach(), None);
    assert_eq!(va.handle(), 0);
}
