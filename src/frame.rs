//! What holds of every frame plan: one draw per drawn cell with that cell's
//! geometry, each right after its bind pair; properly nested binds; no
//! upload to an undeclared uniform; and binds and draws that do not depend
//! on the uniform locations.
use vstd::prelude::*;
use crate::commands::{upload_commands, BindTarget, GlBindable, GlCommand, UniformValue};
use crate::geometry::{GlTexture, GlVertexArray, FLOOR_INDEX_COUNT, WALL_INDEX_COUNT};
use crate::grid::{DungeonCell, DungeonFloor};
use crate::world::{
    cell_commands, draw_commands, frame_commands, frame_prelude, grid_commands, row_commands,
    DungeonGraphics, RESOLUTION_HEIGHT, RESOLUTION_WIDTH, TEXTURE_UNIT,
};

verus! {

/// The number of draw commands in `s` whose index count satisfies `p`.
pub open spec fn draws_where(s: Seq<GlCommand>, p: spec_fn(u32) -> bool) -> nat
    decreases s.len(),
{
    if s.len() == 0 {
        0
    } else {
        draws_where(s.drop_last(), p) + if s.last() is DrawElements && p(
            s.last()->DrawElements_count,
        ) {
            1nat
        } else {
            0nat
        }
    }
}

/// The number of cells of kind `k` in `cells`.
pub open spec fn count_cells(cells: Seq<DungeonCell>, k: DungeonCell) -> nat
    decreases cells.len(),
{
    if cells.len() == 0 {
        0
    } else {
        count_cells(cells.drop_last(), k) + if cells.last() == k {
            1nat
        } else {
            0nat
        }
    }
}

/// The number of Floor and Wall cells of the grid.
pub open spec fn drawn_cells(world: &DungeonFloor) -> nat {
    count_cells(world.cells@, DungeonCell::Floor) + count_cells(world.cells@, DungeonCell::Wall)
}

/// Draws of `cells` whose sizes satisfy `p`, when a floor draw has
/// `floor_count` indices and a wall draw `wall_count`.
pub open spec fn expected_draws(
    cells: Seq<DungeonCell>,
    p: spec_fn(u32) -> bool,
    floor_count: u32,
    wall_count: u32,
) -> nat {
    (if p(floor_count) {
        count_cells(cells, DungeonCell::Floor)
    } else {
        0nat
    }) + (if p(wall_count) {
        count_cells(cells, DungeonCell::Wall)
    } else {
        0nat
    })
}

proof fn lemma_draws_concat(a: Seq<GlCommand>, b: Seq<GlCommand>, p: spec_fn(u32) -> bool)
    ensures
        draws_where(a + b, p) == draws_where(a, p) + draws_where(b, p),
    decreases b.len(),
{
    if b.len() > 0 {
        assert((a + b).drop_last() =~= a + b.drop_last());
        lemma_draws_concat(a, b.drop_last(), p);
    } else {
        assert(a + b =~= a);
    }
}

proof fn lemma_count_concat(a: Seq<DungeonCell>, b: Seq<DungeonCell>, k: DungeonCell)
    ensures
        count_cells(a + b, k) == count_cells(a, k) + count_cells(b, k),
    decreases b.len(),
{
    if b.len() > 0 {
        assert((a + b).drop_last() =~= a + b.drop_last());
        lemma_count_concat(a, b.drop_last(), k);
    } else {
        assert(a + b =~= a);
    }
}

proof fn lemma_draws_upload(location: i32, value: UniformValue, p: spec_fn(u32) -> bool)
    ensures
        draws_where(upload_commands(location, value), p) == 0,
{
    reveal_with_fuel(draws_where, 2);
    if location >= 0 {
        assert(upload_commands(location, value).drop_last() =~= Seq::<GlCommand>::empty());
    }
}

proof fn lemma_draws_draw(vertex_array: GlVertexArray, texture: GlTexture, p: spec_fn(u32) -> bool)
    ensures
        draws_where(draw_commands(vertex_array, texture), p) == if p(
            vertex_array.spec_index_count(),
        ) {
            1nat
        } else {
            0nat
        },
{
    let s = draw_commands(vertex_array, texture);
    reveal_with_fuel(draws_where, 6);
    assert(s.drop_last() =~= s.take(4));
    assert(s.take(4).drop_last() =~= s.take(3));
    assert(s.take(3).drop_last() =~= s.take(2));
    assert(s.take(2).drop_last() =~= s.take(1));
    assert(s.take(1).drop_last() =~= s.take(0));
}

proof fn lemma_draws_cell(
    g: &DungeonGraphics,
    world: &DungeonFloor,
    x: int,
    y: int,
    p: spec_fn(u32) -> bool,
)
    ensures
        draws_where(cell_commands(g, world, x, y), p) == expected_draws(
            seq![world.cell(x, y)],
            p,
            g.floor_vertex_array.spec_index_count(),
            g.wall_vertex_array.spec_index_count(),
        ),
{
    let v = UniformValue::CellOrigin { x: x as usize, y: y as usize };
    let up = upload_commands(g.uniforms.u_model_matrix, v);
    lemma_draws_upload(g.uniforms.u_model_matrix, v, p);
    lemma_draws_draw(g.floor_vertex_array, g.floor_texture, p);
    lemma_draws_draw(g.wall_vertex_array, g.wall_texture, p);
    reveal_with_fuel(count_cells, 2);
    assert(seq![world.cell(x, y)].drop_last() =~= Seq::<DungeonCell>::empty());
    match world.cell(x, y) {
        DungeonCell::Floor => {
            lemma_draws_concat(up, draw_commands(g.floor_vertex_array, g.floor_texture), p);
        },
        DungeonCell::Wall => {
            lemma_draws_concat(up, draw_commands(g.wall_vertex_array, g.wall_texture), p);
        },
        _ => {
            lemma_draws_concat(up, Seq::empty(), p);
        },
    }
}

proof fn lemma_expected_concat(
    a: Seq<DungeonCell>,
    b: Seq<DungeonCell>,
    p: spec_fn(u32) -> bool,
    fc: u32,
    wc: u32,
)
    ensures
        expected_draws(a + b, p, fc, wc) == expected_draws(a, p, fc, wc) + expected_draws(
            b,
            p,
            fc,
            wc,
        ),
{
    lemma_count_concat(a, b, DungeonCell::Floor);
    lemma_count_concat(a, b, DungeonCell::Wall);
}

/// Row y lies at `width * y` in storage and fits inside it.
proof fn lemma_row_bounds(w: int, h: int, y: int)
    requires
        0 <= y < h,
        0 <= w,
    ensures
        0 <= w * y,
        w * y + w <= w * h,
        w * (y + 1) == w * y + w,
{
    assert(w * y + w <= w * h) by (nonlinear_arith)
        requires
            0 <= y < h,
            0 <= w,
    ;
    assert(0 <= w * y) by (nonlinear_arith)
        requires
            0 <= y,
            0 <= w,
    ;
    assert(w * (y + 1) == w * y + w) by (nonlinear_arith);
}

proof fn lemma_draws_row(
    g: &DungeonGraphics,
    world: &DungeonFloor,
    y: int,
    n: int,
    p: spec_fn(u32) -> bool,
)
    requires
        world.wf(),
        0 <= y < world.height,
        0 <= n <= world.width,
    ensures
        draws_where(row_commands(g, world, y, n), p) == expected_draws(
            world.cells@.subrange(world.width * y, world.width * y + n),
            p,
            g.floor_vertex_array.spec_index_count(),
            g.wall_vertex_array.spec_index_count(),
        ),
    decreases n,
{
    let w = world.width as int;
    let fc = g.floor_vertex_array.spec_index_count();
    let wc = g.wall_vertex_array.spec_index_count();
    lemma_row_bounds(w, world.height as int, y);
    let sub = world.cells@.subrange(w * y, w * y + n);
    if n == 0 {
        assert(sub =~= Seq::<DungeonCell>::empty());
    } else {
        lemma_draws_row(g, world, y, n - 1, p);
        lemma_draws_cell(g, world, n - 1, y, p);
        lemma_draws_concat(row_commands(g, world, y, n - 1), cell_commands(g, world, n - 1, y), p);
        let prev = world.cells@.subrange(w * y, w * y + n - 1);
        assert(sub =~= prev + seq![world.cell(n - 1, y)]);
        lemma_expected_concat(prev, seq![world.cell(n - 1, y)], p, fc, wc);
    }
}

proof fn lemma_draws_rows(g: &DungeonGraphics, world: &DungeonFloor, m: int, p: spec_fn(u32) -> bool)
    requires
        world.wf(),
        0 <= m <= world.height,
    ensures
        draws_where(grid_commands(g, world, m), p) == expected_draws(
            world.cells@.take(world.width * m),
            p,
            g.floor_vertex_array.spec_index_count(),
            g.wall_vertex_array.spec_index_count(),
        ),
    decreases m,
{
    let w = world.width as int;
    let fc = g.floor_vertex_array.spec_index_count();
    let wc = g.wall_vertex_array.spec_index_count();
    if m == 0 {
        assert(w * m == 0) by (nonlinear_arith)
            requires
                m == 0,
        ;
        assert(world.cells@.take(w * m) =~= Seq::<DungeonCell>::empty());
    } else {
        lemma_row_bounds(w, world.height as int, m - 1);
        lemma_draws_rows(g, world, m - 1, p);
        lemma_draws_row(g, world, m - 1, w, p);
        lemma_draws_concat(
            grid_commands(g, world, m - 1),
            row_commands(g, world, m - 1, w),
            p,
        );
        let before = world.cells@.take(w * (m - 1));
        let row = world.cells@.subrange(w * (m - 1), w * (m - 1) + w);
        assert(world.cells@.take(w * m) =~= before + row);
        lemma_expected_concat(before, row, p, fc, wc);
    }
}

proof fn lemma_draws_frame(g: &DungeonGraphics, world: &DungeonFloor, p: spec_fn(u32) -> bool)
    requires
        world.wf(),
    ensures
        draws_where(frame_commands(g, world), p) == expected_draws(
            world.cells@,
            p,
            g.floor_vertex_array.spec_index_count(),
            g.wall_vertex_array.spec_index_count(),
        ),
{
    let head = seq![GlCommand::Activate(g.shader_program.target())];
    let res_v = UniformValue::Resolution { width: RESOLUTION_WIDTH, height: RESOLUTION_HEIGHT };
    let res = upload_commands(g.uniforms.u_resolution, res_v);
    let proj = upload_commands(g.uniforms.u_projection_matrix, UniformValue::Projection);
    let view = upload_commands(g.uniforms.u_view_matrix, UniformValue::View);
    let samp = upload_commands(g.uniforms.u_texture0, UniformValue::Sampler(TEXTURE_UNIT));
    let unit = seq![GlCommand::SelectTextureUnit(TEXTURE_UNIT)];
    let tail = seq![GlCommand::Deactivate(g.shader_program.target())];
    let grid = grid_commands(g, world, world.height as int);
    reveal_with_fuel(draws_where, 2);
    assert(head.drop_last() =~= Seq::<GlCommand>::empty());
    assert(unit.drop_last() =~= Seq::<GlCommand>::empty());
    assert(tail.drop_last() =~= Seq::<GlCommand>::empty());
    lemma_draws_upload(g.uniforms.u_resolution, res_v, p);
    lemma_draws_upload(g.uniforms.u_projection_matrix, UniformValue::Projection, p);
    lemma_draws_upload(g.uniforms.u_view_matrix, UniformValue::View, p);
    lemma_draws_upload(g.uniforms.u_texture0, UniformValue::Sampler(TEXTURE_UNIT), p);
    lemma_draws_concat(head, res, p);
    lemma_draws_concat(head + res, proj, p);
    lemma_draws_concat(head + res + proj, view, p);
    lemma_draws_concat(head + res + proj + view, samp, p);
    lemma_draws_concat(head + res + proj + view + samp, unit, p);
    assert(frame_prelude(g) == head + res + proj + view + samp + unit);
    lemma_draws_rows(g, world, world.height as int, p);
    assert(world.cells@.take(world.width * world.height) =~= world.cells@);
    lemma_draws_concat(frame_prelude(g), grid, p);
    lemma_draws_concat(frame_prelude(g) + grid, tail, p);
}

/// A frame issues exactly one draw per Floor or Wall cell of the grid, and
/// none for Empty, Door or OpenDoor cells.
pub proof fn lemma_frame_draw_count(g: &DungeonGraphics, world: &DungeonFloor)
    requires
        world.wf(),
    ensures
        draws_where(frame_commands(g, world), |c: u32| true) == drawn_cells(world),
{
    lemma_draws_frame(g, world, |c: u32| true);
}

/// With the world meshes uploaded, a frame draws the floor quad's indices
/// once per Floor cell and the wall prism's indices once per Wall cell.
pub proof fn lemma_frame_draw_sizes(g: &DungeonGraphics, world: &DungeonFloor)
    requires
        world.wf(),
        g.wf(),
    ensures
        draws_where(frame_commands(g, world), |c: u32| c == FLOOR_INDEX_COUNT) == count_cells(
            world.cells@,
            DungeonCell::Floor,
        ),
        draws_where(frame_commands(g, world), |c: u32| c == WALL_INDEX_COUNT) == count_cells(
            world.cells@,
            DungeonCell::Wall,
        ),
{
    lemma_draws_frame(g, world, |c: u32| c == FLOOR_INDEX_COUNT);
    lemma_draws_frame(g, world, |c: u32| c == WALL_INDEX_COUNT);
}

/// The open binds after one command, starting from `open`: an activation
/// pushes its target, a deactivation must close the innermost open one.
/// `None` marks a deactivation out of order.
pub open spec fn bind_step(open: Seq<BindTarget>, c: GlCommand) -> Option<Seq<BindTarget>> {
    match c {
        GlCommand::Activate(t) => Some(open.push(t)),
        GlCommand::Deactivate(t) => if open.len() > 0 && open.last() == t {
            Some(open.drop_last())
        } else {
            None
        },
        _ => Some(open),
    }
}

/// The open binds after all of `s`, or `None` if some deactivation is out of
/// order.
pub open spec fn replay_binds(open: Seq<BindTarget>, s: Seq<GlCommand>) -> Option<Seq<BindTarget>>
    decreases s.len(),
{
    if s.len() == 0 {
        Some(open)
    } else {
        match bind_step(open, s[0]) {
            Some(next) => replay_binds(next, s.drop_first()),
            None => None,
        }
    }
}

proof fn lemma_replay_concat(open: Seq<BindTarget>, a: Seq<GlCommand>, b: Seq<GlCommand>)
    requires
        replay_binds(open, a) == Some(open),
        replay_binds(open, b) == Some(open),
    ensures
        replay_binds(open, a + b) == Some(open),
{
    lemma_replay_concat_general(open, a, b);
}

proof fn lemma_replay_concat_general(open: Seq<BindTarget>, a: Seq<GlCommand>, b: Seq<GlCommand>)
    requires
        replay_binds(open, a) is Some,
    ensures
        replay_binds(open, a + b) == replay_binds(replay_binds(open, a)->0, b),
    decreases a.len(),
{
    if a.len() == 0 {
        assert(a + b =~= b);
    } else {
        assert((a + b)[0] == a[0]);
        assert((a + b).drop_first() =~= a.drop_first() + b);
        let next = bind_step(open, a[0])->0;
        lemma_replay_concat_general(next, a.drop_first(), b);
    }
}

proof fn lemma_replay_no_binds(open: Seq<BindTarget>, location: i32, value: UniformValue)
    ensures
        replay_binds(open, upload_commands(location, value)) == Some(open),
{
    reveal_with_fuel(replay_binds, 2);
    if location >= 0 {
        assert(upload_commands(location, value).drop_first() =~= Seq::<GlCommand>::empty());
    }
}

proof fn lemma_replay_draw(open: Seq<BindTarget>, vertex_array: GlVertexArray, texture: GlTexture)
    ensures
        replay_binds(open, draw_commands(vertex_array, texture)) == Some(open),
{
    let s = draw_commands(vertex_array, texture);
    let va = vertex_array.target();
    let tx = texture.target();
    reveal_with_fuel(replay_binds, 6);
    assert(s.drop_first() =~= s.subrange(1, 5));
    assert(s.subrange(1, 5).drop_first() =~= s.subrange(2, 5));
    assert(s.subrange(2, 5).drop_first() =~= s.subrange(3, 5));
    assert(s.subrange(3, 5).drop_first() =~= s.subrange(4, 5));
    assert(s.subrange(4, 5).drop_first() =~= Seq::<GlCommand>::empty());
    assert(open.push(va).push(tx).drop_last() =~= open.push(va));
    assert(open.push(va).drop_last() =~= open);
}

proof fn lemma_replay_cell(
    open: Seq<BindTarget>,
    g: &DungeonGraphics,
    world: &DungeonFloor,
    x: int,
    y: int,
)
    ensures
        replay_binds(open, cell_commands(g, world, x, y)) == Some(open),
{
    let v = UniformValue::CellOrigin { x: x as usize, y: y as usize };
    lemma_replay_no_binds(open, g.uniforms.u_model_matrix, v);
    lemma_replay_draw(open, g.floor_vertex_array, g.floor_texture);
    lemma_replay_draw(open, g.wall_vertex_array, g.wall_texture);
    let rest = match world.cell(x, y) {
        DungeonCell::Floor => draw_commands(g.floor_vertex_array, g.floor_texture),
        DungeonCell::Wall => draw_commands(g.wall_vertex_array, g.wall_texture),
        _ => Seq::empty(),
    };
    lemma_replay_concat(open, upload_commands(g.uniforms.u_model_matrix, v), rest);
}

proof fn lemma_replay_row(
    open: Seq<BindTarget>,
    g: &DungeonGraphics,
    world: &DungeonFloor,
    y: int,
    n: int,
)
    ensures
        replay_binds(open, row_commands(g, world, y, n)) == Some(open),
    decreases n,
{
    if n > 0 {
        lemma_replay_row(open, g, world, y, n - 1);
        lemma_replay_cell(open, g, world, n - 1, y);
        lemma_replay_concat(
            open,
            row_commands(g, world, y, n - 1),
            cell_commands(g, world, n - 1, y),
        );
    }
}

proof fn lemma_replay_rows(open: Seq<BindTarget>, g: &DungeonGraphics, world: &DungeonFloor, m: int)
    ensures
        replay_binds(open, grid_commands(g, world, m)) == Some(open),
    decreases m,
{
    if m > 0 {
        lemma_replay_rows(open, g, world, m - 1);
        lemma_replay_row(open, g, world, m - 1, world.width as int);
        lemma_replay_concat(
            open,
            grid_commands(g, world, m - 1),
            row_commands(g, world, m - 1, world.width as int),
        );
    }
}

/// Binds in a frame are properly nested: each deactivation closes the
/// innermost open activation, and the frame leaves open exactly what was
/// open before it.
pub proof fn lemma_frame_binds_nested(open: Seq<BindTarget>, g: &DungeonGraphics, world: &DungeonFloor)
    ensures
        replay_binds(open, frame_commands(g, world)) == Some(open),
{
    let pt = g.shader_program.target();
    let inner = open.push(pt);
    let head = seq![GlCommand::Activate(pt)];
    let res = upload_commands(
        g.uniforms.u_resolution,
        UniformValue::Resolution { width: RESOLUTION_WIDTH, height: RESOLUTION_HEIGHT },
    );
    let proj = upload_commands(g.uniforms.u_projection_matrix, UniformValue::Projection);
    let view = upload_commands(g.uniforms.u_view_matrix, UniformValue::View);
    let samp = upload_commands(g.uniforms.u_texture0, UniformValue::Sampler(TEXTURE_UNIT));
    let unit = seq![GlCommand::SelectTextureUnit(TEXTURE_UNIT)];
    let tail = seq![GlCommand::Deactivate(pt)];
    let body = res + proj + view + samp + unit + grid_commands(g, world, world.height as int);
    reveal_with_fuel(replay_binds, 2);
    assert(head.drop_first() =~= Seq::<GlCommand>::empty());
    assert(unit.drop_first() =~= Seq::<GlCommand>::empty());
    assert(tail.drop_first() =~= Seq::<GlCommand>::empty());
    assert(inner.drop_last() =~= open);
    lemma_replay_no_binds(inner, g.uniforms.u_resolution, UniformValue::Resolution {
        width: RESOLUTION_WIDTH,
        height: RESOLUTION_HEIGHT,
    });
    lemma_replay_no_binds(inner, g.uniforms.u_projection_matrix, UniformValue::Projection);
    lemma_replay_no_binds(inner, g.uniforms.u_view_matrix, UniformValue::View);
    lemma_replay_no_binds(inner, g.uniforms.u_texture0, UniformValue::Sampler(TEXTURE_UNIT));
    lemma_replay_rows(inner, g, world, world.height as int);
    lemma_replay_concat(inner, res, proj);
    lemma_replay_concat(inner, res + proj, view);
    lemma_replay_concat(inner, res + proj + view, samp);
    lemma_replay_concat(inner, res + proj + view + samp, unit);
    lemma_replay_concat(inner, res + proj + view + samp + unit, grid_commands(g, world, world.height as int));
    lemma_replay_concat_general(open, head, body);
    lemma_replay_concat_general(open, head + body, tail);
    assert(frame_commands(g, world) =~= head + body + tail);
}

/// No command of `s` uploads to a negative (undeclared) uniform location.
pub open spec fn uploads_declared(s: Seq<GlCommand>) -> bool {
    forall|i: int|
        0 <= i < s.len() && (#[trigger] s[i]) is Upload ==> s[i]->Upload_location >= 0
}

proof fn lemma_uploads_declared_concat(a: Seq<GlCommand>, b: Seq<GlCommand>)
    requires
        uploads_declared(a),
        uploads_declared(b),
    ensures
        uploads_declared(a + b),
{
    assert forall|i: int| 0 <= i < (a + b).len() && (#[trigger] (a + b)[i]) is Upload implies (a
        + b)[i]->Upload_location >= 0 by {
        if i < a.len() {
            assert((a + b)[i] == a[i]);
        } else {
            assert((a + b)[i] == b[i - a.len()]);
        }
    }
}

proof fn lemma_uploads_declared_cell(g: &DungeonGraphics, world: &DungeonFloor, x: int, y: int)
    ensures
        uploads_declared(cell_commands(g, world, x, y)),
{
    lemma_uploads_declared_concat(
        upload_commands(
            g.uniforms.u_model_matrix,
            UniformValue::CellOrigin { x: x as usize, y: y as usize },
        ),
        match world.cell(x, y) {
            DungeonCell::Floor => draw_commands(g.floor_vertex_array, g.floor_texture),
            DungeonCell::Wall => draw_commands(g.wall_vertex_array, g.wall_texture),
            _ => Seq::empty(),
        },
    );
}

proof fn lemma_uploads_declared_row(g: &DungeonGraphics, world: &DungeonFloor, y: int, n: int)
    ensures
        uploads_declared(row_commands(g, world, y, n)),
    decreases n,
{
    if n > 0 {
        lemma_uploads_declared_row(g, world, y, n - 1);
        lemma_uploads_declared_cell(g, world, n - 1, y);
        lemma_uploads_declared_concat(
            row_commands(g, world, y, n - 1),
            cell_commands(g, world, n - 1, y),
        );
    }
}

proof fn lemma_uploads_declared_rows(g: &DungeonGraphics, world: &DungeonFloor, m: int)
    ensures
        uploads_declared(grid_commands(g, world, m)),
    decreases m,
{
    if m > 0 {
        lemma_uploads_declared_rows(g, world, m - 1);
        lemma_uploads_declared_row(g, world, m - 1, world.width as int);
        lemma_uploads_declared_concat(
            grid_commands(g, world, m - 1),
            row_commands(g, world, m - 1, world.width as int),
        );
    }
}

/// A frame never uploads to the "not present" location: uniforms that the
/// program lacks are skipped, whatever the grid holds.
pub proof fn lemma_frame_uploads_declared(g: &DungeonGraphics, world: &DungeonFloor)
    ensures
        uploads_declared(frame_commands(g, world)),
{
    let head = seq![GlCommand::Activate(g.shader_program.target())];
    let res = upload_commands(
        g.uniforms.u_resolution,
        UniformValue::Resolution { width: RESOLUTION_WIDTH, height: RESOLUTION_HEIGHT },
    );
    let proj = upload_commands(g.uniforms.u_projection_matrix, UniformValue::Projection);
    let view = upload_commands(g.uniforms.u_view_matrix, UniformValue::View);
    let samp = upload_commands(g.uniforms.u_texture0, UniformValue::Sampler(TEXTURE_UNIT));
    let unit = seq![GlCommand::SelectTextureUnit(TEXTURE_UNIT)];
    let tail = seq![GlCommand::Deactivate(g.shader_program.target())];
    lemma_uploads_declared_concat(head, res);
    lemma_uploads_declared_concat(head + res, proj);
    lemma_uploads_declared_concat(head + res + proj, view);
    lemma_uploads_declared_concat(head + res + proj + view, samp);
    lemma_uploads_declared_concat(head + res + proj + view + samp, unit);
    assert(frame_prelude(g) == head + res + proj + view + samp + unit);
    lemma_uploads_declared_rows(g, world, world.height as int);
    lemma_uploads_declared_concat(frame_prelude(g), grid_commands(g, world, world.height as int));
    lemma_uploads_declared_concat(
        frame_prelude(g) + grid_commands(g, world, world.height as int),
        tail,
    );
}

/// The commands of `s` other than uniform uploads.
pub open spec fn without_uploads(s: Seq<GlCommand>) -> Seq<GlCommand> {
    s.filter(|c: GlCommand| !(c is Upload))
}

/// Two sets of world resources that differ at most in their uniform
/// locations.
pub open spec fn same_but_uniforms(g1: &DungeonGraphics, g2: &DungeonGraphics) -> bool {
    g1.shader_program == g2.shader_program && g1.wall_vertex_array == g2.wall_vertex_array
        && g1.floor_vertex_array == g2.floor_vertex_array && g1.wall_texture == g2.wall_texture
        && g1.floor_texture == g2.floor_texture
}

proof fn lemma_without_uploads_concat(a: Seq<GlCommand>, b: Seq<GlCommand>)
    ensures
        without_uploads(a + b) == without_uploads(a) + without_uploads(b),
{
    Seq::filter_distributes_over_add(a, b, |c: GlCommand| !(c is Upload));
}

proof fn lemma_without_uploads_upload(location: i32, value: UniformValue)
    ensures
        without_uploads(upload_commands(location, value)) == Seq::<GlCommand>::empty(),
{
    let s = upload_commands(location, value);
    reveal_with_fuel(Seq::filter, 2);
    if location >= 0 {
        assert(s.drop_last() =~= Seq::<GlCommand>::empty());
    }
    assert(without_uploads(s) =~= Seq::<GlCommand>::empty());
}

proof fn lemma_without_uploads_cell(
    g1: &DungeonGraphics,
    g2: &DungeonGraphics,
    world: &DungeonFloor,
    x: int,
    y: int,
)
    requires
        same_but_uniforms(g1, g2),
    ensures
        without_uploads(cell_commands(g1, world, x, y)) == without_uploads(
            cell_commands(g2, world, x, y),
        ),
{
    let v = UniformValue::CellOrigin { x: x as usize, y: y as usize };
    let rest = match world.cell(x, y) {
        DungeonCell::Floor => draw_commands(g1.floor_vertex_array, g1.floor_texture),
        DungeonCell::Wall => draw_commands(g1.wall_vertex_array, g1.wall_texture),
        _ => Seq::empty(),
    };
    lemma_without_uploads_upload(g1.uniforms.u_model_matrix, v);
    lemma_without_uploads_upload(g2.uniforms.u_model_matrix, v);
    lemma_without_uploads_concat(upload_commands(g1.uniforms.u_model_matrix, v), rest);
    lemma_without_uploads_concat(upload_commands(g2.uniforms.u_model_matrix, v), rest);
}

proof fn lemma_without_uploads_row(
    g1: &DungeonGraphics,
    g2: &DungeonGraphics,
    world: &DungeonFloor,
    y: int,
    n: int,
)
    requires
        same_but_uniforms(g1, g2),
    ensures
        without_uploads(row_commands(g1, world, y, n)) == without_uploads(
            row_commands(g2, world, y, n),
        ),
    decreases n,
{
    if n > 0 {
        lemma_without_uploads_row(g1, g2, world, y, n - 1);
        lemma_without_uploads_cell(g1, g2, world, n - 1, y);
        lemma_without_uploads_concat(
            row_commands(g1, world, y, n - 1),
            cell_commands(g1, world, n - 1, y),
        );
        lemma_without_uploads_concat(
            row_commands(g2, world, y, n - 1),
            cell_commands(g2, world, n - 1, y),
        );
    }
}

proof fn lemma_without_uploads_rows(
    g1: &DungeonGraphics,
    g2: &DungeonGraphics,
    world: &DungeonFloor,
    m: int,
)
    requires
        same_but_uniforms(g1, g2),
    ensures
        without_uploads(grid_commands(g1, world, m)) == without_uploads(
            grid_commands(g2, world, m),
        ),
    decreases m,
{
    if m > 0 {
        let w = world.width as int;
        lemma_without_uploads_rows(g1, g2, world, m - 1);
        lemma_without_uploads_row(g1, g2, world, m - 1, w);
        lemma_without_uploads_concat(grid_commands(g1, world, m - 1), row_commands(g1, world, m - 1, w));
        lemma_without_uploads_concat(grid_commands(g2, world, m - 1), row_commands(g2, world, m - 1, w));
    }
}

proof fn lemma_without_uploads_prelude(g: &DungeonGraphics)
    ensures
        without_uploads(frame_prelude(g)) == without_uploads(
            seq![GlCommand::Activate(g.shader_program.target())] + seq![
                GlCommand::SelectTextureUnit(TEXTURE_UNIT),
            ],
        ),
{
    let head = seq![GlCommand::Activate(g.shader_program.target())];
    let res_v = UniformValue::Resolution { width: RESOLUTION_WIDTH, height: RESOLUTION_HEIGHT };
    let res = upload_commands(g.uniforms.u_resolution, res_v);
    let proj = upload_commands(g.uniforms.u_projection_matrix, UniformValue::Projection);
    let view = upload_commands(g.uniforms.u_view_matrix, UniformValue::View);
    let samp = upload_commands(g.uniforms.u_texture0, UniformValue::Sampler(TEXTURE_UNIT));
    let unit = seq![GlCommand::SelectTextureUnit(TEXTURE_UNIT)];
    lemma_without_uploads_upload(g.uniforms.u_resolution, res_v);
    lemma_without_uploads_upload(g.uniforms.u_projection_matrix, UniformValue::Projection);
    lemma_without_uploads_upload(g.uniforms.u_view_matrix, UniformValue::View);
    lemma_without_uploads_upload(g.uniforms.u_texture0, UniformValue::Sampler(TEXTURE_UNIT));
    lemma_without_uploads_concat(head, res);
    lemma_without_uploads_concat(head + res, proj);
    lemma_without_uploads_concat(head + res + proj, view);
    lemma_without_uploads_concat(head + res + proj + view, samp);
    lemma_without_uploads_concat(head + res + proj + view + samp, unit);
    lemma_without_uploads_concat(head, unit);
    assert(frame_prelude(g) == head + res + proj + view + samp + unit);
    assert(without_uploads(head) + Seq::<GlCommand>::empty() =~= without_uploads(head));
}

/// Uniform locations change only the uploads of a frame: with any uniform
/// missing from the program (location -1), every bind and draw is issued
/// exactly as with all uniforms present.
pub proof fn lemma_frame_binds_and_draws_ignore_uniforms(
    g1: &DungeonGraphics,
    g2: &DungeonGraphics,
    world: &DungeonFloor,
)
    requires
        same_but_uniforms(g1, g2),
    ensures
        without_uploads(frame_commands(g1, world)) == without_uploads(frame_commands(g2, world)),
{
    let tail = seq![GlCommand::Deactivate(g1.shader_program.target())];
    let h = world.height as int;
    lemma_without_uploads_prelude(g1);
    lemma_without_uploads_prelude(g2);
    lemma_without_uploads_rows(g1, g2, world, h);
    lemma_without_uploads_concat(frame_prelude(g1), grid_commands(g1, world, h));
    lemma_without_uploads_concat(frame_prelude(g1) + grid_commands(g1, world, h), tail);
    lemma_without_uploads_concat(frame_prelude(g2), grid_commands(g2, world, h));
    lemma_without_uploads_concat(frame_prelude(g2) + grid_commands(g2, world, h), tail);
}

/// Position i of `s` draws all indices of `vertex_array` between the
/// activation of it and `texture` and their deactivations, innermost first.
pub open spec fn drawn_with(
    s: Seq<GlCommand>,
    i: int,
    vertex_array: GlVertexArray,
    texture: GlTexture,
) -> bool {
    &&& 2 <= i && i + 2 < s.len()
    &&& s[i - 2] == GlCommand::Activate(vertex_array.target())
    &&& s[i - 1] == GlCommand::Activate(texture.target())
    &&& s[i] == GlCommand::DrawElements { count: vertex_array.spec_index_count() }
    &&& s[i + 1] == GlCommand::Deactivate(texture.target())
    &&& s[i + 2] == GlCommand::Deactivate(vertex_array.target())
}

/// Every draw of `s` is the floor quad's, inside the floor array and texture
/// binds, or the wall prism's, inside the wall ones.
pub open spec fn draws_follow_binds(g: &DungeonGraphics, s: Seq<GlCommand>) -> bool {
    forall|i: int|
        0 <= i < s.len() && (#[trigger] s[i]) is DrawElements ==> drawn_with(
            s,
            i,
            g.floor_vertex_array,
            g.floor_texture,
        ) || drawn_with(s, i, g.wall_vertex_array, g.wall_texture)
}

proof fn lemma_drawn_with_concat(
    a: Seq<GlCommand>,
    b: Seq<GlCommand>,
    i: int,
    vertex_array: GlVertexArray,
    texture: GlTexture,
)
    ensures
        drawn_with(a, i, vertex_array, texture) ==> drawn_with(a + b, i, vertex_array, texture),
        drawn_with(b, i, vertex_array, texture) ==> drawn_with(
            a + b,
            i + a.len(),
            vertex_array,
            texture,
        ),
{
    if drawn_with(a, i, vertex_array, texture) {
        assert((a + b)[i - 2] == a[i - 2]);
        assert((a + b)[i - 1] == a[i - 1]);
        assert((a + b)[i] == a[i]);
        assert((a + b)[i + 1] == a[i + 1]);
        assert((a + b)[i + 2] == a[i + 2]);
    }
    if drawn_with(b, i, vertex_array, texture) {
        let k = i + a.len();
        assert((a + b)[k - 2] == b[i - 2]);
        assert((a + b)[k - 1] == b[i - 1]);
        assert((a + b)[k] == b[i]);
        assert((a + b)[k + 1] == b[i + 1]);
        assert((a + b)[k + 2] == b[i + 2]);
    }
}

proof fn lemma_follow_concat(g: &DungeonGraphics, a: Seq<GlCommand>, b: Seq<GlCommand>)
    requires
        draws_follow_binds(g, a),
        draws_follow_binds(g, b),
    ensures
        draws_follow_binds(g, a + b),
{
    assert forall|i: int| 0 <= i < (a + b).len() && (#[trigger] (a + b)[i]) is DrawElements implies
        drawn_with(a + b, i, g.floor_vertex_array, g.floor_texture) || drawn_with(
        a + b,
        i,
        g.wall_vertex_array,
        g.wall_texture,
    ) by {
        if i < a.len() {
            assert((a + b)[i] == a[i]);
            lemma_drawn_with_concat(a, b, i, g.floor_vertex_array, g.floor_texture);
            lemma_drawn_with_concat(a, b, i, g.wall_vertex_array, g.wall_texture);
        } else {
            let j = i - a.len();
            assert((a + b)[i] == b[j]);
            lemma_drawn_with_concat(a, b, j, g.floor_vertex_array, g.floor_texture);
            lemma_drawn_with_concat(a, b, j, g.wall_vertex_array, g.wall_texture);
        }
    }
}

proof fn lemma_follow_upload(g: &DungeonGraphics, location: i32, value: UniformValue)
    ensures
        draws_follow_binds(g, upload_commands(location, value)),
{
}

proof fn lemma_follow_cell(g: &DungeonGraphics, world: &DungeonFloor, x: int, y: int)
    ensures
        draws_follow_binds(g, cell_commands(g, world, x, y)),
{
    let v = UniformValue::CellOrigin { x: x as usize, y: y as usize };
    let rest = match world.cell(x, y) {
        DungeonCell::Floor => draw_commands(g.floor_vertex_array, g.floor_texture),
        DungeonCell::Wall => draw_commands(g.wall_vertex_array, g.wall_texture),
        _ => Seq::empty(),
    };
    assert(draws_follow_binds(g, rest));
    lemma_follow_concat(g, upload_commands(g.uniforms.u_model_matrix, v), rest);
}

proof fn lemma_follow_row(g: &DungeonGraphics, world: &DungeonFloor, y: int, n: int)
    ensures
        draws_follow_binds(g, row_commands(g, world, y, n)),
    decreases n,
{
    if n > 0 {
        lemma_follow_row(g, world, y, n - 1);
        lemma_follow_cell(g, world, n - 1, y);
        lemma_follow_concat(g, row_commands(g, world, y, n - 1), cell_commands(g, world, n - 1, y));
    }
}

proof fn lemma_follow_rows(g: &DungeonGraphics, world: &DungeonFloor, m: int)
    ensures
        draws_follow_binds(g, grid_commands(g, world, m)),
    decreases m,
{
    if m > 0 {
        let w = world.width as int;
        lemma_follow_rows(g, world, m - 1);
        lemma_follow_row(g, world, m - 1, w);
        lemma_follow_concat(g, grid_commands(g, world, m - 1), row_commands(g, world, m - 1, w));
    }
}

/// Every draw of a frame is issued inside the bind pair of its geometry:
/// the floor vertex array and texture for the floor quad, the wall ones for
/// the wall prism, both unbound right after it.
pub proof fn lemma_frame_draws_follow_binds(g: &DungeonGraphics, world: &DungeonFloor)
    ensures
        draws_follow_binds(g, frame_commands(g, world)),
{
    let h = world.height as int;
    let tail = seq![GlCommand::Deactivate(g.shader_program.target())];
    lemma_follow_rows(g, world, h);
    assert(draws_follow_binds(g, frame_prelude(g)));
    assert(draws_follow_binds(g, tail));
    lemma_follow_concat(g, frame_prelude(g), grid_commands(g, world, h));
    lemma_follow_concat(g, frame_prelude(g) + grid_commands(g, world, h), tail);
}

/// Empty, Door and OpenDoor cells get their model translation and nothing
/// else: no bind and no draw.
pub proof fn lemma_inert_cells(g: &DungeonGraphics, world: &DungeonFloor, x: int, y: int)
    requires
        !world.cell(x, y).is_drawn(),
    ensures
        cell_commands(g, world, x, y) == upload_commands(
            g.uniforms.u_model_matrix,
            UniformValue::CellOrigin { x: x as usize, y: y as usize },
        ),
{
    assert(cell_commands(g, world, x, y) =~= upload_commands(
        g.uniforms.u_model_matrix,
        UniformValue::CellOrigin { x: x as usize, y: y as usize },
    ));
}

} // verus!
