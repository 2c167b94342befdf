//! Carving water channels along waterway polylines.

use vstd::prelude::*;

use crate::bresenham::{bresenham_line, line_point, major_steps};
use crate::text::{int_of, parse_i32, str_eq};

verus! {

/// The kinds of voxel that carving writes.
#[derive(Clone, Copy, Debug, PartialEq, Eq, Structural)]
pub enum Voxel {
    Water,
    Dirt,
    Air,
}

/// One write to the voxel grid.  When `only_over_vegetation` holds, the write
/// replaces the voxel there only if that voxel is vegetation (see
/// `is_vegetation`); otherwise it overwrites whatever is there.
#[derive(Clone, Copy, Debug, PartialEq, Eq, Structural)]
pub struct VoxelWrite {
    pub x: i64,
    pub y: i64,
    pub z: i64,
    pub kind: Voxel,
    pub only_over_vegetation: bool,
}

/// Ground elevation over a rectangle of columns, stored row by row (one row per
/// `z`, `row_len` columns along `x` from `origin_x`); every column outside the
/// stored rows has the elevation `outside_level`.
#[derive(Debug)]
pub struct HeightMap {
    pub origin_x: i32,
    pub origin_z: i32,
    pub row_len: usize,
    pub levels: Vec<i32>,
    pub outside_level: i32,
}

impl HeightMap {
    /// The ground elevation of column `(x, z)`.
    pub open spec fn level_at(&self, x: int, z: int) -> int {
        let dx = x - self.origin_x;
        let dz = z - self.origin_z;
        if self.row_len > 0 && 0 <= dx < self.row_len && 0 <= dz < (self.levels@.len() as int)
            / (self.row_len as int) {
            self.levels@[dz * self.row_len + dx] as int
        } else {
            self.outside_level as int
        }
    }

    /// Reads the ground elevation of column `(x, z)`.
    pub fn get_ground_level(&self, x: i32, z: i32) -> (r: i32)
        ensures
            r as int == self.level_at(x as int, z as int),
    {
        let dx: i64 = x as i64 - self.origin_x as i64;
        let dz: i64 = z as i64 - self.origin_z as i64;
        if self.row_len == 0 || dx < 0 || dz < 0 || dx as u128 >= self.row_len as u128 {
            return self.outside_level;
        }
        let rows = self.levels.len() / self.row_len;
        if dz as u128 >= rows as u128 {
            return self.outside_level;
        }
        let (rx, rz, n) = (dx as usize, dz as usize, self.row_len);
        proof {
            let len = self.levels@.len() as int;
            assert(rz * n + rx < len) by (nonlinear_arith)
                requires
                    rz < rows,
                    rows == len / (n as int),
                    rx < n,
                    n > 0,
                    len >= 0,
            {
                vstd::arithmetic::div_mod::lemma_fundamental_div_mod(len, n as int);
                assert((rz + 1) * n <= rows * n);
            }
        }
        self.levels[rz * n + rx]
    }
}

/// Whether a block named `name` is vegetation that carving clears: grass,
/// wheat, carrots or potatoes.
pub open spec fn vegetation(name: Seq<char>) -> bool {
    name == "grass"@ || name == "wheat"@ || name == "carrots"@ || name == "potatoes"@
}

/// Whether a block named `name` may be replaced by a write marked
/// `only_over_vegetation`.
pub fn is_vegetation(name: &str) -> (r: bool)
    ensures
        r == vegetation(name@),
{
    str_eq(name, "grass") || str_eq(name, "wheat") || str_eq(name, "carrots") || str_eq(name, "potatoes")
}

/// A grid of ground elevations together with the writes made to it so far,
/// in the order they were made.
#[derive(Debug)]
pub struct WorldEditor {
    pub ground: HeightMap,
    pub writes: Vec<VoxelWrite>,
}

/// The write of `kind` at `(x, y, z)`.
pub open spec fn write_at(x: int, y: int, z: int, kind: Voxel, only_over_vegetation: bool) -> VoxelWrite {
    VoxelWrite { x: x as i64, y: y as i64, z: z as i64, kind, only_over_vegetation }
}

/// Half of `width`, rounded toward zero.
pub open spec fn half_width(width: int) -> int {
    if width >= 0 {
        width / 2
    } else {
        -((-width) / 2)
    }
}

/// The larger of the absolute offsets `dx` and `dz`.
pub open spec fn chebyshev(dx: int, dz: int) -> int {
    let a = if dx >= 0 {
        dx
    } else {
        -dx
    };
    let b = if dz >= 0 {
        dz
    } else {
        -dz
    };
    if a >= b {
        a
    } else {
        b
    }
}

/// `n` water voxels in column `(x, z)`, from elevation `g` downward.
pub open spec fn water_column(x: int, z: int, g: int, n: int) -> Seq<VoxelWrite>
    decreases n,
{
    if n <= 0 {
        Seq::empty()
    } else {
        water_column(x, z, g, n - 1).push(write_at(x, g - (n - 1), z, Voxel::Water, false))
    }
}

/// `n` voxels of a bank in column `(x, z)` from elevation `g` downward: water
/// at the top, air below it.
pub open spec fn bank_column(x: int, z: int, g: int, n: int) -> Seq<VoxelWrite>
    decreases n,
{
    if n <= 0 {
        Seq::empty()
    } else {
        let kind = if n - 1 == 0 {
            Voxel::Water
        } else {
            Voxel::Air
        };
        bank_column(x, z, g, n - 1).push(write_at(x, g - (n - 1), z, kind, false))
    }
}

/// Clearing of vegetation just above elevation `g` in column `(x, z)`.
pub open spec fn clear_vegetation(x: int, z: int, g: int) -> VoxelWrite {
    write_at(x, g + 1, z, Voxel::Air, true)
}

/// How deep a bank is dug for a channel of depth `depth`.
pub open spec fn slope_depth(depth: int) -> int {
    if depth - 1 >= 1 {
        depth - 1
    } else {
        1
    }
}

/// The writes that a channel centred on `(cx, cz)` with ground elevation `g`
/// makes in column `(x, z)`: a full water column with dirt beneath inside the
/// channel, a bank one step outside it when the channel is deeper than one
/// voxel, nothing farther out.
pub open spec fn cell_writes(cx: int, cz: int, width: int, depth: int, g: int, x: int, z: int) -> Seq<VoxelWrite> {
    let h = half_width(width);
    let dist = chebyshev(x - cx, z - cz);
    if dist <= h {
        water_column(x, z, g, depth).push(write_at(x, g - depth, z, Voxel::Dirt, false)).push(
            clear_vegetation(x, z, g),
        )
    } else if dist == h + 1 && depth > 1 {
        let s = slope_depth(depth);
        bank_column(x, z, g, s).push(write_at(x, g - s, z, Voxel::Dirt, false)).push(
            clear_vegetation(x, z, g),
        )
    } else {
        Seq::empty()
    }
}

/// The writes of the first `n` columns of the row at `x`, starting at the
/// lowest `z` that the channel reaches.
pub open spec fn row_writes(cx: int, cz: int, width: int, depth: int, g: int, x: int, n: int) -> Seq<VoxelWrite>
    decreases n,
{
    if n <= 0 {
        Seq::empty()
    } else {
        let z = cz - half_width(width) - 1 + (n - 1);
        row_writes(cx, cz, width, depth, g, x, n - 1) + cell_writes(cx, cz, width, depth, g, x, z)
    }
}

/// The number of rows, and of columns in a row, that a channel of `width` spans.
pub open spec fn channel_span(width: int) -> int {
    let s = 2 * half_width(width) + 3;
    if s > 0 {
        s
    } else {
        0
    }
}

/// The writes of the first `n` rows of a channel, starting at the lowest `x`
/// that it reaches.
pub open spec fn rows_writes(cx: int, cz: int, width: int, depth: int, g: int, n: int) -> Seq<VoxelWrite>
    decreases n,
{
    if n <= 0 {
        Seq::empty()
    } else {
        let x = cx - half_width(width) - 1 + (n - 1);
        rows_writes(cx, cz, width, depth, g, n - 1) + row_writes(
            cx,
            cz,
            width,
            depth,
            g,
            x,
            channel_span(width),
        )
    }
}

/// All writes of one channel cross-section centred on `(cx, cz)` with ground
/// elevation `g`, row by row in increasing `x`, each row in increasing `z`.
pub open spec fn channel_writes(cx: int, cz: int, width: int, depth: int, g: int) -> Seq<VoxelWrite> {
    rows_writes(cx, cz, width, depth, g, channel_span(width))
}

impl WorldEditor {
    /// Records one write.
    pub fn set_block(&mut self, kind: Voxel, x: i64, y: i64, z: i64, only_over_vegetation: bool)
        ensures
            final(self).ground == old(self).ground,
            final(self).writes@ == old(self).writes@.push(
                VoxelWrite { x, y, z, kind, only_over_vegetation },
            ),
    {
        self.writes.push(VoxelWrite { x, y, z, kind, only_over_vegetation });
    }

    /// Reads the ground elevation of column `(x, z)`.
    pub fn get_ground_level(&self, x: i32, z: i32) -> (r: i32)
        ensures
            r as int == self.ground.level_at(x as int, z as int),
    {
        self.ground.get_ground_level(x, z)
    }
}

fn carve_cell(
    editor: &mut WorldEditor,
    center_x: i32,
    center_z: i32,
    width: i32,
    depth: i32,
    g: i32,
    half: i64,
    x: i64,
    z: i64,
)
    requires
        half == half_width(width as int),
        -0x2_0000_0000 <= x <= 0x2_0000_0000,
        -0x2_0000_0000 <= z <= 0x2_0000_0000,
    ensures
        final(editor).ground == old(editor).ground,
        final(editor).writes@ == old(editor).writes@ + cell_writes(
            center_x as int,
            center_z as int,
            width as int,
            depth as int,
            g as int,
            x as int,
            z as int,
        ),
{
    let ghost start = editor.writes@;
    let ghost (cx, cz, w, dp, gi) = (center_x as int, center_z as int, width as int, depth as int, g as int);
    let dx: i64 = if x >= center_x as i64 {
        x - center_x as i64
    } else {
        center_x as i64 - x
    };
    let dz: i64 = if z >= center_z as i64 {
        z - center_z as i64
    } else {
        center_z as i64 - z
    };
    let dist: i64 = if dx >= dz {
        dx
    } else {
        dz
    };
    assert(dist == chebyshev(x - cx, z - cz));
    if dist <= half {
        let mut d: i64 = 0;
        while d < depth as i64
            invariant
                0 <= d,
                d <= depth || d == 0,
                -0x2_0000_0000 <= x <= 0x2_0000_0000,
                -0x2_0000_0000 <= z <= 0x2_0000_0000,
                gi == g as int,
                editor.ground == old(editor).ground,
                editor.writes@ == start + water_column(x as int, z as int, gi, d as int),
            decreases depth - d,
        {
            editor.set_block(Voxel::Water, x, g as i64 - d, z, false);
            proof {
                assert(water_column(x as int, z as int, gi, d + 1) == water_column(
                    x as int,
                    z as int,
                    gi,
                    d as int,
                ).push(write_at(x as int, gi - d, z as int, Voxel::Water, false)));
            }
            d = d + 1;
        }
        editor.set_block(Voxel::Dirt, x, g as i64 - depth as i64, z, false);
        editor.set_block(Voxel::Air, x, g as i64 + 1, z, true);
        proof {
            if dp <= 0 {
                assert(water_column(x as int, z as int, gi, dp) == water_column(x as int, z as int, gi, 0));
            }
            assert(editor.writes@ == start + cell_writes(cx, cz, w, dp, gi, x as int, z as int));
        }
    } else if dist == half + 1 && depth > 1 {
        let slope: i64 = if depth as i64 - 1 >= 1 {
            depth as i64 - 1
        } else {
            1
        };
        let mut d: i64 = 0;
        while d < slope
            invariant
                0 <= d <= slope,
                slope == slope_depth(dp),
                1 <= slope < 0x1_0000_0000,
                -0x2_0000_0000 <= x <= 0x2_0000_0000,
                -0x2_0000_0000 <= z <= 0x2_0000_0000,
                gi == g as int,
                editor.ground == old(editor).ground,
                editor.writes@ == start + bank_column(x as int, z as int, gi, d as int),
            decreases slope - d,
        {
            if d == 0 {
                editor.set_block(Voxel::Water, x, g as i64 - d, z, false);
            } else {
                editor.set_block(Voxel::Air, x, g as i64 - d, z, false);
            }
            d = d + 1;
        }
        editor.set_block(Voxel::Dirt, x, g as i64 - slope, z, false);
        editor.set_block(Voxel::Air, x, g as i64 + 1, z, true);
        proof {
            assert(editor.writes@ == start + cell_writes(cx, cz, w, dp, gi, x as int, z as int));
        }
    } else {
        proof {
            assert(editor.writes@ == start + cell_writes(cx, cz, w, dp, gi, x as int, z as int));
        }
    }
}

/// Carves one channel cross-section centred on `(center_x, center_z)`: every
/// column within Chebyshev distance `width / 2` of the centre gets `depth`
/// water voxels downward from the centre's ground level, dirt beneath them
/// and cleared vegetation above; the ring one step farther out gets a bank
/// when `depth > 1`.
pub fn create_water_channel(editor: &mut WorldEditor, center_x: i32, center_z: i32, width: i32, depth: i32)
    ensures
        final(editor).ground == old(editor).ground,
        final(editor).writes@ == old(editor).writes@ + channel_writes(
            center_x as int,
            center_z as int,
            width as int,
            depth as int,
            old(editor).ground.level_at(center_x as int, center_z as int),
        ),
{
    let ghost start = editor.writes@;
    let half: i64 = if width >= 0 {
        (width / 2) as i64
    } else {
        -(((-(width as i64)) / 2))
    };
    let g = editor.get_ground_level(center_x, center_z);
    let ghost (cx, cz, w, dp, gi) = (center_x as int, center_z as int, width as int, depth as int, g as int);
    let lo_x: i64 = center_x as i64 - half - 1;
    let hi_x: i64 = center_x as i64 + half + 1;
    let lo_z: i64 = center_z as i64 - half - 1;
    let hi_z: i64 = center_z as i64 + half + 1;
    let mut x: i64 = lo_x;
    while x <= hi_x
        invariant
            half == half_width(w),
            -0x4000_0000 <= half <= 0x4000_0000,
            lo_x == cx - half - 1,
            hi_x == cx + half + 1,
            lo_z == cz - half - 1,
            hi_z == cz + half + 1,
            lo_x <= x <= hi_x + 1 || (x == lo_x && hi_x < lo_x),
            gi == g as int,
            editor.ground == old(editor).ground,
            cx == center_x as int && cz == center_z as int && w == width as int && dp == depth as int,
            editor.writes@ == start + rows_writes(cx, cz, w, dp, gi, x - lo_x),
        decreases hi_x + 1 - x,
    {
        let ghost row_start = editor.writes@;
        let mut z: i64 = lo_z;
        while z <= hi_z
            invariant
                half == half_width(w),
                -0x4000_0000 <= half <= 0x4000_0000,
                lo_x <= x <= hi_x,
                lo_x == cx - half - 1,
                hi_x == cx + half + 1,
                lo_z == cz - half - 1,
                hi_z == cz + half + 1,
                lo_z <= z <= hi_z + 1,
                gi == g as int,
                editor.ground == old(editor).ground,
                cx == center_x as int && cz == center_z as int && w == width as int && dp == depth as int,
                editor.writes@ == row_start + row_writes(cx, cz, w, dp, gi, x as int, z - lo_z),
            decreases hi_z + 1 - z,
        {
            carve_cell(editor, center_x, center_z, width, depth, g, half, x, z);
            proof {
                assert(row_writes(cx, cz, w, dp, gi, x as int, z - lo_z + 1) == row_writes(cx, cz, w, dp, gi, x as int, z - lo_z)
                    + cell_writes(cx, cz, w, dp, gi, x as int, z as int));
            }
            z = z + 1;
        }
        proof {
            assert(z - lo_z == channel_span(w));
            assert(rows_writes(cx, cz, w, dp, gi, x - lo_x + 1) == rows_writes(cx, cz, w, dp, gi, x - lo_x)
                + row_writes(cx, cz, w, dp, gi, x as int, channel_span(w)));
        }
        x = x + 1;
    }
    proof {
        assert(x - lo_x == channel_span(w));
    }
}

/// The `(width, depth)` of a channel of classification `kind`.
pub open spec fn profile(kind: Seq<char>) -> (int, int) {
    if kind == "river"@ {
        (8, 3)
    } else if kind == "canal"@ {
        (6, 2)
    } else if kind == "stream"@ {
        (3, 2)
    } else if kind == "fairway"@ {
        (12, 3)
    } else if kind == "flowline"@ {
        (2, 1)
    } else if kind == "brook"@ {
        (2, 1)
    } else if kind == "ditch"@ {
        (2, 1)
    } else if kind == "drain"@ {
        (1, 1)
    } else {
        (4, 2)
    }
}

/// Determines width and depth from the waterway's classification.
pub fn get_waterway_dimensions(waterway_type: &str) -> (r: (i32, i32))
    ensures
        (r.0 as int, r.1 as int) == profile(waterway_type@),
{
    if str_eq(waterway_type, "river") {
        (8, 3)
    } else if str_eq(waterway_type, "canal") {
        (6, 2)
    } else if str_eq(waterway_type, "stream") {
        (3, 2)
    } else if str_eq(waterway_type, "fairway") {
        (12, 3)
    } else if str_eq(waterway_type, "flowline") {
        (2, 1)
    } else if str_eq(waterway_type, "brook") {
        (2, 1)
    } else if str_eq(waterway_type, "ditch") {
        (2, 1)
    } else if str_eq(waterway_type, "drain") {
        (1, 1)
    } else {
        (4, 2)
    }
}

/// The width that a width tag `tag` sets: the tag read as an integer; failing
/// that, the tag read as a decimal number and truncated toward zero
/// (`truncated`); failing both, `default_width`.
pub open spec fn width_override(tag: Seq<char>, truncated: Option<i32>, default_width: int) -> int {
    match int_of(tag) {
        Some(v) => v,
        None => match truncated {
            Some(t) => t as int,
            None => default_width,
        },
    }
}

/// Applies a width tag to a channel's default width, as `width_override`
/// describes.  `truncated` is the tag read as a decimal number and truncated
/// toward zero, or `None` where the tag reads as no number.
pub fn override_width(width_tag: &str, truncated: Option<i32>, default_width: i32) -> (r: i32)
    ensures
        r as int == width_override(width_tag@, truncated, default_width as int),
{
    match parse_i32(width_tag) {
        Some(v) => v,
        None => match truncated {
            Some(t) => t,
            None => default_width,
        },
    }
}

/// Whether a layer tag places a feature below the ground.
pub open spec fn below_ground(layer: Seq<char>) -> bool {
    layer == "-1"@ || layer == "-2"@ || layer == "-3"@
}

/// Whether the layer tag `layer` places a feature below the ground.
pub fn is_below_ground_layer(layer: &str) -> (r: bool)
    ensures
        r == below_ground(layer@),
{
    str_eq(layer, "-1") || str_eq(layer, "-2") || str_eq(layer, "-3")
}

/// A waterway: its vertices on the ground plane, in order, and its tags.
/// `width_truncated` is the width tag read as a decimal number and truncated
/// toward zero, where it reads as one.
#[derive(Debug)]
pub struct TaggedWay {
    pub nodes: Vec<(i32, i32)>,
    pub waterway: Option<String>,
    pub width: Option<String>,
    pub width_truncated: Option<i32>,
    pub layer: Option<String>,
}

/// The width of the channel carved along `way` of classification `kind`.
pub open spec fn effective_width(way: TaggedWay, kind: Seq<char>) -> int {
    match way.width {
        Some(tag) => width_override(tag@, way.width_truncated, profile(kind).0),
        None => profile(kind).0,
    }
}

/// The grid points of the segment from `a` to `b`.
pub open spec fn segment_points(a: (i32, i32), b: (i32, i32)) -> Seq<(int, int)> {
    Seq::new(
        (major_steps(a.0 as int, a.1 as int, b.0 as int, b.1 as int) + 1) as nat,
        |k: int| line_point(a.0 as int, a.1 as int, b.0 as int, b.1 as int, k),
    )
}

/// The writes of channels centred on the first `n` of `pts`, in order.
pub open spec fn points_writes(ground: HeightMap, pts: Seq<(int, int)>, width: int, depth: int, n: int) -> Seq<VoxelWrite>
    decreases n,
{
    if n <= 0 {
        Seq::empty()
    } else {
        let p = pts[n - 1];
        points_writes(ground, pts, width, depth, n - 1) + channel_writes(
            p.0,
            p.1,
            width,
            depth,
            ground.level_at(p.0, p.1),
        )
    }
}

/// The writes of channels along the segment from `a` to `b`.
pub open spec fn segment_writes(ground: HeightMap, a: (i32, i32), b: (i32, i32), width: int, depth: int) -> Seq<VoxelWrite> {
    let pts = segment_points(a, b);
    points_writes(ground, pts, width, depth, pts.len() as int)
}

/// The writes along the first `n` segments of the polyline `nodes`, each
/// joining a vertex to the next one.
pub open spec fn polyline_writes(ground: HeightMap, nodes: Seq<(i32, i32)>, width: int, depth: int, n: int) -> Seq<VoxelWrite>
    decreases n,
{
    if n <= 0 {
        Seq::empty()
    } else {
        polyline_writes(ground, nodes, width, depth, n - 1) + segment_writes(
            ground,
            nodes[n - 1],
            nodes[n],
            width,
            depth,
        )
    }
}

/// Whether `way` is skipped whole: it has no classification, or it lies below
/// the ground.
pub open spec fn skipped(way: TaggedWay) -> bool {
    way.waterway is None || (way.layer matches Some(l) && below_ground(l@))
}

/// All writes that carving `way` makes over the ground `ground`.
pub open spec fn waterway_writes(ground: HeightMap, way: TaggedWay) -> Seq<VoxelWrite> {
    if skipped(way) {
        Seq::empty()
    } else {
        let kind = way.waterway->Some_0@;
        polyline_writes(
            ground,
            way.nodes@,
            effective_width(way, kind),
            profile(kind).1,
            way.nodes@.len() - 1,
        )
    }
}

/// Carves the channel of a waterway: a cross-section at every grid point of
/// every segment between consecutive vertices, the last vertex never joined
/// back to the first.
pub fn generate_waterways(editor: &mut WorldEditor, element: &TaggedWay)
    ensures
        final(editor).ground == old(editor).ground,
        final(editor).writes@ == old(editor).writes@ + waterway_writes(old(editor).ground, *element),
{
    let ghost start = editor.writes@;
    let waterway_type = match &element.waterway {
        Some(t) => t,
        None => {
            assert(editor.writes@ == start + Seq::<VoxelWrite>::empty());
            return ;
        },
    };
    let (default_width, depth) = get_waterway_dimensions(waterway_type.as_str());
    let width = match &element.width {
        Some(tag) => override_width(tag.as_str(), element.width_truncated, default_width),
        None => default_width,
    };
    if let Some(layer) = &element.layer {
        if is_below_ground_layer(layer.as_str()) {
            assert(editor.writes@ == start + Seq::<VoxelWrite>::empty());
            return ;
        }
    }
    let ghost ground = editor.ground;
    let ghost nodes = element.nodes@;
    let ghost (w, dp) = (width as int, depth as int);
    assert(w == effective_width(*element, waterway_type@));
    let n = element.nodes.len();
    let mut i: usize = 1;
    while i < n
        invariant
            n == nodes.len(),
            nodes == element.nodes@,
            1 <= i,
            i <= n || i == 1,
            editor.ground == ground,
            ground == old(editor).ground,
            w == width as int && dp == depth as int,
            editor.writes@ == start + polyline_writes(ground, nodes, w, dp, i - 1),
        decreases n - i,
    {
        let a = element.nodes[i - 1];
        let b = element.nodes[i];
        let pts = bresenham_line(a.0, a.1, b.0, b.1);
        let ghost seg_start = editor.writes@;
        let ghost spts = segment_points(a, b);
        assert(spts.len() == pts@.len());
        let mut j: usize = 0;
        while j < pts.len()
            invariant
                0 <= j <= pts@.len(),
                spts.len() == pts@.len(),
                spts == segment_points(a, b),
                forall|k: int| 0 <= k < pts@.len() ==> (#[trigger] pts@[k].0 as int, pts@[k].1 as int) == spts[k],
                editor.ground == ground,
                w == width as int && dp == depth as int,
                editor.writes@ == seg_start + points_writes(ground, spts, w, dp, j as int),
            decreases pts@.len() - j,
        {
            let (bx, bz) = pts[j];
            assert((bx as int, bz as int) == spts[j as int]);
            create_water_channel(editor, bx, bz, width, depth);
            proof {
                assert(points_writes(ground, spts, w, dp, j + 1) == points_writes(ground, spts, w, dp, j as int)
                    + channel_writes(bx as int, bz as int, w, dp, ground.level_at(bx as int, bz as int)));
            }
            j = j + 1;
        }
        proof {
            assert(a == nodes[i - 1] && b == nodes[i as int]);
            assert(polyline_writes(ground, nodes, w, dp, i as int) == polyline_writes(ground, nodes, w, dp, i - 1)
                + segment_writes(ground, a, b, w, dp));
        }
        i = i + 1;
    }
    proof {
        if n == 0 {
            assert(polyline_writes(ground, nodes, w, dp, n - 1) == Seq::<VoxelWrite>::empty());
            assert(polyline_writes(ground, nodes, w, dp, i - 1) == Seq::<VoxelWrite>::empty());
        } else {
            assert(i == n);
        }
        assert(editor.writes@ == start + polyline_writes(ground, nodes, w, dp, n - 1));
    }
}

/// Whether `kind` is one of the classifications with a profile of its own.
pub open spec fn known_waterway(kind: Seq<char>) -> bool {
    kind == "river"@ || kind == "canal"@ || kind == "stream"@ || kind == "fairway"@ || kind
        == "flowline"@ || kind == "brook"@ || kind == "ditch"@ || kind == "drain"@
}

/// A classification without a profile of its own is four wide and two deep.
pub proof fn lemma_unknown_profile(kind: Seq<char>)
    requires
        !known_waterway(kind),
    ensures
        profile(kind) == (4int, 2int),
{
}

/// A waterway tagged with a layer below the ground is carved nowhere, whatever
/// its other tags.
pub proof fn lemma_layer_skip(ground: HeightMap, way: TaggedWay)
    requires
        way.layer matches Some(l) && below_ground(l@),
    ensures
        waterway_writes(ground, way) == Seq::<VoxelWrite>::empty(),
{
}

proof fn lemma_polyline_prefix(ground: HeightMap, nodes: Seq<(i32, i32)>, width: int, depth: int, n: int)
    requires
        nodes.len() >= 1,
        n <= nodes.len() - 2,
    ensures
        polyline_writes(ground, nodes, width, depth, n) == polyline_writes(
            ground,
            nodes.drop_last(),
            width,
            depth,
            n,
        ),
    decreases n,
{
    if n > 0 {
        lemma_polyline_prefix(ground, nodes, width, depth, n - 1);
        assert(nodes.drop_last()[n - 1] == nodes[n - 1]);
        assert(nodes.drop_last()[n] == nodes[n]);
    }
}

/// The writes along a polyline are those along the polyline without its last
/// vertex, followed by those of the one segment that reaches the last vertex:
/// each vertex joins only the one before it, and no segment closes the line
/// from the last vertex back to the first.
pub proof fn lemma_open_polyline(ground: HeightMap, nodes: Seq<(i32, i32)>, width: int, depth: int)
    requires
        nodes.len() >= 2,
    ensures
        polyline_writes(ground, nodes, width, depth, nodes.len() - 1) == polyline_writes(
            ground,
            nodes.drop_last(),
            width,
            depth,
            nodes.len() - 2,
        ) + segment_writes(ground, nodes[nodes.len() - 2], nodes[nodes.len() - 1], width, depth),
{
    lemma_polyline_prefix(ground, nodes, width, depth, nodes.len() - 2);
}

/// The writes of `s` that fall in column `(x, z)`, in order.
pub open spec fn writes_at(s: Seq<VoxelWrite>, x: int, z: int) -> Seq<VoxelWrite>
    decreases s.len(),
{
    if s.len() == 0 {
        Seq::empty()
    } else {
        let w = s.last();
        writes_at(s.drop_last(), x, z) + if w.x as int == x && w.z as int == z {
            seq![w]
        } else {
            Seq::empty()
        }
    }
}

proof fn lemma_writes_at_concat(a: Seq<VoxelWrite>, b: Seq<VoxelWrite>, x: int, z: int)
    ensures
        writes_at(a + b, x, z) == writes_at(a, x, z) + writes_at(b, x, z),
    decreases b.len(),
{
    if b.len() == 0 {
        assert(a + b == a);
        assert(writes_at(b, x, z) == Seq::<VoxelWrite>::empty());
        assert(writes_at(a, x, z) + Seq::<VoxelWrite>::empty() == writes_at(a, x, z));
    } else {
        assert((a + b).drop_last() == a + b.drop_last());
        assert((a + b).last() == b.last());
        lemma_writes_at_concat(a, b.drop_last(), x, z);
        let t = if b.last().x as int == x && b.last().z as int == z {
            seq![b.last()]
        } else {
            Seq::<VoxelWrite>::empty()
        };
        assert(writes_at(a, x, z) + writes_at(b.drop_last(), x, z) + t == writes_at(a, x, z) + (
        writes_at(b.drop_last(), x, z) + t));
    }
}

proof fn lemma_writes_at_single_column(s: Seq<VoxelWrite>, cx: int, cz: int, x: int, z: int)
    requires
        forall|i: int| 0 <= i < s.len() ==> (#[trigger] s[i]).x as int == cx && s[i].z as int == cz,
    ensures
        writes_at(s, x, z) == if cx == x && cz == z {
            s
        } else {
            Seq::empty()
        },
    decreases s.len(),
{
    if s.len() > 0 {
        assert(s.last() == s[s.len() - 1]);
        lemma_writes_at_single_column(s.drop_last(), cx, cz, x, z);
        if cx == x && cz == z {
            assert(s.drop_last() + seq![s.last()] == s);
        } else {
            assert(Seq::<VoxelWrite>::empty() + Seq::<VoxelWrite>::empty() == Seq::<VoxelWrite>::empty());
        }
    }
}

proof fn lemma_columns_in_place(x: int, z: int, g: int, n: int)
    requires
        i64::MIN <= x <= i64::MAX,
        i64::MIN <= z <= i64::MAX,
    ensures
        water_column(x, z, g, n).len() == if n > 0 {
            n
        } else {
            0
        },
        bank_column(x, z, g, n).len() == water_column(x, z, g, n).len(),
        forall|i: int| 0 <= i < water_column(x, z, g, n).len() ==> (#[trigger] water_column(x, z, g, n)[i]).x as int == x
            && water_column(x, z, g, n)[i].z as int == z,
        forall|i: int| 0 <= i < bank_column(x, z, g, n).len() ==> (#[trigger] bank_column(x, z, g, n)[i]).x as int == x
            && bank_column(x, z, g, n)[i].z as int == z,
    decreases n,
{
    if n > 0 {
        lemma_columns_in_place(x, z, g, n - 1);
        assert forall|i: int| 0 <= i < water_column(x, z, g, n).len() implies (#[trigger] water_column(x, z, g, n)[i]).x as int == x
            && water_column(x, z, g, n)[i].z as int == z by {
            if i < n - 1 {
                assert(water_column(x, z, g, n)[i] == water_column(x, z, g, n - 1)[i]);
            }
        }
        assert forall|i: int| 0 <= i < bank_column(x, z, g, n).len() implies (#[trigger] bank_column(x, z, g, n)[i]).x as int == x
            && bank_column(x, z, g, n)[i].z as int == z by {
            if i < n - 1 {
                assert(bank_column(x, z, g, n)[i] == bank_column(x, z, g, n - 1)[i]);
            }
        }
    }
}

proof fn lemma_cell_in_place(cx: int, cz: int, width: int, depth: int, g: int, x0: int, z0: int, x: int, z: int)
    requires
        i64::MIN <= x0 <= i64::MAX,
        i64::MIN <= z0 <= i64::MAX,
    ensures
        writes_at(cell_writes(cx, cz, width, depth, g, x0, z0), x, z) == if x0 == x && z0 == z {
            cell_writes(cx, cz, width, depth, g, x0, z0)
        } else {
            Seq::empty()
        },
{
    lemma_columns_in_place(x0, z0, g, depth);
    lemma_columns_in_place(x0, z0, g, slope_depth(depth));
    let c = cell_writes(cx, cz, width, depth, g, x0, z0);
    assert forall|i: int| 0 <= i < c.len() implies (#[trigger] c[i]).x as int == x0 && c[i].z as int == z0 by {
        let h = half_width(width);
        let dist = chebyshev(x0 - cx, z0 - cz);
        if dist <= h {
            let wc = water_column(x0, z0, g, depth);
            if i < wc.len() {
                assert(c[i] == wc[i]);
            }
        } else if dist == h + 1 && depth > 1 {
            let bc = bank_column(x0, z0, g, slope_depth(depth));
            if i < bc.len() {
                assert(c[i] == bc[i]);
            }
        }
    }
    lemma_writes_at_single_column(c, x0, z0, x, z);
}

proof fn lemma_row_at(cx: int, cz: int, width: int, depth: int, g: int, x0: int, n: int, x: int, z: int)
    requires
        i64::MIN <= x0 <= i64::MAX,
        -0x1_0000_0000 <= cz <= 0x1_0000_0000,
        -0x1_0000_0000 <= half_width(width) <= 0x1_0000_0000,
        n <= channel_span(width),
    ensures
        writes_at(row_writes(cx, cz, width, depth, g, x0, n), x, z) == if x0 == x && cz - half_width(
            width,
        ) - 1 <= z < cz - half_width(width) - 1 + n {
            cell_writes(cx, cz, width, depth, g, x, z)
        } else {
            Seq::empty()
        },
    decreases n,
{
    if n > 0 {
        let z0 = cz - half_width(width) - 1 + (n - 1);
        lemma_row_at(cx, cz, width, depth, g, x0, n - 1, x, z);
        lemma_writes_at_concat(
            row_writes(cx, cz, width, depth, g, x0, n - 1),
            cell_writes(cx, cz, width, depth, g, x0, z0),
            x,
            z,
        );
        lemma_cell_in_place(cx, cz, width, depth, g, x0, z0, x, z);
        assert(Seq::<VoxelWrite>::empty() + Seq::<VoxelWrite>::empty() == Seq::<VoxelWrite>::empty());
        assert(Seq::<VoxelWrite>::empty() + cell_writes(cx, cz, width, depth, g, x, z) == cell_writes(cx, cz, width, depth, g, x, z));
        assert(cell_writes(cx, cz, width, depth, g, x, z) + Seq::<VoxelWrite>::empty() == cell_writes(cx, cz, width, depth, g, x, z));
    } else {
        assert(writes_at(Seq::<VoxelWrite>::empty(), x, z) == Seq::<VoxelWrite>::empty());
    }
}

proof fn lemma_rows_at(cx: int, cz: int, width: int, depth: int, g: int, n: int, x: int, z: int)
    requires
        -0x1_0000_0000 <= cx <= 0x1_0000_0000,
        -0x1_0000_0000 <= cz <= 0x1_0000_0000,
        -0x1_0000_0000 <= half_width(width) <= 0x1_0000_0000,
        n <= channel_span(width),
    ensures
        writes_at(rows_writes(cx, cz, width, depth, g, n), x, z) == if cx - half_width(width) - 1 <= x
            < cx - half_width(width) - 1 + n && cz - half_width(width) - 1 <= z < cz - half_width(
            width,
        ) - 1 + channel_span(width) {
            cell_writes(cx, cz, width, depth, g, x, z)
        } else {
            Seq::empty()
        },
    decreases n,
{
    if n > 0 {
        let x0 = cx - half_width(width) - 1 + (n - 1);
        lemma_rows_at(cx, cz, width, depth, g, n - 1, x, z);
        lemma_writes_at_concat(
            rows_writes(cx, cz, width, depth, g, n - 1),
            row_writes(cx, cz, width, depth, g, x0, channel_span(width)),
            x,
            z,
        );
        lemma_row_at(cx, cz, width, depth, g, x0, channel_span(width), x, z);
        assert(Seq::<VoxelWrite>::empty() + Seq::<VoxelWrite>::empty() == Seq::<VoxelWrite>::empty());
        assert(Seq::<VoxelWrite>::empty() + cell_writes(cx, cz, width, depth, g, x, z) == cell_writes(cx, cz, width, depth, g, x, z));
        assert(cell_writes(cx, cz, width, depth, g, x, z) + Seq::<VoxelWrite>::empty() == cell_writes(cx, cz, width, depth, g, x, z));
    } else {
        assert(writes_at(Seq::<VoxelWrite>::empty(), x, z) == Seq::<VoxelWrite>::empty());
    }
}

/// In every column `(x, z)`, a channel cross-section makes exactly the writes
/// of `cell_writes`: `depth` water voxels downward from the ground level with
/// dirt beneath and vegetation cleared above within Chebyshev distance
/// `width / 2` of the centre; the bank one step farther out only when
/// `depth > 1`; nothing anywhere else.
pub proof fn lemma_channel_columns(cx: i32, cz: i32, width: i32, depth: i32, g: i32, x: int, z: int)
    ensures
        writes_at(channel_writes(cx as int, cz as int, width as int, depth as int, g as int), x, z)
            == cell_writes(cx as int, cz as int, width as int, depth as int, g as int, x, z),
{
    let (c, d, w, dp, gi) = (cx as int, cz as int, width as int, depth as int, g as int);
    lemma_rows_at(c, d, w, dp, gi, channel_span(w), x, z);
    let h = half_width(w);
    if !(c - h - 1 <= x < c - h - 1 + channel_span(w) && d - h - 1 <= z < d - h - 1 + channel_span(w)) {
        assert(chebyshev(x - c, z - d) > h + 1);
    }
}

} // verus!
