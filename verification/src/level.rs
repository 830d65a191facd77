//! The level grid and its parser. A level is a fixed-size grid of tiles given
//! as text: one line per row (top row first), cells separated by blanks, each
//! cell read by its first character. `1` is a wall; `P`, `O`, `E` and `T` mark
//! the player spawn, the portal spawn, an enemy spawn and a treasure spawn on
//! an empty tile; anything else — leniently — is an empty tile. A text with
//! too few rows or a row with too few cells is rejected as a whole: the core
//! assumes a validated level on entry. Extra rows above the grid and extra
//! cells past its right edge are ignored.
use vstd::prelude::*;
use vstd::arithmetic::div_mod::lemma_fundamental_div_mod_converse_div;
use vstd::arithmetic::div_mod::lemma_fundamental_div_mod_converse_mod;
use crate::geom::Vec2Fx;

verus! {

pub const MAP_WIDTH: usize = 36;

pub const MAP_HEIGHT: usize = 20;

/// Side of one square tile, in milli-units.
pub const TILE_SIZE_MILLI: i64 = 16_000;

/// Half-extent of the collider a wall tile gets: half a tile plus a small
/// overlap, so a body cannot snag on the seam between two wall tiles.
pub const WALL_COLLIDER_HALF_MILLI: i64 = 8_100;

/// Half-extent of a treasure's collider: shrunk from half a tile to make the
/// treasure a little harder to grab.
pub const TREASURE_COLLIDER_HALF_MILLI: i64 = 4_000;

#[derive(Clone, Copy, PartialEq, Eq, Structural, Debug)]
pub enum Tile {
    Empty,
    Wall,
}

/// A parsed level: the tile grid (row 0 at the bottom) and the spawn
/// coordinates read off the grid, each as (column, row).
pub struct LevelMap {
    pub tiles: Vec<Vec<Tile>>,
    pub player_spawn: (u32, u32),
    pub portal_spawn: (u32, u32),
    pub enemies: Vec<(u32, u32)>,
    pub treasures: Vec<(u32, u32)>,
}

/// Blanks that separate cells within a line.
pub open spec fn is_space(c: char) -> bool {
    c == ' ' || c == '\t' || c == '\r'
}

/// The first characters of the whitespace-separated tokens of `s[i..]`, given
/// whether position `i` is already inside a token whose first character was
/// taken.
pub open spec fn token_firsts_from(s: Seq<char>, i: int, in_token: bool) -> Seq<char>
    decreases s.len() - i,
{
    if i < 0 || i >= s.len() {
        Seq::empty()
    } else if is_space(s[i]) {
        token_firsts_from(s, i + 1, false)
    } else if in_token {
        token_firsts_from(s, i + 1, true)
    } else {
        seq![s[i]] + token_firsts_from(s, i + 1, true)
    }
}

/// The first characters of the whitespace-separated tokens of a line: the
/// sequence of cell characters the parser reads.
pub open spec fn token_firsts(s: Seq<char>) -> Seq<char> {
    token_firsts_from(s, 0, false)
}

/// The views of a vector of lines.
pub open spec fn views_of(lines: Seq<Vec<char>>) -> Seq<Seq<char>> {
    Seq::new(lines.len(), |k: int| lines[k]@)
}

/// Grid row `i`, counted from the bottom: the cell characters of the `i`-th
/// line from the end of the text.
pub open spec fn row_of(lines: Seq<Seq<char>>, i: int) -> Seq<char> {
    token_firsts(lines[lines.len() - 1 - i])
}

/// A text the parser accepts: at least the grid's height in lines, and each of
/// the bottom rows carries at least the grid's width in cells.
pub open spec fn lines_usable(lines: Seq<Seq<char>>) -> bool {
    &&& lines.len() >= MAP_HEIGHT
    &&& forall|i: int| 0 <= i < MAP_HEIGHT ==> (#[trigger] row_of(lines, i)).len() >= MAP_WIDTH
}

/// The cell character at column `j` of bottom-up row `i`.
pub open spec fn cell(lines: Seq<Seq<char>>, i: int, j: int) -> char {
    row_of(lines, i)[j]
}

/// The tile a cell character stands for; unknown symbols default to empty.
pub open spec fn spec_tile_of(c: char) -> Tile {
    if c == '1' {
        Tile::Wall
    } else {
        Tile::Empty
    }
}

pub fn tile_of(c: char) -> (t: Tile)
    ensures
        t == spec_tile_of(c),
{
    if c == '1' {
        Tile::Wall
    } else {
        Tile::Empty
    }
}

/// The atlas sprite a tile is drawn with.
pub open spec fn spec_tile_sprite(t: Tile) -> int {
    match t {
        Tile::Wall => 0,
        Tile::Empty => 1,
    }
}

pub fn tile_sprite_index(t: Tile) -> (i: usize)
    ensures
        i as int == spec_tile_sprite(t),
{
    match t {
        Tile::Wall => 0,
        Tile::Empty => 1,
    }
}

/// Whether grid cell (row `i`, column `j`) holds marker `c`.
pub open spec fn is_marker_at(lines: Seq<Seq<char>>, c: char, i: int, j: int) -> bool {
    0 <= i < MAP_HEIGHT && 0 <= j < MAP_WIDTH && cell(lines, i, j) == c
}

/// The position of a cell in scan order: row by row from the bottom, left to
/// right within a row.
pub open spec fn scan_idx(i: int, j: int) -> int {
    i * MAP_WIDTH + j
}

/// What a spawn field must hold after the cells before scan position `p` have
/// been read: the marker cell latest in scan order, as (column, row), or the
/// default (0, 0) when no scanned cell holds the marker.
pub open spec fn spawn_prefix_ok(
    lines: Seq<Seq<char>>,
    c: char,
    s: (u32, u32),
    p: int,
) -> bool {
    if exists|a: int, b: int| is_marker_at(lines, c, a, b) && scan_idx(a, b) < p {
        &&& is_marker_at(lines, c, s.1 as int, s.0 as int)
        &&& scan_idx(s.1 as int, s.0 as int) < p
        &&& forall|a: int, b: int|
            is_marker_at(lines, c, a, b) && scan_idx(a, b) < p ==> scan_idx(a, b) <= scan_idx(
                s.1 as int,
                s.0 as int,
            )
    } else {
        s == (0u32, 0u32)
    }
}

/// The spawn a whole scan of the grid yields.
pub open spec fn spawn_ok(lines: Seq<Seq<char>>, c: char, s: (u32, u32)) -> bool {
    spawn_prefix_ok(lines, c, s, MAP_HEIGHT as int * MAP_WIDTH as int)
}

/// The (column, row) coordinates of the cells holding marker `c` among the
/// first `p` cells in scan order, in scan order.
pub open spec fn coords_upto(lines: Seq<Seq<char>>, c: char, p: int) -> Seq<(u32, u32)>
    decreases p,
{
    if p <= 0 {
        Seq::empty()
    } else {
        let q = p - 1;
        let i = q / (MAP_WIDTH as int);
        let j = q % (MAP_WIDTH as int);
        coords_upto(lines, c, q) + (if cell(lines, i, j) == c {
            seq![(j as u32, i as u32)]
        } else {
            Seq::empty()
        })
    }
}

/// All coordinates a grid scan collects.
pub open spec fn coords_of(lines: Seq<Seq<char>>, c: char) -> Seq<(u32, u32)> {
    coords_upto(lines, c, MAP_HEIGHT as int * MAP_WIDTH as int)
}

/// What the parser promises of an accepted level.
pub open spec fn level_matches(lines: Seq<Seq<char>>, m: LevelMap) -> bool {
    &&& m.tiles@.len() == MAP_HEIGHT
    &&& forall|i: int| 0 <= i < MAP_HEIGHT ==> (#[trigger] m.tiles@[i])@.len() == MAP_WIDTH
    &&& forall|i: int, j: int|
        0 <= i < MAP_HEIGHT && 0 <= j < MAP_WIDTH ==> (#[trigger] m.tiles@[i]@[j]) == spec_tile_of(
            cell(lines, i, j),
        )
    &&& spawn_ok(lines, 'P', m.player_spawn)
    &&& spawn_ok(lines, 'O', m.portal_spawn)
    &&& m.enemies@ == coords_of(lines, 'E')
    &&& m.treasures@ == coords_of(lines, 'T')
}

fn is_space_char(c: char) -> (r: bool)
    ensures
        r == is_space(c),
{
    c == ' ' || c == '\t' || c == '\r'
}

/// The cell characters of one line: the first character of each
/// whitespace-separated token.
pub fn scan_token_firsts(line: &Vec<char>) -> (r: Vec<char>)
    ensures
        r@ == token_firsts(line@),
{
    let mut r: Vec<char> = Vec::new();
    let mut in_token = false;
    let mut i: usize = 0;
    while i < line.len()
        invariant
            i <= line@.len(),
            r@ + token_firsts_from(line@, i as int, in_token) == token_firsts(line@),
        decreases line@.len() - i,
    {
        let c = line[i];
        if is_space_char(c) {
            in_token = false;
        } else if !in_token {
            r.push(c);
            proof {
                assert(r@ + token_firsts_from(line@, i + 1, true) =~= token_firsts(line@));
            }
            in_token = true;
        }
        i = i + 1;
    }
    assert(r@ =~= token_firsts(line@));
    r
}

/// Scan positions name cells uniquely.
proof fn lemma_scan_idx_injective(a: int, b: int, i: int, j: int)
    requires
        0 <= b < MAP_WIDTH,
        0 <= j < MAP_WIDTH,
        scan_idx(a, b) == scan_idx(i, j),
    ensures
        a == i && b == j,
{
    assert(a == i && b == j) by (nonlinear_arith)
        requires
            0 <= b < 36,
            0 <= j < 36,
            a * 36 + b == i * 36 + j;
}

/// Parse a level text, given as its lines (top line first), each as its
/// characters. Returns the level exactly when the text is usable: enough
/// lines, enough cells on each grid row.
pub fn parse_level(lines: &Vec<Vec<char>>) -> (r: Option<LevelMap>)
    ensures
        r is Some <==> lines_usable(views_of(lines@)),
        r is Some ==> level_matches(views_of(lines@), r->0),
{
    let ghost vls = views_of(lines@);
    if lines.len() < MAP_HEIGHT {
        assert(!lines_usable(vls));
        return None;
    }
    // Bottom-up rows of cell characters.
    let mut rows: Vec<Vec<char>> = Vec::new();
    let mut i: usize = 0;
    while i < MAP_HEIGHT
        invariant
            lines@.len() >= MAP_HEIGHT,
            vls == views_of(lines@),
            i <= MAP_HEIGHT,
            rows@.len() == i,
            forall|k: int|
                0 <= k < i ==> (#[trigger] rows@[k])@ == row_of(vls, k) && rows@[k]@.len()
                    >= MAP_WIDTH,
        decreases MAP_HEIGHT - i,
    {
        let line = &lines[lines.len() - 1 - i];
        let toks = scan_token_firsts(line);
        if toks.len() < MAP_WIDTH {
            assert(row_of(vls, i as int).len() < MAP_WIDTH);
            assert(!lines_usable(vls));
            return None;
        }
        rows.push(toks);
        i = i + 1;
    }
    assert forall|k: int| 0 <= k < MAP_HEIGHT implies (#[trigger] row_of(vls, k)).len()
        >= MAP_WIDTH by {
        assert(rows@[k]@ == row_of(vls, k));
    }
    assert(lines_usable(vls));
    // Scan the grid: tiles, spawns, coordinate lists.
    let mut tiles: Vec<Vec<Tile>> = Vec::new();
    let mut player_spawn: (u32, u32) = (0, 0);
    let mut portal_spawn: (u32, u32) = (0, 0);
    let mut enemies: Vec<(u32, u32)> = Vec::new();
    let mut treasures: Vec<(u32, u32)> = Vec::new();
    let mut i: usize = 0;
    while i < MAP_HEIGHT
        invariant
            lines_usable(vls),
            vls == views_of(lines@),
            rows@.len() == MAP_HEIGHT,
            forall|k: int|
                0 <= k < MAP_HEIGHT ==> (#[trigger] rows@[k])@ == row_of(vls, k) && rows@[k]@.len()
                    >= MAP_WIDTH,
            i <= MAP_HEIGHT,
            tiles@.len() == i,
            forall|a: int| 0 <= a < i ==> (#[trigger] tiles@[a])@.len() == MAP_WIDTH,
            forall|a: int, b: int|
                0 <= a < i && 0 <= b < MAP_WIDTH ==> (#[trigger] tiles@[a]@[b]) == spec_tile_of(
                    cell(vls, a, b),
                ),
            spawn_prefix_ok(vls, 'P', player_spawn, scan_idx(i as int, 0)),
            spawn_prefix_ok(vls, 'O', portal_spawn, scan_idx(i as int, 0)),
            enemies@ == coords_upto(vls, 'E', scan_idx(i as int, 0)),
            treasures@ == coords_upto(vls, 'T', scan_idx(i as int, 0)),
        decreases MAP_HEIGHT - i,
    {
        let row = &rows[i];
        let mut trow: Vec<Tile> = Vec::new();
        let mut j: usize = 0;
        while j < MAP_WIDTH
            invariant
                lines_usable(vls),
                vls == views_of(lines@),
                rows@.len() == MAP_HEIGHT,
                forall|k: int|
                    0 <= k < MAP_HEIGHT ==> (#[trigger] rows@[k])@ == row_of(vls, k)
                        && rows@[k]@.len() >= MAP_WIDTH,
                i < MAP_HEIGHT,
                row == rows@[i as int],
                j <= MAP_WIDTH,
                trow@.len() == j,
                forall|b: int|
                    0 <= b < j ==> (#[trigger] trow@[b]) == spec_tile_of(cell(vls, i as int, b)),
                spawn_prefix_ok(vls, 'P', player_spawn, scan_idx(i as int, j as int)),
                spawn_prefix_ok(vls, 'O', portal_spawn, scan_idx(i as int, j as int)),
                enemies@ == coords_upto(vls, 'E', scan_idx(i as int, j as int)),
                treasures@ == coords_upto(vls, 'T', scan_idx(i as int, j as int)),
            decreases MAP_WIDTH - j,
        {
            let ghost p = scan_idx(i as int, j as int);
            proof {
                lemma_fundamental_div_mod_converse_div(p, MAP_WIDTH as int, i as int, j as int);
                lemma_fundamental_div_mod_converse_mod(p, MAP_WIDTH as int, i as int, j as int);
            }
            let c = row[j];
            assert(c == cell(vls, i as int, j as int));
            trow.push(tile_of(c));
            if c == 'P' {
                player_spawn = (j as u32, i as u32);
            } else if c == 'O' {
                portal_spawn = (j as u32, i as u32);
            } else if c == 'E' {
                enemies.push((j as u32, i as u32));
            } else if c == 'T' {
                treasures.push((j as u32, i as u32));
            }
            proof {
                lemma_spawn_prefix_step(vls, 'P', player_spawn, i as int, j as int, c);
                lemma_spawn_prefix_step(vls, 'O', portal_spawn, i as int, j as int, c);
                assert(enemies@ =~= coords_upto(vls, 'E', p + 1));
                assert(treasures@ =~= coords_upto(vls, 'T', p + 1));
                assert(scan_idx(i as int, j as int + 1) == p + 1);
            }
            j = j + 1;
        }
        tiles.push(trow);
        proof {
            assert(scan_idx(i as int + 1, 0) == scan_idx(i as int, MAP_WIDTH as int));
        }
        i = i + 1;
    }
    let m = LevelMap { tiles, player_spawn, portal_spawn, enemies, treasures };
    assert(spawn_ok(vls, 'P', m.player_spawn)) by {
        assert(scan_idx(MAP_HEIGHT as int, 0) == MAP_HEIGHT as int * MAP_WIDTH as int);
    }
    assert(spawn_ok(vls, 'O', m.portal_spawn)) by {
        assert(scan_idx(MAP_HEIGHT as int, 0) == MAP_HEIGHT as int * MAP_WIDTH as int);
    }
    assert(m.enemies@ == coords_of(vls, 'E')) by {
        assert(scan_idx(MAP_HEIGHT as int, 0) == MAP_HEIGHT as int * MAP_WIDTH as int);
    }
    assert(m.treasures@ == coords_of(vls, 'T')) by {
        assert(scan_idx(MAP_HEIGHT as int, 0) == MAP_HEIGHT as int * MAP_WIDTH as int);
    }
    Some(m)
}

/// Reading one more cell preserves the spawn invariant: a marker cell takes
/// over as the latest seen, any other cell changes nothing.
proof fn lemma_spawn_prefix_step(
    lines: Seq<Seq<char>>,
    c: char,
    s: (u32, u32),
    i: int,
    j: int,
    read: char,
)
    requires
        0 <= i < MAP_HEIGHT,
        0 <= j < MAP_WIDTH,
        read == cell(lines, i, j),
        read == c ==> s == (j as u32, i as u32),
        read != c ==> spawn_prefix_ok(lines, c, s, scan_idx(i, j)),
    ensures
        spawn_prefix_ok(lines, c, s, scan_idx(i, j) + 1),
{
    let p = scan_idx(i, j);
    if read == c {
        assert(is_marker_at(lines, c, i, j));
        assert forall|a: int, b: int|
            is_marker_at(lines, c, a, b) && scan_idx(a, b) < p + 1 implies scan_idx(a, b)
            <= scan_idx(s.1 as int, s.0 as int) by {
            assert(scan_idx(s.1 as int, s.0 as int) == p);
        }
    } else {
        assert forall|a: int, b: int|
            is_marker_at(lines, c, a, b) && scan_idx(a, b) < p + 1 implies scan_idx(a, b) < p by {
            if scan_idx(a, b) == p {
                lemma_scan_idx_injective(a, b, i, j);
            }
        }
    }
}

/// A scan over `p` cells collects at most `p` coordinates.
pub proof fn lemma_coords_upto_len(lines: Seq<Seq<char>>, c: char, p: int)
    ensures
        coords_upto(lines, c, p).len() <= if p >= 0 {
            p
        } else {
            0
        },
    decreases p,
{
    if p > 0 {
        lemma_coords_upto_len(lines, c, p - 1);
    }
}

/// Every coordinate a scan collects lies inside the grid.
pub proof fn lemma_coords_upto_bounds(lines: Seq<Seq<char>>, c: char, p: int)
    requires
        p <= MAP_HEIGHT as int * MAP_WIDTH as int,
    ensures
        forall|k: int|
            0 <= k < coords_upto(lines, c, p).len() ==> (#[trigger] coords_upto(lines, c, p)[k]).0
                < MAP_WIDTH && coords_upto(lines, c, p)[k].1 < MAP_HEIGHT,
    decreases p,
{
    if p > 0 {
        lemma_coords_upto_bounds(lines, c, p - 1);
        let q = p - 1;
        let i = q / (MAP_WIDTH as int);
        let j = q % (MAP_WIDTH as int);
        assert(0 <= j < MAP_WIDTH) by {
            vstd::arithmetic::div_mod::lemma_mod_bound(q, MAP_WIDTH as int);
        }
        assert(i < MAP_HEIGHT) by {
            vstd::arithmetic::div_mod::lemma_fundamental_div_mod(q, MAP_WIDTH as int);
            assert(i * MAP_WIDTH <= q) by (nonlinear_arith)
                requires q == (MAP_WIDTH as int) * i + j, j >= 0;
            assert(i * MAP_WIDTH < MAP_HEIGHT as int * MAP_WIDTH as int);
            assert(i < MAP_HEIGHT) by (nonlinear_arith)
                requires i * 36 < 20 * 36;
        }
        assert(i >= 0) by {
            vstd::arithmetic::div_mod::lemma_div_pos_is_pos(q, MAP_WIDTH as int);
        }
        let prev = coords_upto(lines, c, q);
        let cur = coords_upto(lines, c, p);
        assert forall|k: int|
            0 <= k < cur.len() implies (#[trigger] cur[k]).0 < MAP_WIDTH && cur[k].1
            < MAP_HEIGHT by {
            if k < prev.len() {
                assert(cur[k] == prev[k]);
            } else {
                assert(cur[k] == (j as u32, i as u32));
            }
        }
    }
}

impl LevelMap {
    /// Every spawn coordinate lies inside the grid.
    pub open spec fn coords_bounded(self) -> bool {
        &&& (self.player_spawn.0 as int) < MAP_WIDTH as int
        &&& (self.player_spawn.1 as int) < MAP_HEIGHT as int
        &&& (self.portal_spawn.0 as int) < MAP_WIDTH as int
        &&& (self.portal_spawn.1 as int) < MAP_HEIGHT as int
        &&& forall|k: int|
            0 <= k < self.enemies@.len() ==> ((#[trigger] self.enemies@[k]).0 as int)
                < MAP_WIDTH as int && (self.enemies@[k].1 as int) < MAP_HEIGHT as int
        &&& forall|k: int|
            0 <= k < self.treasures@.len() ==> ((#[trigger] self.treasures@[k]).0 as int)
                < MAP_WIDTH as int && (self.treasures@[k].1 as int) < MAP_HEIGHT as int
    }
}

/// What the parser accepts is in-grid: a parsed level's spawn coordinates are
/// all inside the grid bounds.
pub proof fn lemma_level_coords_bounded(lines: Seq<Seq<char>>, m: LevelMap)
    requires
        level_matches(lines, m),
    ensures
        m.coords_bounded(),
{
    lemma_coords_upto_bounds(lines, 'E', MAP_HEIGHT as int * MAP_WIDTH as int);
    lemma_coords_upto_bounds(lines, 'T', MAP_HEIGHT as int * MAP_WIDTH as int);
    let full = MAP_HEIGHT as int * MAP_WIDTH as int;
    if exists|a: int, b: int| is_marker_at(lines, 'P', a, b) && scan_idx(a, b) < full {
    } else {
        assert(m.player_spawn == (0u32, 0u32));
    }
    if exists|a: int, b: int| is_marker_at(lines, 'O', a, b) && scan_idx(a, b) < full {
    } else {
        assert(m.portal_spawn == (0u32, 0u32));
    }
}

/// The world-space position of a grid cell: the cell coordinates scaled by the
/// tile size.
pub fn tile_to_world(t: (u32, u32)) -> (v: Vec2Fx)
    requires
        t.0 < MAP_WIDTH as u32,
        t.1 < MAP_HEIGHT as u32,
    ensures
        v.x == TILE_SIZE_MILLI * t.0 as int,
        v.y == TILE_SIZE_MILLI * t.1 as int,
        v.in_coord_range(),
{
    let x: i64 = TILE_SIZE_MILLI * (t.0 as i64);
    let y: i64 = TILE_SIZE_MILLI * (t.1 as i64);
    Vec2Fx { x, y }
}

/// The grid of a parsed level has the fixed dimensions.
pub open spec fn grid_wf(tiles: Seq<Vec<Tile>>) -> bool {
    &&& tiles.len() == MAP_HEIGHT
    &&& forall|i: int| 0 <= i < MAP_HEIGHT ==> (#[trigger] tiles[i])@.len() == MAP_WIDTH
}

/// The (column, row) coordinates of the wall tiles among the first `p` cells
/// in scan order.
pub open spec fn wall_coords_upto(tiles: Seq<Vec<Tile>>, p: int) -> Seq<(u32, u32)>
    decreases p,
{
    if p <= 0 {
        Seq::empty()
    } else {
        let q = p - 1;
        let i = q / (MAP_WIDTH as int);
        let j = q % (MAP_WIDTH as int);
        wall_coords_upto(tiles, q) + (if tiles[i]@[j] == Tile::Wall {
            seq![(j as u32, i as u32)]
        } else {
            Seq::empty()
        })
    }
}

/// Where the wall tiles sit: the cells the physics layer gets a static
/// collider for, in scan order.
pub fn wall_positions(m: &LevelMap) -> (r: Vec<(u32, u32)>)
    requires
        grid_wf(m.tiles@),
    ensures
        r@ == wall_coords_upto(m.tiles@, MAP_HEIGHT as int * MAP_WIDTH as int),
{
    let mut r: Vec<(u32, u32)> = Vec::new();
    let mut i: usize = 0;
    while i < MAP_HEIGHT
        invariant
            grid_wf(m.tiles@),
            i <= MAP_HEIGHT,
            r@ == wall_coords_upto(m.tiles@, scan_idx(i as int, 0)),
        decreases MAP_HEIGHT - i,
    {
        let row = &m.tiles[i];
        let mut j: usize = 0;
        while j < MAP_WIDTH
            invariant
                grid_wf(m.tiles@),
                i < MAP_HEIGHT,
                row == m.tiles@[i as int],
                j <= MAP_WIDTH,
                r@ == wall_coords_upto(m.tiles@, scan_idx(i as int, j as int)),
            decreases MAP_WIDTH - j,
        {
            let ghost p = scan_idx(i as int, j as int);
            proof {
                lemma_fundamental_div_mod_converse_div(p, MAP_WIDTH as int, i as int, j as int);
                lemma_fundamental_div_mod_converse_mod(p, MAP_WIDTH as int, i as int, j as int);
            }
            let t = row[j];
            if t == Tile::Wall {
                r.push((j as u32, i as u32));
            }
            proof {
                assert(r@ =~= wall_coords_upto(m.tiles@, p + 1));
                assert(scan_idx(i as int, j as int + 1) == p + 1);
            }
            j = j + 1;
        }
        proof {
            assert(scan_idx(i as int + 1, 0) == scan_idx(i as int, MAP_WIDTH as int));
        }
        i = i + 1;
    }
    proof {
        assert(scan_idx(MAP_HEIGHT as int, 0) == MAP_HEIGHT as int * MAP_WIDTH as int);
    }
    r
}

/// One static collider the spawn planner asks the physics layer to place.
#[derive(Clone, Copy, PartialEq, Eq, Structural, Debug)]
pub struct BoundarySpec {
    pub center: Vec2Fx,
    pub half_extents: Vec2Fx,
}

/// The three level-edge colliders: the floor under the grid and the two side
/// walls, sized from the grid dimensions.
pub fn boundary_colliders() -> (r: Vec<BoundarySpec>)
    ensures
        r@.len() == 3,
        r@[0] == (BoundarySpec {
            center: Vec2Fx { x: 288_000, y: -8_000i64 },
            half_extents: Vec2Fx { x: 288_000, y: 0 },
        }),
        r@[1] == (BoundarySpec {
            center: Vec2Fx { x: -8_000i64, y: 160_000 },
            half_extents: Vec2Fx { x: 0, y: 160_000 },
        }),
        r@[2] == (BoundarySpec {
            center: Vec2Fx { x: 568_000, y: 160_000 },
            half_extents: Vec2Fx { x: 0, y: 160_000 },
        }),
{
    let floor = BoundarySpec {
        center: Vec2Fx { x: 288_000, y: -8_000 },
        half_extents: Vec2Fx { x: 288_000, y: 0 },
    };
    let left = BoundarySpec {
        center: Vec2Fx { x: -8_000, y: 160_000 },
        half_extents: Vec2Fx { x: 0, y: 160_000 },
    };
    let right = BoundarySpec {
        center: Vec2Fx { x: 568_000, y: 160_000 },
        half_extents: Vec2Fx { x: 0, y: 160_000 },
    };
    let mut r: Vec<BoundarySpec> = Vec::new();
    r.push(floor);
    r.push(left);
    r.push(right);
    r
}

} // verus!
