use std::collections::HashMap;
use vstd::prelude::*;
use vstd::string::*;

use crate::text::{
    chars_of, lemma_lines_len, lemma_split_on_nonempty, line_ranges, lines, parse_i32, parse_i32_spec, pieces,
    ranges_within, split_on, split_ranges,
};

verus! {

broadcast use vstd::std_specs::hash::group_hash_axioms;

/// One cell of a room's grid.
#[derive(Clone, Copy, Debug, PartialEq, Eq, Structural)]
pub enum Tile {
    Empty,
    BrownBrick,
    GrayBrick,
    Door { identifier: char },
    Spikes,
}

impl Tile {
    /// Bricks and spikes block movement; empty cells and doors do not.
    pub open spec fn spec_blocks(self) -> bool {
        match self {
            Tile::BrownBrick | Tile::GrayBrick | Tile::Spikes => true,
            Tile::Empty | Tile::Door { .. } => false,
        }
    }

    pub fn blocks(&self) -> (b: bool)
        ensures
            b == self.spec_blocks(),
    {
        match self {
            Tile::BrownBrick | Tile::GrayBrick | Tile::Spikes => true,
            Tile::Empty | Tile::Door { .. } => false,
        }
    }
}

/// A door: the room file it leads to and the spawn cell there.
#[derive(Debug)]
pub struct Door {
    pub room_path: String,
    pub spawn_x: i32,
    pub spawn_y: i32,
}

pub struct DoorView {
    pub room_path: Seq<char>,
    pub spawn_x: i32,
    pub spawn_y: i32,
}

impl View for Door {
    type V = DoorView;

    open spec fn view(&self) -> DoorView {
        DoorView { room_path: self.room_path@, spawn_x: self.spawn_x, spawn_y: self.spawn_y }
    }
}

impl Clone for Door {
    fn clone(&self) -> (r: Self)
        ensures
            r@ == self@,
    {
        Door { room_path: self.room_path.clone(), spawn_x: self.spawn_x, spawn_y: self.spawn_y }
    }
}

impl Door {
    pub fn new_door(room_path: &str, spawn_x: i32, spawn_y: i32) -> (d: Self)
        ensures
            d@ == (DoorView { room_path: room_path@, spawn_x, spawn_y }),
    {
        Door { room_path: String::from_str(room_path), spawn_x, spawn_y }
    }
}

#[derive(Clone, Copy, Debug, PartialEq, Eq, Structural)]
pub enum EnemyType {
    TestEnemy,
}

impl EnemyType {
    /// Width and height of the enemy, in tiles.
    pub fn size_in_tiles(&self) -> (wh: (u32, u32))
        ensures
            wh == (1u32, 1u32),
    {
        match self {
            EnemyType::TestEnemy => (1, 1),
        }
    }
}

/// An enemy listed in a room file: its kind and the text of its spawn
/// coordinates (in tiles), which the caller reads as floating-point numbers.
#[derive(Debug)]
pub struct EnemySpawn {
    pub enemy_type: EnemyType,
    pub x: String,
    pub y: String,
}

pub struct EnemySpawnView {
    pub enemy_type: EnemyType,
    pub x: Seq<char>,
    pub y: Seq<char>,
}

impl View for EnemySpawn {
    type V = EnemySpawnView;

    open spec fn view(&self) -> EnemySpawnView {
        EnemySpawnView { enemy_type: self.enemy_type, x: self.x@, y: self.y@ }
    }
}

/// Why a room file was refused.
#[derive(Clone, Copy, Debug, PartialEq, Eq, Structural)]
pub enum RoomError {
    /// The file has no lines.
    MissingHeader,
    /// The header's width or height is missing or not an `i32`.
    BadSize,
    /// The file has no door line.
    MissingDoorLine,
    /// An entry of the door line is malformed.
    BadDoor,
    /// The file has no tile rows.
    NoTileRows,
    /// An entry of the header's enemy list is malformed or of an unknown kind.
    BadEnemy,
}

/// What a parsed room holds.
pub struct RoomModel {
    pub rows: Seq<Seq<Tile>>,
    pub width: i32,
    pub height: i32,
    pub doors: Map<char, DoorView>,
    pub enemies: Seq<EnemySpawnView>,
}

/// The door table after inserting `ds` in order, later entries replacing
/// earlier ones with the same identifier.
pub open spec fn door_map(ds: Seq<(char, DoorView)>) -> Map<char, DoorView>
    decreases ds.len(),
{
    if ds.len() == 0 {
        Map::empty()
    } else {
        door_map(ds.drop_last()).insert(ds.last().0, ds.last().1)
    }
}

/// One door entry: `identifier,room_path,spawn_x,spawn_y`.
pub open spec fn parse_door_spec(part: Seq<char>) -> Option<(char, DoorView)> {
    let f = split_on(part, ',');
    if f[0].len() == 0 || f.len() < 4 {
        None
    } else {
        match (parse_i32_spec(f[2]), parse_i32_spec(f[3])) {
            (Some(x), Some(y)) => Some(
                (f[0][0], DoorView { room_path: f[1], spawn_x: x, spawn_y: y }),
            ),
            _ => None,
        }
    }
}

pub open spec fn parse_door_list(parts: Seq<Seq<char>>) -> Option<Seq<(char, DoorView)>>
    decreases parts.len(),
{
    if parts.len() == 0 {
        Some(Seq::empty())
    } else {
        match (parse_door_list(parts.drop_last()), parse_door_spec(parts.last())) {
            (Some(ds), Some(d)) => Some(ds.push(d)),
            _ => None,
        }
    }
}

/// The door line: empty, or door entries separated by `~`.
pub open spec fn parse_doors_spec(line: Seq<char>) -> Option<Seq<(char, DoorView)>> {
    if line.len() == 0 {
        Some(Seq::empty())
    } else {
        parse_door_list(split_on(line, '~'))
    }
}

/// One enemy entry: `kind/x/y`, where the only kind is `test`.
pub open spec fn parse_enemy_spec(part: Seq<char>) -> Option<EnemySpawnView> {
    let f = split_on(part, '/');
    if f[0] != seq!['t', 'e', 's', 't'] || f.len() < 3 {
        None
    } else {
        Some(EnemySpawnView { enemy_type: EnemyType::TestEnemy, x: f[1], y: f[2] })
    }
}

pub open spec fn parse_enemy_list(parts: Seq<Seq<char>>) -> Option<Seq<EnemySpawnView>>
    decreases parts.len(),
{
    if parts.len() == 0 {
        Some(Seq::empty())
    } else {
        match (parse_enemy_list(parts.drop_last()), parse_enemy_spec(parts.last())) {
            (Some(es), Some(e)) => Some(es.push(e)),
            _ => None,
        }
    }
}

/// The tile that a character of a tile row stands for.
pub open spec fn classify(c: char, doors: Map<char, DoorView>) -> Tile {
    if c == '#' {
        Tile::GrayBrick
    } else if c == '$' {
        Tile::BrownBrick
    } else if c == '^' {
        Tile::Spikes
    } else if doors.dom().contains(c) {
        Tile::Door { identifier: c }
    } else {
        Tile::Empty
    }
}

pub open spec fn tile_row(line: Seq<char>, doors: Map<char, DoorView>) -> Seq<Tile> {
    line.map_values(|c: char| classify(c, doors))
}

/// A room file: a header `width,height[,enemies]`, a door line, then one line
/// per row of tiles. The errors come in the order in which the fields are read.
pub open spec fn parse_room_spec(text: Seq<char>) -> Result<RoomModel, RoomError> {
    let ls = lines(text);
    if ls.len() == 0 {
        Err(RoomError::MissingHeader)
    } else {
        let header = split_on(ls[0], ',');
        match parse_i32_spec(header[0]) {
            None => Err(RoomError::BadSize),
            Some(width) => if header.len() < 2 {
                Err(RoomError::BadSize)
            } else {
                match parse_i32_spec(header[1]) {
                    None => Err(RoomError::BadSize),
                    Some(height) => if ls.len() < 2 {
                        Err(RoomError::MissingDoorLine)
                    } else {
                        match parse_doors_spec(ls[1]) {
                            None => Err(RoomError::BadDoor),
                            Some(ds) => if ls.len() < 3 {
                                Err(RoomError::NoTileRows)
                            } else {
                                let doors = door_map(ds);
                                let rows = ls.subrange(2, ls.len() as int).map_values(
                                    |l: Seq<char>| tile_row(l, doors),
                                );
                                let enemies = if header.len() > 2 {
                                    parse_enemy_list(split_on(header[2], '~'))
                                } else {
                                    Some(Seq::empty())
                                };
                                match enemies {
                                    None => Err(RoomError::BadEnemy),
                                    Some(es) => Ok(
                                        RoomModel { rows, width, height, doors, enemies: es },
                                    ),
                                }
                            },
                        }
                    },
                }
            },
        }
    }
}

/// A room: its grid of tiles (rows may differ in length), the size stated in
/// its header, its doors keyed by the code of their identifier, and its
/// enemies. The grid is held as rows: vstd gives a hash-map key model to
/// integer keys, not to coordinate pairs.
pub struct Room {
    rows: Vec<Vec<Tile>>,
    width: i32,
    height: i32,
    doors: HashMap<u32, Door>,
    enemies: Vec<EnemySpawn>,
}

/// The code of a character, as a `u32`, is the character's value.
proof fn lemma_char_code(c: char)
    ensures
        (c as u32) as int == c as int,
{
    assert(0 <= c as int <= 0x10FFFF);
}

/// The doors of a table keyed by the code of their identifier, by identifier.
pub open spec fn door_table_view(m: Map<u32, Door>) -> Map<char, DoorView> {
    Map::new(|c: char| m.contains_key(c as u32), |c: char| m[c as u32]@)
}

impl View for Room {
    type V = RoomModel;

    closed spec fn view(&self) -> RoomModel {
        RoomModel {
            rows: self.rows@.map_values(|r: Vec<Tile>| r@),
            width: self.width,
            height: self.height,
            doors: door_table_view(self.doors@),
            enemies: self.enemies@.map_values(|e: EnemySpawn| e@),
        }
    }
}

/// The cell at column `x` of row `y`, if the grid has one there.
pub open spec fn tile_at_spec(rows: Seq<Seq<Tile>>, x: int, y: int) -> Option<Tile> {
    if 0 <= y < rows.len() && 0 <= x < rows[y].len() {
        Some(rows[y][x])
    } else {
        None
    }
}

/// Every door cell names a door of the room, the grid has a row, and every
/// cell's coordinates fit in an `i32`.
pub open spec fn room_model_wf(m: RoomModel) -> bool {
    &&& 0 < m.rows.len() <= i32::MAX
    &&& forall|y: int| 0 <= y < m.rows.len() ==> #[trigger] m.rows[y].len() <= i32::MAX
    &&& forall|y: int, x: int|
        0 <= y < m.rows.len() && 0 <= x < m.rows[y].len() ==> match #[trigger] m.rows[y][x] {
            Tile::Door { identifier } => m.doors.dom().contains(identifier),
            _ => true,
        }
}

impl RoomModel {
    pub open spec fn tile_at(self, x: int, y: int) -> Option<Tile> {
        tile_at_spec(self.rows, x, y)
    }

    pub open spec fn has_tile(self, x: int, y: int) -> bool {
        self.tile_at(x, y) is Some
    }

    /// The header's size bounds the cells that count as solid (both bounds
    /// inclusive); outside the grid nothing is solid.
    pub open spec fn is_solid(self, x: int, y: int) -> bool {
        if x < 0 || y < 0 || x > self.width || y > self.height {
            false
        } else {
            match self.tile_at(x, y) {
                Some(t) => t.spec_blocks(),
                None => false,
            }
        }
    }

    pub open spec fn is_door(self, x: int, y: int) -> bool {
        self.tile_at(x, y) matches Some(Tile::Door { .. })
    }

    pub open spec fn is_spikes(self, x: int, y: int) -> bool {
        self.tile_at(x, y) == Some(Tile::Spikes)
    }

    /// The door that the door cell at `(x, y)` leads through.
    pub open spec fn door_at(self, x: int, y: int) -> DoorView {
        match self.tile_at(x, y) {
            Some(Tile::Door { identifier }) => self.doors[identifier],
            _ => arbitrary(),
        }
    }
}

impl Room {
    #[verifier::type_invariant]
    closed spec fn inv(&self) -> bool {
        room_model_wf(self@)
    }

    /// Parses the text of a room file.
    pub fn from_text(text: &str) -> (r: Result<Room, RoomError>)
        requires
            text@.len() < i32::MAX,
        ensures
            match r {
                Ok(room) => parse_room_spec(text@) == Ok::<RoomModel, RoomError>(room@),
                Err(e) => parse_room_spec(text@) == Err::<RoomModel, RoomError>(e),
            },
    {
        let cs = chars_of(text);
        let ls = line_ranges(&cs);
        let ghost lsv = lines(text@);
        assert(pieces(cs@, ls@) == lsv);
        if ls.len() == 0 {
            return Err(RoomError::MissingHeader);
        }
        let (h0, h1) = ls[0];
        assert(lsv[0] == cs@.subrange(h0 as int, h1 as int));
        let header = split_ranges(&cs, h0, h1, ',');
        let ghost hv = split_on(lsv[0], ',');
        proof {
            lemma_split_on_nonempty(lsv[0], ',');
        }
        let (w0, w1) = header[0];
        assert(hv[0] == cs@.subrange(w0 as int, w1 as int));
        let width = match parse_i32(&cs, w0, w1) {
            Some(w) => w,
            None => {
                return Err(RoomError::BadSize);
            },
        };
        if header.len() < 2 {
            return Err(RoomError::BadSize);
        }
        let (g0, g1) = header[1];
        assert(hv[1] == cs@.subrange(g0 as int, g1 as int));
        let height = match parse_i32(&cs, g0, g1) {
            Some(h) => h,
            None => {
                return Err(RoomError::BadSize);
            },
        };
        if ls.len() < 2 {
            return Err(RoomError::MissingDoorLine);
        }
        let (d0, d1) = ls[1];
        assert(lsv[1] == cs@.subrange(d0 as int, d1 as int));
        let doors = match parse_doors(text, &cs, d0, d1) {
            Some(ds) => ds,
            None => {
                return Err(RoomError::BadDoor);
            },
        };
        let ghost dv = doors@.map_values(|p: (char, Door)| (p.0, p.1@));
        let ghost dmap = door_map(dv);
        if ls.len() < 3 {
            return Err(RoomError::NoTileRows);
        }
        let doors = door_table(&doors);
        let mut rows: Vec<Vec<Tile>> = Vec::new();
        let mut k: usize = 2;
        while k < ls.len()
            invariant
                2 <= k <= ls.len(),
                pieces(cs@, ls@) == lsv,
                ranges_within(ls@, 0, cs.len() as int),
                cs@ == text@,
                text@.len() < i32::MAX,
                dmap == door_map(dv),
                dmap == door_table_view(doors@),
                rows.len() == k - 2,
                forall|y: int|
                    0 <= y < rows.len() ==> (#[trigger] rows@[y])@ == tile_row(lsv[y + 2], dmap),
                forall|y: int| 0 <= y < rows.len() ==> #[trigger] rows@[y]@.len() <= i32::MAX,
            decreases ls.len() - k,
        {
            let (a, b) = ls[k];
            assert(lsv[k as int] == cs@.subrange(a as int, b as int));
            let row = tile_row_of(&cs, a, b, &doors);
            rows.push(row);
            proof {
                assert(rows@[k - 2]@ == tile_row(lsv[k as int], dmap));
            }
            k = k + 1;
        }
        let mut enemies: Vec<EnemySpawn> = Vec::new();
        if header.len() > 2 {
            let (e0, e1) = header[2];
            assert(hv[2] == cs@.subrange(e0 as int, e1 as int));
            enemies = match parse_enemies(text, &cs, e0, e1) {
                Some(es) => es,
                None => {
                    return Err(RoomError::BadEnemy);
                },
            };
        }
        proof {
            lemma_lines_len(text@);
            let mrows = rows@.map_values(|r: Vec<Tile>| r@);
            assert(mrows =~= lsv.subrange(2, lsv.len() as int).map_values(
                |l: Seq<char>| tile_row(l, dmap),
            ));
            assert forall|y: int, x: int|
                0 <= y < mrows.len() && 0 <= x < mrows[y].len() implies match #[trigger] mrows[y][x] {
                Tile::Door { identifier } => dmap.dom().contains(identifier),
                _ => true,
            } by {
                assert(mrows[y] == tile_row(lsv[y + 2], dmap));
            }
            assert forall|y: int| 0 <= y < mrows.len() implies #[trigger] mrows[y].len()
                <= i32::MAX by {
                assert(mrows[y] == rows@[y]@);
            }
            if header.len() <= 2 {
                assert(enemies@.map_values(|e: EnemySpawn| e@) =~= Seq::<EnemySpawnView>::empty());
            }
        }
        let room = Room { rows, width, height, doors, enemies };
        Ok(room)
    }

    pub fn width(&self) -> (w: i32)
        ensures
            w == self@.width,
    {
        self.width
    }

    pub fn height(&self) -> (h: i32)
        ensures
            h == self@.height,
    {
        self.height
    }

    /// Number of tile rows.
    pub fn row_count(&self) -> (n: usize)
        ensures
            n == self@.rows.len(),
    {
        self.rows.len()
    }

    /// Number of cells in row `y`.
    pub fn row_len(&self, y: usize) -> (n: usize)
        requires
            y < self@.rows.len(),
        ensures
            n == self@.rows[y as int].len(),
    {
        self.rows[y].len()
    }

    pub fn enemies(&self) -> (es: &Vec<EnemySpawn>)
        ensures
            es@.map_values(|e: EnemySpawn| e@) == self@.enemies,
    {
        &self.enemies
    }

    pub fn tile_at(&self, x: i32, y: i32) -> (t: Option<Tile>)
        ensures
            t == self@.tile_at(x as int, y as int),
    {
        if y < 0 || x < 0 {
            return None;
        }
        let yu = y as usize;
        let xu = x as usize;
        if yu >= self.rows.len() {
            return None;
        }
        assert(self@.rows[yu as int] == self.rows@[yu as int]@);
        if xu >= self.rows[yu].len() {
            return None;
        }
        Some(self.rows[yu][xu])
    }

    pub fn has_tile(&self, x: i32, y: i32) -> (b: bool)
        ensures
            b == self@.has_tile(x as int, y as int),
    {
        self.tile_at(x, y).is_some()
    }

    pub fn is_solid(&self, x: i32, y: i32) -> (b: bool)
        ensures
            b == self@.is_solid(x as int, y as int),
    {
        if x < 0 || y < 0 || x > self.width || y > self.height {
            return false;
        }
        match self.tile_at(x, y) {
            Some(t) => t.blocks(),
            None => false,
        }
    }

    pub fn is_door(&self, x: i32, y: i32) -> (b: bool)
        requires
            self@.has_tile(x as int, y as int),
        ensures
            b == self@.is_door(x as int, y as int),
    {
        match self.tile_at(x, y) {
            Some(Tile::Door { .. }) => true,
            _ => false,
        }
    }

    pub fn is_spikes(&self, x: i32, y: i32) -> (b: bool)
        requires
            self@.has_tile(x as int, y as int),
        ensures
            b == self@.is_spikes(x as int, y as int),
    {
        match self.tile_at(x, y) {
            Some(Tile::Spikes) => true,
            _ => false,
        }
    }

    /// The door with the given identifier.
    pub fn door(&self, identifier: char) -> (d: Option<Door>)
        ensures
            match d {
                Some(door) => self@.doors.dom().contains(identifier) && door@
                    == self@.doors[identifier],
                None => !self@.doors.dom().contains(identifier),
            },
    {
        match self.doors.get(&(identifier as u32)) {
            Some(d) => Some(d.clone()),
            None => None,
        }
    }

    /// The door that the door cell at `(x, y)` leads through; it always exists,
    /// since a cell is a door only when the room names its identifier.
    pub fn door_at(&self, x: i32, y: i32) -> (d: Door)
        requires
            self@.is_door(x as int, y as int),
        ensures
            d@ == self@.door_at(x as int, y as int),
    {
        proof {
            use_type_invariant(self);
        }
        let id = match self.tile_at(x, y) {
            Some(Tile::Door { identifier }) => identifier,
            _ => 'z',
        };
        match self.door(id) {
            Some(d) => d,
            None => {
                proof {
                    assert(self@.rows[y as int][x as int] == Tile::Door { identifier: id });
                }
                Door { room_path: String::new(), spawn_x: 0, spawn_y: 0 }
            },
        }
    }
}

/// Whether `doors` names the identifier `c`.
fn names_door(doors: &HashMap<u32, Door>, c: char) -> (b: bool)
    ensures
        b == door_table_view(doors@).dom().contains(c),
{
    doors.contains_key(&(c as u32))
}

/// The door line's entries as a table keyed by identifier code, a later entry
/// replacing an earlier one with the same identifier.
fn door_table(ds: &Vec<(char, Door)>) -> (t: HashMap<u32, Door>)
    ensures
        door_table_view(t@) == door_map(ds@.map_values(|p: (char, Door)| (p.0, p.1@))),
{
    let ghost dv = ds@.map_values(|p: (char, Door)| (p.0, p.1@));
    let mut t: HashMap<u32, Door> = HashMap::new();
    let mut j: usize = 0;
    while j < ds.len()
        invariant
            j <= ds.len(),
            dv == ds@.map_values(|p: (char, Door)| (p.0, p.1@)),
            door_table_view(t@) == door_map(dv.take(j as int)),
        decreases ds.len() - j,
    {
        let c = ds[j].0;
        let d = ds[j].1.clone();
        let ghost before = t@;
        t.insert(c as u32, d);
        proof {
            assert(dv.take(j + 1).drop_last() =~= dv.take(j as int));
            assert(dv[j as int] == (c, d@));
            lemma_char_code(c);
            assert forall|e: char| #[trigger] door_table_view(t@).dom().contains(e) == door_table_view(
                before,
            ).insert(c, d@).dom().contains(e) && (door_table_view(t@).dom().contains(e)
                ==> door_table_view(t@)[e] == door_table_view(before).insert(c, d@)[e]) by {
                lemma_char_code(e);
            }
            assert(door_table_view(t@) =~= door_table_view(before).insert(c, d@));
        }
        j = j + 1;
    }
    assert(dv.take(ds.len() as int) =~= dv);
    t
}

/// The tile that `c` stands for in a room with the doors `doors`.
fn classify_char(c: char, doors: &HashMap<u32, Door>) -> (t: Tile)
    ensures
        t == classify(c, door_table_view(doors@)),
{
    if c == '#' {
        Tile::GrayBrick
    } else if c == '$' {
        Tile::BrownBrick
    } else if c == '^' {
        Tile::Spikes
    } else if names_door(doors, c) {
        Tile::Door { identifier: c }
    } else {
        Tile::Empty
    }
}

/// The tiles of the row `cs[a..b]`.
fn tile_row_of(cs: &Vec<char>, a: usize, b: usize, doors: &HashMap<u32, Door>) -> (row: Vec<Tile>)
    requires
        a <= b <= cs.len(),
    ensures
        row@ == tile_row(cs@.subrange(a as int, b as int), door_table_view(doors@)),
{
    let ghost dmap = door_table_view(doors@);
    let ghost line = cs@.subrange(a as int, b as int);
    let mut row: Vec<Tile> = Vec::new();
    let mut i = a;
    while i < b
        invariant
            a <= i <= b <= cs.len(),
            line == cs@.subrange(a as int, b as int),
            dmap == door_table_view(doors@),
            row.len() == i - a,
            forall|j: int| 0 <= j < row.len() ==> #[trigger] row@[j] == classify(line[j], dmap),
        decreases b - i,
    {
        let t = classify_char(cs[i], doors);
        assert(line[i - a] == cs@[i as int]);
        row.push(t);
        i = i + 1;
    }
    assert(row@ =~= tile_row(line, dmap));
    row
}

/// The owned string `text[a..b]`.
fn owned_piece(text: &str, a: usize, b: usize) -> (s: String)
    requires
        a <= b <= text@.len(),
    ensures
        s@ == text@.subrange(a as int, b as int),
{
    String::from_str(text.substring_char(a, b))
}

/// One door entry of `cs[a..b]`.
fn parse_door(text: &str, cs: &Vec<char>, a: usize, b: usize) -> (r: Option<(char, Door)>)
    requires
        a <= b <= cs.len(),
        cs@ == text@,
    ensures
        match r {
            Some(p) => parse_door_spec(cs@.subrange(a as int, b as int)) == Some((p.0, p.1@)),
            None => parse_door_spec(cs@.subrange(a as int, b as int)) is None,
        },
{
    let f = split_ranges(cs, a, b, ',');
    let ghost fv = split_on(cs@.subrange(a as int, b as int), ',');
    proof {
        lemma_split_on_nonempty(cs@.subrange(a as int, b as int), ',');
    }
    let (i0, i1) = f[0];
    assert(fv[0] == cs@.subrange(i0 as int, i1 as int));
    if i0 == i1 || f.len() < 4 {
        return None;
    }
    let (p0, p1) = f[1];
    let (x0, x1) = f[2];
    let (y0, y1) = f[3];
    assert(fv[1] == cs@.subrange(p0 as int, p1 as int));
    assert(fv[2] == cs@.subrange(x0 as int, x1 as int));
    assert(fv[3] == cs@.subrange(y0 as int, y1 as int));
    let x = match parse_i32(cs, x0, x1) {
        Some(v) => v,
        None => {
            return None;
        },
    };
    let y = match parse_i32(cs, y0, y1) {
        Some(v) => v,
        None => {
            return None;
        },
    };
    let id = cs[i0];
    assert(fv[0][0] == id);
    let door = Door { room_path: owned_piece(text, p0, p1), spawn_x: x, spawn_y: y };
    Some((id, door))
}

/// The door line `cs[a..b]`.
fn parse_doors(text: &str, cs: &Vec<char>, a: usize, b: usize) -> (r: Option<Vec<(char, Door)>>)
    requires
        a <= b <= cs.len(),
        cs@ == text@,
    ensures
        match r {
            Some(ds) => parse_doors_spec(cs@.subrange(a as int, b as int)) == Some(
                ds@.map_values(|p: (char, Door)| (p.0, p.1@)),
            ),
            None => parse_doors_spec(cs@.subrange(a as int, b as int)) is None,
        },
{
    let mut ds: Vec<(char, Door)> = Vec::new();
    if a == b {
        assert(ds@.map_values(|p: (char, Door)| (p.0, p.1@)) =~= Seq::<(char, DoorView)>::empty());
        return Some(ds);
    }
    let parts = split_ranges(cs, a, b, '~');
    let ghost pv = split_on(cs@.subrange(a as int, b as int), '~');
    let mut k: usize = 0;
    assert(pv.take(0) =~= Seq::<Seq<char>>::empty());
    assert(ds@.map_values(|p: (char, Door)| (p.0, p.1@)) =~= Seq::<(char, DoorView)>::empty());
    while k < parts.len()
        invariant
            k <= parts.len(),
            a <= b <= cs.len(),
            cs@ == text@,
            a < b,
            pv == split_on(cs@.subrange(a as int, b as int), '~'),
            pieces(cs@, parts@) == pv,
            ranges_within(parts@, a as int, b as int),
            parse_door_list(pv.take(k as int)) == Some(
                ds@.map_values(|p: (char, Door)| (p.0, p.1@)),
            ),
        decreases parts.len() - k,
    {
        let (p0, p1) = parts[k];
        assert(pv[k as int] == cs@.subrange(p0 as int, p1 as int));
        assert(pv.take(k + 1).drop_last() =~= pv.take(k as int));
        let ghost before = ds@;
        match parse_door(text, cs, p0, p1) {
            Some(d) => {
                ds.push(d);
                assert(ds@.map_values(|p: (char, Door)| (p.0, p.1@)) =~= before.map_values(
                    |p: (char, Door)| (p.0, p.1@),
                ).push((d.0, d.1@)));
            },
            None => {
                proof {
                    lemma_door_list_fails(pv, k as int);
                }
                return None;
            },
        }
        k = k + 1;
    }
    assert(pv.take(parts.len() as int) =~= pv);
    Some(ds)
}

proof fn lemma_door_list_fails(parts: Seq<Seq<char>>, k: int)
    requires
        0 <= k < parts.len(),
        parse_door_spec(parts[k]) is None,
    ensures
        parse_door_list(parts) is None,
    decreases parts.len(),
{
    if k < parts.len() - 1 {
        lemma_door_list_fails(parts.drop_last(), k);
    }
}

proof fn lemma_enemy_list_fails(parts: Seq<Seq<char>>, k: int)
    requires
        0 <= k < parts.len(),
        parse_enemy_spec(parts[k]) is None,
    ensures
        parse_enemy_list(parts) is None,
    decreases parts.len(),
{
    if k < parts.len() - 1 {
        lemma_enemy_list_fails(parts.drop_last(), k);
    }
}

/// Whether `cs[a..b]` is the word `test`.
fn is_test_word(cs: &Vec<char>, a: usize, b: usize) -> (r: bool)
    requires
        a <= b <= cs.len(),
    ensures
        r == (cs@.subrange(a as int, b as int) == seq!['t', 'e', 's', 't']),
{
    let ghost w = cs@.subrange(a as int, b as int);
    if b - a != 4 {
        assert(w.len() != 4);
        return false;
    }
    let r = cs[a] == 't' && cs[a + 1] == 'e' && cs[a + 2] == 's' && cs[a + 3] == 't';
    proof {
        if r {
            assert(w =~= seq!['t', 'e', 's', 't']);
        } else {
            let t = seq!['t', 'e', 's', 't'];
            if w == t {
                assert(w[0] == t[0] && w[1] == t[1] && w[2] == t[2] && w[3] == t[3]);
            }
        }
    }
    r
}

/// The enemy list `cs[a..b]`: entries separated by `~`.
fn parse_enemies(text: &str, cs: &Vec<char>, a: usize, b: usize) -> (r: Option<Vec<EnemySpawn>>)
    requires
        a <= b <= cs.len(),
        cs@ == text@,
    ensures
        match r {
            Some(es) => parse_enemy_list(split_on(cs@.subrange(a as int, b as int), '~')) == Some(
                es@.map_values(|e: EnemySpawn| e@),
            ),
            None => parse_enemy_list(split_on(cs@.subrange(a as int, b as int), '~')) is None,
        },
{
    let parts = split_ranges(cs, a, b, '~');
    let ghost pv = split_on(cs@.subrange(a as int, b as int), '~');
    let mut es: Vec<EnemySpawn> = Vec::new();
    let mut k: usize = 0;
    assert(pv.take(0) =~= Seq::<Seq<char>>::empty());
    assert(es@.map_values(|e: EnemySpawn| e@) =~= Seq::<EnemySpawnView>::empty());
    while k < parts.len()
        invariant
            k <= parts.len(),
            a <= b <= cs.len(),
            cs@ == text@,
            pv == split_on(cs@.subrange(a as int, b as int), '~'),
            pieces(cs@, parts@) == pv,
            ranges_within(parts@, a as int, b as int),
            parse_enemy_list(pv.take(k as int)) == Some(es@.map_values(|e: EnemySpawn| e@)),
        decreases parts.len() - k,
    {
        let (p0, p1) = parts[k];
        let ghost part = cs@.subrange(p0 as int, p1 as int);
        assert(pv[k as int] == part);
        assert(pv.take(k + 1).drop_last() =~= pv.take(k as int));
        let f = split_ranges(cs, p0, p1, '/');
        let ghost fv = split_on(part, '/');
        proof {
            lemma_split_on_nonempty(part, '/');
        }
        let (t0, t1) = f[0];
        assert(fv[0] == cs@.subrange(t0 as int, t1 as int));
        if !is_test_word(cs, t0, t1) || f.len() < 3 {
            proof {
                lemma_enemy_list_fails(pv, k as int);
            }
            return None;
        }
        let (x0, x1) = f[1];
        let (y0, y1) = f[2];
        assert(fv[1] == cs@.subrange(x0 as int, x1 as int));
        assert(fv[2] == cs@.subrange(y0 as int, y1 as int));
        let e = EnemySpawn {
            enemy_type: EnemyType::TestEnemy,
            x: owned_piece(text, x0, x1),
            y: owned_piece(text, y0, y1),
        };
        let ghost before = es@;
        es.push(e);
        assert(es@.map_values(|e: EnemySpawn| e@) =~= before.map_values(|e: EnemySpawn| e@).push(
            e@,
        ));
        k = k + 1;
    }
    assert(pv.take(parts.len() as int) =~= pv);
    Some(es)
}

} // verus!
