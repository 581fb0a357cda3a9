//! The world: rooms kept by their location, and the bounds of the grid.

use vstd::prelude::*;
use vstd::string::*;
use vstd::utf8::encode_utf8;
use crate::location::Location;
use crate::room::{Room, RoomView};
use crate::scan::{first_index, lemma_first_index, lemma_first_index_is};

verus! {

/// For each of the four directions, whether a step that way stays on the
/// grid.
#[derive(Debug, PartialEq, Eq)]
pub struct ValidDirection {
    pub north: bool,
    pub south: bool,
    pub east: bool,
    pub west: bool,
}

/// The rooms of a world, each found by its location, under a title.
///
/// No two rooms share a location. `max_x` and `max_y` are the largest column
/// and row that any room lies in, and 0 in a world without rooms; they bound
/// the grid that the player moves on.
#[derive(Debug, PartialEq, Eq)]
pub struct WorldMap {
    title: String,
    rooms: Vec<Room>,
    max_x: u64,
    max_y: u64,
}

/// A world as contracts see it. The rooms stand in the order in which their
/// locations first came in.
#[verifier::ext_equal]
pub struct MapView {
    pub title: Seq<char>,
    pub rooms: Seq<RoomView>,
    pub max_x: u64,
    pub max_y: u64,
}

/// Where the room at `l` stands in `rooms`; the length of `rooms` when no
/// room lies at `l`.
pub open spec fn index_of(rooms: Seq<RoomView>, l: Location) -> int {
    first_index(rooms, |room: RoomView| room.location == l)
}

/// `rooms` with one more room put in by its location: `room` takes the place
/// of the room that lay there, or comes last where none did.
pub open spec fn placed(rooms: Seq<RoomView>, room: RoomView) -> Seq<RoomView> {
    let at = index_of(rooms, room.location);
    if at < rooms.len() {
        rooms.update(at, room)
    } else {
        rooms.push(room)
    }
}

/// The rooms of `list` put in one after the other, each by its location: of
/// two rooms at one location the later one stays.
pub open spec fn laid_out(list: Seq<RoomView>) -> Seq<RoomView>
    decreases list.len(),
{
    if list.len() == 0 {
        Seq::empty()
    } else {
        placed(laid_out(list.drop_last()), list.last())
    }
}

/// No two rooms of `rooms` lie at one location.
pub open spec fn distinct(rooms: Seq<RoomView>) -> bool {
    forall|i: int, j: int|
        #![trigger rooms[i], rooms[j]]
        0 <= i < j < rooms.len() ==> rooms[i].location != rooms[j].location
}

/// The line of `=` signs under the heading of the list of rooms: as long as
/// the title written in UTF-8, and 26 more.
pub open spec fn rule(title: Seq<char>) -> Seq<char> {
    Seq::new(encode_utf8(title).len() + 26, |i: int| '=')
}

/// How many items the rooms of `rooms` hold, the items of their characters
/// counted in.
pub open spec fn items_in(rooms: Seq<RoomView>) -> nat
    decreases rooms.len(),
{
    if rooms.len() == 0 {
        0
    } else {
        items_in(rooms.drop_last()) + rooms.last().items.len() + rooms.last().npc.inventory.len()
    }
}

/// A room put in the place of another changes the number of items by the
/// difference between the two.
pub proof fn lemma_items_in_update(rooms: Seq<RoomView>, at: int, room: RoomView)
    requires
        0 <= at < rooms.len(),
    ensures
        items_in(rooms.update(at, room)) + rooms[at].items.len() + rooms[at].npc.inventory.len()
            == items_in(rooms) + room.items.len() + room.npc.inventory.len(),
    decreases rooms.len(),
{
    let after = rooms.update(at, room);
    if at == rooms.len() - 1 {
        assert(after.drop_last() == rooms.drop_last());
    } else {
        assert(after.drop_last() == rooms.drop_last().update(at, room));
        lemma_items_in_update(rooms.drop_last(), at, room);
    }
}

impl MapView {
    /// Whether a room lies at `l`.
    pub open spec fn has_room(self, l: Location) -> bool {
        index_of(self.rooms, l) < self.rooms.len()
    }

    /// The room at `l`, where there is one.
    pub open spec fn room_at(self, l: Location) -> RoomView
        recommends
            self.has_room(l),
    {
        self.rooms[index_of(self.rooms, l)]
    }

    /// The world with `room` in the place of the room at `l`.
    pub open spec fn with_room(self, l: Location, room: RoomView) -> MapView
        recommends
            self.has_room(l),
    {
        MapView { rooms: self.rooms.update(index_of(self.rooms, l), room), ..self }
    }

    /// Whether `l` lies on the grid: no further east than `max_x`, no
    /// further north than `max_y`.
    pub open spec fn in_bounds(self, l: Location) -> bool {
        l.x <= self.max_x && l.y <= self.max_y
    }

    /// The directions in which a step from `l` stays on the grid. Only the
    /// bounds decide, not whether a room lies there.
    pub open spec fn valid_directions(self, l: Location) -> ValidDirection {
        ValidDirection {
            north: l.y < self.max_y,
            south: l.y > 0,
            east: l.x < self.max_x,
            west: l.x > 0,
        }
    }

    /// What every world holds to: no two rooms at one location, every room
    /// on the grid, and each bound reached by some room unless it is 0.
    pub open spec fn wf(self) -> bool {
        &&& distinct(self.rooms)
        &&& forall|i: int|
            0 <= i < self.rooms.len() ==> self.in_bounds(#[trigger] self.rooms[i].location)
        &&& self.max_x == 0 || exists|i: int|
            0 <= i < self.rooms.len() && #[trigger] self.rooms[i].location.x == self.max_x
        &&& self.max_y == 0 || exists|i: int|
            0 <= i < self.rooms.len() && #[trigger] self.rooms[i].location.y == self.max_y
    }

    /// Whether a room lies at every location of the grid.
    pub open spec fn dense(self) -> bool {
        forall|l: Location| self.in_bounds(l) ==> #[trigger] self.has_room(l)
    }

    /// The lines that list the world's rooms: a heading with the title, a
    /// rule, and the name of each room.
    pub open spec fn listing(self) -> Seq<Seq<char>> {
        seq!["Possible Destinations for "@ + self.title, rule(self.title)]
            + self.rooms.map_values(|room: RoomView| room.name)
    }
}

/// A room lies at `l` exactly when some room of the world has that location;
/// and in a world without two rooms at one location, each room is the room
/// at its own location.
pub proof fn lemma_room_at(map: MapView, l: Location)
    ensures
        map.has_room(l) <==> exists|i: int|
            0 <= i < map.rooms.len() && #[trigger] map.rooms[i].location == l,
        map.has_room(l) ==> map.room_at(l).location == l,
        distinct(map.rooms) ==> forall|i: int|
            0 <= i < map.rooms.len() && #[trigger] map.rooms[i].location == l
                ==> index_of(map.rooms, l) == i,
{
    lemma_first_index(map.rooms, |room: RoomView| room.location == l);
}

/// A room that takes the place of the room at its own location leaves every
/// other location with the room it had, a well-formed world well formed,
/// and a dense world dense. The room at `l` put in its own place changes
/// nothing.
pub proof fn lemma_with_room(map: MapView, l: Location, room: RoomView)
    requires
        map.has_room(l),
        room.location == l,
    ensures
        forall|other: Location|
            #![trigger map.with_room(l, room).has_room(other)]
            #![trigger map.with_room(l, room).room_at(other)]
            {
                &&& map.with_room(l, room).has_room(other) == map.has_room(other)
                &&& map.has_room(other) ==> map.with_room(l, room).room_at(other) == if other
                    == l {
                    room
                } else {
                    map.room_at(other)
                }
            },
        map.wf() ==> map.with_room(l, room).wf(),
        map.dense() ==> map.with_room(l, room).dense(),
        map.with_room(l, map.room_at(l)) == map,
{
    let at = index_of(map.rooms, l);
    let after = map.with_room(l, room);
    lemma_first_index(map.rooms, |r: RoomView| r.location == l);
    assert forall|i: int| 0 <= i < after.rooms.len() implies #[trigger] after.rooms[i].location
        == map.rooms[i].location by {}
    if map.wf() {
        if map.max_x != 0 {
            let i = choose|i: int|
                0 <= i < map.rooms.len() && #[trigger] map.rooms[i].location.x == map.max_x;
            assert(after.rooms[i].location.x == after.max_x);
        }
        if map.max_y != 0 {
            let i = choose|i: int|
                0 <= i < map.rooms.len() && #[trigger] map.rooms[i].location.y == map.max_y;
            assert(after.rooms[i].location.y == after.max_y);
        }
    }
    assert forall|other: Location|
        #![trigger after.has_room(other)]
        #![trigger after.room_at(other)]
        {
            &&& after.has_room(other) == map.has_room(other)
            &&& map.has_room(other) ==> after.room_at(other) == if other == l {
                room
            } else {
                map.room_at(other)
            }
        } by {
        let hit = |r: RoomView| r.location == other;
        lemma_first_index(map.rooms, hit);
        lemma_first_index_is(after.rooms, hit, index_of(map.rooms, other));
    }
}

/// Putting a room in keeps the locations apart, changes the room at its
/// location and no other.
pub proof fn lemma_placed(rooms: Seq<RoomView>, room: RoomView)
    requires
        distinct(rooms),
    ensures
        distinct(placed(rooms, room)),
        index_of(placed(rooms, room), room.location) == index_of(rooms, room.location),
        index_of(rooms, room.location) < placed(rooms, room).len(),
        placed(rooms, room)[index_of(rooms, room.location)] == room,
        forall|i: int|
            0 <= i < rooms.len() && i != index_of(rooms, room.location) ==> #[trigger] placed(
                rooms,
                room,
            )[i] == rooms[i],
        forall|i: int|
            #![trigger placed(rooms, room)[i]]
            0 <= i < rooms.len() ==> placed(rooms, room)[i].location == rooms[i].location,
{
    let hit = |r: RoomView| r.location == room.location;
    lemma_first_index(rooms, hit);
    let at = index_of(rooms, room.location);
    lemma_first_index_is(placed(rooms, room), hit, at);
}

/// Putting a room in changes nothing at another location: a room lies
/// there after it exactly when one did before, and it is the same room.
proof fn lemma_placed_elsewhere(rooms: Seq<RoomView>, room: RoomView, l: Location)
    requires
        l != room.location,
    ensures
        index_of(placed(rooms, room), l) < placed(rooms, room).len() <==> index_of(rooms, l)
            < rooms.len(),
        index_of(rooms, l) < rooms.len() ==> placed(rooms, room)[index_of(placed(rooms, room), l)]
            == rooms[index_of(rooms, l)],
{
    let after = placed(rooms, room);
    let hit = |r: RoomView| r.location == l;
    lemma_first_index(rooms, |r: RoomView| r.location == room.location);
    lemma_first_index(rooms, hit);
    let found = index_of(rooms, l);
    if found < rooms.len() {
        lemma_first_index_is(after, hit, found);
    } else {
        lemma_first_index_is(after, hit, after.len() as int);
    }
}

/// The rooms of a world that was built from a list lie at different
/// locations.
proof fn lemma_laid_out_distinct(list: Seq<RoomView>)
    ensures
        distinct(laid_out(list)),
    decreases list.len(),
{
    if list.len() > 0 {
        lemma_laid_out_distinct(list.drop_last());
        lemma_placed(laid_out(list.drop_last()), list.last());
    }
}

/// A room lies at `l` in a world that was built from a list exactly when a
/// room of the list has that location.
proof fn lemma_laid_out_has(list: Seq<RoomView>, l: Location)
    ensures
        index_of(laid_out(list), l) < laid_out(list).len() <==> exists|i: int|
            0 <= i < list.len() && #[trigger] list[i].location == l,
    decreases list.len(),
{
    if list.len() > 0 {
        let front = list.drop_last();
        let last = list.last();
        lemma_laid_out_has(front, l);
        lemma_laid_out_distinct(front);
        if l == last.location {
            lemma_placed(laid_out(front), last);
        } else {
            lemma_placed_elsewhere(laid_out(front), last, l);
            if index_of(laid_out(front), l) < laid_out(front).len() {
                let i = choose|i: int| 0 <= i < front.len() && #[trigger] front[i].location == l;
                assert(list[i].location == l);
            } else {
                assert forall|i: int| 0 <= i < list.len() implies #[trigger] list[i].location
                    != l by {
                    if i < front.len() {
                        assert(front[i].location == list[i].location);
                    }
                }
            }
        }
    } else {
        lemma_first_index(laid_out(list), |r: RoomView| r.location == l);
    }
}

/// The room at a location in a world that was built from a list is the last
/// room of the list that has that location.
proof fn lemma_laid_out_last(list: Seq<RoomView>, i: int)
    requires
        0 <= i < list.len(),
        forall|j: int| i < j < list.len() ==> (#[trigger] list[j]).location != list[i].location,
    ensures
        index_of(laid_out(list), list[i].location) < laid_out(list).len(),
        laid_out(list)[index_of(laid_out(list), list[i].location)] == list[i],
    decreases list.len(),
{
    let front = list.drop_last();
    let last = list.last();
    lemma_laid_out_distinct(front);
    if i == list.len() - 1 {
        lemma_placed(laid_out(front), last);
    } else {
        assert forall|j: int| i < j < front.len() implies (#[trigger] front[j]).location
            != front[i].location by {
            assert(front[j] == list[j]);
        }
        lemma_laid_out_last(front, i);
        lemma_placed_elsewhere(laid_out(front), last, list[i].location);
    }
}

/// A list without two rooms at one location is kept as it is.
proof fn lemma_laid_out_of_distinct(list: Seq<RoomView>)
    requires
        distinct(list),
    ensures
        laid_out(list) == list,
    decreases list.len(),
{
    if list.len() > 0 {
        let front = list.drop_last();
        let last = list.last();
        assert(distinct(front)) by {
            assert forall|i: int, j: int|
                #![trigger front[i], front[j]]
                0 <= i < j < front.len() implies front[i].location != front[j].location by {
                assert(front[i] == list[i] && front[j] == list[j]);
            }
        }
        lemma_laid_out_of_distinct(front);
        assert forall|j: int| 0 <= j < front.len() implies (#[trigger] front[j]).location
            != last.location by {
            assert(front[j] == list[j] && last == list[list.len() - 1]);
        }
        lemma_first_index_is(front, |r: RoomView| r.location == last.location, front.len() as int);
        assert(front.push(last) == list);
    }
}

/// What a world keeps of the list it was built from: a room lies at a
/// location exactly when some room of the list has that location, and it is
/// the last room of the list that has it. A list without two rooms at one
/// location is kept as it is.
pub proof fn lemma_laid_out(list: Seq<RoomView>)
    ensures
        distinct(laid_out(list)),
        forall|l: Location|
            #![trigger index_of(laid_out(list), l)]
            index_of(laid_out(list), l) < laid_out(list).len() <==> exists|i: int|
                0 <= i < list.len() && #[trigger] list[i].location == l,
        forall|i: int|
            #![trigger list[i]]
            0 <= i < list.len() && (forall|j: int|
                i < j < list.len() ==> (#[trigger] list[j]).location != list[i].location)
                ==> laid_out(list)[index_of(laid_out(list), list[i].location)] == list[i],
        distinct(list) ==> laid_out(list) == list,
{
    lemma_laid_out_distinct(list);
    assert forall|l: Location|
        #![trigger index_of(laid_out(list), l)]
        index_of(laid_out(list), l) < laid_out(list).len() <==> exists|i: int|
            0 <= i < list.len() && #[trigger] list[i].location == l by {
        lemma_laid_out_has(list, l);
    }
    assert forall|i: int|
        #![trigger list[i]]
        0 <= i < list.len() && (forall|j: int|
            i < j < list.len() ==> (#[trigger] list[j]).location != list[i].location)
            implies laid_out(list)[index_of(laid_out(list), list[i].location)] == list[i] by {
        lemma_laid_out_last(list, i);
    }
    if distinct(list) {
        lemma_laid_out_of_distinct(list);
    }
}

impl View for WorldMap {
    type V = MapView;

    closed spec fn view(&self) -> MapView {
        MapView {
            title: self.title@,
            rooms: self.rooms.deep_view(),
            max_x: self.max_x,
            max_y: self.max_y,
        }
    }
}

impl WorldMap {
    /// Builds a world from a list of rooms. The rooms are put in by their
    /// location, in the order of the list: where two lie at one location the
    /// later one stays, in the place of the earlier. The bounds are the
    /// largest column and row in the list.
    pub fn new(title: &str, room_list: Vec<Room>) -> (map: WorldMap)
        ensures
            map@.title == title@,
            map@.rooms == laid_out(room_list.deep_view()),
            map@.wf(),
    {
        let ghost list = room_list.deep_view();
        let mut rooms: Vec<Room> = Vec::new();
        let mut max_x: u64 = 0;
        let mut max_y: u64 = 0;
        for room in it: room_list
            invariant
                it.seq() == room_list@,
                list == room_list.deep_view(),
                rooms.deep_view() == laid_out(list.take(it.index())),
                (MapView {
                    title: title@,
                    rooms: rooms.deep_view(),
                    max_x,
                    max_y,
                }).wf(),
        {
            let ghost k = it.index();
            let ghost before = rooms.deep_view();
            let ghost old_x = max_x;
            let ghost old_y = max_y;
            assert(list.take(k + 1).drop_last() == list.take(k));
            if room.location.x > max_x {
                max_x = room.location.x;
            }
            if room.location.y > max_y {
                max_y = room.location.y;
            }
            let at = Self::position(&rooms, &room.location);
            if at < rooms.len() {
                rooms.set(at, room);
            } else {
                rooms.push(room);
            }
            proof {
                let after = rooms.deep_view();
                let view = MapView { title: title@, rooms: after, max_x, max_y };
                assert(after == placed(before, list[k]));
                lemma_placed(before, list[k]);
                assert forall|i: int| 0 <= i < after.len() implies view.in_bounds(
                    #[trigger] view.rooms[i].location,
                ) by {
                    if i != at {
                        assert(after[i].location == before[i].location);
                    }
                }
                if max_x != 0 {
                    let i = if max_x == old_x {
                        choose|i: int|
                            0 <= i < before.len() && #[trigger] before[i].location.x == old_x
                    } else {
                        at as int
                    };
                    assert(0 <= i < view.rooms.len() && view.rooms[i].location.x == view.max_x);
                }
                if max_y != 0 {
                    let i = if max_y == old_y {
                        choose|i: int|
                            0 <= i < before.len() && #[trigger] before[i].location.y == old_y
                    } else {
                        at as int
                    };
                    assert(0 <= i < view.rooms.len() && view.rooms[i].location.y == view.max_y);
                }
            }
        }
        assert(list.take(list.len() as int) == list);
        WorldMap { title: String::from_str(title), rooms, max_x, max_y }
    }

    /// Where the room at `l` stands in `rooms`, or the length of `rooms`.
    fn position(rooms: &Vec<Room>, l: &Location) -> (at: usize)
        ensures
            at == index_of(rooms.deep_view(), *l),
            at <= rooms.len(),
    {
        let ghost views = rooms.deep_view();
        let n = rooms.len();
        let mut at: usize = 0;
        while at < n && rooms[at].location != *l
            invariant
                at <= n,
                n == rooms@.len(),
                views == rooms.deep_view(),
                forall|j: int| 0 <= j < at ==> (#[trigger] views[j]).location != *l,
            decreases n - at,
        {
            at += 1;
        }
        proof {
            lemma_first_index_is(views, |room: RoomView| room.location == *l, at as int);
        }
        at
    }

    /// The world's title.
    pub fn title(&self) -> (title: &str)
        ensures
            title@ == self@.title,
    {
        self.title.as_str()
    }

    /// The rooms of the world, in the order in which their locations first
    /// came in.
    pub fn rooms(&self) -> (rooms: &[Room])
        ensures
            rooms.deep_view() == self@.rooms,
    {
        self.rooms.as_slice()
    }

    /// The eastmost column of the grid.
    pub fn max_x(&self) -> (x: u64)
        ensures
            x == self@.max_x,
    {
        self.max_x
    }

    /// The northmost row of the grid.
    pub fn max_y(&self) -> (y: u64)
        ensures
            y == self@.max_y,
    {
        self.max_y
    }

    /// The directions in which a step from `l` stays on the grid.
    ///
    /// For a location on the grid, a direction is closed exactly at the
    /// edge that lies that way.
    pub fn valid_directions(&self, l: &Location) -> (open: ValidDirection)
        ensures
            open == self@.valid_directions(*l),
            !open.south <==> l.y == 0,
            !open.west <==> l.x == 0,
            self@.in_bounds(*l) ==> (!open.north <==> l.y == self@.max_y),
            self@.in_bounds(*l) ==> (!open.east <==> l.x == self@.max_x),
    {
        ValidDirection {
            north: l.y < self.max_y,
            south: l.y > 0,
            east: l.x < self.max_x,
            west: l.x > 0,
        }
    }

    /// Whether `l` lies on the grid.
    pub fn in_bounds(&self, l: &Location) -> (inside: bool)
        ensures
            inside == self@.in_bounds(*l),
    {
        l.x <= self.max_x && l.y <= self.max_y
    }

    /// Whether a room lies at `l`.
    pub fn has_room(&self, l: &Location) -> (found: bool)
        ensures
            found == self@.has_room(*l),
    {
        Self::position(&self.rooms, l) < self.rooms.len()
    }

    /// The room at `l`.
    pub fn room_at(&self, l: &Location) -> (room: &Room)
        requires
            self@.has_room(*l),
        ensures
            room@ == self@.room_at(*l),
    {
        let at = Self::position(&self.rooms, l);
        &self.rooms[at]
    }

    /// The room at `l`, open to change: what the caller leaves is the room
    /// at that place afterwards, and nothing else changes.
    pub(crate) fn room_at_mut(&mut self, l: &Location) -> (room: &mut Room)
        requires
            old(self)@.has_room(*l),
        ensures
            room@ == old(self)@.room_at(*l),
            final(self)@ == old(self)@.with_room(*l, final(room)@),
    {
        let at = Self::position(&self.rooms, l);
        &mut self.rooms[at]
    }

    /// Whether a room lies at every location of the grid.
    pub fn is_dense(&self) -> (dense: bool)
        ensures
            dense == self@.dense(),
    {
        let mut x: u64 = 0;
        loop
            invariant
                x <= self.max_x,
                forall|l: Location|
                    l.x < x && l.y <= self.max_y ==> #[trigger] self@.has_room(l),
            ensures
                self@.dense(),
            decreases self.max_x - x,
        {
            let mut y: u64 = 0;
            loop
                invariant
                    x <= self.max_x,
                    y <= self.max_y,
                    forall|l: Location| l.x == x && l.y < y ==> #[trigger] self@.has_room(l),
                ensures
                    forall|l: Location|
                        l.x == x && l.y <= self.max_y ==> #[trigger] self@.has_room(l),
                decreases self.max_y - y,
            {
                if !self.has_room(&Location { x, y }) {
                    return false;
                }
                if y == self.max_y {
                    break;
                }
                y += 1;
            }
            if x == self.max_x {
                break;
            }
            x += 1;
        }
        true
    }

    /// The lines that list the world's rooms: a heading with the title, a
    /// rule of `=` signs, and the name of each room.
    pub fn display_map(&self) -> (lines: Vec<String>)
        ensures
            lines.deep_view() == self@.listing(),
    {
        let mut heading = String::from_str("Possible Destinations for ");
        heading.append(self.title.as_str());
        let mut line = String::from_str("==========================");
        proof {
            reveal_strlit("==========================");
            reveal_strlit("=");
        }
        let width = self.title.as_str().as_bytes().len();
        let mut i: usize = 0;
        while i < width
            invariant
                i <= width,
                "="@ == seq!['='],
                line@ == Seq::new(i as nat + 26, |j: int| '='),
            decreases width - i,
        {
            line.append("=");
            i += 1;
        }
        let mut lines: Vec<String> = Vec::new();
        lines.push(heading);
        lines.push(line);
        let n = self.rooms.len();
        let mut k: usize = 0;
        let ghost names = self@.rooms.map_values(|room: RoomView| room.name);
        let ghost head = seq!["Possible Destinations for "@ + self@.title, rule(self@.title)];
        while k < n
            invariant
                k <= n,
                n == self.rooms@.len(),
                names == self@.rooms.map_values(|room: RoomView| room.name),
                lines.deep_view() == head + names.take(k as int),
            decreases n - k,
        {
            let ghost before = lines.deep_view();
            lines.push(self.rooms[k].name.clone());
            assert(lines.deep_view() == before.push(names[k as int]));
            k += 1;
        }
        lines
    }
}

} // verus!
