//! The payload: the boards that are configured, found by their bus number.

use vstd::prelude::*;
use crate::board::{Board, BoardId, BoardVersion};

verus! {

/// Bus numbers of the boards that are active where nothing else is
/// configured.
pub fn default_i2c_bus() -> (v: Vec<u8>)
    ensures
        v@ == seq![1u8, 2u8],
{
    vec![1, 2]
}

/// Seconds between two lines of a log where nothing else is configured.
pub fn default_log_interval() -> (n: u16)
    ensures
        n == 5,
{
    5
}

/// Network port of the dashboard where nothing else is configured.
pub fn default_http_port() -> (n: u16)
    ensures
        n == 5000,
{
    5000
}

/// Revision of the boards where nothing else is configured.
pub fn default_board_version() -> (v: BoardVersion)
    ensures
        v == BoardVersion::V2_2,
{
    BoardVersion::V2_2
}

/// The boards of the payload, in the order in which they were configured.
#[derive(Debug)]
pub struct Payload {
    pub boards: Vec<Board>,
}

impl Payload {
    /// A payload is well formed if each of its boards is.
    pub open spec fn wf(&self) -> bool {
        forall|i: int| 0 <= i < self.boards@.len() ==> (#[trigger] self.boards@[i]).wf()
    }

    /// Whether a board on bus `bus_id` is configured.
    pub open spec fn has_bus(&self, bus_id: u8) -> bool {
        exists|i: int| 0 <= i < self.boards@.len() && (#[trigger] self.boards@[i]).bus.id == bus_id
    }

    /// The payload of the boards on the given buses, all of one revision. A
    /// bus number that is no board's is handed back as the error: the first
    /// such in the list.
    pub fn from_config(i2c_bus: &Vec<u8>, board_version: BoardVersion) -> (r: Result<Payload, u8>)
        ensures
            match r {
                Ok(p) => {
                    &&& p.wf()
                    &&& p.boards@.len() == i2c_bus@.len()
                    &&& forall|i: int|
                        0 <= i < i2c_bus@.len() ==> BoardId::spec_try_from(i2c_bus@[i]) == Ok::<
                            BoardId,
                            (),
                        >((#[trigger] p.boards@[i]).id) && p.boards@[i].version == board_version
                },
                Err(bus) => exists|k: int|
                    0 <= k < i2c_bus@.len() && i2c_bus@[k] == bus && BoardId::spec_try_from(bus) is Err
                        && forall|j: int|
                        0 <= j < k ==> BoardId::spec_try_from(#[trigger] i2c_bus@[j]) is Ok,
            },
    {
        let mut boards: Vec<Board> = Vec::new();
        let mut i: usize = 0;
        while i < i2c_bus.len()
            invariant
                i <= i2c_bus@.len(),
                boards@.len() == i,
                forall|k: int| 0 <= k < i ==> (#[trigger] boards@[k]).wf(),
                forall|k: int|
                    0 <= k < i ==> BoardId::spec_try_from(i2c_bus@[k]) == Ok::<BoardId, ()>(
                        (#[trigger] boards@[k]).id,
                    ) && boards@[k].version == board_version,
            decreases i2c_bus@.len() - i,
        {
            let bus = i2c_bus[i];
            match BoardId::try_from(bus) {
                Ok(id) => {
                    boards.push(Board::new(id, board_version));
                },
                Err(_) => {
                    proof {
                        let k = i as int;
                        assert(i2c_bus@[k] == bus && BoardId::spec_try_from(bus) is Err);
                        assert forall|j: int| 0 <= j < k implies BoardId::spec_try_from(
                            #[trigger] i2c_bus@[j],
                        ) is Ok by {
                            assert(boards@[j].wf());
                        }
                    }
                    return Err(bus);
                },
            }
            i = i + 1;
        }
        Ok(Self::from_boards(boards))
    }

    pub fn from_boards(boards: Vec<Board>) -> (p: Payload)
        ensures
            p.boards == boards,
    {
        Self { boards }
    }

    /// The payload of the one board on bus `board_id`, which is 1 or 2.
    pub fn single_board(board_id: u8, board_version: BoardVersion) -> (r: Result<Payload, u8>)
        ensures
            match r {
                Ok(p) => p.wf() && p.boards@.len() == 1 && BoardId::spec_try_from(board_id) == Ok::<
                    BoardId,
                    (),
                >(p.boards@[0].id) && p.boards@[0].version == board_version,
                Err(bus) => bus == board_id && BoardId::spec_try_from(board_id) is Err,
            },
    {
        let buses: Vec<u8> = vec![board_id];
        Self::from_config(&buses, board_version)
    }

    /// The boards, in the order in which they were configured.
    pub fn iter(&self) -> (v: &Vec<Board>)
        ensures
            v == &self.boards,
    {
        &self.boards
    }

    /// The first board on bus `bus_id`, if one is configured.
    pub fn get(&self, bus_id: u8) -> (r: Option<&Board>)
        ensures
            r is Some == self.has_bus(bus_id),
            r matches Some(b) ==> exists|i: int|
                0 <= i < self.boards@.len() && *b == (#[trigger] self.boards@[i]) && b.bus.id == bus_id
                    && forall|j: int| 0 <= j < i ==> (#[trigger] self.boards@[j]).bus.id != bus_id,
    {
        let mut i: usize = 0;
        while i < self.boards.len()
            invariant
                i <= self.boards@.len(),
                forall|j: int| 0 <= j < i ==> (#[trigger] self.boards@[j]).bus.id != bus_id,
            decreases self.boards@.len() - i,
        {
            if self.boards[i].bus.id == bus_id {
                return Some(&self.boards[i]);
            }
            i = i + 1;
        }
        None
    }

    /// The first board on bus `bus_id`, which is the I2C bus ID, i.e. 1 or 2.
    /// A board on that bus must be configured.
    pub fn index(&self, bus_id: u8) -> (b: &Board)
        requires
            self.has_bus(bus_id),
        ensures
            exists|i: int|
                0 <= i < self.boards@.len() && *b == (#[trigger] self.boards@[i]) && b.bus.id == bus_id
                    && forall|j: int| 0 <= j < i ==> (#[trigger] self.boards@[j]).bus.id != bus_id,
    {
        let mut i: usize = 0;
        while i < self.boards.len()
            invariant
                i <= self.boards@.len(),
                self.has_bus(bus_id),
                forall|j: int| 0 <= j < i ==> (#[trigger] self.boards@[j]).bus.id != bus_id,
            decreases self.boards@.len() - i,
        {
            if self.boards[i].bus.id == bus_id {
                return &self.boards[i];
            }
            i = i + 1;
        }
        proof {
            assert(false);
        }
        &self.boards[0]
    }

    /// The board that a command means: the first board on the bus that is
    /// named, or the only board where none is named. With `None` the payload
    /// must hold exactly one board, with a bus number a board on that bus.
    pub fn index_option(&self, board_id: Option<u8>) -> (b: &Board)
        requires
            match board_id {
                Some(id) => self.has_bus(id),
                None => self.boards@.len() == 1,
            },
        ensures
            match board_id {
                Some(id) => exists|i: int|
                    0 <= i < self.boards@.len() && *b == (#[trigger] self.boards@[i]) && b.bus.id == id
                        && forall|j: int| 0 <= j < i ==> (#[trigger] self.boards@[j]).bus.id != id,
                None => *b == self.boards@[0],
            },
    {
        match board_id {
            Some(board_id) => self.index(board_id),
            None => &self.boards[0],
        }
    }
}

} // verus!
