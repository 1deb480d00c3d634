//! The example game server's player table and lifecycle reducers.
//!
//! A minimal module built on the same runtime as the world-object table: it
//! records one player row per connection identity when the module is
//! initialized.  The identity is carried as a plain 256-bit value.

use vstd::prelude::*;
use vstd::string::StringExecFns;

verus! {

/// A connection identity: an opaque 256-bit value carried as two halves.
#[derive(Clone, Copy, Debug, PartialEq, Eq, Hash, Structural)]
pub struct PlayerIdentity {
    pub hi: u128,
    pub lo: u128,
}

/// A player row: identity and display name.
#[derive(Clone, Debug, PartialEq, Eq)]
pub struct Player {
    pub identity: PlayerIdentity,
    pub name: String,
}

/// Some row carries the identity.
pub open spec fn contains_identity(rows: Seq<Player>, identity: PlayerIdentity) -> bool {
    exists|i: int| 0 <= i < rows.len() && (#[trigger] rows[i]).identity == identity
}

/// In-memory model of the `player` table, keyed by identity.
pub struct PlayerTable {
    rows: Vec<Player>,
}

impl PlayerTable {
    /// The rows, in insertion order.
    pub closed spec fn rows(&self) -> Seq<Player> {
        self.rows@
    }

    /// Table invariant: identities are unique.
    pub open spec fn wf(&self) -> bool {
        forall|i: int, j: int|
            0 <= i < j < self.rows().len() ==> (#[trigger] self.rows()[i]).identity != (
            #[trigger] self.rows()[j]).identity
    }

    /// An empty table.
    pub fn new() -> (t: PlayerTable)
        ensures
            t.wf(),
            t.rows() == Seq::<Player>::empty(),
    {
        PlayerTable { rows: Vec::new() }
    }

    /// Number of rows.
    pub fn len(&self) -> (n: usize)
        ensures
            n == self.rows().len(),
    {
        self.rows.len()
    }

    /// The row at a position (insertion order).
    pub fn row_at(&self, i: usize) -> (r: &Player)
        requires
            i < self.rows().len(),
        ensures
            *r == self.rows()[i as int],
    {
        &self.rows[i]
    }
}

/// Module-init reducer: record the installing identity as a player named
/// `Player`.
pub fn init(db: &mut PlayerTable, sender: PlayerIdentity)
    requires
        old(db).wf(),
        !contains_identity(old(db).rows(), sender),
    ensures
        final(db).wf(),
        final(db).rows().len() == old(db).rows().len() + 1,
        forall|i: int| 0 <= i < old(db).rows().len() ==> final(db).rows()[i] == old(db).rows()[i],
        final(db).rows().last().identity == sender,
        final(db).rows().last().name@ == "Player"@,
{
    let player = Player { identity: sender, name: String::from_str("Player") };
    db.rows.push(player);
    proof {
        assert forall|i: int, j: int|
            0 <= i < j < db.rows@.len() implies (#[trigger] db.rows@[i]).identity != (
        #[trigger] db.rows@[j]).identity by {
            if j == db.rows@.len() - 1 {
                assert(db.rows@[i] == old(db).rows()[i]);
                if db.rows@[i].identity == sender {
                    assert(contains_identity(old(db).rows(), sender));
                }
            } else {
                assert(db.rows@[i] == old(db).rows()[i]);
                assert(db.rows@[j] == old(db).rows()[j]);
            }
        }
    }
}

/// Client-connected reducer: nothing is recorded.
pub fn identity_connected(db: &mut PlayerTable)
    ensures
        *final(db) == *old(db),
{
}

/// Client-disconnected reducer: nothing is recorded.
pub fn identity_disconnected(db: &mut PlayerTable)
    ensures
        *final(db) == *old(db),
{
}

} // verus!
