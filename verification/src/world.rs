//! The replicated world-object table and its reducers.
//!
//! The database runtime owns persistence, subscription and replication; what
//! it runs are the reducers below, single-row read-modify-write operations
//! against the `world_object` table.  [`WorldTable`] models that table: rows
//! in insertion order plus the auto-increment counter backing the primary
//! key.  Each reducer is specified exactly: which inputs are rejected, which
//! succeed, and what the table holds afterwards.

use crate::asset_path::{
    is_valid_relative_asset_path, normalize_asset_path, normalize_seps, valid_asset_path,
};
use crate::decimal::{append_u64_decimal, dec_digits};
use crate::shape::CollisionShape;
use crate::types::{AssetKind, Quat, Vec3};
use vstd::prelude::*;
use vstd::string::StringExecFns;

verus! {

/// A single persisted, replicated placed entity: transform, visual asset
/// reference and collision shape, keyed by an auto-incremented id.
#[derive(Clone, Debug, PartialEq, Eq)]
pub struct WorldObject {
    /// Primary key, assigned by the auto-increment sequence when a row is
    /// inserted with id `0`.
    pub id: u64,
    /// How the object is visualized: a file asset or a primitive shape.
    pub asset: AssetKind,
    /// The position of the object in 3D space.
    pub translation: Vec3,
    /// The orientation of the object represented as a quaternion.
    pub rotation: Quat,
    /// The scale factors applied along the X, Y and Z axes.
    pub scale: Vec3,
    /// The physical boundary used for physics and hit detection.
    pub collision_shape: CollisionShape,
}

impl WorldObject {
    /// The file path this object is visualized from, when it has one.
    pub open spec fn spec_asset_path(&self) -> Option<Seq<char>> {
        self.asset.spec_path()
    }

    /// The file path this object is visualized from, when it has one.
    pub fn asset_path(&self) -> (r: Option<&String>)
        ensures
            match r {
                Some(p) => self.spec_asset_path() == Some(p@),
                None => self.spec_asset_path() is None,
            },
    {
        match &self.asset {
            AssetKind::Path(p) => Some(p),
            AssetKind::PrimitiveShape(_) => None,
        }
    }
}

/// The same object with only the translation replaced.
pub open spec fn with_translation(o: WorldObject, translation: Vec3) -> WorldObject {
    WorldObject {
        id: o.id,
        asset: o.asset,
        translation,
        rotation: o.rotation,
        scale: o.scale,
        collision_shape: o.collision_shape,
    }
}

/// The same object with only the rotation replaced.
pub open spec fn with_rotation(o: WorldObject, rotation: Quat) -> WorldObject {
    WorldObject {
        id: o.id,
        asset: o.asset,
        translation: o.translation,
        rotation,
        scale: o.scale,
        collision_shape: o.collision_shape,
    }
}

/// The same object with only the scale replaced.
pub open spec fn with_scale(o: WorldObject, scale: Vec3) -> WorldObject {
    WorldObject {
        id: o.id,
        asset: o.asset,
        translation: o.translation,
        rotation: o.rotation,
        scale,
        collision_shape: o.collision_shape,
    }
}

/// Some row carries the id.
pub open spec fn contains_id(rows: Seq<WorldObject>, id: u64) -> bool {
    exists|i: int| 0 <= i < rows.len() && (#[trigger] rows[i]).id == id
}

/// In-memory model of the replicated `world_object` table: rows in insertion
/// order plus the auto-increment counter for the primary key.
pub struct WorldTable {
    rows: Vec<WorldObject>,
    next_id: u64,
}

impl WorldTable {
    /// The rows, in insertion order.
    pub closed spec fn rows(&self) -> Seq<WorldObject> {
        self.rows@
    }

    /// The id the auto-increment sequence will assign next.
    pub closed spec fn next_id(&self) -> u64 {
        self.next_id
    }

    /// Table invariant: ids are nonzero, unique and below the counter.
    pub open spec fn wf(&self) -> bool {
        &&& 1 <= self.next_id()
        &&& forall|i: int|
            0 <= i < self.rows().len() ==> 0 < (#[trigger] self.rows()[i]).id < self.next_id()
        &&& forall|i: int, j: int|
            0 <= i < j < self.rows().len() ==> (#[trigger] self.rows()[i]).id != (
            #[trigger] self.rows()[j]).id
    }

    /// An empty table whose sequence starts at 1.
    pub fn new() -> (t: WorldTable)
        ensures
            t.wf(),
            t.rows() == Seq::<WorldObject>::empty(),
            t.next_id() == 1,
    {
        WorldTable { rows: Vec::new(), next_id: 1 }
    }

    /// Number of rows.
    pub fn len(&self) -> (n: usize)
        ensures
            n == self.rows().len(),
    {
        self.rows.len()
    }

    /// The row at a position (insertion order).
    pub fn row_at(&self, i: usize) -> (r: &WorldObject)
        requires
            i < self.rows().len(),
        ensures
            *r == self.rows()[i as int],
    {
        &self.rows[i]
    }

    /// The id the auto-increment sequence will assign next.
    pub fn next_object_id(&self) -> (n: u64)
        ensures
            n == self.next_id(),
    {
        self.next_id
    }

    /// Look a row up by primary key.
    #[verifier::loop_isolation(false)]
    pub fn find_object(&self, id: u64) -> (r: Option<&WorldObject>)
        ensures
            match r {
                Some(o) => o.id == id && contains_id(self.rows(), id) && exists|i: int|
                    0 <= i < self.rows().len() && (#[trigger] self.rows()[i]) == *o,
                None => !contains_id(self.rows(), id),
            },
    {
        let n = self.rows.len();
        let mut idx: usize = 0;
        while idx < n
            invariant
                idx <= n,
                forall|k: int| 0 <= k < idx ==> (#[trigger] self.rows@[k]).id != id,
            decreases n - idx,
        {
            if self.rows[idx].id == id {
                return Some(&self.rows[idx]);
            }
            idx = idx + 1;
        }
        None
    }
}

/// Reducer: validate a user-supplied asset path and insert a new object at
/// the origin, with identity rotation, unit scale and no collision shape.
/// An invalid path is rejected and the table is left unchanged.
pub fn insert_asset(db: &mut WorldTable, asset_path: String)
    requires
        old(db).wf(),
        old(db).next_id() < u64::MAX,
    ensures
        final(db).wf(),
        !valid_asset_path(asset_path@) ==> *final(db) == *old(db),
        valid_asset_path(asset_path@) ==> {
            &&& final(db).rows().len() == old(db).rows().len() + 1
            &&& forall|i: int|
                0 <= i < old(db).rows().len() ==> final(db).rows()[i] == old(db).rows()[i]
            &&& final(db).rows().last().id == old(db).next_id()
            &&& final(db).rows().last().spec_asset_path() == Some(normalize_seps(asset_path@))
            &&& final(db).rows().last().translation == Vec3::spec_zero()
            &&& final(db).rows().last().rotation == Quat::spec_identity()
            &&& final(db).rows().last().scale == Vec3::spec_one()
            &&& final(db).rows().last().collision_shape == CollisionShape::NoShape
            &&& final(db).next_id() == old(db).next_id() + 1
        },
{
    if !is_valid_relative_asset_path(asset_path.as_str()) {
        // Validation rejection: the row is dropped, nothing is created.
        return;
    }
    let normalized = normalize_asset_path(asset_path.as_str());
    let id = db.next_id;
    let object = WorldObject {
        id,
        asset: AssetKind::Path(normalized),
        translation: Vec3::zero(),
        rotation: Quat::identity(),
        scale: Vec3::one(),
        collision_shape: CollisionShape::NoShape,
    };
    db.rows.push(object);
    db.next_id = id + 1;
    proof {
        if contains_id(old(db).rows(), id) {
            let i = choose|i: int|
                0 <= i < old(db).rows().len() && (#[trigger] old(db).rows()[i]).id == id;
            assert(old(db).rows()[i].id < old(db).next_id());
        }
        lemma_push_keeps_wf(*old(db), *db, id);
    }
}

/// Reducer: insert a caller-built object.  A file-asset path is validated
/// and normalized exactly as in [`insert_asset`]; an object with an invalid
/// path is rejected and the table is left unchanged.  An id of zero asks the
/// auto-increment sequence for the next id; a nonzero id must be unused, and
/// the sequence is advanced past it.
pub fn insert_object(db: &mut WorldTable, object: WorldObject)
    requires
        old(db).wf(),
        old(db).next_id() < u64::MAX,
        object.id != 0 ==> object.id < u64::MAX && !contains_id(old(db).rows(), object.id),
    ensures
        final(db).wf(),
        (match object.asset.spec_path() {
            Some(p) => !valid_asset_path(p),
            None => false,
        }) ==> *final(db) == *old(db),
        (match object.asset.spec_path() {
            Some(p) => valid_asset_path(p),
            None => true,
        }) ==> {
            &&& final(db).rows().len() == old(db).rows().len() + 1
            &&& forall|i: int|
                0 <= i < old(db).rows().len() ==> final(db).rows()[i] == old(db).rows()[i]
            &&& final(db).rows().last().id == (if object.id == 0 {
                old(db).next_id()
            } else {
                object.id
            })
            &&& final(db).rows().last().spec_asset_path() == (match object.asset.spec_path() {
                Some(p) => Some(normalize_seps(p)),
                None => None::<Seq<char>>,
            })
            &&& (object.asset.spec_path() is None ==> final(db).rows().last().asset == object.asset)
            &&& final(db).rows().last().translation == object.translation
            &&& final(db).rows().last().rotation == object.rotation
            &&& final(db).rows().last().scale == object.scale
            &&& final(db).rows().last().collision_shape == object.collision_shape
            &&& final(db).next_id() == (if object.id == 0 {
                (old(db).next_id() + 1) as u64
            } else if object.id >= old(db).next_id() {
                (object.id + 1) as u64
            } else {
                old(db).next_id()
            })
        },
{
    let WorldObject { id, asset, translation, rotation, scale, collision_shape } = object;
    let new_asset = match asset {
        AssetKind::Path(p) => {
            if !is_valid_relative_asset_path(p.as_str()) {
                // Validation rejection: the row is dropped, nothing is created.
                return;
            }
            AssetKind::Path(normalize_asset_path(p.as_str()))
        },
        AssetKind::PrimitiveShape(ps) => AssetKind::PrimitiveShape(ps),
    };
    let new_id = if id == 0 {
        db.next_id
    } else {
        id
    };
    let row = WorldObject {
        id: new_id,
        asset: new_asset,
        translation,
        rotation,
        scale,
        collision_shape,
    };
    db.rows.push(row);
    if id == 0 {
        db.next_id = db.next_id + 1;
    } else if id >= db.next_id {
        db.next_id = id + 1;
    }
    proof {
        if id == 0 && contains_id(old(db).rows(), new_id) {
            let i = choose|i: int|
                0 <= i < old(db).rows().len() && (#[trigger] old(db).rows()[i]).id == new_id;
            assert(old(db).rows()[i].id < old(db).next_id());
        }
        lemma_push_keeps_wf(*old(db), *db, new_id);
    }
}

/// Pushing a row with a fresh nonzero id and keeping the counter above every
/// id preserves the table invariant.
proof fn lemma_push_keeps_wf(pre: WorldTable, post: WorldTable, id: u64)
    requires
        pre.wf(),
        0 < id < post.next_id(),
        pre.next_id() <= post.next_id(),
        !contains_id(pre.rows(), id),
        post.rows().len() == pre.rows().len() + 1,
        forall|i: int| 0 <= i < pre.rows().len() ==> post.rows()[i] == pre.rows()[i],
        post.rows().last().id == id,
    ensures
        post.wf(),
{
    assert forall|i: int|
        0 <= i < post.rows().len() implies 0 < (#[trigger] post.rows()[i]).id < post.next_id() by {
        if i < pre.rows().len() {
            assert(post.rows()[i] == pre.rows()[i]);
        } else {
            assert(post.rows()[i] == post.rows().last());
        }
    }
    assert forall|i: int, j: int|
        0 <= i < j < post.rows().len() implies (#[trigger] post.rows()[i]).id != (
    #[trigger] post.rows()[j]).id by {
        if j < pre.rows().len() {
            assert(post.rows()[i] == pre.rows()[i]);
            assert(post.rows()[j] == pre.rows()[j]);
        } else {
            assert(post.rows()[j] == post.rows().last());
            assert(post.rows()[i] == pre.rows()[i]);
            assert(pre.rows()[i].id < pre.next_id());
        }
    }
}

/// The not-found error text for an id.
pub open spec fn not_found_message(id: u64) -> Seq<char> {
    "Unable to find object with ID: "@ + dec_digits(id as nat)
}

fn not_found_error(id: u64) -> (m: String)
    ensures
        m@ == not_found_message(id),
{
    let mut m = String::from_str("Unable to find object with ID: ");
    append_u64_decimal(&mut m, id);
    m
}

/// Replacing one row by a row with the same id preserves the table
/// invariant.
proof fn lemma_update_keeps_wf(pre: WorldTable, post: WorldTable, at: int)
    requires
        pre.wf(),
        post.next_id() == pre.next_id(),
        0 <= at < pre.rows().len(),
        post.rows().len() == pre.rows().len(),
        forall|i: int| 0 <= i < pre.rows().len() && i != at ==> post.rows()[i] == pre.rows()[i],
        post.rows()[at].id == pre.rows()[at].id,
    ensures
        post.wf(),
{
    assert forall|i: int|
        0 <= i < post.rows().len() implies 0 < (#[trigger] post.rows()[i]).id < post.next_id() by {
        assert(post.rows()[i].id == pre.rows()[i].id);
    }
    assert forall|i: int, j: int|
        0 <= i < j < post.rows().len() implies (#[trigger] post.rows()[i]).id != (
    #[trigger] post.rows()[j]).id by {
        assert(post.rows()[i].id == pre.rows()[i].id);
        assert(post.rows()[j].id == pre.rows()[j].id);
        assert(pre.rows()[i].id != pre.rows()[j].id);
    }
}

/// Reducer: overwrite the translation of the object with the given id,
/// leaving its other fields and every other row untouched.  When no row has
/// the id, an error naming it is returned and nothing changes.
#[verifier::loop_isolation(false)]
pub fn move_object(db: &mut WorldTable, id: u64, translation: Vec3) -> (r: Result<(), String>)
    requires
        old(db).wf(),
    ensures
        final(db).wf(),
        (r is Ok) == contains_id(old(db).rows(), id),
        r is Err ==> *final(db) == *old(db),
        r matches Err(m) ==> m@ == not_found_message(id),
        r is Ok ==> final(db).next_id() == old(db).next_id() && exists|i: int|
            0 <= i < old(db).rows().len() && (#[trigger] old(db).rows()[i]).id == id && final(db).rows() =~= old(db).rows().update(
                i,
                with_translation(old(db).rows()[i], translation),
            ),
{
    let n = db.rows.len();
    let ghost db0 = *db;
    let mut idx: usize = 0;
    while idx < n
        invariant
            idx <= n,
            *db == db0,
            forall|k: int| 0 <= k < idx ==> (#[trigger] db.rows@[k]).id != id,
        decreases n - idx,
    {
        if db.rows[idx].id == id {
            let mut row = db.rows.remove(idx);
            row.translation = translation;
            db.rows.insert(idx, row);
            proof {
                assert(db.rows@ =~= old(db).rows().update(
                    idx as int,
                    with_translation(old(db).rows()[idx as int], translation),
                ));
                lemma_update_keeps_wf(*old(db), *db, idx as int);
            }
            return Ok(());
        }
        idx = idx + 1;
    }
    Err(not_found_error(id))
}

/// Reducer: overwrite the rotation of the object with the given id, leaving
/// its other fields and every other row untouched.  When no row has the id,
/// an error naming it is returned and nothing changes.
#[verifier::loop_isolation(false)]
pub fn rotate_object(db: &mut WorldTable, id: u64, rotation: Quat) -> (r: Result<(), String>)
    requires
        old(db).wf(),
    ensures
        final(db).wf(),
        (r is Ok) == contains_id(old(db).rows(), id),
        r is Err ==> *final(db) == *old(db),
        r matches Err(m) ==> m@ == not_found_message(id),
        r is Ok ==> final(db).next_id() == old(db).next_id() && exists|i: int|
            0 <= i < old(db).rows().len() && (#[trigger] old(db).rows()[i]).id == id && final(db).rows() =~= old(db).rows().update(i, with_rotation(old(db).rows()[i], rotation)),
{
    let n = db.rows.len();
    let ghost db0 = *db;
    let mut idx: usize = 0;
    while idx < n
        invariant
            idx <= n,
            *db == db0,
            forall|k: int| 0 <= k < idx ==> (#[trigger] db.rows@[k]).id != id,
        decreases n - idx,
    {
        if db.rows[idx].id == id {
            let mut row = db.rows.remove(idx);
            row.rotation = rotation;
            db.rows.insert(idx, row);
            proof {
                assert(db.rows@ =~= old(db).rows().update(
                    idx as int,
                    with_rotation(old(db).rows()[idx as int], rotation),
                ));
                lemma_update_keeps_wf(*old(db), *db, idx as int);
            }
            return Ok(());
        }
        idx = idx + 1;
    }
    Err(not_found_error(id))
}

/// Reducer: overwrite the scale of the object with the given id, leaving its
/// other fields and every other row untouched.  When no row has the id, an
/// error naming it is returned and nothing changes.
#[verifier::loop_isolation(false)]
pub fn scale_object(db: &mut WorldTable, id: u64, scale: Vec3) -> (r: Result<(), String>)
    requires
        old(db).wf(),
    ensures
        final(db).wf(),
        (r is Ok) == contains_id(old(db).rows(), id),
        r is Err ==> *final(db) == *old(db),
        r matches Err(m) ==> m@ == not_found_message(id),
        r is Ok ==> final(db).next_id() == old(db).next_id() && exists|i: int|
            0 <= i < old(db).rows().len() && (#[trigger] old(db).rows()[i]).id == id && final(db).rows() =~= old(db).rows().update(i, with_scale(old(db).rows()[i], scale)),
{
    let n = db.rows.len();
    let ghost db0 = *db;
    let mut idx: usize = 0;
    while idx < n
        invariant
            idx <= n,
            *db == db0,
            forall|k: int| 0 <= k < idx ==> (#[trigger] db.rows@[k]).id != id,
        decreases n - idx,
    {
        if db.rows[idx].id == id {
            let mut row = db.rows.remove(idx);
            row.scale = scale;
            db.rows.insert(idx, row);
            proof {
                assert(db.rows@ =~= old(db).rows().update(
                    idx as int,
                    with_scale(old(db).rows()[idx as int], scale),
                ));
                lemma_update_keeps_wf(*old(db), *db, idx as int);
            }
            return Ok(());
        }
        idx = idx + 1;
    }
    Err(not_found_error(id))
}

} // verus!
