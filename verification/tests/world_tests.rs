use world_editor::shape::{Ball, CollisionShape, PrimitiveShape};
use world_editor::types::{AssetKind, Quat, Vec3};
use world_editor::world::{
    WorldObject, WorldTable, insert_asset, insert_object, move_object, rotate_object, scale_object,
};

fn vec3_bits(x: f32, y: f32, z: f32) -> Vec3 {
    Vec3 { x: x.to_bits(), y: y.to_bits(), z: z.to_bits() }
}

fn quat_bits(x: f32, y: f32, z: f32, w: f32) -> Quat {
    Quat { x: x.to_bits(), y: y.to_bits(), z: z.to_bits(), w: w.to_bits() }
}

fn sample_object(id: u64) -> WorldObject {
    WorldObject {
        id,
        asset: AssetKind::Path(String::from("alien.glb")),
        translation: vec3_bits(1.0, 2.0, 3.0),
        rotation: quat_bits(0.5, 0.5, 0.5, 0.5),
        scale: vec3_bits(2.0, 2.0, 2.0),
        collision_shape: CollisionShape::Ball(Ball { radius: 1.5f32.to_bits() }),
    }
}

#[test]
fn insert_asset_creates_row_with_identity_transform() {
    let mut db = WorldTable::new();
    insert_asset(&mut db, String::from("FlightHelmet.gltf"));

    assert_eq!(db.len(), 1);
    let row = db.row_at(0);
    assert_eq!(row.id, 1);
    assert_eq!(row.asset_path().map(|p| p.as_str()), Some("FlightHelmet.gltf"));
    assert_eq!(row.translation, vec3_bits(0.0, 0.0, 0.0));
    assert_eq!(row.rotation, quat_bits(0.0, 0.0, 0.0, 1.0));
    assert_eq!(row.scale, vec3_bits(1.0, 1.0, 1.0));
    assert!(matches!(row.collision_shape, CollisionShape::NoShape));
}

#[test]
fn insert_asset_rejects_absolute_and_traversal_paths() {
    let mut db = WorldTable::new();
    insert_asset(&mut db, String::from("C:\\evil.glb"));
    insert_asset(&mut db, String::from("../../etc/passwd"));
    assert_eq!(db.len(), 0);
    assert_eq!(db.next_object_id(), 1);
}

#[test]
fn insert_asset_normalizes_backslashes() {
    let mut db = WorldTable::new();
    insert_asset(&mut db, String::from("models\\alien.glb"));
    assert_eq!(db.len(), 1);
    assert_eq!(db.row_at(0).asset_path().map(|p| p.as_str()), Some("models/alien.glb"));
}

#[test]
fn insert_asset_assigns_increasing_ids() {
    let mut db = WorldTable::new();
    insert_asset(&mut db, String::from("a.glb"));
    insert_asset(&mut db, String::from("b.glb"));
    insert_asset(&mut db, String::from("nope/../c.glb"));
    insert_asset(&mut db, String::from("d.glb"));
    assert_eq!(db.len(), 3);
    assert_eq!(db.row_at(0).id, 1);
    assert_eq!(db.row_at(1).id, 2);
    assert_eq!(db.row_at(2).id, 3);
    assert_eq!(db.next_object_id(), 4);
}

#[test]
fn insert_object_auto_assigns_id_zero() {
    let mut db = WorldTable::new();
    insert_object(&mut db, sample_object(0));
    assert_eq!(db.len(), 1);
    let row = db.row_at(0);
    assert_eq!(row.id, 1);
    assert_eq!(row.translation, vec3_bits(1.0, 2.0, 3.0));
    assert_eq!(row.scale, vec3_bits(2.0, 2.0, 2.0));
    assert_eq!(db.next_object_id(), 2);
}

#[test]
fn insert_object_keeps_explicit_id_and_advances_sequence() {
    let mut db = WorldTable::new();
    insert_object(&mut db, sample_object(7));
    assert_eq!(db.len(), 1);
    assert_eq!(db.row_at(0).id, 7);
    assert_eq!(db.next_object_id(), 8);
}

#[test]
fn insert_object_rejects_invalid_asset_path() {
    let mut db = WorldTable::new();
    let mut object = sample_object(0);
    object.asset = AssetKind::Path(String::from("/abs/alien.glb"));
    insert_object(&mut db, object);
    assert_eq!(db.len(), 0);
}

#[test]
fn insert_object_normalizes_asset_path() {
    let mut db = WorldTable::new();
    let mut object = sample_object(0);
    object.asset = AssetKind::Path(String::from("models\\alien.glb"));
    insert_object(&mut db, object);
    assert_eq!(db.row_at(0).asset_path().map(|p| p.as_str()), Some("models/alien.glb"));
}

#[test]
fn insert_object_accepts_primitive_shape() {
    let mut db = WorldTable::new();
    let mut object = sample_object(0);
    object.asset = AssetKind::PrimitiveShape(PrimitiveShape::Ball(Ball { radius: 1.0f32.to_bits() }));
    insert_object(&mut db, object);
    assert_eq!(db.len(), 1);
    assert!(db.row_at(0).asset_path().is_none());
}

#[test]
fn move_object_on_missing_id_returns_not_found() {
    let mut db = WorldTable::new();
    insert_asset(&mut db, String::from("a.glb"));
    let r = move_object(&mut db, 42, vec3_bits(1.0, 1.0, 1.0));
    assert_eq!(r, Err(String::from("Unable to find object with ID: 42")));
    // nothing was mutated
    assert_eq!(db.len(), 1);
    assert_eq!(db.row_at(0).translation, vec3_bits(0.0, 0.0, 0.0));
}

#[test]
fn rotate_object_on_missing_id_returns_not_found() {
    let mut db = WorldTable::new();
    let r = rotate_object(&mut db, 9, quat_bits(0.0, 0.0, 0.0, 1.0));
    assert_eq!(r, Err(String::from("Unable to find object with ID: 9")));
    assert_eq!(db.len(), 0);
}

#[test]
fn scale_object_on_missing_id_returns_not_found() {
    let mut db = WorldTable::new();
    let r = scale_object(&mut db, 1234567890, vec3_bits(1.0, 1.0, 1.0));
    assert_eq!(r, Err(String::from("Unable to find object with ID: 1234567890")));
    assert_eq!(db.len(), 0);
}

#[test]
fn move_object_overwrites_only_translation() {
    let mut db = WorldTable::new();
    insert_object(&mut db, sample_object(0));
    let before = db.row_at(0).clone();

    let r = move_object(&mut db, 1, vec3_bits(-4.0, 5.5, 6.25));
    assert_eq!(r, Ok(()));

    let after = db.row_at(0);
    assert_eq!(after.translation, vec3_bits(-4.0, 5.5, 6.25));
    assert_eq!(after.id, before.id);
    assert_eq!(after.asset, before.asset);
    assert_eq!(after.rotation, before.rotation);
    assert_eq!(after.scale, before.scale);
    assert_eq!(after.collision_shape, before.collision_shape);
}

#[test]
fn rotate_object_overwrites_only_rotation() {
    let mut db = WorldTable::new();
    insert_object(&mut db, sample_object(0));
    let before = db.row_at(0).clone();

    let r = rotate_object(&mut db, 1, quat_bits(0.0, 1.0, 0.0, 0.0));
    assert_eq!(r, Ok(()));

    let after = db.row_at(0);
    assert_eq!(after.rotation, quat_bits(0.0, 1.0, 0.0, 0.0));
    assert_eq!(after.id, before.id);
    assert_eq!(after.asset, before.asset);
    assert_eq!(after.translation, before.translation);
    assert_eq!(after.scale, before.scale);
    assert_eq!(after.collision_shape, before.collision_shape);
}

#[test]
fn scale_object_overwrites_only_scale() {
    let mut db = WorldTable::new();
    insert_object(&mut db, sample_object(0));
    let before = db.row_at(0).clone();

    let r = scale_object(&mut db, 1, vec3_bits(0.5, 0.5, 0.5));
    assert_eq!(r, Ok(()));

    let after = db.row_at(0);
    assert_eq!(after.scale, vec3_bits(0.5, 0.5, 0.5));
    assert_eq!(after.id, before.id);
    assert_eq!(after.asset, before.asset);
    assert_eq!(after.translation, before.translation);
    assert_eq!(after.rotation, before.rotation);
    assert_eq!(after.collision_shape, before.collision_shape);
}

#[test]
fn update_touches_only_the_addressed_row() {
    let mut db = WorldTable::new();
    insert_asset(&mut db, String::from("a.glb"));
    insert_asset(&mut db, String::from("b.glb"));
    insert_asset(&mut db, String::from("c.glb"));

    let r = move_object(&mut db, 2, vec3_bits(9.0, 9.0, 9.0));
    assert_eq!(r, Ok(()));
    assert_eq!(db.row_at(0).translation, vec3_bits(0.0, 0.0, 0.0));
    assert_eq!(db.row_at(1).translation, vec3_bits(9.0, 9.0, 9.0));
    assert_eq!(db.row_at(2).translation, vec3_bits(0.0, 0.0, 0.0));
}

#[test]
fn find_object_by_id() {
    let mut db = WorldTable::new();
    insert_asset(&mut db, String::from("a.glb"));
    insert_asset(&mut db, String::from("b.glb"));
    let found = db.find_object(2).expect("row with id 2");
    assert_eq!(found.asset_path().map(|p| p.as_str()), Some("b.glb"));
    assert!(db.find_object(3).is_none());
}

#[test]
fn identity_constants_match_float_bits() {
    assert_eq!(Vec3::zero(), vec3_bits(0.0, 0.0, 0.0));
    assert_eq!(Vec3::one(), vec3_bits(1.0, 1.0, 1.0));
    assert_eq!(Quat::identity(), quat_bits(0.0, 0.0, 0.0, 1.0));
    assert_eq!(Vec3::default(), Vec3::zero());
    assert_eq!(Quat::default(), quat_bits(0.0, 0.0, 0.0, 0.0));
    assert!(matches!(CollisionShape::default(), CollisionShape::NoShape));
}
