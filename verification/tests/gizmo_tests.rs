use transform_gizmo::drag::{intersect_plane, on_drag, on_drag_end, on_drag_start, rotation_arc};
use transform_gizmo::gizmo::{
    GizmoError, TransformGizmoBundle, TransformGizmoInteraction, TransformGizmoPlugin, Visibility,
};
use transform_gizmo::mesh::build_gizmo;
use transform_gizmo::quat::Quat;
use transform_gizmo::rat::Rat;
use transform_gizmo::scene::{Ray, SceneNode};
use transform_gizmo::systems::{place_gizmo, propagate_gizmo_elements, update_gizmo_settings};
use transform_gizmo::transform::Transform;
use transform_gizmo::vec3::Vec3;
use transform_gizmo::view::{
    adjust_view_translate_gizmo, gizmo_cam_copy_settings, normalized_scale, Camera, CameraChanges,
    CameraState,
};

fn node_at(x: i64, y: i64, z: i64, selected: bool) -> SceneNode {
    SceneNode {
        selected,
        transform: Transform::from_translation(Vec3::from_i64(x, y, z)),
        global_transform: Transform::from_translation(Vec3::from_i64(x, y, z)),
        parent_global: None,
        initial_transform: None,
    }
}

fn ray_down_at(x: i64, y: i64) -> Ray {
    Ray { origin: Vec3::from_i64(x, y, 5), direction: Vec3::from_i64(0, 0, -1) }
}

fn default_settings() -> transform_gizmo::gizmo::TransformGizmoSettings {
    TransformGizmoPlugin::default().settings()
}

fn assert_vec_is(v: &Vec3, x: i64, y: i64, z: i64) {
    assert!(v.eq_val(&Vec3::from_i64(x, y, z)), "{:?} != ({},{},{})", v, x, y, z);
}

// ------------------------------------------------------------------
// Rational arithmetic
// ------------------------------------------------------------------

#[test]
fn rat_exact_arithmetic() {
    let a = Rat::new(1, 2);
    let b = Rat::new(1, 3);
    let s = a.add(b).unwrap();
    assert!(s.eq_val(&Rat::new(5, 6)));
    let p = a.mul(b).unwrap();
    assert!(p.eq_val(&Rat::new(1, 6)));
    let q = a.div(b).unwrap();
    assert!(q.eq_val(&Rat::new(3, 2)));
    let d = a.sub(b).unwrap();
    assert!(d.eq_val(&Rat::new(1, 6)));
}

#[test]
fn rat_overflow_reports_none() {
    let big = Rat { num: i128::MAX, den: 1 };
    assert!(big.add(Rat::one()).is_none());
    assert!(big.mul(Rat::from_i64(2)).is_none());
}

#[test]
fn rat_sqrt_exact() {
    let s = Rat::new(9, 4).sqrt_exact().unwrap();
    assert!(s.eq_val(&Rat::new(3, 2)));
    assert!(Rat::new(2, 1).sqrt_exact().is_none());
}

// ------------------------------------------------------------------
// Vectors, quaternions, transforms
// ------------------------------------------------------------------

#[test]
fn vec_dot_and_cross() {
    let x = Vec3::from_i64(1, 0, 0);
    let y = Vec3::from_i64(0, 1, 0);
    let d = x.dot(y).unwrap();
    assert_eq!(d.signum(), 0);
    let c = x.cross(y).unwrap();
    assert_vec_is(&c, 0, 0, 1);
}

#[test]
fn quat_quarter_turn_rotates_x_to_y() {
    let turn = Quat::from_wxyz(1, 0, 0, 1);
    let r = turn.rotate(Vec3::from_i64(1, 0, 0)).unwrap();
    assert_vec_is(&r, 0, 1, 0);
}

#[test]
fn transform_round_trip_through_parent() {
    let parent = Transform {
        translation: Vec3::from_i64(1, 2, 3),
        rotation: Quat::from_wxyz(1, 0, 0, 1),
        scale: Vec3::from_i64(2, 2, 2),
    };
    let world = Transform {
        translation: Vec3::from_i64(5, -1, 4),
        rotation: Quat::from_wxyz(1, 1, 0, 0),
        scale: Vec3::from_i64(2, 2, 2),
    };
    let local = world.to_local(parent).unwrap();
    let back = parent.mul_transform(local).unwrap();
    assert!(back.translation.eq_val(&world.translation));
    assert!(back.scale.eq_val(&world.scale));
    // The rotations agree as rotations: quaternions are homogeneous, so
    // compare them by what they do to a probe vector.
    let probe = Vec3::from_i64(3, -2, 5);
    let a = back.rotation.rotate(probe).unwrap();
    let b = world.rotation.rotate(probe).unwrap();
    assert!(a.eq_val(&b));
}

// ------------------------------------------------------------------
// Placement (centroid correctness)
// ------------------------------------------------------------------

#[test]
fn centroid_of_selection() {
    let entities = vec![
        node_at(0, 0, 0, true),
        node_at(4, 2, 0, true),
        node_at(2, 4, 6, true),
        node_at(100, 100, 100, false),
    ];
    let mut gizmos = vec![TransformGizmoBundle::default()];
    let r = place_gizmo(&default_settings(), &entities, &mut gizmos);
    assert!(r.is_ok());
    assert_eq!(gizmos[0].visible, Visibility::Inherited);
    assert_vec_is(&gizmos[0].transform.translation, 2, 2, 2);
    assert_vec_is(&gizmos[0].global_transform.translation, 2, 2, 2);
}

#[test]
fn empty_selection_hides_gizmo_and_keeps_position() {
    let entities = vec![node_at(7, 7, 7, false)];
    let mut gizmos = vec![TransformGizmoBundle::default()];
    let before = gizmos[0].transform;
    let r = place_gizmo(&default_settings(), &entities, &mut gizmos);
    assert!(r.is_ok());
    assert_eq!(gizmos[0].visible, Visibility::Hidden);
    assert!(gizmos[0].transform.eq_val(&before));
}

#[test]
fn wrong_gizmo_count_is_reported() {
    let entities = vec![node_at(0, 0, 0, true)];
    let mut gizmos = vec![TransformGizmoBundle::default(), TransformGizmoBundle::default()];
    let r = place_gizmo(&default_settings(), &entities, &mut gizmos);
    assert_eq!(r, Err(GizmoError::GizmoCount { found: 2 }));
}

// ------------------------------------------------------------------
// Settings repropagation
// ------------------------------------------------------------------

#[test]
fn alignment_rotation_retargets_handles() {
    let (_, mut handles) = build_gizmo();
    let mut settings = default_settings();
    // A quarter turn about Z.
    settings.alignment_rotation = Quat::from_wxyz(1, 0, 0, 1);
    update_gizmo_settings(&settings, &mut handles);
    // The X translate-axis handle now works along Y, and its original
    // is untouched.
    match handles[0].interaction {
        TransformGizmoInteraction::TranslateAxis { original, axis } => {
            assert_vec_is(&original, 1, 0, 0);
            assert_vec_is(&axis, 0, 1, 0);
        }
        _ => panic!("wrong interaction kind"),
    }
    // The Z rotation arc still works about Z.
    match handles[12].interaction {
        TransformGizmoInteraction::RotateAxis { original, axis } => {
            assert_vec_is(&original, 0, 0, 1);
            assert_vec_is(&axis, 0, 0, 1);
        }
        _ => panic!("wrong interaction kind"),
    }
}

#[test]
fn allow_rotation_toggles_arc_visibility() {
    let (_, mut handles) = build_gizmo();
    let mut settings = default_settings();
    settings.allow_rotation = false;
    update_gizmo_settings(&settings, &mut handles);
    assert_eq!(handles[10].visibility, Visibility::Hidden);
    assert_eq!(handles[12].visibility, Visibility::Hidden);
    assert_eq!(handles[0].visibility, Visibility::Inherited);
    settings.allow_rotation = true;
    update_gizmo_settings(&settings, &mut handles);
    assert_eq!(handles[10].visibility, Visibility::Inherited);
}

// ------------------------------------------------------------------
// Drag sessions
// ------------------------------------------------------------------

fn start_axis_drag() -> (Vec<SceneNode>, Vec<TransformGizmoBundle>) {
    let entities = vec![node_at(2, 1, 0, true), node_at(30, 30, 30, false)];
    let mut gizmos = vec![TransformGizmoBundle::default()];
    // Place the gizmo at the selection centroid (2, 1, 0).
    place_gizmo(&default_settings(), &entities, &mut gizmos).unwrap();
    let mut entities = entities;
    let x_axis = Vec3::from_i64(1, 0, 0);
    let target = TransformGizmoInteraction::TranslateAxis { original: x_axis, axis: x_axis };
    on_drag_start(&mut entities, &mut gizmos, Some(target)).unwrap();
    (entities, gizmos)
}

#[test]
fn drag_start_snapshots_selected_entities() {
    let (entities, gizmos) = start_axis_drag();
    for e in &entities {
        if e.selected {
            let snap = e.initial_transform.expect("selected entity must have a snapshot");
            assert!(snap.eq_val(&e.global_transform));
        } else {
            assert!(e.initial_transform.is_none());
        }
    }
    let g = &gizmos[0].gizmo;
    assert!(g.current_interaction().is_some());
    assert!(g.initial_transform.is_some());
    assert!(g.drag_start.is_none());
}

/// A ray pointing straight down onto the XY plane makes the axis-drag
/// plane (which contains the X axis and faces the ray) the XY plane
/// itself, so cursor positions map one-to-one onto hit points.
fn drag_x(entities: &mut Vec<SceneNode>, gizmos: &mut Vec<TransformGizmoBundle>, x: i64) -> bool {
    let mut g = gizmos[0].gizmo;
    let wrote = on_drag(&mut g, Some(ray_down_at(x, 1)), entities);
    gizmos[0].gizmo = g;
    wrote
}

#[test]
fn axis_drag_translates_along_axis_only() {
    let (mut entities, mut gizmos) = start_axis_drag();
    // First sample anchors at x = 4; second sample moves to x = 7.
    assert!(!drag_x(&mut entities, &mut gizmos, 4));
    assert!(gizmos[0].gizmo.drag_start.is_some());
    assert!(drag_x(&mut entities, &mut gizmos, 7));
    // The selected entity moved by 3 along X; the unselected one stayed.
    assert_vec_is(&entities[0].transform.translation, 5, 1, 0);
    assert_vec_is(&entities[1].transform.translation, 30, 30, 30);
}

#[test]
fn drag_is_drift_free_across_sampling() {
    // One drag from anchor 4 straight to 10 ...
    let (mut one, mut gizmos_one) = start_axis_drag();
    assert!(!drag_x(&mut one, &mut gizmos_one, 4));
    assert!(drag_x(&mut one, &mut gizmos_one, 10));
    // ... and the same drag sampled in two steps.
    let (mut two, mut gizmos_two) = start_axis_drag();
    assert!(!drag_x(&mut two, &mut gizmos_two, 4));
    assert!(drag_x(&mut two, &mut gizmos_two, 6));
    assert!(drag_x(&mut two, &mut gizmos_two, 10));
    for (a, b) in one.iter().zip(two.iter()) {
        assert!(a.transform.translation.eq_val(&b.transform.translation));
    }
    assert_vec_is(&one[0].transform.translation, 8, 1, 0);
}

#[test]
fn identical_drag_sample_writes_nothing() {
    let (mut entities, mut gizmos) = start_axis_drag();
    assert!(!drag_x(&mut entities, &mut gizmos, 4));
    assert!(drag_x(&mut entities, &mut gizmos, 9));
    let before = entities.clone();
    // The same ray again: the targets are unchanged, so nothing is
    // written.
    assert!(!drag_x(&mut entities, &mut gizmos, 9));
    for (a, b) in entities.iter().zip(before.iter()) {
        assert!(a.transform.eq_val(&b.transform));
    }
}

#[test]
fn plane_drag_translates_in_plane() {
    let entities = vec![node_at(0, 0, 0, true)];
    let mut gizmos = vec![TransformGizmoBundle::default()];
    place_gizmo(&default_settings(), &entities, &mut gizmos).unwrap();
    let mut entities = entities;
    let z_axis = Vec3::from_i64(0, 0, 1);
    let target = TransformGizmoInteraction::TranslatePlane { original: z_axis, normal: z_axis };
    on_drag_start(&mut entities, &mut gizmos, Some(target)).unwrap();
    let mut g = gizmos[0].gizmo;
    assert!(!on_drag(&mut g, Some(ray_down_at(1, 1)), &mut entities));
    assert!(on_drag(&mut g, Some(ray_down_at(4, -2)), &mut entities));
    assert_vec_is(&entities[0].transform.translation, 3, -3, 0);
}

#[test]
fn rotation_drag_quarter_turn_sign() {
    // One selected entity at (1, 0, 0); the gizmo is pinned at the
    // origin, rotating about Z.
    let mut entities = vec![node_at(1, 0, 0, true)];
    let mut gizmos = vec![TransformGizmoBundle::default()];
    gizmos[0].global_transform = Transform::identity();
    let z_axis = Vec3::from_i64(0, 0, 1);
    let target = TransformGizmoInteraction::RotateAxis { original: z_axis, axis: z_axis };
    on_drag_start(&mut entities, &mut gizmos, Some(target)).unwrap();
    let mut g = gizmos[0].gizmo;
    // Anchor the cursor at (1, 0, 0), then sweep to (0, 1, 0):
    // a positive quarter turn.
    assert!(!on_drag(&mut g, Some(ray_down_at(1, 0)), &mut entities));
    assert!(on_drag(&mut g, Some(ray_down_at(0, 1)), &mut entities));
    assert_vec_is(&entities[0].transform.translation, 0, 1, 0);
}

#[test]
fn rotation_drag_opposite_sweep_turns_the_other_way() {
    let mut entities = vec![node_at(1, 0, 0, true)];
    let mut gizmos = vec![TransformGizmoBundle::default()];
    gizmos[0].global_transform = Transform::identity();
    let z_axis = Vec3::from_i64(0, 0, 1);
    let target = TransformGizmoInteraction::RotateAxis { original: z_axis, axis: z_axis };
    on_drag_start(&mut entities, &mut gizmos, Some(target)).unwrap();
    let mut g = gizmos[0].gizmo;
    // Sweep from (1, 0, 0) to (0, -1, 0): a negative quarter turn.
    assert!(!on_drag(&mut g, Some(ray_down_at(1, 0)), &mut entities));
    assert!(on_drag(&mut g, Some(ray_down_at(0, -1)), &mut entities));
    assert_vec_is(&entities[0].transform.translation, 0, -1, 0);
}

#[test]
fn rotation_arc_signs() {
    let x = Vec3::from_i64(1, 0, 0);
    let y_pos = Vec3::from_i64(0, 1, 0);
    let y_neg = Vec3::from_i64(0, -1, 0);
    let z = Vec3::from_i64(0, 0, 1);
    let plus = rotation_arc(x, y_pos, z).unwrap();
    assert!(plus.eq_val(&Quat::from_wxyz(1, 0, 0, 1)));
    let minus = rotation_arc(x, y_neg, z).unwrap();
    assert!(minus.eq_val(&Quat::from_wxyz(1, 0, 0, -1)));
    // Opposite spokes: the half turn falls back to the gizmo's axis.
    let half = rotation_arc(x, Vec3::from_i64(-1, 0, 0), z).unwrap();
    assert!(half.eq_val(&Quat::from_wxyz(0, 0, 0, 1)));
}

#[test]
fn drag_end_clears_session_and_later_drags_do_nothing() {
    let (mut entities, mut gizmos) = start_axis_drag();
    assert!(!drag_x(&mut entities, &mut gizmos, 4));
    assert!(drag_x(&mut entities, &mut gizmos, 7));
    let event = on_drag_end(&mut entities, &mut gizmos).unwrap();
    let event = event.expect("an active session must report its manipulation");
    assert!(event.from.eq_val(&gizmos[0].global_transform));
    for e in &entities {
        assert!(e.initial_transform.is_none());
    }
    let g = &gizmos[0].gizmo;
    assert!(g.current_interaction().is_none());
    assert!(g.drag_start.is_none());
    assert!(g.initial_transform.is_none());
    // A stray drag after the session has ended changes nothing.
    let before = entities.clone();
    assert!(!drag_x(&mut entities, &mut gizmos, 11));
    for (a, b) in entities.iter().zip(before.iter()) {
        assert!(a.transform.eq_val(&b.transform));
    }
}

#[test]
fn drag_without_ray_is_skipped() {
    let (mut entities, mut gizmos) = start_axis_drag();
    let mut g = gizmos[0].gizmo;
    assert!(!on_drag(&mut g, None, &mut entities));
    gizmos[0].gizmo = g;
    assert!(gizmos[0].gizmo.drag_start.is_none());
}

#[test]
fn scale_axis_is_a_no_op() {
    let entities = vec![node_at(1, 0, 0, true)];
    let mut gizmos = vec![TransformGizmoBundle::default()];
    place_gizmo(&default_settings(), &entities, &mut gizmos).unwrap();
    let x_axis = Vec3::from_i64(1, 0, 0);
    let target = TransformGizmoInteraction::ScaleAxis { original: x_axis, axis: x_axis };
    let mut entities = entities;
    on_drag_start(&mut entities, &mut gizmos, Some(target)).unwrap();
    let mut g = gizmos[0].gizmo;
    assert!(!on_drag(&mut g, Some(ray_down_at(5, 0)), &mut entities));
    assert!(!on_drag(&mut g, Some(ray_down_at(9, 0)), &mut entities));
    assert_vec_is(&entities[0].transform.translation, 1, 0, 0);
}

// ------------------------------------------------------------------
// Ray casting, propagation, view handle, camera mirror, normalization
// ------------------------------------------------------------------

#[test]
fn plane_intersection_hits_and_misses() {
    let hit = intersect_plane(
        &ray_down_at(2, 3),
        Vec3::from_i64(0, 0, 1),
        Vec3::from_i64(0, 0, 0),
    )
    .unwrap();
    assert_vec_is(&hit, 2, 3, 0);
    // Parallel to the plane: no hit.
    let parallel = Ray { origin: Vec3::from_i64(0, 0, 5), direction: Vec3::from_i64(1, 0, 0) };
    assert!(intersect_plane(&parallel, Vec3::from_i64(0, 0, 1), Vec3::from_i64(0, 0, 0)).is_none());
    // Behind the ray: no hit.
    let up = Ray { origin: Vec3::from_i64(0, 0, 5), direction: Vec3::from_i64(0, 0, 1) };
    assert!(intersect_plane(&up, Vec3::from_i64(0, 0, 1), Vec3::from_i64(0, 0, 0)).is_none());
}

#[test]
fn handles_follow_gizmo_placement() {
    let (bundle, mut handles) = build_gizmo();
    let mut gizmos = vec![bundle];
    gizmos[0].global_transform = Transform::from_translation(Vec3::from_i64(10, 0, 0));
    propagate_gizmo_elements(&gizmos, &mut handles);
    // The Y arrow tail sits at 13/20 above the gizmo origin.
    let expected = Vec3 {
        x: Rat::from_i64(10),
        y: Rat::new(13, 20),
        z: Rat::from_i64(0),
    };
    assert!(handles[1].global_transform.translation.eq_val(&expected));
}

#[test]
fn view_handle_faces_the_camera() {
    let (_, mut handles) = build_gizmo();
    // A camera turned a quarter turn about X: its backward axis points
    // along -Y.
    let cam = Transform {
        translation: Vec3::from_i64(0, 0, 8),
        rotation: Quat::from_wxyz(1, 1, 0, 0),
        scale: Vec3::from_i64(1, 1, 1),
    };
    adjust_view_translate_gizmo(&mut handles, &vec![cam]);
    match handles[9].interaction {
        TransformGizmoInteraction::TranslatePlane { original, normal } => {
            assert_vec_is(&original, 0, 0, 0);
            assert_vec_is(&normal, 0, -1, 0);
        }
        _ => panic!("view handle must stay a plane handle"),
    }
}

#[test]
fn gizmo_camera_mirrors_main_camera_on_top() {
    let main = CameraState {
        camera: Camera { order: 3, settings: 77 },
        global_transform: Transform::from_translation(Vec3::from_i64(1, 2, 3)),
        projection: 9,
    };
    let mut mirror = CameraState {
        camera: Camera { order: 0, settings: 0 },
        global_transform: Transform::identity(),
        projection: 0,
    };
    let changes = CameraChanges { camera: true, transform: true, projection: true };
    gizmo_cam_copy_settings(&vec![main], &changes, &mut mirror).unwrap();
    assert_eq!(mirror.camera.order, 13);
    assert_eq!(mirror.camera.settings, 77);
    assert_eq!(mirror.projection, 9);
    assert!(mirror.global_transform.eq_val(&main.global_transform));
    // No main camera: the mirror reports the invariant violation.
    let r = gizmo_cam_copy_settings(&vec![], &changes, &mut mirror);
    assert_eq!(r, Err(GizmoError::CameraCount { found: 0 }));
}

#[test]
fn normalization_keeps_apparent_size_in_band() {
    let bounds = transform_gizmo::gizmo::Normalize3d::new(Rat::new(3, 2), Rat::from_i64(150));
    // At distance 100 with 30 pixels per unit at unit distance, the
    // apparent size 3/10 is below the band: scale up to hit 3/2 pixels,
    // which takes a factor of 5.
    let s = normalized_scale(Rat::from_i64(30), Rat::from_i64(100), &bounds).unwrap();
    assert!(s.eq_val(&Rat::from_i64(5)));
    // At distance 1 the apparent size 30 is inside the band: unchanged.
    let s = normalized_scale(Rat::from_i64(30), Rat::from_i64(1), &bounds).unwrap();
    assert!(s.eq_val(&Rat::one()));
    // Very close, the apparent size 300 exceeds the band: shrink to 150.
    let s = normalized_scale(Rat::from_i64(300), Rat::from_i64(1), &bounds).unwrap();
    assert!(s.eq_val(&Rat::new(1, 2)));
}

#[test]
fn drag_end_resets_even_mid_anchor() {
    // Ending a session that only ever anchored (no displacement yet)
    // still clears everything: the reset does not depend on how far the
    // drag progressed.
    let (mut entities, mut gizmos) = start_axis_drag();
    assert!(!drag_x(&mut entities, &mut gizmos, 4));
    assert!(gizmos[0].gizmo.drag_start.is_some());
    let event = on_drag_end(&mut entities, &mut gizmos).unwrap();
    assert!(event.is_some());
    let g = &gizmos[0].gizmo;
    assert!(g.current_interaction().is_none());
    assert!(g.drag_start.is_none());
    assert!(g.initial_transform.is_none());
    for e in &entities {
        assert!(e.initial_transform.is_none());
    }
}

#[test]
fn drag_end_without_session_reports_nothing() {
    // DragEnd with no session active: snapshots (none) are dropped, the
    // already-clear state stays clear, and no manipulation is reported.
    let mut entities = vec![node_at(1, 2, 3, true)];
    let mut gizmos = vec![TransformGizmoBundle::default()];
    let event = on_drag_end(&mut entities, &mut gizmos).unwrap();
    assert!(event.is_none());
    assert!(gizmos[0].gizmo.current_interaction().is_none());
}

#[test]
fn default_bundle_parks_far_away_and_hidden() {
    let b = TransformGizmoBundle::default();
    assert_eq!(b.visible, Visibility::Hidden);
    let parked = Vec3::from_i64(i64::MIN, i64::MIN, i64::MIN);
    assert!(b.transform.translation.eq_val(&parked));
    assert!(b.gizmo.current_interaction().is_none());
}

#[test]
fn build_gizmo_lays_out_thirteen_handles() {
    let (bundle, handles) = build_gizmo();
    assert_eq!(handles.len(), 13);
    assert_eq!(bundle.visible, Visibility::Hidden);
    assert_eq!(handles.iter().filter(|h| h.rotation_gizmo).count(), 3);
    assert_eq!(handles.iter().filter(|h| h.view_translate_gizmo).count(), 1);
}

