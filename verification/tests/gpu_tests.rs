use aracari::collider::{
    collider_type_code, handle_collider_shape_variant_change, shape_from_name, shape_index,
    shape_variants, ColliderShapeKind,
};
use aracari::gpu::{
    collision_mode_code, emission_shape_code, extract_colliders, flag_u32, pack_colliders,
    prepare_particle_compute_bind_groups, step_flags, workgroup_count, CollisionKind,
    EmissionShapeKind, EmitterBindingSource, EmitterTextures, ParticleComputeNode, PipelineState,
    MAX_COLLIDERS, WORKGROUP_SIZE,
};
use aracari::texture_cache::TextureCache;
use aracari::gpu::should_extract_emitter;
use aracari::button::{handle_button_click, ButtonVariant};
use aracari::asset::{DrawOrder, ParticleFlags};
use aracari::gpu::{curve_texture_key, emitter_uniform_codes, uniform_steps, EmitterSettings, SimulationStep};

#[test]
fn uniform_codes() {
    assert_eq!(emission_shape_code(EmissionShapeKind::Point), 0);
    assert_eq!(emission_shape_code(EmissionShapeKind::Sphere), 1);
    assert_eq!(emission_shape_code(EmissionShapeKind::SphereSurface), 2);
    assert_eq!(emission_shape_code(EmissionShapeKind::Box), 3);
    assert_eq!(emission_shape_code(EmissionShapeKind::Ring), 4);
    assert_eq!(collision_mode_code(None), 0);
    assert_eq!(collision_mode_code(Some(CollisionKind::Rigid)), 1);
    assert_eq!(collision_mode_code(Some(CollisionKind::HideOnContact)), 2);
    assert_eq!(flag_u32(true), 1);
    assert_eq!(flag_u32(false), 0);
    let f = step_flags(true, false, true);
    assert_eq!((f.emitting, f.clear_particles), (0, 1));
    let g = step_flags(true, true, false);
    assert_eq!((g.emitting, g.clear_particles), (1, 0));
}

#[test]
fn workgroups_round_up() {
    assert_eq!(WORKGROUP_SIZE, 64);
    assert_eq!(workgroup_count(0), 0);
    assert_eq!(workgroup_count(1), 1);
    assert_eq!(workgroup_count(64), 1);
    assert_eq!(workgroup_count(65), 2);
    assert_eq!(workgroup_count(1000), 16);
    for amount in [3u32, 64, 129, 5000, u32::MAX - 64] {
        let w = workgroup_count(amount) as u64;
        assert!(w * 64 >= amount as u64 && w * 64 < amount as u64 + 64);
    }
}

#[test]
fn colliders_are_capped() {
    let many: Vec<u32> = (0..40).collect();
    let kept = extract_colliders(&many);
    assert_eq!(kept.len(), MAX_COLLIDERS);
    assert_eq!(kept[31], 31);
    assert_eq!(extract_colliders(&[7u32, 8]), vec![7, 8]);
    let (slots, count) = pack_colliders(&[5u32, 6, 7], 0);
    assert_eq!(count, 3);
    assert_eq!(slots.len(), 32);
    assert_eq!(&slots[..4], &[5, 6, 7, 0]);
    let (slots, count) = pack_colliders(&many, 0);
    assert_eq!(count, 32);
    assert_eq!(slots[31], 31);
}

fn textures(gradient: Option<u8>, curve: Option<u8>) -> EmitterTextures<u8> {
    EmitterTextures {
        gradient,
        scale_over_lifetime: curve,
        alpha_over_lifetime: curve,
        emission_over_lifetime: curve,
        turbulence_influence_over_lifetime: curve,
        radial_velocity_curve: curve,
    }
}

#[test]
fn bind_groups_use_fallbacks() {
    let emitters = [
        EmitterBindingSource { entity: 1, has_particle_buffer: true, textures: textures(Some(10), None) },
        EmitterBindingSource { entity: 2, has_particle_buffer: false, textures: textures(Some(11), Some(12)) },
        EmitterBindingSource { entity: 3, has_particle_buffer: true, textures: textures(None, Some(13)) },
    ];
    let plan = prepare_particle_compute_bind_groups(&emitters, Some(90), Some(91), 4);
    assert_eq!(plan.len(), 2);
    assert_eq!(plan[0].entity, 1);
    assert_eq!(plan[0].textures.gradient, 10);
    assert_eq!(plan[0].textures.alpha_over_lifetime, 91);
    assert_eq!(plan[0].collider_count, 4);
    assert_eq!(plan[1].entity, 3);
    assert_eq!(plan[1].textures.gradient, 90);
    assert_eq!(plan[1].textures.radial_velocity_curve, 13);
    let none = prepare_particle_compute_bind_groups(&emitters, None, None, 0);
    assert_eq!(none.len(), 0);
}

#[test]
fn compute_node_dispatches_once_ready() {
    let mut node = ParticleComputeNode::default();
    let bind_groups = [5u64, 6, 7];
    let emitters = [(7u64, 100u32), (5, 64), (7, 1)];
    assert!(node.run(&bind_groups, &emitters).is_empty());
    node.update(PipelineState::Queued);
    node.update(PipelineState::Creating);
    assert!(!node.ready);
    node.update(PipelineState::Compiled);
    assert!(node.ready);
    node.update(PipelineState::Queued);
    assert!(node.ready);
    assert_eq!(node.run(&bind_groups, &emitters), vec![(0, 1), (2, 2)]);
}

#[test]
fn collider_shapes() {
    assert_eq!(shape_index(ColliderShapeKind::Box), 0);
    assert_eq!(shape_index(ColliderShapeKind::Sphere), 1);
    assert_eq!(collider_type_code(ColliderShapeKind::Sphere), 0);
    assert_eq!(collider_type_code(ColliderShapeKind::Box), 1);
    assert_eq!(shape_variants(), vec!["Box".to_string(), "Sphere".to_string()]);
    assert_eq!(shape_from_name("Sphere"), Some(ColliderShapeKind::Sphere));
    assert_eq!(shape_from_name("Box"), Some(ColliderShapeKind::Box));
    assert_eq!(shape_from_name("box"), None);
    assert_eq!(
        handle_collider_shape_variant_change(ColliderShapeKind::Box, None, "Sphere"),
        Some(ColliderShapeKind::Sphere)
    );
    assert_eq!(handle_collider_shape_variant_change(ColliderShapeKind::Box, Some("Box"), "Sphere"), None);
    assert_eq!(handle_collider_shape_variant_change(ColliderShapeKind::Sphere, Some("Cone"), "Box"), None);
}

#[test]
fn texture_cache_bakes_once() {
    let mut cache: TextureCache<String> = TextureCache::new();
    assert_eq!(cache.get(1), None);
    let mut baked = 0;
    let h = cache.get_or_create(1, || {
        baked += 1;
        "tex-1".to_string()
    });
    assert_eq!(h, "tex-1");
    let h2 = cache.get_or_create(1, || {
        baked += 1;
        "other".to_string()
    });
    assert_eq!(h2, "tex-1");
    assert_eq!(baked, 1);
    assert_eq!(cache.get(1), Some("tex-1".to_string()));
    assert_eq!(cache.get(2), None);
    let d: TextureCache<u8> = TextureCache::default();
    assert_eq!(d.get(0), None);
}

#[test]
fn emitter_uniform_integer_fields() {
    let e = EmitterSettings {
        particles_amount: 500,
        shape: EmissionShapeKind::Ring,
        draw_order: DrawOrder::ViewDepth,
        gradient_color: true,
        turbulence_enabled: false,
        particle_flags: ParticleFlags::all(),
        collision: Some(CollisionKind::HideOnContact),
        collision_use_scale: true,
    };
    let c = emitter_uniform_codes(&e);
    assert_eq!(
        (c.amount, c.emission_shape, c.draw_order, c.use_initial_color_gradient, c.turbulence_enabled),
        (500, 4, 3, 1, 0)
    );
    assert_eq!((c.particle_flags, c.collision_mode, c.collision_use_scale, c.collider_count), (5, 2, 1, 0));
    let steps = [
        SimulationStep { cycle: 0, past_delay: false, clear_requested: true },
        SimulationStep { cycle: 1, past_delay: true, clear_requested: false },
    ];
    let u = uniform_steps(true, &steps);
    assert_eq!(u.len(), 2);
    assert_eq!((u[0].0, u[0].1.emitting, u[0].1.clear_particles), (0, 0, 1));
    assert_eq!((u[1].0, u[1].1.emitting, u[1].1.clear_particles), (1, 1, 0));
    let off = uniform_steps(false, &steps);
    assert_eq!(off[1].1.emitting, 0);
    assert_eq!(curve_texture_key(Some((false, 77))), Some(77));
    assert_eq!(curve_texture_key(Some((true, 77))), None);
    assert_eq!(curve_texture_key(None), None);
}

#[test]
fn emitter_extraction_choice() {
    let enabled = [true, false];
    assert!(should_extract_emitter(true, Some(&enabled[..]), 0));
    assert!(!should_extract_emitter(true, Some(&enabled[..]), 1));
    assert!(!should_extract_emitter(true, Some(&enabled[..]), 2));
    assert!(!should_extract_emitter(false, Some(&enabled[..]), 0));
    assert!(!should_extract_emitter(true, None, 0));
}

#[test]
fn dispatch_needs_bounds_only_for_bound_emitters() {
    let mut node = ParticleComputeNode::default();
    node.update(PipelineState::Compiled);
    // an emitter without a bind group may hold any amount
    assert_eq!(node.run(&[5], &[(9, u32::MAX), (5, 130)]), vec![(0, 3)]);
}

#[test]
fn button_clicks() {
    assert!(handle_button_click(true, ButtonVariant::Primary));
    assert!(!handle_button_click(true, ButtonVariant::Disabled));
    assert!(!handle_button_click(false, ButtonVariant::Default));
}
