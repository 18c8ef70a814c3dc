//! The integer side of the GPU simulation: the codes written into the
//! emitter uniforms, the collider buffer, which emitters get a bind group
//! and how many workgroups each dispatch runs.

use vstd::prelude::*;

use crate::asset::{draw_order_code_spec, DrawOrder, ParticleFlags};

verus! {

/// Threads per compute workgroup of the simulation shader.
pub const WORKGROUP_SIZE: u32 = 64;

/// Colliders the simulation reads at most.
pub const MAX_COLLIDERS: usize = 32;

pub const EMISSION_SHAPE_POINT: u32 = 0;

pub const EMISSION_SHAPE_SPHERE: u32 = 1;

pub const EMISSION_SHAPE_SPHERE_SURFACE: u32 = 2;

pub const EMISSION_SHAPE_BOX: u32 = 3;

pub const EMISSION_SHAPE_RING: u32 = 4;

pub const COLLIDER_TYPE_SPHERE: u32 = 0;

pub const COLLIDER_TYPE_BOX: u32 = 1;

pub const COLLISION_MODE_DISABLED: u32 = 0;

pub const COLLISION_MODE_RIGID: u32 = 1;

pub const COLLISION_MODE_HIDE_ON_CONTACT: u32 = 2;

/// The shape particles are emitted from, without its dimensions.
#[derive(Clone, Copy, Debug, PartialEq, Eq, Structural)]
pub enum EmissionShapeKind {
    Point,
    Sphere,
    SphereSurface,
    Box,
    Ring,
}

pub open spec fn emission_shape_code_spec(kind: EmissionShapeKind) -> u32 {
    match kind {
        EmissionShapeKind::Point => EMISSION_SHAPE_POINT,
        EmissionShapeKind::Sphere => EMISSION_SHAPE_SPHERE,
        EmissionShapeKind::SphereSurface => EMISSION_SHAPE_SPHERE_SURFACE,
        EmissionShapeKind::Box => EMISSION_SHAPE_BOX,
        EmissionShapeKind::Ring => EMISSION_SHAPE_RING,
    }
}

/// The code of an emission shape in the emitter uniforms.
pub fn emission_shape_code(kind: EmissionShapeKind) -> (c: u32)
    ensures
        c == emission_shape_code_spec(kind),
{
    match kind {
        EmissionShapeKind::Point => EMISSION_SHAPE_POINT,
        EmissionShapeKind::Sphere => EMISSION_SHAPE_SPHERE,
        EmissionShapeKind::SphereSurface => EMISSION_SHAPE_SPHERE_SURFACE,
        EmissionShapeKind::Box => EMISSION_SHAPE_BOX,
        EmissionShapeKind::Ring => EMISSION_SHAPE_RING,
    }
}

/// How particles react to colliders, without the reaction's parameters.
#[derive(Clone, Copy, Debug, PartialEq, Eq, Structural)]
pub enum CollisionKind {
    Rigid,
    HideOnContact,
}

pub open spec fn collision_mode_code_spec(mode: Option<CollisionKind>) -> u32 {
    match mode {
        Some(CollisionKind::Rigid) => COLLISION_MODE_RIGID,
        Some(CollisionKind::HideOnContact) => COLLISION_MODE_HIDE_ON_CONTACT,
        None => COLLISION_MODE_DISABLED,
    }
}

/// The code of an emitter's collision mode in its uniforms; no mode means
/// collisions are off.
pub fn collision_mode_code(mode: Option<CollisionKind>) -> (c: u32)
    ensures
        c == collision_mode_code_spec(mode),
{
    match mode {
        Some(CollisionKind::Rigid) => COLLISION_MODE_RIGID,
        Some(CollisionKind::HideOnContact) => COLLISION_MODE_HIDE_ON_CONTACT,
        None => COLLISION_MODE_DISABLED,
    }
}

/// The shader tells shapes and collision modes apart by their codes alone.
pub proof fn lemma_uniform_codes_distinct(
    a: EmissionShapeKind,
    b: EmissionShapeKind,
    m: Option<CollisionKind>,
    n: Option<CollisionKind>,
)
    ensures
        emission_shape_code_spec(a) == emission_shape_code_spec(b) ==> a == b,
        collision_mode_code_spec(m) == collision_mode_code_spec(n) ==> m == n,
{
}

/// A boolean as the shader reads it: 1 for true, 0 for false.
pub fn flag_u32(b: bool) -> (r: u32)
    ensures
        r == (if b {
            1u32
        } else {
            0u32
        }),
{
    if b {
        1
    } else {
        0
    }
}

/// The per-step switches of an emitter's uniforms.
#[derive(Clone, Copy, Debug, PartialEq, Eq, Structural)]
pub struct StepFlags {
    /// 1 when the step spawns particles
    pub emitting: u32,
    /// 1 when the step clears all particles
    pub clear_particles: u32,
}

/// A simulation step spawns particles when the emitter is emitting and the
/// step lies past the emitter's delay; it clears them when that was asked.
pub fn step_flags(runtime_emitting: bool, past_delay: bool, clear_requested: bool) -> (f: StepFlags)
    ensures
        f.emitting == (if runtime_emitting && past_delay {
            1u32
        } else {
            0u32
        }),
        f.clear_particles == (if clear_requested {
            1u32
        } else {
            0u32
        }),
{
    StepFlags { emitting: flag_u32(runtime_emitting && past_delay), clear_particles: flag_u32(clear_requested) }
}

pub open spec fn workgroup_count_spec(amount: u32) -> int {
    (amount + WORKGROUP_SIZE - 1) / (WORKGROUP_SIZE as int)
}

/// Workgroups dispatched for `amount` particles: the division rounded up.
pub fn workgroup_count(amount: u32) -> (w: u32)
    requires
        amount + WORKGROUP_SIZE <= u32::MAX,
    ensures
        w == workgroup_count_spec(amount),
{
    (amount + WORKGROUP_SIZE - 1) / WORKGROUP_SIZE
}

/// The workgroups dispatched for an emitter have a thread for each of its
/// particles, and not a whole workgroup more than that.
pub proof fn lemma_workgroups_cover_particles(amount: u32)
    ensures
        workgroup_count_spec(amount) * (WORKGROUP_SIZE as int) >= amount,
        workgroup_count_spec(amount) * (WORKGROUP_SIZE as int) < amount + WORKGROUP_SIZE,
{
    let w = workgroup_count_spec(amount);
    assert(w * 64 >= amount && w * 64 < amount + 64) by (nonlinear_arith)
        requires
            w == (amount + 63) / 64,
            amount >= 0,
    ;
}

/// The colliders the simulation sees: the first `MAX_COLLIDERS` of them.
pub open spec fn capped_colliders<T>(colliders: Seq<T>) -> Seq<T> {
    if colliders.len() <= MAX_COLLIDERS {
        colliders
    } else {
        colliders.take(MAX_COLLIDERS as int)
    }
}

/// Keeps the first `MAX_COLLIDERS` colliders, in their order.
pub fn extract_colliders<T: Copy>(colliders: &[T]) -> (r: Vec<T>)
    ensures
        r@ == capped_colliders(colliders@),
{
    let mut out: Vec<T> = Vec::new();
    let mut i: usize = 0;
    while i < colliders.len() && i < MAX_COLLIDERS
        invariant
            i <= colliders@.len(),
            i <= MAX_COLLIDERS,
            out@ == colliders@.take(i as int),
        decreases colliders@.len() - i,
    {
        out.push(colliders[i]);
        i = i + 1;
        assert(out@ =~= colliders@.take(i as int));
    }
    assert(out@ =~= capped_colliders(colliders@));
    out
}

/// The collider buffer handed to the shader: always `MAX_COLLIDERS` slots,
/// the colliders first and `empty` after them, with the number of
/// colliders in use.
pub fn pack_colliders<T: Copy>(colliders: &[T], empty: T) -> (r: (Vec<T>, u32))
    ensures
        r.0@.len() == MAX_COLLIDERS,
        r.1 == capped_colliders(colliders@).len(),
        forall|i: int| 0 <= i < r.1 ==> #[trigger] r.0@[i] == colliders@[i],
        forall|i: int| r.1 <= i < MAX_COLLIDERS ==> #[trigger] r.0@[i] == empty,
{
    let mut slots: Vec<T> = Vec::new();
    let mut i: usize = 0;
    while i < MAX_COLLIDERS
        invariant
            i <= MAX_COLLIDERS,
            slots@.len() == i,
            forall|j: int| 0 <= j < i ==> #[trigger] slots@[j] == (if j < colliders@.len() {
                colliders@[j]
            } else {
                empty
            }),
        decreases MAX_COLLIDERS - i,
    {
        if i < colliders.len() {
            slots.push(colliders[i]);
        } else {
            slots.push(empty);
        }
        i = i + 1;
    }
    let count: u32 = if colliders.len() < MAX_COLLIDERS {
        colliders.len() as u32
    } else {
        MAX_COLLIDERS as u32
    };
    (slots, count)
}

/// The textures an emitter samples, each present or not.
#[derive(Clone, Copy)]
pub struct EmitterTextures<I> {
    pub gradient: Option<I>,
    pub scale_over_lifetime: Option<I>,
    pub alpha_over_lifetime: Option<I>,
    pub emission_over_lifetime: Option<I>,
    pub turbulence_influence_over_lifetime: Option<I>,
    pub radial_velocity_curve: Option<I>,
}

/// The textures a bind group is built from.
#[derive(Clone, Copy)]
pub struct BoundTextures<I> {
    pub gradient: I,
    pub scale_over_lifetime: I,
    pub alpha_over_lifetime: I,
    pub emission_over_lifetime: I,
    pub turbulence_influence_over_lifetime: I,
    pub radial_velocity_curve: I,
}

/// `own`, or the fallback where it is missing.
pub open spec fn or_fallback<I>(own: Option<I>, fallback: Option<I>) -> Option<I> {
    match own {
        Some(t) => Some(t),
        None => fallback,
    }
}

/// Each texture of the emitter, a missing gradient replaced by the fallback
/// gradient and a missing curve by the fallback curve; none when one is
/// still missing.
pub open spec fn bound_textures_spec<I>(
    own: EmitterTextures<I>,
    gradient_fallback: Option<I>,
    curve_fallback: Option<I>,
) -> Option<BoundTextures<I>> {
    let g = or_fallback(own.gradient, gradient_fallback);
    let s = or_fallback(own.scale_over_lifetime, curve_fallback);
    let a = or_fallback(own.alpha_over_lifetime, curve_fallback);
    let e = or_fallback(own.emission_over_lifetime, curve_fallback);
    let t = or_fallback(own.turbulence_influence_over_lifetime, curve_fallback);
    let r = or_fallback(own.radial_velocity_curve, curve_fallback);
    if g is Some && s is Some && a is Some && e is Some && t is Some && r is Some {
        Some(
            BoundTextures {
                gradient: g->0,
                scale_over_lifetime: s->0,
                alpha_over_lifetime: a->0,
                emission_over_lifetime: e->0,
                turbulence_influence_over_lifetime: t->0,
                radial_velocity_curve: r->0,
            },
        )
    } else {
        None
    }
}

fn pick<I: Copy>(own: Option<I>, fallback: Option<I>) -> (r: Option<I>)
    ensures
        r == or_fallback(own, fallback),
{
    match own {
        Some(t) => Some(t),
        None => fallback,
    }
}

/// The textures of an emitter's bind group, see `bound_textures_spec`.
pub fn bound_textures<I: Copy>(
    own: &EmitterTextures<I>,
    gradient_fallback: Option<I>,
    curve_fallback: Option<I>,
) -> (r: Option<BoundTextures<I>>)
    ensures
        r == bound_textures_spec(*own, gradient_fallback, curve_fallback),
        r matches Some(t) ==> {
            &&& (own.gradient matches Some(x) ==> t.gradient == x)
            &&& (own.scale_over_lifetime matches Some(x) ==> t.scale_over_lifetime == x)
            &&& (own.alpha_over_lifetime matches Some(x) ==> t.alpha_over_lifetime == x)
            &&& (own.emission_over_lifetime matches Some(x) ==> t.emission_over_lifetime == x)
            &&& (own.turbulence_influence_over_lifetime matches Some(x)
                ==> t.turbulence_influence_over_lifetime == x)
            &&& (own.radial_velocity_curve matches Some(x) ==> t.radial_velocity_curve == x)
        },
{
    let g = pick(own.gradient, gradient_fallback);
    let s = pick(own.scale_over_lifetime, curve_fallback);
    let a = pick(own.alpha_over_lifetime, curve_fallback);
    let e = pick(own.emission_over_lifetime, curve_fallback);
    let t = pick(own.turbulence_influence_over_lifetime, curve_fallback);
    let r = pick(own.radial_velocity_curve, curve_fallback);
    match (g, s, a, e, t, r) {
        (Some(g), Some(s), Some(a), Some(e), Some(t), Some(r)) => Some(
            BoundTextures {
                gradient: g,
                scale_over_lifetime: s,
                alpha_over_lifetime: a,
                emission_over_lifetime: e,
                turbulence_influence_over_lifetime: t,
                radial_velocity_curve: r,
            },
        ),
        _ => None,
    }
}

/// An emitter is bound exactly when each of its slots has a texture of its
/// own or a fallback for it (the gradient fallback for the gradient, the
/// curve fallback for each curve), and then each slot of the bind group is
/// the emitter's own texture for that very slot where it has one, else that
/// slot's fallback.
pub proof fn lemma_bound_textures_slots<I>(
    own: EmitterTextures<I>,
    gradient_fallback: Option<I>,
    curve_fallback: Option<I>,
)
    ensures
        bound_textures_spec(own, gradient_fallback, curve_fallback) is Some <==> {
            &&& (own.gradient is Some || gradient_fallback is Some)
            &&& (own.scale_over_lifetime is Some || curve_fallback is Some)
            &&& (own.alpha_over_lifetime is Some || curve_fallback is Some)
            &&& (own.emission_over_lifetime is Some || curve_fallback is Some)
            &&& (own.turbulence_influence_over_lifetime is Some || curve_fallback is Some)
            &&& (own.radial_velocity_curve is Some || curve_fallback is Some)
        },
        bound_textures_spec(own, gradient_fallback, curve_fallback) matches Some(t) ==> {
            &&& (own.gradient matches Some(x) ==> t.gradient == x)
            &&& (own.gradient is None ==> gradient_fallback == Some(t.gradient))
            &&& (own.scale_over_lifetime matches Some(x) ==> t.scale_over_lifetime == x)
            &&& (own.scale_over_lifetime is None ==> curve_fallback == Some(t.scale_over_lifetime))
            &&& (own.alpha_over_lifetime matches Some(x) ==> t.alpha_over_lifetime == x)
            &&& (own.alpha_over_lifetime is None ==> curve_fallback == Some(t.alpha_over_lifetime))
            &&& (own.emission_over_lifetime matches Some(x) ==> t.emission_over_lifetime == x)
            &&& (own.emission_over_lifetime is None ==> curve_fallback == Some(
                t.emission_over_lifetime,
            ))
            &&& (own.turbulence_influence_over_lifetime matches Some(x)
                ==> t.turbulence_influence_over_lifetime == x)
            &&& (own.turbulence_influence_over_lifetime is None ==> curve_fallback == Some(
                t.turbulence_influence_over_lifetime,
            ))
            &&& (own.radial_velocity_curve matches Some(x) ==> t.radial_velocity_curve == x)
            &&& (own.radial_velocity_curve is None ==> curve_fallback == Some(
                t.radial_velocity_curve,
            ))
        },
{
}

/// What the simulation needs of one extracted emitter to bind it.
#[derive(Clone, Copy)]
pub struct EmitterBindingSource<I> {
    pub entity: u64,
    /// whether the emitter's particle buffer is on the GPU
    pub has_particle_buffer: bool,
    pub textures: EmitterTextures<I>,
}

/// The bind group of one emitter.
#[derive(Clone, Copy)]
pub struct EmitterBinding<I> {
    pub entity: u64,
    pub textures: BoundTextures<I>,
    /// colliders in use, written into the emitter's uniforms
    pub collider_count: u32,
}

/// The bind groups made from the first `n` emitters, in order: an emitter
/// gets one when its particle buffer is there and all its textures resolve.
pub open spec fn bind_plan_spec<I>(
    emitters: Seq<EmitterBindingSource<I>>,
    gradient_fallback: Option<I>,
    curve_fallback: Option<I>,
    collider_count: u32,
    n: int,
) -> Seq<EmitterBinding<I>>
    decreases n,
{
    if n <= 0 {
        Seq::empty()
    } else {
        let before = bind_plan_spec(emitters, gradient_fallback, curve_fallback, collider_count, n - 1);
        let src = emitters[n - 1];
        match bound_textures_spec(src.textures, gradient_fallback, curve_fallback) {
            Some(t) => if src.has_particle_buffer {
                before.push(EmitterBinding { entity: src.entity, textures: t, collider_count })
            } else {
                before
            },
            None => before,
        }
    }
}

/// `b` is the bind group of `src`: its particle buffer is there, and `b`
/// carries its entity, the textures resolved for it and the collider count.
pub open spec fn binds_emitter<I>(
    b: EmitterBinding<I>,
    src: EmitterBindingSource<I>,
    gradient_fallback: Option<I>,
    curve_fallback: Option<I>,
    collider_count: u32,
) -> bool {
    &&& src.has_particle_buffer
    &&& b.entity == src.entity
    &&& bound_textures_spec(src.textures, gradient_fallback, curve_fallback) == Some(b.textures)
    &&& b.collider_count == collider_count
}

/// `b` is the bind group of one of the first `n` emitters.
pub open spec fn binds_one_of<I>(
    b: EmitterBinding<I>,
    emitters: Seq<EmitterBindingSource<I>>,
    n: int,
    gradient_fallback: Option<I>,
    curve_fallback: Option<I>,
    collider_count: u32,
) -> bool {
    exists|i: int|
        0 <= i < n && #[trigger] binds_emitter(
            b,
            emitters[i],
            gradient_fallback,
            curve_fallback,
            collider_count,
        )
}

/// Every bind group belongs to an emitter whose particle buffer is there,
/// carries that emitter's entity, the textures resolved for it (its own,
/// else the fallbacks) and the collider count; and every such emitter whose
/// textures resolve gets one.
pub proof fn lemma_bind_plan_sources<I>(
    emitters: Seq<EmitterBindingSource<I>>,
    gradient_fallback: Option<I>,
    curve_fallback: Option<I>,
    collider_count: u32,
    n: int,
)
    requires
        0 <= n <= emitters.len(),
    ensures
        bind_plan_spec(emitters, gradient_fallback, curve_fallback, collider_count, n).len() <= n,
        forall|k: int|
            0 <= k < bind_plan_spec(emitters, gradient_fallback, curve_fallback, collider_count, n).len()
                ==> binds_one_of(
                #[trigger] bind_plan_spec(emitters, gradient_fallback, curve_fallback, collider_count, n)[k],
                emitters,
                n,
                gradient_fallback,
                curve_fallback,
                collider_count,
            ),
        forall|i: int|
            #![trigger emitters[i]]
            0 <= i < n && emitters[i].has_particle_buffer && bound_textures_spec(
                emitters[i].textures,
                gradient_fallback,
                curve_fallback,
            ) is Some ==> exists|k: int|
                0 <= k < bind_plan_spec(emitters, gradient_fallback, curve_fallback, collider_count, n).len()
                    && #[trigger] binds_emitter(
                    bind_plan_spec(emitters, gradient_fallback, curve_fallback, collider_count, n)[k],
                    emitters[i],
                    gradient_fallback,
                    curve_fallback,
                    collider_count,
                ),
    decreases n,
{
    if n > 0 {
        lemma_bind_plan_sources(emitters, gradient_fallback, curve_fallback, collider_count, n - 1);
        let before = bind_plan_spec(emitters, gradient_fallback, curve_fallback, collider_count, n - 1);
        let plan = bind_plan_spec(emitters, gradient_fallback, curve_fallback, collider_count, n);
        assert forall|k: int| 0 <= k < before.len() implies plan[k] == before[k] by {}
        assert forall|k: int| 0 <= k < plan.len() implies binds_one_of(
            #[trigger] plan[k],
            emitters,
            n,
            gradient_fallback,
            curve_fallback,
            collider_count,
        ) by {
            if k == before.len() {
                assert(binds_emitter(plan[k], emitters[n - 1], gradient_fallback, curve_fallback, collider_count));
            } else {
                assert(plan[k] == before[k]);
                assert(binds_one_of(before[k], emitters, n - 1, gradient_fallback, curve_fallback, collider_count));
                let i = choose|i: int|
                    0 <= i < n - 1 && #[trigger] binds_emitter(
                        before[k],
                        emitters[i],
                        gradient_fallback,
                        curve_fallback,
                        collider_count,
                    );
                assert(binds_emitter(plan[k], emitters[i], gradient_fallback, curve_fallback, collider_count));
            }
        }
        assert forall|i: int|
            0 <= i < n && (#[trigger] emitters[i]).has_particle_buffer && bound_textures_spec(
                emitters[i].textures,
                gradient_fallback,
                curve_fallback,
            ) is Some implies exists|k: int|
                0 <= k < plan.len() && #[trigger] binds_emitter(
                    plan[k],
                    emitters[i],
                    gradient_fallback,
                    curve_fallback,
                    collider_count,
                ) by {
            if i == n - 1 {
                assert(binds_emitter(
                    plan[before.len() as int],
                    emitters[i],
                    gradient_fallback,
                    curve_fallback,
                    collider_count,
                ));
            } else {
                let k = choose|k: int|
                    0 <= k < before.len() && #[trigger] binds_emitter(
                        before[k],
                        emitters[i],
                        gradient_fallback,
                        curve_fallback,
                        collider_count,
                    );
                assert(plan[k] == before[k]);
                assert(binds_emitter(plan[k], emitters[i], gradient_fallback, curve_fallback, collider_count));
            }
        }
    }
}

/// Decides which extracted emitters get a compute bind group, with which
/// textures; each one carries the number of colliders in use.
pub fn prepare_particle_compute_bind_groups<I: Copy>(
    emitters: &[EmitterBindingSource<I>],
    gradient_fallback: Option<I>,
    curve_fallback: Option<I>,
    collider_count: u32,
) -> (r: Vec<EmitterBinding<I>>)
    ensures
        r@ == bind_plan_spec(
            emitters@,
            gradient_fallback,
            curve_fallback,
            collider_count,
            emitters@.len() as int,
        ),
        forall|k: int|
            0 <= k < r@.len() ==> binds_one_of(
                #[trigger] r@[k],
                emitters@,
                emitters@.len() as int,
                gradient_fallback,
                curve_fallback,
                collider_count,
            ),
{
    let mut out: Vec<EmitterBinding<I>> = Vec::new();
    let mut i: usize = 0;
    while i < emitters.len()
        invariant
            i <= emitters@.len(),
            out@ == bind_plan_spec(emitters@, gradient_fallback, curve_fallback, collider_count, i as int),
        decreases emitters@.len() - i,
    {
        let src = emitters[i];
        if src.has_particle_buffer {
            match bound_textures(&src.textures, gradient_fallback, curve_fallback) {
                Some(t) => {
                    out.push(EmitterBinding { entity: src.entity, textures: t, collider_count });
                },
                None => {},
            }
        }
        i = i + 1;
    }
    proof {
        lemma_bind_plan_sources(
            emitters@,
            gradient_fallback,
            curve_fallback,
            collider_count,
            emitters@.len() as int,
        );
    }
    out
}

/// The particle amount of the first extracted emitter that is `entity`.
pub open spec fn amount_of(emitters: Seq<(u64, u32)>, entity: u64) -> Option<u32>
    decreases emitters.len(),
{
    if emitters.len() == 0 {
        None
    } else if emitters[0].0 == entity {
        Some(emitters[0].1)
    } else {
        amount_of(emitters.drop_first(), entity)
    }
}

fn find_amount(emitters: &[(u64, u32)], entity: u64) -> (r: Option<u32>)
    ensures
        r == amount_of(emitters@, entity),
{
    let mut j: usize = 0;
    assert(emitters@.subrange(0, emitters@.len() as int) =~= emitters@);
    while j < emitters.len()
        invariant
            j <= emitters@.len(),
            amount_of(emitters@, entity) == amount_of(emitters@.subrange(j as int, emitters@.len() as int), entity),
        decreases emitters@.len() - j,
    {
        let (e, amount) = emitters[j];
        assert(emitters@.subrange(j as int, emitters@.len() as int).drop_first() =~= emitters@.subrange(
            j + 1,
            emitters@.len() as int,
        ));
        if e == entity {
            return Some(amount);
        }
        j = j + 1;
    }
    assert(emitters@.subrange(j as int, emitters@.len() as int).len() == 0);
    None
}

/// The amount found for an entity is that of the first extracted emitter
/// that is the entity; none is found when no emitter is.
pub proof fn lemma_amount_of_first(emitters: Seq<(u64, u32)>, entity: u64)
    ensures
        amount_of(emitters, entity) is None <==> forall|j: int|
            0 <= j < emitters.len() ==> (#[trigger] emitters[j]).0 != entity,
        amount_of(emitters, entity) matches Some(a) ==> exists|i: int|
            0 <= i < emitters.len() && #[trigger] emitters[i] == (entity, a) && forall|j: int|
                0 <= j < i ==> (#[trigger] emitters[j]).0 != entity,
    decreases emitters.len(),
{
    if emitters.len() > 0 {
        let rest = emitters.drop_first();
        lemma_amount_of_first(rest, entity);
        assert forall|j: int| 0 <= j < rest.len() implies #[trigger] rest[j] == emitters[j + 1] by {}
        if emitters[0].0 == entity {
            assert(emitters[0] == (entity, emitters[0].1));
        } else {
            if amount_of(rest, entity) is None {
                assert forall|j: int| 0 <= j < emitters.len() implies (#[trigger] emitters[j]).0 != entity by {
                    if j > 0 {
                        assert(emitters[j] == rest[j - 1]);
                    }
                }
            } else {
                let a = amount_of(rest, entity)->0;
                let i = choose|i: int|
                    0 <= i < rest.len() && #[trigger] rest[i] == (entity, a) && forall|j: int|
                        0 <= j < i ==> (#[trigger] rest[j]).0 != entity;
                assert(emitters[i + 1] == (entity, a));
                assert forall|j: int| 0 <= j < i + 1 implies (#[trigger] emitters[j]).0 != entity by {
                    if j > 0 {
                        assert(emitters[j] == rest[j - 1]);
                    }
                }
            }
        }
    }
}

/// The dispatches for the first `n` bind groups, in order: the position of
/// the bind group and its workgroup count, for each bind group whose
/// emitter was extracted.
pub open spec fn dispatch_spec(bind_groups: Seq<u64>, emitters: Seq<(u64, u32)>, n: int) -> Seq<
    (usize, u32),
>
    decreases n,
{
    if n <= 0 {
        Seq::empty()
    } else {
        let before = dispatch_spec(bind_groups, emitters, n - 1);
        match amount_of(emitters, bind_groups[n - 1]) {
            Some(a) => before.push(((n - 1) as usize, workgroup_count_spec(a) as u32)),
            None => before,
        }
    }
}

/// `d` dispatches the bind group at its position, whose emitter was
/// extracted, with the workgroups for that emitter's particle amount.
pub open spec fn dispatches_group(d: (usize, u32), bind_groups: Seq<u64>, emitters: Seq<(u64, u32)>) -> bool {
    &&& (d.0 as int) < bind_groups.len()
    &&& amount_of(emitters, bind_groups[d.0 as int]) matches Some(a)
    &&& d.1 == workgroup_count_spec(a)
}

/// Each dispatch is for one bind group whose emitter was extracted, with
/// the workgroups for that emitter's particles; the dispatches follow the
/// bind groups' order, each bind group at most once, and every bind group
/// whose emitter was extracted is dispatched.
pub proof fn lemma_dispatch_entries(bind_groups: Seq<u64>, emitters: Seq<(u64, u32)>, n: int)
    requires
        0 <= n <= bind_groups.len(),
        n <= usize::MAX,
    ensures
        forall|k: int|
            0 <= k < dispatch_spec(bind_groups, emitters, n).len() ==> (#[trigger] dispatch_spec(
                bind_groups,
                emitters,
                n,
            )[k]).0 < n && dispatches_group(dispatch_spec(bind_groups, emitters, n)[k], bind_groups, emitters),
        forall|k1: int, k2: int|
            0 <= k1 < k2 < dispatch_spec(bind_groups, emitters, n).len() ==> (#[trigger] dispatch_spec(
                bind_groups,
                emitters,
                n,
            )[k1]).0 < (#[trigger] dispatch_spec(bind_groups, emitters, n)[k2]).0,
        forall|i: int|
            0 <= i < n && (#[trigger] amount_of(emitters, bind_groups[i])) is Some ==> exists|k: int|
                0 <= k < dispatch_spec(bind_groups, emitters, n).len() && (#[trigger] dispatch_spec(
                    bind_groups,
                    emitters,
                    n,
                )[k]).0 == i,
    decreases n,
{
    if n > 0 {
        lemma_dispatch_entries(bind_groups, emitters, n - 1);
        let before = dispatch_spec(bind_groups, emitters, n - 1);
        let d = dispatch_spec(bind_groups, emitters, n);
        assert forall|k: int| 0 <= k < before.len() implies #[trigger] d[k] == before[k] by {}
        match amount_of(emitters, bind_groups[n - 1]) {
            Some(a) => {
                lemma_workgroups_cover_particles(a);
                assert(d[before.len() as int] == ((n - 1) as usize, workgroup_count_spec(a) as u32));
                assert(dispatches_group(d[before.len() as int], bind_groups, emitters));
                assert forall|k: int| 0 <= k < d.len() implies (#[trigger] d[k]).0 < n && dispatches_group(
                    d[k],
                    bind_groups,
                    emitters,
                ) by {
                    if k < before.len() {
                        assert(d[k] == before[k]);
                    }
                }
                assert forall|k1: int, k2: int| 0 <= k1 < k2 < d.len() implies (#[trigger] d[k1]).0 < (
                #[trigger] d[k2]).0 by {
                    assert(d[k1] == before[k1]);
                    if k2 < before.len() {
                        assert(d[k2] == before[k2]);
                    }
                }
                assert forall|i: int|
                    0 <= i < n && (#[trigger] amount_of(emitters, bind_groups[i])) is Some implies exists|
                    k: int,
                | 0 <= k < d.len() && (#[trigger] d[k]).0 == i by {
                    if i == n - 1 {
                        assert(d[before.len() as int].0 == i);
                    } else {
                        let k = choose|k: int| 0 <= k < before.len() && (#[trigger] before[k]).0 == i;
                        assert(d[k] == before[k]);
                    }
                }
            },
            None => {
                assert(d == before);
            },
        }
    }
}

/// The states a compute pipeline goes through while it is compiled.
#[derive(Clone, Copy, Debug, PartialEq, Eq, Structural)]
pub enum PipelineState {
    Queued,
    Creating,
    Compiled,
    Failed,
}

/// The render-graph node that runs the simulation once its pipeline is
/// compiled.
pub struct ParticleComputeNode {
    pub ready: bool,
}

impl Default for ParticleComputeNode {
    fn default() -> (n: Self)
        ensures
            !n.ready,
    {
        ParticleComputeNode { ready: false }
    }
}

impl ParticleComputeNode {
    /// Notes the pipeline's state: the node becomes ready once it is
    /// compiled and stays so.  A pipeline that failed to compile stops the
    /// program before this is called.
    pub fn update(&mut self, state: PipelineState)
        requires
            state != PipelineState::Failed,
        ensures
            final(self).ready == (old(self).ready || state == PipelineState::Compiled),
    {
        match state {
            PipelineState::Compiled => {
                self.ready = true;
            },
            _ => {},
        }
    }

    /// The workgroups to dispatch, one entry per bind group whose emitter
    /// was extracted (see `dispatch_spec`); nothing until the node is ready.
    pub fn run(&self, bind_groups: &[u64], emitters: &[(u64, u32)]) -> (r: Vec<(usize, u32)>)
        requires
            forall|i: int|
                0 <= i < bind_groups@.len() ==> (#[trigger] amount_of(emitters@, bind_groups@[i]) matches Some(
                    a,
                ) ==> a + WORKGROUP_SIZE <= u32::MAX),
        ensures
            r@ == (if self.ready {
                dispatch_spec(bind_groups@, emitters@, bind_groups@.len() as int)
            } else {
                Seq::empty()
            }),
    {
        let mut out: Vec<(usize, u32)> = Vec::new();
        if !self.ready {
            return out;
        }
        let mut i: usize = 0;
        while i < bind_groups.len()
            invariant
                i <= bind_groups@.len(),
                out@ == dispatch_spec(bind_groups@, emitters@, i as int),
                forall|k: int|
                    0 <= k < bind_groups@.len() ==> (#[trigger] amount_of(emitters@, bind_groups@[k]) matches Some(
                        a,
                    ) ==> a + WORKGROUP_SIZE <= u32::MAX),
            decreases bind_groups@.len() - i,
        {
            match find_amount(emitters, bind_groups[i]) {
                Some(a) => {
                    assert(amount_of(emitters@, bind_groups@[i as int]) == Some(a));
                    out.push((i, workgroup_count(a)));
                },
                None => {},
            }
            i = i + 1;
        }
        out
    }
}

/// The integer fields of an emitter's uniforms, those that do not change
/// from step to step.
#[derive(Clone, Copy, Debug, PartialEq, Eq, Structural)]
pub struct EmitterUniformCodes {
    pub amount: u32,
    pub emission_shape: u32,
    pub draw_order: u32,
    pub use_initial_color_gradient: u32,
    pub turbulence_enabled: u32,
    pub particle_flags: u32,
    pub collision_mode: u32,
    pub collision_use_scale: u32,
    /// filled in when the bind groups are made
    pub collider_count: u32,
}

/// What the integer uniform fields are read from: the emitter's settings
/// without their floating-point values.
#[derive(Clone, Copy)]
pub struct EmitterSettings {
    pub particles_amount: u32,
    pub shape: EmissionShapeKind,
    pub draw_order: DrawOrder,
    /// whether the initial color is a gradient rather than a solid color
    pub gradient_color: bool,
    pub turbulence_enabled: bool,
    pub particle_flags: ParticleFlags,
    pub collision: Option<CollisionKind>,
    pub collision_use_scale: bool,
}

/// The integer uniform fields of an emitter.
pub open spec fn emitter_uniform_codes_spec(e: EmitterSettings) -> EmitterUniformCodes {
    EmitterUniformCodes {
        amount: e.particles_amount,
        emission_shape: emission_shape_code_spec(e.shape),
        draw_order: draw_order_code_spec(e.draw_order),
        use_initial_color_gradient: if e.gradient_color {
            1
        } else {
            0
        },
        turbulence_enabled: if e.turbulence_enabled {
            1
        } else {
            0
        },
        particle_flags: e.particle_flags.bits,
        collision_mode: collision_mode_code_spec(e.collision),
        collision_use_scale: if e.collision_use_scale {
            1
        } else {
            0
        },
        collider_count: 0,
    }
}

/// Each switch of the uniforms is 1 exactly when the setting it stands for
/// is on and 0 otherwise, whatever the other settings are: the color
/// gradient switch follows whether the initial color is a gradient, the
/// turbulence switch the turbulence, the collision scale switch
/// `collision_use_scale`. The amount and the flag bits are copied, the
/// collision mode is 0 exactly when collisions are off, and the collider
/// count is left at 0.
pub proof fn lemma_uniform_codes_follow_settings(e: EmitterSettings)
    ensures
        emitter_uniform_codes_spec(e).use_initial_color_gradient == 1 <==> e.gradient_color,
        emitter_uniform_codes_spec(e).use_initial_color_gradient == 0 <==> !e.gradient_color,
        emitter_uniform_codes_spec(e).turbulence_enabled == 1 <==> e.turbulence_enabled,
        emitter_uniform_codes_spec(e).turbulence_enabled == 0 <==> !e.turbulence_enabled,
        emitter_uniform_codes_spec(e).collision_use_scale == 1 <==> e.collision_use_scale,
        emitter_uniform_codes_spec(e).collision_use_scale == 0 <==> !e.collision_use_scale,
        emitter_uniform_codes_spec(e).amount == e.particles_amount,
        emitter_uniform_codes_spec(e).particle_flags == e.particle_flags.bits,
        emitter_uniform_codes_spec(e).collision_mode == 0 <==> e.collision is None,
        emitter_uniform_codes_spec(e).collider_count == 0,
{
}

/// Fills the integer fields of an emitter's uniforms from its settings.
pub fn emitter_uniform_codes(e: &EmitterSettings) -> (c: EmitterUniformCodes)
    ensures
        c == emitter_uniform_codes_spec(*e),
        c.use_initial_color_gradient == (if e.gradient_color {
            1u32
        } else {
            0u32
        }),
        c.turbulence_enabled == (if e.turbulence_enabled {
            1u32
        } else {
            0u32
        }),
        c.collision_use_scale == (if e.collision_use_scale {
            1u32
        } else {
            0u32
        }),
        c.amount == e.particles_amount,
        c.particle_flags == e.particle_flags.bits,
{
    EmitterUniformCodes {
        amount: e.particles_amount,
        emission_shape: emission_shape_code(e.shape),
        draw_order: e.draw_order.shader_code(),
        use_initial_color_gradient: flag_u32(e.gradient_color),
        turbulence_enabled: flag_u32(e.turbulence_enabled),
        particle_flags: e.particle_flags.bits(),
        collision_mode: collision_mode_code(e.collision),
        collision_use_scale: flag_u32(e.collision_use_scale),
        collider_count: 0,
    }
}

/// One simulation step of an emitter as the extraction sees it.
#[derive(Clone, Copy)]
pub struct SimulationStep {
    pub cycle: u32,
    /// whether the step's time lies past the emitter's delay
    pub past_delay: bool,
    pub clear_requested: bool,
}

/// The per-step fields of an emitter's uniforms, one entry per step in
/// order: the step's cycle and switches.
pub fn uniform_steps(runtime_emitting: bool, steps: &[SimulationStep]) -> (r: Vec<(u32, StepFlags)>)
    ensures
        r@.len() == steps@.len(),
        forall|i: int|
            0 <= i < steps@.len() ==> {
                &&& (#[trigger] r@[i]).0 == steps@[i].cycle
                &&& r@[i].1.emitting == (if runtime_emitting && steps@[i].past_delay {
                    1u32
                } else {
                    0u32
                })
                &&& r@[i].1.clear_particles == (if steps@[i].clear_requested {
                    1u32
                } else {
                    0u32
                })
            },
{
    let mut out: Vec<(u32, StepFlags)> = Vec::new();
    let mut i: usize = 0;
    while i < steps.len()
        invariant
            i <= steps@.len(),
            out@.len() == i,
            forall|j: int|
                0 <= j < i ==> {
                    &&& (#[trigger] out@[j]).0 == steps@[j].cycle
                    &&& out@[j].1.emitting == (if runtime_emitting && steps@[j].past_delay {
                        1u32
                    } else {
                        0u32
                    })
                    &&& out@[j].1.clear_particles == (if steps@[j].clear_requested {
                        1u32
                    } else {
                        0u32
                    })
                },
        decreases steps@.len() - i,
    {
        let s = steps[i];
        out.push((s.cycle, step_flags(runtime_emitting, s.past_delay, s.clear_requested)));
        i = i + 1;
    }
    out
}

/// The cache key of a curve's baked texture, for a curve that is set and
/// not constant (`curve` gives whether it is constant, and its key).
pub fn curve_texture_key(curve: Option<(bool, u64)>) -> (k: Option<u64>)
    ensures
        k == (match curve {
            Some((constant, key)) => if constant {
                None
            } else {
                Some(key)
            },
            None => None,
        }),
{
    match curve {
        Some((constant, key)) => if constant {
            None
        } else {
            Some(key)
        },
        None => None,
    }
}

/// Whether an emitter is extracted for the simulation: its particle
/// system exists, the system's asset is loaded (`emitters_enabled` lists
/// whether each of the asset's emitters is enabled), the emitter's index is
/// one of them, and that emitter is enabled.
pub fn should_extract_emitter(
    system_found: bool,
    emitters_enabled: Option<&[bool]>,
    emitter_index: usize,
) -> (r: bool)
    ensures
        r == (system_found && match emitters_enabled {
            Some(es) => emitter_index < es@.len() && es@[emitter_index as int],
            None => false,
        }),
{
    if !system_found {
        return false;
    }
    match emitters_enabled {
        Some(es) => emitter_index < es.len() && es[emitter_index],
        None => false,
    }
}

} // verus!
