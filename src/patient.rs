//! Patients: how they are spawned, and how pills reaching them heal them.

use rand::rngs::StdRng;
use std::collections::HashMap;
use vstd::prelude::*;

use crate::geometry::{
    hull_of, in_box, lemma_hull_point_in_box, lemma_spread_bounds, sample_hull, spread,
    spread_draw, Point, Size, HULL_POINTS,
};
use crate::pill::pick;
use crate::random::draws;
use crate::ui::saved_after;

verus! {

broadcast use vstd::std_specs::hash::group_hash_axioms;

/// Number of patient textures to pick from.
pub const PATIENT_TEXTURES: usize = 4;

/// Width of the range each component of a patient's impulse is drawn from,
/// centred on zero.
pub const PATIENT_IMPULSE_SPAN: u32 = 300_000;

/// Width of the range a patient's spin impulse is drawn from, centred on zero.
pub const PATIENT_TORQUE_SPAN: u32 = 5_000;

/// Density of a patient's body.
pub const PATIENT_DENSITY: u32 = 2_000;

/// Restitution of a patient's body, in thousandths.
pub const PATIENT_RESTITUTION: u32 = 700;

/// Seconds between two patients.
pub const PATIENT_SPAWN_SECS: u64 = 1;

/// Draws that one patient takes: its texture, two per hull point, the two
/// impulse components, its spin, and the two coordinates of its position.
pub const PATIENT_DRAWS: usize = 26;

/// A patient to spawn: its texture, collision hull (relative to its centre),
/// position, impulse and spin impulse.
#[derive(Debug)]
pub struct Patient {
    pub texture: usize,
    pub hull: Vec<Point>,
    pub pos: Point,
    pub impulse: Point,
    pub torque: i32,
}

/// Builds a patient from its draws, in the order [`PATIENT_DRAWS`] lists them.
pub fn patient_from_draws(window: Size, textures: &Vec<Size>, draws: &Vec<u32>) -> (r: Patient)
    requires
        textures@.len() == PATIENT_TEXTURES,
        draws@.len() == PATIENT_DRAWS,
    ensures
        r.texture == pick(draws@[0], PATIENT_TEXTURES),
        r.hull@ == hull_of(textures@[r.texture as int], draws@, 1),
        r.impulse.x == spread(draws@[21], PATIENT_IMPULSE_SPAN as nat),
        r.impulse.y == spread(draws@[22], PATIENT_IMPULSE_SPAN as nat),
        r.torque == spread(draws@[23], PATIENT_TORQUE_SPAN as nat),
        r.pos.x == spread(draws@[24], (window.width * 1000) as nat),
        r.pos.y == spread(draws@[25], (window.height * 1000) as nat),
{
    let texture: usize = (draws[0] % PATIENT_TEXTURES as u32) as usize;
    let hull = sample_hull(textures[texture], draws, 1);
    let impulse = Point {
        x: spread_draw(draws[21], PATIENT_IMPULSE_SPAN),
        y: spread_draw(draws[22], PATIENT_IMPULSE_SPAN),
    };
    let torque = spread_draw(draws[23], PATIENT_TORQUE_SPAN);
    let pos = Point {
        x: spread_draw(draws[24], window.width as u32 * 1000),
        y: spread_draw(draws[25], window.height as u32 * 1000),
    };
    Patient { texture, hull, pos, impulse, torque }
}

/// What holds of every patient spawned, whatever was drawn.
pub open spec fn patient_fits(p: Patient, window: Size, textures: Seq<Size>) -> bool {
    let half_impulse = (PATIENT_IMPULSE_SPAN as int) / 2;
    let half_torque = (PATIENT_TORQUE_SPAN as int) / 2;
    &&& p.texture < PATIENT_TEXTURES
    &&& p.hull@.len() == HULL_POINTS
    &&& forall|i: int| 0 <= i < HULL_POINTS ==> in_box(#[trigger] p.hull@[i], textures[p.texture as int])
    &&& in_box(p.pos, window)
    &&& -half_impulse <= p.impulse.x < half_impulse
    &&& -half_impulse <= p.impulse.y < half_impulse
    &&& -half_torque <= p.torque < half_torque
}

/// Spawns one patient at a random place in the window, with a random texture,
/// hull, impulse and spin.
pub fn spawn_patient(rng: &mut StdRng, window: Size, textures: &Vec<Size>) -> (r: Patient)
    requires
        textures@.len() == PATIENT_TEXTURES,
    ensures
        patient_fits(r, window, textures@),
{
    let d = draws(rng, PATIENT_DRAWS);
    let p = patient_from_draws(window, textures, &d);
    proof {
        let size = textures@[p.texture as int];
        assert forall|i: int| 0 <= i < HULL_POINTS implies in_box(#[trigger] p.hull@[i], size) by {
            lemma_hull_point_in_box(size, d@[1 + 2 * i], d@[1 + 2 * i + 1]);
        }
        lemma_spread_bounds(d@[21], PATIENT_IMPULSE_SPAN as nat);
        lemma_spread_bounds(d@[22], PATIENT_IMPULSE_SPAN as nat);
        lemma_spread_bounds(d@[23], PATIENT_TORQUE_SPAN as nat);
        lemma_spread_bounds(d@[24], (window.width * 1000) as nat);
        lemma_spread_bounds(d@[25], (window.height * 1000) as nat);
    }
    p
}

/// What an entity of the scene is.
#[derive(Clone, Copy, Debug, PartialEq, Eq, Structural)]
pub enum EntityKind {
    Beaker,
    Patient,
    Pill,
}

/// A contact reported by the physics engine between two entities.
#[derive(Clone, Copy, Debug, PartialEq, Eq, Structural)]
pub enum CollisionEvent {
    Started(u64, u64),
    Stopped(u64, u64),
}

/// A pill that reached a patient: both leave the scene.
#[derive(Clone, Copy, Debug, PartialEq, Eq, Structural)]
pub struct Treatment {
    pub pill: u64,
    pub patient: u64,
}

/// One patient was saved.
#[derive(Clone, Copy, Debug, PartialEq, Eq, Structural)]
pub struct PatientHealedEvent;

/// The entities of a play session, by id, with their kinds.
pub struct Scene {
    entities: HashMap<u64, EntityKind>,
}

impl View for Scene {
    type V = Map<u64, EntityKind>;

    closed spec fn view(&self) -> Map<u64, EntityKind> {
        self.entities@
    }
}

/// The treatment that a contact between `a` and `b` is, if one of them is a
/// pill and the other a patient, in either order.
pub open spec fn cure_of(m: Map<u64, EntityKind>, a: u64, b: u64) -> Option<Treatment> {
    if m.contains_key(a) && m.contains_key(b) && m[a] == EntityKind::Pill && m[b]
        == EntityKind::Patient {
        Some(Treatment { pill: a, patient: b })
    } else if m.contains_key(a) && m.contains_key(b) && m[a] == EntityKind::Patient && m[b]
        == EntityKind::Pill {
        Some(Treatment { pill: b, patient: a })
    } else {
        None
    }
}

/// The scene after one collision event, and the treatment it was, if any.
pub open spec fn after_event(m: Map<u64, EntityKind>, ev: CollisionEvent) -> (Map<
    u64,
    EntityKind,
>, Option<Treatment>) {
    match ev {
        CollisionEvent::Started(a, b) => match cure_of(m, a, b) {
            Some(t) => (m.remove(t.pill).remove(t.patient), Some(t)),
            None => (m, None),
        },
        CollisionEvent::Stopped(_, _) => (m, None),
    }
}

/// The scene after a sequence of events, each seeing the scene the earlier
/// ones left, and the treatments in order.
pub open spec fn after_events(m: Map<u64, EntityKind>, evs: Seq<CollisionEvent>) -> (Map<
    u64,
    EntityKind,
>, Seq<Treatment>)
    decreases evs.len(),
{
    if evs.len() == 0 {
        (m, seq![])
    } else {
        let (m1, ts) = after_events(m, evs.drop_last());
        let (m2, t) = after_event(m1, evs.last());
        (
            m2,
            match t {
                Some(t) => ts.push(t),
                None => ts,
            },
        )
    }
}

impl Scene {
    /// An empty scene.
    pub fn new() -> (r: Scene)
        ensures
            r@ == Map::<u64, EntityKind>::empty(),
    {
        Scene { entities: HashMap::new() }
    }

    /// Enters an entity, or changes the kind of one already there.
    pub fn spawn(&mut self, id: u64, kind: EntityKind)
        ensures
            final(self)@ == old(self)@.insert(id, kind),
    {
        self.entities.insert(id, kind);
    }

    /// The kind of an entity, if it is in the scene.
    pub fn kind_of(&self, id: u64) -> (r: Option<EntityKind>)
        ensures
            r == if self@.contains_key(id) {
                Some(self@[id])
            } else {
                None
            },
    {
        match self.entities.get(&id) {
            Some(k) => Some(*k),
            None => None,
        }
    }

    /// Removes an entity; says whether it was there. Removing one that is
    /// not there changes nothing.
    pub fn despawn(&mut self, id: u64) -> (r: bool)
        ensures
            final(self)@ == old(self)@.remove(id),
            r == old(self)@.contains_key(id),
            !old(self)@.contains_key(id) ==> final(self)@ == old(self)@,
    {
        let r = self.entities.remove(&id);
        proof {
            if !old(self)@.contains_key(id) {
                assert(old(self)@.remove(id) =~= old(self)@);
            }
        }
        r.is_some()
    }

    /// Resolves one collision event: a starting contact between a pill and a
    /// patient removes both from the scene and is a treatment; any other
    /// event changes nothing.
    pub fn handle_collision(&mut self, ev: CollisionEvent) -> (r: Option<Treatment>)
        ensures
            (final(self)@, r) == after_event(old(self)@, ev),
    {
        match ev {
            CollisionEvent::Started(a, b) => {
                let ka = self.kind_of(a);
                let kb = self.kind_of(b);
                let t = match (ka, kb) {
                    (Some(EntityKind::Pill), Some(EntityKind::Patient)) => Some(
                        Treatment { pill: a, patient: b },
                    ),
                    (Some(EntityKind::Patient), Some(EntityKind::Pill)) => Some(
                        Treatment { pill: b, patient: a },
                    ),
                    _ => None,
                };
                match t {
                    Some(t) => {
                        self.despawn(t.pill);
                        self.despawn(t.patient);
                    },
                    None => {},
                }
                t
            },
            CollisionEvent::Stopped(_, _) => None,
        }
    }

    /// Resolves a frame's collision events in order; returns the treatments.
    pub fn handle_collisions(&mut self, events: &Vec<CollisionEvent>) -> (r: Vec<Treatment>)
        ensures
            (final(self)@, r@) == after_events(old(self)@, events@),
    {
        let mut r: Vec<Treatment> = Vec::new();
        let n = events.len();
        for i in 0..n
            invariant
                n == events@.len(),
                (self@, r@) == after_events(old(self)@, events@.take(i as int)),
        {
            proof {
                assert(events@.take(i + 1).drop_last() == events@.take(i as int));
            }
            match self.handle_collision(events[i]) {
                Some(t) => r.push(t),
                None => {},
            }
        }
        proof {
            assert(events@.take(n as int) == events@);
        }
        r
    }
}

/// A starting contact between a pill and a patient, in either order, removes
/// both and is exactly one treatment, so the saved count grows by one; one
/// between two patients, or two pills, changes nothing.
pub proof fn lemma_pill_meets_patient(
    m: Map<u64, EntityKind>,
    pill: u64,
    patient: u64,
    saved: nat,
)
    requires
        m.contains_key(pill),
        m.contains_key(patient),
        m[pill] == EntityKind::Pill,
        m[patient] == EntityKind::Patient,
    ensures
        after_events(m, seq![CollisionEvent::Started(pill, patient)]) == (
            m.remove(pill).remove(patient),
            seq![Treatment { pill, patient }],
        ),
        after_events(m, seq![CollisionEvent::Started(patient, pill)]) == (
            m.remove(pill).remove(patient),
            seq![Treatment { pill, patient }],
        ),
        saved_after(saved, after_events(m, seq![CollisionEvent::Started(pill, patient)]).1.len())
            == saved + 1,
        forall|a: u64, b: u64|
            m.contains_key(a) && m.contains_key(b) && m[a] == m[b] ==> #[trigger] after_event(
                m,
                CollisionEvent::Started(a, b),
            ) == (m, None::<Treatment>),
{
    let t = Treatment { pill, patient };
    let e1 = seq![CollisionEvent::Started(pill, patient)];
    let e2 = seq![CollisionEvent::Started(patient, pill)];
    assert(e1.drop_last() =~= Seq::<CollisionEvent>::empty());
    assert(e2.drop_last() =~= Seq::<CollisionEvent>::empty());
    assert(after_events(m, Seq::<CollisionEvent>::empty()) == (m, Seq::<Treatment>::empty()));
    assert(Seq::<Treatment>::empty().push(t) =~= seq![t]);
    assert(after_events(m, e1).1 == seq![t]);
    assert(after_events(m, e2).1 == seq![t]);
}

/// Delivering the same collision event a second time changes nothing and
/// heals no one.
pub proof fn lemma_redelivery_is_inert(m: Map<u64, EntityKind>, ev: CollisionEvent)
    ensures
        after_event(after_event(m, ev).0, ev) == (after_event(m, ev).0, None::<Treatment>),
{
}

} // verus!
