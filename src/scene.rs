//! Scene bootstrap: the scene's entities by kind, and a bootstrap that adds
//! the camera and the ground plane only where they are missing, so that it
//! may run again after a plugin reload without duplicating either.
use vstd::prelude::*;

verus! {

/// The kind of an entity in the scene.
#[derive(Clone, Copy, Debug, PartialEq, Eq, Structural)]
pub enum EntityKind {
    /// The orbit camera.
    Camera,
    /// The flat water plane.
    Plane,
    /// Anything else the host put in the scene.
    Other,
}

/// The kinds of the scene's entities, in the order they were added.
pub struct SceneIndex {
    pub entities: Vec<EntityKind>,
}

/// How many entities of kind `k` are in `s`.
pub open spec fn count_kind(s: Seq<EntityKind>, k: EntityKind) -> nat
    decreases s.len(),
{
    if s.len() == 0 {
        0
    } else {
        count_kind(s.drop_last(), k) + if s.last() == k { 1nat } else { 0nat }
    }
}

/// `s` after a bootstrap: the camera appended if none is there, then the
/// plane appended if none is there.
pub open spec fn bootstrap_spec(s: Seq<EntityKind>) -> Seq<EntityKind> {
    let with_camera = if s.contains(EntityKind::Camera) {
        s
    } else {
        s.push(EntityKind::Camera)
    };
    if s.contains(EntityKind::Plane) {
        with_camera
    } else {
        with_camera.push(EntityKind::Plane)
    }
}

proof fn lemma_count_push(s: Seq<EntityKind>, x: EntityKind, k: EntityKind)
    ensures
        count_kind(s.push(x), k) == count_kind(s, k) + if x == k { 1nat } else { 0nat },
{
    assert(s.push(x).drop_last() =~= s);
}

proof fn lemma_count_zero(s: Seq<EntityKind>, k: EntityKind)
    ensures
        count_kind(s, k) == 0 <==> !s.contains(k),
    decreases s.len(),
{
    if s.len() > 0 {
        lemma_count_zero(s.drop_last(), k);
        if s.drop_last().contains(k) {
            let i = choose|i: int| 0 <= i < s.len() - 1 && s.drop_last()[i] == k;
            assert(s[i] == k);
        }
        if s.contains(k) && s.last() != k {
            let i = choose|i: int| 0 <= i < s.len() && s[i] == k;
            assert(s.drop_last()[i] == k);
        }
        if s.last() == k {
            assert(s[s.len() - 1] == k);
        }
    }
}

/// Bootstrap never duplicates: running it on a scene it has already set up
/// leaves that scene as it is.
pub proof fn lemma_bootstrap_idempotent(s: Seq<EntityKind>)
    ensures
        bootstrap_spec(bootstrap_spec(s)) == bootstrap_spec(s),
{
    let b = bootstrap_spec(s);
    if !s.contains(EntityKind::Camera) {
        assert(s.push(EntityKind::Camera).last() == EntityKind::Camera);
    }
    assert(b.contains(EntityKind::Camera)) by {
        if s.contains(EntityKind::Camera) {
            let i = choose|i: int| 0 <= i < s.len() && s[i] == EntityKind::Camera;
            assert(b[i] == EntityKind::Camera);
        } else {
            assert(b[s.len() as int] == EntityKind::Camera);
        }
    }
    assert(b.contains(EntityKind::Plane)) by {
        if s.contains(EntityKind::Plane) {
            let i = choose|i: int| 0 <= i < s.len() && s[i] == EntityKind::Plane;
            assert(b[i] == EntityKind::Plane);
        } else {
            assert(b[b.len() - 1] == EntityKind::Plane);
        }
    }
}

/// Bootstrapping a scene that holds at most one camera and at most one plane
/// leaves exactly one of each; in particular two bootstraps of an empty
/// scene give one camera and one plane.
pub proof fn lemma_bootstrap_one_each(s: Seq<EntityKind>)
    requires
        count_kind(s, EntityKind::Camera) <= 1,
        count_kind(s, EntityKind::Plane) <= 1,
    ensures
        count_kind(bootstrap_spec(s), EntityKind::Camera) == 1,
        count_kind(bootstrap_spec(s), EntityKind::Plane) == 1,
        count_kind(bootstrap_spec(bootstrap_spec(s)), EntityKind::Camera) == 1,
        count_kind(bootstrap_spec(bootstrap_spec(s)), EntityKind::Plane) == 1,
{
    lemma_count_zero(s, EntityKind::Camera);
    lemma_count_zero(s, EntityKind::Plane);
    let with_camera = if s.contains(EntityKind::Camera) {
        s
    } else {
        s.push(EntityKind::Camera)
    };
    lemma_count_push(s, EntityKind::Camera, EntityKind::Camera);
    lemma_count_push(s, EntityKind::Camera, EntityKind::Plane);
    lemma_count_push(with_camera, EntityKind::Plane, EntityKind::Camera);
    lemma_count_push(with_camera, EntityKind::Plane, EntityKind::Plane);
    lemma_bootstrap_idempotent(s);
}

/// Two bootstraps of an empty scene leave exactly one camera and one plane.
pub proof fn lemma_bootstrap_twice_fresh()
    ensures
        count_kind(bootstrap_spec(bootstrap_spec(Seq::empty())), EntityKind::Camera) == 1,
        count_kind(bootstrap_spec(bootstrap_spec(Seq::empty())), EntityKind::Plane) == 1,
{
    lemma_bootstrap_one_each(Seq::empty());
}

impl SceneIndex {
    /// An empty scene.
    pub fn new() -> (r: SceneIndex)
        ensures
            r.entities@ == Seq::<EntityKind>::empty(),
    {
        SceneIndex { entities: Vec::new() }
    }

    /// Records an entity of kind `k`.
    pub fn add(&mut self, k: EntityKind)
        ensures
            final(self).entities@ == old(self).entities@.push(k),
    {
        self.entities.push(k);
    }

    /// Whether the scene holds an entity of kind `k`.
    pub fn contains(&self, k: EntityKind) -> (r: bool)
        ensures
            r == self.entities@.contains(k),
    {
        let mut i: usize = 0;
        while i < self.entities.len()
            invariant
                i <= self.entities@.len(),
                forall|j: int| 0 <= j < i ==> self.entities@[j] != k,
            decreases self.entities@.len() - i,
        {
            if self.entities[i] == k {
                return true;
            }
            i = i + 1;
        }
        false
    }

    /// How many entities of kind `k` the scene holds.
    pub fn count(&self, k: EntityKind) -> (r: usize)
        ensures
            r == count_kind(self.entities@, k),
    {
        let mut n: usize = 0;
        let mut i: usize = 0;
        while i < self.entities.len()
            invariant
                i <= self.entities@.len(),
                n == count_kind(self.entities@.subrange(0, i as int), k),
                n <= i,
            decreases self.entities@.len() - i,
        {
            proof {
                let s = self.entities@;
                assert(s.subrange(0, i + 1).drop_last() =~= s.subrange(0, i as int));
            }
            if self.entities[i] == k {
                n = n + 1;
            }
            i = i + 1;
        }
        assert(self.entities@.subrange(0, i as int) =~= self.entities@);
        n
    }

    /// Which entities a bootstrap has to spawn, as (camera, plane).
    pub fn missing(&self) -> (r: (bool, bool))
        ensures
            r.0 == !self.entities@.contains(EntityKind::Camera),
            r.1 == !self.entities@.contains(EntityKind::Plane),
    {
        (!self.contains(EntityKind::Camera), !self.contains(EntityKind::Plane))
    }

    /// Adds the camera and the plane, each only if the scene lacks it.
    pub fn bootstrap(&mut self)
        ensures
            final(self).entities@ == bootstrap_spec(old(self).entities@),
    {
        let (need_camera, need_plane) = self.missing();
        if need_camera {
            self.add(EntityKind::Camera);
        }
        if need_plane {
            self.add(EntityKind::Plane);
        }
    }
}

} // verus!
