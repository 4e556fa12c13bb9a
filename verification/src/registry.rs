//! The player registry: the authoritative mapping from player identifier to
//! player state, owned exclusively by the simulation tick.
//!
//! Entries appear on the first `Join` for an unseen identifier and vanish on
//! `Leave`. Commands for unknown identifiers are discarded. A list of the
//! member identifiers in join order lets the physics pass walk every player
//! deterministically.

use vstd::prelude::*;

use vstd::hash_map::StringHashMap;

use crate::command::HorizontalIntent;
use crate::player::{
    check_step_fits, step_fits, step_model, with_intent, with_jump, PlayerState, JUMP_STRENGTH,
};

verus! {

/// What one full physics pass does to the registry: every player is
/// advanced by [`step_model`], and nobody joins or leaves.
pub open spec fn step_map(m: Map<Seq<char>, PlayerState>, dt: u32) -> Map<Seq<char>, PlayerState> {
    Map::new(|k: Seq<char>| m.dom().contains(k), |k: Seq<char>| step_model(m[k], dt))
}

/// Authoritative mapping from player identifier to player state.
pub struct Registry {
    ids: Vec<String>,
    table: StringHashMap<PlayerState>,
}

impl View for Registry {
    type V = Map<Seq<char>, PlayerState>;

    closed spec fn view(&self) -> Map<Seq<char>, PlayerState> {
        self.table@
    }
}

impl Registry {
    /// The registry invariant: the identifier list holds exactly the keys
    /// of the table, each exactly once; every entry is keyed by its own
    /// identifier and satisfies the player bounds.
    pub closed spec fn wf(&self) -> bool {
        &&& forall|t: int|
            0 <= t < self.ids@.len() ==> #[trigger] self.table@.contains_key(self.ids@[t]@)
        &&& forall|k: Seq<char>|
            #[trigger] self.table@.contains_key(k) ==> exists|t: int|
                0 <= t < self.ids@.len() && self.ids@[t]@ == k
        &&& forall|t: int, u: int|
            0 <= t < u < self.ids@.len() ==> self.ids@[t]@ != self.ids@[u]@
        &&& forall|k: Seq<char>| #[trigger]
            self.table@.contains_key(k) ==> self.table@[k].id@ == k && self.table@[k].wf()
    }

    /// An empty registry, as at process start.
    pub fn new() -> (r: Registry)
        ensures
            r@ == Map::<Seq<char>, PlayerState>::empty(),
            r.wf(),
    {
        Registry { ids: Vec::new(), table: StringHashMap::new() }
    }

    /// How many players are present.
    pub fn len(&self) -> (n: usize)
        ensures
            n == self@.len(),
    {
        self.table.len()
    }

    /// Whether a player with this identifier is present.
    pub fn contains(&self, id: &str) -> (b: bool)
        ensures
            b == self@.contains_key(id@),
    {
        self.table.contains_key(id)
    }

    /// The state of the player with this identifier, if present. This is
    /// what the rendering collaborator reads once per tick.
    pub fn get<'a>(&'a self, id: &str) -> (r: Option<&'a PlayerState>)
        ensures
            match r {
                Some(p) => self@.contains_key(id@) && *p == self@[id@],
                None => !self@.contains_key(id@),
            },
    {
        self.table.get(id)
    }

    /// The identifiers of the present players, in join order, each exactly
    /// once.
    pub fn member_ids(&self) -> (ids: &Vec<String>)
        requires
            self.wf(),
        ensures
            forall|t: int| 0 <= t < ids@.len() ==> self@.contains_key(#[trigger] ids@[t]@),
            forall|k: Seq<char>|
                #[trigger] self@.contains_key(k) ==> exists|t: int|
                    0 <= t < ids@.len() && ids@[t]@ == k,
            forall|t: int, u: int| 0 <= t < u < ids@.len() ==> ids@[t]@ != ids@[u]@,
    {
        &self.ids
    }

    /// Folds a `Join` command: inserts the initial state for an unseen
    /// identifier; a duplicate join is a no-op. Returns whether the player
    /// was absent and is now joined, which is when a `Joined` event is owed.
    pub fn join(&mut self, id: String) -> (joined: bool)
        requires
            old(self).wf(),
        ensures
            final(self).wf(),
            joined == !old(self)@.contains_key(id@),
            old(self)@.contains_key(id@) ==> final(self)@ == old(self)@,
            !old(self)@.contains_key(id@) ==> final(self)@ == old(self)@.insert(
                id@,
                PlayerState::initial(id),
            ),
    {
        if self.table.contains_key(id.as_str()) {
            false
        } else {
            let ghost m0 = self.table@;
            let ghost ids0 = self.ids@;
            let p = PlayerState::new_joined(id.clone());
            self.ids.push(id.clone());
            self.table.insert(id, p);
            proof {
                let ids1 = self.ids@;
                assert forall|k: Seq<char>| #[trigger] self.table@.contains_key(k) implies exists|
                    t: int,
                | 0 <= t < ids1.len() && ids1[t]@ == k by {
                    if m0.contains_key(k) {
                        let t0 = choose|t: int| 0 <= t < ids0.len() && ids0[t]@ == k;
                        assert(ids1[t0]@ == k);
                    } else {
                        assert(ids1[ids0.len() as int]@ == k);
                    }
                }
                assert forall|t: int, u: int| 0 <= t < u < ids1.len() implies ids1[t]@
                    != ids1[u]@ by {
                    if u == ids0.len() {
                        assert(m0.contains_key(ids0[t]@));
                    }
                }
            }
            true
        }
    }

    /// Index of the identifier in the join-order list; the identifier must
    /// be present.
    fn find_index(ids: &Vec<String>, id: &String) -> (j: usize)
        requires
            exists|t: int| 0 <= t < ids@.len() && ids@[t]@ == id@,
        ensures
            j < ids@.len(),
            ids@[j as int]@ == id@,
    {
        let mut j: usize = 0;
        while j < ids.len()
            invariant
                j <= ids@.len(),
                forall|t: int| 0 <= t < j ==> ids@[t]@ != id@,
                exists|t: int| 0 <= t < ids@.len() && ids@[t]@ == id@,
            decreases ids@.len() - j,
        {
            if ids[j] == *id {
                return j;
            }
            j += 1;
        }
        proof {
            let t = choose|t: int| 0 <= t < ids@.len() && ids@[t]@ == id@;
            assert(false);
        }
        0
    }

    /// Folds a `Leave` command: removes the player if present; a leave for
    /// an absent identifier is a no-op. Returns whether the player was
    /// present, which is when a `Left` event is owed.
    pub fn leave(&mut self, id: &String) -> (was: bool)
        requires
            old(self).wf(),
        ensures
            final(self).wf(),
            was == old(self)@.contains_key(id@),
            final(self)@ == old(self)@.remove(id@),
    {
        if !self.table.contains_key(id.as_str()) {
            proof {
                assert(self.table@ =~= self.table@.remove(id@));
            }
            return false;
        }
        let ghost m0 = self.table@;
        let ghost ids0 = self.ids@;
        let j = Self::find_index(&self.ids, id);
        self.ids.remove(j);
        self.table.remove(id.as_str());
        proof {
            let ids1 = self.ids@;
            let m1 = self.table@;
            ids0.remove_ensures(j as int);
            assert forall|t: int, u: int| 0 <= t < u < ids1.len() implies ids1[t]@
                != ids1[u]@ by {
                let t0: int = if t < j { t } else { t + 1 };
                let u0: int = if u < j { u } else { u + 1 };
                assert(ids1[t]@ == ids0[t0]@);
                assert(ids1[u]@ == ids0[u0]@);
            }
            assert forall|t: int| 0 <= t < ids1.len() implies #[trigger] m1.contains_key(
                ids1[t]@,
            ) by {
                let t0: int = if t < j { t } else { t + 1 };
                assert(ids1[t]@ == ids0[t0]@);
                if t0 < j {
                    assert(ids0[t0]@ != ids0[j as int]@);
                } else {
                    assert(ids0[j as int]@ != ids0[t0]@);
                }
            }
            assert forall|k: Seq<char>| #[trigger] m1.contains_key(k) implies exists|t: int|
                0 <= t < ids1.len() && ids1[t]@ == k by {
                let t0 = choose|t: int| 0 <= t < ids0.len() && ids0[t]@ == k;
                if t0 < j {
                    assert(ids1[t0]@ == k);
                } else {
                    assert(ids0[j as int]@ != ids0[t0]@);
                    assert(ids1[t0 - 1]@ == k);
                }
            }
        }
        true
    }

    /// Folds a movement command: if the player is present, replaces its
    /// held horizontal input; a movement for an unknown identifier is
    /// discarded. Returns whether the player was present.
    pub fn set_intent(&mut self, id: &String, h: HorizontalIntent) -> (known: bool)
        requires
            old(self).wf(),
        ensures
            final(self).wf(),
            known == old(self)@.contains_key(id@),
            old(self)@.contains_key(id@) ==> final(self)@ == old(self)@.insert(
                id@,
                with_intent(old(self)@[id@], h),
            ),
            !old(self)@.contains_key(id@) ==> final(self)@ == old(self)@,
    {
        let q = match self.table.get(id.as_str()) {
            Some(p) => PlayerState {
                id: p.id.clone(),
                pos_x: p.pos_x,
                pos_y: p.pos_y,
                vel_x: p.vel_x,
                vel_y: p.vel_y,
                on_ground: p.on_ground,
                is_jumping: p.is_jumping,
                intent: h,
            },
            None => {
                return false;
            },
        };
        self.table.insert(id.clone(), q);
        proof {
            assert(self.table@.dom() =~= old(self).table@.dom());
            assert forall|k: Seq<char>| #[trigger] self.table@.contains_key(k) implies exists|
                t: int,
            | 0 <= t < self.ids@.len() && self.ids@[t]@ == k by {
                assert(old(self).table@.contains_key(k));
                let t0 = choose|t: int|
                    0 <= t < old(self).ids@.len() && old(self).ids@[t]@ == k;
                assert(self.ids@[t0]@ == k);
            }
        }
        true
    }

    /// Folds a `Jump` command: if the player is present and no jump
    /// impulse is active, sets the jump velocity and arms the debounce; a
    /// repeated jump while airborne, or a jump for an unknown identifier,
    /// is discarded. Returns whether the impulse was applied, which is
    /// when a `Jumped` event is owed.
    pub fn jump(&mut self, id: &String) -> (jumped: bool)
        requires
            old(self).wf(),
        ensures
            final(self).wf(),
            jumped == (old(self)@.contains_key(id@) && !old(self)@[id@].is_jumping),
            jumped ==> final(self)@ == old(self)@.insert(id@, with_jump(old(self)@[id@])),
            !jumped ==> final(self)@ == old(self)@,
    {
        let q = match self.table.get(id.as_str()) {
            Some(p) => {
                if p.is_jumping {
                    return false;
                }
                PlayerState {
                    id: p.id.clone(),
                    pos_x: p.pos_x,
                    pos_y: p.pos_y,
                    vel_x: p.vel_x,
                    vel_y: JUMP_STRENGTH,
                    on_ground: p.on_ground,
                    is_jumping: true,
                    intent: p.intent,
                }
            },
            None => {
                return false;
            },
        };
        self.table.insert(id.clone(), q);
        proof {
            assert(self.table@.dom() =~= old(self).table@.dom());
            assert forall|k: Seq<char>| #[trigger] self.table@.contains_key(k) implies exists|
                t: int,
            | 0 <= t < self.ids@.len() && self.ids@[t]@ == k by {
                assert(old(self).table@.contains_key(k));
                let t0 = choose|t: int|
                    0 <= t < old(self).ids@.len() && old(self).ids@[t]@ == k;
                assert(self.ids@[t0]@ == k);
            }
        }
        true
    }

    /// Decides whether one physics pass of `dt` milliseconds stays inside
    /// the machine limits for every present player: exactly then may the
    /// simulation integrate this tick.
    pub fn step_all_fits(&self, dt: u32) -> (b: bool)
        requires
            self.wf(),
        ensures
            b == (forall|k: Seq<char>|
                #[trigger] self@.contains_key(k) ==> step_fits(self@[k], dt)),
    {
        let n = self.ids.len();
        let mut i: usize = 0;
        while i < n
            invariant
                self.wf(),
                n == self.ids@.len(),
                i <= n,
                forall|t: int|
                    0 <= t < i ==> step_fits(self.table@[#[trigger] self.ids@[t]@], dt),
            decreases n - i,
        {
            match self.table.get(self.ids[i].as_str()) {
                Some(p) => {
                    if !check_step_fits(p, dt) {
                        proof {
                            assert(self@.contains_key(self.ids@[i as int]@));
                            assert(!step_fits(self@[self.ids@[i as int]@], dt));
                        }
                        return false;
                    }
                },
                None => {
                    proof {
                        assert(self.table@.contains_key(self.ids@[i as int]@));
                    }
                },
            }
            i += 1;
        }
        proof {
            assert forall|k: Seq<char>| #[trigger] self@.contains_key(k) implies step_fits(
                self@[k],
                dt,
            ) by {
                let t0 = choose|t: int| 0 <= t < self.ids@.len() && self.ids@[t]@ == k;
                assert(step_fits(self.table@[self.ids@[t0]@], dt));
            }
        }
        true
    }

    /// One physics pass: advances every present player by `dt`
    /// milliseconds of gravity, vertical motion, the floor clamp and the
    /// horizontal step, exactly as [`step_map`] describes. Afterwards
    /// every player is either grounded with no vertical speed or airborne.
    pub fn step_all(&mut self, dt: u32)
        requires
            old(self).wf(),
            forall|k: Seq<char>|
                #[trigger] old(self)@.contains_key(k) ==> step_fits(old(self)@[k], dt),
        ensures
            final(self).wf(),
            final(self)@ == step_map(old(self)@, dt),
            forall|k: Seq<char>|
                #[trigger] final(self)@.contains_key(k) ==> final(self)@[k].grounded_ok(),
    {
        let n = self.ids.len();
        let mut i: usize = 0;
        while i < n
            invariant
                self.wf(),
                n == self.ids@.len(),
                i <= n,
                forall|k: Seq<char>|
                    #[trigger] old(self)@.contains_key(k) ==> step_fits(old(self)@[k], dt),
                self.ids@ == old(self).ids@,
                self.table@.dom() =~= old(self).table@.dom(),
                forall|t: int|
                    0 <= t < i ==> #[trigger] self.table@[old(self).ids@[t]@] == step_model(
                        old(self).table@[old(self).ids@[t]@],
                        dt,
                    ),
                forall|t: int|
                    i <= t < n ==> #[trigger] self.table@[old(self).ids@[t]@] == old(
                        self,
                    ).table@[old(self).ids@[t]@],
            decreases n - i,
        {
            let key = self.ids[i].clone();
            let mut q = match self.table.get(key.as_str()) {
                Some(p) => PlayerState {
                    id: p.id.clone(),
                    pos_x: p.pos_x,
                    pos_y: p.pos_y,
                    vel_x: p.vel_x,
                    vel_y: p.vel_y,
                    on_ground: p.on_ground,
                    is_jumping: p.is_jumping,
                    intent: p.intent,
                },
                None => {
                    proof {
                        assert(self.table@.contains_key(self.ids@[i as int]@));
                    }
                    PlayerState::new_joined(key.clone())
                },
            };
            proof {
                assert(old(self).table@.contains_key(old(self).ids@[i as int]@));
                assert(q == old(self).table@[old(self).ids@[i as int]@]);
                assert(old(self)@.contains_key(old(self).ids@[i as int]@));
                assert(step_fits(old(self)@[old(self).ids@[i as int]@], dt));
            }
            crate::player::step_player(&mut q, dt);
            self.table.insert(key, q);
            i += 1;
            proof {
                assert(self.table@.dom() =~= old(self).table@.dom());
                assert forall|k: Seq<char>| #[trigger] self.table@.contains_key(k) implies exists|
                    t: int,
                | 0 <= t < self.ids@.len() && self.ids@[t]@ == k by {
                    assert(old(self).table@.contains_key(k));
                    let t0 = choose|t: int|
                        0 <= t < old(self).ids@.len() && old(self).ids@[t]@ == k;
                    assert(self.ids@[t0]@ == k);
                }
            }
        }
        proof {
            assert forall|k: Seq<char>| #[trigger] self.table@.contains_key(k) implies
                self.table@[k] == step_model(old(self).table@[k], dt)
                && self.table@[k].grounded_ok() by {
                assert(old(self).table@.contains_key(k));
                let t0 = choose|t: int|
                    0 <= t < old(self).ids@.len() && old(self).ids@[t]@ == k;
                assert(self.table@[old(self).ids@[t0]@] == step_model(
                    old(self).table@[old(self).ids@[t0]@],
                    dt,
                ));
            }
            assert(self.table@ =~= step_map(old(self).table@, dt));
        }
    }
}

} // verus!
