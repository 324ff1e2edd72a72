//! The data frames that the user interface has received, kept by name.

use vstd::prelude::*;

verus! {

/// A value that carries a name by which it is kept.
pub trait NamedFrame {
    /// The name.
    spec fn frame_name(&self) -> Seq<char>;

    /// The name.
    fn name(&self) -> (r: &String)
        ensures
            r@ == self.frame_name(),
    ;
}

/// Frames kept by name: receiving a frame of a name already kept replaces the old one.
pub struct FrameStore<F: NamedFrame> {
    frames: Vec<F>,
}

/// Some frame of `frames` has the name `name`.
pub open spec fn has_name<F: NamedFrame>(frames: Seq<F>, name: Seq<char>) -> bool {
    exists|i: int| 0 <= i < frames.len() && (#[trigger] frames[i]).frame_name() == name
}

/// No two frames of `frames` have the same name.
pub open spec fn names_distinct<F: NamedFrame>(frames: Seq<F>) -> bool {
    forall|i: int, j: int|
        0 <= i < frames.len() && 0 <= j < frames.len() && i != j ==> (#[trigger] frames[i]).frame_name()
            != (#[trigger] frames[j]).frame_name()
}

/// The frames as a map from their names.
pub open spec fn frames_by_name<F: NamedFrame>(frames: Seq<F>) -> Map<Seq<char>, F> {
    Map::new(
        |name: Seq<char>| has_name(frames, name),
        |name: Seq<char>|
            frames[choose|i: int| 0 <= i < frames.len() && (#[trigger] frames[i]).frame_name() == name],
    )
}

proof fn lemma_lookup<F: NamedFrame>(frames: Seq<F>, i: int)
    requires
        names_distinct(frames),
        0 <= i < frames.len(),
    ensures
        frames_by_name(frames).contains_key(frames[i].frame_name()),
        frames_by_name(frames)[frames[i].frame_name()] == frames[i],
{
    let name = frames[i].frame_name();
    assert(has_name(frames, name));
    let j = choose|j: int| 0 <= j < frames.len() && (#[trigger] frames[j]).frame_name() == name;
    assert(frames[j].frame_name() == name);
    if j != i {
        assert(frames[i].frame_name() != frames[j].frame_name());
    }
}

fn find_frame<F: NamedFrame>(frames: &Vec<F>, name: &String) -> (r: Option<usize>)
    ensures
        r matches Some(i) ==> i < frames@.len() && frames@[i as int].frame_name() == name@,
        r is None ==> !has_name(frames@, name@),
{
    let mut i: usize = 0;
    while i < frames.len()
        invariant
            i <= frames@.len(),
            forall|j: int| 0 <= j < i ==> (#[trigger] frames@[j]).frame_name() != name@,
        decreases frames@.len() - i,
    {
        if *frames[i].name() == *name {
            return Some(i);
        }
        i = i + 1;
    }
    None
}

impl<F: NamedFrame> FrameStore<F> {
    #[verifier::type_invariant]
    closed spec fn distinct(self) -> bool {
        names_distinct(self.frames@)
    }

    /// The frames kept, by name.
    pub closed spec fn map(self) -> Map<Seq<char>, F> {
        frames_by_name(self.frames@)
    }

    /// Every frame kept is kept under its own name.
    pub proof fn law_kept_under_own_name(&self, name: Seq<char>)
        requires
            self.map().contains_key(name),
        ensures
            self.map()[name].frame_name() == name,
    {
    }

    /// An empty store.
    pub fn new() -> (r: Self)
        ensures
            r.map() == Map::<Seq<char>, F>::empty(),
    {
        let r = FrameStore { frames: Vec::new() };
        proof {
            assert(r.map() =~= Map::<Seq<char>, F>::empty());
        }
        r
    }

    /// Keeps `frame` under its name, replacing a frame of that name.
    pub fn insert(&mut self, frame: F)
        ensures
            final(self).map() == old(self).map().insert(frame.frame_name(), frame),
    {
        proof {
            use_type_invariant(&*self);
        }
        let ghost old_frames = self.frames@;
        let ghost name = frame.frame_name();
        let position = find_frame(&self.frames, frame.name());
        let found = position.is_some();
        let i: usize = match position {
            Some(i) => i,
            None => 0,
        };
        let mut frames = Vec::new();
        std::mem::swap(&mut frames, &mut self.frames);
        if found {
            frames.set(i, frame);
        } else {
            frames.push(frame);
        }
        let ghost new_frames = frames@;
        proof {
            assert(names_distinct(new_frames)) by {
                assert forall|a: int, b: int|
                    0 <= a < new_frames.len() && 0 <= b < new_frames.len() && a != b implies (
                    #[trigger] new_frames[a]).frame_name() != (#[trigger] new_frames[b]).frame_name() by {
                    if found {
                        if a == i {
                            assert(old_frames[b].frame_name() != old_frames[a].frame_name());
                        } else if b == i {
                            assert(old_frames[a].frame_name() != old_frames[b].frame_name());
                        }
                    } else {
                        if a == old_frames.len() {
                            assert(old_frames[b].frame_name() != name);
                        } else if b == old_frames.len() {
                            assert(old_frames[a].frame_name() != name);
                        }
                    }
                }
            }
            let old_map = frames_by_name(old_frames);
            let new_map = frames_by_name(new_frames);
            let expected = old_map.insert(name, frame);
            assert forall|k: Seq<char>| #[trigger] new_map.contains_key(k) == expected.contains_key(k) by {
                if new_map.contains_key(k) {
                    let j = choose|j: int| 0 <= j < new_frames.len() && (#[trigger] new_frames[j]).frame_name() == k;
                    if k != name {
                        assert(old_frames[j].frame_name() == k);
                        assert(has_name(old_frames, k));
                    }
                }
                if expected.contains_key(k) && k != name {
                    let j = choose|j: int| 0 <= j < old_frames.len() && (#[trigger] old_frames[j]).frame_name() == k;
                    assert(new_frames[j].frame_name() == k);
                }
                if k == name {
                    if found {
                        assert(new_frames[i as int].frame_name() == k);
                    } else {
                        assert(new_frames[old_frames.len() as int].frame_name() == k);
                    }
                }
            }
            assert forall|k: Seq<char>| #[trigger] new_map.contains_key(k) implies new_map[k] == expected[k] by {
                let j = choose|j: int| 0 <= j < new_frames.len() && (#[trigger] new_frames[j]).frame_name() == k;
                lemma_lookup(new_frames, j);
                if k != name {
                    assert(new_frames[j] == old_frames[j]);
                    lemma_lookup(old_frames, j);
                }
            }
            assert(new_map =~= expected);
        }
        self.frames = frames;
    }

    /// The frame kept under `name`, if any.
    pub fn get(&self, name: &String) -> (r: Option<&F>)
        ensures
            match r {
                Some(f) => self.map().contains_key(name@) && *f == self.map()[name@],
                None => !self.map().contains_key(name@),
            },
    {
        proof {
            use_type_invariant(self);
        }
        match find_frame(&self.frames, name) {
            Some(i) => {
                proof {
                    lemma_lookup(self.frames@, i as int);
                }
                Some(&self.frames[i])
            },
            None => None,
        }
    }

    /// The names of the frames kept, each once.
    pub fn names(&self) -> (r: Vec<String>)
        ensures
            r.deep_view().to_set() == self.map().dom(),
            r.deep_view().no_duplicates(),
    {
        proof {
            use_type_invariant(self);
        }
        let mut names: Vec<String> = Vec::new();
        let mut i: usize = 0;
        while i < self.frames.len()
            invariant
                i <= self.frames@.len(),
                names_distinct(self.frames@),
                names.deep_view() =~= self.frames@.take(i as int).map_values(|f: F| f.frame_name()),
            decreases self.frames@.len() - i,
        {
            let name = self.frames[i].name().clone();
            let ghost before = names.deep_view();
            let ghost name_view = name@;
            names.push(name);
            proof {
                assert(names.deep_view() =~= before.push(name_view));
                assert(self.frames@.take(i + 1) =~= self.frames@.take(i as int).push(self.frames@[i as int]));
                assert(self.frames@.take(i + 1).map_values(|f: F| f.frame_name()) =~= self.frames@.take(
                    i as int,
                ).map_values(|f: F| f.frame_name()).push(self.frames@[i as int].frame_name()));
            }
            i = i + 1;
        }
        proof {
            let all = self.frames@;
            assert(all.take(i as int) =~= all);
            let ns = names.deep_view();
            assert forall|k: Seq<char>| #[trigger] ns.to_set().contains(k) == self.map().dom().contains(k) by {
                if ns.to_set().contains(k) {
                    let j = choose|j: int| 0 <= j < ns.len() && ns[j] == k;
                    assert(all[j].frame_name() == k);
                }
                if self.map().dom().contains(k) {
                    let j = choose|j: int| 0 <= j < all.len() && (#[trigger] all[j]).frame_name() == k;
                    assert(ns[j] == k);
                }
            }
            assert(ns.to_set() =~= self.map().dom());
            assert forall|a: int, b: int| 0 <= a < ns.len() && 0 <= b < ns.len() && a != b implies ns[a]
                != ns[b] by {
                assert(all[a].frame_name() != all[b].frame_name());
            }
        }
        names
    }
}

} // verus!
