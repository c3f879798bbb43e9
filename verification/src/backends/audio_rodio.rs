//! The sound registry of the audio backend: loaded sounds get consecutive ids from
//! zero, and playing looks a sound up by its id.
use vstd::prelude::*;

verus! {

/// The sounds loaded so far, each with the id it was given. `S` is the decoded,
/// replayable source of a sound.
pub struct SoundTable<S> {
    open_sounds: Vec<(u32, S)>,
}

impl<S> SoundTable<S> {
    /// Every sound carries its position as its id.
    pub closed spec fn wf(&self) -> bool {
        forall|i: int| 0 <= i < self.open_sounds@.len() ==> #[trigger] self.open_sounds@[i].0 == i
    }

    /// The ids stored with the sounds, in load order.
    pub closed spec fn ids(&self) -> Seq<u32> {
        self.open_sounds@.map_values(|e: (u32, S)| e.0)
    }

    /// The loaded sources, the one with id `i` at position `i`.
    pub closed spec fn view(&self) -> Seq<S> {
        self.open_sounds@.map_values(|e: (u32, S)| e.1)
    }

    /// A table with no sounds.
    pub fn new() -> (r: SoundTable<S>)
        ensures
            r.wf(),
            r.view() == Seq::<S>::empty(),
            r.ids() == Seq::<u32>::empty(),
    {
        SoundTable { open_sounds: Vec::new() }
    }

    /// The number of loaded sounds.
    pub fn len(&self) -> (r: usize)
        ensures
            r == self.view().len(),
    {
        self.open_sounds.len()
    }

    /// Adds a sound and returns its id: the number of sounds loaded before it.
    pub fn load(&mut self, source: S) -> (id: u32)
        requires
            old(self).wf(),
            old(self).view().len() < u32::MAX,
        ensures
            final(self).wf(),
            id == old(self).view().len(),
            final(self).view() == old(self).view().push(source),
            final(self).ids() == old(self).ids().push(id),
    {
        let id = self.open_sounds.len() as u32;
        self.open_sounds.push((id, source));
        assert(self.open_sounds@.map_values(|e: (u32, S)| e.1) =~= old(self).view().push(source));
        assert(self.open_sounds@.map_values(|e: (u32, S)| e.0) =~= old(self).ids().push(id));
        id
    }

    /// The sound with the given id; `None` where no sound has that id.
    pub fn find(&self, sound_id: u32) -> (r: Option<&S>)
        requires
            self.wf(),
        ensures
            r is Some <==> sound_id < self.view().len(),
            r matches Some(s) ==> *s == self.view()[sound_id as int],
    {
        let mut i: usize = 0;
        while i < self.open_sounds.len()
            invariant
                i <= self.open_sounds@.len(),
                forall|j: int| 0 <= j < self.open_sounds@.len() ==> #[trigger] self.open_sounds@[j].0 == j,
                (i as int) <= (sound_id as int),
            decreases self.open_sounds@.len() - i,
        {
            let entry = &self.open_sounds[i];
            if entry.0 == sound_id {
                return Some(&entry.1);
            }
            i += 1;
        }
        None
    }
}

/// In a well-formed table every stored id is the position of its sound, so the ids are
/// 0, 1, 2, … with none left out and none twice.
pub proof fn lemma_ids_are_positions<S>(table: SoundTable<S>)
    requires
        table.wf(),
    ensures
        table.ids().len() == table.view().len(),
        forall|i: int| 0 <= i < table.ids().len() ==> #[trigger] table.ids()[i] == i,
{
}

/// The sources held after `k` loads into a new table are the first `k` loaded.
proof fn lemma_loads_prefix<S>(tables: Seq<SoundTable<S>>, sources: Seq<S>, ids: Seq<u32>, k: int)
    requires
        tables.len() == sources.len() + 1,
        ids.len() == sources.len(),
        tables[0].view() == Seq::<S>::empty(),
        forall|j: int| 0 <= j < sources.len() ==> #[trigger] ids[j] == tables[j].view().len()
            && tables[j + 1].view() == tables[j].view().push(sources[j]),
        0 <= k <= sources.len(),
    ensures
        tables[k].view() == sources.subrange(0, k),
    decreases k,
{
    if k > 0 {
        lemma_loads_prefix(tables, sources, ids, k - 1);
        assert(ids[k - 1] == tables[k - 1].view().len());
        assert(sources.subrange(0, k) =~= sources.subrange(0, k - 1).push(sources[k - 1]));
    } else {
        assert(sources.subrange(0, 0) =~= Seq::<S>::empty());
    }
}

/// Sounds loaded one after another into a new table get the ids 0, 1, 2, … in load
/// order, and the table then holds the sources in that order, each under its id.
/// `tables[j]` is the table before the `j`-th load, which added `sources[j]` and
/// returned `ids[j]`.
pub proof fn lemma_ids_dense_in_load_order<S>(tables: Seq<SoundTable<S>>, sources: Seq<S>, ids: Seq<u32>)
    requires
        tables.len() == sources.len() + 1,
        ids.len() == sources.len(),
        tables[0].view() == Seq::<S>::empty(),
        forall|j: int| 0 <= j < sources.len() ==> #[trigger] ids[j] == tables[j].view().len()
            && tables[j + 1].view() == tables[j].view().push(sources[j]),
    ensures
        forall|j: int| 0 <= j < ids.len() ==> #[trigger] ids[j] == j,
        tables[sources.len() as int].view() == sources,
{
    assert forall|j: int| 0 <= j < ids.len() implies #[trigger] ids[j] == j by {
        lemma_loads_prefix(tables, sources, ids, j);
    }
    lemma_loads_prefix(tables, sources, ids, sources.len() as int);
    assert(sources.subrange(0, sources.len() as int) =~= sources);
}

/// A sound that was just loaded is found under the id that loading returned, and the
/// sounds loaded before it are still found under their ids.
pub proof fn lemma_load_then_find<S>(before: SoundTable<S>, after: SoundTable<S>, source: S, id: u32)
    requires
        id == before.view().len(),
        after.view() == before.view().push(source),
    ensures
        id < after.view().len(),
        after.view()[id as int] == source,
        forall|other: u32|
            other < before.view().len() ==> after.view()[other as int] == before.view()[other as int],
{
}

} // verus!
