//! The track list of a player, mirrored from the edits that the player reports.
use vstd::prelude::*;

use crate::metadata::{no_track_text, Metadata, MetadataView, TrackID};
use crate::text_map::TextMap;

verus! {

/// The texts of a list of track identifiers.
pub open spec fn id_texts(ids: Seq<TrackID>) -> Seq<Seq<char>> {
    ids.map_values(|id: TrackID| id@)
}

/// The mathematical values of a table of metadata.
pub open spec fn metadata_views(table: Map<Seq<char>, Metadata>) -> Map<Seq<char>, MetadataView> {
    table.map_values(|metadata: Metadata| metadata@)
}

/// Whether `at` is the place where `id` first occurs in `ids`.
pub open spec fn is_first_index(ids: Seq<Seq<char>>, id: Seq<char>, at: int) -> bool {
    &&& 0 <= at < ids.len()
    &&& ids[at] == id
    &&& forall|before: int| 0 <= before < at ==> ids[before] != id
}

/// The place where `id` first occurs in `ids`, if it occurs.
pub open spec fn first_index(ids: Seq<Seq<char>>, id: Seq<char>) -> Option<int> {
    if exists|at: int| is_first_index(ids, id, at) {
        Some(choose|at: int| is_first_index(ids, id, at))
    } else {
        None
    }
}

/// There is one place at most where an identifier first occurs, and
/// [`first_index`] is that place.
pub proof fn lemma_first_index(ids: Seq<Seq<char>>, id: Seq<char>, at: int)
    requires
        is_first_index(ids, id, at),
    ensures
        first_index(ids, id) == Some(at),
{
    let chosen = choose|at: int| is_first_index(ids, id, at);
    if chosen < at {
        assert(ids[chosen] != id);
    } else if at < chosen {
        assert(ids[at] != id);
    }
}

/// An identifier that does not occur has no first place.
pub proof fn lemma_no_first_index(ids: Seq<Seq<char>>, id: Seq<char>)
    requires
        forall|at: int| 0 <= at < ids.len() ==> ids[at] != id,
    ensures
        first_index(ids, id) is None,
{
}

/// The mathematical value of a [`TrackList`]: the identifiers in their
/// order, and the metadata that is known of them.
pub struct TrackListView {
    pub ids: Seq<Seq<char>>,
    pub metadata: Map<Seq<char>, MetadataView>,
}

impl TrackListView {
    /// The place at which a track is inserted behind `after`: behind its
    /// first occurrence, or at the front where `after` stands for "no track"
    /// or does not occur.
    pub open spec fn place_after(self, after: Seq<char>) -> int {
        if after == no_track_text() {
            0
        } else {
            match first_index(self.ids, after) {
                Some(at) => at + 1,
                None => 0,
            }
        }
    }

    /// The list that holds `ids` and knows no metadata.
    pub open spec fn replaced(self, ids: Seq<Seq<char>>) -> TrackListView {
        TrackListView { ids, metadata: Map::empty() }
    }

    /// The list after the track of `metadata` was inserted behind `after`.
    /// Metadata without a track identifier changes nothing.
    pub open spec fn inserted(self, after: Seq<char>, metadata: MetadataView) -> TrackListView {
        match metadata.track_id {
            Some(id) => TrackListView {
                ids: self.ids.insert(self.place_after(after), id),
                metadata: self.metadata.insert(id, metadata),
            },
            None => self,
        }
    }

    /// The list after the first occurrence of `id` was taken out, and with it
    /// the metadata of `id`.
    pub open spec fn removed(self, id: Seq<char>) -> TrackListView {
        TrackListView {
            ids: match first_index(self.ids, id) {
                Some(at) => self.ids.remove(at),
                None => self.ids,
            },
            metadata: self.metadata.remove(id),
        }
    }

    /// The identifier that the track `old_id` has once `metadata` has taken
    /// the place of its metadata: the one that `metadata` holds, or `old_id`
    /// where it holds none.
    pub open spec fn renamed(old_id: Seq<char>, metadata: MetadataView) -> Seq<char> {
        match metadata.track_id {
            Some(id) => id,
            None => old_id,
        }
    }

    /// The list after `metadata` has taken the place of the metadata of the
    /// track `old_id`. Where `old_id` does not occur, nothing changes.
    pub open spec fn with_track_metadata(
        self,
        old_id: Seq<char>,
        metadata: MetadataView,
    ) -> TrackListView {
        match first_index(self.ids, old_id) {
            Some(at) => TrackListView {
                ids: self.ids.update(at, Self::renamed(old_id, metadata)),
                metadata: self.metadata.remove(old_id).insert(
                    Self::renamed(old_id, metadata),
                    metadata,
                ),
            },
            None => self,
        }
    }
}

/// A track that is inserted behind a track of the list stands right behind
/// the first occurrence of that track, and every other track keeps its place
/// among the others.
pub proof fn lemma_insert_after(
    list: TrackListView,
    after: Seq<char>,
    metadata: MetadataView,
    at: int,
)
    requires
        is_first_index(list.ids, after, at),
        after != no_track_text(),
        metadata.track_id is Some,
    ensures
        list.inserted(after, metadata).ids.len() == list.ids.len() + 1,
        list.inserted(after, metadata).ids[at + 1] == metadata.track_id->0,
        forall|i: int| 0 <= i <= at ==> list.inserted(after, metadata).ids[i] == list.ids[i],
        forall|i: int|
            at + 1 < i <= list.ids.len() ==> list.inserted(after, metadata).ids[i] == list.ids[i
                - 1],
        list.inserted(after, metadata).metadata[metadata.track_id->0] == metadata,
{
    lemma_first_index(list.ids, after, at);
}

/// To remove a track a second time changes nothing, where the track stood
/// in the list once at most.
pub proof fn lemma_remove_twice(list: TrackListView, id: Seq<char>)
    requires
        forall|i: int, j: int|
            0 <= i < j < list.ids.len() ==> !(list.ids[i] == id && list.ids[j] == id),
    ensures
        list.removed(id).removed(id) == list.removed(id),
{
    let once = list.removed(id);
    match first_index(list.ids, id) {
        Some(at) => {
            assert(is_first_index(list.ids, id, at));
            assert forall|i: int| 0 <= i < once.ids.len() implies once.ids[i] != id by {
                if i < at {
                    assert(once.ids[i] == list.ids[i]);
                } else {
                    assert(once.ids[i] == list.ids[i + 1]);
                }
            }
            lemma_no_first_index(once.ids, id);
        },
        None => {},
    }
    assert(once.metadata.remove(id) =~= once.metadata);
}

/// The track list of a player: the identifiers of its tracks in their
/// order, and the metadata that has been learned of them. Nothing keeps an
/// identifier from standing in the list twice; the player is trusted not to
/// report that.
#[derive(Debug)]
pub struct TrackList {
    ids: Vec<TrackID>,
    metadata_cache: TextMap<Metadata>,
}

impl View for TrackList {
    type V = TrackListView;

    closed spec fn view(&self) -> TrackListView {
        TrackListView { ids: id_texts(self.ids@), metadata: metadata_views(self.metadata_cache@) }
    }
}

impl TrackList {
    /// The list of the given tracks, with no metadata known.
    pub fn new(ids: Vec<TrackID>) -> (list: Self)
        ensures
            list@ == (TrackListView { ids: id_texts(ids@), metadata: Map::empty() }),
    {
        let list = TrackList { ids, metadata_cache: TextMap::new() };
        assert(metadata_views(list.metadata_cache@) =~= Map::<Seq<char>, MetadataView>::empty());
        list
    }

    /// The identifiers of the tracks, in their order.
    pub fn ids(&self) -> (ids: &Vec<TrackID>)
        ensures
            id_texts(ids@) == self@.ids,
    {
        &self.ids
    }

    /// The number of tracks.
    pub fn len(&self) -> (count: usize)
        ensures
            count == self@.ids.len(),
    {
        self.ids.len()
    }

    /// The identifier of the track at place `index`.
    pub fn get(&self, index: usize) -> (id: Option<&TrackID>)
        ensures
            match id {
                Some(found) => index < self@.ids.len() && found@ == self@.ids[index as int],
                None => index >= self@.ids.len(),
            },
    {
        if index < self.ids.len() {
            Some(&self.ids[index])
        } else {
            None
        }
    }

    /// The metadata that is known of the track `id`.
    pub fn metadata_of(&self, id: &TrackID) -> (metadata: Option<&Metadata>)
        ensures
            match metadata {
                Some(found) => self@.metadata.contains_key(id@) && found@ == self@.metadata[id@],
                None => !self@.metadata.contains_key(id@),
            },
    {
        self.metadata_cache.get(id.as_str())
    }

    /// The place where `id` first occurs.
    fn index_of_id(&self, id: &TrackID) -> (found: Option<usize>)
        ensures
            match found {
                Some(at) => first_index(self@.ids, id@) == Some(at as int) && at < self.ids@.len(),
                None => first_index(self@.ids, id@) is None,
            },
    {
        let mut at: usize = 0;
        while at < self.ids.len()
            invariant
                at <= self.ids@.len(),
                forall|before: int| 0 <= before < at ==> id_texts(self.ids@)[before] != id@,
            decreases self.ids@.len() - at,
        {
            if self.ids[at] == *id {
                proof {
                    lemma_first_index(self@.ids, id@, at as int);
                }
                return Some(at);
            }
            at += 1;
        }
        proof {
            lemma_no_first_index(self@.ids, id@);
        }
        None
    }

    /// Puts `ids` in the place of the tracks, and forgets all metadata.
    pub fn replace(&mut self, ids: Vec<TrackID>)
        ensures
            final(self)@ == old(self)@.replaced(id_texts(ids@)),
    {
        *self = TrackList::new(ids);
    }

    /// Inserts the track of `metadata` behind the track `after`, or at the
    /// front where `after` stands for "no track" or is not in the list, and
    /// keeps the metadata. Metadata without a track identifier is dropped.
    pub fn insert(&mut self, after: &TrackID, metadata: Metadata)
        ensures
            final(self)@ == old(self)@.inserted(after@, metadata@),
    {
        let new_id = match &metadata.track_id {
            Some(id) => id.clone(),
            None => {
                return ;
            },
        };
        let place = if after.is_no_track() {
            0
        } else {
            match self.index_of_id(after) {
                Some(at) => {
                    assert(at < self.ids.len());
                    at + 1
                },
                None => 0,
            }
        };
        let key: String = String::from(new_id.clone());
        self.ids.insert(place, new_id);
        self.metadata_cache.insert(key, metadata);
        proof {
            assert(id_texts(self.ids@) =~= id_texts(old(self).ids@).insert(place as int, new_id@));
            assert(metadata_views(self.metadata_cache@) =~= metadata_views(
                old(self).metadata_cache@,
            ).insert(new_id@, metadata@));
        }
    }

    /// Takes the first occurrence of `id` out of the list and forgets the
    /// metadata of `id`. A track that is not in the list is none to take out.
    pub fn remove(&mut self, id: &TrackID)
        ensures
            final(self)@ == old(self)@.removed(id@),
    {
        match self.index_of_id(id) {
            Some(at) => {
                self.ids.remove(at);
                proof {
                    assert(id_texts(self.ids@) =~= id_texts(old(self).ids@).remove(at as int));
                }
            },
            None => {},
        }
        self.metadata_cache.remove(id.as_str());
        proof {
            assert(metadata_views(self.metadata_cache@) =~= metadata_views(
                old(self).metadata_cache@,
            ).remove(id@));
        }
    }

    /// Puts `new_metadata` in the place of the metadata of the track
    /// `old_id`, and the identifier that it holds in the place of `old_id`.
    /// Hands back the identifier that the track has from now on, which may
    /// be `old_id`; `None` where `old_id` is not in the list, and nothing changes.
    pub fn replace_track_metadata(&mut self, old_id: &TrackID, new_metadata: Metadata) -> (new_id:
        Option<TrackID>)
        ensures
            final(self)@ == old(self)@.with_track_metadata(old_id@, new_metadata@),
            match first_index(old(self)@.ids, old_id@) {
                Some(_) => new_id is Some && new_id->0@ == TrackListView::renamed(
                    old_id@,
                    new_metadata@,
                ),
                None => new_id is None,
            },
    {
        match self.index_of_id(old_id) {
            None => None,
            Some(at) => {
                let new_id = match &new_metadata.track_id {
                    Some(id) => id.clone(),
                    None => old_id.clone(),
                };
                self.ids.set(at, new_id.clone());
                self.metadata_cache.remove(old_id.as_str());
                self.metadata_cache.insert(String::from(new_id.clone()), new_metadata);
                proof {
                    assert(id_texts(self.ids@) =~= id_texts(old(self).ids@).update(
                        at as int,
                        new_id@,
                    ));
                    assert(metadata_views(self.metadata_cache@) =~= metadata_views(
                        old(self).metadata_cache@,
                    ).remove(old_id@).insert(new_id@, new_metadata@));
                }
                Some(new_id)
            },
        }
    }
}

} // verus!
