//! Producer-side session bookkeeping: registered sources and tracks, and the
//! replayable event log consumers catch up from.

use vstd::prelude::*;

use crate::error::{CaptureTransferError, Result};
use crate::model::{group_id_views, SourceDesc, SourceId, TrackDesc, TrackId};

verus! {

broadcast use group_id_views;

#[derive(Debug, PartialEq, Eq)]
pub struct SourceRegistration {
    pub source_id: SourceId,
    pub desc: SourceDesc,
}

impl Clone for SourceRegistration {
    fn clone(&self) -> (copy: Self)
        ensures
            copy == *self,
    {
        SourceRegistration { source_id: self.source_id, desc: self.desc.clone() }
    }
}

#[derive(Debug, Clone, Copy, PartialEq, Eq)]
pub struct TrackRegistration {
    pub track_id: TrackId,
    pub source_id: SourceId,
    pub desc: TrackDesc,
}

#[derive(Debug, Clone, Copy, PartialEq, Eq, Structural)]
pub enum EventKind {
    ProducerStarted,
    SourceRegistered,
    SourceUpdated,
    TrackRegistered,
    TrackUpdated,
    SourceUnregistered,
    ProducerStopped,
}

/// One entry of the session's event log.
#[derive(Debug, PartialEq, Eq)]
pub struct Event {
    kind: EventKind,
    source_id: Option<SourceId>,
    track_id: Option<TrackId>,
    source_desc: Option<SourceDesc>,
    track_desc: Option<TrackDesc>,
}

impl Clone for Event {
    fn clone(&self) -> (copy: Self)
        ensures
            copy == *self,
    {
        let source_desc = match &self.source_desc {
            Some(desc) => Some(desc.clone()),
            None => None,
        };
        Event {
            kind: self.kind,
            source_id: self.source_id,
            track_id: self.track_id,
            source_desc,
            track_desc: self.track_desc,
        }
    }
}

impl Event {
    pub closed spec fn kind_view(&self) -> EventKind {
        self.kind
    }

    pub closed spec fn source_id_view(&self) -> Option<SourceId> {
        self.source_id
    }

    pub closed spec fn track_id_view(&self) -> Option<TrackId> {
        self.track_id
    }

    pub closed spec fn source_desc_view(&self) -> Option<SourceDesc> {
        self.source_desc
    }

    pub closed spec fn track_desc_view(&self) -> Option<TrackDesc> {
        self.track_desc
    }

    /// The event with the given parts.
    pub closed spec fn spec_make(
        kind: EventKind,
        source_id: Option<SourceId>,
        track_id: Option<TrackId>,
        source_desc: Option<SourceDesc>,
        track_desc: Option<TrackDesc>,
    ) -> Event {
        Event { kind, source_id, track_id, source_desc, track_desc }
    }

    /// An event's parts are the ones it was made from.
    pub broadcast proof fn lemma_make_parts(
        kind: EventKind,
        source_id: Option<SourceId>,
        track_id: Option<TrackId>,
        source_desc: Option<SourceDesc>,
        track_desc: Option<TrackDesc>,
    )
        ensures
            #![trigger Event::spec_make(kind, source_id, track_id, source_desc, track_desc)]
            Event::spec_make(kind, source_id, track_id, source_desc, track_desc).kind_view() == kind,
            Event::spec_make(kind, source_id, track_id, source_desc, track_desc).source_id_view() == source_id,
            Event::spec_make(kind, source_id, track_id, source_desc, track_desc).track_id_view() == track_id,
            Event::spec_make(kind, source_id, track_id, source_desc, track_desc).source_desc_view() == source_desc,
            Event::spec_make(kind, source_id, track_id, source_desc, track_desc).track_desc_view() == track_desc,
    {
    }

    pub fn source_registered(source_id: SourceId, desc: SourceDesc) -> (event: Self)
        ensures
            event == Event::spec_make(EventKind::SourceRegistered, Some(source_id), None, Some(desc), None),
    {
        Event {
            kind: EventKind::SourceRegistered,
            source_id: Some(source_id),
            track_id: None,
            source_desc: Some(desc),
            track_desc: None,
        }
    }

    pub fn source_updated(source_id: SourceId, desc: SourceDesc) -> (event: Self)
        ensures
            event == Event::spec_make(EventKind::SourceUpdated, Some(source_id), None, Some(desc), None),
    {
        Event {
            kind: EventKind::SourceUpdated,
            source_id: Some(source_id),
            track_id: None,
            source_desc: Some(desc),
            track_desc: None,
        }
    }

    pub fn source_unregistered(source_id: SourceId) -> (event: Self)
        ensures
            event == Event::spec_make(EventKind::SourceUnregistered, Some(source_id), None, None, None),
    {
        Event {
            kind: EventKind::SourceUnregistered,
            source_id: Some(source_id),
            track_id: None,
            source_desc: None,
            track_desc: None,
        }
    }

    pub fn track_registered(track_id: TrackId, source_id: SourceId, desc: TrackDesc) -> (event: Self)
        ensures
            event == Event::spec_make(EventKind::TrackRegistered, Some(source_id), Some(track_id), None, Some(desc)),
    {
        Event {
            kind: EventKind::TrackRegistered,
            source_id: Some(source_id),
            track_id: Some(track_id),
            source_desc: None,
            track_desc: Some(desc),
        }
    }

    pub fn track_updated(track_id: TrackId, source_id: SourceId, desc: TrackDesc) -> (event: Self)
        ensures
            event == Event::spec_make(EventKind::TrackUpdated, Some(source_id), Some(track_id), None, Some(desc)),
    {
        Event {
            kind: EventKind::TrackUpdated,
            source_id: Some(source_id),
            track_id: Some(track_id),
            source_desc: None,
            track_desc: Some(desc),
        }
    }

    pub fn kind(&self) -> (kind: EventKind)
        ensures
            kind == self.kind_view(),
    {
        self.kind
    }

    pub fn source_id(&self) -> (source_id: Option<SourceId>)
        ensures
            source_id == self.source_id_view(),
    {
        self.source_id
    }

    pub fn track_id(&self) -> (track_id: Option<TrackId>)
        ensures
            track_id == self.track_id_view(),
    {
        self.track_id
    }

    pub fn track_desc(&self) -> (desc: Option<TrackDesc>)
        ensures
            desc == self.track_desc_view(),
    {
        self.track_desc
    }
}

/// Sources and tracks of one producer session, plus the events that built them.
pub struct SessionState {
    next_source_id: u64,
    next_track_id: u64,
    sources: Vec<SourceRegistration>,
    tracks: Vec<TrackRegistration>,
    events: Vec<Event>,
    source_map: Ghost<Map<u64, SourceDesc>>,
    track_map: Ghost<Map<u64, TrackRegistration>>,
}

impl Default for SessionState {
    /// An empty session whose id counters start at 0.
    fn default() -> (state: Self)
        ensures
            state.wf(),
            state.next_source_id_view() == 0,
            state.next_track_id_view() == 0,
            state.sources_view() == Map::<u64, SourceDesc>::empty(),
            state.tracks_view() == Map::<u64, TrackRegistration>::empty(),
            state.events_view() == Seq::<Event>::empty(),
    {
        SessionState {
            next_source_id: 0,
            next_track_id: 0,
            sources: Vec::new(),
            tracks: Vec::new(),
            events: Vec::new(),
            source_map: Ghost(Map::empty()),
            track_map: Ghost(Map::empty()),
        }
    }
}

impl SessionState {
    pub closed spec fn next_source_id_view(&self) -> u64 {
        self.next_source_id
    }

    pub closed spec fn next_track_id_view(&self) -> u64 {
        self.next_track_id
    }

    /// Registered sources by id.
    pub closed spec fn sources_view(&self) -> Map<u64, SourceDesc> {
        self.source_map@
    }

    /// Registered tracks by id.
    pub closed spec fn tracks_view(&self) -> Map<u64, TrackRegistration> {
        self.track_map@
    }

    /// The event log, oldest first.
    pub closed spec fn events_view(&self) -> Seq<Event> {
        self.events@
    }

    /// Internal consistency: the vectors hold exactly the mapped entries,
    /// each id once, every id below its counter, and every track's source
    /// is registered.
    pub closed spec fn wf(&self) -> bool {
        &&& forall|i: int|
            0 <= i < self.sources@.len() ==> {
                &&& #[trigger] self.source_map@.contains_key(self.sources@[i].source_id@)
                &&& self.source_map@[self.sources@[i].source_id@] == self.sources@[i].desc
                &&& self.sources@[i].source_id@ < self.next_source_id
            }
        &&& forall|id: u64|
            #[trigger] self.source_map@.contains_key(id) ==> exists|i: int|
                0 <= i < self.sources@.len() && self.sources@[i].source_id@ == id
        &&& forall|i: int, j: int|
            0 <= i < j < self.sources@.len() ==> self.sources@[i].source_id@ != self.sources@[j].source_id@
        &&& forall|i: int|
            0 <= i < self.tracks@.len() ==> {
                &&& #[trigger] self.track_map@.contains_key(self.tracks@[i].track_id@)
                &&& self.track_map@[self.tracks@[i].track_id@] == self.tracks@[i]
                &&& self.tracks@[i].track_id@ < self.next_track_id
            }
        &&& forall|id: u64|
            #[trigger] self.track_map@.contains_key(id) ==> exists|i: int|
                0 <= i < self.tracks@.len() && self.tracks@[i].track_id@ == id
        &&& forall|i: int, j: int|
            0 <= i < j < self.tracks@.len() ==> self.tracks@[i].track_id@ != self.tracks@[j].track_id@
        &&& forall|i: int|
            0 <= i < self.tracks@.len() ==> self.source_map@.contains_key(
                #[trigger] self.tracks@[i].source_id@,
            )
    }

    /// A session with no sources or tracks whose first ids are 1.
    pub fn new() -> (state: Self)
        ensures
            state.wf(),
            state.next_source_id_view() == 1,
            state.next_track_id_view() == 1,
            state.sources_view() == Map::<u64, SourceDesc>::empty(),
            state.tracks_view() == Map::<u64, TrackRegistration>::empty(),
            state.events_view() == Seq::<Event>::empty(),
    {
        SessionState {
            next_source_id: 1,
            next_track_id: 1,
            sources: Vec::new(),
            tracks: Vec::new(),
            events: Vec::new(),
            source_map: Ghost(Map::empty()),
            track_map: Ghost(Map::empty()),
        }
    }

    /// Whether another source can be registered before the id space ends.
    pub fn source_ids_left(&self) -> (left: bool)
        ensures
            left == (self.next_source_id_view() < u64::MAX),
    {
        self.next_source_id < u64::MAX
    }

    /// Whether another track can be registered before the id space ends.
    pub fn track_ids_left(&self) -> (left: bool)
        ensures
            left == (self.next_track_id_view() < u64::MAX),
    {
        self.next_track_id < u64::MAX
    }

    fn find_source(&self, source_id: SourceId) -> (index: Option<usize>)
        requires
            self.wf(),
        ensures
            match index {
                Some(i) => {
                    &&& i < self.sources@.len()
                    &&& self.sources@[i as int].source_id == source_id
                    &&& self.sources_view().contains_key(source_id@)
                },
                None => !self.sources_view().contains_key(source_id@),
            },
    {
        let mut index: usize = 0;
        while index < self.sources.len()
            invariant
                self.wf(),
                index <= self.sources@.len(),
                forall|j: int| 0 <= j < index ==> self.sources@[j].source_id@ != source_id@,
            decreases self.sources@.len() - index,
        {
            if self.sources[index].source_id == source_id {
                assert(self.source_map@.contains_key(self.sources@[index as int].source_id@));
                return Some(index);
            }
            index = index + 1;
        }
        None
    }

    fn find_track(&self, track_id: TrackId) -> (index: Option<usize>)
        requires
            self.wf(),
        ensures
            match index {
                Some(i) => {
                    &&& i < self.tracks@.len()
                    &&& self.tracks@[i as int] == self.tracks_view()[track_id@]
                    &&& self.tracks@[i as int].track_id == track_id
                    &&& self.tracks_view().contains_key(track_id@)
                },
                None => !self.tracks_view().contains_key(track_id@),
            },
    {
        let mut index: usize = 0;
        while index < self.tracks.len()
            invariant
                self.wf(),
                index <= self.tracks@.len(),
                forall|j: int| 0 <= j < index ==> self.tracks@[j].track_id@ != track_id@,
            decreases self.tracks@.len() - index,
        {
            if self.tracks[index].track_id == track_id {
                assert(self.track_map@.contains_key(self.tracks@[index as int].track_id@));
                return Some(index);
            }
            index = index + 1;
        }
        None
    }

    /// The registration of `source_id`.
    pub fn source(&self, source_id: SourceId) -> (registration: Result<&SourceRegistration>)
        requires
            self.wf(),
        ensures
            match registration {
                Ok(found) => {
                    &&& self.sources_view().contains_key(source_id@)
                    &&& found.source_id == source_id
                    &&& found.desc == self.sources_view()[source_id@]
                },
                Err(error) => {
                    &&& !self.sources_view().contains_key(source_id@)
                    &&& error == CaptureTransferError::UnknownSource { source_id }
                },
            },
    {
        match self.find_source(source_id) {
            Some(index) => Ok(&self.sources[index]),
            None => Err(CaptureTransferError::UnknownSource { source_id }),
        }
    }

    /// The registration of `track_id`.
    pub fn track(&self, track_id: TrackId) -> (registration: Result<&TrackRegistration>)
        requires
            self.wf(),
        ensures
            match registration {
                Ok(found) => {
                    &&& self.tracks_view().contains_key(track_id@)
                    &&& *found == self.tracks_view()[track_id@]
                },
                Err(error) => {
                    &&& !self.tracks_view().contains_key(track_id@)
                    &&& error == CaptureTransferError::UnknownTrack { track_id }
                },
            },
    {
        match self.find_track(track_id) {
            Some(index) => Ok(&self.tracks[index]),
            None => Err(CaptureTransferError::UnknownTrack { track_id }),
        }
    }

    /// Law: every id in use lies below its counter, so the next source and
    /// track ids are free and a registration never replaces an earlier one.
    pub proof fn law_next_ids_are_fresh(&self)
        requires
            self.wf(),
        ensures
            forall|id: u64| #[trigger] self.sources_view().contains_key(id) ==> id < self.next_source_id_view(),
            forall|id: u64| #[trigger] self.tracks_view().contains_key(id) ==> id < self.next_track_id_view(),
            !self.sources_view().contains_key(self.next_source_id_view()),
            !self.tracks_view().contains_key(self.next_track_id_view()),
    {
        assert forall|id: u64| #[trigger] self.sources_view().contains_key(id) implies id < self.next_source_id_view() by {
            let i = choose|i: int| 0 <= i < self.sources@.len() && self.sources@[i].source_id@ == id;
            assert(self.source_map@.contains_key(self.sources@[i].source_id@));
        }
        assert forall|id: u64| #[trigger] self.tracks_view().contains_key(id) implies id < self.next_track_id_view() by {
            let i = choose|i: int| 0 <= i < self.tracks@.len() && self.tracks@[i].track_id@ == id;
            assert(self.track_map@.contains_key(self.tracks@[i].track_id@));
        }
    }

    /// Every registered track belongs to a registered source.
    pub proof fn lemma_tracks_have_sources(&self)
        requires
            self.wf(),
        ensures
            forall|track_id: u64|
                #[trigger] self.tracks_view().contains_key(track_id) ==> self.sources_view().contains_key(
                    self.tracks_view()[track_id].source_id@,
                ),
    {
        assert forall|track_id: u64| #[trigger] self.tracks_view().contains_key(track_id) implies self.sources_view().contains_key(
            self.tracks_view()[track_id].source_id@,
        ) by {
            let i = choose|i: int| 0 <= i < self.tracks@.len() && self.tracks@[i].track_id@ == track_id;
            assert(self.track_map@.contains_key(self.tracks@[i].track_id@));
            assert(self.source_map@.contains_key(self.tracks@[i].source_id@));
        }
    }

    /// Register a source under the next source id and log it.
    pub fn register_source(&mut self, desc: SourceDesc) -> (source_id: Result<SourceId>)
        requires
            old(self).wf(),
            old(self).next_source_id_view() < u64::MAX,
        ensures
            final(self).wf(),
            spec_session_step(*old(self), *final(self)),
            match source_id {
                Ok(id) => {
                    &&& id@ == old(self).next_source_id_view()
                    &&& final(self).next_source_id_view() == old(self).next_source_id_view() + 1
                    &&& final(self).next_track_id_view() == old(self).next_track_id_view()
                    &&& final(self).sources_view() == old(self).sources_view().insert(id@, desc)
                    &&& final(self).tracks_view() == old(self).tracks_view()
                    &&& final(self).events_view() == old(self).events_view().push(
                        Event::spec_make(EventKind::SourceRegistered, Some(id), None, Some(desc), None),
                    )
                },
                Err(_) => false,
            },
    {
        let source_id = SourceId::new(self.next_source_id);
        self.next_source_id = self.next_source_id + 1;
        proof {
            assert(!self.source_map@.contains_key(source_id@));
            self.source_map@ = self.source_map@.insert(source_id@, desc);
        }
        self.sources.push(SourceRegistration { source_id, desc: desc.clone() });
        self.events.push(Event::source_registered(source_id, desc));
        proof {
            assert forall|id: u64| #[trigger] self.source_map@.contains_key(id) implies exists|i: int|
                0 <= i < self.sources@.len() && self.sources@[i].source_id@ == id by {
                if id != source_id@ {
                    let i = choose|i: int| 0 <= i < old(self).sources@.len() && old(self).sources@[i].source_id@ == id;
                    assert(self.sources@[i].source_id@ == id);
                } else {
                    assert(self.sources@[self.sources@.len() - 1].source_id@ == id);
                }
            }
        }
        Ok(source_id)
    }
}


/// The tracks left after removing every track of `source_id`.
pub open spec fn spec_tracks_without_source(tracks: Map<u64, TrackRegistration>, source_id: SourceId) -> Map<u64, TrackRegistration> {
    Map::new(|id: u64| tracks.contains_key(id) && tracks[id].source_id != source_id, |id: u64| tracks[id])
}

impl SessionState {
    /// Replace the description of a registered source and log the change.
    pub fn update_source(&mut self, source_id: SourceId, desc: SourceDesc) -> (updated: Result<()>)
        requires
            old(self).wf(),
        ensures
            final(self).wf(),
            spec_session_step(*old(self), *final(self)),
            final(self).next_source_id_view() == old(self).next_source_id_view(),
            final(self).next_track_id_view() == old(self).next_track_id_view(),
            final(self).tracks_view() == old(self).tracks_view(),
            match updated {
                Ok(()) => {
                    &&& old(self).sources_view().contains_key(source_id@)
                    &&& final(self).sources_view() == old(self).sources_view().insert(source_id@, desc)
                    &&& final(self).events_view() == old(self).events_view().push(
                        Event::spec_make(EventKind::SourceUpdated, Some(source_id), None, Some(desc), None),
                    )
                },
                Err(error) => {
                    &&& !old(self).sources_view().contains_key(source_id@)
                    &&& error == CaptureTransferError::UnknownSource { source_id }
                    &&& final(self).sources_view() == old(self).sources_view()
                    &&& final(self).events_view() == old(self).events_view()
                },
            },
    {
        let index = match self.find_source(source_id) {
            Some(index) => index,
            None => return Err(CaptureTransferError::UnknownSource { source_id }),
        };
        let ghost old_sources = self.sources@;
        proof {
            self.source_map@ = self.source_map@.insert(source_id@, desc);
        }
        self.sources.set(index, SourceRegistration { source_id, desc: desc.clone() });
        self.events.push(Event::source_updated(source_id, desc));
        proof {
            assert forall|id: u64| #[trigger] self.source_map@.contains_key(id) implies exists|i: int|
                0 <= i < self.sources@.len() && self.sources@[i].source_id@ == id by {
                let i = choose|i: int| 0 <= i < old_sources.len() && old_sources[i].source_id@ == id;
                assert(self.sources@[i].source_id@ == id);
            }
            assert forall|i: int| 0 <= i < self.tracks@.len() implies self.source_map@.contains_key(
                #[trigger] self.tracks@[i].source_id@,
            ) by {
                assert(old(self).source_map@.contains_key(self.tracks@[i].source_id@));
            }
        }
        Ok(())
    }

    /// Remove a registered source together with every track it owns, and
    /// log the removal.
    pub fn unregister_source(&mut self, source_id: SourceId) -> (removed: Result<()>)
        requires
            old(self).wf(),
        ensures
            final(self).wf(),
            spec_session_step(*old(self), *final(self)),
            final(self).next_source_id_view() == old(self).next_source_id_view(),
            final(self).next_track_id_view() == old(self).next_track_id_view(),
            match removed {
                Ok(()) => {
                    &&& old(self).sources_view().contains_key(source_id@)
                    &&& final(self).sources_view() == old(self).sources_view().remove(source_id@)
                    &&& final(self).tracks_view() == spec_tracks_without_source(old(self).tracks_view(), source_id)
                    &&& final(self).events_view() == old(self).events_view().push(
                        Event::spec_make(EventKind::SourceUnregistered, Some(source_id), None, None, None),
                    )
                },
                Err(error) => {
                    &&& !old(self).sources_view().contains_key(source_id@)
                    &&& error == CaptureTransferError::UnknownSource { source_id }
                    &&& final(self).sources_view() == old(self).sources_view()
                    &&& final(self).tracks_view() == old(self).tracks_view()
                    &&& final(self).events_view() == old(self).events_view()
                },
            },
    {
        let index = match self.find_source(source_id) {
            Some(index) => index,
            None => return Err(CaptureTransferError::UnknownSource { source_id }),
        };
        let ghost old_sources = self.sources@;
        let ghost old_tracks = self.tracks@;
        self.sources.remove(index);
        let mut kept: Vec<TrackRegistration> = Vec::new();
        let ghost mut origin: Seq<int> = Seq::empty();
        let mut position: usize = 0;
        while position < self.tracks.len()
            invariant
                self.tracks@ == old_tracks,
                position <= old_tracks.len(),
                kept@.len() == origin.len(),
                forall|k: int|
                    0 <= k < origin.len() ==> {
                        &&& 0 <= #[trigger] origin[k] < position
                        &&& kept@[k] == old_tracks[origin[k]]
                        &&& old_tracks[origin[k]].source_id != source_id
                    },
                forall|k1: int, k2: int| 0 <= k1 < k2 < origin.len() ==> origin[k1] < origin[k2],
                forall|j: int|
                    0 <= j < position && (#[trigger] old_tracks[j]).source_id != source_id ==> exists|k: int|
                        0 <= k < origin.len() && origin[k] == j,
            decreases old_tracks.len() - position,
        {
            let track = self.tracks[position];
            let ghost prev_origin = origin;
            if track.source_id != source_id {
                kept.push(track);
                proof {
                    origin = origin.push(position as int);
                    assert(origin[origin.len() - 1] == position as int);
                }
            }
            proof {
                assert forall|j: int|
                    0 <= j < position + 1 && (#[trigger] old_tracks[j]).source_id != source_id implies exists|k: int|
                        0 <= k < origin.len() && origin[k] == j by {
                    if j == position as int {
                        assert(origin[origin.len() - 1] == j);
                    } else {
                        assert(old_tracks[j].source_id != source_id);
                        let k = choose|k: int| 0 <= k < prev_origin.len() && prev_origin[k] == j;
                        assert(origin[k] == prev_origin[k]);
                    }
                }
            }
            position = position + 1;
        }
        self.tracks = kept;
        self.events.push(Event::source_unregistered(source_id));
        proof {
            let new_tracks = spec_tracks_without_source(self.track_map@, source_id);
            self.source_map@ = self.source_map@.remove(source_id@);
            self.track_map@ = new_tracks;
            assert forall|i: int| 0 <= i < self.sources@.len() implies {
                &&& #[trigger] self.source_map@.contains_key(self.sources@[i].source_id@)
                &&& self.source_map@[self.sources@[i].source_id@] == self.sources@[i].desc
                &&& self.sources@[i].source_id@ < self.next_source_id
            } by {
                let j = if i < index { i } else { i + 1 };
                assert(self.sources@[i] == old_sources[j]);
                assert(old(self).source_map@.contains_key(old_sources[j].source_id@));
            }
            assert forall|id: u64| #[trigger] self.source_map@.contains_key(id) implies exists|i: int|
                0 <= i < self.sources@.len() && self.sources@[i].source_id@ == id by {
                let j = choose|j: int| 0 <= j < old_sources.len() && old_sources[j].source_id@ == id;
                if j < index {
                    assert(self.sources@[j].source_id@ == id);
                } else {
                    assert(j != index);
                    assert(self.sources@[j - 1].source_id@ == id);
                }
            }
            assert forall|i: int, j: int| 0 <= i < j < self.sources@.len() implies self.sources@[i].source_id@
                != self.sources@[j].source_id@ by {
                let oi = if i < index { i } else { i + 1 };
                let oj = if j < index { j } else { j + 1 };
                assert(self.sources@[i] == old_sources[oi]);
                assert(self.sources@[j] == old_sources[oj]);
            }
            assert forall|k: int| 0 <= k < self.tracks@.len() implies {
                &&& #[trigger] self.track_map@.contains_key(self.tracks@[k].track_id@)
                &&& self.track_map@[self.tracks@[k].track_id@] == self.tracks@[k]
                &&& self.tracks@[k].track_id@ < self.next_track_id
            } by {
                let j = origin[k];
                assert(old(self).track_map@.contains_key(old_tracks[j].track_id@));
            }
            assert forall|id: u64| #[trigger] self.track_map@.contains_key(id) implies exists|k: int|
                0 <= k < self.tracks@.len() && self.tracks@[k].track_id@ == id by {
                let j = choose|j: int| 0 <= j < old_tracks.len() && old_tracks[j].track_id@ == id;
                assert(old(self).track_map@.contains_key(old_tracks[j].track_id@));
                assert(old_tracks[j].source_id != source_id);
                let k = choose|k: int| 0 <= k < origin.len() && origin[k] == j;
                assert(self.tracks@[k].track_id@ == id);
            }
            assert forall|k1: int, k2: int| 0 <= k1 < k2 < self.tracks@.len() implies self.tracks@[k1].track_id@
                != self.tracks@[k2].track_id@ by {
                assert(origin[k1] < origin[k2]);
                assert(self.tracks@[k1] == old_tracks[origin[k1]]);
                assert(self.tracks@[k2] == old_tracks[origin[k2]]);
            }
            assert forall|k: int| 0 <= k < self.tracks@.len() implies self.source_map@.contains_key(
                #[trigger] self.tracks@[k].source_id@,
            ) by {
                let j = origin[k];
                assert(old(self).source_map@.contains_key(old_tracks[j].source_id@));
            }
        }
        Ok(())
    }

    /// Register a track of a registered source under the next track id and log it.
    pub fn register_track(&mut self, source_id: SourceId, desc: TrackDesc) -> (track_id: Result<TrackId>)
        requires
            old(self).wf(),
            old(self).next_track_id_view() < u64::MAX,
        ensures
            final(self).wf(),
            spec_session_step(*old(self), *final(self)),
            final(self).next_source_id_view() == old(self).next_source_id_view(),
            final(self).sources_view() == old(self).sources_view(),
            match track_id {
                Ok(id) => {
                    &&& old(self).sources_view().contains_key(source_id@)
                    &&& id@ == old(self).next_track_id_view()
                    &&& final(self).next_track_id_view() == old(self).next_track_id_view() + 1
                    &&& final(self).tracks_view() == old(self).tracks_view().insert(
                        id@,
                        TrackRegistration { track_id: id, source_id, desc },
                    )
                    &&& final(self).events_view() == old(self).events_view().push(
                        Event::spec_make(EventKind::TrackRegistered, Some(source_id), Some(id), None, Some(desc)),
                    )
                },
                Err(error) => {
                    &&& !old(self).sources_view().contains_key(source_id@)
                    &&& error == CaptureTransferError::UnknownSource { source_id }
                    &&& final(self).next_track_id_view() == old(self).next_track_id_view()
                    &&& final(self).tracks_view() == old(self).tracks_view()
                    &&& final(self).events_view() == old(self).events_view()
                },
            },
    {
        match self.source(source_id) {
            Ok(_) => {},
            Err(error) => return Err(error),
        }
        let track_id = TrackId::new(self.next_track_id);
        self.next_track_id = self.next_track_id + 1;
        let registration = TrackRegistration { track_id, source_id, desc };
        proof {
            assert(!self.track_map@.contains_key(track_id@));
            self.track_map@ = self.track_map@.insert(track_id@, registration);
        }
        self.tracks.push(registration);
        self.events.push(Event::track_registered(track_id, source_id, desc));
        proof {
            assert forall|id: u64| #[trigger] self.track_map@.contains_key(id) implies exists|i: int|
                0 <= i < self.tracks@.len() && self.tracks@[i].track_id@ == id by {
                if id != track_id@ {
                    let i = choose|i: int| 0 <= i < old(self).tracks@.len() && old(self).tracks@[i].track_id@ == id;
                    assert(self.tracks@[i].track_id@ == id);
                } else {
                    assert(self.tracks@[self.tracks@.len() - 1].track_id@ == id);
                }
            }
        }
        Ok(track_id)
    }

    /// Replace the description of a registered track and log the change.
    pub fn update_track(&mut self, track_id: TrackId, desc: TrackDesc) -> (updated: Result<()>)
        requires
            old(self).wf(),
        ensures
            final(self).wf(),
            spec_session_step(*old(self), *final(self)),
            final(self).next_source_id_view() == old(self).next_source_id_view(),
            final(self).next_track_id_view() == old(self).next_track_id_view(),
            final(self).sources_view() == old(self).sources_view(),
            match updated {
                Ok(()) => {
                    let registration = old(self).tracks_view()[track_id@];
                    &&& old(self).tracks_view().contains_key(track_id@)
                    &&& final(self).tracks_view() == old(self).tracks_view().insert(
                        track_id@,
                        TrackRegistration { desc, ..registration },
                    )
                    &&& final(self).events_view() == old(self).events_view().push(
                        Event::spec_make(
                            EventKind::TrackUpdated,
                            Some(registration.source_id),
                            Some(track_id),
                            None,
                            Some(desc),
                        ),
                    )
                },
                Err(error) => {
                    &&& !old(self).tracks_view().contains_key(track_id@)
                    &&& error == CaptureTransferError::UnknownTrack { track_id }
                    &&& final(self).tracks_view() == old(self).tracks_view()
                    &&& final(self).events_view() == old(self).events_view()
                },
            },
    {
        let index = match self.find_track(track_id) {
            Some(index) => index,
            None => return Err(CaptureTransferError::UnknownTrack { track_id }),
        };
        let ghost old_tracks = self.tracks@;
        let registration = self.tracks[index];
        let updated = TrackRegistration { desc, ..registration };
        proof {
            self.track_map@ = self.track_map@.insert(track_id@, updated);
        }
        self.tracks.set(index, updated);
        self.events.push(Event::track_updated(track_id, registration.source_id, desc));
        proof {
            assert forall|i: int| 0 <= i < self.tracks@.len() implies {
                &&& #[trigger] self.track_map@.contains_key(self.tracks@[i].track_id@)
                &&& self.track_map@[self.tracks@[i].track_id@] == self.tracks@[i]
                &&& self.tracks@[i].track_id@ < self.next_track_id
            } by {
                if i != index {
                    assert(old(self).track_map@.contains_key(old_tracks[i].track_id@));
                    assert(old_tracks[i].track_id@ != old_tracks[index as int].track_id@);
                }
            }
            assert forall|id: u64| #[trigger] self.track_map@.contains_key(id) implies exists|i: int|
                0 <= i < self.tracks@.len() && self.tracks@[i].track_id@ == id by {
                let i = choose|i: int| 0 <= i < old_tracks.len() && old_tracks[i].track_id@ == id;
                assert(self.tracks@[i].track_id@ == id);
            }
            assert forall|i: int| 0 <= i < self.tracks@.len() implies self.source_map@.contains_key(
                #[trigger] self.tracks@[i].source_id@,
            ) by {
                assert(self.tracks@[i].source_id == old_tracks[i].source_id);
            }
        }
        Ok(())
    }

    /// The event log, oldest first.
    pub fn replay_events(&self) -> (events: Vec<Event>)
        ensures
            events@ == self.events_view(),
    {
        let mut events: Vec<Event> = Vec::new();
        let mut index: usize = 0;
        while index < self.events.len()
            invariant
                index <= self.events@.len(),
                events@ == self.events@.subrange(0, index as int),
            decreases self.events@.len() - index,
        {
            events.push(self.events[index].clone());
            index = index + 1;
        }
        events
    }
}

/// The source table after `event` is applied to `sources`: a source
/// registration or update records the event's description under its id,
/// an unregistration removes the id, and track events leave it alone.
pub open spec fn spec_apply_source_event(sources: Map<u64, SourceDesc>, event: Event) -> Map<u64, SourceDesc> {
    match event.kind_view() {
        EventKind::SourceRegistered | EventKind::SourceUpdated => sources.insert(
            event.source_id_view().unwrap()@,
            event.source_desc_view().unwrap(),
        ),
        EventKind::SourceUnregistered => sources.remove(event.source_id_view().unwrap()@),
        _ => sources,
    }
}

/// The source table an event log describes, applying its events in order
/// to an empty table.
pub open spec fn spec_sources_from_log(events: Seq<Event>) -> Map<u64, SourceDesc>
    decreases events.len(),
{
    if events.len() == 0 {
        Map::empty()
    } else {
        spec_apply_source_event(spec_sources_from_log(events.drop_last()), events.last())
    }
}

/// How one operation moves a session: it leaves the log, the id counters and
/// the source table alone, or it appends one event; the track-id counter
/// advances exactly when that event registers a track, the source-id
/// counter exactly when it registers a source, and the source table takes
/// the event in.
pub open spec fn spec_session_step(before: SessionState, after: SessionState) -> bool {
    ||| {
        &&& after.events_view() == before.events_view()
        &&& after.next_track_id_view() == before.next_track_id_view()
        &&& after.next_source_id_view() == before.next_source_id_view()
        &&& after.sources_view() == before.sources_view()
    }
    ||| exists|event: Event|
        {
            &&& #[trigger] before.events_view().push(event) == after.events_view()
            &&& after.next_track_id_view() == (if event.kind_view() == EventKind::TrackRegistered {
                before.next_track_id_view() + 1
            } else {
                before.next_track_id_view() as int
            })
            &&& after.next_source_id_view() == (if event.kind_view() == EventKind::SourceRegistered {
                before.next_source_id_view() + 1
            } else {
                before.next_source_id_view() as int
            })
            &&& after.sources_view() == spec_apply_source_event(before.sources_view(), event)
        }
}

/// The number of track registrations in an event log.
pub open spec fn spec_track_registrations(events: Seq<Event>) -> nat
    decreases events.len(),
{
    if events.len() == 0 {
        0
    } else {
        spec_track_registrations(events.drop_last()) + if events.last().kind_view() == EventKind::TrackRegistered {
            1nat
        } else {
            0nat
        }
    }
}

/// Law: over any run of session operations the log only grows: what
/// `replay_events` gave at the start is a prefix of what it gives at the end,
/// one event longer per operation that appended.
pub proof fn law_replay_log_grows(states: Seq<SessionState>)
    requires
        states.len() >= 1,
        forall|i: int| 0 <= i < states.len() - 1 ==> #[trigger] spec_session_step(states[i], states[i + 1]),
    ensures
        states[0].events_view().len() <= states.last().events_view().len(),
        states.last().events_view().take(states[0].events_view().len() as int) == states[0].events_view(),
    decreases states.len(),
{
    if states.len() > 1 {
        let shorter = states.drop_last();
        assert forall|i: int| 0 <= i < shorter.len() - 1 implies #[trigger] spec_session_step(shorter[i], shorter[i + 1]) by {
            assert(spec_session_step(states[i], states[i + 1]));
        }
        law_replay_log_grows(shorter);
        let k = states.len() - 2;
        assert(spec_session_step(states[k], states[k + 1]));
        let before = states[k];
        let after = states.last();
        let n = states[0].events_view().len() as int;
        if after.events_view() != before.events_view() {
            let event = choose|event: Event| #[trigger] before.events_view().push(event) == after.events_view();
            assert(after.events_view().take(n) =~= before.events_view().take(n));
        }
    }
}

/// Law: over any run of session operations, the track-id counter moves by
/// exactly the number of tracks registered, so a session made by `new`
/// hands out track id `1 + k` to its registration after `k` earlier ones.
pub proof fn law_track_ids_count_registrations(states: Seq<SessionState>)
    requires
        states.len() >= 1,
        forall|i: int| 0 <= i < states.len() - 1 ==> #[trigger] spec_session_step(states[i], states[i + 1]),
    ensures
        states.last().next_track_id_view() + spec_track_registrations(states[0].events_view())
            == states[0].next_track_id_view() + spec_track_registrations(states.last().events_view()),
    decreases states.len(),
{
    if states.len() > 1 {
        let shorter = states.drop_last();
        assert forall|i: int| 0 <= i < shorter.len() - 1 implies #[trigger] spec_session_step(shorter[i], shorter[i + 1]) by {
            assert(spec_session_step(states[i], states[i + 1]));
        }
        law_track_ids_count_registrations(shorter);
        let k = states.len() - 2;
        assert(spec_session_step(states[k], states[k + 1]));
        let before = states[k];
        let after = states.last();
        if after.events_view() != before.events_view() || after.next_track_id_view() != before.next_track_id_view() {
            let event = choose|event: Event| #[trigger] before.events_view().push(event) == after.events_view()
                && after.next_track_id_view() == (if event.kind_view() == EventKind::TrackRegistered {
                before.next_track_id_view() + 1
            } else {
                before.next_track_id_view() as int
            });
            assert(after.events_view().drop_last() =~= before.events_view());
        }
    }
}

/// The number of source registrations in an event log.
pub open spec fn spec_source_registrations(events: Seq<Event>) -> nat
    decreases events.len(),
{
    if events.len() == 0 {
        0
    } else {
        spec_source_registrations(events.drop_last()) + if events.last().kind_view() == EventKind::SourceRegistered {
            1nat
        } else {
            0nat
        }
    }
}

/// Law: over any run of session operations, the source-id counter moves by
/// exactly the number of sources registered, unregistrations included in the
/// run or not, so a session made by `new` hands out source id `1 + k` to its
/// registration after `k` earlier ones and never reuses an id.
pub proof fn law_source_ids_count_registrations(states: Seq<SessionState>)
    requires
        states.len() >= 1,
        forall|i: int| 0 <= i < states.len() - 1 ==> #[trigger] spec_session_step(states[i], states[i + 1]),
    ensures
        states.last().next_source_id_view() + spec_source_registrations(states[0].events_view())
            == states[0].next_source_id_view() + spec_source_registrations(states.last().events_view()),
    decreases states.len(),
{
    if states.len() > 1 {
        let shorter = states.drop_last();
        assert forall|i: int| 0 <= i < shorter.len() - 1 implies #[trigger] spec_session_step(shorter[i], shorter[i + 1]) by {
            assert(spec_session_step(states[i], states[i + 1]));
        }
        law_source_ids_count_registrations(shorter);
        let k = states.len() - 2;
        assert(spec_session_step(states[k], states[k + 1]));
        let before = states[k];
        let after = states.last();
        if after.events_view() != before.events_view() || after.next_source_id_view() != before.next_source_id_view() {
            let event = choose|event: Event| #[trigger] before.events_view().push(event) == after.events_view()
                && after.next_source_id_view() == (if event.kind_view() == EventKind::SourceRegistered {
                before.next_source_id_view() + 1
            } else {
                before.next_source_id_view() as int
            });
            assert(after.events_view().drop_last() =~= before.events_view());
        }
    }
}

/// Law: over any run of session operations that starts where the source
/// table is what the log describes (as `new` leaves it: both empty), the
/// table stays what the log describes, so looking a source up gives the
/// description its latest registration or update recorded, and an
/// unregistered source is gone.
pub proof fn law_sources_follow_log(states: Seq<SessionState>)
    requires
        states.len() >= 1,
        forall|i: int| 0 <= i < states.len() - 1 ==> #[trigger] spec_session_step(states[i], states[i + 1]),
        states[0].sources_view() == spec_sources_from_log(states[0].events_view()),
    ensures
        states.last().sources_view() == spec_sources_from_log(states.last().events_view()),
    decreases states.len(),
{
    if states.len() > 1 {
        let shorter = states.drop_last();
        assert forall|i: int| 0 <= i < shorter.len() - 1 implies #[trigger] spec_session_step(shorter[i], shorter[i + 1]) by {
            assert(spec_session_step(states[i], states[i + 1]));
        }
        law_sources_follow_log(shorter);
        let k = states.len() - 2;
        assert(spec_session_step(states[k], states[k + 1]));
        let before = states[k];
        let after = states.last();
        if after.events_view() != before.events_view() || after.sources_view() != before.sources_view() {
            let event = choose|event: Event| #[trigger] before.events_view().push(event) == after.events_view()
                && after.sources_view() == spec_apply_source_event(before.sources_view(), event);
            assert(after.events_view().drop_last() =~= before.events_view());
        }
    }
}

/// Law: over any run of operations on a session made by `new`, the next
/// source id is one more than the sources registered so far, the next track
/// id one more than the tracks registered so far, and the source table is
/// what the log describes.
pub proof fn law_fresh_session_ids(states: Seq<SessionState>)
    requires
        states.len() >= 1,
        forall|i: int| 0 <= i < states.len() - 1 ==> #[trigger] spec_session_step(states[i], states[i + 1]),
        states[0].events_view().len() == 0,
        states[0].sources_view() == Map::<u64, SourceDesc>::empty(),
        states[0].next_source_id_view() == 1,
        states[0].next_track_id_view() == 1,
    ensures
        states.last().next_source_id_view() == 1 + spec_source_registrations(states.last().events_view()),
        states.last().next_track_id_view() == 1 + spec_track_registrations(states.last().events_view()),
        states.last().sources_view() == spec_sources_from_log(states.last().events_view()),
{
    law_source_ids_count_registrations(states);
    law_track_ids_count_registrations(states);
    assert(spec_sources_from_log(states[0].events_view()) == Map::<u64, SourceDesc>::empty());
    law_sources_follow_log(states);
}

} // verus!
