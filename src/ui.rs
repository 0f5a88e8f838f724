use vstd::prelude::*;
use crate::desktop::{contains_id, ids_view};
use crate::search::{lower_of, lowercase, matches_folded, matches_lowered};

verus! {

/// A read-only snapshot of a chat room.
pub struct Room {
    pub id: String,
    pub name: String,
    pub avatar_url: Option<String>,
    pub last_message: Option<String>,
    pub unread_count: u32,
}

fn clone_opt(s: &Option<String>) -> (r: Option<String>)
    ensures
        r == *s,
{
    match s {
        Some(t) => Some(t.clone()),
        None => None,
    }
}

impl Clone for Room {
    fn clone(&self) -> (r: Room)
        ensures
            r == *self,
    {
        Room {
            id: self.id.clone(),
            name: self.name.clone(),
            avatar_url: clone_opt(&self.avatar_url),
            last_message: clone_opt(&self.last_message),
            unread_count: self.unread_count,
        }
    }
}

/// The carousel's projection of a room.
pub struct Avatar {
    pub room_id: String,
    pub url: Option<String>,
    pub display_name: String,
    pub has_unread: bool,
}

impl Clone for Avatar {
    fn clone(&self) -> (r: Avatar)
        ensures
            r == *self,
    {
        Avatar {
            room_id: self.room_id.clone(),
            url: clone_opt(&self.url),
            display_name: self.display_name.clone(),
            has_unread: self.has_unread,
        }
    }
}

/// The avatar that stands for `room`.
pub open spec fn avatar_of(room: Room) -> Avatar {
    Avatar {
        room_id: room.id,
        url: room.avatar_url,
        display_name: room.name,
        has_unread: room.unread_count > 0,
    }
}

/// The avatars of a room snapshot, in snapshot order.
pub open spec fn avatars_of(rooms: Seq<Room>) -> Seq<Avatar> {
    rooms.map_values(|r: Room| avatar_of(r))
}

/// Whether avatar `a` belongs to one of the rooms `ids`.
pub open spec fn listed(ids: Seq<Seq<char>>, a: Avatar) -> bool {
    ids.contains(a.room_id@)
}

/// `i` is the first position of an avatar of room `id`.
pub open spec fn is_first_match(avs: Seq<Avatar>, id: Seq<char>, i: int) -> bool {
    &&& 0 <= i < avs.len()
    &&& avs[i].room_id@ == id
    &&& forall|j: int| 0 <= j < i ==> avs[j].room_id@ != id
}

/// No avatar of room `id` is in `avs`.
pub open spec fn absent(avs: Seq<Avatar>, id: Seq<char>) -> bool {
    forall|j: int| 0 <= j < avs.len() ==> avs[j].room_id@ != id
}

/// `avs` with the avatar at `i` taken out, marked unread, and put in front.
pub open spec fn moved_to_front(avs: Seq<Avatar>, i: int) -> Seq<Avatar> {
    seq![(Avatar { has_unread: true, ..avs[i] })] + avs.remove(i)
}

/// The relation between a carousel before and after a rebuild from `rooms`.
pub open spec fn rebuilt(before: ChatCarousel, after: ChatCarousel, rooms: Seq<Room>) -> bool {
    &&& after.avatars@ == avatars_of(rooms)
    &&& after.active_desktop == before.active_desktop
    &&& after.filtered_by_desktop == before.filtered_by_desktop
}

/// A strip of room avatars, most recently active first.
pub struct ChatCarousel {
    pub avatars: Vec<Avatar>,
    pub active_desktop: u32,
    pub filtered_by_desktop: bool,
}

impl ChatCarousel {
    pub fn new() -> (r: ChatCarousel)
        ensures
            r.avatars@.len() == 0,
            r.active_desktop == 0,
            !r.filtered_by_desktop,
    {
        ChatCarousel { avatars: Vec::new(), active_desktop: 0, filtered_by_desktop: false }
    }

    /// Replaces every avatar with one for each room of `rooms`, in the same order.
    pub fn update_avatars(&mut self, rooms: &[Room])
        ensures
            rebuilt(*old(self), *final(self), rooms@),
    {
        let mut out: Vec<Avatar> = Vec::new();
        let mut i: usize = 0;
        while i < rooms.len()
            invariant
                i <= rooms@.len(),
                out@ =~= avatars_of(rooms@.subrange(0, i as int)),
            decreases rooms@.len() - i,
        {
            let room = &rooms[i];
            out.push(
                Avatar {
                    room_id: room.id.clone(),
                    url: clone_opt(&room.avatar_url),
                    display_name: room.name.clone(),
                    has_unread: room.unread_count > 0,
                },
            );
            i = i + 1;
            assert(out@ =~= avatars_of(rooms@.subrange(0, i as int)));
        }
        assert(rooms@.subrange(0, i as int) =~= rooms@);
        self.avatars = out;
    }

    /// Records the active desktop and, where filtering is on, keeps only the
    /// avatars of rooms in `room_ids`, in their order.
    pub fn filter_by_desktop(&mut self, desktop_id: u32, room_ids: &[String])
        ensures
            final(self).active_desktop == desktop_id,
            final(self).filtered_by_desktop == old(self).filtered_by_desktop,
            final(self).avatars@ == (if old(self).filtered_by_desktop {
                old(self).avatars@.filter(|a: Avatar| listed(ids_view(room_ids@), a))
            } else {
                old(self).avatars@
            }),
    {
        if self.filtered_by_desktop {
            let ghost pred = |a: Avatar| listed(ids_view(room_ids@), a);
            let mut kept: Vec<Avatar> = Vec::new();
            let mut i: usize = 0;
            while i < self.avatars.len()
                invariant
                    i <= self.avatars@.len(),
                    pred == (|a: Avatar| listed(ids_view(room_ids@), a)),
                    kept@ == self.avatars@.subrange(0, i as int).filter(pred),
                decreases self.avatars@.len() - i,
            {
                let ghost prefix = self.avatars@.subrange(0, i as int);
                assert(self.avatars@.subrange(0, i + 1) =~= prefix.push(self.avatars@[i as int]));
                proof {
                    prefix.lemma_filter_push(self.avatars@[i as int], pred);
                }
                let keep = contains_id(room_ids, &self.avatars[i].room_id);
                assert(keep == pred(self.avatars@[i as int]));
                if keep {
                    kept.push(self.avatars[i].clone());
                }
                i = i + 1;
            }
            assert(self.avatars@.subrange(0, i as int) =~= self.avatars@);
            self.avatars = kept;
        }
        self.active_desktop = desktop_id;
    }

    /// Moves the avatar of `room_id` to the front and marks it unread; does nothing
    /// where no avatar of that room is present.
    pub fn animate_new_message(&mut self, room_id: &str)
        ensures
            final(self).active_desktop == old(self).active_desktop,
            final(self).filtered_by_desktop == old(self).filtered_by_desktop,
            absent(old(self).avatars@, room_id@) ==> final(self).avatars@ == old(self).avatars@,
            forall|i: int| #[trigger]
                is_first_match(old(self).avatars@, room_id@, i) ==> final(self).avatars@
                    == moved_to_front(old(self).avatars@, i),
            !absent(old(self).avatars@, room_id@) ==> {
                &&& final(self).avatars@.len() == old(self).avatars@.len()
                &&& final(self).avatars@[0].room_id@ == room_id@
                &&& final(self).avatars@[0].has_unread
            },
    {
        let id = room_id.to_owned();
        let mut i: usize = 0;
        while i < self.avatars.len()
            invariant
                i <= self.avatars@.len(),
                id@ == room_id@,
                self.avatars@ == old(self).avatars@,
                self.active_desktop == old(self).active_desktop,
                self.filtered_by_desktop == old(self).filtered_by_desktop,
                forall|j: int| 0 <= j < i ==> self.avatars@[j].room_id@ != room_id@,
            decreases self.avatars@.len() - i,
        {
            if self.avatars[i].room_id == id {
                let ghost before = self.avatars@;
                assert(is_first_match(before, room_id@, i as int));
                let mut avatar = self.avatars.remove(i);
                avatar.has_unread = true;
                self.avatars.insert(0, avatar);
                proof {
                    assert(self.avatars@ =~= moved_to_front(before, i as int));
                    assert forall|k: int| #[trigger]
                        is_first_match(before, room_id@, k) implies k == i by {
                        if k < i {
                        } else if k > i {
                            assert(before[i as int].room_id@ == room_id@);
                        }
                    }
                }
                return;
            }
            i = i + 1;
        }
    }
}

/// Whether `room` matches `query` without regard to case.
pub open spec fn room_matches(room: Room, query: Seq<char>) -> bool {
    matches_folded(
        lower_of(query),
        lower_of(room.name@),
        match room.last_message {
            Some(m) => Some(lower_of(m@)),
            None => None,
        },
    )
}

/// A rebuild forgets whatever a carousel held before: two carousels rebuilt from the
/// same snapshot hold the same avatars, whatever their earlier contents and order, and
/// those are exactly one avatar for each room of the snapshot, in its order.
pub proof fn lemma_rebuild_replaces(
    before_a: ChatCarousel,
    after_a: ChatCarousel,
    before_b: ChatCarousel,
    after_b: ChatCarousel,
    rooms: Seq<Room>,
)
    requires
        rebuilt(before_a, after_a, rooms),
        rebuilt(before_b, after_b, rooms),
    ensures
        after_a.avatars@ == after_b.avatars@,
        after_a.avatars@.len() == rooms.len(),
        forall|i: int|
            0 <= i < rooms.len() ==> (#[trigger] after_a.avatars@[i]).room_id == rooms[i].id
                && after_a.avatars@[i].display_name == rooms[i].name,
{
}

/// A query-driven room picker with cyclic selection.
pub struct ChatSwitcher {
    pub visible: bool,
    pub search_query: String,
    pub filtered_rooms: Vec<Room>,
    pub selected_index: usize,
    pub global_search: bool,
}

impl ChatSwitcher {
    /// The selection lies within the filtered rooms, or is 0 where there are none.
    pub open spec fn wf(&self) -> bool {
        self.selected_index < self.filtered_rooms@.len() || self.selected_index == 0
    }

    pub fn new() -> (r: ChatSwitcher)
        ensures
            r.wf(),
            !r.visible,
            r.search_query@.len() == 0,
            r.filtered_rooms@.len() == 0,
            r.selected_index == 0,
            !r.global_search,
    {
        ChatSwitcher {
            visible: false,
            search_query: String::new(),
            filtered_rooms: Vec::new(),
            selected_index: 0,
            global_search: false,
        }
    }

    pub fn show(&mut self, global: bool)
        ensures
            final(self).wf(),
            final(self).visible,
            final(self).global_search == global,
            final(self).search_query@.len() == 0,
            final(self).selected_index == 0,
            final(self).filtered_rooms@ == old(self).filtered_rooms@,
    {
        self.visible = true;
        self.global_search = global;
        self.search_query = String::new();
        self.selected_index = 0;
    }

    pub fn close(&mut self)
        ensures
            final(self).wf(),
            !final(self).visible,
            final(self).global_search == old(self).global_search,
            final(self).search_query@.len() == 0,
            final(self).filtered_rooms@.len() == 0,
            final(self).selected_index == 0,
    {
        self.visible = false;
        self.search_query = String::new();
        self.filtered_rooms.clear();
        self.selected_index = 0;
    }

    /// Stores `query` and keeps every room whose name, or last message where there is
    /// one, contains it without regard to case; the selection goes back to the first.
    pub fn update_search(&mut self, query: String, rooms: &[Room])
        ensures
            final(self).wf(),
            final(self).search_query == query,
            final(self).filtered_rooms@ == rooms@.filter(|r: Room| room_matches(r, query@)),
            final(self).selected_index == 0,
            final(self).visible == old(self).visible,
            final(self).global_search == old(self).global_search,
    {
        let ghost pred = |r: Room| room_matches(r, query@);
        let q = lowercase(query.as_str());
        let mut out: Vec<Room> = Vec::new();
        let mut i: usize = 0;
        while i < rooms.len()
            invariant
                i <= rooms@.len(),
                q@ == lower_of(query@),
                pred == (|r: Room| room_matches(r, query@)),
                out@ == rooms@.subrange(0, i as int).filter(pred),
            decreases rooms@.len() - i,
        {
            let ghost prefix = rooms@.subrange(0, i as int);
            assert(rooms@.subrange(0, i + 1) =~= prefix.push(rooms@[i as int]));
            proof {
                prefix.lemma_filter_push(rooms@[i as int], pred);
            }
            let room = &rooms[i];
            let name = lowercase(room.name.as_str());
            let hit = match &room.last_message {
                Some(m) => {
                    let lm = lowercase(m.as_str());
                    matches_lowered(q.as_str(), name.as_str(), Some(lm.as_str()))
                },
                None => matches_lowered(q.as_str(), name.as_str(), None),
            };
            assert(hit == pred(rooms@[i as int]));
            if hit {
                out.push(room.clone());
            }
            i = i + 1;
        }
        assert(rooms@.subrange(0, i as int) =~= rooms@);
        self.search_query = query;
        self.filtered_rooms = out;
        self.selected_index = 0;
    }

    /// Moves the selection one forward, from the last room back to the first.
    pub fn select_next(&mut self)
        requires
            old(self).wf(),
        ensures
            final(self).wf(),
            final(self).filtered_rooms@ == old(self).filtered_rooms@,
            final(self).selected_index == (if old(self).filtered_rooms@.len() == 0 {
                old(self).selected_index as int
            } else {
                (old(self).selected_index + 1) % (old(self).filtered_rooms@.len() as int)
            }),
            final(self).visible == old(self).visible,
            final(self).search_query == old(self).search_query,
            final(self).global_search == old(self).global_search,
    {
        if self.filtered_rooms.len() > 0 {
            self.selected_index = (self.selected_index + 1) % self.filtered_rooms.len();
        }
    }

    /// Moves the selection one back, from the first room round to the last.
    pub fn select_previous(&mut self)
        requires
            old(self).wf(),
        ensures
            final(self).wf(),
            final(self).filtered_rooms@ == old(self).filtered_rooms@,
            final(self).selected_index == (if old(self).filtered_rooms@.len() == 0 {
                old(self).selected_index as int
            } else if old(self).selected_index == 0 {
                old(self).filtered_rooms@.len() - 1
            } else {
                old(self).selected_index - 1
            }),
            final(self).visible == old(self).visible,
            final(self).search_query == old(self).search_query,
            final(self).global_search == old(self).global_search,
    {
        if self.filtered_rooms.len() > 0 {
            self.selected_index = if self.selected_index == 0 {
                self.filtered_rooms.len() - 1
            } else {
                self.selected_index - 1
            };
        }
    }

    pub fn get_selected_room(&self) -> (r: Option<&Room>)
        ensures
            r == (if self.selected_index < self.filtered_rooms@.len() {
                Some(&self.filtered_rooms@[self.selected_index as int])
            } else {
                None
            }),
    {
        self.filtered_rooms.get(self.selected_index)
    }
}

/// The whole presence state of one running application.
pub struct UIState {
    pub carousel: ChatCarousel,
    pub switcher: ChatSwitcher,
    pub current_room: Option<String>,
    pub window_focused: bool,
}

impl UIState {
    pub fn new() -> (r: UIState)
        ensures
            r.carousel.avatars@.len() == 0,
            r.carousel.active_desktop == 0,
            !r.carousel.filtered_by_desktop,
            r.switcher.wf(),
            !r.switcher.visible,
            r.switcher.search_query@.len() == 0,
            r.switcher.filtered_rooms@.len() == 0,
            r.switcher.selected_index == 0,
            !r.switcher.global_search,
            r.current_room is None,
            !r.window_focused,
    {
        UIState {
            carousel: ChatCarousel::new(),
            switcher: ChatSwitcher::new(),
            current_room: None,
            window_focused: false,
        }
    }

    pub fn update_current_room(&mut self, room_id: Option<String>)
        ensures
            final(self).current_room == room_id,
            final(self).carousel == old(self).carousel,
            final(self).switcher == old(self).switcher,
            final(self).window_focused == old(self).window_focused,
    {
        self.current_room = room_id;
    }

    pub fn set_window_focus(&mut self, focused: bool)
        ensures
            final(self).window_focused == focused,
            final(self).carousel == old(self).carousel,
            final(self).switcher == old(self).switcher,
            final(self).current_room == old(self).current_room,
    {
        self.window_focused = focused;
    }
}

} // verus!
