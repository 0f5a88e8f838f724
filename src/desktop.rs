use vstd::prelude::*;
use std::collections::HashMap;

verus! {

broadcast use vstd::std_specs::hash::group_hash_axioms;

/// The views of a sequence of room ids.
pub open spec fn ids_view(v: Seq<String>) -> Seq<Seq<char>> {
    v.map_values(|s: String| s@)
}

/// Notification policy that applies while a desktop is active.
pub struct NotificationSettings {
    pub enabled: bool,
    pub sound_enabled: bool,
    pub sound_file: Option<String>,
}

impl NotificationSettings {
    /// The policy a desktop starts with: notifications and sound on, no sound file.
    pub open spec fn is_default(&self) -> bool {
        self.enabled && self.sound_enabled && self.sound_file is None
    }

    pub fn default_policy() -> (r: NotificationSettings)
        ensures
            r.is_default(),
    {
        NotificationSettings { enabled: true, sound_enabled: true, sound_file: None }
    }
}

/// The rooms associated with one virtual desktop, and its notification policy.
pub struct ContextMapping {
    pub desktop_id: u32,
    pub room_ids: Vec<String>,
    pub notification_settings: NotificationSettings,
}

impl ContextMapping {
    /// The room ids, as character sequences, in order of association.
    pub open spec fn rooms(&self) -> Seq<Seq<char>> {
        ids_view(self.room_ids@)
    }

    pub open spec fn wf(&self) -> bool {
        self.rooms().no_duplicates()
    }
}

/// Maps each virtual desktop to the rooms that matter while it is active.
pub struct ContextManager {
    mappings: HashMap<u32, ContextMapping>,
    current_desktop: u32,
}

impl ContextManager {
    /// Every stored context is keyed by its own desktop id and holds no room twice.
    pub closed spec fn wf(&self) -> bool {
        forall|d: u32| #[trigger]
            self.mappings@.contains_key(d) ==> self.mappings@[d].desktop_id == d
                && self.mappings@[d].wf()
    }

    /// Whether a context has been created for desktop `d`.
    pub closed spec fn has_desktop(&self, d: u32) -> bool {
        self.mappings@.contains_key(d)
    }

    /// The rooms associated with desktop `d`, in order of association; empty if none.
    pub closed spec fn rooms_of(&self, d: u32) -> Seq<Seq<char>> {
        if self.mappings@.contains_key(d) {
            self.mappings@[d].rooms()
        } else {
            Seq::empty()
        }
    }

    /// The notification policy of desktop `d`, where a context exists for it.
    pub closed spec fn settings_of(&self, d: u32) -> NotificationSettings {
        self.mappings@[d].notification_settings
    }

    pub closed spec fn current(&self) -> u32 {
        self.current_desktop
    }

    /// The relation between the state before and after associating `room` with desktop `d`.
    pub open spec fn added(old_m: ContextManager, new_m: ContextManager, d: u32, room: Seq<char>) -> bool {
        &&& new_m.wf()
        &&& new_m.has_desktop(d)
        &&& new_m.rooms_of(d) == (if old_m.rooms_of(d).contains(room) {
            old_m.rooms_of(d)
        } else {
            old_m.rooms_of(d).push(room)
        })
        &&& (old_m.has_desktop(d) ==> new_m.settings_of(d) == old_m.settings_of(d))
        &&& (!old_m.has_desktop(d) ==> new_m.settings_of(d).is_default())
        &&& forall|e: u32| e != d ==> #[trigger] new_m.has_desktop(e) == old_m.has_desktop(e)
            && new_m.rooms_of(e) == old_m.rooms_of(e)
            && (old_m.has_desktop(e) ==> new_m.settings_of(e) == old_m.settings_of(e))
        &&& new_m.current() == old_m.current()
    }

    pub fn new() -> (r: ContextManager)
        ensures
            r.wf(),
            r.current() == 0,
            forall|d: u32| !(#[trigger] r.has_desktop(d)) && r.rooms_of(d) == Seq::<Seq<char>>::empty(),
    {
        ContextManager { mappings: HashMap::new(), current_desktop: 0 }
    }

    pub fn get_current_desktop(&self) -> (r: u32)
        ensures
            r == self.current(),
    {
        self.current_desktop
    }

    pub fn get_rooms_for_desktop(&self, desktop_id: u32) -> (r: Vec<String>)
        requires
            self.wf(),
        ensures
            ids_view(r@) == self.rooms_of(desktop_id),
    {
        match self.mappings.get(&desktop_id) {
            Some(mapping) => clone_ids(&mapping.room_ids),
            None => Vec::new(),
        }
    }

    pub fn add_room_to_desktop(&mut self, desktop_id: u32, room_id: String)
        requires
            old(self).wf(),
        ensures
            ContextManager::added(*old(self), *final(self), desktop_id, room_id@),
    {
        let ghost before = *self;
        let mut mapping = match self.mappings.remove(&desktop_id) {
            Some(m) => m,
            None => ContextMapping {
                desktop_id,
                room_ids: Vec::new(),
                notification_settings: NotificationSettings::default_policy(),
            },
        };
        proof {
            assert(mapping.rooms() == before.rooms_of(desktop_id));
        }
        if !contains_id(mapping.room_ids.as_slice(), &room_id) {
            let ghost prev = mapping.rooms();
            mapping.room_ids.push(room_id);
            proof {
                assert(mapping.rooms() =~= prev.push(room_id@));
                assert forall|i: int, j: int|
                    0 <= i < j < mapping.rooms().len() implies mapping.rooms()[i] != mapping.rooms()[j] by {
                    if j == prev.len() {
                        assert(prev[i] == mapping.rooms()[i]);
                    } else {
                        assert(prev[i] == mapping.rooms()[i] && prev[j] == mapping.rooms()[j]);
                    }
                }
            }
        }
        self.mappings.insert(desktop_id, mapping);
    }
}

/// A desktop without a context has no rooms.
pub proof fn lemma_no_context_no_rooms(m: ContextManager, d: u32)
    requires
        !m.has_desktop(d),
    ensures
        m.rooms_of(d) == Seq::<Seq<char>>::empty(),
{
}

/// A desktop that no room was ever associated with has no rooms: a fresh manager has
/// none for any desktop, and associating a room with one desktop leaves every other
/// desktop's rooms as they were.
pub proof fn lemma_untouched_desktop_empty(
    m0: ContextManager,
    m1: ContextManager,
    d: u32,
    room: Seq<char>,
    e: u32,
)
    requires
        !m0.has_desktop(e),
        m0.rooms_of(e) == Seq::<Seq<char>>::empty(),
        ContextManager::added(m0, m1, d, room),
        d != e,
    ensures
        !m1.has_desktop(e),
        m1.rooms_of(e) == Seq::<Seq<char>>::empty(),
{
    assert(m1.has_desktop(e) == m0.has_desktop(e));
}

/// Associating the same room twice with the same desktop is the same as doing it
/// once, and the room then occurs exactly once among the desktop's rooms.
pub proof fn lemma_add_room_idempotent(
    m0: ContextManager,
    m1: ContextManager,
    m2: ContextManager,
    d: u32,
    room: Seq<char>,
)
    requires
        ContextManager::added(m0, m1, d, room),
        ContextManager::added(m1, m2, d, room),
    ensures
        m2.rooms_of(d) == m1.rooms_of(d),
        m2.rooms_of(d).to_multiset().count(room) == 1,
{
    let rs = m2.rooms_of(d);
    assert(m1.rooms_of(d).contains(room)) by {
        if !m0.rooms_of(d).contains(room) {
            let n = m0.rooms_of(d).len() as int;
            assert(m1.rooms_of(d)[n] == room);
        }
    };
    reveal(ContextManager::wf);
    assert(rs.no_duplicates());
    rs.lemma_multiset_has_no_duplicates();
    rs.to_multiset_ensures();
}

/// Whether `ids` holds a string equal to `id`.
pub fn contains_id(ids: &[String], id: &String) -> (r: bool)
    ensures
        r == ids_view(ids@).contains(id@),
{
    let mut i: usize = 0;
    while i < ids.len()
        invariant
            i <= ids@.len(),
            forall|k: int| 0 <= k < i ==> ids@[k]@ != id@,
        decreases ids@.len() - i,
    {
        if ids[i] == *id {
            assert(ids_view(ids@)[i as int] == id@);
            return true;
        }
        i = i + 1;
    }
    proof {
        if ids_view(ids@).contains(id@) {
            let k = choose|k: int| 0 <= k < ids_view(ids@).len() && ids_view(ids@)[k] == id@;
            assert(ids@[k]@ == id@);
        }
    }
    false
}

/// A copy of `ids`, string for string.
pub fn clone_ids(ids: &Vec<String>) -> (r: Vec<String>)
    ensures
        ids_view(r@) == ids_view(ids@),
{
    let mut out: Vec<String> = Vec::new();
    let mut i: usize = 0;
    while i < ids.len()
        invariant
            i <= ids@.len(),
            out@.len() == i,
            forall|k: int| 0 <= k < i ==> out@[k]@ == ids@[k]@,
        decreases ids@.len() - i,
    {
        out.push(ids[i].clone());
        i = i + 1;
    }
    assert(ids_view(out@) =~= ids_view(ids@));
    out
}

} // verus!
