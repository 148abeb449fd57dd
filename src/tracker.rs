//! Keeping the logger subscribed to exactly the live elements and locations.
use vstd::prelude::*;
use crate::record::{ElementKey, EntityId, EntityView, LocationKey};

verus! {

/// A lifecycle event of the session.
pub enum SessionEvent {
    NewElement(ElementKey),
    NewLocation(LocationKey),
    NewModule(u64),
    DestroyedElement(ElementKey),
    DestroyedLocation(LocationKey),
    DestroyedModule(u64),
    /// The old identity, then the new one.
    ElementIdChanged(ElementKey, ElementKey),
    LocationIdChanged(LocationKey, LocationKey),
    ModuleIdChanged(u64, u64),
}

/// A call that the logger makes on the session.
pub enum Command {
    Subscribe(EntityId),
    Unsubscribe(EntityId),
}

/// A session call, as a value.
pub enum CommandView {
    Subscribe(EntityView),
    Unsubscribe(EntityView),
}

impl View for Command {
    type V = CommandView;

    open spec fn view(&self) -> CommandView {
        match self {
            Command::Subscribe(id) => CommandView::Subscribe(id@),
            Command::Unsubscribe(id) => CommandView::Unsubscribe(id@),
        }
    }
}

/// An element's identity, as a value.
pub open spec fn element_view(e: ElementKey) -> EntityView {
    EntityView::Element(e.uid, e.location@)
}

/// A location's identity, as a value.
pub open spec fn location_view(l: LocationKey) -> EntityView {
    EntityView::Location(l.path@)
}

/// The views of a list of commands.
pub open spec fn commands_view(cs: Seq<Command>) -> Seq<CommandView> {
    cs.map_values(|c: Command| c@)
}

/// Whether an event concerns a module.
pub open spec fn is_module_event(ev: SessionEvent) -> bool {
    ev is NewModule || ev is DestroyedModule || ev is ModuleIdChanged
}

/// The session calls that an event asks for, in the order they are made.
pub open spec fn commands_spec(ev: SessionEvent) -> Seq<CommandView> {
    match ev {
        SessionEvent::NewElement(e) => seq![CommandView::Subscribe(element_view(e))],
        SessionEvent::NewLocation(l) => seq![CommandView::Subscribe(location_view(l))],
        SessionEvent::DestroyedElement(e) => seq![CommandView::Unsubscribe(element_view(e))],
        SessionEvent::DestroyedLocation(l) => seq![CommandView::Unsubscribe(location_view(l))],
        SessionEvent::ElementIdChanged(o, n) => seq![
            CommandView::Unsubscribe(element_view(o)),
            CommandView::Subscribe(element_view(n)),
        ],
        SessionEvent::LocationIdChanged(o, n) => seq![
            CommandView::Unsubscribe(location_view(o)),
            CommandView::Subscribe(location_view(n)),
        ],
        SessionEvent::NewModule(_) => seq![],
        SessionEvent::DestroyedModule(_) => seq![],
        SessionEvent::ModuleIdChanged(_, _) => seq![],
    }
}

/// The subscriptions after one successful call.
pub open spec fn apply_spec(members: Set<EntityView>, c: CommandView) -> Set<EntityView> {
    match c {
        CommandView::Subscribe(k) => members.insert(k),
        CommandView::Unsubscribe(k) => members.remove(k),
    }
}

/// The subscriptions after a run of successful calls, made in order.
pub open spec fn apply_all(members: Set<EntityView>, cs: Seq<CommandView>) -> Set<EntityView>
    decreases cs.len(),
{
    if cs.len() == 0 {
        members
    } else {
        apply_spec(apply_all(members, cs.drop_last()), cs.last())
    }
}

/// The session calls that an event asks for, in the order they are made.
pub fn commands_for(event: &SessionEvent) -> (r: Vec<Command>)
    ensures
        commands_view(r@) == commands_spec(*event),
{
    let r = match event {
        SessionEvent::NewElement(e) => vec![Command::Subscribe(EntityId::Element(e.duplicate()))],
        SessionEvent::NewLocation(l) => vec![Command::Subscribe(EntityId::Location(l.duplicate()))],
        SessionEvent::DestroyedElement(e) => vec![
            Command::Unsubscribe(EntityId::Element(e.duplicate())),
        ],
        SessionEvent::DestroyedLocation(l) => vec![
            Command::Unsubscribe(EntityId::Location(l.duplicate())),
        ],
        SessionEvent::ElementIdChanged(o, n) => vec![
            Command::Unsubscribe(EntityId::Element(o.duplicate())),
            Command::Subscribe(EntityId::Element(n.duplicate())),
        ],
        SessionEvent::LocationIdChanged(o, n) => vec![
            Command::Unsubscribe(EntityId::Location(o.duplicate())),
            Command::Subscribe(EntityId::Location(n.duplicate())),
        ],
        SessionEvent::NewModule(_) => Vec::new(),
        SessionEvent::DestroyedModule(_) => Vec::new(),
        SessionEvent::ModuleIdChanged(_, _) => Vec::new(),
    };
    assert(commands_view(r@) =~= commands_spec(*event));
    r
}

/// The entities that the logger is subscribed to.
pub struct SubscriptionTracker {
    members: Vec<EntityId>,
}

impl SubscriptionTracker {
    /// The members, in the order they were subscribed.
    pub closed spec fn members_view(&self) -> Seq<EntityView> {
        self.members@.map_values(|e: EntityId| e@)
    }

    /// The set of entities the logger is subscribed to.
    pub closed spec fn subscribed(&self) -> Set<EntityView> {
        self.members_view().to_set()
    }

    /// No entity is held twice.
    pub closed spec fn wf(&self) -> bool {
        self.members_view().no_duplicates()
    }

    /// A tracker with no subscriptions.
    pub fn new() -> (r: SubscriptionTracker)
        ensures
            r.wf(),
            r.subscribed() == Set::<EntityView>::empty(),
    {
        let r = SubscriptionTracker { members: Vec::new() };
        assert(r.subscribed() =~= Set::<EntityView>::empty());
        r
    }

    /// Where an entity stands among the members, if it is one.
    fn position(&self, id: &EntityId) -> (r: Option<usize>)
        ensures
            r matches Some(i) ==> i < self.members@.len() && self.members_view()[i as int] == id@,
            r is None ==> !self.members_view().contains(id@),
    {
        let mut i: usize = 0;
        while i < self.members.len()
            invariant
                i <= self.members@.len(),
                forall|j: int| 0 <= j < i ==> self.members_view()[j] != id@,
            decreases self.members@.len() - i,
        {
            if self.members[i].same(id) {
                return Some(i);
            }
            i = i + 1;
        }
        None
    }

    /// Whether the logger is subscribed to an entity.
    pub fn is_subscribed(&self, id: &EntityId) -> (r: bool)
        ensures
            r == self.subscribed().contains(id@),
    {
        self.position(id).is_some()
    }

    /// The number of subscriptions.
    pub fn len(&self) -> (r: usize)
        requires
            self.wf(),
        ensures
            r == self.subscribed().len(),
    {
        proof {
            self.members_view().unique_seq_to_set();
        }
        self.members.len()
    }

    /// Records a session call that succeeded.
    pub fn apply(&mut self, cmd: &Command)
        requires
            old(self).wf(),
        ensures
            final(self).wf(),
            final(self).subscribed() == apply_spec(old(self).subscribed(), cmd@),
    {
        let ghost before = self.members_view();
        match cmd {
            Command::Subscribe(id) => {
                match self.position(id) {
                    Some(i) => {
                        assert(before[i as int] == id@);
                        assert(self.subscribed() =~= old(self).subscribed().insert(id@));
                    },
                    None => {
                        self.members.push(id.duplicate());
                        assert(self.members_view() =~= before.push(id@));
                        assert(self.members_view()[before.len() as int] == id@);
                        assert forall|k: EntityView| #[trigger]
                            self.members_view().contains(k) implies before.contains(k) || k
                            == id@ by {
                            let j = choose|j: int|
                                0 <= j < self.members_view().len() && self.members_view()[j] == k;
                            if j < before.len() {
                                assert(before[j] == k);
                            }
                        }
                        assert forall|k: EntityView| #[trigger]
                            before.contains(k) implies self.members_view().contains(k) by {
                            let j = choose|j: int| 0 <= j < before.len() && before[j] == k;
                            assert(self.members_view()[j] == k);
                        }
                        assert(self.subscribed() =~= old(self).subscribed().insert(id@));
                    },
                }
            },
            Command::Unsubscribe(id) => {
                if let Some(i) = self.position(id) {
                    self.members.remove(i);
                    assert(self.members_view() =~= before.remove(i as int));
                    assert forall|a: int, b: int|
                        0 <= a < b < self.members_view().len() implies self.members_view()[a]
                        != self.members_view()[b] by {
                        let a0 = if a < i { a } else { a + 1 };
                        let b0 = if b < i { b } else { b + 1 };
                        assert(self.members_view()[a] == before[a0]);
                        assert(self.members_view()[b] == before[b0]);
                    }
                    assert forall|k: EntityView| self.members_view().contains(k) implies k != id@ by {
                        let j = choose|j: int|
                            0 <= j < self.members_view().len() && self.members_view()[j] == k;
                        let j0 = if j < i { j } else { j + 1 };
                        assert(before[j0] == k);
                    }
                    assert forall|k: EntityView|
                        before.contains(k) && k != id@ implies self.members_view().contains(k) by {
                        let j = choose|j: int| 0 <= j < before.len() && before[j] == k;
                        let j1 = if j < i { j } else { j - 1 };
                        assert(self.members_view()[j1] == k);
                    }
                    assert(self.subscribed() =~= old(self).subscribed().remove(id@));
                } else {
                    assert(self.subscribed() =~= old(self).subscribed().remove(id@));
                }
            },
        }
    }

    /// Follows a lifecycle event whose session calls all succeed: returns those
    /// calls, in order, and records them.
    pub fn on_event(&mut self, event: &SessionEvent) -> (r: Vec<Command>)
        requires
            old(self).wf(),
        ensures
            final(self).wf(),
            commands_view(r@) == commands_spec(*event),
            final(self).subscribed() == apply_all(old(self).subscribed(), commands_spec(*event)),
    {
        let cmds = commands_for(event);
        let mut i: usize = 0;
        while i < cmds.len()
            invariant
                self.wf(),
                i <= cmds@.len(),
                commands_view(cmds@) == commands_spec(*event),
                self.subscribed() == apply_all(
                    old(self).subscribed(),
                    commands_view(cmds@).take(i as int),
                ),
            decreases cmds@.len() - i,
        {
            self.apply(&cmds[i]);
            assert(commands_view(cmds@).take(i + 1).drop_last() =~= commands_view(cmds@).take(
                i as int,
            ));
            i = i + 1;
        }
        assert(commands_view(cmds@).take(i as int) =~= commands_view(cmds@));
        cmds
    }
}

/// Module events ask for no session call and leave the subscriptions as
/// they are.
pub proof fn lemma_module_events_ignored(ev: SessionEvent, members: Set<EntityView>)
    requires
        is_module_event(ev),
    ensures
        commands_spec(ev).len() == 0,
        apply_all(members, commands_spec(ev)) == members,
{
}

/// A renamed element is unsubscribed under its old identity before it is
/// subscribed under its new one, and then only the new identity is held.
pub proof fn lemma_rename_moves_subscription(
    old_id: ElementKey,
    new_id: ElementKey,
    members: Set<EntityView>,
)
    ensures
        commands_spec(SessionEvent::ElementIdChanged(old_id, new_id)) == seq![
            CommandView::Unsubscribe(element_view(old_id)),
            CommandView::Subscribe(element_view(new_id)),
        ],
        apply_all(members, commands_spec(SessionEvent::ElementIdChanged(old_id, new_id)))
            == members.remove(element_view(old_id)).insert(element_view(new_id)),
        members == set![element_view(old_id)] ==> apply_all(
            members,
            commands_spec(SessionEvent::ElementIdChanged(old_id, new_id)),
        ) == set![element_view(new_id)],
{
    let cs = commands_spec(SessionEvent::ElementIdChanged(old_id, new_id));
    assert(cs.drop_last().drop_last() =~= Seq::<CommandView>::empty());
    assert(apply_all(members, cs.drop_last().drop_last()) == members);
    assert(apply_all(members, cs.drop_last()) == members.remove(element_view(old_id)));
    assert(members == set![element_view(old_id)] ==> members.remove(element_view(old_id)).insert(
        element_view(new_id),
    ) =~= set![element_view(new_id)]);
}

} // verus!
