//! Log records and the identities of the session's entities.
use vstd::prelude::*;
use crate::level::Level;

verus! {

/// The identity of an element: its own number and the path of the location
/// that holds it.
pub struct ElementKey {
    pub uid: u64,
    pub location: Vec<u64>,
}

/// The identity of a location: its path in the location tree.
pub struct LocationKey {
    pub path: Vec<u64>,
}

/// The identity of an entity that the logger can follow, as a value.
pub enum EntityView {
    Element(u64, Seq<u64>),
    Location(Seq<u64>),
}

/// The identity of an entity that the logger can follow.
pub enum EntityId {
    Element(ElementKey),
    Location(LocationKey),
}

impl View for EntityId {
    type V = EntityView;

    open spec fn view(&self) -> EntityView {
        match self {
            EntityId::Element(e) => EntityView::Element(e.uid, e.location@),
            EntityId::Location(l) => EntityView::Location(l.path@),
        }
    }
}

impl ElementKey {
    /// A copy of this identity.
    pub fn duplicate(&self) -> (r: ElementKey)
        ensures
            r.uid == self.uid,
            r.location@ == self.location@,
    {
        ElementKey { uid: self.uid, location: self.location.clone() }
    }
}

impl LocationKey {
    /// A copy of this identity.
    pub fn duplicate(&self) -> (r: LocationKey)
        ensures
            r.path@ == self.path@,
    {
        LocationKey { path: self.path.clone() }
    }
}

impl EntityId {
    /// A copy of this identity.
    pub fn duplicate(&self) -> (r: EntityId)
        ensures
            r@ == self@,
    {
        match self {
            EntityId::Element(e) => EntityId::Element(e.duplicate()),
            EntityId::Location(l) => EntityId::Location(l.duplicate()),
        }
    }

    /// Whether two identities name the same entity.
    pub fn same(&self, other: &EntityId) -> (r: bool)
        ensures
            r == (self@ == other@),
    {
        match (self, other) {
            (EntityId::Element(a), EntityId::Element(b)) => {
                a.uid == b.uid && same_path(&a.location, &b.location)
            },
            (EntityId::Location(a), EntityId::Location(b)) => same_path(&a.path, &b.path),
            _ => false,
        }
    }
}

/// Whether two location paths are equal.
fn same_path(a: &Vec<u64>, b: &Vec<u64>) -> (r: bool)
    ensures
        r == (a@ == b@),
{
    if a.len() != b.len() {
        return false;
    }
    let mut i: usize = 0;
    while i < a.len()
        invariant
            a@.len() == b@.len(),
            i <= a@.len(),
            forall|j: int| 0 <= j < i ==> a@[j] == b@[j],
        decreases a@.len() - i,
    {
        if a[i] != b[i] {
            return false;
        }
        i = i + 1;
    }
    assert(a@ =~= b@);
    true
}

/// Who produced a log record.
pub enum Origin {
    Element(ElementKey),
    Location(LocationKey),
    /// The session library itself.
    LibraryCore,
    Daemon,
}

/// An instant, as seconds and nanoseconds since the Unix epoch.
#[derive(Clone, Copy, Debug, PartialEq, Eq, Structural)]
pub struct Timestamp {
    pub secs: i64,
    pub nanos: u32,
}

/// A calendar date and wall-clock time, to the minute.
#[derive(Clone, Copy, Debug, PartialEq, Eq, Structural)]
pub struct LocalStamp {
    pub year: i32,
    pub month: u32,
    pub day: u32,
    pub hour: u32,
    pub minute: u32,
}

impl LocalStamp {
    /// The fields lie in their calendar ranges.
    pub open spec fn wf(&self) -> bool {
        &&& 1 <= self.month <= 12
        &&& 1 <= self.day <= 31
        &&& self.hour < 24
        &&& self.minute < 60
    }
}

/// One log event, as it reaches the formatter.
pub struct LogRecord {
    pub level: Level,
    pub time: Timestamp,
    pub origin: Origin,
    pub module: Option<String>,
    pub file: Option<String>,
    pub line: Option<u32>,
    pub message: String,
}

} // verus!
