use vstd::prelude::*;

verus! {

/// The category label of every `FileReadEvent`.
pub open spec fn file_read_label() -> Seq<char> {
    "file_read"@
}

/// The category label of every `NetworkEvent`.
pub open spec fn network_label() -> Seq<char> {
    "network"@
}

/// The outcome of one attempted file read.
///
/// A producer fills `content` on success and `error` on failure, never both.
#[derive(Debug, Clone)]
pub struct FileReadEvent {
    pub path: String,
    pub content: Option<String>,
    pub error: Option<String>,
}

/// The outcome of one attempted network request.
///
/// `status` is meaningful only when a remote endpoint answered; with `error`
/// present it is a placeholder such as 0.
#[derive(Debug, Clone)]
pub struct NetworkEvent {
    pub url: String,
    pub status: u16,
    pub response: Option<String>,
    pub error: Option<String>,
}

/// A type-erased reference to an event of one of the known shapes.
///
/// Recovering a shape from it either yields the event or reports no match.
#[derive(Debug, Clone, Copy)]
pub enum EventRef<'a> {
    FileRead(&'a FileReadEvent),
    Network(&'a NetworkEvent),
}

impl<'a> EventRef<'a> {
    /// The category label of the shape referred to.
    pub open spec fn label(self) -> Seq<char> {
        match self {
            EventRef::FileRead(_) => file_read_label(),
            EventRef::Network(_) => network_label(),
        }
    }

    /// The file-read event referred to, if that is the shape.
    pub open spec fn file_read_of(self) -> Option<&'a FileReadEvent> {
        match self {
            EventRef::FileRead(e) => Some(e),
            EventRef::Network(_) => None,
        }
    }

    /// The network event referred to, if that is the shape.
    pub open spec fn network_of(self) -> Option<&'a NetworkEvent> {
        match self {
            EventRef::FileRead(_) => None,
            EventRef::Network(e) => Some(e),
        }
    }

    /// Recovers a `FileReadEvent`; `None` where the shape is another one.
    pub fn downcast_file_read(self) -> (r: Option<&'a FileReadEvent>)
        ensures
            r == self.file_read_of(),
    {
        match self {
            EventRef::FileRead(e) => Some(e),
            EventRef::Network(_) => None,
        }
    }

    /// Recovers a `NetworkEvent`; `None` where the shape is another one.
    pub fn downcast_network(self) -> (r: Option<&'a NetworkEvent>)
        ensures
            r == self.network_of(),
    {
        match self {
            EventRef::FileRead(_) => None,
            EventRef::Network(e) => Some(e),
        }
    }
}

/// The capability every event-like value provides: a category label fixed by
/// its concrete shape, and a type-erased reference to that shape.
pub trait Event: Send + Sync {
    /// The erased reference that `as_any` hands out.
    spec fn erased(&self) -> EventRef<'_>;

    /// The category label; it is the label of the erased shape.
    fn event_type(&self) -> (r: &'static str)
        ensures
            r@ == self.erased().label(),
    ;

    /// A type-erased reference to the value's own shape.
    fn as_any(&self) -> (r: EventRef<'_>)
        ensures
            r == self.erased(),
    ;
}

impl Event for FileReadEvent {
    open spec fn erased(&self) -> EventRef<'_> {
        EventRef::FileRead(self)
    }

    fn event_type(&self) -> (r: &'static str)
        ensures
            r@ == file_read_label(),
    {
        "file_read"
    }

    fn as_any(&self) -> (r: EventRef<'_>) {
        EventRef::FileRead(self)
    }
}

impl Event for NetworkEvent {
    open spec fn erased(&self) -> EventRef<'_> {
        EventRef::Network(self)
    }

    fn event_type(&self) -> (r: &'static str)
        ensures
            r@ == network_label(),
    {
        "network"
    }

    fn as_any(&self) -> (r: EventRef<'_>) {
        EventRef::Network(self)
    }
}

/// An owned handle that holds an event of any known shape, so that events of
/// different shapes can be kept and passed around together.
#[derive(Debug, Clone)]
pub enum AnyEvent {
    FileRead(FileReadEvent),
    Network(NetworkEvent),
}

impl Event for AnyEvent {
    open spec fn erased(&self) -> EventRef<'_> {
        match self {
            AnyEvent::FileRead(e) => EventRef::FileRead(e),
            AnyEvent::Network(e) => EventRef::Network(e),
        }
    }

    fn event_type(&self) -> (r: &'static str) {
        match self {
            AnyEvent::FileRead(e) => e.event_type(),
            AnyEvent::Network(e) => e.event_type(),
        }
    }

    fn as_any(&self) -> (r: EventRef<'_>) {
        match self {
            AnyEvent::FileRead(e) => e.as_any(),
            AnyEvent::Network(e) => e.as_any(),
        }
    }
}

/// The category label depends on the concrete shape alone: every file-read
/// event is labelled `"file_read"`, every network event `"network"`, and the
/// two labels differ.
pub proof fn lemma_category_by_shape(f: &FileReadEvent, n: &NetworkEvent)
    ensures
        f.erased().label() == file_read_label(),
        n.erased().label() == network_label(),
        file_read_label() != network_label(),
{
    reveal_strlit("file_read");
    reveal_strlit("network");
    assert(file_read_label().len() != network_label().len());
}

/// Recovering the shape an event was built as, from its erased reference,
/// gives back that very event, fields unchanged.
pub proof fn lemma_round_trip(f: &FileReadEvent, n: &NetworkEvent)
    ensures
        f.erased().file_read_of() == Some(f),
        n.erased().network_of() == Some(n),
        f.erased().file_read_of().unwrap().path == f.path,
        f.erased().file_read_of().unwrap().content == f.content,
        f.erased().file_read_of().unwrap().error == f.error,
        n.erased().network_of().unwrap().url == n.url,
        n.erased().network_of().unwrap().status == n.status,
        n.erased().network_of().unwrap().response == n.response,
        n.erased().network_of().unwrap().error == n.error,
{
}

/// Recovering a shape other than the one an event was built as reports no
/// match.
pub proof fn lemma_mismatch_is_no_match(f: &FileReadEvent, n: &NetworkEvent)
    ensures
        f.erased().network_of() is None,
        n.erased().file_read_of() is None,
{
}

} // verus!
