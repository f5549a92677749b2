use vstd::prelude::*;
use crate::app::iin::Iin2;
use crate::app::parse::{AllObjectsVariation, HeaderCollection, HeaderDetails, ObjectHeader};

verus! {

/// The three classes that events are reported in.
#[derive(Copy, Clone, Debug, PartialEq, Eq, Structural)]
pub enum EventClass {
    /// class 1
    Class1,
    /// class 2
    Class2,
    /// class 3
    Class3,
}

/// A choice among the three event classes.
#[derive(Copy, Clone, Debug, PartialEq, Eq, Structural)]
pub struct EventClasses {
    /// class 1 is chosen
    pub class1: bool,
    /// class 2 is chosen
    pub class2: bool,
    /// class 3 is chosen
    pub class3: bool,
}

impl EventClasses {
    /// True when `class` is among the chosen.
    pub open spec fn spec_contains(self, class: EventClass) -> bool {
        match class {
            EventClass::Class1 => self.class1,
            EventClass::Class2 => self.class2,
            EventClass::Class3 => self.class3,
        }
    }

    /// The choice of the given classes.
    pub fn new(class1: bool, class2: bool, class3: bool) -> (c: EventClasses)
        ensures
            c == (EventClasses { class1, class2, class3 }),
    {
        EventClasses { class1, class2, class3 }
    }

    /// No class.
    pub fn none() -> (c: EventClasses)
        ensures
            c == (EventClasses { class1: false, class2: false, class3: false }),
    {
        EventClasses { class1: false, class2: false, class3: false }
    }

    /// All three classes.
    pub fn all() -> (c: EventClasses)
        ensures
            c == (EventClasses { class1: true, class2: true, class3: true }),
    {
        EventClasses { class1: true, class2: true, class3: true }
    }

    /// True when at least one class is chosen.
    pub fn any(&self) -> (b: bool)
        ensures
            b == (self.class1 || self.class2 || self.class3),
    {
        self.class1 || self.class2 || self.class3
    }

    /// True when `class` is among the chosen.
    pub fn contains(&self, class: EventClass) -> (b: bool)
        ensures
            b == self.spec_contains(class),
    {
        match class {
            EventClass::Class1 => self.class1,
            EventClass::Class2 => self.class2,
            EventClass::Class3 => self.class3,
        }
    }
}

/// One header of a read request, as far as the database tells them apart.
#[derive(Copy, Clone, Debug, PartialEq, Eq, Structural)]
pub enum ReadHeader {
    /// all objects of a variation
    AllObjects(AllObjectsVariation),
    /// anything else
    Unsupported,
}

impl ReadHeader {
    /// What a header of a request asks the database for.
    pub open spec fn spec_of(details: HeaderDetails) -> ReadHeader {
        match details {
            HeaderDetails::AllObjects(v) => ReadHeader::AllObjects(v),
            _ => ReadHeader::Unsupported,
        }
    }

    /// What a header of a request asks the database for.
    pub fn get(details: &HeaderDetails) -> (r: ReadHeader)
        ensures
            r == Self::spec_of(*details),
    {
        match details {
            HeaderDetails::AllObjects(v) => ReadHeader::AllObjects(*v),
            _ => ReadHeader::Unsupported,
        }
    }
}

/// What the headers of a request ask the database for, in order.
pub open spec fn read_headers(headers: Seq<ObjectHeader>) -> Seq<ReadHeader> {
    Seq::new(headers.len(), |i: int| ReadHeader::spec_of(headers[i].details))
}

/// Where an event stands between being recorded and being confirmed.
#[derive(Copy, Clone, Debug, PartialEq, Eq, Structural)]
pub enum EventState {
    /// recorded, not part of a response
    Unselected,
    /// chosen for the response under way, not yet written
    Selected,
    /// written into a fragment that the master has not confirmed
    Written,
}

/// A recorded event: its class and the encoded object that reports it.
#[derive(Debug)]
pub struct Event {
    /// class the event is reported in
    pub class: EventClass,
    /// object header and object, as they go on the wire
    pub object: Vec<u8>,
    /// progress of the event towards confirmation
    pub state: EventState,
}

/// An event as contracts see it.
pub struct EventView {
    pub class: EventClass,
    pub object: Seq<u8>,
    pub state: EventState,
}

impl View for Event {
    type V = EventView;

    open spec fn view(&self) -> EventView {
        EventView { class: self.class, object: self.object@, state: self.state }
    }
}

impl EventView {
    /// The same event in another state.
    pub open spec fn with_state(self, state: EventState) -> EventView {
        EventView { class: self.class, object: self.object, state }
    }
}

/// What a fragment of a response holds and whether more is to follow.
#[derive(Copy, Clone, Debug, PartialEq, Eq, Structural)]
pub struct ResponseInfo {
    /// the fragment holds events
    pub has_events: bool,
    /// nothing that was selected remains to be written
    pub complete: bool,
}

impl ResponseInfo {
    /// A fragment must be confirmed when it holds events or when more
    /// fragments follow.
    pub open spec fn spec_need_confirm(&self) -> bool {
        self.has_events || !self.complete
    }

    /// Whether the master must confirm the fragment.
    pub fn need_confirm(&self) -> (b: bool)
        ensures
            b == self.spec_need_confirm(),
    {
        self.has_events || !self.complete
    }
}

/// Summary of the event buffer for the internal indications.
#[derive(Copy, Clone, Debug, PartialEq, Eq, Structural)]
pub struct EventsInfo {
    /// classes with events that no unconfirmed fragment holds
    pub unwritten_classes: EventClasses,
    /// events were lost because the buffer was full
    pub is_overflown: bool,
}

/// The database as contracts see it.
pub struct DatabaseView {
    /// the event buffer, oldest first
    pub events: Seq<EventView>,
    /// the encoded static objects, in reporting order
    pub statics: Seq<Seq<u8>>,
    /// index of the first static object still to be written, when static
    /// data is selected
    pub next_static: Option<int>,
    /// events were lost because the buffer was full
    pub overflown: bool,
    /// number of events the buffer holds at most
    pub max_events: int,
}

/// Every event back in the state `Unselected`.
pub open spec fn unselect_all(events: Seq<EventView>) -> Seq<EventView> {
    Seq::new(events.len(), |i: int| events[i].with_state(EventState::Unselected))
}

/// The unselected events of the chosen classes become selected.
pub open spec fn select_classes(events: Seq<EventView>, classes: EventClasses) -> Seq<EventView> {
    Seq::new(
        events.len(),
        |i: int|
            if events[i].state == EventState::Unselected && classes.spec_contains(events[i].class) {
                events[i].with_state(EventState::Selected)
            } else {
                events[i]
            },
    )
}

/// True of the events that no unconfirmed fragment holds.
pub open spec fn is_unwritten() -> spec_fn(EventView) -> bool {
    |e: EventView| e.state != EventState::Written
}

/// The events that no unconfirmed fragment holds.
pub open spec fn without_written(events: Seq<EventView>) -> Seq<EventView> {
    events.filter(is_unwritten())
}

/// True when an event of `class` waits that no unconfirmed fragment holds.
pub open spec fn has_unwritten(events: Seq<EventView>, class: EventClass) -> bool {
    exists|i: int|
        0 <= i < events.len() && (#[trigger] events[i]).class == class && events[i].state
            != EventState::Written
}

/// Progress of writing events into a fragment.
pub struct EventFill {
    /// the events, those written marked so
    pub events: Seq<EventView>,
    /// the octets written
    pub bytes: Seq<u8>,
    /// number of events written
    pub count: int,
    /// room left in the fragment
    pub space: int,
    /// a selected event did not fit, and writing stopped there
    pub stopped: bool,
}

/// Writing the selected events among the first `n`, oldest first, into a
/// fragment with `space` octets of room: each is written and marked while it
/// fits; the first that does not fit ends the writing.
pub open spec fn fill_events(events: Seq<EventView>, n: int, space: int) -> EventFill
    decreases n,
{
    if n <= 0 {
        EventFill { events, bytes: Seq::empty(), count: 0, space, stopped: false }
    } else {
        let p = fill_events(events, n - 1, space);
        let e = events[n - 1];
        if p.stopped || e.state != EventState::Selected {
            p
        } else if e.object.len() <= p.space {
            EventFill {
                events: p.events.update(n - 1, e.with_state(EventState::Written)),
                bytes: p.bytes + e.object,
                count: p.count + 1,
                space: p.space - e.object.len(),
                stopped: false,
            }
        } else {
            EventFill { stopped: true, ..p }
        }
    }
}

/// Progress of writing static objects into a fragment.
pub struct StaticFill {
    /// index of the first object not written
    pub next: int,
    /// the octets written
    pub bytes: Seq<u8>,
    /// room left in the fragment
    pub space: int,
    /// an object did not fit, and writing stopped there
    pub stopped: bool,
}

/// Writing the static objects `from..n` into a fragment with `space` octets
/// of room: each is written while it fits; the first that does not fit ends
/// the writing.
pub open spec fn fill_statics(statics: Seq<Seq<u8>>, from: int, n: int, space: int) -> StaticFill
    decreases n - from,
{
    if n <= from {
        StaticFill { next: from, bytes: Seq::empty(), space, stopped: false }
    } else {
        let p = fill_statics(statics, from, n - 1, space);
        if p.stopped {
            p
        } else if statics[n - 1].len() <= p.space {
            StaticFill {
                next: n,
                bytes: p.bytes + statics[n - 1],
                space: p.space - statics[n - 1].len(),
                stopped: false,
            }
        } else {
            StaticFill { stopped: true, ..p }
        }
    }
}

/// What writing one fragment of a response does.
pub struct FragmentFill {
    /// the database afterwards
    pub database: DatabaseView,
    /// the octets written
    pub bytes: Seq<u8>,
    /// what the fragment holds and whether more is to follow
    pub info: ResponseInfo,
}

impl DatabaseView {
    /// The selection dropped: every event unselected, no static data chosen.
    pub open spec fn reset(self) -> DatabaseView {
        DatabaseView { events: unselect_all(self.events), next_static: None, ..self }
    }

    /// The events of written fragments removed. The overflow mark goes when
    /// that made room.
    pub open spec fn clear_written(self) -> DatabaseView {
        let events = without_written(self.events);
        DatabaseView {
            events,
            overflown: self.overflown && events.len() >= self.max_events,
            ..self
        }
    }

    /// The selection that one header of a read request adds, and the
    /// indication bits it raises.
    pub open spec fn select_header(self, header: ReadHeader) -> (DatabaseView, u8) {
        match header {
            ReadHeader::AllObjects(AllObjectsVariation::Group60Var1) => (
                DatabaseView { next_static: Some(0), ..self },
                0u8,
            ),
            ReadHeader::AllObjects(AllObjectsVariation::Group60Var2) => (
                DatabaseView {
                    events: select_classes(
                        self.events,
                        EventClasses { class1: true, class2: false, class3: false },
                    ),
                    ..self
                },
                0u8,
            ),
            ReadHeader::AllObjects(AllObjectsVariation::Group60Var3) => (
                DatabaseView {
                    events: select_classes(
                        self.events,
                        EventClasses { class1: false, class2: true, class3: false },
                    ),
                    ..self
                },
                0u8,
            ),
            ReadHeader::AllObjects(AllObjectsVariation::Group60Var4) => (
                DatabaseView {
                    events: select_classes(
                        self.events,
                        EventClasses { class1: false, class2: false, class3: true },
                    ),
                    ..self
                },
                0u8,
            ),
            _ => (self, Iin2::NO_FUNC_CODE_SUPPORT),
        }
    }

    /// The selection that the first `n` headers add to `self`, and the
    /// indication bits they raise.
    pub open spec fn select_headers(self, headers: Seq<ReadHeader>, n: int) -> (DatabaseView, u8)
        decreases n,
    {
        if n <= 0 {
            (self, 0u8)
        } else {
            let (db, bits) = self.select_headers(headers, n - 1);
            let (db2, bits2) = db.select_header(headers[n - 1]);
            (db2, bits | bits2)
        }
    }

    /// The selection of a read request: any earlier selection is dropped,
    /// then each header adds its part.
    pub open spec fn select(self, headers: Seq<ReadHeader>) -> (DatabaseView, u8) {
        self.reset().select_headers(headers, headers.len() as int)
    }

    /// One fragment of the response to the selection, in `space` octets:
    /// selected events first, then the selected static data if all events fit.
    pub open spec fn write_fragment(self, space: int) -> FragmentFill {
        let ev = fill_events(self.events, self.events.len() as int, space);
        if ev.stopped {
            FragmentFill {
                database: DatabaseView { events: ev.events, ..self },
                bytes: ev.bytes,
                info: ResponseInfo { has_events: ev.count > 0, complete: false },
            }
        } else {
            match self.next_static {
                Some(from) if 0 <= from <= self.statics.len() => {
                    let st = fill_statics(self.statics, from, self.statics.len() as int, ev.space);
                    FragmentFill {
                        database: DatabaseView {
                            events: ev.events,
                            next_static: if st.stopped {
                                Some(st.next)
                            } else {
                                None
                            },
                            ..self
                        },
                        bytes: ev.bytes + st.bytes,
                        info: ResponseInfo { has_events: ev.count > 0, complete: !st.stopped },
                    }
                },
                _ => FragmentFill {
                    database: DatabaseView { events: ev.events, next_static: None, ..self },
                    bytes: ev.bytes,
                    info: ResponseInfo { has_events: ev.count > 0, complete: true },
                },
            }
        }
    }

    /// An unsolicited fragment in `space` octets: the unselected events of
    /// the enabled classes are selected, then written as far as they fit.
    pub open spec fn write_unsolicited(self, classes: EventClasses, space: int) -> EventFill {
        let selected = select_classes(self.events, classes);
        fill_events(selected, selected.len() as int, space)
    }

    /// What the internal indications report of the event buffer.
    pub open spec fn events_info(self) -> EventsInfo {
        EventsInfo {
            unwritten_classes: EventClasses {
                class1: has_unwritten(self.events, EventClass::Class1),
                class2: has_unwritten(self.events, EventClass::Class2),
                class3: has_unwritten(self.events, EventClass::Class3),
            },
            is_overflown: self.overflown,
        }
    }

    /// A new event recorded at the end. A full buffer loses its oldest event
    /// for it and is marked overflown.
    pub open spec fn push_event(self, class: EventClass, object: Seq<u8>) -> DatabaseView {
        let e = EventView { class, object, state: EventState::Unselected };
        if self.max_events <= 0 {
            DatabaseView { overflown: true, ..self }
        } else if self.events.len() >= self.max_events {
            DatabaseView {
                events: self.events.subrange(1, self.events.len() as int).push(e),
                overflown: true,
                ..self
            }
        } else {
            DatabaseView { events: self.events.push(e), ..self }
        }
    }
}

/// `buffer` with `bytes` written over it from `start` on.
pub open spec fn overwrite(buffer: Seq<u8>, start: int, bytes: Seq<u8>) -> Seq<u8> {
    buffer.subrange(0, start) + bytes + buffer.subrange(start + bytes.len(), buffer.len() as int)
}

/// Room for objects in a buffer from `start` on.
pub open spec fn room(buffer: Seq<u8>, start: int) -> int {
    if 0 <= start <= buffer.len() {
        buffer.len() - start
    } else {
        0
    }
}

/// Copies `src` over `buffer` from `at` on.
pub fn copy_into(buffer: &mut Vec<u8>, at: usize, src: &Vec<u8>)
    requires
        at + src@.len() <= old(buffer)@.len(),
    ensures
        final(buffer)@ == overwrite(old(buffer)@, at as int, src@),
        final(buffer)@.len() == old(buffer)@.len(),
{
    let n: usize = src.len();
    let total: usize = buffer.len();
    let mut k: usize = 0;
    while k < n
        invariant
            n == src@.len(),
            at + n <= total,
            total == buffer@.len(),
            buffer@.len() == old(buffer)@.len(),
            k <= n,
            buffer@ == overwrite(old(buffer)@, at as int, src@.subrange(0, k as int)),
        decreases n - k,
    {
        let b: u8 = src[k];
        buffer.set(at + k, b);
        k = k + 1;
        proof {
            assert(buffer@ =~= overwrite(old(buffer)@, at as int, src@.subrange(0, k as int)));
        }
    }
    proof {
        assert(src@.subrange(0, n as int) =~= src@);
    }
}

/// The points of an outstation as far as a session needs them: the encoded
/// static data and the buffer of events waiting to be reported.
pub struct Database {
    events: Vec<Event>,
    statics: Vec<Vec<u8>>,
    next_static: Option<usize>,
    overflown: bool,
    max_events: usize,
}

/// The events of a vector as contracts see them.
pub open spec fn event_views(events: Seq<Event>) -> Seq<EventView> {
    Seq::new(events.len(), |i: int| events[i]@)
}

/// The static objects of a vector as contracts see them.
pub open spec fn static_views(statics: Seq<Vec<u8>>) -> Seq<Seq<u8>> {
    Seq::new(statics.len(), |i: int| statics[i]@)
}

impl View for Database {
    type V = DatabaseView;

    closed spec fn view(&self) -> DatabaseView {
        DatabaseView {
            events: event_views(self.events@),
            statics: static_views(self.statics@),
            next_static: match self.next_static {
                Some(i) => Some(i as int),
                None => None,
            },
            overflown: self.overflown,
            max_events: self.max_events as int,
        }
    }
}

impl Database {
    /// An empty database whose event buffer holds at most `max_events` events.
    pub fn new(max_events: usize) -> (db: Database)
        ensures
            db@ == (DatabaseView {
                events: Seq::empty(),
                statics: Seq::empty(),
                next_static: None,
                overflown: false,
                max_events: max_events as int,
            }),
    {
        let db = Database {
            events: Vec::new(),
            statics: Vec::new(),
            next_static: None,
            overflown: false,
            max_events,
        };
        proof {
            assert(db@.events =~= Seq::empty());
            assert(db@.statics =~= Seq::empty());
        }
        db
    }

    /// Number of events in the buffer.
    pub fn num_events(&self) -> (n: usize)
        ensures
            n == self@.events.len(),
    {
        self.events.len()
    }

    /// Adds an encoded static object at the end of the static data.
    pub fn push_static(&mut self, object: Vec<u8>)
        ensures
            final(self)@ == (DatabaseView {
                statics: old(self)@.statics.push(object@),
                ..old(self)@
            }),
    {
        self.statics.push(object);
        proof {
            assert(final(self)@.statics =~= old(self)@.statics.push(object@));
            assert(final(self)@.events =~= old(self)@.events);
        }
    }

    /// Records an event. A full buffer loses its oldest event for it and is
    /// marked overflown.
    pub fn push_event(&mut self, class: EventClass, object: Vec<u8>)
        ensures
            final(self)@ == old(self)@.push_event(class, object@),
    {
        if self.max_events == 0 {
            self.overflown = true;
            proof {
                assert(final(self)@.events =~= old(self)@.events);
                assert(final(self)@.statics =~= old(self)@.statics);
            }
            return ;
        }
        if self.events.len() >= self.max_events {
            self.events.remove(0);
            self.overflown = true;
        }
        self.events.push(Event { class, object, state: EventState::Unselected });
        proof {
            assert(final(self)@.events =~= old(self)@.push_event(class, object@).events);
            assert(final(self)@.statics =~= old(self)@.statics);
        }
    }

    /// Drops the selection: every event becomes unselected again and no
    /// static data is chosen. Events written into unconfirmed fragments are
    /// thereby kept for a later response.
    pub fn reset(&mut self)
        ensures
            final(self)@ == old(self)@.reset(),
    {
        let n: usize = self.events.len();
        let mut i: usize = 0;
        while i < n
            invariant
                n == self.events@.len(),
                n == old(self).events@.len(),
                i <= n,
                self.statics == old(self).statics,
                self.overflown == old(self).overflown,
                self.max_events == old(self).max_events,
                forall|j: int|
                    0 <= j < i ==> (#[trigger] self.events@[j])@ == old(self).events@[j]@.with_state(
                        EventState::Unselected,
                    ),
                forall|j: int| i <= j < n ==> (#[trigger] self.events@[j]) == old(self).events@[j],
            decreases n - i,
        {
            self.events[i].state = EventState::Unselected;
            i = i + 1;
        }
        self.next_static = None;
        proof {
            assert(final(self)@.events =~= old(self)@.reset().events);
        }
    }

    /// Marks the unselected events of the chosen classes as selected.
    fn select_by_class(&mut self, classes: EventClasses)
        ensures
            final(self)@ == (DatabaseView {
                events: select_classes(old(self)@.events, classes),
                ..old(self)@
            }),
    {
        let n: usize = self.events.len();
        let mut i: usize = 0;
        while i < n
            invariant
                n == self.events@.len(),
                n == old(self).events@.len(),
                i <= n,
                self.statics == old(self).statics,
                self.overflown == old(self).overflown,
                self.max_events == old(self).max_events,
                self.next_static == old(self).next_static,
                forall|j: int|
                    0 <= j < i ==> (#[trigger] self.events@[j])@ == select_classes(
                        old(self)@.events,
                        classes,
                    )[j],
                forall|j: int| i <= j < n ==> (#[trigger] self.events@[j]) == old(self).events@[j],
            decreases n - i,
        {
            let unselected = match self.events[i].state {
                EventState::Unselected => true,
                _ => false,
            };
            if unselected && classes.contains(self.events[i].class) {
                self.events[i].state = EventState::Selected;
            }
            i = i + 1;
        }
        proof {
            assert(final(self)@.events =~= select_classes(old(self)@.events, classes));
        }
    }

    /// Applies one header of a read request to the selection.
    fn select_header(&mut self, header: ReadHeader) -> (bits: u8)
        ensures
            (final(self)@, bits) == old(self)@.select_header(header),
    {
        match header {
            ReadHeader::AllObjects(AllObjectsVariation::Group60Var1) => {
                self.next_static = Some(0);
                0
            },
            ReadHeader::AllObjects(AllObjectsVariation::Group60Var2) => {
                self.select_by_class(EventClasses { class1: true, class2: false, class3: false });
                0
            },
            ReadHeader::AllObjects(AllObjectsVariation::Group60Var3) => {
                self.select_by_class(EventClasses { class1: false, class2: true, class3: false });
                0
            },
            ReadHeader::AllObjects(AllObjectsVariation::Group60Var4) => {
                self.select_by_class(EventClasses { class1: false, class2: false, class3: true });
                0
            },
            _ => Iin2::NO_FUNC_CODE_SUPPORT,
        }
    }

    /// Selects what a read request asks for. An earlier selection is dropped
    /// first. A header that names anything but class data raises
    /// `NO_FUNC_CODE_SUPPORT` in the indications returned.
    pub fn select(&mut self, headers: &HeaderCollection) -> (iin2: Iin2)
        ensures
            (final(self)@, iin2.value) == old(self)@.select(read_headers(headers.headers@)),
    {
        self.reset();
        let n: usize = headers.headers.len();
        let mut bits: u8 = 0;
        let mut i: usize = 0;
        while i < n
            invariant
                n == headers.headers@.len(),
                i <= n,
                (self@, bits) == old(self)@.reset().select_headers(
                    read_headers(headers.headers@),
                    i as int,
                ),
            decreases n - i,
        {
            let more: u8 = self.select_header(ReadHeader::get(&headers.headers[i].details));
            bits = bits | more;
            i = i + 1;
        }
        Iin2 { value: bits }
    }

    /// Selects what the headers of a read request ask for. An earlier
    /// selection is dropped first. A header that names anything but class
    /// data raises `NO_FUNC_CODE_SUPPORT` in the indications returned.
    pub fn select_read_headers(&mut self, headers: &Vec<ReadHeader>) -> (iin2: Iin2)
        ensures
            (final(self)@, iin2.value) == old(self)@.select(headers@),
    {
        self.reset();
        let n: usize = headers.len();
        let mut bits: u8 = 0;
        let mut i: usize = 0;
        while i < n
            invariant
                n == headers@.len(),
                i <= n,
                (self@, bits) == old(self)@.reset().select_headers(headers@, i as int),
            decreases n - i,
        {
            let more: u8 = self.select_header(headers[i]);
            bits = bits | more;
            i = i + 1;
        }
        Iin2 { value: bits }
    }

    /// Writes the selected events that fit into `buffer` from `at` on.
    fn write_events(&mut self, buffer: &mut Vec<u8>, at: usize) -> (r: (usize, usize, bool))
        requires
            at <= old(buffer)@.len(),
        ensures
            ({
                let fill = fill_events(
                    old(self)@.events,
                    old(self)@.events.len() as int,
                    old(buffer)@.len() - at,
                );
                &&& final(self)@ == (DatabaseView { events: fill.events, ..old(self)@ })
                &&& final(buffer)@ == overwrite(old(buffer)@, at as int, fill.bytes)
                &&& final(buffer)@.len() == old(buffer)@.len()
                &&& r.0 == at + fill.bytes.len()
                &&& r.0 <= old(buffer)@.len()
                &&& fill.space == old(buffer)@.len() - r.0
                &&& (r.1 > 0) == (fill.count > 0)
                &&& r.2 == fill.stopped
            }),
    {
        let n: usize = self.events.len();
        let total: usize = buffer.len();
        let mut pos: usize = at;
        let mut count: usize = 0;
        let mut stopped = false;
        let mut i: usize = 0;
        proof {
            assert(buffer@ =~= overwrite(old(buffer)@, at as int, Seq::empty()));
        }
        while i < n
            invariant
                n == self.events@.len(),
                n == old(self).events@.len(),
                total == buffer@.len(),
                total == old(buffer)@.len(),
                i <= n,
                at <= pos <= total,
                count <= i,
                self.statics == old(self).statics,
                self.overflown == old(self).overflown,
                self.max_events == old(self).max_events,
                self.next_static == old(self).next_static,
                ({
                    let fill = fill_events(old(self)@.events, i as int, total - at);
                    &&& event_views(self.events@) =~= fill.events
                    &&& buffer@ == overwrite(old(buffer)@, at as int, fill.bytes)
                    &&& pos == at + fill.bytes.len()
                    &&& fill.space == total - pos
                    &&& count == fill.count
                    &&& stopped == fill.stopped
                }),
            decreases n - i,
        {
            let ghost before = fill_events(old(self)@.events, i as int, total - at);
            proof {
                assert(event_views(self.events@)[i as int] == self.events@[i as int]@);
                lemma_fill_events_keeps(old(self)@.events, i as int, total - at);
                assert(before.events[i as int] == old(self)@.events[i as int]);
            }
            let selected = match self.events[i].state {
                EventState::Selected => true,
                _ => false,
            };
            if !stopped && selected {
                let len: usize = self.events[i].object.len();
                if len <= total - pos {
                    let ghost prior = buffer@;
                    copy_into(buffer, pos, &self.events[i].object);
                    self.events[i].state = EventState::Written;
                    proof {
                        let obj = old(self)@.events[i as int].object;
                        assert(buffer@ =~= overwrite(old(buffer)@, at as int, before.bytes + obj));
                    }
                    pos = pos + len;
                    count = count + 1;
                } else {
                    stopped = true;
                }
            }
            i = i + 1;
        }
        proof {
            assert(final(self)@.statics =~= old(self)@.statics);
        }
        (pos, count, stopped)
    }

    /// Writes the selected static objects that fit into `buffer` from `at` on.
    fn write_statics(&mut self, buffer: &mut Vec<u8>, at: usize, from: usize) -> (r: (
        usize,
        bool,
    ))
        requires
            at <= old(buffer)@.len(),
            from <= old(self)@.statics.len(),
        ensures
            ({
                let fill = fill_statics(
                    old(self)@.statics,
                    from as int,
                    old(self)@.statics.len() as int,
                    old(buffer)@.len() - at,
                );
                &&& final(self)@ == (DatabaseView {
                    next_static: if fill.stopped {
                        Some(fill.next)
                    } else {
                        None
                    },
                    ..old(self)@
                })
                &&& final(buffer)@ == overwrite(old(buffer)@, at as int, fill.bytes)
                &&& final(buffer)@.len() == old(buffer)@.len()
                &&& r.0 == at + fill.bytes.len()
                &&& r.1 == fill.stopped
            }),
    {
        let n: usize = self.statics.len();
        let total: usize = buffer.len();
        let mut pos: usize = at;
        let mut next: usize = from;
        let mut stopped = false;
        let mut i: usize = from;
        proof {
            assert(buffer@ =~= overwrite(old(buffer)@, at as int, Seq::empty()));
        }
        while i < n
            invariant
                n == self.statics@.len(),
                total == buffer@.len(),
                total == old(buffer)@.len(),
                from <= i <= n,
                at <= pos <= total,
                *self == *old(self),
                ({
                    let fill = fill_statics(old(self)@.statics, from as int, i as int, total - at);
                    &&& next == fill.next
                    &&& buffer@ == overwrite(old(buffer)@, at as int, fill.bytes)
                    &&& pos == at + fill.bytes.len()
                    &&& fill.space == total - pos
                    &&& stopped == fill.stopped
                }),
            decreases n - i,
        {
            let ghost before = fill_statics(old(self)@.statics, from as int, i as int, total - at);
            proof {
                assert(static_views(self.statics@)[i as int] == self.statics@[i as int]@);
            }
            if !stopped {
                let len: usize = self.statics[i].len();
                if len <= total - pos {
                    copy_into(buffer, pos, &self.statics[i]);
                    proof {
                        let obj = old(self)@.statics[i as int];
                        assert(buffer@ =~= overwrite(old(buffer)@, at as int, before.bytes + obj));
                    }
                    pos = pos + len;
                    next = i + 1;
                } else {
                    stopped = true;
                }
            }
            i = i + 1;
        }
        self.next_static = if stopped {
            Some(next)
        } else {
            None
        };
        proof {
            assert(final(self)@.statics =~= old(self)@.statics);
            assert(final(self)@.events =~= old(self)@.events);
        }
        (pos, stopped)
    }

    /// Writes one fragment of the response to the selection into `buffer`
    /// from `start` on: selected events first, marked as written, then the
    /// selected static data if every event fitted. Returns what the fragment
    /// holds and the position after the last octet written.
    pub fn write_response_headers(&mut self, buffer: &mut Vec<u8>, start: usize) -> (r: (
        ResponseInfo,
        usize,
    ))
        ensures
            ({
                let fill = old(self)@.write_fragment(room(old(buffer)@, start as int));
                &&& final(self)@ == fill.database
                &&& final(buffer)@.len() == old(buffer)@.len()
                &&& r.0 == fill.info
                &&& start <= old(buffer)@.len() ==> {
                    &&& r.1 == start + fill.bytes.len()
                    &&& final(buffer)@ == overwrite(old(buffer)@, start as int, fill.bytes)
                }
                &&& start > old(buffer)@.len() ==> r.1 == start && final(buffer)@ == old(buffer)@
            }),
    {
        let in_range = start <= buffer.len();
        let at: usize = if in_range {
            start
        } else {
            buffer.len()
        };
        let ghost space = room(old(buffer)@, start as int);
        let ghost ev = fill_events(old(self)@.events, old(self)@.events.len() as int, space);
        let ghost fill = old(self)@.write_fragment(space);
        let (pos, count, stopped) = self.write_events(buffer, at);
        proof {
            lemma_fill_events_bounds(old(self)@.events, old(self)@.events.len() as int, space);
            if !in_range {
                assert(ev.bytes.len() == 0);
                assert(buffer@ =~= old(buffer)@);
            }
        }
        let mut end: usize = pos;
        let mut complete = false;
        if !stopped {
            match self.next_static {
                Some(from) if from <= self.statics.len() => {
                    let ghost mid = buffer@;
                    let ghost st = fill_statics(
                        old(self)@.statics,
                        from as int,
                        old(self)@.statics.len() as int,
                        ev.space,
                    );
                    let (after, st_stopped) = self.write_statics(buffer, pos, from);
                    proof {
                        lemma_fill_statics_bounds(
                            old(self)@.statics,
                            from as int,
                            old(self)@.statics.len() as int,
                            ev.space,
                        );
                        assert(fill.bytes == ev.bytes + st.bytes);
                        if in_range {
                            assert(buffer@ =~= overwrite(
                                old(buffer)@,
                                start as int,
                                ev.bytes + st.bytes,
                            ));
                        } else {
                            assert(st.bytes.len() == 0);
                            assert(buffer@ =~= old(buffer)@);
                        }
                    }
                    end = after;
                    complete = !st_stopped;
                },
                _ => {
                    self.next_static = None;
                    proof {
                        assert(final(self)@.statics =~= old(self)@.statics);
                        assert(fill.bytes == ev.bytes);
                    }
                    complete = true;
                },
            }
        }
        if !in_range {
            end = start;
        }
        (ResponseInfo { has_events: count > 0, complete }, end)
    }

    /// Writes an unsolicited fragment into `buffer` from `start` on: the
    /// unselected events of the enabled classes are selected, then written
    /// and marked as far as they fit. Returns the number of events written
    /// and the position after the last octet written.
    pub fn write_unsolicited(&mut self, classes: EventClasses, buffer: &mut Vec<u8>, start: usize) -> (r: (
        usize,
        usize,
    ))
        ensures
            ({
                let fill = old(self)@.write_unsolicited(classes, room(old(buffer)@, start as int));
                &&& final(self)@ == (DatabaseView { events: fill.events, ..old(self)@ })
                &&& final(buffer)@.len() == old(buffer)@.len()
                &&& (r.0 > 0) == (fill.count > 0)
                &&& start <= old(buffer)@.len() ==> {
                    &&& r.1 == start + fill.bytes.len()
                    &&& final(buffer)@ == overwrite(old(buffer)@, start as int, fill.bytes)
                }
                &&& start > old(buffer)@.len() ==> r.1 == start && final(buffer)@ == old(buffer)@
            }),
    {
        let at: usize = if start <= buffer.len() {
            start
        } else {
            buffer.len()
        };
        self.select_by_class(classes);
        let ghost selected = select_classes(old(self)@.events, classes);
        let (pos, count, stopped) = self.write_events(buffer, at);
        proof {
            lemma_fill_events_bounds(
                selected,
                selected.len() as int,
                room(old(buffer)@, start as int),
            );
            if start > old(buffer)@.len() {
                assert(buffer@ =~= old(buffer)@);
            }
        }
        (count, if start <= buffer.len() {
            pos
        } else {
            start
        })
    }

    /// Removes the events that were written into fragments: the master has
    /// confirmed them. The overflow mark goes when that made room.
    pub fn clear_written_events(&mut self)
        ensures
            final(self)@ == old(self)@.clear_written(),
    {
        let n: usize = self.events.len();
        let mut kept: Vec<Event> = Vec::new();
        let mut rest: Vec<Event> = Vec::new();
        std::mem::swap(&mut self.events, &mut rest);
        let ghost all = event_views(rest@);
        let mut i: usize = 0;
        proof {
            assert(event_views(kept@) =~= all.subrange(0, 0).filter(is_unwritten()));
        }
        while i < n
            invariant
                n == rest@.len(),
                i <= n,
                rest@.len() == all.len(),
                forall|j: int| i <= j < n ==> (#[trigger] rest@[j])@ == all[j],
                event_views(kept@) == all.subrange(0, i as int).filter(is_unwritten()),
            decreases n - i,
        {
            let written = match rest[i].state {
                EventState::Written => true,
                _ => false,
            };
            proof {
                lemma_filter_step(all, i as int);
            }
            if !written {
                let mut object: Vec<u8> = Vec::new();
                std::mem::swap(&mut rest[i].object, &mut object);
                let ghost prior = kept@;
                kept.push(Event { class: rest[i].class, object, state: rest[i].state });
                proof {
                    assert(event_views(kept@) =~= event_views(prior).push(all[i as int]));
                }
            }
            i = i + 1;
        }
        proof {
            assert(all.subrange(0, n as int) =~= all);
        }
        let room_made = kept.len() < self.max_events;
        self.events = kept;
        if room_made {
            self.overflown = false;
        }
        proof {
            assert(final(self)@.statics =~= old(self)@.statics);
        }
    }

    /// What the internal indications report of the event buffer.
    pub fn get_events_info(&self) -> (info: EventsInfo)
        ensures
            info == self@.events_info(),
    {
        let n: usize = self.events.len();
        let mut class1 = false;
        let mut class2 = false;
        let mut class3 = false;
        let mut i: usize = 0;
        while i < n
            invariant
                n == self.events@.len(),
                i <= n,
                class1 == has_unwritten(self@.events.subrange(0, i as int), EventClass::Class1),
                class2 == has_unwritten(self@.events.subrange(0, i as int), EventClass::Class2),
                class3 == has_unwritten(self@.events.subrange(0, i as int), EventClass::Class3),
            decreases n - i,
        {
            let written = match self.events[i].state {
                EventState::Written => true,
                _ => false,
            };
            proof {
                assert(self@.events[i as int] == self.events@[i as int]@);
                lemma_has_unwritten_step(self@.events, i as int, EventClass::Class1);
                lemma_has_unwritten_step(self@.events, i as int, EventClass::Class2);
                lemma_has_unwritten_step(self@.events, i as int, EventClass::Class3);
            }
            if !written {
                match self.events[i].class {
                    EventClass::Class1 => {
                        class1 = true;
                    },
                    EventClass::Class2 => {
                        class2 = true;
                    },
                    EventClass::Class3 => {
                        class3 = true;
                    },
                }
            }
            i = i + 1;
        }
        proof {
            assert(self@.events.subrange(0, n as int) =~= self@.events);
        }
        EventsInfo {
            unwritten_classes: EventClasses { class1, class2, class3 },
            is_overflown: self.overflown,
        }
    }
}

/// Filtering one element more either appends it or changes nothing.
proof fn lemma_filter_step(all: Seq<EventView>, i: int)
    requires
        0 <= i < all.len(),
    ensures
        ({
            let pred = is_unwritten();
            all.subrange(0, i + 1).filter(pred) == if pred(all[i]) {
                all.subrange(0, i).filter(pred).push(all[i])
            } else {
                all.subrange(0, i).filter(pred)
            }
        }),
{
    let s = all.subrange(0, i + 1);
    assert(s.drop_last() =~= all.subrange(0, i));
    assert(s.last() == all[i]);
    reveal(Seq::filter);
}

/// Looking at one event more finds an unwritten event of the class there or
/// among those before.
proof fn lemma_has_unwritten_step(events: Seq<EventView>, i: int, class: EventClass)
    requires
        0 <= i < events.len(),
    ensures
        has_unwritten(events.subrange(0, i + 1), class) == (has_unwritten(
            events.subrange(0, i),
            class,
        ) || (events[i].class == class && events[i].state != EventState::Written)),
{
    let a = events.subrange(0, i);
    let b = events.subrange(0, i + 1);
    if has_unwritten(a, class) {
        let j = choose|j: int|
            0 <= j < a.len() && (#[trigger] a[j]).class == class && a[j].state
                != EventState::Written;
        assert(b[j] == a[j]);
    }
    if events[i].class == class && events[i].state != EventState::Written {
        assert(b[i] == events[i]);
    }
    if has_unwritten(b, class) {
        let j = choose|j: int|
            0 <= j < b.len() && (#[trigger] b[j]).class == class && b[j].state
                != EventState::Written;
        if j < i {
            assert(a[j] == b[j]);
        }
    }
}

/// Writing the first `n` events leaves the others as they were, keeps the
/// number of events, and marks only selected events, as written.
pub proof fn lemma_fill_events_keeps(events: Seq<EventView>, n: int, space: int)
    requires
        n <= events.len(),
    ensures
        ({
            let fill = fill_events(events, n, space);
            &&& fill.events.len() == events.len()
            &&& forall|j: int| n <= j < events.len() ==> fill.events[j] == #[trigger] events[j]
            &&& forall|j: int|
                0 <= j < events.len() ==> (#[trigger] fill.events[j]) == events[j] || (events[j].state
                    == EventState::Selected && fill.events[j] == events[j].with_state(
                    EventState::Written,
                ))
        }),
    decreases n,
{
    if n > 0 {
        lemma_fill_events_keeps(events, n - 1, space);
    }
}

/// What is written never exceeds the room given, and what is left is the
/// room less what was written.
pub proof fn lemma_fill_events_bounds(events: Seq<EventView>, n: int, space: int)
    requires
        space >= 0,
    ensures
        ({
            let fill = fill_events(events, n, space);
            &&& fill.space >= 0
            &&& fill.count >= 0
            &&& fill.bytes.len() + fill.space == space
        }),
    decreases n,
{
    if n > 0 {
        lemma_fill_events_bounds(events, n - 1, space);
    }
}

/// What is written never exceeds the room given, and what is left is the
/// room less what was written.
pub proof fn lemma_fill_statics_bounds(statics: Seq<Seq<u8>>, from: int, n: int, space: int)
    requires
        space >= 0,
    ensures
        ({
            let fill = fill_statics(statics, from, n, space);
            &&& fill.space >= 0
            &&& fill.bytes.len() + fill.space == space
            &&& from <= fill.next
            &&& n >= from ==> fill.next <= n
        }),
    decreases n - from,
{
    if n > from {
        lemma_fill_statics_bounds(statics, from, n - 1, space);
    }
}

/// True when two runs of events hold the same events in the same order,
/// whatever their states.
pub open spec fn same_events(a: Seq<EventView>, b: Seq<EventView>) -> bool {
    &&& a.len() == b.len()
    &&& forall|i: int|
        0 <= i < a.len() ==> (#[trigger] a[i]).class == b[i].class && a[i].object == b[i].object
}

/// True when no event is in the state `state`.
pub open spec fn none_in_state(events: Seq<EventView>, state: EventState) -> bool {
    forall|i: int| 0 <= i < events.len() ==> (#[trigger] events[i]).state != state
}

/// Selecting changes the state of events and nothing else about them, and
/// never marks an event as written.
pub proof fn lemma_select_headers_keeps(db: DatabaseView, headers: Seq<ReadHeader>, n: int)
    ensures
        ({
            let after = db.select_headers(headers, n).0;
            &&& same_events(after.events, db.events)
            &&& after.statics == db.statics
            &&& after.overflown == db.overflown
            &&& after.max_events == db.max_events
            &&& none_in_state(db.events, EventState::Written) ==> none_in_state(
                after.events,
                EventState::Written,
            )
        }),
    decreases n,
{
    if n > 0 {
        lemma_select_headers_keeps(db, headers, n - 1);
    }
}

/// Writing events changes the state of events and nothing else about them.
pub proof fn lemma_fill_events_same(events: Seq<EventView>, n: int, space: int)
    requires
        n <= events.len(),
    ensures
        same_events(fill_events(events, n, space).events, events),
    decreases n,
{
    if n > 0 {
        lemma_fill_events_same(events, n - 1, space);
    }
}

/// A read that is not confirmed loses nothing: when the selection is
/// dropped after a fragment has been written, for a deadline that passed or
/// a new request that came, the database is as it was before the read with
/// its selection dropped. Every event can be reported again.
pub proof fn lemma_read_then_reset_restores(db: DatabaseView, headers: Seq<ReadHeader>, space: int)
    ensures
        db.select(headers).0.write_fragment(space).database.reset() == db.reset(),
        none_in_state(db.events, EventState::Selected) && none_in_state(
            db.events,
            EventState::Written,
        ) ==> db.reset().events == db.events,
{
    let selected = db.select(headers).0;
    lemma_select_headers_keeps(db.reset(), headers, headers.len() as int);
    lemma_fill_events_same(selected.events, selected.events.len() as int, space);
    let after = selected.write_fragment(space).database;
    assert(same_events(after.events, db.events));
    assert(after.reset().events =~= db.reset().events);
    if none_in_state(db.events, EventState::Selected) && none_in_state(
        db.events,
        EventState::Written,
    ) {
        assert(db.reset().events =~= db.events);
    }
}

/// An unsolicited fragment that is not confirmed loses nothing either.
pub proof fn lemma_unsolicited_then_reset_restores(
    db: DatabaseView,
    classes: EventClasses,
    space: int,
)
    ensures
        unselect_all(db.write_unsolicited(classes, space).events) == unselect_all(db.events),
{
    let selected = select_classes(db.events, classes);
    lemma_fill_events_same(selected, selected.len() as int, space);
    assert(unselect_all(db.write_unsolicited(classes, space).events) =~= unselect_all(db.events));
}

/// Number of events among the first `n` that are in the state `Written`.
pub open spec fn count_written(events: Seq<EventView>, n: int) -> int
    decreases n,
{
    if n <= 0 {
        0
    } else {
        count_written(events, n - 1) + if events[n - 1].state == EventState::Written {
            1int
        } else {
            0int
        }
    }
}

/// Removing the written events removes as many events as are written.
pub proof fn lemma_without_written_len(events: Seq<EventView>, n: int)
    requires
        0 <= n <= events.len(),
    ensures
        without_written(events.subrange(0, n)).len() + count_written(events, n) == n,
    decreases n,
{
    if n == 0 {
        assert(events.subrange(0, 0) =~= Seq::<EventView>::empty());
        reveal(Seq::filter);
    } else {
        lemma_without_written_len(events, n - 1);
        lemma_filter_step(events, n - 1);
    }
}

/// Writing events marks exactly as many as it counts: when none was marked
/// before, the number of written events afterwards is the number that the
/// writing reports.
pub proof fn lemma_fill_events_counts(events: Seq<EventView>, n: int, space: int)
    requires
        0 <= n <= events.len(),
        none_in_state(events, EventState::Written),
    ensures
        count_written(fill_events(events, n, space).events, events.len() as int)
            == fill_events(events, n, space).count,
    decreases n,
{
    let len = events.len() as int;
    if n == 0 {
        lemma_count_written_none(events, len);
    } else {
        lemma_fill_events_counts(events, n - 1, space);
        let p = fill_events(events, n - 1, space);
        let f = fill_events(events, n, space);
        lemma_fill_events_keeps(events, n - 1, space);
        if f.events != p.events {
            assert(p.events[n - 1] == events[n - 1]);
            lemma_count_written_update(p.events, n - 1, len);
        }
    }
}

/// Where no event is written, none is counted.
pub proof fn lemma_count_written_none(events: Seq<EventView>, n: int)
    requires
        n <= events.len(),
        none_in_state(events, EventState::Written),
    ensures
        count_written(events, n) == 0,
    decreases n,
{
    if n > 0 {
        lemma_count_written_none(events, n - 1);
    }
}

/// Marking one event that was not written as written adds one to the count.
pub proof fn lemma_count_written_update(events: Seq<EventView>, i: int, n: int)
    requires
        0 <= i < events.len(),
        n <= events.len(),
        events[i].state != EventState::Written,
    ensures
        count_written(events.update(i, events[i].with_state(EventState::Written)), n)
            == count_written(events, n) + if i < n {
            1int
        } else {
            0int
        },
    decreases n,
{
    if n > 0 {
        lemma_count_written_update(events, i, n - 1);
    }
}

/// A read that is confirmed drains the events that its fragment reported,
/// each exactly once: after the confirmation the buffer is shorter by the
/// number of events written, none of those left is marked as written, and a
/// second confirmation finds nothing more to remove.
pub proof fn lemma_read_then_confirm_drains(db: DatabaseView, headers: Seq<ReadHeader>, space: int)
    requires
        space >= 0,
    ensures
        ({
            let selected = db.select(headers).0;
            let fill = fill_events(selected.events, selected.events.len() as int, space);
            let after = selected.write_fragment(space).database.clear_written();
            &&& after.events.len() + fill.count == db.events.len()
            &&& none_in_state(after.events, EventState::Written)
            &&& after.clear_written().events == after.events
        }),
{
    let selected = db.select(headers).0;
    let len = selected.events.len() as int;
    let fill = fill_events(selected.events, len, space);
    let written = selected.write_fragment(space).database;
    let after = written.clear_written();
    lemma_select_headers_keeps(db.reset(), headers, headers.len() as int);
    assert(none_in_state(db.reset().events, EventState::Written));
    lemma_fill_events_counts(selected.events, len, space);
    lemma_fill_events_same(selected.events, len, space);
    assert(written.events == fill.events);
    lemma_without_written_len(written.events, len);
    assert(written.events.subrange(0, len) =~= written.events);
    lemma_without_written_clean(written.events);
}

/// What is left when the written events are removed holds no written
/// event, and removing them again changes nothing.
pub proof fn lemma_without_written_clean(events: Seq<EventView>)
    ensures
        none_in_state(without_written(events), EventState::Written),
        without_written(without_written(events)) == without_written(events),
{
    let kept = without_written(events);
    broadcast use vstd::seq_lib::group_filter_ensures;

    assert forall|i: int| 0 <= i < kept.len() implies (#[trigger] kept[i]).state
        != EventState::Written by {
        assert(is_unwritten()(kept[i]));
    }
    lemma_filter_all(kept);
}

/// Filtering a run of events that all pass the filter changes nothing.
proof fn lemma_filter_all(events: Seq<EventView>)
    requires
        none_in_state(events, EventState::Written),
    ensures
        without_written(events) == events,
    decreases events.len(),
{
    reveal(Seq::filter);
    if events.len() > 0 {
        let init = events.drop_last();
        assert forall|i: int| 0 <= i < init.len() implies (#[trigger] init[i]).state
            != EventState::Written by {
            assert(init[i] == events[i]);
        }
        lemma_filter_all(init);
        assert(events.last() == events[events.len() - 1]);
        assert(without_written(events) =~= events);
    } else {
        assert(without_written(events) =~= events);
    }
}

} // verus!
