//! Core value types: errors, text validation, the string/enum interner, and
//! the bounded output message batch.

use vstd::prelude::*;
use vstd::string::StrSliceExecFns;
use vstd::string::StringExecFns;
use crate::events::RecordPayload;

verus! {

/// Errors that the conversion engine can report to the driver.
/// Both are fatal for the current call; the driver aborts the run.
#[derive(Clone, Copy, Debug, PartialEq, Eq, Structural)]
pub enum Error {
    /// A text value holds an embedded NUL and cannot be represented in the
    /// sink's string type.
    TextConversion,
    /// The output message batch is full.
    MessageVecFull,
}

/// A stable handle into the interner's string table.
pub type StrHandle = usize;

/// A text value is representable in the sink's string type exactly when it
/// holds no embedded NUL character.
pub open spec fn text_ok(s: Seq<char>) -> bool {
    !s.contains('\0')
}

/// Checks a text value for embedded NUL characters.
pub fn check_text(s: &str) -> (r: bool)
    ensures
        r == text_ok(s@),
{
    let n = s.unicode_len();
    let mut i: usize = 0;
    while i < n
        invariant
            n == s@.len(),
            i <= n,
            forall|j: int| 0 <= j < i ==> s@[j] != '\0',
        decreases n - i,
    {
        if s.get_char(i) == '\0' {
            assert(s@.contains('\0')) by {
                assert(s@[i as int] == '\0');
            }
            return false;
        }
        i += 1;
    }
    assert(!s@.contains('\0'));
    true
}

/// Compares two string slices by content.
pub fn str_eq(a: &str, b: &str) -> (r: bool)
    ensures
        r == (a@ == b@),
{
    let na = a.unicode_len();
    let nb = b.unicode_len();
    if na != nb {
        assert(a@ != b@) by {
            if a@ == b@ {
                assert(a@.len() == b@.len());
            }
        }
        return false;
    }
    let mut i: usize = 0;
    while i < na
        invariant
            na == a@.len(),
            na == b@.len(),
            i <= na,
            forall|j: int| 0 <= j < i ==> a@[j] == b@[j],
        decreases na - i,
    {
        if a.get_char(i) != b.get_char(i) {
            assert(a@ != b@) by {
                if a@ == b@ {
                    assert(a@[i as int] == b@[i as int]);
                }
            }
            return false;
        }
        i += 1;
    }
    proof {
        assert(a@ =~= b@);
    }
    true
}

/// Memoizes conversions of transient text and of enumerated event kinds into
/// stable interned handles.  A distinct text value is stored at most once;
/// handles are indices into the table and never move.  Event kinds are keyed
/// separately by their numeric kind value so that a kind's name and an
/// identical free-form string cannot collide.
pub struct StringCache {
    /// The string table: distinct, NUL-free entries, append-only.
    pub strings: Vec<String>,
    /// One entry per interned event kind: (kind, handle into `strings`).
    pub event_types: Vec<(u16, StrHandle)>,
}

impl StringCache {
    /// The interned texts, by handle.
    pub open spec fn strings_view(&self) -> Seq<Seq<char>> {
        self.strings@.map_values(|s: String| s@)
    }

    pub open spec fn wf(&self) -> bool {
        &&& forall|i: int, j: int|
            0 <= i < j < self.strings_view().len() ==> self.strings_view()[i]
                != self.strings_view()[j]
        &&& forall|i: int|
            0 <= i < self.strings_view().len() ==> text_ok(#[trigger] self.strings_view()[i])
        &&& forall|i: int|
            0 <= i < self.event_types@.len() ==> (#[trigger] self.event_types@[i]).1
                < self.strings@.len()
        &&& forall|i: int, j: int|
            0 <= i < j < self.event_types@.len() ==> self.event_types@[i].0
                != self.event_types@[j].0
    }

    /// Whether some handle already resolves to the text `s`.
    pub open spec fn has_str(&self, s: Seq<char>) -> bool {
        exists|i: int| 0 <= i < self.strings_view().len() && self.strings_view()[i] == s
    }

    /// Whether the event kind `kind` has been interned.
    pub open spec fn has_type(&self, kind: u16) -> bool {
        exists|i: int| 0 <= i < self.event_types@.len() && (#[trigger] self.event_types@[i]).0 == kind
    }

    /// Whether `h` is the handle recorded for the event kind `kind`.
    pub open spec fn type_handle_is(&self, kind: u16, h: StrHandle) -> bool {
        exists|i: int| 0 <= i < self.event_types@.len() && #[trigger] self.event_types@[i] == (kind, h)
    }

    /// The text recorded for an already-interned event kind.
    pub open spec fn type_text(&self, kind: u16) -> Seq<char> {
        let i = choose|i: int|
            0 <= i < self.event_types@.len() && (#[trigger] self.event_types@[i]).0 == kind;
        self.strings_view()[self.event_types@[i].1 as int]
    }

    pub fn new() -> (r: StringCache)
        ensures
            r.wf(),
            r.strings_view() == Seq::<Seq<char>>::empty(),
            r.event_types@ == Seq::<(u16, StrHandle)>::empty(),
    {
        let r = StringCache { strings: Vec::new(), event_types: Vec::new() };
        proof {
            assert(r.strings_view() =~= Seq::<Seq<char>>::empty());
        }
        r
    }

    /// Interns a free-form text value.  The first call for a given text
    /// performs the conversion (which fails exactly when the text holds an
    /// embedded NUL) and stores it; later calls with an equal text return the
    /// same handle and leave the cache unchanged.
    pub fn insert_str(&mut self, key: &str) -> (r: Result<StrHandle, Error>)
        requires
            old(self).wf(),
        ensures
            final(self).wf(),
            final(self).event_types@ == old(self).event_types@,
            old(self).strings_view().is_prefix_of(final(self).strings_view()),
            r is Ok <==> text_ok(key@),
            r matches Ok(h) ==> {
                &&& h < final(self).strings_view().len()
                &&& final(self).strings_view()[h as int] == key@
                &&& !old(self).has_str(key@) ==> {
                    &&& final(self).strings_view() == old(self).strings_view().push(key@)
                    &&& h == old(self).strings@.len()
                }
            },
            old(self).has_str(key@) ==> *final(self) == *old(self),
            r is Err ==> *final(self) == *old(self),
    {
        let n = self.strings.len();
        let mut i: usize = 0;
        while i < n
            invariant
                self == old(self),
                old(self).wf(),
                n == self.strings@.len(),
                i <= n,
                forall|j: int| 0 <= j < i ==> self.strings_view()[j] != key@,
            decreases n - i,
        {
            if str_eq(self.strings[i].as_str(), key) {
                proof {
                    // present entries are NUL-free, so the conversion succeeds
                    assert(text_ok(self.strings_view()[i as int]));
                }
                return Ok(i);
            }
            i += 1;
        }
        assert(!self.has_str(key@));
        if !check_text(key) {
            return Err(Error::TextConversion);
        }
        let h = self.strings.len();
        self.strings.push(String::from_str(key));
        proof {
            assert(self.strings_view() =~= old(self).strings_view().push(key@));
        }
        Ok(h)
    }

    /// Resolves a handle to the interned text.
    pub fn get_str(&self, handle: StrHandle) -> (r: &str)
        requires
            handle < self.strings@.len(),
        ensures
            r@ == self.strings_view()[handle as int],
    {
        self.strings[handle].as_str()
    }

    /// Interns an event kind's display name, keyed by the numeric kind value.
    /// The first call for a kind records `name`; later calls for the same kind
    /// return the recorded handle and ignore `name`.
    pub fn insert_type(&mut self, kind: u16, name: &str) -> (r: Result<StrHandle, Error>)
        requires
            old(self).wf(),
        ensures
            final(self).wf(),
            old(self).strings_view().is_prefix_of(final(self).strings_view()),
            r is Ok <==> old(self).has_type(kind) || text_ok(name@),
            old(self).has_type(kind) ==> *final(self) == *old(self),
            r matches Ok(h) ==> {
                &&& final(self).type_handle_is(kind, h)
                &&& h < final(self).strings_view().len()
                &&& final(self).strings_view()[h as int] == spec_type_text(*old(self), kind, name@)
            },
            r is Ok ==> final(self).has_type(kind) && final(self).type_text(kind) == spec_type_text(
                *old(self),
                kind,
                name@,
            ),
            forall|k: u16| old(self).has_type(k) ==> final(self).has_type(k),
            !old(self).has_type(kind) ==> final(self).has_type(kind) || r is Err,
            r is Err ==> *final(self) == *old(self),
            final(self).event_types@.len() >= old(self).event_types@.len(),
    {
        let n = self.event_types.len();
        let mut i: usize = 0;
        while i < n
            invariant
                self == old(self),
                old(self).wf(),
                n == self.event_types@.len(),
                i <= n,
                forall|j: int| 0 <= j < i ==> (#[trigger] self.event_types@[j]).0 != kind,
            decreases n - i,
        {
            let entry = self.event_types[i];
            if entry.0 == kind {
                proof {
                    assert(self.event_types@[i as int] == (kind, entry.1));
                    let ic = choose|k: int|
                        0 <= k < self.event_types@.len() && (#[trigger] self.event_types@[k]).0
                            == kind;
                    // interned kinds are unique, so the found entry is the recorded one
                    assert(ic == i as int);
                }
                return Ok(entry.1);
            }
            i += 1;
        }
        assert(!self.has_type(kind));
        let h = match self.insert_str(name) {
            Ok(h) => h,
            Err(e) => {
                return Err(e);
            },
        };
        self.event_types.push((kind, h));
        proof {
            assert(self.event_types@[self.event_types@.len() - 1] == (kind, h));
            let ic = choose|k: int|
                0 <= k < self.event_types@.len() && (#[trigger] self.event_types@[k]).0 == kind;
            assert(ic == self.event_types@.len() - 1);
            lemma_type_text_of_handle(*self, kind, h);
            assert forall|k: u16| old(self).has_type(k) implies self.has_type(k) by {
                let iw = choose|i: int|
                    0 <= i < old(self).event_types@.len() && (
                    #[trigger] old(self).event_types@[i]).0 == k;
                assert(self.event_types@[iw].0 == k);
            }
        }
        Ok(h)
    }

    /// Looks up the handle recorded for an event kind.
    pub fn get_type(&self, kind: u16) -> (r: Option<StrHandle>)
        requires
            self.wf(),
        ensures
            r is Some <==> self.has_type(kind),
            r matches Some(h) ==> self.type_handle_is(kind, h) && h < self.strings@.len(),
    {
        let n = self.event_types.len();
        let mut i: usize = 0;
        while i < n
            invariant
                self.wf(),
                n == self.event_types@.len(),
                i <= n,
                forall|j: int| 0 <= j < i ==> (#[trigger] self.event_types@[j]).0 != kind,
            decreases n - i,
        {
            let entry = self.event_types[i];
            if entry.0 == kind {
                proof {
                    assert(self.event_types@[i as int] == (kind, entry.1));
                }
                return Some(entry.1);
            }
            i += 1;
        }
        None
    }

    /// The number of distinct interned texts.
    pub fn strings_len(&self) -> (r: usize)
        ensures
            r == self.strings_view().len(),
    {
        self.strings.len()
    }
}

/// The text that resolving an event kind yields after interning it: the text
/// already recorded for the kind if there is one, else the freshly given name.
pub open spec fn spec_type_text(cache: StringCache, kind: u16, fresh: Seq<char>) -> Seq<char> {
    if cache.has_type(kind) {
        cache.type_text(kind)
    } else {
        fresh
    }
}

/// The shared context every emitted record carries: the numeric event id, the
/// reconstructed monotonic event count, and the reconstructed monotonic
/// timestamp in ticks.
#[derive(Clone, Copy, Debug, PartialEq, Eq, Structural)]
pub struct CommonContext {
    pub id: u16,
    pub event_count: u64,
    pub timer: u64,
}

/// One emitted event record: the schema it belongs to (an index into the
/// engine's class table), its clock timestamp, the common context, and the
/// kind-specific payload.
#[derive(Clone, Copy, Debug, PartialEq, Eq, Structural)]
pub struct EventRecord {
    pub class: usize,
    pub timestamp: u64,
    pub common: CommonContext,
    pub payload: RecordPayload,
}

/// One message of the output stream: an event record, a loss marker, or a
/// stream/packet boundary.
#[derive(Clone, Copy, Debug, PartialEq, Eq, Structural)]
pub enum Message {
    Event(EventRecord),
    /// Events were lost; carries how many.
    DiscardedEvents(u64),
    StreamBegin,
    StreamEnd,
    PacketBegin,
    PacketEnd,
}

/// What one driver-loop invocation produced.
#[derive(Clone, Copy, Debug, PartialEq, Eq, Structural)]
pub enum MessageIteratorStatus {
    /// No messages this call; ask again.
    NoMessages,
    /// This many messages were produced.
    Messages(u64),
    /// The stream is finished; no further calls will produce anything.
    Done,
}

/// The bounded message batch one driver-loop invocation fills: messages are
/// appended in order up to a fixed capacity supplied by the caller.
pub struct BorrowedCtfState {
    pub messages: Vec<Message>,
    pub capacity: usize,
}

impl BorrowedCtfState {
    pub open spec fn msgs(&self) -> Seq<Message> {
        self.messages@
    }

    pub open spec fn cap(&self) -> int {
        self.capacity as int
    }

    pub open spec fn wf(&self) -> bool {
        &&& self.messages@.len() <= self.capacity
        &&& self.capacity >= 1
    }

    pub fn new(capacity: usize) -> (r: BorrowedCtfState)
        requires
            capacity >= 1,
        ensures
            r.wf(),
            r.msgs() == Seq::<Message>::empty(),
            r.cap() == capacity,
    {
        BorrowedCtfState { messages: Vec::new(), capacity }
    }

    /// How many more messages the batch can take.
    pub fn remaining(&self) -> (r: usize)
        requires
            self.wf(),
        ensures
            r == self.cap() - self.msgs().len(),
    {
        self.capacity - self.messages.len()
    }

    /// How many messages the batch holds.
    pub fn message_count(&self) -> (r: usize)
        ensures
            r == self.msgs().len(),
    {
        self.messages.len()
    }

    /// Builds an event-record message for a registered class.
    pub fn create_message(
        &self,
        event_class: usize,
        timestamp: u64,
        common: CommonContext,
        payload: RecordPayload,
    ) -> (r: Message)
        ensures
            r == Message::Event(EventRecord { class: event_class, timestamp, common, payload }),
    {
        Message::Event(EventRecord { class: event_class, timestamp, common, payload })
    }

    /// Appends a message; fails exactly when the batch is full.
    pub fn push_message(&mut self, msg: Message) -> (r: Result<(), Error>)
        requires
            old(self).wf(),
        ensures
            final(self).wf(),
            final(self).cap() == old(self).cap(),
            r is Ok <==> old(self).msgs().len() < old(self).cap(),
            r is Ok ==> final(self).msgs() == old(self).msgs().push(msg),
            r is Err ==> *final(self) == *old(self) && r == Err::<(), Error>(
                Error::MessageVecFull,
            ),
    {
        if self.messages.len() >= self.capacity {
            Err(Error::MessageVecFull)
        } else {
            self.messages.push(msg);
            Ok(())
        }
    }

    /// Finishes the batch: reports whether it holds messages, and hands the
    /// ordered messages back to the driver.
    pub fn release(self) -> (r: (MessageIteratorStatus, Vec<Message>))
        ensures
            r.1@ == self.msgs(),
            r.0 == spec_release_status(self.msgs().len()),
    {
        let status = if self.messages.len() == 0 {
            MessageIteratorStatus::NoMessages
        } else {
            MessageIteratorStatus::Messages(self.messages.len() as u64)
        };
        (status, self.messages)
    }
}

/// The status `release` reports for a batch of `n` messages.
pub open spec fn spec_release_status(n: nat) -> MessageIteratorStatus {
    if n == 0 {
        MessageIteratorStatus::NoMessages
    } else {
        MessageIteratorStatus::Messages(n as u64)
    }
}

/// A handle into a prefix of a grown string table still resolves to the same
/// text.
pub proof fn lemma_prefix_index(s1: Seq<Seq<char>>, s2: Seq<Seq<char>>, i: int)
    requires
        s1.is_prefix_of(s2),
        0 <= i < s1.len(),
    ensures
        s2[i] == s1[i],
{
    assert(s1 =~= s2.subrange(0, s1.len() as int));
}

/// An interned kind's text survives interning more strings: as long as the
/// kind entries are unchanged and the string table only grew, the kind
/// resolves to the same text.
pub proof fn lemma_type_text_stable(c1: StringCache, c2: StringCache, kind: u16)
    requires
        c1.wf(),
        c1.has_type(kind),
        c2.event_types@ == c1.event_types@,
        c1.strings_view().is_prefix_of(c2.strings_view()),
    ensures
        c2.has_type(kind),
        c2.type_text(kind) == c1.type_text(kind),
{
    let i1 = choose|i: int|
        0 <= i < c1.event_types@.len() && (#[trigger] c1.event_types@[i]).0 == kind;
    assert(c2.event_types@[i1].0 == kind);
    let i2 = choose|i: int|
        0 <= i < c2.event_types@.len() && (#[trigger] c2.event_types@[i]).0 == kind;
    assert(c1.event_types@[i2] == c2.event_types@[i2]);
    let h1 = c1.event_types@[i1].1;
    let h2 = c2.event_types@[i2].1;
    assert(h1 < c1.strings_view().len());
    assert(h2 < c1.strings_view().len());
    assert(c2.strings_view()[h1 as int] == c1.strings_view()[h1 as int]) by {
        assert(c1.strings_view() =~= c2.strings_view().subrange(
            0,
            c1.strings_view().len() as int,
        ));
    }
    assert(c2.strings_view()[h2 as int] == c1.strings_view()[h2 as int]) by {
        assert(c1.strings_view() =~= c2.strings_view().subrange(
            0,
            c1.strings_view().len() as int,
        ));
    }
    if i1 != i2 {
        assert(c1.event_types@[i1].0 != c1.event_types@[i2].0);
        assert(false);
    }
}

/// In a well-formed cache, a recorded (kind, handle) entry pins down what the
/// kind's text is.
pub proof fn lemma_type_text_of_handle(cache: StringCache, kind: u16, h: StrHandle)
    requires
        cache.wf(),
        cache.type_handle_is(kind, h),
    ensures
        cache.has_type(kind),
        h < cache.strings@.len(),
        cache.type_text(kind) == cache.strings_view()[h as int],
{
    let iw = choose|i: int|
        0 <= i < cache.event_types@.len() && #[trigger] cache.event_types@[i] == (kind, h);
    assert(cache.event_types@[iw].0 == kind);
    let ic = choose|i: int|
        0 <= i < cache.event_types@.len() && (#[trigger] cache.event_types@[i]).0 == kind;
    assert(ic == iw);
}

/// Interning is stable: two handles of a well-formed cache that resolve to the
/// same text are the same handle.  Together with `insert_str`'s contract
/// (an already-present text leaves the cache unchanged), interning the same
/// text twice returns an identical handle and performs the underlying
/// conversion exactly once.
pub proof fn lemma_intern_handle_unique(cache: StringCache, i: int, j: int)
    requires
        cache.wf(),
        0 <= i < cache.strings_view().len(),
        0 <= j < cache.strings_view().len(),
        cache.strings_view()[i] == cache.strings_view()[j],
    ensures
        i == j,
{
}

} // verus!
