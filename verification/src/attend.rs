//! Attendance: what can be attended, the code that proves presence, and the
//! book of who attended what.

use crate::crypto::{gen_code, is_code, secrets_match, CryptoError};
use crate::text::{numbered_path, numeral};
use crate::users::Identity;
use vstd::prelude::*;

verus! {

// ---------------------------------------------------------------------------
// What can be attended
// ---------------------------------------------------------------------------

/// What an attendable is, as plain values.
pub ghost struct AttendableView {
    pub id: int,
    pub name: Seq<char>,
    /// The scheduled time, in seconds since the epoch.
    pub time: int,
    pub code: Seq<char>,
    pub owner_id: int,
    pub is_event: bool,
    pub url: Seq<char>,
}

/// Something that members attend and that proves their presence by a code:
/// an event or a meeting.
pub trait Attendable: core::fmt::Debug {
    /// The attendable as plain values.
    spec fn facts(&self) -> AttendableView;

    fn id(&self) -> (id: i32)
        ensures
            id == self.facts().id,
    ;

    fn name(&self) -> (name: String)
        ensures
            name@ == self.facts().name,
    ;

    /// The scheduled time, in seconds since the epoch.
    fn time(&self) -> (time: i64)
        ensures
            time == self.facts().time,
    ;

    /// The code that is currently accepted.
    fn code(&self) -> (code: String)
        ensures
            code@ == self.facts().code,
    ;

    fn owner_id(&self) -> (owner: i32)
        ensures
            owner == self.facts().owner_id,
    ;

    fn is_event(&self) -> (event: bool)
        ensures
            event == self.facts().is_event,
    ;

    /// The path of the attendable's page.
    fn url(&self) -> (url: String)
        ensures
            url@ == self.facts().url,
    ;
}

/// An event on the calendar.
#[derive(Debug, PartialEq, Eq)]
pub struct Event {
    pub id: i32,
    pub name: String,
    pub time: i64,
    pub code: String,
    pub owner_id: i32,
}

/// A meeting of a group.
#[derive(Debug, PartialEq, Eq)]
pub struct Meeting {
    pub id: i32,
    pub group_id: i32,
    pub name: String,
    pub time: i64,
    pub code: String,
    pub owner_id: i32,
}

/// The path of an event's page: `/calendar/` and the event's id.
pub open spec fn event_url(id: int) -> Seq<char> {
    "/calendar/"@ + numeral(id)
}

/// The path of a meeting's page, which is its group's: `/groups/` and the
/// group's id.
pub open spec fn meeting_url(group_id: int) -> Seq<char> {
    "/groups/"@ + numeral(group_id)
}

impl Attendable for Event {
    open spec fn facts(&self) -> AttendableView {
        AttendableView {
            id: self.id as int,
            name: self.name@,
            time: self.time as int,
            code: self.code@,
            owner_id: self.owner_id as int,
            is_event: true,
            url: event_url(self.id as int),
        }
    }

    fn id(&self) -> (id: i32) {
        self.id
    }

    fn name(&self) -> (name: String) {
        self.name.clone()
    }

    fn time(&self) -> (time: i64) {
        self.time
    }

    fn code(&self) -> (code: String) {
        self.code.clone()
    }

    fn owner_id(&self) -> (owner: i32) {
        self.owner_id
    }

    fn is_event(&self) -> (event: bool) {
        true
    }

    fn url(&self) -> (url: String) {
        numbered_path("/calendar/", self.id)
    }
}

impl Attendable for Meeting {
    open spec fn facts(&self) -> AttendableView {
        AttendableView {
            id: self.id as int,
            name: self.name@,
            time: self.time as int,
            code: self.code@,
            owner_id: self.owner_id as int,
            is_event: false,
            url: meeting_url(self.group_id as int),
        }
    }

    fn id(&self) -> (id: i32) {
        self.id
    }

    fn name(&self) -> (name: String) {
        self.name.clone()
    }

    fn time(&self) -> (time: i64) {
        self.time
    }

    fn code(&self) -> (code: String) {
        self.code.clone()
    }

    fn owner_id(&self) -> (owner: i32) {
        self.owner_id
    }

    fn is_event(&self) -> (event: bool) {
        false
    }

    fn url(&self) -> (url: String) {
        numbered_path("/groups/", self.group_id)
    }
}

impl Event {
    /// A new event with a freshly drawn code.
    pub fn create(id: i32, name: String, time: i64, owner_id: i32) -> (r: Result<
        Event,
        CryptoError,
    >)
        ensures
            r matches Ok(event) ==> {
                &&& event.id == id
                &&& event.name@ == name@
                &&& event.time == time
                &&& event.owner_id == owner_id
                &&& is_code(event.code@)
            },
    {
        match gen_code() {
            Ok(code) => Ok(Event::with_code(id, name, time, owner_id, code)),
            Err(e) => Err(e),
        }
    }

    /// Replaces the event's code by a freshly drawn one. If none can be
    /// drawn the event is left as it was.
    pub fn regenerate_code(&mut self) -> (r: Result<(), CryptoError>)
        ensures
            final(self).id == old(self).id,
            final(self).name@ == old(self).name@,
            final(self).time == old(self).time,
            final(self).owner_id == old(self).owner_id,
            r is Ok ==> is_code(final(self).code@),
            r is Err ==> final(self).code@ == old(self).code@,
    {
        match gen_code() {
            Ok(code) => {
                self.set_code(code);
                Ok(())
            },
            Err(e) => Err(e),
        }
    }
}

impl Meeting {
    /// A new meeting with a freshly drawn code.
    pub fn create(id: i32, group_id: i32, name: String, time: i64, owner_id: i32) -> (r: Result<
        Meeting,
        CryptoError,
    >)
        ensures
            r matches Ok(meeting) ==> {
                &&& meeting.id == id
                &&& meeting.group_id == group_id
                &&& meeting.name@ == name@
                &&& meeting.time == time
                &&& meeting.owner_id == owner_id
                &&& is_code(meeting.code@)
            },
    {
        match gen_code() {
            Ok(code) => Ok(Meeting::with_code(id, group_id, name, time, owner_id, code)),
            Err(e) => Err(e),
        }
    }

    /// Replaces the meeting's code by a freshly drawn one. If none can be
    /// drawn the meeting is left as it was.
    pub fn regenerate_code(&mut self) -> (r: Result<(), CryptoError>)
        ensures
            final(self).id == old(self).id,
            final(self).group_id == old(self).group_id,
            final(self).name@ == old(self).name@,
            final(self).time == old(self).time,
            final(self).owner_id == old(self).owner_id,
            r is Ok ==> is_code(final(self).code@),
            r is Err ==> final(self).code@ == old(self).code@,
    {
        match gen_code() {
            Ok(code) => {
                self.set_code(code);
                Ok(())
            },
            Err(e) => Err(e),
        }
    }
}

impl Event {
    /// The event with the given fields and the given code: what `create`
    /// returns once a code has been drawn.
    pub fn with_code(id: i32, name: String, time: i64, owner_id: i32, code: String) -> (event:
        Event)
        ensures
            event.id == id,
            event.name@ == name@,
            event.time == time,
            event.owner_id == owner_id,
            event.code@ == code@,
    {
        Event { id, name, time, code, owner_id }
    }

    /// Makes `code` the event's code and leaves everything else as it was:
    /// what `regenerate_code` does once a code has been drawn.
    pub fn set_code(&mut self, code: String)
        ensures
            final(self).code@ == code@,
            final(self).id == old(self).id,
            final(self).name@ == old(self).name@,
            final(self).time == old(self).time,
            final(self).owner_id == old(self).owner_id,
    {
        self.code = code;
    }
}

impl Meeting {
    /// The meeting with the given fields and the given code: what `create`
    /// returns once a code has been drawn.
    pub fn with_code(
        id: i32,
        group_id: i32,
        name: String,
        time: i64,
        owner_id: i32,
        code: String,
    ) -> (meeting: Meeting)
        ensures
            meeting.id == id,
            meeting.group_id == group_id,
            meeting.name@ == name@,
            meeting.time == time,
            meeting.owner_id == owner_id,
            meeting.code@ == code@,
    {
        Meeting { id, group_id, name, time, code, owner_id }
    }

    /// Makes `code` the meeting's code and leaves everything else as it
    /// was: what `regenerate_code` does once a code has been drawn.
    pub fn set_code(&mut self, code: String)
        ensures
            final(self).code@ == code@,
            final(self).id == old(self).id,
            final(self).group_id == old(self).group_id,
            final(self).name@ == old(self).name@,
            final(self).time == old(self).time,
            final(self).owner_id == old(self).owner_id,
    {
        self.code = code;
    }
}

// ---------------------------------------------------------------------------
// The code and its window
// ---------------------------------------------------------------------------

/// The stretch of time around an attendable's scheduled time in which its
/// code is accepted, both ends included.
#[derive(Clone, Copy, Debug, PartialEq, Eq, Structural)]
pub struct CodeWindow {
    /// Seconds before the scheduled time at which the window opens.
    pub opens_before: u32,
    /// Seconds after the scheduled time at which the window closes.
    pub closes_after: u32,
}

impl CodeWindow {
    /// Whether the window of an attendable scheduled at `time` is open at
    /// `now`.
    pub open spec fn spec_is_open(self, time: int, now: int) -> bool {
        time - self.opens_before <= now && now <= time + self.closes_after
    }

    /// Whether the window of an attendable scheduled at `time` is open at
    /// `now`.
    pub fn is_open(&self, time: i64, now: i64) -> (open: bool)
        ensures
            open == self.spec_is_open(time as int, now as int),
    {
        let t: i128 = time as i128;
        let n: i128 = now as i128;
        t - (self.opens_before as i128) <= n && n <= t + (self.closes_after as i128)
    }
}

/// Why a submission was not accepted.
#[derive(Clone, Copy, Debug, PartialEq, Eq, Structural)]
pub enum AttendError {
    /// The submitted code is not the attendable's code.
    CodeMismatch,
    /// The submission came outside the code's window.
    WindowClosed,
    /// The member is already recorded for this attendable, under a code
    /// other than the one submitted.
    Conflict,
}

/// What the member is told of each failure.
pub open spec fn attend_error_message(error: AttendError) -> Seq<char> {
    match error {
        AttendError::CodeMismatch => "That code is not correct."@,
        AttendError::WindowClosed => "Attendance is not open at this time."@,
        AttendError::Conflict => "You are already recorded under a different code."@,
    }
}

impl AttendError {
    /// What the member is told. Each failure has a message of its own.
    pub fn message(&self) -> (text: &'static str)
        ensures
            text@ == attend_error_message(*self),
    {
        match self {
            AttendError::CodeMismatch => "That code is not correct.",
            AttendError::WindowClosed => "Attendance is not open at this time.",
            AttendError::Conflict => "You are already recorded under a different code.",
        }
    }
}

/// No two failures share a message.
pub proof fn lemma_messages_distinct(a: AttendError, b: AttendError)
    requires
        a != b,
    ensures
        attend_error_message(a) != attend_error_message(b),
{
    reveal_strlit("That code is not correct.");
    reveal_strlit("Attendance is not open at this time.");
    reveal_strlit("You are already recorded under a different code.");
    assert("That code is not correct."@.len() == 25);
    assert("Attendance is not open at this time."@.len() == 36);
    assert("You are already recorded under a different code."@.len() == 48);
}

/// What becomes of a submitted code: outside the window it is turned away
/// as `WindowClosed` whatever it is; inside, as `CodeMismatch` unless it is
/// the stored code.
pub open spec fn code_verdict(
    submitted: Seq<char>,
    stored: Seq<char>,
    time: int,
    now: int,
    window: CodeWindow,
) -> Result<(), AttendError> {
    if !window.spec_is_open(time, now) {
        Err(AttendError::WindowClosed)
    } else if submitted != stored {
        Err(AttendError::CodeMismatch)
    } else {
        Ok(())
    }
}

/// Checks a submitted code against the code of an attendable scheduled at
/// `time`, at the moment `now`. The codes are compared in constant time, and
/// they are compared even when the window is closed.
pub fn verify_code(submitted: &str, stored: &str, time: i64, now: i64, window: &CodeWindow) -> (r:
    Result<(), AttendError>)
    ensures
        r == code_verdict(submitted@, stored@, time as int, now as int, *window),
{
    let same = secrets_match(submitted, stored);
    if !window.is_open(time, now) {
        Err(AttendError::WindowClosed)
    } else if !same {
        Err(AttendError::CodeMismatch)
    } else {
        Ok(())
    }
}

// ---------------------------------------------------------------------------
// The book
// ---------------------------------------------------------------------------

/// A member and an attendable: what a record is about.
pub ghost struct Slot {
    pub user_id: int,
    pub is_event: bool,
    pub attendable_id: int,
}

/// That a member attended an event or a meeting.
#[derive(Debug, PartialEq, Eq)]
pub struct AttendanceRecord {
    pub user_id: i32,
    pub is_event: bool,
    pub attendable_id: i32,
    /// When the record was made, in seconds since the epoch.
    pub time: i64,
    /// The code under which the record was made.
    pub code: String,
}

/// What a record is, as plain values.
pub ghost struct RecordView {
    pub user_id: int,
    pub is_event: bool,
    pub attendable_id: int,
    pub time: int,
    pub code: Seq<char>,
}

impl RecordView {
    /// The member and attendable that the record is about.
    pub open spec fn slot(self) -> Slot {
        Slot {
            user_id: self.user_id,
            is_event: self.is_event,
            attendable_id: self.attendable_id,
        }
    }
}

impl View for AttendanceRecord {
    type V = RecordView;

    open spec fn view(&self) -> RecordView {
        RecordView {
            user_id: self.user_id as int,
            is_event: self.is_event,
            attendable_id: self.attendable_id as int,
            time: self.time as int,
            code: self.code@,
        }
    }
}

impl Clone for AttendanceRecord {
    fn clone(&self) -> (copy: Self)
        ensures
            copy@ == self@,
    {
        AttendanceRecord {
            user_id: self.user_id,
            is_event: self.is_event,
            attendable_id: self.attendable_id,
            time: self.time,
            code: self.code.clone(),
        }
    }
}

/// The slot of a member and an attendable.
pub open spec fn slot_of(user_id: int, attendable: AttendableView) -> Slot {
    Slot { user_id, is_event: attendable.is_event, attendable_id: attendable.id }
}

/// No two records are about the same member and attendable.
pub open spec fn unique_slots(book: Seq<RecordView>) -> bool {
    forall|i: int, j: int|
        0 <= i < j < book.len() ==> (#[trigger] book[i]).slot() != (#[trigger] book[j]).slot()
}

/// The number of records about `slot`.
pub open spec fn count_for(book: Seq<RecordView>, slot: Slot) -> nat
    decreases book.len(),
{
    if book.len() == 0 {
        0
    } else {
        count_for(book.drop_last(), slot) + if book.last().slot() == slot {
            1nat
        } else {
            0nat
        }
    }
}

/// The record about `slot`, if there is one (the last, should there be
/// several).
pub open spec fn lookup(book: Seq<RecordView>, slot: Slot) -> Option<RecordView>
    decreases book.len(),
{
    if book.len() == 0 {
        None
    } else if book.last().slot() == slot {
        Some(book.last())
    } else {
        lookup(book.drop_last(), slot)
    }
}

/// A book in which no record is about `slot` holds none for it.
pub proof fn lemma_absent(book: Seq<RecordView>, slot: Slot)
    requires
        forall|i: int| 0 <= i < book.len() ==> (#[trigger] book[i]).slot() != slot,
    ensures
        count_for(book, slot) == 0,
        lookup(book, slot) is None,
    decreases book.len(),
{
    if book.len() > 0 {
        let rest = book.drop_last();
        assert forall|i: int| 0 <= i < rest.len() implies (#[trigger] rest[i]).slot() != slot by {
            assert(rest[i] == book[i]);
        }
        lemma_absent(rest, slot);
    }
}

/// In a book without duplicates, a record is the only one about its slot,
/// and it is the one that `lookup` finds.
pub proof fn lemma_present(book: Seq<RecordView>, i: int)
    requires
        unique_slots(book),
        0 <= i < book.len(),
    ensures
        count_for(book, book[i].slot()) == 1,
        lookup(book, book[i].slot()) == Some(book[i]),
    decreases book.len(),
{
    let slot = book[i].slot();
    let rest = book.drop_last();
    let last = book.len() - 1;
    assert(forall|k: int| 0 <= k < rest.len() ==> rest[k] == book[k]);
    if i == last {
        assert forall|k: int| 0 <= k < rest.len() implies (#[trigger] rest[k]).slot() != slot by {
            assert(book[k].slot() != book[last].slot());
        }
        lemma_absent(rest, slot);
    } else {
        assert(book[i].slot() != book[last].slot());
        assert(unique_slots(rest)) by {
            assert forall|a: int, b: int| 0 <= a < b < rest.len() implies (
            #[trigger] rest[a]).slot() != (#[trigger] rest[b]).slot() by {
                assert(book[a].slot() != book[b].slot());
            }
        }
        assert(rest[i] == book[i]);
        lemma_present(rest, i);
    }
}

/// A book holds a record about `slot` exactly if `lookup` finds one, and
/// what it finds is about `slot`.
pub proof fn lemma_lookup(book: Seq<RecordView>, slot: Slot)
    ensures
        lookup(book, slot) matches Some(r) ==> r.slot() == slot && book.contains(r),
        lookup(book, slot) is None ==> count_for(book, slot) == 0,
        lookup(book, slot) is Some ==> count_for(book, slot) >= 1,
    decreases book.len(),
{
    if book.len() > 0 {
        let rest = book.drop_last();
        lemma_lookup(rest, slot);
        if book.last().slot() == slot {
            assert(book[book.len() - 1] == book.last());
        } else {
            if lookup(rest, slot) is Some {
                let r = lookup(rest, slot)->0;
                let k = choose|k: int| 0 <= k < rest.len() && rest[k] == r;
                assert(book[k] == r);
            }
        }
    }
}

/// Adding a record about a slot that the book holds nothing for keeps the
/// book free of duplicates.
pub proof fn lemma_push_unique(book: Seq<RecordView>, record: RecordView)
    requires
        unique_slots(book),
        lookup(book, record.slot()) is None,
    ensures
        unique_slots(book.push(record)),
        count_for(book.push(record), record.slot()) == 1,
        lookup(book.push(record), record.slot()) == Some(record),
{
    let next = book.push(record);
    lemma_lookup(book, record.slot());
    assert(next.drop_last() =~= book);
    assert forall|i: int, j: int| 0 <= i < j < next.len() implies (#[trigger] next[i]).slot() != (
    #[trigger] next[j]).slot() by {
        if j < book.len() {
            assert(book[i].slot() != book[j].slot());
        } else {
            if book[i].slot() == record.slot() {
                lemma_present(book, i);
            }
        }
    }
}

/// The book after a submission by the member `user_id` for `attendable` at
/// the moment `now`: a record is added if the submission passes the code's
/// check and the book holds none for the member and the attendable; in
/// every other case the book stays as it is.
pub open spec fn book_after(
    book: Seq<RecordView>,
    user_id: int,
    attendable: AttendableView,
    submitted: Seq<char>,
    now: int,
    window: CodeWindow,
) -> Seq<RecordView> {
    let slot = slot_of(user_id, attendable);
    if code_verdict(submitted, attendable.code, attendable.time, now, window) is Ok && lookup(
        book,
        slot,
    ) is None {
        book.push(
            RecordView {
                user_id,
                is_event: attendable.is_event,
                attendable_id: attendable.id,
                time: now,
                code: submitted,
            },
        )
    } else {
        book
    }
}

/// What the member is told of a submission: the verdict on the code if it
/// fails; `Conflict` if the code passes but the member is already recorded
/// for the attendable under another code; success otherwise, whether a
/// record was added or the member was already recorded under this code.
pub open spec fn submission_result(
    book: Seq<RecordView>,
    user_id: int,
    attendable: AttendableView,
    submitted: Seq<char>,
    now: int,
    window: CodeWindow,
) -> Result<(), AttendError> {
    let verdict = code_verdict(submitted, attendable.code, attendable.time, now, window);
    if verdict is Err {
        verdict
    } else {
        match lookup(book, slot_of(user_id, attendable)) {
            Some(record) => if record.code == submitted {
                Ok(())
            } else {
                Err(AttendError::Conflict)
            },
            None => Ok(()),
        }
    }
}

/// The view of a sequence of records.
pub open spec fn records_view(records: Seq<AttendanceRecord>) -> Seq<RecordView> {
    records.map_values(|r: AttendanceRecord| r@)
}

/// The record of who attended what. A well-formed book never holds two
/// records about the same member and attendable; `new` makes one and
/// `submit` keeps it so.
#[derive(Debug)]
pub struct AttendanceBook {
    records: Vec<AttendanceRecord>,
}

impl View for AttendanceBook {
    type V = Seq<RecordView>;

    closed spec fn view(&self) -> Seq<RecordView> {
        records_view(self.records@)
    }
}

impl AttendanceBook {
    /// No two records are about the same member and attendable.
    pub open spec fn well_formed(&self) -> bool {
        unique_slots(self@)
    }

    /// An empty book.
    pub fn new() -> (book: AttendanceBook)
        ensures
            book@ == Seq::<RecordView>::empty(),
            book.well_formed(),
    {
        let book = AttendanceBook { records: Vec::new() };
        assert(records_view(book.records@) =~= Seq::<RecordView>::empty());
        book
    }

    /// A book of the given records, in their order, unless two of them are
    /// about the same member and attendable.
    pub fn from_records(records: Vec<AttendanceRecord>) -> (book: Option<AttendanceBook>)
        ensures
            book is Some <==> unique_slots(records_view(records@)),
            book matches Some(b) ==> b@ == records_view(records@) && b.well_formed(),
    {
        let ghost all = records_view(records@);
        let n = records.len();
        let mut j: usize = 0;
        while j < n
            invariant
                n == records@.len(),
                all == records_view(records@),
                j <= n,
                forall|a: int, b: int|
                    0 <= a < b < j ==> (#[trigger] all[a]).slot() != (#[trigger] all[b]).slot(),
            decreases n - j,
        {
            let mut i: usize = 0;
            while i < j
                invariant
                    n == records@.len(),
                    all == records_view(records@),
                    i <= j < n,
                    forall|a: int|
                        0 <= a < i ==> (#[trigger] all[a]).slot() != all[j as int].slot(),
                decreases j - i,
            {
                let x = &records[i];
                let y = &records[j];
                if x.user_id == y.user_id && x.is_event == y.is_event && x.attendable_id
                    == y.attendable_id {
                    proof {
                        assert(all[i as int] == x@);
                        assert(all[j as int] == y@);
                        assert(all[i as int].slot() == all[j as int].slot());
                    }
                    return None;
                }
                proof {
                    assert(all[i as int] == x@);
                    assert(all[j as int] == y@);
                }
                i = i + 1;
            }
            j = j + 1;
        }
        Some(AttendanceBook { records })
    }

    /// The number of records.
    pub fn len(&self) -> (n: usize)
        ensures
            n == self@.len(),
    {
        self.records.len()
    }

    /// A copy of the `i`-th record, in the order in which the records were
    /// made, if there are that many.
    pub fn get(&self, i: usize) -> (record: Option<AttendanceRecord>)
        ensures
            i < self@.len() ==> record is Some && record->0@ == self@[i as int],
            i >= self@.len() ==> record is None,
    {
        if i < self.records.len() {
            Some(self.records[i].clone())
        } else {
            None
        }
    }

    /// A copy of the record about the member and the attendable, if there is
    /// one.
    pub fn find(&self, user_id: i32, is_event: bool, attendable_id: i32) -> (record: Option<
        AttendanceRecord,
    >)
        requires
            self.well_formed(),
        ensures
            option_record_view(record) == lookup(
                self@,
                Slot {
                    user_id: user_id as int,
                    is_event,
                    attendable_id: attendable_id as int,
                },
            ),
    {
        let ghost slot = Slot {
            user_id: user_id as int,
            is_event,
            attendable_id: attendable_id as int,
        };
        let n = self.records.len();
        let mut i: usize = 0;
        while i < n
            invariant
                n == self.records@.len(),
                i <= n,
                self@ == records_view(self.records@),
                unique_slots(self@),
                slot == (Slot {
                    user_id: user_id as int,
                    is_event,
                    attendable_id: attendable_id as int,
                }),
                forall|k: int| 0 <= k < i ==> (#[trigger] self@[k]).slot() != slot,
            decreases n - i,
        {
            let r = &self.records[i];
            if r.user_id == user_id && r.is_event == is_event && r.attendable_id == attendable_id {
                proof {
                    assert(self@[i as int] == r@);
                    lemma_present(self@, i as int);
                }
                return Some(r.clone());
            }
            proof {
                assert(self@[i as int] == r@);
            }
            i = i + 1;
        }
        proof {
            lemma_absent(self@, slot);
        }
        None
    }

    /// The number of records about the member and the attendable: 0 or 1.
    pub fn count(&self, user_id: i32, is_event: bool, attendable_id: i32) -> (n: usize)
        requires
            self.well_formed(),
        ensures
            n == count_for(
                self@,
                Slot {
                    user_id: user_id as int,
                    is_event,
                    attendable_id: attendable_id as int,
                },
            ),
            n <= 1,
    {
        let ghost slot = Slot {
            user_id: user_id as int,
            is_event,
            attendable_id: attendable_id as int,
        };
        proof {
            lemma_lookup(self@, slot);
            if lookup(self@, slot) is Some {
                let r = lookup(self@, slot)->0;
                let k = choose|k: int| 0 <= k < self@.len() && self@[k] == r;
                lemma_present(self@, k);
            }
        }
        match self.find(user_id, is_event, attendable_id) {
            Some(_) => 1,
            None => 0,
        }
    }

    /// Takes a member's submission of a code for an attendable at the moment
    /// `now`.
    ///
    /// The code must pass `verify_code` against the attendable's code and
    /// scheduled time. If it does and the member is not yet recorded for the
    /// attendable, a record is added. If the member is already recorded
    /// under the same code, nothing changes and the submission succeeds. If
    /// the member is recorded under another code, the submission fails with
    /// `Conflict`. No failing submission changes the book.
    pub fn submit<A: Attendable>(
        &mut self,
        identity: &Identity,
        attendable: &A,
        submitted: &str,
        now: i64,
        window: &CodeWindow,
    ) -> (r: Result<(), AttendError>)
        requires
            old(self).well_formed(),
        ensures
            final(self)@ == book_after(
                old(self)@,
                identity@.id,
                attendable.facts(),
                submitted@,
                now as int,
                *window,
            ),
            r == submission_result(
                old(self)@,
                identity@.id,
                attendable.facts(),
                submitted@,
                now as int,
                *window,
            ),
            final(self).well_formed(),
    {
        let stored = attendable.code();
        let time = attendable.time();
        let is_event = attendable.is_event();
        let attendable_id = attendable.id();
        match verify_code(submitted, stored.as_str(), time, now, window) {
            Err(e) => {
                return Err(e);
            },
            Ok(()) => {},
        }
        match self.find(identity.id, is_event, attendable_id) {
            Some(record) => {
                if secrets_match(record.code.as_str(), submitted) {
                    Ok(())
                } else {
                    Err(AttendError::Conflict)
                }
            },
            None => {
                let record = AttendanceRecord {
                    user_id: identity.id,
                    is_event,
                    attendable_id,
                    time: now,
                    code: submitted.to_owned(),
                };
                proof {
                    lemma_push_unique(old(self)@, record@);
                    assert(records_view(self.records@.push(record)) =~= records_view(
                        self.records@,
                    ).push(record@));
                }
                self.records.push(record);
                Ok(())
            },
        }
    }
}

/// The view of an optional record.
pub open spec fn option_record_view(record: Option<AttendanceRecord>) -> Option<RecordView> {
    match record {
        Some(r) => Some(r@),
        None => None,
    }
}

} // verus!
