//! Values that mirror the resources of the remote service, and the contract
//! of a service call.

use vstd::prelude::*;

verus! {

/// `serde_json::Map`: a JSON object.
#[verifier::external_type_specification]
#[verifier::external_body]
#[verifier::reject_recursive_types(K)]
#[verifier::reject_recursive_types(V)]
pub struct ExJsonMap<K, V>(serde_json::Map<K, V>);

/// `serde_json::Value`: any JSON value.
#[verifier::external_type_specification]
#[verifier::external_body]
pub struct ExJsonValue(serde_json::Value);

/// A call of a remote service, known by the domain it belongs to and by its
/// own name. The value itself is the payload of the call.
pub trait Service {
    /// What the remote service answers the call with.
    type Output;

    /// The domain of the service.
    fn domain(&self) -> &str;

    /// The name of the service within its domain.
    fn service(&self) -> &str;
}

/// The identifier of a remote resource, such as `button.open_ring_1`.
#[derive(Debug, Clone, PartialEq, Eq)]
pub struct Entity {
    pub id: String,
}

impl View for Entity {
    type V = Seq<char>;

    /// An entity is its identifier.
    open spec fn view(&self) -> Seq<char> {
        self.id@
    }
}

/// What a context holds.
pub struct ContextView {
    pub id: Seq<char>,
    pub parent_id: Option<Seq<char>>,
    pub user_id: Option<Seq<char>>,
}

/// What caused a state: the identifier of the cause, and those of its parent
/// and of the user behind it, where there are any.
#[derive(Debug, Clone, PartialEq, Eq)]
pub struct Context {
    id: String,
    parent_id: Option<String>,
    user_id: Option<String>,
}

/// The characters of a text that may be missing.
pub open spec fn optional_text(text: Option<String>) -> Option<Seq<char>> {
    match text {
        Some(text) => Some(text@),
        None => None,
    }
}

impl View for Context {
    type V = ContextView;

    closed spec fn view(&self) -> ContextView {
        ContextView {
            id: self.id@,
            parent_id: optional_text(self.parent_id),
            user_id: optional_text(self.user_id),
        }
    }
}

impl Context {
    /// The context of the cause `id`.
    pub fn new(id: String, parent_id: Option<String>, user_id: Option<String>) -> (context: Self)
        ensures
            context@.id == id@,
            context@.parent_id == optional_text(parent_id),
            context@.user_id == optional_text(user_id),
    {
        Context { id, parent_id, user_id }
    }

    /// The identifier of the cause.
    pub fn id(&self) -> (id: &str)
        ensures
            id@ == self@.id,
    {
        self.id.as_str()
    }

    /// The identifier of the cause that this one follows from, if it
    /// follows from one.
    pub fn parent_id(&self) -> (id: Option<&str>)
        ensures
            id is Some <==> self@.parent_id is Some,
            id is Some ==> id->Some_0@ == self@.parent_id->Some_0,
    {
        match &self.parent_id {
            Some(id) => Some(id.as_str()),
            None => None,
        }
    }

    /// The identifier of the user behind the cause, if there is one.
    pub fn user_id(&self) -> (id: Option<&str>)
        ensures
            id is Some <==> self@.user_id is Some,
            id is Some ==> id->Some_0@ == self@.user_id->Some_0,
    {
        match &self.user_id {
            Some(id) => Some(id.as_str()),
            None => None,
        }
    }
}

/// The first second that a timestamp can hold, counted from the start of
/// 1970 in UTC: the start of the year 262144 BCE.
pub const MIN_SECONDS: i64 = -8_334_601_228_800;

/// The last second that a timestamp can hold: the end of the year 262142.
pub const MAX_SECONDS: i64 = 8_210_266_876_799;

/// Whether a second, counted from the start of 1970 in UTC, and a number of
/// nanoseconds within it name a moment. A leap second is written as a
/// billion nanoseconds or more within the last second of a minute.
pub open spec fn is_moment(seconds: i64, nanoseconds: u32) -> bool {
    &&& MIN_SECONDS <= seconds <= MAX_SECONDS
    &&& nanoseconds < 1_000_000_000 || (nanoseconds < 2_000_000_000 && seconds as int % 60 == 59)
}

/// Whether a number of seconds is an offset from UTC: less than a day, to
/// the east or to the west.
pub open spec fn is_offset(offset: i32) -> bool {
    -86_400 < offset < 86_400
}

/// A moment, and the offset from UTC of the local time that it was written
/// in.
#[derive(Debug, Clone, Copy)]
pub struct Timestamp {
    seconds: i64,
    nanoseconds: u32,
    offset: i32,
}

/// What a timestamp holds.
pub struct TimestampView {
    /// The seconds from the start of 1970 in UTC to the moment.
    pub seconds: int,
    /// The nanoseconds from the start of that second.
    pub nanoseconds: int,
    /// The seconds by which the local time is ahead of UTC.
    pub offset: int,
}

impl View for Timestamp {
    type V = TimestampView;

    closed spec fn view(&self) -> TimestampView {
        TimestampView {
            seconds: self.seconds as int,
            nanoseconds: self.nanoseconds as int,
            offset: self.offset as int,
        }
    }
}

impl Timestamp {
    /// Every timestamp names a moment and holds an offset.
    #[verifier::type_invariant]
    spec fn well_formed(&self) -> bool {
        is_moment(self.seconds, self.nanoseconds) && is_offset(self.offset)
    }

    /// The timestamp of the moment `nanoseconds` into the second `seconds`,
    /// written at `offset`; or `None` where these name no moment or no
    /// offset.
    pub fn new(seconds: i64, nanoseconds: u32, offset: i32) -> (stamp: Option<Self>)
        ensures
            stamp is Some <==> is_moment(seconds, nanoseconds) && is_offset(offset),
            stamp is Some ==> stamp->Some_0@ == (TimestampView {
                seconds: seconds as int,
                nanoseconds: nanoseconds as int,
                offset: offset as int,
            }),
    {
        let in_range = MIN_SECONDS <= seconds && seconds <= MAX_SECONDS;
        let within_minute = seconds % 60;
        let in_second = nanoseconds < 1_000_000_000 || (nanoseconds < 2_000_000_000 && (
        within_minute == 59 || within_minute == -1));
        let in_day = -86_400 < offset && offset < 86_400;
        if in_range && in_second && in_day {
            Some(Timestamp { seconds, nanoseconds, offset })
        } else {
            None
        }
    }

    /// The seconds from the start of 1970 in UTC to the moment.
    pub fn seconds(&self) -> (seconds: i64)
        ensures
            seconds == self@.seconds,
            MIN_SECONDS <= seconds <= MAX_SECONDS,
    {
        proof {
            use_type_invariant(self);
        }
        self.seconds
    }

    /// The nanoseconds from the start of the second to the moment.
    pub fn nanoseconds(&self) -> (nanoseconds: u32)
        ensures
            nanoseconds == self@.nanoseconds,
            is_moment(self@.seconds as i64, nanoseconds),
    {
        proof {
            use_type_invariant(self);
        }
        self.nanoseconds
    }

    /// The seconds by which the local time is ahead of UTC.
    pub fn offset(&self) -> (offset: i32)
        ensures
            offset == self@.offset,
            is_offset(offset),
    {
        proof {
            use_type_invariant(self);
        }
        self.offset
    }
}

impl PartialEq for Timestamp {
    /// Two timestamps are equal where they name the same moment, at
    /// whatever offset each is written.
    fn eq(&self, other: &Self) -> (equal: bool) {
        self.seconds == other.seconds && self.nanoseconds == other.nanoseconds
    }
}

impl Eq for Timestamp {

}

impl vstd::std_specs::cmp::PartialEqSpecImpl for Timestamp {
    open spec fn obeys_eq_spec() -> bool {
        true
    }

    open spec fn eq_spec(&self, other: &Self) -> bool {
        self@.seconds == other@.seconds && self@.nanoseconds == other@.nanoseconds
    }
}

/// What a remote resource is at one moment: its state, when the state last
/// changed and when it was last reported, what caused it, and attributes
/// whose shape depends on the kind of resource.
#[derive(Debug, Clone, PartialEq, Eq)]
pub struct State<Attrs = serde_json::Map<String, serde_json::Value>> {
    pub entity: Entity,
    pub state: String,
    pub last_changed: Timestamp,
    pub last_updated: Timestamp,
    pub context: Context,
    pub attributes: Attrs,
}

} // verus!
