//! Vision sessions: an independent conversation with the vision model, its
//! history and usage metadata, and the laws its operations obey.
use vstd::prelude::*;
use crate::client::{opt_text, VisionClientConfig, VisionRequest, VisionResponse};
use crate::external::{
    duration_as_secs, elapsed_reading, instant_elapsed, instant_now, instant_reading,
    is_uuid_v4_text, new_v4_id, note_elapsed, note_instant, note_secs, note_utc, secs_reading,
    utc_now_parts, utc_reading,
};

verus! {

broadcast use vstd::seq_lib::group_seq_properties;

/// Message role.
#[derive(Debug, Clone, Copy, PartialEq, Eq, Structural)]
pub enum MessageRole {
    System,
    User,
    Assistant,
}

/// A point in UTC time: whole seconds since the Unix epoch and the
/// nanoseconds past that second.
#[derive(Debug, Clone, Copy, PartialEq, Eq, Structural)]
pub struct Timestamp {
    pub secs: i64,
    pub nanos: u32,
}

/// A timestamp at or after the Unix epoch whose nanoseconds are below one second.
pub open spec fn valid_timestamp(t: Timestamp) -> bool {
    t.secs >= 0 && t.nanos < 1_000_000_000
}

impl Timestamp {
    /// The current UTC time: an instant at or after the Unix epoch, with its
    /// nanoseconds below one second.
    pub fn now() -> (r: Timestamp)
        ensures
            utc_reading(r.secs, r.nanos),
            r.secs >= 0,
            r.nanos < 1_000_000_000,
    {
        let (secs, nanos) = utc_now_parts();
        proof {
            note_utc(secs, nanos);
        }
        Timestamp { secs, nanos }
    }
}

/// Image data attached to a message.
#[derive(Debug)]
pub struct ImageData {
    pub base64_data: String,
    pub mime_type: String,
    pub description: Option<String>,
}

fn copy_opt_string(o: &Option<String>) -> (r: Option<String>)
    ensures
        r == *o,
{
    match o {
        Some(s) => Some(s.clone()),
        None => None,
    }
}

impl Clone for ImageData {
    fn clone(&self) -> (r: Self)
        ensures
            r == *self,
    {
        ImageData {
            base64_data: self.base64_data.clone(),
            mime_type: self.mime_type.clone(),
            description: copy_opt_string(&self.description),
        }
    }
}

impl ImageData {
    /// Image data of the given encoding and MIME type, with no description.
    pub fn from_base64(base64_data: String, mime_type: String) -> (r: ImageData)
        ensures
            r.base64_data == base64_data,
            r.mime_type == mime_type,
            r.description is None,
    {
        ImageData { base64_data, mime_type, description: None }
    }
}

/// Message in a vision session.
#[derive(Debug)]
pub struct VisionMessage {
    pub role: MessageRole,
    pub content: String,
    pub image_data: Option<ImageData>,
    pub timestamp: Timestamp,
}

impl Clone for VisionMessage {
    fn clone(&self) -> (r: Self)
        ensures
            r == *self,
    {
        VisionMessage {
            role: self.role,
            content: self.content.clone(),
            image_data: match &self.image_data {
                Some(img) => Some(img.clone()),
                None => None,
            },
            timestamp: self.timestamp,
        }
    }
}

/// Session metadata.
#[derive(Debug, Clone)]
pub struct SessionMetadata {
    pub total_requests: u64,
    pub total_tokens_used: u64,
    pub description: Option<String>,
    pub parent_session_id: Option<String>,
}

impl Default for SessionMetadata {
    fn default() -> (r: Self)
        ensures
            r.total_requests == 0,
            r.total_tokens_used == 0,
            r.description is None,
            r.parent_session_id is None,
    {
        SessionMetadata {
            total_requests: 0,
            total_tokens_used: 0,
            description: None,
            parent_session_id: None,
        }
    }
}

/// Session summary for display.
#[derive(Debug, Clone)]
pub struct SessionSummary {
    pub id: String,
    pub message_count: usize,
    pub duration_secs: u64,
    pub idle_secs: u64,
    pub total_requests: u64,
    pub total_tokens: u64,
    pub description: Option<String>,
}

/// A vision session represents an independent conversation with a vision model.
#[derive(Debug)]
pub struct VisionSession {
    pub id: String,
    pub created_at: std::time::Instant,
    pub last_activity: std::time::Instant,
    pub config: VisionClientConfig,
    pub conversation_history: Vec<VisionMessage>,
    pub metadata: SessionMetadata,
}

fn copy_history(h: &Vec<VisionMessage>) -> (r: Vec<VisionMessage>)
    ensures
        r@ == h@,
{
    let mut r: Vec<VisionMessage> = Vec::new();
    let mut i: usize = 0;
    while i < h.len()
        invariant
            i <= h@.len(),
            r@ == h@.take(i as int),
        decreases h@.len() - i,
    {
        r.push(h[i].clone());
        assert(r@ =~= h@.take(i + 1));
        i = i + 1;
    }
    assert(h@.take(h@.len() as int) =~= h@);
    r
}

impl Clone for VisionSession {
    fn clone(&self) -> (r: Self)
        ensures
            r.id == self.id,
            r.created_at == self.created_at,
            r.last_activity == self.last_activity,
            r.config == self.config,
            r.conversation_history@ == self.conversation_history@,
            r.metadata == self.metadata,
    {
        VisionSession {
            id: self.id.clone(),
            created_at: self.created_at,
            last_activity: self.last_activity,
            config: self.config.clone(),
            conversation_history: copy_history(&self.conversation_history),
            metadata: SessionMetadata {
                total_requests: self.metadata.total_requests,
                total_tokens_used: self.metadata.total_tokens_used,
                description: copy_opt_string(&self.metadata.description),
                parent_session_id: copy_opt_string(&self.metadata.parent_session_id),
            },
        }
    }
}

/// The times a summary reports: `duration_secs` is the whole seconds of a
/// reading of the time since the session was created, and `idle_secs` those of
/// a reading of the time since its last activity.
pub open spec fn summary_times(s: VisionSession, r: SessionSummary) -> bool {
    &&& exists|d: std::time::Duration|
        elapsed_reading(s.created_at, d) && #[trigger] secs_reading(d, r.duration_secs)
    &&& exists|d: std::time::Duration|
        elapsed_reading(s.last_activity, d) && #[trigger] secs_reading(d, r.idle_secs)
}

/// Whether a message is a system message.
pub open spec fn is_system(m: VisionMessage) -> bool {
    m.role == MessageRole::System
}

/// The predicate "is a system message", as a value.
pub open spec fn system_pred() -> spec_fn(VisionMessage) -> bool {
    |m: VisionMessage| is_system(m)
}

/// The predicate "is not a system message", as a value.
pub open spec fn non_system_pred() -> spec_fn(VisionMessage) -> bool {
    |m: VisionMessage| !is_system(m)
}

/// The system messages of a history, in order.
pub open spec fn system_messages(h: Seq<VisionMessage>) -> Seq<VisionMessage> {
    h.filter(system_pred())
}

/// The messages of a history that are not system messages, in order.
pub open spec fn non_system_messages(h: Seq<VisionMessage>) -> Seq<VisionMessage> {
    h.filter(non_system_pred())
}

/// The content of the first system message of a history, if it has one.
pub open spec fn first_system_content(h: Seq<VisionMessage>) -> Option<Seq<char>>
    decreases h.len(),
{
    if h.len() == 0 {
        None
    } else if is_system(h[0]) {
        Some(h[0].content@)
    } else {
        first_system_content(h.drop_first())
    }
}

/// `m` has the given role, content and attached image.
pub open spec fn is_message(
    m: VisionMessage,
    role: MessageRole,
    content: Seq<char>,
    image: Option<ImageData>,
) -> bool {
    &&& m.role == role
    &&& m.content@ == content
    &&& m.image_data == image
}

/// `new` is `old` with one message of the given role, content and image
/// appended.
pub open spec fn appended(
    old: Seq<VisionMessage>,
    new: Seq<VisionMessage>,
    role: MessageRole,
    content: Seq<char>,
    image: Option<ImageData>,
) -> bool {
    &&& new.len() == old.len() + 1
    &&& new.drop_last() == old
    &&& is_message(new.last(), role, content, image)
    &&& valid_timestamp(new.last().timestamp)
    &&& utc_reading(new.last().timestamp.secs, new.last().timestamp.nanos)
}

/// `new` is `old` with every system message removed and one system message
/// with `content` appended.
pub open spec fn system_replaced(
    old: Seq<VisionMessage>,
    new: Seq<VisionMessage>,
    content: Seq<char>,
) -> bool {
    appended(non_system_messages(old), new, MessageRole::System, content, None)
}

/// The two sessions are the same conversation apart from history, metadata and
/// activity time.
pub open spec fn same_session(a: VisionSession, b: VisionSession) -> bool {
    &&& a.id == b.id
    &&& a.created_at == b.created_at
    &&& a.config == b.config
}

/// The tokens a response reports, or 0 when it reports none.
pub open spec fn reported_tokens(response: VisionResponse) -> int {
    match response.usage {
        Some(u) => u.total_tokens as int,
        None => 0,
    }
}

/// `m` is `old` after one request that used `tokens` tokens.
pub open spec fn usage_recorded(old: SessionMetadata, m: SessionMetadata, tokens: int) -> bool {
    &&& m.total_requests == old.total_requests + 1
    &&& m.total_tokens_used == old.total_tokens_used + tokens
    &&& m.description == old.description
    &&& m.parent_session_id == old.parent_session_id
}

/// The request that a session with history `earlier` sends for a user turn:
/// the prompt, the image (or an empty `text/plain` placeholder), the
/// session's first system message, and every earlier message that is not a
/// system message, in order, as context; no per-request overrides.
pub open spec fn turn_request(
    r: VisionRequest,
    prompt: Seq<char>,
    image: Option<ImageData>,
    earlier: Seq<VisionMessage>,
) -> bool {
    &&& r.prompt@ == prompt
    &&& match image {
        Some(img) => r.image_base64@ == img.base64_data@ && r.image_mime_type@ == img.mime_type@,
        None => r.image_base64@ == Seq::<char>::empty() && r.image_mime_type@ == "text/plain"@,
    }
    &&& opt_text(r.system_message) == first_system_content(earlier)
    &&& r.history@ == non_system_messages(earlier)
    &&& r.max_tokens is None
    &&& r.temperature is None
}

/// Keeps, in order, the messages of `h` that are (`system` true) or are not
/// (`system` false) system messages.
fn keep_messages(h: &Vec<VisionMessage>, system: bool) -> (r: Vec<VisionMessage>)
    ensures
        system ==> r@ == system_messages(h@),
        !system ==> r@ == non_system_messages(h@),
{
    let ghost pred = if system { system_pred() } else { non_system_pred() };
    let mut r: Vec<VisionMessage> = Vec::new();
    let mut i: usize = 0;
    assert(h@.take(0) == Seq::<VisionMessage>::empty());
    reveal_with_fuel(Seq::filter, 1);
    while i < h.len()
        invariant
            i <= h.len(),
            pred == (if system { system_pred() } else { non_system_pred() }),
            r@ == h@.take(i as int).filter(pred),
        decreases h.len() - i,
    {
        let m = &h[i];
        proof {
            assert(h@.take(i + 1) == h@.take(i as int).push(h@[i as int]));
            h@.take(i as int).lemma_filter_push(h@[i as int], pred);
        }
        let is_sys = match m.role {
            MessageRole::System => true,
            _ => false,
        };
        if is_sys == system {
            r.push(m.clone());
        }
        i = i + 1;
    }
    assert(h@.take(h@.len() as int) == h@);
    r
}

/// Finds the content of the first system message of a history.
fn find_first_system(h: &Vec<VisionMessage>) -> (r: Option<String>)
    ensures
        opt_text(r) == first_system_content(h@),
{
    let mut i: usize = 0;
    while i < h.len()
        invariant
            i <= h.len(),
            first_system_content(h@) == first_system_content(h@.skip(i as int)),
        decreases h.len() - i,
    {
        proof {
            assert(h@.skip(i as int).drop_first() == h@.skip(i + 1));
        }
        match h[i].role {
            MessageRole::System => {
                return Some(h[i].content.clone());
            },
            _ => {},
        }
        i = i + 1;
    }
    None
}

impl VisionSession {
    /// Creates a new vision session with a fresh random id.
    pub fn new(config: VisionClientConfig, description: Option<String>) -> (r: Self)
        ensures
            is_uuid_v4_text(r.id@),
            r.created_at == r.last_activity,
            instant_reading(r.created_at),
            r.config == config,
            r.conversation_history@.len() == 0,
            r.metadata.total_requests == 0,
            r.metadata.total_tokens_used == 0,
            r.metadata.description == description,
            r.metadata.parent_session_id is None,
    {
        let now = instant_now();
        proof {
            note_instant(now);
        }
        let mut metadata = SessionMetadata::default();
        metadata.description = description;
        VisionSession {
            id: new_v4_id(),
            created_at: now,
            last_activity: now,
            config,
            conversation_history: Vec::new(),
            metadata,
        }
    }

    /// Creates a new vision session with a specific id.
    pub fn with_id(id: &str, config: VisionClientConfig, description: Option<String>) -> (r: Self)
        ensures
            r.id@ == id@,
            r.created_at == r.last_activity,
            instant_reading(r.created_at),
            r.config == config,
            r.conversation_history@.len() == 0,
            r.metadata.total_requests == 0,
            r.metadata.total_tokens_used == 0,
            r.metadata.description == description,
            r.metadata.parent_session_id is None,
    {
        let now = instant_now();
        proof {
            note_instant(now);
        }
        let mut metadata = SessionMetadata::default();
        metadata.description = description;
        VisionSession {
            id: String::from_str(id),
            created_at: now,
            last_activity: now,
            config,
            conversation_history: Vec::new(),
            metadata,
        }
    }

    fn push_message(&mut self, role: MessageRole, content: &str, image_data: Option<ImageData>)
        ensures
            appended(
                old(self).conversation_history@,
                final(self).conversation_history@,
                role,
                content@,
                image_data,
            ),
            same_session(*old(self), *final(self)),
            instant_reading(final(self).last_activity),
            final(self).metadata == old(self).metadata,
    {
        self.conversation_history.push(
            VisionMessage {
                role,
                content: String::from_str(content),
                image_data,
                timestamp: Timestamp::now(),
            },
        );
        assert(self.conversation_history@.drop_last() =~= old(self).conversation_history@);
        let now = instant_now();
        proof {
            note_instant(now);
        }
        self.last_activity = now;
    }

    /// Adds a system message to the session.
    pub fn add_system_message(&mut self, content: &str)
        ensures
            appended(
                old(self).conversation_history@,
                final(self).conversation_history@,
                MessageRole::System,
                content@,
                None,
            ),
            same_session(*old(self), *final(self)),
            instant_reading(final(self).last_activity),
            final(self).metadata == old(self).metadata,
    {
        self.push_message(MessageRole::System, content, None);
    }

    /// Adds a user message, with an optional image, to the session.
    pub fn add_user_message(&mut self, content: &str, image_data: Option<ImageData>)
        ensures
            appended(
                old(self).conversation_history@,
                final(self).conversation_history@,
                MessageRole::User,
                content@,
                image_data,
            ),
            same_session(*old(self), *final(self)),
            instant_reading(final(self).last_activity),
            final(self).metadata == old(self).metadata,
    {
        self.push_message(MessageRole::User, content, image_data);
    }

    /// Adds an assistant message to the session.
    pub fn add_assistant_message(&mut self, content: &str)
        ensures
            appended(
                old(self).conversation_history@,
                final(self).conversation_history@,
                MessageRole::Assistant,
                content@,
                None,
            ),
            same_session(*old(self), *final(self)),
            instant_reading(final(self).last_activity),
            final(self).metadata == old(self).metadata,
    {
        self.push_message(MessageRole::Assistant, content, None);
    }

    /// The conversation history.
    pub fn history(&self) -> (r: &[VisionMessage])
        ensures
            r@ == self.conversation_history@,
    {
        self.conversation_history.as_slice()
    }

    /// Time since the session was created.
    pub fn duration(&self) -> (r: std::time::Duration)
        ensures
            elapsed_reading(self.created_at, r),
    {
        let d = instant_elapsed(&self.created_at);
        proof {
            note_elapsed(self.created_at, d);
        }
        d
    }

    /// Time since the last activity.
    pub fn idle_time(&self) -> (r: std::time::Duration)
        ensures
            elapsed_reading(self.last_activity, r),
    {
        let d = instant_elapsed(&self.last_activity);
        proof {
            note_elapsed(self.last_activity, d);
        }
        d
    }

    /// Records one request and the tokens its response reports.
    pub fn update_usage(&mut self, response: &VisionResponse)
        requires
            old(self).metadata.total_requests < u64::MAX,
            old(self).metadata.total_tokens_used + reported_tokens(*response) <= u64::MAX,
        ensures
            usage_recorded(old(self).metadata, final(self).metadata, reported_tokens(*response)),
            final(self).conversation_history == old(self).conversation_history,
            same_session(*old(self), *final(self)),
            instant_reading(final(self).last_activity),
    {
        self.metadata.total_requests = self.metadata.total_requests + 1;
        match &response.usage {
            Some(usage) => {
                self.metadata.total_tokens_used = self.metadata.total_tokens_used
                    + usage.total_tokens as u64;
            },
            None => {},
        }
        let now = instant_now();
        proof {
            note_instant(now);
        }
        self.last_activity = now;
    }

    /// Clears the conversation history, keeping the system messages in order.
    pub fn clear_history(&mut self)
        ensures
            final(self).conversation_history@ == system_messages(
                old(self).conversation_history@,
            ),
            same_session(*old(self), *final(self)),
            instant_reading(final(self).last_activity),
            final(self).metadata == old(self).metadata,
    {
        let system = keep_messages(&self.conversation_history, true);
        self.conversation_history = system;
        let now = instant_now();
        proof {
            note_instant(now);
        }
        self.last_activity = now;
    }

    /// Replaces every system message with a single new one, appended last;
    /// the other messages are kept in order.
    pub fn set_system_message(&mut self, message: &str)
        ensures
            system_replaced(
                old(self).conversation_history@,
                final(self).conversation_history@,
                message@,
            ),
            same_session(*old(self), *final(self)),
            instant_reading(final(self).last_activity),
            final(self).metadata == old(self).metadata,
    {
        let kept = keep_messages(&self.conversation_history, false);
        self.conversation_history = kept;
        self.add_system_message(message);
    }

    /// The content of the first system message, if there is one.
    pub fn first_system_message(&self) -> (r: Option<String>)
        ensures
            opt_text(r) == first_system_content(self.conversation_history@),
    {
        find_first_system(&self.conversation_history)
    }

    /// Starts a user turn: records the user message (with its image, if any)
    /// and returns the request to send for it.
    pub fn begin_turn(&mut self, prompt: &str, image_data: Option<ImageData>) -> (r: VisionRequest)
        ensures
            appended(
                old(self).conversation_history@,
                final(self).conversation_history@,
                MessageRole::User,
                prompt@,
                image_data,
            ),
            turn_request(r, prompt@, image_data, old(self).conversation_history@),
            same_session(*old(self), *final(self)),
            instant_reading(final(self).last_activity),
            final(self).metadata == old(self).metadata,
    {
        let context = keep_messages(&self.conversation_history, false);
        let system = self.first_system_message();
        let recorded = match &image_data {
            Some(img) => Some(img.clone()),
            None => None,
        };
        self.add_user_message(prompt, recorded);
        let request = match &image_data {
            Some(img) => VisionRequest::new(
                prompt,
                img.base64_data.as_str(),
                img.mime_type.as_str(),
            ),
            None => {
                proof {
                    reveal_strlit("");
                    assert(""@ =~= Seq::<char>::empty());
                }
                VisionRequest::new(prompt, "", "text/plain")
            },
        };
        let request = request.with_history(context);
        match system {
            Some(system) => request.with_system_message(system.as_str()),
            None => request,
        }
    }

    /// Finishes a turn: records the assistant's reply and its usage.
    pub fn finish_turn(&mut self, response: &VisionResponse)
        requires
            old(self).metadata.total_requests < u64::MAX,
            old(self).metadata.total_tokens_used + reported_tokens(*response) <= u64::MAX,
        ensures
            appended(
                old(self).conversation_history@,
                final(self).conversation_history@,
                MessageRole::Assistant,
                response.content@,
                None,
            ),
            usage_recorded(old(self).metadata, final(self).metadata, reported_tokens(*response)),
            same_session(*old(self), *final(self)),
            instant_reading(final(self).last_activity),
    {
        self.add_assistant_message(response.content.as_str());
        self.update_usage(response);
    }

    /// A summary of the session.
    pub fn summary(&self) -> (r: SessionSummary)
        ensures
            r.id == self.id,
            r.message_count == self.conversation_history@.len(),
            r.total_requests == self.metadata.total_requests,
            r.total_tokens == self.metadata.total_tokens_used,
            r.description == self.metadata.description,
            summary_times(*self, r),
    {
        let duration = self.duration();
        let duration_secs = duration_as_secs(&duration);
        let idle = self.idle_time();
        let idle_secs = duration_as_secs(&idle);
        proof {
            note_secs(duration, duration_secs);
            note_secs(idle, idle_secs);
        }
        self.summary_at(duration_secs, idle_secs)
    }

    /// The summary of the session, given the whole seconds since it was
    /// created and since its last activity.
    pub fn summary_at(&self, duration_secs: u64, idle_secs: u64) -> (r: SessionSummary)
        ensures
            r.id == self.id,
            r.message_count == self.conversation_history@.len(),
            r.duration_secs == duration_secs,
            r.idle_secs == idle_secs,
            r.total_requests == self.metadata.total_requests,
            r.total_tokens == self.metadata.total_tokens_used,
            r.description == self.metadata.description,
    {
        SessionSummary {
            id: self.id.clone(),
            message_count: self.conversation_history.len(),
            duration_secs,
            idle_secs,
            total_requests: self.metadata.total_requests,
            total_tokens: self.metadata.total_tokens_used,
            description: copy_opt_string(&self.metadata.description),
        }
    }
}


proof fn lemma_first_system_concat(a: Seq<VisionMessage>, b: Seq<VisionMessage>)
    ensures
        first_system_content(a + b) == (match first_system_content(a) {
            Some(c) => Some(c),
            None => first_system_content(b),
        }),
    decreases a.len(),
{
    if a.len() == 0 {
        assert(a + b =~= b);
    } else {
        assert((a + b)[0] == a[0]);
        assert((a + b).drop_first() =~= a.drop_first() + b);
        lemma_first_system_concat(a.drop_first(), b);
    }
}

proof fn lemma_no_system_no_first(s: Seq<VisionMessage>)
    requires
        forall|i: int| 0 <= i < s.len() ==> !is_system(#[trigger] s[i]),
    ensures
        first_system_content(s) is None,
        system_messages(s) == Seq::<VisionMessage>::empty(),
    decreases s.len(),
{
    reveal_with_fuel(Seq::filter, 1);
    if s.len() > 0 {
        assert(!is_system(s[0]));
        assert forall|i: int| 0 <= i < s.drop_first().len() implies !is_system(
            #[trigger] s.drop_first()[i],
        ) by {
            assert(s.drop_first()[i] == s[i + 1]);
        }
        lemma_no_system_no_first(s.drop_first());
        assert forall|i: int| 0 <= i < s.drop_last().len() implies !is_system(
            #[trigger] s.drop_last()[i],
        ) by {
            assert(s.drop_last()[i] == s[i]);
        }
        lemma_no_system_no_first(s.drop_last());
        assert(!is_system(s.last()));
    }
}

proof fn lemma_non_system_has_no_system(h: Seq<VisionMessage>)
    ensures
        forall|i: int|
            0 <= i < non_system_messages(h).len() ==> !is_system(#[trigger] non_system_messages(h)[i]),
{
    assert forall|i: int| 0 <= i < non_system_messages(h).len() implies !is_system(
        #[trigger] non_system_messages(h)[i],
    ) by {
        h.lemma_filter_pred(non_system_pred(), i);
    }
}

/// Setting the system message makes it the one that the next request carries,
/// and the only system message of the history.
pub proof fn law_set_system_message_is_used(
    old_history: Seq<VisionMessage>,
    new_history: Seq<VisionMessage>,
    content: Seq<char>,
)
    requires
        system_replaced(old_history, new_history, content),
    ensures
        first_system_content(new_history) == Some(content),
        system_messages(new_history) == seq![new_history.last()],
{
    let ns = non_system_messages(old_history);
    let m = new_history.last();
    assert(new_history =~= ns.push(m));
    lemma_non_system_has_no_system(ns);
    lemma_no_system_no_first(ns);
    ns.lemma_filter_push(m, system_pred());
    assert(ns.push(m) =~= ns + seq![m]);
    lemma_first_system_concat(ns, seq![m]);
    assert(seq![m].drop_first().len() == 0);
    assert(system_messages(new_history) =~= seq![m]);
}

/// Clearing the history keeps the system message that requests carry.
pub proof fn law_clear_keeps_request_system_message(history: Seq<VisionMessage>)
    ensures
        first_system_content(system_messages(history)) == first_system_content(history),
    decreases history.len(),
{
    reveal_with_fuel(Seq::filter, 2);
    if history.len() > 0 {
        let x = history[0];
        let rest = history.drop_first();
        assert(history =~= seq![x] + rest);
        Seq::filter_distributes_over_add(seq![x], rest, system_pred());
        assert(seq![x].drop_last() =~= Seq::<VisionMessage>::empty());
        law_clear_keeps_request_system_message(rest);
        lemma_first_system_concat(system_messages(seq![x]), system_messages(rest));
        if is_system(x) {
            assert(system_messages(seq![x]) =~= seq![x]);
            assert(seq![x].drop_first().len() == 0);
        } else {
            assert(system_messages(seq![x]) =~= Seq::<VisionMessage>::empty());
            assert(history.drop_first() == rest);
        }
    }
}

/// Clearing the history twice is the same as clearing it once.
pub proof fn law_clear_is_idempotent(history: Seq<VisionMessage>)
    ensures
        system_messages(system_messages(history)) == system_messages(history),
    decreases history.len(),
{
    reveal_with_fuel(Seq::filter, 1);
    if history.len() > 0 {
        let dl = history.drop_last();
        let x = history.last();
        assert(history =~= dl.push(x));
        law_clear_is_idempotent(dl);
        dl.lemma_filter_push(x, system_pred());
        if is_system(x) {
            system_messages(dl).lemma_filter_push(x, system_pred());
        }
    }
}

/// A completed turn appends the user message and then the assistant's reply,
/// keeps everything before them, leaves the system message that requests
/// carry unchanged, and adds both messages, in order, to the context that the
/// next request carries.
pub proof fn law_turn_appends_user_then_assistant(
    h0: Seq<VisionMessage>,
    h1: Seq<VisionMessage>,
    h2: Seq<VisionMessage>,
    prompt: Seq<char>,
    image: Option<ImageData>,
    reply: Seq<char>,
)
    requires
        appended(h0, h1, MessageRole::User, prompt, image),
        appended(h1, h2, MessageRole::Assistant, reply, None),
    ensures
        h2.len() == h0.len() + 2,
        h2.subrange(0, h0.len() as int) == h0,
        is_message(h2[h0.len() as int], MessageRole::User, prompt, image),
        is_message(h2[h0.len() as int + 1], MessageRole::Assistant, reply, None),
        first_system_content(h2) == first_system_content(h0),
        non_system_messages(h2) == non_system_messages(h0) + seq![
            h2[h0.len() as int],
            h2[h0.len() as int + 1],
        ],
{
    let u = h1.last();
    let a = h2.last();
    assert(h1 =~= h0.push(u));
    assert(h2 =~= h1.push(a));
    h0.lemma_filter_push(u, non_system_pred());
    h1.lemma_filter_push(a, non_system_pred());
    assert(h2[h0.len() as int] == u);
    assert(h2[h0.len() as int + 1] == a);
    assert(non_system_messages(h0).push(u).push(a) =~= non_system_messages(h0) + seq![u, a]);
    assert(h2 =~= h0 + seq![u, a]);
    assert(h2.subrange(0, h0.len() as int) =~= h0);
    lemma_first_system_concat(h0, seq![u, a]);
    assert(seq![u, a].drop_first() =~= seq![a]);
    assert(seq![a].drop_first() =~= Seq::<VisionMessage>::empty());
    assert(first_system_content(Seq::<VisionMessage>::empty()) is None);
    assert(seq![a][0] == a);
    assert(first_system_content(seq![a]) is None);
    assert(first_system_content(seq![u, a]) is None);
}

/// The request a session sends for a turn depends only on the turn's input
/// and that session's own history: two sessions with equal histories send
/// the same request for the same input.
pub proof fn law_turn_request_depends_only_on_own_history(
    r1: VisionRequest,
    r2: VisionRequest,
    prompt: Seq<char>,
    image: Option<ImageData>,
    history: Seq<VisionMessage>,
)
    requires
        turn_request(r1, prompt, image, history),
        turn_request(r2, prompt, image, history),
    ensures
        r1.prompt@ == r2.prompt@,
        r1.image_base64@ == r2.image_base64@,
        r1.image_mime_type@ == r2.image_mime_type@,
        opt_text(r1.system_message) == opt_text(r2.system_message),
        r1.history@ == r2.history@,
        r1.max_tokens == r2.max_tokens,
        r1.temperature == r2.temperature,
{
}

/// The first system content of a history is the content of its earliest
/// system message, the one no system message precedes; without a system
/// message there is none.
proof fn lemma_first_system_is_earliest(h: Seq<VisionMessage>)
    ensures
        match first_system_content(h) {
            Some(c) => exists|k: int|
                0 <= k < h.len() && is_system(#[trigger] h[k]) && (forall|j: int|
                    0 <= j < k ==> !is_system(#[trigger] h[j])) && c == h[k].content@,
            None => forall|j: int| 0 <= j < h.len() ==> !is_system(#[trigger] h[j]),
        },
    decreases h.len(),
{
    if h.len() > 0 {
        let rest = h.drop_first();
        lemma_first_system_is_earliest(rest);
        if !is_system(h[0]) {
            match first_system_content(rest) {
                Some(c) => {
                    let k = choose|k: int|
                        0 <= k < rest.len() && is_system(#[trigger] rest[k]) && (forall|j: int|
                            0 <= j < k ==> !is_system(#[trigger] rest[j])) && c == rest[k].content@;
                    assert(h[k + 1] == rest[k]);
                    assert forall|j: int| 0 <= j < k + 1 implies !is_system(#[trigger] h[j]) by {
                        if j > 0 {
                            assert(h[j] == rest[j - 1]);
                        }
                    }
                },
                None => {
                    assert forall|j: int| 0 <= j < h.len() implies !is_system(#[trigger] h[j]) by {
                        if j > 0 {
                            assert(h[j] == rest[j - 1]);
                        }
                    }
                },
            }
        }
    }
}

/// The system message a turn's request carries is the content of the
/// earliest system message of the history before the turn (no system message
/// comes before it), and there is none exactly when the history has no system
/// message.
pub proof fn law_turn_request_carries_earliest_system_message(
    r: VisionRequest,
    prompt: Seq<char>,
    image: Option<ImageData>,
    history: Seq<VisionMessage>,
)
    requires
        turn_request(r, prompt, image, history),
    ensures
        (forall|j: int| 0 <= j < history.len() ==> !is_system(#[trigger] history[j]))
            <==> r.system_message is None,
        r.system_message matches Some(m) ==> exists|k: int|
            0 <= k < history.len() && is_system(#[trigger] history[k]) && (forall|j: int|
                0 <= j < k ==> !is_system(#[trigger] history[j])) && m@ == history[k].content@,
{
    lemma_first_system_is_earliest(history);
    if r.system_message is None {
        assert(first_system_content(history) is None);
    } else {
        let c = first_system_content(history)->0;
        let k = choose|k: int|
            0 <= k < history.len() && is_system(#[trigger] history[k]) && (forall|j: int|
                0 <= j < k ==> !is_system(#[trigger] history[j])) && c == history[k].content@;
        assert(is_system(history[k]));
    }
}

/// The system message that requests carry is the first of the history's
/// system messages, as `clear_history` keeps them.
pub proof fn law_first_system_is_head_of_system_messages(history: Seq<VisionMessage>)
    ensures
        first_system_content(history) == (if system_messages(history).len() > 0 {
            Some(system_messages(history)[0].content@)
        } else {
            None::<Seq<char>>
        }),
    decreases history.len(),
{
    reveal_with_fuel(Seq::filter, 2);
    if history.len() > 0 {
        let x = history[0];
        let rest = history.drop_first();
        assert(history =~= seq![x] + rest);
        Seq::filter_distributes_over_add(seq![x], rest, system_pred());
        assert(seq![x].drop_last() =~= Seq::<VisionMessage>::empty());
        law_first_system_is_head_of_system_messages(rest);
        if is_system(x) {
            assert(system_messages(seq![x]) =~= seq![x]);
        } else {
            assert(system_messages(seq![x]) =~= Seq::<VisionMessage>::empty());
            assert(system_messages(history) =~= system_messages(rest));
        }
    } else {
        assert(system_messages(history) =~= Seq::<VisionMessage>::empty()) by {
            reveal_with_fuel(Seq::filter, 1);
        }
    }
}

} // verus!
