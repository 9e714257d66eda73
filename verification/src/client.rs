//! Configuration, requests and replies of the vision-model client: how a
//! configuration is resolved, how a request becomes the chat-completions
//! payload, and how a reply becomes a `VisionResponse`.
use vstd::prelude::*;
use crate::session::{MessageRole, VisionMessage};
use crate::json::{json_field, json_text, reply_content, reply_fields, reply_usage, JsonValue};

verus! {

/// A sampling temperature, held as the IEEE-754 bit pattern of the `f32` the
/// caller chose (0.0 - 2.0). The library never computes with it; it passes it
/// through unchanged.
#[derive(Debug, Clone, Copy, PartialEq, Eq, Structural)]
pub struct Temperature {
    pub bits: u32,
}

/// The `[vision_model]` section of the application configuration.
#[derive(Debug, Clone)]
pub struct VisionModelConfig {
    /// Vision model id (required).
    pub model: String,
    /// Provider name; inherited from the main configuration when absent.
    pub provider: Option<String>,
    /// API key; inherited from the main configuration when absent.
    pub api_key: Option<String>,
    /// Base URL of the API; inherited from the main configuration when absent.
    pub base_url: Option<String>,
    /// Maximum tokens of a reply.
    pub max_tokens: u32,
    /// Default sampling temperature.
    pub temperature: Temperature,
    /// Whether the vision model runs as a sub-agent.
    pub subagent_mode: bool,
    /// Request timeout in seconds.
    pub timeout_secs: u64,
}

/// Configuration for the vision client.
#[derive(Debug)]
pub struct VisionClientConfig {
    pub model: String,
    pub api_key: String,
    pub base_url: String,
    pub max_tokens: u32,
    pub temperature: Temperature,
    pub timeout_secs: u64,
}

impl Clone for VisionClientConfig {
    fn clone(&self) -> (r: Self)
        ensures
            r == *self,
    {
        VisionClientConfig {
            model: self.model.clone(),
            api_key: self.api_key.clone(),
            base_url: self.base_url.clone(),
            max_tokens: self.max_tokens,
            temperature: self.temperature,
            timeout_secs: self.timeout_secs,
        }
    }
}

/// The base URL used when the configuration names none.
pub open spec fn default_base_url() -> Seq<char> {
    "https://api.openai.com/v1"@
}

/// The text of an optional string, if there is one.
pub open spec fn opt_text(o: Option<String>) -> Option<Seq<char>> {
    match o {
        Some(s) => Some(s@),
        None => None,
    }
}

/// The `data:` URL that carries a base64-encoded image of the given MIME type.
pub open spec fn data_url(mime_type: Seq<char>, image_base64: Seq<char>) -> Seq<char> {
    "data:"@ + mime_type + ";base64,"@ + image_base64
}

/// Builds the `data:` URL that carries a base64-encoded image.
pub fn image_data_url(mime_type: &str, image_base64: &str) -> (r: String)
    ensures
        r@ == data_url(mime_type@, image_base64@),
{
    let r = String::from_str("data:").concat(mime_type).concat(";base64,").concat(image_base64);
    r
}

impl VisionClientConfig {
    /// Resolves a `[vision_model]` section into a client configuration: a
    /// missing API key becomes the empty string and a missing base URL becomes
    /// `https://api.openai.com/v1`; every other field is taken as it is.
    pub fn from(config: VisionModelConfig) -> (r: Self)
        ensures
            r.model == config.model,
            r.api_key@ == (match config.api_key {
                Some(k) => k@,
                None => Seq::<char>::empty(),
            }),
            r.base_url@ == (match config.base_url {
                Some(u) => u@,
                None => default_base_url(),
            }),
            r.max_tokens == config.max_tokens,
            r.temperature == config.temperature,
            r.timeout_secs == config.timeout_secs,
    {
        let api_key = match config.api_key {
            Some(k) => k,
            None => String::new(),
        };
        let base_url = match config.base_url {
            Some(u) => u,
            None => String::from_str("https://api.openai.com/v1"),
        };
        VisionClientConfig {
            model: config.model,
            api_key,
            base_url,
            max_tokens: config.max_tokens,
            temperature: config.temperature,
            timeout_secs: config.timeout_secs,
        }
    }

    /// The chat-completions endpoint under the configured base URL.
    pub fn completions_url(&self) -> (r: String)
        ensures
            r@ == self.base_url@ + "/chat/completions"@,
    {
        self.base_url.clone().concat("/chat/completions")
    }

    /// The value of the `Authorization` header: the API key as a bearer token.
    pub fn authorization_value(&self) -> (r: String)
        ensures
            r@ == "Bearer "@ + self.api_key@,
    {
        String::from_str("Bearer ").concat(self.api_key.as_str())
    }
}

/// A vision request with image content.
#[derive(Debug, Clone)]
pub struct VisionRequest {
    /// Text prompt to accompany the image.
    pub prompt: String,
    /// Base64-encoded image data.
    pub image_base64: String,
    /// Image MIME type (e.g., "image/png", "image/jpeg").
    pub image_mime_type: String,
    /// Optional system message.
    pub system_message: Option<String>,
    /// Maximum tokens for the response.
    pub max_tokens: Option<u32>,
    /// Temperature for sampling.
    pub temperature: Option<Temperature>,
    /// The earlier turns of the conversation, oldest first, sent as context
    /// before this one.
    pub history: Vec<VisionMessage>,
}

impl VisionRequest {
    /// Creates a request with no system message, no earlier turns and no
    /// per-request overrides.
    pub fn new(prompt: &str, image_base64: &str, image_mime_type: &str) -> (r: Self)
        ensures
            r.prompt@ == prompt@,
            r.image_base64@ == image_base64@,
            r.image_mime_type@ == image_mime_type@,
            r.system_message is None,
            r.max_tokens is None,
            r.temperature is None,
            r.history@.len() == 0,
    {
        VisionRequest {
            prompt: String::from_str(prompt),
            image_base64: String::from_str(image_base64),
            image_mime_type: String::from_str(image_mime_type),
            system_message: None,
            max_tokens: None,
            temperature: None,
            history: Vec::new(),
        }
    }

    /// Sets the earlier turns sent as context; every other field is kept.
    pub fn with_history(self, history: Vec<VisionMessage>) -> (r: Self)
        ensures
            r.history == history,
            r.prompt == self.prompt,
            r.image_base64 == self.image_base64,
            r.image_mime_type == self.image_mime_type,
            r.system_message == self.system_message,
            r.max_tokens == self.max_tokens,
            r.temperature == self.temperature,
    {
        let mut r = self;
        r.history = history;
        r
    }

    /// Sets the system message; every other field is kept.
    pub fn with_system_message(self, message: &str) -> (r: Self)
        ensures
            opt_text(r.system_message) == Some(message@),
            r.prompt == self.prompt,
            r.image_base64 == self.image_base64,
            r.image_mime_type == self.image_mime_type,
            r.max_tokens == self.max_tokens,
            r.temperature == self.temperature,
            r.history == self.history,
    {
        let mut r = self;
        r.system_message = Some(String::from_str(message));
        r
    }

    /// Sets the maximum number of reply tokens; every other field is kept.
    pub fn with_max_tokens(self, max_tokens: u32) -> (r: Self)
        ensures
            r.max_tokens == Some(max_tokens),
            r.prompt == self.prompt,
            r.image_base64 == self.image_base64,
            r.image_mime_type == self.image_mime_type,
            r.system_message == self.system_message,
            r.temperature == self.temperature,
            r.history == self.history,
    {
        let mut r = self;
        r.max_tokens = Some(max_tokens);
        r
    }

    /// Sets the sampling temperature; every other field is kept.
    pub fn with_temperature(self, temperature: Temperature) -> (r: Self)
        ensures
            r.temperature == Some(temperature),
            r.prompt == self.prompt,
            r.image_base64 == self.image_base64,
            r.image_mime_type == self.image_mime_type,
            r.system_message == self.system_message,
            r.max_tokens == self.max_tokens,
            r.history == self.history,
    {
        let mut r = self;
        r.temperature = Some(temperature);
        r
    }
}

/// Token usage for vision requests.
#[derive(Debug, Clone, Copy, PartialEq, Eq, Structural)]
pub struct VisionUsage {
    pub prompt_tokens: u32,
    pub completion_tokens: u32,
    pub total_tokens: u32,
}

/// Response from a vision model.
#[derive(Debug, Clone)]
pub struct VisionResponse {
    /// The generated text response.
    pub content: String,
    /// Token usage information.
    pub usage: Option<VisionUsage>,
    /// Model that generated the response.
    pub model: String,
    /// Raw response for debugging.
    pub raw_response: Option<serde_json::Value>,
}

/// One part of a multi-part message body.
#[derive(Debug, Clone)]
pub enum ContentPart {
    /// `{"type": "text", "text": ...}`
    Text(String),
    /// `{"type": "image_url", "image_url": {"url": ...}}`
    ImageUrl(String),
}

/// The body of a chat message: plain text, or a list of parts.
#[derive(Debug, Clone)]
pub enum ChatContent {
    Text(String),
    Parts(Vec<ContentPart>),
}

/// One message of the chat-completions payload.
#[derive(Debug, Clone)]
pub struct ChatMessage {
    pub role: MessageRole,
    pub content: ChatContent,
}

/// The OpenAI-compatible chat-completions request body.
#[derive(Debug, Clone)]
pub struct ChatPayload {
    pub model: String,
    pub messages: Vec<ChatMessage>,
    pub max_tokens: u32,
    pub temperature: Temperature,
}

/// `m` is a plain-text message of the given role and text.
pub open spec fn is_text_message(m: ChatMessage, role: MessageRole, text: Seq<char>) -> bool {
    &&& m.role == role
    &&& m.content matches ChatContent::Text(t) && t@ == text
}

/// `m` is the user message carrying `prompt` followed by the image at `url`.
pub open spec fn is_image_message(m: ChatMessage, prompt: Seq<char>, url: Seq<char>) -> bool {
    &&& m.role == MessageRole::User
    &&& m.content matches ChatContent::Parts(parts) && {
        &&& parts@.len() == 2
        &&& parts@[0] matches ContentPart::Text(t) && t@ == prompt
        &&& parts@[1] matches ContentPart::ImageUrl(u) && u@ == url
    }
}

/// `cm` is the payload form of the earlier turn `m`: its role, and its text
/// alone or followed by its image as a `data:` URL.
pub open spec fn is_turn_message(cm: ChatMessage, m: VisionMessage) -> bool {
    &&& cm.role == m.role
    &&& match m.image_data {
        None => cm.content matches ChatContent::Text(t) && t@ == m.content@,
        Some(img) => cm.content matches ChatContent::Parts(parts) && {
            &&& parts@.len() == 2
            &&& parts@[0] matches ContentPart::Text(t) && t@ == m.content@
            &&& parts@[1] matches ContentPart::ImageUrl(u) && u@ == data_url(
                img.mime_type@,
                img.base64_data@,
            )
        },
    }
}

/// How many messages precede the earlier turns in the payload of `request`:
/// one for its system message, if it has one.
pub open spec fn system_offset(request: VisionRequest) -> int {
    match request.system_message {
        Some(_) => 1,
        None => 0,
    }
}

/// The messages of the payload for `request`: its system message, if it has
/// one, then its earlier turns in order, then the user message with the
/// prompt and the image as a `data:` URL.
pub open spec fn payload_messages(msgs: Seq<ChatMessage>, request: VisionRequest) -> bool {
    let first = system_offset(request);
    &&& msgs.len() == first + request.history@.len() + 1
    &&& request.system_message matches Some(system) ==> is_text_message(
        msgs[0],
        MessageRole::System,
        system@,
    )
    &&& forall|i: int|
        0 <= i < request.history@.len() ==> is_turn_message(
            #[trigger] msgs[first + i],
            request.history@[i],
        )
    &&& is_image_message(
        msgs.last(),
        request.prompt@,
        data_url(request.image_mime_type@, request.image_base64@),
    )
}

fn turn_message(m: &VisionMessage) -> (r: ChatMessage)
    ensures
        is_turn_message(r, *m),
{
    let content = match &m.image_data {
        None => ChatContent::Text(m.content.clone()),
        Some(img) => {
            let mut parts: Vec<ContentPart> = Vec::new();
            parts.push(ContentPart::Text(m.content.clone()));
            parts.push(
                ContentPart::ImageUrl(
                    image_data_url(img.mime_type.as_str(), img.base64_data.as_str()),
                ),
            );
            ChatContent::Parts(parts)
        },
    };
    ChatMessage { role: m.role, content }
}

/// The maximum number of reply tokens a request asks for: its own, else the
/// configured one.
pub open spec fn effective_max_tokens(config: VisionClientConfig, request: VisionRequest) -> u32 {
    match request.max_tokens {
        Some(m) => m,
        None => config.max_tokens,
    }
}

/// The sampling temperature a request uses: its own, else the configured one.
pub open spec fn effective_temperature(
    config: VisionClientConfig,
    request: VisionRequest,
) -> Temperature {
    match request.temperature {
        Some(t) => t,
        None => config.temperature,
    }
}

/// A reply's token counts as the model reported them: each is `None` when
/// the field is absent or is not an unsigned integer.
#[derive(Debug, Clone, Copy)]
pub struct UsageFields {
    pub prompt_tokens: Option<u64>,
    pub completion_tokens: Option<u64>,
    pub total_tokens: Option<u64>,
}

/// What the library reads of a chat-completions reply body.
#[derive(Debug)]
pub struct ResponseFields {
    /// `choices[0].message.content`, when it is a string.
    pub content: Option<String>,
    /// `usage`, when the reply has that field.
    pub usage: Option<UsageFields>,
    /// `model`, when it is a string.
    pub model: Option<String>,
}

/// A reported token count as a `u32`: 0 when unreported, else its low 32 bits.
pub open spec fn token_count(v: Option<u64>) -> u32 {
    match v {
        Some(n) => n as u32,
        None => 0,
    }
}

/// The usage record of a reply's reported token counts.
pub open spec fn usage_of(u: UsageFields) -> VisionUsage {
    VisionUsage {
        prompt_tokens: token_count(u.prompt_tokens),
        completion_tokens: token_count(u.completion_tokens),
        total_tokens: token_count(u.total_tokens),
    }
}

fn count_tokens(v: Option<u64>) -> (r: u32)
    ensures
        r == token_count(v),
{
    match v {
        Some(n) => n as u32,
        None => 0,
    }
}

impl VisionClientConfig {
    /// Builds the chat-completions payload for `request` with the given
    /// reply-token limit and temperature.
    pub fn build_payload(&self, request: &VisionRequest, max_tokens: u32, temperature: Temperature)
        -> (r: ChatPayload)
        ensures
            r.model@ == self.model@,
            r.max_tokens == max_tokens,
            r.temperature == temperature,
            payload_messages(r.messages@, *request),
    {
        let mut messages: Vec<ChatMessage> = Vec::new();
        match &request.system_message {
            Some(system) => {
                messages.push(
                    ChatMessage {
                        role: MessageRole::System,
                        content: ChatContent::Text(system.clone()),
                    },
                );
            },
            None => {},
        }
        let ghost first = system_offset(*request);
        let mut i: usize = 0;
        while i < request.history.len()
            invariant
                i <= request.history@.len(),
                first == system_offset(*request),
                messages@.len() == first + i,
                request.system_message matches Some(system) ==> is_text_message(
                    messages@[0],
                    MessageRole::System,
                    system@,
                ),
                forall|j: int|
                    0 <= j < i ==> is_turn_message(
                        #[trigger] messages@[first + j],
                        request.history@[j],
                    ),
            decreases request.history@.len() - i,
        {
            messages.push(turn_message(&request.history[i]));
            i = i + 1;
        }
        let mut parts: Vec<ContentPart> = Vec::new();
        parts.push(ContentPart::Text(request.prompt.clone()));
        parts.push(
            ContentPart::ImageUrl(
                image_data_url(request.image_mime_type.as_str(), request.image_base64.as_str()),
            ),
        );
        messages.push(ChatMessage { role: MessageRole::User, content: ChatContent::Parts(parts) });
        ChatPayload { model: self.model.clone(), messages, max_tokens, temperature }
    }

    /// The payload sent for `request`: the request's own token limit and
    /// temperature where it sets them, else the configured ones.
    pub fn request_payload(&self, request: &VisionRequest) -> (r: ChatPayload)
        ensures
            r.model@ == self.model@,
            r.max_tokens == effective_max_tokens(*self, *request),
            r.temperature == effective_temperature(*self, *request),
            payload_messages(r.messages@, *request),
    {
        let max_tokens = match request.max_tokens {
            Some(m) => m,
            None => self.max_tokens,
        };
        let temperature = match request.temperature {
            Some(t) => t,
            None => self.temperature,
        };
        self.build_payload(request, max_tokens, temperature)
    }

    /// Interprets what was read of a reply: a missing content becomes the
    /// empty string, missing token counts become 0 (counts are truncated to
    /// 32 bits), a missing model name becomes the configured model, and the
    /// whole body is kept.
    pub fn response_from_fields(&self, reply: ResponseFields, raw: serde_json::Value) -> (r:
        VisionResponse)
        ensures
            r.content@ == (match reply.content {
                Some(c) => c@,
                None => Seq::<char>::empty(),
            }),
            r.usage == (match reply.usage {
                Some(u) => Some(usage_of(u)),
                None => None::<VisionUsage>,
            }),
            r.model@ == (match reply.model {
                Some(m) => m@,
                None => self.model@,
            }),
            r.raw_response == Some(raw),
    {
        let content = match reply.content {
            Some(c) => c,
            None => String::new(),
        };
        let usage = match reply.usage {
            Some(u) => Some(
                VisionUsage {
                    prompt_tokens: count_tokens(u.prompt_tokens),
                    completion_tokens: count_tokens(u.completion_tokens),
                    total_tokens: count_tokens(u.total_tokens),
                },
            ),
            None => None,
        };
        let model = match reply.model {
            Some(m) => m,
            None => self.model.clone(),
        };
        VisionResponse { content, usage, model, raw_response: Some(raw) }
    }

    /// Interprets a chat-completions reply body: the content is the string at
    /// `choices[0].message.content` (else empty), the usage is present exactly
    /// when the body has a `usage` field, each count being the unsigned
    /// integer at its key (else 0, truncated to 32 bits), the model is the
    /// string at `model` (else the configured model), and `raw` is kept.
    pub fn parse_response(&self, body: &JsonValue, raw: serde_json::Value) -> (r: VisionResponse)
        ensures
            r.content@ == (match reply_content(*body) {
                Some(c) => c,
                None => Seq::<char>::empty(),
            }),
            r.usage == (match json_field(*body, "usage"@) {
                Some(u) => Some(usage_of(reply_usage(u))),
                None => None::<VisionUsage>,
            }),
            r.model@ == (match json_text(json_field(*body, "model"@)) {
                Some(m) => m,
                None => self.model@,
            }),
            r.raw_response == Some(raw),
    {
        self.response_from_fields(reply_fields(body), raw)
    }
}

/// The retry schedule of chat-completions requests: up to `max_retries`
/// retries, the first after `initial_delay_secs`, each later one after twice
/// the previous delay, no delay longer than `max_delay_secs`.
#[derive(Debug, Clone, Copy, PartialEq, Eq, Structural)]
pub struct RetryConfig {
    pub max_retries: u32,
    pub initial_delay_secs: u64,
    pub max_delay_secs: u64,
}

/// `initial` doubled `n` times.
pub open spec fn doubled(initial: u64, n: nat) -> int
    decreases n,
{
    if n == 0 {
        initial as int
    } else {
        2 * doubled(initial, (n - 1) as nat)
    }
}

proof fn lemma_doubled_grows(initial: u64, n: nat)
    ensures
        doubled(initial, n + 1) >= doubled(initial, n),
        doubled(initial, n) >= 0,
    decreases n,
{
    if n > 0 {
        lemma_doubled_grows(initial, (n - 1) as nat);
    }
}

impl RetryConfig {
    /// The schedule the vision client uses: 3 retries, from 1 s up to 30 s.
    pub fn vision_default() -> (r: Self)
        ensures
            r.max_retries == 3,
            r.initial_delay_secs == 1,
            r.max_delay_secs == 30,
    {
        RetryConfig { max_retries: 3, initial_delay_secs: 1, max_delay_secs: 30 }
    }

    /// The delay before retry number `retry` (counted from 0), or `None` when
    /// no retry is left.
    pub fn delay_before_retry(&self, retry: u32) -> (r: Option<u64>)
        ensures
            retry >= self.max_retries ==> r is None,
            retry < self.max_retries ==> r == Some(
                (if doubled(self.initial_delay_secs, retry as nat) < self.max_delay_secs {
                    doubled(self.initial_delay_secs, retry as nat)
                } else {
                    self.max_delay_secs as int
                }) as u64,
            ),
    {
        if retry >= self.max_retries {
            return None;
        }
        let max = self.max_delay_secs;
        let mut d: u64 = self.initial_delay_secs;
        let mut i: u32 = 0;
        while i < retry
            invariant
                i <= retry,
                max == self.max_delay_secs,
                d < max ==> d == doubled(self.initial_delay_secs, i as nat),
                d >= max ==> doubled(self.initial_delay_secs, i as nat) >= max,
            decreases retry - i,
        {
            proof {
                lemma_doubled_grows(self.initial_delay_secs, i as nat);
            }
            if d < max {
                if d > u64::MAX / 2 {
                    d = u64::MAX;
                } else {
                    d = d * 2;
                }
            }
            i = i + 1;
        }
        if d < max {
            Some(d)
        } else {
            Some(max)
        }
    }
}

} // verus!
