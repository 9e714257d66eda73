//! The vision tools: their specifications, how their arguments are read, the
//! prompts they send, MIME detection of image files, and base64 encoding of
//! image bytes.
use vstd::prelude::*;
use crate::client::{opt_text, VisionClientConfig};
use crate::error::VisionError;
use crate::external::{
    base64_digit, base64_encode, base64_standard, extension_of, path_extension, to_lowercase,
    unicode_lowercase,
};
use crate::session::ImageData;

verus! {

/// The type of a tool parameter or result.
#[derive(Debug, Clone, Copy, PartialEq, Eq, Structural)]
pub enum ParamType {
    String,
    Array,
    Object,
}

/// Whether running a tool needs the user's approval.
#[derive(Debug, Clone, Copy, PartialEq, Eq, Structural)]
pub enum ApprovalRequirement {
    /// Runs without asking.
    Auto,
}

/// What a tool may do to its environment.
#[derive(Debug, Clone, Copy, PartialEq, Eq, Structural)]
pub enum ToolCapability {
    /// Only reads.
    Read,
}

/// One parameter of a tool.
#[derive(Debug, Clone)]
pub struct ParamSpec {
    pub name: String,
    pub description: Option<String>,
    pub required: bool,
    pub param_type: ParamType,
}

/// What a tool returns.
#[derive(Debug, Clone)]
pub struct ReturnSpec {
    pub description: String,
    pub return_type: ParamType,
}

/// The specification of a tool, as offered to the model.
#[derive(Debug, Clone)]
pub struct ToolSpec {
    pub name: String,
    pub description: Option<String>,
    pub parameters: Vec<ParamSpec>,
    pub returns: ReturnSpec,
    pub approval: ApprovalRequirement,
    pub capability: ToolCapability,
}

/// `p` is the parameter with the given name, description, requiredness and type.
pub open spec fn is_param(
    p: ParamSpec,
    name: Seq<char>,
    description: Seq<char>,
    required: bool,
    param_type: ParamType,
) -> bool {
    &&& p.name@ == name
    &&& opt_text(p.description) == Some(description)
    &&& p.required == required
    &&& p.param_type == param_type
}

/// `t` is an automatically approved, read-only tool with the given name,
/// description and result.
pub open spec fn is_read_tool(
    t: ToolSpec,
    name: Seq<char>,
    description: Seq<char>,
    result: Seq<char>,
) -> bool {
    &&& t.name@ == name
    &&& opt_text(t.description) == Some(description)
    &&& t.returns.description@ == result
    &&& t.returns.return_type == ParamType::Object
    &&& t.approval == ApprovalRequirement::Auto
    &&& t.capability == ToolCapability::Read
}

fn param(name: &str, description: &str, required: bool, param_type: ParamType) -> (r: ParamSpec)
    ensures
        is_param(r, name@, description@, required, param_type),
{
    ParamSpec {
        name: String::from_str(name),
        description: Some(String::from_str(description)),
        required,
        param_type,
    }
}

fn read_tool(name: &str, description: &str, parameters: Vec<ParamSpec>, result: &str) -> (r:
    ToolSpec)
    ensures
        is_read_tool(r, name@, description@, result@),
        r.parameters == parameters,
{
    ToolSpec {
        name: String::from_str(name),
        description: Some(String::from_str(description)),
        parameters,
        returns: ReturnSpec {
            description: String::from_str(result),
            return_type: ParamType::Object,
        },
        approval: ApprovalRequirement::Auto,
        capability: ToolCapability::Read,
    }
}

/// Tool for analyzing images using the vision model.
pub struct VisionAnalyzeTool<M> {
    session_manager: M,
}

/// Tool for comparing multiple images.
pub struct VisionCompareTool<M> {
    session_manager: M,
}

/// Tool for OCR (text extraction from images).
pub struct VisionOcrTool<M> {
    session_manager: M,
}

/// Tool for managing vision sessions.
pub struct VisionSessionTool<M> {
    session_manager: M,
}

impl<M> VisionAnalyzeTool<M> {
    /// The session manager the tool works with.
    pub closed spec fn manager(&self) -> M {
        self.session_manager
    }

    /// Creates a new vision analyze tool.
    pub fn new(session_manager: M) -> (r: Self)
        ensures
            r.manager() == session_manager,
    {
        VisionAnalyzeTool { session_manager }
    }

    /// The session manager the tool works with.
    pub fn session_manager(&self) -> (r: &M)
        ensures
            *r == self.manager(),
    {
        &self.session_manager
    }

    /// The tool specification.
    pub fn spec() -> (r: ToolSpec)
        ensures
            is_read_tool(
                r,
                "vision_analyze"@,
                "Analyze an image using the configured vision model. Supports image files, screenshots, and base64-encoded images."@,
                "Analysis result from the vision model"@,
            ),
            r.parameters@.len() == 3,
            is_param(
                r.parameters@[0],
                "image_path"@,
                "Path to the image file to analyze"@,
                true,
                ParamType::String,
            ),
            is_param(
                r.parameters@[1],
                "prompt"@,
                "Optional prompt to guide the analysis. Defaults to 'Describe this image in detail.'"@,
                false,
                ParamType::String,
            ),
            is_param(
                r.parameters@[2],
                "session_id"@,
                "Optional session ID for maintaining conversation context. If not provided, a new session will be created."@,
                false,
                ParamType::String,
            ),
    {
        let mut parameters: Vec<ParamSpec> = Vec::new();
        parameters.push(
            param("image_path", "Path to the image file to analyze", true, ParamType::String),
        );
        parameters.push(
            param(
                "prompt",
                "Optional prompt to guide the analysis. Defaults to 'Describe this image in detail.'",
                false,
                ParamType::String,
            ),
        );
        parameters.push(
            param(
                "session_id",
                "Optional session ID for maintaining conversation context. If not provided, a new session will be created.",
                false,
                ParamType::String,
            ),
        );
        read_tool(
            "vision_analyze",
            "Analyze an image using the configured vision model. Supports image files, screenshots, and base64-encoded images.",
            parameters,
            "Analysis result from the vision model",
        )
    }

    /// The configuration for a new analysis session when none was named: the
    /// session manager's default configuration, or an error saying that the
    /// vision model is not configured when it has none.
    pub fn get_default_config(&self, configured_default: Option<VisionClientConfig>) -> (r: Result<
        VisionClientConfig,
        VisionError,
    >)
        ensures
            r == (match configured_default {
                Some(c) => Ok::<VisionClientConfig, VisionError>(c),
                None => Err(VisionError::VisionModelNotConfigured),
            }),
    {
        match configured_default {
            Some(c) => Ok(c),
            None => Err(VisionError::VisionModelNotConfigured),
        }
    }

    /// How an analysis reaches its session: the named session, or else a new
    /// session with the default configuration, described as the analysis of
    /// the image.
    pub fn plan_session(&self, args: &AnalyzeArgs, configured_default: Option<VisionClientConfig>)
        -> (r: Result<SessionPlan, VisionError>)
        ensures
            match args.session_id {
                Some(id) => r == Ok::<SessionPlan, VisionError>(
                    SessionPlan::Existing { session_id: id },
                ),
                None => match configured_default {
                    Some(c) => r matches Ok(SessionPlan::Create { config, description }) && config
                        == c && description@ == "Analysis of "@ + args.image_path@,
                    None => r == Err::<SessionPlan, VisionError>(
                        VisionError::VisionModelNotConfigured,
                    ),
                },
            },
    {
        match &args.session_id {
            Some(id) => Ok(SessionPlan::Existing { session_id: id.clone() }),
            None => {
                let config = self.get_default_config(configured_default)?;
                Ok(
                    SessionPlan::Create {
                        config,
                        description: analysis_description(args.image_path.as_str()),
                    },
                )
            },
        }
    }
}

/// How an analysis reaches its session.
#[derive(Debug, Clone)]
pub enum SessionPlan {
    /// Continue the session with this id.
    Existing { session_id: String },
    /// Open a new session with this configuration and description.
    Create { config: VisionClientConfig, description: String },
}

impl<M> VisionCompareTool<M> {
    /// The session manager the tool works with.
    pub closed spec fn manager(&self) -> M {
        self.session_manager
    }

    /// Creates a new vision compare tool.
    pub fn new(session_manager: M) -> (r: Self)
        ensures
            r.manager() == session_manager,
    {
        VisionCompareTool { session_manager }
    }

    /// The session manager the tool works with.
    pub fn session_manager(&self) -> (r: &M)
        ensures
            *r == self.manager(),
    {
        &self.session_manager
    }

    /// The tool specification.
    pub fn spec() -> (r: ToolSpec)
        ensures
            is_read_tool(
                r,
                "vision_compare"@,
                "Compare multiple images using the vision model. Useful for finding differences or similarities between images."@,
                "Comparison result from the vision model"@,
            ),
            r.parameters@.len() == 2,
            is_param(
                r.parameters@[0],
                "image_paths"@,
                "Array of image file paths to compare"@,
                true,
                ParamType::Array,
            ),
            is_param(
                r.parameters@[1],
                "comparison_prompt"@,
                "Optional prompt to guide the comparison. Defaults to 'Compare these images and describe the differences.'"@,
                false,
                ParamType::String,
            ),
    {
        let mut parameters: Vec<ParamSpec> = Vec::new();
        parameters.push(
            param("image_paths", "Array of image file paths to compare", true, ParamType::Array),
        );
        parameters.push(
            param(
                "comparison_prompt",
                "Optional prompt to guide the comparison. Defaults to 'Compare these images and describe the differences.'",
                false,
                ParamType::String,
            ),
        );
        read_tool(
            "vision_compare",
            "Compare multiple images using the vision model. Useful for finding differences or similarities between images.",
            parameters,
            "Comparison result from the vision model",
        )
    }
}

impl<M> VisionOcrTool<M> {
    /// The session manager the tool works with.
    pub closed spec fn manager(&self) -> M {
        self.session_manager
    }

    /// Creates a new vision OCR tool.
    pub fn new(session_manager: M) -> (r: Self)
        ensures
            r.manager() == session_manager,
    {
        VisionOcrTool { session_manager }
    }

    /// The session manager the tool works with.
    pub fn session_manager(&self) -> (r: &M)
        ensures
            *r == self.manager(),
    {
        &self.session_manager
    }

    /// The tool specification.
    pub fn spec() -> (r: ToolSpec)
        ensures
            is_read_tool(
                r,
                "vision_ocr"@,
                "Extract text from an image using the vision model (OCR)."@,
                "Extracted text from the image"@,
            ),
            r.parameters@.len() == 2,
            is_param(
                r.parameters@[0],
                "image_path"@,
                "Path to the image file"@,
                true,
                ParamType::String,
            ),
            is_param(
                r.parameters@[1],
                "language"@,
                "Optional hint about the language in the image"@,
                false,
                ParamType::String,
            ),
    {
        let mut parameters: Vec<ParamSpec> = Vec::new();
        parameters.push(param("image_path", "Path to the image file", true, ParamType::String));
        parameters.push(
            param(
                "language",
                "Optional hint about the language in the image",
                false,
                ParamType::String,
            ),
        );
        read_tool(
            "vision_ocr",
            "Extract text from an image using the vision model (OCR).",
            parameters,
            "Extracted text from the image",
        )
    }
}

impl<M> VisionSessionTool<M> {
    /// The session manager the tool works with.
    pub closed spec fn manager(&self) -> M {
        self.session_manager
    }

    /// Creates a new vision session tool.
    pub fn new(session_manager: M) -> (r: Self)
        ensures
            r.manager() == session_manager,
    {
        VisionSessionTool { session_manager }
    }

    /// The session manager the tool works with.
    pub fn session_manager(&self) -> (r: &M)
        ensures
            *r == self.manager(),
    {
        &self.session_manager
    }

    /// The tool specification.
    pub fn spec() -> (r: ToolSpec)
        ensures
            is_read_tool(
                r,
                "vision_session"@,
                "Manage vision model sessions. Supports creating, listing, and closing sessions."@,
                "Session operation result"@,
            ),
            r.parameters@.len() == 3,
            is_param(
                r.parameters@[0],
                "action"@,
                "Action to perform: 'create', 'list', 'close', 'clear'"@,
                true,
                ParamType::String,
            ),
            is_param(
                r.parameters@[1],
                "session_id"@,
                "Session ID (required for 'close' action)"@,
                false,
                ParamType::String,
            ),
            is_param(
                r.parameters@[2],
                "description"@,
                "Optional description for new session"@,
                false,
                ParamType::String,
            ),
    {
        let mut parameters: Vec<ParamSpec> = Vec::new();
        parameters.push(
            param(
                "action",
                "Action to perform: 'create', 'list', 'close', 'clear'",
                true,
                ParamType::String,
            ),
        );
        parameters.push(
            param(
                "session_id",
                "Session ID (required for 'close' action)",
                false,
                ParamType::String,
            ),
        );
        parameters.push(
            param(
                "description",
                "Optional description for new session",
                false,
                ParamType::String,
            ),
        );
        read_tool(
            "vision_session",
            "Manage vision model sessions. Supports creating, listing, and closing sessions.",
            parameters,
            "Session operation result",
        )
    }
}

/// What the `create` action of `vision_session` does.
#[derive(Debug, Clone)]
pub enum CreatePlan {
    /// Open a session with this configuration and description.
    Open { config: VisionClientConfig, description: Option<String> },
    /// No configuration is available, so no session can be opened.
    NotConfigured,
}

impl<M> VisionSessionTool<M> {
    /// Plans the `create` action: a session with the manager's default
    /// configuration and the given description, when there is a default.
    pub fn plan_create(
        &self,
        description: Option<String>,
        configured_default: Option<VisionClientConfig>,
    ) -> (r: CreatePlan)
        ensures
            r == (match configured_default {
                Some(c) => CreatePlan::Open { config: c, description },
                None => CreatePlan::NotConfigured,
            }),
    {
        match configured_default {
            Some(c) => CreatePlan::Open { config: c, description },
            None => CreatePlan::NotConfigured,
        }
    }
}

/// The message reported by the `clear` action, which always succeeds.
pub fn clear_message() -> (r: String)
    ensures
        r@ == "All sessions cleared"@,
{
    String::from_str("All sessions cleared")
}

/// The message reported by the `create` action.
pub fn create_message(created: bool) -> (r: String)
    ensures
        r@ == (if created {
            "Session created"@
        } else {
            "Session creation requires vision model configuration"@
        }),
{
    if created {
        String::from_str("Session created")
    } else {
        String::from_str("Session creation requires vision model configuration")
    }
}

/// The arguments of one image analysis.
#[derive(Debug, Clone)]
pub struct AnalyzeArgs {
    /// Path of the image, relative to the workspace root.
    pub image_path: String,
    /// The prompt sent with the image.
    pub prompt: String,
    /// The session to continue, if one was named.
    pub session_id: Option<String>,
}

/// The prompt an analysis uses when the caller gives none.
pub open spec fn default_analysis_prompt() -> Seq<char> {
    "Describe this image in detail."@
}

/// Reads the arguments of `vision_analyze`: `image_path` is required, and the
/// prompt defaults to "Describe this image in detail.".
pub fn parse_analyze_args(
    image_path: Option<String>,
    prompt: Option<String>,
    session_id: Option<String>,
) -> (r: Result<AnalyzeArgs, VisionError>)
    ensures
        match image_path {
            None => r matches Err(VisionError::MissingParameter(p)) && p@ == "image_path"@,
            Some(path) => r matches Ok(a) && {
                &&& a.image_path == path
                &&& a.prompt@ == (match prompt {
                    Some(p) => p@,
                    None => default_analysis_prompt(),
                })
                &&& a.session_id == session_id
            },
        },
{
    match image_path {
        None => Err(VisionError::MissingParameter(String::from_str("image_path"))),
        Some(path) => {
            let prompt = match prompt {
                Some(p) => p,
                None => String::from_str("Describe this image in detail."),
            };
            Ok(AnalyzeArgs { image_path: path, prompt, session_id })
        },
    }
}

/// The OCR prompt, mentioning the language when a hint is given.
pub open spec fn ocr_prompt_text(language_hint: Seq<char>) -> Seq<char> {
    if language_hint.len() == 0 {
        "Extract all text from this image. Preserve the formatting as much as possible."@
    } else {
        "Extract all text from this image. The text is in "@ + language_hint
            + ". Preserve the formatting as much as possible."@
    }
}

/// The prompt that OCR sends with the image.
pub fn ocr_prompt(language_hint: &str) -> (r: String)
    ensures
        r@ == ocr_prompt_text(language_hint@),
{
    if language_hint.is_empty() {
        String::from_str(
            "Extract all text from this image. Preserve the formatting as much as possible.",
        )
    } else {
        String::from_str("Extract all text from this image. The text is in ").concat(
            language_hint,
        ).concat(". Preserve the formatting as much as possible.")
    }
}

/// Reads the arguments of `vision_ocr` as an analysis: `image_path` is
/// required, and the prompt is the OCR prompt for the language hint (none
/// when absent).
pub fn parse_ocr_args(
    image_path: Option<String>,
    language: Option<String>,
    session_id: Option<String>,
) -> (r: Result<AnalyzeArgs, VisionError>)
    ensures
        match image_path {
            None => r matches Err(VisionError::MissingParameter(p)) && p@ == "image_path"@,
            Some(path) => r matches Ok(a) && {
                &&& a.image_path == path
                &&& a.prompt@ == ocr_prompt_text(
                    match language {
                        Some(l) => l@,
                        None => Seq::<char>::empty(),
                    },
                )
                &&& a.session_id == session_id
            },
        },
{
    match image_path {
        None => Err(VisionError::MissingParameter(String::from_str("image_path"))),
        Some(path) => {
            let prompt = match &language {
                Some(l) => ocr_prompt(l.as_str()),
                None => {
                    proof {
                        reveal_strlit("");
                        assert(""@ =~= Seq::<char>::empty());
                    }
                    ocr_prompt("")
                },
            };
            Ok(AnalyzeArgs { image_path: path, prompt, session_id })
        },
    }
}

/// The description of the session that an analysis of `image_path` opens.
pub fn analysis_description(image_path: &str) -> (r: String)
    ensures
        r@ == "Analysis of "@ + image_path@,
{
    String::from_str("Analysis of ").concat(image_path)
}

/// An action of the `vision_session` tool.
#[derive(Debug, Clone)]
pub enum SessionCommand {
    /// Open a session with an optional description.
    Create { description: Option<String> },
    /// List the open sessions.
    List,
    /// Close the session with the given id.
    Close { session_id: String },
    /// Close every session.
    Clear,
}

/// Reads the arguments of `vision_session`: `action` is required and is one
/// of `create`, `list`, `close` (which requires `session_id`) and `clear`.
pub fn parse_session_command(
    action: Option<String>,
    session_id: Option<String>,
    description: Option<String>,
) -> (r: Result<SessionCommand, VisionError>)
    ensures
        match action {
            None => r matches Err(VisionError::MissingParameter(p)) && p@ == "action"@,
            Some(a) => if a@ == "create"@ {
                r == Ok::<SessionCommand, VisionError>(SessionCommand::Create { description })
            } else if a@ == "list"@ {
                r == Ok::<SessionCommand, VisionError>(SessionCommand::List)
            } else if a@ == "close"@ {
                match session_id {
                    Some(id) => r == Ok::<SessionCommand, VisionError>(
                        SessionCommand::Close { session_id: id },
                    ),
                    None => r == Err::<SessionCommand, VisionError>(
                        VisionError::MissingCloseSessionId,
                    ),
                }
            } else if a@ == "clear"@ {
                r == Ok::<SessionCommand, VisionError>(SessionCommand::Clear)
            } else {
                r == Err::<SessionCommand, VisionError>(VisionError::UnknownAction(a))
            },
        },
{
    match action {
        None => Err(VisionError::MissingParameter(String::from_str("action"))),
        Some(a) => {
            if a == String::from_str("create") {
                Ok(SessionCommand::Create { description })
            } else if a == String::from_str("list") {
                Ok(SessionCommand::List)
            } else if a == String::from_str("close") {
                match session_id {
                    Some(id) => Ok(SessionCommand::Close { session_id: id }),
                    None => Err(VisionError::MissingCloseSessionId),
                }
            } else if a == String::from_str("clear") {
                Ok(SessionCommand::Clear)
            } else {
                Err(VisionError::UnknownAction(a))
            }
        },
    }
}

/// The message reported after closing a session.
pub fn close_message(removed: bool) -> (r: String)
    ensures
        r@ == (if removed {
            "Session closed"@
        } else {
            "Session not found"@
        }),
{
    if removed {
        String::from_str("Session closed")
    } else {
        String::from_str("Session not found")
    }
}

/// The MIME type of each supported image extension (already lower-cased).
pub open spec fn mime_type_of(extension: Seq<char>) -> Option<Seq<char>> {
    if extension == "png"@ {
        Some("image/png"@)
    } else if extension == "jpg"@ || extension == "jpeg"@ {
        Some("image/jpeg"@)
    } else if extension == "gif"@ {
        Some("image/gif"@)
    } else if extension == "webp"@ {
        Some("image/webp"@)
    } else if extension == "bmp"@ {
        Some("image/bmp"@)
    } else if extension == "svg"@ {
        Some("image/svg+xml"@)
    } else {
        None
    }
}

/// The MIME type of a lower-cased image extension; an unsupported extension
/// is an error that names it.
pub fn mime_type_for_extension(extension: &str) -> (r: Result<String, VisionError>)
    ensures
        match mime_type_of(extension@) {
            Some(m) => r matches Ok(t) && t@ == m,
            None => r matches Err(VisionError::UnsupportedImageFormat(e)) && e@ == extension@,
        },
{
    let ext = String::from_str(extension);
    if ext == String::from_str("png") {
        Ok(String::from_str("image/png"))
    } else if ext == String::from_str("jpg") || ext == String::from_str("jpeg") {
        Ok(String::from_str("image/jpeg"))
    } else if ext == String::from_str("gif") {
        Ok(String::from_str("image/gif"))
    } else if ext == String::from_str("webp") {
        Ok(String::from_str("image/webp"))
    } else if ext == String::from_str("bmp") {
        Ok(String::from_str("image/bmp"))
    } else if ext == String::from_str("svg") {
        Ok(String::from_str("image/svg+xml"))
    } else {
        Err(VisionError::UnsupportedImageFormat(ext))
    }
}

/// The lower-cased extension that MIME detection looks at: the path's
/// extension, or the empty text when it has none.
pub open spec fn detected_extension(path: Seq<char>) -> Seq<char> {
    unicode_lowercase(
        match path_extension(path) {
            Some(e) => e,
            None => Seq::<char>::empty(),
        },
    )
}

/// Detects the MIME type of an image file from its extension, ignoring case.
pub fn detect_mime_type(path: &str) -> (r: Result<String, VisionError>)
    ensures
        match mime_type_of(detected_extension(path@)) {
            Some(m) => r matches Ok(t) && t@ == m,
            None => r matches Err(VisionError::UnsupportedImageFormat(e)) && e@
                == detected_extension(path@),
        },
{
    let lowered = match extension_of(path) {
        Some(e) => to_lowercase(e.as_str()),
        None => {
            proof {
                reveal_strlit("");
                assert(""@ =~= Seq::<char>::empty());
            }
            to_lowercase("")
        },
    };
    mime_type_for_extension(lowered.as_str())
}

/// Encodes image bytes as standard base64 with padding.
pub fn encode_image_to_base64(bytes: &[u8]) -> (r: String)
    requires
        4 * ((bytes@.len() + 2) / 3) <= usize::MAX,
    ensures
        r@ == base64_standard(bytes@),
{
    base64_encode(bytes)
}

/// Image data for file bytes of the given MIME type: the bytes as standard
/// base64, and no description.
pub fn create_image_data(bytes: Vec<u8>, mime_type: &str) -> (r: ImageData)
    requires
        4 * ((bytes@.len() + 2) / 3) <= usize::MAX,
    ensures
        r.base64_data@ == base64_standard(bytes@),
        r.mime_type@ == mime_type@,
        r.description is None,
{
    ImageData::from_base64(encode_image_to_base64(bytes.as_slice()), String::from_str(mime_type))
}

/// The 6-bit value of a standard base64 character (0 for any other character).
pub open spec fn base64_value(c: char) -> int {
    let n = c as int;
    if 65 <= n <= 90 {
        n - 65
    } else if 97 <= n <= 122 {
        n - 71
    } else if 48 <= n <= 57 {
        n + 4
    } else if c == '+' {
        62
    } else if c == '/' {
        63
    } else {
        0
    }
}

/// Decoding of standard padded base64: each group of four characters gives
/// three bytes, or fewer where the group ends in `=`.
pub open spec fn base64_decode(text: Seq<char>) -> Seq<u8>
    decreases text.len(),
{
    if text.len() < 4 {
        Seq::empty()
    } else {
        let v0 = base64_value(text[0]);
        let v1 = base64_value(text[1]);
        let v2 = base64_value(text[2]);
        let v3 = base64_value(text[3]);
        let b0 = (v0 * 4 + v1 / 16) as u8;
        let b1 = ((v1 % 16) * 16 + v2 / 4) as u8;
        let b2 = ((v2 % 4) * 64 + v3) as u8;
        if text[2] == '=' {
            seq![b0]
        } else if text[3] == '=' {
            seq![b0, b1]
        } else {
            seq![b0, b1, b2] + base64_decode(text.subrange(4, text.len() as int))
        }
    }
}

/// A character of the standard base64 alphabet or the padding `=`.
pub open spec fn is_base64_char(c: char) -> bool {
    let n = c as int;
    (65 <= n <= 90) || (97 <= n <= 122) || (48 <= n <= 57) || c == '+' || c == '/' || c == '='
}

proof fn lemma_digit(v: int)
    requires
        0 <= v < 64,
    ensures
        base64_value(base64_digit(v)) == v,
        is_base64_char(base64_digit(v)),
        base64_digit(v) != '=',
{
}

/// Encoding image bytes loses nothing and has the documented shape: decoding
/// the text gives back the bytes, the text is four characters for every
/// started group of three bytes, and every character is of the standard
/// alphabet or the padding `=`.
pub proof fn law_base64_round_trip(bytes: Seq<u8>)
    ensures
        base64_decode(base64_standard(bytes)) == bytes,
        base64_standard(bytes).len() == 4 * ((bytes.len() + 2) / 3),
        forall|i: int|
            0 <= i < base64_standard(bytes).len() ==> is_base64_char(
                #[trigger] base64_standard(bytes)[i],
            ),
    decreases bytes.len(),
{
    let e = base64_standard(bytes);
    if bytes.len() == 0 {
    } else {
        let b0 = bytes[0] as int;
        lemma_digit(b0 / 4);
        if bytes.len() == 1 {
            lemma_digit((b0 % 4) * 16);
            assert(base64_decode(e) =~= bytes);
        } else {
            let b1 = bytes[1] as int;
            lemma_digit((b0 % 4) * 16 + b1 / 16);
            if bytes.len() == 2 {
                lemma_digit((b1 % 16) * 4);
                assert(base64_decode(e) =~= bytes);
            } else {
                let b2 = bytes[2] as int;
                lemma_digit((b1 % 16) * 4 + b2 / 64);
                lemma_digit(b2 % 64);
                let rest = bytes.subrange(3, bytes.len() as int);
                law_base64_round_trip(rest);
                let head = seq![
                    base64_digit(b0 / 4),
                    base64_digit((b0 % 4) * 16 + b1 / 16),
                    base64_digit((b1 % 16) * 4 + b2 / 64),
                    base64_digit(b2 % 64),
                ];
                assert(e == head + base64_standard(rest));
                assert(e.subrange(4, e.len() as int) =~= base64_standard(rest));
                assert(bytes =~= seq![bytes[0], bytes[1], bytes[2]] + rest);
                assert forall|i: int| 0 <= i < e.len() implies is_base64_char(#[trigger] e[i]) by {
                    if i >= 4 {
                        assert(e[i] == base64_standard(rest)[i - 4]);
                    }
                }
                assert(base64_decode(e) =~= bytes);
            }
        }
    }
}

} // verus!
