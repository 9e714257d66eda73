use vision::client::{Temperature, VisionClientConfig};
use vision::error::VisionError;
use vision::tools::{
    analysis_description, close_message, create_image_data, detect_mime_type,
    encode_image_to_base64, mime_type_for_extension, ocr_prompt, parse_analyze_args,
    parse_ocr_args, parse_session_command, clear_message, create_message, ApprovalRequirement,
    CreatePlan,
    ParamType, SessionCommand, SessionPlan,
    ToolCapability, VisionAnalyzeTool, VisionCompareTool, VisionOcrTool, VisionSessionTool,
};

fn config(model: &str) -> VisionClientConfig {
    VisionClientConfig {
        model: model.to_string(),
        api_key: "k".to_string(),
        base_url: "https://api.openai.com/v1".to_string(),
        max_tokens: 4096,
        temperature: Temperature { bits: 0.7f32.to_bits() },
        timeout_secs: 120,
    }
}

fn s(x: &str) -> Option<String> {
    Some(x.to_string())
}

#[test]
fn base64_encoding() {
    assert_eq!(encode_image_to_base64(b"hello"), "aGVsbG8=");
    assert_eq!(encode_image_to_base64(b""), "");
    assert_eq!(encode_image_to_base64(&[0xff, 0xfe, 0x00]), "//4A");
    assert_eq!(encode_image_to_base64(b"ab"), "YWI=");
}

#[test]
fn image_data_from_bytes() {
    let data = create_image_data(b"hello".to_vec(), "image/png");
    assert_eq!(data.base64_data, "aGVsbG8=");
    assert_eq!(data.mime_type, "image/png");
    assert_eq!(data.description, None);
}

#[test]
fn mime_types_by_extension() {
    assert_eq!(mime_type_for_extension("png").unwrap(), "image/png");
    assert_eq!(mime_type_for_extension("jpg").unwrap(), "image/jpeg");
    assert_eq!(mime_type_for_extension("jpeg").unwrap(), "image/jpeg");
    assert_eq!(mime_type_for_extension("gif").unwrap(), "image/gif");
    assert_eq!(mime_type_for_extension("webp").unwrap(), "image/webp");
    assert_eq!(mime_type_for_extension("bmp").unwrap(), "image/bmp");
    assert_eq!(mime_type_for_extension("svg").unwrap(), "image/svg+xml");
    assert_eq!(
        mime_type_for_extension("tiff").unwrap_err(),
        VisionError::UnsupportedImageFormat("tiff".to_string())
    );
}

#[test]
fn detect_mime_type_ignores_case() {
    assert_eq!(detect_mime_type("shots/photo.PNG").unwrap(), "image/png");
    assert_eq!(detect_mime_type("a.b.JpEg").unwrap(), "image/jpeg");
    assert_eq!(detect_mime_type("/tmp/x.svg").unwrap(), "image/svg+xml");
}

#[test]
fn detect_mime_type_rejects_unknown() {
    let err = detect_mime_type("notes.TXT").unwrap_err();
    assert_eq!(err, VisionError::UnsupportedImageFormat("txt".to_string()));
    assert_eq!(err.message(), "Unsupported image format: txt");
    assert_eq!(
        detect_mime_type("no_extension").unwrap_err(),
        VisionError::UnsupportedImageFormat(String::new())
    );
    assert_eq!(
        detect_mime_type(".png").unwrap_err(),
        VisionError::UnsupportedImageFormat(String::new())
    );
}

#[test]
fn analyze_args() {
    let args = parse_analyze_args(s("img.png"), None, None).unwrap();
    assert_eq!(args.image_path, "img.png");
    assert_eq!(args.prompt, "Describe this image in detail.");
    assert_eq!(args.session_id, None);
    let args = parse_analyze_args(s("img.png"), s("Count the cats"), s("sid")).unwrap();
    assert_eq!(args.prompt, "Count the cats");
    assert_eq!(args.session_id, s("sid"));
    let err = parse_analyze_args(None, s("p"), None).unwrap_err();
    assert_eq!(err, VisionError::MissingParameter("image_path".to_string()));
    assert_eq!(err.message(), "Missing required parameter: image_path");
}

#[test]
fn ocr_prompts() {
    assert_eq!(
        ocr_prompt(""),
        "Extract all text from this image. Preserve the formatting as much as possible."
    );
    assert_eq!(
        ocr_prompt("German"),
        "Extract all text from this image. The text is in German. Preserve the formatting as much as possible."
    );
}

#[test]
fn ocr_args() {
    let args = parse_ocr_args(s("scan.jpg"), s("French"), None).unwrap();
    assert_eq!(args.image_path, "scan.jpg");
    assert_eq!(
        args.prompt,
        "Extract all text from this image. The text is in French. Preserve the formatting as much as possible."
    );
    let args = parse_ocr_args(s("scan.jpg"), None, s("sid")).unwrap();
    assert_eq!(
        args.prompt,
        "Extract all text from this image. Preserve the formatting as much as possible."
    );
    assert_eq!(args.session_id, s("sid"));
    assert_eq!(
        parse_ocr_args(None, s("French"), None).unwrap_err(),
        VisionError::MissingParameter("image_path".to_string())
    );
}

#[test]
fn session_descriptions() {
    assert_eq!(analysis_description("pics/cat.png"), "Analysis of pics/cat.png");
}

#[test]
fn session_commands() {
    match parse_session_command(s("create"), None, s("mine")).unwrap() {
        SessionCommand::Create { description } => assert_eq!(description, s("mine")),
        other => panic!("unexpected {:?}", other),
    }
    assert!(matches!(parse_session_command(s("list"), None, None).unwrap(), SessionCommand::List));
    assert!(matches!(parse_session_command(s("clear"), None, None).unwrap(), SessionCommand::Clear));
    match parse_session_command(s("close"), s("abc"), None).unwrap() {
        SessionCommand::Close { session_id } => assert_eq!(session_id, "abc"),
        other => panic!("unexpected {:?}", other),
    }
}

#[test]
fn session_command_errors() {
    let missing = parse_session_command(None, None, None).unwrap_err();
    assert_eq!(missing, VisionError::MissingParameter("action".to_string()));
    assert_eq!(missing.message(), "Missing required parameter: action");
    let close = parse_session_command(s("close"), None, None).unwrap_err();
    assert_eq!(close, VisionError::MissingCloseSessionId);
    assert_eq!(close.message(), "Missing required parameter: session_id for 'close' action");
    let unknown = parse_session_command(s("delete"), None, None).unwrap_err();
    assert_eq!(unknown, VisionError::UnknownAction("delete".to_string()));
    assert_eq!(unknown.message(), "Unknown action: delete");
}

#[test]
fn close_messages() {
    assert_eq!(close_message(true), "Session closed");
    assert_eq!(close_message(false), "Session not found");
    assert_eq!(clear_message(), "All sessions cleared");
}

#[test]
fn other_error_messages() {
    assert_eq!(
        VisionError::VisionModelNotConfigured.message(),
        "Vision model not configured. Please set up vision_model in config.toml"
    );
    assert_eq!(VisionError::SessionNotFound.message(), "Session not found");
}

#[test]
fn analyze_tool_spec() {
    let spec = VisionAnalyzeTool::<()>::spec();
    assert_eq!(spec.name, "vision_analyze");
    assert_eq!(
        spec.description,
        s("Analyze an image using the configured vision model. Supports image files, screenshots, and base64-encoded images.")
    );
    let names: Vec<&str> = spec.parameters.iter().map(|p| p.name.as_str()).collect();
    assert_eq!(names, vec!["image_path", "prompt", "session_id"]);
    let required: Vec<bool> = spec.parameters.iter().map(|p| p.required).collect();
    assert_eq!(required, vec![true, false, false]);
    assert_eq!(spec.returns.description, "Analysis result from the vision model");
    assert_eq!(spec.returns.return_type, ParamType::Object);
    assert_eq!(spec.approval, ApprovalRequirement::Auto);
    assert_eq!(spec.capability, ToolCapability::Read);
}

#[test]
fn other_tool_specs() {
    let compare = VisionCompareTool::<()>::spec();
    assert_eq!(compare.name, "vision_compare");
    assert_eq!(compare.parameters[0].name, "image_paths");
    assert_eq!(compare.parameters[0].param_type, ParamType::Array);
    assert_eq!(compare.parameters[1].name, "comparison_prompt");
    let ocr = VisionOcrTool::<()>::spec();
    assert_eq!(ocr.name, "vision_ocr");
    assert_eq!(ocr.parameters[1].name, "language");
    assert!(!ocr.parameters[1].required);
    let session = VisionSessionTool::<()>::spec();
    assert_eq!(session.name, "vision_session");
    assert_eq!(
        session.parameters[0].description,
        s("Action to perform: 'create', 'list', 'close', 'clear'")
    );
    assert_eq!(session.returns.description, "Session operation result");
}

#[test]
fn tools_keep_their_manager() {
    let tool = VisionAnalyzeTool::new(7u8);
    assert_eq!(*tool.session_manager(), 7);
    assert_eq!(
        tool.get_default_config(None).unwrap_err(),
        VisionError::VisionModelNotConfigured
    );
    assert_eq!(tool.get_default_config(Some(config("m"))).unwrap().model, "m");
    assert_eq!(*VisionOcrTool::new(1u8).session_manager(), 1);
    assert_eq!(*VisionCompareTool::new(2u8).session_manager(), 2);
    assert_eq!(*VisionSessionTool::new(3u8).session_manager(), 3);
}

#[test]
fn analysis_session_plan() {
    let tool = VisionAnalyzeTool::new(());
    let named = parse_analyze_args(s("cat.png"), None, s("sid")).unwrap();
    match tool.plan_session(&named, Some(config("m"))).unwrap() {
        SessionPlan::Existing { session_id } => assert_eq!(session_id, "sid"),
        other => panic!("unexpected {:?}", other),
    }
    let unnamed = parse_analyze_args(s("cat.png"), None, None).unwrap();
    match tool.plan_session(&unnamed, Some(config("m"))).unwrap() {
        SessionPlan::Create { config, description } => {
            assert_eq!(config.model, "m");
            assert_eq!(description, "Analysis of cat.png");
        }
        other => panic!("unexpected {:?}", other),
    }
    assert_eq!(
        tool.plan_session(&unnamed, None).unwrap_err(),
        VisionError::VisionModelNotConfigured
    );
}

#[test]
fn session_tool_create_plan() {
    let tool = VisionSessionTool::new(());
    match tool.plan_create(s("notes"), Some(config("m"))) {
        CreatePlan::Open { config, description } => {
            assert_eq!(config.model, "m");
            assert_eq!(description, s("notes"));
        }
        CreatePlan::NotConfigured => panic!("expected a session to open"),
    }
    assert!(matches!(tool.plan_create(None, None), CreatePlan::NotConfigured));
    assert_eq!(create_message(true), "Session created");
    assert_eq!(create_message(false), "Session creation requires vision model configuration");
}
