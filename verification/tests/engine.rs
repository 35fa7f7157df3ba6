use retina_style_core::crash::format_panic_message;
use retina_style_core::cursor::{
    context_menu_items, convert_cursor_type, hovered_cursor, link_to_open, ContextMenuAction, ContextMenuEntry,
    CssCursor, CursorIcon, CursorState, HoveredNode, ImageFacts,
};
use retina_style_core::error::{
    error_marker, error_marker_fits, improve_caret_location, BasicParseErrorKind, Context, ParseError, RetinaStyleParseError,
};
use retina_style_core::fonts::{
    find_font_face_rule, first_remote_font_step, matches_font_face_rule, next_remote_font_step, remote_font_plan,
    FamilyName, FontDescriptor, FontJob, FontLoader, FontLoadResult, FontSourcePlan, FontState, RemoteFontStep,
};
use retina_style_core::fontface::FontFaceParser;
use retina_style_core::style::{CodePointRange, CssFontFaceDeclaration};
use retina_style_core::page::{
    CleaningStep, DirtyPhase, DirtyState, PageConnection, PageEvent, PageHandleCommunicationError, ReceiveOutcome,
    ScrollResult, TitleCandidate, find_title, react, stylesheet_loaded,
};
use retina_style_core::rules::parse_stylesheet;
use retina_style_core::style::{
    CascadeOrigin, Color, CssColor, CssFontFaceFormat, CssFontFaceSrc, CssFontStyle, CssNamedColor, CssNumber, Rule,
};
use retina_style_core::tokenizer::{tokenize, CssToken};
use retina_style_core::util::{CssAttributeStrExtensions, HexExt};

#[test]
fn legacy_colours() {
    assert_eq!("red".parse_legacy_color_value(), Some(CssNamedColor::red()));
    assert_eq!("#fff".parse_legacy_color_value(), Some(CssNamedColor::white()));
    assert_eq!("chucknorris".parse_legacy_color_value(), Some(CssColor::Color(Color::rgb_bytes(192, 0, 0))));
    assert_eq!("transparent".parse_legacy_color_value(), None);
    assert_eq!("".parse_legacy_color_value(), None);
    assert_eq!("  #00ff00  ".parse_legacy_color_value(), Some(CssColor::Color(Color::rgb_bytes(0, 255, 0))));
}

#[test]
fn hexadecimal_digits() {
    assert_eq!('a'.as_hexdigit(), Some(10));
    assert_eq!('F'.as_hexdigit(), Some(15));
    assert_eq!('7'.as_hexdigit(), Some(7));
    assert_eq!('g'.as_hexdigit(), None);
    assert_eq!("ff".html_interpret_as_hexadecimal_number(), Some(255));
    assert_eq!("1".html_interpret_as_hexadecimal_number(), None);
}

#[test]
fn dirty_state_requests_only_raise() {
    let mut dirty = DirtyState::new();
    assert_eq!(dirty.phase(), DirtyPhase::GenerateLayoutTree);
    assert_eq!(dirty.next_step(), Some(CleaningStep::GenerateLayoutTree));
    dirty.mark_layout_tree_generated();
    assert_eq!(dirty.phase(), DirtyPhase::Paint);
    dirty.request(DirtyPhase::Layout);
    assert_eq!(dirty.phase(), DirtyPhase::Layout);
    dirty.request(DirtyPhase::Paint);
    assert_eq!(dirty.phase(), DirtyPhase::Layout);
    dirty.mark_layed_out();
    assert_eq!(dirty.phase(), DirtyPhase::Paint);
    dirty.mark_painted();
    assert_eq!(dirty.phase(), DirtyPhase::Ready);
    assert_eq!(dirty.next_step(), None);
    assert!(!dirty.must_act_given(true));
    assert!(!dirty.must_act_after(u128::MAX));
    dirty.request(DirtyPhase::Paint);
    assert!(!dirty.must_act_after(30_000_000));
    assert!(dirty.must_act_after(30_000_001));
    assert!(DirtyState::new().must_act_after(0));
    assert!(DirtyState::new().must_act_now());
}

#[test]
fn page_reactions() {
    let mut dirty = DirtyState::new();
    dirty.mark_layout_tree_generated();
    dirty.mark_painted();
    let r = react(&mut dirty, PageEvent::Scrolled { result: ScrollResult::Changed, by_wheel: true }, false);
    assert!(r.start_scroll_timer);
    assert_eq!(dirty.phase(), DirtyPhase::Paint);
    let r = react(&mut dirty, PageEvent::Scrolled { result: ScrollResult::Changed, by_wheel: true }, true);
    assert!(!r.start_scroll_timer);
    let r = react(&mut dirty, PageEvent::CanvasResize { same_size: true }, false);
    assert!(!r.resize_canvas);
    assert_eq!(dirty.phase(), DirtyPhase::Paint);
    let r = react(&mut dirty, PageEvent::CanvasResize { same_size: false }, false);
    assert!(r.resize_canvas);
    assert_eq!(dirty.phase(), DirtyPhase::Layout);
    let r = react(&mut dirty, PageEvent::FontLoaded(FontLoadResult { rerun_layout: false, rerun_algorithm: true }), false);
    assert!(r.rerun_font_selection);
    assert_eq!(dirty.phase(), DirtyPhase::Layout);
    let r = react(&mut dirty, PageEvent::StylesheetLoaded, false);
    assert!(r.discard_layout && r.report_ready);
    assert_eq!(dirty.phase(), DirtyPhase::GenerateLayoutTree);
    let r = react(&mut dirty, PageEvent::CommandPipelineClosed, false);
    assert!(r.stop);
    assert!(ScrollResult::Changed.was_changed());
    assert!(!ScrollResult::Unchanged.was_changed());
}

#[test]
fn page_connection() {
    let mut connection = PageConnection { is_page_still_connected: true };
    assert_eq!(connection.after_receive(ReceiveOutcome::Message(7)), Ok(7));
    assert_eq!(
        connection.after_receive::<u8>(ReceiveOutcome::Timeout),
        Err(PageHandleCommunicationError::Timeout)
    );
    assert!(connection.is_page_still_connected);
    assert_eq!(connection.after_send(true), Ok(()));
    assert_eq!(connection.after_send(false), Err(PageHandleCommunicationError::Disconnected));
    assert_eq!(connection.after_send(true), Err(PageHandleCommunicationError::Disconnected));
    assert_eq!(
        connection.after_receive(ReceiveOutcome::Message(7)),
        Err(PageHandleCommunicationError::Disconnected)
    );
    let mut closing = PageConnection { is_page_still_connected: true };
    assert_eq!(
        closing.after_receive::<u8>(ReceiveOutcome::Disconnected),
        Err(PageHandleCommunicationError::Disconnected)
    );
    assert!(!closing.is_page_still_connected);
    assert_eq!(closing.after_receive(ReceiveOutcome::Message(1)), Err(PageHandleCommunicationError::Disconnected));
    assert!(!closing.is_page_still_connected);
}

#[test]
fn loaded_stylesheets_are_appended() {
    let mut sheets = None;
    let mut dirty = DirtyState::new();
    dirty.mark_painted();
    let first = parse_stylesheet(CascadeOrigin::Author, "p { color: red }");
    let reaction = stylesheet_loaded(&mut sheets, &mut dirty, first);
    assert!(reaction.discard_layout && reaction.report_ready && !reaction.stop);
    assert_eq!(dirty.phase(), DirtyPhase::GenerateLayoutTree);
    assert_eq!(sheets.as_ref().map(|s| s.len()), Some(1));
    let second = parse_stylesheet(CascadeOrigin::Author, "a { color: blue } b { color: green }");
    stylesheet_loaded(&mut sheets, &mut dirty, second);
    let sheets = sheets.unwrap();
    assert_eq!(sheets.len(), 2);
    assert_eq!(sheets[0].rules.len(), 1);
    assert_eq!(sheets[1].rules.len(), 2);
}

#[test]
fn cursor_icons() {
    assert_eq!(convert_cursor_type(CssCursor::Auto, true), CursorIcon::Text);
    assert_eq!(convert_cursor_type(CssCursor::Auto, false), CursorIcon::Default);
    assert_eq!(convert_cursor_type(CssCursor::Pointer, false), CursorIcon::Hand);
    assert_eq!(convert_cursor_type(CssCursor::NoCursor, false), CursorIcon::Default);
    assert_eq!(convert_cursor_type(CssCursor::ZoomOut, false), CursorIcon::ZoomOut);
    assert_eq!(hovered_cursor(None), CursorIcon::Help);
    assert_eq!(hovered_cursor(Some((CssCursor::Wait, false))), CursorIcon::Wait);
    let mut state = CursorState::new();
    assert!(!state.set_cursor(CursorIcon::Default));
    assert!(state.set_cursor(CursorIcon::Hand));
    assert!(!state.set_cursor(CursorIcon::Hand));
}

fn node(name: &str) -> HoveredNode {
    HoveredNode { local_name: Some(name.to_string()), href: None, first_text: None, image: None }
}

#[test]
fn context_menu_over_a_link_and_an_image() {
    let page = "https://example.com/dir/page.html";
    let mut link = node("a");
    link.href = Some("/next".to_string());
    link.first_text = Some("Next page".to_string());
    let mut image = node("img");
    image.image = Some(ImageFacts { alt: "A cat".to_string(), src: "cat.png".to_string() });
    let stack = vec![image, node("span"), link];
    let items = context_menu_items(&stack, page);
    let copy = |action, text: &str| ContextMenuEntry::Copy { action, text: text.to_string() };
    assert_eq!(
        items,
        vec![
            copy(ContextMenuAction::CopyLink, "https://example.com/next"),
            copy(ContextMenuAction::CopyLinkText, "Next page"),
            ContextMenuEntry::Separator,
            copy(ContextMenuAction::CopyImageLocation, "https://example.com/dir/cat.png"),
            copy(ContextMenuAction::CopyImageAlternativeText, "A cat"),
            ContextMenuEntry::Separator,
            copy(ContextMenuAction::CopyPageUrl, page),
        ]
    );
    assert_eq!(ContextMenuAction::CopyImageLocation.label(), "Copy Image Location");
    assert_eq!(context_menu_items(&[node("p")], page), vec![copy(ContextMenuAction::CopyPageUrl, page)]);
}

#[test]
fn click_opens_the_innermost_link() {
    let page = "https://example.com/dir/page.html";
    let mut link = node("A");
    link.href = Some("other.html".to_string());
    let stack = vec![node("b"), link];
    assert_eq!(link_to_open(&stack, page), Some("https://example.com/dir/other.html".to_string()));
    assert_eq!(link_to_open(&[node("a"), node("p")], page), None);
    assert_eq!(link_to_open(&[node("p")], page), None);
}

#[test]
fn crash_report_shows_the_source() {
    let lines: Vec<Option<String>> = (1..=10).map(|n| Some(format!("line {n}"))).collect();
    let report = format_panic_message("panicked", &lines, 3, 5, "boom");
    let expected = "panicked\n   1: line 1\n   2: line 2\n   3: line 3\n         ^ boom\n   1: line 4\n   2: line 5\n   3: line 6\n   4: line 7\n   5: line 8";
    assert_eq!(report, expected);
    let short: Vec<Option<String>> = vec![Some("only".to_string()), None];
    let report = format_panic_message("p", &short, 12, 0, "e");
    assert_eq!(report, "p\n    ^ e");
}

#[test]
fn error_markers() {
    let unexpected = ParseError::Basic(BasicParseErrorKind::UnexpectedToken(CssToken::Ident("abc".to_string())));
    assert_eq!(error_marker(5, &unexpected), "    ^~~");
    let unknown = ParseError::Custom(RetinaStyleParseError::UnknownValue(Some(CssToken::Ident("abc".to_string()))));
    assert_eq!(error_marker(10, &unknown), "      ^~~");
    let function = ParseError::Custom(RetinaStyleParseError::UnknownValue(Some(CssToken::Function("rgb".to_string()))));
    assert_eq!(improve_caret_location(9, 1, "", &function), Some((5, 3)));
    assert_eq!(improve_caret_location(9, 1, "", &unexpected), None);
    assert_eq!(CssToken::SubstringMatch.length(), 2);
    assert_eq!(CssToken::Cdo.length(), 3);
    assert_eq!(CssToken::QuotedString("héllo".to_string()).length(), 6);
}

#[test]
fn error_marker_fit() {
    let unknown = ParseError::Custom(RetinaStyleParseError::UnknownValue(Some(CssToken::Ident("abc".to_string()))));
    assert!(error_marker_fits(10, &unknown));
    assert!(error_marker_fits(4, &unknown));
    assert!(!error_marker_fits(3, &unknown));
    let function = ParseError::Custom(RetinaStyleParseError::UnknownValue(Some(CssToken::Function("rgb".to_string()))));
    assert!(error_marker_fits(5, &function));
    assert!(!error_marker_fits(4, &function));
    let unexpected = ParseError::Basic(BasicParseErrorKind::UnexpectedToken(CssToken::Ident("abc".to_string())));
    assert!(error_marker_fits(0, &unexpected));
    let empty = ParseError::Basic(BasicParseErrorKind::UnexpectedToken(CssToken::Ident(String::new())));
    assert!(!error_marker_fits(3, &empty));
}

#[test]
fn error_counting() {
    let mut context = Context::new();
    for _ in 0..20 {
        assert!(context.parse_error());
    }
    assert_eq!(context.skipped_errors(), None);
    assert!(!context.parse_error());
    assert_eq!(context.skipped_errors(), Some((1, "error")));
    assert!(!context.parse_error());
    assert_eq!(context.skipped_errors(), Some((2, "skipped")));
}

#[test]
fn tokens_with_spans() {
    let input = "a{b:c}";
    let tokens = tokenize(input);
    let kinds: Vec<CssToken> = tokens.iter().map(|t| t.token.clone()).collect();
    assert_eq!(
        kinds,
        vec![
            CssToken::Ident("a".to_string()),
            CssToken::CurlyBracketBlock,
            CssToken::Ident("b".to_string()),
            CssToken::Colon,
            CssToken::Ident("c".to_string()),
            CssToken::CloseCurlyBracket,
        ]
    );
    let spans: Vec<(usize, usize)> = tokens.iter().map(|t| (t.start, t.end)).collect();
    assert_eq!(spans, vec![(0, 1), (1, 2), (2, 3), (3, 4), (4, 5), (5, 6)]);
}

fn descriptor(name: &str, weight: f32) -> FontDescriptor {
    FontDescriptor {
        name: FamilyName::Title(name.to_string()),
        weight: CssNumber { bits: weight.to_bits() },
        style: CssFontStyle::Normal,
    }
}

const FACE: &str = "@font-face {
    font-family: Foo;
    font-style: normal;
    font-weight: 400;
    unicode-range: U+0000-00FF;
    src: url(https://example.com/a.woff2) format('woff2'), url(x.svg) format(svg), local(Bar);
}";

#[test]
fn font_face_rules_provide_fonts() {
    let sheets = vec![parse_stylesheet(CascadeOrigin::Author, FACE)];
    let face = match &sheets[0].rules()[0] {
        Rule::AtFontFace(face) => face,
        other => panic!("expected a font face, got {other:?}"),
    };
    assert!(matches_font_face_rule(face, &descriptor("Foo", 400.0)));
    assert!(!matches_font_face_rule(face, &descriptor("Foo", 700.0)));
    assert!(!matches_font_face_rule(face, &descriptor("Bar", 400.0)));
    assert!(find_font_face_rule(&descriptor("Foo", 400.0), &sheets).is_some());
    assert!(find_font_face_rule(&descriptor("Other", 400.0), &sheets).is_none());
    let sources = match &face.declarations[4] {
        retina_style_core::style::CssFontFaceDeclaration::Src { sources } => sources.clone(),
        other => panic!("expected sources, got {other:?}"),
    };
    assert_eq!(
        remote_font_plan(&sources),
        vec![
            FontSourcePlan::Fetch { url: "https://example.com/a.woff2".to_string(), format: CssFontFaceFormat::Woff2 },
            FontSourcePlan::Local("Bar".to_string()),
        ]
    );
    assert_eq!(sources[1], CssFontFaceSrc::WebFont { url: "x.svg".to_string(), format: CssFontFaceFormat::Svg });
}

#[test]
fn font_loader_states() {
    let sheets = vec![parse_stylesheet(CascadeOrigin::Author, FACE)];
    let mut loader = FontLoader::new("https://example.org/".to_string());
    let foo = descriptor("Foo", 400.0);
    let system = descriptor("Arial", 400.0);
    let current = descriptor("Default", 400.0);
    loader.register(&[foo.clone(), system.clone()], &current);
    assert_eq!(loader.state_of(&foo), Some(FontState::Initial));
    assert_eq!(loader.state_of(&system), None);
    loader.set_document_url("https://example.org/next".to_string());
    assert_eq!(loader.document_url, "https://example.org/next");
    assert_eq!(loader.state_of(&foo), Some(FontState::Initial));
    let jobs = loader.process_enqueued(&sheets);
    assert_eq!(jobs.len(), 1);
    assert!(matches!(&jobs[0], FontJob::Remote { sources: Some(s), .. } if s.len() == 3));
    assert_eq!(loader.state_of(&foo), Some(FontState::LoadingRemote));
    let result = loader.process_load_state(foo.clone(), FontState::InvalidRemoteReference);
    assert_eq!(result, FontLoadResult { rerun_layout: false, rerun_algorithm: true });
    loader.register(&[foo.clone(), system.clone()], &current);
    assert_eq!(loader.state_of(&system), Some(FontState::Initial));
    let jobs = loader.process_enqueued(&sheets);
    assert_eq!(jobs, vec![FontJob::Local(system.clone())]);
    let result = loader.process_load_state(system.clone(), FontState::Loaded);
    assert_eq!(result, FontLoadResult { rerun_layout: true, rerun_algorithm: false });
    assert_eq!(loader.fonts.len(), 2);
}

fn title_node(name: Option<&str>, text: Option<&str>) -> TitleCandidate {
    TitleCandidate { local_name: name.map(|n| n.to_string()), first_child_text: text.map(|t| t.to_string()) }
}

#[test]
fn title_search() {
    let nodes = vec![
        title_node(Some("html"), None),
        title_node(None, None),
        title_node(Some("title"), None),
        title_node(Some("TiTlE"), Some("Hello")),
        title_node(Some("title"), Some("Second")),
    ];
    assert_eq!(find_title(&nodes), Some("Hello".to_string()));
    assert_eq!(find_title(&nodes[..3]), None);
    assert_eq!(find_title(&[title_node(Some("titles"), Some("x"))]), None);
}

#[test]
fn unicode_ranges_with_long_hex_runs_are_refused() {
    let mut parser = FontFaceParser;
    assert_eq!(
        parser.parse_value("unicode-range".to_string(), "U+0-7F, U+4??"),
        Ok(CssFontFaceDeclaration::UnicodeRanges(vec![
            CodePointRange { start: 0, end: 0x7F },
            CodePointRange { start: 0x400, end: 0x4FF },
        ]))
    );
    assert!(parser.parse_value("unicode-range".to_string(), "U+123456789").is_err());
    assert!(parser.parse_value("unicode-range".to_string(), "U+1e-123456789").is_err());
    assert!(parser.parse_value("unicode-range".to_string(), "U+1234567").is_err());
}

#[test]
fn remote_font_steps() {
    assert_eq!(first_remote_font_step(0), RemoteFontStep::Finish(FontState::InvalidRemoteReference));
    assert_eq!(first_remote_font_step(3), RemoteFontStep::Try(0));
    assert_eq!(next_remote_font_step(3, 0, false), RemoteFontStep::Try(1));
    assert_eq!(next_remote_font_step(3, 1, true), RemoteFontStep::Finish(FontState::Loaded));
    assert_eq!(next_remote_font_step(3, 2, false), RemoteFontStep::Finish(FontState::InvalidRemoteReference));
}
