use collab_quotes::add_magyar;
use collab_quotes::browse::{
    focus_target, login_plan, scroll_decision, scroll_target, search_decision, search_failure,
    search_limit, FocusTarget, LoginAction, ScrollDecision, ScrollTarget, SearchDecision,
    SearchMethod, LOGIN_POLL_MILLIS, PAGE_UP_LIMIT, SCROLL_CLICK_LIMIT, SCROLL_UP_LIMIT,
};
use collab_quotes::decimal::{push_decimal, u64_to_decimal};
use collab_quotes::errors::BrowseError;
use collab_quotes::page::{extract_author, screenshot_name};
use collab_quotes::protocol::{
    client_outcome, echo_decision, encode_extract_request, extraction_response,
    invalid_json_response, proc_decision, request_from_quoted, ClientError, ClientReply,
    EchoAction, EchoEvent, ExtractReq, ExtractResp, ProcAction, ProcEvent, ReplyPayload,
    TypeOperation,
};
use collab_quotes::quote::{assemble_quote, read_lookup, TextLookup};
use collab_quotes::selectors::{
    chrome_arguments, message_xpath, message_xpath_for, profile_url, screenshot_filename,
    text_xpath, AUTHOR_TITLE_SELECTOR, COLLABS_LABEL, LOGIN_FIELD_SELECTOR,
    PASSWORD_CONTINUE_SELECTOR,
};

#[test]
fn add_magyar_adds() {
    assert_eq!(add_magyar(0, 0), 0);
    assert_eq!(add_magyar(u32::MAX - 5, 5), u32::MAX);
}

#[test]
fn decimal_matches_to_string() {
    for n in [0u64, 7, 9, 10, 99, 100, 118782, 123820, u64::MAX] {
        assert_eq!(u64_to_decimal(n), n.to_string());
    }
    let mut s = String::from("id=");
    push_decimal(&mut s, 120900);
    assert_eq!(s, "id=120900");
}

#[test]
fn distinct_ids_have_distinct_renderings() {
    assert_ne!(u64_to_decimal(1), u64_to_decimal(10));
    assert_ne!(u64_to_decimal(118782), u64_to_decimal(123820));
}

#[test]
fn xpaths_name_text_and_ids() {
    assert_eq!(text_xpath(COLLABS_LABEL), "//*[text()='Коллабы']");
    assert_eq!(text_xpath("Okland"), "//*[text()='Okland']");
    assert_eq!(message_xpath(120900), "//div[@data-id='120900']");
    assert_eq!(message_xpath_for("118782"), "//div[@data-id='118782']");
    assert_eq!(profile_url(1), "https://relits.bitrix24.ru/company/personal/user/1");
    assert_eq!(screenshot_filename("shot", "20240101_120000"), "shot_20240101_120000.png");
}

#[test]
fn screenshot_name_has_base_and_extension() {
    let name = screenshot_name("page");
    assert!(name.starts_with("page_"));
    assert!(name.ends_with(".png"));
    assert_eq!(name.len(), "page_".len() + 15 + ".png".len());
}

#[test]
fn chrome_arguments_in_order() {
    assert_eq!(
        chrome_arguments(),
        vec![
            "--no-sandbox",
            "--disable-blink-features=AutomationControlled",
            "--disable-features=IsolateOrigins,site-per-process",
            "--window-size=1920,1080",
            "--disable-gpu",
            "--disable-software-rasterizer",
            "--disable-dev-shm-usage",
        ]
    );
}

#[test]
fn error_messages() {
    assert_eq!(BrowseError::ChatNotFound { chat: "Okland".to_string() }.message(), "Чат 'Okland' не найден");
    assert_eq!(BrowseError::MessageNotFound { id: 120900 }.message(), "Сообщение с id=120900 не найдено");
    assert_eq!(
        BrowseError::MessageNotFoundInChat { text_id: "7".to_string(), chat: "Okland".to_string() }.message(),
        "Сообщение с data-id=7 не найдено в чате Okland"
    );
    assert_eq!(
        BrowseError::MessageNotFoundAfterPageUp { id: 5, presses: 1000 }.message(),
        "Сообщение с id=5 не найдено после 1000 нажатий PageUp"
    );
    assert_eq!(
        BrowseError::MessageNotFoundAfterScroll { id: 5, steps: 1500 }.message(),
        "Сообщение с id=5 не найдено после 1500 шагов"
    );
    assert_eq!(BrowseError::ScrollContainerMissing.message(), "Не найден контейнер прокрутки чата");
    assert_eq!(BrowseError::QuoteAuthorMissing.message(), "Не найден автор цитаты");
    assert_eq!(BrowseError::QuoteTextMissing.message(), "Текст цитаты не найден");
    assert_eq!(BrowseError::QuoteBlockMissing.message(), "Блок цитаты не найден");
    assert_eq!(
        BrowseError::QuotedTextBlockMissing.message(),
        "Не найден блок цитируемого текста (bx-im-message-quote__text)"
    );
    assert_eq!(BrowseError::LoginFieldMissing.message(), "Поле логина не появилось");
    assert_eq!(BrowseError::ContinueButtonMissing.message(), "Кнопка 'Продолжить' не появилась");
    assert_eq!(BrowseError::PasswordFieldMissing.message(), "Поле пароля не появилось");
    assert_eq!(
        BrowseError::SubmitButtonMissing.message(),
        "Кнопка 'Продолжить' после пароля не появилась"
    );
    assert_eq!(BrowseError::Driver { detail: "timeout".to_string() }.message(), "timeout");
}

#[test]
fn scroll_to_bottom_stops_when_button_is_gone() {
    assert_eq!(scroll_decision(1, false), ScrollDecision::Stop);
    assert_eq!(scroll_decision(1, true), ScrollDecision::Click { more: true });
    assert_eq!(scroll_decision(19, true), ScrollDecision::Click { more: true });
    assert_eq!(scroll_decision(20, true), ScrollDecision::Click { more: false });
}

#[test]
fn scroll_to_bottom_clicks_at_most_the_limit() {
    // A button that never disappears: the run stops after the limit.
    let mut clicks = 0u32;
    let mut iteration = 0u32;
    loop {
        iteration += 1;
        match scroll_decision(iteration, true) {
            ScrollDecision::Stop => break,
            ScrollDecision::Click { more } => {
                clicks += 1;
                if !more {
                    break;
                }
            }
        }
    }
    assert_eq!(clicks, SCROLL_CLICK_LIMIT);
    // A button that disappears after three clicks.
    let mut clicks = 0u32;
    let mut iteration = 0u32;
    loop {
        iteration += 1;
        match scroll_decision(iteration, iteration <= 3) {
            ScrollDecision::Stop => break,
            ScrollDecision::Click { more } => {
                clicks += 1;
                if !more {
                    break;
                }
            }
        }
    }
    assert_eq!(clicks, 3);
}

#[test]
fn search_finds_or_gives_up() {
    assert_eq!(search_limit(SearchMethod::PageUp), PAGE_UP_LIMIT);
    assert_eq!(search_limit(SearchMethod::ScrollUp), SCROLL_UP_LIMIT);
    assert_eq!(search_decision(SearchMethod::PageUp, 0, true), SearchDecision::Found);
    assert_eq!(search_decision(SearchMethod::PageUp, 3, false), SearchDecision::Scroll { report: true });
    assert_eq!(search_decision(SearchMethod::PageUp, 999, true), SearchDecision::Found);
    assert_eq!(search_decision(SearchMethod::PageUp, 1000, true), SearchDecision::GiveUp);
    assert_eq!(search_decision(SearchMethod::ScrollUp, 100, false), SearchDecision::Scroll { report: true });
    assert_eq!(search_decision(SearchMethod::ScrollUp, 101, false), SearchDecision::Scroll { report: false });
    assert_eq!(search_decision(SearchMethod::ScrollUp, 1500, false), SearchDecision::GiveUp);
    assert_eq!(
        search_failure(SearchMethod::PageUp, 42).message(),
        "Сообщение с id=42 не найдено после 1000 нажатий PageUp"
    );
    assert_eq!(
        search_failure(SearchMethod::ScrollUp, 42).message(),
        "Сообщение с id=42 не найдено после 1500 шагов"
    );
}

#[test]
fn search_run_gives_up_after_the_limit() {
    let mut step = 0u64;
    let mut scrolls = 0u64;
    loop {
        match search_decision(SearchMethod::ScrollUp, step, false) {
            SearchDecision::Found => panic!("never on the page"),
            SearchDecision::Scroll { .. } => scrolls += 1,
            SearchDecision::GiveUp => break,
        }
        step += 1;
    }
    assert_eq!(scrolls, SCROLL_UP_LIMIT);
}

#[test]
fn focus_and_scroll_targets() {
    assert_eq!(focus_target(true, true), FocusTarget::ChatTitle);
    assert_eq!(focus_target(true, false), FocusTarget::ChatTitle);
    assert_eq!(focus_target(false, true), FocusTarget::AnyMessage);
    assert_eq!(focus_target(false, false), FocusTarget::Body);
    assert_eq!(scroll_target(true, false).ok(), Some(ScrollTarget::Container));
    assert_eq!(scroll_target(false, true).ok(), Some(ScrollTarget::ChatBlock));
    assert!(matches!(scroll_target(false, false), Err(BrowseError::ScrollContainerMissing)));
}

#[test]
fn login_plan_steps() {
    let plan = login_plan("user@example.org", "secret");
    assert_eq!(plan.len(), 4);
    assert_eq!(plan[0].selector, LOGIN_FIELD_SELECTOR);
    assert_eq!(plan[0].wait_secs, 10);
    assert_eq!(plan[0].poll_millis, LOGIN_POLL_MILLIS);
    assert!(matches!(&plan[0].action, LoginAction::Type(t) if t == "user@example.org"));
    assert!(matches!(plan[0].missing, BrowseError::LoginFieldMissing));
    assert!(matches!(plan[1].action, LoginAction::Click));
    assert_eq!(plan[2].wait_secs, 30);
    assert!(matches!(&plan[2].action, LoginAction::Type(t) if t == "secret"));
    assert_eq!(plan[3].selector, PASSWORD_CONTINUE_SELECTOR);
    assert_eq!(plan[3].missing.message(), "Кнопка 'Продолжить' после пароля не появилась");
}

#[test]
fn quote_assembly() {
    let q = assemble_quote(
        120900,
        Some("Согласовано".to_string()),
        TextLookup::Text("Николай Шагов".to_string()),
        TextLookup::Text("Заявка Шагов".to_string()),
    )
    .ok()
    .unwrap();
    assert_eq!(q.message_id, "120900");
    assert_eq!(q.quoted_author, "Николай Шагов");
    assert_eq!(q.quoted_text, "Заявка Шагов");
    assert_eq!(q.reply_text, Some("Согласовано".to_string()));
    let e = assemble_quote(1, None, TextLookup::NotFound, TextLookup::Text("x".to_string()));
    assert!(matches!(e, Err(BrowseError::QuoteAuthorMissing)));
    let e = assemble_quote(1, None, TextLookup::Text("a".to_string()), TextLookup::NotFound);
    assert!(matches!(e, Err(BrowseError::QuoteTextMissing)));
    let e = assemble_quote(1, None, TextLookup::ReadFailed("stale".to_string()), TextLookup::NotFound);
    assert_eq!(e.err().unwrap().message(), "stale");
    let r = read_lookup(TextLookup::NotFound, BrowseError::QuoteBlockMissing);
    assert_eq!(r.err().unwrap().message(), "Блок цитаты не найден");
}

#[test]
fn request_text_matches_serde_json() {
    let text = encode_extract_request("Okland \"Ltd\"", 118782, TypeOperation::ExtractFull).ok().unwrap();
    let mut map = serde_json::Map::new();
    map.insert("collab".to_string(), serde_json::Value::String("Okland \"Ltd\"".to_string()));
    map.insert("message_id".to_string(), serde_json::Value::from(118782u64));
    map.insert("type__".to_string(), serde_json::Value::String("ExtractFull".to_string()));
    let expected = serde_json::to_string(&serde_json::Value::Object(map)).unwrap();
    assert_eq!(text, expected);
    assert_eq!(
        text,
        "{\"collab\":\"Okland \\\"Ltd\\\"\",\"message_id\":118782,\"type__\":\"ExtractFull\"}"
    );
    assert_eq!(
        request_from_quoted("\"a\"", 5, TypeOperation::ExtractSimple),
        "{\"collab\":\"a\",\"message_id\":5,\"type__\":\"ExtractSimple\"}"
    );
}

#[test]
fn server_decisions() {
    let req = ExtractReq { collab: "Okland".to_string(), message_id: 7, type__: TypeOperation::ExtractFull };
    assert!(matches!(
        proc_decision(ProcEvent::Request(req)),
        ProcAction::ExtractQuote { ref collab, message_id: 7 } if collab == "Okland"
    ));
    let req = ExtractReq { collab: "A".to_string(), message_id: 8, type__: TypeOperation::ExtractSimple };
    assert!(matches!(proc_decision(ProcEvent::Request(req)), ProcAction::ExtractText { message_id: 8, .. }));
    match proc_decision(ProcEvent::Malformed("expected value".to_string())) {
        ProcAction::Reply(r) => {
            assert!(!r.success);
            assert_eq!(r.quoted_text, None);
            assert_eq!(r.error, Some("Invalid JSON: expected value".to_string()));
        }
        _ => panic!("expected a reply"),
    }
    assert!(matches!(proc_decision(ProcEvent::Close), ProcAction::Stop));
    assert!(matches!(proc_decision(ProcEvent::Other), ProcAction::Ignore));
}

#[test]
fn server_answers() {
    let ok = extraction_response(Ok("quoted".to_string()));
    assert!(ok.success);
    assert_eq!(ok.quoted_text, Some("quoted".to_string()));
    assert_eq!(ok.error, None);
    let err = extraction_response(Err(BrowseError::ChatNotFound { chat: "X".to_string() }));
    assert!(!err.success);
    assert_eq!(err.quoted_text, None);
    assert_eq!(err.error, Some("Чат 'X' не найден".to_string()));
    let bad = invalid_json_response("eof");
    assert_eq!(bad.error, Some("Invalid JSON: eof".to_string()));
}

#[test]
fn client_outcomes() {
    let ok = ExtractResp { success: true, quoted_text: Some("text".to_string()), error: None };
    assert_eq!(client_outcome(ClientReply::Response(ok), ReplyPayload::Text).ok(), Some("text".to_string()));
    let empty = ExtractResp { success: true, quoted_text: None, error: None };
    let e = client_outcome(ClientReply::Response(empty), ReplyPayload::Text).err().unwrap();
    assert_eq!(e.message(), "Ответ не содержит текста");
    let empty = ExtractResp { success: true, quoted_text: None, error: None };
    let e = client_outcome(ClientReply::Response(empty), ReplyPayload::QuoteJson).err().unwrap();
    assert_eq!(e.message(), "Ответ не содержит данных");
    let failed = ExtractResp { success: false, quoted_text: None, error: Some("boom".to_string()) };
    let e = client_outcome(ClientReply::Response(failed), ReplyPayload::Text).err().unwrap();
    assert_eq!(e.message(), "Ошибка сервера: boom");
    let failed = ExtractResp { success: false, quoted_text: None, error: None };
    let e = client_outcome(ClientReply::Response(failed), ReplyPayload::Text).err().unwrap();
    assert_eq!(e.message(), "Ошибка сервера: ");
    let e = client_outcome(ClientReply::NoReply, ReplyPayload::Text).err().unwrap();
    assert_eq!(e.message(), "Не получен ответ от сервера");
    let e = client_outcome(ClientReply::Malformed("bad".to_string()), ReplyPayload::Text).err().unwrap();
    assert!(matches!(e, ClientError::Malformed(ref d) if d == "bad"));
    assert_eq!(ClientError::Connect.message(), "Не удалось подключиться к WebSocket");
    assert_eq!(ClientError::Transport("reset".to_string()).message(), "reset");
}

#[test]
fn client_reads_what_the_server_answers() {
    let answer = extraction_response(Ok("payload".to_string()));
    assert_eq!(
        client_outcome(ClientReply::Response(answer), ReplyPayload::QuoteJson).ok(),
        Some("payload".to_string())
    );
    let answer = extraction_response(Err(BrowseError::QuoteTextMissing));
    let e = client_outcome(ClientReply::Response(answer), ReplyPayload::QuoteJson).err().unwrap();
    assert_eq!(e.message(), "Ошибка сервера: Текст цитаты не найден");
    let answer = invalid_json_response("eof");
    let e = client_outcome(ClientReply::Response(answer), ReplyPayload::Text).err().unwrap();
    assert_eq!(e.message(), "Ошибка сервера: Invalid JSON: eof");
}

#[test]
fn echo_channel() {
    match echo_decision(EchoEvent::Text("Okland".to_string())) {
        EchoAction::OpenAndEcho { chat, reply } => {
            assert_eq!(chat, "Okland");
            assert_eq!(reply, "ECHO:: Okland");
        }
        _ => panic!("expected an echo"),
    }
    assert!(matches!(echo_decision(EchoEvent::Close), EchoAction::Stop));
    assert!(matches!(echo_decision(EchoEvent::Other), EchoAction::Ignore));
}

#[test]
fn author_lookup_edges() {
    assert_eq!(extract_author("<div>no title</div>".to_string()), None);
    assert_eq!(
        extract_author("<span class=\"bx-im-chat-title__text\">A<b>B</b></span><span class=\"bx-im-chat-title__text\">C</span>".to_string()),
        Some("AB".to_string())
    );
    assert_eq!(AUTHOR_TITLE_SELECTOR, ".bx-im-chat-title__text");
}
