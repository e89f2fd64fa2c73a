//! The XPath and CSS selectors, scripts and addresses by which the chat
//! pages are found and driven.
use vstd::prelude::*;

use crate::decimal::{all_digits, decimal, decimal_round_trip, decimal_value, push_decimal};

verus! {

/// Label of the menu entry that lists the collaboration chats.
pub const COLLABS_LABEL: &'static str = "Коллабы";

/// The site that the browser signs in to.
pub const BASE_URL: &'static str = "https://relits.bitrix24.ru";

/// Address of the chromedriver instance.
pub const WEBDRIVER_URL: &'static str = "http://localhost:21000";

/// Address at which the extraction service answers extraction requests.
pub const URL_WS_CONNECT: &'static str = "ws://127.0.0.1:3000/proc";

/// Address at which the extraction service opens chats named in text messages.
pub const URL_WS_ECHO: &'static str = "ws://127.0.0.1:3000/ws";

/// Floating "scroll down" button of an open chat.
pub const SCROLL_BUTTON_SELECTOR: &'static str =
    ".bx-im-dialog-chat__float-buttons_button, .bx-im-dialog-chat__float-button_icon";

/// Text of the reply in a message.
pub const REPLY_TEXT_SELECTOR: &'static str = ".bx-im-message-default-content__text";

/// Name of the quoted author in a message.
pub const QUOTE_AUTHOR_SELECTOR: &'static str = ".bx-im-message-quote__name-text";

/// Text of the quotation in a message.
pub const QUOTE_TEXT_SELECTOR: &'static str = ".bx-im-message-quote__text";

/// Author title of a message.
pub const AUTHOR_TITLE_SELECTOR: &'static str = ".bx-im-chat-title__text";

/// Group of messages of one author, clicked to give the message list focus.
pub const AUTHOR_GROUP_SELECTOR: &'static str = ".bx-im-message-list-author-group__container";

/// Any message of the open chat.
pub const ANY_MESSAGE_SELECTOR: &'static str = ".bx-im-message";

/// Scrollable container of the open chat.
pub const SCROLL_CONTAINER_SELECTOR: &'static str = ".bx-im-dialog-chat__scroll-container";

/// Block of the open chat, used where the scroll container is absent.
pub const CHAT_BLOCK_SELECTOR: &'static str = ".bx-im-dialog-chat__block";

/// Login name field of the sign-in form.
pub const LOGIN_FIELD_SELECTOR: &'static str = "input.b24net-text-input__field[type='text']";

/// "Continue" button after the login name.
pub const LOGIN_CONTINUE_SELECTOR: &'static str = ".b24net-login-enter-form__continue-btn";

/// Password field of the sign-in form.
pub const PASSWORD_FIELD_SELECTOR: &'static str = "input.b24net-text-input__field[type='password']";

/// "Continue" button after the password.
pub const PASSWORD_CONTINUE_SELECTOR: &'static str = ".b24net-password-enter-form__continue-btn";

/// Format of the local time stamp in a screenshot's name.
pub const SCREENSHOT_STAMP_FORMAT: &'static str = "%Y%m%d_%H%M%S";

/// Script that returns the outer HTML of its argument.
pub const OUTER_HTML_SCRIPT: &'static str = "return arguments[0].outerHTML;";

/// Script that clicks its argument.
pub const CLICK_SCRIPT: &'static str = "arguments[0].click();";

/// Script that clicks the page body.
pub const BODY_CLICK_SCRIPT: &'static str = "document.body.click();";

/// Script that scrolls its argument up by 400 pixels.
pub const SCROLL_UP_SCRIPT: &'static str = "arguments[0].scrollTop -= 400;";

/// Script that sends a PageUp key press to the focused element.
pub const PAGE_UP_SCRIPT: &'static str = "\n                let active = document.activeElement;\n                if (active) {\n                    let evt = new KeyboardEvent('keydown', { key: 'PageUp', code: 'PageUp', keyCode: 33, which: 33, bubbles: true });\n                    active.dispatchEvent(evt);\n                }\n                ";

/// XPath of any element whose text is exactly `text`.
pub open spec fn text_xpath_spec(text: Seq<char>) -> Seq<char> {
    "//*[text()='"@ + text + "']"@
}

/// XPath of the message `div` whose `data-id` is `id`.
pub open spec fn message_xpath_spec(id: Seq<char>) -> Seq<char> {
    "//div[@data-id='"@ + id + "']"@
}

/// Address of the profile page of user `user_id`.
pub open spec fn profile_url_spec(user_id: nat) -> Seq<char> {
    BASE_URL@ + "/company/personal/user/"@ + decimal(user_id)
}

/// Name of a screenshot file taken at the time written `stamp`.
pub open spec fn screenshot_filename_spec(base: Seq<char>, stamp: Seq<char>) -> Seq<char> {
    base + "_"@ + stamp + ".png"@
}

/// XPath of any element whose text is exactly `text` (a chat name or a label).
pub fn text_xpath(text: &str) -> (xpath: String)
    ensures
        xpath@ == text_xpath_spec(text@),
{
    let mut xpath = String::from_str("//*[text()='");
    xpath.append(text);
    xpath.append("']");
    xpath
}

/// XPath of the message with numeric id `id`.
pub fn message_xpath(id: u64) -> (xpath: String)
    ensures
        xpath@ == message_xpath_spec(decimal(id as nat)),
{
    let mut xpath = String::from_str("//div[@data-id='");
    push_decimal(&mut xpath, id);
    xpath.append("']");
    xpath
}

/// XPath of the message whose id is written `id`.
pub fn message_xpath_for(id: &str) -> (xpath: String)
    ensures
        xpath@ == message_xpath_spec(id@),
{
    let mut xpath = String::from_str("//div[@data-id='");
    xpath.append(id);
    xpath.append("']");
    xpath
}

/// Address of the profile page of user `user_id`.
pub fn profile_url(user_id: u64) -> (url: String)
    ensures
        url@ == profile_url_spec(user_id as nat),
{
    let mut url = String::from_str(BASE_URL);
    url.append("/company/personal/user/");
    push_decimal(&mut url, user_id);
    url
}

/// Name of a screenshot file: `base`, an underscore, the time stamp, `.png`.
pub fn screenshot_filename(base: &str, stamp: &str) -> (name: String)
    ensures
        name@ == screenshot_filename_spec(base@, stamp@),
{
    let mut name = String::from_str(base);
    name.append("_");
    name.append(stamp);
    name.append(".png");
    name
}

/// The command-line arguments with which Chrome is started.
pub open spec fn chrome_arguments_spec() -> Seq<Seq<char>> {
    seq![
        "--no-sandbox"@,
        "--disable-blink-features=AutomationControlled"@,
        "--disable-features=IsolateOrigins,site-per-process"@,
        "--window-size=1920,1080"@,
        "--disable-gpu"@,
        "--disable-software-rasterizer"@,
        "--disable-dev-shm-usage"@,
    ]
}

/// The command-line arguments with which Chrome is started, in order.
pub fn chrome_arguments() -> (args: Vec<&'static str>)
    ensures
        args@.map_values(|a: &'static str| a@) == chrome_arguments_spec(),
{
    let mut args: Vec<&'static str> = Vec::new();
    args.push("--no-sandbox");
    args.push("--disable-blink-features=AutomationControlled");
    args.push("--disable-features=IsolateOrigins,site-per-process");
    args.push("--window-size=1920,1080");
    args.push("--disable-gpu");
    args.push("--disable-software-rasterizer");
    args.push("--disable-dev-shm-usage");
    assert(args@.map_values(|a: &'static str| a@) =~= chrome_arguments_spec());
    args
}

/// The parts of `prefix + middle + suffix`: cutting the prefix and the
/// suffix off gives back the middle.
pub proof fn framed_parts(prefix: Seq<char>, middle: Seq<char>, suffix: Seq<char>)
    ensures
        (prefix + middle + suffix).len() == prefix.len() + middle.len() + suffix.len(),
        (prefix + middle + suffix).take(prefix.len() as int) == prefix,
        (prefix + middle + suffix).skip((prefix.len() + middle.len()) as int) == suffix,
        (prefix + middle + suffix).subrange(prefix.len() as int, (prefix.len() + middle.len()) as int)
            == middle,
{
    let x = prefix + middle + suffix;
    assert(x.take(prefix.len() as int) =~= prefix);
    assert(x.skip((prefix.len() + middle.len()) as int) =~= suffix);
    assert(x.subrange(prefix.len() as int, (prefix.len() + middle.len()) as int) =~= middle);
}

/// The XPath that opens a chat or a label holds the whole text, verbatim,
/// between `//*[text()='` and `']`: cutting those off gives the text back.
pub proof fn text_xpath_holds_whole_text(text: Seq<char>)
    ensures
        text_xpath_spec(text).len() == "//*[text()='"@.len() + text.len() + "']"@.len(),
        text_xpath_spec(text).take("//*[text()='"@.len() as int) == "//*[text()='"@,
        text_xpath_spec(text).skip(text_xpath_spec(text).len() - "']"@.len()) == "']"@,
        text_xpath_spec(text).subrange(
            "//*[text()='"@.len() as int,
            text_xpath_spec(text).len() - "']"@.len(),
        ) == text,
{
    framed_parts("//*[text()='"@, text, "']"@);
}

/// The XPath of a message whose id is written `id` holds that writing,
/// verbatim, between `//div[@data-id='` and `']`.
pub proof fn message_xpath_holds_written_id(id: Seq<char>)
    ensures
        message_xpath_spec(id).len() == "//div[@data-id='"@.len() + id.len() + "']"@.len(),
        message_xpath_spec(id).take("//div[@data-id='"@.len() as int) == "//div[@data-id='"@,
        message_xpath_spec(id).skip(message_xpath_spec(id).len() - "']"@.len()) == "']"@,
        message_xpath_spec(id).subrange(
            "//div[@data-id='"@.len() as int,
            message_xpath_spec(id).len() - "']"@.len(),
        ) == id,
{
    framed_parts("//div[@data-id='"@, id, "']"@);
}

/// The XPath of message `id` holds, between `//div[@data-id='` and `']`, a
/// non-empty run of digits without a leading zero (but for id 0) that reads
/// back as `id`: the id's own rendering, as the page writes it.
pub proof fn message_xpath_holds_numeric_id(id: nat)
    ensures
        ({
            let x = message_xpath_spec(decimal(id));
            let start = "//div[@data-id='"@.len() as int;
            let end = x.len() - "']"@.len();
            let digits = x.subrange(start, end);
            &&& x.take(start) == "//div[@data-id='"@
            &&& x.skip(end) == "']"@
            &&& digits.len() >= 1
            &&& all_digits(digits)
            &&& decimal_value(digits) == id
            &&& (digits[0] == '0' ==> id == 0)
        }),
{
    message_xpath_holds_written_id(decimal(id));
    decimal_round_trip(id);
}

/// The profile address of user `user_id` is the site's address,
/// `/company/personal/user/`, and then a non-empty run of digits without a
/// leading zero (but for user 0) that reads back as `user_id`.
pub proof fn profile_url_names_user(user_id: nat)
    ensures
        ({
            let url = profile_url_spec(user_id);
            let start = (BASE_URL@ + "/company/personal/user/"@).len() as int;
            let digits = url.skip(start);
            &&& url.take(start) == BASE_URL@ + "/company/personal/user/"@
            &&& digits.len() >= 1
            &&& all_digits(digits)
            &&& decimal_value(digits) == user_id
            &&& (digits[0] == '0' ==> user_id == 0)
        }),
{
    let prefix = BASE_URL@ + "/company/personal/user/"@;
    let url = profile_url_spec(user_id);
    assert(url == prefix + decimal(user_id));
    assert(url.take(prefix.len() as int) =~= prefix);
    assert(url.skip(prefix.len() as int) =~= decimal(user_id));
    decimal_round_trip(user_id);
}

/// A screenshot's name starts with the base name and `_`, ends with
/// `.png`, and holds the time stamp verbatim between them.
pub proof fn screenshot_filename_holds_base_and_stamp(base: Seq<char>, stamp: Seq<char>)
    ensures
        ({
            let name = screenshot_filename_spec(base, stamp);
            let start = (base + "_"@).len() as int;
            let end = name.len() - ".png"@.len();
            &&& name.take(start) == base + "_"@
            &&& name.skip(end) == ".png"@
            &&& name.subrange(start, end) == stamp
        }),
{
    framed_parts(base + "_"@, stamp, ".png"@);
    assert(screenshot_filename_spec(base, stamp) =~= (base + "_"@) + stamp + ".png"@);
}

} // verus!
