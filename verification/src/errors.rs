//! Why a browsing step failed, and the message that reports it.
use vstd::prelude::*;

use crate::decimal::{all_digits, decimal, decimal_round_trip, decimal_value, push_decimal};
use crate::selectors::framed_parts;

verus! {

/// A failure while driving the chat pages.
pub enum BrowseError {
    /// No element carries the chat's name.
    ChatNotFound { chat: String },
    /// The message with this id is not on the page.
    MessageNotFound { id: u64 },
    /// The message whose id is written `text_id` is not in chat `chat`.
    MessageNotFoundInChat { text_id: String, chat: String },
    /// The message did not appear after `presses` PageUp presses.
    MessageNotFoundAfterPageUp { id: u64, presses: u64 },
    /// The message did not appear after `steps` scroll steps.
    MessageNotFoundAfterScroll { id: u64, steps: u64 },
    /// Neither the scroll container nor the chat block is on the page.
    ScrollContainerMissing,
    /// The message has no quoted author.
    QuoteAuthorMissing,
    /// The message has no quoted text.
    QuoteTextMissing,
    /// The message has no quotation block.
    QuoteBlockMissing,
    /// The message has no quoted text block (looked up by chat and text id).
    QuotedTextBlockMissing,
    /// The login name field did not appear.
    LoginFieldMissing,
    /// The "continue" button did not appear.
    ContinueButtonMissing,
    /// The password field did not appear.
    PasswordFieldMissing,
    /// The "continue" button after the password did not appear.
    SubmitButtonMissing,
    /// The browser driver failed; `detail` is its own report.
    Driver { detail: String },
}

/// The message that reports `e`.
pub open spec fn browse_error_text(e: BrowseError) -> Seq<char> {
    match e {
        BrowseError::ChatNotFound { chat } => "Чат '"@ + chat@ + "' не найден"@,
        BrowseError::MessageNotFound { id } => "Сообщение с id="@ + decimal(id as nat) + " не найдено"@,
        BrowseError::MessageNotFoundInChat { text_id, chat } =>
            "Сообщение с data-id="@ + text_id@ + " не найдено в чате "@ + chat@,
        BrowseError::MessageNotFoundAfterPageUp { id, presses } =>
            "Сообщение с id="@ + decimal(id as nat) + " не найдено после "@ + decimal(presses as nat)
                + " нажатий PageUp"@,
        BrowseError::MessageNotFoundAfterScroll { id, steps } =>
            "Сообщение с id="@ + decimal(id as nat) + " не найдено после "@ + decimal(steps as nat)
                + " шагов"@,
        BrowseError::ScrollContainerMissing => "Не найден контейнер прокрутки чата"@,
        BrowseError::QuoteAuthorMissing => "Не найден автор цитаты"@,
        BrowseError::QuoteTextMissing => "Текст цитаты не найден"@,
        BrowseError::QuoteBlockMissing => "Блок цитаты не найден"@,
        BrowseError::QuotedTextBlockMissing =>
            "Не найден блок цитируемого текста (bx-im-message-quote__text)"@,
        BrowseError::LoginFieldMissing => "Поле логина не появилось"@,
        BrowseError::ContinueButtonMissing => "Кнопка 'Продолжить' не появилась"@,
        BrowseError::PasswordFieldMissing => "Поле пароля не появилось"@,
        BrowseError::SubmitButtonMissing => "Кнопка 'Продолжить' после пароля не появилась"@,
        BrowseError::Driver { detail } => detail@,
    }
}

impl BrowseError {
    /// The message that reports this failure.
    pub fn message(&self) -> (text: String)
        ensures
            text@ == browse_error_text(*self),
    {
        match self {
            BrowseError::ChatNotFound { chat } => {
                let mut t = String::from_str("Чат '");
                t.append(chat.as_str());
                t.append("' не найден");
                t
            },
            BrowseError::MessageNotFound { id } => {
                let mut t = String::from_str("Сообщение с id=");
                push_decimal(&mut t, *id);
                t.append(" не найдено");
                t
            },
            BrowseError::MessageNotFoundInChat { text_id, chat } => {
                let mut t = String::from_str("Сообщение с data-id=");
                t.append(text_id.as_str());
                t.append(" не найдено в чате ");
                t.append(chat.as_str());
                t
            },
            BrowseError::MessageNotFoundAfterPageUp { id, presses } => {
                let mut t = String::from_str("Сообщение с id=");
                push_decimal(&mut t, *id);
                t.append(" не найдено после ");
                push_decimal(&mut t, *presses);
                t.append(" нажатий PageUp");
                t
            },
            BrowseError::MessageNotFoundAfterScroll { id, steps } => {
                let mut t = String::from_str("Сообщение с id=");
                push_decimal(&mut t, *id);
                t.append(" не найдено после ");
                push_decimal(&mut t, *steps);
                t.append(" шагов");
                t
            },
            BrowseError::ScrollContainerMissing => String::from_str("Не найден контейнер прокрутки чата"),
            BrowseError::QuoteAuthorMissing => String::from_str("Не найден автор цитаты"),
            BrowseError::QuoteTextMissing => String::from_str("Текст цитаты не найден"),
            BrowseError::QuoteBlockMissing => String::from_str("Блок цитаты не найден"),
            BrowseError::QuotedTextBlockMissing => String::from_str(
                "Не найден блок цитируемого текста (bx-im-message-quote__text)",
            ),
            BrowseError::LoginFieldMissing => String::from_str("Поле логина не появилось"),
            BrowseError::ContinueButtonMissing => String::from_str("Кнопка 'Продолжить' не появилась"),
            BrowseError::PasswordFieldMissing => String::from_str("Поле пароля не появилось"),
            BrowseError::SubmitButtonMissing => String::from_str(
                "Кнопка 'Продолжить' после пароля не появилась",
            ),
            BrowseError::Driver { detail } => String::from_str(detail.as_str()),
        }
    }
}

/// The report of a missing chat names the whole chat, verbatim, between
/// `Чат '` and `' не найден`.
pub proof fn chat_not_found_names_chat(chat: String)
    ensures
        ({
            let text = browse_error_text(BrowseError::ChatNotFound { chat });
            let start = "Чат '"@.len() as int;
            let end = text.len() - "' не найден"@.len();
            &&& text.take(start) == "Чат '"@
            &&& text.skip(end) == "' не найден"@
            &&& text.subrange(start, end) == chat@
        }),
{
    framed_parts("Чат '"@, chat@, "' не найден"@);
}

/// The report of a missing message holds, between `Сообщение с id=` and
/// ` не найдено`, the digits of the message's id, without a leading zero
/// (but for id 0), that read back as the id.
pub proof fn message_not_found_names_id(id: u64)
    ensures
        ({
            let text = browse_error_text(BrowseError::MessageNotFound { id });
            let start = "Сообщение с id="@.len() as int;
            let end = text.len() - " не найдено"@.len();
            let digits = text.subrange(start, end);
            &&& text.take(start) == "Сообщение с id="@
            &&& text.skip(end) == " не найдено"@
            &&& digits.len() >= 1
            &&& all_digits(digits)
            &&& decimal_value(digits) == id
            &&& (digits[0] == '0' ==> id == 0)
        }),
{
    framed_parts("Сообщение с id="@, decimal(id as nat), " не найдено"@);
    decimal_round_trip(id as nat);
}

} // verus!
