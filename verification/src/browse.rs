//! Decisions taken while driving a chat page: scrolling it to the bottom,
//! searching a message upwards, giving the message list focus, choosing the
//! scroll container, and signing in.
use vstd::prelude::*;

use crate::errors::BrowseError;
use crate::selectors::{
    LOGIN_CONTINUE_SELECTOR, LOGIN_FIELD_SELECTOR, PASSWORD_CONTINUE_SELECTOR,
    PASSWORD_FIELD_SELECTOR,
};

verus! {

/// Most clicks on the "scroll down" button in one scroll to the bottom.
pub const SCROLL_CLICK_LIMIT: u32 = 20;

/// What to do after asking for the "scroll down" button.
#[derive(PartialEq, Eq, Structural, Clone, Copy, Debug)]
pub enum ScrollDecision {
    /// The button is gone: the chat is at its bottom.
    Stop,
    /// Click the button, and ask again if `more`.
    Click { more: bool },
}

/// The decision at the `iteration`-th request for the button (counted from 1).
pub open spec fn scroll_decision_spec(iteration: nat, button_found: bool) -> ScrollDecision {
    if !button_found {
        ScrollDecision::Stop
    } else {
        ScrollDecision::Click { more: iteration < SCROLL_CLICK_LIMIT }
    }
}

/// The decision at the `iteration`-th request for the "scroll down" button
/// (counted from 1): stop where it is gone, else click it, and go on until
/// the click limit is reached.
pub fn scroll_decision(iteration: u32, button_found: bool) -> (d: ScrollDecision)
    ensures
        d == scroll_decision_spec(iteration as nat, button_found),
{
    if !button_found {
        ScrollDecision::Stop
    } else {
        ScrollDecision::Click { more: iteration < SCROLL_CLICK_LIMIT }
    }
}

/// Number of clicks of a scroll to the bottom from request `iteration` on,
/// where the `i`-th request (counted from 1) finds the button iff `found(i)`.
pub open spec fn scroll_clicks_from(found: spec_fn(nat) -> bool, iteration: nat) -> nat
    decreases SCROLL_CLICK_LIMIT - iteration,
{
    if iteration == 0 || iteration > SCROLL_CLICK_LIMIT {
        0
    } else {
        match scroll_decision_spec(iteration, found(iteration)) {
            ScrollDecision::Stop => 0,
            ScrollDecision::Click { more } => 1 + if more {
                scroll_clicks_from(found, iteration + 1)
            } else {
                0
            },
        }
    }
}

/// Number of clicks of a whole scroll to the bottom.
pub open spec fn scroll_clicks(found: spec_fn(nat) -> bool) -> nat {
    scroll_clicks_from(found, 1)
}

proof fn scroll_clicks_from_facts(found: spec_fn(nat) -> bool, iteration: nat)
    requires
        1 <= iteration <= SCROLL_CLICK_LIMIT,
    ensures
        scroll_clicks_from(found, iteration) <= SCROLL_CLICK_LIMIT + 1 - iteration,
        forall|i: nat|
            iteration <= i < iteration + scroll_clicks_from(found, iteration) ==> #[trigger] found(i),
        iteration + scroll_clicks_from(found, iteration) <= SCROLL_CLICK_LIMIT ==> !found(
            iteration + scroll_clicks_from(found, iteration),
        ),
    decreases SCROLL_CLICK_LIMIT - iteration,
{
    if found(iteration) && iteration < SCROLL_CLICK_LIMIT {
        scroll_clicks_from_facts(found, iteration + 1);
    }
}

/// A scroll to the bottom clicks the button at most `SCROLL_CLICK_LIMIT`
/// times, clicks only where the button was found, and, short of the limit,
/// stops exactly at the first request that no longer finds it.
pub proof fn scroll_to_bottom_is_bounded(found: spec_fn(nat) -> bool)
    ensures
        scroll_clicks(found) <= SCROLL_CLICK_LIMIT,
        forall|i: nat| 1 <= i <= scroll_clicks(found) ==> #[trigger] found(i),
        scroll_clicks(found) < SCROLL_CLICK_LIMIT ==> !found(scroll_clicks(found) + 1),
{
    scroll_clicks_from_facts(found, 1);
}

/// How the message list is moved upwards while a message is searched.
#[derive(PartialEq, Eq, Structural, Clone, Copy, Debug)]
pub enum SearchMethod {
    /// PageUp key presses sent to the focused element.
    PageUp,
    /// The scroll container's `scrollTop` is lowered by 400 pixels.
    ScrollUp,
}

/// Number of PageUp presses before a search gives up.
pub const PAGE_UP_LIMIT: u64 = 1000;

/// Number of scroll steps before a search gives up.
pub const SCROLL_UP_LIMIT: u64 = 1500;

/// Number of steps after which a search with `method` gives up.
pub open spec fn search_limit_spec(method: SearchMethod) -> u64 {
    match method {
        SearchMethod::PageUp => PAGE_UP_LIMIT,
        SearchMethod::ScrollUp => SCROLL_UP_LIMIT,
    }
}

/// Number of steps after which a search with `method` gives up.
pub fn search_limit(method: SearchMethod) -> (limit: u64)
    ensures
        limit == search_limit_spec(method),
{
    match method {
        SearchMethod::PageUp => PAGE_UP_LIMIT,
        SearchMethod::ScrollUp => SCROLL_UP_LIMIT,
    }
}

/// What to do at one step of a message search.
#[derive(PartialEq, Eq, Structural, Clone, Copy, Debug)]
pub enum SearchDecision {
    /// The message is on the page.
    Found,
    /// Move the list up once; `report` asks for a progress line.
    Scroll { report: bool },
    /// The limit is reached: the message was not found.
    GiveUp,
}

/// The decision at step `step` (counted from 0) of a search with `method`.
pub open spec fn search_decision_spec(method: SearchMethod, step: nat, found: bool) -> SearchDecision {
    if step >= search_limit_spec(method) {
        SearchDecision::GiveUp
    } else if found {
        SearchDecision::Found
    } else {
        SearchDecision::Scroll {
            report: match method {
                SearchMethod::PageUp => true,
                SearchMethod::ScrollUp => step % 100 == 0,
            },
        }
    }
}

/// The decision at step `step` (counted from 0) of a search, where `found`
/// tells whether the message is on the page: stop when it is, move the list
/// up when it is not, give up once the method's limit of steps is spent.
/// PageUp searches report every step, scroll searches every hundredth.
pub fn search_decision(method: SearchMethod, step: u64, found: bool) -> (d: SearchDecision)
    ensures
        d == search_decision_spec(method, step as nat, found),
{
    if step >= search_limit(method) {
        SearchDecision::GiveUp
    } else if found {
        SearchDecision::Found
    } else {
        let report = match method {
            SearchMethod::PageUp => true,
            SearchMethod::ScrollUp => step % 100 == 0,
        };
        SearchDecision::Scroll { report }
    }
}

/// The step at which a search from `step` on stops: `Some(k)` where the
/// message is found at step `k`, `None` where it gives up; the message is on
/// the page at step `i` iff `found(i)`.
pub open spec fn search_outcome_from(method: SearchMethod, found: spec_fn(nat) -> bool, step: nat) -> Option<nat>
    decreases search_limit_spec(method) - step,
{
    match search_decision_spec(method, step, found(step)) {
        SearchDecision::Found => Some(step),
        SearchDecision::GiveUp => None,
        SearchDecision::Scroll { .. } => search_outcome_from(method, found, step + 1),
    }
}

/// The outcome of a whole search.
pub open spec fn search_outcome(method: SearchMethod, found: spec_fn(nat) -> bool) -> Option<nat> {
    search_outcome_from(method, found, 0)
}

proof fn search_outcome_from_facts(method: SearchMethod, found: spec_fn(nat) -> bool, step: nat)
    ensures
        match search_outcome_from(method, found, step) {
            Some(k) => step <= k < search_limit_spec(method) && found(k) && forall|j: nat|
                step <= j < k ==> !#[trigger] found(j),
            None => forall|j: nat| step <= j < search_limit_spec(method) ==> !#[trigger] found(j),
        },
    decreases search_limit_spec(method) - step,
{
    if step < search_limit_spec(method) && !found(step) {
        search_outcome_from_facts(method, found, step + 1);
    }
}

/// A search finds the message at the first step at which it is on the page,
/// within the method's limit, and gives up only where it is on the page at
/// none of the steps before the limit.
pub proof fn search_finds_first_or_gives_up(method: SearchMethod, found: spec_fn(nat) -> bool)
    ensures
        match search_outcome(method, found) {
            Some(k) => k < search_limit_spec(method) && found(k) && forall|j: nat|
                j < k ==> !#[trigger] found(j),
            None => forall|j: nat| j < search_limit_spec(method) ==> !#[trigger] found(j),
        },
{
    search_outcome_from_facts(method, found, 0);
}

/// The failure reported when a search for message `id` gives up.
pub open spec fn search_failure_spec(method: SearchMethod, id: u64) -> BrowseError {
    match method {
        SearchMethod::PageUp => BrowseError::MessageNotFoundAfterPageUp { id, presses: PAGE_UP_LIMIT },
        SearchMethod::ScrollUp => BrowseError::MessageNotFoundAfterScroll { id, steps: SCROLL_UP_LIMIT },
    }
}

/// The failure reported when a search for message `id` gives up: it names
/// the id and the number of steps spent.
pub fn search_failure(method: SearchMethod, id: u64) -> (e: BrowseError)
    ensures
        e == search_failure_spec(method, id),
{
    match method {
        SearchMethod::PageUp => BrowseError::MessageNotFoundAfterPageUp { id, presses: PAGE_UP_LIMIT },
        SearchMethod::ScrollUp => BrowseError::MessageNotFoundAfterScroll { id, steps: SCROLL_UP_LIMIT },
    }
}

/// What is clicked to give the message list the keyboard focus.
#[derive(PartialEq, Eq, Structural, Clone, Copy, Debug)]
pub enum FocusTarget {
    /// The chat's own title element, scrolled into view and clicked by script.
    ChatTitle,
    /// Any message of the chat.
    AnyMessage,
    /// The page body, clicked by script.
    Body,
}

/// What to click for focus: the chat title where an author group is on the
/// page, else a message where there is one, else the page body.
pub fn focus_target(author_group_found: bool, message_found: bool) -> (t: FocusTarget)
    ensures
        t == (if author_group_found {
            FocusTarget::ChatTitle
        } else if message_found {
            FocusTarget::AnyMessage
        } else {
            FocusTarget::Body
        }),
{
    if author_group_found {
        FocusTarget::ChatTitle
    } else if message_found {
        FocusTarget::AnyMessage
    } else {
        FocusTarget::Body
    }
}

/// The element whose `scrollTop` is lowered while searching.
#[derive(PartialEq, Eq, Structural, Clone, Copy, Debug)]
pub enum ScrollTarget {
    /// The chat's scroll container.
    Container,
    /// The chat block, where there is no scroll container.
    ChatBlock,
}

/// The element to scroll: the scroll container where there is one, else the
/// chat block; without either the search cannot start.
pub fn scroll_target(container_found: bool, block_found: bool) -> (t: Result<ScrollTarget, BrowseError>)
    ensures
        container_found ==> t == Ok::<ScrollTarget, BrowseError>(ScrollTarget::Container),
        !container_found && block_found ==> t == Ok::<ScrollTarget, BrowseError>(ScrollTarget::ChatBlock),
        !container_found && !block_found ==> t == Err::<ScrollTarget, BrowseError>(
            BrowseError::ScrollContainerMissing,
        ),
{
    if container_found {
        Ok(ScrollTarget::Container)
    } else if block_found {
        Ok(ScrollTarget::ChatBlock)
    } else {
        Err(BrowseError::ScrollContainerMissing)
    }
}

/// What is done with an element of the sign-in form once it is clickable.
pub enum LoginAction {
    /// Type this text into it.
    Type(String),
    /// Click it.
    Click,
}

/// One step of signing in: wait up to `wait_secs` seconds, polling every
/// `poll_millis` milliseconds, for a clickable element matching `selector`,
/// then act on it; report `missing` where it does not appear.
pub struct LoginStep {
    pub selector: &'static str,
    pub wait_secs: u64,
    pub poll_millis: u64,
    pub action: LoginAction,
    pub missing: BrowseError,
}

/// Interval between two polls for an element of the sign-in form.
pub const LOGIN_POLL_MILLIS: u64 = 500;

/// Whether `step` waits `wait_secs` seconds for `selector`, then types
/// `typed` (or clicks where it is `None`), and reports `missing`.
pub open spec fn login_step_is(
    step: LoginStep,
    selector: Seq<char>,
    wait_secs: u64,
    typed: Option<Seq<char>>,
    missing: BrowseError,
) -> bool {
    &&& step.selector@ == selector
    &&& step.wait_secs == wait_secs
    &&& step.poll_millis == LOGIN_POLL_MILLIS
    &&& match (step.action, typed) {
        (LoginAction::Type(t), Some(u)) => t@ == u,
        (LoginAction::Click, None) => true,
        _ => false,
    }
    &&& step.missing == missing
}

fn login_step(
    selector: &'static str,
    wait_secs: u64,
    action: LoginAction,
    missing: BrowseError,
) -> (step: LoginStep)
    ensures
        step.selector == selector,
        step.wait_secs == wait_secs,
        step.poll_millis == LOGIN_POLL_MILLIS,
        step.action == action,
        step.missing == missing,
{
    LoginStep { selector, wait_secs, poll_millis: LOGIN_POLL_MILLIS, action, missing }
}

/// The steps of signing in, in order: type the login name, click "continue",
/// type the password (waiting longer for its field), click "continue".
pub fn login_plan(username: &str, password: &str) -> (plan: Vec<LoginStep>)
    ensures
        plan.len() == 4,
        login_step_is(plan[0], LOGIN_FIELD_SELECTOR@, 10, Some(username@), BrowseError::LoginFieldMissing),
        login_step_is(plan[1], LOGIN_CONTINUE_SELECTOR@, 10, None, BrowseError::ContinueButtonMissing),
        login_step_is(plan[2], PASSWORD_FIELD_SELECTOR@, 30, Some(password@), BrowseError::PasswordFieldMissing),
        login_step_is(plan[3], PASSWORD_CONTINUE_SELECTOR@, 10, None, BrowseError::SubmitButtonMissing),
{
    let mut plan: Vec<LoginStep> = Vec::new();
    plan.push(login_step(LOGIN_FIELD_SELECTOR, 10, LoginAction::Type(String::from_str(username)), BrowseError::LoginFieldMissing));
    plan.push(login_step(LOGIN_CONTINUE_SELECTOR, 10, LoginAction::Click, BrowseError::ContinueButtonMissing));
    plan.push(login_step(PASSWORD_FIELD_SELECTOR, 30, LoginAction::Type(String::from_str(password)), BrowseError::PasswordFieldMissing));
    plan.push(login_step(PASSWORD_CONTINUE_SELECTOR, 10, LoginAction::Click, BrowseError::SubmitButtonMissing));
    plan
}

} // verus!
