//! The deep-link router: from a payload to one navigation intent.

use vstd::prelude::*;
use vstd::string::StringExecFns;
use crate::effects::{
    opt_intent_view, raise_and_emit, raise_window, Reaction, ReactionModel, WindowPlan,
};
use crate::intent::{
    auth_callback, navigate_to, new_chat, IntentEvent, IntentModel, NavigationIntent,
};
use crate::link::{
    form_pairs, opt_view, pairs_model, query_text, url_parse, PairModel, ParsedUrl, UrlModel,
};
use crate::payload::{resolve_payload, resolve_spec, RouteError};

verus! {

/// The value of the first pair named `key`, if any pair has that name.
pub open spec fn first_value_of(pairs: Seq<PairModel>, key: Seq<char>) -> Option<Seq<char>>
    decreases pairs.len(),
{
    if pairs.len() == 0 {
        None
    } else if pairs[0].0 == key {
        Some(pairs[0].1)
    } else {
        first_value_of(pairs.drop_first(), key)
    }
}

/// The intent for the path `/chat`, given the decoded query pairs: open the
/// conversation named by the first `id`, or start a new one.
pub open spec fn chat_intent_of(pairs: Seq<PairModel>) -> IntentModel {
    match first_value_of(pairs, "id"@) {
        Some(id) => navigate_to("/chat?id="@ + id),
        None => new_chat(),
    }
}

/// The intent a URL is routed to, by exact match on its path.
pub open spec fn intent_of(url: UrlModel) -> IntentModel {
    if url.path == "/chat"@ {
        chat_intent_of(form_pairs(query_text(url)))
    } else if url.path == "/auth/callback"@ {
        auth_callback(query_text(url))
    } else {
        navigate_to(url.path)
    }
}

/// The intent a payload is routed to, if it stands for a URL.
pub open spec fn route_spec(payload: Seq<char>) -> Option<IntentModel> {
    match resolve_spec(payload) {
        Some(url) => Some(intent_of(url)),
        None => None,
    }
}

/// The outcome of handling a URL: with a main window, raise it and deliver
/// the intent; without one, drop the link.
pub open spec fn handle_spec(url: UrlModel, main_window: bool) -> Result<ReactionModel, RouteError> {
    if main_window {
        Ok(raise_and_emit(intent_of(url)))
    } else {
        Err(RouteError::NoActiveWindow)
    }
}

/// The outcome of one deep-link event.
pub open spec fn dispatch_spec(payload: Seq<char>, main_window: bool) -> Result<
    ReactionModel,
    RouteError,
> {
    match resolve_spec(payload) {
        Some(url) => handle_spec(url, main_window),
        None => Err(RouteError::ParseFailure),
    }
}

/// The view of an outcome.
pub open spec fn outcome_view(r: Result<Reaction, RouteError>) -> Result<ReactionModel, RouteError> {
    match r {
        Ok(reaction) => Ok(reaction@),
        Err(e) => Err(e),
    }
}

/// Looks up the value of the first pair named `key`.
pub fn first_value(pairs: &Vec<(String, String)>, key: &str) -> (r: Option<String>)
    ensures
        opt_view(r) == first_value_of(pairs_model(pairs@), key@),
{
    let wanted = key.to_owned();
    let ghost model = pairs_model(pairs@);
    let mut i: usize = 0;
    assert(model.subrange(0, model.len() as int) =~= model);
    while i < pairs.len()
        invariant
            i <= pairs.len(),
            wanted@ == key@,
            model == pairs_model(pairs@),
            first_value_of(model, key@) == first_value_of(
                model.subrange(i as int, model.len() as int),
                key@,
            ),
        decreases pairs.len() - i,
    {
        let ghost rest = model.subrange(i as int, model.len() as int);
        assert(rest[0] == model[i as int]);
        assert(model[i as int] == (pairs@[i as int].0@, pairs@[i as int].1@));
        if pairs[i].0 == wanted {
            return Some(pairs[i].1.clone());
        }
        assert(rest.drop_first() =~= model.subrange(i + 1, model.len() as int));
        i = i + 1;
    }
    assert(model.subrange(i as int, model.len() as int).len() == 0);
    None
}

/// The intent for the path `/chat`, from the decoded pairs of the query.
///
/// The value of `id` is used as decoded, with no further escaping.
pub fn chat_intent(pairs: &Vec<(String, String)>) -> (intent: NavigationIntent)
    ensures
        intent@ == chat_intent_of(pairs_model(pairs@)),
{
    match first_value(pairs, "id") {
        Some(id) => {
            let mut target = "/chat?id=".to_owned();
            target.append(id.as_str());
            NavigationIntent { event: IntentEvent::Navigate, arg: target }
        },
        None => NavigationIntent { event: IntentEvent::NewChat, arg: String::new() },
    }
}

/// Routes a parsed URL to its intent.
pub fn intent_for(url: &ParsedUrl) -> (intent: NavigationIntent)
    ensures
        intent@ == intent_of(url@),
{
    if url.path == "/chat".to_owned() {
        let pairs = url.query_pairs();
        chat_intent(&pairs)
    } else if url.path == "/auth/callback".to_owned() {
        NavigationIntent {
            event: IntentEvent::AuthCallback,
            arg: url.query_or_empty().to_owned(),
        }
    } else {
        NavigationIntent { event: IntentEvent::Navigate, arg: url.path.clone() }
    }
}

/// Routes a deep-link payload.
///
/// Returns an intent exactly when the payload stands for a URL: the payload
/// itself, or the first element of the JSON array it encodes.
pub fn route(payload: &str) -> (r: Option<NavigationIntent>)
    ensures
        opt_intent_view(r) == route_spec(payload@),
{
    match resolve_payload(payload) {
        Ok(url) => Some(intent_for(&url)),
        Err(_) => None,
    }
}

/// Decides what to do with a deep link whose URL is known.
///
/// With a main window the window is shown and focused and the intent is
/// delivered, whatever the path. Without one the link is dropped.
pub fn handle_deep_link(url: &ParsedUrl, main_window: bool) -> (r: Result<Reaction, RouteError>)
    ensures
        outcome_view(r) == handle_spec(url@, main_window),
{
    if main_window {
        Ok(Reaction { window: WindowPlan::raise(), emit: Some(intent_for(url)), exit: None })
    } else {
        Err(RouteError::NoActiveWindow)
    }
}

/// Decides what to do with one deep-link event.
///
/// `main_window` says whether the main window exists at this moment.
pub fn dispatch(payload: &str, main_window: bool) -> (r: Result<Reaction, RouteError>)
    ensures
        outcome_view(r) == dispatch_spec(payload@, main_window),
{
    match resolve_payload(payload) {
        Ok(url) => handle_deep_link(&url, main_window),
        Err(e) => Err(e),
    }
}

/// A payload that is itself a well-formed absolute URL is always routed,
/// and to exactly one of three kinds of intent, chosen by its path alone:
/// the chat intent for `/chat`, the auth callback for `/auth/callback`, and
/// plain navigation to the path for every other path.
pub proof fn lemma_url_always_routes(payload: Seq<char>)
    requires
        url_parse(payload).is_some(),
    ensures
        resolve_spec(payload) == url_parse(payload),
        route_spec(payload) == Some(intent_of(url_parse(payload).unwrap())),
        "/chat"@ != "/auth/callback"@,
        ({
            let url = url_parse(payload).unwrap();
            let intent = route_spec(payload).unwrap();
            &&& url.path == "/chat"@ ==> intent == chat_intent_of(form_pairs(query_text(url)))
            &&& url.path == "/auth/callback"@ ==> intent == auth_callback(query_text(url))
            &&& url.path != "/chat"@ && url.path != "/auth/callback"@ ==> intent == navigate_to(
                url.path,
            )
        }),
{
    reveal_strlit("/chat");
    reveal_strlit("/auth/callback");
    assert("/chat"@.len() != "/auth/callback"@.len());
}

/// The name of the pair at position `i`.
pub open spec fn key_at(pairs: Seq<PairModel>, i: int) -> Seq<char> {
    pairs[i].0
}

/// Whether the pair at position `i` is the earliest one named `key`.
pub open spec fn is_first_match(pairs: Seq<PairModel>, key: Seq<char>, i: int) -> bool {
    &&& 0 <= i < pairs.len()
    &&& key_at(pairs, i) == key
    &&& forall|j: int| 0 <= j < i ==> #[trigger] key_at(pairs, j) != key
}

/// A lookup yields the value of the earliest pair that carries the key.
pub proof fn lemma_first_value_is_earliest(pairs: Seq<PairModel>, key: Seq<char>, i: int)
    requires
        is_first_match(pairs, key, i),
    ensures
        first_value_of(pairs, key) == Some(pairs[i].1),
    decreases pairs.len(),
{
    if i == 0 {
    } else {
        assert(key_at(pairs, 0) != key);
        let rest = pairs.drop_first();
        assert forall|j: int| 0 <= j < i - 1 implies #[trigger] key_at(rest, j) != key by {
            assert(key_at(pairs, j + 1) != key);
        }
        lemma_first_value_is_earliest(rest, key, i - 1);
    }
}

/// A lookup yields nothing exactly when no pair carries the key.
pub proof fn lemma_first_value_absent(pairs: Seq<PairModel>, key: Seq<char>)
    ensures
        first_value_of(pairs, key).is_none() <==> forall|i: int|
            0 <= i < pairs.len() ==> #[trigger] key_at(pairs, i) != key,
    decreases pairs.len(),
{
    if pairs.len() == 0 {
    } else if pairs[0].0 == key {
        assert(key_at(pairs, 0) == key);
    } else {
        let rest = pairs.drop_first();
        lemma_first_value_absent(rest, key);
        if first_value_of(rest, key).is_none() {
            assert forall|i: int| 0 <= i < pairs.len() implies #[trigger] key_at(pairs, i)
                != key by {
                if i > 0 {
                    assert(key_at(rest, i - 1) != key);
                }
            }
        } else {
            let i = choose|i: int| 0 <= i < rest.len() && #[trigger] key_at(rest, i) == key;
            assert(key_at(pairs, i + 1) == key);
        }
    }
}

/// A routed deep link raises one of three events: navigation, a new chat or
/// an auth callback. A new chat carries no argument.
pub proof fn lemma_routed_events(payload: Seq<char>)
    ensures
        route_spec(payload) matches Some(intent) ==> {
            &&& intent.event == IntentEvent::Navigate || intent.event == IntentEvent::NewChat
                || intent.event == IntentEvent::AuthCallback
            &&& intent.event == IntentEvent::NewChat ==> intent.arg.len() == 0
        },
{
}

/// The chat intent is navigation to `/chat?id=` followed by the value of
/// the earliest `id` of the query, and a new chat where the query has no
/// `id` at all.
pub proof fn lemma_chat_intent_shape(pairs: Seq<PairModel>)
    ensures
        forall|i: int| #[trigger]
            is_first_match(pairs, "id"@, i) ==> chat_intent_of(pairs) == navigate_to(
                "/chat?id="@ + pairs[i].1,
            ),
        (forall|i: int| 0 <= i < pairs.len() ==> #[trigger] key_at(pairs, i) != "id"@)
            ==> chat_intent_of(pairs) == new_chat(),
{
    assert forall|i: int| #[trigger] is_first_match(pairs, "id"@, i) implies chat_intent_of(pairs)
        == navigate_to("/chat?id="@ + pairs[i].1) by {
        lemma_first_value_is_earliest(pairs, "id"@, i);
    }
    lemma_first_value_absent(pairs, "id"@);
}

/// The three outcomes of a deep-link event, and when each comes: a parse
/// failure exactly when the payload stands for no URL, a missing window
/// exactly when it stands for one and there is no main window, and else a
/// delivery that shows and focuses the window and emits the routed intent.
pub proof fn lemma_dispatch_outcomes(payload: Seq<char>, main_window: bool)
    ensures
        dispatch_spec(payload, main_window) == Err::<ReactionModel, RouteError>(
            RouteError::ParseFailure,
        ) <==> resolve_spec(payload).is_none(),
        dispatch_spec(payload, main_window) == Err::<ReactionModel, RouteError>(
            RouteError::NoActiveWindow,
        ) <==> resolve_spec(payload).is_some() && !main_window,
        dispatch_spec(payload, main_window).is_ok() <==> resolve_spec(payload).is_some()
            && main_window,
        dispatch_spec(payload, main_window) matches Ok(reaction) ==> reaction.window
            == raise_window() && reaction.emit == route_spec(payload) && reaction.exit.is_none(),
{
}

/// Routing keeps no state: two deliveries of the same payload, under the
/// same presence of the main window, end in the same outcome, with the
/// same intent and the same calls on the window.
pub proof fn lemma_dispatch_repeatable(
    payload: Seq<char>,
    main_window: bool,
    first: Result<Reaction, RouteError>,
    second: Result<Reaction, RouteError>,
)
    requires
        outcome_view(first) == dispatch_spec(payload, main_window),
        outcome_view(second) == dispatch_spec(payload, main_window),
    ensures
        outcome_view(first) == outcome_view(second),
        first matches Ok(a) ==> second matches Ok(b) && a@.emit == b@.emit && a.window == b.window
            && a.window == raise_window(),
{
}

/// Routing the same payload twice yields the same intent.
pub proof fn lemma_route_repeatable(
    payload: Seq<char>,
    first: Option<NavigationIntent>,
    second: Option<NavigationIntent>,
)
    requires
        opt_intent_view(first) == route_spec(payload),
        opt_intent_view(second) == route_spec(payload),
    ensures
        opt_intent_view(first) == opt_intent_view(second),
{
}

} // verus!
