//! Which addresses may open inside the shell, and what becomes of the others.

use vstd::prelude::*;
use url::Url;
use crate::text::{chars_of, ends_with, has_suffix_after, is_text};

verus! {

/// The address that the main window loads.
pub const HOME_URL: &'static str = "https://chatgpt.com";

/// What the allow-list reads of an address: its scheme, without the colon,
/// and its host where it has one.
#[derive(Debug, Clone)]
pub struct NavigationTarget {
    pub scheme: String,
    pub host: Option<String>,
}

impl View for NavigationTarget {
    type V = (Seq<char>, Option<Seq<char>>);

    open spec fn view(&self) -> (Seq<char>, Option<Seq<char>>) {
        (
            self.scheme@,
            match self.host {
                Some(host) => Some(host@),
                None => None,
            },
        )
    }
}

/// What the shell does with an address that asks for a new window.
#[derive(Debug, Clone, Copy, PartialEq, Eq, Structural)]
pub enum NavigationAction {
    /// The address loads inside the shell.
    LoadInPlace,
    /// The shell refuses the address and hands it to the system's browser.
    OpenInBrowser,
    /// The shell refuses the address and does nothing else.
    Block,
}

/// `host` is `domain` or one of its subdomains.
pub open spec fn within_domain(host: Seq<char>, domain: Seq<char>) -> bool {
    host == domain || ends_with(host, seq!['.'] + domain)
}

/// `host` belongs to the service that the shell is a window on.
pub open spec fn first_party_host(host: Seq<char>) -> bool {
    ||| within_domain(host, "chatgpt.com"@)
    ||| within_domain(host, "chat.openai.com"@)
    ||| within_domain(host, "openai.com"@)
    ||| within_domain(host, "oaistatic.com"@)
    ||| within_domain(host, "oaiusercontent.com"@)
}

/// An address with this scheme and host may load inside the shell: a web
/// address of the service, a web address without a host, or an address with
/// one of the inert schemes.
pub open spec fn allowed_in_place(scheme: Seq<char>, host: Option<Seq<char>>) -> bool {
    if scheme == "https"@ || scheme == "http"@ {
        match host {
            Some(host) => first_party_host(host),
            None => true,
        }
    } else {
        scheme == "about"@ || scheme == "data"@ || scheme == "blob"@ || scheme == "wss"@ || scheme
            == "ws"@
    }
}

/// The action for an address that asks for a new window.  `blob` and `data`
/// addresses are refused outright; of the rest, what the allow-list does not
/// admit goes to the system's browser.
pub open spec fn new_window_action(
    scheme: Seq<char>,
    host: Option<Seq<char>>,
) -> NavigationAction {
    if scheme == "blob"@ || scheme == "data"@ {
        NavigationAction::Block
    } else if allowed_in_place(scheme, host) {
        NavigationAction::LoadInPlace
    } else {
        NavigationAction::OpenInBrowser
    }
}

/// Scheme and host of the URL that `url::Url::parse` reads `input` as, `None`
/// where it reads it as none.
pub uninterp spec fn parsed_target(input: Seq<char>) -> Option<(Seq<char>, Option<Seq<char>>)>;

/// Reads `input` with `url::Url::parse` and copies out what `Url::scheme` and
/// `Url::host_str` give of the result.  Taken on trust: that the outcome
/// depends on the text alone, so that `parsed_target` can name it.  Nothing is
/// claimed of which texts are URLs, nor of what their parts are.
#[verifier::external_body]
fn parse_target(input: &str) -> (target: Option<NavigationTarget>)
    ensures
        match target {
            Some(target) => parsed_target(input@) == Some(target@),
            None => parsed_target(input@) is None,
        },
{
    match Url::parse(input) {
        Ok(url) => Some(
            NavigationTarget {
                scheme: url.scheme().to_string(),
                host: url.host_str().map(str::to_string),
            },
        ),
        Err(_) => None,
    }
}

fn is_within_domain(host: &Vec<char>, domain: &str) -> (r: bool)
    ensures
        r == within_domain(host@, domain@),
{
    is_text(host, domain) || has_suffix_after(host, '.', domain)
}

fn is_first_party_host(host: &str) -> (r: bool)
    ensures
        r == first_party_host(host@),
{
    let host = chars_of(host);
    is_within_domain(&host, "chatgpt.com") || is_within_domain(&host, "chat.openai.com")
        || is_within_domain(&host, "openai.com") || is_within_domain(&host, "oaistatic.com")
        || is_within_domain(&host, "oaiusercontent.com")
}

/// Whether `target` may load inside the shell.
pub fn is_allowed_url(target: &NavigationTarget) -> (allowed: bool)
    ensures
        allowed == allowed_in_place(target@.0, target@.1),
{
    let scheme = chars_of(target.scheme.as_str());
    if is_text(&scheme, "https") || is_text(&scheme, "http") {
        match &target.host {
            Some(host) => is_first_party_host(host.as_str()),
            None => true,
        }
    } else {
        is_text(&scheme, "about") || is_text(&scheme, "data") || is_text(&scheme, "blob")
            || is_text(&scheme, "wss") || is_text(&scheme, "ws")
    }
}

/// The action for `target` when it asks for a new window.
pub fn on_new_window(target: &NavigationTarget) -> (action: NavigationAction)
    ensures
        action == new_window_action(target@.0, target@.1),
{
    let scheme = chars_of(target.scheme.as_str());
    if is_text(&scheme, "blob") || is_text(&scheme, "data") {
        NavigationAction::Block
    } else if is_allowed_url(target) {
        NavigationAction::LoadInPlace
    } else {
        NavigationAction::OpenInBrowser
    }
}

/// The action for the address `url` when it asks for a new window, `None`
/// where `url` is no URL.
pub fn on_new_window_url(url: &str) -> (action: Option<NavigationAction>)
    ensures
        action == match parsed_target(url@) {
            Some((scheme, host)) => Some(new_window_action(scheme, host)),
            None => None,
        },
{
    match parse_target(url) {
        Some(target) => Some(on_new_window(&target)),
        None => None,
    }
}

} // verus!
