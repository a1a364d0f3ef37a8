//! Which clicks leave the web view, and which URLs may be handed to the
//! operating system's browser.

use vstd::prelude::*;
use vstd::string::*;

verus! {

/// The `target` attribute value that marks a link as "open in a new context".
pub const EXTERNAL_TARGET: &'static str = "_blank";

/// Why a URL could not be opened in the system browser.
#[derive(Debug, Clone, PartialEq, Eq)]
pub enum BrowserOpenError {
    /// The URL does not use `http` or `https`; nothing was handed to the OS.
    UnsupportedScheme,
    /// The OS open facility reported a failure (no handler, launch error).
    OpenFailed(String),
}

/// Text of the message for an unsupported scheme.
pub const UNSUPPORTED_SCHEME_MESSAGE: &'static str = "only http and https links can be opened";

impl BrowserOpenError {
    /// The error as text for the UI and the log; an OS failure keeps the
    /// OS's own words.
    pub fn message(&self) -> (r: String)
        ensures
            match self {
                BrowserOpenError::UnsupportedScheme => r@ == UNSUPPORTED_SCHEME_MESSAGE@,
                BrowserOpenError::OpenFailed(m) => r@ == m@,
            },
    {
        match self {
            BrowserOpenError::UnsupportedScheme => String::from_str(UNSUPPORTED_SCHEME_MESSAGE),
            BrowserOpenError::OpenFailed(m) => m.clone(),
        }
    }
}

/// `c` is the lower-case ASCII letter `lower`, in either case.
pub open spec fn same_letter(c: char, lower: char) -> bool {
    c == lower || ('a' <= lower <= 'z' && c as u32 == (lower as u32) - 32)
}

/// `s` starts with `p`, letters compared without regard to ASCII case.
pub open spec fn has_prefix_ci(s: Seq<char>, p: Seq<char>) -> bool {
    p.len() <= s.len() && forall|i: int| 0 <= i < p.len() ==> same_letter(s[i], p[i])
}

pub open spec fn http_prefix() -> Seq<char> {
    seq!['h', 't', 't', 'p', ':', '/', '/']
}

pub open spec fn https_prefix() -> Seq<char> {
    seq!['h', 't', 't', 'p', 's', ':', '/', '/']
}

/// A URL that may be opened: `http://` or `https://` (scheme in any case),
/// followed by at least one character.
pub open spec fn is_allowed_url(s: Seq<char>) -> bool {
    (has_prefix_ci(s, http_prefix()) && s.len() > http_prefix().len())
        || (has_prefix_ci(s, https_prefix()) && s.len() > https_prefix().len())
}

fn char_matches(c: char, lower: char) -> (r: bool)
    ensures
        r == same_letter(c, lower),
{
    if c == lower {
        true
    } else if 'a' <= lower && lower <= 'z' {
        c as u32 == (lower as u32) - 32
    } else {
        false
    }
}

fn starts_with_ci(s: &str, p: &[char]) -> (r: bool)
    ensures
        r == has_prefix_ci(s@, p@),
{
    let n = s.unicode_len();
    if p.len() > n {
        return false;
    }
    let mut i: usize = 0;
    while i < p.len()
        invariant
            p@.len() <= s@.len(),
            n == s@.len(),
            i <= p@.len(),
            forall|j: int| 0 <= j < i ==> same_letter(s@[j], p@[j]),
        decreases p@.len() - i,
    {
        if !char_matches(s.get_char(i), p[i]) {
            return false;
        }
        i = i + 1;
    }
    true
}

/// Checks a URL before it is handed to the OS "open with default handler"
/// facility. Only `http` and `https` URLs with something after `//` pass.
pub fn check_browser_url(url: &str) -> (r: Result<(), BrowserOpenError>)
    ensures
        r is Ok <==> is_allowed_url(url@),
        r is Err ==> r == Err::<(), BrowserOpenError>(BrowserOpenError::UnsupportedScheme),
{
    let n = url.unicode_len();
    let http = ['h', 't', 't', 'p', ':', '/', '/'];
    let https = ['h', 't', 't', 'p', 's', ':', '/', '/'];
    assert(http@ == http_prefix());
    assert(https@ == https_prefix());
    if (starts_with_ci(url, &http) && n > 7) || (starts_with_ci(url, &https) && n > 8) {
        Ok(())
    } else {
        Err(BrowserOpenError::UnsupportedScheme)
    }
}

/// The anchor element that a click landed in, if any.
#[derive(Debug, Clone, PartialEq, Eq)]
pub struct Anchor {
    /// The `target` attribute, when the element has one.
    pub target: Option<String>,
    /// The link's resolved URL.
    pub href: String,
}

/// A click inside the web view, reduced to what the bridge looks at.
#[derive(Debug, Clone, PartialEq, Eq)]
pub struct ClickEvent {
    /// The nearest enclosing anchor of the clicked element.
    pub anchor: Option<Anchor>,
}

/// A URL to be opened outside the web view.
#[derive(Debug, Clone, PartialEq, Eq)]
pub struct LinkRequest {
    pub url: String,
}

/// The click goes to an anchor that follows the external-target convention.
pub open spec fn is_external_click(e: ClickEvent) -> bool {
    &&& e.anchor is Some
    &&& e.anchor->Some_0.target is Some
    &&& e.anchor->Some_0.target->Some_0@ == EXTERNAL_TARGET@
}

fn same_text(a: &str, b: &str) -> (r: bool)
    ensures
        r == (a@ == b@),
{
    let n = a.unicode_len();
    if n != b.unicode_len() {
        return false;
    }
    let mut i: usize = 0;
    while i < n
        invariant
            n == a@.len(),
            n == b@.len(),
            i <= n,
            forall|j: int| 0 <= j < i ==> a@[j] == b@[j],
        decreases n - i,
    {
        if a.get_char(i) != b.get_char(i) {
            return false;
        }
        i = i + 1;
    }
    assert(a@ =~= b@);
    true
}

/// Decides whether a click leaves the web view. `Some` means that in-page
/// navigation is suppressed and the request is sent to the privileged side;
/// `None` means the click is left to the page.
pub fn intercept_external_click(event: &ClickEvent) -> (r: Option<LinkRequest>)
    ensures
        r is Some <==> is_external_click(*event),
        r is Some ==> r->Some_0.url == event.anchor->Some_0.href,
{
    match &event.anchor {
        Some(a) => match &a.target {
            Some(t) => {
                if same_text(t.as_str(), EXTERNAL_TARGET) {
                    Some(LinkRequest { url: a.href.clone() })
                } else {
                    None
                }
            },
            None => None,
        },
        None => None,
    }
}

pub open spec fn file_prefix() -> Seq<char> {
    seq!['f', 'i', 'l', 'e', ':']
}

/// A `file:` URL is never allowed, so it never reaches the OS open facility.
pub proof fn law_file_urls_rejected(s: Seq<char>)
    requires
        has_prefix_ci(s, file_prefix()),
    ensures
        !is_allowed_url(s),
{
    assert(same_letter(s[0], 'f'));
    if has_prefix_ci(s, http_prefix()) {
        assert(same_letter(s[0], 'h'));
    }
    if has_prefix_ci(s, https_prefix()) {
        assert(same_letter(s[0], 'h'));
    }
}

} // verus!
