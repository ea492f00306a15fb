//! The address bar and browsing history of the web preview panel.

use vstd::prelude::*;
use vstd::string::StringExecFns;

use crate::text::{contains, seq_contains, str_eq, string_views, trim, trim_spec};

verus! {

/// What the user can ask of the panel.
#[derive(Clone, Debug)]
pub enum WebPreviewPanelAction {
    /// Go to the address typed in the address bar.
    Navigate,
    /// Go back one page.
    Back,
    /// Go forward one page.
    Forward,
    /// Open the current page in the system browser.
    OpenInBrowser,
}

/// The panel's history of visited addresses and the position of the current one.
pub struct WebPreviewPanelView {
    history: Vec<String>,
    history_pos: usize,
}

/// What the caller does after the panel has handled a request.
#[derive(Debug, PartialEq)]
pub enum PanelEffect {
    /// Nothing changed.
    Nothing,
    /// The current page changed to this address: show it in the address bar, open it and
    /// redraw the panel.
    Show(String),
    /// Open this address in the system browser.
    OpenExternal(String),
}

/// An effect, with its address as a character sequence.
pub enum EffectView {
    Nothing,
    Show(Seq<char>),
    OpenExternal(Seq<char>),
}

impl View for PanelEffect {
    type V = EffectView;

    open spec fn view(&self) -> EffectView {
        match self {
            PanelEffect::Nothing => EffectView::Nothing,
            PanelEffect::Show(u) => EffectView::Show(u@),
            PanelEffect::OpenExternal(u) => EffectView::OpenExternal(u@),
        }
    }
}

/// The history of the panel and the position of the current page.
pub struct PanelState {
    pub history: Seq<Seq<char>>,
    pub pos: int,
}

// ---------------------------------------------------------------------------
// Model
// ---------------------------------------------------------------------------

/// The address of the blank page that a panel starts on.
pub open spec fn default_url() -> Seq<char> {
    "https://"@
}

/// The position is that of a page in the history.
pub open spec fn panel_wf(p: PanelState) -> bool {
    0 <= p.pos < p.history.len()
}

/// The address of the current page.
pub open spec fn current_url_spec(p: PanelState) -> Seq<char> {
    if 0 <= p.pos < p.history.len() {
        p.history[p.pos]
    } else {
        default_url()
    }
}

/// An address as it is visited: one without a scheme is given `https://`.
pub open spec fn normalize_url(url: Seq<char>) -> Seq<char> {
    if seq_contains(url, "://"@) {
        url
    } else {
        "https://"@ + url
    }
}

/// The address is one that navigation ignores: empty, or the blank page's.
pub open spec fn ignored_url(url: Seq<char>) -> bool {
    url.len() == 0 || url == default_url()
}

/// What navigating to `url` asks of the caller: nothing for an ignored address, otherwise
/// to show the normalized address.
pub open spec fn navigate_effect(url: Seq<char>) -> EffectView {
    if ignored_url(url) {
        EffectView::Nothing
    } else {
        EffectView::Show(normalize_url(url))
    }
}

/// The state after navigating to `url`: the pages ahead of the current one are dropped and
/// the normalized address becomes the current page.
pub open spec fn after_navigate(p: PanelState, url: Seq<char>) -> PanelState {
    if ignored_url(url) {
        p
    } else {
        PanelState { history: p.history.take(p.pos + 1).push(normalize_url(url)), pos: p.pos + 1 }
    }
}

/// The state after going back one page, where there is one.
pub open spec fn after_back(p: PanelState) -> PanelState {
    if p.pos == 0 {
        p
    } else {
        PanelState { pos: p.pos - 1, ..p }
    }
}

/// The state after going forward one page, where there is one.
pub open spec fn after_forward(p: PanelState) -> PanelState {
    if p.pos + 1 >= p.history.len() {
        p
    } else {
        PanelState { pos: p.pos + 1, ..p }
    }
}

/// The effect of a move from `p` to `q`: showing the new current page where it moved.
pub open spec fn move_effect(p: PanelState, q: PanelState) -> EffectView {
    if q == p {
        EffectView::Nothing
    } else {
        EffectView::Show(current_url_spec(q))
    }
}

impl WebPreviewPanelView {
    /// The position is that of a page of the history, whose first page is the blank page.
    #[verifier::type_invariant]
    spec fn well_formed(self) -> bool {
        &&& panel_wf(self.state())
        &&& starts_blank(self.state())
    }

    /// The state of the panel.
    pub closed spec fn state(&self) -> PanelState {
        PanelState { history: string_views(self.history@), pos: self.history_pos as int }
    }

    /// A panel on the blank page, with no other history.
    pub fn new() -> (r: Self)
        ensures
            r.state() == (PanelState { history: seq![default_url()], pos: 0 }),
            panel_wf(r.state()),
    {
        let mut history: Vec<String> = Vec::new();
        history.push(String::from_str("https://"));
        let r = WebPreviewPanelView { history, history_pos: 0 };
        assert(r.state().history =~= seq![default_url()]);
        r
    }

    /// The address of the current page.
    pub fn current_url(&self) -> (r: &str)
        ensures
            r@ == current_url_spec(self.state()),
    {
        proof {
            use_type_invariant(&*self);
        }
        if self.history_pos < self.history.len() {
            self.history[self.history_pos].as_str()
        } else {
            "https://"
        }
    }

    /// Whether the current page is one other than the blank page.
    pub fn has_page(&self) -> (r: bool)
        ensures
            r == (current_url_spec(self.state()) != default_url()),
    {
        !str_eq(self.current_url(), "https://")
    }

    /// Goes to `url` (given `https://` where it names no scheme), dropping the pages ahead of
    /// the current one; an empty address and the blank page's are ignored.
    pub fn navigate(&mut self, url: String) -> (r: PanelEffect)
        ensures
            panel_wf(final(self).state()),
            final(self).state() == after_navigate(old(self).state(), url@),
            r@ == navigate_effect(url@),
    {
        proof {
            use_type_invariant(&*self);
        }
        if url.as_str().is_empty() || str_eq(url.as_str(), "https://") {
            return PanelEffect::Nothing;
        }
        let url = if !contains(url.as_str(), "://") {
            let mut u = String::from_str("https://");
            u.append(url.as_str());
            u
        } else {
            url
        };
        let mut current = WebPreviewPanelView::new();
        std::mem::swap(self, &mut current);
        let WebPreviewPanelView { mut history, history_pos } = current;
        let ghost old_history = history@;
        let n = history.len();
        assert(history_pos < n);
        history.truncate(history_pos + 1);
        history.push(url.clone());
        let pos = history.len() - 1;
        assert(history@ == old_history.take(history_pos + 1).push(url));
        assert(string_views(history@) =~= string_views(old_history).take(history_pos + 1).push(
            url@,
        ));
        assert(string_views(history@)[0] == string_views(old_history)[0]);
        *self = WebPreviewPanelView { history, history_pos: pos };
        PanelEffect::Show(url)
    }

    /// Goes to the address typed in the address bar, without surrounding white space.
    pub fn navigate_to_input(&mut self, input: &str) -> (r: PanelEffect)
        ensures
            panel_wf(final(self).state()),
            final(self).state() == after_navigate(old(self).state(), trim_spec(input@)),
            r@ == navigate_effect(trim_spec(input@)),
    {
        proof {
            use_type_invariant(&*self);
        }
        let url = String::from_str(trim(input));
        self.navigate(url)
    }

    /// Goes back one page, where there is one.
    pub fn go_back(&mut self) -> (r: PanelEffect)
        ensures
            panel_wf(final(self).state()),
            final(self).state() == after_back(old(self).state()),
            r@ == move_effect(old(self).state(), final(self).state()),
    {
        proof {
            use_type_invariant(&*self);
        }
        if self.history_pos == 0 {
            return PanelEffect::Nothing;
        }
        self.history_pos = self.history_pos - 1;
        let url = self.history[self.history_pos].clone();
        PanelEffect::Show(url)
    }

    /// Goes forward one page, where there is one.
    pub fn go_forward(&mut self) -> (r: PanelEffect)
        ensures
            panel_wf(final(self).state()),
            final(self).state() == after_forward(old(self).state()),
            r@ == move_effect(old(self).state(), final(self).state()),
    {
        proof {
            use_type_invariant(&*self);
        }
        let n = self.history.len();
        assert(self.history_pos < n);
        if self.history_pos + 1 >= n {
            return PanelEffect::Nothing;
        }
        self.history_pos = self.history_pos + 1;
        let url = self.history[self.history_pos].clone();
        PanelEffect::Show(url)
    }

    /// Handles a request of the user; `input` is the text of the address bar.
    pub fn handle_action(&mut self, action: &WebPreviewPanelAction, input: &str) -> (r: PanelEffect)
        ensures
            panel_wf(final(self).state()),
            match action {
                WebPreviewPanelAction::Navigate => {
                    &&& final(self).state() == after_navigate(old(self).state(), trim_spec(input@))
                    &&& r@ == navigate_effect(trim_spec(input@))
                },
                WebPreviewPanelAction::Back => {
                    &&& final(self).state() == after_back(old(self).state())
                    &&& r@ == move_effect(old(self).state(), final(self).state())
                },
                WebPreviewPanelAction::Forward => {
                    &&& final(self).state() == after_forward(old(self).state())
                    &&& r@ == move_effect(old(self).state(), final(self).state())
                },
                WebPreviewPanelAction::OpenInBrowser => {
                    &&& final(self).state() == old(self).state()
                    &&& r@ == if current_url_spec(old(self).state()) != default_url() {
                        EffectView::OpenExternal(current_url_spec(old(self).state()))
                    } else {
                        EffectView::Nothing
                    }
                },
            },
    {
        proof {
            use_type_invariant(&*self);
        }
        match action {
            WebPreviewPanelAction::Navigate => self.navigate_to_input(input),
            WebPreviewPanelAction::Back => self.go_back(),
            WebPreviewPanelAction::Forward => self.go_forward(),
            WebPreviewPanelAction::OpenInBrowser => {
                if self.has_page() {
                    PanelEffect::OpenExternal(String::from_str(self.current_url()))
                } else {
                    PanelEffect::Nothing
                }
            },
        }
    }
}

} // verus!

verus! {

// ---------------------------------------------------------------------------
// Laws
// ---------------------------------------------------------------------------

/// Every step keeps the position on a page of the history.
pub proof fn law_steps_keep_position_valid(p: PanelState, url: Seq<char>)
    requires
        panel_wf(p),
    ensures
        panel_wf(after_navigate(p, url)),
        panel_wf(after_back(p)),
        panel_wf(after_forward(p)),
{
}

/// Going back after visiting an address returns to the page that was current before it,
/// and the pages up to it are kept.
pub proof fn law_back_undoes_navigate(p: PanelState, url: Seq<char>)
    requires
        panel_wf(p),
    ensures
        !ignored_url(url) ==> after_back(after_navigate(p, url)).pos == p.pos,
        !ignored_url(url) ==> current_url_spec(after_back(after_navigate(p, url)))
            == current_url_spec(p),
        after_navigate(p, url).history.take(p.pos + 1) == p.history.take(p.pos + 1),
{
    let q = after_navigate(p, url);
    if !ignored_url(url) {
        assert(q.history.take(p.pos + 1) =~= p.history.take(p.pos + 1));
        assert(q.history[p.pos] == p.history[p.pos]);
    }
}

/// After visiting an address there is no page to go forward to.
pub proof fn law_navigate_drops_forward_pages(p: PanelState, url: Seq<char>)
    requires
        panel_wf(p),
        !ignored_url(url),
    ensures
        after_forward(after_navigate(p, url)) == after_navigate(p, url),
        current_url_spec(after_navigate(p, url)) == normalize_url(url),
{
}

/// Going back and then forward returns to where one was, and so does going forward and
/// then back.
pub proof fn law_back_and_forward_are_inverse(p: PanelState)
    requires
        panel_wf(p),
    ensures
        p.pos > 0 ==> after_forward(after_back(p)) == p,
        p.pos + 1 < p.history.len() ==> after_back(after_forward(p)) == p,
{
}

/// Every address visited names a scheme, and normalizing it again changes nothing.
pub proof fn law_visited_addresses_have_a_scheme(url: Seq<char>)
    ensures
        seq_contains(normalize_url(url), "://"@),
        normalize_url(normalize_url(url)) == normalize_url(url),
{
    reveal_strlit("https://");
    reveal_strlit("://");
    if !seq_contains(url, "://"@) {
        let n = "https://"@ + url;
        assert(n.subrange(5, 8) =~= "://"@);
        assert(crate::text::occurs_at(n, "://"@, 5));
    }
}

/// The first page of the history is the blank page.
pub open spec fn starts_blank(p: PanelState) -> bool {
    p.history.len() > 0 && p.history[0] == default_url()
}

/// A new panel's history starts with the blank page and every step keeps it first; the
/// current address is always a page of the history, never the fallback.
pub proof fn law_first_page_stays_blank(p: PanelState, url: Seq<char>)
    requires
        panel_wf(p),
        starts_blank(p),
    ensures
        starts_blank(PanelState { history: seq![default_url()], pos: 0 }),
        starts_blank(after_navigate(p, url)),
        starts_blank(after_back(p)),
        starts_blank(after_forward(p)),
        current_url_spec(p) == p.history[p.pos],
{
    if !ignored_url(url) {
        assert(after_navigate(p, url).history[0] == p.history.take(p.pos + 1)[0]);
    }
}

/// Visiting any address other than the empty one and the blank page's makes it (with
/// `https://` put before it where it names no scheme) the current page, one step on from
/// the page that was current, with nothing ahead of it; the caller is asked to show it.
/// The empty address and the blank page's change nothing and ask for nothing.
pub proof fn law_navigate_visits_every_real_address(p: PanelState, url: Seq<char>)
    requires
        panel_wf(p),
    ensures
        url.len() > 0 && url != "https://"@ ==> {
            let q = after_navigate(p, url);
            &&& q.pos == p.pos + 1
            &&& q.history.len() == p.pos + 2
            &&& current_url_spec(q) == normalize_url(url)
            &&& navigate_effect(url) == EffectView::Show(current_url_spec(q))
        },
        url.len() == 0 || url == "https://"@ ==> after_navigate(p, url) == p && navigate_effect(url)
            == EffectView::Nothing,
        seq_contains(url, "://"@) ==> normalize_url(url) == url,
        !seq_contains(url, "://"@) ==> normalize_url(url) == "https://"@ + url,
{
}

} // verus!
