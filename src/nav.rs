//! The navigation controller: turns address texts and activated links into
//! fetch requests, keeps track of the one request that matters, and takes in
//! results, discarding those of superseded requests.

use vstd::prelude::*;

use crate::address::{nex_of, AddressView, NexUrl, TryFromStringError};
use crate::document::{classify_step, doc_wf, fresh_doc, DocView, Document, LineKind};
use crate::engine::{fetch_view, ErrView, FetchError, FetchResult};
use crate::url_ref::{opt_url_view, url_parse_of, UrlRef, UrlView};

verus! {

/// The address opened at start.
pub const HOME_PAGE: &'static str = "nex://nex.nightfall.city/";

/// Where the controller stands.
#[derive(Debug)]
pub enum NavState {
    /// No request was ever made.
    Idle,
    /// A request is submitted and its result awaited.
    Pending,
    /// A document is available for display.
    Ready,
    /// The current request failed, for the reason given.
    Failed(String),
}

pub ghost enum NavStateView {
    Idle,
    Pending,
    Ready,
    Failed(Seq<char>),
}

impl View for NavState {
    type V = NavStateView;

    open spec fn view(&self) -> NavStateView {
        match self {
            NavState::Idle => NavStateView::Idle,
            NavState::Pending => NavStateView::Pending,
            NavState::Ready => NavStateView::Ready,
            NavState::Failed(r) => NavStateView::Failed(r@),
        }
    }
}

/// A request to hand to the worker.
#[derive(Debug)]
pub struct Submission {
    /// Cancel the request in flight before submitting this one.
    pub cancel_previous: bool,
    /// The ticket that the result of this request is to come back with.
    pub ticket: u64,
    /// What to fetch.
    pub address: NexUrl,
}

/// The mathematical value of a [`Ballast`].
pub ghost struct NavView {
    pub state: NavStateView,
    pub ticket: u64,
    pub target: Option<UrlView>,
    pub doc: Option<DocView>,
}

/// The navigation controller of the browser.
pub struct Ballast {
    state: NavState,
    ticket: u64,
    target: Option<UrlRef>,
    doc: Option<Document>,
}

pub open spec fn opt_doc_view(d: Option<Document>) -> Option<DocView> {
    match d {
        Some(x) => Some(x@),
        None => None,
    }
}

impl View for Ballast {
    type V = NavView;

    closed spec fn view(&self) -> NavView {
        NavView {
            state: self.state@,
            ticket: self.ticket,
            target: opt_url_view(self.target),
            doc: opt_doc_view(self.doc),
        }
    }
}

/// A navigation to the URL `u` from state `n0`: where `u` is a NEX address,
/// the controller is pending with a fresh ticket, `u` is its target, the
/// link cache of the document on display is emptied, and the request in
/// flight, if any, is to be cancelled first; otherwise nothing changes.
pub open spec fn navigate_step(
    n0: NavView,
    u: UrlView,
    r: Result<(bool, u64, AddressView), ()>,
    n1: NavView,
) -> bool {
    match nex_of(u) {
        Some(a) => {
            let t = next_ticket(n0.ticket);
            &&& r == Ok::<(bool, u64, AddressView), ()>((n0.state == NavStateView::Pending, t, a))
            &&& n1 == NavView {
                state: NavStateView::Pending,
                ticket: t,
                target: Some(u),
                doc: without_cache(n0.doc),
            }
        },
        None => r is Err && n1 == n0,
    }
}

/// A document with its link cache emptied.
pub open spec fn without_cache(d: Option<DocView>) -> Option<DocView> {
    match d {
        Some(x) => Some(DocView { links: Seq::empty(), ..x }),
        None => None,
    }
}

/// A well-formed controller: its document, if any, is well-formed, it has a
/// target while a request is pending, and it has a document when it is ready.
pub open spec fn nav_wf(n: NavView) -> bool {
    &&& n.doc matches Some(d) ==> doc_wf(d)
    &&& n.state is Pending ==> n.target is Some
    &&& n.state is Ready ==> n.doc is Some
}

/// The ticket after `t`: counting up, and from the largest back to zero.
pub open spec fn next_ticket(t: u64) -> u64 {
    if t == u64::MAX {
        0
    } else {
        (t + 1) as u64
    }
}

pub open spec fn submission_view(r: Result<Submission, TryFromStringError>) -> Result<
    (bool, u64, AddressView),
    (),
> {
    match r {
        Ok(s) => Ok((s.cancel_previous, s.ticket, s.address@)),
        Err(_) => Err(()),
    }
}

/// Taking in the result of the request with ticket `t` in state `n0`: where
/// it belongs to the pending request, text makes the controller ready with a
/// fresh document of it, a failure makes it failed, and a cancellation
/// changes nothing; a result of any other request is discarded.
pub open spec fn receive_step(n0: NavView, t: u64, res: Result<Seq<char>, ErrView>, n1: NavView) -> bool {
    if n0.state == NavStateView::Pending && t == n0.ticket && n0.target is Some {
        match res {
            Ok(text) => n1 == NavView {
                state: NavStateView::Ready,
                doc: Some(fresh_doc(text, n0.target->0)),
                ..n0
            },
            Err(ErrView::Cancelled) => n1 == n0,
            Err(ErrView::InvalidAddress) => n1 == NavView {
                state: NavStateView::Failed(invalid_address_reason()),
                ..n0
            },
            Err(ErrView::ConnectionFailed(why)) => n1 == NavView {
                state: NavStateView::Failed(why),
                ..n0
            },
        }
    } else {
        n1 == n0
    }
}

/// A result that comes back for a request after a newer one was submitted
/// is discarded, and the newer request stays pending, its own result still
/// taken in as usual. Submitting the newer request cancels the older one.
pub proof fn stale_result_law(
    n0: NavView,
    u1: UrlView,
    r1: Result<(bool, u64, AddressView), ()>,
    n1: NavView,
    u2: UrlView,
    r2: Result<(bool, u64, AddressView), ()>,
    n2: NavView,
    stale: Result<Seq<char>, ErrView>,
    n3: NavView,
)
    requires
        navigate_step(n0, u1, r1, n1),
        r1 is Ok,
        navigate_step(n1, u2, r2, n2),
        r2 is Ok,
        receive_step(n2, r1->Ok_0.1, stale, n3),
    ensures
        r2->Ok_0.0,
        n3 == n2,
        n3.state == NavStateView::Pending,
        n3.ticket == r2->Ok_0.1,
{
}

/// The reason shown where an address names no host that resolves.
pub open spec fn invalid_address_reason() -> Seq<char> {
    seq!['i', 'n', 'v', 'a', 'l', 'i', 'd', ' ', 'a', 'd', 'd', 'r', 'e', 's', 's']
}

impl Ballast {
    /// See [`nav_wf`].
    pub open spec fn wf(&self) -> bool {
        nav_wf(self@)
    }

    /// A controller that has made no request yet.
    pub fn new() -> (r: Ballast)
        ensures
            r.wf(),
            r@ == (NavView {
                state: NavStateView::Idle,
                ticket: 0,
                target: None,
                doc: None,
            }),
    {
        Ballast { state: NavState::Idle, ticket: 0, target: None, doc: None }
    }

    /// Where the controller stands.
    pub fn state(&self) -> (r: &NavState)
        ensures
            r@ == self@.state,
    {
        &self.state
    }

    /// The ticket of the latest request.
    pub fn ticket(&self) -> (r: u64)
        ensures
            r == self@.ticket,
    {
        self.ticket
    }

    /// The URL of the latest request.
    pub fn target(&self) -> (r: Option<&UrlRef>)
        ensures
            match r {
                Some(u) => self@.target == Some(u@),
                None => self@.target is None,
            },
    {
        match &self.target {
            Some(u) => Some(u),
            None => None,
        }
    }

    /// The document on display, if any.
    pub fn document(&self) -> (r: Option<&Document>)
        requires
            self.wf(),
        ensures
            match r {
                Some(d) => self@.doc == Some(d@) && d.wf(),
                None => self@.doc is None,
            },
    {
        match &self.doc {
            Some(d) => Some(d),
            None => None,
        }
    }

    /// Navigates to a parsed URL; an error, with nothing changed, where it
    /// is not a NEX address. Tickets count up, wrapping around.
    pub fn navigate_url(&mut self, u: &UrlRef) -> (r: Result<Submission, TryFromStringError>)
        requires
            old(self).wf(),
        ensures
            final(self).wf(),
            navigate_step(old(self)@, u@, submission_view(r), final(self)@),
    {
        match NexUrl::from_url(u) {
            Err(e) => Err(e),
            Ok(address) => {
                let cancel_previous = matches!(self.state, NavState::Pending);
                self.ticket = if self.ticket == u64::MAX {
                    0
                } else {
                    self.ticket + 1
                };
                self.state = NavState::Pending;
                self.target = Some(u.clone());
                match &mut self.doc {
                    Some(d) => d.clear_cache(),
                    None => {},
                }
                Ok(Submission { cancel_previous, ticket: self.ticket, address })
            },
        }
    }

    /// Navigates to an address text, as typed in an address bar; an error,
    /// with nothing changed, where it is not a NEX address.
    pub fn navigate_text(&mut self, text: &str) -> (r: Result<Submission, TryFromStringError>)
        requires
            old(self).wf(),
        ensures
            final(self).wf(),
            match url_parse_of(text@) {
                Some(u) => navigate_step(old(self)@, u, submission_view(r), final(self)@),
                None => r is Err && final(self)@ == old(self)@,
            },
    {
        match UrlRef::parse(text) {
            Some(u) => self.navigate_url(&u),
            None => Err(TryFromStringError),
        }
    }

    /// Navigates to the home page.
    pub fn do_home_page(&mut self) -> (r: Result<Submission, TryFromStringError>)
        requires
            old(self).wf(),
        ensures
            final(self).wf(),
            match url_parse_of(HOME_PAGE@) {
                Some(u) => navigate_step(old(self)@, u, submission_view(r), final(self)@),
                None => r is Err && final(self)@ == old(self)@,
            },
    {
        self.navigate_text(HOME_PAGE)
    }

    /// Takes in the result of the request with ticket `ticket`.
    pub fn receive(&mut self, ticket: u64, result: FetchResult)
        requires
            old(self).wf(),
        ensures
            final(self).wf(),
            receive_step(old(self)@, ticket, fetch_view(result), final(self)@),
    {
        if !matches!(self.state, NavState::Pending) || ticket != self.ticket {
            return;
        }
        match &self.target {
            None => {},
            Some(target) => match result {
                Ok(text) => {
                    let d = Document::new(text.as_str(), target.clone());
                    self.doc = Some(d);
                    self.state = NavState::Ready;
                },
                Err(FetchError::Cancelled) => {},
                Err(FetchError::InvalidAddress) => {
                    let why = "invalid address".to_owned();
                    proof {
                        reveal_strlit("invalid address");
                    }
                    assert(why@ =~= invalid_address_reason());
                    self.state = NavState::Failed(why);
                },
                Err(FetchError::ConnectionFailed(why)) => {
                    self.state = NavState::Failed(why);
                },
            },
        }
    }

    /// Classifies line `i` of the document on display.
    pub fn classify(&mut self, i: usize) -> (r: LineKind)
        requires
            old(self).wf(),
            old(self)@.doc matches Some(d) && i < d.lines.len() && i <= d.links.len(),
        ensures
            final(self).wf(),
            final(self)@.doc is Some,
            classify_step(old(self)@.doc->0, i as int, r@, final(self)@.doc->0),
            final(self)@ == (NavView { doc: final(self)@.doc, ..old(self)@ }),
    {
        match &mut self.doc {
            Some(d) => d.classify(i),
            None => LineKind::NotALink,
        }
    }
}

} // verus!
