//! The document model: the lines of a fetched text and a link cache that is
//! filled one line at a time, in order, as the document is displayed.

use vstd::prelude::*;

use crate::text::{lines_of, split_lines, string_of, string_of_range};
use crate::url_ref::{resolve_spec, UrlRef, UrlView};

verus! {

/// A line is a link line when it starts with `=>` and a space.
pub open spec fn is_link_line(l: Seq<char>) -> bool {
    l.len() >= 3 && l[0] == '=' && l[1] == '>' && l[2] == ' '
}

/// The index of the first space at or after `i`, or the line's length.
pub open spec fn space_from(l: Seq<char>, i: int) -> int
    decreases l.len() - i,
{
    if i >= l.len() {
        l.len() as int
    } else if l[i] == ' ' {
        i
    } else {
        space_from(l, i + 1)
    }
}

/// Where the link token of a link line ends.
pub open spec fn token_end(l: Seq<char>) -> int {
    space_from(l, 3)
}

/// The link token: the run of non-space characters after the marker.
pub open spec fn link_token(l: Seq<char>) -> Seq<char> {
    l.subrange(3, token_end(l))
}

/// The label: what follows the token and the one space after it.
pub open spec fn link_label(l: Seq<char>) -> Seq<char> {
    if token_end(l) < l.len() {
        l.subrange(token_end(l) + 1, l.len() as int)
    } else {
        Seq::empty()
    }
}

/// How a line is classified.
#[derive(Debug)]
pub enum LineKind {
    /// Plain text, drawn as it stands.
    NotALink,
    /// A link line whose token resolved to this target.
    Link(UrlRef),
}

/// The mathematical value of a [`LineKind`].
pub ghost enum KindView {
    NotALink,
    Link(UrlView),
}

impl View for LineKind {
    type V = KindView;

    open spec fn view(&self) -> KindView {
        match self {
            LineKind::NotALink => KindView::NotALink,
            LineKind::Link(u) => KindView::Link(u@),
        }
    }
}

impl Clone for LineKind {
    fn clone(&self) -> (r: LineKind)
        ensures
            r@ == self@,
    {
        match self {
            LineKind::NotALink => LineKind::NotALink,
            LineKind::Link(u) => LineKind::Link(u.clone()),
        }
    }
}

/// The classification of a line of a document whose source URL has the
/// text `base`: a link line whose token resolves is a link to what it
/// resolves to; every other line, a link line whose token resolves to
/// nothing included, is plain.
pub open spec fn classify_line(l: Seq<char>, base: Seq<char>) -> KindView {
    if is_link_line(l) {
        match resolve_spec(base, link_token(l)) {
            Some(u) => KindView::Link(u),
            None => KindView::NotALink,
        }
    } else {
        KindView::NotALink
    }
}

fn is_marked(l: &Vec<char>) -> (r: bool)
    ensures
        r == is_link_line(l@),
{
    l.len() >= 3 && l[0] == '=' && l[1] == '>' && l[2] == ' '
}

fn find_token_end(l: &Vec<char>) -> (r: usize)
    requires
        is_link_line(l@),
    ensures
        r == token_end(l@),
        3 <= r <= l@.len(),
{
    let mut j: usize = 3;
    while j < l.len() && l[j] != ' '
        invariant
            3 <= j <= l@.len(),
            space_from(l@, 3) == space_from(l@, j as int),
        decreases l@.len() - j,
    {
        j = j + 1;
    }
    j
}

/// Classifies one line against the text of its document's source URL.
fn classify_chars(l: &Vec<char>, source: &UrlRef) -> (r: LineKind)
    ensures
        r@ == classify_line(l@, source.text@),
{
    if is_marked(l) {
        let end = find_token_end(l);
        let token = string_of_range(l.as_slice(), 3, end);
        match source.resolve(token.as_str()) {
            Some(u) => LineKind::Link(u),
            None => LineKind::NotALink,
        }
    } else {
        LineKind::NotALink
    }
}

/// The mathematical value of a [`Document`].
pub ghost struct DocView {
    pub lines: Seq<Seq<char>>,
    pub source: UrlView,
    pub links: Seq<KindView>,
}

/// A fetched text, the URL it came from, and the link cache.
pub struct Document {
    lines: Vec<Vec<char>>,
    source: UrlRef,
    links: Vec<LineKind>,
}

/// What one call of [`Document::classify`] on line `i` does: it returns the
/// line's classification, appends it to the cache where `i` is the next
/// unseen line, and leaves the cache as it was where `i` is already in it.
pub open spec fn classify_step(d0: DocView, i: int, r: KindView, d1: DocView) -> bool {
    &&& 0 <= i <= d0.links.len()
    &&& i < d0.lines.len()
    &&& r == classify_line(d0.lines[i], d0.source.text)
    &&& i < d0.links.len() ==> r == d0.links[i]
    &&& d1.lines == d0.lines
    &&& d1.source == d0.source
    &&& d1.links == if i < d0.links.len() {
        d0.links
    } else {
        d0.links.push(r)
    }
}

/// Classifying the same line twice, with no reset between, gives the same
/// classification both times, and the second call leaves the cache as the
/// first one left it.
pub proof fn classify_twice_law(
    d0: DocView,
    d1: DocView,
    d2: DocView,
    i: int,
    r1: KindView,
    r2: KindView,
)
    requires
        classify_step(d0, i, r1, d1),
        classify_step(d1, i, r2, d2),
    ensures
        r1 == r2,
        d2 == d1,
{
}

/// Classifying lines `0..k` in order, starting from an empty cache, leaves
/// exactly the `k` classifications in the cache, in that order.
pub proof fn classify_in_order_law(ds: Seq<DocView>, rs: Seq<KindView>, k: int)
    requires
        0 <= k,
        ds.len() == k + 1,
        rs.len() == k,
        ds[0].links.len() == 0,
        forall|j: int| 0 <= j < k ==> classify_step(#[trigger] ds[j], j, rs[j], ds[j + 1]),
    ensures
        ds[k].links == rs,
        ds[k].links.len() == k,
    decreases k,
{
    if k == 0 {
        assert(ds[0].links =~= rs);
    } else {
        classify_in_order_law(ds.take(k), rs.take(k - 1), k - 1);
        assert(classify_step(ds[k - 1], k - 1, rs[k - 1], ds[k]));
        assert(ds.take(k)[k - 1] == ds[k - 1]);
        assert(ds[k].links =~= rs);
    }
}

/// A well-formed document: the cache holds no more entries than there are
/// lines, and each entry is the classification of its line.
pub open spec fn doc_wf(d: DocView) -> bool {
    &&& d.links.len() <= d.lines.len()
    &&& forall|i: int|
        0 <= i < d.links.len() ==> #[trigger] d.links[i] == classify_line(
            d.lines[i],
            d.source.text,
        )
}

/// The state right after a reset with `text` from `source`.
pub open spec fn fresh_doc(text: Seq<char>, source: UrlView) -> DocView {
    DocView { lines: lines_of(text), source, links: Seq::empty() }
}

impl View for Document {
    type V = DocView;

    closed spec fn view(&self) -> DocView {
        DocView {
            lines: self.lines.deep_view(),
            source: self.source@,
            links: self.links@.map_values(|k: LineKind| k@),
        }
    }
}

impl Document {
    /// See [`doc_wf`].
    pub open spec fn wf(&self) -> bool {
        doc_wf(self@)
    }

    /// A document holding `text`, fetched from `source`, with an empty cache.
    pub fn new(text: &str, source: UrlRef) -> (r: Document)
        ensures
            r.wf(),
            r@ == fresh_doc(text@, source@),
    {
        let lines = split_lines(text);
        let r = Document { lines, source, links: Vec::new() };
        assert(r@.links =~= Seq::empty());
        r
    }

    /// Replaces the text and its source, and empties the cache.
    pub fn reset(&mut self, text: &str, source: UrlRef)
        ensures
            final(self).wf(),
            final(self)@ == fresh_doc(text@, source@),
    {
        *self = Document::new(text, source);
    }

    /// Empties the cache, keeping the text and its source.
    pub fn clear_cache(&mut self)
        requires
            old(self).wf(),
        ensures
            final(self).wf(),
            final(self)@ == (DocView { links: Seq::empty(), ..old(self)@ }),
    {
        self.links.clear();
        assert(self@.links =~= Seq::empty());
    }

    /// The number of lines.
    pub fn line_count(&self) -> (r: usize)
        ensures
            r == self@.lines.len(),
    {
        self.lines.len()
    }

    /// The number of lines classified so far.
    pub fn cached(&self) -> (r: usize)
        ensures
            r == self@.links.len(),
    {
        self.links.len()
    }

    /// The URL the text came from.
    pub fn source(&self) -> (r: &UrlRef)
        ensures
            r@ == self@.source,
    {
        &self.source
    }

    /// The classification of line `i`: taken from the cache where the line
    /// is in it, else computed and appended. Lines are classified in order:
    /// `i` is at most the number of lines classified so far.
    pub fn classify(&mut self, i: usize) -> (r: LineKind)
        requires
            old(self).wf(),
            i < old(self)@.lines.len(),
            i <= old(self)@.links.len(),
        ensures
            final(self).wf(),
            classify_step(old(self)@, i as int, r@, final(self)@),
    {
        assert(self@.lines[i as int] == self.lines@[i as int]@);
        if i < self.links.len() {
            assert(self@.links[i as int] == self.links@[i as int]@);
            return self.links[i].clone();
        }
        let k = classify_chars(&self.lines[i], &self.source);
        let ghost before = self.links@;
        let ghost d0 = self@;
        self.links.push(k.clone());
        assert(self.links@.map_values(|k: LineKind| k@) =~= before.map_values(
            |k: LineKind| k@,
        ).push(k@));
        assert(self@.links == d0.links.push(k@));
        assert forall|j: int| 0 <= j < self@.links.len() implies #[trigger] self@.links[j]
            == classify_line(self@.lines[j], self@.source.text) by {
            if j < i {
                assert(self@.links[j] == d0.links[j]);
            }
        }
        k
    }

    /// The link token and the label of line `i`, where it is a link line.
    pub fn link_parts(&self, i: usize) -> (r: Option<(String, String)>)
        requires
            i < self@.lines.len(),
        ensures
            r is Some <==> is_link_line(self@.lines[i as int]),
            r matches Some((t, b)) ==> (t@ == link_token(self@.lines[i as int]) && b@
                == link_label(self@.lines[i as int])),
    {
        let l = &self.lines[i];
        assert(self@.lines[i as int] == l@);
        if !is_marked(l) {
            return None;
        }
        let end = find_token_end(l);
        let token = string_of_range(l.as_slice(), 3, end);
        let label = if end < l.len() {
            string_of_range(l.as_slice(), end + 1, l.len())
        } else {
            String::new()
        };
        Some((token, label))
    }

    /// The text of line `i`.
    pub fn line_text(&self, i: usize) -> (r: String)
        requires
            i < self@.lines.len(),
        ensures
            r@ == self@.lines[i as int],
    {
        string_of(self.lines[i].as_slice())
    }
}

} // verus!
