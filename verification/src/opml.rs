//! OPML subscription lists: which outlines are podcast feeds on import, and
//! the outlines written on export. The `opml` crate reads the XML of an
//! import here; the front end writes the exported outlines out with it, as
//! `opml::Outline`'s `type` field can only be named as a raw identifier.
use crate::models::Subscription;
use crate::search::opt_view;
use crate::text::owned;
use vstd::prelude::*;

verus! {

/// One `<outline>` element of an OPML body.
#[derive(Debug)]
pub struct OutlineNode {
    pub text: String,
    /// The `type` attribute, written on export; an import does not read it.
    pub kind: Option<String>,
    pub xml_url: Option<String>,
    pub html_url: Option<String>,
    pub title: Option<String>,
    pub outlines: Vec<OutlineNode>,
}

/// What the library reads of an outline.
pub struct OutlineView {
    pub text: Seq<char>,
    pub xml_url: Option<Seq<char>>,
    pub html_url: Option<Seq<char>>,
    pub title: Option<Seq<char>>,
    pub outlines: Seq<OutlineView>,
}

pub open spec fn outline_view(o: OutlineNode) -> OutlineView
    decreases o, 1int,
{
    OutlineView {
        text: o.text@,
        xml_url: opt_view(o.xml_url),
        html_url: opt_view(o.html_url),
        title: opt_view(o.title),
        outlines: outlines_view(o.outlines@),
    }
}

pub open spec fn outlines_view(os: Seq<OutlineNode>) -> Seq<OutlineView>
    decreases os, 0int,
{
    if os.len() == 0 {
        Seq::empty()
    } else {
        outlines_view(os.drop_last()).push(outline_view(os.last()))
    }
}

impl View for OutlineNode {
    type V = OutlineView;

    open spec fn view(&self) -> OutlineView {
        outline_view(*self)
    }
}

/// What an import keeps of a feed outline.
pub struct FeedView {
    pub title: Seq<char>,
    pub rss_url: Seq<char>,
    pub website_url: Option<Seq<char>>,
}

pub open spec fn subscription_feed(s: Subscription) -> FeedView {
    FeedView { title: s.title@, rss_url: s.rss_url@, website_url: opt_view(s.website_url) }
}

pub open spec fn feeds_view(subs: Seq<Subscription>) -> Seq<FeedView> {
    subs.map_values(|s: Subscription| subscription_feed(s))
}

/// The feed an outline itself describes: one with a non-empty `xmlUrl`.
pub open spec fn own_feed(o: OutlineView) -> Seq<FeedView> {
    match o.xml_url {
        Some(u) => if u.len() > 0 {
            seq![FeedView { title: o.text, rss_url: u, website_url: o.html_url }]
        } else {
            Seq::empty()
        },
        None => Seq::empty(),
    }
}

/// The feeds of an outline and, depth-first, of everything nested in it.
pub open spec fn feeds_of(o: OutlineView) -> Seq<FeedView>
    decreases o, 1int,
{
    own_feed(o) + feeds_of_list(o.outlines)
}

/// The feeds of a list of outlines, in document order.
pub open spec fn feeds_of_list(os: Seq<OutlineView>) -> Seq<FeedView>
    decreases os, 0int,
{
    if os.len() == 0 {
        Seq::empty()
    } else {
        feeds_of_list(os.drop_last()) + feeds_of(os.last())
    }
}

/// A copy of an optional string.
pub fn clone_opt(o: &Option<String>) -> (r: Option<String>)
    ensures
        opt_view(r) == opt_view(*o),
{
    match o {
        Some(s) => Some(s.clone()),
        None => None,
    }
}

pub struct OpmlImporter;

impl OpmlImporter {
    /// Appends the feeds of `outline` (itself first, then its children,
    /// depth-first) to `subscriptions`.
    pub fn extract_subscriptions(outline: &OutlineNode, subscriptions: &mut Vec<Subscription>)
        ensures
            feeds_view(final(subscriptions)@) == feeds_view(old(subscriptions)@) + feeds_of(outline@),
        decreases *outline,
    {
        let ghost start = feeds_view(subscriptions@);
        match &outline.xml_url {
            Some(xml_url) => {
                if !xml_url.as_str().is_empty() {
                    let mut sub = Subscription::new(outline.text.clone(), xml_url.clone());
                    sub.website_url = clone_opt(&outline.html_url);
                    subscriptions.push(sub);
                }
            },
            None => {},
        }
        assert(feeds_view(subscriptions@) == start + own_feed(outline@));
        Self::extract_list(&outline.outlines, subscriptions);
    }

    fn extract_list(outlines: &Vec<OutlineNode>, subscriptions: &mut Vec<Subscription>)
        ensures
            feeds_view(final(subscriptions)@) == feeds_view(old(subscriptions)@) + feeds_of_list(
                outlines_view(outlines@),
            ),
        decreases *outlines,
    {
        let mut i: usize = 0;
        while i < outlines.len()
            invariant
                0 <= i <= outlines@.len(),
                feeds_view(subscriptions@) == feeds_view(old(subscriptions)@) + feeds_of_list(
                    outlines_view(outlines@.take(i as int)),
                ),
            decreases outlines@.len() - i,
        {
            proof {
                let t = outlines@.take(i + 1);
                assert(t.drop_last() == outlines@.take(i as int));
                assert(t.last() == outlines@[i as int]);
                assert(outlines_view(t) == outlines_view(outlines@.take(i as int)).push(outlines@[i as int]@));
                assert(outlines_view(t).drop_last() == outlines_view(outlines@.take(i as int)));
            }
            Self::extract_subscriptions(&outlines[i], subscriptions);
            i = i + 1;
        }
        assert(outlines@.take(outlines@.len() as int) == outlines@);
    }

    /// The subscriptions an OPML body lists: every outline with a non-empty
    /// `xmlUrl`, nested ones included, in document order.
    pub fn subscriptions_from_outlines(outlines: &Vec<OutlineNode>) -> (subs: Vec<Subscription>)
        ensures
            feeds_view(subs@) == feeds_of_list(outlines_view(outlines@)),
    {
        let mut subs: Vec<Subscription> = Vec::new();
        Self::extract_list(outlines, &mut subs);
        subs
    }
}

pub struct OpmlExporter;

/// The outline written for a subscription.
pub open spec fn exported_outline(s: Subscription, o: OutlineNode) -> bool {
    &&& o.text@ == s.title@
    &&& o.kind matches Some(k) && k@ == "rss"@
    &&& o.xml_url matches Some(u) && u@ == s.rss_url@
    &&& opt_view(o.html_url) == opt_view(s.website_url)
    &&& o.title matches Some(t) && t@ == s.title@
    &&& o.outlines@.len() == 0
}

impl OpmlExporter {
    /// One flat `rss` outline per subscription, in order.
    pub fn outlines_for(subscriptions: &Vec<Subscription>) -> (outlines: Vec<OutlineNode>)
        ensures
            outlines@.len() == subscriptions@.len(),
            forall|i: int| 0 <= i < outlines@.len() ==> exported_outline(#[trigger] subscriptions@[i], outlines@[i]),
    {
        let mut outlines: Vec<OutlineNode> = Vec::new();
        let mut i: usize = 0;
        while i < subscriptions.len()
            invariant
                0 <= i <= subscriptions@.len(),
                outlines@.len() == i,
                forall|k: int| 0 <= k < i ==> exported_outline(#[trigger] subscriptions@[k], outlines@[k]),
            decreases subscriptions@.len() - i,
        {
            let sub = &subscriptions[i];
            let o = OutlineNode {
                text: sub.title.clone(),
                kind: Some(owned("rss")),
                xml_url: Some(sub.rss_url.clone()),
                html_url: clone_opt(&sub.website_url),
                title: Some(sub.title.clone()),
                outlines: Vec::new(),
            };
            outlines.push(o);
            i = i + 1;
        }
        outlines
    }
}


// ---------------------------------------------------------------------------
// Reading and writing OPML documents.

/// What `opml::OPML::from_str` makes of a document: the outlines of its body,
/// or the text of its error.
pub uninterp spec fn opml_read_of(content: Seq<char>) -> Result<Seq<OutlineView>, Seq<char>>;

#[verifier::external_type_specification]
#[verifier::external_body]
pub struct ExOpmlOutline(::opml::Outline);

/// Copies the fields the library reads out of a decoded `opml::Outline`,
/// nested outlines included (its `type` attribute is not read); used only
/// inside [`read_opml`].
#[verifier::external_body]
fn outline_from_document(o: &::opml::Outline) -> OutlineNode {
    OutlineNode {
        text: o.text.clone(),
        kind: None,
        xml_url: o.xml_url.clone(),
        html_url: o.html_url.clone(),
        title: o.title.clone(),
        outlines: o.outlines.iter().map(outline_from_document).collect(),
    }
}

/// Reads an OPML document (`opml::OPML::from_str`) into the outlines of its
/// body. The result is a function of the text alone, named [`opml_read_of`];
/// what the crate accepts is not stated here.
#[verifier::external_body]
fn read_opml(content: &str) -> (r: Result<Vec<OutlineNode>, String>)
    ensures
        match r {
            Ok(os) => opml_read_of(content@) == Ok::<Seq<OutlineView>, Seq<char>>(outlines_view(os@)),
            Err(e) => opml_read_of(content@) == Err::<Seq<OutlineView>, Seq<char>>(e@),
        },
{
    ::opml::OPML::from_str(content)
        .map(|d| d.body.outlines.iter().map(outline_from_document).collect())
        .map_err(|e| e.to_string())
}

impl OpmlImporter {
    /// The subscriptions an OPML document lists: every outline with a
    /// non-empty `xmlUrl`, nested ones included, in document order. A
    /// document that is not OPML is reported as "Failed to parse OPML".
    pub fn import_from_string(content: &str) -> (r: Result<Vec<Subscription>, String>)
        ensures
            match opml_read_of(content@) {
                Ok(os) => r matches Ok(subs) && feeds_view(subs@) == feeds_of_list(os),
                Err(_) => r matches Err(m) && m@ == "Failed to parse OPML"@,
            },
    {
        match read_opml(content) {
            Ok(outlines) => Ok(Self::subscriptions_from_outlines(&outlines)),
            Err(_) => Err(owned("Failed to parse OPML")),
        }
    }
}

/// Exporting subscriptions and importing the result gives back the same
/// feeds (title, feed URL, website), in order, whenever every feed URL is
/// non-empty.
pub proof fn lemma_export_import_round_trip(subs: Seq<Subscription>, os: Seq<OutlineNode>)
    requires
        os.len() == subs.len(),
        forall|i: int| 0 <= i < os.len() ==> exported_outline(#[trigger] subs[i], os[i]),
        forall|i: int| 0 <= i < subs.len() ==> (#[trigger] subs[i]).rss_url@.len() > 0,
    ensures
        feeds_of_list(outlines_view(os)) == feeds_view(subs),
    decreases os.len(),
{
    if os.len() > 0 {
        let n = os.len() - 1;
        lemma_export_import_round_trip(subs.drop_last(), os.drop_last());
        let o = os[n];
        let sub = subs[n];
        assert(exported_outline(sub, o));
        let ov = outline_view(o);
        assert(ov.outlines == Seq::<OutlineView>::empty());
        assert(feeds_of_list(ov.outlines) == Seq::<FeedView>::empty());
        assert(own_feed(ov) == seq![subscription_feed(sub)]);
        assert(feeds_of(ov) == own_feed(ov) + Seq::<FeedView>::empty());
        assert(feeds_view(subs) == feeds_view(subs.drop_last()).push(subscription_feed(sub)));
        assert(feeds_of(ov) == seq![subscription_feed(sub)]);
        let vs = outlines_view(os);
        assert(vs == outlines_view(os.drop_last()).push(ov));
        assert(vs.drop_last() == outlines_view(os.drop_last()));
        assert(vs.last() == ov);
        assert(feeds_of_list(vs) == feeds_of_list(vs.drop_last()) + feeds_of(vs.last()));
    }
}

} // verus!
