use vstd::prelude::*;

verus! {

/// One element that a CSS selector matched in a document: the value of the attribute that
/// was asked for, where the element has it, and the element's descendant text nodes in the
/// order scraper walks them.
pub struct Element {
    pub attribute: Option<String>,
    pub texts: Vec<String>,
}

/// An element with its texts taken as sequences of characters.
pub type ElementModel = (Option<Seq<char>>, Seq<Seq<char>>);

impl View for Element {
    type V = ElementModel;

    open spec fn view(&self) -> ElementModel {
        (self.attribute.deep_view(), self.texts.deep_view())
    }
}

/// The elements of a list, each taken as a model.
pub open spec fn elements_view(v: Seq<Element>) -> Seq<ElementModel> {
    v.map_values(|e: Element| e@)
}

/// What scraper makes of a document and a CSS selector: `None` where the selector does
/// not parse, else the matching elements in the order scraper's `select` yields them (the
/// order in which the parser created their nodes), each with the value of the attribute
/// named `attribute` and its text nodes.
pub uninterp spec fn scraped(document: Seq<char>, selector: Seq<char>, attribute: Seq<char>) -> Option<
    Seq<ElementModel>,
>;

/// Parses `document` as an HTML document with scraper (`Html::parse_document`) and runs the
/// CSS `selector` on it (`Selector::parse`, `Html::select`); each match is read with
/// `Element::attr(attribute)` and `ElementRef::text`. The contract claims only that the
/// result is what scraper computes from these three texts (the name `scraped`), and that it
/// is `None` exactly when the selector does not parse.
#[verifier::external_body]
pub(crate) fn select_elements(document: &str, selector: &str, attribute: &str) -> (r: Option<
    Vec<Element>,
>)
    ensures
        match r {
            None => scraped(document@, selector@, attribute@) is None,
            Some(v) => scraped(document@, selector@, attribute@) == Some(elements_view(v@)),
        },
{
    let sel = scraper::Selector::parse(selector).ok()?;
    let doc = scraper::Html::parse_document(document);
    let found = doc.select(&sel).map(
        |e| Element {
            attribute: e.value().attr(attribute).map(|a| a.to_string()),
            texts: e.text().map(|t| t.to_string()).collect(),
        },
    ).collect();
    Some(found)
}

} // verus!
