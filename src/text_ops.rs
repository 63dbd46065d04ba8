//! Extraction of a document's readable content: dom_smoothie finds the
//! article and its text, and a quality filter decides whether the text is worth
//! returning. The batch entry point runs the single-document pipeline over a
//! list in parallel and keeps the results in input order.

use vstd::prelude::*;
use vstd::utf8::encode_utf8;

use crate::whitespace::{is_blank, is_blank_text};
use dom_smoothie::Readability;
use rayon::iter::{IndexedParallelIterator, IntoParallelIterator, ParallelIterator};

verus! {

/// Body text shorter than this many bytes (UTF-8) is rejected.
pub const MIN_TEXT_BYTES: usize = 50;

/// What dom_smoothie makes of an HTML document: the article's title and its
/// plain text content, or `None` where no article could be extracted.
pub uninterp spec fn readable_article(html: Seq<char>) -> Option<(Seq<char>, Seq<char>)>;

/// Number of bytes in the UTF-8 encoding of `s`.
pub open spec fn utf8_len(s: Seq<char>) -> nat {
    encode_utf8(s).len()
}

/// The quality filter: body text is kept when it is not blank and encodes to at
/// least `MIN_TEXT_BYTES` bytes.
pub open spec fn passes_quality_filter(text: Seq<char>) -> bool {
    !is_blank(text) && utf8_len(text) >= MIN_TEXT_BYTES
}

/// The result for an extracted title and text: `(title, text, byte length of
/// text)` when the text passes the quality filter, else absent.
pub open spec fn filtered(title: Seq<char>, text: Seq<char>) -> Option<(Seq<char>, Seq<char>, nat)> {
    if passes_quality_filter(text) {
        Some((title, text, utf8_len(text)))
    } else {
        None
    }
}

/// The result of extracting from the document `html`.
pub open spec fn extraction_of(html: Seq<char>) -> Option<(Seq<char>, Seq<char>, nat)> {
    match readable_article(html) {
        Some((title, text)) => filtered(title, text),
        None => None,
    }
}

/// The results of extracting from each document of `htmls`, index by index.
pub open spec fn extraction_batch_of(htmls: Seq<Seq<char>>) -> Seq<
    Option<(Seq<char>, Seq<char>, nat)>,
> {
    htmls.map_values(|html: Seq<char>| extraction_of(html))
}

/// An extracted title and text as character sequences.
pub open spec fn article_view(a: Option<(String, String)>) -> Option<(Seq<char>, Seq<char>)> {
    match a {
        Some((title, text)) => Some((title@, text@)),
        None => None,
    }
}

/// A result as character sequences and a byte count.
pub open spec fn extraction_view(r: Option<(String, String, usize)>) -> Option<
    (Seq<char>, Seq<char>, nat),
> {
    match r {
        Some((title, text, n)) => Some((title@, text@, n as nat)),
        None => None,
    }
}

/// Relies on `dom_smoothie::Readability::new` and `Readability::parse`: with no
/// document URL `new` cannot fail, and `parse` yields the article, whose
/// `title` and `text_content` are returned. Any error becomes `None`. What
/// comes back depends on the HTML alone.
#[verifier::external_body]
fn read_article(html: &str) -> (r: Option<(String, String)>)
    ensures
        article_view(r) == readable_article(html@),
{
    match Readability::new(html, None, None) {
        Ok(mut readability) => match readability.parse() {
            Ok(article) => Some((article.title, article.text_content.to_string())),
            Err(_) => None,
        },
        Err(_) => None,
    }
}

/// Applies the quality filter to an extracted title and body text, and on
/// success packages them with the byte length of the text.
pub fn apply_quality_filter(title: String, text: String) -> (r: Option<(String, String, usize)>)
    ensures
        extraction_view(r) == filtered(title@, text@),
{
    let n = text.as_str().as_bytes().len();
    if is_blank_text(text.as_str()) || n < MIN_TEXT_BYTES {
        None
    } else {
        Some((title, text, n))
    }
}

fn html_extract_text_core(html: &str) -> (r: Option<(String, String, usize)>)
    ensures
        extraction_view(r) == extraction_of(html@),
{
    match read_article(html) {
        Some((title, text)) => apply_quality_filter(title, text),
        None => None,
    }
}

/// Extracts the title and readable body text of one HTML document, with the
/// body's byte length; `None` where no article is found or its text fails
/// the quality filter.
pub fn html_extract_text(html: String) -> (r: Option<(String, String, usize)>)
    ensures
        extraction_view(r) == extraction_of(html@),
{
    html_extract_text_core(html.as_str())
}

/// Relies on rayon's `into_par_iter` on a `Vec`, `map` and
/// `collect_into_vec`: each document goes through the single-document
/// pipeline on the worker pool, and since the iterator is indexed its results
/// are stored in input order.
#[verifier::external_body]
fn par_extract(htmls: Vec<String>) -> (r: Vec<Option<(String, String, usize)>>)
    ensures
        r@.len() == htmls@.len(),
        forall|i: int|
            0 <= i < htmls@.len() ==> extraction_view(#[trigger] r@[i]) == extraction_of(
                htmls@[i]@,
            ),
{
    let mut out = Vec::new();
    htmls.into_par_iter().map(|html| html_extract_text_core(&html)).collect_into_vec(&mut out);
    out
}

/// Extracts every document of `htmls` independently and in parallel. The
/// result has one entry per document, in input order, each what
/// `html_extract_text` gives for that document.
pub fn html_extract_text_batch(htmls: Vec<String>) -> (r: Vec<Option<(String, String, usize)>>)
    ensures
        r@.len() == htmls@.len(),
        forall|i: int|
            0 <= i < htmls@.len() ==> extraction_view(#[trigger] r@[i]) == extraction_of(
                htmls@[i]@,
            ),
        r@.map_values(|o: Option<(String, String, usize)>| extraction_view(o))
            == extraction_batch_of(htmls@.map_values(|html: String| html@)),
{
    let ghost docs = htmls@;
    let r = par_extract(htmls);
    assert(r@.map_values(|o: Option<(String, String, usize)>| extraction_view(o))
        =~= extraction_batch_of(docs.map_values(|html: String| html@)));
    r
}

} // verus!
