//! Properties of extraction that relate several calls or hold of every input.

use vstd::prelude::*;

use crate::text_ops::{
    extraction_batch_of, extraction_of, readable_article, utf8_len, MIN_TEXT_BYTES,
};
use crate::whitespace::is_blank;

verus! {

/// A batch yields exactly one result per input document.
pub proof fn lemma_batch_len(htmls: Seq<Seq<char>>)
    ensures
        extraction_batch_of(htmls).len() == htmls.len(),
{
}

/// The result at each index of a batch is the single-document result for the
/// document at that index.
pub proof fn lemma_batch_agrees_with_single(htmls: Seq<Seq<char>>, i: int)
    requires
        0 <= i < htmls.len(),
    ensures
        extraction_batch_of(htmls)[i] == extraction_of(htmls[i]),
{
}

/// A present result's length field is the UTF-8 byte length of its text.
pub proof fn lemma_length_is_byte_length(html: Seq<char>)
    ensures
        extraction_of(html) matches Some((title, text, n)) ==> n == utf8_len(text),
{
}

/// Body text of fewer than `MIN_TEXT_BYTES` bytes, or blank body text, never
/// yields a result; a present result always carries text that passes the quality filter.
pub proof fn lemma_short_text_is_absent(html: Seq<char>)
    ensures
        readable_article(html) matches Some((title, text)) ==> (utf8_len(text) < MIN_TEXT_BYTES
            || is_blank(text) ==> extraction_of(html) is None),
        extraction_of(html) matches Some((title, text, n)) ==> (n >= MIN_TEXT_BYTES && !is_blank(
            text,
        )),
{
}

/// Extraction is deterministic: the same HTML always gives the same result.
pub proof fn lemma_extraction_deterministic(html1: Seq<char>, html2: Seq<char>)
    requires
        html1 == html2,
    ensures
        extraction_of(html1) == extraction_of(html2),
{
}

/// The result at an index of a batch depends on the document at that index
/// alone: neither the other documents, nor where the document stands in the
/// batch, nor the order in which the batch is processed change it.
pub proof fn lemma_batch_index_isolation(xs: Seq<Seq<char>>, ys: Seq<Seq<char>>, i: int, j: int)
    requires
        0 <= i < xs.len(),
        0 <= j < ys.len(),
        xs[i] == ys[j],
    ensures
        extraction_batch_of(xs)[i] == extraction_batch_of(ys)[j],
{
}

} // verus!
