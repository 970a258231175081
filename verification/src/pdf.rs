//! Page selection over the text extracted from a PDF, and the checks made
//! before a PDF is read.
//!
//! The extractor separates pages with a form feed (`U+000C`). A request for
//! pages keeps the requested 1-based pages in document order and joins them
//! with form feeds again.

use vstd::prelude::*;

use crate::error::{io_failed_with, not_found_with, rejected_with, ZoteroMcpError};
use crate::security::{cat2, cat5, decimal_string, pdf_too_large_message};
use crate::text::{chars_of, extend_chars, join_spec, lemma_split_nonempty, split_spec, string_from_chars};

verus! {

/// The page separator written by the PDF text extractor.
pub open spec fn form_feed() -> char {
    '\x0C'
}

/// The 1-based number of the page at 0-based position `idx`, saturating at
/// the largest `usize`.
pub open spec fn page_number(idx: int) -> usize {
    if idx < usize::MAX {
        (idx + 1) as usize
    } else {
        usize::MAX
    }
}

/// The pages of `parts` whose numbers `want` contains, in document order.
pub open spec fn selected_pages(parts: Seq<Seq<char>>, want: Seq<usize>) -> Seq<Seq<char>>
    decreases parts.len(),
{
    if parts.len() == 0 {
        Seq::<Seq<char>>::empty()
    } else {
        let r = selected_pages(parts.drop_last(), want);
        if want.contains(page_number(parts.len() - 1)) {
            r.push(parts.last())
        } else {
            r
        }
    }
}

/// `ps` without its leading empty pages.
pub open spec fn drop_leading_empty(ps: Seq<Seq<char>>) -> Seq<Seq<char>>
    decreases ps.len(),
{
    if ps.len() == 0 {
        ps
    } else if ps[0].len() == 0 {
        drop_leading_empty(ps.drop_first())
    } else {
        ps
    }
}

/// The text kept for a page request: all of `text` without a request;
/// otherwise the requested pages in document order, joined with form feeds,
/// where pages before the first non-empty requested page add nothing (not
/// even a separator). Requested numbers beyond the last page select nothing.
pub open spec fn filter_pages_spec(text: Seq<char>, want: Option<Seq<usize>>) -> Seq<char> {
    match want {
        None => text,
        Some(w) => join_spec(drop_leading_empty(selected_pages(split_spec(text, form_feed()), w)), form_feed()),
    }
}

/// Appending one page to the running output: the first non-empty output
/// starts without a separator.
pub open spec fn append_page(acc: Seq<char>, page: Seq<char>) -> Seq<char> {
    if acc.len() == 0 {
        acc + page
    } else {
        acc + seq![form_feed()] + page
    }
}

/// Appends the pages `ps` one after another with `append_page`.
pub open spec fn fold_pages(ps: Seq<Seq<char>>) -> Seq<char>
    decreases ps.len(),
{
    if ps.len() == 0 {
        Seq::<char>::empty()
    } else {
        append_page(fold_pages(ps.drop_last()), ps.last())
    }
}

/// Every page of `ps` is empty.
pub open spec fn all_empty(ps: Seq<Seq<char>>) -> bool {
    forall|i: int| 0 <= i < ps.len() ==> (#[trigger] ps[i]).len() == 0
}

proof fn lemma_drop_leading_empty_push(q: Seq<Seq<char>>, x: Seq<char>)
    ensures
        all_empty(q) ==> drop_leading_empty(q.push(x)) == (if x.len() == 0 {
            Seq::<Seq<char>>::empty()
        } else {
            seq![x]
        }),
        !all_empty(q) ==> drop_leading_empty(q.push(x)) == drop_leading_empty(q).push(x),
        !all_empty(q) ==> drop_leading_empty(q).len() > 0,
        all_empty(q) ==> drop_leading_empty(q).len() == 0,
    decreases q.len(),
{
    if q.len() == 0 {
        assert(q.push(x) =~= seq![x]);
        assert(seq![x].drop_first() =~= Seq::<Seq<char>>::empty());
        assert(drop_leading_empty(Seq::<Seq<char>>::empty()) == Seq::<Seq<char>>::empty());
        assert(seq![x][0] == x);
    } else {
        assert(q.push(x).drop_first() =~= q.drop_first().push(x));
        assert(q.push(x)[0] == q[0]);
        if q[0].len() == 0 {
            lemma_drop_leading_empty_push(q.drop_first(), x);
            assert(all_empty(q) == all_empty(q.drop_first())) by {
                if all_empty(q.drop_first()) {
                    assert forall|i: int| 0 <= i < q.len() implies (#[trigger] q[i]).len() == 0 by {
                        if i > 0 {
                            assert(q[i] == q.drop_first()[i - 1]);
                        }
                    }
                }
                if all_empty(q) {
                    assert forall|i: int| 0 <= i < q.drop_first().len() implies (#[trigger] q.drop_first()[i]).len() == 0 by {
                        assert(q.drop_first()[i] == q[i + 1]);
                    }
                }
            }
        } else {
            assert(!all_empty(q)) by {
                assert(q[0].len() != 0);
            }
        }
    }
}

proof fn lemma_join_push(ps: Seq<Seq<char>>, x: Seq<char>)
    requires
        ps.len() > 0,
    ensures
        join_spec(ps.push(x), form_feed()) == join_spec(ps, form_feed()) + seq![form_feed()] + x,
{
    assert(ps.push(x).drop_last() =~= ps);
}

/// Appending pages one at a time gives the requested pages joined with form
/// feeds after their leading empty pages are dropped.
proof fn lemma_fold_pages_is_join(ps: Seq<Seq<char>>)
    ensures
        fold_pages(ps) == join_spec(drop_leading_empty(ps), form_feed()),
        fold_pages(ps).len() == 0 <==> all_empty(ps),
    decreases ps.len(),
{
    if ps.len() == 0 {
    } else {
        let q = ps.drop_last();
        let x = ps.last();
        assert(q.push(x) =~= ps);
        lemma_fold_pages_is_join(q);
        lemma_drop_leading_empty_push(q, x);
        if all_empty(q) {
            assert(fold_pages(q).len() == 0);
            assert(fold_pages(ps) =~= x);
            if x.len() == 0 {
                assert(all_empty(ps)) by {
                    assert forall|i: int| 0 <= i < ps.len() implies (#[trigger] ps[i]).len() == 0 by {
                        if i < q.len() {
                            assert(ps[i] == q[i]);
                        }
                    }
                }
            } else {
                assert(!all_empty(ps)) by {
                    assert(ps[ps.len() - 1].len() != 0);
                }
            }
        } else {
            lemma_join_push(drop_leading_empty(q), x);
            assert(!all_empty(ps)) by {
                let i = choose|i: int| 0 <= i < q.len() && (#[trigger] q[i]).len() != 0;
                assert(ps[i] == q[i]);
            }
        }
    }
}

proof fn lemma_fold_selected_step(parts: Seq<Seq<char>>, want: Seq<usize>)
    requires
        parts.len() >= 1,
    ensures
        fold_pages(selected_pages(parts, want)) == (if want.contains(page_number(parts.len() - 1)) {
            append_page(fold_pages(selected_pages(parts.drop_last(), want)), parts.last())
        } else {
            fold_pages(selected_pages(parts.drop_last(), want))
        }),
{
    let sp = selected_pages(parts.drop_last(), want);
    if want.contains(page_number(parts.len() - 1)) {
        assert(selected_pages(parts, want) == sp.push(parts.last()));
        assert(sp.push(parts.last()).drop_last() =~= sp);
    }
}

/// Whether `pages` holds `n`.
pub fn slice_contains(pages: &[usize], n: usize) -> (r: bool)
    ensures
        r == pages@.contains(n),
{
    let mut i: usize = 0;
    while i < pages.len()
        invariant
            0 <= i <= pages.len(),
            forall|j: int| 0 <= j < i ==> pages@[j] != n,
        decreases pages.len() - i,
    {
        if pages[i] == n {
            return true;
        }
        i = i + 1;
    }
    false
}

/// Filters form-feed delimited `full_text` down to the 1-based
/// `page_numbers`. Without a request the text comes back unchanged; an empty
/// request gives an empty string; numbers past the last page are skipped;
/// the kept pages stay in document order whatever the order of the request.
pub fn filter_pages(full_text: &str, page_numbers: Option<&[usize]>) -> (r: String)
    ensures
        r@ == filter_pages_spec(full_text@, match page_numbers {
            Some(p) => Some(p@),
            None => None,
        }),
{
    let pages = match page_numbers {
        None => {
            return full_text.to_owned();
        },
        Some(p) => p,
    };
    let ghost want = pages@;
    if pages.len() == 0 {
        proof {
            lemma_selected_pages_none_wanted(split_spec(full_text@, form_feed()), want);
        }
        return String::new();
    }
    let v = chars_of(full_text);
    let mut out: Vec<char> = Vec::new();
    let mut cur: Vec<char> = Vec::new();
    let mut idx: usize = 0;
    let mut i: usize = 0;
    proof {
        assert(v@.take(0) =~= Seq::<char>::empty());
    }
    while i < v.len()
        invariant
            0 <= i <= v.len(),
            v@ == full_text@,
            want == pages@,
            idx <= i,
            split_spec(v@.take(i as int), form_feed()).len() == idx + 1,
            split_spec(v@.take(i as int), form_feed()).last() == cur@,
            out@ == fold_pages(selected_pages(split_spec(v@.take(i as int), form_feed()).drop_last(), want)),
        decreases v.len() - i,
    {
        let ghost parts = split_spec(v@.take(i as int), form_feed());
        let c = v[i];
        assert(v@.take(i + 1).drop_last() =~= v@.take(i as int));
        assert(v@.take(i + 1).last() == c);
        if c == '\x0C' {
            let page_num = idx.saturating_add(1);
            let ghost before = out@;
            proof {
                lemma_fold_selected_step(parts, want);
                assert(page_num == page_number(idx as int));
            }
            if slice_contains(pages, page_num) {
                if out.len() == 0 {
                    extend_chars(&mut out, &cur);
                } else {
                    out.push('\x0C');
                    extend_chars(&mut out, &cur);
                }
                assert(out@ =~= append_page(before, cur@));
            }
            proof {
                assert(split_spec(v@.take(i + 1), form_feed()).drop_last() =~= parts);
            }
            cur = Vec::new();
            idx = idx + 1;
        } else {
            cur.push(c);
            proof {
                lemma_split_nonempty(v@.take(i as int), form_feed());
                assert(split_spec(v@.take(i + 1), form_feed()).drop_last() =~= parts.drop_last());
            }
        }
        i = i + 1;
    }
    proof {
        assert(v@.take(v.len() as int) =~= v@);
    }
    let ghost parts = split_spec(v@, form_feed());
    let page_num = idx.saturating_add(1);
    let ghost before = out@;
    proof {
        lemma_fold_selected_step(parts, want);
        assert(page_num == page_number(idx as int));
    }
    if slice_contains(pages, page_num) {
        if out.len() == 0 {
            extend_chars(&mut out, &cur);
        } else {
            out.push('\x0C');
            extend_chars(&mut out, &cur);
        }
        assert(out@ =~= append_page(before, cur@));
    }
    proof {
        lemma_fold_pages_is_join(selected_pages(parts, want));
    }
    string_from_chars(&out)
}

/// An empty page request keeps nothing: the result is the empty string for
/// every text.
pub proof fn law_empty_request_gives_empty_text(text: Seq<char>)
    ensures
        filter_pages_spec(text, Some(Seq::<usize>::empty())).len() == 0,
{
    lemma_selected_pages_none_wanted(split_spec(text, form_feed()), Seq::<usize>::empty());
    assert(drop_leading_empty(selected_pages(split_spec(text, form_feed()), Seq::<usize>::empty())).len() == 0);
}

/// Without a page request the text comes back unchanged.
pub proof fn law_no_request_is_identity(text: Seq<char>)
    ensures
        filter_pages_spec(text, None) == text,
{
}

proof fn lemma_selected_pages_same_set(parts: Seq<Seq<char>>, p: Seq<usize>, q: Seq<usize>)
    requires
        forall|n: usize| p.contains(n) <==> q.contains(n),
    ensures
        selected_pages(parts, p) == selected_pages(parts, q),
    decreases parts.len(),
{
    if parts.len() > 0 {
        lemma_selected_pages_same_set(parts.drop_last(), p, q);
        let n = page_number(parts.len() - 1);
        assert(p.contains(n) <==> q.contains(n));
    }
}

/// Only which page numbers are requested matters: two requests holding the
/// same numbers, in any order and with any repetition, keep the same text.
/// So the kept pages come out in document order whatever the order of the
/// request.
pub proof fn law_request_order_does_not_matter(text: Seq<char>, p: Seq<usize>, q: Seq<usize>)
    requires
        forall|n: usize| p.contains(n) <==> q.contains(n),
    ensures
        filter_pages_spec(text, Some(p)) == filter_pages_spec(text, Some(q)),
{
    lemma_selected_pages_same_set(split_spec(text, form_feed()), p, q);
}

proof fn lemma_split_without_separator(s: Seq<char>, sep: char)
    requires
        !s.contains(sep),
    ensures
        split_spec(s, sep) == seq![s],
    decreases s.len(),
{
    if s.len() > 0 {
        assert(!s.drop_last().contains(sep)) by {
            if s.drop_last().contains(sep) {
                let i = choose|i: int| 0 <= i < s.drop_last().len() && s.drop_last()[i] == sep;
                assert(s[i] == sep);
            }
        }
        lemma_split_without_separator(s.drop_last(), sep);
        assert(s.last() != sep) by {
            assert(s[s.len() - 1] == s.last());
        }
        assert(s.drop_last().push(s.last()) =~= s);
        assert(seq![s.drop_last()].update(0, s.drop_last().push(s.last())) =~= seq![s]);
    } else {
        assert(s =~= Seq::<char>::empty());
    }
}

/// A text without form feeds is one page: asking for page 1 gives the whole
/// text, and a request without page 1 gives the empty string.
pub proof fn law_undelimited_text_is_page_one(text: Seq<char>, want: Seq<usize>)
    requires
        !text.contains(form_feed()),
    ensures
        want.contains(1) ==> filter_pages_spec(text, Some(want)) == text,
        !want.contains(1) ==> filter_pages_spec(text, Some(want)).len() == 0,
{
    lemma_split_without_separator(text, form_feed());
    let parts = seq![text];
    assert(parts.drop_last() =~= Seq::<Seq<char>>::empty());
    assert(page_number(0) == 1);
    let e = Seq::<Seq<char>>::empty();
    assert(selected_pages(e, want) == e);
    if want.contains(1) {
        assert(selected_pages(parts, want) =~= seq![text]);
        assert(seq![text].drop_first() =~= e);
        assert(drop_leading_empty(e) == e);
        assert(seq![text][0] == text);
    } else {
        assert(selected_pages(parts, want) == e);
    }
}

proof fn lemma_selected_pages_none_wanted(parts: Seq<Seq<char>>, want: Seq<usize>)
    requires
        want.len() == 0,
    ensures
        selected_pages(parts, want).len() == 0,
    decreases parts.len(),
{
    if parts.len() > 0 {
        lemma_selected_pages_none_wanted(parts.drop_last(), want);
    }
}

/// The message given when a PDF file does not exist.
pub open spec fn pdf_not_found_message(path: Seq<char>) -> Seq<char> {
    "PDF file not found: "@ + path
}

/// The checks made before a PDF is parsed, in order: the file exists, its
/// length can be read, and it is at most `max_pdf_bytes` long. `exists`
/// and `len` are what the filesystem reported for `path`.
pub fn check_pdf_readable(path: &str, exists: bool, len: Result<u64, String>, max_pdf_bytes: u64) -> (r: Result<(), ZoteroMcpError>)
    ensures
        !exists ==> not_found_with(r, pdf_not_found_message(path@)),
        exists ==> (len matches Err(e) ==> io_failed_with(r, e@)),
        exists ==> (len matches Ok(n) ==> (n <= max_pdf_bytes ==> r is Ok)),
        exists ==> (len matches Ok(n) ==> (n > max_pdf_bytes ==> rejected_with(r, pdf_too_large_message(path@, max_pdf_bytes as nat)))),
{
    if !exists {
        return Err(ZoteroMcpError::NotFound(cat2("PDF file not found: ", path)));
    }
    let n = match len {
        Ok(n) => n,
        Err(e) => {
            return Err(ZoteroMcpError::Io(e));
        },
    };
    if n > max_pdf_bytes {
        let m = decimal_string(max_pdf_bytes);
        Err(ZoteroMcpError::InputRejected(cat5("PDF file ", path, " exceeds ", m.as_str(), " bytes")))
    } else {
        Ok(())
    }
}

} // verus!
