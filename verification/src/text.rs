//! Title clean-up: markup stripping, bounded truncation with an ellipsis,
//! and the link markup used in responses.

use vstd::prelude::*;

verus! {

/// The format-control glyphs that chat clients would mis-render inside a
/// title.  They are stripped from displayed titles, never from URLs.
pub open spec fn spec_is_md_char(c: char) -> bool {
    c == '*' || c == '_' || c == '~' || c == '`'
}

/// `s` with every markup glyph removed; the other characters keep their
/// order.
pub open spec fn spec_strip_md(s: Seq<char>) -> Seq<char> {
    s.filter(|c: char| !spec_is_md_char(c))
}

fn is_md_char(c: char) -> (r: bool)
    ensures
        r == spec_is_md_char(c),
{
    c == '*' || c == '_' || c == '~' || c == '`'
}

/// Strips format-control glyphs from a display string.
pub fn remove_md_characters(s: &str) -> (r: String)
    ensures
        r@ == spec_strip_md(s@),
{
    let n = s.unicode_len();
    let mut out = String::new();
    let mut i: usize = 0;
    proof {
        reveal_with_fuel(Seq::<char>::filter, 2);
        assert(s@.take(0) =~= Seq::<char>::empty());
    }
    while i < n
        invariant
            i <= n,
            n == s@.len(),
            out@ == spec_strip_md(s@.take(i as int)),
        decreases n - i,
    {
        let c = s.get_char(i);
        proof {
            reveal_with_fuel(Seq::<char>::filter, 2);
            assert(s@.take(i + 1).drop_last() =~= s@.take(i as int));
            assert(s@.take(i + 1).last() == c);
        }
        if !is_md_char(c) {
            let piece = s.substring_char(i, i + 1);
            out.append(piece);
            proof {
                assert(piece@ =~= seq![c]);
                assert(out@ =~= spec_strip_md(s@.take(i as int)).push(c));
            }
        }
        i = i + 1;
    }
    proof {
        assert(s@.take(n as int) =~= s@);
    }
    out
}

/// A title longer than `bound` characters is cut to `bound - 3` characters
/// with an ellipsis appended; a shorter one passes through unchanged.  The
/// cut counts characters, so it never splits a multi-byte sequence.
pub open spec fn spec_truncate_title(s: Seq<char>, bound: int) -> Seq<char> {
    if s.len() > bound {
        s.take(bound - 3) + "..."@
    } else {
        s
    }
}

/// Cuts a title to at most `bound` characters, ellipsis included.
pub fn truncate_title(s: &str, bound: usize) -> (r: String)
    requires
        bound >= 3,
    ensures
        r@ == spec_truncate_title(s@, bound as int),
        r@.len() <= bound,
{
    let n = s.unicode_len();
    if n > bound {
        let head = s.substring_char(0, bound - 3);
        let out = head.to_owned().concat("...");
        proof {
            reveal_strlit("...");
            assert(head@ =~= s@.take(bound - 3));
            assert("..."@.len() == 3);
        }
        out
    } else {
        s.to_owned()
    }
}

/// The link markup a response uses to make a title clickable.
pub open spec fn spec_link_markup(title: Seq<char>, url: Seq<char>) -> Seq<char> {
    "["@ + title + "]("@ + url + ")"@
}

/// A title joined with its URL as clickable link markup; a title without a
/// URL stays plain text.
pub fn format_with_url(title: String, url: Option<String>) -> (r: String)
    ensures
        match url {
            Some(u) => r@ == spec_link_markup(title@, u@),
            None => r@ == title@,
        },
{
    match url {
        Some(link) => {
            let out = "[".to_owned().concat(title.as_str()).concat("](").concat(
                link.as_str(),
            ).concat(")");
            proof {
                assert(out@ =~= spec_link_markup(title@, link@));
            }
            out
        },
        None => title,
    }
}

} // verus!
