//! Rendering of the text summary republished for a resolved post: author
//! line, body text, counter line, and creation time as
//! `YYYY-MM-DD HH:MM:SS`.

use vstd::prelude::*;
use vstd::string::*;
use crate::civil;
use crate::post::{Post, PostView};
use crate::text;

verus! {

/// Two-digit rendering of a calendar or clock field: a leading zero pads a
/// single digit.
pub open spec fn pad2(n: int) -> Seq<char> {
    if n < 10 {
        seq!['0'] + text::dec_str(n)
    } else {
        text::dec_str(n)
    }
}

/// The `YYYY-MM-DD HH:MM:SS` rendering of a timestamp.
pub open spec fn timestamp_str(ts: int) -> Seq<char> {
    let civil_date = civil::days_to_civil(ts / 86400);
    let clock = civil::time_of_day(ts);
    text::dec_str(civil_date.0) + "-"@ + pad2(civil_date.1) + "-"@ + pad2(civil_date.2) + " "@
        + pad2(clock.0) + ":"@ + pad2(clock.1) + ":"@ + pad2(clock.2)
}

/// The full text summary of a resolved post, as it is republished: author
/// name and handle, the body text, the reply/share/like/view counters, and
/// the creation time.
pub open spec fn summary_str(p: PostView) -> Seq<char> {
    p.author_name + " (@"@ + p.author_handle + ")\n"@ + p.text + "\n\u{1f4ac}"@ + text::dec_int_str(
        p.replies as int,
    ) + " \u{267b}\u{fe0f}"@ + text::dec_int_str(p.retweets as int) + " \u{2764}\u{fe0f}"@
        + text::dec_int_str(p.likes as int) + " \u{1f441}\u{fe0f}"@ + text::dec_int_str(
        p.views as int,
    ) + "\n"@ + timestamp_str(p.created_timestamp as int)
}

/// Appends the two-digit rendering of `n`.
fn push_pad2(s: &mut String, n: u64)
    requires
        n < 100,
    ensures
        final (s)@ == old(s)@ + pad2(n as int),
{
    let ghost pre = s@;
    if n < 10 {
        s.append("0");
        proof {
            reveal_strlit("0");
            assert(("0")@ =~= seq!['0']);
        }
        let digits: String = text::u64_to_dec(n);
        s.append(digits.as_str());
        proof {
            assert((pre + ("0")@) + text::dec_str(n as int) =~= pre + (seq!['0'] + text::dec_str(
                n as int,
            )));
        }
    } else {
        let digits: String = text::u64_to_dec(n);
        s.append(digits.as_str());
    }
}

/// Renders a timestamp as `YYYY-MM-DD HH:MM:SS`.
pub fn format_timestamp(ts: i64) -> (r: String)
    requires
        civil::renderable_timestamp(ts),
    ensures
        r@ == timestamp_str(ts as int),
{
    let tu: u64 = ts as u64;
    let days: u64 = tu / 86400;
    proof {
        vstd::arithmetic::div_mod::lemma_fundamental_div_mod(tu as int, 86400);
        vstd::arithmetic::div_mod::lemma_mod_bound(tu as int, 86400);
        civil::lemma_civil_fields_bounded(days as int);
    }
    let date: (u64, u64, u64) = civil::civil_from_days(days);
    let clock: (u64, u64, u64) = civil::split_time_of_day(tu);
    let mut out: String = text::u64_to_dec(date.0);
    out.append("-");
    push_pad2(&mut out, date.1 as u64);
    out.append("-");
    push_pad2(&mut out, date.2 as u64);
    out.append(" ");
    push_pad2(&mut out, clock.0);
    out.append(":");
    push_pad2(&mut out, clock.1);
    out.append(":");
    push_pad2(&mut out, clock.2);
    out
}

/// Builds the republished text summary of a resolved post.
pub fn build_summary(p: &Post) -> (r: String)
    requires
        civil::renderable_timestamp(p.created_timestamp),
    ensures
        r@ == summary_str(p@),
{
    let mut out: String = p.author_name.clone();
    out.append(" (@");
    out.append(p.author_handle.as_str());
    out.append(")\n");
    out.append(p.text.as_str());
    out.append("\n\u{1f4ac}");
    let replies: String = text::i64_to_dec(p.replies);
    out.append(replies.as_str());
    out.append(" \u{267b}\u{fe0f}");
    let retweets: String = text::i64_to_dec(p.retweets);
    out.append(retweets.as_str());
    out.append(" \u{2764}\u{fe0f}");
    let likes: String = text::i64_to_dec(p.likes);
    out.append(likes.as_str());
    out.append(" \u{1f441}\u{fe0f}");
    let views: String = text::i64_to_dec(p.views);
    out.append(views.as_str());
    out.append("\n");
    let when: String = format_timestamp(p.created_timestamp);
    out.append(when.as_str());
    out
}

} // verus!
