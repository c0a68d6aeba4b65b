//! Reading a combo colour from the text of a configuration entry.

use vstd::prelude::*;
use crate::pixel::SkinColour;

verus! {

/// The first three capture groups of the leftmost match of the regular
/// expression `pattern` in `text`, as the `regex` crate finds them; `None`
/// where the pattern is no regular expression, nothing matches, or one of
/// the groups took no part in the match.
pub uninterp spec fn captured(pattern: Seq<char>, text: Seq<char>) -> Option<
    (Seq<char>, Seq<char>, Seq<char>),
>;

/// Pattern of a combo colour: three runs of one to three digits, separated
/// by commas with optional white space around them.
pub open spec fn combo_pattern() -> Seq<char> {
    "(\\d{1,3})\\s*,\\s*(\\d{1,3})\\s*,\\s*(\\d{1,3})"@
}

/// Whether `c` is one of the ASCII digits.
pub open spec fn is_digit(c: char) -> bool {
    '0' <= c && c <= '9'
}

/// Whether `s` holds ASCII digits only.
pub open spec fn all_digits(s: Seq<char>) -> bool {
    forall|i: int| 0 <= i < s.len() ==> is_digit(#[trigger] s[i])
}

/// The number that the decimal digits of `s` write.
pub open spec fn digits_value(s: Seq<char>) -> nat
    decreases s.len(),
{
    if s.len() == 0 {
        0
    } else {
        10 * digits_value(s.drop_last()) + ((s.last() as u32 - '0' as u32) as nat)
    }
}

/// The channel that `s` writes: a number of at most 255 in ASCII digits.
pub open spec fn channel_of(s: Seq<char>) -> Option<u8> {
    if s.len() > 0 && all_digits(s) && digits_value(s) <= 255 {
        Some(digits_value(s) as u8)
    } else {
        None
    }
}

/// The colour that three captured fields write, if each writes a channel.
pub open spec fn colour_of(
    fields: Option<(Seq<char>, Seq<char>, Seq<char>)>,
) -> Option<SkinColour> {
    match fields {
        None => None,
        Some(f) => if channel_of(f.0) is Some && channel_of(f.1) is Some && channel_of(f.2) is Some {
            Some((channel_of(f.0)->Some_0, channel_of(f.1)->Some_0, channel_of(f.2)->Some_0))
        } else {
            None
        },
    }
}

/// Calls `regex::Regex::new` and `Regex::captures`, and hands out the text
/// of groups 1 to 3 of the match. Nothing is claimed of the result but that
/// it is the named one for this pattern and text.
#[verifier::external_body]
pub(crate) fn capture_three(pattern: &str, text: &str) -> (r: Option<(String, String, String)>)
    ensures
        match r {
            Some(f) => captured(pattern@, text@) == Some((f.0@, f.1@, f.2@)),
            None => captured(pattern@, text@) is None,
        },
{
    let re = regex::Regex::new(pattern).ok()?;
    let caps = re.captures(text)?;
    Some(
        (
            caps.get(1)?.as_str().to_string(),
            caps.get(2)?.as_str().to_string(),
            caps.get(3)?.as_str().to_string(),
        ),
    )
}

/// Appending digits never makes the number smaller.
pub proof fn lemma_value_grows(s: Seq<char>, n: int)
    requires
        0 <= n <= s.len(),
        all_digits(s),
    ensures
        digits_value(s.take(n)) <= digits_value(s),
    decreases s.len(),
{
    if n == s.len() {
        assert(s.take(n) =~= s);
    } else {
        assert(s.drop_last().take(n) =~= s.take(n));
        lemma_value_grows(s.drop_last(), n);
        assert(is_digit(s.last()));
    }
}

/// Reads a channel: one or more ASCII digits that write a number of at
/// most 255.
pub fn parse_channel(text: &str) -> (r: Option<u8>)
    ensures
        r == channel_of(text@),
{
    let n = text.unicode_len();
    if n == 0 {
        return None;
    }
    let mut value: u32 = 0;
    let mut i: usize = 0;
    while i < n
        invariant
            i <= n,
            n == text@.len(),
            value <= 255,
            all_digits(text@.take(i as int)),
            value == digits_value(text@.take(i as int)),
        decreases n - i,
    {
        let c = text.get_char(i);
        if !('0' <= c && c <= '9') {
            proof {
                assert(!is_digit(text@[i as int]));
            }
            return None;
        }
        let d: u32 = c as u32 - '0' as u32;
        proof {
            assert(text@.take(i + 1).drop_last() =~= text@.take(i as int));
            assert(text@.take(i + 1).last() == c);
            assert forall|j: int| 0 <= j < text@.take(i + 1).len() implies is_digit(
                #[trigger] text@.take(i + 1)[j],
            ) by {
                if j < i {
                    assert(text@.take(i as int)[j] == text@.take(i + 1)[j]);
                }
            }
        }
        value = value * 10 + d;
        if value > 255 {
            proof {
                if all_digits(text@) {
                    lemma_value_grows(text@, i + 1);
                }
            }
            return None;
        }
        i = i + 1;
    }
    proof {
        assert(text@.take(n as int) =~= text@);
    }
    Some(value as u8)
}

/// The colour that three fields write, if each of them writes a channel.
pub fn colour_from_fields(red: &str, green: &str, blue: &str) -> (r: Option<SkinColour>)
    ensures
        r == colour_of(Some((red@, green@, blue@))),
{
    match (parse_channel(red), parse_channel(green), parse_channel(blue)) {
        (Some(r), Some(g), Some(b)) => Some((r, g, b)),
        _ => None,
    }
}

/// Reads the colour of a combo entry: the first place in `text` where the
/// pattern matches gives the three channels.
pub fn parse_colour(text: &str) -> (r: Option<SkinColour>)
    ensures
        r == colour_of(captured(combo_pattern(), text@)),
{
    match capture_three("(\\d{1,3})\\s*,\\s*(\\d{1,3})\\s*,\\s*(\\d{1,3})", text) {
        None => None,
        Some(f) => colour_from_fields(f.0.as_str(), f.1.as_str(), f.2.as_str()),
    }
}

} // verus!
