use vstd::prelude::*;
use vstd::string::*;

use crate::config::Alignment;

verus! {

/// `n` blanks.
pub open spec fn spaces(n: nat) -> Seq<char> {
    Seq::new(n, |_i: int| ' ')
}

/// `text` padded with blanks to `width` characters, placed as `alignment` says;
/// a text that already fills the width is left as it is.
pub open spec fn aligned(text: Seq<char>, alignment: Alignment, width: nat) -> Seq<char> {
    if text.len() >= width {
        text
    } else {
        let pad = (width - text.len()) as nat;
        match alignment {
            Alignment::Left => text + spaces(pad),
            Alignment::Right => spaces(pad) + text,
            Alignment::Center => spaces(pad / 2) + text + spaces((pad - pad / 2) as nat),
        }
    }
}

/// A string of `n` blanks.
pub fn blanks(n: usize) -> (r: String)
    ensures
        r@ == spaces(n as nat),
{
    let mut s = String::new();
    let mut i: usize = 0;
    proof {
        reveal_strlit(" ");
        assert(s@ =~= spaces(0));
    }
    while i < n
        invariant
            i <= n,
            s@ == spaces(i as nat),
        decreases n - i,
    {
        s.append(" ");
        i = i + 1;
        proof {
            reveal_strlit(" ");
            assert(s@ =~= spaces(i as nat));
        }
    }
    s
}

/// Pads `text` with blanks to `width` characters according to `alignment`.
pub fn align_text(text: &str, alignment: Alignment, width: u16) -> (r: String)
    ensures
        r@ == aligned(text@, alignment, width as nat),
{
    let len = text.unicode_len();
    if len >= width as usize {
        return String::from_str(text);
    }
    let pad: usize = width as usize - len;
    match alignment {
        Alignment::Left => {
            let tail = blanks(pad);
            let r = String::from_str(text).concat(tail.as_str());
            r
        },
        Alignment::Right => {
            let head = blanks(pad);
            head.concat(text)
        },
        Alignment::Center => {
            let head = blanks(pad / 2);
            let tail = blanks(pad - pad / 2);
            head.concat(text).concat(tail.as_str())
        },
    }
}

/// Relies on `String: FromIterator<char>`: the characters of `chars`, in order.
#[verifier::external_body]
pub(crate) fn string_of_chars(chars: &Vec<char>) -> (r: String)
    ensures
        r@ == chars@,
{
    chars.iter().collect()
}

} // verus!
