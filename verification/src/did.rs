//! The text of a decentralized identifier, `did:<method>:<address>`, and the
//! part of it that holds the ledger address.

use vstd::prelude::*;
use vstd::string::*;

verus! {

/// Characters allowed in a method name: lower-case letters and digits.
pub open spec fn is_method_char(c: char) -> bool {
    ('a' <= c && c <= 'z') || ('0' <= c && c <= '9')
}

/// Position of the first colon of `s` at or after `from`; the length of `s`
/// when there is none.
pub open spec fn first_colon(s: Seq<char>, from: int) -> int
    decreases s.len() - from,
{
    if from >= s.len() {
        s.len() as int
    } else if s[from] == ':' {
        from
    } else {
        first_colon(s, from + 1)
    }
}

/// Number of characters of `s` that follow its last colon; all of them when
/// there is no colon.
pub open spec fn tail_len(s: Seq<char>) -> int
    decreases s.len(),
{
    if s.len() == 0 {
        0
    } else if s.last() == ':' {
        0
    } else {
        tail_len(s.drop_last()) + 1
    }
}

/// The four characters every identifier starts with.
pub open spec fn did_prefix() -> Seq<char> {
    seq!['d', 'i', 'd', ':']
}

/// Whether `s` has the shape `did:<method>:<rest>`, with a method name of one
/// or more method characters and a rest that is not empty.
pub open spec fn is_did(s: Seq<char>) -> bool {
    &&& s.len() > 4
    &&& s.subrange(0, 4) == did_prefix()
    &&& 4 < first_colon(s, 4) < s.len() - 1
    &&& forall|i: int| 4 <= i < first_colon(s, 4) ==> is_method_char(#[trigger] s[i])
}

/// The text in which the address of `s` is written: for an identifier what
/// follows its last colon, so that a network name before the address is
/// passed over; for any other text the text itself.
pub open spec fn address_text(s: Seq<char>) -> Seq<char> {
    if is_did(s) {
        s.subrange(s.len() - tail_len(s), s.len() as int)
    } else {
        s
    }
}

/// `first_colon` stays inside the text and stops at a colon or at the end.
pub proof fn lemma_first_colon(s: Seq<char>, from: int)
    requires
        0 <= from <= s.len(),
    ensures
        from <= first_colon(s, from) <= s.len(),
        first_colon(s, from) < s.len() ==> s[first_colon(s, from)] == ':',
        forall|i: int| from <= i < first_colon(s, from) ==> s[i] != ':',
    decreases s.len() - from,
{
    if from < s.len() && s[from] != ':' {
        lemma_first_colon(s, from + 1);
    }
}

/// The tail of a text holds no colon, and is either the whole text or
/// preceded by a colon.
pub proof fn lemma_tail(s: Seq<char>)
    ensures
        0 <= tail_len(s) <= s.len(),
        forall|i: int| s.len() - tail_len(s) <= i < s.len() ==> s[i] != ':',
        tail_len(s) < s.len() ==> s[s.len() - tail_len(s) - 1] == ':',
    decreases s.len(),
{
    if s.len() > 0 && s.last() != ':' {
        let t = s.drop_last();
        lemma_tail(t);
        assert forall|i: int| s.len() - tail_len(s) <= i < s.len() implies s[i] != ':' by {
            if i < s.len() - 1 {
                assert(s[i] == t[i]);
            }
        }
        if tail_len(s) < s.len() {
            assert(s[s.len() - tail_len(s) - 1] == t[t.len() - tail_len(t) - 1]);
        }
    }
}

/// The address text of an identifier is the end of the identifier behind a
/// colon, begins after the method name, and holds no colon.
pub proof fn lemma_address_text_of_did(s: Seq<char>)
    requires
        is_did(s),
    ensures
        address_text(s).len() == tail_len(s),
        address_text(s).len() < s.len() - 4,
        s[s.len() - address_text(s).len() - 1] == ':',
        forall|i: int| 0 <= i < address_text(s).len() ==> address_text(s)[i] != ':',
{
    lemma_tail(s);
    lemma_first_colon(s, 4);
    let m = first_colon(s, 4);
    if tail_len(s) >= s.len() - 4 {
        assert(s[m] == ':');
        assert(s.len() - tail_len(s) <= m < s.len());
    }
}

/// Whether a character may stand in a method name.
fn method_char(c: char) -> (b: bool)
    ensures
        b == is_method_char(c),
{
    ('a' <= c && c <= 'z') || ('0' <= c && c <= '9')
}

/// Whether the text has the shape of an identifier.
pub fn has_did_shape(text: &str) -> (b: bool)
    ensures
        b == is_did(text@),
{
    let n = text.unicode_len();
    if n <= 4 {
        return false;
    }
    if text.get_char(0) != 'd' || text.get_char(1) != 'i' || text.get_char(2) != 'd'
        || text.get_char(3) != ':' {
        assert(text@.subrange(0, 4)[0] == text@[0]);
        assert(text@.subrange(0, 4)[1] == text@[1]);
        assert(text@.subrange(0, 4)[2] == text@[2]);
        assert(text@.subrange(0, 4)[3] == text@[3]);
        return false;
    }
    assert(text@.subrange(0, 4) =~= did_prefix());
    let mut i: usize = 4;
    while i < n && text.get_char(i) != ':'
        invariant
            4 <= i <= n,
            n == text@.len(),
            first_colon(text@, 4) == first_colon(text@, i as int),
            forall|j: int| 4 <= j < i ==> is_method_char(#[trigger] text@[j]),
        decreases n - i,
    {
        if !method_char(text.get_char(i)) {
            proof {
                lemma_first_colon(text@, i as int);
            }
            return false;
        }
        i += 1;
    }
    proof {
        lemma_first_colon(text@, i as int);
    }
    4 < i && i < n - 1
}

/// The part of the text in which the address is written. Of an identifier
/// it is the end of the text behind a colon, and holds no colon itself.
pub fn address_part(text: &str) -> (part: &str)
    ensures
        part@ == address_text(text@),
        !is_did(text@) ==> part@ == text@,
        is_did(text@) ==> {
            &&& part@.len() < text@.len() - 4
            &&& part@ == text@.subrange(text@.len() - part@.len(), text@.len() as int)
            &&& text@[text@.len() - part@.len() - 1] == ':'
            &&& forall|i: int| 0 <= i < part@.len() ==> part@[i] != ':'
        },
{
    if !has_did_shape(text) {
        return text;
    }
    proof {
        lemma_address_text_of_did(text@);
    }
    let n = text.unicode_len();
    let mut k: usize = n;
    proof {
        assert(text@.subrange(0, n as int) =~= text@);
    }
    while k > 0 && text.get_char(k - 1) != ':'
        invariant
            0 <= k <= n,
            n == text@.len(),
            tail_len(text@) == tail_len(text@.subrange(0, k as int)) + (n - k),
        decreases k,
    {
        proof {
            let t = text@.subrange(0, k as int);
            assert(t.last() == text@[k - 1]);
            assert(t.drop_last() =~= text@.subrange(0, k - 1));
        }
        k -= 1;
    }
    proof {
        let t = text@.subrange(0, k as int);
        if k > 0 {
            assert(t.last() == text@[k - 1]);
        }
        assert(tail_len(t) == 0);
    }
    text.substring_char(k, n)
}

} // verus!
