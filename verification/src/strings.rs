//! Bounded strings and the character-level sanitisation applied to every
//! value read back from the configuration store.

use vstd::prelude::*;
use vstd::string::*;

verus! {

/// Characters that survive sanitisation: ASCII that is either graphic
/// (`'!'..='~'`) or whitespace (space, tab, line feed, form feed, carriage
/// return). Everything else, control bytes and non-ASCII alike, is stripped.
pub open spec fn is_kept_char(c: char) -> bool {
    ||| 0x21 <= (c as u32) <= 0x7e
    ||| c == ' ' || c == '\t' || c == '\n' || c == '\u{c}' || c == '\r'
}

/// The sanitised form of a character sequence: only the kept characters, in
/// their original order.
pub open spec fn clean_seq(s: Seq<char>) -> Seq<char> {
    s.filter(|c: char| is_kept_char(c))
}

/// Exec test for [`is_kept_char`].
pub fn is_kept_char_exec(c: char) -> (r: bool)
    ensures
        r == is_kept_char(c),
{
    let u = c as u32;
    (0x21 <= u && u <= 0x7e) || c == ' ' || c == '\t' || c == '\n' || c == '\u{c}' || c == '\r'
}

/// Relies on `String`'s `FromIterator<char>` impl: collecting characters
/// yields a string whose characters are exactly the collected ones, in order.
#[verifier::external_body]
pub(crate) fn chars_to_string(cs: &Vec<char>) -> (r: String)
    ensures
        r@ == cs@,
{
    cs.iter().collect()
}

/// A decimal digit.
pub open spec fn is_digit(c: char) -> bool {
    0x30 <= (c as u32) <= 0x39
}

/// The value of a decimal digit.
pub open spec fn digit_val(c: char) -> int {
    (c as u32) - 0x30
}

/// The number denoted by a sequence of decimal digits, most significant
/// first.
pub open spec fn dec_value(s: Seq<char>) -> int
    decreases s.len(),
{
    if s.len() == 0 {
        0
    } else {
        dec_value(s.drop_last()) * 10 + digit_val(s.last())
    }
}

/// Every character is a decimal digit.
pub open spec fn all_digits(s: Seq<char>) -> bool {
    forall|i: int| 0 <= i < s.len() ==> is_digit(#[trigger] s[i])
}

/// Texts that `parse_u16` accepts: at least one digit, digits only, and a
/// value within `u16`.
pub open spec fn valid_u16_str(s: Seq<char>) -> bool {
    s.len() > 0 && all_digits(s) && dec_value(s) <= 65535
}

proof fn lemma_dec_value_nonneg(s: Seq<char>)
    requires
        all_digits(s),
    ensures
        dec_value(s) >= 0,
    decreases s.len(),
{
    if s.len() > 0 {
        assert(all_digits(s.drop_last()));
        lemma_dec_value_nonneg(s.drop_last());
    }
}

proof fn lemma_dec_value_prefix(s: Seq<char>, i: int)
    requires
        0 <= i <= s.len(),
        all_digits(s),
    ensures
        dec_value(s.take(i)) <= dec_value(s),
    decreases s.len() - i,
{
    if i < s.len() {
        assert(s.take(i + 1).drop_last() =~= s.take(i));
        assert(all_digits(s.take(i)));
        lemma_dec_value_nonneg(s.take(i));
        lemma_dec_value_prefix(s, i + 1);
    } else {
        assert(s.take(i) =~= s);
    }
}

/// Reads a decimal port-style number.
///
/// Accepts exactly the texts made of decimal digits whose value fits `u16`;
/// anything else, the empty text included, is refused.
pub fn parse_u16(s: &str) -> (r: Option<u16>)
    ensures
        r is Some <==> valid_u16_str(s@),
        r is Some ==> r->0 == dec_value(s@),
{
    let n = s.unicode_len();
    if n == 0 {
        return None;
    }
    let mut acc: u32 = 0;
    let mut i: usize = 0;
    while i < n
        invariant
            n == s@.len(),
            0 < n,
            i <= n,
            all_digits(s@.take(i as int)),
            acc == dec_value(s@.take(i as int)),
            acc <= 65535,
        decreases n - i,
    {
        let c = s.get_char(i);
        proof {
            assert(s@.take(i + 1).drop_last() =~= s@.take(i as int));
            assert(s@.take(i + 1).last() == s@[i as int]);
        }
        let u = c as u32;
        if u < 0x30 || u > 0x39 {
            assert(!all_digits(s@));
            return None;
        }
        let d = u - 0x30;
        let next = acc * 10 + d;
        if next > 65535 {
            proof {
                if all_digits(s@) {
                    lemma_dec_value_prefix(s@, i + 1);
                }
            }
            return None;
        }
        acc = next;
        i = i + 1;
    }
    proof {
        assert(s@.take(n as int) =~= s@);
    }
    Some(acc as u16)
}

/// Character-wise equality of two string slices.
pub fn str_eq(a: &str, b: &str) -> (r: bool)
    ensures
        r == (a@ == b@),
{
    let n = a.unicode_len();
    let m = b.unicode_len();
    if n != m {
        return false;
    }
    let mut i: usize = 0;
    while i < n
        invariant
            n == a@.len(),
            n == b@.len(),
            i <= n,
            forall|k: int| 0 <= k < i ==> a@[k] == b@[k],
        decreases n - i,
    {
        if a.get_char(i) != b.get_char(i) {
            return false;
        }
        i = i + 1;
    }
    proof {
        assert(a@ =~= b@);
    }
    true
}

/// An ASCII whitespace character: the ones `trim` removes at the ends.
pub open spec fn is_space_char(c: char) -> bool {
    c == ' ' || c == '\t' || c == '\n' || c == '\u{c}' || c == '\r'
}

/// Whether a text is blank: empty, or whitespace through and through.
pub open spec fn is_blank(s: Seq<char>) -> bool {
    forall|i: int| 0 <= i < s.len() ==> is_space_char(#[trigger] s[i])
}

/// Exec test for [`is_blank`].
pub fn is_blank_exec(s: &str) -> (r: bool)
    ensures
        r == is_blank(s@),
{
    let n = s.unicode_len();
    let mut i: usize = 0;
    while i < n
        invariant
            n == s@.len(),
            i <= n,
            forall|k: int| 0 <= k < i ==> is_space_char(#[trigger] s@[k]),
        decreases n - i,
    {
        let c = s.get_char(i);
        if !(c == ' ' || c == '\t' || c == '\n' || c == '\u{c}' || c == '\r') {
            return false;
        }
        i = i + 1;
    }
    true
}

/// The position of the first occurrence of `target` in `s` at or after
/// `from`, or the length of `s` when there is none.
pub fn find_char(s: &str, from: usize, target: char) -> (r: usize)
    requires
        from <= s@.len(),
    ensures
        from <= r <= s@.len(),
        forall|k: int| from <= k < r ==> s@[k] != target,
        r < s@.len() ==> s@[r as int] == target,
{
    let n = s.unicode_len();
    let mut i: usize = from;
    while i < n
        invariant
            n == s@.len(),
            from <= i <= n,
            forall|k: int| from <= k < i ==> s@[k] != target,
        decreases n - i,
    {
        if s.get_char(i) == target {
            return i;
        }
        i = i + 1;
    }
    n
}

/// Error of a bounded-string operation.
#[derive(Clone, Copy, Debug, PartialEq, Eq, Structural)]
pub enum StrError {
    /// The pushed text does not fit the fixed capacity.
    TooLong,
}

/// A string bounded by a fixed character capacity `N`, mirroring the
/// fixed-width fields of the configuration store.
#[derive(Debug)]
pub struct HeaplessString<const N: usize> {
    s: String,
}

impl<const N: usize> View for HeaplessString<N> {
    type V = Seq<char>;

    closed spec fn view(&self) -> Seq<char> {
        self.s@
    }
}

impl<const N: usize> Clone for HeaplessString<N> {
    /// An exact copy of the content.
    fn clone(&self) -> (r: Self)
        ensures
            r@ == self@,
    {
        HeaplessString { s: self.s.clone() }
    }
}

impl<const N: usize> HeaplessString<N> {
    /// The capacity bound that every well-formed value obeys.
    pub open spec fn wf(&self) -> bool {
        self@.len() <= N
    }

    /// An empty bounded string.
    pub fn new() -> (r: HeaplessString<N>)
        ensures
            r@ == Seq::<char>::empty(),
            r.wf(),
    {
        HeaplessString { s: String::new() }
    }

    /// Appends `other` whole, or leaves the string unchanged.
    ///
    /// Text longer than the whole capacity is rejected; text that merely does
    /// not fit behind the current content is dropped without an error, as the
    /// fixed-capacity store behaves.
    pub fn push_str(&mut self, other: &str) -> (r: Result<(), StrError>)
        requires
            old(self).wf(),
        ensures
            final(self).wf(),
            r is Err <==> other@.len() > N,
            r is Err ==> final(self)@ == old(self)@,
            r is Ok && old(self)@.len() + other@.len() <= N ==> final(self)@ == old(self)@
                + other@,
            r is Ok && old(self)@.len() + other@.len() > N ==> final(self)@ == old(self)@,
    {
        let ol = other.unicode_len();
        if ol > N {
            return Err(StrError::TooLong);
        }
        let cl = self.s.as_str().unicode_len();
        if ol <= N - cl {
            self.s.append(other);
        }
        Ok(())
    }

    /// The content as a string slice.
    pub fn as_str(&self) -> (r: &str)
        ensures
            r@ == self@,
    {
        self.s.as_str()
    }

    /// Gives the content away as an owned string.
    pub fn inner(self) -> (r: String)
        ensures
            r@ == self@,
    {
        self.s
    }

    /// A copy with every non-printable or non-ASCII character stripped.
    pub fn clean_string(&self) -> (r: HeaplessString<N>)
        requires
            self.wf(),
        ensures
            r@ == clean_seq(self@),
            r.wf(),
    {
        let sl = self.s.as_str();
        let n = sl.unicode_len();
        let mut kept: Vec<char> = Vec::new();
        let mut i: usize = 0;
        while i < n
            invariant
                n == sl@.len(),
                sl@ == self@,
                i <= n,
                kept@ == clean_seq(sl@.take(i as int)),
            decreases n - i,
        {
            let c = sl.get_char(i);
            proof {
                reveal(Seq::filter);
                assert(sl@.take(i + 1).drop_last() =~= sl@.take(i as int));
                assert(sl@.take(i + 1).last() == sl@[i as int]);
            }
            if is_kept_char_exec(c) {
                kept.push(c);
            }
            i = i + 1;
        }
        proof {
            assert(sl@.take(n as int) =~= sl@);
            sl@.lemma_filter_len(|c: char| is_kept_char(c));
        }
        HeaplessString { s: chars_to_string(&kept) }
    }
}

} // verus!
