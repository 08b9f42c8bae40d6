//! A credential whose text never shows in debug output and is wiped when replaced.

use vstd::prelude::*;
use zeroize::Zeroize;

verus! {

/// Calls `zeroize::Zeroize::zeroize` on a `String`: the bytes are overwritten
/// and the string is left empty.
#[verifier::external_body]
pub(crate) fn wipe_text(s: &mut String)
    ensures
        final(s)@ == Seq::<char>::empty(),
{
    s.zeroize();
}

/// Calls `zeroize::Zeroize::zeroize` on a byte vector: the bytes are
/// overwritten and the vector is left empty.
#[verifier::external_body]
pub(crate) fn wipe_bytes(v: &mut Vec<u8>)
    ensures
        final(v)@ == Seq::<u8>::empty(),
{
    v.zeroize();
}

/// A password. It has no `Debug`, so no log line can hold its text.
pub struct Secret {
    text: String,
}

impl View for Secret {
    type V = Seq<char>;

    closed spec fn view(&self) -> Seq<char> {
        self.text@
    }
}

impl Clone for Secret {
    fn clone(&self) -> (r: Self)
        ensures
            r == *self,
    {
        Secret { text: self.text.clone() }
    }
}

impl Secret {
    /// An empty secret.
    #[must_use]
    pub fn new() -> (r: Secret)
        ensures
            r@ == Seq::<char>::empty(),
    {
        Secret { text: String::new() }
    }

    /// A secret with the text of `s`.
    #[must_use]
    pub fn from_string(s: String) -> (r: Secret)
        ensures
            r@ == s@,
    {
        Secret { text: s }
    }

    /// The text itself.
    #[must_use]
    pub fn expose(&self) -> (r: &str)
        ensures
            r@ == self@,
    {
        self.text.as_str()
    }

    /// Whether there is no text.
    #[must_use]
    pub fn is_empty(&self) -> (r: bool)
        ensures
            r == (self@.len() == 0),
    {
        self.text.as_str().is_empty()
    }

    /// Overwrites the text and leaves the secret empty.
    pub fn clear(&mut self)
        ensures
            final(self)@ == Seq::<char>::empty(),
    {
        wipe_text(&mut self.text);
    }
}

/// A secret gives its text back until it is cleared, and none after that.
pub proof fn law_secret(
    text: String,
    secret: &mut Secret,
    made: Secret,
    shown: &str,
    empty: bool,
    empty_after: bool,
)
    requires
        call_ensures(Secret::from_string, (text,), made),
        *old(secret) == made,
        call_ensures(Secret::expose, (&made,), shown),
        call_ensures(Secret::is_empty, (&made,), empty),
        call_ensures(Secret::clear, (secret,), ()),
        call_ensures(Secret::is_empty, (&*final(secret),), empty_after),
    ensures
        shown@ == text@,
        empty <==> text@.len() == 0,
        empty_after,
        final(secret)@.len() == 0,
{
}

} // verus!
