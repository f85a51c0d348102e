//! The match key: a different type from a GTIN, on purpose.
use vstd::prelude::*;
use crate::ascii::{ascii_chars, ascii_str};
use crate::check::ascii_digits;
use crate::gtin14::{key_of, Gtin14};
use vstd::std_specs::convert::FromSpecImpl;

verus! {

/// A check-digit-agnostic key for matching two spellings of one product.
///
/// Fourteen digits, the last always `'0'`. Two values whose first thirteen
/// digits agree share a key, whatever check digit each carries.
///
/// It exists for one measured situation: retailers send weight-based items
/// with the final digit wrong, usually forced to `0`, while the venue's own
/// assortment carries the same thirteen leading digits with the correct check
/// digit. Keying both sides to "first thirteen + `0`" makes them meet. The
/// zeroing is unconditional, so the key is a function of the first thirteen
/// digits alone.
///
/// A key identifies nothing, and the type says so: it has no `Display`, no
/// conversion to a string but [`as_key_str`](GtinKey::as_key_str), no route
/// back to a [`Gtin14`](crate::Gtin14) and no comparison with one.
///
/// Known limitation: in-store PLU codes use the final digit as a product
/// discriminator, so their keys merge different products. This is
/// deliberately not guarded against; grouping keys by distinct GTIN finds
/// every such case.
#[derive(Clone, Copy, PartialEq, Eq, PartialOrd, Ord, Hash, Debug)]
pub struct GtinKey(pub(crate) [u8; 14]);

impl View for GtinKey {
    type V = Seq<char>;

    /// The fourteen characters of the key.
    closed spec fn view(&self) -> Seq<char> {
        ascii_chars(self.0@)
    }
}

impl GtinKey {
    /// Fourteen ASCII digits, the last of them `'0'`.
    #[verifier::type_invariant]
    pub(crate) closed spec fn is_key(self) -> bool {
        ascii_digits(self.0@, 14) && self.0@[13] == 48
    }

    /// The key of fourteen canonical digits: the first thirteen, then `'0'`.
    /// Unconditional, whatever the last digit was.
    pub(crate) fn zeroing_last(digits: [u8; 14]) -> (k: GtinKey)
        requires
            ascii_digits(digits@, 14),
        ensures
            k@ == ascii_chars(digits@).update(13, '0'),
    {
        let mut out = digits;
        out[13] = 48u8;
        let k = GtinKey(out);
        proof {
            assert(k@ =~= ascii_chars(digits@).update(13, '0'));
        }
        k
    }

    /// The key as fourteen characters. Anything that stores or shows the
    /// result is storing or showing a match key.
    pub fn as_key_str(&self) -> (s: &str)
        ensures
            s@ == self@,
    {
        proof {
            use_type_invariant(self);
        }
        ascii_str(self.0.as_slice())
    }
}

/// Two keys that read the same are the same key: equal key strings mean
/// equal keys.
pub proof fn lemma_view_determines_key(a: GtinKey, b: GtinKey)
    requires
        a@ == b@,
    ensures
        a == b,
{
    broadcast use vstd::array::group_array_axioms;
    assert forall|i: int| 0 <= i < 14 implies a.0@[i] == b.0@[i] by {
        assert(a@[i] == b@[i]);
        assert(a@[i] == a.0@[i] as char);
        assert(b@[i] == b.0@[i] as char);
        assert((a.0@[i] as char) as u8 == a.0@[i]);
        assert((b.0@[i] as char) as u8 == b.0@[i]);
    }
    assert(a.0@ =~= b.0@);
    assert(a.0 == b.0);
}

/// The key of a GTIN, the same as [`Gtin14::key`].
impl From<Gtin14> for GtinKey {
    fn from(gtin: Gtin14) -> (k: GtinKey) {
        let k = gtin.key();
        proof {
            let chosen = choose|c: GtinKey| c@ == key_of(gtin@);
            lemma_view_determines_key(k, chosen);
        }
        k
    }
}

impl FromSpecImpl<Gtin14> for GtinKey {
    open spec fn obeys_from_spec() -> bool {
        true
    }

    open spec fn from_spec(gtin: Gtin14) -> GtinKey {
        choose|k: GtinKey| k@ == key_of(gtin@)
    }
}

/// The key of a GTIN, the same as [`Gtin14::key`].
impl From<&Gtin14> for GtinKey {
    fn from(gtin: &Gtin14) -> (k: GtinKey) {
        let k = gtin.key();
        proof {
            let chosen = choose|c: GtinKey| c@ == key_of(gtin@);
            lemma_view_determines_key(k, chosen);
        }
        k
    }
}

impl FromSpecImpl<&Gtin14> for GtinKey {
    open spec fn obeys_from_spec() -> bool {
        true
    }

    open spec fn from_spec(gtin: &Gtin14) -> GtinKey {
        choose|k: GtinKey| k@ == key_of(gtin@)
    }
}

} // verus!
