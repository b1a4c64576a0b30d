use vstd::prelude::*;
use vstd::string::StringExecFns;
use vstd::utf8::{decode_utf8, valid_utf8};

verus! {

/// The separator between consumed messages in a read.
pub const MESSAGE_SEPARATOR: &'static str = " : ";

/// `parts` joined with `sep` between each two neighbours.
pub open spec fn join(parts: Seq<Seq<char>>, sep: Seq<char>) -> Seq<char>
    decreases parts.len(),
{
    if parts.len() == 0 {
        Seq::empty()
    } else if parts.len() == 1 {
        parts[0]
    } else {
        join(parts.drop_last(), sep) + sep + parts.last()
    }
}

/// The text carried by a record's payload: its UTF-8 decoding, or nothing
/// when there is no payload or it is not UTF-8.
pub open spec fn payload_text(payload: Option<Seq<u8>>) -> Seq<char> {
    match payload {
        Some(b) => if valid_utf8(b) {
            decode_utf8(b)
        } else {
            Seq::empty()
        },
        None => Seq::empty(),
    }
}

/// Relies on `std::str::from_utf8`: succeeds exactly on valid UTF-8 and then
/// gives the decoded characters.
#[verifier::external_body]
fn text_from_utf8(b: &[u8]) -> (r: Option<String>)
    ensures
        r is Some <==> valid_utf8(b@),
        r matches Some(s) ==> s@ == decode_utf8(b@),
{
    match std::str::from_utf8(b) {
        Ok(s) => Some(s.to_string()),
        Err(_) => None,
    }
}

/// The broker-consuming store: the bodies of consumed records, in the order
/// of delivery.
#[derive(Debug)]
pub struct VecStoreGetter {
    vec_store: Vec<String>,
}

impl View for VecStoreGetter {
    type V = Seq<Seq<char>>;

    closed spec fn view(&self) -> Seq<Seq<char>> {
        self.vec_store@.map_values(|s: String| s@)
    }
}

impl VecStoreGetter {
    pub fn from(vec_store: Vec<String>) -> (r: VecStoreGetter)
        ensures
            r@ == vec_store@.map_values(|s: String| s@),
    {
        VecStoreGetter { vec_store }
    }

    pub fn new() -> (r: VecStoreGetter)
        ensures
            r@ == Seq::<Seq<char>>::empty(),
    {
        let r = VecStoreGetter { vec_store: Vec::new() };
        assert(r@ =~= Seq::<Seq<char>>::empty());
        r
    }

    pub fn len(&self) -> (r: usize)
        ensures
            r == self@.len(),
    {
        self.vec_store.len()
    }

    /// Appends one body.
    pub fn push_message(&mut self, body: String)
        ensures
            final(self)@ == old(self)@.push(body@),
    {
        self.vec_store.push(body);
        assert(final(self)@ =~= old(self)@.push(body@));
    }

    /// Every consumed body, joined with the separator.
    pub fn get_message(&self) -> (r: String)
        ensures
            r@ == join(self@, MESSAGE_SEPARATOR@),
    {
        let mut r = String::new();
        let mut i: usize = 0;
        proof {
            reveal_strlit(" : ");
        }
        while i < self.vec_store.len()
            invariant
                0 <= i <= self.vec_store.len(),
                r@ == join(self@.take(i as int), MESSAGE_SEPARATOR@),
            decreases self.vec_store.len() - i,
        {
            if i > 0 {
                r.append(MESSAGE_SEPARATOR);
            }
            r.append(self.vec_store[i].as_str());
            proof {
                let t = self@.take(i + 1);
                assert(t.drop_last() =~= self@.take(i as int));
                if i == 0 {
                    assert(r@ =~= t[0]);
                }
            }
            i = i + 1;
        }
        assert(self@.take(i as int) =~= self@);
        r
    }
}

/// Records one delivered record: appends the text of its payload (nothing
/// when it cannot be decoded) to the store.
pub fn record_message(vec_store: &mut VecStoreGetter, payload: Option<&[u8]>)
    ensures
        final(vec_store)@ == old(vec_store)@.push(
            payload_text(
                match payload {
                    Some(b) => Some(b@),
                    None => None,
                },
            ),
        ),
{
    let text = match payload {
        Some(b) => match text_from_utf8(b) {
            Some(s) => s,
            None => String::new(),
        },
        None => String::new(),
    };
    vec_store.push_message(text);
}

} // verus!
