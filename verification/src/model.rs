//! Helpers for speaking of messages and of sequences of messages by their views.

use vstd::prelude::*;

verus! {

/// The views of the items of a sequence, in order.
pub open spec fn views<T: View>(items: Seq<T>) -> Seq<T::V> {
    Seq::new(items.len(), |i: int| items[i]@)
}

/// The view of what an optional part holds, if it is there.
pub open spec fn option_view<T: View>(part: Option<T>) -> Option<T::V> {
    match part {
        Some(inner) => Some(inner@),
        None => None,
    }
}

/// A message that has a counterpart of another type with the same content.
pub trait Twin<W: View<V = <Self as View>::V>>: View {
    /// The counterpart of this message.
    fn twin(&self) -> (w: W)
        ensures
            w@ == self@,
    ;
}

/// The counterparts of a list of messages, in order.
pub fn twins<T: Twin<W>, W: View<V = <T as View>::V>>(items: &Vec<T>) -> (out: Vec<W>)
    ensures
        views(out@) == views(items@),
{
    let mut out: Vec<W> = Vec::new();
    let mut i: usize = 0;
    while i < items.len()
        invariant
            i <= items.len(),
            out.len() == i,
            forall|k: int| 0 <= k < i ==> out@[k]@ == items@[k]@,
        decreases items.len() - i,
    {
        out.push(items[i].twin());
        i += 1;
    }
    assert(views(out@) =~= views(items@));
    out
}

/// A copy of a byte string.
pub fn copy_bytes(bytes: &Vec<u8>) -> (copy: Vec<u8>)
    ensures
        copy@ == bytes@,
{
    let copy = bytes.clone();
    assert(copy@ =~= bytes@);
    copy
}

} // verus!
