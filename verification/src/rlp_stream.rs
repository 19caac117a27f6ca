//! Recursive-length-prefix encoding through the `rlp` crate's `RlpStream`.
//!
//! A stream is modelled by the items it has finished at the top level and by the
//! lists still open, innermost last; the bytes of an item are left to the name
//! `rlp_encoding`.
use vstd::prelude::*;

use crate::primitives::U256;

verus! {

/// An RLP item: a byte string or a list of items.
pub enum RlpItem {
    Bytes(Seq<u8>),
    List(Seq<RlpItem>),
}

/// The big-endian bytes of `n` without leading zeros (empty for zero): the byte
/// string by which RLP encodes an unsigned integer.
pub open spec fn be_bytes(n: nat) -> Seq<u8>
    decreases n,
{
    if n == 0 {
        Seq::empty()
    } else {
        be_bytes(n / 256).push((n % 256) as u8)
    }
}

/// The RLP item of an unsigned integer.
pub open spec fn uint_item(n: nat) -> RlpItem {
    RlpItem::Bytes(be_bytes(n))
}

/// The RLP encoding of an item, as produced by the `rlp` crate.
pub uninterp spec fn rlp_encoding(item: RlpItem) -> Seq<u8>;

/// The concatenated encodings of a sequence of items.
pub open spec fn rlp_concat(items: Seq<RlpItem>) -> Seq<u8>
    decreases items.len(),
{
    if items.len() == 0 {
        Seq::empty()
    } else {
        rlp_concat(items.drop_last()) + rlp_encoding(items.last())
    }
}

#[verifier::external_type_specification]
#[verifier::external_body]
pub struct ExRlpStream(rlp::RlpStream);

/// The items that a stream has finished at the top level, in order.
pub uninterp spec fn rlp_stream_done(s: rlp::RlpStream) -> Seq<RlpItem>;

/// The items of each list that a stream has begun and not finalized, outermost first.
pub uninterp spec fn rlp_stream_open(s: rlp::RlpStream) -> Seq<Seq<RlpItem>>;

/// The state after an item is appended: it joins the innermost open list, or the
/// finished top-level items when no list is open.
pub open spec fn pushed(
    done: Seq<RlpItem>,
    open: Seq<Seq<RlpItem>>,
    item: RlpItem,
) -> (Seq<RlpItem>, Seq<Seq<RlpItem>>) {
    if open.len() == 0 {
        (done.push(item), open)
    } else {
        (done, open.update(open.len() - 1, open.last().push(item)))
    }
}

/// Whether stream `s2` is stream `s1` with `item` appended.
pub open spec fn appended(s1: rlp::RlpStream, s2: rlp::RlpStream, item: RlpItem) -> bool {
    (rlp_stream_done(s2), rlp_stream_open(s2)) == pushed(
        rlp_stream_done(s1),
        rlp_stream_open(s1),
        item,
    )
}

/// A new, empty stream.
/// Trusted: calls `RlpStream::new`, which starts with no items and no open list.
#[verifier::external_body]
pub(crate) fn rlp_stream_new() -> (s: rlp::RlpStream)
    ensures
        rlp_stream_done(s) == Seq::<RlpItem>::empty(),
        rlp_stream_open(s) == Seq::<Seq<RlpItem>>::empty(),
{
    rlp::RlpStream::new()
}

/// Opens a list of unknown length.
/// Trusted: calls `RlpStream::begin_unbounded_list`, which pushes a new open list.
#[verifier::external_body]
pub(crate) fn rlp_begin_unbounded_list(s: &mut rlp::RlpStream)
    ensures
        rlp_stream_done(*final(s)) == rlp_stream_done(*old(s)),
        rlp_stream_open(*final(s)) == rlp_stream_open(*old(s)).push(Seq::<RlpItem>::empty()),
{
    s.begin_unbounded_list();
}

/// Closes the innermost open list, which becomes one item of the enclosing list.
/// Trusted: calls `RlpStream::finalize_unbounded_list`, which panics when no list
/// is open; the list was opened by `begin_unbounded_list` in every caller.
#[verifier::external_body]
pub(crate) fn rlp_finalize_unbounded_list(s: &mut rlp::RlpStream)
    requires
        rlp_stream_open(*old(s)).len() > 0,
    ensures
        (rlp_stream_done(*final(s)), rlp_stream_open(*final(s))) == pushed(
            rlp_stream_done(*old(s)),
            rlp_stream_open(*old(s)).drop_last(),
            RlpItem::List(rlp_stream_open(*old(s)).last()),
        ),
{
    s.finalize_unbounded_list();
}

/// Appends a byte string.
/// Trusted: calls `RlpStream::append` with the `Encodable` impl of `&[u8]`.
#[verifier::external_body]
pub(crate) fn rlp_append_bytes(s: &mut rlp::RlpStream, b: &[u8])
    ensures
        appended(*old(s), *final(s), RlpItem::Bytes(b@)),
{
    s.append(&b);
}

/// Appends a 64-bit unsigned integer.
/// Trusted: calls `RlpStream::append` with the `Encodable` impl of `u64`, which
/// encodes the big-endian bytes without leading zeros.
#[verifier::external_body]
pub(crate) fn rlp_append_u64(s: &mut rlp::RlpStream, x: u64)
    ensures
        appended(*old(s), *final(s), uint_item(x as nat)),
{
    s.append(&x);
}

/// Appends a 256-bit unsigned integer.
/// Trusted: calls `RlpStream::append` with the `Encodable` impl of
/// `primitive_types::U256` (impl-rlp), which encodes the big-endian bytes without
/// leading zeros.
#[verifier::external_body]
pub(crate) fn rlp_append_u256(s: &mut rlp::RlpStream, x: &U256)
    ensures
        appended(*old(s), *final(s), uint_item(x@)),
{
    s.append(&ethereum_types::U256(x.0));
}

/// The bytes of a stream whose lists are all closed.
/// Trusted: calls `RlpStream::out`, which panics while a list is open and otherwise
/// returns the encodings of the finished items, in order.
#[verifier::external_body]
pub(crate) fn rlp_out(s: rlp::RlpStream) -> (r: Vec<u8>)
    requires
        rlp_stream_open(s).len() == 0,
    ensures
        r@ == rlp_concat(rlp_stream_done(s)),
        rlp_stream_done(s).len() == 1 ==> r@ == rlp_encoding(rlp_stream_done(s)[0]),
{
    s.out().to_vec()
}

} // verus!
