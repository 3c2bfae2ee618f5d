//! Reading and writing the fixed-width fields of commands and records.
//!
//! Integers are little-endian; a signed timestamp is stored as the unsigned
//! integer with the same bits; an address is its 32 bytes; a list is its
//! items one after the other.

use vstd::prelude::*;
use vstd::bytes::spec_u32_from_le_bytes;
use vstd::bytes::spec_u64_from_le_bytes;
use vstd::bytes::spec_u64_to_le_bytes;
use vstd::bytes::u32_from_le_bytes;
use vstd::bytes::u64_from_le_bytes;
use vstd::bytes::u64_to_le_bytes;
use vstd::bytes::lemma_auto_spec_u64_to_from_le_bytes;
use vstd::slice::slice_subrange;
use crate::address::Address;
use crate::address::addresses_view;

verus! {

/// The signed integer with the same 64 bits as `x`.
pub open spec fn signed_of(x: u64) -> i64 {
    if x <= 0x7fff_ffff_ffff_ffff {
        x as i64
    } else {
        (x - 0x1_0000_0000_0000_0000) as i64
    }
}

/// The unsigned integer with the same 64 bits as `d`.
pub open spec fn unsigned_of(d: i64) -> u64 {
    if d >= 0 {
        d as u64
    } else {
        (d + 0x1_0000_0000_0000_0000) as u64
    }
}

/// The little-endian integer in the 8 bytes of `s` that start at `at`.
pub open spec fn le_u64_at(s: Seq<u8>, at: int) -> u64 {
    spec_u64_from_le_bytes(s.subrange(at, at + 8))
}

/// The bytes of a list of amounts: 8 little-endian bytes each, in order.
pub open spec fn amounts_bytes(amounts: Seq<u64>) -> Seq<u8> {
    Seq::new(8 * amounts.len(), |k: int| spec_u64_to_le_bytes(amounts[k / 8])[k % 8])
}

/// The signed integer with the same bits as `x`.
pub fn to_signed(x: u64) -> (d: i64)
    ensures
        d == signed_of(x),
{
    if x <= 0x7fff_ffff_ffff_ffff {
        x as i64
    } else {
        let low: u64 = x - 0x8000_0000_0000_0000;
        i64::MIN + (low as i64)
    }
}

/// The unsigned integer with the same bits as `d`.
pub fn to_unsigned(d: i64) -> (x: u64)
    ensures
        x == unsigned_of(d),
{
    if d >= 0 {
        d as u64
    } else {
        let low: i64 = d - i64::MIN;
        (low as u64) + 0x8000_0000_0000_0000
    }
}

/// Turning a signed integer into the unsigned one with the same bits and
/// back gives the integer.
pub proof fn lemma_signed_unsigned(d: i64)
    ensures
        signed_of(unsigned_of(d)) == d,
{
}

/// Appends the bytes of `tail` to `out`.
pub fn push_all(out: &mut Vec<u8>, tail: &[u8])
    ensures
        final(out)@ == old(out)@ + tail@,
{
    let mut i: usize = 0;
    while i < tail.len()
        invariant
            i <= tail@.len(),
            out@ == old(out)@ + tail@.subrange(0, i as int),
        decreases tail@.len() - i,
    {
        out.push(tail[i]);
        assert(out@ =~= old(out)@ + tail@.subrange(0, i + 1));
        i += 1;
    }
    assert(tail@.subrange(0, tail@.len() as int) =~= tail@);
}

/// Appending one amount to a list appends its 8 bytes to the list's bytes.
pub proof fn lemma_amounts_bytes_push(amounts: Seq<u64>, amount: u64)
    ensures
        amounts_bytes(amounts.push(amount)) == amounts_bytes(amounts) + spec_u64_to_le_bytes(amount),
{
    lemma_auto_spec_u64_to_from_le_bytes();
    let left = amounts_bytes(amounts.push(amount));
    let right = amounts_bytes(amounts) + spec_u64_to_le_bytes(amount);
    assert(left.len() == right.len());
    assert forall|k: int| 0 <= k < left.len() implies left[k] == right[k] by {
        if k < 8 * amounts.len() {
            assert(k / 8 < amounts.len());
            assert(amounts.push(amount)[k / 8] == amounts[k / 8]);
        } else {
            assert(k / 8 == amounts.len());
            assert(k % 8 == k - 8 * amounts.len());
        }
    }
    assert(left =~= right);
}

/// The little-endian 32-bit integer in the 4 bytes of `s` that start at `at`.
pub open spec fn le_u32_at(s: Seq<u8>, at: int) -> u32 {
    spec_u32_from_le_bytes(s.subrange(at, at + 4))
}

/// The `n` amounts stored from `at` on, 8 bytes each.
pub open spec fn amounts_at(s: Seq<u8>, at: int, n: int) -> Seq<u64> {
    Seq::new(n as nat, |i: int| le_u64_at(s, at + 8 * i))
}

/// The `n` addresses stored from `at` on, 32 bytes each.
pub open spec fn addresses_at(s: Seq<u8>, at: int, n: int) -> Seq<Seq<u8>> {
    Seq::new(n as nat, |i: int| s.subrange(at + 32 * i, at + 32 * i + 32))
}

/// The bytes of a list of addresses, 32 bytes each, in order.
pub open spec fn addresses_bytes(list: Seq<Seq<u8>>) -> Seq<u8> {
    Seq::new(32 * list.len(), |k: int| list[k / 32][k % 32])
}

/// Whether every item of a list is 32 bytes long, as an address is.
pub open spec fn all_addresses(list: Seq<Seq<u8>>) -> bool {
    forall|i: int| 0 <= i < list.len() ==> (#[trigger] list[i]).len() == 32
}

/// The byte that stores a flag.
pub open spec fn flag_byte(flag: bool) -> u8 {
    if flag {
        1
    } else {
        0
    }
}

/// Appending one address to a list appends its 32 bytes to the list's bytes.
pub proof fn lemma_addresses_bytes_push(list: Seq<Seq<u8>>, address: Seq<u8>)
    requires
        address.len() == 32,
    ensures
        addresses_bytes(list.push(address)) == addresses_bytes(list) + address,
{
    let left = addresses_bytes(list.push(address));
    let right = addresses_bytes(list) + address;
    assert(left.len() == right.len());
    assert forall|k: int| 0 <= k < left.len() implies left[k] == right[k] by {
        if k < 32 * list.len() {
            assert(k / 32 < list.len());
            assert(list.push(address)[k / 32] == list[k / 32]);
        } else {
            assert(k / 32 == list.len());
            assert(k % 32 == k - 32 * list.len());
        }
    }
    assert(left =~= right);
}

/// Reading back a list of amounts from where its bytes were written gives
/// the list.
pub proof fn lemma_amounts_at_bytes(s: Seq<u8>, at: int, amounts: Seq<u64>)
    requires
        0 <= at,
        at + 8 * amounts.len() <= s.len(),
        s.subrange(at, at + 8 * amounts.len()) == amounts_bytes(amounts),
    ensures
        amounts_at(s, at, amounts.len() as int) == amounts,
{
    lemma_auto_spec_u64_to_from_le_bytes();
    let n = amounts.len() as int;
    let whole = s.subrange(at, at + 8 * n);
    assert forall|i: int| 0 <= i < n implies le_u64_at(s, at + 8 * i) == amounts[i] by {
        let piece = s.subrange(at + 8 * i, at + 8 * i + 8);
        assert forall|j: int| 0 <= j < 8 implies piece[j] == spec_u64_to_le_bytes(amounts[i])[j] by {
            assert(piece[j] == whole[8 * i + j]);
            assert((8 * i + j) / 8 == i);
            assert((8 * i + j) % 8 == j);
        }
        assert(piece =~= spec_u64_to_le_bytes(amounts[i]));
    }
    assert(amounts_at(s, at, n) =~= amounts);
}

/// Reading back a list of addresses from where its bytes were written gives
/// the list.
pub proof fn lemma_addresses_at_bytes(s: Seq<u8>, at: int, list: Seq<Seq<u8>>)
    requires
        0 <= at,
        at + 32 * list.len() <= s.len(),
        all_addresses(list),
        s.subrange(at, at + 32 * list.len()) == addresses_bytes(list),
    ensures
        addresses_at(s, at, list.len() as int) == list,
{
    let n = list.len() as int;
    let whole = s.subrange(at, at + 32 * n);
    assert forall|i: int| 0 <= i < n implies s.subrange(at + 32 * i, at + 32 * i + 32) == list[i] by {
        let piece = s.subrange(at + 32 * i, at + 32 * i + 32);
        assert forall|j: int| 0 <= j < 32 implies piece[j] == list[i][j] by {
            assert(piece[j] == whole[32 * i + j]);
            assert((32 * i + j) / 32 == i);
            assert((32 * i + j) % 32 == j);
        }
        assert(piece =~= list[i]);
    }
    assert(addresses_at(s, at, n) =~= list);
}

/// Appends an amount as 8 little-endian bytes.
pub fn put_u64(out: &mut Vec<u8>, x: u64)
    ensures
        final(out)@ == old(out)@ + spec_u64_to_le_bytes(x),
{
    let bytes = u64_to_le_bytes(x);
    push_all(out, bytes.as_slice());
}

/// Appends an address as its 32 bytes.
pub fn put_address(out: &mut Vec<u8>, a: &Address)
    ensures
        final(out)@ == old(out)@ + a@,
{
    let bytes = a.to_vec();
    push_all(out, bytes.as_slice());
}

/// Appends a list of addresses, 32 bytes each.
pub fn put_addresses(out: &mut Vec<u8>, list: &Vec<Address>)
    ensures
        final(out)@ == old(out)@ + addresses_bytes(addresses_view(list)),
{
    let mut i: usize = 0;
    assert(addresses_bytes(addresses_view(list).subrange(0, 0)) =~= Seq::<u8>::empty());
    assert(out@ =~= old(out)@ + Seq::<u8>::empty());
    while i < list.len()
        invariant
            i <= list@.len(),
            out@ == old(out)@ + addresses_bytes(addresses_view(list).subrange(0, i as int)),
        decreases list@.len() - i,
    {
        let ghost before = out@;
        put_address(out, &list[i]);
        proof {
            let head = addresses_view(list).subrange(0, i as int);
            lemma_addresses_bytes_push(head, list@[i as int]@);
            assert(head.push(list@[i as int]@) =~= addresses_view(list).subrange(0, i + 1));
            assert(out@ =~= old(out)@ + addresses_bytes(addresses_view(list).subrange(0, i + 1)));
        }
        i += 1;
    }
    assert(addresses_view(list).subrange(0, list@.len() as int) =~= addresses_view(list));
}

/// Appends a list of amounts, 8 little-endian bytes each.
pub fn put_amounts(out: &mut Vec<u8>, amounts: &Vec<u64>)
    ensures
        final(out)@ == old(out)@ + amounts_bytes(amounts@),
{
    let mut i: usize = 0;
    assert(amounts_bytes(amounts@.subrange(0, 0)) =~= Seq::<u8>::empty());
    assert(out@ =~= old(out)@ + Seq::<u8>::empty());
    while i < amounts.len()
        invariant
            i <= amounts@.len(),
            out@ == old(out)@ + amounts_bytes(amounts@.subrange(0, i as int)),
        decreases amounts@.len() - i,
    {
        put_u64(out, amounts[i]);
        proof {
            let head = amounts@.subrange(0, i as int);
            lemma_amounts_bytes_push(head, amounts@[i as int]);
            assert(head.push(amounts@[i as int]) =~= amounts@.subrange(0, i + 1));
            assert(out@ =~= old(out)@ + amounts_bytes(amounts@.subrange(0, i + 1)));
        }
        i += 1;
    }
    assert(amounts@.subrange(0, amounts@.len() as int) =~= amounts@);
}

/// Reads the amount stored in the 8 bytes from `at` on.
pub(crate) fn read_u64(data: &[u8], at: usize) -> (x: u64)
    requires
        at + 8 <= data@.len(),
    ensures
        x == le_u64_at(data@, at as int),
{
    let _len = data.len();
    u64_from_le_bytes(slice_subrange(data, at, at + 8))
}

/// Reads the 32-bit count stored in the 4 bytes from `at` on.
pub(crate) fn read_u32(data: &[u8], at: usize) -> (x: u32)
    requires
        at + 4 <= data@.len(),
    ensures
        x == le_u32_at(data@, at as int),
{
    let _len = data.len();
    u32_from_le_bytes(slice_subrange(data, at, at + 4))
}

/// Reads the address stored in the 32 bytes from `at` on.
pub(crate) fn read_address(data: &[u8], at: usize) -> (a: Address)
    requires
        at + 32 <= data@.len(),
    ensures
        a@ == data@.subrange(at as int, at + 32),
{
    Address::read(data, at)
}

/// Reads the `n` addresses stored from `at` on.
pub(crate) fn read_addresses(data: &[u8], at: usize, n: usize) -> (list: Vec<Address>)
    requires
        at + 32 * n <= data@.len(),
    ensures
        addresses_view(&list) == addresses_at(data@, at as int, n as int),
{
    let _len = data.len();
    let mut list: Vec<Address> = Vec::new();
    let mut i: usize = 0;
    while i < n
        invariant
            i <= n,
            data@.len() <= usize::MAX,
            at + 32 * n <= data@.len(),
            list@.len() == i,
            forall|j: int| 0 <= j < i ==> (#[trigger] list@[j])@ == data@.subrange(at + 32 * j, at + 32 * j + 32),
        decreases n - i,
    {
        assert(32 * i + 32 <= 32 * n) by (nonlinear_arith)
            requires
                i < n,
        ;
        list.push(read_address(data, at + 32 * i));
        i += 1;
    }
    assert(addresses_view(&list) =~= addresses_at(data@, at as int, n as int));
    list
}

/// Reads the `n` amounts stored from `at` on.
pub(crate) fn read_amounts(data: &[u8], at: usize, n: usize) -> (amounts: Vec<u64>)
    requires
        at + 8 * n <= data@.len(),
    ensures
        amounts@ == amounts_at(data@, at as int, n as int),
{
    let _len = data.len();
    let mut amounts: Vec<u64> = Vec::new();
    let mut i: usize = 0;
    while i < n
        invariant
            i <= n,
            data@.len() <= usize::MAX,
            at + 8 * n <= data@.len(),
            amounts@.len() == i,
            forall|j: int| 0 <= j < i ==> amounts@[j] == le_u64_at(data@, at + 8 * j),
        decreases n - i,
    {
        assert(8 * i + 8 <= 8 * n) by (nonlinear_arith)
            requires
                i < n,
        ;
        amounts.push(read_u64(data, at + 8 * i));
        i += 1;
    }
    assert(amounts@ =~= amounts_at(data@, at as int, n as int));
    amounts
}

} // verus!
