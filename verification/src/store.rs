//! The attribute store: the raw buffers that the discovery layer fetched
//! for one platform or device, each under its attribute code.

use vstd::prelude::*;

verus! {

/// One fetched attribute: its code and the raw buffer the native
/// interface filled for it.
pub struct InfoEntry {
    pub key: u32,
    pub bytes: Vec<u8>,
}

impl Clone for InfoEntry {
    /// An entry clones to one with the same code and the same buffer.
    fn clone(&self) -> (r: InfoEntry)
        ensures
            r.key == self.key,
            r.bytes@ == self.bytes@,
    {
        InfoEntry { key: self.key, bytes: copy_bytes(&self.bytes) }
    }
}

/// Two stores carry the same attributes: entry by entry, the same code
/// and the same buffer.
pub open spec fn same_entries(a: Seq<InfoEntry>, b: Seq<InfoEntry>) -> bool {
    a.len() == b.len() && forall|i: int|
        0 <= i < a.len() ==> (#[trigger] a[i]).key == b[i].key && a[i].bytes@ == b[i].bytes@
}

/// Equal stores answer every lookup alike.
pub proof fn lemma_same_entries_lookup(a: Seq<InfoEntry>, b: Seq<InfoEntry>, key: u32)
    requires
        same_entries(a, b),
    ensures
        lookup(a, key) == lookup(b, key),
    decreases a.len(),
{
    if a.len() > 0 {
        assert(same_entries(a.skip(1), b.skip(1))) by {
            assert forall|i: int| 0 <= i < a.skip(1).len() implies (#[trigger] a.skip(1)[i]).key
                == b.skip(1)[i].key && a.skip(1)[i].bytes@ == b.skip(1)[i].bytes@ by {
                assert(a.skip(1)[i] == a[i + 1]);
                assert(b.skip(1)[i] == b[i + 1]);
            }
        }
        lemma_same_entries_lookup(a.skip(1), b.skip(1), key);
    }
}

/// Copies an attribute store.
pub fn copy_entries(src: &Vec<InfoEntry>) -> (r: Vec<InfoEntry>)
    ensures
        same_entries(r@, src@),
{
    let mut r: Vec<InfoEntry> = Vec::new();
    let mut i: usize = 0;
    while i < src.len()
        invariant
            i <= src@.len(),
            r@.len() == i,
            forall|k: int|
                0 <= k < i ==> (#[trigger] r@[k]).key == src@[k].key && r@[k].bytes@
                    == src@[k].bytes@,
        decreases src@.len() - i,
    {
        r.push(src[i].clone());
        i = i + 1;
    }
    r
}

/// The buffer stored under `key`: the first entry with that code, or
/// `None` where no entry carries it.
pub open spec fn lookup(entries: Seq<InfoEntry>, key: u32) -> Option<Seq<u8>>
    decreases entries.len(),
{
    if entries.len() == 0 {
        None
    } else if entries[0].key == key {
        Some(entries[0].bytes@)
    } else {
        lookup(entries.skip(1), key)
    }
}

/// Finds the buffer stored under `key`.
pub fn lookup_bytes<'a>(entries: &'a Vec<InfoEntry>, key: u32) -> (r: Option<&'a Vec<u8>>)
    ensures
        match r {
            Some(b) => lookup(entries@, key) == Some(b@),
            None => lookup(entries@, key) is None,
        },
{
    let mut i: usize = 0;
    proof {
        assert(entries@.skip(0) =~= entries@);
    }
    while i < entries.len()
        invariant
            i <= entries@.len(),
            lookup(entries@, key) == lookup(entries@.skip(i as int), key),
        decreases entries@.len() - i,
    {
        proof {
            assert(entries@.skip(i as int)[0] == entries@[i as int]);
            assert(entries@.skip(i as int).skip(1) =~= entries@.skip(i + 1));
        }
        if entries[i].key == key {
            return Some(&entries[i].bytes);
        }
        i = i + 1;
    }
    None
}

/// Copies a raw buffer.
pub fn copy_bytes(src: &Vec<u8>) -> (r: Vec<u8>)
    ensures
        r@ == src@,
{
    let mut r: Vec<u8> = Vec::new();
    let mut i: usize = 0;
    while i < src.len()
        invariant
            i <= src@.len(),
            r@ =~= src@.take(i as int),
        decreases src@.len() - i,
    {
        r.push(src[i]);
        i = i + 1;
    }
    proof {
        assert(src@.take(src@.len() as int) =~= src@);
    }
    r
}

} // verus!
