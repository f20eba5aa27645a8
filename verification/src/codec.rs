//! Decoders for the raw attribute buffers.
//!
//! Every attribute arrives as a byte buffer.  Depending on the attribute it
//! is read as one little-endian integer, as a packed array of little-endian
//! integers, or as a zero-terminated text whose content is UTF-8, optionally
//! split into a list at a separator byte.

use vstd::prelude::*;
use vstd::utf8::{
    decode_utf8, is_char_boundary, length_of_first_scalar, valid_utf8, valid_utf8_concat,
    valid_utf8_split,
};

verus! {

/// The space byte, the separator of an extension list.
pub const SPACE: u8 = 32;

/// The semicolon byte, the separator of a kernel-name list.
pub const SEMICOLON: u8 = 59;

/// Modulus for 32-bit decoding.
pub const MOD32: u64 = 0x1_0000_0000;

/// Modulus for 64-bit decoding.
pub const MOD64: u128 = 0x1_0000_0000_0000_0000;

/// The little-endian integer value of `s`: byte `i` contributes
/// `s[i] * 256^i`.
pub open spec fn le_val(s: Seq<u8>) -> int
    decreases s.len(),
{
    if s.len() == 0 {
        0
    } else {
        s[0] + 256 * le_val(s.skip(1))
    }
}

/// `256^n`, the number of values of an `n`-byte buffer.
pub open spec fn pow256(n: nat) -> int
    decreases n,
{
    if n == 0 {
        1
    } else {
        256 * pow256((n - 1) as nat)
    }
}

/// The value of a buffer fits in its own width.
pub proof fn lemma_le_val_bound(s: Seq<u8>)
    ensures
        0 <= le_val(s) < pow256(s.len()),
    decreases s.len(),
{
    if s.len() > 0 {
        lemma_le_val_bound(s.skip(1));
    }
}

/// The 32-bit read of a buffer: its value, reduced at the register width.
pub open spec fn le32(s: Seq<u8>) -> int {
    le_val(s) % (MOD32 as int)
}

/// The 64-bit read of a buffer: its value, reduced at the register width.
pub open spec fn le64(s: Seq<u8>) -> int {
    le_val(s) % (MOD64 as int)
}

/// One step of decoding: consuming a byte in a register that wraps at `m`
/// reads the same value as reducing the whole buffer once.
proof fn lemma_le_step(b: u8, rest: int, m: int)
    requires
        0 < m,
    ensures
        (b + 256 * (rest % m)) % m == (b + 256 * rest) % m,
{
    vstd::arithmetic::div_mod::lemma_mul_mod_noop_right(256, rest, m);
    vstd::arithmetic::div_mod::lemma_add_mod_noop_right(b as int, 256 * (rest % m), m);
    vstd::arithmetic::div_mod::lemma_add_mod_noop_right(b as int, 256 * rest, m);
}

/// Decodes `bytes` as one little-endian 32-bit integer; bytes past the
/// register width wrap.
pub fn le_u32_of(bytes: &Vec<u8>) -> (r: u32)
    ensures
        r == le32(bytes@),
{
    let mut i: usize = bytes.len();
    let mut acc: u64 = 0;
    while i > 0
        invariant
            i <= bytes.len(),
            acc < MOD32,
            acc == le_val(bytes@.skip(i as int)) % (MOD32 as int),
        decreases i,
    {
        i = i - 1;
        proof {
            assert(bytes@.skip(i as int).skip(1) =~= bytes@.skip(i + 1));
            assert(bytes@.skip(i as int)[0] == bytes@[i as int]);
            lemma_le_step(bytes@[i as int], le_val(bytes@.skip(i + 1)), MOD32 as int);
        }
        acc = (bytes[i] as u64 + 256 * acc) % MOD32;
    }
    proof {
        assert(bytes@.skip(0) =~= bytes@);
    }
    acc as u32
}

/// Decodes `bytes` as one little-endian 64-bit integer; bytes past the
/// register width wrap.
pub fn le_u64_of(bytes: &Vec<u8>) -> (r: u64)
    ensures
        r == le64(bytes@),
{
    let mut i: usize = bytes.len();
    let mut acc: u128 = 0;
    while i > 0
        invariant
            i <= bytes.len(),
            acc < MOD64,
            acc == le_val(bytes@.skip(i as int)) % (MOD64 as int),
        decreases i,
    {
        i = i - 1;
        proof {
            assert(bytes@.skip(i as int).skip(1) =~= bytes@.skip(i + 1));
            assert(bytes@.skip(i as int)[0] == bytes@[i as int]);
            lemma_le_step(bytes@[i as int], le_val(bytes@.skip(i + 1)), MOD64 as int);
        }
        acc = (bytes[i] as u128 + 256 * acc) % MOD64;
    }
    proof {
        assert(bytes@.skip(0) =~= bytes@);
    }
    acc as u64
}

/// The packed array read of `s`: one 64-bit little-endian integer per
/// 8-byte chunk, a trailing partial chunk ignored.  An 8-byte value needs
/// no reduction.
pub open spec fn le_chunks(s: Seq<u8>) -> Seq<int> {
    Seq::new(s.len() / 8, |i: int| le_val(s.subrange(8 * i, 8 * i + 8)))
}

/// Decodes `bytes` as a packed array of little-endian 64-bit integers.
pub fn le_u64s_of(bytes: &Vec<u8>) -> (r: Vec<u64>)
    ensures
        r@.len() == le_chunks(bytes@).len(),
        forall|i: int| 0 <= i < r@.len() ==> r@[i] == le_chunks(bytes@)[i],
{
    let mut r: Vec<u64> = Vec::new();
    let n: usize = bytes.len() / 8;
    let mut j: usize = 0;
    while j < n
        invariant
            n == bytes@.len() / 8,
            j <= n,
            r@.len() == j,
            forall|i: int| 0 <= i < j ==> r@[i] == le_chunks(bytes@)[i],
        decreases n - j,
    {
        let _total: usize = bytes.len();
        proof {
            assert(bytes@.len() <= usize::MAX);
            assert(8 * (bytes@.len() / 8) <= bytes@.len());
            assert(8 * (j as int) + 8 <= 8 * (n as int));
        }
        let base: usize = j * 8;
        let mut chunk: Vec<u8> = Vec::new();
        let mut k: usize = 0;
        while k < 8
            invariant
                k <= 8,
                base == 8 * j,
                base + 8 <= bytes@.len(),
                chunk@.len() == k,
                forall|i: int| 0 <= i < k ==> chunk@[i] == bytes@[base + i],
            decreases 8 - k,
        {
            chunk.push(bytes[base + k]);
            k = k + 1;
        }
        proof {
            assert(chunk@ =~= bytes@.subrange(8 * j as int, 8 * j as int + 8));
            lemma_le_val_bound(chunk@);
            reveal_with_fuel(pow256, 9);
            assert(pow256(8) == MOD64);
        }
        let v = le_u64_of(&chunk);
        r.push(v);
        j = j + 1;
    }
    r
}

/// A well-formed text buffer: nonempty, ending in the zero byte that
/// terminates it, with content that is valid UTF-8.
pub open spec fn is_text(s: Seq<u8>) -> bool {
    s.len() > 0 && s.last() == 0 && valid_utf8(s.take(s.len() - 1))
}

/// The text held in a well-formed text buffer: everything before the
/// final zero byte, decoded as UTF-8.
pub open spec fn text_of(s: Seq<u8>) -> Seq<char> {
    decode_utf8(s.take(s.len() - 1))
}

/// Relies on `String::from_utf8_lossy`: bytes that are valid UTF-8 become
/// the text whose characters they encode, unaltered.
#[verifier::external_body]
fn utf8_text(bytes: &Vec<u8>) -> (r: String)
    requires
        valid_utf8(bytes@),
    ensures
        r@ == decode_utf8(bytes@),
{
    String::from_utf8_lossy(bytes).into_owned()
}

/// The content of a well-formed text buffer, as raw bytes: everything
/// before the final zero byte.
pub fn text_content(bytes: &Vec<u8>) -> (r: Vec<u8>)
    requires
        is_text(bytes@),
    ensures
        r@ == bytes@.take(bytes@.len() - 1),
{
    let mut r: Vec<u8> = Vec::new();
    let n: usize = bytes.len() - 1;
    let mut i: usize = 0;
    while i < n
        invariant
            n == bytes@.len() - 1,
            i <= n,
            r@ =~= bytes@.take(i as int),
        decreases n - i,
    {
        r.push(bytes[i]);
        i = i + 1;
    }
    r
}

/// The text held in a well-formed text buffer.
pub fn text_string(bytes: &Vec<u8>) -> (r: String)
    requires
        is_text(bytes@),
    ensures
        r@ == text_of(bytes@),
{
    let content = text_content(bytes);
    utf8_text(&content)
}

/// The texts listed in a well-formed text buffer: its content cut at
/// every occurrence of `sep`, each piece decoded as UTF-8.
pub open spec fn text_pieces(s: Seq<u8>, sep: u8) -> Seq<Seq<char>> {
    split_at(s.take(s.len() - 1), sep).map_values(|p: Seq<u8>| decode_utf8(p))
}

/// Cuts the content of a well-formed text buffer at `sep` and decodes
/// each piece.
pub fn text_list(bytes: &Vec<u8>, sep: u8) -> (r: Vec<String>)
    requires
        is_text(bytes@),
        sep < 0x80,
    ensures
        r@.map_values(|p: String| p@) == text_pieces(bytes@, sep),
{
    let content = text_content(bytes);
    let pieces = split_on(&content, sep);
    proof {
        lemma_split_pieces_valid(content@, sep);
        assert forall|k: int| 0 <= k < pieces@.len() implies valid_utf8(
            (#[trigger] pieces@[k])@,
        ) by {
            assert(pieces@.map_values(|p: Vec<u8>| p@)[k] == pieces@[k]@);
        }
    }
    let mut r: Vec<String> = Vec::new();
    let mut i: usize = 0;
    while i < pieces.len()
        invariant
            i <= pieces@.len(),
            r@.len() == i,
            forall|k: int|
                0 <= k < pieces@.len() ==> valid_utf8((#[trigger] pieces@[k])@),
            forall|k: int| 0 <= k < i ==> r@[k]@ == decode_utf8(pieces@[k]@),
        decreases pieces@.len() - i,
    {
        let s = utf8_text(&pieces[i]);
        r.push(s);
        i = i + 1;
    }
    proof {
        assert(r@.map_values(|p: String| p@) =~~= text_pieces(bytes@, sep));
    }
    r
}

/// The pieces of `s` cut at every occurrence of `sep`: always one piece
/// more than there are separators, and an empty `s` gives one empty piece.
pub open spec fn split_at(s: Seq<u8>, sep: u8) -> Seq<Seq<u8>>
    decreases s.len(),
{
    if s.len() == 0 {
        seq![Seq::<u8>::empty()]
    } else if s[0] == sep {
        seq![Seq::<u8>::empty()] + split_at(s.skip(1), sep)
    } else {
        let rest = split_at(s.skip(1), sep);
        seq![seq![s[0]] + rest[0]] + rest.skip(1)
    }
}

/// A buffer free of the separator is one single piece.
proof fn lemma_split_whole(s: Seq<u8>, sep: u8)
    requires
        !s.contains(sep),
    ensures
        split_at(s, sep) =~~= seq![s],
    decreases s.len(),
{
    if s.len() > 0 {
        assert(s[0] != sep);
        assert(!s.skip(1).contains(sep)) by {
            assert forall|i: int| 0 <= i < s.skip(1).len() implies s.skip(1)[i] != sep by {
                assert(s.skip(1)[i] == s[i + 1]);
            }
        }
        lemma_split_whole(s.skip(1), sep);
        assert(seq![s[0]] + s.skip(1) =~= s);
    }
}

/// Cutting at the first separator: a separator-free prefix is the first
/// piece, and the rest splits on its own.
proof fn lemma_split_step(p: Seq<u8>, r: Seq<u8>, sep: u8)
    requires
        !p.contains(sep),
    ensures
        split_at(p + seq![sep] + r, sep) =~~= seq![p] + split_at(r, sep),
    decreases p.len(),
{
    let s = p + seq![sep] + r;
    if p.len() == 0 {
        assert(s =~= seq![sep] + r);
        assert(s[0] == sep);
        assert(s.skip(1) =~= r);
    } else {
        assert(s[0] == p[0]);
        assert(p[0] != sep);
        assert(!p.skip(1).contains(sep)) by {
            assert forall|i: int| 0 <= i < p.skip(1).len() implies p.skip(1)[i] != sep by {
                assert(p.skip(1)[i] == p[i + 1]);
            }
        }
        lemma_split_step(p.skip(1), r, sep);
        assert(s.skip(1) =~= p.skip(1) + seq![sep] + r);
        let rest = split_at(s.skip(1), sep);
        assert(rest[0] == p.skip(1));
        assert(seq![p[0]] + p.skip(1) =~= p);
        assert(rest.skip(1) =~~= split_at(r, sep));
    }
}

/// A cut buffer always has at least one piece.
proof fn lemma_split_len(s: Seq<u8>, sep: u8)
    ensures
        split_at(s, sep).len() >= 1,
{
    if s.len() == 0 {
    } else if s[0] == sep {
    } else {
    }
}

/// A separator-free prefix extends the first piece of what follows it.
proof fn lemma_split_prefix(p: Seq<u8>, r: Seq<u8>, sep: u8)
    requires
        !p.contains(sep),
    ensures
        split_at(p + r, sep) =~~= seq![p + split_at(r, sep)[0]] + split_at(r, sep).skip(1),
    decreases p.len(),
{
    lemma_split_len(r, sep);
    if p.len() == 0 {
        assert(p + r =~= r);
        assert(p + split_at(r, sep)[0] =~= split_at(r, sep)[0]);
        assert(seq![split_at(r, sep)[0]] + split_at(r, sep).skip(1) =~= split_at(r, sep));
    } else {
        let s = p + r;
        assert(s[0] == p[0]);
        assert(p[0] != sep);
        assert(!p.skip(1).contains(sep)) by {
            assert forall|i: int| 0 <= i < p.skip(1).len() implies p.skip(1)[i] != sep by {
                assert(p.skip(1)[i] == p[i + 1]);
            }
        }
        lemma_split_prefix(p.skip(1), r, sep);
        assert(s.skip(1) =~= p.skip(1) + r);
        let rest = split_at(s.skip(1), sep);
        assert(rest[0] == p.skip(1) + split_at(r, sep)[0]);
        assert(seq![s[0]] + rest[0] =~= p + split_at(r, sep)[0]);
        assert(rest.skip(1) =~~= split_at(r, sep).skip(1));
    }
}

/// Cutting a valid UTF-8 buffer at an ASCII separator leaves every piece
/// valid UTF-8: the separator byte can only stand on a character boundary.
proof fn lemma_split_pieces_valid(s: Seq<u8>, sep: u8)
    requires
        valid_utf8(s),
        sep < 0x80,
    ensures
        forall|i: int|
            0 <= i < split_at(s, sep).len() ==> valid_utf8(#[trigger] split_at(s, sep)[i]),
    decreases s.len(),
{
    if s.len() == 0 {
        assert(valid_utf8(Seq::<u8>::empty()));
    } else {
        let w = length_of_first_scalar(s);
        assert(1 <= w <= s.len());
        assert(is_char_boundary(s, w)) by {
            reveal_with_fuel(is_char_boundary, 2);
        }
        valid_utf8_split(s, w);
        let head = s.subrange(0, w);
        let tail = s.subrange(w, s.len() as int);
        lemma_split_pieces_valid(tail, sep);
        if s[0] == sep {
            assert(w == 1);
            assert(s.skip(1) =~= tail);
            assert forall|i: int|
                0 <= i < split_at(s, sep).len() implies valid_utf8(
                #[trigger] split_at(s, sep)[i],
            ) by {
                if i > 0 {
                    assert(split_at(s, sep)[i] == split_at(tail, sep)[i - 1]);
                }
            }
        } else {
            assert(!head.contains(sep)) by {
                assert forall|i: int| 0 <= i < head.len() implies head[i] != sep by {
                    assert(head[i] == s[i]);
                }
            }
            assert(head + tail =~= s);
            lemma_split_prefix(head, tail, sep);
            lemma_split_len(tail, sep);
            valid_utf8_concat(head, split_at(tail, sep)[0]);
            assert forall|i: int|
                0 <= i < split_at(s, sep).len() implies valid_utf8(
                #[trigger] split_at(s, sep)[i],
            ) by {
                if i == 0 {
                    assert(split_at(s, sep)[0] == head + split_at(tail, sep)[0]);
                } else {
                    assert(split_at(s, sep)[i] == split_at(tail, sep)[i]);
                }
            }
        }
    }
}

/// Cuts `bytes` at every occurrence of `sep`, keeping empty pieces.
pub fn split_on(bytes: &Vec<u8>, sep: u8) -> (r: Vec<Vec<u8>>)
    ensures
        r@.map_values(|p: Vec<u8>| p@) =~~= split_at(bytes@, sep),
        r@.len() >= 1,
{
    let mut done: Vec<Vec<u8>> = Vec::new();
    let mut cur: Vec<u8> = Vec::new();
    let mut i: usize = 0;
    proof {
        assert(cur@ + bytes@.skip(0) =~= bytes@);
        assert(done@.map_values(|p: Vec<u8>| p@) =~= Seq::<Seq<u8>>::empty());
    }
    while i < bytes.len()
        invariant
            i <= bytes@.len(),
            !cur@.contains(sep),
            done@.map_values(|p: Vec<u8>| p@) + split_at(cur@ + bytes@.skip(i as int), sep)
                =~~= split_at(bytes@, sep),
        decreases bytes@.len() - i,
    {
        let ghost prev = cur@ + bytes@.skip(i as int);
        let b = bytes[i];
        if b == sep {
            proof {
                assert(prev =~= cur@ + seq![sep] + bytes@.skip(i + 1));
                lemma_split_step(cur@, bytes@.skip(i + 1), sep);
            }
            let ghost old_done = done@;
            done.push(cur);
            proof {
                assert(done@.map_values(|p: Vec<u8>| p@) =~= old_done.map_values(
                    |p: Vec<u8>| p@,
                ).push(cur@));
            }
            cur = Vec::new();
            proof {
                assert(cur@ + bytes@.skip(i + 1) =~= bytes@.skip(i + 1));
            }
        } else {
            let ghost old_cur = cur@;
            cur.push(b);
            proof {
                assert(cur@ + bytes@.skip(i + 1) =~= prev);
                assert(!cur@.contains(sep)) by {
                    assert forall|k: int| 0 <= k < cur@.len() implies cur@[k] != sep by {
                        if k < old_cur.len() {
                            assert(cur@[k] == old_cur[k]);
                        }
                    }
                }
            }
        }
        i = i + 1;
    }
    proof {
        assert(cur@ + bytes@.skip(i as int) =~= cur@);
        lemma_split_whole(cur@, sep);
    }
    let ghost old_done = done@;
    done.push(cur);
    proof {
        assert(done@.map_values(|p: Vec<u8>| p@) =~= old_done.map_values(|p: Vec<u8>| p@).push(
            cur@,
        ));
    }
    done
}

} // verus!
