//! Marshaling of an argument vector into native byte strings.
//!
//! Each argument must become a null-terminated byte buffer before it can be
//! handed to the runtime's argv-installing entry point. An argument with an
//! interior null byte is rejected up front: a mid-value terminator would
//! silently truncate the string on the native side. Reading a buffer back
//! the way a native consumer does — up to the first null byte — is modeled
//! by [`c_str_read`], and encoding followed by such a read is proved to
//! reproduce the original argument exactly.

use vstd::prelude::*;
use crate::error::Error;

verus! {

/// True iff the argument bytes contain a null byte, which would act as a
/// premature terminator in a native byte string.
pub open spec fn has_interior_nul(a: Seq<u8>) -> bool {
    exists|i: int| 0 <= i < a.len() && a[i] == 0
}

/// The native encoding of one argument: its bytes followed by the
/// terminating null byte.
pub open spec fn encoded_arg(a: Seq<u8>) -> Seq<u8> {
    a.push(0)
}

/// Number of bytes a native consumer reads before the first null byte
/// (the whole buffer if no null byte occurs).
pub open spec fn nul_prefix_len(b: Seq<u8>) -> int
    decreases b.len(),
{
    if b.len() == 0 {
        0
    } else if b[0] == 0 {
        0
    } else {
        1 + nul_prefix_len(b.drop_first())
    }
}

/// What a native consumer sees when it reads the buffer as a
/// null-terminated string: the bytes before the first null byte.
pub open spec fn c_str_read(b: Seq<u8>) -> Seq<u8> {
    b.take(nul_prefix_len(b))
}

/// A position k preceded only by non-null bytes and holding a null byte
/// (or sitting at the end of the buffer) is exactly where the native read
/// stops.
proof fn lemma_nul_prefix_len_at(b: Seq<u8>, k: int)
    requires
        0 <= k <= b.len(),
        forall|j: int| 0 <= j < k ==> b[j] != 0,
        k == b.len() || b[k] == 0,
    ensures
        nul_prefix_len(b) == k,
    decreases b.len(),
{
    if b.len() != 0 && b[0] != 0 {
        let t = b.drop_first();
        assert(forall|j: int| 0 <= j < k - 1 ==> t[j] == b[j + 1] && t[j] != 0);
        lemma_nul_prefix_len_at(t, k - 1);
    }
}

/// Round trip for one argument: encoding a null-free argument and reading
/// the buffer back as a native string reproduces the argument byte for
/// byte.
pub proof fn lemma_arg_round_trip(a: Seq<u8>)
    requires
        !has_interior_nul(a),
    ensures
        c_str_read(encoded_arg(a)) == a,
{
    let b = encoded_arg(a);
    assert(forall|j: int| 0 <= j < a.len() ==> b[j] == a[j] && b[j] != 0);
    lemma_nul_prefix_len_at(b, a.len() as int);
    assert(c_str_read(b) =~= a);
}

/// Round trip for a whole argument vector: for every sequence of arguments
/// free of interior null bytes, encoding each argument and reading the
/// resulting buffers back as native strings reproduces the original
/// sequence byte for byte.
pub proof fn lemma_argv_round_trip(args: Seq<Seq<u8>>)
    requires
        forall|i: int| 0 <= i < args.len() ==> !has_interior_nul(args[i]),
    ensures
        forall|i: int|
            0 <= i < args.len() ==> c_str_read(encoded_arg(args[i])) == args[i],
{
    assert forall|i: int| 0 <= i < args.len() implies c_str_read(encoded_arg(args[i]))
        == args[i] by {
        lemma_arg_round_trip(args[i]);
    }
}

/// Encodes one argument as a null-terminated byte buffer, or reports that
/// the argument holds an interior null byte.
pub fn encode_arg(arg: &Vec<u8>) -> (r: Option<Vec<u8>>)
    ensures
        r is Some <==> !has_interior_nul(arg@),
        r matches Some(b) ==> b@ == encoded_arg(arg@),
{
    let mut out: Vec<u8> = Vec::new();
    let mut i: usize = 0;
    while i < arg.len()
        invariant
            0 <= i <= arg@.len(),
            out@ == arg@.take(i as int),
            forall|j: int| 0 <= j < i ==> arg@[j] != 0,
        decreases arg@.len() - i,
    {
        if arg[i] == 0 {
            return None;
        }
        out.push(arg[i]);
        assert(out@ =~= arg@.take(i + 1 as int));
        i = i + 1;
    }
    assert(arg@.take(i as int) =~= arg@);
    out.push(0);
    Some(out)
}

/// Encodes an ordered argument sequence into null-terminated byte buffers.
/// Succeeds exactly when no argument holds an interior null byte; fails
/// with [`Error::EncodingError`] naming the first offending argument, and
/// in that case no buffer is produced.
pub fn encode_argv(args: &Vec<Vec<u8>>) -> (r: Result<Vec<Vec<u8>>, Error>)
    ensures
        r is Ok <==> (forall|i: int| 0 <= i < args@.len() ==> !has_interior_nul(args@[i]@)),
        r matches Ok(bufs) ==> {
            &&& bufs@.len() == args@.len()
            &&& forall|i: int| 0 <= i < args@.len() ==> bufs@[i]@ == encoded_arg(args@[i]@)
        },
        r matches Err(e) ==> {
            &&& e matches Error::EncodingError { index }
            &&& 0 <= index < args@.len()
            &&& has_interior_nul(args@[index as int]@)
            &&& forall|j: int| 0 <= j < index ==> !has_interior_nul(args@[j]@)
        },
{
    let mut bufs: Vec<Vec<u8>> = Vec::new();
    let mut i: usize = 0;
    while i < args.len()
        invariant
            0 <= i <= args@.len(),
            bufs@.len() == i,
            forall|j: int| 0 <= j < i ==> !has_interior_nul(args@[j]@),
            forall|j: int| 0 <= j < i ==> bufs@[j]@ == encoded_arg(args@[j]@),
        decreases args@.len() - i,
    {
        match encode_arg(&args[i]) {
            Some(buf) => {
                bufs.push(buf);
            },
            None => {
                return Err(Error::EncodingError { index: i });
            },
        }
        i = i + 1;
    }
    Ok(bufs)
}

/// Reads a buffer the way a native consumer reads a null-terminated
/// string: the bytes before the first null byte, or the whole buffer if it
/// holds none.
pub fn read_c_str(buf: &Vec<u8>) -> (r: Vec<u8>)
    ensures
        r@ == c_str_read(buf@),
{
    let mut out: Vec<u8> = Vec::new();
    let mut i: usize = 0;
    while i < buf.len()
        invariant
            0 <= i <= buf@.len(),
            out@ == buf@.take(i as int),
            forall|j: int| 0 <= j < i ==> buf@[j] != 0,
        decreases buf@.len() - i,
    {
        if buf[i] == 0 {
            proof {
                lemma_nul_prefix_len_at(buf@, i as int);
            }
            return out;
        }
        out.push(buf[i]);
        assert(out@ =~= buf@.take(i + 1 as int));
        i = i + 1;
    }
    proof {
        lemma_nul_prefix_len_at(buf@, buf@.len() as int);
        assert(buf@.take(buf@.len() as int) =~= buf@);
    }
    out
}

} // verus!
