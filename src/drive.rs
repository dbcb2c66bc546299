//! Field drivers: a struct is serialized by handing each field, in wire
//! order, the window of the buffer that its size selects, and deserialized by
//! reading each field from the window that its static size selects.
use crate::buffer::{
    buf_len, buf_view, frozen_len, frozen_view, set_byte, slice, split_off, split_to, unsplit,
};
use crate::codec::{zeros, Nl};
use crate::err::{DeError, DeErrorKind, SerError, SerErrorKind};
use bytes::{Bytes, BytesMut};
use vstd::prelude::*;

verus! {

/// Outcome of serializing `v` at `pos` of a buffer holding `buf`: the whole
/// buffer afterwards, with `v`'s `size()` bytes at `[pos, pos + size)`.
pub open spec fn spec_drive_serialize<V: Nl>(v: V, buf: Seq<u8>, pos: nat) -> Result<
    Seq<u8>,
    SerErrorKind,
> {
    let size = v.spec_size();
    if pos + size > buf.len() {
        Err(SerErrorKind::UnexpectedEOB)
    } else {
        match v.spec_serialize(size) {
            Ok(w) => Ok(buf.take(pos as int) + w + buf.skip((pos + size) as int)),
            Err(k) => Err(k),
        }
    }
}

/// Serialize one field at `pos`. The buffer is split around the field's
/// window and rejoined in the same order, on success and on failure.
pub fn drive_serialize<V: Nl>(v: &V, buffer: BytesMut, pos: usize) -> (r: Result<
    (BytesMut, usize),
    SerError,
>)
    requires
        v.wf(),
        pos <= buf_view(buffer).len(),
    ensures
        match r {
            Ok((b, p)) => spec_drive_serialize(*v, buf_view(buffer), pos as nat) == Ok::<
                Seq<u8>,
                SerErrorKind,
            >(buf_view(b)) && p == pos + v.spec_size() && buf_view(b).len() == buf_view(
                buffer,
            ).len(),
            Err(e) => spec_drive_serialize(*v, buf_view(buffer), pos as nat) == Err::<
                Seq<u8>,
                SerErrorKind,
            >(e.kind()) && e.buffer().len() == buf_view(buffer).len(),
        },
{
    let ghost old_buf = buf_view(buffer);
    let size = v.size();
    let len = buf_len(&buffer);
    if size > len - pos {
        return Err(SerError::UnexpectedEOB(buffer));
    }
    let mut buffer = buffer;
    let mut end = split_off(&mut buffer, pos);
    let sub = split_to(&mut end, size);
    proof {
        v.lemma_serialize_len(size as nat);
    }
    match v.serialize(sub) {
        Ok(b) => {
            unsplit(&mut buffer, b);
            unsplit(&mut buffer, end);
            assert(old_buf.skip(pos as int).skip(size as int) =~= old_buf.skip((pos + size) as int));
            Ok((buffer, pos + size))
        },
        Err(e) => Err(e.reconstruct(Some(buffer), Some(end))),
    }
}

/// Outcome of writing `pad` zero bytes at `pos` of a buffer holding `buf`.
pub open spec fn spec_drive_pad(buf: Seq<u8>, pos: nat, pad: nat) -> Result<Seq<u8>, SerErrorKind> {
    if pos + pad > buf.len() {
        Err(SerErrorKind::UnexpectedEOB)
    } else {
        Ok(buf.take(pos as int) + zeros(pad) + buf.skip((pos + pad) as int))
    }
}

/// Zero-fill the `pad` bytes that follow `pos`.
pub fn drive_pad(buffer: BytesMut, pos: usize, pad: usize) -> (r: Result<(BytesMut, usize), SerError>)
    requires
        pos <= buf_view(buffer).len(),
    ensures
        match r {
            Ok((b, p)) => spec_drive_pad(buf_view(buffer), pos as nat, pad as nat) == Ok::<
                Seq<u8>,
                SerErrorKind,
            >(buf_view(b)) && p == pos + pad && buf_view(b).len() == buf_view(buffer).len(),
            Err(e) => spec_drive_pad(buf_view(buffer), pos as nat, pad as nat) == Err::<
                Seq<u8>,
                SerErrorKind,
            >(e.kind()) && e.buffer().len() == buf_view(buffer).len(),
        },
{
    let len = buf_len(&buffer);
    if pad > len - pos {
        return Err(SerError::UnexpectedEOB(buffer));
    }
    let ghost old_buf = buf_view(buffer);
    let mut buffer = buffer;
    let mut i: usize = pos;
    while i < pos + pad
        invariant
            pos <= i <= pos + pad <= len,
            len == old_buf.len(),
            buf_view(buffer).len() == len,
            forall|j: int| 0 <= j < pos ==> buf_view(buffer)[j] == old_buf[j],
            forall|j: int| pos <= j < i ==> buf_view(buffer)[j] == 0,
            forall|j: int| pos + pad <= j < len ==> buf_view(buffer)[j] == old_buf[j],
        decreases pos + pad - i,
    {
        set_byte(&mut buffer, i, 0);
        i = i + 1;
    }
    assert(buf_view(buffer) =~= old_buf.take(pos as int) + zeros(pad as nat) + old_buf.skip(
        pos + pad,
    ));
    Ok((buffer, pos + pad))
}

/// Check that the fields wrote the whole buffer.
pub fn drive_end(buffer: BytesMut, pos: usize) -> (r: Result<BytesMut, SerError>)
    ensures
        match r {
            Ok(b) => buf_view(b) == buf_view(buffer) && pos == buf_view(buffer).len(),
            Err(e) => e == SerError::BufferNotFilled(buffer) && pos != buf_view(buffer).len(),
        },
{
    if buf_len(&buffer) != pos {
        return Err(SerError::BufferNotFilled(buffer));
    }
    Ok(buffer)
}

/// Outcome of parsing a `V` from the `size` bytes at `pos` of `buf`.
pub open spec fn spec_drive_deserialize<V: Nl>(buf: Seq<u8>, pos: nat, size: nat) -> Result<
    V,
    DeErrorKind,
> {
    if pos + size > buf.len() {
        Err(DeErrorKind::UnexpectedEOB)
    } else {
        V::spec_deserialize(buf.subrange(pos as int, (pos + size) as int))
    }
}

/// Parse one field from the `size` bytes at `pos`; the position moves past them.
pub fn drive_deserialize<V: Nl>(buffer: &Bytes, pos: usize, size: usize) -> (r: Result<
    (V, usize),
    DeError,
>)
    requires
        pos <= frozen_view(*buffer).len(),
    ensures
        match r {
            Ok((v, p)) => spec_drive_deserialize::<V>(frozen_view(*buffer), pos as nat, size as nat)
                == Ok::<V, DeErrorKind>(v) && p == pos + size,
            Err(e) => spec_drive_deserialize::<V>(frozen_view(*buffer), pos as nat, size as nat)
                == Err::<V, DeErrorKind>(e.kind()),
        },
        forall|v: V|
            v.wf() && v.canonical() && pos + size <= frozen_view(*buffer).len() && #[trigger] v.spec_serialize(size as nat)
                == Ok::<Seq<u8>, SerErrorKind>(
                frozen_view(*buffer).subrange(pos as int, pos + size),
            ) ==> (r matches Ok((x, _)) && x == v),
{
    let len = frozen_len(buffer);
    if size > len - pos {
        return Err(DeError::UnexpectedEOB);
    }
    let sub = slice(buffer, pos, pos + size);
    match V::deserialize(sub) {
        Ok(v) => Ok((v, pos + size)),
        Err(e) => Err(e),
    }
}

/// Skip the `size` bytes of padding at `pos`; the position moves past them.
pub fn drive_strip(buffer: &Bytes, pos: usize, size: usize) -> (r: Result<usize, DeError>)
    requires
        pos <= frozen_view(*buffer).len(),
    ensures
        match r {
            Ok(p) => p == pos + size && p <= frozen_view(*buffer).len(),
            Err(e) => e == DeError::UnexpectedEOB && pos + size > frozen_view(*buffer).len(),
        },
{
    if size > frozen_len(buffer) - pos {
        return Err(DeError::UnexpectedEOB);
    }
    Ok(pos + size)
}

/// Check that the fields read the whole buffer.
pub fn drive_de_end(buffer: &Bytes, pos: usize) -> (r: Result<(), DeError>)
    ensures
        match r {
            Ok(_) => pos == frozen_view(*buffer).len(),
            Err(e) => e == DeError::BufferNotParsed && pos != frozen_view(*buffer).len(),
        },
{
    if frozen_len(buffer) != pos {
        return Err(DeError::BufferNotParsed);
    }
    Ok(())
}

/// The static size of `V`, or an error saying that it has none.
pub fn static_size<V: Nl>() -> (r: Result<usize, DeError>)
    ensures
        match r {
            Ok(n) => V::spec_type_size() == Some(n),
            Err(e) => V::spec_type_size() is None && e.kind() == DeErrorKind::Msg,
        },
{
    match V::type_size() {
        Some(n) => Ok(n),
        None => Err(DeError::Msg("Type has no static size associated with it".to_string())),
    }
}

} // verus!
