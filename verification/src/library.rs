use vstd::prelude::*;

use crate::error::Error;
use crate::error::FtResult;
use vstd::string::StringSliceAdditionalSpecFns;

verus! {

/// A parsed font instance derived from a library handle plus font data.
/// Holds the native face handle as a plain token; the face depends on the
/// library handle staying valid for its whole lifetime, which is the
/// caller's responsibility.
#[derive(Clone, Copy, Debug, PartialEq, Eq, Structural)]
pub struct Face {
    pub raw: u64,
}

impl Face {
    /// Wraps a native face handle already obtained from the native library.
    pub fn from_raw(raw: u64) -> (face: Face)
        ensures
            face.raw == raw,
    {
        Face { raw }
    }

    /// The underlying native face handle.
    pub fn raw(&self) -> (raw: u64)
        ensures
            raw == self.raw,
    {
        self.raw
    }
}

/// Bookkeeping for one native library root object. `raw` is the opaque
/// native handle as a plain token, `ref_count` mirrors the native reference
/// count this wrapper is accountable for, and `released` records whether the
/// native object has been freed. The foreign calls themselves happen outside
/// this crate; each operation here takes the status code the native call
/// reported and keeps the bookkeeping in step with it.
#[derive(Debug, PartialEq, Eq, Structural)]
pub struct Library {
    pub raw: u64,
    pub ref_count: u64,
    pub released: bool,
}

/// The state after a successful reference-count increment.
pub open spec fn after_inc(l: Library) -> Library {
    Library { raw: l.raw, ref_count: (l.ref_count + 1) as u64, released: l.released }
}

/// The state after a successful reference-count decrement: the native
/// object is released exactly when the count reaches zero.
pub open spec fn after_dec(l: Library) -> Library {
    Library { raw: l.raw, ref_count: (l.ref_count - 1) as u64, released: l.ref_count == 1 }
}

impl Library {
    /// A well-formed handle: the native token is non-null, and the object
    /// is released exactly when no reference remains.
    pub open spec fn wf(self) -> bool {
        &&& self.raw != 0
        &&& (self.released <==> self.ref_count == 0)
    }

    /// Outcome of initialization. The caller creates the native root object
    /// (with the process-wide allocator callback table) and hands over the
    /// status code and the handle the native call produced; on the zero
    /// status the native library always yields a non-null handle, and the
    /// returned wrapper owns it with one reference.
    pub fn init(status: i32, raw: u64) -> (r: FtResult<Library>)
        requires
            status == 0 ==> raw != 0,
        ensures
            status == 0 ==> r == FtResult::<Library>::Ok(
                (Library { raw, ref_count: 1u64, released: false }),
            ),
            status != 0 ==> r == FtResult::<Library>::Err(Error::NativeLibraryError(status)),
            r matches Ok(l) ==> l.wf() && l.raw == raw && l.raw != 0 && l.ref_count == 1
                && !l.released,
    {
        if status == 0 {
            Ok(Library { raw, ref_count: 1, released: false })
        } else {
            Err(Error::NativeLibraryError(status))
        }
    }

    /// The underlying native handle, for other binding code that must pass
    /// it across the native boundary. Non-null on every well-formed handle.
    pub fn raw(&self) -> (raw: u64)
        ensures
            raw == self.raw,
            self.wf() ==> raw != 0,
    {
        self.raw
    }

    /// Outcome of a file-based face creation. The caller encodes the path
    /// with `path_to_nul_terminated`, asks the native library to parse the
    /// font file, and hands over the status code and the face handle the
    /// call produced; the zero status yields the new face, any other code
    /// is surfaced verbatim and no face is produced.
    pub fn new_face(&self, status: i32, face_raw: u64) -> (r: FtResult<Face>)
        requires
            self.wf(),
            !self.released,
            status == 0 ==> face_raw != 0,
        ensures
            status == 0 ==> r == FtResult::<Face>::Ok((Face { raw: face_raw })),
            status != 0 ==> r == FtResult::<Face>::Err(Error::NativeLibraryError(status)),
            r matches Ok(f) ==> f.raw != 0,
    {
        if status == 0 {
            Ok(Face::from_raw(face_raw))
        } else {
            Err(Error::NativeLibraryError(status))
        }
    }

    /// Outcome of a memory-based face creation: same contract as `new_face`,
    /// with the font data supplied as an in-memory byte buffer whose
    /// validity the caller must guarantee for the face's lifetime.
    pub fn new_memory_face(&self, status: i32, face_raw: u64) -> (r: FtResult<Face>)
        requires
            self.wf(),
            !self.released,
            status == 0 ==> face_raw != 0,
        ensures
            status == 0 ==> r == FtResult::<Face>::Ok((Face { raw: face_raw })),
            status != 0 ==> r == FtResult::<Face>::Err(Error::NativeLibraryError(status)),
            r matches Ok(f) ==> f.raw != 0,
    {
        if status == 0 {
            Ok(Face::from_raw(face_raw))
        } else {
            Err(Error::NativeLibraryError(status))
        }
    }

    /// Outcome of a manual reference-count increment on the root object.
    /// On the zero status one more reference is held; any other code leaves
    /// the bookkeeping unchanged and is surfaced verbatim.
    pub fn inc_ref(&mut self, status: i32) -> (r: FtResult<()>)
        requires
            old(self).wf(),
            !old(self).released,
            old(self).ref_count < u64::MAX,
        ensures
            status == 0 ==> r == FtResult::<()>::Ok(()) && *final(self) == after_inc(*old(self)),
            status != 0 ==> r == FtResult::<()>::Err(Error::NativeLibraryError(status))
                && *final(self) == *old(self),
            final(self).wf(),
            !final(self).released,
            final(self).raw == old(self).raw,
    {
        if status == 0 {
            self.ref_count = self.ref_count + 1;
            Ok(())
        } else {
            Err(Error::NativeLibraryError(status))
        }
    }

    /// Outcome of a reference-count decrement on the root object. On the
    /// zero status one reference is given up, and the native object is
    /// released exactly when the count reaches zero; any other code leaves
    /// the bookkeeping unchanged and is surfaced verbatim.
    pub fn dec_ref(&mut self, status: i32) -> (r: FtResult<()>)
        requires
            old(self).wf(),
            !old(self).released,
        ensures
            status == 0 ==> r == FtResult::<()>::Ok(()) && *final(self) == after_dec(*old(self)),
            status == 0 ==> (final(self).released <==> old(self).ref_count == 1),
            status != 0 ==> r == FtResult::<()>::Err(Error::NativeLibraryError(status))
                && *final(self) == *old(self),
            final(self).wf(),
            final(self).raw == old(self).raw,
    {
        if status == 0 {
            self.ref_count = self.ref_count - 1;
            if self.ref_count == 0 {
                self.released = true;
            }
            Ok(())
        } else {
            Err(Error::NativeLibraryError(status))
        }
    }

    /// The scoped release run when an owning wrapper's lifetime ends: the
    /// final reference-count decrement. A native failure cannot be
    /// propagated during teardown, so it is handed back for best-effort
    /// diagnostics and the bookkeeping is left unchanged.
    pub fn scoped_release(&mut self, status: i32) -> (r: Option<Error>)
        requires
            old(self).wf(),
            !old(self).released,
        ensures
            status == 0 ==> r is None && *final(self) == after_dec(*old(self)),
            status != 0 ==> r == Some(Error::NativeLibraryError(status))
                && *final(self) == *old(self),
            final(self).wf(),
    {
        match self.dec_ref(status) {
            Ok(()) => None,
            Err(e) => Some(e),
        }
    }
}

/// A single-owner handle released once at end of scope frees the native
/// object exactly then: the one successful decrement brings the count to
/// zero and marks the object released, and the handle itself is unchanged
/// otherwise.
pub proof fn lemma_single_release(l: Library)
    requires
        l.wf(),
        !l.released,
        l.ref_count == 1,
    ensures
        after_dec(l).released,
        after_dec(l).ref_count == 0,
        after_dec(l).raw == l.raw,
        after_dec(l).wf(),
{
}

/// One manual increment followed by two successful decrements is not a
/// double release: the first decrement leaves the object live, only the
/// second one releases it, and afterwards no reference remains, so the
/// object is no longer usable.
pub proof fn lemma_inc_then_two_decs(l: Library)
    requires
        l.wf(),
        !l.released,
        l.ref_count == 1,
    ensures
        after_inc(l).wf() && !after_inc(l).released && after_inc(l).ref_count == 2,
        after_dec(after_inc(l)).wf() && !after_dec(after_inc(l)).released,
        after_dec(after_dec(after_inc(l))).released,
        after_dec(after_dec(after_inc(l))).ref_count == 0,
        after_dec(after_dec(after_inc(l))).wf(),
{
}

/// Encodes a filesystem path for the native boundary: the path's bytes
/// followed by one terminating zero byte. The native calling convention
/// admits no interior zero byte in a path.
pub fn path_to_nul_terminated(path: &str) -> (r: Vec<u8>)
    requires
        forall|i: int| 0 <= i < path.spec_bytes().len() ==> path.spec_bytes()[i] != 0,
    ensures
        r@ == path.spec_bytes().push(0),
        r@.len() == path.spec_bytes().len() + 1,
        forall|i: int| 0 <= i < r@.len() - 1 ==> r@[i] != 0,
        r@[r@.len() - 1] == 0,
{
    let bytes: &[u8] = path.as_bytes();
    let mut out: Vec<u8> = Vec::new();
    let mut i: usize = 0;
    while i < bytes.len()
        invariant
            i <= bytes@.len(),
            bytes@ == path.spec_bytes(),
            out@ == path.spec_bytes().subrange(0, i as int),
        decreases bytes@.len() - i,
    {
        out.push(bytes[i]);
        i = i + 1;
    }
    assert(out@ =~= path.spec_bytes());
    out.push(0);
    out
}

} // verus!
