//! Pull/seek stream adapter between a caller-owned byte source and the
//! decoder's fixed-shape callback surface.
//!
//! The decoder addresses the byte source only through five callbacks —
//! close, read, write, set-position and get-position — invoked synchronously
//! during its own control flow.  This module owns the byte source, gives it
//! an exact mathematical model ([`SourceView`]), and states each callback's
//! behavior over that model: reads are exact or fail as file I/O with the
//! source left unchanged, seeks are absolute, the close acknowledgment never
//! releases the source (the decoder handle governs resource release on the
//! host side), and writes always fail because only read-mode decoding is in
//! scope.

use vstd::prelude::*;

use crate::error::WMP_ERR_FILE_IO;
use crate::error::WMP_ERR_SUCCESS;

verus! {

/// Mathematical model of a seekable byte source: its contents and the
/// current absolute offset.  The offset may point past the end — a seek
/// beyond the medium succeeds on an in-memory source, and the following
/// read fails instead.
pub ghost struct SourceView {
    /// The bytes of the source.
    pub data: Seq<u8>,
    /// Current absolute offset.
    pub pos: int,
}

/// Whether `count` bytes can be read at the current offset.
pub open spec fn can_read(s: SourceView, count: nat) -> bool {
    s.pos + count <= s.data.len()
}

/// The source after an exact read of `count` bytes: same contents, offset
/// advanced by `count`.
pub open spec fn read_model(s: SourceView, count: nat) -> SourceView {
    SourceView { data: s.data, pos: s.pos + count }
}

/// The bytes an exact read of `count` bytes yields.
pub open spec fn read_bytes_model(s: SourceView, count: nat) -> Seq<u8> {
    s.data.subrange(s.pos, s.pos + count)
}

/// The source after a seek to absolute offset `off`.
pub open spec fn seek_model(s: SourceView, off: u64) -> SourceView {
    SourceView { data: s.data, pos: off as int }
}

/// The absolute offset the source reports.
pub open spec fn tell_model(s: SourceView) -> int {
    s.pos
}

/// Exact-read law: when `k` bytes remain at the current offset, an exact
/// read yields exactly `k` bytes, advances the offset by exactly `k`, and
/// leaves the contents untouched.
pub proof fn lemma_exact_read(s: SourceView, k: nat)
    requires
        0 <= s.pos,
        s.pos + k <= s.data.len(),
    ensures
        read_bytes_model(s, k).len() == k,
        read_model(s, k).pos == s.pos + k,
        read_model(s, k).data == s.data,
{
}

/// Seek/report consistency law: seeking to an absolute offset and then
/// reporting the position yields that same offset, for every source state
/// and every offset.
pub proof fn lemma_seek_then_tell(s: SourceView, p: u64)
    ensures
        tell_model(seek_model(s, p)) == p,
{
}

/// A caller-owned, in-memory seekable byte source with exact-length reads
/// and absolute seeks.
pub struct ByteSource {
    data: Vec<u8>,
    pos: u64,
}

impl View for ByteSource {
    type V = SourceView;

    closed spec fn view(&self) -> SourceView {
        SourceView { data: self.data@, pos: self.pos as int }
    }
}

impl ByteSource {
    /// Wrap the given bytes as a source positioned at the start.
    pub fn new(data: Vec<u8>) -> (r: ByteSource)
        ensures
            r@.data == data@,
            r@.pos == 0,
    {
        ByteSource { data, pos: 0 }
    }

    /// Length of the source in bytes.
    pub fn len(&self) -> (r: usize)
        ensures
            r == self@.data.len(),
    {
        self.data.len()
    }

    /// Fill `dest` entirely with the bytes at the current offset, advancing
    /// the offset, or fail without touching either the destination or the
    /// offset when fewer than `dest.len()` bytes remain.
    pub fn read_exact(&mut self, dest: &mut Vec<u8>) -> (ok: bool)
        ensures
            ok == can_read(old(self)@, old(dest)@.len()),
            ok ==> final(self)@ == read_model(old(self)@, old(dest)@.len()),
            ok ==> final(dest)@ == read_bytes_model(old(self)@, old(dest)@.len()),
            !ok ==> final(self)@ == old(self)@ && final(dest)@ == old(dest)@,
    {
        let n = dest.len();
        let len = self.data.len();
        if self.pos <= len as u64 && n as u64 <= len as u64 - self.pos {
            let start = self.pos as usize;
            let mut i: usize = 0;
            while i < n
                invariant
                    i <= n,
                    start + n <= len,
                    len == self.data@.len(),
                    dest@.len() == n,
                    forall|j: int| 0 <= j < i ==> dest@[j] == self.data@[start + j],
                decreases n - i,
            {
                let b = self.data[start + i];
                dest.set(i, b);
                i = i + 1;
            }
            proof {
                assert(dest@ =~= read_bytes_model(old(self)@, n as nat));
            }
            self.pos = self.pos + n as u64;
            true
        } else {
            false
        }
    }

    /// Seek to an absolute offset from the start of the source.  On an
    /// in-memory source this succeeds for any offset, including one past
    /// the end.
    pub fn seek(&mut self, pos: u64)
        ensures
            final(self)@ == seek_model(old(self)@, pos),
    {
        self.pos = pos;
    }

    /// The current absolute offset.
    pub fn stream_position(&self) -> (r: u64)
        ensures
            r == tell_model(self@),
    {
        self.pos
    }

    /// Recover the underlying bytes, giving up the source.
    pub fn into_inner(self) -> (r: Vec<u8>)
        ensures
            r@ == self@.data,
    {
        self.data
    }
}

/// The stream adapter: owns one byte source and exposes the callback
/// surface the decoder drives during decode.  The close callback is a
/// required no-op acknowledgment — releasing resources is the decoder
/// handle's concern — and the write callback unconditionally fails.
pub struct InputStream {
    reader: ByteSource,
}

impl View for InputStream {
    type V = SourceView;

    closed spec fn view(&self) -> SourceView {
        self.reader@
    }
}

impl InputStream {
    /// Build the adapter around a byte source, taking ownership of it so
    /// that no second adapter can address the same source.
    pub fn new(reader: ByteSource) -> (r: InputStream)
        ensures
            r@ == reader@,
    {
        InputStream { reader }
    }

    /// Recover the byte source, consuming the adapter.
    pub fn into_reader(self) -> (r: ByteSource)
        ensures
            r@ == self@,
    {
        self.reader
    }

    /// Close callback: acknowledges and does nothing.  The byte source is
    /// released host-side by whoever owns the adapter, never by the
    /// decoder's acknowledgment.
    pub fn input_stream_close(&mut self) -> (r: i64)
        ensures
            r == WMP_ERR_SUCCESS,
            final(self)@ == old(self)@,
    {
        WMP_ERR_SUCCESS
    }

    /// Read callback: an exact read of `dest.len()` bytes, or a file-I/O
    /// failure with the source and destination untouched.  Short reads are
    /// never reported as partial success.
    pub fn input_stream_read(&mut self, dest: &mut Vec<u8>) -> (r: i64)
        ensures
            can_read(old(self)@, old(dest)@.len()) ==> r == WMP_ERR_SUCCESS && final(self)@
                == read_model(old(self)@, old(dest)@.len()) && final(dest)@ == read_bytes_model(
                old(self)@,
                old(dest)@.len(),
            ),
            !can_read(old(self)@, old(dest)@.len()) ==> r == WMP_ERR_FILE_IO && final(self)@ == old(
                self,
            )@ && final(dest)@ == old(dest)@,
    {
        if self.reader.read_exact(dest) {
            WMP_ERR_SUCCESS
        } else {
            WMP_ERR_FILE_IO
        }
    }

    /// Write callback: unconditionally fails with file I/O, since only
    /// read-mode decoding is in scope.
    pub fn input_stream_write(&mut self, _src: &Vec<u8>) -> (r: i64)
        ensures
            r == WMP_ERR_FILE_IO,
            final(self)@ == old(self)@,
    {
        WMP_ERR_FILE_IO
    }

    /// Set-position callback: seeks to an absolute byte offset from the
    /// start of the source.
    pub fn input_stream_set_pos(&mut self, off_pos: usize) -> (r: i64)
        ensures
            r == WMP_ERR_SUCCESS,
            final(self)@ == seek_model(old(self)@, off_pos as u64),
    {
        self.reader.seek(off_pos as u64);
        WMP_ERR_SUCCESS
    }

    /// Get-position callback: reports the current absolute offset, or fails
    /// with file I/O when the offset does not fit the width the callback
    /// contract expects — the host position type may be wider, and this is
    /// checked, never truncated.
    pub fn input_stream_get_pos(&self) -> (r: (i64, usize))
        ensures
            self@.pos <= usize::MAX ==> r.0 == WMP_ERR_SUCCESS && r.1 == self@.pos,
            self@.pos > usize::MAX ==> r.0 == WMP_ERR_FILE_IO && r.1 == 0,
    {
        let pos = self.reader.stream_position();
        if pos <= usize::MAX as u64 {
            (WMP_ERR_SUCCESS, pos as usize)
        } else {
            (WMP_ERR_FILE_IO, 0)
        }
    }
}

} // verus!
