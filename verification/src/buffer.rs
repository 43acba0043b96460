//! The operations a packet buffer offers: room before and after the data, and
//! growing or shrinking the data at either end.

use core::fmt::Debug;
use vstd::prelude::*;

verus! {

/// The unused room in front of the data of a packet buffer.
pub trait Headroom {
    /// The headroom of the buffer, in specifications.
    spec fn spec_headroom(&self) -> u16;

    /// The (unused) headroom in the buffer.
    fn headroom(&self) -> (res: u16)
        ensures
            res == self.spec_headroom(),
    ;
}

/// The unused room after the data of a packet buffer.
pub trait Tailroom {
    /// The tailroom of the buffer, in specifications.
    spec fn spec_tailroom(&self) -> u16;

    /// The (unused) tailroom in the buffer.
    fn tailroom(&self) -> (res: u16)
        ensures
            res == self.spec_tailroom(),
    ;
}

/// Growing the data of a packet buffer at its start.
pub trait Prepend {
    /// Why the data could not grow (e.g. not enough headroom).
    type Error;

    /// Grow the data by `len` bytes at its start, if possible, and return the
    /// data from its new start; the rest of the data is not altered.
    fn prepend(&mut self, len: u16) -> Result<&mut [u8], Self::Error>;
}

/// Growing the data of a packet buffer at its end.
pub trait Append {
    /// Why the data could not grow (e.g. not enough tailroom).
    type Error;

    /// Grow the data by `len` bytes at its end, if possible.
    fn append(&mut self, len: u16) -> Result<&mut [u8], Self::Error>;
}

/// Dropping data from the start of a packet buffer.
pub trait TrimFromStart: Sized {
    /// Why the data could not shrink (e.g. it is shorter than `len`).
    type Error;

    /// Whether `len` bytes can be dropped from the start of the data.
    spec fn spec_can_trim_from_start(&self, len: u16) -> bool;

    /// The data left once `len` bytes are dropped from its start.
    spec fn spec_trimmed_data(&self, len: u16) -> Seq<u8>;

    /// Whether `after` is this buffer once `len` bytes are dropped from the
    /// start of its data and the data left is then set to `data` (through the
    /// slice that [`TrimFromStart::trim_from_start`] hands out).
    spec fn spec_trimmed_from_start(&self, len: u16, data: Seq<u8>, after: Self) -> bool;

    /// Drop `len` bytes from the start of the data, if it holds that many, and
    /// hand out the data left; on failure nothing changes.
    fn trim_from_start(&mut self, len: u16) -> (res: Result<&mut [u8], Self::Error>)
        ensures
            res is Ok <==> old(self).spec_can_trim_from_start(len),
            res is Err ==> *final(self) == *old(self),
            res matches Ok(data) ==> data@ == old(self).spec_trimmed_data(len)
                && old(self).spec_trimmed_from_start(len, final(data)@, *final(self)),
    ;
}

/// Dropping data from the end of a packet buffer.
pub trait TrimFromEnd {
    /// Why the data could not shrink (e.g. it is shorter than `len`).
    type Error;

    /// Drop `len` bytes from the end of the data, if it holds that many.
    fn trim_from_end(&mut self, len: u16) -> Result<&mut [u8], Self::Error>;
}

/// Read access to the data held by a packet buffer.
pub trait BufferData {
    /// The data held by the buffer, in specifications.
    spec fn spec_data(&self) -> Seq<u8>;

    /// The data held by the buffer.
    fn data(&self) -> (res: &[u8])
        ensures
            res@ == self.spec_data(),
    ;
}

/// Write access to the data held by a packet buffer.
pub trait BufferDataMut {
    /// The data held by the buffer, for writing.
    fn data_mut(&mut self) -> &mut [u8];
}

/// The operations that may be performed on a packet buffer.
pub trait PacketBuffer: BufferData + Headroom + Debug + 'static {

}

impl<T> PacketBuffer for T where T: BufferData + Headroom + Debug + 'static {

}

/// The operations that may be performed on a mutable packet buffer.
pub trait PacketBufferMut: PacketBuffer + BufferDataMut + Prepend + TrimFromStart + Tailroom {

}

impl<T> PacketBufferMut for T where
    T: PacketBuffer + BufferDataMut + Prepend + TrimFromStart + Tailroom,
 {

}

/// There is not enough headroom in a memory buffer for the requested
/// operation.
#[derive(Debug, PartialEq, Eq, Structural)]
pub struct NotEnoughHeadRoom;

/// There is not enough tailroom in a memory buffer for the requested
/// operation.
#[derive(Debug, PartialEq, Eq, Structural)]
pub struct NotEnoughTailRoom;

/// A memory buffer does not hold enough bytes to remove the requested number.
#[derive(Debug, PartialEq, Eq, Structural)]
pub struct MemoryBufferNotLongEnough;

} // verus!

verus! {

/// The headroom [`TestBuffer::from_raw_data`] leaves in front of the data.
pub const TEST_BUFFER_HEADROOM: u16 = 96;

/// The tailroom [`TestBuffer::from_raw_data`] leaves after the data.
pub const TEST_BUFFER_TAILROOM: u16 = 96;

/// A packet buffer in memory: a fixed block of at most 65535 bytes of which a
/// window `start..end` holds the data; the bytes in front of the window are
/// the headroom, those after it the tailroom.
#[derive(Debug)]
pub struct TestBuffer {
    bytes: Vec<u8>,
    start: usize,
    end: usize,
}

impl TestBuffer {
    /// The window lies inside the block, which fits 65535 bytes. Every
    /// constructor establishes this and every operation keeps it.
    pub closed spec fn wf(&self) -> bool {
        self.start <= self.end <= self.bytes@.len() <= u16::MAX
    }

    /// The whole block, in specifications.
    pub closed spec fn spec_block(&self) -> Seq<u8> {
        self.bytes@
    }

    /// The start of the data in the block, in specifications.
    pub closed spec fn spec_start(&self) -> nat {
        self.start as nat
    }

    /// The end of the data in the block, in specifications.
    pub closed spec fn spec_end(&self) -> nat {
        self.end as nat
    }

    /// The data: the window of the block.
    pub open spec fn spec_window(&self) -> Seq<u8> {
        self.spec_block().subrange(self.spec_start() as int, self.spec_end() as int)
    }

    /// A buffer holding `data`, with `headroom` bytes in front of it and
    /// `tailroom` bytes after it (all zero).
    pub fn with_room(headroom: u16, data: &[u8], tailroom: u16) -> (res: TestBuffer)
        requires
            headroom + data@.len() + tailroom <= u16::MAX,
        ensures
            res.wf(),
            res.spec_window() == data@,
            res.spec_data() == data@,
            res.spec_start() == headroom,
            res.spec_block().len() == headroom + data@.len() + tailroom,
    {
        let mut bytes: Vec<u8> = Vec::new();
        let mut i: u16 = 0;
        while i < headroom
            invariant
                i <= headroom,
                bytes@.len() == i,
            decreases headroom - i,
        {
            bytes.push(0);
            i = i + 1;
        }
        let mut j: usize = 0;
        while j < data.len()
            invariant
                j <= data@.len(),
                bytes@.len() == headroom + j,
                bytes@.subrange(headroom as int, headroom + j) == data@.subrange(0, j as int),
            decreases data@.len() - j,
        {
            bytes.push(data[j]);
            j = j + 1;
            assert(bytes@.subrange(headroom as int, headroom + j) =~= data@.subrange(0, j as int));
        }
        let end = bytes.len();
        let mut k: u16 = 0;
        while k < tailroom
            invariant
                k <= tailroom,
                bytes@.len() == end + k,
                end == headroom + data@.len(),
                bytes@.subrange(headroom as int, end as int) == data@,
            decreases tailroom - k,
        {
            bytes.push(0);
            k = k + 1;
            assert(bytes@.subrange(headroom as int, end as int) =~= data@);
        }
        proof {
            assert(data@.subrange(0, data@.len() as int) =~= data@);
        }
        TestBuffer { bytes, start: headroom as usize, end }
    }

    /// A buffer holding `data` with the default headroom and tailroom.
    pub fn from_raw_data(data: &[u8]) -> (res: TestBuffer)
        requires
            TEST_BUFFER_HEADROOM + data@.len() + TEST_BUFFER_TAILROOM <= u16::MAX,
        ensures
            res.wf(),
            res.spec_window() == data@,
            res.spec_data() == data@,
            res.spec_start() == TEST_BUFFER_HEADROOM,
            res.spec_block().len() == TEST_BUFFER_HEADROOM + data@.len() + TEST_BUFFER_TAILROOM,
    {
        TestBuffer::with_room(TEST_BUFFER_HEADROOM, data, TEST_BUFFER_TAILROOM)
    }

    /// The window `start..end` of the block, for writing (empty when the
    /// bounds do not lie in the block).
    fn window_mut(&mut self) -> (res: &mut [u8])
        ensures
            final(self).spec_start() == old(self).spec_start(),
            final(self).spec_end() == old(self).spec_end(),
            old(self).spec_start() <= old(self).spec_end() <= old(self).spec_block().len() ==> res@
                == old(self).spec_window(),
            !(old(self).spec_start() <= old(self).spec_end() <= old(self).spec_block().len()) ==> res@
                == Seq::<u8>::empty(),
            old(self).wf() ==> final(self).spec_block() == old(self).spec_block().subrange(
                0,
                old(self).spec_start() as int,
            ) + final(res)@ + old(self).spec_block().subrange(
                old(self).spec_end() as int,
                old(self).spec_block().len() as int,
            ),
    {
        if self.start <= self.end && self.end <= self.bytes.len() {
            let start = self.start;
            let len = self.end - self.start;
            let (_, rest) = self.bytes.as_mut_slice().split_at_mut(start);
            let (window, _) = rest.split_at_mut(len);
            window
        } else {
            let (_, empty) = self.bytes.as_mut_slice().split_at_mut(0);
            let (window, _) = empty.split_at_mut(0);
            window
        }
    }
}

impl BufferData for TestBuffer {
    closed spec fn spec_data(&self) -> Seq<u8> {
        if self.start <= self.end <= self.bytes@.len() {
            self.spec_window()
        } else {
            Seq::empty()
        }
    }

    fn data(&self) -> (res: &[u8]) {
        if self.start <= self.end && self.end <= self.bytes.len() {
            &self.bytes.as_slice()[self.start..self.end]
        } else {
            &self.bytes.as_slice()[0..0]
        }
    }
}

impl BufferDataMut for TestBuffer {
    fn data_mut(&mut self) -> (res: &mut [u8])
        ensures
            old(self).wf() ==> res@ == old(self).spec_window(),
            final(self).spec_start() == old(self).spec_start(),
            final(self).spec_end() == old(self).spec_end(),
    {
        self.window_mut()
    }
}

impl Headroom for TestBuffer {
    open spec fn spec_headroom(&self) -> u16 {
        if self.spec_start() <= 0xFFFF {
            self.spec_start() as u16
        } else {
            0
        }
    }

    fn headroom(&self) -> (res: u16)
        ensures
            self.wf() ==> res == self.spec_start(),
    {
        if self.start <= 0xFFFF {
            self.start as u16
        } else {
            0
        }
    }
}

impl Tailroom for TestBuffer {
    open spec fn spec_tailroom(&self) -> u16 {
        if self.spec_start() <= self.spec_end() <= self.spec_block().len() <= 0xFFFF {
            (self.spec_block().len() - self.spec_end()) as u16
        } else {
            0
        }
    }

    fn tailroom(&self) -> (res: u16)
        ensures
            self.wf() ==> res == self.spec_block().len() - self.spec_end(),
    {
        if self.start <= self.end && self.end <= self.bytes.len() && self.bytes.len() <= 0xFFFF {
            (self.bytes.len() - self.end) as u16
        } else {
            0
        }
    }
}

impl Prepend for TestBuffer {
    type Error = NotEnoughHeadRoom;

    /// Grow the window by `len` bytes at its front; the bytes that were there
    /// become data.
    fn prepend(&mut self, len: u16) -> (res: Result<&mut [u8], NotEnoughHeadRoom>)
        ensures
            old(self).wf() && len > old(self).spec_start() ==> res is Err && final(self).spec_start()
                == old(self).spec_start() && final(self).spec_end() == old(self).spec_end(),
            old(self).wf() && len <= old(self).spec_start() ==> final(self).spec_start() == old(
                self,
            ).spec_start() - len && final(self).spec_end() == old(self).spec_end() && (res matches Ok(
                w,
            ) ==> w@ == old(self).spec_block().subrange(
                old(self).spec_start() - len,
                old(self).spec_end() as int,
            )) && res is Ok,
    {
        if (len as usize) > self.start {
            return Err(NotEnoughHeadRoom);
        }
        self.start = self.start - len as usize;
        Ok(self.window_mut())
    }
}

impl Append for TestBuffer {
    type Error = NotEnoughTailRoom;

    /// Grow the window by `len` bytes at its end; the bytes that were there
    /// become data.
    fn append(&mut self, len: u16) -> (res: Result<&mut [u8], NotEnoughTailRoom>)
        ensures
            old(self).wf() && old(self).spec_end() + len > old(self).spec_block().len() ==> res is Err
                && final(self).spec_start() == old(self).spec_start() && final(self).spec_end() == old(
                self,
            ).spec_end(),
            old(self).wf() && old(self).spec_end() + len <= old(self).spec_block().len() ==> res is Ok
                && final(self).spec_start() == old(self).spec_start() && final(self).spec_end() == old(
                self,
            ).spec_end() + len,
    {
        if self.end > self.bytes.len() || (len as usize) > self.bytes.len() - self.end {
            return Err(NotEnoughTailRoom);
        }
        self.end = self.end + len as usize;
        Ok(self.window_mut())
    }
}

impl TrimFromStart for TestBuffer {
    type Error = MemoryBufferNotLongEnough;

    open spec fn spec_can_trim_from_start(&self, len: u16) -> bool {
        self.spec_start() <= self.spec_end() && len <= self.spec_end() - self.spec_start()
    }

    /// The window from `len` bytes past its start (empty when that does not
    /// lie in the block).
    open spec fn spec_trimmed_data(&self, len: u16) -> Seq<u8> {
        if self.spec_start() + len <= self.spec_end() <= self.spec_block().len() {
            self.spec_block().subrange(self.spec_start() + len, self.spec_end() as int)
        } else {
            Seq::empty()
        }
    }

    /// For a well-formed buffer: the window starts `len` bytes later, ends
    /// where it did, and the block holds `data` in it; nothing is said of
    /// another buffer but where its window lies.
    open spec fn spec_trimmed_from_start(&self, len: u16, data: Seq<u8>, after: TestBuffer) -> bool {
        &&& after.spec_start() == self.spec_start() + len
        &&& after.spec_end() == self.spec_end()
        &&& self.wf() ==> after.spec_block() == self.spec_block().subrange(
            0,
            self.spec_start() + len,
        ) + data + self.spec_block().subrange(self.spec_end() as int, self.spec_block().len() as int)
    }

    /// Drop `len` bytes from the front of the window.
    fn trim_from_start(&mut self, len: u16) -> (res: Result<&mut [u8], MemoryBufferNotLongEnough>)
        ensures
            old(self).wf() && old(self).spec_start() + len > old(self).spec_end() ==> res is Err
                && final(self).spec_start() == old(self).spec_start() && final(self).spec_end() == old(
                self,
            ).spec_end(),
            old(self).wf() && old(self).spec_start() + len <= old(self).spec_end() ==> res is Ok
                && final(self).spec_start() == old(self).spec_start() + len && final(self).spec_end()
                == old(self).spec_end(),
    {
        if self.start > self.end || (len as usize) > self.end - self.start {
            return Err(MemoryBufferNotLongEnough);
        }
        self.start = self.start + len as usize;
        Ok(self.window_mut())
    }
}

impl TrimFromEnd for TestBuffer {
    type Error = MemoryBufferNotLongEnough;

    /// Drop `len` bytes from the end of the window.
    fn trim_from_end(&mut self, len: u16) -> (res: Result<&mut [u8], MemoryBufferNotLongEnough>)
        ensures
            old(self).wf() && old(self).spec_start() + len > old(self).spec_end() ==> res is Err
                && final(self).spec_start() == old(self).spec_start() && final(self).spec_end() == old(
                self,
            ).spec_end(),
            old(self).wf() && old(self).spec_start() + len <= old(self).spec_end() ==> res is Ok
                && final(self).spec_start() == old(self).spec_start() && final(self).spec_end() == old(
                self,
            ).spec_end() - len,
    {
        if self.start > self.end || (len as usize) > self.end - self.start {
            return Err(MemoryBufferNotLongEnough);
        }
        self.end = self.end - len as usize;
        Ok(self.window_mut())
    }
}

} // verus!
